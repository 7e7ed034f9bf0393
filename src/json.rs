//! The JSON value model the wire codec works on.
use vstd::prelude::*;

verus! {

/// A JSON value as handed over by the JSON text layer.
#[derive(Debug, PartialEq, Eq)]
pub enum JsonValue {
    Null,
    Bool(bool),
    I64(i64),
    U64(u64),
    /// A number with a fraction or an exponent, kept as its text.
    Float(String),
    Str(String),
    Array(Vec<JsonValue>),
    Object(Vec<(String, JsonValue)>),
}

/// The mathematical view of a [`JsonValue`].
pub enum JsonModel {
    Null,
    Bool(bool),
    I64(i64),
    U64(u64),
    Float(Seq<char>),
    Str(Seq<char>),
    Array(Seq<JsonModel>),
    Object(Seq<(Seq<char>, JsonModel)>),
}

impl JsonValue {
    pub open spec fn view(&self) -> JsonModel
        decreases self,
    {
        match self {
            JsonValue::Null => JsonModel::Null,
            JsonValue::Bool(b) => JsonModel::Bool(*b),
            JsonValue::I64(i) => JsonModel::I64(*i),
            JsonValue::U64(u) => JsonModel::U64(*u),
            JsonValue::Float(t) => JsonModel::Float(t@),
            JsonValue::Str(s) => JsonModel::Str(s@),
            JsonValue::Array(a) => JsonModel::Array(
                Seq::new(a.len() as nat, |i: int| if 0 <= i < a.len() { a[i].view() } else { JsonModel::Null }),
            ),
            JsonValue::Object(es) => JsonModel::Object(
                Seq::new(es.len() as nat, |i: int| if 0 <= i < es.len() { (es[i].0@, es[i].1.view()) } else { (Seq::empty(), JsonModel::Null) }),
            ),
        }
    }
}

} // verus!

verus! {

/// The character of a decimal digit.
pub open spec fn digit_char(d: nat) -> char {
    if d == 0 { '0' } else if d == 1 { '1' } else if d == 2 { '2' } else if d == 3 { '3' }
    else if d == 4 { '4' } else if d == 5 { '5' } else if d == 6 { '6' } else if d == 7 { '7' }
    else if d == 8 { '8' } else { '9' }
}

pub open spec fn is_digit(c: char) -> bool {
    '0' <= c && c <= '9'
}

pub open spec fn digit_value(c: char) -> nat {
    (c as int - '0' as int) as nat
}

/// The canonical decimal rendering of `n`: no sign, no leading zeros.
pub open spec fn decimal_text(n: nat) -> Seq<char>
    decreases n,
{
    if n < 10 {
        seq![digit_char(n)]
    } else {
        decimal_text(n / 10).push(digit_char(n % 10))
    }
}

/// The value of a run of decimal digits.
pub open spec fn digits_value(s: Seq<char>) -> nat
    decreases s.len(),
{
    if s.len() == 0 {
        0
    } else {
        digits_value(s.drop_last()) * 10 + digit_value(s.last())
    }
}

pub open spec fn all_digits(s: Seq<char>) -> bool {
    forall|i: int| 0 <= i < s.len() ==> is_digit(#[trigger] s[i])
}

/// What an unsigned integer's text reads as: an optional `+`, then one or
/// more decimal digits.
pub open spec fn unsigned_text_value(s: Seq<char>) -> Option<nat> {
    let body = if s.len() > 0 && s[0] == '+' { s.drop_first() } else { s };
    if body.len() > 0 && all_digits(body) {
        Some(digits_value(body))
    } else {
        None
    }
}

/// The value of the first entry named `name`, if any.
pub open spec fn find_field(es: Seq<(Seq<char>, JsonModel)>, name: Seq<char>) -> Option<JsonModel>
    decreases es.len(),
{
    if es.len() == 0 {
        None
    } else if es[0].0 == name {
        Some(es[0].1)
    } else {
        find_field(es.drop_first(), name)
    }
}

pub proof fn lemma_digit_char(d: nat)
    requires
        d < 10,
    ensures
        is_digit(digit_char(d)),
        digit_value(digit_char(d)) == d,
{
}

pub proof fn lemma_decimal_text_digits(n: nat)
    ensures
        decimal_text(n).len() > 0,
        all_digits(decimal_text(n)),
        digits_value(decimal_text(n)) == n,
        decimal_text(n)[0] == '0' ==> n == 0,
    decreases n,
{
    lemma_digit_char(n % 10);
    let t = decimal_text(n);
    if n >= 10 {
        lemma_decimal_text_digits(n / 10);
        assert(t.drop_last() =~= decimal_text(n / 10));
        assert(t.last() == digit_char(n % 10));
        assert(n / 10 * 10 + n % 10 == n);
        assert(digits_value(t) == digits_value(t.drop_last()) * 10 + digit_value(t.last()));
    } else {
        assert(t.drop_last() =~= Seq::<char>::empty());
        assert(t.last() == digit_char(n));
        assert(digits_value(t) == digits_value(t.drop_last()) * 10 + digit_value(t.last()));
    }
}

/// Distinct numbers have distinct decimal renderings.
pub proof fn lemma_decimal_text_injective(a: nat, b: nat)
    requires
        decimal_text(a) == decimal_text(b),
    ensures
        a == b,
{
    lemma_decimal_text_digits(a);
    lemma_decimal_text_digits(b);
}

fn digit_str(d: u64) -> (r: &'static str)
    requires
        d < 10,
    ensures
        r@ == seq![digit_char(d as nat)],
{
    if d == 0 {
        proof { reveal_strlit("0"); }
        "0"
    } else if d == 1 {
        proof { reveal_strlit("1"); }
        "1"
    } else if d == 2 {
        proof { reveal_strlit("2"); }
        "2"
    } else if d == 3 {
        proof { reveal_strlit("3"); }
        "3"
    } else if d == 4 {
        proof { reveal_strlit("4"); }
        "4"
    } else if d == 5 {
        proof { reveal_strlit("5"); }
        "5"
    } else if d == 6 {
        proof { reveal_strlit("6"); }
        "6"
    } else if d == 7 {
        proof { reveal_strlit("7"); }
        "7"
    } else if d == 8 {
        proof { reveal_strlit("8"); }
        "8"
    } else {
        proof { reveal_strlit("9"); }
        "9"
    }
}

/// Renders `n` in decimal.
pub fn decimal(n: u64) -> (r: String)
    ensures
        r@ == decimal_text(n as nat),
    decreases n,
{
    if n < 10 {
        String::from_str(digit_str(n))
    } else {
        let mut s = decimal(n / 10);
        s.append(digit_str(n % 10));
        s
    }
}

/// Reads `s` as an unsigned integer no greater than `max`.
pub fn parse_unsigned(s: &str, max: u64) -> (r: Option<u64>)
    ensures
        r == (match unsigned_text_value(s@) {
            Some(n) => if n <= max { Some(n as u64) } else { None },
            None => None,
        }),
{
    let len = s.unicode_len();
    let mut start: usize = 0;
    if len > 0 && s.get_char(0) == '+' {
        start = 1;
    }
    let ghost body = s@.subrange(start as int, len as int);
    proof {
        if start == 1 {
            assert(body =~= s@.drop_first());
        } else {
            assert(body =~= s@);
        }
    }
    if start == len {
        assert(body.len() == 0);
        return None;
    }
    let mut i: usize = start;
    let mut acc: u64 = 0;
    let mut over = false;
    while i < len
        invariant
            start <= i <= len,
            len == s@.len(),
            body == s@.subrange(start as int, len as int),
            body == (if s@.len() > 0 && s@[0] == '+' { s@.drop_first() } else { s@ }),
            all_digits(s@.subrange(start as int, i as int)),
            over ==> digits_value(s@.subrange(start as int, i as int)) > max,
            !over ==> acc == digits_value(s@.subrange(start as int, i as int)),
            !over ==> acc <= max,
        decreases len - i,
    {
        let c = s.get_char(i);
        if !('0' <= c && c <= '9') {
            assert(body[i - start] == c);
            assert(!is_digit(body[i - start]));
            assert(!all_digits(body));
            return None;
        }
        let d = (c as u32 - '0' as u32) as u64;
        let ghost prev = s@.subrange(start as int, i as int);
        let ghost next = s@.subrange(start as int, i + 1);
        assert(next.drop_last() =~= prev);
        assert(digits_value(next) == digits_value(prev) * 10 + d);
        if !over {
            if d > max || acc > (max - d) / 10 {
                assert(acc * 10 + d > max) by (nonlinear_arith)
                    requires d > max || acc > (max - d) / 10, d <= 9;
                over = true;
            } else {
                assert(acc * 10 + d <= max) by (nonlinear_arith)
                    requires d <= max, acc <= (max - d) / 10;
                acc = acc * 10 + d;
            }
        } else {
            assert(digits_value(prev) * 10 + d > max) by (nonlinear_arith)
                requires digits_value(prev) > max;
        }
        i = i + 1;
    }
    assert(s@.subrange(start as int, len as int) =~= body);
    assert(all_digits(body));
    assert(unsigned_text_value(s@) == Some(digits_value(body)));
    if over {
        None
    } else {
        Some(acc)
    }
}

impl JsonValue {
    /// The value of the first entry named `name` in an object.
    pub fn find(&self, name: &str) -> (r: Option<&JsonValue>)
        requires
            self@ is Object,
        ensures
            match r {
                Some(v) => find_field(self@->Object_0, name@) == Some(v@),
                None => find_field(self@->Object_0, name@) is None,
            },
    {
        match self {
            JsonValue::Object(es) => {
                let ghost model = self@->Object_0;
                let key = name.to_owned();
                let mut i: usize = 0;
                assert(model.subrange(0, model.len() as int) =~= model);
                while i < es.len()
                    invariant
                        0 <= i <= es.len(),
                        model.len() == es.len(),
                        key@ == name@,
                        model == self@->Object_0,
                        forall|j: int| 0 <= j < es.len() ==> #[trigger] model[j] == (es@[j].0@, es@[j].1@),
                        find_field(model, name@) == find_field(model.subrange(i as int, model.len() as int), name@),
                    decreases es.len() - i,
                {
                    let ghost rest = model.subrange(i as int, model.len() as int);
                    assert(rest.drop_first() =~= model.subrange(i + 1, model.len() as int));
                    if es[i].0 == key {
                        return Some(&es[i].1);
                    }
                    i = i + 1;
                }
                None
            },
            _ => None,
        }
    }
}

} // verus!
