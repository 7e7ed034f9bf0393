//! The service's nonstandard encodings: integers that may arrive as text,
//! booleans as integers, three-state flags, and lists sent as objects keyed
//! by decimal indices.
use vstd::prelude::*;
use crate::json::{
    JsonValue, JsonModel, decimal, decimal_text, find_field, parse_unsigned, unsigned_text_value,
    lemma_decimal_text_injective,
};

verus! {

/// What the decoder wanted to find.
#[derive(Clone, Copy, Debug, PartialEq, Eq)]
pub enum ExpectedKind {
    Number,
    Integer,
    String,
    Object,
    List,
    Boolean,
}

/// Why a response body did not decode.
#[derive(Clone, Debug, PartialEq, Eq)]
pub enum DecodeError {
    /// The body was not JSON text.
    Syntax(String),
    Expected(ExpectedKind),
    MissingField(&'static str),
    /// An enumeration code outside its range.
    InvalidVariant(u64),
    InvalidUrl,
    /// An index-keyed object whose keys are not exactly `0`, `1`, ... in decimal.
    BadIndexKeys,
    /// The service answered a batch with a different number of results.
    ResultCount,
}

/// Presence of images or videos in an item.
#[derive(Clone, Copy, Debug, PartialEq, Eq, Structural)]
pub enum PocketItemHas {
    No,
    Yes,
    Is,
}

/// Lifecycle status of a saved item.
#[derive(Clone, Copy, Debug, PartialEq, Eq, Structural)]
pub enum PocketItemStatus {
    Normal,
    Archived,
    Deleted,
}

/// A point in time, in whole seconds since the epoch.
#[derive(Clone, Copy, Debug, PartialEq, Eq, Structural)]
pub struct Timestamp {
    pub sec: i64,
}

pub open spec fn read_unsigned(v: JsonModel, max: u64) -> Result<u64, DecodeError> {
    match v {
        JsonModel::U64(u) => if u <= max { Ok(u) } else { Err(DecodeError::Expected(ExpectedKind::Number)) },
        JsonModel::I64(i) => if 0 <= i && i <= max { Ok(i as u64) } else { Err(DecodeError::Expected(ExpectedKind::Number)) },
        JsonModel::Float(_) => Err(DecodeError::Expected(ExpectedKind::Integer)),
        JsonModel::Str(s) => match unsigned_text_value(s) {
            Some(n) => if n <= max { Ok(n as u64) } else { Err(DecodeError::Expected(ExpectedKind::Number)) },
            None => Err(DecodeError::Expected(ExpectedKind::Number)),
        },
        _ => Err(DecodeError::Expected(ExpectedKind::Number)),
    }
}

/// A boolean sent as an integer: any nonzero integer is `true`.
pub open spec fn read_flag(v: JsonModel) -> Result<bool, DecodeError> {
    match v {
        JsonModel::I64(i) => Ok(i != 0),
        _ => match read_unsigned(v, u64::MAX) {
            Ok(n) => Ok(n != 0),
            Err(e) => Err(e),
        },
    }
}

pub open spec fn has_code(h: PocketItemHas) -> u64 {
    match h {
        PocketItemHas::No => 0,
        PocketItemHas::Yes => 1,
        PocketItemHas::Is => 2,
    }
}

pub open spec fn read_has(v: JsonModel) -> Result<PocketItemHas, DecodeError> {
    match read_unsigned(v, u64::MAX) {
        Ok(n) => if n == 0 {
            Ok(PocketItemHas::No)
        } else if n == 1 {
            Ok(PocketItemHas::Yes)
        } else if n == 2 {
            Ok(PocketItemHas::Is)
        } else {
            Err(DecodeError::InvalidVariant(n))
        },
        Err(e) => Err(e),
    }
}

pub open spec fn status_code(s: PocketItemStatus) -> u64 {
    match s {
        PocketItemStatus::Normal => 0,
        PocketItemStatus::Archived => 1,
        PocketItemStatus::Deleted => 2,
    }
}

pub open spec fn read_status(v: JsonModel) -> Result<PocketItemStatus, DecodeError> {
    match read_unsigned(v, u64::MAX) {
        Ok(n) => if n == 0 {
            Ok(PocketItemStatus::Normal)
        } else if n == 1 {
            Ok(PocketItemStatus::Archived)
        } else if n == 2 {
            Ok(PocketItemStatus::Deleted)
        } else {
            Err(DecodeError::InvalidVariant(n))
        },
        Err(e) => Err(e),
    }
}

/// Seconds since the epoch, sent as an unsigned integer.
pub open spec fn read_time(v: JsonModel) -> Result<Timestamp, DecodeError> {
    match read_unsigned(v, u64::MAX) {
        Ok(n) => Ok(Timestamp { sec: n as i64 }),
        Err(e) => Err(e),
    }
}

pub open spec fn read_str(v: JsonModel) -> Result<Seq<char>, DecodeError> {
    match v {
        JsonModel::Str(s) => Ok(s),
        _ => Err(DecodeError::Expected(ExpectedKind::String)),
    }
}

/// The field `name` of an object: absent fields are `None`.
pub open spec fn field_value(v: JsonModel, name: &'static str) -> Result<Option<JsonModel>, DecodeError> {
    match v {
        JsonModel::Object(es) => Ok(find_field(es, name@)),
        _ => Err(DecodeError::Expected(ExpectedKind::Object)),
    }
}

/// A required field, decoded by `read`.
pub open spec fn required<T>(
    f: Result<Option<JsonModel>, DecodeError>,
    name: &'static str,
    read: spec_fn(JsonModel) -> Result<T, DecodeError>,
) -> Result<T, DecodeError> {
    match f {
        Ok(Some(x)) => read(x),
        Ok(None) => Err(DecodeError::MissingField(name)),
        Err(e) => Err(e),
    }
}

pub open spec fn field_unsigned(v: JsonModel, name: &'static str, max: u64) -> Result<u64, DecodeError> {
    required(field_value(v, name), name, |x: JsonModel| read_unsigned(x, max))
}

pub open spec fn field_flag(v: JsonModel, name: &'static str) -> Result<bool, DecodeError> {
    required(field_value(v, name), name, |x: JsonModel| read_flag(x))
}

pub open spec fn field_has(v: JsonModel, name: &'static str) -> Result<PocketItemHas, DecodeError> {
    required(field_value(v, name), name, |x: JsonModel| read_has(x))
}

pub open spec fn field_status(v: JsonModel, name: &'static str) -> Result<PocketItemStatus, DecodeError> {
    required(field_value(v, name), name, |x: JsonModel| read_status(x))
}

pub open spec fn field_time(v: JsonModel, name: &'static str) -> Result<Timestamp, DecodeError> {
    required(field_value(v, name), name, |x: JsonModel| read_time(x))
}

pub open spec fn field_str(v: JsonModel, name: &'static str) -> Result<Seq<char>, DecodeError> {
    required(field_value(v, name), name, |x: JsonModel| read_str(x))
}

/// An optional text field: absent and `null` both mean `None`.
pub open spec fn field_opt_str(v: JsonModel, name: &'static str) -> Result<Option<Seq<char>>, DecodeError> {
    match field_value(v, name) {
        Ok(Some(JsonModel::Null)) | Ok(None) => Ok(None),
        Ok(Some(x)) => match read_str(x) {
            Ok(s) => Ok(Some(s)),
            Err(e) => Err(e),
        },
        Err(e) => Err(e),
    }
}

/// The first error of a run of checks, in order.
pub open spec fn first_err(rs: Seq<Result<(), DecodeError>>) -> Result<(), DecodeError>
    decreases rs.len(),
{
    if rs.len() == 0 {
        Ok(())
    } else {
        match first_err(rs.drop_last()) {
            Err(e) => Err(e),
            Ok(_) => rs.last(),
        }
    }
}

/// `first` must succeed before `rest` counts.
pub open spec fn then<T>(first: Result<T, DecodeError>, rest: Result<(), DecodeError>) -> Result<(), DecodeError> {
    match first {
        Ok(_) => rest,
        Err(e) => Err(e),
    }
}

/// The values of an index-keyed object, in index order.
pub open spec fn index_keyed_values(es: Seq<(Seq<char>, JsonModel)>) -> Result<Seq<JsonModel>, DecodeError> {
    if forall|k: int| 0 <= k < es.len() ==> (#[trigger] find_field(es, decimal_text(k as nat))) is Some {
        Ok(Seq::new(es.len(), |k: int| find_field(es, decimal_text(k as nat))->0))
    } else {
        Err(DecodeError::BadIndexKeys)
    }
}

/// The elements of a list: an array, or an index-keyed object.
pub open spec fn list_values(v: JsonModel) -> Result<Seq<JsonModel>, DecodeError> {
    match v {
        JsonModel::Array(a) => Ok(a),
        JsonModel::Object(es) => index_keyed_values(es),
        _ => Err(DecodeError::Expected(ExpectedKind::List)),
    }
}

/// An index-keyed object holding `s`.
pub open spec fn index_keyed(s: Seq<JsonModel>) -> JsonModel {
    JsonModel::Object(Seq::new(s.len(), |k: int| (decimal_text(k as nat), s[k])))
}

pub open spec fn flag_json(b: bool) -> JsonModel {
    JsonModel::U64(if b { 1 } else { 0 })
}

pub open spec fn viewed<T: View>(r: Result<T, DecodeError>) -> Result<T::V, DecodeError> {
    match r {
        Ok(t) => Ok(t@),
        Err(e) => Err(e),
    }
}

pub proof fn lemma_first_err_extend(rs: Seq<Result<(), DecodeError>>, i: int)
    requires
        0 <= i <= rs.len(),
        first_err(rs.take(i)) is Err,
    ensures
        first_err(rs) == first_err(rs.take(i)),
    decreases rs.len() - i,
{
    if i < rs.len() {
        assert(rs.take(i + 1).drop_last() =~= rs.take(i));
        lemma_first_err_extend(rs, i + 1);
    } else {
        assert(rs.take(i) =~= rs);
    }
}

pub proof fn lemma_find_field_at(es: Seq<(Seq<char>, JsonModel)>, j: int, name: Seq<char>)
    requires
        0 <= j < es.len(),
        es[j].0 == name,
        forall|i: int| 0 <= i < j ==> es[i].0 != name,
    ensures
        find_field(es, name) == Some(es[j].1),
    decreases j,
{
    if j > 0 {
        let rest = es.drop_first();
        assert forall|i: int| 0 <= i < j - 1 implies rest[i].0 != name by {
            assert(rest[i] == es[i + 1]);
        }
        lemma_find_field_at(rest, j - 1, name);
    }
}

/// A three-state flag decodes to the value it was encoded from.
pub proof fn lemma_has_round_trip(h: PocketItemHas)
    ensures
        read_has(JsonModel::U64(has_code(h))) == Ok::<PocketItemHas, DecodeError>(h),
{
}

/// An item status decodes to the value it was encoded from.
pub proof fn lemma_status_round_trip(s: PocketItemStatus)
    ensures
        read_status(JsonModel::U64(status_code(s))) == Ok::<PocketItemStatus, DecodeError>(s),
{
}

/// A boolean decodes to the value it was encoded from, and every nonzero
/// integer decodes to `true`.
pub proof fn lemma_flag_round_trip(b: bool, n: u64, i: i64)
    ensures
        read_flag(flag_json(b)) == Ok::<bool, DecodeError>(b),
        n != 0 ==> read_flag(JsonModel::U64(n)) == Ok::<bool, DecodeError>(true),
        i != 0 ==> read_flag(JsonModel::I64(i)) == Ok::<bool, DecodeError>(true),
{
}

/// A list sent as an index-keyed object decodes to the same elements in the
/// same order; an empty array and an empty object both decode to no elements.
pub proof fn lemma_index_keyed_round_trip(s: Seq<JsonModel>)
    ensures
        list_values(index_keyed(s)) == Ok::<Seq<JsonModel>, DecodeError>(s),
        list_values(JsonModel::Array(Seq::empty())) == Ok::<Seq<JsonModel>, DecodeError>(Seq::empty()),
        list_values(JsonModel::Object(Seq::empty())) == Ok::<Seq<JsonModel>, DecodeError>(Seq::empty()),
{
    let es = index_keyed(s)->Object_0;
    assert forall|k: int| 0 <= k < es.len() implies (#[trigger] find_field(es, decimal_text(k as nat))) == Some(s[k]) by {
        assert forall|i: int| 0 <= i < k implies es[i].0 != decimal_text(k as nat) by {
            if es[i].0 == decimal_text(k as nat) {
                lemma_decimal_text_injective(i as nat, k as nat);
            }
        }
        lemma_find_field_at(es, k, decimal_text(k as nat));
    }
    assert(index_keyed_values(es) == Ok::<Seq<JsonModel>, DecodeError>(s)) by {
        assert(Seq::new(es.len(), |k: int| find_field(es, decimal_text(k as nat))->0) =~= s);
    }
    let empty = Seq::<(Seq<char>, JsonModel)>::empty();
    assert(Seq::new(empty.len(), |k: int| find_field(empty, decimal_text(k as nat))->0) =~= Seq::<JsonModel>::empty());
}

} // verus!

verus! {

/// Reads an unsigned integer no greater than `max`; numbers may arrive as
/// decimal text.
pub fn read_unsigned_value(v: &JsonValue, max: u64) -> (r: Result<u64, DecodeError>)
    ensures
        r == read_unsigned(v@, max),
{
    match v {
        JsonValue::U64(u) => if *u <= max {
            Ok(*u)
        } else {
            Err(DecodeError::Expected(ExpectedKind::Number))
        },
        JsonValue::I64(i) => if 0 <= *i && *i as u64 <= max {
            Ok(*i as u64)
        } else {
            Err(DecodeError::Expected(ExpectedKind::Number))
        },
        JsonValue::Float(_) => Err(DecodeError::Expected(ExpectedKind::Integer)),
        JsonValue::Str(s) => match parse_unsigned(s.as_str(), max) {
            Some(n) => Ok(n),
            None => Err(DecodeError::Expected(ExpectedKind::Number)),
        },
        _ => Err(DecodeError::Expected(ExpectedKind::Number)),
    }
}

pub fn read_flag_value(v: &JsonValue) -> (r: Result<bool, DecodeError>)
    ensures
        r == read_flag(v@),
{
    match v {
        JsonValue::I64(i) => Ok(*i != 0),
        _ => match read_unsigned_value(v, u64::MAX) {
            Ok(n) => Ok(n != 0),
            Err(e) => Err(e),
        },
    }
}

impl PocketItemHas {
    pub fn decode(v: &JsonValue) -> (r: Result<PocketItemHas, DecodeError>)
        ensures
            r == read_has(v@),
    {
        match read_unsigned_value(v, u64::MAX) {
            Ok(0) => Ok(PocketItemHas::No),
            Ok(1) => Ok(PocketItemHas::Yes),
            Ok(2) => Ok(PocketItemHas::Is),
            Ok(n) => Err(DecodeError::InvalidVariant(n)),
            Err(e) => Err(e),
        }
    }

    pub fn encode(&self) -> (r: JsonValue)
        ensures
            r@ == JsonModel::U64(has_code(*self)),
    {
        match self {
            PocketItemHas::No => JsonValue::U64(0),
            PocketItemHas::Yes => JsonValue::U64(1),
            PocketItemHas::Is => JsonValue::U64(2),
        }
    }
}

impl PocketItemStatus {
    pub fn decode(v: &JsonValue) -> (r: Result<PocketItemStatus, DecodeError>)
        ensures
            r == read_status(v@),
    {
        match read_unsigned_value(v, u64::MAX) {
            Ok(0) => Ok(PocketItemStatus::Normal),
            Ok(1) => Ok(PocketItemStatus::Archived),
            Ok(2) => Ok(PocketItemStatus::Deleted),
            Ok(n) => Err(DecodeError::InvalidVariant(n)),
            Err(e) => Err(e),
        }
    }

    pub fn encode(&self) -> (r: JsonValue)
        ensures
            r@ == JsonModel::U64(status_code(*self)),
    {
        match self {
            PocketItemStatus::Normal => JsonValue::U64(0),
            PocketItemStatus::Archived => JsonValue::U64(1),
            PocketItemStatus::Deleted => JsonValue::U64(2),
        }
    }
}

/// Encodes a boolean as the integer 0 or 1.
pub fn encode_flag(b: bool) -> (r: JsonValue)
    ensures
        r@ == flag_json(b),
{
    JsonValue::U64(if b { 1 } else { 0 })
}

pub fn read_time_value(v: &JsonValue) -> (r: Result<Timestamp, DecodeError>)
    ensures
        r == read_time(v@),
{
    match read_unsigned_value(v, u64::MAX) {
        Ok(n) => Ok(Timestamp { sec: n as i64 }),
        Err(e) => Err(e),
    }
}

pub fn read_str_value(v: &JsonValue) -> (r: Result<String, DecodeError>)
    ensures
        viewed(r) == read_str(v@),
{
    match v {
        JsonValue::Str(s) => Ok(s.clone()),
        _ => Err(DecodeError::Expected(ExpectedKind::String)),
    }
}

/// The field `name` of an object.
pub fn field<'a>(v: &'a JsonValue, name: &'static str) -> (r: Result<Option<&'a JsonValue>, DecodeError>)
    ensures
        match r {
            Ok(Some(x)) => field_value(v@, name) == Ok::<Option<JsonModel>, DecodeError>(Some(x@)),
            Ok(None) => field_value(v@, name) == Ok::<Option<JsonModel>, DecodeError>(None),
            Err(e) => field_value(v@, name) == Err::<Option<JsonModel>, DecodeError>(e),
        },
{
    match v {
        JsonValue::Object(_) => Ok(v.find(name)),
        _ => Err(DecodeError::Expected(ExpectedKind::Object)),
    }
}

pub fn field_unsigned_value(v: &JsonValue, name: &'static str, max: u64) -> (r: Result<u64, DecodeError>)
    ensures
        r == field_unsigned(v@, name, max),
{
    match field(v, name) {
        Ok(Some(x)) => read_unsigned_value(x, max),
        Ok(None) => Err(DecodeError::MissingField(name)),
        Err(e) => Err(e),
    }
}

pub fn field_usize_value(v: &JsonValue, name: &'static str) -> (r: Result<usize, DecodeError>)
    ensures
        match r {
            Ok(n) => field_unsigned(v@, name, usize::MAX as u64) == Ok::<u64, DecodeError>(n as u64),
            Err(e) => field_unsigned(v@, name, usize::MAX as u64) == Err::<u64, DecodeError>(e),
        },
{
    match field_unsigned_value(v, name, usize::MAX as u64) {
        Ok(n) => Ok(n as usize),
        Err(e) => Err(e),
    }
}

pub fn field_flag_value(v: &JsonValue, name: &'static str) -> (r: Result<bool, DecodeError>)
    ensures
        r == field_flag(v@, name),
{
    match field(v, name) {
        Ok(Some(x)) => read_flag_value(x),
        Ok(None) => Err(DecodeError::MissingField(name)),
        Err(e) => Err(e),
    }
}

pub fn field_has_value(v: &JsonValue, name: &'static str) -> (r: Result<PocketItemHas, DecodeError>)
    ensures
        r == field_has(v@, name),
{
    match field(v, name) {
        Ok(Some(x)) => PocketItemHas::decode(x),
        Ok(None) => Err(DecodeError::MissingField(name)),
        Err(e) => Err(e),
    }
}

pub fn field_status_value(v: &JsonValue, name: &'static str) -> (r: Result<PocketItemStatus, DecodeError>)
    ensures
        r == field_status(v@, name),
{
    match field(v, name) {
        Ok(Some(x)) => PocketItemStatus::decode(x),
        Ok(None) => Err(DecodeError::MissingField(name)),
        Err(e) => Err(e),
    }
}

pub fn field_time_value(v: &JsonValue, name: &'static str) -> (r: Result<Timestamp, DecodeError>)
    ensures
        r == field_time(v@, name),
{
    match field(v, name) {
        Ok(Some(x)) => read_time_value(x),
        Ok(None) => Err(DecodeError::MissingField(name)),
        Err(e) => Err(e),
    }
}

pub fn field_str_value(v: &JsonValue, name: &'static str) -> (r: Result<String, DecodeError>)
    ensures
        viewed(r) == field_str(v@, name),
{
    match field(v, name) {
        Ok(Some(x)) => read_str_value(x),
        Ok(None) => Err(DecodeError::MissingField(name)),
        Err(e) => Err(e),
    }
}

pub fn field_opt_str_value(v: &JsonValue, name: &'static str) -> (r: Result<Option<String>, DecodeError>)
    ensures
        match r {
            Ok(Some(t)) => field_opt_str(v@, name) == Ok::<Option<Seq<char>>, DecodeError>(Some(t@)),
            Ok(None) => field_opt_str(v@, name) == Ok::<Option<Seq<char>>, DecodeError>(None),
            Err(e) => field_opt_str(v@, name) == Err::<Option<Seq<char>>, DecodeError>(e),
        },
{
    match field(v, name) {
        Ok(Some(JsonValue::Null)) | Ok(None) => Ok(None),
        Ok(Some(x)) => match read_str_value(x) {
            Ok(s) => Ok(Some(s)),
            Err(e) => Err(e),
        },
        Err(e) => Err(e),
    }
}

/// The elements of a list, in order: an array, or an object keyed by the
/// decimal indices `0` to `n - 1`, whatever order its entries come in.
pub fn list_items(v: &JsonValue) -> (r: Result<Vec<&JsonValue>, DecodeError>)
    ensures
        match r {
            Ok(items) => list_values(v@) == Ok::<Seq<JsonModel>, DecodeError>(items@.map_values(|x: &JsonValue| x@)),
            Err(e) => list_values(v@) == Err::<Seq<JsonModel>, DecodeError>(e),
        },
{
    match v {
        JsonValue::Array(a) => {
            let mut items: Vec<&JsonValue> = Vec::new();
            let mut i: usize = 0;
            assert(v@->Array_0.len() == a.len());
            assert(forall|k: int| 0 <= k < a.len() ==> v@->Array_0[k] == (#[trigger] a@[k])@);
            while i < a.len()
                invariant
                    0 <= i <= a.len(),
                    v@ is Array,
                    v@->Array_0.len() == a.len(),
                    forall|k: int| 0 <= k < a.len() ==> v@->Array_0[k] == (#[trigger] a@[k])@,
                    items@.len() == i,
                    forall|k: int| 0 <= k < i ==> (#[trigger] items@[k])@ == a@[k]@,
                decreases a.len() - i,
            {
                items.push(&a[i]);
                i = i + 1;
            }
            assert(items@.map_values(|x: &JsonValue| x@) =~= v@->Array_0);
            Ok(items)
        },
        JsonValue::Object(es) => {
            let ghost model = v@->Object_0;
            let n = es.len();
            let mut items: Vec<&JsonValue> = Vec::new();
            let mut k: usize = 0;
            while k < n
                invariant
                    0 <= k <= n,
                    n == es.len(),
                    v@ is Object,
                    model == v@->Object_0,
                    model.len() == n,
                    items@.len() == k,
                    forall|j: int| 0 <= j < k ==> find_field(model, decimal_text(j as nat)) == Some((#[trigger] items@[j])@),
                decreases n - k,
            {
                let key = decimal(k as u64);
                match v.find(key.as_str()) {
                    Some(x) => {
                        items.push(x);
                    },
                    None => {
                        assert(key@ == decimal_text(k as nat));
                        assert(find_field(model, key@) is None);
                        assert(find_field(model, decimal_text((k as int) as nat)) is None);
                        assert(index_keyed_values(model) == Err::<Seq<JsonModel>, DecodeError>(DecodeError::BadIndexKeys)) by {
                            let kk: int = k as int;
                            if forall|j: int| 0 <= j < model.len() ==> (#[trigger] find_field(model, decimal_text(j as nat))) is Some {
                                assert(0 <= kk < model.len());
                                assert(find_field(model, decimal_text(kk as nat)) is Some);
                            }
                        }
                        return Err(DecodeError::BadIndexKeys);
                    },
                }
                k = k + 1;
            }
            assert forall|j: int| 0 <= j < model.len() implies (#[trigger] find_field(model, decimal_text(j as nat))) is Some by {
                assert(find_field(model, decimal_text(j as nat)) == Some(items@[j]@));
            }
            assert(items@.map_values(|x: &JsonValue| x@) =~= Seq::new(model.len(), |j: int| find_field(model, decimal_text(j as nat))->0));
            Ok(items)
        },
        _ => Err(DecodeError::Expected(ExpectedKind::List)),
    }
}

/// Sends a list as an object keyed by the decimal indices of its elements.
pub fn encode_index_keyed(values: Vec<JsonValue>) -> (r: JsonValue)
    requires
        values.len() <= u64::MAX,
    ensures
        r@ == index_keyed(values@.map_values(|x: JsonValue| x@)),
{
    let ghost src = values@;
    let n = values.len();
    let mut es: Vec<(String, JsonValue)> = Vec::new();
    let mut rest = values;
    let mut k: usize = 0;
    while k < n
        invariant
            0 <= k <= n,
            n == src.len(),
            n <= u64::MAX,
            rest@ == src.subrange(k as int, n as int),
            es@.len() == k,
            forall|j: int| 0 <= j < k ==> (#[trigger] es@[j]).0@ == decimal_text(j as nat) && es@[j].1@ == src[j]@,
        decreases n - k,
    {
        let x = rest.remove(0);
        es.push((decimal(k as u64), x));
        k = k + 1;
    }
    let r = JsonValue::Object(es);
    assert(r@->Object_0 =~= index_keyed(src.map_values(|x: JsonValue| x@))->Object_0);
    r
}

} // verus!
