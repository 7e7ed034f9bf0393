use pocket::json::{decimal, parse_unsigned, JsonValue};
use pocket::media::ItemImage;
use pocket::url::WebUrl;
use pocket::wire::{
    encode_flag, encode_index_keyed, list_items, read_flag_value, read_unsigned_value, DecodeError,
    ExpectedKind, PocketItemHas, PocketItemStatus,
};

fn s(text: &str) -> JsonValue {
    JsonValue::Str(text.to_string())
}

fn obj(entries: Vec<(&str, JsonValue)>) -> JsonValue {
    JsonValue::Object(entries.into_iter().map(|(k, v)| (k.to_string(), v)).collect())
}

fn image_json(id: u64) -> JsonValue {
    obj(vec![
        ("item_id", s("7")),
        ("image_id", JsonValue::U64(id)),
        ("src", s("http://example.com/a.png")),
        ("width", s("100")),
        ("height", JsonValue::U64(50)),
        ("caption", s("a caption")),
        ("credit", s("")),
    ])
}

#[test]
fn has_round_trip() {
    for h in [PocketItemHas::No, PocketItemHas::Yes, PocketItemHas::Is] {
        assert_eq!(PocketItemHas::decode(&h.encode()), Ok(h));
    }
    assert!(matches!(PocketItemHas::encode(&PocketItemHas::No), JsonValue::U64(0)));
    assert!(matches!(PocketItemHas::encode(&PocketItemHas::Is), JsonValue::U64(2)));
}

#[test]
fn has_rejects_other_codes() {
    assert_eq!(PocketItemHas::decode(&JsonValue::U64(3)), Err(DecodeError::InvalidVariant(3)));
    assert_eq!(PocketItemHas::decode(&s("1")), Ok(PocketItemHas::Yes));
    assert_eq!(
        PocketItemHas::decode(&JsonValue::I64(-1)),
        Err(DecodeError::Expected(ExpectedKind::Number))
    );
}

#[test]
fn status_round_trip() {
    for st in [PocketItemStatus::Normal, PocketItemStatus::Archived, PocketItemStatus::Deleted] {
        assert_eq!(PocketItemStatus::decode(&st.encode()), Ok(st));
    }
    assert_eq!(PocketItemStatus::decode(&JsonValue::U64(9)), Err(DecodeError::InvalidVariant(9)));
}

#[test]
fn flag_round_trip() {
    assert_eq!(read_flag_value(&encode_flag(true)), Ok(true));
    assert_eq!(read_flag_value(&encode_flag(false)), Ok(false));
    assert!(matches!(encode_flag(true), JsonValue::U64(1)));
}

#[test]
fn flag_nonzero_is_true() {
    assert_eq!(read_flag_value(&JsonValue::U64(5)), Ok(true));
    assert_eq!(read_flag_value(&JsonValue::U64(300)), Ok(true));
    assert_eq!(read_flag_value(&JsonValue::I64(-3)), Ok(true));
    assert_eq!(read_flag_value(&s("0")), Ok(false));
    assert_eq!(read_flag_value(&s("2")), Ok(true));
    assert_eq!(read_flag_value(&JsonValue::Bool(true)), Err(DecodeError::Expected(ExpectedKind::Number)));
}

#[test]
fn unsigned_from_text() {
    assert_eq!(parse_unsigned("123", u64::MAX), Some(123));
    assert_eq!(parse_unsigned("+5", u64::MAX), Some(5));
    assert_eq!(parse_unsigned("", u64::MAX), None);
    assert_eq!(parse_unsigned("+", u64::MAX), None);
    assert_eq!(parse_unsigned("-1", u64::MAX), None);
    assert_eq!(parse_unsigned("12a", u64::MAX), None);
    assert_eq!(parse_unsigned("18446744073709551615", u64::MAX), Some(u64::MAX));
    assert_eq!(parse_unsigned("18446744073709551616", u64::MAX), None);
    assert_eq!(parse_unsigned("65535", 0xffff), Some(65535));
    assert_eq!(parse_unsigned("65536", 0xffff), None);
}

#[test]
fn unsigned_values() {
    assert_eq!(read_unsigned_value(&s("42"), u64::MAX), Ok(42));
    assert_eq!(read_unsigned_value(&JsonValue::I64(7), u64::MAX), Ok(7));
    assert_eq!(read_unsigned_value(&JsonValue::U64(70000), 0xffff), Err(DecodeError::Expected(ExpectedKind::Number)));
    assert_eq!(
        read_unsigned_value(&JsonValue::Float("1.5".to_string()), u64::MAX),
        Err(DecodeError::Expected(ExpectedKind::Integer))
    );
    assert_eq!(read_unsigned_value(&s("x1"), u64::MAX), Err(DecodeError::Expected(ExpectedKind::Number)));
}

#[test]
fn decimal_rendering() {
    assert_eq!(decimal(0), "0");
    assert_eq!(decimal(7), "7");
    assert_eq!(decimal(1234), "1234");
    assert_eq!(decimal(u64::MAX), "18446744073709551615");
}

#[test]
fn index_keyed_round_trip_keeps_order() {
    let values: Vec<JsonValue> = (0..12u64).map(JsonValue::U64).collect();
    let encoded = encode_index_keyed(values);
    match &encoded {
        JsonValue::Object(es) => {
            assert_eq!(es.len(), 12);
            assert_eq!(es[10].0, "10");
        }
        _ => panic!("not an object"),
    }
    let items = list_items(&encoded).unwrap();
    let got: Vec<u64> = items
        .iter()
        .map(|v| match v {
            JsonValue::U64(n) => *n,
            _ => panic!("not a number"),
        })
        .collect();
    assert_eq!(got, (0..12u64).collect::<Vec<u64>>());
}

#[test]
fn index_keyed_ignores_entry_order() {
    let v = obj(vec![("10", JsonValue::U64(10)), ("2", JsonValue::U64(2)), ("0", JsonValue::U64(0)), ("1", JsonValue::U64(1))]);
    assert_eq!(list_items(&v), Err(DecodeError::BadIndexKeys));
    let mut entries: Vec<(&str, JsonValue)> = Vec::new();
    let keys = ["0", "1", "10", "2", "3", "4", "5", "6", "7", "8", "9"];
    for k in keys {
        entries.push((k, JsonValue::U64(k.parse().unwrap())));
    }
    let keyed = obj(entries);
    let items = list_items(&keyed).unwrap();
    for (i, v) in items.iter().enumerate() {
        assert!(matches!(v, JsonValue::U64(n) if *n == i as u64));
    }
}

#[test]
fn empty_lists() {
    assert_eq!(list_items(&JsonValue::Array(Vec::new())).unwrap().len(), 0);
    assert_eq!(list_items(&JsonValue::Object(Vec::new())).unwrap().len(), 0);
    assert_eq!(list_items(&JsonValue::Null), Err(DecodeError::Expected(ExpectedKind::List)));
}

#[test]
fn index_keys_must_be_canonical() {
    assert_eq!(list_items(&obj(vec![("00", JsonValue::Null)])), Err(DecodeError::BadIndexKeys));
    assert_eq!(list_items(&obj(vec![("a", JsonValue::Null)])), Err(DecodeError::BadIndexKeys));
    assert_eq!(list_items(&obj(vec![("1", JsonValue::Null)])), Err(DecodeError::BadIndexKeys));
}

#[test]
fn images_from_index_keyed_object() {
    let list = encode_index_keyed(vec![image_json(1), image_json(2), image_json(3)]);
    let items = list_items(&list).unwrap();
    let images = ItemImage::decode_all(&items).unwrap();
    let ids: Vec<u64> = images.iter().map(|i| i.image_id).collect();
    assert_eq!(ids, vec![1, 2, 3]);
    assert_eq!(images[0].item_id, 7);
    assert_eq!(images[0].width, 100);
    assert_eq!(images[0].caption, "a caption");
    assert_eq!(images[0].src.as_str(), "http://example.com/a.png");
}

#[test]
fn image_missing_field() {
    let v = obj(vec![("item_id", s("7"))]);
    assert_eq!(ItemImage::decode(&v), Err(DecodeError::MissingField("image_id")));
    assert_eq!(ItemImage::decode(&JsonValue::Null), Err(DecodeError::Expected(ExpectedKind::Object)));
}

#[test]
fn image_bad_url() {
    let v = obj(vec![
        ("item_id", s("7")),
        ("image_id", s("1")),
        ("src", s("not a url")),
    ]);
    assert_eq!(ItemImage::decode(&v), Err(DecodeError::InvalidUrl));
}

#[test]
fn url_is_normalized() {
    let u = WebUrl::parse("HTTP://Example.COM").unwrap();
    assert_eq!(u.as_str(), "http://example.com/");
    assert!(WebUrl::parse("example").is_none());
}

#[test]
fn url_with_query_encodes_pairs() {
    let pairs = vec![("a".to_string(), "x y".to_string()), ("b".to_string(), "p:q".to_string())];
    let u = WebUrl::with_query("https://example.net/page", &pairs).unwrap();
    assert_eq!(u.as_str(), "https://example.net/page?a=x+y&b=p%3Aq");
    assert!(WebUrl::with_query("nope", &pairs).is_none());
}
