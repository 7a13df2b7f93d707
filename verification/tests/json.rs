use syncthing_events::syncthing::decode::{FromJson, JsonMap};
use syncthing_events::syncthing::json::{Field, JsonNumber, JsonValue};
use syncthing_events::syncthing::text::{decimal_text, join3};

fn s(text: &str) -> JsonValue {
    JsonValue::String(text.to_string())
}

fn n(value: u64) -> JsonValue {
    JsonValue::Number(JsonNumber::PosInt(value))
}

fn found(field: Field) -> Option<JsonValue> {
    match field {
        Field::Found(v) => Some(v.clone()),
        _ => None,
    }
}

#[test]
fn field_of_an_object_goes_by_name() {
    let object = JsonValue::Object(vec![
        ("a".to_string(), n(1)),
        ("b".to_string(), s("x")),
        ("a".to_string(), n(2)),
    ]);
    assert_eq!(found(object.field("b", 5, 9)), Some(s("x")));
    assert!(matches!(object.field("b", 0, 0), Field::Found(_)));
    assert!(matches!(object.field("a", 0, 3), Field::Clash));
    assert!(matches!(object.field("c", 0, 3), Field::Missing));
    assert!(matches!(object.field("", 0, 3), Field::Missing));
    assert!(matches!(object.field("B", 0, 3), Field::Missing));
}

#[test]
fn field_of_an_array_goes_by_position() {
    let array = JsonValue::Array(vec![n(1), s("x"), JsonValue::Null]);
    assert_eq!(found(array.field("whatever", 0, 3)), Some(n(1)));
    assert_eq!(found(array.field("whatever", 1, 3)), Some(s("x")));
    assert_eq!(found(array.field("whatever", 2, 3)), Some(JsonValue::Null));
    assert!(matches!(array.field("whatever", 0, 2), Field::Clash));
    assert!(matches!(array.field("whatever", 0, 4), Field::Clash));
    assert!(matches!(array.field("whatever", 3, 3), Field::Clash));
}

#[test]
fn other_values_have_no_fields() {
    for value in [JsonValue::Null, JsonValue::Bool(true), n(1), s("a")] {
        assert!(matches!(value.field("a", 0, 1), Field::Clash));
    }
}

#[test]
fn bounded_takes_integers_in_range() {
    assert_eq!(JsonNumber::PosInt(0).bounded(255), Some(0));
    assert_eq!(JsonNumber::PosInt(255).bounded(255), Some(255));
    assert_eq!(JsonNumber::PosInt(256).bounded(255), None);
    assert_eq!(JsonNumber::PosInt(u64::MAX).bounded(u64::MAX), Some(u64::MAX));
    assert_eq!(JsonNumber::NegInt(12).bounded(255), Some(12));
    assert_eq!(JsonNumber::NegInt(-1).bounded(255), None);
    assert_eq!(JsonNumber::NegInt(i64::MIN).bounded(u64::MAX), None);
    assert_eq!(JsonNumber::Float(1.0f64.to_bits()).bounded(255), None);
    assert_eq!(JsonNumber::Float(0).bounded(255), None);
}

#[test]
fn clone_is_a_deep_copy() {
    let value = JsonValue::Object(vec![(
        "a".to_string(),
        JsonValue::Array(vec![n(1), JsonValue::Object(vec![("b".to_string(), s("c"))])]),
    )]);
    assert_eq!(value.clone(), value);
}

#[test]
fn optional_text_is_absent_where_missing_or_null() {
    let object = JsonValue::Object(vec![
        ("null".to_string(), JsonValue::Null),
        ("text".to_string(), s("x")),
        ("number".to_string(), n(1)),
    ]);
    assert_eq!(<Option<String>>::read(&object.field("gone", 0, 1)), Some(None));
    assert_eq!(<Option<String>>::read(&object.field("null", 0, 1)), Some(None));
    assert_eq!(<Option<String>>::read(&object.field("text", 0, 1)), Some(Some("x".to_string())));
    assert_eq!(<Option<String>>::read(&object.field("number", 0, 1)), None);
    assert_eq!(<Option<String>>::read(&Field::Clash), None);
    assert_eq!(<String>::read(&object.field("gone", 0, 1)), None);
    assert_eq!(<String>::read(&object.field("null", 0, 1)), None);
}

#[test]
fn lists_and_maps_need_every_item_to_fit() {
    let good = JsonValue::Array(vec![n(1), n(2)]);
    let bad = JsonValue::Array(vec![n(1), s("2")]);
    assert_eq!(<Vec<u16>>::read(&Field::Found(&good)), Some(vec![1, 2]));
    assert_eq!(<Vec<u16>>::read(&Field::Found(&bad)), None);
    assert_eq!(<Vec<u16>>::read(&Field::Found(&JsonValue::Array(vec![]))), Some(vec![]));
    assert_eq!(<Vec<u16>>::read(&Field::Found(&JsonValue::Object(vec![]))), None);
    let map = JsonValue::Object(vec![("x".to_string(), n(300)), ("y".to_string(), n(2))]);
    assert_eq!(
        <JsonMap<u16>>::read(&Field::Found(&map)),
        Some(JsonMap { entries: vec![("x".to_string(), 300), ("y".to_string(), 2)] })
    );
    assert_eq!(<JsonMap<u8>>::read(&Field::Found(&map)), None);
    assert_eq!(<JsonMap<u8>>::read(&Field::Found(&good)), None);
    assert_eq!(<bool>::read(&Field::Found(&JsonValue::Bool(false))), Some(false));
    assert_eq!(<bool>::read(&Field::Found(&n(0))), None);
    assert_eq!(<JsonNumber>::read(&Field::Found(&n(0))), Some(JsonNumber::PosInt(0)));
    assert_eq!(<JsonValue>::read(&Field::Found(&bad)), Some(bad.clone()));
    assert_eq!(<JsonValue>::read(&Field::Missing), None);
}

#[test]
fn ids_take_every_integer_that_sixty_four_bits_hold() {
    let read = |number: JsonNumber| <u64>::read(&Field::Found(&JsonValue::Number(number)));
    assert_eq!(read(JsonNumber::PosInt(0)), Some(0));
    assert_eq!(read(JsonNumber::PosInt(65536)), Some(65536));
    assert_eq!(read(JsonNumber::PosInt(u64::MAX)), Some(u64::MAX));
    assert_eq!(read(JsonNumber::NegInt(7)), Some(7));
    assert_eq!(read(JsonNumber::NegInt(-1)), None);
    assert_eq!(read(JsonNumber::Float(2.0f64.to_bits())), None);
    assert_eq!(<u64>::read(&Field::Found(&s("1"))), None);
    assert_eq!(<u64>::read(&Field::Missing), None);
    assert_eq!(<u16>::read(&Field::Found(&n(65536))), None);
    assert_eq!(<u16>::read(&Field::Found(&n(65535))), Some(65535));
}

#[test]
fn numbers_are_written_in_decimal() {
    assert_eq!(decimal_text(0), "0");
    assert_eq!(decimal_text(9), "9");
    assert_eq!(decimal_text(10), "10");
    assert_eq!(decimal_text(8384), "8384");
    assert_eq!(decimal_text(1234567890), "1234567890");
    assert_eq!(decimal_text(u64::MAX), "18446744073709551615");
    assert_eq!(join3("a", "", "bc"), "abc");
}
