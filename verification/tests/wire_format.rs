use dt_core::codec::{to_json, to_json_object};
use dt_core::value::{Object, Value};

fn obj(pairs: Vec<(&str, Value)>) -> Object {
    let mut o = Object::new();
    for (k, v) in pairs {
        o.insert(k.to_string(), v);
    }
    o
}

fn s(text: &str) -> Value {
    Value::Str(text.to_string())
}

#[test]
fn wire_form_covers_every_value_kind() {
    let v = Value::Obj(obj(vec![
        ("n", Value::Null),
        ("b", Value::Bool(true)),
        ("i", Value::Int(-42)),
        ("u", Value::Uint(18446744073709551615)),
        ("f", Value::Float("1.5".to_string())),
        ("s", s("hi")),
        ("a", Value::Arr(vec![Value::Int(1), Value::Bool(false)])),
        ("o", Value::Obj(obj(vec![("k", Value::Int(7))]))),
    ]));
    assert_eq!(
        to_json(&v),
        "{\"n\":null,\"b\":true,\"i\":-42,\"u\":18446744073709551615,\"f\":1.5,\"s\":\"hi\",\"a\":[1,false],\"o\":{\"k\":7}}"
    );
}

#[test]
fn wire_form_escapes_strings() {
    let v = Value::Obj(obj(vec![("q", s("a\"b\\c\nd"))]));
    assert_eq!(to_json(&v), "{\"q\":\"a\\\"b\\\\c\\u000ad\"}");
}

#[test]
fn wire_form_of_document_matches_value_form() {
    let o = obj(vec![("x", Value::Int(1))]);
    let via_obj = to_json_object(&o);
    let via_val = to_json(&Value::Obj(o));
    assert_eq!(via_obj, via_val);
    assert_eq!(via_obj, "{\"x\":1}");
}

#[test]
fn empty_containers_serialize_bare() {
    assert_eq!(to_json(&Value::Arr(Vec::new())), "[]");
    assert_eq!(to_json(&Value::Obj(Object::new())), "{}");
}

#[test]
fn number_wire_form_reads_back() {
    let mut digits: Vec<char> = Vec::new();
    dt_core::text::push_dec_digits(90210, &mut digits);
    let text = dt_core::text::chars_to_string(&digits);
    assert_eq!(text, "90210");
    assert_eq!(dt_core::text::parse_dec(&text), Some(90210));
    assert_eq!(dt_core::text::parse_dec("18446744073709551615"), Some(u64::MAX));
    assert_eq!(dt_core::text::parse_dec("18446744073709551616"), None);
    assert_eq!(dt_core::text::parse_dec("12x"), None);
    assert_eq!(dt_core::text::parse_dec(""), None);
}
