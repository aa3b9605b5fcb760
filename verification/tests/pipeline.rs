use dt_core::process::{eventify, fulfill_metas, inject_sdk_base_info, process_event_with};
use dt_core::value::{Object, Value};

fn obj(pairs: Vec<(&str, Value)>) -> Object {
    let mut o = Object::new();
    for (k, v) in pairs {
        o.insert(k.to_string(), v);
    }
    o
}

fn s(text: &str) -> Value {
    Value::Str(text.to_string())
}

fn as_str(v: &Value) -> &str {
    match v {
        Value::Str(t) => t.as_str(),
        _ => panic!("expected a string value"),
    }
}

#[test]
fn test_inject_sdk_base_info() {
    let props = obj(vec![
        ("#sdk_version_name", s("1.2.3")),
        ("a", Value::Arr(vec![Value::Int(1), Value::Int(2), Value::Int(3)])),
    ]);
    let mut j = obj(vec![
        ("#app_id", s("123")),
        ("#event_time", Value::Int(123)),
        ("#dt_id", s("ddd")),
        ("#bundle_id", s("com.xx")),
        ("#event_name", s("test_event")),
        ("#event_type", s("track")),
        ("#event_syn", s("eeeee")),
        ("properties", Value::Obj(props)),
    ]);
    inject_sdk_base_info(&mut j);
    match j.get("properties") {
        Some(Value::Obj(p)) => {
            assert_eq!(as_str(p.get("#sdk_version_name").unwrap()), "0.1.0");
            assert_eq!(as_str(p.get("#sdk_type").unwrap()), "dt_core_base");
        }
        _ => panic!("properties must stay an object"),
    }
}

fn flat_event() -> Object {
    obj(vec![
        ("#app_id", s("123")),
        ("#dt_id", s("ddd")),
        ("#bundle_id", s("com.xx")),
        ("#event_name", s("test_event")),
        ("#event_type", s("track")),
        ("#sdk_version_name", s("1.2.3")),
        ("productNames", Value::Arr(vec![s("Lua"), s("hello")])),
        ("productType", s("Lua book")),
        ("producePrice", Value::Int(80)),
        ("shop", s("xx-shop")),
        ("#os", s("1.1.1.1")),
        ("date", Value::Int(111)),
        ("date1", Value::Int(111)),
        ("sex", s("female")),
    ])
}

#[test]
fn roughen_event_test() {
    let j = flat_event();
    let shaped = eventify(j);
    assert!(shaped.get("#app_id").is_some());
    assert!(shaped.get("productNames").is_none());
    match shaped.get("properties") {
        Some(Value::Obj(p)) => {
            assert!(p.get("productNames").is_some());
            assert!(p.get("#app_id").is_none());
        }
        _ => panic!("eventify must nest the rest under properties"),
    }
}

#[test]
fn eventify_merges_an_existing_properties_object() {
    // a mixed document that already carries a properties object: its
    // nested entries survive, and a key carried both loose and nested
    // keeps the loose value
    let nested = obj(vec![
        ("kept", s("from-nested")),
        ("shared", s("nested-value")),
    ]);
    let mut j = flat_event();
    j.insert("properties".to_string(), Value::Obj(nested));
    j.insert("shared".to_string(), s("loose-value"));
    let shaped = eventify(j);
    match shaped.get("properties") {
        Some(Value::Obj(p)) => {
            assert_eq!(as_str(p.get("kept").unwrap()), "from-nested");
            assert_eq!(as_str(p.get("shared").unwrap()), "loose-value");
            assert!(p.get("productNames").is_some());
        }
        _ => panic!("properties must be an object"),
    }
}

#[test]
fn processing_benchmark() {
    dt_core::verify::init().expect("Failed to init");
    let n = 100000u32;
    let j = obj(vec![
        ("#app_id", s("appid_1234567890")),
        ("#dt_id", s("1234567890987654321")),
        ("#bundle_id", s("com.example")),
        ("#event_name", s("test_event")),
        ("#event_type", s("track")),
        ("#sdk_type", s("rust")),
        ("#sdk_version_name", s("0.0.0")),
        ("productNames", Value::Arr(vec![s("Lua"), s("hello")])),
        ("productType", s("Lua book")),
        ("producePrice", Value::Int(80)),
        ("shop", s("xx-shop")),
        ("#os", s("1.1.1.1")),
        ("sex", s("female")),
    ]);
    for _ in 0..n {
        process_event_with(j.deep_clone(), 1000000, "x".to_string(), false, &None)
            .expect("This event is not valid");
    }
}

#[test]
fn fulfill_metas_stamps_missing_fields() {
    let mut e = obj(vec![("#app_id", s("123"))]);
    fulfill_metas(&mut e, 4242, "token".to_string(), true);
    match e.get("#event_time") {
        Some(Value::Uint(t)) => assert_eq!(*t, 4242),
        _ => panic!("the clock value must be stamped"),
    }
    assert_eq!(as_str(e.get("#event_syn").unwrap()), "token");
    match e.get("#debug") {
        Some(Value::Bool(true)) => {}
        _ => panic!("#debug must be stamped when the flag is set"),
    }
    assert!(e.get("properties").is_some());

    let mut e2 = obj(vec![("#event_time", Value::Int(7)), ("#event_syn", s("kept"))]);
    fulfill_metas(&mut e2, 4242, "fresh".to_string(), false);
    match e2.get("#event_time") {
        Some(Value::Int(t)) => assert_eq!(*t, 7),
        _ => panic!("a present #event_time must be kept"),
    }
    assert_eq!(as_str(e2.get("#event_syn").unwrap()), "kept");
    assert!(e2.get("#debug").is_none());
}

#[test]
fn static_common_props_do_not_override() {
    dt_core::verify::init().expect("Failed to init");
    let statics = obj(vec![("channel", s("store")), ("shop", s("default-shop"))]);
    let j = flat_event();
    let processed = process_event_with(j, 1000, "syn".to_string(), false, &Some(statics))
        .expect("the event is valid");
    match processed.get("properties") {
        Some(Value::Obj(p)) => {
            assert_eq!(as_str(p.get("channel").unwrap()), "store");
            assert_eq!(as_str(p.get("shop").unwrap()), "xx-shop");
        }
        _ => panic!("properties must be an object"),
    }
}

#[test]
fn process_rejects_invalid_events() {
    dt_core::verify::init().expect("Failed to init");
    let j = obj(vec![("#event_name", s("x")), ("#event_type", s("track"))]);
    let r = process_event_with(j, 1000, "syn".to_string(), false, &None);
    match r {
        Err(dt_core::error::DTError::WithContext { cause, .. }) => match *cause {
            dt_core::error::DTError::VerifyError(_) => {}
            _ => panic!("the cause must be a verification error"),
        },
        _ => panic!("an event without its identifiers must be rejected"),
    }
}
