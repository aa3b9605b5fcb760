use dt_core::value::{Object, Value};
use dt_core::verify::{init, verify_event};

fn obj(pairs: Vec<(&str, Value)>) -> Object {
    let mut o = Object::new();
    for (k, v) in pairs {
        o.insert(k.to_string(), v);
    }
    o
}

fn s(text: &str) -> Value {
    Value::Str(text.to_string())
}

fn base_event(name: &str, kind: &str, props: Object) -> Object {
    obj(vec![
        ("#app_id", s("123")),
        ("#event_time", Value::Int(123)),
        ("#dt_id", s("ddd")),
        ("#bundle_id", s("com.xx")),
        ("#event_name", s(name)),
        ("#event_type", s(kind)),
        ("#event_syn", s("eeeee")),
        ("properties", Value::Obj(props)),
    ])
}

fn verify(o: &Object, target: bool) {
    let pass = verify_event(o);
    assert_eq!(pass.is_ok(), target);
}

fn int_list() -> Value {
    Value::Arr(vec![Value::Int(1), Value::Int(2), Value::Int(3)])
}

#[test]
fn data_verification_its_work() {
    init().expect("Failed to init");
    let j = base_event("test_event", "track", obj(vec![("a", int_list())]));
    verify(&j, true);
}

#[test]
fn missing_meta() {
    init().expect("Failed to init");
    let metas = vec![
        "#app_id",
        "#event_time",
        "#dt_id",
        "#bundle_id",
        "#event_name",
        "#event_type",
        "#event_syn",
        "properties",
    ];
    for missing in metas {
        let mut j = base_event("test_event", "track", obj(vec![("a", int_list())]));
        j.remove(missing);
        verify(&j, false);
    }
}

#[test]
fn wrong_type_meta() {
    init().expect("Failed to init");
    let mut j = base_event("test_event", "track", obj(vec![("a", int_list())]));
    j.insert("#event_time".to_string(), s("123"));
    j.insert("#dt_id".to_string(), Value::Bool(true));
    j.insert("#event_syn".to_string(), Value::Int(123));
    verify(&j, false);
}

#[test]
fn preset_event() {
    init().expect("Failed to init");
    let j = base_event(
        "#session_start",
        "track",
        obj(vec![("#resume_from_background", Value::Bool(true)), ("a", int_list())]),
    );
    verify(&j, true);

    let j = base_event(
        "#session_start",
        "track",
        obj(vec![("#resume_from_background", Value::Int(1)), ("a", int_list())]),
    );
    verify(&j, false);

    let j = base_event(
        "#session_start",
        "track",
        obj(vec![
            ("#resume_from_background", Value::Bool(true)),
            ("a", int_list()),
            ("$custom", s("123")),
        ]),
    );
    verify(&j, false);

    let j = base_event(
        "#session_start",
        "track",
        obj(vec![
            ("#resume_from_background", Value::Bool(true)),
            ("a", int_list()),
            ("#custom", s("123")),
        ]),
    );
    verify(&j, false);

    let j = base_event(
        "#session_start",
        "track",
        obj(vec![
            ("#resume_from_background", Value::Bool(true)),
            ("a", int_list()),
            ("#session_duration", Value::Int(123)),
        ]),
    );
    verify(&j, false);
}

#[test]
fn custom_event() {
    init().expect("Failed to init");
    let j = base_event(
        "ccc_event",
        "track",
        obj(vec![("#resume_from_background", Value::Bool(true)), ("a", int_list())]),
    );
    verify(&j, false);

    let j = base_event(
        "ccc_event",
        "track",
        obj(vec![("#device_brand", s("X")), ("a", int_list())]),
    );
    verify(&j, true);

    let j = base_event(
        "ccc_event",
        "track",
        obj(vec![("#device_brand", Value::Int(1)), ("a", int_list())]),
    );
    verify(&j, false);

    let inner = obj(vec![("123", s("xx"))]);
    let j = base_event(
        "ccc_event",
        "track",
        obj(vec![("#dccc", Value::Int(1)), ("a", Value::Obj(inner))]),
    );
    verify(&j, false);
}

#[test]
fn user_event() {
    init().expect("Failed to init");
    let j = base_event("#user_set", "user", obj(vec![("a", s("1"))]));
    verify(&j, true);

    let j = base_event(
        "#user_set",
        "user",
        obj(vec![("a", s("1")), ("#sdk_type", s("xxx")), ("#sdk_version_name", s("1.2.3"))]),
    );
    verify(&j, true);

    let j = base_event(
        "#user_set",
        "user",
        obj(vec![("a", s("1")), ("#firebase_iid", s("123"))]),
    );
    verify(&j, true);

    let j = base_event("#user_set", "user", obj(vec![("a", s("1")), ("#asd", Value::Int(1))]));
    verify(&j, false);

    let j = base_event("#user_add", "user", obj(vec![("a", Value::Int(1))]));
    verify(&j, true);

    let j = base_event("#user_add", "user", obj(vec![("a", s("123"))]));
    verify(&j, false);

    let j = base_event(
        "#user_append",
        "user",
        obj(vec![("a", Value::Arr(vec![s("abcdefg")]))]),
    );
    verify(&j, true);

    let j = base_event("#user_append", "user", obj(vec![("a", Value::Int(1))]));
    verify(&j, false);

    let j = base_event(
        "#user_uniq_append",
        "user",
        obj(vec![("a", Value::Arr(vec![s("abcdefg"), s("xxxxx")]))]),
    );
    verify(&j, true);

    let j = base_event("#user_uniq_append", "user", obj(vec![("a", Value::Int(1))]));
    verify(&j, false);

    let j = base_event(
        "#user_set",
        "user",
        obj(vec![("a", s("1")), ("#is_foreground", Value::Bool(false))]),
    );
    verify(&j, false);

    let j = base_event(
        "#user_set",
        "user",
        obj(vec![("a", int_list()), ("#os_country_code", Value::Bool(false))]),
    );
    verify(&j, false);
}

#[test]
fn data_verification_benchmark() {
    init().expect("Failed to init");
    let n = 10000u32;
    let props = obj(vec![
        ("#sdk_version_name", s("1.2.3")),
        ("productNames", Value::Arr(vec![s("Lua"), s("hello")])),
        ("productType", s("Lua book")),
        ("producePrice", Value::Int(80)),
        ("shop", s("xx-shop")),
        ("#os", s("1.1.1.1")),
        ("date", Value::Int(111)),
        ("date1", Value::Int(111)),
        ("sex", s("female")),
    ]);
    let mut j = base_event("test_event", "track", props);
    j.insert("#event_time".to_string(), Value::Int(0));
    j.insert("#event_syn".to_string(), s("x"));
    for _ in 0..n {
        verify_event(&j).expect("This event is not valid");
    }
}
