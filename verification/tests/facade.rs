use dt_core::error::DTError;
use dt_core::log_consumer::LogConsumer;
use dt_core::registry::{Consumer, DtCore, Effect, InitPlan};
use dt_core::value::{Object, Value};

fn obj(pairs: Vec<(&str, Value)>) -> Object {
    let mut o = Object::new();
    for (k, v) in pairs {
        o.insert(k.to_string(), v);
    }
    o
}

fn s(text: &str) -> Value {
    Value::Str(text.to_string())
}

fn valid_event() -> Object {
    obj(vec![
        ("#app_id", s("123")),
        ("#dt_id", s("ddd")),
        ("#bundle_id", s("com.xx")),
        ("#event_name", s("test_event")),
        ("#event_type", s("track")),
        ("properties", Value::Obj(Object::new())),
    ])
}

fn install_log_consumer(core: &mut DtCore) {
    let config = obj(vec![
        ("consumer", s("log")),
        ("path", s("./log")),
        ("max_batch_len", Value::Int(1000)),
    ]);
    let plan = core.init_by_config(&config).expect("the config is valid");
    match plan {
        InitPlan::Log { cfg, debug } => {
            let dir: Vec<(String, u64)> = Vec::new();
            let c = LogConsumer::new(
                cfg.path,
                cfg.max_batch_len,
                cfg.name_prefix,
                cfg.max_file_size_bytes,
                3600,
                &dir,
            );
            core.install(Consumer::Log(c), debug).expect("nothing installed yet");
        }
        _ => panic!("a log config selects the log consumer"),
    }
}

#[test]
fn api_calls_need_an_installed_consumer() {
    let mut core = DtCore::new();
    match core.add(valid_event()) {
        Err(DTError::RuntimeError(_)) => {}
        _ => panic!("add before init must fail"),
    }
    match core.flush() {
        Err(DTError::RuntimeError(_)) => {}
        _ => panic!("flush before init must fail"),
    }
    match core.close() {
        Err(DTError::RuntimeError(_)) => {}
        _ => panic!("close before init must fail"),
    }
}

#[test]
fn consumer_kind_is_matched_up_to_ascii_case() {
    let core = DtCore::new();
    let config = obj(vec![
        ("consumer", s("Log")),
        ("path", s("./log")),
        ("max_batch_len", Value::Int(10)),
    ]);
    match core.init_by_config(&config) {
        Ok(InitPlan::Log { .. }) => {}
        _ => panic!("a capitalized kind still selects the log consumer"),
    }
}

#[test]
fn init_is_guarded_against_a_second_call() {
    let mut core = DtCore::new();
    install_log_consumer(&mut core);
    let config = obj(vec![
        ("consumer", s("log")),
        ("path", s("./log")),
        ("max_batch_len", Value::Int(10)),
    ]);
    match core.init_by_config(&config) {
        Err(DTError::RuntimeError(_)) => {}
        _ => panic!("a second initialization must be refused"),
    }
}

#[test]
fn bad_configs_fail_with_host_errors() {
    let core = DtCore::new();
    let missing_kind = obj(vec![("path", s("./log"))]);
    match core.init_by_config(&missing_kind) {
        Err(DTError::HostError(_)) => {}
        _ => panic!("a config without 'consumer' must fail"),
    }
    let out_of_domain = obj(vec![("consumer", s("tape")), ("path", s("./log"))]);
    match core.init_by_config(&out_of_domain) {
        Err(DTError::HostError(_)) => {}
        _ => panic!("an unknown consumer must fail"),
    }
    let zero_batch = obj(vec![
        ("consumer", s("log")),
        ("path", s("./log")),
        ("max_batch_len", Value::Int(0)),
    ]);
    match core.init_by_config(&zero_batch) {
        Err(DTError::HostError(_)) => {}
        _ => panic!("a zero batch length must fail"),
    }
}

#[test]
fn add_enriches_and_close_drains() {
    let mut core = DtCore::new();
    install_log_consumer(&mut core);
    core.add(valid_event()).expect("a valid event is accepted");
    let closed = core.close().expect("a consumer is installed");
    match closed {
        Effect::LogOps(ops) => {
            assert_eq!(ops.len(), 1);
            assert_eq!(ops[0].lines.len(), 1);
            let line = &ops[0].lines[0];
            assert!(line.contains("\"#event_syn\":\""));
            assert!(line.contains("\"#sdk_version_name\":\"0.1.0\""));
        }
        _ => panic!("a log consumer answers with file writes"),
    }
    match core.close() {
        Err(DTError::RuntimeError(_)) => {}
        _ => panic!("close after close must report the missing consumer"),
    }
}

#[test]
fn invalid_events_are_reported_with_context() {
    let mut core = DtCore::new();
    install_log_consumer(&mut core);
    let bad = obj(vec![("#event_name", s("x")), ("#event_type", s("nope"))]);
    match core.add(bad) {
        Err(DTError::WithContext { cause, .. }) => match *cause {
            DTError::VerifyError(_) => {}
            _ => panic!("the cause must be a verification error"),
        },
        _ => panic!("an invalid event must be rejected"),
    }
}

#[test]
fn fresh_syn_tokens_have_the_hyphenated_shape() {
    let t = dt_core::token::new_syn_token();
    assert_eq!(t.len(), 36);
    let bytes = t.as_bytes();
    assert_eq!(bytes[8], b'-');
    assert_eq!(bytes[13], b'-');
    assert_eq!(bytes[18], b'-');
    assert_eq!(bytes[23], b'-');
    let u = dt_core::token::new_syn_token();
    assert_eq!(u.len(), 36);
}

#[test]
fn error_messages_carry_their_classification() {
    let e = DTError::InternalError("lock is reentered".to_string());
    assert_eq!(e.message(), "[Internal] lock is reentered");
    let n = DTError::NetworkError("offline".to_string());
    assert_eq!(n.message(), "[Network] offline");
    let w = DTError::WithContext {
        context: "while adding".to_string(),
        cause: Box::new(DTError::VerifyError("bad event".to_string())),
    };
    assert_eq!(w.message(), "while adding\n* With: bad event");
    assert!(w.source().is_some());
    assert!(n.source().is_none());
    let ok: Result<(), DTError> = Ok(());
    let flat: Result<bool, ()> = dt_core::error::dissolve_bool(ok);
    assert_eq!(flat, Ok(true));
}

#[test]
fn static_props_surface_can_be_toggled() {
    let mut core = DtCore::new();
    core.set_static_common_props(obj(vec![("channel", s("store"))])).unwrap();
    core.clear_static_common_props().unwrap();
    core.toggle_logger(true);
    assert!(dt_core::registry::can_log(true, 0, 1, false));
    assert!(!dt_core::registry::can_log(false, 0, 1, false));
    assert!(dt_core::registry::can_log(false, 0, 2, true));
    assert!(!dt_core::registry::can_log(true, 2, 1, false));
}

#[test]
fn clock_hours_are_whole() {
    assert_eq!(dt_core::clock::hour_bucket(0), 0);
    assert_eq!(dt_core::clock::hour_bucket(3_600_000), 3600);
    assert_eq!(dt_core::clock::hour_bucket(5_400_000), 3600);
    let h = dt_core::clock::get_hour_since_epoch();
    assert_eq!(h % 3600, 0);
}
