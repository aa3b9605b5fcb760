use dt_core::log_consumer::{FlushOp, LogConsumer};
use dt_core::mmap_consumer::{MmapConfig, MmapLogConsumer, MmapOp};
use dt_core::upload_consumer::{interpret_upload_response, AsyncUploadConsumer};
use dt_core::value::{Object, Value};

fn obj(pairs: Vec<(&str, Value)>) -> Object {
    let mut o = Object::new();
    for (k, v) in pairs {
        o.insert(k.to_string(), v);
    }
    o
}

fn s(text: &str) -> Value {
    Value::Str(text.to_string())
}

fn event(i: i64) -> Object {
    obj(vec![
        ("#app_id", s("123")),
        ("#event_time", Value::Int(i)),
        ("#dt_id", s("ddd")),
        ("#bundle_id", s("com.xx")),
        ("#event_name", s("test_event")),
        ("#event_type", s("track")),
        ("#event_syn", s("eeeee")),
        ("properties", Value::Obj(obj(vec![("a", Value::Int(i))]))),
    ])
}

#[test]
fn log_its_work() {
    let since_epoch = std::time::SystemTime::now()
        .duration_since(std::time::UNIX_EPOCH)
        .expect("Time went backward");
    let since_epoch_sec = since_epoch.as_secs();
    let since_epoch_hour = since_epoch_sec - since_epoch_sec % 3600;
    println!("Time: {}", since_epoch.as_secs());
    println!("Time in hour: {}", since_epoch_hour);
}

#[test]
fn log_batch_flush_scenario() {
    // max_batch_len = 2: three adds give exactly one forced flush of
    // two records; close writes the remaining one. Three lines total.
    let dir: Vec<(String, u64)> = Vec::new();
    let mut c = LogConsumer::new("./log".to_string(), 2, None, None, 3600, &dir);
    let mut flush_ops: Vec<FlushOp> = Vec::new();
    for i in 0..3 {
        let mut ops = c.add(&event(i), 3600);
        flush_ops.append(&mut ops);
    }
    assert_eq!(flush_ops.len(), 1);
    assert_eq!(flush_ops[0].lines.len(), 2);
    assert_eq!(flush_ops[0].filename, "dt-3600_0.log");
    let last = c.close().expect("one record is still buffered");
    assert_eq!(last.lines.len(), 1);
    assert_eq!(last.filename, "dt-3600_0.log");
    let total: usize = flush_ops.iter().map(|f| f.lines.len()).sum::<usize>() + last.lines.len();
    assert_eq!(total, 3);
    assert!(c.close().is_none());
}

#[test]
fn log_rotates_by_time_and_size() {
    let dir: Vec<(String, u64)> = Vec::new();
    let mut c = LogConsumer::new("./log".to_string(), 100, Some("pre".to_string()), Some(64), 3600, &dir);
    // every record is larger than 64 bytes, so each add rotates by
    // size first; the first rotation finds an empty batch and only
    // advances the revision
    let ops = c.add(&event(1), 3600);
    assert!(ops.is_empty());
    let ops = c.add(&event(2), 3600);
    assert_eq!(ops.len(), 1);
    assert_eq!(ops[0].filename, "pre-3600_1.log");
    // the hour moved on: rotate by time back to revision zero
    let ops = c.add(&event(3), 7200);
    assert_eq!(ops.len(), 1);
    assert_eq!(ops[0].filename, "pre-3600_2.log");
    let last = c.close().expect("a record is buffered");
    assert_eq!(last.filename, "pre-7200_1.log");
}

#[test]
fn log_resumes_highest_revision() {
    let dir: Vec<(String, u64)> = vec![
        ("dt-3600_0.log".to_string(), 10),
        ("dt-3600_4.log".to_string(), 77),
        ("dt-3600_2.log".to_string(), 30),
        ("other-3600_9.log".to_string(), 5),
        ("dt-7200_8.log".to_string(), 11),
        ("dt-3600_x.log".to_string(), 12),
    ];
    let mut c = LogConsumer::new("./log".to_string(), 10, None, None, 3600, &dir);
    let _ = c.add(&event(1), 3600);
    let op = c.close().expect("a record is buffered");
    assert_eq!(op.filename, "dt-3600_4.log");
}

#[test]
fn mmap_rotation_truncates_to_written_length() {
    let cfg = MmapConfig {
        path: "./log".to_string(),
        name_prefix: "m".to_string(),
        file_size: 400,
        flush_size: None,
    };
    let mut c = MmapLogConsumer::new(cfg, 3600, 0, 0);
    let mut ops: Vec<MmapOp> = Vec::new();
    let mut written: u64 = 0;
    let mut records: u64 = 0;
    loop {
        let before = ops.len();
        c.add(&event(records as i64), 3600, &mut ops).expect("records fit the arena");
        let rotated = ops[before..].iter().any(|o| matches!(o, MmapOp::Truncate { .. }));
        if rotated {
            // the outgoing file was truncated to exactly the bytes of
            // its records plus separators - no padding leaks
            let t = ops[before..]
                .iter()
                .find_map(|o| match o {
                    MmapOp::Truncate { len, .. } => Some(*len),
                    _ => None,
                })
                .unwrap();
            assert_eq!(t, written);
            break;
        }
        let wrote = ops[before..]
            .iter()
            .find_map(|o| match o {
                MmapOp::WriteAt { content, .. } => Some(content.len() as u64),
                _ => None,
            })
            .expect("an append writes bytes");
        written += wrote;
        records += 1;
        assert!(records < 100, "the arena must fill up eventually");
    }
}

#[test]
fn mmap_refuses_oversized_record() {
    let cfg = MmapConfig {
        path: "./log".to_string(),
        name_prefix: "m".to_string(),
        file_size: 8,
        flush_size: None,
    };
    let mut c = MmapLogConsumer::new(cfg, 3600, 0, 0);
    let mut ops: Vec<MmapOp> = Vec::new();
    let r = c.add(&event(1), 3600, &mut ops);
    match r {
        Err(dt_core::error::DTError::RuntimeError(_)) => {}
        _ => panic!("a record longer than the arena must be refused"),
    }
}

#[test]
fn mmap_accepts_a_record_of_exactly_the_arena_size() {
    let cfg = MmapConfig {
        path: "./log".to_string(),
        name_prefix: "m".to_string(),
        file_size: 16,
        flush_size: None,
    };
    let mut c = MmapLogConsumer::new(cfg, 3600, 0, 4);
    let mut ops: Vec<MmapOp> = Vec::new();
    // sixteen bytes cannot follow the four already written, so the
    // record rotates and exactly fills the fresh file
    c.append("abcdefghijklmnop".to_string(), false, 3600, &mut ops)
        .expect("a record of the arena size still fits");
    assert_eq!(c.offset, 16);
    assert_eq!(c.revision, 1);
    let wrote = ops
        .iter()
        .find_map(|o| match o {
            MmapOp::WriteAt { offset, content, .. } => Some((*offset, content.clone())),
            _ => None,
        })
        .unwrap();
    assert_eq!(wrote.0, 0);
    assert_eq!(wrote.1, "abcdefghijklmnop");
}

#[test]
fn async_upload_it_works() {
    let mut c = AsyncUploadConsumer::new(2, 20);
    let mut scheduled = 0;
    for i in 0..=50 {
        if c.add_to_cache(event(i)) {
            scheduled += 1;
        }
    }
    // the pool has one thread, so at most one flush task is pending
    assert_eq!(scheduled, 1);
    let mut drained = 0;
    loop {
        let batch = c.take_batch();
        if batch.is_empty() {
            break;
        }
        assert!(batch.len() <= 20);
        let data = AsyncUploadConsumer::batch_body(&batch);
        println!("data: ({}) {}", batch.len(), data);
        drained += batch.len();
    }
    assert_eq!(drained, 51);
}

#[test]
fn upload_batches_are_fifo() {
    let mut c = AsyncUploadConsumer::new(1, 2);
    for i in 0..5 {
        let _ = c.add_to_cache(event(i));
    }
    let first = c.take_batch();
    let body = AsyncUploadConsumer::batch_body(&first);
    assert!(body.starts_with("[{"));
    match first[0].get("#event_time") {
        Some(Value::Int(t)) => assert_eq!(*t, 0),
        _ => panic!("the oldest record comes first"),
    }
    match first[1].get("#event_time") {
        Some(Value::Int(t)) => assert_eq!(*t, 1),
        _ => panic!("order within a batch is kept"),
    }
}

#[test]
fn upload_response_judgement() {
    assert!(interpret_upload_response(200, true).is_ok());
    assert!(interpret_upload_response(299, true).is_ok());
    match interpret_upload_response(500, true) {
        Err(dt_core::error::DTError::NetworkError(_)) => {}
        _ => panic!("a non-2xx status is a network error"),
    }
    match interpret_upload_response(200, false) {
        Err(dt_core::error::DTError::RemoteError(_)) => {}
        _ => panic!("an unparseable body is a remote error"),
    }
}
