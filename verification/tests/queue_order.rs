use dt_core::message_queue::{has_flag, MessageQueue, FLAG_BARRIER, FLAG_TERMINATE};
use dt_core::queue::{OrderedLinkedList, PoppedResult};

fn get_crt_time() -> u64 {
    std::time::SystemTime::now()
        .duration_since(std::time::UNIX_EPOCH)
        .expect("Time went back!")
        .as_millis() as u64
}

#[test]
fn ordered_linked_list_it_works() {
    let mut mq: OrderedLinkedList<String> = OrderedLinkedList::new();
    for i in 1..=3u64 {
        mq.push_by(format!("{}", i), get_crt_time() + i * 10);
    }
    let mut mq2 = mq.clone();
    drop(mq);
    for _ in 1..=3 {
        mq2.push("0".to_string());
    }
    println!("--------------");
    let mut clock = get_crt_time();
    while mq2.len() > 0 {
        match mq2.pop_by(clock) {
            PoppedResult::Empty => println!("EMPTY!!!"),
            PoppedResult::Unavailable(due) => {
                println!("Delayed for {}ms", due - clock);
                clock = due;
            }
            PoppedResult::Success(handler) => {
                println!("Success, {}", handler);
            }
        }
    }
}

#[test]
fn delayed_tasks_run_in_due_time_order() {
    // schedule with increasing delays in scrambled insertion order:
    // pops come back in non-decreasing due-time order
    let now = 1000u64;
    let mut q: MessageQueue<&str> = MessageQueue::new();
    q.schedule_delayed("d", 30, now);
    q.schedule_delayed("b", 10, now);
    q.schedule_delayed("a", 0, now);
    q.schedule_delayed("c", 10, now);
    let mut order: Vec<&str> = Vec::new();
    let mut clock = now;
    while q.len() > 0 {
        match q.pop(clock) {
            PoppedResult::Empty => break,
            PoppedResult::Unavailable(delay) => {
                clock += delay;
            }
            PoppedResult::Success(t) => {
                order.push(t);
            }
        }
    }
    // the two equal due times keep their insertion order: stable tie-break
    assert_eq!(order, vec!["a", "b", "c", "d"]);
}

#[test]
fn schedule_to_end_lands_last() {
    let now = 50u64;
    let mut q: MessageQueue<&str> = MessageQueue::new();
    q.schedule_delayed("later", 1000, now);
    q.schedule("soon", now);
    q.schedule_to_end("terminate");
    let mut order: Vec<&str> = Vec::new();
    let mut clock = now;
    while q.len() > 0 {
        match q.pop(clock) {
            PoppedResult::Empty => break,
            PoppedResult::Unavailable(delay) => {
                clock += delay;
            }
            PoppedResult::Success(t) => {
                order.push(t);
            }
        }
    }
    assert_eq!(order, vec!["soon", "later", "terminate"]);
}

#[test]
fn flags_compose() {
    assert!(has_flag(FLAG_TERMINATE, FLAG_TERMINATE));
    assert!(has_flag(FLAG_TERMINATE | FLAG_BARRIER, FLAG_BARRIER));
    assert!(!has_flag(FLAG_BARRIER, FLAG_TERMINATE));
    assert!(has_flag(FLAG_BARRIER, 0));
}
