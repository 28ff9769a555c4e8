use mcauth::event::ChangeEvent;
use mcauth::queue::{HandoffQueue, DEFAULT_QUEUE_CAPACITY};

fn ev(payload: &str) -> ChangeEvent {
    ChangeEvent { topic: String::from("bot_updates"), payload: String::from(payload) }
}

#[test]
fn default_capacity_is_one_hundred() {
    assert_eq!(DEFAULT_QUEUE_CAPACITY, 100);
    let q = HandoffQueue::new(DEFAULT_QUEUE_CAPACITY);
    assert_eq!(q.capacity(), 100);
}

#[test]
fn dequeues_in_arrival_order() {
    let mut q = HandoffQueue::new(3);
    assert!(q.enqueue(ev("1")).is_ok());
    assert!(q.enqueue(ev("2")).is_ok());
    assert!(q.enqueue(ev("3")).is_ok());
    assert_eq!(q.dequeue().unwrap().payload, "1");
    assert_eq!(q.dequeue().unwrap().payload, "2");
    assert_eq!(q.dequeue().unwrap().payload, "3");
    assert!(q.dequeue().is_none());
}

#[test]
fn full_queue_hands_the_event_back() {
    let mut q = HandoffQueue::new(1);
    assert!(q.enqueue(ev("kept")).is_ok());
    let rejected = q.enqueue(ev("retried"));
    match rejected {
        Err(back) => assert_eq!(back.payload, "retried"),
        Ok(()) => panic!("a full queue must reject the event"),
    }
    assert_eq!(q.len(), 1);
    assert_eq!(q.dequeue().unwrap().payload, "kept");
}

#[test]
fn freed_capacity_accepts_the_retry() {
    let mut q = HandoffQueue::new(1);
    assert!(q.enqueue(ev("first")).is_ok());
    let back = q.enqueue(ev("second")).unwrap_err();
    assert_eq!(q.dequeue().unwrap().payload, "first");
    assert!(q.enqueue(back).is_ok());
    assert_eq!(q.dequeue().unwrap().payload, "second");
}
