use gamepad_core::event_queue::EventQueue;

#[test]
fn a_new_queue_is_empty_for_every_device() {
    let mut queue: EventQueue<u32> = EventQueue::new();
    assert!(queue.dequeue_event_queue(0).is_empty());
    assert!(queue.dequeue_event_queue(255).is_empty());
}

#[test]
fn events_come_out_in_the_order_of_arrival() {
    let mut queue = EventQueue::new();
    queue.enqueue(3, "first");
    queue.enqueue(3, "second");
    queue.enqueue(3, "third");
    assert_eq!(queue.dequeue_event_queue(3), vec!["first", "second", "third"]);
    assert!(queue.dequeue_event_queue(3).is_empty());
}

#[test]
fn devices_are_kept_apart() {
    let mut queue = EventQueue::new();
    queue.enqueue(1, 10);
    queue.enqueue(2, 20);
    queue.enqueue(1, 11);
    queue.enqueue(0, 0);
    queue.enqueue(2, 21);
    assert_eq!(queue.dequeue_event_queue(2), vec![20, 21]);
    assert_eq!(queue.dequeue_event_queue(1), vec![10, 11]);
    queue.enqueue(1, 12);
    assert_eq!(queue.dequeue_event_queue(1), vec![12]);
    assert_eq!(queue.dequeue_event_queue(0), vec![0]);
    assert!(queue.dequeue_event_queue(7).is_empty());
}
