use sprint_backend::queue::{is_power_of_two, SafeBoundedQueue, OPTIMAL_SIZE};

#[test]
fn test_queue_capacity_is_power_of_two() {
    let queue: SafeBoundedQueue<u32> = SafeBoundedQueue::new();
    assert_eq!(queue.capacity() & (queue.capacity() - 1), 0);
}

#[test]
fn default_capacity_is_1024() {
    let queue: SafeBoundedQueue<u32> = SafeBoundedQueue::new();
    assert_eq!(queue.capacity(), 1024);
    assert_eq!(OPTIMAL_SIZE, 1024);
    assert!(queue.is_empty());
    assert!(!queue.is_full());
    assert_eq!(queue.len(), 0);
}

#[test]
fn capacity_that_is_no_power_of_two_is_rejected() {
    assert!(SafeBoundedQueue::<u32>::with_capacity(0).is_none());
    assert!(SafeBoundedQueue::<u32>::with_capacity(3).is_none());
    assert!(SafeBoundedQueue::<u32>::with_capacity(1000).is_none());
    assert!(SafeBoundedQueue::<u32>::with_capacity(1023).is_none());
    assert!(SafeBoundedQueue::<u32>::with_capacity(1).is_some());
    assert!(SafeBoundedQueue::<u32>::with_capacity(2).is_some());
    assert!(SafeBoundedQueue::<u32>::with_capacity(4096).is_some());
}

#[test]
fn power_of_two_check_on_concrete_values() {
    assert!(!is_power_of_two(0));
    assert!(is_power_of_two(1));
    assert!(is_power_of_two(2));
    assert!(!is_power_of_two(6));
    assert!(is_power_of_two(1 << 20));
    assert!(!is_power_of_two(usize::MAX));
}

#[test]
fn bit_mask_agrees_with_modulo() {
    let queue: SafeBoundedQueue<u32> = SafeBoundedQueue::new();
    for idx in [1023usize, 1024, 1025, 2047, 2048] {
        assert_eq!(idx & (queue.capacity() - 1), idx % queue.capacity());
    }
}

#[test]
fn capacity_four_scenario() {
    let mut queue: SafeBoundedQueue<&'static str> = SafeBoundedQueue::with_capacity(4).unwrap();
    assert_eq!(queue.enqueue("A"), Ok(()));
    assert_eq!(queue.enqueue("B"), Ok(()));
    assert_eq!(queue.enqueue("C"), Ok(()));
    assert!(queue.is_full());
    assert_eq!(queue.enqueue("D"), Err("D"));
    assert_eq!(queue.len(), 3);
    assert_eq!(queue.dequeue(), Some("A"));
    assert_eq!(queue.enqueue("D"), Ok(()));
    assert_eq!(queue.dequeue(), Some("B"));
    assert_eq!(queue.dequeue(), Some("C"));
    assert_eq!(queue.dequeue(), Some("D"));
    assert_eq!(queue.dequeue(), None);
    assert!(queue.is_empty());
}

#[test]
fn full_boundary_of_the_default_queue() {
    let mut queue: SafeBoundedQueue<u32> = SafeBoundedQueue::new();
    for i in 0..(queue.capacity() - 1) {
        assert!(queue.enqueue(i as u32).is_ok());
    }
    assert_eq!(queue.enqueue(999), Err(999));
    assert_eq!(queue.len(), 1023);
    for i in 0..(queue.capacity() - 1) {
        assert_eq!(queue.dequeue(), Some(i as u32));
    }
    assert!(queue.dequeue().is_none());
}

#[test]
fn fifo_order_survives_wraparound() {
    let mut queue: SafeBoundedQueue<u64> = SafeBoundedQueue::with_capacity(8).unwrap();
    let mut next_in: u64 = 0;
    let mut next_out: u64 = 0;
    for round in 0..100usize {
        for _ in 0..(round % 7 + 1) {
            if queue.enqueue(next_in).is_ok() {
                next_in += 1;
            }
        }
        for _ in 0..(round % 5 + 1) {
            if let Some(v) = queue.dequeue() {
                assert_eq!(v, next_out);
                next_out += 1;
            }
        }
        assert_eq!(queue.len() as u64, next_in - next_out);
    }
    while let Some(v) = queue.dequeue() {
        assert_eq!(v, next_out);
        next_out += 1;
    }
    assert_eq!(next_in, next_out);
}

#[test]
fn queue_of_capacity_one_holds_nothing() {
    let mut queue: SafeBoundedQueue<u8> = SafeBoundedQueue::with_capacity(1).unwrap();
    assert!(queue.is_full());
    assert!(queue.is_empty());
    assert_eq!(queue.enqueue(7), Err(7));
    assert_eq!(queue.dequeue(), None);
}

#[test]
fn rejected_item_is_returned_unmodified() {
    let mut queue: SafeBoundedQueue<Vec<u8>> = SafeBoundedQueue::with_capacity(2).unwrap();
    assert!(queue.enqueue(vec![1, 2, 3]).is_ok());
    assert_eq!(queue.enqueue(vec![4, 5, 6]), Err(vec![4, 5, 6]));
    assert_eq!(queue.dequeue(), Some(vec![1, 2, 3]));
}
