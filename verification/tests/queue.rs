use txt_ml::ai::queue::WorkQueue;

#[test]
fn new_queue_is_empty() {
    let queue = WorkQueue::new(3);
    assert_eq!(queue.len(), 0);
    assert_eq!(queue.capacity(), 3);
    assert!(queue.is_empty());
    assert!(!queue.is_full());
}

#[test]
fn queue_is_first_in_first_out() {
    let mut queue = WorkQueue::new(3);
    assert_eq!(queue.try_push("a".to_string()), None);
    assert_eq!(queue.try_push("b".to_string()), None);
    assert_eq!(queue.len(), 2);
    assert_eq!(queue.pop(), Some("a".to_string()));
    assert_eq!(queue.try_push("c".to_string()), None);
    assert_eq!(queue.pop(), Some("b".to_string()));
    assert_eq!(queue.pop(), Some("c".to_string()));
    assert_eq!(queue.pop(), None);
    assert!(queue.is_empty());
}

#[test]
fn full_queue_hands_the_text_back() {
    let mut queue = WorkQueue::new(2);
    assert_eq!(queue.try_push("a".to_string()), None);
    assert_eq!(queue.try_push("b".to_string()), None);
    assert!(queue.is_full());
    assert_eq!(queue.try_push("c".to_string()), Some("c".to_string()));
    assert_eq!(queue.len(), 2);
    assert_eq!(queue.pop(), Some("a".to_string()));
    assert!(!queue.is_full());
    assert_eq!(queue.try_push("c".to_string()), None);
    assert_eq!(queue.pop(), Some("b".to_string()));
    assert_eq!(queue.pop(), Some("c".to_string()));
}

#[test]
fn queue_of_one_place() {
    let mut queue = WorkQueue::new(1);
    assert_eq!(queue.try_push("x".to_string()), None);
    assert_eq!(queue.try_push("y".to_string()), Some("y".to_string()));
    assert_eq!(queue.pop(), Some("x".to_string()));
    assert_eq!(queue.pop(), None);
}

#[test]
fn empty_queue_gives_nothing() {
    let mut queue = WorkQueue::new(5);
    assert_eq!(queue.pop(), None);
    assert_eq!(queue.len(), 0);
}
