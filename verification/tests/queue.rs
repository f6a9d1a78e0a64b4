use rpi_sim868::serial_port::{TaskId, TaskPriority, TaskQueue};

fn id(v: u128) -> TaskId {
    TaskId { value: v }
}

#[test]
fn peek_serves_priority_then_arrival() {
    let mut q = TaskQueue::new();
    q.push(id(1), TaskPriority::NORMAL);
    q.push(id(2), TaskPriority::NORMAL);
    q.push(id(3), TaskPriority::HIGH);
    q.push(id(4), TaskPriority::HIGH);
    // the earliest HIGH entry outranks every NORMAL one
    assert_eq!(q.peek().unwrap().id, id(3));
    q.remove(id(3));
    assert_eq!(q.peek().unwrap().id, id(4));
    q.remove(id(4));
    // among equals, first come first served
    assert_eq!(q.peek().unwrap().id, id(1));
    q.remove(id(1));
    assert_eq!(q.peek().unwrap().id, id(2));
}

#[test]
fn enqueue_then_dequeue_restores_the_queue() {
    let mut q = TaskQueue::new();
    q.push(id(10), TaskPriority::NORMAL);
    q.push(id(11), TaskPriority::HIGH);
    let len_before = q.len();
    q.push(id(12), TaskPriority::NORMAL);
    assert_eq!(q.len(), len_before + 1);
    q.remove(id(12));
    assert_eq!(q.len(), len_before);
    assert!(q.contains(id(10)));
    assert!(q.contains(id(11)));
    assert!(!q.contains(id(12)));
    // the order of the others is untouched
    assert_eq!(q.peek().unwrap().id, id(11));
    q.remove(id(11));
    assert_eq!(q.peek().unwrap().id, id(10));
}

#[test]
fn removing_an_absent_task_changes_nothing() {
    let mut q = TaskQueue::new();
    q.push(id(1), TaskPriority::NORMAL);
    q.remove(id(99));
    assert_eq!(q.len(), 1);
    assert_eq!(q.peek().unwrap().id, id(1));
}

#[test]
fn empty_queue_has_no_front() {
    let q = TaskQueue::new();
    assert!(q.peek().is_none());
    assert_eq!(q.len(), 0);
}

#[test]
fn high_priority_preempts_waiting_normals() {
    // three NORMAL sends waiting, then one HIGH hang-up arrives:
    // the running NORMAL finishes, the HIGH goes next, then the
    // remaining NORMALs in arrival order.
    let mut q = TaskQueue::new();
    q.push(id(1), TaskPriority::NORMAL);
    q.push(id(2), TaskPriority::NORMAL);
    q.push(id(3), TaskPriority::NORMAL);
    // task 1 stands at the front when the HIGH arrives; the broker has
    // already granted it the dispatch (see the broker tests), so here we
    // replay the resulting service order on the bare queue: the running
    // task is removed first, and only then is the front consulted again
    assert_eq!(q.peek().unwrap().id, id(1));
    q.push(id(4), TaskPriority::HIGH);
    let mut order = vec![1u128];
    q.remove(id(1));
    while let Some(e) = q.peek() {
        order.push(e.id.value);
        q.remove(e.id);
    }
    assert_eq!(order, vec![1, 4, 2, 3]);
}
