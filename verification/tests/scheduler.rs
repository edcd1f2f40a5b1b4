use monoio::scheduler::{LocalScheduler, TaskPriority, TaskQueue};

#[test]
fn high_runs_before_background() {
    let mut q: TaskQueue<u32> = TaskQueue::new();
    q.push(1, TaskPriority::Background);
    q.push(2, TaskPriority::High);
    q.push(3, TaskPriority::Background);
    q.push_high(4);
    assert_eq!(q.len(), 4);
    assert_eq!(q.pop(), Some(2));
    assert_eq!(q.pop(), Some(4));
    assert_eq!(q.pop(), Some(1));
    // A high-priority task that arrives late still goes first.
    q.push_high(5);
    assert_eq!(q.pop(), Some(5));
    assert_eq!(q.pop(), Some(3));
    assert_eq!(q.pop(), None);
    assert!(q.is_empty());
}

#[test]
fn pop_high_leaves_the_background_alone() {
    let mut q: TaskQueue<u32> = TaskQueue::default();
    q.push(1, TaskPriority::Background);
    assert!(q.high_is_empty());
    assert!(!q.is_empty());
    assert_eq!(q.pop_high(), None);
    q.push(2, TaskPriority::High);
    assert!(!q.high_is_empty());
    assert_eq!(q.pop_high(), Some(2));
    assert_eq!(q.len(), 1);
    assert_eq!(q.pop(), Some(1));
}

#[test]
fn drain_empties_both_tiers_in_order() {
    let mut q: TaskQueue<u32> = TaskQueue::new();
    q.push(1, TaskPriority::Background);
    q.push(2, TaskPriority::High);
    q.push(3, TaskPriority::High);
    q.push(4, TaskPriority::Background);
    assert_eq!(q.drain(), vec![2, 3, 1, 4]);
    assert!(q.is_empty());
    assert_eq!(q.drain(), vec![]);
}

#[test]
fn default_scheduler_is_high() {
    assert_eq!(LocalScheduler::default().priority, TaskPriority::High);
}
