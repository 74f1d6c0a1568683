use frame_pipeline::fence::FenceQueue;

#[test]
fn fresh_fence_reads_initial_value() {
    let q = FenceQueue::new(7);
    assert_eq!(q.completed_value(), 7);
    assert_eq!(q.pending_count(), 0);
}

#[test]
fn signal_returns_immediately_and_leaves_completed_untouched() {
    let mut q = FenceQueue::new(0);
    q.signal(1);
    q.signal(2);
    assert_eq!(q.completed_value(), 0);
    assert_eq!(q.pending_count(), 2);
}

#[test]
fn retirement_advances_the_fence_in_submission_order() {
    let mut q = FenceQueue::new(0);
    q.signal(1);
    q.signal(2);
    q.retire_one();
    assert_eq!(q.completed_value(), 1);
    q.retire_one();
    assert_eq!(q.completed_value(), 2);
    assert_eq!(q.pending_count(), 0);
}

#[test]
fn wait_blocks_until_simulated_signal_advances_completed() {
    // The completed value lags the target by one: the wait must block
    // until the outstanding signal retires, then proceed.
    let mut q = FenceQueue::new(1);
    q.signal(2);
    assert_eq!(q.completed_value(), 1);
    let waited = q.wait_if_needed(2);
    assert!(waited);
    assert_eq!(q.completed_value(), 2);
    assert_eq!(q.pending_count(), 0);
}

#[test]
fn wait_returns_at_once_when_target_already_reached() {
    let mut q = FenceQueue::new(5);
    let waited = q.wait_if_needed(5);
    assert!(!waited);
    assert_eq!(q.completed_value(), 5);
}

#[test]
fn wait_consumes_only_what_it_needs() {
    let mut q = FenceQueue::new(0);
    q.signal(1);
    q.signal(2);
    q.signal(3);
    let waited = q.wait_if_needed(2);
    assert!(waited);
    assert_eq!(q.completed_value(), 2);
    assert_eq!(q.pending_count(), 1);
}

#[test]
fn retire_all_reaches_the_highest_signalled_value() {
    let mut q = FenceQueue::new(0);
    q.signal(4);
    q.signal(9);
    q.retire_all();
    assert_eq!(q.completed_value(), 9);
    assert_eq!(q.pending_count(), 0);
}
