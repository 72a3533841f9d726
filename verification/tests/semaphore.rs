use urls2disk::semaphore::{Gate, Semaphore};

#[test]
fn gate_admits_up_to_its_maximum() {
    let mut gate = Gate::new(2);
    assert_eq!(gate.limit(), 2);
    assert_eq!(gate.in_use(), 0);
    assert!(gate.acquire());
    assert!(gate.acquire());
    assert!(!gate.acquire());
    assert_eq!(gate.in_use(), 2);
    gate.release();
    assert_eq!(gate.in_use(), 1);
    assert!(gate.acquire());
    assert!(!gate.acquire());
}

#[test]
fn gate_without_slots_admits_nothing() {
    let mut gate = Gate::new(0);
    assert!(!gate.acquire());
    gate.reset();
    assert!(!gate.acquire());
    assert_eq!(gate.in_use(), 0);
}

#[test]
fn gate_reset_forgets_every_slot() {
    let mut gate = Gate::new(3);
    assert!(gate.acquire());
    assert!(gate.acquire());
    assert!(gate.acquire());
    gate.reset();
    assert_eq!(gate.in_use(), 0);
    assert_eq!(gate.limit(), 3);
    assert!(gate.acquire());
}

#[test]
fn semaphore_gates_do_not_touch_each_other() {
    let mut semaphore = Semaphore::new(1, 1, 1);
    assert!(semaphore.increment_requests());
    assert!(!semaphore.increment_requests());
    assert!(semaphore.increment_threads_cpu());
    assert!(!semaphore.increment_threads_cpu());
    assert!(semaphore.increment_threads_io());
    assert!(!semaphore.increment_threads_io());
    assert_eq!(semaphore.requests_in_window(), 1);
    assert_eq!(semaphore.cpu_in_use(), 1);
    assert_eq!(semaphore.io_in_use(), 1);

    semaphore.decrement_threads_cpu();
    assert_eq!(semaphore.requests_in_window(), 1);
    assert_eq!(semaphore.cpu_in_use(), 0);
    assert_eq!(semaphore.io_in_use(), 1);

    semaphore.reset_requests();
    assert_eq!(semaphore.requests_in_window(), 0);
    assert_eq!(semaphore.cpu_in_use(), 0);
    assert_eq!(semaphore.io_in_use(), 1);

    semaphore.decrement_threads_io();
    assert_eq!(semaphore.io_in_use(), 0);
}

#[test]
fn semaphore_window_may_fill_again_right_after_a_reset() {
    let mut semaphore = Semaphore::new(2, 1, 1);
    assert!(semaphore.increment_requests());
    assert!(semaphore.increment_requests());
    assert!(!semaphore.increment_requests());
    semaphore.reset_requests();
    assert!(semaphore.increment_requests());
    assert!(semaphore.increment_requests());
    assert!(!semaphore.increment_requests());
}

#[test]
fn semaphore_default_has_the_documented_limits() {
    let mut semaphore = Semaphore::default();
    assert_eq!(semaphore.requests_in_window(), 0);
    assert_eq!(semaphore.cpu_in_use(), 0);
    assert_eq!(semaphore.io_in_use(), 0);
    for _ in 0..10 {
        assert!(semaphore.increment_requests());
    }
    assert!(!semaphore.increment_requests());
    for _ in 0..100 {
        assert!(semaphore.increment_threads_io());
    }
    assert!(!semaphore.increment_threads_io());
}

#[test]
fn semaphore_default_lets_a_conversion_start() {
    let mut semaphore = Semaphore::default();
    assert!(semaphore.increment_threads_cpu());
    assert_eq!(semaphore.cpu_in_use(), 1);
}
