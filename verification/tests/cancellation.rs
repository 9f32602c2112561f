use devto_fetcher::signal::CancellationFlag;

#[test]
fn fresh_flag_is_not_triggered() {
    let flag = CancellationFlag::new();
    assert!(!flag.is_triggered());
}

#[test]
fn trigger_is_observed() {
    let mut flag = CancellationFlag::new();
    flag.trigger();
    assert!(flag.is_triggered());
}

#[test]
fn repeated_triggers_are_no_ops() {
    let mut once = CancellationFlag::new();
    once.trigger();
    let mut twice = CancellationFlag::new();
    twice.trigger();
    twice.trigger();
    twice.trigger();
    assert_eq!(once.is_triggered(), twice.is_triggered());
    assert!(twice.is_triggered());
}
