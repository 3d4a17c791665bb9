use wake_loop::wake::WakeFlag;

#[test]
fn new_flag_is_clear() {
    let flag = WakeFlag::new();
    assert!(!flag.consume_if_set());
}

#[test]
fn signal_is_seen_by_next_consume() {
    let flag = WakeFlag::new();
    flag.signal();
    assert!(flag.consume_if_set());
}

#[test]
fn consume_twice_reports_true_then_false() {
    let flag = WakeFlag::new();
    flag.signal();
    assert!(flag.consume_if_set());
    assert!(!flag.consume_if_set());
}

#[test]
fn nested_signal_leaves_flag_set() {
    let flag = WakeFlag::new();
    flag.signal();
    // a nested interrupt signals again before the first handler returns
    flag.signal();
    assert!(flag.consume_if_set());
    assert!(!flag.consume_if_set());
}

#[test]
fn two_signals_are_seen_once() {
    let flag = WakeFlag::new();
    flag.signal();
    flag.signal();
    assert!(flag.consume_if_set());
    assert!(!flag.consume_if_set());
    assert!(!flag.consume_if_set());
}

#[test]
fn every_signal_is_matched_by_a_later_consume() {
    // S C C S S C S C C: each first consume after a signal reports true
    let flag = WakeFlag::new();
    flag.signal();
    assert!(flag.consume_if_set());
    assert!(!flag.consume_if_set());
    flag.signal();
    flag.signal();
    assert!(flag.consume_if_set());
    flag.signal();
    assert!(flag.consume_if_set());
    assert!(!flag.consume_if_set());
}
