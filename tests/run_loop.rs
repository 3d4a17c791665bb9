use wake_loop::run_loop::{Action, Event, Phase, RunLoop};

#[test]
fn run_loop_starts_polling() {
    let m = RunLoop::new();
    assert_eq!(m.phase(), Phase::Polling);
}

#[test]
fn set_flag_after_poll_polls_again() {
    let mut m = RunLoop::new();
    assert_eq!(m.step(Event::Checked(true)), Action::Poll);
    assert_eq!(m.phase(), Phase::Polling);
}

#[test]
fn clear_flag_after_poll_idles() {
    let mut m = RunLoop::new();
    assert_eq!(m.step(Event::Checked(false)), Action::WaitForInterrupt);
    assert_eq!(m.phase(), Phase::Waiting);
}

#[test]
fn wake_after_idle_polls() {
    let mut m = RunLoop::new();
    m.step(Event::Checked(false));
    assert_eq!(m.step(Event::Woken), Action::Poll);
    assert_eq!(m.phase(), Phase::Polling);
}

#[test]
fn waiting_never_idles_again_before_polling() {
    let mut m = RunLoop::new();
    m.step(Event::Checked(false));
    // an out-of-order check while waiting still leads to a poll
    assert_eq!(m.step(Event::Checked(false)), Action::Poll);
    assert_eq!(m.phase(), Phase::Polling);
}

#[test]
fn spurious_wake_while_polling_polls() {
    let mut m = RunLoop::new();
    assert_eq!(m.step(Event::Woken), Action::Poll);
    assert_eq!(m.phase(), Phase::Polling);
}
