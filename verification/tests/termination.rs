use voice_keyboard::termination::{
    PollStatus, StopDirective, TerminationOutcome, TerminationPhase, TerminationProtocol,
    SHUTDOWN_GRACE_MS, SHUTDOWN_POLL_MS, STOP_GRACE_MS, STOP_POLL_MS,
};

/// Drive the protocol as the surrounding program would against a child
/// that stays alive for `alive_ms` after the termination request. Returns
/// the outcome, the total waited time, and whether a forced kill was
/// directed.
fn drive(mut t: TerminationProtocol, alive_ms: u64) -> (TerminationOutcome, u64, bool) {
    let mut elapsed: u64 = 0;
    let mut killed = false;
    loop {
        let poll = if elapsed >= alive_ms { PollStatus::Exited } else { PollStatus::Running };
        match t.observe(poll) {
            StopDirective::PollAgain { sleep_ms } => {
                elapsed += sleep_ms;
            },
            StopDirective::ForceKill { sleep_ms } => {
                elapsed += sleep_ms;
                killed = true;
                return (t.confirm_kill(), t.waited_ms, killed);
            },
            StopDirective::Finished { outcome } => {
                return (outcome, t.waited_ms, killed);
            },
        }
    }
}

#[test]
fn child_exiting_within_window_is_exited_without_kill() {
    let t = TerminationProtocol::for_stop();
    let (outcome, waited, killed) = drive(t, 300);
    assert_eq!(outcome, TerminationOutcome::Exited);
    assert!(!killed);
    assert_eq!(waited, 300);
    assert!(waited < STOP_GRACE_MS);
}

#[test]
fn already_dead_child_is_exited_immediately() {
    let mut t = TerminationProtocol::for_stop();
    let d = t.observe(PollStatus::Exited);
    assert_eq!(d, StopDirective::Finished { outcome: TerminationOutcome::Exited });
    assert_eq!(t.waited_ms, 0);
    assert_eq!(t.phase, TerminationPhase::Done(TerminationOutcome::Exited));
}

#[test]
fn unresponsive_child_killed_when_window_elapses() {
    let t = TerminationProtocol::for_stop();
    let (outcome, waited, killed) = drive(t, u64::MAX);
    assert_eq!(outcome, TerminationOutcome::TimedOutThenKilled);
    assert!(killed);
    // the kill comes exactly at the grace window: 2000 is a multiple of 100
    assert_eq!(waited, STOP_GRACE_MS);
}

#[test]
fn shutdown_budgets_are_shorter() {
    assert_eq!(SHUTDOWN_GRACE_MS, 1000);
    assert_eq!(SHUTDOWN_POLL_MS, 50);
    assert_eq!(STOP_GRACE_MS, 2000);
    assert_eq!(STOP_POLL_MS, 100);
    let t = TerminationProtocol::for_shutdown();
    let (outcome, waited, killed) = drive(t, u64::MAX);
    assert_eq!(outcome, TerminationOutcome::TimedOutThenKilled);
    assert!(killed);
    assert_eq!(waited, SHUTDOWN_GRACE_MS);
}

#[test]
fn kill_within_one_poll_interval_of_window() {
    // a window that is not a multiple of the poll interval: the kill comes
    // at the first poll boundary past it
    let t = TerminationProtocol::new(250, 100);
    let (outcome, waited, killed) = drive(t, u64::MAX);
    assert_eq!(outcome, TerminationOutcome::TimedOutThenKilled);
    assert!(killed);
    assert_eq!(waited, 300);
    assert!(250 <= waited && waited < 250 + 100);
}

#[test]
fn poll_directives_carry_the_poll_interval() {
    let mut t = TerminationProtocol::for_stop();
    let d1 = t.observe(PollStatus::Running);
    assert_eq!(d1, StopDirective::PollAgain { sleep_ms: STOP_POLL_MS });
    assert_eq!(t.waited_ms, STOP_POLL_MS);
    let d2 = t.observe(PollStatus::Running);
    assert_eq!(d2, StopDirective::PollAgain { sleep_ms: STOP_POLL_MS });
    assert_eq!(t.waited_ms, 2 * STOP_POLL_MS);
}

#[test]
fn exit_on_the_last_poll_is_still_graceful() {
    // alive for 1900ms: the poll at 1900 sees the exit, one interval
    // before the window elapses
    let t = TerminationProtocol::for_stop();
    let (outcome, waited, killed) = drive(t, 1900);
    assert_eq!(outcome, TerminationOutcome::Exited);
    assert!(!killed);
    assert_eq!(waited, 1900);
}
