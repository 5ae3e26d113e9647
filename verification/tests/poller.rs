use kubeception::poller::{
    Directive, Poll, Report, StabilityPoll, Status, INTERVAL_SECONDS, REACHABLE_ATTEMPTS,
    REGISTERED_ATTEMPTS, STABLE_CONFIRMATIONS,
};

/// Drives a wait with probes that succeed from the attempt `first_success`
/// on (counted from one); returns the verdict, the probes and the sleeps.
fn drive(poll: &mut Poll, first_success: u32) -> (bool, u32, u32) {
    let mut probes = 0;
    let mut sleeps = 0;
    let mut directive = poll.directive();
    loop {
        match directive {
            Directive::Probe => {
                probes += 1;
                directive = poll.step(Report::Probed(probes >= first_success));
            }
            Directive::Sleep(seconds) => {
                assert_eq!(seconds, 1);
                sleeps += 1;
                directive = poll.step(Report::Slept);
            }
            Directive::Finish(verdict) => return (verdict, probes, sleeps),
        }
    }
}

/// Drives a stability wait with the probe outcomes that `outcome` gives by
/// the probe's number, counted from one.
fn drive_stable(poll: &mut StabilityPoll, outcome: &dyn Fn(u32) -> bool) -> (bool, u32, u32) {
    let mut probes = 0;
    let mut sleeps = 0;
    let mut directive = poll.directive();
    loop {
        match directive {
            Directive::Probe => {
                probes += 1;
                directive = poll.step(Report::Probed(outcome(probes)));
            }
            Directive::Sleep(_) => {
                sleeps += 1;
                directive = poll.step(Report::Slept);
            }
            Directive::Finish(verdict) => return (verdict, probes, sleeps),
        }
    }
}

#[test]
fn constants_are_those_of_the_waits() {
    assert_eq!(REACHABLE_ATTEMPTS, 300);
    assert_eq!(REGISTERED_ATTEMPTS, 30);
    assert_eq!(STABLE_CONFIRMATIONS, 10);
    assert_eq!(INTERVAL_SECONDS, 1);
}

#[test]
fn poll_starts_with_a_probe() {
    let poll = Poll::new(300);
    assert_eq!(poll.directive(), Directive::Probe);
    assert_eq!(poll.status(), Status::Probing);
    assert_eq!(poll.attempts(), 0);
    assert_eq!(poll.max_attempts(), 300);
}

#[test]
fn poll_succeeds_on_first_probe() {
    let mut poll = Poll::new(REACHABLE_ATTEMPTS);
    assert_eq!(drive(&mut poll, 1), (true, 1, 0));
    assert_eq!(poll.status(), Status::Succeeded);
    assert_eq!(poll.attempts(), 1);
}

#[test]
fn poll_succeeds_after_failures() {
    let mut poll = Poll::new(REACHABLE_ATTEMPTS);
    assert_eq!(drive(&mut poll, 6), (true, 6, 5));
    assert_eq!(poll.attempts(), 6);
}

#[test]
fn poll_succeeds_on_last_attempt() {
    let mut poll = Poll::new(REACHABLE_ATTEMPTS);
    assert_eq!(drive(&mut poll, 300), (true, 300, 299));
    assert_eq!(poll.status(), Status::Succeeded);
}

#[test]
fn poll_times_out_after_all_attempts() {
    let mut poll = Poll::new(REACHABLE_ATTEMPTS);
    assert_eq!(drive(&mut poll, u32::MAX), (false, 300, 299));
    assert_eq!(poll.status(), Status::TimedOut);
    assert_eq!(poll.attempts(), 300);
}

#[test]
fn poll_for_registration_spends_thirty_queries() {
    let mut poll = Poll::new(REGISTERED_ATTEMPTS);
    assert_eq!(drive(&mut poll, u32::MAX), (false, 30, 29));
}

#[test]
fn poll_without_attempts_has_timed_out() {
    let poll = Poll::new(0);
    assert_eq!(poll.status(), Status::TimedOut);
    assert_eq!(poll.directive(), Directive::Finish(false));
}

#[test]
fn poll_ignores_reports_out_of_turn() {
    let mut poll = Poll::new(3);
    assert_eq!(poll.step(Report::Slept), Directive::Probe);
    assert_eq!(poll.attempts(), 0);
    assert_eq!(poll.step(Report::Probed(false)), Directive::Sleep(1));
    assert_eq!(poll.step(Report::Probed(true)), Directive::Sleep(1));
    assert_eq!(poll.attempts(), 1);
    assert_eq!(poll.step(Report::Slept), Directive::Probe);
    assert_eq!(poll.step(Report::Probed(true)), Directive::Finish(true));
    assert_eq!(poll.step(Report::Probed(false)), Directive::Finish(true));
    assert_eq!(poll.step(Report::Slept), Directive::Finish(true));
    assert_eq!(poll.attempts(), 2);
}

#[test]
fn poll_that_timed_out_stays_so() {
    let mut poll = Poll::new(1);
    assert_eq!(poll.step(Report::Probed(false)), Directive::Finish(false));
    assert_eq!(poll.step(Report::Probed(true)), Directive::Finish(false));
    assert_eq!(poll.status(), Status::TimedOut);
    assert_eq!(poll.attempts(), 1);
}

#[test]
fn stable_after_ten_confirmations() {
    let mut poll = StabilityPoll::new(STABLE_CONFIRMATIONS, REACHABLE_ATTEMPTS);
    assert_eq!(drive_stable(&mut poll, &|_| true), (true, 10, 9));
    assert_eq!(poll.confirmed(), 10);
    assert_eq!(poll.status(), Status::Succeeded);
}

#[test]
fn stable_fails_on_the_seventh_confirmation() {
    let mut poll = StabilityPoll::new(STABLE_CONFIRMATIONS, REACHABLE_ATTEMPTS);
    let (verdict, probes, _) = drive_stable(&mut poll, &|probe| probe <= 6);
    assert!(!verdict);
    assert_eq!(probes, 6 + 300);
    assert_eq!(poll.confirmed(), 6);
    assert_eq!(poll.status(), Status::TimedOut);
}

#[test]
fn stable_never_reported_early() {
    let mut poll = StabilityPoll::new(STABLE_CONFIRMATIONS, REACHABLE_ATTEMPTS);
    let mut confirmed = 0;
    let mut directive = poll.directive();
    while confirmed < 9 {
        assert_eq!(directive, Directive::Probe);
        directive = poll.step(Report::Probed(true));
        confirmed += 1;
        assert_eq!(poll.confirmed(), confirmed);
        assert_ne!(directive, Directive::Finish(true));
        assert_eq!(directive, Directive::Sleep(1));
        directive = poll.step(Report::Slept);
    }
    assert_eq!(poll.step(Report::Probed(true)), Directive::Finish(true));
}

#[test]
fn stable_rounds_have_attempts_of_their_own() {
    let mut poll = StabilityPoll::new(2, 3);
    // first round: two failures, then a success
    assert_eq!(poll.step(Report::Probed(false)), Directive::Sleep(1));
    assert_eq!(poll.step(Report::Slept), Directive::Probe);
    assert_eq!(poll.step(Report::Probed(false)), Directive::Sleep(1));
    assert_eq!(poll.step(Report::Slept), Directive::Probe);
    assert_eq!(poll.step(Report::Probed(true)), Directive::Sleep(1));
    assert_eq!(poll.confirmed(), 1);
    // second round starts afresh: again two failures are borne
    assert_eq!(poll.step(Report::Slept), Directive::Probe);
    assert_eq!(poll.step(Report::Probed(false)), Directive::Sleep(1));
    assert_eq!(poll.step(Report::Slept), Directive::Probe);
    assert_eq!(poll.step(Report::Probed(false)), Directive::Sleep(1));
    assert_eq!(poll.step(Report::Slept), Directive::Probe);
    assert_eq!(poll.step(Report::Probed(true)), Directive::Finish(true));
    assert_eq!(poll.confirmed(), 2);
}

#[test]
fn stable_round_that_times_out_fails_at_once() {
    let mut poll = StabilityPoll::new(2, 2);
    assert_eq!(poll.step(Report::Probed(true)), Directive::Sleep(1));
    assert_eq!(poll.step(Report::Slept), Directive::Probe);
    assert_eq!(poll.step(Report::Probed(false)), Directive::Sleep(1));
    assert_eq!(poll.step(Report::Slept), Directive::Probe);
    assert_eq!(poll.step(Report::Probed(false)), Directive::Finish(false));
    assert_eq!(poll.step(Report::Probed(true)), Directive::Finish(false));
    assert_eq!(poll.confirmed(), 1);
}

#[test]
fn stable_without_confirmations_is_stable() {
    let poll = StabilityPoll::new(0, 300);
    assert_eq!(poll.directive(), Directive::Finish(true));
}
