use mcauth::event::Decision;
use mcauth::poller::{
    decide_cycle, PollStep, ReactionPoller, APPROVAL_THRESHOLD, POLL_CYCLES, POLL_INTERVAL_SECS,
    POLL_WINDOW_SECS,
};

#[test]
fn window_constants() {
    assert_eq!(POLL_WINDOW_SECS, 30);
    assert_eq!(POLL_INTERVAL_SECS, 1);
    assert_eq!(POLL_CYCLES, 30);
    assert_eq!(APPROVAL_THRESHOLD, 1);
}

#[test]
fn a_cycle_needs_a_second_reactor() {
    assert_eq!(decide_cycle(1, 1), None);
    assert_eq!(decide_cycle(2, 1), Some(Decision::Approved));
    assert_eq!(decide_cycle(1, 2), Some(Decision::Denied));
    assert_eq!(decide_cycle(0, 0), None);
}

#[test]
fn approve_wins_a_tied_cycle() {
    assert_eq!(decide_cycle(2, 2), Some(Decision::Approved));
    assert_eq!(decide_cycle(5, 9), Some(Decision::Approved));
}

#[test]
fn poll_returns_first_decisive_cycle() {
    assert_eq!(ReactionPoller::poll(&vec![(1, 1), (2, 1)]), Decision::Approved);
    assert_eq!(ReactionPoller::poll(&vec![(1, 1), (1, 2)]), Decision::Denied);
    assert_eq!(ReactionPoller::poll(&vec![(1, 2), (2, 1)]), Decision::Denied);
    assert_eq!(ReactionPoller::poll(&vec![]), Decision::TimedOut);
    assert_eq!(ReactionPoller::poll(&vec![(1, 1); 30]), Decision::TimedOut);
}

#[test]
fn observe_consumes_the_window() {
    let mut p = ReactionPoller::new();
    for _ in 0..29 {
        assert_eq!(p.observe(1, 1), PollStep::SleepThenSample { secs: 1 });
    }
    assert_eq!(p.observe(1, 1), PollStep::Expired);
}

#[test]
fn observe_stops_on_a_decision() {
    let mut p = ReactionPoller::new();
    assert_eq!(p.observe(0, 1), PollStep::SleepThenSample { secs: 1 });
    assert_eq!(p.observe(3, 0), PollStep::Decided(Decision::Approved));

    let mut p = ReactionPoller::new();
    assert_eq!(p.observe(1, 4), PollStep::Decided(Decision::Denied));
}
