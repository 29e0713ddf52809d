use agent_core::waiting::{wait_for, PollOutcome, ScriptedPoller, WaitError};

#[test]
fn wait_succeeds_at_the_interval_the_predicate_turns_true() {
    let script = vec![PollOutcome::NotReady, PollOutcome::NotReady, PollOutcome::Ready];
    let mut poller = ScriptedPoller::new(script);
    assert!(wait_for(&mut poller, 10).is_ok());
    assert_eq!(poller.polls, 3);
}

#[test]
fn wait_succeeds_immediately_when_already_ready() {
    let mut poller = ScriptedPoller::new(vec![PollOutcome::Ready]);
    assert!(wait_for(&mut poller, 1).is_ok());
    assert_eq!(poller.polls, 1);
}

#[test]
fn wait_times_out_no_later_than_the_bound() {
    let mut poller = ScriptedPoller::new(vec![]);
    let error = wait_for(&mut poller, 4).unwrap_err();
    assert!(matches!(error, WaitError::Timeout));
    assert_eq!(poller.polls, 4);
}

#[test]
fn predicate_failure_propagates_immediately_and_is_not_retried() {
    let script = vec![PollOutcome::NotReady, PollOutcome::Failed, PollOutcome::Ready];
    let mut poller = ScriptedPoller::new(script);
    let error = wait_for(&mut poller, 10).unwrap_err();
    match error {
        WaitError::Failed(message) => assert_eq!(message, "scripted predicate failure"),
        WaitError::Timeout => panic!("a predicate failure must not look like a timeout"),
    }
    assert_eq!(poller.polls, 2);
}
