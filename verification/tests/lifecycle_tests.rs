use agent_core::errors::AgentError;
use agent_core::lifecycle::{BootstrapData, Client, ScriptedClient, ScriptedRunner, TestAgent};
use agent_core::results::{TestOutcome, TestResults};

fn passing_results() -> TestResults {
    TestResults {
        outcome: TestOutcome::Pass,
        num_passed: 3,
        num_failed: 0,
        num_skipped: 1,
        other_info: None,
    }
}

#[test]
fn run_reports_starting_then_outcome_on_success() {
    let client = ScriptedClient::with_script(true, true, true);
    let runner = ScriptedRunner::with_script(true, true, passing_results());
    let mut agent = TestAgent::from_parts(client, runner);
    assert!(agent.run().is_ok());
    let (client, runner) = agent.into_parts();
    assert_eq!(client.starting_accepted, 1);
    assert_eq!(client.outcomes_accepted, 1);
    assert_eq!(client.errors_accepted, 0);
    assert_eq!(runner.times_run, 1);
    assert_eq!(runner.times_terminated, 1);
}

#[test]
fn start_notify_failure_aborts_without_cleanup() {
    let client = ScriptedClient::with_script(false, true, true);
    let runner = ScriptedRunner::with_script(true, true, passing_results());
    let mut agent = TestAgent::from_parts(client, runner);
    let error = agent.run().unwrap_err();
    assert!(matches!(error, AgentError::Client(_)));
    let (client, runner) = agent.into_parts();
    assert_eq!(client.starting_accepted, 0);
    assert_eq!(client.outcomes_accepted, 0);
    assert_eq!(client.errors_accepted, 0);
    assert_eq!(runner.times_run, 0);
    assert_eq!(runner.times_terminated, 0);
}

#[test]
fn execute_failure_reports_error_and_terminates() {
    let client = ScriptedClient::with_script(true, true, true);
    let runner = ScriptedRunner::with_script(false, true, passing_results());
    let mut agent = TestAgent::from_parts(client, runner);
    let error = agent.run().unwrap_err();
    assert!(matches!(error, AgentError::Runner(_)));
    let (client, runner) = agent.into_parts();
    assert_eq!(client.starting_accepted, 1);
    assert_eq!(client.outcomes_accepted, 0);
    assert_eq!(client.errors_accepted, 1);
    assert_eq!(runner.times_terminated, 1);
}

#[test]
fn execute_and_terminate_failure_never_reports_an_outcome() {
    let client = ScriptedClient::with_script(true, true, true);
    let runner = ScriptedRunner::with_script(false, false, passing_results());
    let mut agent = TestAgent::from_parts(client, runner);
    let error = agent.run().unwrap_err();
    assert!(matches!(error, AgentError::Runner(_)));
    let (client, runner) = agent.into_parts();
    assert_eq!(client.outcomes_accepted, 0);
    // One failure notice for the failed execution; the failed
    // termination adds no second report.
    assert_eq!(client.errors_accepted, 1);
    assert_eq!(runner.times_terminated, 1);
}

#[test]
fn result_notify_failure_returns_the_send_error() {
    let client = ScriptedClient::with_script(true, false, true);
    let runner = ScriptedRunner::with_script(true, true, passing_results());
    let mut agent = TestAgent::from_parts(client, runner);
    let error = agent.run().unwrap_err();
    assert!(matches!(error, AgentError::Client(_)));
    let (client, runner) = agent.into_parts();
    assert_eq!(client.outcomes_accepted, 0);
    assert_eq!(client.errors_accepted, 1);
    assert_eq!(runner.times_terminated, 1);
}

#[test]
fn terminate_failure_after_delivery_is_still_reported() {
    let client = ScriptedClient::with_script(true, true, true);
    let runner = ScriptedRunner::with_script(true, false, passing_results());
    let mut agent = TestAgent::from_parts(client, runner);
    let error = agent.run().unwrap_err();
    assert!(matches!(error, AgentError::Runner(_)));
    let (client, _runner) = agent.into_parts();
    assert_eq!(client.outcomes_accepted, 1);
    assert_eq!(client.errors_accepted, 1);
}

#[test]
fn reporting_failures_never_escalate() {
    let client = ScriptedClient::with_script(true, true, false);
    let runner = ScriptedRunner::with_script(false, false, passing_results());
    let mut agent = TestAgent::from_parts(client, runner);
    let error = agent.run().unwrap_err();
    assert!(matches!(error, AgentError::Runner(_)));
    let (client, _runner) = agent.into_parts();
    assert_eq!(client.errors_accepted, 0);
    assert_eq!(client.outcomes_accepted, 0);
}

#[test]
fn construction_fails_without_a_test_name() {
    let bootstrap = BootstrapData { test_name: String::new() };
    let built = TestAgent::<ScriptedClient, ScriptedRunner>::new(bootstrap);
    assert!(matches!(built, Err(AgentError::Client(_))));
}

#[test]
fn construction_succeeds_with_a_test_name() {
    let bootstrap = BootstrapData { test_name: "one-test".to_string() };
    let built = TestAgent::<ScriptedClient, ScriptedRunner>::new(bootstrap);
    assert!(built.is_ok());
}

#[test]
fn a_fresh_scripted_client_has_sent_nothing() {
    let client = ScriptedClient::new(BootstrapData { test_name: "t".to_string() }).unwrap();
    assert_eq!(client.starting_accepted, 0);
    assert_eq!(client.outcomes_accepted, 0);
    assert_eq!(client.errors_accepted, 0);
}
