use agent_core::selftest::{
    all_pods_running, any_pod_running, first_pod_running, is_pod_running, Cluster, PodView,
    ScriptedKindEnv,
};
use agent_core::waiting::PollOutcome;
use agent_core::workload::CommandOutput;

fn pod(phase: Option<&str>) -> PodView {
    PodView { phase: phase.map(|p| p.to_string()) }
}

#[test]
fn pod_phase_decides_running() {
    assert!(is_pod_running(&pod(Some("Running"))));
    assert!(!is_pod_running(&pod(Some("Pending"))));
    assert!(!is_pod_running(&pod(None)));
}

#[test]
fn controller_needs_every_pod_running_and_at_least_one() {
    assert!(!all_pods_running(&vec![]));
    assert!(all_pods_running(&vec![pod(Some("Running")), pod(Some("Running"))]));
    assert!(!all_pods_running(&vec![pod(Some("Running")), pod(Some("Pending"))]));
}

#[test]
fn a_test_is_running_when_its_first_pod_is() {
    assert!(!first_pod_running(&vec![]));
    assert!(first_pod_running(&vec![pod(Some("Running")), pod(None)]));
    assert!(!first_pod_running(&vec![pod(None), pod(Some("Running"))]));
}

#[test]
fn a_provider_is_running_when_any_pod_is() {
    assert!(!any_pod_running(&vec![]));
    assert!(any_pod_running(&vec![pod(None), pod(Some("Running"))]));
    assert!(!any_pod_running(&vec![pod(Some("Pending")), pod(None)]));
}

#[test]
fn creating_a_cluster_deletes_any_namesake_first() {
    let mut env = ScriptedKindEnv::new(vec![Some("Running".to_string())]);
    let cluster = Cluster::new("itest", &mut env).unwrap();
    assert_eq!(cluster.name(), "itest");
    assert_eq!(env.seen.len(), 2);
    assert_eq!(env.seen[0], vec!["delete", "cluster", "--name", "itest"]);
    assert_eq!(
        env.seen[1],
        vec![
            "--kubeconfig",
            "/tmp/selftest/kubeconfig.yaml",
            "create",
            "cluster",
            "--name",
            "itest",
        ]
    );
}

#[test]
fn internal_kubeconfig_is_fetched_and_written() {
    let mut env = ScriptedKindEnv::new(vec![]);
    let cluster = Cluster::new("itest", &mut env).unwrap();
    let path = cluster.get_internal_kubeconfig(&mut env).unwrap();
    assert_eq!(path, "/tmp/selftest/kubeconfig_internal.yaml");
    assert_eq!(
        env.seen[2],
        vec!["get", "kubeconfig", "--internal", "--name", "itest"]
    );
}

#[test]
fn loading_an_image_uses_the_cluster_name() {
    let mut env = ScriptedKindEnv::new(vec![]);
    let cluster = Cluster::new("itest", &mut env).unwrap();
    assert!(cluster.load_image_to_cluster("an/image:tag", &mut env).is_ok());
    assert_eq!(
        env.seen[2],
        vec!["load", "docker-image", "an/image:tag", "--name", "itest"]
    );
}

#[test]
fn a_failed_tool_invocation_carries_its_exit_code() {
    let mut env = ScriptedKindEnv::new(vec![]);
    env.outputs = vec![CommandOutput {
        success: false,
        code: Some(7),
        stdout: b"out".to_vec(),
        stderr: b"err".to_vec(),
    }];
    let error = Cluster::new("itest", &mut env).unwrap_err();
    match error {
        agent_core::selftest::ClusterError::Command { exit_code, stdout, stderr } => {
            assert_eq!(exit_code, 7);
            assert_eq!(stdout, "out");
            assert_eq!(stderr, "err");
        },
        other => panic!("expected a command failure, got {:?}", other),
    }
}

#[test]
fn running_queries_go_through_the_pod_listing() {
    let mut env = ScriptedKindEnv::new(vec![Some("Running".to_string())]);
    let cluster = Cluster::new("itest", &mut env).unwrap();
    assert!(cluster.is_controller_running(&mut env).unwrap());
    assert!(cluster.is_test_running("one-test", &mut env).unwrap());
    assert!(cluster.is_provider_running("a-provider", &mut env).unwrap());
    let mut env = ScriptedKindEnv::new(vec![Some("Pending".to_string())]);
    let cluster = Cluster::new("itest2", &mut env).unwrap();
    assert!(!cluster.is_controller_running(&mut env).unwrap());
}

#[test]
fn waiting_for_readiness_maps_wait_failures() {
    let mut env = ScriptedKindEnv::new(vec![]);
    let cluster = Cluster::new("itest3", &mut env).unwrap();
    let mut poller = agent_core::waiting::ScriptedPoller::new(vec![
        PollOutcome::NotReady,
        PollOutcome::Ready,
    ]);
    assert!(cluster.wait_for_controller(&mut poller, 5).is_ok());
    let mut poller = agent_core::waiting::ScriptedPoller::new(vec![]);
    let error = cluster.wait_for_test_pod(&mut poller, 2).unwrap_err();
    assert!(matches!(error, agent_core::selftest::ClusterError::Timeout));
}
