use agent_core::errors::WorkloadError;
use agent_core::results::{TestOutcome, TestResults};
use agent_core::workload::{
    delete_workload, rerun_failed_workload, results_workload, run_workload, CommandOutput,
    ScriptedWorkloadEnv, WorkloadConfig, WorkloadTest,
};

fn quiet_success() -> CommandOutput {
    CommandOutput { success: true, code: Some(0), stdout: Vec::new(), stderr: Vec::new() }
}

fn with_stdout(stdout: &str) -> CommandOutput {
    CommandOutput {
        success: true,
        code: Some(0),
        stdout: stdout.as_bytes().to_vec(),
        stderr: Vec::new(),
    }
}

fn failure(code: i32, stderr: &str) -> CommandOutput {
    CommandOutput {
        success: false,
        code: Some(code),
        stdout: Vec::new(),
        stderr: stderr.as_bytes().to_vec(),
    }
}

fn report() -> TestResults {
    TestResults {
        outcome: TestOutcome::Pass,
        num_passed: 7,
        num_failed: 0,
        num_skipped: 2,
        other_info: Some("all good".to_string()),
    }
}

fn two_test_config() -> WorkloadConfig {
    WorkloadConfig {
        tests: vec![
            WorkloadTest { name: "t0".to_string(), image: "img0".to_string() },
            WorkloadTest { name: "t1".to_string(), image: "img1".to_string() },
        ],
        sonobuoy_image: Some("harness-img".to_string()),
        assume_role: None,
    }
}

#[test]
fn run_workload_drives_the_harness_with_exact_arguments() {
    let mut env = ScriptedWorkloadEnv::new(Some(report()));
    // Outputs are consumed from the end: gen t0, gen t1, run, retrieve, status.
    env.outputs = vec![
        with_stdout("{}"),
        quiet_success(),
        quiet_success(),
        with_stdout("plugin-yaml-1"),
        with_stdout("plugin-yaml-0"),
    ];
    let results = run_workload(
        &"kc.yaml".to_string(),
        &two_test_config(),
        &"/results".to_string(),
        &mut env,
        &None,
    )
    .unwrap();
    assert_eq!(results.num_passed, 7);
    assert_eq!(env.seen.len(), 5);
    assert_eq!(
        env.seen[0],
        vec!["gen", "plugin", "--name", "t0", "--image", "img0"]
    );
    assert_eq!(
        env.seen[1],
        vec!["gen", "plugin", "--name", "t1", "--image", "img1"]
    );
    assert_eq!(
        env.seen[2],
        vec![
            "--kubeconfig",
            "kc.yaml",
            "run",
            "--namespace",
            "testsys-workload",
            "--plugin",
            "./t0-plugin.yaml",
            "--plugin",
            "./t1-plugin.yaml",
            "--sonobuoy-image",
            "harness-img",
        ]
    );
    assert_eq!(
        env.seen[3],
        vec![
            "--kubeconfig",
            "kc.yaml",
            "retrieve",
            "--namespace",
            "testsys-workload",
            "--filename",
            "/results/sonobuoy-results.tar.gz",
        ]
    );
    assert_eq!(
        env.seen[4],
        vec![
            "--kubeconfig",
            "kc.yaml",
            "status",
            "--json",
            "--namespace",
            "testsys-workload",
        ]
    );
}

#[test]
fn a_failed_plugin_generation_names_the_plugin() {
    let mut env = ScriptedWorkloadEnv::new(None);
    env.outputs = vec![failure(2, "no such image")];
    let error = run_workload(
        &"kc.yaml".to_string(),
        &two_test_config(),
        &"/results".to_string(),
        &mut env,
        &None,
    )
    .unwrap_err();
    match error {
        WorkloadError::Test { plugin } => assert_eq!(plugin, "t0"),
        other => panic!("expected a plugin failure, got {:?}", other),
    }
}

#[test]
fn a_failed_plugin_file_write_names_the_path() {
    let mut env = ScriptedWorkloadEnv::new(None);
    env.writes_succeed = false;
    let error = run_workload(
        &"kc.yaml".to_string(),
        &two_test_config(),
        &"/results".to_string(),
        &mut env,
        &None,
    )
    .unwrap_err();
    match error {
        WorkloadError::FileWrite { path } => assert_eq!(path, "./t0-plugin.yaml"),
        other => panic!("expected a file write failure, got {:?}", other),
    }
}

#[test]
fn a_failed_run_carries_its_exit_code_and_output() {
    let mut env = ScriptedWorkloadEnv::new(None);
    env.outputs = vec![failure(3, "boom"), quiet_success(), quiet_success()];
    let error = run_workload(
        &"kc.yaml".to_string(),
        &two_test_config(),
        &"/results".to_string(),
        &mut env,
        &None,
    )
    .unwrap_err();
    match error {
        WorkloadError::Run { exit_code, stdout, stderr } => {
            assert_eq!(exit_code, 3);
            assert_eq!(stdout, "");
            assert_eq!(stderr, "boom");
        },
        other => panic!("expected a run failure, got {:?}", other),
    }
}

#[test]
fn a_status_that_never_arrives_is_a_timeout() {
    let mut env = ScriptedWorkloadEnv::new(None);
    env.status_ready = false;
    let error = run_workload(
        &"kc.yaml".to_string(),
        &two_test_config(),
        &"/results".to_string(),
        &mut env,
        &None,
    )
    .unwrap_err();
    assert!(matches!(error, WorkloadError::Timeout));
}

#[test]
fn unparseable_status_output_is_a_deserialize_error() {
    let mut env = ScriptedWorkloadEnv::new(Some(report()));
    // Outputs are consumed from the end: retrieve, then status.
    env.outputs = vec![with_stdout("### not json ###"), quiet_success()];
    let error = results_workload(&"kc.yaml".to_string(), &"/results".to_string(), &mut env)
        .unwrap_err();
    assert!(matches!(error, WorkloadError::DeserializeJson { .. }));
}

#[test]
fn rerun_uses_the_stored_results_archive() {
    let mut env = ScriptedWorkloadEnv::new(Some(report()));
    env.outputs = vec![with_stdout("{}"), quiet_success(), quiet_success()];
    let results = rerun_failed_workload(
        &"kc.yaml".to_string(),
        &"/results".to_string(),
        &mut env,
        &two_test_config(),
        &None,
    )
    .unwrap();
    assert_eq!(results.num_skipped, 2);
    assert_eq!(
        env.seen[0],
        vec![
            "--kubeconfig",
            "kc.yaml",
            "run",
            "--namespace",
            "testsys-workload",
            "--sonobuoy-image",
            "harness-img",
            "--rerun-failed",
            "/results/sonobuoy-results.tar.gz",
        ]
    );
}

#[test]
fn delete_workload_issues_exactly_the_delete_invocation() {
    let mut env = ScriptedWorkloadEnv::new(None);
    assert!(delete_workload(&"kc.yaml".to_string(), &mut env).is_ok());
    assert_eq!(env.seen.len(), 1);
    assert_eq!(
        env.seen[0],
        vec![
            "--kubeconfig",
            "kc.yaml",
            "delete",
            "--namespace",
            "testsys-workload",
            "--wait",
        ]
    );
}

#[test]
fn a_failed_delete_is_its_own_error() {
    let mut env = ScriptedWorkloadEnv::new(None);
    env.outputs = vec![failure(1, "")];
    let error = delete_workload(&"kc.yaml".to_string(), &mut env).unwrap_err();
    assert!(matches!(error, WorkloadError::Delete));
}
