//! The workload-execution path: generating one test plugin per configured
//! test, starting the external test harness, waiting for its status and
//! its results, and retrieving and interpreting what it reported. The
//! harness is driven entirely through argument lists assembled here; the
//! assembly is specified exactly.

use vstd::prelude::*;
use vstd::string::*;
use crate::codec::{parse_json_value, utf8_to_string};
use crate::errors::WorkloadError;
use crate::history::lemma_push_keeps_prefix;
use crate::results::TestResults;
use crate::waiting::WaitError;

verus! {

/// The file name the harness's retrieved results are stored under.
pub const SONOBUOY_RESULTS_FILENAME: &'static str = "sonobuoy-results.tar.gz";

/// One configured workload test: a plugin name and its image.
#[derive(Debug)]
pub struct WorkloadTest {
    pub name: String,
    pub image: String,
}

/// The delivered workload configuration.
#[derive(Debug)]
pub struct WorkloadConfig {
    pub tests: Vec<WorkloadTest>,
    pub sonobuoy_image: Option<String>,
    pub assume_role: Option<String>,
}

/// What an invoked harness command produced.
#[derive(Debug)]
pub struct CommandOutput {
    pub success: bool,
    pub code: Option<i32>,
    pub stdout: Vec<u8>,
    pub stderr: Vec<u8>,
}

/// `calls` extends `base`: every harness invocation recorded before this
/// run is still in place.
pub open spec fn extends_calls(calls: Seq<Seq<Seq<char>>>, base: Seq<Seq<Seq<char>>>) -> bool {
    base.len() <= calls.len() && calls.subrange(0, base.len() as int) == base
}

/// The environment a workload run acts through: the external test
/// harness, the files handed to it, and the collaborator that interprets
/// its report.
pub trait WorkloadEnv: Sized {
    /// The argument lists of every harness invocation so far, in order.
    spec fn calls(&self) -> Seq<Seq<Seq<char>>>;

    /// Invokes the harness with the given arguments; the invocation is
    /// recorded whatever comes back.
    fn sonobuoy(&mut self, args: &Vec<String>) -> (r: Result<CommandOutput, String>)
        ensures
            final(self).calls() == old(self).calls().push(
                args@.map_values(|s: String| s@),
            ),
    ;

    /// Writes a generated plugin file for the harness to pick up.
    fn write_plugin_file(&mut self, path: &String, content: &Vec<u8>) -> (r: Result<(), String>)
        ensures
            final(self).calls() == old(self).calls(),
    ;

    /// Waits, within the configured bound, until the harness reports a
    /// status at all.
    fn wait_status(&mut self, kubeconfig: &String) -> (r: Result<(), WaitError>)
        ensures
            final(self).calls() == old(self).calls(),
    ;

    /// Waits until the harness reports the run complete, reporting
    /// progress through the info channel meanwhile.
    fn wait_results(
        &mut self,
        kubeconfig: &String,
        assume_role: &Option<String>,
        aws_secret_name: &Option<String>,
    ) -> (r: Result<(), String>)
        ensures
            final(self).calls() == old(self).calls(),
    ;

    /// Interprets the harness's parsed status report.
    fn process_results(&mut self, status: &serde_json::Value) -> (r: Result<TestResults, String>)
        ensures
            final(self).calls() == old(self).calls(),
    ;
}

/// Where a generated plugin file is written for the given test name.
pub open spec fn plugin_file_path(name: Seq<char>) -> Seq<char> {
    "./"@ + name + "-plugin.yaml"@
}

/// The plugin arguments handed to the harness run: one `--plugin` with
/// the generated file per configured test, in order.
pub open spec fn plugin_args_view(tests: Seq<WorkloadTest>) -> Seq<Seq<char>>
    decreases tests.len(),
{
    if tests.len() == 0 {
        Seq::empty()
    } else {
        plugin_args_view(tests.drop_last()) + seq![
            "--plugin"@,
            plugin_file_path(tests.last().name@),
        ]
    }
}

/// The image arguments handed to the harness run, when an image is
/// declared.
pub open spec fn image_args_view(image: Option<Seq<char>>) -> Seq<Seq<char>> {
    match image {
        Some(image) => seq!["--sonobuoy-image"@, image],
        None => Seq::empty(),
    }
}

/// The full argument list that starts the workload run.
pub open spec fn run_args_view(
    kubeconfig: Seq<char>,
    tests: Seq<WorkloadTest>,
    image: Option<Seq<char>>,
) -> Seq<Seq<char>> {
    seq!["--kubeconfig"@, kubeconfig, "run"@, "--namespace"@, "testsys-workload"@]
        + plugin_args_view(tests) + image_args_view(image)
}

/// The full argument list that starts the rerun of failed tests.
pub open spec fn rerun_args_view(
    kubeconfig: Seq<char>,
    image: Option<Seq<char>>,
    results_filepath: Seq<char>,
) -> Seq<Seq<char>> {
    seq!["--kubeconfig"@, kubeconfig, "run"@, "--namespace"@, "testsys-workload"@]
        + image_args_view(image) + seq!["--rerun-failed"@, results_filepath]
}

/// The argument list that retrieves the results archive.
pub open spec fn retrieve_args_view(kubeconfig: Seq<char>, results_filepath: Seq<char>) -> Seq<
    Seq<char>,
> {
    seq![
        "--kubeconfig"@,
        kubeconfig,
        "retrieve"@,
        "--namespace"@,
        "testsys-workload"@,
        "--filename"@,
        results_filepath,
    ]
}

/// The argument list that generates one test plugin.
pub open spec fn gen_plugin_args_view(name: Seq<char>, image: Seq<char>) -> Seq<Seq<char>> {
    seq!["gen"@, "plugin"@, "--name"@, name, "--image"@, image]
}

/// The calls a workload run is allowed to make: plugin generation for one
/// of its configured tests, the assembled run, the retrieve, or the
/// status query — nothing else, with no other arguments.
pub open spec fn expected_workload_call(
    call: Seq<Seq<char>>,
    kubeconfig: Seq<char>,
    tests: Seq<WorkloadTest>,
    image: Option<Seq<char>>,
    results_filepath: Seq<char>,
) -> bool {
    ||| exists|t: int|
        0 <= t < tests.len() && call == gen_plugin_args_view(
            (#[trigger] tests[t]).name@,
            tests[t].image@,
        )
    ||| call == run_args_view(kubeconfig, tests, image)
    ||| call == retrieve_args_view(kubeconfig, results_filepath)
    ||| call == status_args_view(kubeconfig)
}

/// The calls a rerun is allowed to make: the assembled rerun, the
/// retrieve, or the status query.
pub open spec fn expected_rerun_call(
    call: Seq<Seq<char>>,
    kubeconfig: Seq<char>,
    image: Option<Seq<char>>,
    results_filepath: Seq<char>,
) -> bool {
    ||| call == rerun_args_view(kubeconfig, image, results_filepath)
    ||| call == retrieve_args_view(kubeconfig, results_filepath)
    ||| call == status_args_view(kubeconfig)
}

/// The argument list that asks for the status report.
pub open spec fn status_args_view(kubeconfig: Seq<char>) -> Seq<Seq<char>> {
    seq!["--kubeconfig"@, kubeconfig, "status"@, "--json"@, "--namespace"@, "testsys-workload"@]
}

/// The argument list that deletes the workload's resources.
pub open spec fn delete_args_view(kubeconfig: Seq<char>) -> Seq<Seq<char>> {
    seq![
        "--kubeconfig"@,
        kubeconfig,
        "delete"@,
        "--namespace"@,
        "testsys-workload"@,
        "--wait"@,
    ]
}

/// The text of a command's output bytes: decoded when they are text,
/// empty otherwise.
fn text_or_empty(bytes: Vec<u8>) -> (r: String)
    ensures
        vstd::utf8::valid_utf8(bytes@) ==> r@ == vstd::utf8::decode_utf8(bytes@),
        !vstd::utf8::valid_utf8(bytes@) ==> r@.len() == 0,
{
    match utf8_to_string(bytes) {
        Some(text) => text,
        None => String::new(),
    }
}

/// The failure carried when a run command exits unsuccessfully.
fn run_failure(output: CommandOutput) -> (r: WorkloadError)
    ensures
        r matches WorkloadError::Run { .. },
{
    let code = match output.code {
        Some(code) => code,
        None => 0,
    };
    let stdout = text_or_empty(output.stdout);
    let stderr = text_or_empty(output.stderr);
    WorkloadError::Run { exit_code: code, stdout, stderr }
}

/// Assembles the harness run arguments around already assembled plugin
/// arguments.
fn build_run_args(kubeconfig: &String, plugin_args: &Vec<String>, image: &Option<String>) -> (r:
    Vec<String>)
    ensures
        r@.map_values(|s: String| s@) == seq![
            "--kubeconfig"@,
            kubeconfig@,
            "run"@,
            "--namespace"@,
            "testsys-workload"@,
        ] + plugin_args@.map_values(|s: String| s@) + image_args_view(
            crate::memo::text_view(*image),
        ),
{
    let ghost f = |s: String| s@;
    let mut args: Vec<String> = Vec::new();
    args.push("--kubeconfig".to_owned());
    args.push(kubeconfig.clone());
    args.push("run".to_owned());
    args.push("--namespace".to_owned());
    args.push("testsys-workload".to_owned());
    let ghost fixed = args@.map_values(f);
    let mut i: usize = 0;
    while i < plugin_args.len()
        invariant
            0 <= i <= plugin_args@.len(),
            args@.map_values(|s: String| s@) =~= fixed + plugin_args@.subrange(
                0,
                i as int,
            ).map_values(|s: String| s@),
        decreases plugin_args@.len() - i,
    {
        let ghost before = args@;
        args.push(plugin_args[i].clone());
        proof {
            assert(args@.map_values(|s: String| s@) =~= before.map_values(|s: String| s@).push(
                plugin_args@[i as int]@,
            ));
            assert(plugin_args@.subrange(0, i + 1 as int).map_values(|s: String| s@)
                =~= plugin_args@.subrange(0, i as int).map_values(|s: String| s@).push(
                plugin_args@[i as int]@,
            ));
            assert(args@.map_values(|s: String| s@) =~= fixed + plugin_args@.subrange(
                0,
                i + 1 as int,
            ).map_values(|s: String| s@));
        }
        i = i + 1;
    }
    proof {
        assert(plugin_args@.subrange(0, plugin_args@.len() as int) =~= plugin_args@);
    }
    let ghost with_plugins = args@;
    match image {
        Some(image) => {
            args.push("--sonobuoy-image".to_owned());
            args.push(image.clone());
            proof {
                assert(args@.map_values(|s: String| s@) =~= with_plugins.map_values(
                    |s: String| s@,
                ) + image_args_view(crate::memo::text_view(Some(*image))));
            }
        },
        None => {
            proof {
                assert(args@.map_values(|s: String| s@) =~= with_plugins.map_values(
                    |s: String| s@,
                ) + image_args_view(None));
            }
        },
    }
    proof {
        assert(args@.map_values(|s: String| s@) =~= fixed + plugin_args@.map_values(
            |s: String| s@,
        ) + image_args_view(crate::memo::text_view(*image)));
        assert(fixed =~= seq![
            "--kubeconfig"@,
            kubeconfig@,
            "run"@,
            "--namespace"@,
            "testsys-workload"@,
        ]);
    }
    args
}


/// Where the retrieved results archive lies under the results directory.
pub open spec fn results_path_view(results_dir: Seq<char>) -> Seq<char> {
    results_dir + "/"@ + "sonobuoy-results.tar.gz"@
}

/// Runs the workload tests: generates one plugin per configured test,
/// writes it out, starts the harness run with exactly the assembled
/// arguments, waits for status and results, and retrieves the report. On
/// success the harness was started once with the exact argument list the
/// configuration dictates.
pub fn run_workload<E: WorkloadEnv>(
    kubeconfig_path: &String,
    workload_config: &WorkloadConfig,
    results_dir: &String,
    env: &mut E,
    aws_secret_name: &Option<String>,
) -> (r: Result<TestResults, WorkloadError>)
    ensures
        extends_calls(final(env).calls(), old(env).calls()),
        r is Ok ==> exists|i: int|
            old(env).calls().len() <= i < final(env).calls().len() && final(env).calls()[i]
                == run_args_view(
                kubeconfig_path@,
                workload_config.tests@,
                crate::memo::text_view(workload_config.sonobuoy_image),
            ),
        forall|i: int|
            old(env).calls().len() <= i < final(env).calls().len() ==> expected_workload_call(
                #[trigger] final(env).calls()[i],
                kubeconfig_path@,
                workload_config.tests@,
                crate::memo::text_view(workload_config.sonobuoy_image),
                results_path_view(results_dir@),
            ),
{
    let ghost base = env.calls();
    proof {
        assert(env.calls().subrange(0, base.len() as int) =~= base);
    }
    let mut plugin_args: Vec<String> = Vec::new();
    let mut t: usize = 0;
    while t < workload_config.tests.len()
        invariant
            0 <= t <= workload_config.tests@.len(),
            base == old(env).calls(),
            extends_calls(env.calls(), base),
            plugin_args@.map_values(|s: String| s@) =~= plugin_args_view(
                workload_config.tests@.subrange(0, t as int),
            ),
            forall|i: int|
                base.len() <= i < env.calls().len() ==> expected_workload_call(
                    #[trigger] env.calls()[i],
                    kubeconfig_path@,
                    workload_config.tests@,
                    crate::memo::text_view(workload_config.sonobuoy_image),
                    results_path_view(results_dir@),
                ),
        decreases workload_config.tests@.len() - t,
    {
        let test = &workload_config.tests[t];
        let mut gen_args: Vec<String> = Vec::new();
        gen_args.push("gen".to_owned());
        gen_args.push("plugin".to_owned());
        gen_args.push("--name".to_owned());
        gen_args.push(test.name.clone());
        gen_args.push("--image".to_owned());
        gen_args.push(test.image.clone());
        let ghost pre = env.calls();
        let generated = env.sonobuoy(&gen_args);
        proof {
            lemma_push_keeps_prefix(pre, base, gen_args@.map_values(|s: String| s@));
            assert(gen_args@.map_values(|s: String| s@) =~= gen_plugin_args_view(
                workload_config.tests@[t as int].name@,
                workload_config.tests@[t as int].image@,
            ));
            assert forall|i: int|
                base.len() <= i < env.calls().len() implies expected_workload_call(
                env.calls()[i],
                kubeconfig_path@,
                workload_config.tests@,
                crate::memo::text_view(workload_config.sonobuoy_image),
                results_path_view(results_dir@),
            ) by {
                if i < pre.len() {
                    assert(env.calls()[i] == pre[i]);
                } else {
                    assert(env.calls()[i] == gen_plugin_args_view(
                        (workload_config.tests@[t as int]).name@,
                        workload_config.tests@[t as int].image@,
                    ));
                }
            }
        }
        let output = match generated {
            Ok(output) => output,
            Err(detail) => {
                return Err(WorkloadError::Process { detail });
            },
        };
        if !output.success {
            return Err(WorkloadError::Test { plugin: test.name.clone() });
        }
        let path = String::from_str("./").concat(test.name.as_str()).concat("-plugin.yaml");
        if let Err(_) = env.write_plugin_file(&path, &output.stdout) {
            return Err(WorkloadError::FileWrite { path });
        }
        let ghost before_push = plugin_args@;
        plugin_args.push("--plugin".to_owned());
        plugin_args.push(path);
        proof {
            let tests = workload_config.tests@;
            let f = |s: String| s@;
            assert(tests.subrange(0, t + 1 as int).drop_last() =~= tests.subrange(0, t as int));
            assert(tests.subrange(0, t + 1 as int).last() == tests[t as int]);
            assert(plugin_args@.map_values(f) =~= before_push.map_values(f) + seq![
                "--plugin"@,
                plugin_file_path(tests[t as int].name@),
            ]);
            assert(plugin_args@.map_values(f) =~= plugin_args_view(
                tests.subrange(0, t + 1 as int),
            ));
        }
        t = t + 1;
    }
    proof {
        assert(workload_config.tests@.subrange(0, workload_config.tests@.len() as int)
            =~= workload_config.tests@);
    }

    let args = build_run_args(kubeconfig_path, &plugin_args, &workload_config.sonobuoy_image);
    proof {
        assert(args@.map_values(|s: String| s@) =~= run_args_view(
            kubeconfig_path@,
            workload_config.tests@,
            crate::memo::text_view(workload_config.sonobuoy_image),
        ));
    }
    let ghost pre_run = env.calls();
    let ghost run_index = pre_run.len() as int;
    let started = env.sonobuoy(&args);
    proof {
        lemma_push_keeps_prefix(pre_run, base, args@.map_values(|s: String| s@));
        assert(env.calls()[run_index] == run_args_view(
            kubeconfig_path@,
            workload_config.tests@,
            crate::memo::text_view(workload_config.sonobuoy_image),
        ));
        assert forall|i: int|
            base.len() <= i < env.calls().len() implies expected_workload_call(
            env.calls()[i],
            kubeconfig_path@,
            workload_config.tests@,
            crate::memo::text_view(workload_config.sonobuoy_image),
            results_path_view(results_dir@),
        ) by {
            if i < pre_run.len() {
                assert(env.calls()[i] == pre_run[i]);
            }
        }
    }
    let output = match started {
        Ok(output) => output,
        Err(detail) => {
            return Err(WorkloadError::Process { detail });
        },
    };
    if !output.success {
        return Err(run_failure(output));
    }

    match env.wait_status(kubeconfig_path) {
        Ok(()) => {},
        Err(WaitError::Timeout) => {
            return Err(WorkloadError::Timeout);
        },
        Err(WaitError::Failed(detail)) => {
            return Err(WorkloadError::Process { detail });
        },
    }
    if let Err(detail) = env.wait_results(
        kubeconfig_path,
        &workload_config.assume_role,
        aws_secret_name,
    ) {
        return Err(WorkloadError::Process { detail });
    }

    let ghost pre_results = env.calls();
    let results = results_workload(kubeconfig_path, results_dir, env);
    proof {
        crate::history::lemma_prefix_trans(base, pre_results, env.calls());
        crate::history::lemma_prefix_points(pre_results, env.calls());
        if results is Ok {
            assert(env.calls()[run_index] == run_args_view(
                kubeconfig_path@,
                workload_config.tests@,
                crate::memo::text_view(workload_config.sonobuoy_image),
            ));
        }
        assert forall|i: int|
            base.len() <= i < env.calls().len() implies expected_workload_call(
            env.calls()[i],
            kubeconfig_path@,
            workload_config.tests@,
            crate::memo::text_view(workload_config.sonobuoy_image),
            results_path_view(results_dir@),
        ) by {
            if i < pre_results.len() {
                assert(env.calls()[i] == pre_results[i]);
            }
        }
    }
    results
}

/// Reruns the failed tests of a workload run that already happened in
/// this agent, then waits and retrieves the report as a first run does.
pub fn rerun_failed_workload<E: WorkloadEnv>(
    kubeconfig_path: &String,
    results_dir: &String,
    env: &mut E,
    workload_config: &WorkloadConfig,
    aws_secret_name: &Option<String>,
) -> (r: Result<TestResults, WorkloadError>)
    ensures
        extends_calls(final(env).calls(), old(env).calls()),
        r is Ok ==> exists|i: int|
            old(env).calls().len() <= i < final(env).calls().len() && final(env).calls()[i]
                == rerun_args_view(
                kubeconfig_path@,
                crate::memo::text_view(workload_config.sonobuoy_image),
                results_path_view(results_dir@),
            ),
        forall|i: int|
            old(env).calls().len() <= i < final(env).calls().len() ==> expected_rerun_call(
                #[trigger] final(env).calls()[i],
                kubeconfig_path@,
                crate::memo::text_view(workload_config.sonobuoy_image),
                results_path_view(results_dir@),
            ),
{
    let ghost base = env.calls();
    proof {
        assert(env.calls().subrange(0, base.len() as int) =~= base);
    }
    let results_filepath = results_dir.clone().concat("/").concat(SONOBUOY_RESULTS_FILENAME);

    let mut args: Vec<String> = Vec::new();
    args.push("--kubeconfig".to_owned());
    args.push(kubeconfig_path.clone());
    args.push("run".to_owned());
    args.push("--namespace".to_owned());
    args.push("testsys-workload".to_owned());
    let ghost fixed = args@.map_values(|s: String| s@);
    if let Some(image) = &workload_config.sonobuoy_image {
        args.push("--sonobuoy-image".to_owned());
        args.push(image.clone());
    }
    proof {
        assert(args@.map_values(|s: String| s@) =~= fixed + image_args_view(
            crate::memo::text_view(workload_config.sonobuoy_image),
        ));
    }
    args.push("--rerun-failed".to_owned());
    args.push(results_filepath);
    proof {
        assert(args@.map_values(|s: String| s@) =~= rerun_args_view(
            kubeconfig_path@,
            crate::memo::text_view(workload_config.sonobuoy_image),
            results_path_view(results_dir@),
        ));
    }

    let ghost pre_run = env.calls();
    let ghost run_index = pre_run.len() as int;
    let started = env.sonobuoy(&args);
    proof {
        lemma_push_keeps_prefix(pre_run, base, args@.map_values(|s: String| s@));
        assert(env.calls()[run_index] == rerun_args_view(
            kubeconfig_path@,
            crate::memo::text_view(workload_config.sonobuoy_image),
            results_path_view(results_dir@),
        ));
        assert forall|i: int|
            base.len() <= i < env.calls().len() implies expected_rerun_call(
            env.calls()[i],
            kubeconfig_path@,
            crate::memo::text_view(workload_config.sonobuoy_image),
            results_path_view(results_dir@),
        ) by {}
    }
    let output = match started {
        Ok(output) => output,
        Err(detail) => {
            return Err(WorkloadError::Process { detail });
        },
    };
    if !output.success {
        return Err(run_failure(output));
    }

    match env.wait_status(kubeconfig_path) {
        Ok(()) => {},
        Err(WaitError::Timeout) => {
            return Err(WorkloadError::Timeout);
        },
        Err(WaitError::Failed(detail)) => {
            return Err(WorkloadError::Process { detail });
        },
    }
    if let Err(detail) = env.wait_results(
        kubeconfig_path,
        &workload_config.assume_role,
        aws_secret_name,
    ) {
        return Err(WorkloadError::Process { detail });
    }

    let ghost pre_results = env.calls();
    let results = results_workload(kubeconfig_path, results_dir, env);
    proof {
        crate::history::lemma_prefix_trans(base, pre_results, env.calls());
        crate::history::lemma_prefix_points(pre_results, env.calls());
        if results is Ok {
            assert(env.calls()[run_index] == rerun_args_view(
                kubeconfig_path@,
                crate::memo::text_view(workload_config.sonobuoy_image),
                results_path_view(results_dir@),
            ));
        }
        assert forall|i: int|
            base.len() <= i < env.calls().len() implies expected_rerun_call(
            env.calls()[i],
            kubeconfig_path@,
            crate::memo::text_view(workload_config.sonobuoy_image),
            results_path_view(results_dir@),
        ) by {
            if i < pre_results.len() {
                assert(env.calls()[i] == pre_results[i]);
            }
        }
    }
    results
}

/// Retrieves the results archive, asks the harness for its status report
/// and interprets it: on success exactly the retrieve and the status
/// invocations were made, in that order.
pub fn results_workload<E: WorkloadEnv>(
    kubeconfig_path: &String,
    results_dir: &String,
    env: &mut E,
) -> (r: Result<TestResults, WorkloadError>)
    ensures
        extends_calls(final(env).calls(), old(env).calls()),
        r is Ok ==> final(env).calls().len() == old(env).calls().len() + 2
            && final(env).calls()[old(env).calls().len() as int] == retrieve_args_view(
            kubeconfig_path@,
            results_path_view(results_dir@),
        ) && final(env).calls().last() == status_args_view(kubeconfig_path@),
        forall|i: int|
            old(env).calls().len() <= i < final(env).calls().len() ==> (#[trigger] final(
                env).calls()[i]) == retrieve_args_view(
                kubeconfig_path@,
                results_path_view(results_dir@),
            ) || final(env).calls()[i] == status_args_view(kubeconfig_path@),
{
    let ghost base = env.calls();
    proof {
        assert(env.calls().subrange(0, base.len() as int) =~= base);
    }
    let results_filepath = results_dir.clone().concat("/").concat(SONOBUOY_RESULTS_FILENAME);

    let mut retrieve_args: Vec<String> = Vec::new();
    retrieve_args.push("--kubeconfig".to_owned());
    retrieve_args.push(kubeconfig_path.clone());
    retrieve_args.push("retrieve".to_owned());
    retrieve_args.push("--namespace".to_owned());
    retrieve_args.push("testsys-workload".to_owned());
    retrieve_args.push("--filename".to_owned());
    retrieve_args.push(results_filepath);
    proof {
        assert(retrieve_args@.map_values(|s: String| s@) =~= retrieve_args_view(
            kubeconfig_path@,
            results_path_view(results_dir@),
        ));
    }
    let ghost pre_retrieve = env.calls();
    let retrieved = env.sonobuoy(&retrieve_args);
    proof {
        lemma_push_keeps_prefix(pre_retrieve, base, retrieve_args@.map_values(|s: String| s@));
        assert forall|i: int|
            base.len() <= i < env.calls().len() implies env.calls()[i] == retrieve_args_view(
            kubeconfig_path@,
            results_path_view(results_dir@),
        ) by {}
    }
    let output = match retrieved {
        Ok(output) => output,
        Err(detail) => {
            return Err(WorkloadError::Process { detail });
        },
    };
    if !output.success {
        return Err(run_failure(output));
    }

    let mut status_args: Vec<String> = Vec::new();
    status_args.push("--kubeconfig".to_owned());
    status_args.push(kubeconfig_path.clone());
    status_args.push("status".to_owned());
    status_args.push("--json".to_owned());
    status_args.push("--namespace".to_owned());
    status_args.push("testsys-workload".to_owned());
    proof {
        assert(status_args@.map_values(|s: String| s@) =~= status_args_view(kubeconfig_path@));
    }
    let ghost pre_status = env.calls();
    let asked = env.sonobuoy(&status_args);
    proof {
        lemma_push_keeps_prefix(pre_status, base, status_args@.map_values(|s: String| s@));
        assert forall|i: int|
            base.len() <= i < env.calls().len() implies env.calls()[i] == retrieve_args_view(
            kubeconfig_path@,
            results_path_view(results_dir@),
        ) || env.calls()[i] == status_args_view(kubeconfig_path@) by {
            if i < pre_status.len() {
                assert(env.calls()[i] == pre_status[i]);
            }
        }
    }
    let status_output = match asked {
        Ok(output) => output,
        Err(detail) => {
            return Err(WorkloadError::Process { detail });
        },
    };

    let stdout = text_or_empty(status_output.stdout);
    let run_status = match parse_json_value(stdout.as_str()) {
        Ok(value) => value,
        Err(detail) => {
            return Err(WorkloadError::DeserializeJson { detail });
        },
    };
    match env.process_results(&run_status) {
        Ok(results) => Ok(results),
        Err(detail) => Err(WorkloadError::Process { detail }),
    }
}

/// Deletes the workload's resources in the target cluster: exactly one
/// delete invocation, whatever comes of it.
pub fn delete_workload<E: WorkloadEnv>(kubeconfig_path: &String, env: &mut E) -> (r: Result<
    (),
    WorkloadError,
>)
    ensures
        final(env).calls() == old(env).calls().push(delete_args_view(kubeconfig_path@)),
        r is Err ==> (r->Err_0 matches WorkloadError::Process { .. }) || r->Err_0
            == WorkloadError::Delete,
{
    let mut args: Vec<String> = Vec::new();
    args.push("--kubeconfig".to_owned());
    args.push(kubeconfig_path.clone());
    args.push("delete".to_owned());
    args.push("--namespace".to_owned());
    args.push("testsys-workload".to_owned());
    args.push("--wait".to_owned());
    proof {
        assert(args@.map_values(|s: String| s@) =~= delete_args_view(kubeconfig_path@));
    }
    let status = match env.sonobuoy(&args) {
        Ok(status) => status,
        Err(detail) => {
            return Err(WorkloadError::Process { detail });
        },
    };
    if !status.success {
        return Err(WorkloadError::Delete);
    }
    Ok(())
}


/// A harness whose command outputs are scripted in advance: outputs are
/// consumed from the end of the script, and an exhausted script answers
/// with clean successes. Invocations are also kept as plain values, so a
/// caller can inspect the exact argument lists afterwards.
pub struct ScriptedWorkloadEnv {
    /// Outputs to hand out, consumed from the end.
    pub outputs: Vec<CommandOutput>,
    /// Whether plugin files can be written.
    pub writes_succeed: bool,
    /// Whether waiting for a status succeeds.
    pub status_ready: bool,
    /// Whether waiting for results succeeds.
    pub results_ready: bool,
    /// The interpreted report handed out, consumed by the first use.
    pub results: Option<TestResults>,
    /// Every invocation's arguments, oldest first.
    pub seen: Vec<Vec<String>>,
    invocations: Ghost<Seq<Seq<Seq<char>>>>,
}

impl ScriptedWorkloadEnv {
    /// A harness whose every command succeeds quietly and that reports
    /// the given results.
    pub fn new(results: Option<TestResults>) -> (r: ScriptedWorkloadEnv)
        ensures
            r.calls() == Seq::<Seq<Seq<char>>>::empty(),
    {
        ScriptedWorkloadEnv {
            outputs: Vec::new(),
            writes_succeed: true,
            status_ready: true,
            results_ready: true,
            results,
            seen: Vec::new(),
            invocations: Ghost(Seq::empty()),
        }
    }
}

impl WorkloadEnv for ScriptedWorkloadEnv {
    closed spec fn calls(&self) -> Seq<Seq<Seq<char>>> {
        self.invocations@
    }

    fn sonobuoy(&mut self, args: &Vec<String>) -> (r: Result<CommandOutput, String>) {
        proof {
            self.invocations@ = self.invocations@.push(args@.map_values(|s: String| s@));
        }
        self.seen.push(crate::text::clone_strings(args));
        match self.outputs.pop() {
            Some(output) => Ok(output),
            None => Ok(
                CommandOutput {
                    success: true,
                    code: Some(0),
                    stdout: Vec::new(),
                    stderr: Vec::new(),
                },
            ),
        }
    }

    fn write_plugin_file(&mut self, path: &String, content: &Vec<u8>) -> (r: Result<(), String>) {
        if self.writes_succeed {
            Ok(())
        } else {
            Err("plugin file write refused".to_owned())
        }
    }

    fn wait_status(&mut self, kubeconfig: &String) -> (r: Result<(), WaitError>) {
        if self.status_ready {
            Ok(())
        } else {
            Err(WaitError::Timeout)
        }
    }

    fn wait_results(
        &mut self,
        kubeconfig: &String,
        assume_role: &Option<String>,
        aws_secret_name: &Option<String>,
    ) -> (r: Result<(), String>) {
        if self.results_ready {
            Ok(())
        } else {
            Err("results never arrived".to_owned())
        }
    }

    fn process_results(&mut self, status: &serde_json::Value) -> (r: Result<TestResults, String>) {
        let mut answer: Option<TestResults> = None;
        core::mem::swap(&mut answer, &mut self.results);
        match answer {
            Some(results) => Ok(results),
            None => Err("no report was scripted".to_owned()),
        }
    }
}

} // verus!
