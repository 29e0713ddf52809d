//! Self-testing helpers around a local disposable cluster: driving the
//! cluster tool over exact argument lists, and deciding readiness from
//! the observed pod phases.

use vstd::prelude::*;
use vstd::string::*;
use crate::history::lemma_push_keeps_prefix;
use crate::waiting::{wait_for, Poller, WaitError};
use crate::workload::CommandOutput;

verus! {

/// The file name of the cluster access configuration.
pub const KUBECONFIG_FILENAME: &'static str = "kubeconfig.yaml";

/// The label that marks a component's pods.
pub const LABEL_COMPONENT: &'static str = "testsys/component";

/// The label that marks a resource provider's pods.
pub const LABEL_PROVIDER_NAME: &'static str = "testsys/provider-name";

/// One pod as the orchestrator describes it: only its phase matters here.
#[derive(Debug)]
pub struct PodView {
    pub phase: Option<String>,
}

/// A failure of the self-test cluster helpers.
#[derive(Debug)]
pub enum ClusterError {
    /// A tool could not be invoked, or a file not written.
    Process { detail: String },
    /// A tool exited unsuccessfully, with what it printed.
    Command { exit_code: i32, stdout: String, stderr: String },
    /// An awaited state never arrived within its bound.
    Timeout,
}

/// The environment the self-test helpers act through: the local cluster
/// tool and the orchestrator's pod listing. Every tool invocation is
/// recorded with its argument list.
pub trait KindEnv: Sized {
    /// The argument lists of every cluster-tool invocation so far.
    spec fn calls(&self) -> Seq<Seq<Seq<char>>>;

    /// Invokes the cluster tool; the invocation is recorded whatever
    /// comes back.
    fn run_kind(&mut self, args: &Vec<String>) -> (r: Result<CommandOutput, String>)
        ensures
            final(self).calls() == old(self).calls().push(
                args@.map_values(|s: String| s@),
            ),
    ;

    /// The directory the access configurations are kept in.
    fn kubeconfig_dir(&mut self) -> (r: String)
        ensures
            final(self).calls() == old(self).calls(),
    ;

    /// Writes the cluster-internal access configuration and says where.
    fn write_internal_kubeconfig(&mut self, content: &Vec<u8>) -> (r: Result<String, String>)
        ensures
            final(self).calls() == old(self).calls(),
    ;

    /// The pods carrying the given label, as the orchestrator lists them.
    fn find_by_label(&mut self, key: &String, value: &String) -> (r: Result<Vec<PodView>, String>)
        ensures
            final(self).calls() == old(self).calls(),
    ;
}

/// Whether one described pod is in the running phase.
pub open spec fn pod_running(pod: PodView) -> bool {
    match pod.phase {
        Some(phase) => phase@ == "Running"@,
        None => false,
    }
}

/// Whether one described pod is in the running phase.
pub fn is_pod_running(pod: &PodView) -> (r: bool)
    ensures
        r == pod_running(*pod),
{
    match &pod.phase {
        Some(phase) => {
            let expected: String = "Running".to_owned();
            phase.eq(&expected)
        },
        None => false,
    }
}

/// There is at least one pod and every pod is running.
pub fn all_pods_running(pods: &Vec<PodView>) -> (r: bool)
    ensures
        r == (pods@.len() > 0 && (forall|i: int|
            0 <= i < pods@.len() ==> pod_running(#[trigger] pods@[i]))),
{
    if pods.len() == 0 {
        return false;
    }
    let mut i: usize = 0;
    while i < pods.len()
        invariant
            0 <= i <= pods@.len(),
            forall|j: int| 0 <= j < i ==> pod_running(#[trigger] pods@[j]),
        decreases pods@.len() - i,
    {
        if !is_pod_running(&pods[i]) {
            return false;
        }
        i = i + 1;
    }
    true
}

/// The first listed pod exists and is running.
pub fn first_pod_running(pods: &Vec<PodView>) -> (r: bool)
    ensures
        r == (pods@.len() > 0 && pod_running(pods@[0])),
{
    if pods.len() == 0 {
        false
    } else {
        is_pod_running(&pods[0])
    }
}

/// Some listed pod is running.
pub fn any_pod_running(pods: &Vec<PodView>) -> (r: bool)
    ensures
        r == (exists|i: int| 0 <= i < pods@.len() && pod_running(#[trigger] pods@[i])),
{
    let mut i: usize = 0;
    while i < pods.len()
        invariant
            0 <= i <= pods@.len(),
            forall|j: int| 0 <= j < i ==> !pod_running(#[trigger] pods@[j]),
        decreases pods@.len() - i,
    {
        if is_pod_running(&pods[i]) {
            return true;
        }
        i = i + 1;
    }
    false
}

/// The argument list that creates the local cluster.
pub open spec fn create_cluster_args_view(kubeconfig: Seq<char>, name: Seq<char>) -> Seq<
    Seq<char>,
> {
    seq!["--kubeconfig"@, kubeconfig, "create"@, "cluster"@, "--name"@, name]
}

/// The argument list that deletes the local cluster.
pub open spec fn delete_cluster_args_view(name: Seq<char>) -> Seq<Seq<char>> {
    seq!["delete"@, "cluster"@, "--name"@, name]
}

/// The argument list that loads an image into the local cluster.
pub open spec fn load_image_args_view(image: Seq<char>, name: Seq<char>) -> Seq<Seq<char>> {
    seq!["load"@, "docker-image"@, image, "--name"@, name]
}

/// The argument list that prints the cluster-internal access
/// configuration.
pub open spec fn internal_kubeconfig_args_view(name: Seq<char>) -> Seq<Seq<char>> {
    seq!["get"@, "kubeconfig"@, "--internal"@, "--name"@, name]
}

/// The failure carried when the cluster tool exits unsuccessfully.
fn command_failure(output: CommandOutput) -> (r: ClusterError)
    ensures
        r matches ClusterError::Command { .. },
{
    let code = match output.code {
        Some(code) => code,
        None => 1,
    };
    let stdout = match crate::codec::utf8_to_string(output.stdout) {
        Some(text) => text,
        None => String::new(),
    };
    let stderr = match crate::codec::utf8_to_string(output.stderr) {
        Some(text) => text,
        None => String::new(),
    };
    ClusterError::Command { exit_code: code, stdout, stderr }
}

/// A local disposable cluster, addressed by name through the cluster
/// tool.
#[derive(Debug)]
pub struct Cluster {
    name: String,
}

impl Cluster {
    /// The characters of the name the cluster is addressed by.
    pub closed spec fn name_view(&self) -> Seq<char> {
        self.name@
    }

    /// Deletes any cluster of this name, then creates a fresh one whose
    /// access configuration lands in the environment's directory: exactly
    /// the delete invocation, then the create invocation, in that order.
    pub fn new<E: KindEnv>(cluster_name: &str, env: &mut E) -> (r: Result<Cluster, ClusterError>)
        ensures
            crate::workload::extends_calls(final(env).calls(), old(env).calls()),
            r is Ok ==> r->Ok_0.name_view() == cluster_name@,
            final(env).calls().len() <= old(env).calls().len() + 2,
            final(env).calls().len() > old(env).calls().len() ==> final(env).calls()[old(
                env).calls().len() as int] == delete_cluster_args_view(cluster_name@),
            r is Ok ==> final(env).calls().len() == old(env).calls().len() + 2 && (exists|
                dir: Seq<char>,
            |
                final(env).calls().last() == create_cluster_args_view(
                    dir + "/"@ + "kubeconfig.yaml"@,
                    cluster_name@,
                )),
    {
        let ghost base = env.calls();
        proof {
            assert(env.calls().subrange(0, base.len() as int) =~= base);
        }
        let name = cluster_name.to_owned();
        let deleted = Cluster::delete_kind_cluster(&name, env);
        proof {
            lemma_push_keeps_prefix(base, base, delete_cluster_args_view(name@));
        }
        deleted?;
        let ghost mid = env.calls();
        let made = Cluster::create_kind_cluster(&name, env);
        proof {
            crate::history::lemma_prefix_trans(base, mid, env.calls());
        }
        made?;
        Ok(Cluster { name })
    }

    /// The name the cluster was created under.
    pub fn name(&self) -> (r: String)
        ensures
            r@ == self.name_view(),
    {
        self.name.clone()
    }

    /// Where this cluster's access configuration lies.
    pub fn kubeconfig<E: KindEnv>(&self, env: &mut E) -> (r: String)
        ensures
            final(env).calls() == old(env).calls(),
    {
        let dir = env.kubeconfig_dir();
        dir.concat("/").concat(KUBECONFIG_FILENAME)
    }

    /// Creates a cluster-internal access configuration and returns its
    /// path.
    pub fn get_internal_kubeconfig<E: KindEnv>(&self, env: &mut E) -> (r: Result<
        String,
        ClusterError,
    >)
        ensures
            final(env).calls() == old(env).calls().push(
                internal_kubeconfig_args_view(self.name_view()),
            ),
    {
        let mut args: Vec<String> = Vec::new();
        args.push("get".to_owned());
        args.push("kubeconfig".to_owned());
        args.push("--internal".to_owned());
        args.push("--name".to_owned());
        args.push(self.name.clone());
        proof {
            assert(args@.map_values(|s: String| s@) =~= internal_kubeconfig_args_view(
                self.name@,
            ));
        }
        let output = match env.run_kind(&args) {
            Ok(output) => output,
            Err(detail) => {
                return Err(ClusterError::Process { detail });
            },
        };
        if !output.success {
            return Err(command_failure(output));
        }
        match env.write_internal_kubeconfig(&output.stdout) {
            Ok(path) => Ok(path),
            Err(detail) => Err(ClusterError::Process { detail }),
        }
    }

    /// Loads an image from the machine into the cluster.
    pub fn load_image_to_cluster<E: KindEnv>(&self, image_name: &str, env: &mut E) -> (r: Result<
        (),
        ClusterError,
    >)
        ensures
            final(env).calls() == old(env).calls().push(
                load_image_args_view(image_name@, self.name_view()),
            ),
    {
        let mut args: Vec<String> = Vec::new();
        args.push("load".to_owned());
        args.push("docker-image".to_owned());
        args.push(image_name.to_owned());
        args.push("--name".to_owned());
        args.push(self.name.clone());
        proof {
            assert(args@.map_values(|s: String| s@) =~= load_image_args_view(
                image_name@,
                self.name@,
            ));
        }
        let output = match env.run_kind(&args) {
            Ok(output) => output,
            Err(detail) => {
                return Err(ClusterError::Process { detail });
            },
        };
        if !output.success {
            return Err(command_failure(output));
        }
        Ok(())
    }

    /// Whether the controller's pods exist and all run.
    pub fn is_controller_running<E: KindEnv>(&self, env: &mut E) -> (r: Result<
        bool,
        ClusterError,
    >)
        ensures
            final(env).calls() == old(env).calls(),
    {
        let key = LABEL_COMPONENT.to_owned();
        let value = "controller".to_owned();
        match env.find_by_label(&key, &value) {
            Ok(pods) => Ok(all_pods_running(&pods)),
            Err(detail) => Err(ClusterError::Process { detail }),
        }
    }

    /// Whether the named test's pod exists and runs.
    pub fn is_test_running<E: KindEnv>(&self, test_name: &str, env: &mut E) -> (r: Result<
        bool,
        ClusterError,
    >)
        ensures
            final(env).calls() == old(env).calls(),
    {
        let key = "job-name".to_owned();
        let value = test_name.to_owned();
        match env.find_by_label(&key, &value) {
            Ok(pods) => Ok(first_pod_running(&pods)),
            Err(detail) => Err(ClusterError::Process { detail }),
        }
    }

    /// Whether some pod of the named resource provider runs.
    pub fn is_provider_running<E: KindEnv>(&self, provider_name: &str, env: &mut E) -> (r: Result<
        bool,
        ClusterError,
    >)
        ensures
            final(env).calls() == old(env).calls(),
    {
        let key = LABEL_PROVIDER_NAME.to_owned();
        let value = provider_name.to_owned();
        match env.find_by_label(&key, &value) {
            Ok(pods) => Ok(any_pod_running(&pods)),
            Err(detail) => Err(ClusterError::Process { detail }),
        }
    }

    /// Waits until the injected predicate observing the controller's
    /// pods holds, within the bound: success exactly at the first ready
    /// observation, a predicate failure propagated immediately as a
    /// process error, and a timeout exactly when the bound is exhausted.
    pub fn wait_for_controller<P: Poller>(&self, poller: &mut P, max_checks: u64) -> (r: Result<
        (),
        ClusterError,
    >)
        requires
            max_checks >= 1,
        ensures
            old(poller).checks().len() < final(poller).checks().len(),
            final(poller).checks().len() <= old(poller).checks().len() + max_checks,
            final(poller).checks().subrange(0, old(poller).checks().len() as int)
                == old(poller).checks(),
            forall|i: int| old(poller).checks().len() <= i < final(poller).checks().len() - 1
                ==> final(poller).checks()[i] == crate::waiting::PollOutcome::NotReady,
            r is Ok <==> final(poller).checks().last() == crate::waiting::PollOutcome::Ready,
            (r matches Err(ClusterError::Process { .. }))
                <==> final(poller).checks().last() == crate::waiting::PollOutcome::Failed,
            (r matches Err(ClusterError::Timeout))
                ==> final(poller).checks().len() == old(poller).checks().len() + max_checks
                    && final(poller).checks().last() == crate::waiting::PollOutcome::NotReady,
            r is Err ==> (r->Err_0 matches ClusterError::Timeout) || (r->Err_0 matches
                ClusterError::Process { .. }),
    {
        match wait_for(poller, max_checks) {
            Ok(()) => Ok(()),
            Err(WaitError::Timeout) => Err(ClusterError::Timeout),
            Err(WaitError::Failed(detail)) => Err(ClusterError::Process { detail }),
        }
    }

    /// Waits until the injected predicate observing the named test's pod
    /// holds, within the bound, under the same discipline as the
    /// controller wait: first ready ends it, a predicate failure is never
    /// retried, and the timeout comes exactly at the exhausted bound.
    pub fn wait_for_test_pod<P: Poller>(&self, poller: &mut P, max_checks: u64) -> (r: Result<
        (),
        ClusterError,
    >)
        requires
            max_checks >= 1,
        ensures
            old(poller).checks().len() < final(poller).checks().len(),
            final(poller).checks().len() <= old(poller).checks().len() + max_checks,
            final(poller).checks().subrange(0, old(poller).checks().len() as int)
                == old(poller).checks(),
            forall|i: int| old(poller).checks().len() <= i < final(poller).checks().len() - 1
                ==> final(poller).checks()[i] == crate::waiting::PollOutcome::NotReady,
            r is Ok <==> final(poller).checks().last() == crate::waiting::PollOutcome::Ready,
            (r matches Err(ClusterError::Process { .. }))
                <==> final(poller).checks().last() == crate::waiting::PollOutcome::Failed,
            (r matches Err(ClusterError::Timeout))
                ==> final(poller).checks().len() == old(poller).checks().len() + max_checks
                    && final(poller).checks().last() == crate::waiting::PollOutcome::NotReady,
            r is Err ==> (r->Err_0 matches ClusterError::Timeout) || (r->Err_0 matches
                ClusterError::Process { .. }),
    {
        match wait_for(poller, max_checks) {
            Ok(()) => Ok(()),
            Err(WaitError::Timeout) => Err(ClusterError::Timeout),
            Err(WaitError::Failed(detail)) => Err(ClusterError::Process { detail }),
        }
    }

    /// Deletes the named cluster through the tool. A caller that owns a
    /// cluster calls this when it is done with it.
    pub fn delete_kind_cluster<E: KindEnv>(name: &String, env: &mut E) -> (r: Result<
        (),
        ClusterError,
    >)
        ensures
            final(env).calls() == old(env).calls().push(delete_cluster_args_view(name@)),
    {
        let mut args: Vec<String> = Vec::new();
        args.push("delete".to_owned());
        args.push("cluster".to_owned());
        args.push("--name".to_owned());
        args.push(name.clone());
        proof {
            assert(args@.map_values(|s: String| s@) =~= delete_cluster_args_view(name@));
        }
        let output = match env.run_kind(&args) {
            Ok(output) => output,
            Err(detail) => {
                return Err(ClusterError::Process { detail });
            },
        };
        if !output.success {
            return Err(command_failure(output));
        }
        Ok(())
    }

    /// Creates the named cluster through the tool, with its access
    /// configuration at the environment's directory: one create
    /// invocation pointing at that configuration.
    fn create_kind_cluster<E: KindEnv>(name: &String, env: &mut E) -> (r: Result<
        (),
        ClusterError,
    >)
        ensures
            crate::workload::extends_calls(final(env).calls(), old(env).calls()),
            final(env).calls().len() == old(env).calls().len() + 1,
            exists|dir: Seq<char>|
                final(env).calls().last() == create_cluster_args_view(
                    dir + "/"@ + "kubeconfig.yaml"@,
                    name@,
                ),
    {
        let ghost base = env.calls();
        proof {
            assert(env.calls().subrange(0, base.len() as int) =~= base);
        }
        let dir = env.kubeconfig_dir();
        let kubeconfig = dir.concat("/").concat(KUBECONFIG_FILENAME);
        let mut args: Vec<String> = Vec::new();
        args.push("--kubeconfig".to_owned());
        args.push(kubeconfig);
        args.push("create".to_owned());
        args.push("cluster".to_owned());
        args.push("--name".to_owned());
        args.push(name.clone());
        let ghost pre = env.calls();
        let invoked = env.run_kind(&args);
        proof {
            lemma_push_keeps_prefix(pre, base, args@.map_values(|s: String| s@));
        }
        let output = match invoked {
            Ok(output) => output,
            Err(detail) => {
                return Err(ClusterError::Process { detail });
            },
        };
        if !output.success {
            return Err(command_failure(output));
        }
        Ok(())
    }
}


/// A cluster tool whose command outputs and pod listings are scripted in
/// advance: outputs are consumed from the end of the script, an exhausted
/// script answers with clean successes, and every invocation's arguments
/// are kept as plain values.
pub struct ScriptedKindEnv {
    /// Outputs to hand out, consumed from the end.
    pub outputs: Vec<CommandOutput>,
    /// Phases of the pods every listing reports.
    pub pod_phases: Vec<Option<String>>,
    /// Every invocation's arguments, oldest first.
    pub seen: Vec<Vec<String>>,
    invocations: Ghost<Seq<Seq<Seq<char>>>>,
}

impl ScriptedKindEnv {
    /// A tool whose every command succeeds quietly over the given pods.
    pub fn new(pod_phases: Vec<Option<String>>) -> (r: ScriptedKindEnv)
        ensures
            r.calls() == Seq::<Seq<Seq<char>>>::empty(),
    {
        ScriptedKindEnv {
            outputs: Vec::new(),
            pod_phases,
            seen: Vec::new(),
            invocations: Ghost(Seq::empty()),
        }
    }
}

impl KindEnv for ScriptedKindEnv {
    closed spec fn calls(&self) -> Seq<Seq<Seq<char>>> {
        self.invocations@
    }

    fn run_kind(&mut self, args: &Vec<String>) -> (r: Result<CommandOutput, String>) {
        proof {
            self.invocations@ = self.invocations@.push(args@.map_values(|s: String| s@));
        }
        self.seen.push(crate::text::clone_strings(args));
        match self.outputs.pop() {
            Some(output) => Ok(output),
            None => Ok(
                CommandOutput {
                    success: true,
                    code: Some(0),
                    stdout: Vec::new(),
                    stderr: Vec::new(),
                },
            ),
        }
    }

    fn kubeconfig_dir(&mut self) -> (r: String) {
        "/tmp/selftest".to_owned()
    }

    fn write_internal_kubeconfig(&mut self, content: &Vec<u8>) -> (r: Result<String, String>) {
        Ok("/tmp/selftest/kubeconfig_internal.yaml".to_owned())
    }

    fn find_by_label(&mut self, key: &String, value: &String) -> (r: Result<
        Vec<PodView>,
        String,
    >) {
        let mut pods: Vec<PodView> = Vec::new();
        let mut i: usize = 0;
        while i < self.pod_phases.len()
            invariant
                0 <= i <= self.pod_phases@.len(),
            decreases self.pod_phases@.len() - i,
        {
            let phase = match &self.pod_phases[i] {
                Some(phase) => Some(phase.clone()),
                None => None,
            };
            pods.push(PodView { phase });
            i = i + 1;
        }
        Ok(pods)
    }
}

} // verus!
