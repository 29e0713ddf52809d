//! The provisioning contract: the checkpointed create path and the
//! idempotent destroy path of a cluster provider, over an injected
//! environment that performs the external operations. The environment
//! keeps a log of its externally visible events; the core ordering
//! invariant — the durability marker is written before any external
//! create is started — is stated over that log.

use vstd::prelude::*;
use vstd::string::*;
use crate::cluster_config::{build_cluster_doc, cluster_doc_view, doc_version_view,
    file_config_outcome, zone_views, ClusterConfig, EksctlConfig, EksctlDocView, EksctlYamlConfig,
    FileConfigOutcome, CLUSTER_CONFIG_PATH, DEFAULT_REGION, DEFAULT_VERSION,
    TEST_CLUSTER_CONFIG_PATH};
use crate::codec::base64_encode;
use crate::dns::{service_ip_cidr_to_cluster_dns_ip, IpFamily};
use crate::errors::{ProviderError, ProviderResult, Resources};
use crate::history::lemma_push_keeps_prefix;
use crate::memo::{informs, CreationPolicy, MemoView, ProductionMemo};
use crate::text::{clone_strings, contains_seq, has_prefix, str_contains, str_starts_with};

verus! {

/// The delivered provisioning input: the cluster configuration and the
/// credential references resolved outside the core.
#[derive(Debug)]
pub struct EksClusterConfig {
    /// How the cluster is described.
    pub config: EksctlConfig,
    /// What the agent may do about an existing or absent cluster.
    pub creation_policy: Option<CreationPolicy>,
    /// A role to assume, by name.
    pub assume_role: Option<String>,
    /// An alternative service endpoint.
    pub eks_service_endpoint: Option<String>,
}

/// The spec object delivered once per run.
#[derive(Debug)]
pub struct ClusterSpec {
    pub configuration: EksClusterConfig,
    /// The name of the secret holding cloud credentials, when one was
    /// delivered.
    pub aws_secret_name: Option<String>,
}

/// The typed, immutable result of successful provisioning.
#[derive(Debug)]
pub struct CreatedCluster {
    /// The name of the cluster.
    pub cluster_name: String,
    /// The region of the cluster.
    pub region: String,
    /// The server endpoint.
    pub endpoint: String,
    /// The cluster certificate.
    pub certificate: String,
    /// The cluster service address.
    pub cluster_dns_ip: String,
    /// Public subnet identifiers; empty if none exist.
    pub public_subnet_ids: Vec<String>,
    /// Private subnet identifiers; empty if none exist.
    pub private_subnet_ids: Vec<String>,
    /// Security groups instances need.
    pub security_groups: Vec<String>,
    /// The cluster security group.
    pub cluster_sg: String,
    /// The instance profile of the node role.
    pub iam_instance_profile_arn: String,
    /// The cluster access configuration, base64-encoded.
    pub encoded_kubeconfig: String,
}

/// Network reachability configuration of a described cluster.
#[derive(Debug)]
pub struct VpcConfigInfo {
    pub subnet_ids: Option<Vec<String>>,
    pub cluster_security_group_id: Option<String>,
}

/// Certificate block of a described cluster.
#[derive(Debug)]
pub struct CertificateAuthorityInfo {
    pub data: Option<String>,
}

/// Service network block of a described cluster.
#[derive(Debug)]
pub struct NetworkConfigInfo {
    pub ip_family: Option<IpFamily>,
    pub service_ipv4_cidr: Option<String>,
    pub service_ipv6_cidr: Option<String>,
}

/// What a fresh read-back of the external system says about a cluster;
/// every field the external system may leave unset is optional.
#[derive(Debug)]
pub struct ClusterDescription {
    pub resources_vpc_config: Option<VpcConfigInfo>,
    pub endpoint: Option<String>,
    pub certificate_authority: Option<CertificateAuthorityInfo>,
    pub kubernetes_network_config: Option<NetworkConfigInfo>,
}

/// One subnet as the external system describes it.
#[derive(Debug)]
pub struct SubnetInfo {
    pub subnet_id: Option<String>,
}

/// One page of the external stack listing.
#[derive(Debug)]
pub struct StackPage {
    pub stack_names: Vec<String>,
    pub next_token: Option<String>,
}

/// How an invoked external command ended.
#[derive(Clone, Copy, Debug)]
pub struct CommandStatus {
    pub success: bool,
    pub code: Option<i32>,
}

/// An externally visible event of one provisioning run.
pub enum EnvEvent {
    /// A memo was durably written.
    MemoWritten(MemoView),
    /// The assembled cluster document was written for the external tool.
    DocWritten(EksctlDocView),
    /// The external create operation was started on the document at the
    /// carried path.
    CreateStarted(Seq<char>),
    /// The external destroy operation was started for the carried
    /// cluster name and region.
    DeleteStarted(Seq<char>, Seq<char>),
}

/// The environment a provisioning run acts through: the durable memo
/// store and the external cloud operations. Every externally visible
/// step — an accepted memo write, the start of an external create or
/// destroy — is appended to the log; reads and queries append nothing.
pub trait ProvisionEnv: Sized {
    /// The externally visible events so far, in order. An implementation
    /// gives this its own meaning; the default stands for an environment
    /// whose history is not tracked.
    open spec fn log(&self) -> Seq<EnvEvent> {
        Seq::empty()
    }

    /// The memo the durable store currently holds. An implementation
    /// gives this its own meaning.
    open spec fn stored(&self) -> MemoView {
        ProductionMemo::empty_view()
    }

    /// Reads the current memo. Reading changes nothing.
    fn get_info(&mut self) -> (r: Result<ProductionMemo, String>)
        ensures
            final(self).log() == old(self).log(),
            final(self).stored() == old(self).stored(),
            r is Ok ==> r->Ok_0@ == old(self).stored(),
    ;

    /// Writes a memo. On success the memo is durably stored and the write
    /// becomes visible in the log; on failure nothing changes.
    fn send_info(&mut self, memo: ProductionMemo) -> (r: Result<(), String>)
        ensures
            r is Ok ==> final(self).stored() == memo@ && final(self).log() == old(
                self,
            ).log().push(EnvEvent::MemoWritten(memo@)),
            r is Err ==> final(self).stored() == old(self).stored() && final(self).log() == old(
                self,
            ).log(),
    ;

    /// Prepares credentials for the given secret, role, region and
    /// endpoint. Preparation changes nothing externally visible.
    fn configure(
        &mut self,
        secret: &Option<String>,
        role: &Option<String>,
        region: &Option<String>,
        endpoint: &Option<String>,
    ) -> (r: Result<(), String>)
        ensures
            final(self).log() == old(self).log(),
            final(self).stored() == old(self).stored(),
    ;

    /// Asks the external system whether the named cluster exists.
    fn cluster_exists(&mut self, cluster_name: &String) -> (r: Result<bool, String>)
        ensures
            final(self).log() == old(self).log(),
            final(self).stored() == old(self).stored(),
    ;

    /// Writes the assembled cluster document where the external tool
    /// expects it. A successful write is externally visible; a failed one
    /// delivers nothing.
    fn write_cluster_doc(&mut self, doc: &EksctlYamlConfig) -> (r: Result<(), String>)
        ensures
            r is Ok ==> final(self).log() == old(self).log().push(EnvEvent::DocWritten(doc@)),
            r is Err ==> final(self).log() == old(self).log(),
            final(self).stored() == old(self).stored(),
    ;

    /// Starts the external create operation on the document at
    /// `config_path` and waits for it to end. Invoking it is externally
    /// visible whatever comes back.
    fn run_create(&mut self, config_path: &str) -> (r: Result<CommandStatus, String>)
        ensures
            final(self).log() == old(self).log().push(EnvEvent::CreateStarted(config_path@)),
            final(self).stored() == old(self).stored(),
    ;

    /// Runs the external tool that writes cluster access configuration,
    /// with the given arguments.
    fn update_kubeconfig(&mut self, args: &Vec<String>) -> (r: Result<CommandStatus, String>)
        ensures
            final(self).log() == old(self).log(),
            final(self).stored() == old(self).stored(),
    ;

    /// Where the cluster access configuration is written.
    fn kubeconfig_path(&mut self) -> (r: String)
        ensures
            final(self).log() == old(self).log(),
            final(self).stored() == old(self).stored(),
    ;

    /// Reads the written cluster access configuration back.
    fn read_kubeconfig(&mut self) -> (r: Result<String, String>)
        ensures
            final(self).log() == old(self).log(),
            final(self).stored() == old(self).stored(),
    ;

    /// A fresh read-back of the named cluster; the outer failure is a
    /// transport failure, the inner absence a response without a cluster.
    fn describe_cluster(&mut self, cluster_name: &String) -> (r: Result<
        Option<ClusterDescription>,
        String,
    >)
        ensures
            final(self).log() == old(self).log(),
            final(self).stored() == old(self).stored(),
    ;

    /// Describes the given subnets, keeping the public or the private
    /// ones; the inner absence is a response without subnets.
    fn subnets(&mut self, subnet_ids: &Vec<String>, public: bool) -> (r: Result<
        Option<Vec<SubnetInfo>>,
        String,
    >)
        ensures
            final(self).log() == old(self).log(),
            final(self).stored() == old(self).stored(),
    ;

    /// One page of the external stack listing, resumed at `next_token`.
    fn list_stacks(&mut self, next_token: &Option<String>) -> (r: Result<StackPage, String>)
        ensures
            final(self).log() == old(self).log(),
            final(self).stored() == old(self).stored(),
    ;

    /// The physical identifier of the named logical resource of a stack;
    /// the outer absence is a response without resource detail, the inner
    /// a detail without an identifier.
    fn stack_resource_physical_id(&mut self, stack_name: &String, logical_id: &str) -> (r: Result<
        Option<Option<String>>,
        String,
    >)
        ensures
            final(self).log() == old(self).log(),
            final(self).stored() == old(self).stored(),
    ;

    /// The instance profiles attached to the named role.
    fn instance_profiles_for_role(&mut self, role_name: &String) -> (r: Result<Vec<String>, String>)
        ensures
            final(self).log() == old(self).log(),
            final(self).stored() == old(self).stored(),
    ;

    /// Starts the external destroy operation for the named cluster and
    /// waits for it to end. Invoking it is externally visible whatever
    /// comes back.
    fn run_delete(&mut self, cluster_name: &String, region: &String) -> (r: Result<
        CommandStatus,
        String,
    >)
        ensures
            final(self).log() == old(self).log().push(
                EnvEvent::DeleteStarted(cluster_name@, region@),
            ),
            final(self).stored() == old(self).stored(),
    ;
}

/// Whether creation is required under `policy` when the cluster's
/// existence is as `exists` says: the decision, or nothing when the
/// policy and the observed state contradict each other.
pub open spec fn creation_required(policy: CreationPolicy, exists: bool) -> Option<bool> {
    match policy {
        CreationPolicy::Create => if exists {
            None
        } else {
            Some(true)
        },
        CreationPolicy::IfNotExists => Some(!exists),
        CreationPolicy::Never => if exists {
            Some(false)
        } else {
            None
        },
    }
}

/// Decides whether creation is required, with the status message that
/// explains the decision; a contradictory policy/existence combination is
/// an immediate failure classified `Clear`, since nothing new was
/// attempted.
pub fn is_cluster_creation_required(exists: bool, policy: CreationPolicy) -> (r: ProviderResult<
    (bool, String),
>)
    ensures
        match creation_required(policy, exists) {
            Some(required) => r is Ok && r->Ok_0.0 == required,
            None => r is Err && r->Err_0.resources == Resources::Clear,
        },
{
    match policy {
        CreationPolicy::Create => {
            if exists {
                Err(ProviderError::new(
                    Resources::Clear,
                    "Creation policy requires creating a cluster that already exists",
                ))
            } else {
                Ok((true, "Creation policy requires cluster creation".to_owned()))
            }
        },
        CreationPolicy::IfNotExists => {
            if exists {
                Ok((false, "Cluster already exists; creation not required".to_owned()))
            } else {
                Ok((true, "Cluster does not exist; creation required".to_owned()))
            }
        },
        CreationPolicy::Never => {
            if exists {
                Ok((false, "Using existing cluster; creation forbidden by policy".to_owned()))
            } else {
                Err(ProviderError::new(
                    Resources::Clear,
                    "Creation policy forbids creating a cluster that does not exist",
                ))
            }
        },
    }
}

/// Whether a failed existence query's diagnostic text names the
/// not-found condition: the external system reports an absent cluster
/// this way, and the caller turns it into a clean "does not exist"
/// answer instead of a failure.
pub fn not_found(diagnostic: &str) -> (r: bool)
    ensures
        r == contains_seq(diagnostic@, "ResourceNotFoundException"@),
{
    str_contains(diagnostic, "ResourceNotFoundException")
}

/// The subnet identifiers of a described cluster.
pub fn eks_subnet_ids(cluster: &ClusterDescription) -> (r: ProviderResult<Vec<String>>)
    ensures
        match cluster.resources_vpc_config {
            Some(vpc) => match vpc.subnet_ids {
                Some(ids) => r is Ok && r->Ok_0@.len() == ids@.len() && (forall|i: int|
                    0 <= i < ids@.len() ==> #[trigger] r->Ok_0@[i]@ == ids@[i]@),
                None => r is Err && r->Err_0.resources == Resources::Remaining,
            },
            None => r is Err && r->Err_0.resources == Resources::Remaining,
        },
{
    let vpc = match &cluster.resources_vpc_config {
        Some(vpc) => vpc,
        None => {
            return Err(ProviderError::new(
                Resources::Remaining,
                "Cluster missing resources_vpc_config field",
            ));
        },
    };
    match &vpc.subnet_ids {
        Some(ids) => Ok(clone_strings(ids)),
        None => Err(ProviderError::new(
            Resources::Remaining,
            "resources_vpc_config missing subnet ids",
        )),
    }
}

/// The security group of a described cluster.
pub fn cluster_sg(cluster: &ClusterDescription) -> (r: ProviderResult<String>)
    ensures
        match cluster.resources_vpc_config {
            Some(vpc) => match vpc.cluster_security_group_id {
                Some(sg) => r is Ok && r->Ok_0@ == sg@,
                None => r is Err && r->Err_0.resources == Resources::Remaining,
            },
            None => r is Err && r->Err_0.resources == Resources::Remaining,
        },
{
    let vpc = match &cluster.resources_vpc_config {
        Some(vpc) => vpc,
        None => {
            return Err(ProviderError::new(
                Resources::Remaining,
                "Cluster missing resources_vpc_config field",
            ));
        },
    };
    match &vpc.cluster_security_group_id {
        Some(sg) => Ok(sg.clone()),
        None => Err(ProviderError::new(
            Resources::Remaining,
            "resources_vpc_config missing cluster security group id",
        )),
    }
}

/// The server endpoint of a described cluster.
pub fn endpoint(cluster: &ClusterDescription) -> (r: ProviderResult<String>)
    ensures
        match cluster.endpoint {
            Some(endpoint) => r is Ok && r->Ok_0@ == endpoint@,
            None => r is Err && r->Err_0.resources == Resources::Remaining,
        },
{
    match &cluster.endpoint {
        Some(endpoint) => Ok(endpoint.clone()),
        None => Err(ProviderError::new(Resources::Remaining, "Cluster missing endpoint field")),
    }
}

/// The certificate of a described cluster.
pub fn certificate(cluster: &ClusterDescription) -> (r: ProviderResult<String>)
    ensures
        match cluster.certificate_authority {
            Some(authority) => match authority.data {
                Some(data) => r is Ok && r->Ok_0@ == data@,
                None => r is Err && r->Err_0.resources == Resources::Remaining,
            },
            None => r is Err && r->Err_0.resources == Resources::Remaining,
        },
{
    let authority = match &cluster.certificate_authority {
        Some(authority) => authority,
        None => {
            return Err(ProviderError::new(
                Resources::Remaining,
                "Cluster missing certificate_authority field",
            ));
        },
    };
    match &authority.data {
        Some(data) => Ok(data.clone()),
        None => Err(ProviderError::new(
            Resources::Remaining,
            "Certificate authority missing data",
        )),
    }
}

/// The service address of a described cluster, derived from its declared
/// service network.
pub fn cluster_dns_ip(cluster: &ClusterDescription) -> (r: ProviderResult<String>)
    ensures
        r is Err ==> r->Err_0.resources == Resources::Remaining,
        match cluster.kubernetes_network_config {
            None => r is Err,
            Some(network) => match network.ip_family {
                None => r is Err,
                Some(IpFamily::Ipv6) => match network.service_ipv6_cidr {
                    Some(cidr) => r is Ok && r->Ok_0@ == crate::dns::ipv6_service_address(cidr@),
                    None => r is Err,
                },
                _ => match network.service_ipv4_cidr {
                    Some(cidr) => if crate::dns::count_char(cidr@, '.') == 3 {
                        r is Ok && r->Ok_0@ == crate::dns::ipv4_service_address(cidr@)
                    } else {
                        r is Err
                    },
                    None => r is Err,
                },
            },
        },
{
    let network = match &cluster.kubernetes_network_config {
        Some(network) => network,
        None => {
            return Err(ProviderError::new(
                Resources::Remaining,
                "DescribeCluster missing KubernetesNetworkConfig field",
            ));
        },
    };
    let service_ipv4_cidr = match &network.service_ipv4_cidr {
        Some(cidr) => Some(cidr.clone()),
        None => None,
    };
    let service_ipv6_cidr = match &network.service_ipv6_cidr {
        Some(cidr) => Some(cidr.clone()),
        None => None,
    };
    service_ip_cidr_to_cluster_dns_ip(network.ip_family, service_ipv4_cidr, service_ipv6_cidr)
}

/// The identifiers present among described subnets, in order.
pub open spec fn present_subnet_ids(subnets: Seq<SubnetInfo>) -> Seq<Seq<char>>
    decreases subnets.len(),
{
    if subnets.len() == 0 {
        Seq::empty()
    } else {
        present_subnet_ids(subnets.drop_last()) + (match subnets.last().subnet_id {
            Some(id) => seq![id@],
            None => Seq::<Seq<char>>::empty(),
        })
    }
}

/// Keeps the identifiers the external system reported, dropping subnets
/// it described without one.
pub fn subnet_id_list(subnets: &Vec<SubnetInfo>) -> (r: Vec<String>)
    ensures
        r@.map_values(|s: String| s@) == present_subnet_ids(subnets@),
{
    let mut out: Vec<String> = Vec::new();
    let mut i: usize = 0;
    while i < subnets.len()
        invariant
            0 <= i <= subnets@.len(),
            out@.map_values(|s: String| s@) == present_subnet_ids(subnets@.subrange(0, i as int)),
        decreases subnets@.len() - i,
    {
        let ghost prefix = subnets@.subrange(0, i as int);
        match &subnets[i].subnet_id {
            Some(id) => {
                out.push(id.clone());
            },
            None => {},
        }
        proof {
            let longer = subnets@.subrange(0, i + 1 as int);
            assert(longer.drop_last() =~= prefix);
            assert(longer.last() == subnets@[i as int]);
            match subnets@[i as int].subnet_id {
                Some(id) => {
                    assert(out@.map_values(|s: String| s@) =~= present_subnet_ids(prefix).push(
                        id@,
                    ));
                    assert(present_subnet_ids(longer) =~= present_subnet_ids(prefix).push(id@));
                },
                None => {
                    assert(present_subnet_ids(longer) =~= present_subnet_ids(prefix));
                },
            }
        }
        i = i + 1;
    }
    proof {
        assert(subnets@.subrange(0, subnets@.len() as int) =~= subnets@);
    }
    out
}

/// Picks the single instance profile of a node role: more than one, or
/// none, is a failure naming the role that leaves the cluster for a
/// destroy pass.
pub fn instance_profile_arn(profiles: Vec<String>, role_name: &str) -> (r: ProviderResult<String>)
    ensures
        profiles@.len() == 1 ==> r is Ok && r->Ok_0@ == profiles@[0]@,
        profiles@.len() > 1 ==> r is Err && r->Err_0.resources == Resources::Remaining
            && r->Err_0.message@ == "More than one instance profile was found for role '"@
            + role_name@ + "'"@,
        profiles@.len() == 0 ==> r is Err && r->Err_0.resources == Resources::Remaining
            && r->Err_0.message@ == "No instance profile was found for role '"@ + role_name@
            + "'"@,
{
    if profiles.len() > 1 {
        return Err(
            ProviderError {
                resources: Resources::Remaining,
                message: String::from_str("More than one instance profile was found for role '")
                    .concat(role_name).concat("'"),
            },
        );
    }
    let mut profiles = profiles;
    match profiles.pop() {
        Some(profile) => Ok(profile),
        None => Err(
            ProviderError {
                resources: Resources::Remaining,
                message: String::from_str("No instance profile was found for role '").concat(
                    role_name,
                ).concat("'"),
            },
        ),
    }
}

/// The first name in the list that carries either prefix, if any.
pub fn find_matching_stack(names: &Vec<String>, first: &str, second: &str) -> (r: Option<String>)
    ensures
        match r {
            Some(name) => exists|i: int|
                0 <= i < names@.len() && name@ == #[trigger] names@[i]@ && (has_prefix(
                    names@[i]@,
                    first@,
                ) || has_prefix(names@[i]@, second@)) && forall|j: int|
                    0 <= j < i ==> !has_prefix(#[trigger] names@[j]@, first@) && !has_prefix(
                        names@[j]@,
                        second@,
                    ),
            None => forall|i: int|
                0 <= i < names@.len() ==> !has_prefix(#[trigger] names@[i]@, first@)
                    && !has_prefix(names@[i]@, second@),
        },
{
    let mut i: usize = 0;
    while i < names.len()
        invariant
            0 <= i <= names@.len(),
            forall|j: int|
                0 <= j < i ==> !has_prefix(#[trigger] names@[j]@, first@) && !has_prefix(
                    names@[j]@,
                    second@,
                ),
        decreases names@.len() - i,
    {
        let name = &names[i];
        if str_starts_with(name.as_str(), first) || str_starts_with(name.as_str(), second) {
            let found = name.clone();
            proof {
                let w = i as int;
                assert(0 <= w < names@.len() && found@ == names@[w]@ && (has_prefix(
                    names@[w]@,
                    first@,
                ) || has_prefix(names@[w]@, second@)) && forall|j: int|
                    0 <= j < w ==> !has_prefix(#[trigger] names@[j]@, first@) && !has_prefix(
                        names@[j]@,
                        second@,
                    ));
            }
            return Some(found);
        }
        i = i + 1;
    }
    None
}

/// How many pages of the external stack listing are walked before the
/// search is abandoned as not found.
pub const MAX_STACK_PAGES: u64 = 1024;

/// The arguments of the external tool that writes the cluster access
/// configuration: region, cluster name, target path, and the alternative
/// service endpoint when one is declared.
pub fn kubeconfig_args(
    cluster_name: &String,
    endpoint: &Option<String>,
    region: &String,
    path: &String,
) -> (r: Vec<String>)
    ensures
        r@.len() == match *endpoint {
            Some(_) => 10int,
            None => 8int,
        },
        r@[0]@ == "eks"@,
        r@[1]@ == "update-kubeconfig"@,
        r@[2]@ == "--region"@,
        r@[3]@ == region@,
        r@[4]@ == "--name"@,
        r@[5]@ == cluster_name@,
        r@[6]@ == "--kubeconfig"@,
        r@[7]@ == path@,
        endpoint matches Some(given) ==> r@[8]@ == "--endpoint"@ && r@[9]@ == given@,
{
    let mut args: Vec<String> = Vec::new();
    args.push("eks".to_owned());
    args.push("update-kubeconfig".to_owned());
    args.push("--region".to_owned());
    args.push(region.clone());
    args.push("--name".to_owned());
    args.push(cluster_name.clone());
    args.push("--kubeconfig".to_owned());
    args.push(path.clone());
    if let Some(endpoint) = endpoint {
        args.push("--endpoint".to_owned());
        args.push(endpoint.clone());
    }
    args
}

/// Writes the cluster access configuration through the external tool and
/// reads it back. Every failure here leaves the cluster to a destroy
/// pass, so it is classified `Remaining`.
pub fn write_and_read_kubeconfig<E: ProvisionEnv>(
    env: &mut E,
    cluster_name: &String,
    endpoint: &Option<String>,
    region: &String,
) -> (r: ProviderResult<String>)
    ensures
        final(env).log() == old(env).log(),
        final(env).stored() == old(env).stored(),
        r is Err ==> r->Err_0.resources == Resources::Remaining,
{
    let path = env.kubeconfig_path();
    let args = kubeconfig_args(cluster_name, endpoint, region, &path);
    let status = match env.update_kubeconfig(&args) {
        Ok(status) => status,
        Err(_) => {
            return Err(ProviderError::new(Resources::Remaining, "Failed update kubeconfig"));
        },
    };
    if !status.success {
        return Err(ProviderError::new(
            Resources::Remaining,
            "Failed update kubeconfig with nonzero status code",
        ));
    }
    match env.read_kubeconfig() {
        Ok(kubeconfig) => Ok(kubeconfig),
        Err(_) => Err(ProviderError::new(Resources::Remaining, "Unable to read kubeconfig.")),
    }
}

/// Finds the node role of the cluster's node group: walks the external
/// stack listing page by page for a stack named after the cluster —
/// either the provisioning tool's naming or the plain naming — and asks
/// for the physical identifier of its node role resource. The walk is
/// bounded at `MAX_STACK_PAGES` pages so that the search always
/// terminates; past the bound the stack counts as not found. Failures
/// leave the cluster to a destroy pass, so they are classified
/// `Remaining`.
pub fn nodegroup_iam_role<E: ProvisionEnv>(env: &mut E, cluster_name: &String) -> (r:
    ProviderResult<String>)
    ensures
        final(env).log() == old(env).log(),
        final(env).stored() == old(env).stored(),
        r is Err ==> r->Err_0.resources == Resources::Remaining,
{
    let tool_prefix = String::from_str("eksctl-").concat(cluster_name.as_str()).concat(
        "-nodegroup",
    );
    let plain_prefix = cluster_name.clone().concat("-node-group");

    let mut token: Option<String> = None;
    let mut pages: u64 = 0;
    let stack_name: String;
    loop
        invariant
            pages < MAX_STACK_PAGES,
            env.log() == old(env).log(),
            env.stored() == old(env).stored(),
        decreases MAX_STACK_PAGES - pages,
    {
        let page = match env.list_stacks(&token) {
            Ok(page) => page,
            Err(_) => {
                return Err(ProviderError::new(
                    Resources::Remaining,
                    "Unable to list CloudFormation stacks",
                ));
            },
        };
        match find_matching_stack(
            &page.stack_names,
            tool_prefix.as_str(),
            plain_prefix.as_str(),
        ) {
            Some(name) => {
                stack_name = name;
                break;
            },
            None => {
                match page.next_token {
                    Some(next) => {
                        token = Some(next);
                    },
                    None => {
                        return Err(ProviderError::new(
                            Resources::Remaining,
                            "Could not find nodegroup cloudformation stack for cluster",
                        ));
                    },
                }
            },
        }
        pages = pages + 1;
        if pages == MAX_STACK_PAGES {
            return Err(ProviderError::new(
                Resources::Remaining,
                "Could not find nodegroup cloudformation stack for cluster",
            ));
        }
    }

    let detail = match env.stack_resource_physical_id(&stack_name, "NodeInstanceRole") {
        Ok(detail) => detail,
        Err(_) => {
            return Err(ProviderError::new(
                Resources::Remaining,
                "Unable to describe CloudFormation stack resources",
            ));
        },
    };
    match detail {
        Some(Some(role)) => Ok(role),
        Some(None) => Err(ProviderError::new(
            Resources::Remaining,
            "Missing stack outputs for nodegroup stack",
        )),
        None => Err(ProviderError::new(
            Resources::Remaining,
            "Missing 'NodeInstanceRole' stack resource for nodegroup stack",
        )),
    }
}

/// Gathers the full resource description from a fresh read-back of the
/// external system — never from local memory, since the local process may
/// not be the one that performed every step of the creation.
pub fn created_cluster<E: ProvisionEnv>(
    env: &mut E,
    encoded_kubeconfig: String,
    cluster_name: &String,
    region: &String,
) -> (r: ProviderResult<CreatedCluster>)
    ensures
        final(env).log() == old(env).log(),
        final(env).stored() == old(env).stored(),
        r is Err ==> r->Err_0.resources == Resources::Remaining,
        r is Ok ==> r->Ok_0.cluster_name@ == cluster_name@ && r->Ok_0.region@ == region@
            && r->Ok_0.encoded_kubeconfig@ == encoded_kubeconfig@
            && r->Ok_0.security_groups@.len() == 1 && r->Ok_0.security_groups@[0]@
            == r->Ok_0.cluster_sg@,
{
    let described = match env.describe_cluster(cluster_name) {
        Ok(described) => described,
        Err(_) => {
            return Err(ProviderError::new(
                Resources::Remaining,
                "Unable to get eks describe cluster",
            ));
        },
    };
    let cluster = match described {
        Some(cluster) => cluster,
        None => {
            return Err(ProviderError::new(Resources::Remaining, "Response missing cluster field"));
        },
    };
    let subnet_ids = eks_subnet_ids(&cluster)?;
    let endpoint = endpoint(&cluster)?;
    let certificate = certificate(&cluster)?;
    let cluster_dns_ip = cluster_dns_ip(&cluster)?;
    let cluster_sg = cluster_sg(&cluster)?;

    let public_described = match env.subnets(&subnet_ids, true) {
        Ok(described) => described,
        Err(_) => {
            return Err(ProviderError::new(
                Resources::Remaining,
                "Unable to get private subnet ids",
            ));
        },
    };
    let public_subnet_ids = match public_described {
        Some(described) => subnet_id_list(&described),
        None => {
            return Err(ProviderError::new(Resources::Remaining, "Results missing subnets field"));
        },
    };

    let private_described = match env.subnets(&subnet_ids, false) {
        Ok(described) => described,
        Err(_) => {
            return Err(ProviderError::new(
                Resources::Remaining,
                "Unable to get private subnet ids",
            ));
        },
    };
    let private_subnet_ids = match private_described {
        Some(described) => subnet_id_list(&described),
        None => {
            return Err(ProviderError::new(Resources::Remaining, "Results missing subnets field"));
        },
    };

    let mut security_groups: Vec<String> = Vec::new();
    security_groups.push(cluster_sg.clone());

    let node_instance_role = nodegroup_iam_role(env, cluster_name)?;
    let profiles = match env.instance_profiles_for_role(&node_instance_role) {
        Ok(profiles) => profiles,
        Err(_) => {
            return Err(ProviderError::new(
                Resources::Remaining,
                "Unable to list instance profiles for role",
            ));
        },
    };
    let iam_instance_profile_arn = instance_profile_arn(profiles, node_instance_role.as_str())?;

    Ok(CreatedCluster {
        cluster_name: cluster_name.clone(),
        region: region.clone(),
        endpoint,
        certificate,
        cluster_dns_ip,
        public_subnet_ids,
        private_subnet_ids,
        cluster_sg,
        iam_instance_profile_arn,
        security_groups,
        encoded_kubeconfig,
    })
}

/// `log` extends `base`: everything recorded before this run is still in
/// place.
pub open spec fn extends_log(log: Seq<EnvEvent>, base: Seq<EnvEvent>) -> bool {
    base.len() <= log.len() && log.subrange(0, base.len() as int) == base
}

/// At position `j` the log records a durable write of a memo carrying the
/// provisioning marker.
pub open spec fn marker_written_at(log: Seq<EnvEvent>, j: int) -> bool {
    0 <= j < log.len() && (log[j] matches EnvEvent::MemoWritten(memo) && memo.provisioning_started)
}

/// The core ordering invariant: every external create this run started
/// comes after a durable write, in this same run, of a memo carrying the
/// provisioning marker.
pub open spec fn creates_follow_marker(log: Seq<EnvEvent>, base: Seq<EnvEvent>) -> bool {
    forall|i: int|
        base.len() <= i < log.len() && (#[trigger] log[i] is CreateStarted) ==> exists|j: int|
            base.len() <= j < i && marker_written_at(log, j)
}

/// This run started no external destroy.
pub open spec fn no_delete_started(log: Seq<EnvEvent>, base: Seq<EnvEvent>) -> bool {
    forall|i: int| base.len() <= i < log.len() ==> !(#[trigger] log[i] is DeleteStarted)
}

/// This run started no external create.
pub open spec fn no_create_started(log: Seq<EnvEvent>, base: Seq<EnvEvent>) -> bool {
    forall|i: int| base.len() <= i < log.len() ==> !(#[trigger] log[i] is CreateStarted)
}

/// This run wrote no memo that sets the provisioning marker beyond what
/// the store already carried when the run began.
pub open spec fn no_new_marker(log: Seq<EnvEvent>, base: Seq<EnvEvent>, stored0: MemoView) -> bool {
    forall|i: int|
        base.len() <= i < log.len() ==> ((#[trigger] log[i]) matches EnvEvent::MemoWritten(memo)
            ==> (memo.provisioning_started ==> stored0.provisioning_started))
}

/// At position `j` the log records a durable write of a memo without the
/// provisioning marker.
pub open spec fn unflagged_write_at(log: Seq<EnvEvent>, j: int) -> bool {
    0 <= j < log.len() && (log[j] matches EnvEvent::MemoWritten(memo)
        && !memo.provisioning_started)
}

/// The durability marker is monotone across this run's writes: no memo
/// written after one that carried the marker drops it.
pub open spec fn marker_monotone(log: Seq<EnvEvent>, base: Seq<EnvEvent>) -> bool {
    forall|i: int, j: int|
        base.len() <= i < j < log.len() ==> !(#[trigger] marker_written_at(log, i)
            && #[trigger] unflagged_write_at(log, j))
}

/// The memo durably written at position `j`, if that position is a write.
pub open spec fn write_at(log: Seq<EnvEvent>, j: int) -> Option<MemoView> {
    if 0 <= j < log.len() {
        match log[j] {
            EnvEvent::MemoWritten(memo) => Some(memo),
            _ => None,
        }
    } else {
        None
    }
}

/// The memo is monotonic in information across this run's writes: no
/// field set by an earlier write is unset by a later one, and the
/// durability marker never reverts.
pub open spec fn writes_monotone(log: Seq<EnvEvent>, base: Seq<EnvEvent>) -> bool {
    forall|i: int, j: int|
        base.len() <= i < j < log.len() ==> match (
            #[trigger] write_at(log, i),
            #[trigger] write_at(log, j),
        ) {
            (Some(earlier), Some(later)) => informs(earlier, later),
            _ => true,
        }
}

/// This run started at most one external destroy.
pub open spec fn at_most_one_delete(log: Seq<EnvEvent>, base: Seq<EnvEvent>) -> bool {
    forall|i: int, j: int|
        base.len() <= i < j < log.len() ==> !((#[trigger] log[i] is DeleteStarted) && (
        #[trigger] log[j] is DeleteStarted))
}

/// One more event keeps every log invariant that its kind cannot break.
proof fn lemma_log_step(
    pre: Seq<EnvEvent>,
    base: Seq<EnvEvent>,
    stored0: MemoView,
    event: EnvEvent,
)
    requires
        extends_log(pre, base),
    ensures
        extends_log(pre.push(event), base),
        forall|i: int| 0 <= i < pre.len() ==> pre.push(event)[i] == pre[i],
        pre.push(event)[pre.len() as int] == event,
        no_delete_started(pre, base) && !(event is DeleteStarted) ==> no_delete_started(
            pre.push(event),
            base,
        ),
        no_create_started(pre, base) && !(event is CreateStarted) ==> no_create_started(
            pre.push(event),
            base,
        ),
        no_new_marker(pre, base, stored0) && (match event {
            EnvEvent::MemoWritten(memo) => memo.provisioning_started
                ==> stored0.provisioning_started,
            _ => true,
        }) ==> no_new_marker(pre.push(event), base, stored0),
        creates_follow_marker(pre, base) && !(event is CreateStarted) ==> creates_follow_marker(
            pre.push(event),
            base,
        ),
        creates_follow_marker(pre, base) && (exists|j: int|
            base.len() <= j < pre.len() && marker_written_at(pre, j)) ==> creates_follow_marker(
            pre.push(event),
            base,
        ),
        (exists|j: int| base.len() <= j < pre.len() && marker_written_at(pre, j)) ==> (exists|
            j: int,
        |
            base.len() <= j < pre.push(event).len() && marker_written_at(pre.push(event), j)),
        marker_monotone(pre, base) && !(event matches EnvEvent::MemoWritten(_))
            ==> marker_monotone(pre.push(event), base),
{
    let post = pre.push(event);
    lemma_push_keeps_prefix(pre, base, event);
    assert forall|i: int| 0 <= i < pre.len() implies post[i] == pre[i] by {}
    assert(post[pre.len() as int] == event);
    if exists|j: int| base.len() <= j < pre.len() && marker_written_at(pre, j) {
        let j = choose|j: int| base.len() <= j < pre.len() && marker_written_at(pre, j);
        assert(post[j] == pre[j]);
        assert(marker_written_at(post, j));
    }
    if creates_follow_marker(pre, base) {
        if !(event is CreateStarted) || (exists|j: int|
            base.len() <= j < pre.len() && marker_written_at(pre, j)) {
            assert forall|i: int|
                base.len() <= i < post.len() && (post[i] is CreateStarted) implies exists|j: int|
                base.len() <= j < i && marker_written_at(post, j) by {
                if i < pre.len() {
                    assert(pre[i] is CreateStarted);
                    let j = choose|j: int| base.len() <= j < i && marker_written_at(pre, j);
                    assert(post[j] == pre[j]);
                    assert(marker_written_at(post, j));
                } else {
                    let j = choose|j: int| base.len() <= j < pre.len() && marker_written_at(
                        pre,
                        j,
                    );
                    assert(post[j] == pre[j]);
                    assert(marker_written_at(post, j));
                }
            }
        }
    }
    if marker_monotone(pre, base) && !(event matches EnvEvent::MemoWritten(_)) {
        assert forall|i: int, j: int|
            base.len() <= i < j < post.len() implies !(marker_written_at(post, i)
                && unflagged_write_at(post, j)) by {
            if j < pre.len() {
                assert(post[i] == pre[i]);
                assert(post[j] == pre[j]);
                assert(!(marker_written_at(pre, i) && unflagged_write_at(pre, j)));
            } else {
                assert(post[j] == event);
            }
        }
    }

}

/// One more durable write keeps the marker monotone, provided the memo
/// carries the marker whenever an earlier write of this run did.
proof fn lemma_written_marker_step(pre: Seq<EnvEvent>, base: Seq<EnvEvent>, memo: MemoView)
    requires
        extends_log(pre, base),
        marker_monotone(pre, base),
        (exists|j: int| base.len() <= j < pre.len() && marker_written_at(pre, j))
            ==> memo.provisioning_started,
    ensures
        marker_monotone(pre.push(EnvEvent::MemoWritten(memo)), base),
        (exists|j: int|
            base.len() <= j < pre.push(EnvEvent::MemoWritten(memo)).len() && marker_written_at(
                pre.push(EnvEvent::MemoWritten(memo)),
                j,
            )) ==> memo.provisioning_started,
{
    let post = pre.push(EnvEvent::MemoWritten(memo));
    lemma_push_keeps_prefix(pre, base, EnvEvent::MemoWritten(memo));
    assert forall|i: int| 0 <= i < pre.len() implies post[i] == pre[i] by {}
    assert forall|i: int, j: int|
        base.len() <= i < j < post.len() implies !(marker_written_at(post, i)
            && unflagged_write_at(post, j)) by {
        if j < pre.len() {
            assert(post[i] == pre[i]);
            assert(post[j] == pre[j]);
            assert(!(marker_written_at(pre, i) && unflagged_write_at(pre, j)));
        } else {
            assert(post[j] == EnvEvent::MemoWritten(memo));
            if marker_written_at(post, i) {
                assert(post[i] == pre[i]);
                assert(marker_written_at(pre, i));
                assert(memo.provisioning_started);
            }
        }
    }
    if exists|j: int| base.len() <= j < post.len() && marker_written_at(post, j) {
        let j = choose|j: int| base.len() <= j < post.len() && marker_written_at(post, j);
        if j < pre.len() {
            assert(post[j] == pre[j]);
            assert(marker_written_at(pre, j));
        } else {
            assert(post[j] == EnvEvent::MemoWritten(memo));
        }
    }
}

/// One more durable write keeps the run's writes monotonic, provided the
/// memo is informed by every memo this run wrote before it; afterwards
/// every written memo informs this one.
proof fn lemma_informed_write_step(pre: Seq<EnvEvent>, base: Seq<EnvEvent>, memo: MemoView)
    requires
        extends_log(pre, base),
        writes_monotone(pre, base),
        forall|j: int|
            base.len() <= j < pre.len() ==> match #[trigger] write_at(pre, j) {
                Some(m) => informs(m, memo),
                None => true,
            },
    ensures
        writes_monotone(pre.push(EnvEvent::MemoWritten(memo)), base),
        forall|j: int|
            base.len() <= j < pre.push(EnvEvent::MemoWritten(memo)).len() ==> match #[trigger] write_at(
                pre.push(EnvEvent::MemoWritten(memo)),
                j,
            ) {
                Some(m) => informs(m, memo),
                None => true,
            },
{
    let post = pre.push(EnvEvent::MemoWritten(memo));
    lemma_push_keeps_prefix(pre, base, EnvEvent::MemoWritten(memo));
    assert forall|i: int| 0 <= i < pre.len() implies post[i] == pre[i] by {}
    assert forall|j: int|
        base.len() <= j < post.len() implies match #[trigger] write_at(post, j) {
        Some(m) => informs(m, memo),
        None => true,
    } by {
        if j < pre.len() {
            assert(post[j] == pre[j]);
            assert(write_at(post, j) == write_at(pre, j));
        } else {
            assert(post[j] == EnvEvent::MemoWritten(memo));
        }
    }
    assert forall|i: int, j: int|
        base.len() <= i < j < post.len() implies match (
        #[trigger] write_at(post, i),
        #[trigger] write_at(post, j),
    ) {
        (Some(earlier), Some(later)) => informs(earlier, later),
        _ => true,
    } by {
        assert(post[i] == pre[i]);
        assert(write_at(post, i) == write_at(pre, i));
        if j < pre.len() {
            assert(post[j] == pre[j]);
            assert(write_at(post, j) == write_at(pre, j));
        } else {
            assert(post[j] == EnvEvent::MemoWritten(memo));
        }
    }
}

/// Everything this run wrote stays informed under a step of the memo
/// that only adds information.
proof fn lemma_dominance_lift(
    log: Seq<EnvEvent>,
    base: Seq<EnvEvent>,
    earlier: MemoView,
    later: MemoView,
)
    requires
        informs(earlier, later),
        forall|j: int|
            base.len() <= j < log.len() ==> match #[trigger] write_at(log, j) {
                Some(m) => informs(m, earlier),
                None => true,
            },
    ensures
        forall|j: int|
            base.len() <= j < log.len() ==> match #[trigger] write_at(log, j) {
                Some(m) => informs(m, later),
                None => true,
            },
{
}

/// An extension that neither writes a memo nor starts a destroy keeps
/// every invariant of the create path.
proof fn lemma_quiet_extension(
    pre: Seq<EnvEvent>,
    post: Seq<EnvEvent>,
    base: Seq<EnvEvent>,
    memo: MemoView,
)
    requires
        extends_log(pre, base),
        extends_log(post, pre),
        forall|i: int|
            pre.len() <= i < post.len() ==> !((#[trigger] post[i]) is DeleteStarted) && !(post[i]
                is MemoWritten),
        creates_follow_marker(pre, base),
        no_delete_started(pre, base),
        marker_monotone(pre, base),
        writes_monotone(pre, base),
        exists|j: int| base.len() <= j < pre.len() && marker_written_at(pre, j),
        forall|j: int|
            base.len() <= j < pre.len() ==> match #[trigger] write_at(pre, j) {
                Some(m) => informs(m, memo),
                None => true,
            },
    ensures
        extends_log(post, base),
        creates_follow_marker(post, base),
        no_delete_started(post, base),
        marker_monotone(post, base),
        writes_monotone(post, base),
        exists|j: int| base.len() <= j < post.len() && marker_written_at(post, j),
        forall|j: int|
            base.len() <= j < post.len() ==> match #[trigger] write_at(post, j) {
                Some(m) => informs(m, memo),
                None => true,
            },
{
    crate::history::lemma_prefix_points(pre, post);
    crate::history::lemma_prefix_trans(base, pre, post);
    let jm = choose|j: int| base.len() <= j < pre.len() && marker_written_at(pre, j);
    assert(post[jm] == pre[jm]);
    assert(marker_written_at(post, jm));
    assert forall|i: int|
        base.len() <= i < post.len() && (post[i] is CreateStarted) implies exists|j: int|
        base.len() <= j < i && marker_written_at(post, j) by {
        if i < pre.len() {
            assert(post[i] == pre[i]);
            assert(pre[i] is CreateStarted);
            let j = choose|j: int| base.len() <= j < i && marker_written_at(pre, j);
            assert(post[j] == pre[j]);
            assert(marker_written_at(post, j));
        } else {
            assert(marker_written_at(post, jm));
        }
    }
    assert forall|i: int| base.len() <= i < post.len() implies !(post[i] is DeleteStarted) by {
        if i < pre.len() {
            assert(post[i] == pre[i]);
        }
    }
    assert forall|i: int, j: int|
        base.len() <= i < j < post.len() implies !(marker_written_at(post, i)
            && unflagged_write_at(post, j)) by {
        if j < pre.len() {
            assert(post[i] == pre[i]);
            assert(post[j] == pre[j]);
            assert(!(marker_written_at(pre, i) && unflagged_write_at(pre, j)));
        } else {
            assert(!(post[j] is MemoWritten));
        }
    }
    assert forall|j: int|
        base.len() <= j < post.len() implies match #[trigger] write_at(post, j) {
        Some(m) => informs(m, memo),
        None => true,
    } by {
        if j < pre.len() {
            assert(post[j] == pre[j]);
            assert(write_at(post, j) == write_at(pre, j));
        } else {
            assert(!(post[j] is MemoWritten));
        }
    }
    assert forall|i: int, j: int|
        base.len() <= i < j < post.len() implies match (
        #[trigger] write_at(post, i),
        #[trigger] write_at(post, j),
    ) {
        (Some(earlier), Some(later)) => informs(earlier, later),
        _ => true,
    } by {
        if j < pre.len() {
            assert(post[i] == pre[i]);
            assert(post[j] == pre[j]);
            assert(write_at(post, i) == write_at(pre, i));
            assert(write_at(post, j) == write_at(pre, j));
        } else {
            assert(!(post[j] is MemoWritten));
        }
    }
}

/// Writes a memo and checkpoints it: on failure nothing was delivered and
/// the failure takes the classification owed at this step of the run.
fn checkpoint<E: ProvisionEnv>(
    env: &mut E,
    memo: &ProductionMemo,
    classification: Resources,
) -> (r: ProviderResult<()>)
    ensures
        r is Ok ==> final(env).stored() == memo@ && final(env).log() == old(env).log().push(
            EnvEvent::MemoWritten(memo@),
        ),
        r is Err ==> final(env).log() == old(env).log() && final(env).stored() == old(
            env,
        ).stored() && r->Err_0.resources == classification,
{
    match env.send_info(memo.clone()) {
        Ok(()) => Ok(()),
        Err(_) => Err(ProviderError::new(
            classification,
            "Error sending cluster creation message",
        )),
    }
}

impl ClusterConfig {
    /// Starts the external creation: for argument-style configuration the
    /// cluster document is assembled and written first; a delivered full
    /// document is used where it lies. The log gains exactly the start of
    /// the create operation, or nothing when the document could not be
    /// written. Failures here come after the provisioning marker, so they
    /// are classified `Remaining`.
    pub fn create_cluster<E: ProvisionEnv>(&self, env: &mut E) -> (r: ProviderResult<()>)
        ensures
            final(env).stored() == old(env).stored(),
            extends_log(final(env).log(), old(env).log()),
            final(env).log().len() <= old(env).log().len() + 2,
            forall|i: int|
                old(env).log().len() <= i < final(env).log().len() ==> !((#[trigger] final(
                    env).log()[i]) is DeleteStarted) && !(final(env).log()[i] is MemoWritten),
            r is Err ==> r->Err_0.resources == Resources::Remaining,
            match *self {
                ClusterConfig::Args { cluster_name, region, version, zones } => r is Ok
                    ==> final(env).log() == old(env).log().push(
                    EnvEvent::DocWritten(
                        cluster_doc_view(
                            cluster_name@,
                            region@,
                            doc_version_view(version),
                            zone_views(zones),
                        ),
                    ),
                ).push(EnvEvent::CreateStarted("/local/cluster_config.yaml"@)),
                ClusterConfig::ConfigPath { .. } => r is Ok
                    ==> final(env).log() == old(env).log().push(
                    EnvEvent::CreateStarted("/local/eksctl_config.yaml"@),
                ),
            },
    {
        let ghost base = env.log();
        proof {
            assert(env.log().subrange(0, base.len() as int) =~= base);
        }
        let config_path: &str = match self {
            ClusterConfig::Args { cluster_name, region, version, zones } => {
                let version_arg: &str = match version {
                    Some(version) => version.as_str(),
                    None => DEFAULT_VERSION,
                };
                let doc = build_cluster_doc(
                    cluster_name.as_str(),
                    region.as_str(),
                    version_arg,
                    zones,
                );
                let written = env.write_cluster_doc(&doc);
                proof {
                    if written is Ok {
                        lemma_push_keeps_prefix(base, base, EnvEvent::DocWritten(doc@));
                    }
                }
                if let Err(_) = written {
                    return Err(ProviderError::new(
                        Resources::Remaining,
                        "Unable to write eksctl configuration",
                    ));
                }
                CLUSTER_CONFIG_PATH
            },
            ClusterConfig::ConfigPath { .. } => TEST_CLUSTER_CONFIG_PATH,
        };
        let ghost pre_run = env.log();
        let invoked = env.run_create(config_path);
        proof {
            lemma_push_keeps_prefix(pre_run, base, EnvEvent::CreateStarted(config_path@));
        }
        let status = match invoked {
            Ok(status) => status,
            Err(_) => {
                return Err(ProviderError::new(Resources::Remaining, "Failed create cluster"));
            },
        };
        if !status.success {
            return Err(ProviderError::new(
                Resources::Remaining,
                "Failed create cluster with nonzero status code",
            ));
        }
        Ok(())
    }
}


/// The create half of the provisioning contract.
pub struct EksCreator {}

/// The failure text of an existence query, naming the cluster asked for.
fn exists_error_message(cluster_name: &String) -> (r: String)
    ensures
        r@ == "Unable to determine if cluster '"@ + cluster_name@ + "' exists"@,
{
    String::from_str("Unable to determine if cluster '").concat(cluster_name.as_str()).concat(
        "' exists",
    )
}

impl EksCreator {
    /// Runs the checkpointed create path: records the delivered intent —
    /// secret name, role and policy — in the memo before anything else,
    /// resolves the configuration, decides whether creation is required,
    /// durably sets the provisioning marker before any external create is
    /// started, creates when required, and gathers the resource
    /// description from a fresh read-back. Every external create this run
    /// starts follows a durable marker write; a failure classified
    /// `Clear` started no create and set no marker the store did not
    /// already carry; the memos this run writes only ever gain
    /// information.
    #[verifier::rlimit(100)]
    pub fn create<E: ProvisionEnv>(&self, cluster_spec: ClusterSpec, env: &mut E) -> (r:
        ProviderResult<CreatedCluster>)
        ensures
            extends_log(final(env).log(), old(env).log()),
            creates_follow_marker(final(env).log(), old(env).log()),
            no_delete_started(final(env).log(), old(env).log()),
            (r matches Err(error) && error.resources == Resources::Clear) ==> no_create_started(
                final(env).log(),
                old(env).log(),
            ) && no_new_marker(final(env).log(), old(env).log(), old(env).stored()),
            marker_monotone(final(env).log(), old(env).log()),
            writes_monotone(final(env).log(), old(env).log()),
            match cluster_spec.configuration.config {
                EksctlConfig::File { encoded_config } => match file_config_outcome(
                    encoded_config@,
                ) {
                    FileConfigOutcome::Named(_, _) => true,
                    _ => r is Err && r->Err_0.resources == Resources::Clear,
                },
                EksctlConfig::Args { .. } => true,
            },
            r is Ok ==> final(env).stored().current_status == "Cluster ready"@
                && final(env).stored().cluster_name == Some(r->Ok_0.cluster_name@)
                && final(env).stored().region == Some(r->Ok_0.region@),
            r is Ok ==> final(env).stored().aws_secret_name == crate::memo::text_view(
                cluster_spec.aws_secret_name,
            ) && final(env).stored().assume_role == crate::memo::text_view(
                cluster_spec.configuration.assume_role,
            ) && final(env).stored().creation_policy == Some(
                match cluster_spec.configuration.creation_policy {
                    Some(policy) => policy,
                    None => CreationPolicy::Create,
                },
            ),
            r is Ok ==> match cluster_spec.configuration.config {
                EksctlConfig::Args { cluster_name, region, .. } => r->Ok_0.cluster_name@
                    == cluster_name@ && r->Ok_0.region@ == match region {
                    Some(region) => region@,
                    None => DEFAULT_REGION@,
                },
                EksctlConfig::File { encoded_config } => match file_config_outcome(
                    encoded_config@,
                ) {
                    FileConfigOutcome::Named(name, region) => r->Ok_0.cluster_name@ == name
                        && r->Ok_0.region@ == region,
                    _ => false,
                },
            },
    {
        let ghost base = env.log();
        let ghost stored0 = env.stored();
        proof {
            assert(env.log().subrange(0, base.len() as int) =~= base);
            assert(marker_monotone(env.log(), base));
            assert(writes_monotone(env.log(), base));
        }

        let mut memo = match env.get_info() {
            Ok(memo) => memo,
            Err(_) => {
                return Err(ProviderError::new(
                    Resources::Clear,
                    "Unable to get info from client",
                ));
            },
        };

        memo.current_status = "Initializing agent".to_owned();
        memo.creation_policy = Some(
            match cluster_spec.configuration.creation_policy {
                Some(policy) => policy,
                None => CreationPolicy::Create,
            },
        );
        memo.aws_secret_name = match &cluster_spec.aws_secret_name {
            Some(secret) => Some(secret.clone()),
            None => None,
        };
        memo.assume_role = match &cluster_spec.configuration.assume_role {
            Some(role) => Some(role.clone()),
            None => None,
        };
        let ghost pre1 = env.log();
        checkpoint(env, &memo, Resources::Clear)?;
        let ghost w1 = memo@;
        proof {
            lemma_log_step(pre1, base, stored0, EnvEvent::MemoWritten(memo@));
            lemma_written_marker_step(pre1, base, memo@);
            lemma_informed_write_step(pre1, base, memo@);
        }

        let cluster_config = ClusterConfig::new(cluster_spec.configuration.config)?;
        let cluster_name = cluster_config.cluster_name();
        let region = cluster_config.region();

        memo.current_status = "Getting AWS secret".to_owned();
        let ghost pre2 = env.log();
        proof {
            lemma_dominance_lift(env.log(), base, w1, memo@);
        }
        checkpoint(env, &memo, Resources::Clear)?;
        let ghost w2 = memo@;
        proof {
            lemma_log_step(pre2, base, stored0, EnvEvent::MemoWritten(memo@));
            lemma_written_marker_step(pre2, base, memo@);
            lemma_informed_write_step(pre2, base, memo@);
        }

        memo.current_status = "Creating AWS config".to_owned();
        let ghost pre3 = env.log();
        proof {
            lemma_dominance_lift(env.log(), base, w2, memo@);
        }
        checkpoint(env, &memo, Resources::Clear)?;
        let ghost w3 = memo@;
        proof {
            lemma_log_step(pre3, base, stored0, EnvEvent::MemoWritten(memo@));
            lemma_written_marker_step(pre3, base, memo@);
            lemma_informed_write_step(pre3, base, memo@);
        }

        let region_choice = Some(region.clone());
        if let Err(_) = env.configure(
            &memo.aws_secret_name,
            &memo.assume_role,
            &region_choice,
            &None,
        ) {
            return Err(ProviderError::new(Resources::Clear, "Error creating config"));
        }
        if let Err(_) = env.configure(
            &memo.aws_secret_name,
            &memo.assume_role,
            &region_choice,
            &cluster_spec.configuration.eks_service_endpoint,
        ) {
            return Err(ProviderError::new(Resources::Clear, "Error creating EKS client config"));
        }

        memo.current_status = "Determining cluster state".to_owned();
        let ghost pre4 = env.log();
        proof {
            lemma_dominance_lift(env.log(), base, w3, memo@);
        }
        checkpoint(env, &memo, Resources::Clear)?;
        let ghost w4 = memo@;
        proof {
            lemma_log_step(pre4, base, stored0, EnvEvent::MemoWritten(memo@));
            lemma_written_marker_step(pre4, base, memo@);
            lemma_informed_write_step(pre4, base, memo@);
        }

        let exists_query = exists_error_message(&cluster_name);
        let exists = match env.cluster_exists(&cluster_name) {
            Ok(exists) => exists,
            Err(_) => {
                return Err(ProviderError { resources: Resources::Clear, message: exists_query });
            },
        };
        let policy = match &memo.creation_policy {
            Some(policy) => *policy,
            None => CreationPolicy::Create,
        };
        let (do_create, message) = is_cluster_creation_required(exists, policy)?;
        memo.current_status = message;
        let ghost pre5 = env.log();
        proof {
            lemma_dominance_lift(env.log(), base, w4, memo@);
        }
        checkpoint(env, &memo, Resources::Clear)?;
        let ghost w5 = memo@;
        proof {
            lemma_log_step(pre5, base, stored0, EnvEvent::MemoWritten(memo@));
            lemma_written_marker_step(pre5, base, memo@);
            lemma_informed_write_step(pre5, base, memo@);
        }
        let ghost mut w_last = w5;

        if do_create {
            memo.current_status = "Creating cluster".to_owned();
            memo.provisioning_started = true;
            let ghost pre6 = env.log();
            proof {
                lemma_dominance_lift(env.log(), base, w5, memo@);
            }
            checkpoint(env, &memo, Resources::Clear)?;
            let ghost w6 = memo@;
            proof {
                lemma_log_step(pre6, base, stored0, EnvEvent::MemoWritten(memo@));
                lemma_written_marker_step(pre6, base, memo@);
                lemma_informed_write_step(pre6, base, memo@);
                assert(marker_written_at(env.log(), pre6.len() as int));
            }

            let ghost pre7 = env.log();
            let create_outcome = cluster_config.create_cluster(env);
            proof {
                lemma_quiet_extension(pre7, env.log(), base, memo@);
            }
            if let Err(error) = create_outcome {
                return Err(error);
            }

            memo.current_status = "Cluster creation complete".to_owned();
            let ghost pre8 = env.log();
            proof {
                lemma_dominance_lift(env.log(), base, w6, memo@);
            }
            checkpoint(env, &memo, Resources::Remaining)?;
            let ghost w8 = memo@;
            proof {
                lemma_log_step(pre8, base, stored0, EnvEvent::MemoWritten(memo@));
                lemma_written_marker_step(pre8, base, memo@);
                lemma_informed_write_step(pre8, base, memo@);
                w_last = w8;
            }
        }

        memo.current_status = "Writing cluster kubeconfig".to_owned();
        let ghost pre9 = env.log();
        proof {
            lemma_dominance_lift(env.log(), base, w_last, memo@);
        }
        checkpoint(env, &memo, Resources::Remaining)?;
        let ghost w9 = memo@;
        proof {
            lemma_log_step(pre9, base, stored0, EnvEvent::MemoWritten(memo@));
            lemma_written_marker_step(pre9, base, memo@);
            lemma_informed_write_step(pre9, base, memo@);
        }

        let kubeconfig = write_and_read_kubeconfig(
            env,
            &cluster_name,
            &cluster_spec.configuration.eks_service_endpoint,
            &region,
        )?;
        let encoded_kubeconfig = base64_encode(kubeconfig.as_str().as_bytes());

        memo.current_status = "Collecting cluster info".to_owned();
        let ghost pre10 = env.log();
        proof {
            lemma_dominance_lift(env.log(), base, w9, memo@);
        }
        checkpoint(env, &memo, Resources::Remaining)?;
        let ghost w10 = memo@;
        proof {
            lemma_log_step(pre10, base, stored0, EnvEvent::MemoWritten(memo@));
            lemma_written_marker_step(pre10, base, memo@);
            lemma_informed_write_step(pre10, base, memo@);
        }

        let created = created_cluster(env, encoded_kubeconfig, &cluster_name, &region)?;

        memo.current_status = "Cluster ready".to_owned();
        memo.cluster_name = Some(cluster_name.clone());
        memo.region = Some(region.clone());
        let ghost pre11 = env.log();
        proof {
            lemma_dominance_lift(env.log(), base, w10, memo@);
        }
        checkpoint(env, &memo, Resources::Remaining)?;
        proof {
            lemma_log_step(pre11, base, stored0, EnvEvent::MemoWritten(memo@));
            lemma_written_marker_step(pre11, base, memo@);
            lemma_informed_write_step(pre11, base, memo@);
        }

        Ok(created)
    }
}


/// The destroy half of the provisioning contract.
pub struct EksDestroyer {}

impl EksDestroyer {
    /// Runs the destroy path. The memo is the only guaranteed-durable
    /// source, so everything is re-derived from it, never from the
    /// possibly absent spec or prior resource. When the store carries no
    /// provisioning marker this is an idempotent no-op success: no
    /// external operation is invoked. A failure of the destroy operation
    /// itself is classified `Orphaned`; no destroy failure is ever
    /// classified `Clear`.
    pub fn destroy<E: ProvisionEnv>(
        &self,
        _cluster_spec: Option<ClusterSpec>,
        _prior: Option<CreatedCluster>,
        env: &mut E,
    ) -> (r: ProviderResult<()>)
        ensures
            extends_log(final(env).log(), old(env).log()),
            no_create_started(final(env).log(), old(env).log()),
            at_most_one_delete(final(env).log(), old(env).log()),
            !old(env).stored().provisioning_started ==> final(env).log() == old(env).log() && (
            r is Ok || (r->Err_0.resources == Resources::Remaining && r->Err_0.message@
                == "Unable to get info from client"@)),
            old(env).stored().provisioning_started && old(env).stored().cluster_name is None
                ==> final(env).log() == old(env).log() && r is Err && ((r->Err_0.resources
                == Resources::Unknown && r->Err_0.message@ == "Unable to obtain cluster name"@)
                || (r->Err_0.resources == Resources::Remaining && r->Err_0.message@
                == "Unable to get info from client"@)),
            r is Err ==> r->Err_0.resources != Resources::Clear,
            ((exists|i: int|
                old(env).log().len() <= i < final(env).log().len() && final(env).log()[i] is
                    DeleteStarted) && r is Err) ==> r->Err_0.resources == Resources::Orphaned,
            (r matches Err(error) && error.resources == Resources::Orphaned) ==> exists|i: int|
                old(env).log().len() <= i < final(env).log().len() && final(env).log()[i] is
                    DeleteStarted,
            old(env).stored().provisioning_started && r is Ok ==> exists|i: int|
                old(env).log().len() <= i < final(env).log().len() && final(env).log()[i] is
                    DeleteStarted,
            old(env).stored().provisioning_started ==> match old(env).stored().cluster_name {
                Some(name) => forall|i: int|
                    old(env).log().len() <= i < final(env).log().len() && (#[trigger] final(
                        env).log()[i] is DeleteStarted) ==> final(env).log()[i]
                        == EnvEvent::DeleteStarted(
                        name,
                        match old(env).stored().region {
                            Some(region) => region,
                            None => "us-west-2"@,
                        },
                    ),
                None => true,
            },
            marker_monotone(final(env).log(), old(env).log()),
    {
        let ghost base = env.log();
        let ghost stored0 = env.stored();
        proof {
            assert(env.log().subrange(0, base.len() as int) =~= base);
            assert(marker_monotone(env.log(), base));
        }

        let mut memo = match env.get_info() {
            Ok(memo) => memo,
            Err(_) => {
                return Err(ProviderError::new(
                    Resources::Remaining,
                    "Unable to get info from client",
                ));
            },
        };

        if !memo.provisioning_started {
            return Ok(());
        }

        let cluster_name = match &memo.cluster_name {
            Some(cluster_name) => cluster_name.clone(),
            None => {
                return Err(ProviderError::new(
                    Resources::Unknown,
                    "Unable to obtain cluster name",
                ));
            },
        };

        if let Err(_) = env.configure(
            &memo.aws_secret_name,
            &memo.assume_role,
            &memo.region,
            &None,
        ) {
            return Err(ProviderError::new(Resources::Remaining, "Error creating config"));
        }

        let region = match &memo.region {
            Some(region) => region.clone(),
            None => DEFAULT_REGION.to_owned(),
        };

        let ghost pre1 = env.log();
        let status = match env.run_delete(&cluster_name, &region) {
            Ok(status) => status,
            Err(_) => {
                proof {
                    lemma_log_step(
                        pre1,
                        base,
                        stored0,
                        EnvEvent::DeleteStarted(cluster_name@, region@),
                    );
                }
                return Err(ProviderError::new(
                    Resources::Orphaned,
                    "Failed to run eksctl delete command",
                ));
            },
        };
        proof {
            lemma_log_step(pre1, base, stored0, EnvEvent::DeleteStarted(cluster_name@, region@));
        }
        if !status.success {
            return Err(ProviderError::new(
                Resources::Orphaned,
                "Failed to delete cluster with nonzero status code",
            ));
        }

        memo.current_status = "Cluster deleted".to_owned();
        let ghost pre2 = env.log();
        let best_effort = env.send_info(memo.clone());
        proof {
            if best_effort is Ok {
                lemma_log_step(pre2, base, stored0, EnvEvent::MemoWritten(memo@));
            lemma_written_marker_step(pre2, base, memo@);
            }
        }

        Ok(())
    }
}


/// An environment whose external answers are scripted in advance, with an
/// in-memory memo store and counters a caller can read back. For
/// exercising the provisioning contract without a cloud.
pub struct ScriptedProvisionEnv {
    memo: Option<ProductionMemo>,
    /// How many memo writes are accepted before sends start failing.
    accept_limit: u64,
    /// Whether the existence query answers, and what it says.
    pub exists_answer: Option<bool>,
    /// Whether the scripted external create ends successfully.
    pub create_succeeds: bool,
    /// Whether the scripted external destroy ends successfully.
    pub delete_succeeds: bool,
    /// Whether the scripted external destroy can be started at all.
    pub delete_launches: bool,
    /// The one description a read-back hands out, consumed by the first
    /// read.
    pub description: Option<ClusterDescription>,
    /// Subnet identifiers reported for the public query.
    pub public_ids: Vec<String>,
    /// Subnet identifiers reported for the private query.
    pub private_ids: Vec<String>,
    /// The single page of the stack listing.
    pub stack_names: Vec<String>,
    /// The physical identifier reported for the node role resource.
    pub role_id: Option<String>,
    /// The instance profiles reported for the node role.
    pub instance_profiles: Vec<String>,
    /// The access configuration text read back after writing it.
    pub kubeconfig_text: String,
    /// How many memo writes were accepted.
    pub writes_accepted: u64,
    /// How many external creates were started.
    pub creates_run: u64,
    /// How many external destroys were started.
    pub deletes_run: u64,
    events: Ghost<Seq<EnvEvent>>,
}

impl ScriptedProvisionEnv {
    /// A fresh environment whose answers all succeed: no cluster exists
    /// yet, creation succeeds, and the read-back describes a small
    /// cluster. Callers adjust the public script fields for other runs.
    pub fn new() -> (r: ScriptedProvisionEnv)
        ensures
            r.log() == Seq::<EnvEvent>::empty(),
            !r.stored().provisioning_started,
    {
        ScriptedProvisionEnv {
            memo: None,
            accept_limit: u64::MAX,
            exists_answer: Some(false),
            create_succeeds: true,
            delete_succeeds: true,
            delete_launches: true,
            description: None,
            public_ids: Vec::new(),
            private_ids: Vec::new(),
            stack_names: Vec::new(),
            role_id: None,
            instance_profiles: Vec::new(),
            kubeconfig_text: String::new(),
            writes_accepted: 0,
            creates_run: 0,
            deletes_run: 0,
            events: Ghost(Seq::empty()),
        }
    }

    /// Stops accepting memo writes after `limit` more have landed.
    pub fn accept_only(&mut self, limit: u64)
        ensures
            final(self).log() == old(self).log(),
            final(self).stored() == old(self).stored(),
    {
        self.accept_limit = match limit.checked_add(self.writes_accepted) {
            Some(total) => total,
            None => u64::MAX,
        };
    }

    /// Seeds the store with a memo, as a run resumed after a crash would
    /// find it.
    pub fn seed_memo(&mut self, memo: ProductionMemo)
        ensures
            final(self).stored() == memo@,
            final(self).log() == old(self).log(),
    {
        self.memo = Some(memo);
    }
}

impl ProvisionEnv for ScriptedProvisionEnv {
    closed spec fn log(&self) -> Seq<EnvEvent> {
        self.events@
    }

    closed spec fn stored(&self) -> MemoView {
        match self.memo {
            Some(memo) => memo@,
            None => ProductionMemo::empty_view(),
        }
    }

    fn get_info(&mut self) -> (r: Result<ProductionMemo, String>) {
        match &self.memo {
            Some(memo) => Ok(memo.clone()),
            None => Ok(ProductionMemo::empty()),
        }
    }

    fn send_info(&mut self, memo: ProductionMemo) -> (r: Result<(), String>) {
        if self.writes_accepted < self.accept_limit {
            self.writes_accepted = self.writes_accepted + 1;
            proof {
                self.events@ = self.events@.push(EnvEvent::MemoWritten(memo@));
            }
            self.memo = Some(memo);
            Ok(())
        } else {
            Err("memo write refused".to_owned())
        }
    }

    fn configure(
        &mut self,
        secret: &Option<String>,
        role: &Option<String>,
        region: &Option<String>,
        endpoint: &Option<String>,
    ) -> (r: Result<(), String>) {
        Ok(())
    }

    fn cluster_exists(&mut self, cluster_name: &String) -> (r: Result<bool, String>) {
        match self.exists_answer {
            Some(exists) => Ok(exists),
            None => Err("existence query refused".to_owned()),
        }
    }

    fn write_cluster_doc(&mut self, doc: &EksctlYamlConfig) -> (r: Result<(), String>) {
        proof {
            self.events@ = self.events@.push(EnvEvent::DocWritten(doc@));
        }
        Ok(())
    }

    fn run_create(&mut self, config_path: &str) -> (r: Result<CommandStatus, String>) {
        if self.creates_run < u64::MAX {
            self.creates_run = self.creates_run + 1;
        }
        proof {
            self.events@ = self.events@.push(EnvEvent::CreateStarted(config_path@));
        }
        Ok(CommandStatus { success: self.create_succeeds, code: Some(0) })
    }

    fn update_kubeconfig(&mut self, args: &Vec<String>) -> (r: Result<CommandStatus, String>) {
        Ok(CommandStatus { success: true, code: Some(0) })
    }

    fn kubeconfig_path(&mut self) -> (r: String) {
        "kubeconfig.yaml".to_owned()
    }

    fn read_kubeconfig(&mut self) -> (r: Result<String, String>) {
        Ok(self.kubeconfig_text.clone())
    }

    fn describe_cluster(&mut self, cluster_name: &String) -> (r: Result<
        Option<ClusterDescription>,
        String,
    >) {
        let mut answer: Option<ClusterDescription> = None;
        core::mem::swap(&mut answer, &mut self.description);
        Ok(answer)
    }

    fn subnets(&mut self, subnet_ids: &Vec<String>, public: bool) -> (r: Result<
        Option<Vec<SubnetInfo>>,
        String,
    >) {
        let ids = if public {
            clone_strings(&self.public_ids)
        } else {
            clone_strings(&self.private_ids)
        };
        let mut described: Vec<SubnetInfo> = Vec::new();
        let mut ids = ids;
        loop
            decreases ids@.len(),
        {
            match ids.pop() {
                Some(id) => {
                    described.push(SubnetInfo { subnet_id: Some(id) });
                },
                None => {
                    break;
                },
            }
        }
        Ok(Some(described))
    }

    fn list_stacks(&mut self, next_token: &Option<String>) -> (r: Result<StackPage, String>) {
        Ok(StackPage { stack_names: clone_strings(&self.stack_names), next_token: None })
    }

    fn stack_resource_physical_id(&mut self, stack_name: &String, logical_id: &str) -> (r: Result<
        Option<Option<String>>,
        String,
    >) {
        match &self.role_id {
            Some(role) => Ok(Some(Some(role.clone()))),
            None => Ok(None),
        }
    }

    fn instance_profiles_for_role(&mut self, role_name: &String) -> (r: Result<
        Vec<String>,
        String,
    >) {
        Ok(clone_strings(&self.instance_profiles))
    }

    fn run_delete(&mut self, cluster_name: &String, region: &String) -> (r: Result<
        CommandStatus,
        String,
    >) {
        if self.deletes_run < u64::MAX {
            self.deletes_run = self.deletes_run + 1;
        }
        proof {
            self.events@ = self.events@.push(
                EnvEvent::DeleteStarted(cluster_name@, region@),
            );
        }
        if !self.delete_launches {
            return Err("destroy tool could not be run".to_owned());
        }
        Ok(CommandStatus { success: self.delete_succeeds, code: Some(0) })
    }
}

} // verus!
