//! Resolution of the cluster configuration: either a full base64-encoded
//! configuration document whose metadata names the cluster, or individual
//! arguments with defaults filled in; and the assembly of the declarative
//! cluster document handed to the external provisioning tool.

use vstd::prelude::*;
use vstd::string::*;
use crate::codec::{base64_decode, config_document_fields, base64_decoding_of, utf8_to_string,
    yaml_metadata_fields};
use crate::errors::{ProviderError, ProviderResult, Resources};
use crate::text::{clone_strings, has_suffix, str_ends_with};

verus! {

/// The region assumed when none is declared.
pub const DEFAULT_REGION: &'static str = "us-west-2";

/// The cluster version assumed when none is declared.
pub const DEFAULT_VERSION: &'static str = "1.32";

/// Where the assembled cluster document is written for the external tool.
pub const CLUSTER_CONFIG_PATH: &'static str = "/local/cluster_config.yaml";

/// Where a delivered full configuration document is expected to lie.
pub const TEST_CLUSTER_CONFIG_PATH: &'static str = "/local/eksctl_config.yaml";

/// How the cluster configuration is delivered in the spec.
#[derive(Debug)]
pub enum EksctlConfig {
    /// A full configuration document, base64-encoded.
    File { encoded_config: String },
    /// Individual arguments; absent ones take defaults.
    Args {
        cluster_name: String,
        region: Option<String>,
        zones: Option<Vec<String>>,
        version: Option<String>,
    },
}

/// The resolved configuration a provisioning run works from.
#[derive(Debug)]
pub enum ClusterConfig {
    /// Individual arguments, with the region default filled in.
    Args { cluster_name: String, region: String, version: Option<String>, zones: Option<
        Vec<String>,
    > },
    /// A full document already on disk; only its identity matters here.
    ConfigPath { cluster_name: String, region: String },
}

/// What resolving a delivered full document comes to, stage by stage.
pub enum FileConfigOutcome {
    /// The text was not well-formed base64.
    BadEncoding,
    /// The decoded bytes were not text.
    BadText,
    /// The text was not a well-formed document.
    BadDocument,
    /// The document has no `metadata` mapping.
    NoMetadata,
    /// The metadata names no cluster.
    NoName,
    /// The metadata names no region.
    NoRegion,
    /// The cluster name and region the document declares.
    Named(Seq<char>, Seq<char>),
}

/// Resolution of a delivered full document from its encoded bytes.
pub open spec fn file_config_outcome(encoded: Seq<char>) -> FileConfigOutcome {
    match base64_decoding_of(encoded) {
        None => FileConfigOutcome::BadEncoding,
        Some(bytes) => if !vstd::utf8::valid_utf8(bytes) {
            FileConfigOutcome::BadText
        } else {
            let parsed = config_document_fields(vstd::utf8::decode_utf8(bytes));
            if !parsed.0 {
                FileConfigOutcome::BadDocument
            } else {
                match parsed.1 {
                    None => FileConfigOutcome::NoMetadata,
                    Some((name, region)) => match name {
                        None => FileConfigOutcome::NoName,
                        Some(name) => match region {
                            None => FileConfigOutcome::NoRegion,
                            Some(region) => FileConfigOutcome::Named(name, region),
                        },
                    },
                }
            }
        },
    }
}

impl ClusterConfig {
    /// Resolves the delivered configuration. A full document must decode,
    /// parse and name both cluster and region; each failure is classified
    /// `Clear`, since nothing has been attempted yet. Arguments always
    /// resolve, with the region defaulted when absent.
    pub fn new(eksctl_config: EksctlConfig) -> (r: ProviderResult<ClusterConfig>)
        ensures
            match eksctl_config {
                EksctlConfig::File { encoded_config } => match file_config_outcome(
                    encoded_config@,
                ) {
                    FileConfigOutcome::Named(name, region) => r is Ok && (r->Ok_0 matches
                        ClusterConfig::ConfigPath { cluster_name: rn, region: rr }
                        && rn@ == name && rr@ == region),
                    _ => r is Err && r->Err_0.resources == Resources::Clear,
                },
                EksctlConfig::Args { cluster_name, region, zones, version } => r is Ok && (r->Ok_0
                    matches ClusterConfig::Args { cluster_name: rn, region: rr, version: rv, zones: rz }
                    && rn@ == cluster_name@ && rr@ == match region {
                    Some(region) => region@,
                    None => DEFAULT_REGION@,
                }),
            },
    {
        match eksctl_config {
            EksctlConfig::File { encoded_config } => {
                let decoded = match base64_decode(encoded_config.as_str()) {
                    Some(decoded) => decoded,
                    None => {
                        return Err(ProviderError::new(
                            Resources::Clear,
                            "Unable to decode eksctl configuration.",
                        ));
                    },
                };
                let text = match utf8_to_string(decoded) {
                    Some(text) => text,
                    None => {
                        return Err(ProviderError::new(
                            Resources::Clear,
                            "Unable to convert decoded config to string.",
                        ));
                    },
                };
                let (parsed, fields) = yaml_metadata_fields(text.as_str());
                if !parsed {
                    return Err(ProviderError::new(
                        Resources::Clear,
                        "Unable to serialize eksctl config.",
                    ));
                }
                let (name, region) = match fields {
                    Some(fields) => fields,
                    None => {
                        return Err(ProviderError::new(
                            Resources::Clear,
                            "Metadata is missing from eksctl config.",
                        ));
                    },
                };
                let cluster_name = match name {
                    Some(cluster_name) => cluster_name,
                    None => {
                        return Err(ProviderError::new(
                            Resources::Clear,
                            "The cluster's name was not in the eksctl config.",
                        ));
                    },
                };
                let region = match region {
                    Some(region) => region,
                    None => {
                        return Err(ProviderError::new(
                            Resources::Clear,
                            "The cluster's region was not in the eksctl config.",
                        ));
                    },
                };
                Ok(ClusterConfig::ConfigPath { cluster_name, region })
            },
            EksctlConfig::Args { cluster_name, region, zones, version } => {
                let region = match region {
                    Some(region) => region,
                    None => DEFAULT_REGION.to_owned(),
                };
                Ok(ClusterConfig::Args { cluster_name, region, version, zones })
            },
        }
    }

    /// The region this configuration places the cluster in.
    pub fn region(&self) -> (r: String)
        ensures
            r@ == match *self {
                ClusterConfig::Args { region, .. } => region@,
                ClusterConfig::ConfigPath { region, .. } => region@,
            },
    {
        match self {
            ClusterConfig::Args { region, .. } => region.clone(),
            ClusterConfig::ConfigPath { region, .. } => region.clone(),
        }
    }

    /// The name of the cluster this configuration is about.
    pub fn cluster_name(&self) -> (r: String)
        ensures
            r@ == match *self {
                ClusterConfig::Args { cluster_name, .. } => cluster_name@,
                ClusterConfig::ConfigPath { cluster_name, .. } => cluster_name@,
            },
    {
        match self {
            ClusterConfig::Args { cluster_name, .. } => cluster_name.clone(),
            ClusterConfig::ConfigPath { cluster_name, .. } => cluster_name.clone(),
        }
    }
}

/// Address family declared in an assembled cluster document.
#[derive(Clone, Copy, Debug, PartialEq, Eq, Structural)]
pub enum IPFamily {
    IPv6,
    IPv4,
}

/// Metadata of an assembled cluster document.
#[derive(Debug)]
pub struct EksctlMetadata {
    pub name: String,
    pub region: String,
    pub version: String,
}

/// Network block of an assembled cluster document.
#[derive(Debug)]
pub struct KubernetesNetworkConfig {
    pub ip_family: IPFamily,
}

/// One add-on enabled on the cluster.
#[derive(Debug)]
pub struct Addon {
    pub name: String,
    pub version: String,
}

/// Identity block of an assembled cluster document.
#[derive(Debug)]
pub struct IamConfig {
    pub with_oidc: bool,
}

/// One managed group of nodes and its size bounds.
#[derive(Debug)]
pub struct ManagedNodeGroup {
    pub name: String,
    pub min_size: i32,
    pub max_size: i32,
    pub desired_capacity: i32,
}

/// The declarative cluster document handed to the external tool.
#[derive(Debug)]
pub struct EksctlYamlConfig {
    pub api_version: String,
    pub kind: String,
    pub eksctl_metadata: EksctlMetadata,
    pub availability_zones: Vec<String>,
    pub kubernetes_network_config: KubernetesNetworkConfig,
    pub addons: Vec<Addon>,
    pub iam: IamConfig,
    pub managed_node_groups: Vec<ManagedNodeGroup>,
}

/// Least node count of the single managed group.
pub const MNG_MIN_SIZE: i32 = 0;

/// Greatest node count of the single managed group.
pub const MNG_MAX_SIZE: i32 = 2;

/// Desired node count of the single managed group.
pub const MNG_DESIRED_CAPACITY: i32 = 0;

/// The value of one add-on entry of an assembled cluster document.
pub struct AddonView {
    pub name: Seq<char>,
    pub version: Seq<char>,
}

/// The value of one managed node group of an assembled cluster document.
pub struct ManagedNodeGroupView {
    pub name: Seq<char>,
    pub min_size: i32,
    pub max_size: i32,
    pub desired_capacity: i32,
}

/// The mathematical value of an assembled cluster document.
pub struct EksctlDocView {
    pub api_version: Seq<char>,
    pub kind: Seq<char>,
    pub name: Seq<char>,
    pub region: Seq<char>,
    pub version: Seq<char>,
    pub availability_zones: Seq<Seq<char>>,
    pub ip_family: IPFamily,
    pub addons: Seq<AddonView>,
    pub with_oidc: bool,
    pub node_groups: Seq<ManagedNodeGroupView>,
}

impl View for EksctlYamlConfig {
    type V = EksctlDocView;

    open spec fn view(&self) -> EksctlDocView {
        EksctlDocView {
            api_version: self.api_version@,
            kind: self.kind@,
            name: self.eksctl_metadata.name@,
            region: self.eksctl_metadata.region@,
            version: self.eksctl_metadata.version@,
            availability_zones: self.availability_zones@.map_values(|zone: String| zone@),
            ip_family: self.kubernetes_network_config.ip_family,
            addons: self.addons@.map_values(
                |addon: Addon| AddonView { name: addon.name@, version: addon.version@ },
            ),
            with_oidc: self.iam.with_oidc,
            node_groups: self.managed_node_groups@.map_values(
                |group: ManagedNodeGroup| ManagedNodeGroupView {
                    name: group.name@,
                    min_size: group.min_size,
                    max_size: group.max_size,
                    desired_capacity: group.desired_capacity,
                },
            ),
        }
    }
}

/// The zone names a zone list declares, or none.
pub open spec fn zone_views(zones: Option<Vec<String>>) -> Seq<Seq<char>> {
    match zones {
        Some(zones) => zones@.map_values(|zone: String| zone@),
        None => Seq::empty(),
    }
}

/// The version a configuration declares, or the default.
pub open spec fn doc_version_view(version: Option<String>) -> Seq<char> {
    match version {
        Some(version) => version@,
        None => "1.32"@,
    }
}

/// The one cluster document this library assembles for a given name,
/// region, version and zone list.
pub open spec fn cluster_doc_view(
    cluster_name: Seq<char>,
    region: Seq<char>,
    version: Seq<char>,
    zones: Seq<Seq<char>>,
) -> EksctlDocView {
    EksctlDocView {
        api_version: "eksctl.io/v1alpha5"@,
        kind: "ClusterConfig"@,
        name: cluster_name,
        region: region,
        version: version,
        availability_zones: zones,
        ip_family: if has_suffix(cluster_name, "ipv6"@) {
            IPFamily::IPv6
        } else {
            IPFamily::IPv4
        },
        addons: seq![
            (AddonView { name: "vpc-cni"@, version: "latest"@ }),
            (AddonView { name: "coredns"@, version: "latest"@ }),
            (AddonView { name: "kube-proxy"@, version: "latest"@ }),
        ],
        with_oidc: true,
        node_groups: seq![
            (ManagedNodeGroupView {
                name: "mng-1"@,
                min_size: MNG_MIN_SIZE,
                max_size: MNG_MAX_SIZE,
                desired_capacity: MNG_DESIRED_CAPACITY,
            }),
        ],
    }
}

/// Assembles the cluster document: the declared name, region and version,
/// the declared zones, the address family read off the cluster name's
/// suffix, the three standard networking add-ons, identity federation on,
/// and one managed node group with the fixed size bounds.
pub fn build_cluster_doc(
    cluster_name: &str,
    region: &str,
    version: &str,
    zones: &Option<Vec<String>>,
) -> (r: EksctlYamlConfig)
    ensures
        r.api_version@ == "eksctl.io/v1alpha5"@,
        r.kind@ == "ClusterConfig"@,
        r.eksctl_metadata.name@ == cluster_name@,
        r.eksctl_metadata.region@ == region@,
        r.eksctl_metadata.version@ == version@,
        r.kubernetes_network_config.ip_family == (if has_suffix(cluster_name@, "ipv6"@) {
            IPFamily::IPv6
        } else {
            IPFamily::IPv4
        }),
        r.availability_zones@.len() == match *zones {
            Some(zones) => zones@.len(),
            None => 0,
        },
        zones matches Some(given) ==> forall|i: int|
            0 <= i < given@.len() ==> #[trigger] r.availability_zones@[i]@ == given@[i]@,
        r.addons@.len() == 3,
        r.addons@[0].name@ == "vpc-cni"@,
        r.addons@[1].name@ == "coredns"@,
        r.addons@[2].name@ == "kube-proxy"@,
        forall|i: int| 0 <= i < 3 ==> #[trigger] r.addons@[i].version@ == "latest"@,
        r.iam.with_oidc,
        r.managed_node_groups@.len() == 1,
        r.managed_node_groups@[0].name@ == "mng-1"@,
        r.managed_node_groups@[0].min_size == MNG_MIN_SIZE,
        r.managed_node_groups@[0].max_size == MNG_MAX_SIZE,
        r.managed_node_groups@[0].desired_capacity == MNG_DESIRED_CAPACITY,
        r@ == cluster_doc_view(cluster_name@, region@, version@, zone_views(*zones)),
{
    let ip_family = if str_ends_with(cluster_name, "ipv6") {
        IPFamily::IPv6
    } else {
        IPFamily::IPv4
    };
    let availability_zones = match zones {
        Some(zones) => clone_strings(zones),
        None => Vec::new(),
    };
    let mut addons: Vec<Addon> = Vec::new();
    addons.push(Addon { name: "vpc-cni".to_owned(), version: "latest".to_owned() });
    addons.push(Addon { name: "coredns".to_owned(), version: "latest".to_owned() });
    addons.push(Addon { name: "kube-proxy".to_owned(), version: "latest".to_owned() });
    let mut managed_node_groups: Vec<ManagedNodeGroup> = Vec::new();
    managed_node_groups.push(
        ManagedNodeGroup {
            name: "mng-1".to_owned(),
            min_size: MNG_MIN_SIZE,
            max_size: MNG_MAX_SIZE,
            desired_capacity: MNG_DESIRED_CAPACITY,
        },
    );
    let doc = EksctlYamlConfig {
        api_version: "eksctl.io/v1alpha5".to_owned(),
        kind: "ClusterConfig".to_owned(),
        eksctl_metadata: EksctlMetadata {
            name: cluster_name.to_owned(),
            region: region.to_owned(),
            version: version.to_owned(),
        },
        availability_zones,
        kubernetes_network_config: KubernetesNetworkConfig { ip_family },
        addons,
        iam: IamConfig { with_oidc: true },
        managed_node_groups,
    };
    proof {
        let target = cluster_doc_view(cluster_name@, region@, version@, zone_views(*zones));
        assert(doc@.availability_zones =~= target.availability_zones);
        assert(doc@.addons =~= target.addons);
        assert(doc@.node_groups =~= target.node_groups);
        assert(doc@ == target);
    }
    doc
}

} // verus!
