use agent_core::cluster_config::{build_cluster_doc, ClusterConfig, EksctlConfig, IPFamily};
use agent_core::dns::IpFamily;
use agent_core::errors::Resources;
use agent_core::memo::{CreationPolicy, ProductionMemo};
use agent_core::provision::{
    certificate, cluster_sg, eks_subnet_ids, endpoint, find_matching_stack,
    is_cluster_creation_required, instance_profile_arn, subnet_id_list, ClusterDescription,
    ClusterSpec, CertificateAuthorityInfo, EksClusterConfig, EksCreator, EksDestroyer,
    NetworkConfigInfo, ScriptedProvisionEnv, SubnetInfo, VpcConfigInfo,
};
use base64::Engine;

fn args_spec(policy: CreationPolicy) -> ClusterSpec {
    ClusterSpec {
        configuration: EksClusterConfig {
            config: EksctlConfig::Args {
                cluster_name: "mycluster".to_string(),
                region: None,
                zones: None,
                version: None,
            },
            creation_policy: Some(policy),
            assume_role: None,
            eks_service_endpoint: None,
        },
        aws_secret_name: None,
    }
}

fn small_description() -> ClusterDescription {
    ClusterDescription {
        resources_vpc_config: Some(VpcConfigInfo {
            subnet_ids: Some(vec!["subnet-1".to_string()]),
            cluster_security_group_id: Some("sg-1".to_string()),
        }),
        endpoint: Some("https://cluster.example".to_string()),
        certificate_authority: Some(CertificateAuthorityInfo {
            data: Some("cert-data".to_string()),
        }),
        kubernetes_network_config: Some(NetworkConfigInfo {
            ip_family: Some(IpFamily::Ipv4),
            service_ipv4_cidr: Some("10.100.0.0/16".to_string()),
            service_ipv6_cidr: None,
        }),
    }
}

fn ready_env() -> ScriptedProvisionEnv {
    let mut env = ScriptedProvisionEnv::new();
    env.description = Some(small_description());
    env.public_ids = vec!["subnet-pub".to_string()];
    env.private_ids = vec!["subnet-priv".to_string()];
    env.stack_names = vec![
        "unrelated-stack".to_string(),
        "eksctl-mycluster-nodegroup-ng1".to_string(),
    ];
    env.role_id = Some("node-instance-role".to_string());
    env.instance_profiles = vec!["arn:profile/one".to_string()];
    env.kubeconfig_text = "kubeconfig-content".to_string();
    env
}

#[test]
fn create_provisions_and_describes_the_cluster() {
    let mut env = ready_env();
    let created = EksCreator {}
        .create(args_spec(CreationPolicy::IfNotExists), &mut env)
        .unwrap();
    assert_eq!(env.creates_run, 1);
    assert_eq!(created.cluster_name, "mycluster");
    assert_eq!(created.region, "us-west-2");
    assert_eq!(created.endpoint, "https://cluster.example");
    assert_eq!(created.certificate, "cert-data");
    assert_eq!(created.cluster_dns_ip, "10.100.0.10");
    assert_eq!(created.public_subnet_ids, vec!["subnet-pub".to_string()]);
    assert_eq!(created.private_subnet_ids, vec!["subnet-priv".to_string()]);
    assert_eq!(created.cluster_sg, "sg-1");
    assert_eq!(created.security_groups, vec!["sg-1".to_string()]);
    assert_eq!(created.iam_instance_profile_arn, "arn:profile/one");
    let expected = base64::engine::general_purpose::STANDARD.encode("kubeconfig-content");
    assert_eq!(created.encoded_kubeconfig, expected);
}

#[test]
fn create_skips_creation_when_the_cluster_already_exists() {
    let mut env = ready_env();
    env.exists_answer = Some(true);
    let created = EksCreator {}
        .create(args_spec(CreationPolicy::IfNotExists), &mut env)
        .unwrap();
    assert_eq!(env.creates_run, 0);
    assert_eq!(created.cluster_name, "mycluster");
}

#[test]
fn create_never_starts_before_the_marker_is_durably_written() {
    let mut env = ready_env();
    env.accept_only(5);
    let error = EksCreator {}
        .create(args_spec(CreationPolicy::IfNotExists), &mut env)
        .unwrap_err();
    assert_eq!(error.resources, Resources::Clear);
    assert_eq!(env.creates_run, 0);
}

#[test]
fn contradictory_policy_and_existing_cluster_fail_clear() {
    let mut env = ready_env();
    env.exists_answer = Some(true);
    let error = EksCreator {}
        .create(args_spec(CreationPolicy::Create), &mut env)
        .unwrap_err();
    assert_eq!(error.resources, Resources::Clear);
    assert_eq!(env.creates_run, 0);
}

#[test]
fn forbidden_creation_of_an_absent_cluster_fails_clear() {
    let mut env = ready_env();
    let error = EksCreator {}
        .create(args_spec(CreationPolicy::Never), &mut env)
        .unwrap_err();
    assert_eq!(error.resources, Resources::Clear);
    assert_eq!(env.creates_run, 0);
}

#[test]
fn failure_after_the_marker_is_at_least_remaining() {
    let mut env = ready_env();
    env.create_succeeds = false;
    let error = EksCreator {}
        .create(args_spec(CreationPolicy::IfNotExists), &mut env)
        .unwrap_err();
    assert_eq!(error.resources, Resources::Remaining);
    assert_eq!(env.creates_run, 1);
}

#[test]
fn creation_decision_table() {
    assert_eq!(
        is_cluster_creation_required(false, CreationPolicy::Create).unwrap().0,
        true
    );
    assert_eq!(
        is_cluster_creation_required(true, CreationPolicy::IfNotExists).unwrap().0,
        false
    );
    assert_eq!(
        is_cluster_creation_required(false, CreationPolicy::IfNotExists).unwrap().0,
        true
    );
    assert_eq!(
        is_cluster_creation_required(true, CreationPolicy::Never).unwrap().0,
        false
    );
    assert_eq!(
        is_cluster_creation_required(true, CreationPolicy::Create)
            .unwrap_err()
            .resources,
        Resources::Clear
    );
    assert_eq!(
        is_cluster_creation_required(false, CreationPolicy::Never)
            .unwrap_err()
            .resources,
        Resources::Clear
    );
}

fn flagged_memo() -> ProductionMemo {
    let mut memo = ProductionMemo::empty();
    memo.provisioning_started = true;
    memo.cluster_name = Some("mycluster".to_string());
    memo.region = Some("us-west-2".to_string());
    memo
}

#[test]
fn destroy_without_the_marker_is_an_idempotent_no_op() {
    let mut env = ScriptedProvisionEnv::new();
    assert!(EksDestroyer {}.destroy(None, None, &mut env).is_ok());
    assert_eq!(env.deletes_run, 0);
    assert_eq!(env.creates_run, 0);
    assert_eq!(env.writes_accepted, 0);
}

#[test]
fn destroy_with_the_marker_deletes_the_cluster() {
    let mut env = ScriptedProvisionEnv::new();
    env.seed_memo(flagged_memo());
    assert!(EksDestroyer {}.destroy(None, None, &mut env).is_ok());
    assert_eq!(env.deletes_run, 1);
}

#[test]
fn destroy_failure_is_classified_orphaned() {
    let mut env = ScriptedProvisionEnv::new();
    env.seed_memo(flagged_memo());
    env.delete_succeeds = false;
    let error = EksDestroyer {}.destroy(None, None, &mut env).unwrap_err();
    assert_eq!(error.resources, Resources::Orphaned);
    assert_eq!(env.deletes_run, 1);
}

#[test]
fn destroy_without_a_cluster_name_is_unknown() {
    let mut env = ScriptedProvisionEnv::new();
    let mut memo = ProductionMemo::empty();
    memo.provisioning_started = true;
    env.seed_memo(memo);
    let error = EksDestroyer {}.destroy(None, None, &mut env).unwrap_err();
    assert_eq!(error.resources, Resources::Unknown);
    assert_eq!(error.message, "Unable to obtain cluster name");
    assert_eq!(env.deletes_run, 0);
}

#[test]
fn file_config_resolves_name_and_region() {
    let document = "metadata:\n  name: c1\n  region: us-east-1\n";
    let encoded = base64::engine::general_purpose::STANDARD.encode(document);
    let config = ClusterConfig::new(EksctlConfig::File { encoded_config: encoded }).unwrap();
    assert_eq!(config.cluster_name(), "c1");
    assert_eq!(config.region(), "us-east-1");
}

#[test]
fn file_config_that_is_not_base64_fails_clear() {
    let error = ClusterConfig::new(EksctlConfig::File {
        encoded_config: "!!! not base64 !!!".to_string(),
    })
    .unwrap_err();
    assert_eq!(error.resources, Resources::Clear);
    assert_eq!(error.message, "Unable to decode eksctl configuration.");
}

#[test]
fn file_config_without_metadata_fails_clear() {
    let document = "kind: ClusterConfig\n";
    let encoded = base64::engine::general_purpose::STANDARD.encode(document);
    let error = ClusterConfig::new(EksctlConfig::File { encoded_config: encoded }).unwrap_err();
    assert_eq!(error.resources, Resources::Clear);
    assert_eq!(error.message, "Metadata is missing from eksctl config.");
}

#[test]
fn file_config_without_a_region_fails_clear() {
    let document = "metadata:\n  name: c1\n";
    let encoded = base64::engine::general_purpose::STANDARD.encode(document);
    let error = ClusterConfig::new(EksctlConfig::File { encoded_config: encoded }).unwrap_err();
    assert_eq!(error.resources, Resources::Clear);
    assert_eq!(error.message, "The cluster's region was not in the eksctl config.");
}

#[test]
fn args_config_defaults_the_region() {
    let config = ClusterConfig::new(EksctlConfig::Args {
        cluster_name: "c2".to_string(),
        region: None,
        zones: None,
        version: None,
    })
    .unwrap();
    assert_eq!(config.region(), "us-west-2");
    assert_eq!(config.cluster_name(), "c2");
}

#[test]
fn cluster_doc_reads_the_family_off_the_name_suffix() {
    let doc = build_cluster_doc("cluster-ipv6", "us-west-2", "1.32", &None);
    assert!(matches!(doc.kubernetes_network_config.ip_family, IPFamily::IPv6));
    let doc = build_cluster_doc("cluster", "us-west-2", "1.32", &None);
    assert!(matches!(doc.kubernetes_network_config.ip_family, IPFamily::IPv4));
    assert_eq!(doc.api_version, "eksctl.io/v1alpha5");
    assert_eq!(doc.kind, "ClusterConfig");
    assert_eq!(doc.addons.len(), 3);
    assert_eq!(doc.managed_node_groups.len(), 1);
    assert_eq!(doc.managed_node_groups[0].min_size, 0);
    assert_eq!(doc.managed_node_groups[0].max_size, 2);
    assert_eq!(doc.managed_node_groups[0].desired_capacity, 0);
}

#[test]
fn a_single_instance_profile_is_required() {
    assert_eq!(
        instance_profile_arn(vec!["arn:one".to_string()], "node-role").unwrap(),
        "arn:one"
    );
    let missing = instance_profile_arn(vec![], "node-role").unwrap_err();
    assert_eq!(missing.resources, Resources::Remaining);
    assert_eq!(missing.message, "No instance profile was found for role 'node-role'");
    let extra = instance_profile_arn(
        vec!["arn:one".to_string(), "arn:two".to_string()],
        "node-role",
    )
    .unwrap_err();
    assert_eq!(extra.resources, Resources::Remaining);
    assert_eq!(
        extra.message,
        "More than one instance profile was found for role 'node-role'"
    );
}

#[test]
fn a_destroy_that_cannot_even_start_is_orphaned() {
    let mut env = ScriptedProvisionEnv::new();
    env.seed_memo(flagged_memo());
    env.delete_launches = false;
    let error = EksDestroyer {}.destroy(None, None, &mut env).unwrap_err();
    assert_eq!(error.resources, Resources::Orphaned);
    assert_eq!(error.message, "Failed to run eksctl delete command");
    assert_eq!(env.deletes_run, 1);
}

#[test]
fn a_not_found_diagnostic_is_recognized() {
    assert!(agent_core::provision::not_found(
        "An error occurred (ResourceNotFoundException) when calling DescribeCluster"
    ));
    assert!(!agent_core::provision::not_found("AccessDeniedException: not allowed"));
    assert!(!agent_core::provision::not_found(""));
}

#[test]
fn kubeconfig_args_include_the_endpoint_only_when_declared() {
    let args = agent_core::provision::kubeconfig_args(
        &"c1".to_string(),
        &None,
        &"us-west-2".to_string(),
        &"/tmp/kc.yaml".to_string(),
    );
    assert_eq!(
        args,
        vec![
            "eks",
            "update-kubeconfig",
            "--region",
            "us-west-2",
            "--name",
            "c1",
            "--kubeconfig",
            "/tmp/kc.yaml",
        ]
    );
    let args = agent_core::provision::kubeconfig_args(
        &"c1".to_string(),
        &Some("https://eks.example".to_string()),
        &"us-west-2".to_string(),
        &"/tmp/kc.yaml".to_string(),
    );
    assert_eq!(args[8], "--endpoint");
    assert_eq!(args[9], "https://eks.example");
}

#[test]
fn subnet_id_list_keeps_only_reported_identifiers() {
    let described = vec![
        SubnetInfo { subnet_id: Some("subnet-1".to_string()) },
        SubnetInfo { subnet_id: None },
        SubnetInfo { subnet_id: Some("subnet-2".to_string()) },
    ];
    assert_eq!(
        subnet_id_list(&described),
        vec!["subnet-1".to_string(), "subnet-2".to_string()]
    );
}

#[test]
fn the_first_stack_with_either_prefix_wins() {
    let names = vec![
        "other".to_string(),
        "c1-node-group-abc".to_string(),
        "eksctl-c1-nodegroup-xyz".to_string(),
    ];
    assert_eq!(
        find_matching_stack(&names, "eksctl-c1-nodegroup", "c1-node-group"),
        Some("c1-node-group-abc".to_string())
    );
    assert_eq!(
        find_matching_stack(&vec!["other".to_string()], "eksctl-c1-nodegroup", "c1-node-group"),
        None
    );
}

#[test]
fn describe_helpers_report_each_missing_field() {
    let bare = ClusterDescription {
        resources_vpc_config: None,
        endpoint: None,
        certificate_authority: None,
        kubernetes_network_config: None,
    };
    assert_eq!(
        eks_subnet_ids(&bare).unwrap_err().message,
        "Cluster missing resources_vpc_config field"
    );
    assert_eq!(
        cluster_sg(&bare).unwrap_err().message,
        "Cluster missing resources_vpc_config field"
    );
    assert_eq!(endpoint(&bare).unwrap_err().message, "Cluster missing endpoint field");
    assert_eq!(
        certificate(&bare).unwrap_err().message,
        "Cluster missing certificate_authority field"
    );
    let described = small_description();
    assert_eq!(eks_subnet_ids(&described).unwrap(), vec!["subnet-1".to_string()]);
    assert_eq!(cluster_sg(&described).unwrap(), "sg-1");
    assert_eq!(endpoint(&described).unwrap(), "https://cluster.example");
    assert_eq!(certificate(&described).unwrap(), "cert-data");
}

#[test]
fn a_missing_nodegroup_stack_leaves_the_cluster_remaining() {
    let mut env = ready_env();
    env.stack_names = vec!["unrelated-stack".to_string()];
    let error = EksCreator {}
        .create(args_spec(CreationPolicy::IfNotExists), &mut env)
        .unwrap_err();
    assert_eq!(error.resources, Resources::Remaining);
    assert_eq!(error.message, "Could not find nodegroup cloudformation stack for cluster");
}

#[test]
fn a_missing_node_role_resource_leaves_the_cluster_remaining() {
    let mut env = ready_env();
    env.role_id = None;
    let error = EksCreator {}
        .create(args_spec(CreationPolicy::IfNotExists), &mut env)
        .unwrap_err();
    assert_eq!(error.resources, Resources::Remaining);
    assert_eq!(
        error.message,
        "Missing 'NodeInstanceRole' stack resource for nodegroup stack"
    );
}
