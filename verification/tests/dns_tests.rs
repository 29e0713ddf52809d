use agent_core::dns::{service_ip_cidr_to_cluster_dns_ip, IpFamily};
use agent_core::errors::Resources;

#[test]
fn cluster_dns_ip_from_service_ipv4_cidr() {
    assert_eq!(
        service_ip_cidr_to_cluster_dns_ip(
            Some(IpFamily::Ipv4),
            Some("10.100.0.0/16".to_string()),
            None
        )
        .unwrap(),
        "10.100.0.10".to_string()
    )
}

#[test]
fn cluster_dns_ip_from_service_ipv6_cidr() {
    assert_eq!(
        service_ip_cidr_to_cluster_dns_ip(
            Some(IpFamily::Ipv6),
            None,
            Some("fd30:1c53:5f8a::/108".to_string())
        )
        .unwrap(),
        "fd30:1c53:5f8a::a".to_string()
    )
}

#[test]
fn cluster_dns_ip_unknown_family_falls_back_to_ipv4() {
    assert_eq!(
        service_ip_cidr_to_cluster_dns_ip(
            Some(IpFamily::Unknown),
            Some("172.20.0.0/16".to_string()),
            None
        )
        .unwrap(),
        "172.20.0.10".to_string()
    )
}

#[test]
fn cluster_dns_ip_malformed_ipv4_is_an_error_not_a_panic() {
    let result = service_ip_cidr_to_cluster_dns_ip(
        Some(IpFamily::Ipv4),
        Some("10.100.0/16".to_string()),
        None,
    );
    let error = result.unwrap_err();
    assert_eq!(error.resources, Resources::Remaining);
    assert_eq!(error.message, "Expected 4 components in serviceIPv4CIDR");
}

#[test]
fn cluster_dns_ip_missing_family_is_an_error() {
    let error = service_ip_cidr_to_cluster_dns_ip(None, Some("10.100.0.0/16".to_string()), None)
        .unwrap_err();
    assert_eq!(error.resources, Resources::Remaining);
}

#[test]
fn cluster_dns_ip_missing_matching_range_is_an_error() {
    let error =
        service_ip_cidr_to_cluster_dns_ip(Some(IpFamily::Ipv6), Some("10.100.0.0/16".to_string()), None)
            .unwrap_err();
    assert_eq!(error.resources, Resources::Remaining);
    let error = service_ip_cidr_to_cluster_dns_ip(Some(IpFamily::Ipv4), None, None).unwrap_err();
    assert_eq!(error.resources, Resources::Remaining);
}
