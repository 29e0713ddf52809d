//! Derivation of the conventional cluster service address from a declared
//! service network range: the first three dot-separated octets of an IPv4
//! range with a fixed well-known last octet appended, or the first segment
//! of an IPv6 range with a fixed suffix character appended. A pure function
//! of the declared network configuration.

use vstd::prelude::*;
use crate::errors::{ProviderError, ProviderResult, Resources};

verus! {

/// The address family a cluster's service network was declared with.
/// `Unknown` stands for any family designation this library does not
/// recognize; derivation then falls back to the IPv4 rule.
#[derive(Clone, Copy, Debug, PartialEq, Eq, Structural)]
pub enum IpFamily {
    Ipv4,
    Ipv6,
    Unknown,
}

/// How many occurrences of `c` appear in `s` at or after index `i`.
pub open spec fn count_from(s: Seq<char>, c: char, i: int) -> nat
    decreases s.len() - i,
{
    if i < 0 || i >= s.len() {
        0
    } else {
        (if s[i] == c {
            1nat
        } else {
            0nat
        }) + count_from(s, c, i + 1)
    }
}

/// How many occurrences of `c` appear in `s`.
pub open spec fn count_char(s: Seq<char>, c: char) -> nat {
    count_from(s, c, 0)
}

/// The index just past the `n`th occurrence of `c`, scanning from index `i`
/// with `seen` occurrences already behind; `s.len()` if there are fewer.
pub open spec fn scan_sep_end(s: Seq<char>, c: char, n: nat, i: int, seen: nat) -> int
    decreases s.len() - i,
{
    if i < 0 || i >= s.len() {
        s.len() as int
    } else if s[i] == c {
        if seen + 1 == n {
            i + 1
        } else {
            scan_sep_end(s, c, n, i + 1, seen + 1)
        }
    } else {
        scan_sep_end(s, c, n, i + 1, seen)
    }
}

/// The index just past the `n`th occurrence of `c` in `s`.
pub open spec fn nth_sep_end(s: Seq<char>, c: char, n: nat) -> int {
    scan_sep_end(s, c, n, 0, 0)
}

/// The index of the first occurrence of `c` in `s`, or `s.len()` if absent.
pub open spec fn first_pos(s: Seq<char>, c: char, i: int) -> int
    decreases s.len() - i,
{
    if i < 0 || i >= s.len() {
        s.len() as int
    } else if s[i] == c {
        i
    } else {
        first_pos(s, c, i + 1)
    }
}

/// The service address derived from an IPv4 range: the text through the
/// third dot, with the well-known last octet `10` appended. Defined only
/// for text with exactly four dot-separated segments.
pub open spec fn ipv4_service_address(cidr: Seq<char>) -> Seq<char> {
    cidr.subrange(0, nth_sep_end(cidr, '.', 3)) + "10"@
}

/// The service address derived from an IPv6 range: the text before the
/// first slash, with the suffix `a` appended.
pub open spec fn ipv6_service_address(cidr: Seq<char>) -> Seq<char> {
    cidr.subrange(0, first_pos(cidr, '/', 0)) + "a"@
}

proof fn lemma_scan_sep_end_bounds(s: Seq<char>, c: char, n: nat, i: int, seen: nat)
    requires
        0 <= i <= s.len(),
    ensures
        i <= scan_sep_end(s, c, n, i, seen) <= s.len(),
    decreases s.len() - i,
{
    if i < s.len() {
        if s[i] == c && seen + 1 == n {
        } else if s[i] == c {
            lemma_scan_sep_end_bounds(s, c, n, i + 1, seen + 1);
        } else {
            lemma_scan_sep_end_bounds(s, c, n, i + 1, seen);
        }
    }
}

/// Derives the IPv4 service address, reporting how many dot-separated
/// segments were found when there are not exactly four.
fn derive_ipv4(cidr: &str) -> (r: Option<String>)
    ensures
        r is Some <==> count_char(cidr@, '.') == 3,
        r is Some ==> r->0@ == ipv4_service_address(cidr@),
{
    let len = cidr.unicode_len();
    let mut i: usize = 0;
    let mut seen: usize = 0;
    let mut third_end: usize = 0;
    while i < len
        invariant
            0 <= i <= len,
            len == cidr@.len(),
            seen <= i,
            count_char(cidr@, '.') == seen + count_from(cidr@, '.', i as int),
            seen < 3 ==> nth_sep_end(cidr@, '.', 3) == scan_sep_end(
                cidr@,
                '.',
                3,
                i as int,
                seen as nat,
            ),
            seen >= 3 ==> third_end <= len && nth_sep_end(cidr@, '.', 3) == third_end,
        decreases len - i,
    {
        let ch = cidr.get_char(i);
        if ch == '.' {
            if seen == 2 {
                third_end = i + 1;
            }
            seen = seen + 1;
        }
        i = i + 1;
    }
    if seen == 3 {
        proof {
            lemma_scan_sep_end_bounds(cidr@, '.', 3, 0, 0);
        }
        let prefix = cidr.substring_char(0, third_end);
        Some(prefix.to_owned().concat("10"))
    } else {
        None
    }
}

/// Derives the IPv6 service address: everything before the first slash,
/// then the suffix character.
fn derive_ipv6(cidr: &str) -> (r: String)
    ensures
        r@ == ipv6_service_address(cidr@),
{
    let len = cidr.unicode_len();
    let mut i: usize = 0;
    while i < len && cidr.get_char(i) != '/'
        invariant
            0 <= i <= len,
            len == cidr@.len(),
            first_pos(cidr@, '/', 0) == first_pos(cidr@, '/', i as int),
        decreases len - i,
    {
        i = i + 1;
    }
    let prefix = cidr.substring_char(0, i);
    prefix.to_owned().concat("a")
}

/// Derives the cluster service address from the declared service network,
/// choosing the rule by address family; an unrecognized family falls back
/// to the IPv4 rule. Fails, never panics, when the family or the matching
/// range is absent, or when the IPv4 range does not hold exactly four
/// dot-separated segments; such failures leave cleanup to a later destroy
/// pass, so they are classified `Remaining`.
pub fn service_ip_cidr_to_cluster_dns_ip(
    ip_family: Option<IpFamily>,
    service_ipv4_cidr: Option<String>,
    service_ipv6_cidr: Option<String>,
) -> (r: ProviderResult<String>)
    ensures
        ip_family is None ==> r is Err && r->Err_0.resources == Resources::Remaining,
        ip_family == Some(IpFamily::Ipv6) ==> match service_ipv6_cidr {
            Some(cidr) => r is Ok && r->Ok_0@ == ipv6_service_address(cidr@),
            None => r is Err && r->Err_0.resources == Resources::Remaining,
        },
        (ip_family == Some(IpFamily::Ipv4) || ip_family == Some(IpFamily::Unknown))
            ==> match service_ipv4_cidr {
            Some(cidr) => if count_char(cidr@, '.') == 3 {
                r is Ok && r->Ok_0@ == ipv4_service_address(cidr@)
            } else {
                r is Err && r->Err_0.resources == Resources::Remaining
            },
            None => r is Err && r->Err_0.resources == Resources::Remaining,
        },
{
    let family = match ip_family {
        Some(family) => family,
        None => {
            return Err(ProviderError::new(
                Resources::Remaining,
                "Cluster network config missing IP family information",
            ));
        },
    };
    match family {
        IpFamily::Ipv6 => {
            let cidr = match service_ipv6_cidr {
                Some(cidr) => cidr,
                None => {
                    return Err(ProviderError::new(
                        Resources::Remaining,
                        "IPv6 Cluster missing serviceIPv6CIDR information",
                    ));
                },
            };
            Ok(derive_ipv6(cidr.as_str()))
        },
        _ => {
            let cidr = match service_ipv4_cidr {
                Some(cidr) => cidr,
                None => {
                    return Err(ProviderError::new(
                        Resources::Remaining,
                        "IPv4 Cluster missing serviceIPv4CIDR information",
                    ));
                },
            };
            match derive_ipv4(cidr.as_str()) {
                Some(address) => Ok(address),
                None => Err(ProviderError::new(
                    Resources::Remaining,
                    "Expected 4 components in serviceIPv4CIDR",
                )),
            }
        },
    }
}

} // verus!
