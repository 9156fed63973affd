//! The per-host reports, the device inventory and the scan summary.
use vstd::prelude::*;
use crate::assess::{
    arp_mac, context_matches, count_severity, device_context, finding_views, hint_views,
    opt_str_view, os_hints_for_host, os_hints_of, security_context, security_matches,
    severity_count, string_views, Confidence, DeviceContext, DeviceRole, Exposure,
    HostScan, OsHint, ReviewPriority, SecurityContext, ServiceFinding,
};
use crate::services::Severity;
use crate::mac::{
    arp_host_map, count_arp_hosts_in_target, count_in_target, first_with_ip, ipv4_in_target,
    mac_type, mac_type_of, vendor_hint, vendor_of_mac, ArpHost, MacType, Vendor,
};
use crate::numbers::{decimal, ipv4_string, ipv4_text, lemma_ipv4_text_injective, push_decimal};
use crate::text::{chars_of, push_str, string_of};
use crate::probe::{copy_opt_string, opt_view, OsGuess, PingResult};

verus! {

broadcast use vstd::laws_cmp::group_laws_cmp;

// ---------------------------------------------------------------------------
// One host
// ---------------------------------------------------------------------------

/// How a scanned address showed itself.
#[derive(Clone, Copy, PartialEq, Eq, Structural, Debug)]
pub enum HostStatus {
    ActiveWithOpenServices,
    ActiveNoTestedServices,
    NotObserved,
}

impl HostStatus {
    pub open spec fn text(self) -> Seq<char> {
        match self {
            HostStatus::ActiveWithOpenServices => "active_with_open_services"@,
            HostStatus::ActiveNoTestedServices => "active_no_tested_services"@,
            HostStatus::NotObserved => "not_observed"@,
        }
    }

    /// The label used in reports.
    pub fn as_str(&self) -> (s: &'static str)
        ensures
            s@ == self.text(),
    {
        match self {
            HostStatus::ActiveWithOpenServices => "active_with_open_services",
            HostStatus::ActiveNoTestedServices => "active_no_tested_services",
            HostStatus::NotObserved => "not_observed",
        }
    }
}

/// Open services first; then an answer to ping or an ARP entry; otherwise not observed.
pub open spec fn status_of(scan: HostScan, arp_seen: bool) -> HostStatus {
    if scan.services@.len() > 0 {
        HostStatus::ActiveWithOpenServices
    } else if scan.ping_reachable || arp_seen {
        HostStatus::ActiveNoTestedServices
    } else {
        HostStatus::NotObserved
    }
}

/// An address is reported as not observed exactly when its host is not likely active.
pub proof fn lemma_status_matches_activity(scan: HostScan, arp_seen: bool)
    ensures
        (status_of(scan, arp_seen) == HostStatus::NotObserved) <==> !likely_active(scan, arp_seen),
        (status_of(scan, arp_seen) == HostStatus::ActiveWithOpenServices) <==> scan.services@.len() > 0,
{
}

/// The status of a scanned address.
pub fn host_status(scan: &HostScan, arp_seen: bool) -> (s: HostStatus)
    ensures
        s == status_of(*scan, arp_seen),
{
    if scan.services.len() > 0 {
        HostStatus::ActiveWithOpenServices
    } else if scan.ping_reachable || arp_seen {
        HostStatus::ActiveNoTestedServices
    } else {
        HostStatus::NotObserved
    }
}

/// The name of a host: the reverse-DNS name, or else the NetBIOS name.
pub fn name_hint(reverse_dns: Option<String>, netbios: Option<String>) -> (r: Option<String>)
    ensures
        r == (match reverse_dns {
            Some(n) => Some(n),
            None => netbios,
        }),
{
    match reverse_dns {
        Some(n) => Some(n),
        None => netbios,
    }
}

/// How the host was discovered.
pub struct DiscoveryReport {
    pub likely_active: bool,
    pub ping_reachable: bool,
    pub ttl: Option<u8>,
    pub os_guess: OsGuess,
    pub arp_seen: bool,
    pub open_tcp_service_count: usize,
}

/// Everything reported about one active host.
pub struct HostReport {
    pub ip: String,
    pub status: HostStatus,
    pub is_local_machine: bool,
    pub name_hint: Option<String>,
    pub discovery: DiscoveryReport,
    pub mac: Option<String>,
    pub mac_type: Option<MacType>,
    pub vendor_hint: Option<Vendor>,
    pub os_hints: Vec<OsHint>,
    pub device_context: DeviceContext,
    pub security_context: SecurityContext,
    pub services: Vec<ServiceFinding>,
}

/// The host answered ping, was seen in the ARP cache, or has an open service.
pub open spec fn likely_active(scan: HostScan, arp_seen: bool) -> bool {
    scan.ping_reachable || arp_seen || scan.services@.len() > 0
}

/// `r` is the report on `scan`, given the MAC address of its ARP entry, the
/// scanner's own address and what a name lookup for it returned (used only for
/// a likely active host).
pub open spec fn report_matches(
    r: HostReport,
    scan: HostScan,
    mac: Option<Seq<char>>,
    local_ip: Option<u32>,
    lookup: Option<Seq<char>>,
) -> bool {
    let arp_seen = mac is Some;
    let active = likely_active(scan, arp_seen);
    let is_local = local_ip == Some(scan.ip);
    let name = if active {
        lookup
    } else {
        None
    };
    &&& r.ip@ == ipv4_text(scan.ip)
    &&& r.status == status_of(scan, arp_seen)
    &&& r.is_local_machine == is_local
    &&& opt_view(r.name_hint) == name
    &&& r.discovery.likely_active == active
    &&& r.discovery.ping_reachable == scan.ping_reachable
    &&& r.discovery.ttl == scan.ttl
    &&& r.discovery.os_guess == scan.os_guess
    &&& r.discovery.arp_seen == arp_seen
    &&& r.discovery.open_tcp_service_count == scan.services@.len()
    &&& opt_view(r.mac) == mac
    &&& r.mac_type == (match mac {
        Some(m) => Some(mac_type_of(m)),
        None => None,
    })
    &&& r.vendor_hint == (match mac {
        Some(m) => Some(vendor_of_mac(m)),
        None => None,
    })
    &&& hint_views(r.os_hints@) == os_hints_of(scan, mac, name)
    &&& context_matches(r.device_context, scan, name, is_local, hint_views(r.os_hints@))
    &&& security_matches(r.security_context, scan, mac, name, is_local, r.device_context)
    &&& finding_views(r.services@) == finding_views(scan.services@)
}

/// A copy of a list of findings.
pub fn copy_findings(v: &Vec<ServiceFinding>) -> (r: Vec<ServiceFinding>)
    ensures
        finding_views(r@) == finding_views(v@),
{
    let mut r: Vec<ServiceFinding> = Vec::new();
    for i in 0..v.len()
        invariant
            r@.len() == i,
            forall|j: int| 0 <= j < i ==> (#[trigger] r@[j])@ == v@[j]@,
    {
        r.push(v[i].duplicate());
    }
    assert(finding_views(r@) =~= finding_views(v@));
    r
}

/// The report on one host. `name_lookup` is what the reverse-DNS and NetBIOS
/// lookups found for it; it is kept only when the host is likely active.
pub fn host_report(
    scan: &HostScan,
    arp_host: Option<&ArpHost>,
    local_ip: Option<u32>,
    name_lookup: Option<String>,
) -> (r: HostReport)
    ensures
        report_matches(r, *scan, arp_mac(arp_host), local_ip, opt_view(name_lookup)),
{
    let arp_seen = arp_host.is_some();
    let likely_active = scan.ping_reachable || arp_seen || scan.services.len() > 0;
    let is_local_machine = match local_ip {
        Some(ip) => ip == scan.ip,
        None => false,
    };
    let name: Option<String> = if likely_active {
        name_lookup
    } else {
        None
    };
    let name_ref: Option<&str> = match &name {
        Some(n) => Some(n.as_str()),
        None => None,
    };
    assert(opt_str_view(name_ref) == opt_view(name));
    let os_hints = os_hints_for_host(scan, arp_host, name_ref);
    let context = device_context(scan, name_ref, is_local_machine, &os_hints);
    let security = security_context(scan, arp_host, name_ref, is_local_machine, &context);
    let (mac, mac_type_value, vendor) = match arp_host {
        Some(host) => (
            Some(host.mac.clone()),
            Some(mac_type(host.mac.as_str())),
            Some(vendor_hint(host.mac.as_str())),
        ),
        None => (None, None, None),
    };
    HostReport {
        ip: ipv4_string(scan.ip),
        status: host_status(scan, arp_seen),
        is_local_machine,
        name_hint: name,
        discovery: DiscoveryReport {
            likely_active,
            ping_reachable: scan.ping_reachable,
            ttl: scan.ttl,
            os_guess: scan.os_guess,
            arp_seen,
            open_tcp_service_count: scan.services.len(),
        },
        mac,
        mac_type: mac_type_value,
        vendor_hint: vendor,
        os_hints,
        device_context: context,
        security_context: security,
        services: copy_findings(&scan.services),
    }
}

// ---------------------------------------------------------------------------
// All hosts
// ---------------------------------------------------------------------------

/// The MAC address of the first ARP entry for `ip`, if `ip` is a target.
pub open spec fn arp_mac_for(arp: Seq<ArpHost>, targets: Seq<u32>, ip: u32) -> Option<Seq<char>> {
    match first_with_ip(arp, targets, ip) {
        Some(e) => Some(e.1),
        None => None,
    }
}

/// The scan shows its host: it answered ping, has an open service, or its
/// address is a target listed in the ARP cache.
pub open spec fn observed(scan: HostScan, arp: Seq<ArpHost>, targets: Seq<u32>) -> bool {
    likely_active(scan, arp_mac_for(arp, targets, scan.ip) is Some)
}

/// The positions, among the first `n` scans, of those that show their host.
pub open spec fn observed_indices(scans: Seq<HostScan>, arp: Seq<ArpHost>, targets: Seq<u32>, n: int) -> Seq<int>
    decreases n,
{
    if n <= 0 {
        Seq::empty()
    } else {
        let prev = observed_indices(scans, arp, targets, n - 1);
        if observed(scans[n - 1], arp, targets) {
            prev.push(n - 1)
        } else {
            prev
        }
    }
}

/// The addresses, in order, of the first `n` scans that do not show their host.
pub open spec fn unobserved_texts(scans: Seq<HostScan>, arp: Seq<ArpHost>, targets: Seq<u32>, n: int) -> Seq<Seq<char>>
    decreases n,
{
    if n <= 0 {
        Seq::empty()
    } else {
        let prev = unobserved_texts(scans, arp, targets, n - 1);
        if observed(scans[n - 1], arp, targets) {
            prev
        } else {
            prev.push(ipv4_text(scans[n - 1].ip))
        }
    }
}

/// The name found for the scan at position `i`; a missing entry counts as none found.
pub open spec fn name_at(names: Seq<Option<String>>, i: int) -> Option<Seq<char>> {
    if 0 <= i < names.len() {
        opt_view(names[i])
    } else {
        None
    }
}

proof fn lemma_observed_indices_bounds(scans: Seq<HostScan>, arp: Seq<ArpHost>, targets: Seq<u32>, n: int)
    requires
        0 <= n <= scans.len(),
    ensures
        forall|k: int| 0 <= k < observed_indices(scans, arp, targets, n).len() ==> 0 <= #[trigger] observed_indices(scans, arp, targets, n)[k] < n,
    decreases n,
{
    if n > 0 {
        lemma_observed_indices_bounds(scans, arp, targets, n - 1);
        let prev = observed_indices(scans, arp, targets, n - 1);
        assert forall|k: int| 0 <= k < observed_indices(scans, arp, targets, n).len() implies
            0 <= #[trigger] observed_indices(scans, arp, targets, n)[k] < n by {
            if k < prev.len() {
                assert(prev[k] < n - 1);
            }
        }
    }
}

/// The reports on the hosts that showed themselves, in scan order. `names`
/// holds, at each scan's position, what the name lookups found for its host.
#[verifier::spinoff_prover]
#[verifier::rlimit(40)]
pub fn host_reports(
    scans: &Vec<HostScan>,
    arp_hosts: &Vec<ArpHost>,
    target_hosts: &Vec<u32>,
    local_ip: Option<u32>,
    names: &Vec<Option<String>>,
) -> (r: Vec<HostReport>)
    ensures
        r@.len() == observed_indices(scans@, arp_hosts@, target_hosts@, scans@.len() as int).len(),
        forall|k: int| 0 <= k < r@.len() ==> {
            let i = observed_indices(scans@, arp_hosts@, target_hosts@, scans@.len() as int)[k];
            &&& 0 <= i < scans@.len()
            &&& report_matches(
                #[trigger] r@[k],
                scans@[i],
                arp_mac_for(arp_hosts@, target_hosts@, scans@[i].ip),
                local_ip,
                name_at(names@, i),
            )
        },
{
    let map = arp_host_map(arp_hosts, target_hosts);
    let mut out: Vec<HostReport> = Vec::new();
    for i in 0..scans.len()
        invariant
            forall|ip: u32| #[trigger] map@.contains_key(ip) <==> first_with_ip(arp_hosts@, target_hosts@, ip) is Some,
            forall|ip: u32| #[trigger] map@.contains_key(ip) ==> Some(map@[ip]@) == first_with_ip(arp_hosts@, target_hosts@, ip),
            out@.len() == observed_indices(scans@, arp_hosts@, target_hosts@, i as int).len(),
            forall|k: int| 0 <= k < out@.len() ==> {
                let j = observed_indices(scans@, arp_hosts@, target_hosts@, i as int)[k];
                report_matches(
                    #[trigger] out@[k],
                    scans@[j],
                    arp_mac_for(arp_hosts@, target_hosts@, scans@[j].ip),
                    local_ip,
                    name_at(names@, j),
                )
            },
    {
        let scan = &scans[i];
        let arp = map.get(&scan.ip);
        assert(arp_mac(arp) == arp_mac_for(arp_hosts@, target_hosts@, scan.ip)) by {
            if map@.contains_key(scan.ip) {
                assert(Some(map@[scan.ip]@) == first_with_ip(arp_hosts@, target_hosts@, scan.ip));
            }
        }
        if scan.ping_reachable || scan.services.len() > 0 || arp.is_some() {
            let name = if i < names.len() {
                copy_opt_string(&names[i])
            } else {
                None
            };
            let report = host_report(scan, arp, local_ip, name);
            out.push(report);
        }
    }
    proof {
        lemma_observed_indices_bounds(scans@, arp_hosts@, target_hosts@, scans@.len() as int);
    }
    out
}

proof fn lemma_observed_indices_observed(scans: Seq<HostScan>, arp: Seq<ArpHost>, targets: Seq<u32>, n: int)
    requires
        0 <= n <= scans.len(),
    ensures
        forall|k: int| 0 <= k < observed_indices(scans, arp, targets, n).len() ==> {
            let i = #[trigger] observed_indices(scans, arp, targets, n)[k];
            0 <= i < n && observed(scans[i], arp, targets)
        },
    decreases n,
{
    if n > 0 {
        lemma_observed_indices_observed(scans, arp, targets, n - 1);
        let prev = observed_indices(scans, arp, targets, n - 1);
        assert forall|k: int| 0 <= k < observed_indices(scans, arp, targets, n).len() implies {
            let i = #[trigger] observed_indices(scans, arp, targets, n)[k];
            0 <= i < n && observed(scans[i], arp, targets)
        } by {
            if k < prev.len() {
                assert(observed_indices(scans, arp, targets, n)[k] == prev[k]);
            }
        }
    }
}

proof fn lemma_unobserved_from(scans: Seq<HostScan>, arp: Seq<ArpHost>, targets: Seq<u32>, n: int)
    requires
        0 <= n <= scans.len(),
    ensures
        forall|j: int| 0 <= j < unobserved_texts(scans, arp, targets, n).len() ==> exists|i: int|
            0 <= i < n && !observed(#[trigger] scans[i], arp, targets)
                && #[trigger] unobserved_texts(scans, arp, targets, n)[j] == ipv4_text(scans[i].ip),
    decreases n,
{
    if n > 0 {
        lemma_unobserved_from(scans, arp, targets, n - 1);
        let prev = unobserved_texts(scans, arp, targets, n - 1);
        assert forall|j: int| 0 <= j < unobserved_texts(scans, arp, targets, n).len() implies exists|i: int|
            0 <= i < n && !observed(#[trigger] scans[i], arp, targets)
                && #[trigger] unobserved_texts(scans, arp, targets, n)[j] == ipv4_text(scans[i].ip) by {
            if j < prev.len() {
                assert(unobserved_texts(scans, arp, targets, n)[j] == prev[j]);
                let i = choose|i: int| 0 <= i < n - 1 && !observed(#[trigger] scans[i], arp, targets)
                    && prev[j] == ipv4_text(scans[i].ip);
                assert(0 <= i < n);
            } else {
                let i = n - 1;
                assert(!observed(scans[i], arp, targets));
            }
        }
    }
}

/// When the scanned addresses differ, no address is both reported as a host
/// and listed as not observed.
pub proof fn lemma_reports_and_unobserved_disjoint(scans: Seq<HostScan>, arp: Seq<ArpHost>, targets: Seq<u32>)
    requires
        forall|i: int, j: int| 0 <= i < j < scans.len() ==> (#[trigger] scans[i]).ip != (#[trigger] scans[j]).ip,
    ensures
        forall|k: int, j: int|
            0 <= k < observed_indices(scans, arp, targets, scans.len() as int).len() && 0 <= j
                < unobserved_texts(scans, arp, targets, scans.len() as int).len() ==> ipv4_text(
                scans[#[trigger] observed_indices(scans, arp, targets, scans.len() as int)[k]].ip,
            ) != #[trigger] unobserved_texts(scans, arp, targets, scans.len() as int)[j],
{
    let n = scans.len() as int;
    lemma_observed_indices_observed(scans, arp, targets, n);
    lemma_unobserved_from(scans, arp, targets, n);
    assert forall|k: int, j: int|
        0 <= k < observed_indices(scans, arp, targets, n).len() && 0 <= j < unobserved_texts(scans, arp, targets, n).len()
        implies ipv4_text(scans[#[trigger] observed_indices(scans, arp, targets, n)[k]].ip)
            != #[trigger] unobserved_texts(scans, arp, targets, n)[j] by {
        let a = observed_indices(scans, arp, targets, n)[k];
        let i = choose|i: int| 0 <= i < n && !observed(#[trigger] scans[i], arp, targets)
            && unobserved_texts(scans, arp, targets, n)[j] == ipv4_text(scans[i].ip);
        assert(observed(scans[a], arp, targets));
        assert(a != i);
        if a < i {
            assert(scans[a].ip != scans[i].ip);
        } else {
            assert(scans[i].ip != scans[a].ip);
        }
        if ipv4_text(scans[a].ip) == ipv4_text(scans[i].ip) {
            lemma_ipv4_text_injective(scans[a].ip, scans[i].ip);
        }
    }
}

/// For each scan, whether its host showed itself (and so gets a report and a
/// name lookup).
pub fn observed_flags(scans: &Vec<HostScan>, arp_hosts: &Vec<ArpHost>, target_hosts: &Vec<u32>) -> (r: Vec<bool>)
    ensures
        r@.len() == scans@.len(),
        forall|i: int| 0 <= i < scans@.len() ==> r@[i] == observed(#[trigger] scans@[i], arp_hosts@, target_hosts@),
{
    let map = arp_host_map(arp_hosts, target_hosts);
    let mut out: Vec<bool> = Vec::new();
    for i in 0..scans.len()
        invariant
            forall|ip: u32| #[trigger] map@.contains_key(ip) <==> first_with_ip(arp_hosts@, target_hosts@, ip) is Some,
            out@.len() == i,
            forall|j: int| 0 <= j < i ==> out@[j] == observed(#[trigger] scans@[j], arp_hosts@, target_hosts@),
    {
        let scan = &scans[i];
        out.push(scan.ping_reachable || scan.services.len() > 0 || map.contains_key(&scan.ip));
    }
    out
}

/// The addresses of the scanned hosts that did not show themselves, in scan order.
pub fn not_observed_hosts(scans: &Vec<HostScan>, arp_hosts: &Vec<ArpHost>, target_hosts: &Vec<u32>) -> (r: Vec<String>)
    ensures
        r@.len() == unobserved_texts(scans@, arp_hosts@, target_hosts@, scans@.len() as int).len(),
        forall|k: int| 0 <= k < r@.len() ==> (#[trigger] r@[k])@ == unobserved_texts(
            scans@,
            arp_hosts@,
            target_hosts@,
            scans@.len() as int,
        )[k],
{
    let map = arp_host_map(arp_hosts, target_hosts);
    let mut out: Vec<String> = Vec::new();
    for i in 0..scans.len()
        invariant
            forall|ip: u32| #[trigger] map@.contains_key(ip) <==> first_with_ip(arp_hosts@, target_hosts@, ip) is Some,
            out@.len() == unobserved_texts(scans@, arp_hosts@, target_hosts@, i as int).len(),
            forall|k: int| 0 <= k < out@.len() ==> (#[trigger] out@[k])@ == unobserved_texts(
                scans@,
                arp_hosts@,
                target_hosts@,
                i as int,
            )[k],
    {
        let scan = &scans[i];
        if !scan.ping_reachable && scan.services.len() == 0 && !map.contains_key(&scan.ip) {
            out.push(ipv4_string(scan.ip));
        }
    }
    out
}

/// Every scanned address is either reported as a host or listed as not observed.
pub proof fn lemma_hosts_partition(scans: Seq<HostScan>, arp: Seq<ArpHost>, targets: Seq<u32>, n: int)
    requires
        0 <= n,
    ensures
        observed_indices(scans, arp, targets, n).len() + unobserved_texts(scans, arp, targets, n).len() == n,
    decreases n,
{
    if n > 0 {
        lemma_hosts_partition(scans, arp, targets, n - 1);
    }
}

// ---------------------------------------------------------------------------
// Device inventory
// ---------------------------------------------------------------------------

/// One row of the device inventory.
pub struct InventoryDevice {
    pub ip: String,
    pub label: String,
    pub likely_role: DeviceRole,
    pub likely_os: OsGuess,
    pub confidence: Confidence,
    pub exposure_level: Exposure,
    pub open_service_count: usize,
    pub high_count: usize,
    pub medium_count: usize,
    pub open_ports: Vec<u16>,
    pub service_names: Vec<&'static str>,
    pub security_review_priority: ReviewPriority,
    pub risk_tags: Vec<&'static str>,
    pub ai_correlation_terms: Vec<String>,
}

/// `d` is the inventory row of the host report `h`.
pub open spec fn inventory_matches(d: InventoryDevice, h: HostReport) -> bool {
    let sv = h.services@;
    &&& d.ip@ == h.ip@
    &&& d.label@ == h.device_context.label@
    &&& d.likely_role == h.device_context.likely_role
    &&& d.likely_os == h.device_context.likely_os
    &&& d.confidence == h.device_context.confidence
    &&& d.exposure_level == h.device_context.exposure_level
    &&& d.open_service_count == sv.len()
    &&& d.high_count == severity_count(sv, Severity::High)
    &&& d.medium_count == severity_count(sv, Severity::Medium)
    &&& d.open_ports@ == sv.map_values(|f: ServiceFinding| f.port)
    &&& d.service_names@ == sv.map_values(|f: ServiceFinding| f.service)
    &&& d.security_review_priority == h.security_context.review_priority
    &&& d.risk_tags@ == h.security_context.risk_tags@
    &&& string_views(d.ai_correlation_terms@) == string_views(h.security_context.ai_correlation_terms@)
}

fn copy_labels(v: &Vec<&'static str>) -> (r: Vec<&'static str>)
    ensures
        r@ == v@,
{
    let mut r: Vec<&'static str> = Vec::new();
    for i in 0..v.len()
        invariant
            r@ == v@.take(i as int),
    {
        r.push(v[i]);
        assert(r@ =~= v@.take(i + 1));
    }
    assert(v@.take(v.len() as int) =~= v@);
    r
}

fn copy_texts(v: &Vec<String>) -> (r: Vec<String>)
    ensures
        string_views(r@) == string_views(v@),
{
    let mut r: Vec<String> = Vec::new();
    for i in 0..v.len()
        invariant
            r@.len() == i,
            forall|j: int| 0 <= j < i ==> (#[trigger] r@[j])@ == v@[j]@,
    {
        r.push(v[i].clone());
    }
    assert(string_views(r@) =~= string_views(v@));
    r
}

/// The inventory row of a host report.
pub fn inventory_device(host: &HostReport) -> (d: InventoryDevice)
    ensures
        inventory_matches(d, *host),
{
    let mut open_ports: Vec<u16> = Vec::new();
    let mut service_names: Vec<&'static str> = Vec::new();
    for i in 0..host.services.len()
        invariant
            open_ports@ == host.services@.take(i as int).map_values(|f: ServiceFinding| f.port),
            service_names@ == host.services@.take(i as int).map_values(|f: ServiceFinding| f.service),
    {
        open_ports.push(host.services[i].port);
        service_names.push(host.services[i].service);
        assert(open_ports@ =~= host.services@.take(i + 1).map_values(|f: ServiceFinding| f.port));
        assert(service_names@ =~= host.services@.take(i + 1).map_values(|f: ServiceFinding| f.service));
    }
    assert(host.services@.take(host.services.len() as int) =~= host.services@);
    InventoryDevice {
        ip: host.ip.clone(),
        label: host.device_context.label.clone(),
        likely_role: host.device_context.likely_role,
        likely_os: host.device_context.likely_os,
        confidence: host.device_context.confidence,
        exposure_level: host.device_context.exposure_level,
        open_service_count: host.services.len(),
        high_count: count_severity(&host.services, Severity::High),
        medium_count: count_severity(&host.services, Severity::Medium),
        open_ports,
        service_names,
        security_review_priority: host.security_context.review_priority,
        risk_tags: copy_labels(&host.security_context.risk_tags),
        ai_correlation_terms: copy_texts(&host.security_context.ai_correlation_terms),
    }
}

/// The device inventory: counts and one row per observed device.
pub struct DeviceInventory {
    pub observed_device_count: usize,
    pub active_with_open_services: usize,
    pub active_without_open_services: usize,
    pub inactive_address_count: usize,
    pub note: &'static str,
    pub devices: Vec<InventoryDevice>,
}

/// The number of reports with at least one open service.
pub open spec fn with_services_count(hosts: Seq<HostReport>) -> nat
    decreases hosts.len(),
{
    if hosts.len() == 0 {
        0
    } else {
        with_services_count(hosts.drop_last()) + if hosts.last().services@.len() > 0 {
            1nat
        } else {
            0nat
        }
    }
}

pub open spec fn inventory_note() -> Seq<char> {
    "This is the primary device inventory. Hosts listed here were observed by ARP, ping, or open TCP service. Inactive addresses are counted separately and listed later."@
}

/// The device inventory of the host reports. The devices with and without
/// open services together are all the observed devices.
pub fn device_inventory(hosts: &Vec<HostReport>, inactive_address_count: usize) -> (inv: DeviceInventory)
    ensures
        inv.observed_device_count == hosts@.len(),
        inv.active_with_open_services == with_services_count(hosts@),
        inv.active_with_open_services + inv.active_without_open_services == inv.observed_device_count,
        inv.inactive_address_count == inactive_address_count,
        inv.note@ == inventory_note(),
        inv.devices@.len() == hosts@.len(),
        forall|k: int| 0 <= k < hosts@.len() ==> inventory_matches(#[trigger] inv.devices@[k], hosts@[k]),
{
    let mut with_services: usize = 0;
    let mut devices: Vec<InventoryDevice> = Vec::new();
    for i in 0..hosts.len()
        invariant
            with_services == with_services_count(hosts@.take(i as int)),
            with_services <= i,
            devices@.len() == i,
            forall|k: int| 0 <= k < i ==> inventory_matches(#[trigger] devices@[k], hosts@[k]),
    {
        assert(hosts@.take(i + 1).drop_last() =~= hosts@.take(i as int));
        if hosts[i].services.len() > 0 {
            with_services += 1;
        }
        devices.push(inventory_device(&hosts[i]));
    }
    assert(hosts@.take(hosts.len() as int) =~= hosts@);
    DeviceInventory {
        observed_device_count: hosts.len(),
        active_with_open_services: with_services,
        active_without_open_services: hosts.len() - with_services,
        inactive_address_count,
        note: "This is the primary device inventory. Hosts listed here were observed by ARP, ping, or open TCP service. Inactive addresses are counted separately and listed later.",
        devices,
    }
}

// ---------------------------------------------------------------------------
// Summary
// ---------------------------------------------------------------------------

/// The overall verdict of a scan.
#[derive(Clone, Copy, PartialEq, Eq, Structural, Debug)]
pub enum Overall {
    Warnings,
    Review,
    Clear,
}

impl Overall {
    pub open spec fn text(self) -> Seq<char> {
        match self {
            Overall::Warnings => "warnings"@,
            Overall::Review => "review"@,
            Overall::Clear => "clear"@,
        }
    }

    /// The label used in reports.
    pub fn as_str(&self) -> (s: &'static str)
        ensures
            s@ == self.text(),
    {
        match self {
            Overall::Warnings => "warnings",
            Overall::Review => "review",
            Overall::Clear => "clear",
        }
    }
}

/// Warnings when a high-severity service is open, review when a medium one is, clear otherwise.
pub open spec fn overall_of(high_count: nat, medium_count: nat) -> Overall {
    if high_count > 0 {
        Overall::Warnings
    } else if medium_count > 0 {
        Overall::Review
    } else {
        Overall::Clear
    }
}

/// The totals of a scan.
pub struct SummaryReport {
    pub overall: Overall,
    pub active_hosts: usize,
    pub inactive_or_unobserved_hosts: usize,
    pub hosts_with_open_services: usize,
    pub observed_hosts: usize,
    pub open_service_count: usize,
    pub high_count: usize,
    pub medium_count: usize,
}

/// The number of open services over all scans.
pub open spec fn total_services(scans: Seq<HostScan>) -> nat
    decreases scans.len(),
{
    if scans.len() == 0 {
        0
    } else {
        total_services(scans.drop_last()) + scans.last().services@.len()
    }
}

/// The number of open services of severity `sev` over all scans.
pub open spec fn total_severity(scans: Seq<HostScan>, sev: Severity) -> nat
    decreases scans.len(),
{
    if scans.len() == 0 {
        0
    } else {
        total_severity(scans.drop_last(), sev) + severity_count(scans.last().services@, sev)
    }
}

/// The number of scans with at least one open service.
pub open spec fn scans_with_services(scans: Seq<HostScan>) -> nat
    decreases scans.len(),
{
    if scans.len() == 0 {
        0
    } else {
        scans_with_services(scans.drop_last()) + if scans.last().services@.len() > 0 {
            1nat
        } else {
            0nat
        }
    }
}

proof fn lemma_severity_count_bound(s: Seq<ServiceFinding>, sev: Severity)
    ensures
        severity_count(s, sev) <= s.len(),
    decreases s.len(),
{
    if s.len() > 0 {
        lemma_severity_count_bound(s.drop_last(), sev);
    }
}

proof fn lemma_total_severity_bound(scans: Seq<HostScan>, sev: Severity)
    ensures
        total_severity(scans, sev) <= total_services(scans),
    decreases scans.len(),
{
    if scans.len() > 0 {
        lemma_total_severity_bound(scans.drop_last(), sev);
        lemma_severity_count_bound(scans.last().services@, sev);
    }
}

proof fn lemma_total_services_prefix(scans: Seq<HostScan>, i: int)
    requires
        0 <= i <= scans.len(),
    ensures
        total_services(scans.take(i)) <= total_services(scans),
    decreases scans.len(),
{
    if i < scans.len() {
        assert(scans.drop_last().take(i) =~= scans.take(i));
        lemma_total_services_prefix(scans.drop_last(), i);
    } else {
        assert(scans.take(i) =~= scans);
    }
}

/// An address is listed in the ARP cache, as a target, exactly when some entry names it.
pub proof fn lemma_arp_seen(arp: Seq<ArpHost>, targets: Seq<u32>, ip: u32)
    ensures
        (first_with_ip(arp, targets, ip) is Some) <==> (targets.contains(ip) && exists|j: int|
            0 <= j < arp.len() && (#[trigger] arp[j]).ip == ip),
    decreases arp.len(),
{
    if arp.len() > 0 {
        lemma_arp_seen(arp.drop_first(), targets, ip);
        if targets.contains(ip) && exists|j: int| 0 <= j < arp.len() && (#[trigger] arp[j]).ip == ip {
            let j = choose|j: int| 0 <= j < arp.len() && (#[trigger] arp[j]).ip == ip;
            if j > 0 {
                assert(arp.drop_first()[j - 1].ip == ip);
            }
        }
        if exists|j: int| 0 <= j < arp.len() - 1 && (#[trigger] arp.drop_first()[j]).ip == ip {
            let j = choose|j: int| 0 <= j < arp.len() - 1 && (#[trigger] arp.drop_first()[j]).ip == ip;
            assert(arp[j + 1].ip == ip);
        }
    }
}

/// The totals of a scan of the target addresses: active hosts are those
/// reported as hosts, the rest of the targets count as inactive.
pub fn summary_report(scans: &Vec<HostScan>, arp_hosts: &Vec<ArpHost>, target_hosts: &Vec<u32>) -> (s: SummaryReport)
    requires
        total_services(scans@) <= usize::MAX,
    ensures
        s.active_hosts == observed_indices(scans@, arp_hosts@, target_hosts@, scans@.len() as int).len(),
        s.inactive_or_unobserved_hosts == if target_hosts@.len() >= s.active_hosts {
            target_hosts@.len() - s.active_hosts
        } else {
            0
        },
        scans@.len() == target_hosts@.len() ==> s.inactive_or_unobserved_hosts == unobserved_texts(
            scans@,
            arp_hosts@,
            target_hosts@,
            scans@.len() as int,
        ).len(),
        s.hosts_with_open_services == scans_with_services(scans@),
        s.observed_hosts == count_in_target(arp_hosts@, target_hosts@),
        s.open_service_count == total_services(scans@),
        s.high_count == total_severity(scans@, Severity::High),
        s.medium_count == total_severity(scans@, Severity::Medium),
        s.overall == overall_of(s.high_count as nat, s.medium_count as nat),
{
    let map = arp_host_map(arp_hosts, target_hosts);
    let mut open: usize = 0;
    let mut high: usize = 0;
    let mut medium: usize = 0;
    let mut with_services: usize = 0;
    let mut active: usize = 0;
    for i in 0..scans.len()
        invariant
            total_services(scans@) <= usize::MAX,
            forall|ip: u32| #[trigger] map@.contains_key(ip) <==> first_with_ip(arp_hosts@, target_hosts@, ip) is Some,
            open == total_services(scans@.take(i as int)),
            high == total_severity(scans@.take(i as int), Severity::High),
            medium == total_severity(scans@.take(i as int), Severity::Medium),
            with_services == scans_with_services(scans@.take(i as int)),
            with_services <= i,
            active == observed_indices(scans@, arp_hosts@, target_hosts@, i as int).len(),
            active <= i,
    {
        let scan = &scans[i];
        assert(scans@.take(i + 1).drop_last() =~= scans@.take(i as int));
        proof {
            lemma_total_services_prefix(scans@, i + 1);
            lemma_total_severity_bound(scans@.take(i + 1), Severity::High);
            lemma_total_severity_bound(scans@.take(i + 1), Severity::Medium);
        }
        open = open + scan.services.len();
        high = high + count_severity(&scan.services, Severity::High);
        medium = medium + count_severity(&scan.services, Severity::Medium);
        if scan.services.len() > 0 {
            with_services += 1;
        }
        if scan.ping_reachable || map.contains_key(&scan.ip) || scan.services.len() > 0 {
            active += 1;
        }
    }
    assert(scans@.take(scans.len() as int) =~= scans@);
    proof {
        lemma_hosts_partition(scans@, arp_hosts@, target_hosts@, scans@.len() as int);
    }
    let overall = if high > 0 {
        Overall::Warnings
    } else if medium > 0 {
        Overall::Review
    } else {
        Overall::Clear
    };
    SummaryReport {
        overall,
        active_hosts: active,
        inactive_or_unobserved_hosts: target_hosts.len().saturating_sub(active),
        hosts_with_open_services: with_services,
        observed_hosts: count_arp_hosts_in_target(arp_hosts, target_hosts),
        open_service_count: open,
        high_count: high,
        medium_count: medium,
    }
}

/// The number of TCP connections a scan plans: hosts times ports, saturating
/// at the largest `usize`.
pub fn planned_attempts(host_count: usize, port_count: usize) -> (r: usize)
    ensures
        r == saturating_product(host_count as nat, port_count as nat),
{
    match host_count.checked_mul(port_count) {
        Some(p) => p,
        None => usize::MAX,
    }
}

/// What the scan never does.
pub struct SafetyReport {
    pub exploit_checks: bool,
    pub credential_attempts: bool,
    pub bruteforce: bool,
    pub persistence: bool,
    pub packet_capture: bool,
}

/// The safety statement of every report: no exploit checks, no credential
/// attempts, no brute force, no persistence, no packet capture.
pub fn safety_report() -> (r: SafetyReport)
    ensures
        !r.exploit_checks && !r.credential_attempts && !r.bruteforce && !r.persistence && !r.packet_capture,
{
    SafetyReport {
        exploit_checks: false,
        credential_attempts: false,
        bruteforce: false,
        persistence: false,
        packet_capture: false,
    }
}

// ---------------------------------------------------------------------------
// Devices seen in the ARP cache
// ---------------------------------------------------------------------------

/// A device seen in the local ARP cache, whether or not it exposed a service.
pub struct ObservedHostReport {
    pub ip: String,
    pub is_local_machine: bool,
    pub mac: String,
    pub mac_type: MacType,
    pub vendor_hint: Vendor,
    pub name_hint: Option<String>,
    pub ping_reachable: bool,
    pub ttl: Option<u8>,
    pub os_guess: OsGuess,
    pub source: &'static str,
    pub note: &'static str,
}

/// The entries whose address is a target, in order.
pub open spec fn entries_in_target(arp: Seq<ArpHost>, targets: Seq<u32>) -> Seq<(u32, Seq<char>)>
    decreases arp.len(),
{
    if arp.len() == 0 {
        Seq::empty()
    } else {
        let prev = entries_in_target(arp.drop_last(), targets);
        if targets.contains(arp.last().ip) {
            prev.push(arp.last()@)
        } else {
            prev
        }
    }
}

/// The ARP entries whose address is one of the targets, in order.
pub fn arp_hosts_in_target(arp_hosts: &Vec<ArpHost>, target_hosts: &Vec<u32>) -> (r: Vec<ArpHost>)
    ensures
        r@.map_values(|h: ArpHost| h@) == entries_in_target(arp_hosts@, target_hosts@),
{
    let mut r: Vec<ArpHost> = Vec::new();
    for i in 0..arp_hosts.len()
        invariant
            r@.map_values(|h: ArpHost| h@) == entries_in_target(arp_hosts@.take(i as int), target_hosts@),
    {
        assert(arp_hosts@.take(i + 1).drop_last() =~= arp_hosts@.take(i as int));
        let ghost before = r@;
        if ipv4_in_target(arp_hosts[i].ip, target_hosts) {
            let h = arp_hosts[i].duplicate();
            r.push(h);
            assert(r@ =~= before.push(h));
            assert(r@.map_values(|h: ArpHost| h@) =~= before.map_values(|h: ArpHost| h@).push(h@));
        }
    }
    assert(arp_hosts@.take(arp_hosts.len() as int) =~= arp_hosts@);
    r
}

pub open spec fn observed_note() -> Seq<char> {
    "Observed in local ARP cache; device may expose no tested TCP services. Vendor and OS guesses are best-effort."@
}

/// The row for a device seen in the ARP cache, given what pinging it and
/// looking up its name found.
pub fn observed_host_report(
    host: &ArpHost,
    ping: &PingResult,
    name: Option<String>,
    local_ip: Option<u32>,
) -> (r: ObservedHostReport)
    ensures
        r.ip@ == ipv4_text(host.ip),
        r.is_local_machine == (local_ip == Some(host.ip)),
        r.mac@ == host.mac@,
        r.mac_type == mac_type_of(host.mac@),
        r.vendor_hint == vendor_of_mac(host.mac@),
        r.name_hint == name,
        r.ping_reachable == ping.reachable,
        r.ttl == ping.ttl,
        r.os_guess == ping.os_guess,
        r.source@ == "arp_cache"@,
        r.note@ == observed_note(),
{
    ObservedHostReport {
        ip: ipv4_string(host.ip),
        is_local_machine: match local_ip {
            Some(ip) => ip == host.ip,
            None => false,
        },
        mac: host.mac.clone(),
        mac_type: mac_type(host.mac.as_str()),
        vendor_hint: vendor_hint(host.mac.as_str()),
        name_hint: name,
        ping_reachable: ping.reachable,
        ttl: ping.ttl,
        os_guess: ping.os_guess,
        source: "arp_cache",
        note: "Observed in local ARP cache; device may expose no tested TCP services. Vendor and OS guesses are best-effort.",
    }
}

// ---------------------------------------------------------------------------
// Progress line
// ---------------------------------------------------------------------------

/// `a * b`, saturating at the largest `usize`.
pub open spec fn saturating_product(a: nat, b: nat) -> nat {
    if a * b > usize::MAX {
        usize::MAX as nat
    } else {
        a * b
    }
}

/// `completed` out of `total` on a scale of `width`: the saturated product
/// divided by `total`, at most `width`; `width` when `total` is zero.
pub open spec fn scaled(completed: nat, total: nat, width: nat) -> nat {
    if total == 0 {
        width
    } else {
        let q = saturating_product(completed, width) / total;
        if q > width {
            width
        } else {
            q
        }
    }
}

/// `n` copies of `c`.
pub open spec fn repeat(c: char, n: nat) -> Seq<char> {
    Seq::new(n, |i: int| c)
}

/// `s` right-aligned in a field of three characters.
pub open spec fn right3(s: Seq<char>) -> Seq<char> {
    if s.len() < 3 {
        repeat(' ', (3 - s.len()) as nat) + s
    } else {
        s
    }
}

/// The progress line: a bar of thirty cells, the percentage, the counts and
/// the elapsed seconds, starting with a carriage return.
pub open spec fn progress_text(completed: nat, total: nat, active: nat, open: nat, elapsed: nat) -> Seq<char> {
    let filled = scaled(completed, total, 30);
    "\r["@ + repeat('#', filled) + repeat('-', (30 - filled) as nat) + "] "@ + right3(
        decimal(scaled(completed, total, 100)),
    ) + "% "@ + decimal(completed) + "/"@ + decimal(total) + " hosts active="@ + decimal(active)
        + " open_services="@ + decimal(open) + " elapsed="@ + decimal(elapsed) + "s"@
}

fn scale(completed: usize, total: usize, width: usize) -> (r: usize)
    requires
        width > 0,
    ensures
        r == scaled(completed as nat, total as nat, width as nat),
{
    let product = match completed.checked_mul(width) {
        Some(p) => p,
        None => usize::MAX,
    };
    let q = if total == 0 {
        width
    } else {
        product / total
    };
    if q < width {
        q
    } else {
        width
    }
}

fn push_repeat(out: &mut Vec<char>, c: char, n: usize)
    ensures
        final(out)@ == old(out)@ + repeat(c, n as nat),
{
    let ghost start = out@;
    for i in 0..n
        invariant
            out@ == start + repeat(c, i as nat),
    {
        out.push(c);
        assert(out@ =~= start + repeat(c, (i + 1) as nat));
    }
}

/// The progress line printed while hosts are scanned.
pub fn progress_line(completed: usize, total: usize, active_hosts: usize, open_services: usize, elapsed_secs: u64) -> (line: String)
    ensures
        line@ == progress_text(completed as nat, total as nat, active_hosts as nat, open_services as nat, elapsed_secs as nat),
{
    let filled = scale(completed, total, 30);
    let percent = scale(completed, total, 100);
    let mut v = chars_of("\r[");
    push_repeat(&mut v, '#', filled);
    push_repeat(&mut v, '-', 30 - filled);
    push_str(&mut v, "] ");
    let mut digits: Vec<char> = Vec::new();
    push_decimal(&mut digits, percent as u64);
    if digits.len() < 3 {
        push_repeat(&mut v, ' ', 3 - digits.len());
    }
    let ghost before = v@;
    for i in 0..digits.len()
        invariant
            v@ == before + digits@.take(i as int),
    {
        v.push(digits[i]);
        assert(v@ =~= before + digits@.take(i + 1));
    }
    assert(digits@.take(digits.len() as int) =~= digits@);
    push_str(&mut v, "% ");
    push_decimal(&mut v, completed as u64);
    push_str(&mut v, "/");
    push_decimal(&mut v, total as u64);
    push_str(&mut v, " hosts active=");
    push_decimal(&mut v, active_hosts as u64);
    push_str(&mut v, " open_services=");
    push_decimal(&mut v, open_services as u64);
    push_str(&mut v, " elapsed=");
    push_decimal(&mut v, elapsed_secs);
    push_str(&mut v, "s");
    string_of(&v)
}

} // verus!
