//! What the scan results say about each device: operating-system hints,
//! likely role, exposure, and the security review context.
use vstd::prelude::*;
use crate::text::{
    append_chars, chars_of, contains, contains_chars, copy_chars, join, join_chars, lower,
    push_str, string_of, to_lower, trim_end, trim_end_chars, views, CharClass,
    ends_with, ends_with_chars, copy_range, text_is, has_text,
};
use crate::numbers::{decimal, decimal_chars, ipv4_chars, ipv4_text, push_decimal};
use crate::services::{
    category_of, evidence_of, remediation_of, service_name_of, severity_of, Evidence,
    ServiceCategory, Severity, evidence_for_port, remediation_hint, service_category,
    service_name, severity_for_port, security_tag_for_port, security_tag_of, SecurityTag, http_probe_port,
};
use crate::probe::{opt_view, copy_opt_string, HttpDetails, HttpDetailsView, OsGuess, PingResult, ttl_guess, os_guess_from_ttl};
use crate::mac::{mac_type, mac_type_of, vendor_hint, vendor_of_mac, ArpHost, MacType, Vendor};

verus! {

// ---------------------------------------------------------------------------
// Findings and host scans
// ---------------------------------------------------------------------------

/// An open TCP port and what was learned about it.
pub struct ServiceFinding {
    pub port: u16,
    pub service: &'static str,
    pub state: &'static str,
    pub category: ServiceCategory,
    pub severity: Severity,
    pub banner: Option<String>,
    pub http_details: Option<HttpDetails>,
    pub remediation: &'static str,
    pub evidence: Vec<Evidence>,
}

/// The contents of a [`ServiceFinding`] as plain values.
pub struct FindingView {
    pub port: u16,
    pub service: Seq<char>,
    pub state: Seq<char>,
    pub category: ServiceCategory,
    pub severity: Severity,
    pub banner: Option<Seq<char>>,
    pub http_details: Option<HttpDetailsView>,
    pub remediation: Seq<char>,
    pub evidence: Seq<Evidence>,
}

pub open spec fn opt_details_view(d: Option<HttpDetails>) -> Option<HttpDetailsView> {
    match d {
        Some(x) => Some(x@),
        None => None,
    }
}

impl View for ServiceFinding {
    type V = FindingView;

    open spec fn view(&self) -> FindingView {
        FindingView {
            port: self.port,
            service: self.service@,
            state: self.state@,
            category: self.category,
            severity: self.severity,
            banner: opt_view(self.banner),
            http_details: opt_details_view(self.http_details),
            remediation: self.remediation@,
            evidence: self.evidence@,
        }
    }
}

fn copy_evidence(e: &Vec<Evidence>) -> (r: Vec<Evidence>)
    ensures
        r@ == e@,
{
    let mut r: Vec<Evidence> = Vec::new();
    for i in 0..e.len()
        invariant
            r@ == e@.take(i as int),
    {
        r.push(e[i]);
        assert(r@ =~= e@.take(i + 1));
    }
    assert(e@.take(e.len() as int) =~= e@);
    r
}

impl ServiceFinding {
    /// A copy of this finding.
    pub fn duplicate(&self) -> (r: ServiceFinding)
        ensures
            r@ == self@,
    {
        ServiceFinding {
            port: self.port,
            service: self.service,
            state: self.state,
            category: self.category,
            severity: self.severity,
            banner: copy_opt_string(&self.banner),
            http_details: match &self.http_details {
                Some(d) => Some(d.duplicate()),
                None => None,
            },
            remediation: self.remediation,
            evidence: copy_evidence(&self.evidence),
        }
    }
}

/// The views of a sequence of findings.
pub open spec fn finding_views(s: Seq<ServiceFinding>) -> Seq<FindingView> {
    s.map_values(|f: ServiceFinding| f@)
}

/// The finding for an open port: the port's service, category, severity,
/// remediation and evidence; the HTTP details if a `HEAD` request answered,
/// and as banner their summary, or else the banner read by other means.
pub open spec fn finding_for(port: u16, http: Option<HttpDetailsView>, other_banner: Option<Seq<char>>) -> FindingView {
    FindingView {
        port,
        service: service_name_of(port),
        state: "open"@,
        category: category_of(port),
        severity: severity_of(port),
        banner: match http {
            Some(d) => d.raw_summary,
            None => other_banner,
        },
        http_details: http,
        remediation: remediation_of(port),
        evidence: evidence_of(port),
    }
}

/// The finding for an open port, from what its probes returned. HTTP details
/// come only from a port that takes the HTTP probe.
pub fn service_finding(port: u16, http_details: Option<HttpDetails>, other_banner: Option<String>) -> (f: ServiceFinding)
    requires
        http_details is Some ==> http_probe_port(port),
    ensures
        f@ == finding_for(port, opt_details_view(http_details), opt_view(other_banner)),
        f.http_details is Some ==> http_probe_port(port),
{
    let banner = match &http_details {
        Some(details) => copy_opt_string(&details.raw_summary),
        None => other_banner,
    };
    ServiceFinding {
        port,
        service: service_name(port),
        state: "open",
        category: service_category(port),
        severity: severity_for_port(port),
        banner,
        http_details,
        remediation: remediation_hint(port),
        evidence: evidence_for_port(port),
    }
}

/// What probing one host found.
pub struct HostScan {
    pub ip: u32,
    pub ping_reachable: bool,
    pub ttl: Option<u8>,
    pub os_guess: OsGuess,
    pub services: Vec<ServiceFinding>,
}

/// The scan of `ip`: what ping found and the open services, in port order.
pub fn host_scan(ip: u32, ping: &PingResult, services: Vec<ServiceFinding>) -> (s: HostScan)
    ensures
        s.ip == ip,
        s.ping_reachable == ping.reachable,
        s.ttl == ping.ttl,
        s.os_guess == ping.os_guess,
        s.services == services,
{
    HostScan { ip, ping_reachable: ping.reachable, ttl: ping.ttl, os_guess: ping.os_guess, services }
}

/// The host answered ping or has an open service.
pub open spec fn scan_active(scan: HostScan) -> bool {
    scan.ping_reachable || scan.services@.len() > 0
}

/// Whether the scan shows the host as active (for progress counting).
pub fn host_is_active(scan: &HostScan) -> (r: bool)
    ensures
        r == scan_active(*scan),
{
    scan.ping_reachable || scan.services.len() > 0
}

// ---------------------------------------------------------------------------
// Operating-system hints
// ---------------------------------------------------------------------------

/// How sure a hint is.
#[derive(Clone, Copy, PartialEq, Eq, Structural, Debug)]
pub enum Confidence {
    High,
    Medium,
    Low,
    Absent,
}

impl Confidence {
    pub open spec fn text(self) -> Seq<char> {
        match self {
            Confidence::High => "high"@,
            Confidence::Medium => "medium"@,
            Confidence::Low => "low"@,
            Confidence::Absent => "none"@,
        }
    }

    /// The confidence label.
    pub fn as_str(&self) -> (s: &'static str)
        ensures
            s@ == self.text(),
    {
        match self {
            Confidence::High => "high",
            Confidence::Medium => "medium",
            Confidence::Low => "low",
            Confidence::Absent => "none",
        }
    }
}

/// Where a hint came from.
#[derive(Clone, Copy, PartialEq, Eq, Structural, Debug)]
pub enum HintSource {
    PingTtl,
    MacVendor,
    MacType,
    NameHint,
    OpenTcpPort,
}

impl HintSource {
    pub open spec fn text(self) -> Seq<char> {
        match self {
            HintSource::PingTtl => "icmp_ttl"@,
            HintSource::MacVendor => "mac_vendor"@,
            HintSource::MacType => "mac_type"@,
            HintSource::NameHint => "name_hint"@,
            HintSource::OpenTcpPort => "open_tcp_port"@,
        }
    }

    /// The source label.
    pub fn as_str(&self) -> (s: &'static str)
        ensures
            s@ == self.text(),
    {
        match self {
            HintSource::PingTtl => "icmp_ttl",
            HintSource::MacVendor => "mac_vendor",
            HintSource::MacType => "mac_type",
            HintSource::NameHint => "name_hint",
            HintSource::OpenTcpPort => "open_tcp_port",
        }
    }
}

/// A guess about a device's operating system or kind.
pub struct OsHint {
    pub guess: OsGuess,
    pub confidence: Confidence,
    pub source: HintSource,
    pub evidence: String,
}

pub type HintView = (OsGuess, Confidence, HintSource, Seq<char>);

impl View for OsHint {
    type V = HintView;

    open spec fn view(&self) -> HintView {
        (self.guess, self.confidence, self.source, self.evidence@)
    }
}

pub open spec fn hint_views(s: Seq<OsHint>) -> Seq<HintView> {
    s.map_values(|h: OsHint| h@)
}

/// A hint with the same guess and source is already listed.
pub open spec fn has_hint(hints: Seq<HintView>, guess: OsGuess, source: HintSource) -> bool {
    exists|i: int| 0 <= i < hints.len() && (#[trigger] hints[i]).0 == guess && hints[i].2 == source
}

/// `h` added unless a hint with its guess and source is already listed.
pub open spec fn add_hint(hints: Seq<HintView>, h: HintView) -> Seq<HintView> {
    if has_hint(hints, h.0, h.2) {
        hints
    } else {
        hints.push(h)
    }
}

/// The candidates added in order, each unless its guess and source are already listed.
pub open spec fn add_hints(hints: Seq<HintView>, cands: Seq<HintView>) -> Seq<HintView>
    decreases cands.len(),
{
    if cands.len() == 0 {
        hints
    } else {
        add_hint(add_hints(hints, cands.drop_last()), cands.last())
    }
}

/// Adds a hint unless one with the same guess and source is already listed.
pub fn push_os_hint(
    hints: &mut Vec<OsHint>,
    guess: OsGuess,
    confidence: Confidence,
    source: HintSource,
    evidence: String,
)
    ensures
        hint_views(final(hints)@) == add_hint(
            hint_views(old(hints)@),
            (guess, confidence, source, evidence@),
        ),
{
    let ghost before = hint_views(hints@);
    let mut i: usize = 0;
    while i < hints.len()
        invariant
            i <= hints.len(),
            before == hint_views(hints@),
            forall|j: int| 0 <= j < i ==> !((#[trigger] before[j]).0 == guess && before[j].2 == source),
        decreases hints.len() - i,
    {
        if hints[i].guess == guess && hints[i].source == source {
            assert(before[i as int].0 == guess && before[i as int].2 == source);
            return;
        }
        i += 1;
    }
    hints.push(OsHint { guess, confidence, source, evidence });
    assert(hint_views(hints@) =~= before.push((guess, confidence, source, evidence@)));
}

/// No two hints share both guess and source.
pub open spec fn hints_distinct(hints: Seq<HintView>) -> bool {
    forall|i: int, j: int|
        0 <= i < j < hints.len() ==> !((#[trigger] hints[i]).0 == (#[trigger] hints[j]).0
            && hints[i].2 == hints[j].2)
}

/// Adding hints this way never lists a guess twice from the same source.
pub proof fn lemma_add_hints_distinct(hints: Seq<HintView>, cands: Seq<HintView>)
    requires
        hints_distinct(hints),
    ensures
        hints_distinct(add_hints(hints, cands)),
    decreases cands.len(),
{
    if cands.len() > 0 {
        lemma_add_hints_distinct(hints, cands.drop_last());
        let prev = add_hints(hints, cands.drop_last());
        let h = cands.last();
        if !has_hint(prev, h.0, h.2) {
            let next = prev.push(h);
            assert forall|i: int, j: int| 0 <= i < j < next.len() implies !((#[trigger] next[i]).0
                == (#[trigger] next[j]).0 && next[i].2 == next[j].2) by {
                if j == next.len() - 1 {
                    if next[i].0 == next[j].0 && next[i].2 == next[j].2 {
                        assert(prev[i].0 == h.0 && prev[i].2 == h.2);
                    }
                } else {
                    assert(next[i] == prev[i] && next[j] == prev[j]);
                }
            }
        }
    }
}

/// Every candidate's guess and source ends up listed.
pub proof fn lemma_add_hints_covers(hints: Seq<HintView>, cands: Seq<HintView>, k: int)
    requires
        0 <= k < cands.len(),
    ensures
        has_hint(add_hints(hints, cands), cands[k].0, cands[k].2),
    decreases cands.len(),
{
    let prev = add_hints(hints, cands.drop_last());
    if k < cands.len() - 1 {
        lemma_add_hints_covers(hints, cands.drop_last(), k);
        let i = choose|i: int| 0 <= i < prev.len() && (#[trigger] prev[i]).0 == cands[k].0 && prev[i].2 == cands[k].2;
        let next = add_hint(prev, cands.last());
        assert(next[i] == prev[i]);
    } else {
        let next = add_hint(prev, cands.last());
        if !has_hint(prev, cands[k].0, cands[k].2) {
            assert(next[prev.len() as int] == cands[k]);
        }
    }
}

/// The name fragments that hint at a device kind, in the order they are tried.
pub open spec fn name_rules() -> Seq<(Seq<char>, OsGuess)> {
    seq![
        ("iphone"@, OsGuess::IosOrIpadosPossible),
        ("ipad"@, OsGuess::IosOrIpadosPossible),
        ("android"@, OsGuess::AndroidPossible),
        ("pixel"@, OsGuess::AndroidPossible),
        ("galaxy"@, OsGuess::AndroidPossible),
        ("roku"@, OsGuess::RokuOsPossible),
        ("chromecast"@, OsGuess::AndroidTvOrChromecastPossible),
        ("google-tv"@, OsGuess::AndroidTvOrChromecastPossible),
        ("firetv"@, OsGuess::FireTvAndroidPossible),
        ("apple-tv"@, OsGuess::TvosPossible),
        ("samsung"@, OsGuess::SmartTvOrSamsungDevicePossible),
        ("bravia"@, OsGuess::AndroidTvOrSonyTvPossible),
        ("lgwebostv"@, OsGuess::LgWebosTvPossible),
        ("windows"@, OsGuess::WindowsPossible),
        ("win-"@, OsGuess::WindowsPossible),
        ("macbook"@, OsGuess::MacosPossible),
        ("imac"@, OsGuess::MacosPossible),
    ]
}

/// The hints a device name gives: one per rule whose fragment occurs in the
/// lowercased name, in rule order.
pub open spec fn name_hints(rules: Seq<(Seq<char>, OsGuess)>, name: Seq<char>) -> Seq<HintView>
    decreases rules.len(),
{
    if rules.len() == 0 {
        Seq::empty()
    } else {
        let r = rules.last();
        name_hints(rules.drop_last(), name) + if contains(lower(name), r.0) {
            seq![
                (
                    r.1,
                    Confidence::Medium,
                    HintSource::NameHint,
                    "Name hint contains '"@ + r.0 + "': "@ + name,
                ),
            ]
        } else {
            Seq::empty()
        }
    }
}

/// The hint an open port gives, if any.
pub open spec fn port_hint(port: u16) -> Option<HintView> {
    match port {
        5555 => Some(
            (
                OsGuess::AndroidPossible,
                Confidence::High,
                HintSource::OpenTcpPort,
                "Android Debug Bridge port 5555 is open"@,
            ),
        ),
        62078 => Some(
            (
                OsGuess::IosOrIpadosPossible,
                Confidence::High,
                HintSource::OpenTcpPort,
                "Apple lockdown service port 62078 is open"@,
            ),
        ),
        7000 | 7100 => Some(
            (
                OsGuess::AppleAirplayDevicePossible,
                Confidence::Medium,
                HintSource::OpenTcpPort,
                "AirPlay-related port "@ + decimal(port as nat) + " is open"@,
            ),
        ),
        8008 | 8009 | 8443 => Some(
            (
                OsGuess::ChromecastAndroidTvOrEmbeddedWebServicePossible,
                Confidence::Low,
                HintSource::OpenTcpPort,
                "Common cast/admin port "@ + decimal(port as nat) + " is open"@,
            ),
        ),
        8060 => Some(
            (
                OsGuess::RokuOsPossible,
                Confidence::High,
                HintSource::OpenTcpPort,
                "Roku ECP port 8060 is open"@,
            ),
        ),
        135 | 139 | 445 | 3389 | 5985 | 5986 | 5357 => Some(
            (
                OsGuess::WindowsPossible,
                Confidence::Medium,
                HintSource::OpenTcpPort,
                "Windows-associated port "@ + decimal(port as nat) + " is open"@,
            ),
        ),
        548 => Some(
            (
                OsGuess::MacosOrAppleFileSharingPossible,
                Confidence::Medium,
                HintSource::OpenTcpPort,
                "Apple Filing Protocol port 548 is open"@,
            ),
        ),
        9100 | 515 | 631 => Some(
            (
                OsGuess::PrinterOrMultifunctionDevicePossible,
                Confidence::Medium,
                HintSource::OpenTcpPort,
                "Printer-associated port "@ + decimal(port as nat) + " is open"@,
            ),
        ),
        _ => None,
    }
}

/// The hints the open services give, in service order.
pub open spec fn port_hints(services: Seq<ServiceFinding>) -> Seq<HintView>
    decreases services.len(),
{
    if services.len() == 0 {
        Seq::empty()
    } else {
        port_hints(services.drop_last()) + match port_hint(services.last().port) {
            Some(h) => seq![h],
            None => Seq::empty(),
        }
    }
}

/// The hint the ping TTL gives.
pub open spec fn ttl_hints(ttl: Option<u8>) -> Seq<HintView> {
    match ttl {
        Some(t) => if ttl_guess(Some(t)) != OsGuess::Unknown {
            seq![
                (
                    ttl_guess(Some(t)),
                    Confidence::Low,
                    HintSource::PingTtl,
                    "Observed ping TTL "@ + decimal(t as nat),
                ),
            ]
        } else {
            Seq::empty()
        },
        None => Seq::empty(),
    }
}

/// The hints the MAC address gives.
pub open spec fn mac_hints(mac: Option<Seq<char>>) -> Seq<HintView> {
    match mac {
        Some(m) => (if vendor_of_mac(m) == Vendor::Apple {
            seq![
                (
                    OsGuess::AppleDevicePossible,
                    Confidence::Medium,
                    HintSource::MacVendor,
                    "MAC vendor hint is Apple ("@ + m + ")"@,
                ),
            ]
        } else {
            Seq::empty()
        }) + (if mac_type_of(m) == MacType::LocallyAdministeredOrRandomized {
            seq![
                (
                    OsGuess::MobileOrPrivacyRandomizedMacPossible,
                    Confidence::Low,
                    HintSource::MacType,
                    "MAC appears locally administered/randomized ("@ + m + ")"@,
                ),
            ]
        } else {
            Seq::empty()
        }),
        None => Seq::empty(),
    }
}

/// Every hint the evidence gives, in order: ping TTL, MAC address, name, open ports.
pub open spec fn hint_candidates(scan: HostScan, mac: Option<Seq<char>>, name: Option<Seq<char>>) -> Seq<HintView> {
    ttl_hints(scan.ttl) + mac_hints(mac) + match name {
        Some(n) => name_hints(name_rules(), n),
        None => Seq::empty(),
    } + port_hints(scan.services@)
}

/// The hints for a host: the candidates, each guess listed once per source.
pub open spec fn os_hints_of(scan: HostScan, mac: Option<Seq<char>>, name: Option<Seq<char>>) -> Seq<HintView> {
    add_hints(Seq::empty(), hint_candidates(scan, mac, name))
}

pub open spec fn arp_mac(arp: Option<&ArpHost>) -> Option<Seq<char>> {
    match arp {
        Some(h) => Some(h.mac@),
        None => None,
    }
}

pub open spec fn opt_str_view(name: Option<&str>) -> Option<Seq<char>> {
    match name {
        Some(n) => Some(n@),
        None => None,
    }
}

fn text_vec(parts: &Vec<char>) -> (r: String)
    ensures
        r@ == parts@,
{
    string_of(parts)
}

/// Adding two runs of candidates is adding their concatenation.
pub proof fn lemma_add_hints_append(hints: Seq<HintView>, a: Seq<HintView>, b: Seq<HintView>)
    ensures
        add_hints(add_hints(hints, a), b) == add_hints(hints, a + b),
    decreases b.len(),
{
    if b.len() == 0 {
        assert(a + b =~= a);
    } else {
        lemma_add_hints_append(hints, a, b.drop_last());
        assert((a + b).drop_last() =~= a + b.drop_last());
        assert((a + b).last() == b.last());
    }
}

proof fn lemma_add_one(hints: Seq<HintView>, h: HintView)
    ensures
        add_hints(hints, seq![h]) == add_hint(hints, h),
{
    assert(seq![h].drop_last() =~= Seq::<HintView>::empty());
    assert(add_hints(hints, Seq::<HintView>::empty()) == hints);
    assert(seq![h].last() == h);
    assert(add_hints(hints, seq![h]) == add_hint(add_hints(hints, seq![h].drop_last()), seq![h].last()));
}

fn push_candidate(out: &mut Vec<OsHint>, h: OsHint)
    ensures
        hint_views(final(out)@) == add_hints(hint_views(old(out)@), seq![h@]),
{
    proof {
        lemma_add_one(hint_views(out@), h@);
    }
    push_os_hint(out, h.guess, h.confidence, h.source, h.evidence);
}

fn ttl_candidates(ttl: Option<u8>, out: &mut Vec<OsHint>)
    ensures
        hint_views(final(out)@) == add_hints(hint_views(old(out)@), ttl_hints(ttl)),
{
    let ghost before = hint_views(out@);
    match ttl {
        Some(t) => {
            let guess = os_guess_from_ttl(Some(t));
            if guess != OsGuess::Unknown {
                let mut e = chars_of("Observed ping TTL ");
                push_decimal(&mut e, t as u64);
                push_candidate(
                    out,
                    OsHint {
                        guess,
                        confidence: Confidence::Low,
                        source: HintSource::PingTtl,
                        evidence: text_vec(&e),
                    },
                );
            }
        },
        None => {},
    }
    assert(hint_views(out@) == add_hints(before, ttl_hints(ttl)));
}

fn mac_candidates(arp: Option<&ArpHost>, out: &mut Vec<OsHint>)
    ensures
        hint_views(final(out)@) == add_hints(hint_views(old(out)@), mac_hints(arp_mac(arp))),
{
    let ghost before = hint_views(out@);
    match arp {
        Some(host) => {
            let m = host.mac.as_str();
            let ghost part1: Seq<HintView> = if vendor_of_mac(m@) == Vendor::Apple {
                seq![
                    (
                        OsGuess::AppleDevicePossible,
                        Confidence::Medium,
                        HintSource::MacVendor,
                        "MAC vendor hint is Apple ("@ + m@ + ")"@,
                    ),
                ]
            } else {
                Seq::empty()
            };
            let ghost part2: Seq<HintView> = if mac_type_of(m@) == MacType::LocallyAdministeredOrRandomized {
                seq![
                    (
                        OsGuess::MobileOrPrivacyRandomizedMacPossible,
                        Confidence::Low,
                        HintSource::MacType,
                        "MAC appears locally administered/randomized ("@ + m@ + ")"@,
                    ),
                ]
            } else {
                Seq::empty()
            };
            if vendor_hint(m) == Vendor::Apple {
                let mut e = chars_of("MAC vendor hint is Apple (");
                push_str(&mut e, m);
                push_str(&mut e, ")");
                push_candidate(
                    out,
                    OsHint {
                        guess: OsGuess::AppleDevicePossible,
                        confidence: Confidence::Medium,
                        source: HintSource::MacVendor,
                        evidence: text_vec(&e),
                    },
                );
            }
            assert(hint_views(out@) == add_hints(before, part1));
            if mac_type(m) == MacType::LocallyAdministeredOrRandomized {
                let mut e = chars_of("MAC appears locally administered/randomized (");
                push_str(&mut e, m);
                push_str(&mut e, ")");
                push_candidate(
                    out,
                    OsHint {
                        guess: OsGuess::MobileOrPrivacyRandomizedMacPossible,
                        confidence: Confidence::Low,
                        source: HintSource::MacType,
                        evidence: text_vec(&e),
                    },
                );
            }
            assert(hint_views(out@) == add_hints(add_hints(before, part1), part2));
            proof {
                lemma_add_hints_append(before, part1, part2);
            }
        },
        None => {},
    }
}

fn name_rule_list() -> (r: Vec<(&'static str, OsGuess)>)
    ensures
        r@.map_values(|x: (&'static str, OsGuess)| (x.0@, x.1)) == name_rules(),
{
    let r: Vec<(&'static str, OsGuess)> = vec![
        ("iphone", OsGuess::IosOrIpadosPossible),
        ("ipad", OsGuess::IosOrIpadosPossible),
        ("android", OsGuess::AndroidPossible),
        ("pixel", OsGuess::AndroidPossible),
        ("galaxy", OsGuess::AndroidPossible),
        ("roku", OsGuess::RokuOsPossible),
        ("chromecast", OsGuess::AndroidTvOrChromecastPossible),
        ("google-tv", OsGuess::AndroidTvOrChromecastPossible),
        ("firetv", OsGuess::FireTvAndroidPossible),
        ("apple-tv", OsGuess::TvosPossible),
        ("samsung", OsGuess::SmartTvOrSamsungDevicePossible),
        ("bravia", OsGuess::AndroidTvOrSonyTvPossible),
        ("lgwebostv", OsGuess::LgWebosTvPossible),
        ("windows", OsGuess::WindowsPossible),
        ("win-", OsGuess::WindowsPossible),
        ("macbook", OsGuess::MacosPossible),
        ("imac", OsGuess::MacosPossible),
    ];
    assert(r@.map_values(|x: (&'static str, OsGuess)| (x.0@, x.1)) =~= name_rules());
    r
}

fn name_candidates(name: &str, out: &mut Vec<OsHint>)
    ensures
        hint_views(final(out)@) == add_hints(hint_views(old(out)@), name_hints(name_rules(), name@)),
{
    let ghost before = hint_views(out@);
    let rules = name_rule_list();
    let ghost rv = rules@.map_values(|x: (&'static str, OsGuess)| (x.0@, x.1));
    let l = to_lower(&chars_of(name));
    assert(rv.take(0) =~= Seq::<(Seq<char>, OsGuess)>::empty());
    for i in 0..rules.len()
        invariant
            rv == rules@.map_values(|x: (&'static str, OsGuess)| (x.0@, x.1)),
            rv == name_rules(),
            l@ == lower(name@),
            hint_views(out@) == add_hints(before, name_hints(rv.take(i as int), name@)),
    {
        let (needle, guess) = rules[i];
        assert(rv.take(i + 1).drop_last() =~= rv.take(i as int));
        assert(rv.take(i + 1).last() == (needle@, guess));
        let ghost extra: Seq<HintView> = if contains(lower(name@), needle@) {
            seq![
                (
                    guess,
                    Confidence::Medium,
                    HintSource::NameHint,
                    "Name hint contains '"@ + needle@ + "': "@ + name@,
                ),
            ]
        } else {
            Seq::empty()
        };
        let ghost mid = hint_views(out@);
        if contains_chars(&l, &chars_of(needle)) {
            let mut e = chars_of("Name hint contains '");
            push_str(&mut e, needle);
            push_str(&mut e, "': ");
            push_str(&mut e, name);
            push_candidate(
                out,
                OsHint {
                    guess,
                    confidence: Confidence::Medium,
                    source: HintSource::NameHint,
                    evidence: text_vec(&e),
                },
            );
        }
        assert(hint_views(out@) == add_hints(mid, extra));
        proof {
            lemma_add_hints_append(before, name_hints(rv.take(i as int), name@), extra);
        }
    }
    assert(rv.take(rules.len() as int) =~= rv);
}

fn port_candidate(port: u16) -> (r: Option<OsHint>)
    ensures
        match r {
            Some(h) => port_hint(port) == Some(h@),
            None => port_hint(port) is None,
        },
{
    let (guess, confidence, e) = match port {
        5555 => (OsGuess::AndroidPossible, Confidence::High, chars_of("Android Debug Bridge port 5555 is open")),
        62078 => (OsGuess::IosOrIpadosPossible, Confidence::High, chars_of("Apple lockdown service port 62078 is open")),
        7000 | 7100 => {
            let mut e = chars_of("AirPlay-related port ");
            push_decimal(&mut e, port as u64);
            push_str(&mut e, " is open");
            (OsGuess::AppleAirplayDevicePossible, Confidence::Medium, e)
        },
        8008 | 8009 | 8443 => {
            let mut e = chars_of("Common cast/admin port ");
            push_decimal(&mut e, port as u64);
            push_str(&mut e, " is open");
            (OsGuess::ChromecastAndroidTvOrEmbeddedWebServicePossible, Confidence::Low, e)
        },
        8060 => (OsGuess::RokuOsPossible, Confidence::High, chars_of("Roku ECP port 8060 is open")),
        135 | 139 | 445 | 3389 | 5985 | 5986 | 5357 => {
            let mut e = chars_of("Windows-associated port ");
            push_decimal(&mut e, port as u64);
            push_str(&mut e, " is open");
            (OsGuess::WindowsPossible, Confidence::Medium, e)
        },
        548 => (OsGuess::MacosOrAppleFileSharingPossible, Confidence::Medium, chars_of("Apple Filing Protocol port 548 is open")),
        9100 | 515 | 631 => {
            let mut e = chars_of("Printer-associated port ");
            push_decimal(&mut e, port as u64);
            push_str(&mut e, " is open");
            (OsGuess::PrinterOrMultifunctionDevicePossible, Confidence::Medium, e)
        },
        _ => {
            return None;
        },
    };
    Some(OsHint { guess, confidence, source: HintSource::OpenTcpPort, evidence: text_vec(&e) })
}

fn port_candidates(services: &Vec<ServiceFinding>, out: &mut Vec<OsHint>)
    ensures
        hint_views(final(out)@) == add_hints(hint_views(old(out)@), port_hints(services@)),
{
    let ghost before = hint_views(out@);
    assert(services@.take(0) =~= Seq::<ServiceFinding>::empty());
    for i in 0..services.len()
        invariant
            hint_views(out@) == add_hints(before, port_hints(services@.take(i as int))),
    {
        assert(services@.take(i + 1).drop_last() =~= services@.take(i as int));
        let ghost mid = hint_views(out@);
        let ghost extra: Seq<HintView> = match port_hint(services@[i as int].port) {
            Some(h) => seq![h],
            None => Seq::empty(),
        };
        match port_candidate(services[i].port) {
            Some(h) => {
                push_candidate(out, h);
            },
            None => {},
        }
        assert(hint_views(out@) == add_hints(mid, extra));
        proof {
            lemma_add_hints_append(before, port_hints(services@.take(i as int)), extra);
        }
    }
    assert(services@.take(services.len() as int) =~= services@);
}

/// The operating-system and device-kind hints for a host, from its ping TTL,
/// its ARP entry, its name and its open ports.
pub fn os_hints_for_host(scan: &HostScan, arp_host: Option<&ArpHost>, name: Option<&str>) -> (hints: Vec<OsHint>)
    ensures
        hint_views(hints@) == os_hints_of(*scan, arp_mac(arp_host), opt_str_view(name)),
{
    let mut hints: Vec<OsHint> = Vec::new();
    let ghost e = Seq::<HintView>::empty();
    let ghost a = ttl_hints(scan.ttl);
    let ghost b = mac_hints(arp_mac(arp_host));
    let ghost c = match opt_str_view(name) {
        Some(n) => name_hints(name_rules(), n),
        None => Seq::empty(),
    };
    let ghost d = port_hints(scan.services@);
    assert(hint_views(hints@) =~= e);
    ttl_candidates(scan.ttl, &mut hints);
    mac_candidates(arp_host, &mut hints);
    match name {
        Some(n) => name_candidates(n, &mut hints),
        None => {},
    }
    assert(hint_views(hints@) == add_hints(add_hints(add_hints(e, a), b), c));
    port_candidates(&scan.services, &mut hints);
    proof {
        lemma_add_hints_append(e, a, b);
        lemma_add_hints_append(e, a + b, c);
        lemma_add_hints_append(e, a + b + c, d);
    }
    hints
}

/// The confidence part of a hint's rank.
pub open spec fn confidence_score(c: Confidence) -> int {
    match c {
        Confidence::High => 30,
        Confidence::Medium => 20,
        Confidence::Low => 10,
        Confidence::Absent => 0,
    }
}

/// The specificity part of a hint's rank: named platforms over families over the rest.
pub open spec fn specificity_score(g: OsGuess) -> int {
    match g {
        OsGuess::IosOrIpadosPossible | OsGuess::AndroidPossible | OsGuess::WindowsPossible
        | OsGuess::MacosPossible | OsGuess::SmartTvOrSamsungDevicePossible
        | OsGuess::RokuOsPossible | OsGuess::LgWebosTvPossible
        | OsGuess::AndroidTvOrSonyTvPossible | OsGuess::TvosPossible => 3,
        OsGuess::AppleAirplayDevicePossible
        | OsGuess::ChromecastAndroidTvOrEmbeddedWebServicePossible
        | OsGuess::MobileOrPrivacyRandomizedMacPossible => 2,
        _ => 1,
    }
}

/// A hint's rank.
pub open spec fn hint_score(h: HintView) -> int {
    confidence_score(h.1) + specificity_score(h.0)
}

/// The order of confidences: high above medium above low above none.
pub open spec fn confidence_rank(c: Confidence) -> int {
    match c {
        Confidence::High => 3,
        Confidence::Medium => 2,
        Confidence::Low => 1,
        Confidence::Absent => 0,
    }
}

/// Confidence decides the rank: a hint of higher confidence outranks one of
/// lower confidence whatever the two guesses are. Confidence weighs 30, 20,
/// 10 or 0, and the guess adds from 1 to 3.
pub proof fn lemma_confidence_dominates(a: HintView, b: HintView)
    requires
        confidence_rank(a.1) > confidence_rank(b.1),
    ensures
        hint_score(a) > hint_score(b),
        hint_score(a) - hint_score(b) >= 7,
        1 <= specificity_score(a.0) <= 3,
        1 <= specificity_score(b.0) <= 3,
        hint_score(a) - specificity_score(a.0) == 10 * confidence_rank(a.1),
{
}

/// The chosen hint is of the highest confidence among all hints.
pub proof fn lemma_best_hint_most_confident(hints: Seq<HintView>, i: int)
    requires
        is_best_hint(hints, i),
    ensures
        forall|j: int| 0 <= j < hints.len() ==> confidence_rank(#[trigger] hints[j].1) <= confidence_rank(hints[i].1),
{
    assert forall|j: int| 0 <= j < hints.len() implies confidence_rank(#[trigger] hints[j].1) <= confidence_rank(hints[i].1) by {
        if confidence_rank(hints[j].1) > confidence_rank(hints[i].1) {
            lemma_confidence_dominates(hints[j], hints[i]);
        }
    }
}

fn score_of(h: &OsHint) -> (s: u8)
    ensures
        s == hint_score(h@),
{
    let c: u8 = match h.confidence {
        Confidence::High => 30,
        Confidence::Medium => 20,
        Confidence::Low => 10,
        Confidence::Absent => 0,
    };
    let g: u8 = match h.guess {
        OsGuess::IosOrIpadosPossible | OsGuess::AndroidPossible | OsGuess::WindowsPossible
        | OsGuess::MacosPossible | OsGuess::SmartTvOrSamsungDevicePossible
        | OsGuess::RokuOsPossible | OsGuess::LgWebosTvPossible
        | OsGuess::AndroidTvOrSonyTvPossible | OsGuess::TvosPossible => 3,
        OsGuess::AppleAirplayDevicePossible
        | OsGuess::ChromecastAndroidTvOrEmbeddedWebServicePossible
        | OsGuess::MobileOrPrivacyRandomizedMacPossible => 2,
        _ => 1,
    };
    c + g
}

/// `i` is the last of the highest-ranked hints.
pub open spec fn is_best_hint(hints: Seq<HintView>, i: int) -> bool {
    &&& 0 <= i < hints.len()
    &&& forall|j: int| 0 <= j < hints.len() ==> hint_score(#[trigger] hints[j]) <= hint_score(hints[i])
    &&& forall|j: int| i < j < hints.len() ==> hint_score(#[trigger] hints[j]) < hint_score(hints[i])
}

/// The best hint's guess and confidence: that of the last highest-ranked hint,
/// or unknown with no confidence when there is no hint.
pub fn best_os_hint(os_hints: &Vec<OsHint>) -> (r: (OsGuess, Confidence))
    ensures
        os_hints@.len() == 0 ==> r == (OsGuess::Unknown, Confidence::Absent),
        os_hints@.len() > 0 ==> exists|i: int| #[trigger] is_best_hint(hint_views(os_hints@), i)
            && r == (os_hints@[i].guess, os_hints@[i].confidence),        forall|j: int| 0 <= j < os_hints@.len() ==> confidence_rank(#[trigger] os_hints@[j].confidence)
            <= confidence_rank(r.1),
{
    if os_hints.len() == 0 {
        return (OsGuess::Unknown, Confidence::Absent);
    }
    let ghost hv = hint_views(os_hints@);
    let mut best: usize = 0;
    let mut best_score = score_of(&os_hints[0]);
    let mut i: usize = 1;
    while i < os_hints.len()
        invariant
            hv == hint_views(os_hints@),
            1 <= i <= os_hints.len(),
            best < i,
            best_score == hint_score(hv[best as int]),
            forall|j: int| 0 <= j < i ==> hint_score(#[trigger] hv[j]) <= best_score,
            forall|j: int| best < j < i ==> hint_score(#[trigger] hv[j]) < best_score,
        decreases os_hints.len() - i,
    {
        let s = score_of(&os_hints[i]);
        if s >= best_score {
            best = i;
            best_score = s;
        }
        i += 1;
    }
    assert(is_best_hint(hv, best as int));
    proof {
        lemma_best_hint_most_confident(hv, best as int);
        assert forall|j: int| 0 <= j < os_hints@.len() implies confidence_rank(#[trigger] os_hints@[j].confidence)
            <= confidence_rank(os_hints@[best as int].confidence) by {
            assert(hv[j].1 == os_hints@[j].confidence);
        }
    }
    (os_hints[best].guess, os_hints[best].confidence)
}

// ---------------------------------------------------------------------------
// Role and exposure
// ---------------------------------------------------------------------------

/// What a device most likely is on the network.
#[derive(Clone, Copy, PartialEq, Eq, Structural, Debug)]
pub enum DeviceRole {
    ScannerWorkstation,
    SmartTvOrMediaDevice,
    MobileDevice,
    RouterOrGateway,
    WindowsWorkstationOrFileSharingHost,
    PrinterOrMultifunctionDevice,
    ServerOrDeveloperServiceHost,
    ManagedEndpoint,
    ActiveEndpoint,
    ObservedEndpoint,
}

impl DeviceRole {
    pub open spec fn text(self) -> Seq<char> {
        match self {
            DeviceRole::ScannerWorkstation => "scanner_workstation"@,
            DeviceRole::SmartTvOrMediaDevice => "smart_tv_or_media_device"@,
            DeviceRole::MobileDevice => "mobile_device"@,
            DeviceRole::RouterOrGateway => "router_or_gateway"@,
            DeviceRole::WindowsWorkstationOrFileSharingHost => "windows_workstation_or_file_sharing_host"@,
            DeviceRole::PrinterOrMultifunctionDevice => "printer_or_multifunction_device"@,
            DeviceRole::ServerOrDeveloperServiceHost => "server_or_developer_service_host"@,
            DeviceRole::ManagedEndpoint => "managed_endpoint"@,
            DeviceRole::ActiveEndpoint => "active_endpoint"@,
            DeviceRole::ObservedEndpoint => "observed_endpoint"@,
        }
    }

    /// The role's label.
    pub fn as_str(&self) -> (s: &'static str)
        ensures
            s@ == self.text(),
    {
        match self {
            DeviceRole::ScannerWorkstation => "scanner_workstation",
            DeviceRole::SmartTvOrMediaDevice => "smart_tv_or_media_device",
            DeviceRole::MobileDevice => "mobile_device",
            DeviceRole::RouterOrGateway => "router_or_gateway",
            DeviceRole::WindowsWorkstationOrFileSharingHost => "windows_workstation_or_file_sharing_host",
            DeviceRole::PrinterOrMultifunctionDevice => "printer_or_multifunction_device",
            DeviceRole::ServerOrDeveloperServiceHost => "server_or_developer_service_host",
            DeviceRole::ManagedEndpoint => "managed_endpoint",
            DeviceRole::ActiveEndpoint => "active_endpoint",
            DeviceRole::ObservedEndpoint => "observed_endpoint",
        }
    }
}

/// Some open service is on `port`.
pub open spec fn has_port(services: Seq<ServiceFinding>, port: u16) -> bool {
    exists|i: int| 0 <= i < services.len() && (#[trigger] services[i]).port == port
}

/// Some open service is of category `category`.
pub open spec fn has_category(services: Seq<ServiceFinding>, category: ServiceCategory) -> bool {
    exists|i: int| 0 <= i < services.len() && (#[trigger] services[i]).category == category
}

/// Whether the host has an open service on `port`.
pub fn has_service(scan: &HostScan, port: u16) -> (r: bool)
    ensures
        r == has_port(scan.services@, port),
{
    let mut i: usize = 0;
    while i < scan.services.len()
        invariant
            i <= scan.services.len(),
            forall|j: int| 0 <= j < i ==> (#[trigger] scan.services@[j]).port != port,
        decreases scan.services.len() - i,
    {
        if scan.services[i].port == port {
            assert(scan.services@[i as int].port == port);
            return true;
        }
        i += 1;
    }
    false
}

/// Whether the host has an open service of `category`.
pub fn has_service_category(scan: &HostScan, category: ServiceCategory) -> (r: bool)
    ensures
        r == has_category(scan.services@, category),
{
    let mut i: usize = 0;
    while i < scan.services.len()
        invariant
            i <= scan.services.len(),
            forall|j: int| 0 <= j < i ==> (#[trigger] scan.services@[j]).category != category,
        decreases scan.services.len() - i,
    {
        if scan.services[i].category == category {
            assert(scan.services@[i as int].category == category);
            return true;
        }
        i += 1;
    }
    false
}

/// A lowercased name without a `.fritz.box` suffix and trailing dots.
pub open spec fn short_name(l: Seq<char>) -> Seq<char> {
    trim_end(
        if ends_with(l, ".fritz.box"@) {
            l.take(l.len() - 10)
        } else {
            l
        },
        CharClass::Only('.'),
    )
}

pub open spec fn name_or_empty(name: Option<Seq<char>>) -> Seq<char> {
    match name {
        Some(n) => n,
        None => Seq::empty(),
    }
}

/// The likely role: the scanner itself; a media device by name or media
/// ports; a mobile device by name or the lockdown port; a router by name or
/// DNS with HTTP; then by Windows, printer, datastore, management services;
/// otherwise by activity.
pub open spec fn role_of(scan: HostScan, name: Option<Seq<char>>, is_local_machine: bool) -> DeviceRole {
    let l = lower(name_or_empty(name));
    let sn = short_name(l);
    let sv = scan.services@;
    if is_local_machine {
        DeviceRole::ScannerWorkstation
    } else if contains(l, "samsung"@) || contains(l, "tv"@) || has_port(sv, 7000) || has_port(sv, 7100)
        || has_port(sv, 8060) {
        DeviceRole::SmartTvOrMediaDevice
    } else if has_port(sv, 62078) || contains(l, "iphone"@) || contains(l, "ipad"@) {
        DeviceRole::MobileDevice
    } else if sn == "fritz"@ || sn == "router"@ || sn == "gateway"@ || (has_port(sv, 53) && has_port(sv, 80)) {
        DeviceRole::RouterOrGateway
    } else if has_port(sv, 135) || has_port(sv, 139) || has_port(sv, 445) {
        DeviceRole::WindowsWorkstationOrFileSharingHost
    } else if has_port(sv, 9100) || has_port(sv, 515) || has_port(sv, 631) {
        DeviceRole::PrinterOrMultifunctionDevice
    } else if has_category(sv, ServiceCategory::DatabaseOrDatastore) || has_category(
        sv,
        ServiceCategory::MessageQueueOrCoordination,
    ) {
        DeviceRole::ServerOrDeveloperServiceHost
    } else if has_category(sv, ServiceCategory::RemoteAccessOrManagement) {
        DeviceRole::ManagedEndpoint
    } else if scan_active(scan) {
        DeviceRole::ActiveEndpoint
    } else {
        DeviceRole::ObservedEndpoint
    }
}

/// The likely role of a device.
pub fn likely_role(scan: &HostScan, name: Option<&str>, is_local_machine: bool) -> (r: DeviceRole)
    ensures
        r == role_of(*scan, opt_str_view(name), is_local_machine),
{
    let lower_name = match name {
        Some(n) => to_lower(&chars_of(n)),
        None => Vec::new(),
    };
    assert(lower_name@ == lower(name_or_empty(opt_str_view(name)))) by {
        if name is None {
            assert(lower(Seq::<char>::empty()) =~= Seq::<char>::empty());
        }
    }
    let suffix = chars_of(".fritz.box");
    proof {
        reveal_strlit(".fritz.box");
    }
    let stripped = if ends_with_chars(&lower_name, &suffix) {
        copy_range(&lower_name, 0, lower_name.len() - 10)
    } else {
        copy_chars(&lower_name)
    };
    assert(stripped@ =~= if ends_with(lower_name@, ".fritz.box"@) {
        lower_name@.take(lower_name@.len() - 10)
    } else {
        lower_name@
    });
    let short = trim_end_chars(&stripped, CharClass::Only('.'));
    if is_local_machine {
        return DeviceRole::ScannerWorkstation;
    }
    if has_text(&lower_name, "samsung") || has_text(&lower_name, "tv") || has_service(scan, 7000)
        || has_service(scan, 7100) || has_service(scan, 8060) {
        return DeviceRole::SmartTvOrMediaDevice;
    }
    if has_service(scan, 62078) || has_text(&lower_name, "iphone") || has_text(&lower_name, "ipad") {
        return DeviceRole::MobileDevice;
    }
    if text_is(&short, "fritz") || text_is(&short, "router") || text_is(&short, "gateway") || (
    has_service(scan, 53) && has_service(scan, 80)) {
        return DeviceRole::RouterOrGateway;
    }
    if has_service(scan, 135) || has_service(scan, 139) || has_service(scan, 445) {
        return DeviceRole::WindowsWorkstationOrFileSharingHost;
    }
    if has_service(scan, 9100) || has_service(scan, 515) || has_service(scan, 631) {
        return DeviceRole::PrinterOrMultifunctionDevice;
    }
    if has_service_category(scan, ServiceCategory::DatabaseOrDatastore) || has_service_category(
        scan,
        ServiceCategory::MessageQueueOrCoordination,
    ) {
        return DeviceRole::ServerOrDeveloperServiceHost;
    }
    if has_service_category(scan, ServiceCategory::RemoteAccessOrManagement) {
        return DeviceRole::ManagedEndpoint;
    }
    if scan.ping_reachable || scan.services.len() > 0 {
        return DeviceRole::ActiveEndpoint;
    }
    DeviceRole::ObservedEndpoint
}

/// How exposed a device is.
#[derive(Clone, Copy, PartialEq, Eq, Structural, Debug)]
pub enum Exposure {
    High,
    Medium,
    Low,
    Minimal,
}

impl Exposure {
    pub open spec fn text(self) -> Seq<char> {
        match self {
            Exposure::High => "high"@,
            Exposure::Medium => "medium"@,
            Exposure::Low => "low"@,
            Exposure::Minimal => "minimal"@,
        }
    }

    /// The exposure label.
    pub fn as_str(&self) -> (s: &'static str)
        ensures
            s@ == self.text(),
    {
        match self {
            Exposure::High => "high",
            Exposure::Medium => "medium",
            Exposure::Low => "low",
            Exposure::Minimal => "minimal",
        }
    }
}

/// Exposure from the counts of high and medium findings and of all services.
pub open spec fn exposure_of(high_count: nat, medium_count: nat, service_count: nat) -> Exposure {
    if high_count > 0 {
        Exposure::High
    } else if medium_count > 0 {
        Exposure::Medium
    } else if service_count > 0 {
        Exposure::Low
    } else {
        Exposure::Minimal
    }
}

/// The exposure level from finding counts.
pub fn exposure_level(high_count: usize, medium_count: usize, service_count: usize) -> (e: Exposure)
    ensures
        e == exposure_of(high_count as nat, medium_count as nat, service_count as nat),
{
    if high_count > 0 {
        Exposure::High
    } else if medium_count > 0 {
        Exposure::Medium
    } else if service_count > 0 {
        Exposure::Low
    } else {
        Exposure::Minimal
    }
}

/// The number of findings of severity `sev`.
pub open spec fn severity_count(services: Seq<ServiceFinding>, sev: Severity) -> nat
    decreases services.len(),
{
    if services.len() == 0 {
        0
    } else {
        severity_count(services.drop_last(), sev) + if services.last().severity == sev {
            1nat
        } else {
            0nat
        }
    }
}

/// Counts the findings of severity `sev`.
pub fn count_severity(services: &Vec<ServiceFinding>, sev: Severity) -> (n: usize)
    ensures
        n == severity_count(services@, sev),
{
    let mut n: usize = 0;
    for i in 0..services.len()
        invariant
            n == severity_count(services@.take(i as int), sev),
            n <= i,
    {
        assert(services@.take(i + 1).drop_last() =~= services@.take(i as int));
        if services[i].severity == sev {
            n += 1;
        }
    }
    assert(services@.take(services.len() as int) =~= services@);
    n
}

/// `service:port` for each finding of `category`, in order.
pub open spec fn names_in_category(services: Seq<ServiceFinding>, category: ServiceCategory) -> Seq<Seq<char>>
    decreases services.len(),
{
    if services.len() == 0 {
        Seq::empty()
    } else {
        let f = services.last();
        names_in_category(services.drop_last(), category) + if f.category == category {
            seq![f.service@ + seq![':'] + decimal(f.port as nat)]
        } else {
            Seq::empty()
        }
    }
}

fn service_label(f: &ServiceFinding) -> (r: Vec<char>)
    ensures
        r@ == f.service@ + seq![':'] + decimal(f.port as nat),
{
    let mut v = chars_of(f.service);
    v.push(':');
    push_decimal(&mut v, f.port as u64);
    v
}

/// `service:port` for each open service of `category`.
pub fn service_names_for_category(scan: &HostScan, category: ServiceCategory) -> (names: Vec<String>)
    ensures
        names@.map_values(|s: String| s@) == names_in_category(scan.services@, category),
{
    let mut names: Vec<String> = Vec::new();
    let services = &scan.services;
    for i in 0..services.len()
        invariant
            services == &scan.services,
            names@.map_values(|s: String| s@) == names_in_category(services@.take(i as int), category),
    {
        assert(services@.take(i + 1).drop_last() =~= services@.take(i as int));
        let ghost before = names@.map_values(|s: String| s@);
        if services[i].category == category {
            let label = string_of(&service_label(&services[i]));
            names.push(label);
        }
        assert(names@.map_values(|s: String| s@) =~= names_in_category(services@.take(i + 1), category));
    }
    assert(services@.take(services.len() as int) =~= services@);
    names
}

// ---------------------------------------------------------------------------
// Device context
// ---------------------------------------------------------------------------

/// The texts of a sequence of strings.
pub open spec fn string_views(s: Seq<String>) -> Seq<Seq<char>> {
    s.map_values(|x: String| x@)
}

/// A summary of what a device appears to be.
pub struct DeviceContext {
    pub label: String,
    pub likely_role: DeviceRole,
    pub likely_os: OsGuess,
    pub confidence: Confidence,
    pub exposure_level: Exposure,
    pub headline: String,
    pub notable_findings: Vec<String>,
    pub suggested_followups: Vec<String>,
}

/// `(os, conf)` is what [`best_os_hint`] chooses from `hints`.
pub open spec fn best_choice(hints: Seq<HintView>, os: OsGuess, conf: Confidence) -> bool {
    if hints.len() == 0 {
        os == OsGuess::Unknown && conf == Confidence::Absent
    } else {
        exists|i: int| #[trigger] is_best_hint(hints, i) && os == hints[i].0 && conf == hints[i].1
    }
}

/// The categories whose services are listed among the notable findings, in order.
pub open spec fn notable_categories() -> Seq<ServiceCategory> {
    seq![
        ServiceCategory::RemoteAccessOrManagement,
        ServiceCategory::DatabaseOrDatastore,
        ServiceCategory::FileSharingOrRpc,
        ServiceCategory::WebAdminOrDeviceService,
        ServiceCategory::IdentityOrDirectory,
        ServiceCategory::MessageQueueOrCoordination,
    ]
}

/// `category: service:port, ...` for each listed category that has services.
pub open spec fn category_lines(services: Seq<ServiceFinding>, cats: Seq<ServiceCategory>) -> Seq<Seq<char>>
    decreases cats.len(),
{
    if cats.len() == 0 {
        Seq::empty()
    } else {
        let names = names_in_category(services, cats.last());
        category_lines(services, cats.drop_last()) + if names.len() > 0 {
            seq![cats.last().text() + ": "@ + join(names, ", "@)]
        } else {
            Seq::empty()
        }
    }
}

/// The notable findings about a device.
pub open spec fn notable_findings_of(
    services: Seq<ServiceFinding>,
    is_local_machine: bool,
    hint_count: nat,
    os: OsGuess,
    conf: Confidence,
) -> Seq<Seq<char>> {
    let high = severity_count(services, Severity::High);
    let medium = severity_count(services, Severity::Medium);
    (if is_local_machine {
        seq!["This is the machine that ran the scan."@]
    } else {
        Seq::empty()
    }) + (if services.len() == 0 {
        seq!["No tested TCP services were open; device was observed by ping or ARP only."@]
    } else {
        seq![
            decimal(services.len()) + " tested TCP service(s) were open: "@ + decimal(high)
                + " high, "@ + decimal(medium) + " medium."@,
        ]
    }) + category_lines(services, notable_categories()) + (if hint_count > 0 {
        seq!["Best OS/device hint: "@ + os.text() + " ("@ + conf.text() + ")"@]
    } else {
        Seq::empty()
    })
}

/// The follow-ups suggested for a device: one by exposure, then one each for
/// mobile operating systems, media devices and routers.
pub open spec fn followups_of(exposure: Exposure, os: OsGuess, role: DeviceRole) -> Seq<Seq<char>> {
    seq![
        match exposure {
            Exposure::High => "Review whether high-risk services are expected and restrict them to trusted devices or admin networks."@,
            Exposure::Medium => "Confirm exposed admin, sharing, or media services are expected on this network."@,
            Exposure::Low => "Keep the device patched and confirm the exposed service is intentional."@,
            Exposure::Minimal => "Identify the device owner/role if it is unfamiliar; no tested services were exposed."@,
        },
    ] + (if contains(os.text(), "ios"@) || contains(os.text(), "android"@) {
        seq!["For mobile devices, check OS update status and avoid joining untrusted Wi-Fi networks."@]
    } else {
        Seq::empty()
    }) + (if role == DeviceRole::SmartTvOrMediaDevice {
        seq!["For smart TVs/media devices, check firmware updates and consider isolating them on a guest/IoT network."@]
    } else {
        Seq::empty()
    }) + (if role == DeviceRole::RouterOrGateway {
        seq!["For the router, confirm firmware is current, admin password is strong, and remote administration is disabled."@]
    } else {
        Seq::empty()
    })
}

/// The label of a device: its name, or else its address.
pub open spec fn label_of(ip: u32, name: Option<Seq<char>>) -> Seq<char> {
    match name {
        Some(n) => n,
        None => ipv4_text(ip),
    }
}

/// `ctx` is the context of the device: its best hint, its exposure from the
/// severities of its findings, its role, label, headline, findings and follow-ups.
pub open spec fn context_matches(
    ctx: DeviceContext,
    scan: HostScan,
    name: Option<Seq<char>>,
    is_local_machine: bool,
    hints: Seq<HintView>,
) -> bool {
    let sv = scan.services@;
    let exposure = exposure_of(
        severity_count(sv, Severity::High),
        severity_count(sv, Severity::Medium),
        sv.len(),
    );
    let role = role_of(scan, name, is_local_machine);
    let label = label_of(scan.ip, name);
    &&& best_choice(hints, ctx.likely_os, ctx.confidence)
    &&& ctx.exposure_level == exposure
    &&& ctx.likely_role == role
    &&& ctx.label@ == label
    &&& ctx.headline@ == label + " appears to be a "@ + role.text() + " with "@ + exposure.text()
        + " exposure."@
    &&& string_views(ctx.notable_findings@) == notable_findings_of(
        sv,
        is_local_machine,
        hints.len(),
        ctx.likely_os,
        ctx.confidence,
    )
    &&& string_views(ctx.suggested_followups@) == followups_of(exposure, ctx.likely_os, role)
}

fn push_text(out: &mut Vec<String>, v: &Vec<char>)
    ensures
        string_views(final(out)@) == string_views(old(out)@).push(v@),
{
    let ghost before = string_views(out@);
    out.push(string_of(v));
    assert(string_views(out@) =~= before.push(v@));
}

fn push_literal(out: &mut Vec<String>, s: &str)
    ensures
        string_views(final(out)@) == string_views(old(out)@).push(s@),
{
    push_text(out, &chars_of(s));
}

fn notable_category_list() -> (r: Vec<ServiceCategory>)
    ensures
        r@ == notable_categories(),
{
    let r = vec![
        ServiceCategory::RemoteAccessOrManagement,
        ServiceCategory::DatabaseOrDatastore,
        ServiceCategory::FileSharingOrRpc,
        ServiceCategory::WebAdminOrDeviceService,
        ServiceCategory::IdentityOrDirectory,
        ServiceCategory::MessageQueueOrCoordination,
    ];
    assert(r@ =~= notable_categories());
    r
}

fn strings_to_chars(v: &Vec<String>) -> (r: Vec<Vec<char>>)
    ensures
        views(r@) == string_views(v@),
{
    let mut r: Vec<Vec<char>> = Vec::new();
    for i in 0..v.len()
        invariant
            views(r@) == string_views(v@).take(i as int),
    {
        let ghost before = views(r@);
        let c = chars_of(v[i].as_str());
        r.push(c);
        assert(views(r@) =~= before.push(c@));
        assert(string_views(v@).take(i + 1) =~= string_views(v@).take(i as int).push(v@[i as int]@));
    }
    assert(string_views(v@).take(v.len() as int) =~= string_views(v@));
    r
}

fn category_findings(scan: &HostScan, out: &mut Vec<String>)
    ensures
        string_views(final(out)@) == string_views(old(out)@) + category_lines(scan.services@, notable_categories()),
{
    let ghost base = string_views(out@);
    let cats = notable_category_list();
    let sep = chars_of(", ");
    assert(cats@.take(0) =~= Seq::<ServiceCategory>::empty());
    assert(base + category_lines(scan.services@, cats@.take(0)) =~= base);
    for k in 0..cats.len()
        invariant
            cats@ == notable_categories(),
            sep@ == ", "@,
            string_views(out@) == base + category_lines(scan.services@, cats@.take(k as int)),
    {
        let category = cats[k];
        assert(cats@.take(k + 1).drop_last() =~= cats@.take(k as int));
        assert(cats@.take(k + 1).last() == category);
        let names = service_names_for_category(scan, category);
        let ghost before = string_views(out@);
        if names.len() > 0 {
            let mut v = chars_of(category.as_str());
            push_str(&mut v, ": ");
            let joined = join_chars(&strings_to_chars(&names), &sep);
            append_chars(&mut v, &joined);
            push_text(out, &v);
        }
        assert(string_views(out@) =~= base + category_lines(scan.services@, cats@.take(k + 1)));
    }
    assert(cats@.take(cats.len() as int) =~= cats@);
}

fn notable_findings(
    scan: &HostScan,
    is_local_machine: bool,
    hint_count: usize,
    likely_os: OsGuess,
    confidence: Confidence,
) -> (r: Vec<String>)
    ensures
        string_views(r@) == notable_findings_of(
            scan.services@,
            is_local_machine,
            hint_count as nat,
            likely_os,
            confidence,
        ),
{
    let high_count = count_severity(&scan.services, Severity::High);
    let medium_count = count_severity(&scan.services, Severity::Medium);
    let service_count = scan.services.len();
    let mut out: Vec<String> = Vec::new();
    if is_local_machine {
        push_literal(&mut out, "This is the machine that ran the scan.");
    }
    if service_count == 0 {
        push_literal(
            &mut out,
            "No tested TCP services were open; device was observed by ping or ARP only.",
        );
    } else {
        let mut v = decimal_chars(service_count as u64);
        push_str(&mut v, " tested TCP service(s) were open: ");
        push_decimal(&mut v, high_count as u64);
        push_str(&mut v, " high, ");
        push_decimal(&mut v, medium_count as u64);
        push_str(&mut v, " medium.");
        push_text(&mut out, &v);
    }
    category_findings(scan, &mut out);
    if hint_count > 0 {
        let mut v = chars_of("Best OS/device hint: ");
        push_str(&mut v, likely_os.as_str());
        push_str(&mut v, " (");
        push_str(&mut v, confidence.as_str());
        push_str(&mut v, ")");
        push_text(&mut out, &v);
    }
    assert(string_views(out@) =~= notable_findings_of(
        scan.services@,
        is_local_machine,
        hint_count as nat,
        likely_os,
        confidence,
    ));
    out
}

fn followups(exposure: Exposure, likely_os: OsGuess, role: DeviceRole) -> (r: Vec<String>)
    ensures
        string_views(r@) == followups_of(exposure, likely_os, role),
{
    let mut out: Vec<String> = Vec::new();
    match exposure {
        Exposure::High => push_literal(&mut out, "Review whether high-risk services are expected and restrict them to trusted devices or admin networks."),
        Exposure::Medium => push_literal(&mut out, "Confirm exposed admin, sharing, or media services are expected on this network."),
        Exposure::Low => push_literal(&mut out, "Keep the device patched and confirm the exposed service is intentional."),
        Exposure::Minimal => push_literal(&mut out, "Identify the device owner/role if it is unfamiliar; no tested services were exposed."),
    }
    let os_text = chars_of(likely_os.as_str());
    if has_text(&os_text, "ios") || has_text(&os_text, "android") {
        push_literal(&mut out, "For mobile devices, check OS update status and avoid joining untrusted Wi-Fi networks.");
    }
    if role == DeviceRole::SmartTvOrMediaDevice {
        push_literal(&mut out, "For smart TVs/media devices, check firmware updates and consider isolating them on a guest/IoT network.");
    }
    if role == DeviceRole::RouterOrGateway {
        push_literal(&mut out, "For the router, confirm firmware is current, admin password is strong, and remote administration is disabled.");
    }
    assert(string_views(out@) =~= followups_of(exposure, likely_os, role));
    out
}

fn headline_text(label: &Vec<char>, role: DeviceRole, exposure: Exposure) -> (r: String)
    ensures
        r@ == label@ + " appears to be a "@ + role.text() + " with "@ + exposure.text() + " exposure."@,
{
    let mut headline = copy_chars(label);
    push_str(&mut headline, " appears to be a ");
    push_str(&mut headline, role.as_str());
    push_str(&mut headline, " with ");
    push_str(&mut headline, exposure.as_str());
    push_str(&mut headline, " exposure.");
    string_of(&headline)
}

/// The summary of what a device appears to be.
pub fn device_context(scan: &HostScan, name: Option<&str>, is_local_machine: bool, os_hints: &Vec<OsHint>) -> (ctx: DeviceContext)
    ensures
        context_matches(ctx, *scan, opt_str_view(name), is_local_machine, hint_views(os_hints@)),
{
    let (likely_os, confidence) = best_os_hint(os_hints);
    let high_count = count_severity(&scan.services, Severity::High);
    let medium_count = count_severity(&scan.services, Severity::Medium);
    let exposure = exposure_level(high_count, medium_count, scan.services.len());
    let role = likely_role(scan, name, is_local_machine);
    let label_chars = match name {
        Some(n) => chars_of(n),
        None => ipv4_chars(scan.ip),
    };
    let notable = notable_findings(scan, is_local_machine, os_hints.len(), likely_os, confidence);
    let follow = followups(exposure, likely_os, role);
    let headline = headline_text(&label_chars, role, exposure);
    DeviceContext {
        label: string_of(&label_chars),
        likely_role: role,
        likely_os,
        confidence,
        exposure_level: exposure,
        headline,
        notable_findings: notable,
        suggested_followups: follow,
    }
}

// ---------------------------------------------------------------------------
// Security context
// ---------------------------------------------------------------------------

/// How urgently a device should be reviewed.
#[derive(Clone, Copy, PartialEq, Eq, Structural, Debug)]
pub enum ReviewPriority {
    High,
    Medium,
    Low,
    Informational,
}

impl ReviewPriority {
    pub open spec fn text(self) -> Seq<char> {
        match self {
            ReviewPriority::High => "high"@,
            ReviewPriority::Medium => "medium"@,
            ReviewPriority::Low => "low"@,
            ReviewPriority::Informational => "informational"@,
        }
    }

    /// The priority label.
    pub fn as_str(&self) -> (s: &'static str)
        ensures
            s@ == self.text(),
    {
        match self {
            ReviewPriority::High => "high",
            ReviewPriority::Medium => "medium",
            ReviewPriority::Low => "low",
            ReviewPriority::Informational => "informational",
        }
    }
}

/// The overall security posture seen for a device.
#[derive(Clone, Copy, PartialEq, Eq, Structural, Debug)]
pub enum Posture {
    ReviewExposedHighRiskServices,
    ReviewExposedServices,
    LowExposureServiceObserved,
    NoTestedTcpExposureObserved,
}

impl Posture {
    pub open spec fn text(self) -> Seq<char> {
        match self {
            Posture::ReviewExposedHighRiskServices => "review_exposed_high_risk_services"@,
            Posture::ReviewExposedServices => "review_exposed_services"@,
            Posture::LowExposureServiceObserved => "low_exposure_service_observed"@,
            Posture::NoTestedTcpExposureObserved => "no_tested_tcp_exposure_observed"@,
        }
    }

    /// The posture label.
    pub fn as_str(&self) -> (s: &'static str)
        ensures
            s@ == self.text(),
    {
        match self {
            Posture::ReviewExposedHighRiskServices => "review_exposed_high_risk_services",
            Posture::ReviewExposedServices => "review_exposed_services",
            Posture::LowExposureServiceObserved => "low_exposure_service_observed",
            Posture::NoTestedTcpExposureObserved => "no_tested_tcp_exposure_observed",
        }
    }
}

/// The security review context of a device.
pub struct SecurityContext {
    pub review_priority: ReviewPriority,
    pub posture: Posture,
    pub risk_tags: Vec<&'static str>,
    pub protective_signals: Vec<&'static str>,
    pub evidence_gaps: Vec<&'static str>,
    pub ai_correlation_terms: Vec<String>,
    pub ai_questions: Vec<String>,
}

/// The texts of a sequence of static strings.
pub open spec fn static_views(s: Seq<&'static str>) -> Seq<Seq<char>> {
    s.map_values(|x: &'static str| x@)
}

/// `v` added unless it is already listed.
pub open spec fn add_unique(s: Seq<Seq<char>>, v: Seq<char>) -> Seq<Seq<char>> {
    if s.contains(v) {
        s
    } else {
        s.push(v)
    }
}

/// The candidates added in order, each unless already listed.
pub open spec fn add_all_unique(s: Seq<Seq<char>>, cands: Seq<Seq<char>>) -> Seq<Seq<char>>
    decreases cands.len(),
{
    if cands.len() == 0 {
        s
    } else {
        add_unique(add_all_unique(s, cands.drop_last()), cands.last())
    }
}

/// Adding two runs of candidates is adding their concatenation.
pub proof fn lemma_add_all_unique_append(s: Seq<Seq<char>>, a: Seq<Seq<char>>, b: Seq<Seq<char>>)
    ensures
        add_all_unique(add_all_unique(s, a), b) == add_all_unique(s, a + b),
    decreases b.len(),
{
    if b.len() == 0 {
        assert(a + b =~= a);
    } else {
        lemma_add_all_unique_append(s, a, b.drop_last());
        assert((a + b).drop_last() =~= a + b.drop_last());
        assert((a + b).last() == b.last());
    }
}

proof fn lemma_add_all_one(s: Seq<Seq<char>>, v: Seq<char>)
    ensures
        add_all_unique(s, seq![v]) == add_unique(s, v),
{
    assert(seq![v].drop_last() =~= Seq::<Seq<char>>::empty());
    assert(add_all_unique(s, Seq::<Seq<char>>::empty()) == s);
    assert(seq![v].last() == v);
    assert(add_all_unique(s, seq![v]) == add_unique(add_all_unique(s, seq![v].drop_last()), seq![v].last()));
}

/// A list built by adding unique values has no repeats.
pub proof fn lemma_add_all_unique_no_repeats(s: Seq<Seq<char>>, cands: Seq<Seq<char>>)
    requires
        s.no_duplicates(),
    ensures
        add_all_unique(s, cands).no_duplicates(),
    decreases cands.len(),
{
    if cands.len() > 0 {
        lemma_add_all_unique_no_repeats(s, cands.drop_last());
        let prev = add_all_unique(s, cands.drop_last());
        let v = cands.last();
        if !prev.contains(v) {
            let next = prev.push(v);
            assert forall|i: int, j: int| 0 <= i < next.len() && 0 <= j < next.len() && i != j implies next[i] != next[j] by {
                if i == prev.len() as int {
                    assert(next[j] == prev[j]);
                } else if j == prev.len() as int {
                    assert(next[i] == prev[i]);
                } else {
                    assert(next[i] == prev[i] && next[j] == prev[j]);
                }
            }
        }
    }
}

/// Adds a label unless it is already listed.
pub fn push_unique_static(values: &mut Vec<&'static str>, value: &'static str)
    ensures
        static_views(final(values)@) == add_unique(static_views(old(values)@), value@),
{
    let ghost before = static_views(values@);
    let target = chars_of(value);
    let mut i: usize = 0;
    while i < values.len()
        invariant
            i <= values.len(),
            before == static_views(values@),
            target@ == value@,
            forall|j: int| 0 <= j < i ==> before[j] != value@,
        decreases values.len() - i,
    {
        let here = chars_of(values[i]);
        if text_is(&here, value) {
            assert(before[i as int] == value@);
            assert(before.contains(value@));
            return;
        }
        i += 1;
    }
    values.push(value);
    assert(static_views(values@) =~= before.push(value@));
}

/// Adds a text unless it is already listed.
pub fn push_unique_string(values: &mut Vec<String>, value: String)
    ensures
        string_views(final(values)@) == add_unique(string_views(old(values)@), value@),
{
    let ghost before = string_views(values@);
    let mut i: usize = 0;
    while i < values.len()
        invariant
            i <= values.len(),
            before == string_views(values@),
            forall|j: int| 0 <= j < i ==> before[j] != value@,
        decreases values.len() - i,
    {
        if values[i] == value {
            assert(before[i as int] == value@);
            assert(before.contains(value@));
            return;
        }
        i += 1;
    }
    values.push(value);
    assert(string_views(values@) =~= before.push(value@));
}

/// The risk-tag candidates of the findings, in order.
pub open spec fn tag_candidates(services: Seq<ServiceFinding>) -> Seq<Seq<char>>
    decreases services.len(),
{
    if services.len() == 0 {
        Seq::empty()
    } else {
        tag_candidates(services.drop_last()) + match security_tag_of(services.last().port) {
            Some(t) => seq![t.text()],
            None => Seq::empty(),
        }
    }
}

/// The correlation terms one finding contributes: service and port, its
/// banner, and the HTTP server it names.
pub open spec fn finding_terms(f: ServiceFinding) -> Seq<Seq<char>> {
    seq![f.service@ + " tcp/"@ + decimal(f.port as nat)] + banner_term(f) + server_term(f)
}

pub open spec fn banner_term(f: ServiceFinding) -> Seq<Seq<char>> {
    match f.banner {
        Some(b) => seq![f.service@ + " banner "@ + b@],
        None => Seq::empty(),
    }
}

pub open spec fn server_term(f: ServiceFinding) -> Seq<Seq<char>> {
    match f.http_details {
        Some(d) => match d.server {
            Some(srv) => seq!["http server "@ + srv@],
            None => Seq::empty(),
        },
        None => Seq::empty(),
    }
}

pub open spec fn auth_signal(f: ServiceFinding) -> Seq<Seq<char>> {
    match f.http_details {
        Some(d) => if d.auth_required {
            seq!["http_auth_challenge_observed"@]
        } else {
            Seq::empty()
        },
        None => Seq::empty(),
    }
}

pub open spec fn term_candidates(services: Seq<ServiceFinding>) -> Seq<Seq<char>>
    decreases services.len(),
{
    if services.len() == 0 {
        Seq::empty()
    } else {
        term_candidates(services.drop_last()) + finding_terms(services.last())
    }
}

/// One `http_auth_challenge_observed` per finding whose web service demanded authentication.
pub open spec fn signal_candidates(services: Seq<ServiceFinding>) -> Seq<Seq<char>>
    decreases services.len(),
{
    if services.len() == 0 {
        Seq::empty()
    } else {
        signal_candidates(services.drop_last()) + auth_signal(services.last())
    }
}

/// The confidence of the fingerprint is low or absent.
pub open spec fn weak_confidence(c: Confidence) -> bool {
    c == Confidence::Low || c == Confidence::Absent
}

pub open spec fn protective_candidates(services: Seq<ServiceFinding>, is_local_machine: bool) -> Seq<Seq<char>> {
    signal_candidates(services) + (if services.len() == 0 {
        seq!["no_tested_tcp_services_open"@]
    } else {
        Seq::empty()
    }) + (if is_local_machine {
        seq!["scanner_local_machine_identified"@]
    } else {
        Seq::empty()
    })
}

/// What the evidence lacks.
pub open spec fn gap_candidates(
    scan: HostScan,
    mac: Option<Seq<char>>,
    name: Option<Seq<char>>,
    os: OsGuess,
    conf: Confidence,
) -> Seq<Seq<char>> {
    (if scan.services@.len() == 0 {
        seq!["device_identity_from_network_metadata_only"@]
    } else {
        Seq::empty()
    }) + (match mac {
        None => seq!["mac_vendor_not_observed"@],
        Some(m) => if mac_type_of(m) == MacType::LocallyAdministeredOrRandomized {
            seq!["mac_vendor_may_be_randomized"@]
        } else {
            Seq::empty()
        },
    }) + (if scan.ttl is None {
        seq!["icmp_ttl_not_observed"@]
    } else {
        Seq::empty()
    }) + (if os == OsGuess::Unknown {
        seq!["os_family_unknown"@]
    } else {
        Seq::empty()
    }) + (if weak_confidence(conf) {
        seq!["low_confidence_device_fingerprint"@]
    } else {
        Seq::empty()
    }) + (if name is None {
        seq!["hostname_not_observed"@]
    } else {
        Seq::empty()
    })
}

/// The device-level correlation terms: role, operating system, host name, vendor.
pub open spec fn device_terms(role: DeviceRole, os: OsGuess, name: Option<Seq<char>>, mac: Option<Seq<char>>) -> Seq<Seq<char>> {
    seq!["role "@ + role.text()] + (if os != OsGuess::Unknown {
        seq!["device os hint "@ + os.text()]
    } else {
        Seq::empty()
    }) + (match name {
        Some(n) => seq!["hostname "@ + n],
        None => Seq::empty(),
    }) + (match mac {
        Some(m) => if vendor_of_mac(m) != Vendor::Unknown {
            seq!["mac vendor "@ + vendor_of_mac(m).text()]
        } else {
            Seq::empty()
        },
        None => Seq::empty(),
    })
}

/// The questions to put to an assistant about the device.
pub open spec fn questions_of(has_risk: bool, role: DeviceRole, conf: Confidence) -> Seq<Seq<char>> {
    (if has_risk {
        seq![
            "Are the observed services expected for a "@ + role.text() + " on this network?"@,
            "Do any observed service banners or product hints match known vulnerable versions?"@,
        ]
    } else {
        Seq::empty()
    }) + (if role == DeviceRole::SmartTvOrMediaDevice {
        seq!["Is this media or IoT device isolated from laptops, finance systems, and admin devices?"@]
    } else {
        Seq::empty()
    }) + (if role == DeviceRole::RouterOrGateway {
        seq!["Does the gateway firmware, exposed admin surface, and remote administration policy match hardening guidance?"@]
    } else {
        Seq::empty()
    }) + (if role == DeviceRole::WindowsWorkstationOrFileSharingHost {
        seq!["Is SMB exposure required, patched, and limited to trusted local clients?"@]
    } else {
        Seq::empty()
    }) + (if role == DeviceRole::ServerOrDeveloperServiceHost {
        seq!["Are database, cache, queue, or developer services bound only to trusted interfaces?"@]
    } else {
        Seq::empty()
    }) + (if weak_confidence(conf) {
        seq!["What extra passive discovery data would improve this device identification?"@]
    } else {
        Seq::empty()
    })
}

/// The review priority: that of the exposure, and for minimal exposure medium
/// for routers, low for media devices, informational otherwise.
pub open spec fn priority_of(exposure: Exposure, role: DeviceRole) -> ReviewPriority {
    match exposure {
        Exposure::High => ReviewPriority::High,
        Exposure::Medium => ReviewPriority::Medium,
        Exposure::Low => ReviewPriority::Low,
        Exposure::Minimal => if role == DeviceRole::RouterOrGateway {
            ReviewPriority::Medium
        } else if role == DeviceRole::SmartTvOrMediaDevice {
            ReviewPriority::Low
        } else {
            ReviewPriority::Informational
        },
    }
}

pub open spec fn posture_of(exposure: Exposure) -> Posture {
    match exposure {
        Exposure::High => Posture::ReviewExposedHighRiskServices,
        Exposure::Medium => Posture::ReviewExposedServices,
        Exposure::Low => Posture::LowExposureServiceObserved,
        Exposure::Minimal => Posture::NoTestedTcpExposureObserved,
    }
}

/// `sec` is the security context of the device with the given context.
pub open spec fn security_matches(
    sec: SecurityContext,
    scan: HostScan,
    mac: Option<Seq<char>>,
    name: Option<Seq<char>>,
    is_local_machine: bool,
    ctx: DeviceContext,
) -> bool {
    let sv = scan.services@;
    let risk = add_all_unique(Seq::empty(), tag_candidates(sv));
    &&& static_views(sec.risk_tags@) == risk
    &&& static_views(sec.protective_signals@) == add_all_unique(
        Seq::empty(),
        protective_candidates(sv, is_local_machine),
    )
    &&& static_views(sec.evidence_gaps@) == add_all_unique(
        Seq::empty(),
        gap_candidates(scan, mac, name, ctx.likely_os, ctx.confidence),
    )
    &&& string_views(sec.ai_correlation_terms@) == add_all_unique(
        Seq::empty(),
        term_candidates(sv) + device_terms(ctx.likely_role, ctx.likely_os, name, mac),
    )
    &&& string_views(sec.ai_questions@) == questions_of(risk.len() > 0, ctx.likely_role, ctx.confidence)
    &&& sec.review_priority == priority_of(ctx.exposure_level, ctx.likely_role)
    &&& sec.posture == posture_of(ctx.exposure_level)
}

fn add_static(values: &mut Vec<&'static str>, value: &'static str)
    ensures
        static_views(final(values)@) == add_all_unique(static_views(old(values)@), seq![value@]),
{
    proof {
        lemma_add_all_one(static_views(values@), value@);
    }
    push_unique_static(values, value);
}

fn add_string(values: &mut Vec<String>, value: &Vec<char>)
    ensures
        string_views(final(values)@) == add_all_unique(string_views(old(values)@), seq![value@]),
{
    proof {
        lemma_add_all_one(string_views(values@), value@);
    }
    push_unique_string(values, string_of(value));
}

fn service_signals(
    services: &Vec<ServiceFinding>,
    risk_tags: &mut Vec<&'static str>,
    protective: &mut Vec<&'static str>,
    terms: &mut Vec<String>,
)
    requires
        old(risk_tags)@.len() == 0,
        old(protective)@.len() == 0,
        old(terms)@.len() == 0,
    ensures
        static_views(final(risk_tags)@) == add_all_unique(Seq::empty(), tag_candidates(services@)),
        static_views(final(protective)@) == add_all_unique(Seq::empty(), signal_candidates(services@)),
        string_views(final(terms)@) == add_all_unique(Seq::empty(), term_candidates(services@)),
{
    let ghost e = Seq::<Seq<char>>::empty();
    assert(services@.take(0) =~= Seq::<ServiceFinding>::empty());
    assert(static_views(risk_tags@) =~= e);
    assert(static_views(protective@) =~= e);
    assert(string_views(terms@) =~= e);
    for i in 0..services.len()
        invariant
            static_views(risk_tags@) == add_all_unique(e, tag_candidates(services@.take(i as int))),
            static_views(protective@) == add_all_unique(e, signal_candidates(services@.take(i as int))),
            string_views(terms@) == add_all_unique(e, term_candidates(services@.take(i as int))),
    {
        let f = &services[i];
        assert(services@.take(i + 1).drop_last() =~= services@.take(i as int));
        assert(services@.take(i + 1).last() == *f);
        let ghost r0 = static_views(risk_tags@);
        let ghost p0 = static_views(protective@);
        let ghost t0 = string_views(terms@);
        let ghost rx: Seq<Seq<char>> = match security_tag_of(f.port) {
            Some(t) => seq![t.text()],
            None => Seq::empty(),
        };
        match security_tag_for_port(f.port) {
            Some(tag) => add_static(risk_tags, tag.as_str()),
            None => {},
        }
        assert(static_views(risk_tags@) == add_all_unique(r0, rx));
        proof {
            lemma_add_all_unique_append(e, tag_candidates(services@.take(i as int)), rx);
        }
        let mut label = chars_of(f.service);
        push_str(&mut label, " tcp/");
        push_decimal(&mut label, f.port as u64);
        add_string(terms, &label);
        let ghost t1 = string_views(terms@);
        let ghost bx = banner_term(*f);
        match &f.banner {
            Some(banner) => {
                let mut v = chars_of(f.service);
                push_str(&mut v, " banner ");
                push_str(&mut v, banner.as_str());
                add_string(terms, &v);
            },
            None => {},
        }
        assert(string_views(terms@) == add_all_unique(t1, bx));
        let ghost t2 = string_views(terms@);
        let ghost hx = server_term(*f);
        let ghost px = auth_signal(*f);
        match &f.http_details {
            Some(details) => {
                match &details.server {
                    Some(server) => {
                        let mut v = chars_of("http server ");
                        push_str(&mut v, server.as_str());
                        add_string(terms, &v);
                    },
                    None => {},
                }
                if details.auth_required {
                    add_static(protective, "http_auth_challenge_observed");
                }
            },
            None => {},
        }
        assert(string_views(terms@) == add_all_unique(t2, hx));
        assert(static_views(protective@) == add_all_unique(p0, px));
        proof {
            let lx = seq![f.service@ + " tcp/"@ + decimal(f.port as nat)];
            lemma_add_all_unique_append(e, term_candidates(services@.take(i as int)), lx);
            lemma_add_all_unique_append(e, term_candidates(services@.take(i as int)) + lx, bx);
            lemma_add_all_unique_append(e, term_candidates(services@.take(i as int)) + lx + bx, hx);
            assert(finding_terms(*f) =~= lx + bx + hx);
            assert(term_candidates(services@.take(i as int)) + lx + bx + hx =~= term_candidates(services@.take(i as int)) + finding_terms(*f));
            lemma_add_all_unique_append(e, signal_candidates(services@.take(i as int)), px);
        }
    }
    assert(services@.take(services.len() as int) =~= services@);
}

/// The risk tag that a finding's port carries, if any.
pub fn security_tag_for_service(service: &ServiceFinding) -> (t: Option<SecurityTag>)
    ensures
        t == security_tag_of(service.port),
{
    security_tag_for_port(service.port)
}

/// A single candidate when `cond` holds, none otherwise.
pub open spec fn when(cond: bool, v: Seq<char>) -> Seq<Seq<char>> {
    if cond {
        seq![v]
    } else {
        Seq::empty()
    }
}

fn add_static_when(values: &mut Vec<&'static str>, cond: bool, value: &'static str)
    ensures
        static_views(final(values)@) == add_all_unique(static_views(old(values)@), when(cond, value@)),
{
    if cond {
        add_static(values, value);
    } else {
        assert(when(cond, value@).len() == 0);
    }
}

fn add_string_when(values: &mut Vec<String>, cond: bool, value: &Vec<char>)
    ensures
        string_views(final(values)@) == add_all_unique(string_views(old(values)@), when(cond, value@)),
{
    if cond {
        add_string(values, value);
    } else {
        assert(when(cond, value@).len() == 0);
    }
}

fn evidence_gaps(scan: &HostScan, arp_host: Option<&ArpHost>, name: Option<&str>, ctx: &DeviceContext) -> (gaps: Vec<&'static str>)
    ensures
        static_views(gaps@) == add_all_unique(
            Seq::empty(),
            gap_candidates(*scan, arp_mac(arp_host), opt_str_view(name), ctx.likely_os, ctx.confidence),
        ),
{
    let ghost e = Seq::<Seq<char>>::empty();
    let mut gaps: Vec<&'static str> = Vec::new();
    assert(static_views(gaps@) =~= e);
    let c1 = scan.services.len() == 0;
    let v1 = "device_identity_from_network_metadata_only";
    add_static_when(&mut gaps, c1, v1);
    let (c2, v2) = match arp_host {
        None => (true, "mac_vendor_not_observed"),
        Some(h) => (
            mac_type(h.mac.as_str()) == MacType::LocallyAdministeredOrRandomized,
            "mac_vendor_may_be_randomized",
        ),
    };
    let ghost p1 = when(c1, v1@);
    let ghost p2 = when(c2, v2@);
    add_static_when(&mut gaps, c2, v2);
    proof {
        lemma_add_all_unique_append(e, p1, p2);
    }
    let c3 = scan.ttl.is_none();
    let v3 = "icmp_ttl_not_observed";
    let ghost p3 = when(c3, v3@);
    add_static_when(&mut gaps, c3, v3);
    proof {
        lemma_add_all_unique_append(e, p1 + p2, p3);
    }
    let c4 = ctx.likely_os == OsGuess::Unknown;
    let v4 = "os_family_unknown";
    let ghost p4 = when(c4, v4@);
    add_static_when(&mut gaps, c4, v4);
    proof {
        lemma_add_all_unique_append(e, p1 + p2 + p3, p4);
    }
    let c5 = ctx.confidence == Confidence::Low || ctx.confidence == Confidence::Absent;
    let v5 = "low_confidence_device_fingerprint";
    let ghost p5 = when(c5, v5@);
    add_static_when(&mut gaps, c5, v5);
    proof {
        lemma_add_all_unique_append(e, p1 + p2 + p3 + p4, p5);
    }
    let c6 = name.is_none();
    let v6 = "hostname_not_observed";
    let ghost p6 = when(c6, v6@);
    add_static_when(&mut gaps, c6, v6);
    proof {
        lemma_add_all_unique_append(e, p1 + p2 + p3 + p4 + p5, p6);
        assert(add_all_unique(e, p1) == add_all_unique(e, Seq::empty() + p1)) by {
            assert(Seq::<Seq<char>>::empty() + p1 =~= p1);
        }
        assert(gap_candidates(*scan, arp_mac(arp_host), opt_str_view(name), ctx.likely_os, ctx.confidence)
            =~= p1 + p2 + p3 + p4 + p5 + p6);
    }
    gaps
}

fn add_device_terms(
    terms: &mut Vec<String>,
    role: DeviceRole,
    os: OsGuess,
    name: Option<&str>,
    arp_host: Option<&ArpHost>,
)
    ensures
        string_views(final(terms)@) == add_all_unique(
            string_views(old(terms)@),
            device_terms(role, os, opt_str_view(name), arp_mac(arp_host)),
        ),
{
    let ghost s0 = string_views(terms@);
    let mut v1 = chars_of("role ");
    push_str(&mut v1, role.as_str());
    add_string_when(terms, true, &v1);
    let ghost p1 = when(true, v1@);
    let mut v2 = chars_of("device os hint ");
    push_str(&mut v2, os.as_str());
    let c2 = os != OsGuess::Unknown;
    add_string_when(terms, c2, &v2);
    let ghost p2 = when(c2, v2@);
    proof {
        lemma_add_all_unique_append(s0, p1, p2);
    }
    let mut v3 = chars_of("hostname ");
    let c3 = match name {
        Some(n) => {
            push_str(&mut v3, n);
            true
        },
        None => false,
    };
    add_string_when(terms, c3, &v3);
    let ghost p3 = when(c3, v3@);
    proof {
        lemma_add_all_unique_append(s0, p1 + p2, p3);
    }
    let mut v4 = chars_of("mac vendor ");
    let c4 = match arp_host {
        Some(h) => {
            let vendor = vendor_hint(h.mac.as_str());
            push_str(&mut v4, vendor.as_str());
            vendor != Vendor::Unknown
        },
        None => false,
    };
    add_string_when(terms, c4, &v4);
    let ghost p4 = when(c4, v4@);
    proof {
        lemma_add_all_unique_append(s0, p1 + p2 + p3, p4);
        assert(device_terms(role, os, opt_str_view(name), arp_mac(arp_host)) =~= p1 + p2 + p3 + p4);
    }
}

fn questions(has_risk: bool, role: DeviceRole, confidence: Confidence) -> (q: Vec<String>)
    ensures
        string_views(q@) == questions_of(has_risk, role, confidence),
{
    let mut out: Vec<String> = Vec::new();
    if has_risk {
        let mut first = chars_of("Are the observed services expected for a ");
        push_str(&mut first, role.as_str());
        push_str(&mut first, " on this network?");
        push_text(&mut out, &first);
        push_literal(&mut out, "Do any observed service banners or product hints match known vulnerable versions?");
    }
    if role == DeviceRole::SmartTvOrMediaDevice {
        push_literal(&mut out, "Is this media or IoT device isolated from laptops, finance systems, and admin devices?");
    }
    if role == DeviceRole::RouterOrGateway {
        push_literal(&mut out, "Does the gateway firmware, exposed admin surface, and remote administration policy match hardening guidance?");
    }
    if role == DeviceRole::WindowsWorkstationOrFileSharingHost {
        push_literal(&mut out, "Is SMB exposure required, patched, and limited to trusted local clients?");
    }
    if role == DeviceRole::ServerOrDeveloperServiceHost {
        push_literal(&mut out, "Are database, cache, queue, or developer services bound only to trusted interfaces?");
    }
    if confidence == Confidence::Low || confidence == Confidence::Absent {
        push_literal(&mut out, "What extra passive discovery data would improve this device identification?");
    }
    assert(string_views(out@) =~= questions_of(has_risk, role, confidence));
    out
}

fn review_priority(exposure: Exposure, role: DeviceRole) -> (p: ReviewPriority)
    ensures
        p == priority_of(exposure, role),
{
    match exposure {
        Exposure::High => ReviewPriority::High,
        Exposure::Medium => ReviewPriority::Medium,
        Exposure::Low => ReviewPriority::Low,
        Exposure::Minimal => if role == DeviceRole::RouterOrGateway {
            ReviewPriority::Medium
        } else if role == DeviceRole::SmartTvOrMediaDevice {
            ReviewPriority::Low
        } else {
            ReviewPriority::Informational
        },
    }
}

fn posture(exposure: Exposure) -> (p: Posture)
    ensures
        p == posture_of(exposure),
{
    match exposure {
        Exposure::High => Posture::ReviewExposedHighRiskServices,
        Exposure::Medium => Posture::ReviewExposedServices,
        Exposure::Low => Posture::LowExposureServiceObserved,
        Exposure::Minimal => Posture::NoTestedTcpExposureObserved,
    }
}

/// The security review context of a device: its risk tags, protective
/// signals, evidence gaps, correlation terms, questions, priority and posture.
pub fn security_context(
    scan: &HostScan,
    arp_host: Option<&ArpHost>,
    name: Option<&str>,
    is_local_machine: bool,
    context: &DeviceContext,
) -> (sec: SecurityContext)
    ensures
        security_matches(sec, *scan, arp_mac(arp_host), opt_str_view(name), is_local_machine, *context),
{
    let ghost e = Seq::<Seq<char>>::empty();
    let ghost sv = scan.services@;
    let mut risk_tags: Vec<&'static str> = Vec::new();
    let mut protective_signals: Vec<&'static str> = Vec::new();
    let mut ai_correlation_terms: Vec<String> = Vec::new();
    service_signals(&scan.services, &mut risk_tags, &mut protective_signals, &mut ai_correlation_terms);
    let none_open = scan.services.len() == 0;
    add_static_when(&mut protective_signals, none_open, "no_tested_tcp_services_open");
    add_static_when(&mut protective_signals, is_local_machine, "scanner_local_machine_identified");
    proof {
        let a = when(none_open, "no_tested_tcp_services_open"@);
        let b = when(is_local_machine, "scanner_local_machine_identified"@);
        lemma_add_all_unique_append(e, signal_candidates(sv), a);
        lemma_add_all_unique_append(e, signal_candidates(sv) + a, b);
        assert(protective_candidates(sv, is_local_machine) =~= signal_candidates(sv) + a + b);
    }
    let evidence_gaps = evidence_gaps(scan, arp_host, name, context);
    add_device_terms(&mut ai_correlation_terms, context.likely_role, context.likely_os, name, arp_host);
    proof {
        lemma_add_all_unique_append(
            e,
            term_candidates(sv),
            device_terms(context.likely_role, context.likely_os, opt_str_view(name), arp_mac(arp_host)),
        );
    }
    let has_risk = risk_tags.len() > 0;
    let ai_questions = questions(has_risk, context.likely_role, context.confidence);
    SecurityContext {
        review_priority: review_priority(context.exposure_level, context.likely_role),
        posture: posture(context.exposure_level),
        risk_tags,
        protective_signals,
        evidence_gaps,
        ai_correlation_terms,
        ai_questions,
    }
}

} // verus!
