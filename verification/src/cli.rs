//! The command line: options, and the scope of the scan they select.
use vstd::prelude::*;
use crate::text::{chars_of, push_str, string_of, text_is};
use crate::numbers::{ipv4_chars, ipv4_string, ipv4_text, parse_ipv4, parse_ipv4_str, parse_u64_chars, parse_unsigned};
use crate::network::{
    cidr_hosts, cidr_label, cidr_text, hosts_from_cidr, lemma_small_network, network_ip_for,
    network_of, parse_cidr, parse_ipv4_cidr,
};
use crate::services::{ports_of, profile_ports, ScanProfile};
use crate::target::{Detection, DetectionConfidence, DetectionSource, TargetDetectionReport};
use crate::probe::opt_view;

verus! {

/// The per-connection timeout used unless `--timeout-ms` says otherwise.
pub const DEFAULT_TIMEOUT_MS: u64 = 450;

// ---------------------------------------------------------------------------
// Options
// ---------------------------------------------------------------------------

/// The options of a run.
pub struct CliOptions {
    pub target: Option<String>,
    pub timeout_ms: u64,
    pub detect_only: bool,
    pub progress: bool,
    pub profile: ScanProfile,
}

/// What the command line asks for.
pub enum CliRequest {
    Help,
    Run(CliOptions),
}

/// The options as plain values.
pub struct OptionsView {
    pub target: Option<Seq<char>>,
    pub timeout_ms: u64,
    pub detect_only: bool,
    pub progress: bool,
    pub profile: ScanProfile,
}

/// The outcome of reading the command line.
pub enum CliOutcome {
    Help,
    Run(OptionsView),
    Fail(Seq<char>),
}

pub open spec fn options_view(o: CliOptions) -> OptionsView {
    OptionsView {
        target: opt_view(o.target),
        timeout_ms: o.timeout_ms,
        detect_only: o.detect_only,
        progress: o.progress,
        profile: o.profile,
    }
}

pub open spec fn default_options() -> OptionsView {
    OptionsView {
        target: None,
        timeout_ms: DEFAULT_TIMEOUT_MS,
        detect_only: false,
        progress: false,
        profile: ScanProfile::Thorough,
    }
}

pub open spec fn target_required_text() -> Seq<char> {
    "--target requires an IPv4 address or CIDR, e.g. 192.168.1.0/24"@
}

/// Reads the arguments from position `i` on, with the options `st` read so far.
/// `--help` or `-h` ends the reading; an option whose value is missing or
/// wrong, or an unknown argument, is an error.
pub open spec fn read_args(args: Seq<Seq<char>>, i: int, st: OptionsView) -> CliOutcome
    decreases args.len() - i,
{
    if i >= args.len() {
        CliOutcome::Run(st)
    } else {
        let a = args[i];
        if a == "--help"@ || a == "-h"@ {
            CliOutcome::Help
        } else if a == "--detect-target"@ || a == "--show-target"@ {
            read_args(args, i + 1, OptionsView { detect_only: true, ..st })
        } else if a == "--progress"@ {
            read_args(args, i + 1, OptionsView { progress: true, ..st })
        } else if a == "--light"@ {
            read_args(args, i + 1, OptionsView { profile: ScanProfile::Light, ..st })
        } else if a == "--profile"@ {
            if i + 1 >= args.len() {
                CliOutcome::Fail("--profile requires light or thorough"@)
            } else if args[i + 1] == "light"@ {
                read_args(args, i + 2, OptionsView { profile: ScanProfile::Light, ..st })
            } else if args[i + 1] == "thorough"@ {
                read_args(args, i + 2, OptionsView { profile: ScanProfile::Thorough, ..st })
            } else {
                CliOutcome::Fail("--profile must be light or thorough"@)
            }
        } else if a == "--target"@ {
            if i + 1 >= args.len() {
                CliOutcome::Fail(target_required_text())
            } else {
                read_args(args, i + 2, OptionsView { target: Some(args[i + 1]), ..st })
            }
        } else if a == "--timeout-ms"@ {
            if i + 1 >= args.len() {
                CliOutcome::Fail("--timeout-ms requires a number"@)
            } else {
                match parse_unsigned(args[i + 1], 10, u64::MAX as nat) {
                    Some(v) => read_args(args, i + 2, OptionsView { timeout_ms: v as u64, ..st }),
                    None => CliOutcome::Fail("--timeout-ms must be a number"@),
                }
            }
        } else {
            CliOutcome::Fail("Unknown argument: "@ + a)
        }
    }
}

pub open spec fn arg_views(args: Seq<String>) -> Seq<Seq<char>> {
    args.map_values(|a: String| a@)
}

fn fail(message: &str) -> (r: Result<CliRequest, String>)
    ensures
        r matches Err(e) && e@ == message@,
{
    Err(string_of(&chars_of(message)))
}

/// Reads the command line (the program's name first, then its arguments).
pub fn parse_args(args: &Vec<String>) -> (r: Result<CliRequest, String>)
    ensures
        match read_args(arg_views(args@), 1, default_options()) {
            CliOutcome::Help => r matches Ok(CliRequest::Help),
            CliOutcome::Run(o) => r matches Ok(CliRequest::Run(opts)) && options_view(opts) == o,
            CliOutcome::Fail(m) => r matches Err(e) && e@ == m,
        },
{
    let ghost all = arg_views(args@);
    let mut target: Option<String> = None;
    let mut timeout_ms: u64 = DEFAULT_TIMEOUT_MS;
    let mut detect_only = false;
    let mut progress = false;
    let mut profile = ScanProfile::Thorough;
    let mut i: usize = 1;
    while i < args.len()
        invariant
            all == arg_views(args@),
            1 <= i,
            read_args(all, 1, default_options()) == read_args(
                all,
                i as int,
                OptionsView { target: opt_view(target), timeout_ms, detect_only, progress, profile },
            ),
        decreases args.len() - i,
    {
        let ghost st = OptionsView { target: opt_view(target), timeout_ms, detect_only, progress, profile };
        assert(all[i as int] == args@[i as int]@);
        let a = chars_of(args[i].as_str());
        if text_is(&a, "--help") || text_is(&a, "-h") {
            return Ok(CliRequest::Help);
        } else if text_is(&a, "--detect-target") || text_is(&a, "--show-target") {
            detect_only = true;
        } else if text_is(&a, "--progress") {
            progress = true;
        } else if text_is(&a, "--light") {
            profile = ScanProfile::Light;
        } else if text_is(&a, "--profile") {
            i += 1;
            if i >= args.len() {
                return fail("--profile requires light or thorough");
            }
            assert(all[i as int] == args@[i as int]@);
            let v = chars_of(args[i].as_str());
            if text_is(&v, "light") {
                profile = ScanProfile::Light;
            } else if text_is(&v, "thorough") {
                profile = ScanProfile::Thorough;
            } else {
                return fail("--profile must be light or thorough");
            }
        } else if text_is(&a, "--target") {
            i += 1;
            if i >= args.len() {
                return fail("--target requires an IPv4 address or CIDR, e.g. 192.168.1.0/24");
            }
            assert(all[i as int] == args@[i as int]@);
            target = Some(args[i].clone());
        } else if text_is(&a, "--timeout-ms") {
            i += 1;
            if i >= args.len() {
                return fail("--timeout-ms requires a number");
            }
            assert(all[i as int] == args@[i as int]@);
            match parse_u64_chars(&chars_of(args[i].as_str())) {
                Some(v) => {
                    timeout_ms = v;
                },
                None => {
                    return fail("--timeout-ms must be a number");
                },
            }
        } else {
            let mut m = chars_of("Unknown argument: ");
            push_str(&mut m, args[i].as_str());
            return Err(string_of(&m));
        }
        i += 1;
    }
    Ok(
        CliRequest::Run(
            CliOptions { target, timeout_ms, detect_only, progress, profile },
        ),
    )
}

// ---------------------------------------------------------------------------
// The scope of the scan
// ---------------------------------------------------------------------------

/// The addresses to scan, their label, and how they were chosen.
pub struct ScanTarget {
    pub label: String,
    pub hosts: Vec<u32>,
    pub detection: TargetDetectionReport,
}

pub open spec fn refusal_text() -> Seq<char> {
    "Refusing to scan networks larger than /24 in the safe default build"@
}

pub open spec fn bad_target_text() -> Seq<char> {
    "Target must be an IPv4 address or CIDR, e.g. 192.168.1.10 or 192.168.1.0/24"@
}

/// The report of a target given with `--target`.
pub open spec fn explicit_report(d: TargetDetectionReport, local_ip: Option<u32>, prefix: nat, single: bool) -> bool {
    &&& d.source == DetectionSource::ExplicitTarget
    &&& d.interface is None
    &&& opt_view(d.local_ip) == (match local_ip {
        Some(l) => Some(ipv4_text(l)),
        None => None,
    })
    &&& d.prefix == Some(prefix as u8)
    &&& d.confidence == DetectionConfidence::UserSupplied
    &&& d.note@ == if single {
        "Single host target was supplied explicitly with --target."@
    } else {
        "Target was supplied explicitly with --target."@
    }
}

fn local_ip_text(local_ip: Option<u32>) -> (r: Option<String>)
    ensures
        opt_view(r) == (match local_ip {
            Some(l) => Some(ipv4_text(l)),
            None => None,
        }),
{
    match local_ip {
        Some(l) => Some(ipv4_string(l)),
        None => None,
    }
}

/// `r` is the scope of the explicit target `target`: a network
/// `address/prefix` with a prefix of 24 or longer, labelled as written; a
/// single address, labelled `address/32`; an error otherwise.
pub open spec fn explicit_result(r: Result<ScanTarget, String>, target: Seq<char>, local_ip: Option<u32>) -> bool {
    match parse_cidr(target) {
        Some((ip, p)) => if p < 24 {
            r matches Err(e) && e@ == refusal_text()
        } else {
            r matches Ok(t) && t.label@ == target && t.hosts@ == cidr_hosts(ip, p)
                && explicit_report(t.detection, local_ip, p, false)
        },
        None => match parse_ipv4(target) {
            Some(ip) => r matches Ok(t) && t.label@ == ipv4_text(ip) + "/32"@ && t.hosts@
                == seq![ip] && explicit_report(t.detection, local_ip, 32, true),
            None => r matches Err(e) && e@ == bad_target_text(),
        },
    }
}

/// The scope of an explicit `--target`: a network `address/prefix` of at
/// most 256 addresses (prefix 24 or longer), or a single address. The
/// network's label is the target as written; a single address is labelled
/// `address/32`.
pub fn explicit_target(target: &str, local_ip: Option<u32>) -> (r: Result<ScanTarget, String>)
    ensures
        explicit_result(r, target@, local_ip),
        r matches Ok(t) ==> t.hosts@.len() <= 254,
{
    if let Some((network, prefix)) = parse_ipv4_cidr(target) {
        if prefix < 24 {
            return Err(string_of(&chars_of("Refusing to scan networks larger than /24 in the safe default build")));
        }
        proof {
            lemma_small_network(network, prefix as nat);
        }
        return Ok(ScanTarget {
            label: string_of(&chars_of(target)),
            hosts: hosts_from_cidr(network, prefix),
            detection: TargetDetectionReport {
                source: DetectionSource::ExplicitTarget,
                interface: None,
                local_ip: local_ip_text(local_ip),
                prefix: Some(prefix),
                confidence: DetectionConfidence::UserSupplied,
                note: "Target was supplied explicitly with --target.",
            },
        });
    }
    if let Some(ip) = parse_ipv4_str(target) {
        let mut label = ipv4_chars(ip);
        push_str(&mut label, "/32");
        let mut hosts: Vec<u32> = Vec::new();
        hosts.push(ip);
        assert(hosts@ =~= seq![ip]);
        return Ok(ScanTarget {
            label: string_of(&label),
            hosts,
            detection: TargetDetectionReport {
                source: DetectionSource::ExplicitTarget,
                interface: None,
                local_ip: local_ip_text(local_ip),
                prefix: Some(32),
                confidence: DetectionConfidence::UserSupplied,
                note: "Single host target was supplied explicitly with --target.",
            },
        });
    }
    Err(string_of(&chars_of("Target must be an IPv4 address or CIDR, e.g. 192.168.1.10 or 192.168.1.0/24")))
}

/// The refusal of a detected network larger than `/24`.
pub open spec fn too_large_text(ip: u32, prefix: nat) -> Seq<char> {
    "Detected local subnet "@ + cidr_text(ip, prefix)
        + " is larger than /24. Refusing to scan it by default; rerun with an explicit --target if this is the intended authorized scope."@
}

/// The scope of a detected local network: refused when larger than `/24`,
/// otherwise its hosts, labelled by the network.
pub fn detected_target(detection: Detection) -> (r: Result<ScanTarget, String>)
    requires
        detection.prefix <= 32,
    ensures
        detection.prefix < 24 ==> (r matches Err(e) && e@ == too_large_text(detection.ip, detection.prefix as nat)),
        detection.prefix >= 24 ==> (r matches Ok(t) && t.label@ == cidr_text(detection.ip, detection.prefix as nat)
            && t.hosts@ == cidr_hosts(network_of(detection.ip, detection.prefix as nat) as u32, detection.prefix as nat)
            && t.detection == detection.report),
        r matches Ok(t) ==> t.hosts@.len() <= 254,
{
    let label = cidr_label(detection.ip, detection.prefix);
    if detection.prefix < 24 {
        let mut m = chars_of("Detected local subnet ");
        push_str(&mut m, label.as_str());
        push_str(&mut m, " is larger than /24. Refusing to scan it by default; rerun with an explicit --target if this is the intended authorized scope.");
        return Err(string_of(&m));
    }
    let network = network_ip_for(detection.ip, detection.prefix);
    proof {
        lemma_small_network(network, detection.prefix as nat);
    }
    Ok(ScanTarget {
        label,
        hosts: hosts_from_cidr(network, detection.prefix),
        detection: detection.report,
    })
}

/// Everything a scan needs to run.
pub struct ScanConfig {
    pub target_label: String,
    pub hosts: Vec<u32>,
    pub profile: ScanProfile,
    pub ports: Vec<u16>,
    pub timeout_ms: u64,
    pub local_ip: Option<u32>,
    pub detect_only: bool,
    pub progress: bool,
    pub target_detection: TargetDetectionReport,
}

/// The configuration of a run with these options and this scope: the ports
/// of the chosen profile.
pub fn scan_config(options: CliOptions, target: ScanTarget, local_ip: Option<u32>) -> (c: ScanConfig)
    ensures
        c.target_label == target.label,
        c.hosts == target.hosts,
        c.profile == options.profile,
        c.ports@ == profile_ports(options.profile),
        c.timeout_ms == options.timeout_ms,
        c.local_ip == local_ip,
        c.detect_only == options.detect_only,
        c.progress == options.progress,
        c.target_detection == target.detection,
{
    ScanConfig {
        target_label: target.label,
        hosts: target.hosts,
        profile: options.profile,
        ports: ports_of(options.profile),
        timeout_ms: options.timeout_ms,
        local_ip,
        detect_only: options.detect_only,
        progress: options.progress,
        target_detection: target.detection,
    }
}

/// The error when no local network could be found.
pub open spec fn undetected_text() -> Seq<char> {
    "Could not determine local IPv4 subnet"@
}

/// `r` is the scope of the scan: the explicit target if one was given, else
/// the detected local network (`detection`, none when it could not be found).
pub open spec fn scope_result(
    r: Result<ScanTarget, String>,
    target: Option<Seq<char>>,
    local_ip: Option<u32>,
    detection: Option<Detection>,
) -> bool {
    match target {
        Some(t) => explicit_result(r, t, local_ip),
        None => match detection {
            None => r matches Err(m) && m@ == undetected_text(),
            Some(d) => if d.prefix < 24 {
                r matches Err(m) && m@ == too_large_text(d.ip, d.prefix as nat)
            } else {
                r matches Ok(t) && t.label@ == cidr_text(d.ip, d.prefix as nat) && t.hosts@ == cidr_hosts(
                    network_of(d.ip, d.prefix as nat) as u32,
                    d.prefix as nat,
                ) && t.detection == d.report
            },
        },
    }
}

/// The scope of the scan: the explicit `--target` if one was given, else the
/// detected local network (`detection`, none when it could not be found).
pub fn resolve_target(options: &CliOptions, local_ip: Option<u32>, detection: Option<Detection>) -> (r: Result<ScanTarget, String>)
    requires
        detection matches Some(d) ==> d.prefix <= 32,
    ensures
        scope_result(r, opt_view(options.target), local_ip, detection),
        r matches Ok(t) ==> t.hosts@.len() <= 254,
{
    match &options.target {
        Some(t) => explicit_target(t.as_str(), local_ip),
        None => match detection {
            None => Err(string_of(&chars_of("Could not determine local IPv4 subnet"))),
            Some(d) => detected_target(d),
        },
    }
}

/// Whether the local network must be detected: only when no target was given.
pub fn needs_detection(options: &CliOptions) -> (r: bool)
    ensures
        r == (options.target is None),
{
    options.target.is_none()
}

/// The configuration of a run with these options: the scope that
/// [`resolve_target`] chooses, with the ports of the chosen profile; or the
/// error that refuses the scope.
pub fn configure_run(options: CliOptions, local_ip: Option<u32>, detection: Option<Detection>) -> (r: Result<ScanConfig, String>)
    requires
        detection matches Some(d) ==> d.prefix <= 32,
    ensures
        scope_result(
            (match r {
                Ok(c) => Ok(ScanTarget { label: c.target_label, hosts: c.hosts, detection: c.target_detection }),
                Err(e) => Err(e),
            }),
            opt_view(options.target),
            local_ip,
            detection,
        ),
        r matches Ok(c) ==> {
            &&& c.profile == options.profile
            &&& c.ports@ == profile_ports(options.profile)
            &&& c.timeout_ms == options.timeout_ms
            &&& c.local_ip == local_ip
            &&& c.detect_only == options.detect_only
            &&& c.progress == options.progress
            &&& c.hosts@.len() <= 254
        },
{
    match resolve_target(&options, local_ip, detection) {
        Ok(target) => Ok(scan_config(options, target, local_ip)),
        Err(e) => Err(e),
    }
}

/// The usage text, with `program` the name the program was started under.
pub open spec fn usage_spec(program: Seq<char>) -> Seq<char> {
    "Usage:\n  "@ + program + "\n  "@ + program + " --progress\n  "@ + program
        + " --profile light --progress\n  "@ + program + " --detect-target\n  "@ + program
        + " --target 192.168.1.0/24\n  "@ + program + " --target 192.168.1.10\n  "@ + program
        + " --timeout-ms 700\n\nDefault profile is thorough. SafeSniff performs permissioned, low-impact TCP service enumeration only.\nIt does not exploit, brute-force, authenticate, persist, or modify remote systems."@
}

/// The usage text printed for `--help` and after a command-line error.
pub fn usage_text(program: &str) -> (r: String)
    ensures
        r@ == usage_spec(program@),
{
    let mut v = chars_of("Usage:\n  ");
    push_str(&mut v, program);
    push_str(&mut v, "\n  ");
    push_str(&mut v, program);
    push_str(&mut v, " --progress\n  ");
    push_str(&mut v, program);
    push_str(&mut v, " --profile light --progress\n  ");
    push_str(&mut v, program);
    push_str(&mut v, " --detect-target\n  ");
    push_str(&mut v, program);
    push_str(&mut v, " --target 192.168.1.0/24\n  ");
    push_str(&mut v, program);
    push_str(&mut v, " --target 192.168.1.10\n  ");
    push_str(&mut v, program);
    push_str(&mut v, " --timeout-ms 700\n\nDefault profile is thorough. SafeSniff performs permissioned, low-impact TCP service enumeration only.\nIt does not exploit, brute-force, authenticate, persist, or modify remote systems.");
    string_of(&v)
}

} // verus!
