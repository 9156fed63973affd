use safesniff::cli::{
    configure_run, detected_target, explicit_target, needs_detection, parse_args, resolve_target,
    scan_config, usage_text,
    CliOptions, CliRequest, DEFAULT_TIMEOUT_MS,
};
use safesniff::clock::{seconds_or_zero, unix_timestamp_secs};
use safesniff::probe::Platform;
use safesniff::services::ScanProfile;
use safesniff::target::{
    default_local_24, default_route_interface, detect_local_subnet, interface_address_command,
    interface_from_ip_route, ip_route_command, ipconfig_command, netstat_command, route_get_command,
    interface_from_netstat, interface_from_route_get, parse_linux_ip_addr_ipv4,
    parse_macos_ifconfig_ipv4, parse_windows_ipconfig_ipv4, Detection, DetectionConfidence,
    DetectionSource, TargetDetectionReport,
};
use std::time::{Duration, UNIX_EPOCH};

fn ip(a: u32, b: u32, c: u32, d: u32) -> u32 {
    (a << 24) | (b << 16) | (c << 8) | d
}

fn args(list: &[&str]) -> Vec<String> {
    list.iter().map(|s| s.to_string()).collect()
}

const NETSTAT: &str = "Routing tables\n\nInternet:\nDestination        Gateway            Flags               Netif Expire\ndefault            192.168.1.1        UGScg                 en0       \n127                127.0.0.1          UCS                   lo0\n";

#[test]
fn interfaces_from_route_listings() {
    assert_eq!(interface_from_netstat(NETSTAT), Some("en0".to_string()));
    assert_eq!(interface_from_netstat("default 192.168.1.1 UG 12\n"), None);
    assert_eq!(interface_from_netstat(""), None);
    assert_eq!(
        interface_from_route_get("   route to: default\ndestination: default\n  interface: en1\n"),
        Some("en1".to_string())
    );
    assert_eq!(interface_from_route_get("gateway: 10.0.0.1"), None);
    assert_eq!(
        interface_from_ip_route("default via 192.168.1.1 dev eth0 proto dhcp metric 100"),
        Some("eth0".to_string())
    );
    assert_eq!(interface_from_ip_route("default via 192.168.1.1 dev"), None);
    assert_eq!(interface_from_ip_route("default via 192.168.1.1"), None);
}

#[test]
fn default_route_by_platform() {
    assert_eq!(
        default_route_interface(Platform::MacOs, Some(NETSTAT.to_string()), None, None),
        Some("en0".to_string())
    );
    assert_eq!(
        default_route_interface(
            Platform::MacOs,
            Some("nothing".to_string()),
            Some("interface: en5".to_string()),
            None
        ),
        Some("en5".to_string())
    );
    assert_eq!(
        default_route_interface(Platform::Linux, None, None, Some("default via 1.1.1.1 dev wlan0".to_string())),
        Some("wlan0".to_string())
    );
    assert_eq!(
        default_route_interface(Platform::Windows, Some(NETSTAT.to_string()), None, None),
        None
    );
}

#[test]
fn macos_interface_addresses() {
    let out = "en0: flags=8863<UP,BROADCAST> mtu 1500\n\tinet6 fe80::1%en0 prefixlen 64\n\tinet 192.168.1.23 netmask 0xffffff00 broadcast 192.168.1.255\n";
    assert_eq!(parse_macos_ifconfig_ipv4(out), Some((ip(192, 168, 1, 23), 24)));
    let lo_first = "\tinet 127.0.0.1 netmask 0xff000000\n\tinet 10.0.0.5 netmask 0xffff0000\n";
    assert_eq!(parse_macos_ifconfig_ipv4(lo_first), Some((ip(10, 0, 0, 5), 16)));
    let broken = "\tinet 192.168.1.23 broadcast 192.168.1.255\n\tinet 10.0.0.5 netmask 0xffff0000\n";
    assert_eq!(parse_macos_ifconfig_ipv4(broken), None);
    assert_eq!(parse_macos_ifconfig_ipv4("\tinet6 ::1 prefixlen 128\n"), None);
}

#[test]
fn linux_interface_addresses() {
    let out = "2: eth0    inet 192.168.1.23/24 brd 192.168.1.255 scope global dynamic eth0\\       valid_lft 86000sec";
    assert_eq!(parse_linux_ip_addr_ipv4(out), Some((ip(192, 168, 1, 23), 24)));
    assert_eq!(parse_linux_ip_addr_ipv4("1: lo inet 127.0.0.1/8 scope host lo\n2: eth0 inet 10.1.2.3/20 brd x"), Some((ip(10, 1, 2, 3), 20)));
    assert_eq!(parse_linux_ip_addr_ipv4("inet fe80::1/64"), None);
    assert_eq!(parse_linux_ip_addr_ipv4("inet 10.0.0.1/40 then 10.0.0.2/24"), Some((ip(10, 0, 0, 2), 24)));
    assert_eq!(parse_linux_ip_addr_ipv4("no addresses"), None);
}

#[test]
fn windows_adapter_addresses() {
    let out = "Ethernet adapter Ethernet:\r\n\r\n   IPv4 Address. . . . . . . . . . . : 192.168.1.23(Preferred) \r\n   Subnet Mask . . . . . . . . . . . : 255.255.255.0\r\n   Default Gateway . . . . . . . . . : 192.168.1.1\r\n";
    assert_eq!(parse_windows_ipconfig_ipv4(out, ip(192, 168, 1, 23)), Some((ip(192, 168, 1, 23), 24)));
    assert_eq!(parse_windows_ipconfig_ipv4(out, ip(192, 168, 1, 99)), None);
    let bad_mask = "   IPv4 Address. . . : 10.0.0.2\r\n   Subnet Mask . . . : 255.0.255.0\r\n";
    assert_eq!(parse_windows_ipconfig_ipv4(bad_mask, ip(10, 0, 0, 2)), None);
}

#[test]
fn local_network_detection() {
    let linux = "2: eth0    inet 192.168.7.40/24 brd 192.168.7.255 scope global eth0";
    let d = detect_local_subnet(
        Platform::Linux,
        Some("eth0".to_string()),
        Some(linux.to_string()),
        None,
        Some(ip(192, 168, 7, 40)),
    )
    .unwrap();
    assert_eq!(d.ip, ip(192, 168, 7, 40));
    assert_eq!(d.prefix, 24);
    assert_eq!(d.report.source, DetectionSource::DefaultRouteInterface);
    assert_eq!(d.report.interface, Some("eth0".to_string()));
    assert_eq!(d.report.local_ip, Some("192.168.7.40".to_string()));
    assert_eq!(d.report.confidence, DetectionConfidence::High);
    assert_eq!(
        d.report.note,
        "Default target derived from the OS default route interface and its configured IPv4 prefix."
    );

    let fallback = detect_local_subnet(Platform::Linux, None, None, None, Some(ip(10, 0, 0, 9))).unwrap();
    assert_eq!(fallback.report.source.as_str(), "local_ip_24_fallback");
    assert_eq!(fallback.report.confidence.as_str(), "low");
    assert_eq!(fallback.prefix, 24);

    assert!(detect_local_subnet(Platform::Windows, None, None, Some("x".to_string()), None).is_none());
    assert!(detect_local_subnet(Platform::Other, None, None, None, None).is_none());

    let win = "   IPv4 Address. . . : 10.0.0.2\r\n   Subnet Mask . . . : 255.255.255.128\r\n";
    let w = detect_local_subnet(Platform::Windows, None, None, Some(win.to_string()), Some(ip(10, 0, 0, 2))).unwrap();
    assert_eq!(w.prefix, 25);
    assert_eq!(w.report.source, DetectionSource::IpconfigMatchingLocalIp);
    assert_eq!(w.report.confidence, DetectionConfidence::Medium);
}

#[test]
fn default_slash_24() {
    let (label, hosts) = default_local_24(ip(192, 168, 3, 77));
    assert_eq!(label, "192.168.3.0/24");
    assert_eq!(hosts.len(), 254);
    assert_eq!(hosts[0], ip(192, 168, 3, 1));
}

#[test]
fn explicit_targets() {
    let t = explicit_target("192.168.1.7/24", Some(ip(192, 168, 1, 5))).ok().unwrap();
    assert_eq!(t.label, "192.168.1.7/24");
    assert_eq!(t.hosts.len(), 254);
    assert_eq!(t.detection.source, DetectionSource::ExplicitTarget);
    assert_eq!(t.detection.prefix, Some(24));
    assert_eq!(t.detection.local_ip, Some("192.168.1.5".to_string()));
    assert_eq!(t.detection.confidence.as_str(), "user_supplied");
    assert_eq!(t.detection.note, "Target was supplied explicitly with --target.");

    let one = explicit_target("192.168.1.10", None).ok().unwrap();
    assert_eq!(one.label, "192.168.1.10/32");
    assert_eq!(one.hosts, vec![ip(192, 168, 1, 10)]);
    assert_eq!(one.detection.prefix, Some(32));
    assert_eq!(one.detection.local_ip, None);
    assert_eq!(one.detection.note, "Single host target was supplied explicitly with --target.");

    assert_eq!(
        explicit_target("10.0.0.0/16", None).err().unwrap(),
        "Refusing to scan networks larger than /24 in the safe default build"
    );
    assert_eq!(
        explicit_target("example.com", None).err().unwrap(),
        "Target must be an IPv4 address or CIDR, e.g. 192.168.1.10 or 192.168.1.0/24"
    );
    assert!(explicit_target("10.0.0.1/33", None).is_err());
}

fn report() -> TargetDetectionReport {
    TargetDetectionReport {
        source: DetectionSource::DefaultRouteInterface,
        interface: Some("en0".to_string()),
        local_ip: Some("10.1.2.3".to_string()),
        prefix: Some(16),
        confidence: DetectionConfidence::High,
        note: "n",
    }
}

#[test]
fn detected_targets() {
    let big = Detection { ip: ip(10, 1, 2, 3), prefix: 16, report: report() };
    assert_eq!(
        detected_target(big).err().unwrap(),
        "Detected local subnet 10.1.0.0/16 is larger than /24. Refusing to scan it by default; rerun with an explicit --target if this is the intended authorized scope."
    );
    let small = Detection { ip: ip(10, 1, 2, 3), prefix: 28, report: report() };
    let t = detected_target(small).ok().unwrap();
    assert_eq!(t.label, "10.1.2.0/28");
    assert_eq!(t.hosts.len(), 14);
    assert_eq!(t.hosts[0], ip(10, 1, 2, 1));
    assert_eq!(t.detection.interface, Some("en0".to_string()));
}

#[test]
fn command_line_defaults() {
    match parse_args(&args(&["safesniff"])) {
        Ok(CliRequest::Run(o)) => {
            assert_eq!(o.target, None);
            assert_eq!(o.timeout_ms, DEFAULT_TIMEOUT_MS);
            assert_eq!(o.timeout_ms, 450);
            assert!(!o.detect_only);
            assert!(!o.progress);
            assert_eq!(o.profile, ScanProfile::Thorough);
        }
        _ => panic!("expected options"),
    }
}

#[test]
fn command_line_options() {
    let a = args(&[
        "safesniff", "--light", "--progress", "--target", "10.0.0.1", "--timeout-ms", "700",
        "--show-target", "--target", "10.0.0.2",
    ]);
    match parse_args(&a) {
        Ok(CliRequest::Run(o)) => {
            assert_eq!(o.target, Some("10.0.0.2".to_string()));
            assert_eq!(o.timeout_ms, 700);
            assert!(o.detect_only);
            assert!(o.progress);
            assert_eq!(o.profile, ScanProfile::Light);
        }
        _ => panic!("expected options"),
    }
    match parse_args(&args(&["s", "--profile", "light", "--profile", "thorough"])) {
        Ok(CliRequest::Run(o)) => assert_eq!(o.profile, ScanProfile::Thorough),
        _ => panic!("expected options"),
    }
}

#[test]
fn command_line_help_and_errors() {
    assert!(matches!(parse_args(&args(&["s", "--help", "--bogus"])), Ok(CliRequest::Help)));
    assert!(matches!(parse_args(&args(&["s", "-h"])), Ok(CliRequest::Help)));
    assert_eq!(parse_args(&args(&["s", "--bogus", "--help"])).err().unwrap(), "Unknown argument: --bogus");
    assert_eq!(parse_args(&args(&["s", "--profile"])).err().unwrap(), "--profile requires light or thorough");
    assert_eq!(parse_args(&args(&["s", "--profile", "fast"])).err().unwrap(), "--profile must be light or thorough");
    assert_eq!(
        parse_args(&args(&["s", "--target"])).err().unwrap(),
        "--target requires an IPv4 address or CIDR, e.g. 192.168.1.0/24"
    );
    assert_eq!(parse_args(&args(&["s", "--timeout-ms"])).err().unwrap(), "--timeout-ms requires a number");
    assert_eq!(parse_args(&args(&["s", "--timeout-ms", "-5"])).err().unwrap(), "--timeout-ms must be a number");
    assert!(matches!(parse_args(&Vec::new()), Ok(CliRequest::Run(_))));
}

#[test]
fn configuration_of_a_run() {
    let o = match parse_args(&args(&["s", "--light"])) {
        Ok(CliRequest::Run(o)) => o,
        _ => panic!("expected options"),
    };
    let t = explicit_target("10.0.0.1", None).ok().unwrap();
    let c = scan_config(o, t, Some(ip(10, 0, 0, 9)));
    assert_eq!(c.target_label, "10.0.0.1/32");
    assert_eq!(c.hosts, vec![ip(10, 0, 0, 1)]);
    assert_eq!(c.ports.len(), 33);
    assert_eq!(c.profile, ScanProfile::Light);
    assert_eq!(c.local_ip, Some(ip(10, 0, 0, 9)));
    assert_eq!(c.timeout_ms, 450);
}

#[test]
fn unix_timestamps() {
    assert_eq!(unix_timestamp_secs(UNIX_EPOCH + Duration::from_millis(5_900)), 5);
    assert_eq!(unix_timestamp_secs(UNIX_EPOCH), 0);
    assert_eq!(unix_timestamp_secs(UNIX_EPOCH - Duration::from_secs(10)), 0);
    assert_eq!(unix_timestamp_secs(UNIX_EPOCH + Duration::from_secs(1_700_000_000)), 1_700_000_000);
}

#[test]
fn seconds_before_the_epoch_are_zero() {
    assert_eq!(seconds_or_zero(Some(42)), 42);
    assert_eq!(seconds_or_zero(None), 0);
}

fn options(target: Option<&str>) -> CliOptions {
    CliOptions {
        target: target.map(|t| t.to_string()),
        timeout_ms: 450,
        detect_only: false,
        progress: false,
        profile: ScanProfile::Thorough,
    }
}

#[test]
fn scope_resolution() {
    let small = Detection { ip: ip(10, 1, 2, 3), prefix: 30, report: report() };
    let explicit = resolve_target(&options(Some("10.9.9.9")), None, Some(small)).ok().unwrap();
    assert_eq!(explicit.label, "10.9.9.9/32");
    assert_eq!(explicit.detection.source, DetectionSource::ExplicitTarget);
    assert_eq!(
        resolve_target(&options(Some("10.0.0.0/8")), None, None).err().unwrap(),
        "Refusing to scan networks larger than /24 in the safe default build"
    );
    assert_eq!(
        resolve_target(&options(None), None, None).err().unwrap(),
        "Could not determine local IPv4 subnet"
    );
    let small = Detection { ip: ip(10, 1, 2, 3), prefix: 30, report: report() };
    let detected = resolve_target(&options(None), None, Some(small)).ok().unwrap();
    assert_eq!(detected.label, "10.1.2.0/30");
    assert_eq!(detected.hosts, vec![ip(10, 1, 2, 1), ip(10, 1, 2, 2)]);
    let big = Detection { ip: ip(10, 1, 2, 3), prefix: 23, report: report() };
    assert!(resolve_target(&options(None), None, Some(big)).is_err());
}

#[test]
fn usage_message() {
    let text = usage_text("safesniff");
    assert!(text.starts_with("Usage:\n  safesniff\n  safesniff --progress\n"));
    assert!(text.contains("  safesniff --timeout-ms 700\n\nDefault profile is thorough."));
    assert!(text.ends_with("It does not exploit, brute-force, authenticate, persist, or modify remote systems."));
}

#[test]
fn detection_commands() {
    let n = netstat_command();
    assert_eq!(n.program, "netstat");
    assert_eq!(n.args, vec!["-rn", "-f", "inet"]);
    assert_eq!(route_get_command().args, vec!["-n", "get", "default"]);
    assert_eq!(ip_route_command().args, vec!["route", "show", "default"]);
    let mac = interface_address_command(Platform::MacOs, "en0").unwrap();
    assert_eq!(mac.program, "ifconfig");
    assert_eq!(mac.args, vec!["en0"]);
    let linux = interface_address_command(Platform::Linux, "eth0").unwrap();
    assert_eq!(linux.program, "ip");
    assert_eq!(linux.args, vec!["-o", "-4", "addr", "show", "dev", "eth0"]);
    assert!(interface_address_command(Platform::Windows, "x").is_none());
    assert_eq!(ipconfig_command().program, "ipconfig");
    assert!(ipconfig_command().args.is_empty());
}

#[test]
fn run_configuration_from_scope() {
    assert!(needs_detection(&options(None)));
    assert!(!needs_detection(&options(Some("10.0.0.1"))));
    let c = configure_run(options(Some("10.0.0.0/30")), Some(ip(10, 0, 0, 9)), None).ok().unwrap();
    assert_eq!(c.target_label, "10.0.0.0/30");
    assert_eq!(c.hosts, vec![ip(10, 0, 0, 1), ip(10, 0, 0, 2)]);
    assert_eq!(c.ports.len(), 112);
    assert_eq!(c.target_detection.local_ip, Some("10.0.0.9".to_string()));
    assert_eq!(
        configure_run(options(None), None, None).err().unwrap(),
        "Could not determine local IPv4 subnet"
    );
}
