use safesniff::assess::{service_finding, HostScan, ServiceFinding};
use safesniff::mac::{ArpHost, MacType, Vendor};
use safesniff::probe::{OsGuess, PingResult};
use safesniff::report::{
    arp_hosts_in_target, device_inventory, host_report, host_reports, host_status,
    inventory_device, name_hint, not_observed_hosts, observed_flags, observed_host_report,
    planned_attempts, progress_line, safety_report, summary_report, HostStatus, Overall,
};
use safesniff::assess::{DeviceRole, ReviewPriority};

fn ip(a: u32, b: u32, c: u32, d: u32) -> u32 {
    (a << 24) | (b << 16) | (c << 8) | d
}

fn scan(addr: u32, ping: bool, ports: &[u16]) -> HostScan {
    let services: Vec<ServiceFinding> = ports.iter().map(|p| service_finding(*p, None, None)).collect();
    HostScan { ip: addr, ping_reachable: ping, ttl: None, os_guess: OsGuess::Unknown, services }
}

fn arp(addr: u32, mac: &str) -> ArpHost {
    ArpHost { ip: addr, mac: mac.to_string() }
}

#[test]
fn statuses() {
    assert_eq!(host_status(&scan(1, false, &[80]), false), HostStatus::ActiveWithOpenServices);
    assert_eq!(host_status(&scan(1, true, &[]), false), HostStatus::ActiveNoTestedServices);
    assert_eq!(host_status(&scan(1, false, &[]), true).as_str(), "active_no_tested_services");
    assert_eq!(host_status(&scan(1, false, &[]), false).as_str(), "not_observed");
}

#[test]
fn name_hints_prefer_reverse_dns() {
    assert_eq!(name_hint(Some("a".to_string()), Some("b".to_string())), Some("a".to_string()));
    assert_eq!(name_hint(None, Some("b".to_string())), Some("b".to_string()));
    assert_eq!(name_hint(None, None), None);
}

#[test]
fn report_on_one_host() {
    let s = scan(ip(192, 168, 1, 7), false, &[445]);
    let entry = arp(ip(192, 168, 1, 7), "00:15:5d:00:00:07");
    let r = host_report(&s, Some(&entry), Some(ip(192, 168, 1, 7)), Some("win-box".to_string()));
    assert_eq!(r.ip, "192.168.1.7");
    assert_eq!(r.status, HostStatus::ActiveWithOpenServices);
    assert!(r.is_local_machine);
    assert_eq!(r.name_hint, Some("win-box".to_string()));
    assert!(r.discovery.likely_active);
    assert!(r.discovery.arp_seen);
    assert_eq!(r.discovery.open_tcp_service_count, 1);
    assert_eq!(r.mac, Some("00:15:5d:00:00:07".to_string()));
    assert_eq!(r.mac_type, Some(MacType::GloballyAdministered));
    assert_eq!(r.vendor_hint, Some(Vendor::MicrosoftHyperV));
    assert_eq!(r.device_context.label, "win-box");
    assert_eq!(r.device_context.likely_role, DeviceRole::ScannerWorkstation);
    assert_eq!(r.os_hints.len(), 2);
    assert_eq!(r.services.len(), 1);
    assert_eq!(r.services[0].port, 445);
    assert_eq!(r.security_context.review_priority, ReviewPriority::High);
}

#[test]
fn names_are_kept_only_for_active_hosts() {
    let s = scan(ip(192, 168, 1, 8), false, &[]);
    let r = host_report(&s, None, None, Some("ghost".to_string()));
    assert_eq!(r.status, HostStatus::NotObserved);
    assert!(!r.discovery.likely_active);
    assert_eq!(r.name_hint, None);
    assert_eq!(r.device_context.label, "192.168.1.8");
    assert_eq!(r.mac, None);
}

fn fixture() -> (Vec<HostScan>, Vec<ArpHost>, Vec<u32>) {
    let targets = vec![ip(10, 0, 0, 1), ip(10, 0, 0, 2), ip(10, 0, 0, 3), ip(10, 0, 0, 4)];
    let scans = vec![
        scan(ip(10, 0, 0, 1), true, &[]),
        scan(ip(10, 0, 0, 2), false, &[]),
        scan(ip(10, 0, 0, 3), false, &[23, 80]),
        scan(ip(10, 0, 0, 4), false, &[]),
    ];
    let arp_hosts = vec![arp(ip(10, 0, 0, 2), "00:1b:63:84:45:e6"), arp(ip(10, 9, 9, 9), "00:1b:63:84:45:e7")];
    (scans, arp_hosts, targets)
}

#[test]
fn reported_and_unobserved_hosts_partition_the_scans() {
    let (scans, arp_hosts, targets) = fixture();
    let names = vec![None, Some("mac-mini".to_string()), None, None];
    let reports = host_reports(&scans, &arp_hosts, &targets, None, &names);
    let missing = not_observed_hosts(&scans, &arp_hosts, &targets);
    assert_eq!(reports.len(), 3);
    assert_eq!(reports[0].ip, "10.0.0.1");
    assert_eq!(reports[1].ip, "10.0.0.2");
    assert_eq!(reports[1].name_hint, Some("mac-mini".to_string()));
    assert_eq!(reports[1].mac, Some("00:1b:63:84:45:e6".to_string()));
    assert_eq!(reports[2].ip, "10.0.0.3");
    assert_eq!(missing, vec!["10.0.0.4".to_string()]);
    assert_eq!(reports.len() + missing.len(), scans.len());
    assert!(reports.iter().all(|h| !missing.contains(&h.ip)));
}

#[test]
fn missing_names_count_as_none_found() {
    let (scans, arp_hosts, targets) = fixture();
    let reports = host_reports(&scans, &arp_hosts, &targets, None, &Vec::new());
    assert!(reports.iter().all(|r| r.name_hint.is_none()));
}

#[test]
fn inventory_rows_and_counts() {
    let (scans, arp_hosts, targets) = fixture();
    let reports = host_reports(&scans, &arp_hosts, &targets, None, &Vec::new());
    let row = inventory_device(&reports[2]);
    assert_eq!(row.ip, "10.0.0.3");
    assert_eq!(row.open_service_count, 2);
    assert_eq!(row.high_count, 1);
    assert_eq!(row.medium_count, 1);
    assert_eq!(row.open_ports, vec![23, 80]);
    assert_eq!(row.service_names, vec!["telnet", "http"]);
    assert_eq!(row.risk_tags, vec!["legacy_cleartext_protocol", "web_admin_or_app_surface"]);
    let inv = device_inventory(&reports, 1);
    assert_eq!(inv.observed_device_count, 3);
    assert_eq!(inv.active_with_open_services, 1);
    assert_eq!(inv.active_without_open_services, 2);
    assert_eq!(
        inv.active_with_open_services + inv.active_without_open_services,
        inv.observed_device_count
    );
    assert_eq!(inv.inactive_address_count, 1);
    assert_eq!(inv.devices.len(), 3);
    assert!(inv.note.starts_with("This is the primary device inventory."));
}

#[test]
fn summary_counts() {
    let (scans, arp_hosts, targets) = fixture();
    let s = summary_report(&scans, &arp_hosts, &targets);
    assert_eq!(s.active_hosts, 3);
    assert_eq!(s.inactive_or_unobserved_hosts, 1);
    assert_eq!(s.hosts_with_open_services, 1);
    assert_eq!(s.observed_hosts, 1);
    assert_eq!(s.open_service_count, 2);
    assert_eq!(s.high_count, 1);
    assert_eq!(s.medium_count, 1);
    assert_eq!(s.overall, Overall::Warnings);
    assert_eq!(s.overall.as_str(), "warnings");
    let reports = host_reports(&scans, &arp_hosts, &targets, None, &Vec::new());
    assert_eq!(s.active_hosts, reports.len());
    assert_eq!(s.inactive_or_unobserved_hosts, not_observed_hosts(&scans, &arp_hosts, &targets).len());
}

#[test]
fn summary_verdicts() {
    let targets = vec![1, 2];
    let medium = vec![scan(1, false, &[22])];
    assert_eq!(summary_report(&medium, &Vec::new(), &targets).overall, Overall::Review);
    let clear = vec![scan(1, true, &[53]), scan(2, false, &[])];
    let s = summary_report(&clear, &Vec::new(), &targets);
    assert_eq!(s.overall, Overall::Clear);
    assert_eq!(s.active_hosts, 1);
    assert_eq!(s.inactive_or_unobserved_hosts, 1);
}

#[test]
fn safety_statement() {
    let s = safety_report();
    assert!(!s.exploit_checks);
    assert!(!s.credential_attempts);
    assert!(!s.bruteforce);
    assert!(!s.persistence);
    assert!(!s.packet_capture);
}

#[test]
fn arp_rows() {
    let (_, arp_hosts, targets) = fixture();
    let inside = arp_hosts_in_target(&arp_hosts, &targets);
    assert_eq!(inside.len(), 1);
    assert_eq!(inside[0].ip, ip(10, 0, 0, 2));
    let ping = PingResult { reachable: true, ttl: Some(64), os_guess: OsGuess::UnixLikeOrMobileProbable };
    let row = observed_host_report(&inside[0], &ping, Some("mac-mini".to_string()), Some(ip(10, 0, 0, 9)));
    assert_eq!(row.ip, "10.0.0.2");
    assert!(!row.is_local_machine);
    assert_eq!(row.mac, "00:1b:63:84:45:e6");
    assert_eq!(row.vendor_hint.as_str(), "Apple");
    assert_eq!(row.mac_type.as_str(), "globally_administered");
    assert_eq!(row.name_hint, Some("mac-mini".to_string()));
    assert!(row.ping_reachable);
    assert_eq!(row.ttl, Some(64));
    assert_eq!(row.source, "arp_cache");
}

#[test]
fn progress_lines() {
    assert_eq!(
        progress_line(0, 254, 0, 0, 0),
        "\r[------------------------------]   0% 0/254 hosts active=0 open_services=0 elapsed=0s"
    );
    assert_eq!(
        progress_line(127, 254, 3, 5, 12),
        "\r[###############---------------]  50% 127/254 hosts active=3 open_services=5 elapsed=12s"
    );
    assert_eq!(
        progress_line(254, 254, 9, 1, 61),
        "\r[##############################] 100% 254/254 hosts active=9 open_services=1 elapsed=61s"
    );
    assert_eq!(
        progress_line(3, 0, 0, 0, 1),
        "\r[##############################] 100% 3/0 hosts active=0 open_services=0 elapsed=1s"
    );
}

#[test]
fn observed_flags_follow_the_reports() {
    let (scans, arp_hosts, targets) = fixture();
    assert_eq!(observed_flags(&scans, &arp_hosts, &targets), vec![true, true, true, false]);
}

#[test]
fn planned_connection_counts() {
    assert_eq!(planned_attempts(254, 112), 28448);
    assert_eq!(planned_attempts(0, 33), 0);
    assert_eq!(planned_attempts(usize::MAX, 2), usize::MAX);
}
