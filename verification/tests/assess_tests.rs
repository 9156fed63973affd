use safesniff::assess::{
    best_os_hint, count_severity, device_context, exposure_level, has_service,
    has_service_category, host_is_active, host_scan, likely_role, os_hints_for_host, push_os_hint,
    push_unique_static, push_unique_string, security_context, security_tag_for_service,
    service_finding, service_names_for_category, Confidence, DeviceRole, Exposure, HintSource,
    HostScan, OsHint, Posture, ReviewPriority, ServiceFinding,
};
use safesniff::mac::ArpHost;
use safesniff::probe::{HttpDetails, OsGuess, PingResult};
use safesniff::services::{SecurityTag, ServiceCategory, Severity};

fn ip(a: u32, b: u32, c: u32, d: u32) -> u32 {
    (a << 24) | (b << 16) | (c << 8) | d
}

fn scan(addr: u32, ping: bool, ttl: Option<u8>, ports: &[u16]) -> HostScan {
    let services: Vec<ServiceFinding> = ports.iter().map(|p| service_finding(*p, None, None)).collect();
    HostScan { ip: addr, ping_reachable: ping, ttl, os_guess: OsGuess::Unknown, services }
}

fn details(summary: Option<&str>, server: Option<&str>, auth: bool) -> HttpDetails {
    HttpDetails {
        status_line: None,
        status_code: None,
        server: server.map(|s| s.to_string()),
        auth_required: auth,
        redirect: None,
        raw_summary: summary.map(|s| s.to_string()),
    }
}

#[test]
fn findings_for_open_ports() {
    let f = service_finding(22, None, Some("SSH-2.0-OpenSSH".to_string()));
    assert_eq!(f.port, 22);
    assert_eq!(f.service, "ssh");
    assert_eq!(f.state, "open");
    assert_eq!(f.category, ServiceCategory::RemoteAccessOrManagement);
    assert_eq!(f.severity, Severity::Medium);
    assert_eq!(f.banner, Some("SSH-2.0-OpenSSH".to_string()));
    assert_eq!(f.evidence.len(), 2);
    let web = service_finding(80, Some(details(Some("HTTP/1.1 200 OK"), None, false)), Some("x".to_string()));
    assert_eq!(web.banner, Some("HTTP/1.1 200 OK".to_string()));
    let quiet = service_finding(80, Some(details(None, None, false)), Some("x".to_string()));
    assert_eq!(quiet.banner, None);
    assert_eq!(security_tag_for_service(&web), Some(SecurityTag::WebAdminOrAppSurface));
    assert_eq!(security_tag_for_service(&service_finding(4444, None, None)), None);
}

#[test]
fn scans_from_probe_results() {
    let ping = PingResult { reachable: true, ttl: Some(128), os_guess: OsGuess::WindowsProbable };
    let s = host_scan(ip(10, 0, 0, 4), &ping, vec![service_finding(445, None, None)]);
    assert_eq!(s.ip, ip(10, 0, 0, 4));
    assert!(s.ping_reachable);
    assert_eq!(s.ttl, Some(128));
    assert_eq!(s.services.len(), 1);
    assert!(host_is_active(&s));
    assert!(!host_is_active(&scan(1, false, None, &[])));
    assert!(host_is_active(&scan(1, false, None, &[80])));
}

#[test]
fn hints_are_not_repeated() {
    let mut hints: Vec<OsHint> = Vec::new();
    push_os_hint(&mut hints, OsGuess::WindowsPossible, Confidence::Medium, HintSource::OpenTcpPort, "a".to_string());
    push_os_hint(&mut hints, OsGuess::WindowsPossible, Confidence::High, HintSource::OpenTcpPort, "b".to_string());
    assert_eq!(hints.len(), 1);
    assert_eq!(hints[0].evidence, "a");
    push_os_hint(&mut hints, OsGuess::WindowsPossible, Confidence::Medium, HintSource::NameHint, "c".to_string());
    assert_eq!(hints.len(), 2);
}

#[test]
fn hints_for_a_phone() {
    let s = scan(ip(192, 168, 1, 40), true, Some(64), &[62078]);
    let arp = ArpHost { ip: ip(192, 168, 1, 40), mac: "da:a1:19:00:00:01".to_string() };
    let hints = os_hints_for_host(&s, Some(&arp), Some("Johns-iPhone"));
    assert_eq!(hints.len(), 4);
    assert_eq!(hints[0].guess, OsGuess::UnixLikeOrMobileProbable);
    assert_eq!(hints[0].confidence, Confidence::Low);
    assert_eq!(hints[0].source.as_str(), "icmp_ttl");
    assert_eq!(hints[0].evidence, "Observed ping TTL 64");
    assert_eq!(hints[1].guess, OsGuess::MobileOrPrivacyRandomizedMacPossible);
    assert_eq!(hints[1].evidence, "MAC appears locally administered/randomized (da:a1:19:00:00:01)");
    assert_eq!(hints[2].guess, OsGuess::IosOrIpadosPossible);
    assert_eq!(hints[2].evidence, "Name hint contains 'iphone': Johns-iPhone");
    assert_eq!(hints[3].source, HintSource::OpenTcpPort);
    assert_eq!(hints[3].evidence, "Apple lockdown service port 62078 is open");
    assert_eq!(best_os_hint(&hints), (OsGuess::IosOrIpadosPossible, Confidence::High));
}

#[test]
fn hints_for_an_apple_mac_and_ports() {
    let s = scan(ip(192, 168, 1, 41), false, None, &[7000, 7100, 8009]);
    let arp = ArpHost { ip: ip(192, 168, 1, 41), mac: "00:1b:63:84:45:e6".to_string() };
    let hints = os_hints_for_host(&s, Some(&arp), None);
    let guesses: Vec<&str> = hints.iter().map(|h| h.guess.as_str()).collect();
    assert_eq!(
        guesses,
        vec![
            "apple_device_possible",
            "apple_airplay_device_possible",
            "chromecast_android_tv_or_embedded_web_service_possible"
        ]
    );
    assert_eq!(hints[1].evidence, "AirPlay-related port 7000 is open");
}

#[test]
fn best_hint_choice() {
    assert_eq!(best_os_hint(&Vec::new()), (OsGuess::Unknown, Confidence::Absent));
    assert_eq!(Confidence::Absent.as_str(), "none");
    let hints = vec![
        OsHint { guess: OsGuess::WindowsPossible, confidence: Confidence::Medium, source: HintSource::OpenTcpPort, evidence: "w".to_string() },
        OsHint { guess: OsGuess::AndroidPossible, confidence: Confidence::Medium, source: HintSource::NameHint, evidence: "a".to_string() },
        OsHint { guess: OsGuess::UnixLikeOrMobileProbable, confidence: Confidence::Low, source: HintSource::PingTtl, evidence: "t".to_string() },
    ];
    // Equal scores: the later hint wins.
    assert_eq!(best_os_hint(&hints), (OsGuess::AndroidPossible, Confidence::Medium));
}

#[test]
fn roles() {
    let plain = scan(1, true, None, &[]);
    assert_eq!(likely_role(&plain, None, true), DeviceRole::ScannerWorkstation);
    assert_eq!(likely_role(&plain, Some("Living-Room-TV"), false), DeviceRole::SmartTvOrMediaDevice);
    assert_eq!(likely_role(&plain, Some("ipad-kids"), false), DeviceRole::MobileDevice);
    assert_eq!(likely_role(&plain, Some("fritz.fritz.box"), false), DeviceRole::RouterOrGateway);
    assert_eq!(likely_role(&plain, Some("router."), false), DeviceRole::RouterOrGateway);
    assert_eq!(likely_role(&plain, Some("fritz.box"), false), DeviceRole::ActiveEndpoint);
    assert_eq!(likely_role(&scan(1, false, None, &[53, 80]), None, false), DeviceRole::RouterOrGateway);
    assert_eq!(likely_role(&scan(1, false, None, &[445]), None, false), DeviceRole::WindowsWorkstationOrFileSharingHost);
    assert_eq!(likely_role(&scan(1, false, None, &[631]), None, false), DeviceRole::PrinterOrMultifunctionDevice);
    assert_eq!(likely_role(&scan(1, false, None, &[6379]), None, false), DeviceRole::ServerOrDeveloperServiceHost);
    assert_eq!(likely_role(&scan(1, false, None, &[22]), None, false), DeviceRole::ManagedEndpoint);
    assert_eq!(likely_role(&scan(1, false, None, &[]), None, false).as_str(), "observed_endpoint");
}

#[test]
fn exposure_levels() {
    assert_eq!(exposure_level(1, 0, 1), Exposure::High);
    assert_eq!(exposure_level(0, 2, 3), Exposure::Medium);
    assert_eq!(exposure_level(0, 0, 1), Exposure::Low);
    assert_eq!(exposure_level(0, 0, 0).as_str(), "minimal");
}

#[test]
fn service_queries() {
    let s = scan(1, false, None, &[22, 23, 80, 445]);
    assert!(has_service(&s, 80));
    assert!(!has_service(&s, 81));
    assert!(has_service_category(&s, ServiceCategory::FileSharingOrRpc));
    assert!(!has_service_category(&s, ServiceCategory::MailService));
    assert_eq!(count_severity(&s.services, Severity::High), 2);
    assert_eq!(count_severity(&s.services, Severity::Medium), 2);
    assert_eq!(
        service_names_for_category(&s, ServiceCategory::RemoteAccessOrManagement),
        vec!["ssh:22".to_string(), "telnet:23".to_string()]
    );
}

#[test]
fn context_of_a_file_server() {
    let s = scan(ip(192, 168, 1, 50), true, None, &[22, 445]);
    let ctx = device_context(&s, None, false, &Vec::new());
    assert_eq!(ctx.label, "192.168.1.50");
    assert_eq!(ctx.likely_role, DeviceRole::WindowsWorkstationOrFileSharingHost);
    assert_eq!(ctx.likely_os, OsGuess::Unknown);
    assert_eq!(ctx.confidence, Confidence::Absent);
    assert_eq!(ctx.exposure_level, Exposure::High);
    assert_eq!(
        ctx.headline,
        "192.168.1.50 appears to be a windows_workstation_or_file_sharing_host with high exposure."
    );
    assert_eq!(
        ctx.notable_findings,
        vec![
            "2 tested TCP service(s) were open: 1 high, 1 medium.".to_string(),
            "remote_access_or_management: ssh:22".to_string(),
            "file_sharing_or_rpc: smb:445".to_string(),
        ]
    );
    assert_eq!(
        ctx.suggested_followups,
        vec!["Review whether high-risk services are expected and restrict them to trusted devices or admin networks.".to_string()]
    );
}

#[test]
fn context_of_the_scanner() {
    let s = scan(ip(192, 168, 1, 5), true, Some(64), &[]);
    let hints = os_hints_for_host(&s, None, Some("my-android"));
    let ctx = device_context(&s, Some("my-android"), true, &hints);
    assert_eq!(ctx.label, "my-android");
    assert_eq!(ctx.likely_role, DeviceRole::ScannerWorkstation);
    assert_eq!(ctx.likely_os, OsGuess::AndroidPossible);
    assert_eq!(ctx.exposure_level, Exposure::Minimal);
    assert_eq!(
        ctx.notable_findings,
        vec![
            "This is the machine that ran the scan.".to_string(),
            "No tested TCP services were open; device was observed by ping or ARP only.".to_string(),
            "Best OS/device hint: android_possible (medium)".to_string(),
        ]
    );
    assert_eq!(ctx.suggested_followups.len(), 2);
    assert_eq!(
        ctx.suggested_followups[1],
        "For mobile devices, check OS update status and avoid joining untrusted Wi-Fi networks."
    );
}

#[test]
fn security_context_of_a_file_server() {
    let s = scan(ip(192, 168, 1, 50), true, None, &[22, 445, 3389]);
    let ctx = device_context(&s, None, false, &Vec::new());
    let sec = security_context(&s, None, None, false, &ctx);
    assert_eq!(sec.risk_tags, vec!["remote_admin_surface", "file_sharing_or_rpc_surface"]);
    assert!(sec.protective_signals.is_empty());
    assert_eq!(
        sec.evidence_gaps,
        vec![
            "mac_vendor_not_observed",
            "icmp_ttl_not_observed",
            "os_family_unknown",
            "low_confidence_device_fingerprint",
            "hostname_not_observed"
        ]
    );
    assert_eq!(
        sec.ai_correlation_terms,
        vec![
            "ssh tcp/22".to_string(),
            "smb tcp/445".to_string(),
            "rdp tcp/3389".to_string(),
            "role windows_workstation_or_file_sharing_host".to_string(),
        ]
    );
    assert_eq!(sec.ai_questions.len(), 4);
    assert_eq!(
        sec.ai_questions[0],
        "Are the observed services expected for a windows_workstation_or_file_sharing_host on this network?"
    );
    assert_eq!(sec.ai_questions[2], "Is SMB exposure required, patched, and limited to trusted local clients?");
    assert_eq!(sec.review_priority, ReviewPriority::High);
    assert_eq!(sec.posture, Posture::ReviewExposedHighRiskServices);
}

#[test]
fn security_context_of_a_quiet_router() {
    let s = scan(ip(192, 168, 1, 1), true, Some(64), &[]);
    let arp = ArpHost { ip: ip(192, 168, 1, 1), mac: "c8:0e:14:00:00:01".to_string() };
    let hints = os_hints_for_host(&s, Some(&arp), Some("fritz.fritz.box"));
    let ctx = device_context(&s, Some("fritz.fritz.box"), false, &hints);
    assert_eq!(ctx.likely_role, DeviceRole::RouterOrGateway);
    let sec = security_context(&s, Some(&arp), Some("fritz.fritz.box"), false, &ctx);
    assert!(sec.risk_tags.is_empty());
    assert_eq!(sec.protective_signals, vec!["no_tested_tcp_services_open"]);
    assert_eq!(sec.evidence_gaps, vec!["device_identity_from_network_metadata_only", "low_confidence_device_fingerprint"]);
    assert_eq!(
        sec.ai_correlation_terms,
        vec![
            "role router_or_gateway".to_string(),
            "device os hint unix_like_or_mobile_probable".to_string(),
            "hostname fritz.fritz.box".to_string(),
            "mac vendor AVM / FRITZ!Box".to_string(),
        ]
    );
    assert_eq!(sec.review_priority, ReviewPriority::Medium);
    assert_eq!(sec.posture.as_str(), "no_tested_tcp_exposure_observed");
}

#[test]
fn security_terms_from_web_details() {
    let web = service_finding(8080, Some(details(Some("HTTP/1.1 401"), Some("lighttpd"), true)), None);
    let s = HostScan { ip: 7, ping_reachable: false, ttl: None, os_guess: OsGuess::Unknown, services: vec![web] };
    let ctx = device_context(&s, None, true, &Vec::new());
    let sec = security_context(&s, None, None, true, &ctx);
    assert_eq!(sec.protective_signals, vec!["http_auth_challenge_observed", "scanner_local_machine_identified"]);
    assert_eq!(
        sec.ai_correlation_terms[..3].to_vec(),
        vec![
            "http-alt tcp/8080".to_string(),
            "http-alt banner HTTP/1.1 401".to_string(),
            "http server lighttpd".to_string(),
        ]
    );
}

#[test]
fn unique_lists_never_repeat() {
    let mut tags: Vec<&'static str> = Vec::new();
    for t in ["a", "b", "a", "c", "b"] {
        push_unique_static(&mut tags, t);
    }
    assert_eq!(tags, vec!["a", "b", "c"]);
    let mut terms: Vec<String> = Vec::new();
    for t in ["x", "y", "x"] {
        push_unique_string(&mut terms, t.to_string());
    }
    assert_eq!(terms, vec!["x".to_string(), "y".to_string()]);
}
