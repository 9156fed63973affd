use safesniff::services::{
    banner_probe, evidence_for_port, ports_for_profile, ports_of, profile_from_name,
    remediation_hint, security_tag_for_port, service_category, service_name, severity_for_port,
    supports_banner_probe, supports_http_probe, BannerProbe, ScanProfile, SecurityTag,
    ServiceCategory, Severity,
};

#[test]
fn profiles_and_ports() {
    let light = ports_for_profile("light").unwrap();
    let thorough = ports_for_profile("thorough").unwrap();
    assert_eq!(light.len(), 33);
    assert_eq!(thorough.len(), 112);
    assert_eq!(light[0], 22);
    assert_eq!(thorough[0], 20);
    assert_eq!(*thorough.last().unwrap(), 50070);
    assert!(ports_for_profile("Light").is_none());
    assert!(ports_for_profile("").is_none());
    assert_eq!(profile_from_name("thorough"), Some(ScanProfile::Thorough));
    assert_eq!(ports_of(ScanProfile::Light), light);
}

#[test]
fn light_profile_is_a_smaller_subset() {
    let light = ports_of(ScanProfile::Light);
    let thorough = ports_of(ScanProfile::Thorough);
    assert!(light.len() < thorough.len());
    for p in &light {
        assert!(thorough.contains(p));
    }
}

#[test]
fn names_categories_and_severities() {
    assert_eq!(service_name(22), "ssh");
    assert_eq!(service_name(80), "http");
    assert_eq!(service_name(1), "unknown");
    assert_eq!(service_category(3306), ServiceCategory::DatabaseOrDatastore);
    assert_eq!(service_category(22).as_str(), "remote_access_or_management");
    assert_eq!(service_category(25).as_str(), "mail_service");
    assert_eq!(service_category(4444), ServiceCategory::Unknown);
    assert_eq!(severity_for_port(23), Severity::High);
    assert_eq!(severity_for_port(22).as_str(), "medium");
    assert_eq!(severity_for_port(53).as_str(), "info");
    assert_eq!(severity_for_port(4444), Severity::Info);
}

#[test]
fn probes_and_evidence() {
    assert!(supports_http_probe(8080));
    assert!(!supports_http_probe(443));
    assert!(supports_banner_probe(22));
    assert!(!supports_banner_probe(80));
    assert_eq!(banner_probe(22), BannerProbe::ReadGreeting);
    assert_eq!(banner_probe(80), BannerProbe::HttpSummary);
    assert_eq!(banner_probe(443), BannerProbe::NoProbe);
    let ev: Vec<&str> = evidence_for_port(5984).iter().map(|e| e.as_str()).collect();
    assert_eq!(ev, vec!["tcp_connect", "http_head", "common_database_or_infra_port"]);
    let ev22: Vec<&str> = evidence_for_port(22).iter().map(|e| e.as_str()).collect();
    assert_eq!(ev22, vec!["tcp_connect", "banner_read"]);
    assert_eq!(evidence_for_port(443).len(), 1);
}

#[test]
fn remediation_and_tags() {
    assert_eq!(remediation_hint(23), "Disable Telnet; replace with SSH.");
    assert_eq!(
        remediation_hint(110),
        "Review mail service exposure; confirm it is intentional, patched, and access-controlled."
    );
    assert_eq!(security_tag_for_port(23), Some(SecurityTag::LegacyCleartextProtocol));
    assert_eq!(security_tag_for_port(3389).unwrap().as_str(), "remote_admin_surface");
    assert_eq!(security_tag_for_port(62078).unwrap().as_str(), "apple_mobile_pairing_surface");
    assert_eq!(security_tag_for_port(4444), None);
}

#[test]
fn tested_and_probed_ports_have_names() {
    for p in ports_of(ScanProfile::Light) {
        assert_ne!(service_name(p), "unknown");
    }
    for p in 0..=u16::MAX {
        if severity_for_port(p) != Severity::Info || supports_banner_probe(p) || supports_http_probe(p) {
            assert_ne!(service_name(p), "unknown");
        }
    }
    assert!(supports_banner_probe(6379) && supports_banner_probe(62078));
    assert!(!supports_banner_probe(3389));
}
