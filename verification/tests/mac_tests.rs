use safesniff::mac::{
    arp_command, arp_host_map, arp_line_has_real_mac, count_arp_hosts_in_target, extract_first_mac_from_line,
    extract_ipv4s_from_text, extract_valid_arp_hosts, get_arp_cache_hosts, ipv4_in_target,
    mac_type, normalize_mac, token_looks_like_mac, vendor_hint, ArpHost, MacType, Vendor,
};

fn ip(a: u32, b: u32, c: u32, d: u32) -> u32 {
    (a << 24) | (b << 16) | (c << 8) | d
}

#[test]
fn mac_tokens() {
    assert!(token_looks_like_mac("aa:bb:cc:dd:ee:ff"));
    assert!(token_looks_like_mac("(AA-BB-CC-DD-EE-FF)"));
    assert!(token_looks_like_mac("a:b:c:d:e:f"));
    assert!(token_looks_like_mac("[0:1b:63:84:45:e6],"));
    assert!(!token_looks_like_mac("aa:bb:cc"));
    assert!(!token_looks_like_mac("gg:bb:cc:dd:ee:ff"));
    assert!(!token_looks_like_mac("aaa:bb:cc:dd:ee:ff"));
    assert!(!token_looks_like_mac("aa::cc:dd:ee:ff"));
    assert!(!token_looks_like_mac("aabbccddeeff"));
    assert!(!token_looks_like_mac(""));
}

#[test]
fn mac_normal_form() {
    assert_eq!(normalize_mac("0:1B:63:84:45:E6"), Some("00:1b:63:84:45:e6".to_string()));
    assert_eq!(normalize_mac("(aa-bb-cc-dd-ee-ff)"), Some("aa:bb:cc:dd:ee:ff".to_string()));
    assert_eq!(normalize_mac("at"), None);
    assert_eq!(normalize_mac("1:2:3:4:5"), None);
}

#[test]
fn mac_normal_form_is_stable() {
    for token in ["0:1B:63:84:45:E6", "(aa-bb-cc-dd-ee-ff)", "a:b:c:d:e:f", "00-15-5D-01-02-03"] {
        let once = normalize_mac(token).unwrap();
        assert_eq!(normalize_mac(&once), Some(once.clone()));
        assert_eq!(once.len(), 17);
    }
}

#[test]
fn first_mac_of_a_line() {
    assert_eq!(
        extract_first_mac_from_line("? (192.168.1.1) at 0:1b:63:84:45:e6 on en0 ifscope [ethernet]"),
        Some("00:1b:63:84:45:e6".to_string())
    );
    assert_eq!(extract_first_mac_from_line("no mac here"), None);
}

#[test]
fn real_arp_lines() {
    assert!(arp_line_has_real_mac("? (192.168.1.1) at 0:1b:63:84:45:e6 on en0"));
    assert!(!arp_line_has_real_mac("? (192.168.1.9) at (incomplete) on en0"));
    assert!(!arp_line_has_real_mac("? (192.168.1.255) at ff:ff:ff:ff:ff:ff on en0"));
    assert!(!arp_line_has_real_mac("  224.0.0.22  01-00-5e-00-00-16  static  PERMANENT"));
    assert!(!arp_line_has_real_mac("nothing to see"));
}

#[test]
fn addresses_in_text() {
    assert_eq!(
        extract_ipv4s_from_text("? (192.168.1.1) at x [10.0.0.2],0.0.0.0 127.0.0.1 8.8.8.8"),
        vec![ip(192, 168, 1, 1), ip(10, 0, 0, 2), ip(8, 8, 8, 8)]
    );
    assert!(extract_ipv4s_from_text("").is_empty());
}

#[test]
fn arp_listing_entries() {
    let listing = "? (192.168.1.1) at 0:1b:63:84:45:e6 on en0 ifscope [ethernet]\n\
                   ? (192.168.1.9) at (incomplete) on en0 ifscope [ethernet]\n\
                   ? (192.168.1.20) at 08:00:27:aa:bb:cc on en0 ifscope [ethernet]\n";
    let hosts = extract_valid_arp_hosts(listing);
    assert_eq!(hosts.len(), 2);
    assert_eq!(hosts[0].ip, ip(192, 168, 1, 1));
    assert_eq!(hosts[0].mac, "00:1b:63:84:45:e6");
    assert_eq!(hosts[1].ip, ip(192, 168, 1, 20));
    assert_eq!(hosts[1].mac, "08:00:27:aa:bb:cc");
}

#[test]
fn arp_cache_keeps_first_entry_per_address() {
    let listing = "? (192.168.1.1) at 0:1b:63:84:45:e6 on en0\n\
                   ? (192.168.1.1) at 08:00:27:aa:bb:cc on en1\n\
                   ? (192.168.1.2) at 08:00:27:aa:bb:cd on en1\n";
    let hosts = get_arp_cache_hosts(Some(listing.to_string()));
    assert_eq!(hosts.len(), 2);
    assert_eq!(hosts[0].mac, "00:1b:63:84:45:e6");
    assert_eq!(hosts[1].ip, ip(192, 168, 1, 2));
    for i in 0..hosts.len() {
        for j in (i + 1)..hosts.len() {
            assert_ne!(hosts[i].ip, hosts[j].ip);
        }
    }
    assert!(get_arp_cache_hosts(None).is_empty());
}

#[test]
fn target_membership_and_counts() {
    let targets = vec![ip(192, 168, 1, 1), ip(192, 168, 1, 2)];
    assert!(ipv4_in_target(ip(192, 168, 1, 2), &targets));
    assert!(!ipv4_in_target(ip(192, 168, 1, 3), &targets));
    let hosts = vec![
        ArpHost { ip: ip(192, 168, 1, 1), mac: "aa:aa:aa:aa:aa:01".to_string() },
        ArpHost { ip: ip(192, 168, 1, 1), mac: "aa:aa:aa:aa:aa:02".to_string() },
        ArpHost { ip: ip(10, 0, 0, 1), mac: "aa:aa:aa:aa:aa:03".to_string() },
    ];
    assert_eq!(count_arp_hosts_in_target(&hosts, &targets), 2);
    let map = arp_host_map(&hosts, &targets);
    assert_eq!(map.len(), 1);
    assert_eq!(map.get(&ip(192, 168, 1, 1)).unwrap().mac, "aa:aa:aa:aa:aa:01");
    assert!(map.get(&ip(10, 0, 0, 1)).is_none());
}

#[test]
fn vendors() {
    assert_eq!(vendor_hint("00:1b:63:84:45:e6"), Vendor::Apple);
    assert_eq!(vendor_hint("00:1b:63:84:45:e6").as_str(), "Apple");
    assert_eq!(vendor_hint("c8:0e:14:00:00:01").as_str(), "AVM / FRITZ!Box");
    assert_eq!(vendor_hint("00:15:5d:00:00:01").as_str(), "Microsoft Hyper-V");
    assert_eq!(vendor_hint("08:00:27:00:00:01").as_str(), "VirtualBox");
    assert_eq!(vendor_hint("00:1B:63:84:45:E6"), Vendor::Unknown);
    assert_eq!(vendor_hint("00:1b"), Vendor::Unknown);
    assert_eq!(vendor_hint("").as_str(), "unknown");
}

#[test]
fn address_types() {
    assert_eq!(mac_type("00:1b:63:84:45:e6"), MacType::GloballyAdministered);
    assert_eq!(mac_type("02:00:00:00:00:01"), MacType::LocallyAdministeredOrRandomized);
    assert_eq!(mac_type("01:00:5e:00:00:16"), MacType::MulticastOrInvalidForHost);
    assert_eq!(mac_type("03:00:00:00:00:00").as_str(), "multicast_or_invalid_for_host");
    assert_eq!(mac_type("zz:00:00:00:00:00"), MacType::Unknown);
    assert_eq!(mac_type("0"), MacType::Unknown);
    assert_eq!(mac_type("da:a1:19:00:00:00").as_str(), "locally_administered_or_randomized");
}

#[test]
fn arp_listing_command() {
    let c = arp_command();
    assert_eq!(c.program, "arp");
    assert_eq!(c.args, vec!["-a"]);
}

#[test]
fn mac_shaped_tokens_always_normalize() {
    for token in ["a:b:c:d:e:f", "(AA-BB-CC-DD-EE-FF)", "[0:1b:63:84:45:e6],", "00-15-5D-01-02-03"] {
        assert!(token_looks_like_mac(token));
        let m = normalize_mac(token).unwrap();
        assert!(token_looks_like_mac(&m));
        let groups: Vec<&str> = m.split(':').collect();
        assert_eq!(groups.len(), 6);
        assert!(groups.iter().all(|g| g.len() == 2 && g.chars().all(|c| c.is_ascii_digit() || ('a'..='f').contains(&c))));
    }
}
