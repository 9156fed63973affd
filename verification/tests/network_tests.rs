use safesniff::network::{
    cidr_label, dotted_netmask_to_prefix, hex_netmask_to_prefix, hosts_from_cidr, loopback,
    network_ip_for, parse_ipv4_cidr, prefix_to_mask, unspecified,
};
use safesniff::numbers::{ipv4_string, parse_ipv4_str};

fn ip(a: u32, b: u32, c: u32, d: u32) -> u32 {
    (a << 24) | (b << 16) | (c << 8) | d
}

#[test]
fn prefix_masks() {
    assert_eq!(prefix_to_mask(0), 0);
    assert_eq!(prefix_to_mask(8), 0xff00_0000);
    assert_eq!(prefix_to_mask(24), 0xffff_ff00);
    assert_eq!(prefix_to_mask(31), 0xffff_fffe);
    assert_eq!(prefix_to_mask(32), 0xffff_ffff);
}

#[test]
fn network_address_and_label() {
    assert_eq!(network_ip_for(ip(192, 168, 1, 77), 24), ip(192, 168, 1, 0));
    assert_eq!(network_ip_for(ip(10, 1, 2, 3), 8), ip(10, 0, 0, 0));
    assert_eq!(cidr_label(ip(192, 168, 1, 77), 24), "192.168.1.0/24");
    assert_eq!(cidr_label(ip(10, 9, 8, 7), 32), "10.9.8.7/32");
    assert_eq!(cidr_label(ip(10, 9, 8, 7), 0), "0.0.0.0/0");
}

#[test]
fn dotted_netmasks() {
    assert_eq!(dotted_netmask_to_prefix(ip(255, 255, 255, 0)), Some(24));
    assert_eq!(dotted_netmask_to_prefix(ip(255, 255, 255, 252)), Some(30));
    assert_eq!(dotted_netmask_to_prefix(0), Some(0));
    assert_eq!(dotted_netmask_to_prefix(0xffff_ffff), Some(32));
    assert_eq!(dotted_netmask_to_prefix(ip(255, 0, 255, 0)), None);
    assert_eq!(dotted_netmask_to_prefix(ip(0, 0, 0, 255)), None);
}

#[test]
fn netmask_round_trip_for_every_prefix() {
    for p in 0u8..=32 {
        assert_eq!(dotted_netmask_to_prefix(prefix_to_mask(p)), Some(p));
    }
}

#[test]
fn hex_netmasks() {
    assert_eq!(hex_netmask_to_prefix("0xffffff00"), Some(24));
    assert_eq!(hex_netmask_to_prefix("0xffff0000"), Some(16));
    assert_eq!(hex_netmask_to_prefix("ffffff80"), Some(25));
    assert_eq!(hex_netmask_to_prefix("0xff00ff00"), None);
    assert_eq!(hex_netmask_to_prefix("0xzz"), None);
    assert_eq!(hex_netmask_to_prefix("0x1ffffffff"), None);
}

#[test]
fn cidr_parsing() {
    assert_eq!(parse_ipv4_cidr("192.168.1.0/24"), Some((ip(192, 168, 1, 0), 24)));
    assert_eq!(parse_ipv4_cidr("10.0.0.5/32"), Some((ip(10, 0, 0, 5), 32)));
    assert_eq!(parse_ipv4_cidr("10.0.0.5/33"), None);
    assert_eq!(parse_ipv4_cidr("10.0.0.5"), None);
    assert_eq!(parse_ipv4_cidr("10.0.0/8"), None);
    assert_eq!(parse_ipv4_cidr("10.0.0.5/x"), None);
    assert_eq!(parse_ipv4_cidr("10.0.0.5/+8"), Some((ip(10, 0, 0, 5), 8)));
}

#[test]
fn ipv4_text_round_trip() {
    assert_eq!(parse_ipv4_str("192.168.1.10"), Some(ip(192, 168, 1, 10)));
    assert_eq!(parse_ipv4_str("256.1.1.1"), None);
    assert_eq!(parse_ipv4_str("01.1.1.1"), None);
    assert_eq!(parse_ipv4_str("1.1.1"), None);
    assert_eq!(ipv4_string(ip(192, 168, 1, 10)), "192.168.1.10");
    assert_eq!(ipv4_string(0), "0.0.0.0");
    assert_eq!(ipv4_string(0xffff_ffff), "255.255.255.255");
}

#[test]
fn hosts_of_a_slash_24() {
    let hosts = hosts_from_cidr(ip(192, 168, 1, 0), 24);
    assert_eq!(hosts.len(), 254);
    assert_eq!(hosts[0], ip(192, 168, 1, 1));
    assert_eq!(hosts[253], ip(192, 168, 1, 254));
}

#[test]
fn hosts_of_small_networks() {
    assert_eq!(hosts_from_cidr(ip(10, 0, 0, 9), 32), vec![ip(10, 0, 0, 9)]);
    assert_eq!(hosts_from_cidr(ip(10, 0, 0, 9), 31), vec![ip(10, 0, 0, 8), ip(10, 0, 0, 9)]);
    assert_eq!(hosts_from_cidr(ip(10, 0, 0, 9), 30), vec![ip(10, 0, 0, 9), ip(10, 0, 0, 10)]);
    assert_eq!(hosts_from_cidr(ip(10, 0, 0, 77), 29).len(), 6);
}

#[test]
fn hosts_stay_inside_their_network() {
    for p in 24u8..=32 {
        let net = network_ip_for(ip(172, 16, 5, 130), p);
        for h in hosts_from_cidr(net, p) {
            assert_eq!(network_ip_for(h, p), net);
        }
        assert!(hosts_from_cidr(net, p).len() <= 254);
    }
}

#[test]
fn loopback_and_unspecified() {
    assert!(loopback(ip(127, 0, 0, 1)));
    assert!(loopback(ip(127, 255, 0, 1)));
    assert!(!loopback(ip(128, 0, 0, 1)));
    assert!(unspecified(0));
    assert!(!unspecified(1));
}

#[test]
fn printed_netmasks_read_back() {
    for p in 0u8..=32 {
        let text = format!("0x{:08x}", prefix_to_mask(p));
        assert_eq!(hex_netmask_to_prefix(&text), Some(p));
    }
    assert_eq!(hex_netmask_to_prefix("0x"), None);
    assert_eq!(hex_netmask_to_prefix("0xfffffff00"), None);
}
