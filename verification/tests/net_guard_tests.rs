use cosmic_wallpaper::net_guard::{all_resolved_safe, first_safe_ip, is_safe_ip, IpAddress};

fn v4(a: u8, b: u8, c: u8, d: u8) -> IpAddress {
    IpAddress::V4([a, b, c, d])
}

fn v6(s: [u16; 8]) -> IpAddress {
    IpAddress::V6(s)
}

#[test]
fn test_is_safe_ip() {
    let blocked_v4 = [
        v4(127, 0, 0, 1),       // loopback
        v4(10, 0, 0, 1),        // private
        v4(172, 16, 0, 1),      // private
        v4(192, 168, 1, 1),     // private
        v4(169, 254, 1, 1),     // link-local
        v4(0, 0, 0, 0),         // unspecified
        v4(0, 1, 2, 3),         // 0.0.0.0/8
        v4(255, 255, 255, 255), // broadcast
        v4(224, 0, 0, 1),       // multicast
        v4(100, 64, 0, 1),      // shared / CGNAT
        v4(100, 127, 255, 254), // shared / CGNAT upper edge
        v4(192, 0, 0, 8),       // IETF protocol assignments
        v4(198, 18, 0, 1),      // benchmarking
        v4(198, 19, 255, 254),  // benchmarking upper edge
        v4(240, 0, 0, 1),       // reserved
    ];
    for ip in blocked_v4 {
        assert!(!is_safe_ip(ip), "{ip:?} should be blocked");
    }

    let allowed_v4 = [
        v4(93, 184, 216, 34),
        v4(100, 63, 0, 1),  // just below the CGNAT range
        v4(100, 128, 0, 1), // just above the CGNAT range
        v4(192, 0, 1, 1),   // adjacent to 192.0.0.0/24
        v4(198, 17, 0, 1),  // just below benchmarking
        v4(198, 20, 0, 1),  // just above benchmarking
    ];
    for ip in allowed_v4 {
        assert!(is_safe_ip(ip), "{ip:?} should be allowed");
    }

    let blocked_v6 = [
        v6([0, 0, 0, 0, 0, 0, 0, 1]),                     // ::1 loopback
        v6([0, 0, 0, 0, 0, 0, 0, 0]),                     // :: unspecified
        v6([0xfc00, 0, 0, 0, 0, 0, 0, 1]),                // fc00::1 unique local
        v6([0xfe80, 0, 0, 0, 0, 0, 0, 1]),                // fe80::1 link local
        v6([0xff02, 0, 0, 0, 0, 0, 0, 1]),                // ff02::1 multicast
        v6([0, 0, 0, 0, 0, 0xffff, 0x7f00, 0x0001]),      // ::ffff:127.0.0.1 v4-mapped loopback
        v6([0, 0, 0, 0, 0, 0, 0x0a00, 0x0001]),           // ::10.0.0.1 v4-compatible private
        v6([0x64, 0xff9b, 0, 0, 0, 0, 0x7f00, 0x0001]),   // 64:ff9b::7f00:1 NAT64 127.0.0.1
    ];
    for ip in blocked_v6 {
        assert!(!is_safe_ip(ip), "{ip:?} should be blocked");
    }

    // 2606:2800:220:1:248:1893:25c8:1946
    let allowed_v6 = v6([0x2606, 0x2800, 0x0220, 0x0001, 0x0248, 0x1893, 0x25c8, 0x1946]);
    assert!(is_safe_ip(allowed_v6));
    // ::ffff:93.184.216.34
    let mapped_public = v6([0, 0, 0, 0, 0, 0xffff, 0x5db8, 0xd822]);
    assert!(is_safe_ip(mapped_public));
}

#[test]
fn private_range_edges() {
    assert!(!is_safe_ip(IpAddress::V4([172, 31, 255, 255])));
    assert!(is_safe_ip(IpAddress::V4([172, 32, 0, 1])));
    assert!(is_safe_ip(IpAddress::V4([172, 15, 0, 1])));
    assert!(!is_safe_ip(IpAddress::V4([239, 255, 255, 255])));
    assert!(is_safe_ip(IpAddress::V4([223, 255, 255, 255])));
    // IPv4-compatible public address is judged as that address.
    assert!(is_safe_ip(IpAddress::V6([0, 0, 0, 0, 0, 0, 0x5db8, 0xd822])));
}

#[test]
fn first_safe_address_is_pinned() {
    let addrs = [
        IpAddress::V4([127, 0, 0, 1]),
        IpAddress::V4([10, 1, 2, 3]),
        IpAddress::V4([93, 184, 216, 34]),
        IpAddress::V4([1, 1, 1, 1]),
    ];
    assert_eq!(first_safe_ip(&addrs), Some(2));
    assert_eq!(first_safe_ip(&addrs[..2]), None);
    assert_eq!(first_safe_ip(&[]), None);
}

#[test]
fn every_resolved_address_must_be_safe() {
    let public = IpAddress::V4([93, 184, 216, 34]);
    let local = IpAddress::V4([127, 0, 0, 1]);
    assert!(all_resolved_safe(&[public, IpAddress::V4([1, 1, 1, 1])]));
    assert!(!all_resolved_safe(&[public, local]));
    // Nothing resolved: refused too.
    assert!(!all_resolved_safe(&[]));
}
