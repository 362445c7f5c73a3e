use webhook_dispatcher::address::{is_private_ip, select_target, IpAddress, SocketAddress};

fn v4(a: u8, b: u8, c: u8, d: u8) -> IpAddress {
    IpAddress::V4([a, b, c, d])
}

fn at(ip: IpAddress) -> SocketAddress {
    SocketAddress { ip, port: 443 }
}

#[test]
fn private_ranges_are_blocked() {
    assert!(is_private_ip(v4(10, 0, 0, 1)));
    assert!(is_private_ip(v4(10, 255, 255, 255)));
    assert!(is_private_ip(v4(172, 16, 0, 1)));
    assert!(is_private_ip(v4(172, 31, 255, 255)));
    assert!(is_private_ip(v4(192, 168, 1, 1)));
    assert!(!is_private_ip(v4(172, 15, 0, 1)));
    assert!(!is_private_ip(v4(172, 32, 0, 1)));
    assert!(!is_private_ip(v4(192, 167, 1, 1)));
    assert!(!is_private_ip(v4(11, 0, 0, 1)));
}

#[test]
fn loopback_link_local_and_unspecified_are_blocked() {
    assert!(is_private_ip(v4(127, 0, 0, 1)));
    assert!(is_private_ip(v4(127, 255, 255, 254)));
    assert!(is_private_ip(v4(169, 254, 169, 254)));
    assert!(is_private_ip(v4(0, 0, 0, 0)));
    assert!(!is_private_ip(v4(0, 0, 0, 1)));
    assert!(!is_private_ip(v4(169, 253, 0, 1)));
    assert!(!is_private_ip(v4(128, 0, 0, 1)));
}

#[test]
fn documentation_ranges_are_blocked() {
    assert!(is_private_ip(v4(192, 0, 2, 7)));
    assert!(is_private_ip(v4(198, 51, 100, 7)));
    assert!(is_private_ip(v4(203, 0, 113, 7)));
    assert!(!is_private_ip(v4(192, 0, 3, 7)));
    assert!(!is_private_ip(v4(198, 51, 101, 7)));
    assert!(!is_private_ip(v4(203, 0, 114, 7)));
}

#[test]
fn public_v4_addresses_pass() {
    assert!(!is_private_ip(v4(8, 8, 8, 8)));
    assert!(!is_private_ip(v4(93, 184, 216, 34)));
    assert!(!is_private_ip(v4(255, 255, 255, 255)));
}

#[test]
fn v6_exclusions() {
    assert!(is_private_ip(IpAddress::V6([0, 0, 0, 0, 0, 0, 0, 1])));
    assert!(is_private_ip(IpAddress::V6([0, 0, 0, 0, 0, 0, 0, 0])));
    assert!(is_private_ip(IpAddress::V6([0xfc00, 0, 0, 0, 0, 0, 0, 1])));
    assert!(is_private_ip(IpAddress::V6([0xfdff, 1, 2, 3, 4, 5, 6, 7])));
    assert!(is_private_ip(IpAddress::V6([0xff02, 0, 0, 0, 0, 0, 0, 1])));
    assert!(!is_private_ip(IpAddress::V6([0xfe00, 0, 0, 0, 0, 0, 0, 1])));
    assert!(!is_private_ip(IpAddress::V6([0xfbff, 0, 0, 0, 0, 0, 0, 1])));
    assert!(!is_private_ip(IpAddress::V6([0x2001, 0x4860, 0x4860, 0, 0, 0, 0, 0x8888])));
    assert!(!is_private_ip(IpAddress::V6([0, 0, 0, 0, 0, 0, 0, 2])));
    assert!(!is_private_ip(IpAddress::V6([0, 0, 0, 0, 0, 0xffff, 0x7f00, 1])));
}

#[test]
fn target_is_first_public_candidate() {
    let addrs = vec![at(v4(10, 0, 0, 1)), at(v4(8, 8, 8, 8)), at(v4(1, 1, 1, 1)), at(v4(127, 0, 0, 1))];
    assert_eq!(select_target(&addrs), Some(at(v4(8, 8, 8, 8))));
}

#[test]
fn no_target_among_blocked_candidates() {
    let addrs = vec![at(v4(10, 0, 0, 1)), at(v4(127, 0, 0, 1)), at(IpAddress::V6([0, 0, 0, 0, 0, 0, 0, 1]))];
    assert_eq!(select_target(&addrs), None);
    assert_eq!(select_target(&Vec::new()), None);
}
