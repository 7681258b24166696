use socks4::{Ipv4Addr, Ipv6Addr, SocketAddrV4, SocketAddrV6};

#[test]
fn ipv4_from_octets() {
    assert_eq!(Ipv4Addr::new(10, 0, 0, 1).to_bits(), 0x0a00_0001);
    assert_eq!(Ipv4Addr::new(0, 0, 0, 1).to_bits(), 1);
    assert_eq!(Ipv4Addr::new(1, 0, 0, 0).to_bits(), 0x0100_0000);
    assert_eq!(Ipv4Addr::new(255, 255, 255, 255).to_bits(), u32::MAX);
    assert_eq!(Ipv4Addr::new(18, 52, 86, 120).to_bits(), 0x1234_5678);
}

#[test]
fn ipv4_to_octets() {
    assert_eq!(Ipv4Addr::from_bits(0x0a00_0001).octets(), [10, 0, 0, 1]);
    assert_eq!(Ipv4Addr::from_bits(0x1234_5678).octets(), [18, 52, 86, 120]);
    assert_eq!(Ipv4Addr::from_bits(0).octets(), [0, 0, 0, 0]);
    assert_eq!(Ipv4Addr::from_bits(u32::MAX).octets(), [255, 255, 255, 255]);
    assert_eq!(Ipv4Addr::new(203, 0, 113, 5).octets(), [203, 0, 113, 5]);
}

#[test]
fn ipv4_bits_come_back() {
    assert_eq!(Ipv4Addr::from_bits(0xdead_beef).to_bits(), 0xdead_beef);
    assert_eq!(Ipv4Addr::from_bits(7), Ipv4Addr { bits: 7 });
}

#[test]
fn ipv4_unspecified_is_all_zero() {
    assert!(Ipv4Addr::new(0, 0, 0, 0).is_unspecified());
    assert!(!Ipv4Addr::new(0, 0, 0, 1).is_unspecified());
    assert!(!Ipv4Addr::new(1, 0, 0, 0).is_unspecified());
    assert!(!Ipv4Addr::new(0, 1, 0, 0).is_unspecified());
    assert!(!Ipv4Addr::new(0, 0, 1, 0).is_unspecified());
}

#[test]
fn socket_addresses_hold_what_they_are_given() {
    let v4 = SocketAddrV4::new(Ipv4Addr::new(127, 0, 0, 1), 1080);
    assert_eq!(v4.ip, Ipv4Addr::new(127, 0, 0, 1));
    assert_eq!(v4.port, 1080);
    let v6 = SocketAddrV6::new(Ipv6Addr { bits: 1 }, 1080, 7, 9);
    assert_eq!(v6.ip, Ipv6Addr { bits: 1 });
    assert_eq!(v6.port, 1080);
    assert_eq!(v6.flowinfo, 7);
    assert_eq!(v6.scope_id, 9);
}
