use socks4::{
    encode_request, Command, Error, Ipv4Addr, Ipv6Addr, Socks4Listener, Socks4Stream, SocketAddr,
    SocketAddrV4, SocketAddrV6, TargetAddr,
};

const GRANT_10_0_0_1_8080: [u8; 8] = [0x00, 0x5a, 0x1f, 0x90, 0x0a, 0x00, 0x00, 0x01];
const GRANT_ANY_8080: [u8; 8] = [0x00, 0x5a, 0x1f, 0x90, 0x00, 0x00, 0x00, 0x00];

fn no_peer() -> Result<SocketAddr, String> {
    Err(String::from("not connected"))
}

#[test]
fn connect_end_to_end() {
    let addr = SocketAddrV4::new(Ipv4Addr::new(93, 184, 216, 34), 80);
    let target = TargetAddr::Ip(SocketAddr::V4(addr));
    let mut wire: Vec<u8> = Vec::new();
    let request = encode_request(Command::Connect, &target, "alice").unwrap();
    wire.extend_from_slice(&request);
    assert_eq!(wire, vec![4, 1, 0, 80, 93, 184, 216, 34, b'a', b'l', b'i', b'c', b'e', 0]);
    let stream = Socks4Stream::connect(wire, &GRANT_10_0_0_1_8080).unwrap();
    assert_eq!(stream.proxy_addr(), SocketAddrV4::new(Ipv4Addr::new(10, 0, 0, 1), 8080));
}

#[test]
fn connect_rejected() {
    let reply: [u8; 8] = [0x00, 0x5b, 0x1f, 0x90, 0x0a, 0x00, 0x00, 0x01];
    let result = Socks4Stream::connect("transport", &reply);
    assert_eq!(result.unwrap_err(), Error::RequestRejected);
}

#[test]
fn connect_fails_as_the_reply_says() {
    let replies: [([u8; 8], Error); 5] = [
        ([0, 91, 0, 0, 0, 0, 0, 0], Error::RequestRejected),
        ([0, 92, 0, 0, 0, 0, 0, 0], Error::IdentdUnreachable),
        ([0, 93, 0, 0, 0, 0, 0, 0], Error::IdentdMismatch),
        ([0, 94, 0, 0, 0, 0, 0, 0], Error::MalformedResponse),
        ([4, 90, 0, 0, 0, 0, 0, 0], Error::ProtocolVersionMismatch),
    ];
    for (reply, error) in replies.iter() {
        assert_eq!(Socks4Stream::connect((), reply).unwrap_err(), *error);
        assert_eq!(Socks4Listener::bind((), reply).unwrap_err(), *error);
    }
}

#[test]
fn connect_on_a_truncated_reply() {
    let result = Socks4Stream::connect((), &GRANT_10_0_0_1_8080[..7]);
    assert_eq!(result.unwrap_err(), Error::MalformedResponse);
}

#[test]
fn stream_hands_out_its_transport() {
    let mut stream = Socks4Stream::connect(vec![1u8, 2, 3], &GRANT_10_0_0_1_8080).unwrap();
    assert_eq!(stream.get_ref(), &vec![1u8, 2, 3]);
    stream.get_mut().push(4);
    assert_eq!(stream.get_ref(), &vec![1u8, 2, 3, 4]);
    assert_eq!(stream.proxy_addr(), SocketAddrV4::new(Ipv4Addr::new(10, 0, 0, 1), 8080));
    assert_eq!(stream.into_inner(), vec![1u8, 2, 3, 4]);
}

#[test]
fn bind_substitutes_the_peer_for_the_unspecified_address() {
    let listener = Socks4Listener::bind("transport", &GRANT_ANY_8080).unwrap();
    let peer = SocketAddr::V4(SocketAddrV4::new(Ipv4Addr::new(203, 0, 113, 5), 1080));
    let addr: Result<SocketAddr, String> = listener.proxy_addr(Ok(peer));
    assert_eq!(addr, Ok(SocketAddr::V4(SocketAddrV4::new(Ipv4Addr::new(203, 0, 113, 5), 8080))));
}

#[test]
fn bind_substitutes_an_ipv6_peer() {
    let listener = Socks4Listener::bind("transport", &GRANT_ANY_8080).unwrap();
    let ip = Ipv6Addr { bits: 0x2001_0db8_0000_0000_0000_0000_0000_0005 };
    let peer = SocketAddr::V6(SocketAddrV6::new(ip, 1080, 17, 3));
    let addr: Result<SocketAddr, String> = listener.proxy_addr(Ok(peer));
    assert_eq!(addr, Ok(SocketAddr::V6(SocketAddrV6::new(ip, 8080, 0, 0))));
}

#[test]
fn bind_passes_on_a_failure_to_learn_the_peer() {
    let listener = Socks4Listener::bind("transport", &GRANT_ANY_8080).unwrap();
    assert_eq!(listener.proxy_addr(no_peer()), Err(String::from("not connected")));
}

#[test]
fn bind_keeps_an_address_that_the_proxy_names() {
    let listener = Socks4Listener::bind("transport", &GRANT_10_0_0_1_8080).unwrap();
    let named = SocketAddr::V4(SocketAddrV4::new(Ipv4Addr::new(10, 0, 0, 1), 8080));
    let peer = SocketAddr::V4(SocketAddrV4::new(Ipv4Addr::new(203, 0, 113, 5), 1080));
    assert_eq!(listener.proxy_addr::<String>(Ok(peer)), Ok(named));
    assert_eq!(listener.proxy_addr(no_peer()), Ok(named));
}

#[test]
fn bind_substitutes_only_for_the_all_zero_address() {
    let reply: [u8; 8] = [0, 90, 0x1f, 0x90, 0, 0, 0, 1];
    let listener = Socks4Listener::bind((), &reply).unwrap();
    let named = SocketAddr::V4(SocketAddrV4::new(Ipv4Addr::new(0, 0, 0, 1), 8080));
    assert_eq!(listener.proxy_addr(no_peer()), Ok(named));
}

#[test]
fn accept_overwrites_the_address() {
    let mut listener = Socks4Listener::bind(vec![7u8], &GRANT_ANY_8080).unwrap();
    let peer = SocketAddr::V4(SocketAddrV4::new(Ipv4Addr::new(203, 0, 113, 5), 1080));
    assert_eq!(
        listener.proxy_addr::<String>(Ok(peer)),
        Ok(SocketAddr::V4(SocketAddrV4::new(Ipv4Addr::new(203, 0, 113, 5), 8080)))
    );
    assert_eq!(listener.get_ref(), &vec![7u8]);
    listener.get_mut().push(8);
    let second: [u8; 8] = [0, 90, 0xc3, 0x50, 198, 51, 100, 23];
    let stream = listener.accept(&second).unwrap();
    assert_eq!(stream.proxy_addr(), SocketAddrV4::new(Ipv4Addr::new(198, 51, 100, 23), 50000));
    assert_eq!(stream.into_inner(), vec![7u8, 8]);
}

#[test]
fn accept_fails_as_the_second_reply_says() {
    let replies: [([u8; 8], Error); 5] = [
        ([0, 91, 0, 0, 0, 0, 0, 0], Error::RequestRejected),
        ([0, 92, 0, 0, 0, 0, 0, 0], Error::IdentdUnreachable),
        ([0, 93, 0, 0, 0, 0, 0, 0], Error::IdentdMismatch),
        ([0, 0, 0, 0, 0, 0, 0, 0], Error::MalformedResponse),
        ([1, 90, 0, 0, 0, 0, 0, 0], Error::ProtocolVersionMismatch),
    ];
    for (reply, error) in replies.iter() {
        let listener = Socks4Listener::bind((), &GRANT_ANY_8080).unwrap();
        assert_eq!(listener.accept(reply).unwrap_err(), *error);
    }
    let listener = Socks4Listener::bind((), &GRANT_ANY_8080).unwrap();
    assert_eq!(listener.accept(&[0, 90, 0]).unwrap_err(), Error::MalformedResponse);
}

#[test]
fn bind_end_to_end() {
    let target = TargetAddr::Domain(String::from("ftp.example"), 21);
    let request = encode_request(Command::Bind, &target, "").unwrap();
    assert_eq!(&request[..9], &[4u8, 2, 0, 21, 0, 0, 0, 1, 0]);
    let listener = Socks4Listener::bind(request, &GRANT_ANY_8080).unwrap();
    let stream = listener.accept(&GRANT_10_0_0_1_8080).unwrap();
    assert_eq!(stream.proxy_addr(), SocketAddrV4::new(Ipv4Addr::new(10, 0, 0, 1), 8080));
}
