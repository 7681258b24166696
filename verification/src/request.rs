//! Framing a request.

use crate::addr::{Ipv4Addr, SocketAddr, SocketAddrV4, TargetAddr};
use crate::error::Error;
use crate::header::{lemma_parse_written, Header};
use vstd::prelude::*;
use vstd::string::StringSliceAdditionalSpecFns;
use vstd::utf8::encode_utf8;

verus! {

/// The version byte of every request.
pub const VERSION: u8 = 4;

/// The address `0.0.0.1`, as an integer. No host has it; in a request it tells
/// the proxy that a host name follows the user id.
pub const NAME_FOLLOWS: u32 = 1;

/// What the proxy is asked to do.
#[derive(Clone, Copy, Debug, PartialEq, Eq, Structural, Hash)]
pub enum Command {
    /// Open a connection to the target.
    Connect,
    /// Listen for a connection from the target.
    Bind,
}

impl Command {
    /// The byte that stands for the command on the wire.
    pub open spec fn spec_code(self) -> u8 {
        match self {
            Command::Connect => 1,
            Command::Bind => 2,
        }
    }

    /// The byte that stands for the command on the wire.
    #[verifier::when_used_as_spec(spec_code)]
    pub fn code(self) -> (code: u8)
        ensures
            code == self.spec_code(),
    {
        match self {
            Command::Connect => 1,
            Command::Bind => 2,
        }
    }
}

/// The header of a request for `command` that names `ip` and `port`.
pub open spec fn request_header(command: Command, ip: Ipv4Addr, port: u16) -> Header {
    Header { version: VERSION, code: command.code(), port, ip }
}

/// The request for an IPv4 address on the wire: the header, the user id and a
/// zero byte.
pub open spec fn ip_request(command: Command, addr: SocketAddrV4, userid: Seq<u8>) -> Seq<u8> {
    request_header(command, addr.ip, addr.port).spec_bytes() + userid + seq![0u8]
}

/// The request for a host name on the wire: a header that carries `0.0.0.1`
/// in place of an address, the user id and a zero byte, the name and another
/// zero byte.
pub open spec fn domain_request(command: Command, host: Seq<u8>, port: u16, userid: Seq<u8>) -> Seq<
    u8,
> {
    request_header(command, Ipv4Addr { bits: NAME_FOLLOWS }, port).spec_bytes() + userid
        + seq![0u8] + host + seq![0u8]
}

/// The request on the wire, or why there is none: an IPv6 address has no
/// request.
pub open spec fn encoded_request(command: Command, target: TargetAddr, userid: Seq<u8>) -> Result<
    Seq<u8>,
    Error,
> {
    match target {
        TargetAddr::Ip(SocketAddr::V4(addr)) => Ok(ip_request(command, addr, userid)),
        TargetAddr::Ip(SocketAddr::V6(_)) => Err(Error::AddressFamilyUnsupported),
        TargetAddr::Domain(host, port) => Ok(
            domain_request(command, encode_utf8(host@), port, userid),
        ),
    }
}

/// Frames the request that asks a proxy to carry out `command` towards
/// `target` on behalf of `userid`.
///
/// The bytes of `userid` and of a host name go out as they are. A zero byte
/// among them would end the field early at the proxy; it is not looked for.
/// An IPv6 target is refused before any byte is framed.
pub fn encode_request(command: Command, target: &TargetAddr, userid: &str) -> (packet: Result<
    Vec<u8>,
    Error,
>)
    ensures
        packet matches Ok(bytes) ==> encoded_request(command, *target, userid.spec_bytes())
            == Ok::<Seq<u8>, Error>(bytes@),
        packet matches Err(error) ==> encoded_request(command, *target, userid.spec_bytes())
            == Err::<Seq<u8>, Error>(error),
        packet is Err <==> *target matches TargetAddr::Ip(SocketAddr::V6(_)),
        packet matches Err(error) ==> error == Error::AddressFamilyUnsupported,
{
    let mut packet: Vec<u8> = Vec::new();
    match target {
        TargetAddr::Ip(addr) => {
            let addr: SocketAddrV4 = match addr {
                SocketAddr::V4(addr) => *addr,
                SocketAddr::V6(_) => {
                    return Err(Error::AddressFamilyUnsupported);
                },
            };
            let header = Header {
                version: VERSION,
                code: command.code(),
                port: addr.port,
                ip: addr.ip,
            };
            header.write(&mut packet);
            append(&mut packet, userid.as_bytes());
            packet.push(0);
            assert(packet@ =~= ip_request(command, addr, userid.spec_bytes()));
        },
        TargetAddr::Domain(host, port) => {
            let header = Header {
                version: VERSION,
                code: command.code(),
                port: *port,
                ip: Ipv4Addr::new(0, 0, 0, 1),
            };
            header.write(&mut packet);
            append(&mut packet, userid.as_bytes());
            packet.push(0);
            append(&mut packet, host.as_str().as_bytes());
            packet.push(0);
            assert(packet@ =~= domain_request(
                command,
                encode_utf8(host@),
                *port,
                userid.spec_bytes(),
            ));
        },
    }
    Ok(packet)
}

/// Appends `bytes` to `out`.
fn append(out: &mut Vec<u8>, bytes: &[u8])
    ensures
        final(out)@ == old(out)@ + bytes@,
{
    out.extend_from_slice(bytes);
    assert(out@ =~= old(out)@ + bytes@);
}

/// A request for an IPv4 address opens with eight bytes that parse back to
/// the version of the protocol, the code of the command, and the port and the
/// address of the target. The user id and one zero byte follow them, and
/// nothing else.
pub proof fn lemma_ip_request_parses(command: Command, addr: SocketAddrV4, userid: Seq<u8>)
    ensures
        ({
            let bytes = ip_request(command, addr, userid);
            let sent = Header {
                version: VERSION,
                code: command.code(),
                port: addr.port,
                ip: addr.ip,
            };
            let n = userid.len() as int;
            &&& encoded_request(command, TargetAddr::Ip(SocketAddr::V4(addr)), userid) == Ok::<
                Seq<u8>,
                Error,
            >(bytes)
            &&& bytes.len() == 9 + n
            &&& Header::spec_parse(bytes) == Some(sent)
            &&& Header::spec_parse(bytes.subrange(0, 8)) == Some(sent)
            &&& bytes.subrange(4, 8) == addr.ip.spec_octets()
            &&& bytes.subrange(8, 8 + n) == userid
            &&& bytes[8 + n] == 0
        }),
{
    let sent = request_header(command, addr.ip, addr.port);
    let bytes = ip_request(command, addr, userid);
    let n = userid.len() as int;
    lemma_parse_written(sent, userid + seq![0u8]);
    lemma_parse_written(sent, Seq::empty());
    assert(bytes =~= sent.spec_bytes() + (userid + seq![0u8]));
    assert(bytes.subrange(0, 8) =~= sent.spec_bytes() + Seq::empty());
    assert(bytes.subrange(4, 8) =~= addr.ip.spec_octets());
    assert(bytes.subrange(8, 8 + n) =~= userid);
}

/// A request for a host name carries `0.0.0.1` where the address goes. After
/// the zero byte that ends the user id come the bytes of the name, and after
/// them one more zero byte, which is the last of the request.
pub proof fn lemma_domain_request_layout(
    command: Command,
    host: String,
    port: u16,
    userid: Seq<u8>,
)
    ensures
        ({
            let name = encode_utf8(host@);
            let bytes = domain_request(command, name, port, userid);
            let sent = Header {
                version: VERSION,
                code: command.code(),
                port,
                ip: Ipv4Addr { bits: NAME_FOLLOWS },
            };
            let n = userid.len() as int;
            let m = name.len() as int;
            &&& encoded_request(command, TargetAddr::Domain(host, port), userid) == Ok::<
                Seq<u8>,
                Error,
            >(bytes)
            &&& bytes.len() == 10 + n + m
            &&& Header::spec_parse(bytes) == Some(sent)
            &&& bytes.subrange(4, 8) == seq![0u8, 0u8, 0u8, 1u8]
            &&& bytes.subrange(8, 8 + n) == userid
            &&& bytes[8 + n] == 0
            &&& bytes.subrange(9 + n, 9 + n + m) == name
            &&& bytes[9 + n + m] == 0
        }),
{
    let name = encode_utf8(host@);
    let sent = request_header(command, Ipv4Addr { bits: NAME_FOLLOWS }, port);
    let rest = userid + seq![0u8] + name + seq![0u8];
    let bytes = domain_request(command, name, port, userid);
    let n = userid.len() as int;
    let m = name.len() as int;
    lemma_parse_written(sent, rest);
    assert(bytes =~= sent.spec_bytes() + rest);
    assert(bytes.subrange(4, 8) =~= seq![0u8, 0u8, 0u8, 1u8]);
    assert(bytes.subrange(8, 8 + n) =~= userid);
    assert(bytes.subrange(9 + n, 9 + n + m) =~= name);
}

/// Whether no byte of `field` is zero.
pub open spec fn has_no_zero(field: Seq<u8>) -> bool {
    forall|i: int| 0 <= i < field.len() ==> field[i] != 0
}

/// A proxy reads each field up to the first zero byte. Where the user id
/// holds no zero byte, the proxy reads the user id that was given: no byte of
/// it in the request is zero, and the byte after it is.
pub proof fn lemma_userid_ends_at_first_zero(command: Command, addr: SocketAddrV4, userid: Seq<u8>)
    requires
        has_no_zero(userid),
    ensures
        forall|i: int|
            8 <= i < 8 + userid.len() ==> #[trigger] ip_request(command, addr, userid)[i] != 0,
        ip_request(command, addr, userid)[8 + userid.len() as int] == 0,
{
    let bytes = ip_request(command, addr, userid);
    assert forall|i: int| 8 <= i < 8 + userid.len() implies #[trigger] bytes[i] != 0 by {
        assert(bytes[i] == userid[i - 8]);
    }
}

/// Where neither the user id nor the host name holds a zero byte, a proxy
/// that reads each up to the first zero byte reads the two that were given.
pub proof fn lemma_host_ends_at_first_zero(
    command: Command,
    host: Seq<u8>,
    port: u16,
    userid: Seq<u8>,
)
    requires
        has_no_zero(userid),
        has_no_zero(host),
    ensures
        forall|i: int|
            8 <= i < 8 + userid.len() ==> #[trigger] domain_request(
                command,
                host,
                port,
                userid,
            )[i] != 0,
        domain_request(command, host, port, userid)[8 + userid.len() as int] == 0,
        forall|i: int|
            9 + userid.len() <= i < 9 + userid.len() + host.len() ==> #[trigger] domain_request(
                command,
                host,
                port,
                userid,
            )[i] != 0,
        domain_request(command, host, port, userid)[9 + userid.len() + host.len() as int] == 0,
{
    let bytes = domain_request(command, host, port, userid);
    let n = userid.len() as int;
    assert forall|i: int| 8 <= i < 8 + n implies #[trigger] bytes[i] != 0 by {
        assert(bytes[i] == userid[i - 8]);
    }
    assert forall|i: int| 9 + n <= i < 9 + n + host.len() implies #[trigger] bytes[i] != 0 by {
        assert(bytes[i] == host[i - 9 - n]);
    }
}

/// An IPv6 address has no request, whatever the command and the user id.
pub proof fn lemma_ipv6_has_no_request(command: Command, target: TargetAddr, userid: Seq<u8>)
    requires
        target matches TargetAddr::Ip(SocketAddr::V6(_)),
    ensures
        encoded_request(command, target, userid) == Err::<Seq<u8>, Error>(
            Error::AddressFamilyUnsupported,
        ),
{
}

} // verus!
