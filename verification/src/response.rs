//! Interpreting a reply.

use crate::addr::{Ipv4Addr, SocketAddrV4};
use crate::error::Error;
use crate::header::{lemma_parse_written, Header, HEADER_LEN};
use crate::wire::{u16_from_be, u32_from_be};
use vstd::prelude::*;

verus! {

/// The version byte of every reply.
pub const REPLY_VERSION: u8 = 0;

/// The status of a request that was granted.
pub const GRANTED: u8 = 90;

/// The status of a request that was rejected or that failed.
pub const REJECTED: u8 = 91;

/// The status of a request that was rejected because the proxy could not
/// reach an identd on the client.
pub const IDENTD_UNREACHABLE: u8 = 92;

/// The status of a request that was rejected because the client's identd
/// named another user than the request did.
pub const IDENTD_MISMATCH: u8 = 93;

/// What a reply says: the address that the proxy bound, or why the request
/// was not granted.
///
/// Fewer than eight bytes are no reply. The first byte must be zero. The
/// second is the status; only a grant carries an address, whose port is in
/// bytes 2 and 3 and whose IPv4 address is in bytes 4 to 7, each most
/// significant byte first. Bytes after the eighth do not count.
pub open spec fn decoded_response(response: Seq<u8>) -> Result<SocketAddrV4, Error> {
    if response.len() < HEADER_LEN {
        Err(Error::MalformedResponse)
    } else if response[0] != REPLY_VERSION {
        Err(Error::ProtocolVersionMismatch)
    } else if response[1] == GRANTED {
        Ok(
            SocketAddrV4 {
                ip: Ipv4Addr { bits: u32_from_be(response.subrange(4, 8)) },
                port: u16_from_be(response.subrange(2, 4)),
            },
        )
    } else if response[1] == REJECTED {
        Err(Error::RequestRejected)
    } else if response[1] == IDENTD_UNREACHABLE {
        Err(Error::IdentdUnreachable)
    } else if response[1] == IDENTD_MISMATCH {
        Err(Error::IdentdMismatch)
    } else {
        Err(Error::MalformedResponse)
    }
}

/// Interprets the reply at the front of `response`.
///
/// A failure never comes with an address: what the port and address fields
/// of a reply that is no grant hold is dropped.
pub fn read_response(response: &[u8]) -> (bound: Result<SocketAddrV4, Error>)
    ensures
        bound == decoded_response(response@),
{
    let header: Header = match Header::parse(response) {
        Some(header) => header,
        None => {
            return Err(Error::MalformedResponse);
        },
    };
    if header.version != REPLY_VERSION {
        return Err(Error::ProtocolVersionMismatch);
    }
    if header.code == GRANTED {
        Ok(SocketAddrV4::new(header.ip, header.port))
    } else if header.code == REJECTED {
        Err(Error::RequestRejected)
    } else if header.code == IDENTD_UNREACHABLE {
        Err(Error::IdentdUnreachable)
    } else if header.code == IDENTD_MISMATCH {
        Err(Error::IdentdMismatch)
    } else {
        Err(Error::MalformedResponse)
    }
}

/// What each reply of eight bytes comes to: a first byte other than zero is a
/// version mismatch; after a zero, 90 is a grant, 91 a rejection, 92 an
/// unreachable identd, 93 an identd mismatch, and any other status malformed.
pub proof fn lemma_reply_verdicts(response: Seq<u8>)
    requires
        response.len() == HEADER_LEN,
    ensures
        response[0] != 0 ==> decoded_response(response) == Err::<SocketAddrV4, Error>(
            Error::ProtocolVersionMismatch,
        ),
        response[0] == 0 && response[1] == 90 ==> decoded_response(response) == Ok::<
            SocketAddrV4,
            Error,
        >(
            (SocketAddrV4 {
                ip: Ipv4Addr { bits: u32_from_be(response.subrange(4, 8)) },
                port: u16_from_be(response.subrange(2, 4)),
            }),
        ),
        response[0] == 0 && response[1] == 91 ==> decoded_response(response) == Err::<
            SocketAddrV4,
            Error,
        >(Error::RequestRejected),
        response[0] == 0 && response[1] == 92 ==> decoded_response(response) == Err::<
            SocketAddrV4,
            Error,
        >(Error::IdentdUnreachable),
        response[0] == 0 && response[1] == 93 ==> decoded_response(response) == Err::<
            SocketAddrV4,
            Error,
        >(Error::IdentdMismatch),
        response[0] == 0 && !(90 <= response[1] <= 93) ==> decoded_response(response) == Err::<
            SocketAddrV4,
            Error,
        >(Error::MalformedResponse),
{
}

/// A grant that is written as a header decodes to the address that it names,
/// whatever follows it.
pub proof fn lemma_grant_decodes(addr: SocketAddrV4, rest: Seq<u8>)
    ensures
        decoded_response(
            (Header { version: REPLY_VERSION, code: GRANTED, port: addr.port, ip: addr.ip })
                .spec_bytes() + rest,
        ) == Ok::<SocketAddrV4, Error>(addr),
{
    let grant = Header { version: REPLY_VERSION, code: GRANTED, port: addr.port, ip: addr.ip };
    lemma_parse_written(grant, rest);
}

} // verus!
