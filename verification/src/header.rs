//! The eight bytes that open every request and make up every reply.

use crate::addr::Ipv4Addr;
use crate::wire::{
    lemma_u16_be_roundtrip, lemma_u16_from_be_roundtrip, lemma_u32_be_roundtrip,
    lemma_u32_from_be_roundtrip, read_u16, read_u32, u16_be, u16_from_be, u32_be, u32_from_be,
    write_u16, write_u32,
};
use vstd::prelude::*;
use vstd::slice::slice_subrange;

verus! {

/// How many bytes a header takes on the wire.
pub const HEADER_LEN: usize = 8;

/// The fixed fields of a SOCKS4 message: a version byte, a command or status
/// byte, a port and an IPv4 address.
#[derive(Clone, Copy, Debug, PartialEq, Eq, Structural, Hash)]
pub struct Header {
    pub version: u8,
    pub code: u8,
    pub port: u16,
    pub ip: Ipv4Addr,
}

impl Header {
    /// The header on the wire: version, code, then the port and the address,
    /// each most significant byte first.
    pub open spec fn spec_bytes(self) -> Seq<u8> {
        seq![self.version, self.code] + u16_be(self.port) + u32_be(self.ip.bits)
    }

    /// The header that the first eight bytes of `bytes` spell, if there are
    /// that many.
    pub open spec fn spec_parse(bytes: Seq<u8>) -> Option<Header> {
        if bytes.len() < HEADER_LEN {
            None
        } else {
            Some(
                Header {
                    version: bytes[0],
                    code: bytes[1],
                    port: u16_from_be(bytes.subrange(2, 4)),
                    ip: Ipv4Addr { bits: u32_from_be(bytes.subrange(4, 8)) },
                },
            )
        }
    }

    /// Appends the header to `out`.
    pub fn write(&self, out: &mut Vec<u8>)
        ensures
            final(out)@ == old(out)@ + self.spec_bytes(),
    {
        out.push(self.version);
        out.push(self.code);
        write_u16(out, self.port);
        write_u32(out, self.ip.to_bits());
        assert(out@ =~= old(out)@ + self.spec_bytes());
    }

    /// Reads a header from the front of `bytes`. Bytes after the eighth are
    /// not looked at.
    pub fn parse(bytes: &[u8]) -> (header: Option<Header>)
        ensures
            header == Header::spec_parse(bytes@),
    {
        if bytes.len() < HEADER_LEN {
            return None;
        }
        let version: u8 = bytes[0];
        let code: u8 = bytes[1];
        let port: u16 = read_u16(slice_subrange(bytes, 2, 4));
        let bits: u32 = read_u32(slice_subrange(bytes, 4, 8));
        Some(Header { version, code, port, ip: Ipv4Addr::from_bits(bits) })
    }
}

/// A header takes eight bytes, and parsing what was written gives back the
/// header that was written, whatever follows it.
pub proof fn lemma_parse_written(header: Header, rest: Seq<u8>)
    ensures
        header.spec_bytes().len() == HEADER_LEN,
        Header::spec_parse(header.spec_bytes() + rest) == Some(header),
{
    let bytes = header.spec_bytes() + rest;
    lemma_u16_be_roundtrip(header.port);
    lemma_u32_be_roundtrip(header.ip.bits);
    assert(bytes.subrange(2, 4) =~= u16_be(header.port));
    assert(bytes.subrange(4, 8) =~= u32_be(header.ip.bits));
}

/// Writing what was parsed gives back the eight bytes that were parsed.
pub proof fn lemma_write_parsed(bytes: Seq<u8>)
    requires
        bytes.len() >= HEADER_LEN,
    ensures
        Header::spec_parse(bytes) matches Some(header) && header.spec_bytes() == bytes.subrange(
            0,
            8,
        ),
{
    let header = Header::spec_parse(bytes)->0;
    lemma_u16_from_be_roundtrip(bytes.subrange(2, 4));
    lemma_u32_from_be_roundtrip(bytes.subrange(4, 8));
    assert(header.spec_bytes() =~= bytes.subrange(0, 8));
}

} // verus!
