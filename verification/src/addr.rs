//! Addresses as plain values.
//!
//! A session is told where the target and the proxy are by values of these
//! types; it never resolves a name or asks the operating system for anything.

use crate::wire::{lemma_u32_from_be_roundtrip, u32_be};
use vstd::prelude::*;

verus! {

/// An IPv4 address, held as the integer that its four octets spell when the
/// first octet is taken as the most significant.
#[derive(Clone, Copy, Debug, PartialEq, Eq, Structural, Hash)]
pub struct Ipv4Addr {
    pub bits: u32,
}

/// An IPv6 address, held as the integer that its sixteen octets spell when
/// the first octet is taken as the most significant.
#[derive(Clone, Copy, Debug, PartialEq, Eq, Structural, Hash)]
pub struct Ipv6Addr {
    pub bits: u128,
}

/// An IPv4 address with a port.
#[derive(Clone, Copy, Debug, PartialEq, Eq, Structural, Hash)]
pub struct SocketAddrV4 {
    pub ip: Ipv4Addr,
    pub port: u16,
}

/// An IPv6 address with a port, a flow label and a scope.
#[derive(Clone, Copy, Debug, PartialEq, Eq, Structural, Hash)]
pub struct SocketAddrV6 {
    pub ip: Ipv6Addr,
    pub port: u16,
    pub flowinfo: u32,
    pub scope_id: u32,
}

/// A socket address of either family.
#[derive(Clone, Copy, Debug, PartialEq, Eq, Structural, Hash)]
pub enum SocketAddr {
    /// An IPv4 socket address.
    V4(SocketAddrV4),
    /// An IPv6 socket address.
    V6(SocketAddrV6),
}

/// Where a proxy is asked to connect to: a socket address, or a host name
/// that is left to the proxy to look up.
#[derive(Debug, PartialEq, Eq, Hash)]
pub enum TargetAddr {
    /// A socket address.
    Ip(SocketAddr),
    /// A host name and a port.
    Domain(String, u16),
}

impl Clone for TargetAddr {
    fn clone(&self) -> (target: TargetAddr)
        ensures
            target == *self,
    {
        match self {
            TargetAddr::Ip(addr) => TargetAddr::Ip(*addr),
            TargetAddr::Domain(host, port) => TargetAddr::Domain(host.clone(), *port),
        }
    }
}

impl Ipv4Addr {
    /// The four octets of the address, first octet first.
    pub open spec fn spec_octets(self) -> Seq<u8> {
        u32_be(self.bits)
    }

    /// The address `a.b.c.d`.
    pub fn new(a: u8, b: u8, c: u8, d: u8) -> (ip: Ipv4Addr)
        ensures
            ip.spec_octets() == seq![a, b, c, d],
            ip.bits == a * 0x100_0000 + b * 0x1_0000 + c * 0x100 + d,
    {
        let high: u32 = a as u32 * 0x100_0000 + b as u32 * 0x1_0000;
        let low: u32 = c as u32 * 0x100 + d as u32;
        proof {
            lemma_u32_from_be_roundtrip(seq![a, b, c, d]);
        }
        Ipv4Addr { bits: high + low }
    }

    /// The address whose octets spell `bits`.
    pub fn from_bits(bits: u32) -> (ip: Ipv4Addr)
        ensures
            ip.bits == bits,
    {
        Ipv4Addr { bits }
    }

    /// The integer that the octets of the address spell.
    pub fn to_bits(self) -> (bits: u32)
        ensures
            bits == self.bits,
    {
        self.bits
    }

    /// The four octets of the address, first octet first.
    pub fn octets(self) -> (octets: [u8; 4])
        ensures
            octets@ == self.spec_octets(),
    {
        let a: u8 = (self.bits / 0x100_0000) as u8;
        let b: u8 = (self.bits / 0x1_0000 % 0x100) as u8;
        let c: u8 = (self.bits / 0x100 % 0x100) as u8;
        let d: u8 = (self.bits % 0x100) as u8;
        let octets: [u8; 4] = [a, b, c, d];
        assert(octets@ =~= self.spec_octets());
        octets
    }

    /// Whether this is `0.0.0.0`, the address that stands for "none given".
    pub fn is_unspecified(self) -> (unspecified: bool)
        ensures
            unspecified <==> self.spec_octets() == seq![0u8, 0u8, 0u8, 0u8],
            unspecified <==> self.bits == 0,
    {
        proof {
            let zero: Seq<u8> = seq![0u8, 0u8, 0u8, 0u8];
            if self.bits == 0 {
                assert(self.spec_octets() =~= zero);
            }
            if self.spec_octets() == zero {
                assert(self.spec_octets()[0] == zero[0]);
                assert(self.spec_octets()[1] == zero[1]);
                assert(self.spec_octets()[2] == zero[2]);
                assert(self.spec_octets()[3] == zero[3]);
            }
        }
        self.bits == 0
    }
}

impl SocketAddrV4 {
    /// The address `ip` with the port `port`.
    pub fn new(ip: Ipv4Addr, port: u16) -> (addr: SocketAddrV4)
        ensures
            addr == (SocketAddrV4 { ip, port }),
    {
        SocketAddrV4 { ip, port }
    }
}

impl SocketAddrV6 {
    /// The address `ip` with the port `port`, the flow label `flowinfo` and
    /// the scope `scope_id`.
    pub fn new(ip: Ipv6Addr, port: u16, flowinfo: u32, scope_id: u32) -> (addr: SocketAddrV6)
        ensures
            addr == (SocketAddrV6 { ip, port, flowinfo, scope_id }),
    {
        SocketAddrV6 { ip, port, flowinfo, scope_id }
    }
}

} // verus!
