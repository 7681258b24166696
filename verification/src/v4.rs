//! The two kinds of session: a stream through the proxy, and a listener at
//! the proxy that turns into a stream once the target has connected to it.
//!
//! A session owns the transport `S` that the proxy is reached by, and never
//! reads or writes it. The owner of the session sends the request, reads each
//! reply and hands it over.

use crate::addr::{SocketAddr, SocketAddrV4, SocketAddrV6};
use crate::error::Error;
use crate::response::{decoded_response, read_response};
use vstd::prelude::*;

verus! {

/// What a session is made of: its transport, and the address that the proxy
/// named in its last reply.
pub struct Session<S> {
    pub socket: S,
    pub proxy_addr: SocketAddrV4,
}

/// A connection to a target through a SOCKS4 proxy.
#[derive(Debug)]
pub struct Socks4Stream<S> {
    socket: S,
    proxy_addr: SocketAddrV4,
}

/// A proxy that listens for a connection from a target.
#[derive(Debug)]
pub struct Socks4Listener<S>(Socks4Stream<S>);

impl<S> View for Socks4Stream<S> {
    type V = Session<S>;

    closed spec fn view(&self) -> Session<S> {
        Session { socket: self.socket, proxy_addr: self.proxy_addr }
    }
}

impl<S> View for Socks4Listener<S> {
    type V = Session<S>;

    closed spec fn view(&self) -> Session<S> {
        self.0@
    }
}

/// The address at which a listening proxy can be reached.
///
/// A proxy that names `0.0.0.0` means the address that it was contacted at:
/// that of the transport's peer, with the port that the proxy bound. Only then
/// does the peer's address matter, and a failure to learn it is passed on.
pub open spec fn reachable_addr<E>(bound: SocketAddrV4, peer: Result<SocketAddr, E>) -> Result<
    SocketAddr,
    E,
> {
    if bound.ip.bits != 0 {
        Ok(SocketAddr::V4(bound))
    } else {
        match peer {
            Ok(SocketAddr::V4(peer)) => Ok(
                SocketAddr::V4(SocketAddrV4 { ip: peer.ip, port: bound.port }),
            ),
            Ok(SocketAddr::V6(peer)) => Ok(
                SocketAddr::V6(
                    SocketAddrV6 { ip: peer.ip, port: bound.port, flowinfo: 0, scope_id: 0 },
                ),
            ),
            Err(error) => Err(error),
        }
    }
}

impl<S> Socks4Stream<S> {
    /// Completes a connection through the proxy.
    ///
    /// `socket` is the transport on which a request to connect has been sent,
    /// and `response` the reply that was read from it. On a grant the stream
    /// owns the transport; on anything else the transport is dropped.
    pub fn connect(socket: S, response: &[u8]) -> (stream: Result<Socks4Stream<S>, Error>)
        ensures
            stream matches Ok(stream) ==> stream@.socket == socket,
            stream matches Ok(stream) ==> decoded_response(response@) == Ok::<SocketAddrV4, Error>(
                stream@.proxy_addr,
            ),
            stream matches Err(error) ==> decoded_response(response@) == Err::<SocketAddrV4, Error>(
                error,
            ),
    {
        Self::connect_raw(socket, response)
    }

    fn connect_raw(socket: S, response: &[u8]) -> (stream: Result<Socks4Stream<S>, Error>)
        ensures
            stream matches Ok(stream) ==> stream@.socket == socket,
            stream matches Ok(stream) ==> decoded_response(response@) == Ok::<SocketAddrV4, Error>(
                stream@.proxy_addr,
            ),
            stream matches Err(error) ==> decoded_response(response@) == Err::<SocketAddrV4, Error>(
                error,
            ),
    {
        match read_response(response) {
            Ok(proxy_addr) => Ok(Socks4Stream { socket, proxy_addr }),
            Err(error) => Err(error),
        }
    }

    /// The address on the proxy's side of its connection to the target.
    pub fn proxy_addr(&self) -> (addr: SocketAddrV4)
        ensures
            addr == self@.proxy_addr,
    {
        self.proxy_addr
    }

    /// The transport.
    pub fn get_ref(&self) -> (socket: &S)
        ensures
            *socket == self@.socket,
    {
        &self.socket
    }

    /// The transport, to read and write through. The proxy's address stays
    /// what it is.
    pub fn get_mut(&mut self) -> (socket: &mut S)
        ensures
            *socket == old(self)@.socket,
            final(self)@.socket == *final(socket),
            final(self)@.proxy_addr == old(self)@.proxy_addr,
    {
        &mut self.socket
    }

    /// Gives up the session for its transport.
    pub fn into_inner(self) -> (socket: S)
        ensures
            socket == self@.socket,
    {
        self.socket
    }
}

impl<S> Socks4Listener<S> {
    /// Completes the first half of a bind: the proxy now listens.
    ///
    /// `socket` is the transport on which a request to bind has been sent, and
    /// `response` the first reply that was read from it. On a grant the
    /// listener owns the transport; on anything else the transport is dropped.
    pub fn bind(socket: S, response: &[u8]) -> (listener: Result<Socks4Listener<S>, Error>)
        ensures
            listener matches Ok(listener) ==> listener@.socket == socket,
            listener matches Ok(listener) ==> decoded_response(response@) == Ok::<SocketAddrV4, Error>(
                listener@.proxy_addr,
            ),
            listener matches Err(error) ==> decoded_response(response@) == Err::<SocketAddrV4, Error>(
                error,
            ),
    {
        match Socks4Stream::connect_raw(socket, response) {
            Ok(stream) => Ok(Socks4Listener(stream)),
            Err(error) => Err(error),
        }
    }

    /// The address at which the proxy listens for the target.
    ///
    /// `peer` is what the transport gave when asked for the address of its
    /// peer. It is looked at only where the proxy named `0.0.0.0`.
    pub fn proxy_addr<E>(&self, peer: Result<SocketAddr, E>) -> (addr: Result<SocketAddr, E>)
        ensures
            addr == reachable_addr(self@.proxy_addr, peer),
    {
        let bound: SocketAddrV4 = self.0.proxy_addr;
        if !bound.ip.is_unspecified() {
            Ok(SocketAddr::V4(bound))
        } else {
            match peer {
                Ok(SocketAddr::V4(peer)) => Ok(
                    SocketAddr::V4(SocketAddrV4::new(peer.ip, bound.port)),
                ),
                Ok(SocketAddr::V6(peer)) => Ok(
                    SocketAddr::V6(SocketAddrV6::new(peer.ip, bound.port, 0, 0)),
                ),
                Err(error) => Err(error),
            }
        }
    }

    /// The transport.
    pub fn get_ref(&self) -> (socket: &S)
        ensures
            *socket == self@.socket,
    {
        &self.0.socket
    }

    /// The transport, to read the second reply from. The proxy's address
    /// stays what it is.
    pub fn get_mut(&mut self) -> (socket: &mut S)
        ensures
            *socket == old(self)@.socket,
            final(self)@.socket == *final(socket),
            final(self)@.proxy_addr == old(self)@.proxy_addr,
    {
        &mut self.0.socket
    }

    /// Completes the second half of a bind: the target has connected.
    ///
    /// `response` is the second reply that was read from the transport. On a
    /// grant the listener becomes a stream on the same transport, and the
    /// address that the reply names replaces the one that the listener held.
    /// On anything else the session is over and the transport is dropped.
    pub fn accept(self, response: &[u8]) -> (stream: Result<Socks4Stream<S>, Error>)
        ensures
            stream matches Ok(stream) ==> stream@.socket == self@.socket,
            stream matches Ok(stream) ==> decoded_response(response@) == Ok::<SocketAddrV4, Error>(
                stream@.proxy_addr,
            ),
            stream matches Err(error) ==> decoded_response(response@) == Err::<SocketAddrV4, Error>(
                error,
            ),
    {
        let mut stream: Socks4Stream<S> = self.0;
        match read_response(response) {
            Ok(proxy_addr) => {
                stream.proxy_addr = proxy_addr;
                Ok(stream)
            },
            Err(error) => Err(error),
        }
    }
}

} // verus!
