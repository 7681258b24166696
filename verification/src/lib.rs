//! A SOCKS4 and SOCKS4A client that performs no I/O of its own.
//!
//! The crate frames requests, interprets the proxy's replies and keeps the
//! state of a session. The transport belongs to the caller, who drives a
//! session in these steps:
//!
//! 1. Connect a transport to the proxy.
//! 2. Frame the request with [`encode_request`] and write all of it.
//! 3. Read the eight bytes of the reply and hand them, together with the
//!    transport, to [`Socks4Stream::connect`] or [`Socks4Listener::bind`].
//! 4. On a listener, read eight more bytes once the target has connected to
//!    the proxy, and hand them to [`Socks4Listener::accept`].
//!
//! A reply that is no grant ends the session: the function that was handed
//! the reply says why and drops the transport.
//!
//! Every function is verified against its contract. The contracts speak of
//! bytes as `Seq<u8>`; [`request::encoded_request`] and
//! [`response::decoded_response`] define the wire format.

pub mod addr;
pub mod error;
pub mod header;
pub mod request;
pub mod response;
pub mod v4;
pub mod wire;

pub use crate::addr::{Ipv4Addr, Ipv6Addr, SocketAddr, SocketAddrV4, SocketAddrV6, TargetAddr};
pub use crate::error::{Error, ErrorKind};
pub use crate::header::Header;
pub use crate::request::{encode_request, Command};
pub use crate::response::read_response;
pub use crate::v4::{Socks4Listener, Socks4Stream};
