//! What can go wrong in a session, apart from the transport itself.

use vstd::prelude::*;

verus! {

/// Why a request could not be framed or a reply was not a grant.
#[derive(Clone, Copy, Debug, PartialEq, Eq, Structural, Hash)]
pub enum Error {
    /// The target is an IPv6 address, which SOCKS4 cannot express.
    AddressFamilyUnsupported,
    /// The reply does not open with the version byte of a reply.
    ProtocolVersionMismatch,
    /// The proxy rejected the request, or failed to carry it out.
    RequestRejected,
    /// The proxy could not reach an identd on the client.
    IdentdUnreachable,
    /// The client's identd named another user than the request did.
    IdentdMismatch,
    /// The reply is cut short, or its status is none that the protocol knows.
    MalformedResponse,
}

/// The broad class of an [`Error`], for callers that report it as an I/O
/// failure.
#[derive(Clone, Copy, Debug, PartialEq, Eq, Structural, Hash)]
pub enum ErrorKind {
    /// The caller asked for what the protocol cannot do.
    InvalidInput,
    /// The proxy sent what the protocol does not allow.
    InvalidData,
    /// The proxy turned the request down over who is asking.
    PermissionDenied,
    /// The proxy turned the request down and did not say why.
    Other,
}

impl Error {
    /// The class that each error falls in.
    pub open spec fn spec_kind(self) -> ErrorKind {
        match self {
            Error::AddressFamilyUnsupported => ErrorKind::InvalidInput,
            Error::ProtocolVersionMismatch => ErrorKind::InvalidData,
            Error::RequestRejected => ErrorKind::Other,
            Error::IdentdUnreachable => ErrorKind::PermissionDenied,
            Error::IdentdMismatch => ErrorKind::PermissionDenied,
            Error::MalformedResponse => ErrorKind::InvalidData,
        }
    }

    /// The sentence that describes each error.
    pub open spec fn spec_message(self) -> Seq<char> {
        match self {
            Error::AddressFamilyUnsupported => "SOCKS4 does not support IPv6"@,
            Error::ProtocolVersionMismatch => "invalid response version"@,
            Error::RequestRejected => "request rejected or failed"@,
            Error::IdentdUnreachable =>
                "request rejected because SOCKS server cannot connect to idnetd on the client"@,
            Error::IdentdMismatch =>
                "request rejected because the client program and identd report different user-ids"@,
            Error::MalformedResponse => "invalid response code"@,
        }
    }

    /// The class of this error.
    #[verifier::when_used_as_spec(spec_kind)]
    pub fn kind(self) -> (kind: ErrorKind)
        ensures
            kind == self.spec_kind(),
    {
        match self {
            Error::AddressFamilyUnsupported => ErrorKind::InvalidInput,
            Error::ProtocolVersionMismatch | Error::MalformedResponse => ErrorKind::InvalidData,
            Error::RequestRejected => ErrorKind::Other,
            Error::IdentdUnreachable | Error::IdentdMismatch => ErrorKind::PermissionDenied,
        }
    }

    /// A sentence that describes this error.
    pub fn message(self) -> (message: &'static str)
        ensures
            message@ == self.spec_message(),
    {
        match self {
            Error::AddressFamilyUnsupported => "SOCKS4 does not support IPv6",
            Error::ProtocolVersionMismatch => "invalid response version",
            Error::RequestRejected => "request rejected or failed",
            Error::IdentdUnreachable =>
                "request rejected because SOCKS server cannot connect to idnetd on the client",
            Error::IdentdMismatch =>
                "request rejected because the client program and identd report different user-ids",
            Error::MalformedResponse => "invalid response code",
        }
    }
}

} // verus!
