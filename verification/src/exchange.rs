use vstd::prelude::*;
use crate::message::InboundMessage;

verus! {

/// Why a transport session could not deliver a reply.
#[derive(Debug, Clone, Copy, PartialEq, Eq, Structural)]
pub enum TransportError {
    /// The resolver could not be reached when the session was opened.
    Connect,
    /// No correlated reply arrived within the caller's timeout.
    Timeout,
    /// The connection was closed or reset before a full reply arrived.
    ConnectionReset,
    /// The reply could not be decoded.
    MalformedResponse,
}

impl TransportError {
    /// Short description of the failure.
    pub open spec fn spec_detail(self) -> Seq<char> {
        match self {
            TransportError::Connect => "connect failed"@,
            TransportError::Timeout => "timeout"@,
            TransportError::ConnectionReset => "connection reset"@,
            TransportError::MalformedResponse => "malformed response"@,
        }
    }

    pub fn detail(self) -> (s: String)
        ensures
            s@ == self.spec_detail(),
    {
        match self {
            TransportError::Connect => "connect failed".to_owned(),
            TransportError::Timeout => "timeout".to_owned(),
            TransportError::ConnectionReset => "connection reset".to_owned(),
            TransportError::MalformedResponse => "malformed response".to_owned(),
        }
    }
}

/// How one exchange with the resolver ended.
#[derive(Debug, Clone, Copy, PartialEq, Eq)]
pub enum Exchange {
    /// The correlated reply arrived.
    Reply(InboundMessage),
    /// The session failed.
    Failed(TransportError),
    /// The caller's deadline tore the session down.
    Cancelled,
}

} // verus!
