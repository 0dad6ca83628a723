//! The failures the server core reports, and how far each one reaches.

use vstd::prelude::*;

verus! {

/// How far the consequences of a failure reach.
#[derive(Clone, Copy, Debug, PartialEq, Eq, Structural)]
pub enum Scope {
    /// Only the connection on which the failure occurred is affected.
    Connection,
    /// The failure concerns starting or stopping the server as a whole.
    Lifecycle,
}

/// A failure reported by the server core.
#[derive(Clone, Copy, Debug, PartialEq, Eq, Structural)]
pub enum ForgeError {
    /// The callback descriptor carries no dispatch function.
    MissingCallback,
    /// The connection ceiling was already reached when the peer connected.
    AtCapacity,
    /// The peer did not offer the subprotocol during the handshake.
    ProtocolNotFound,
    /// The peer sent a text message; only binary packets are accepted.
    TextNotSupported,
    /// The transport could not be set up when the server was started.
    TransportFailed,
    /// The request to stop could not be delivered to the worker.
    SignalFailed,
}

impl ForgeError {
    /// The scope of this failure.
    pub open spec fn spec_scope(self) -> Scope {
        match self {
            ForgeError::AtCapacity | ForgeError::ProtocolNotFound | ForgeError::TextNotSupported => {
                Scope::Connection
            },
            ForgeError::MissingCallback | ForgeError::TransportFailed | ForgeError::SignalFailed => {
                Scope::Lifecycle
            },
        }
    }

    /// The human-readable description of this failure.
    pub open spec fn message(self) -> Seq<char> {
        match self {
            ForgeError::MissingCallback => "callback has no dispatch function"@,
            ForgeError::AtCapacity => "connection limit reached"@,
            ForgeError::ProtocolNotFound => "'forge' protocol not found"@,
            ForgeError::TextNotSupported => "Text data not supported by protocol"@,
            ForgeError::TransportFailed => "transport could not be started"@,
            ForgeError::SignalFailed => "shutdown signal could not be sent"@,
        }
    }

    /// Returns the scope of this failure.
    #[verifier::when_used_as_spec(spec_scope)]
    pub fn scope(self) -> (s: Scope)
        ensures
            s == self.spec_scope(),
    {
        match self {
            ForgeError::AtCapacity | ForgeError::ProtocolNotFound | ForgeError::TextNotSupported => {
                Scope::Connection
            },
            ForgeError::MissingCallback | ForgeError::TransportFailed | ForgeError::SignalFailed => {
                Scope::Lifecycle
            },
        }
    }

    /// Returns the human-readable description of this failure.
    pub fn details(&self) -> (text: &'static str)
        ensures
            text@ == self.message(),
    {
        match self {
            ForgeError::MissingCallback => "callback has no dispatch function",
            ForgeError::AtCapacity => "connection limit reached",
            ForgeError::ProtocolNotFound => "'forge' protocol not found",
            ForgeError::TextNotSupported => "Text data not supported by protocol",
            ForgeError::TransportFailed => "transport could not be started",
            ForgeError::SignalFailed => "shutdown signal could not be sent",
        }
    }
}

} // verus!
