//! The per-connection state: a handler for every admitted connection, and a
//! session for every connection that completed the handshake.

use vstd::prelude::*;
use crate::callback::{Invocation, PacketCallback};
use crate::error::{ForgeError, Scope};
use crate::gate::{admits, after_lost, negotiate, offers_protocol, FORGE_PROTOCOL, MAX_CONNECTIONS};

verus! {

/// Close code of a connection that ended because its purpose was fulfilled.
pub const CLOSE_NORMAL: u16 = 1000;

/// Close code of a peer that is going away.
pub const CLOSE_AWAY: u16 = 1001;

/// Close code that stands for a closing frame without a status code.
pub const CLOSE_NO_STATUS: u16 = 1005;

/// An application message as the transport delivers it.
#[derive(Debug, PartialEq, Eq)]
pub enum ClientMessage {
    /// A text message.
    Text(String),
    /// A binary message: one packet.
    Binary(Vec<u8>),
}

/// Why a connection was closed.
#[derive(Clone, Copy, Debug, PartialEq, Eq, Structural)]
pub enum CloseKind {
    /// The peer is done with the connection.
    Normal,
    /// The peer is going away.
    Away,
    /// The peer closed the socket without giving a status.
    NoStatus,
    /// Anything else: the connection ended on an error.
    Failure,
}

/// What a message leads to: the packet to deliver, or the failure that ends
/// the connection.
pub open spec fn message_outcome(msg: ClientMessage) -> Result<Seq<u8>, ForgeError> {
    match msg {
        ClientMessage::Binary(packet) => Ok(packet@),
        ClientMessage::Text(_) => Err(ForgeError::TextNotSupported),
    }
}

/// The kind of close that a close code stands for.
pub open spec fn close_kind(code: u16) -> CloseKind {
    if code == CLOSE_NORMAL {
        CloseKind::Normal
    } else if code == CLOSE_AWAY {
        CloseKind::Away
    } else if code == CLOSE_NO_STATUS {
        CloseKind::NoStatus
    } else {
        CloseKind::Failure
    }
}

/// The handler of one admitted connection, before its handshake.
#[derive(Debug)]
pub struct ForgeHandler {
    callback: PacketCallback,
}

/// The state of one connection whose handshake succeeded.
#[derive(Debug)]
pub struct ConnectionSession {
    callback: PacketCallback,
}

impl ForgeHandler {
    /// The descriptor this connection dispatches to.
    pub closed spec fn spec_callback(&self) -> PacketCallback {
        self.callback
    }

    /// The handler of a connection that dispatches to `callback`.
    pub(crate) fn new(callback: PacketCallback) -> (handler: ForgeHandler)
        ensures
            handler.callback() == callback,
    {
        ForgeHandler { callback }
    }

    /// Returns the descriptor this connection dispatches to.
    #[verifier::when_used_as_spec(spec_callback)]
    pub fn callback(&self) -> (callback: PacketCallback)
        ensures
            callback == self.spec_callback(),
    {
        self.callback
    }

    /// Answers the handshake of a peer that offered the subprotocols
    /// `offered`. A session comes into being exactly if the token is among
    /// them, wherever it stands and whatever else is offered; otherwise the
    /// handshake fails and there is no session.
    pub fn on_request(&self, offered: &Vec<String>) -> (r: Result<ConnectionSession, ForgeError>)
        ensures
            r is Ok <==> offers_protocol(offered.deep_view()),
            r matches Ok(session) ==> session.callback() == self.callback(),
            r matches Err(e) ==> e == ForgeError::ProtocolNotFound && e.scope()
                == Scope::Connection,
    {
        match negotiate(offered) {
            Some(_) => Ok(ConnectionSession { callback: self.callback }),
            None => Err(ForgeError::ProtocolNotFound),
        }
    }
}

impl ConnectionSession {
    /// The descriptor this session dispatches to.
    pub closed spec fn spec_callback(&self) -> PacketCallback {
        self.callback
    }

    /// Returns the descriptor this session dispatches to.
    #[verifier::when_used_as_spec(spec_callback)]
    pub fn callback(&self) -> (callback: PacketCallback)
        ensures
            callback == self.spec_callback(),
    {
        self.callback
    }

    /// Returns the subprotocol that was selected for this session, to be
    /// echoed in the handshake response.
    pub fn protocol(&self) -> (token: &'static str)
        ensures
            token@ == FORGE_PROTOCOL@,
    {
        FORGE_PROTOCOL
    }

    /// Decides the call that delivers one packet to the callback.
    pub fn process_packet(&self, packet: Vec<u8>) -> (call: Option<Invocation>)
        ensures
            self.callback().delivers(packet@, call),
    {
        self.callback.invoke(packet)
    }

    /// Handles one application message. A binary message is delivered to the
    /// callback; a missing dispatch function drops it without failure. A text
    /// message fails the connection.
    pub fn on_message(&self, msg: ClientMessage) -> (r: Result<Option<Invocation>, ForgeError>)
        ensures
            message_outcome(msg) matches Ok(packet) ==> r matches Ok(call)
                && self.callback().delivers(packet, call),
            message_outcome(msg) matches Err(e) ==> r == Err::<Option<Invocation>, ForgeError>(e),
    {
        match msg {
            ClientMessage::Binary(packet) => Ok(self.process_packet(packet)),
            ClientMessage::Text(_) => Err(ForgeError::TextNotSupported),
        }
    }

    /// Ends the session when its connection was closed with `code`, and tells
    /// what kind of close it was.
    pub fn on_close(self, code: u16) -> (kind: CloseKind)
        ensures
            kind == close_kind(code),
    {
        if code == CLOSE_NORMAL {
            CloseKind::Normal
        } else if code == CLOSE_AWAY {
            CloseKind::Away
        } else if code == CLOSE_NO_STATUS {
            CloseKind::NoStatus
        } else {
            CloseKind::Failure
        }
    }
}

/// A text message fails the connection it came on, and nothing else: the
/// failure is confined to that connection, and once the connection is gone
/// the next one is admitted.
pub proof fn lemma_text_fails_only_its_connection(msg: ClientMessage, active: nat)
    requires
        msg is Text,
        0 < active <= MAX_CONNECTIONS,
    ensures
        message_outcome(msg) == Err::<Seq<u8>, ForgeError>(ForgeError::TextNotSupported),
        ForgeError::TextNotSupported.scope() == Scope::Connection,
        admits(after_lost(active)),
{
}

/// Every binary message, of whatever length, is delivered as it is: with a
/// dispatch function there is one call that carries exactly its bytes,
/// without one there is no call, and in neither case a failure.
pub proof fn lemma_binary_is_delivered_unchanged(
    callback: PacketCallback,
    packet: Vec<u8>,
    call: Option<Invocation>,
)
    requires
        callback.delivers(packet@, call),
    ensures
        message_outcome(ClientMessage::Binary(packet)) == Ok::<Seq<u8>, ForgeError>(packet@),
        callback.dispatch_fn() is Some ==> call is Some && call->0.payload@.len() == packet@.len()
            && call->0.payload@ == packet@ && call->0.userdata == callback.userdata,
        callback.dispatch_fn() is None ==> call is None,
{
}

} // verus!
