//! Connection admission and subprotocol negotiation.
//!
//! A [`ConnectionGate`] admits at most [`MAX_CONNECTIONS`] connections at a
//! time. A connection beyond that is refused before any handshake: it gets
//! no handler. An admitted connection gets a handler with a copy of the
//! callback descriptor, and becomes a session only if its peer offers
//! [`FORGE_PROTOCOL`].

use vstd::prelude::*;
use vstd::string::StringExecFns;
use crate::callback::PacketCallback;
use crate::error::{ForgeError, Scope};
use crate::session::ForgeHandler;

verus! {

/// The subprotocol token a peer has to offer during the handshake.
pub const FORGE_PROTOCOL: &'static str = "forge";

/// The largest number of connections that may be live at once.
pub const MAX_CONNECTIONS: usize = 1;

/// Whether the token is among the subprotocols a peer offered.
pub open spec fn offers_protocol(offered: Seq<Seq<char>>) -> bool {
    offered.contains(FORGE_PROTOCOL@)
}

/// Whether a gate with `active` live connections admits one more.
pub open spec fn admits(active: nat) -> bool {
    active < MAX_CONNECTIONS
}

/// The number of live connections after a connection attempt.
pub open spec fn after_made(active: nat) -> nat {
    if admits(active) {
        active + 1
    } else {
        active
    }
}

/// The number of live connections after an admitted connection went away.
pub open spec fn after_lost(active: nat) -> nat {
    if active > 0 {
        (active - 1) as nat
    } else {
        active
    }
}

/// Looks for the subprotocol token among the offered subprotocols and returns
/// it if it is there. Tokens are compared exactly, character by character.
pub fn negotiate(offered: &Vec<String>) -> (selected: Option<&'static str>)
    ensures
        selected is Some <==> offers_protocol(offered.deep_view()),
        selected matches Some(token) ==> token@ == FORGE_PROTOCOL@,
{
    let token = String::from_str(FORGE_PROTOCOL);
    let mut i: usize = 0;
    while i < offered.len()
        invariant
            i <= offered.len(),
            token@ == FORGE_PROTOCOL@,
            forall|j: int| 0 <= j < i ==> offered.deep_view()[j] != FORGE_PROTOCOL@,
        decreases offered.len() - i,
    {
        if offered[i] == token {
            assert(offered.deep_view()[i as int] == FORGE_PROTOCOL@);
            return Some(FORGE_PROTOCOL);
        }
        i += 1;
    }
    None
}

/// Counts the live connections and refuses any beyond the ceiling.
#[derive(Debug)]
pub struct ConnectionGate {
    active: usize,
    callback: PacketCallback,
}

impl ConnectionGate {
    #[verifier::type_invariant]
    spec fn within_ceiling(self) -> bool {
        self.active <= MAX_CONNECTIONS
    }

    /// The number of live connections.
    pub closed spec fn spec_active(&self) -> usize {
        self.active
    }

    /// The descriptor every connection receives a copy of.
    pub closed spec fn spec_callback(&self) -> PacketCallback {
        self.callback
    }

    /// A gate without live connections.
    pub fn new(callback: PacketCallback) -> (gate: ConnectionGate)
        ensures
            gate.active() == 0,
            gate.callback() == callback,
    {
        ConnectionGate { active: 0, callback }
    }

    /// Returns the number of live connections, which never exceeds the
    /// ceiling.
    #[verifier::when_used_as_spec(spec_active)]
    pub fn active(&self) -> (n: usize)
        ensures
            n == self.spec_active(),
            n <= MAX_CONNECTIONS,
    {
        proof {
            use_type_invariant(self);
        }
        self.active
    }

    /// Returns the descriptor every connection receives a copy of.
    #[verifier::when_used_as_spec(spec_callback)]
    pub fn callback(&self) -> (callback: PacketCallback)
        ensures
            callback == self.spec_callback(),
    {
        self.callback
    }

    /// Registers a connection attempt. Below the ceiling the connection is
    /// admitted and counted, and gets a handler with a copy of the
    /// descriptor. At the ceiling it is refused, gets no handler, and the
    /// count stays as it is.
    pub fn connection_made(&mut self) -> (r: Result<ForgeHandler, ForgeError>)
        ensures
            r is Ok <==> admits(old(self).active() as nat),
            r matches Ok(handler) ==> handler.callback() == old(self).callback(),
            r matches Err(e) ==> e == ForgeError::AtCapacity && e.scope() == Scope::Connection,
            final(self).active() == after_made(old(self).active() as nat),
            final(self).active() <= MAX_CONNECTIONS,
            final(self).callback() == old(self).callback(),
    {
        proof {
            use_type_invariant(&*self);
        }
        if self.active < MAX_CONNECTIONS {
            self.active = self.active + 1;
            Ok(ForgeHandler::new(self.callback))
        } else {
            Err(ForgeError::AtCapacity)
        }
    }

    /// Registers that the admitted connection behind `handler` is gone, and
    /// frees its place.
    pub fn connection_lost(&mut self, handler: ForgeHandler)
        ensures
            final(self).active() == after_lost(old(self).active() as nat),
            final(self).callback() == old(self).callback(),
    {
        proof {
            use_type_invariant(&*self);
        }
        if self.active > 0 {
            self.active = self.active - 1;
        }
    }
}

/// While the ceiling is reached, every further connection attempt is refused
/// and leaves the count as it is; an admitted attempt is always counted.
pub proof fn lemma_ceiling_refuses(active: nat)
    requires
        active <= MAX_CONNECTIONS,
    ensures
        after_made(active) <= MAX_CONNECTIONS,
        active == MAX_CONNECTIONS ==> !admits(active) && after_made(active) == active,
        admits(active) ==> after_made(active) == active + 1,
{
}

/// After a connection was admitted, a second attempt is refused, and so is
/// a third.
pub proof fn lemma_second_connection_refused(active: nat)
    requires
        admits(active),
    ensures
        !admits(after_made(active)),
        !admits(after_made(after_made(active))),
{
}

/// Once an admitted connection is gone, the next attempt is admitted again.
pub proof fn lemma_lost_connection_frees_place(active: nat)
    requires
        0 < active <= MAX_CONNECTIONS,
    ensures
        admits(after_lost(active)),
        after_made(after_lost(active)) == active,
{
}

/// The token is the word `forge` in lower case, and an offer holds it only
/// where one of the offered subprotocols is that word, letter for letter and
/// as a whole.
pub proof fn lemma_token_is_matched_whole(offered: Seq<Seq<char>>)
    ensures
        FORGE_PROTOCOL@ == seq!['f', 'o', 'r', 'g', 'e'],
        offers_protocol(offered) <==> exists|i: int|
            0 <= i < offered.len() && offered[i] == seq!['f', 'o', 'r', 'g', 'e'],
        offers_protocol(offered) ==> offered.len() > 0,
{
    reveal_strlit("forge");
    assert(FORGE_PROTOCOL@ =~= seq!['f', 'o', 'r', 'g', 'e']);
}

/// What else is offered, and in which place the token stands, makes no
/// difference: an offer holds the token as soon as one part of it does.
pub proof fn lemma_offer_is_searched_whole(before: Seq<Seq<char>>, after: Seq<Seq<char>>)
    ensures
        offers_protocol(before + after) <==> offers_protocol(before) || offers_protocol(after),
        offers_protocol(before.push(FORGE_PROTOCOL@) + after),
{
    let token = FORGE_PROTOCOL@;
    let whole = before + after;
    if offers_protocol(before) {
        let i = choose|i: int| 0 <= i < before.len() && before[i] == token;
        assert(whole[i] == token);
    }
    if offers_protocol(after) {
        let i = choose|i: int| 0 <= i < after.len() && after[i] == token;
        assert(whole[before.len() + i] == token);
    }
    if offers_protocol(whole) {
        let i = choose|i: int| 0 <= i < whole.len() && whole[i] == token;
        if i < before.len() {
            assert(before[i] == token);
        } else {
            assert(after[i - before.len()] == token);
        }
    }
    let longer = before.push(token) + after;
    assert(longer[before.len() as int] == token);
}

} // verus!
