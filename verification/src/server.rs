//! The lifecycle of the server: validating a configuration, starting, and
//! shutting down in step with the worker that runs the transport.
//!
//! The lifecycle is a state machine. Its owner performs the work that each
//! [`Action`] names (setting up the transport, signalling the worker, joining
//! it) and reports the outcome as the next [`Event`].

use vstd::prelude::*;
use crate::address::{format_address, listen_address};
use crate::callback::PacketCallback;
use crate::error::{ForgeError, Scope};
use crate::gate::{ConnectionGate, MAX_CONNECTIONS};

verus! {

/// What a server is started from.
#[derive(Debug, PartialEq, Eq)]
pub struct ServerConfig {
    /// Host name or address to listen on; `None` if none was given.
    pub host: Option<String>,
    /// Where received packets are delivered.
    pub callback: PacketCallback,
    /// Port to listen on.
    pub port: u32,
}

/// Where a server is in its life.
#[derive(Clone, Copy, Debug, PartialEq, Eq, Structural)]
pub enum Phase {
    /// The transport is being set up.
    Starting,
    /// The worker is listening.
    Running,
    /// Shutdown was requested; the worker is being signalled.
    ShuttingDown,
    /// The worker was signalled and is being waited for.
    Joining,
    /// The server is gone for good.
    Stopped,
}

/// What happened outside the state machine.
#[derive(Clone, Copy, Debug, PartialEq, Eq, Structural)]
pub enum Event {
    /// The transport was set up and the worker runs.
    TransportReady,
    /// The transport could not be set up.
    TransportFailed,
    /// The owner asked for shutdown.
    ShutdownRequested,
    /// The stop signal was delivered to the worker.
    SignalSent,
    /// The stop signal could not be delivered.
    SignalFailed,
    /// The worker terminated.
    WorkerJoined,
    /// The worker could not be joined.
    WorkerPanicked,
}

/// What the owner of the state machine has to do next.
#[derive(Clone, Copy, Debug, PartialEq, Eq, Structural)]
pub enum Action {
    /// Nothing but to keep serving.
    Serve,
    /// Send the stop signal to the worker.
    SignalStop,
    /// Wait until the worker has terminated.
    JoinWorker,
    /// Report success: the server is down and the worker is gone.
    Finish,
    /// Report this failure.
    Fail(ForgeError),
    /// Give up for good: the worker's resources cannot be accounted for.
    Abort,
    /// The event does not belong in this phase; nothing changed.
    Reject,
}

/// The phase that follows `phase` on `event`, and what has to be done then.
pub open spec fn transition(phase: Phase, event: Event) -> (Phase, Action) {
    match (phase, event) {
        (Phase::Starting, Event::TransportReady) => (Phase::Running, Action::Serve),
        (Phase::Starting, Event::TransportFailed) => (
            Phase::Stopped,
            Action::Fail(ForgeError::TransportFailed),
        ),
        (Phase::Running, Event::ShutdownRequested) => (Phase::ShuttingDown, Action::SignalStop),
        (Phase::ShuttingDown, Event::SignalSent) => (Phase::Joining, Action::JoinWorker),
        (Phase::ShuttingDown, Event::SignalFailed) => (
            Phase::Stopped,
            Action::Fail(ForgeError::SignalFailed),
        ),
        (Phase::Joining, Event::WorkerJoined) => (Phase::Stopped, Action::Finish),
        (Phase::Joining, Event::WorkerPanicked) => (Phase::Stopped, Action::Abort),
        (_, _) => (phase, Action::Reject),
    }
}

/// The position of a phase in the order in which a server passes through
/// its life.
pub open spec fn rank(phase: Phase) -> nat {
    match phase {
        Phase::Starting => 0,
        Phase::Running => 1,
        Phase::ShuttingDown => 2,
        Phase::Joining => 3,
        Phase::Stopped => 4,
    }
}

/// The phase reached from `phase` after all of `events`, in order.
pub open spec fn run(phase: Phase, events: Seq<Event>) -> Phase
    decreases events.len(),
{
    if events.len() == 0 {
        phase
    } else {
        transition(run(phase, events.drop_last()), events.last()).0
    }
}

/// Whether a server can be started from this configuration: it is there,
/// names a host, and its callback has a dispatch function.
pub open spec fn startable(config: Option<&ServerConfig>) -> bool {
    config matches Some(c) && c.host is Some && c.callback.dispatch_fn() is Some
}

/// The handle of one server, from its start to its end.
#[derive(Debug)]
pub struct ServerContext {
    phase: Phase,
    address: String,
    callback: PacketCallback,
}

impl ServerContext {
    /// The phase the server is in.
    pub closed spec fn spec_phase(&self) -> Phase {
        self.phase
    }

    /// The address the server listens on.
    pub closed spec fn spec_address(&self) -> Seq<char> {
        self.address@
    }

    /// The descriptor received packets are delivered to.
    pub closed spec fn spec_callback(&self) -> PacketCallback {
        self.callback
    }

    /// Returns the phase the server is in.
    #[verifier::when_used_as_spec(spec_phase)]
    pub fn phase(&self) -> (phase: Phase)
        ensures
            phase == self.spec_phase(),
    {
        self.phase
    }

    /// Returns the address the server listens on.
    pub fn address(&self) -> (address: &str)
        ensures
            address@ == self.spec_address(),
    {
        self.address.as_str()
    }

    /// Returns the descriptor received packets are delivered to.
    #[verifier::when_used_as_spec(spec_callback)]
    pub fn callback(&self) -> (callback: PacketCallback)
        ensures
            callback == self.spec_callback(),
    {
        self.callback
    }

    /// Returns the number of connections the transport may hold at once.
    pub fn max_connections(&self) -> (ceiling: usize)
        ensures
            ceiling == MAX_CONNECTIONS,
    {
        MAX_CONNECTIONS
    }

    /// Returns a gate for the connections of this server: without live
    /// connections, and handing out this server's descriptor.
    pub fn gate(&self) -> (gate: ConnectionGate)
        ensures
            gate.active() == 0,
            gate.callback() == self.callback(),
    {
        ConnectionGate::new(self.callback)
    }

    /// Takes note of `event` and tells what has to be done next. Address and
    /// descriptor stay as they are.
    pub fn step(&mut self, event: Event) -> (action: Action)
        ensures
            (final(self).phase(), action) == transition(old(self).phase(), event),
            final(self).spec_address() == old(self).spec_address(),
            final(self).callback() == old(self).callback(),
    {
        let (next, action) = match (self.phase, event) {
            (Phase::Starting, Event::TransportReady) => (Phase::Running, Action::Serve),
            (Phase::Starting, Event::TransportFailed) => (
                Phase::Stopped,
                Action::Fail(ForgeError::TransportFailed),
            ),
            (Phase::Running, Event::ShutdownRequested) => (
                Phase::ShuttingDown,
                Action::SignalStop,
            ),
            (Phase::ShuttingDown, Event::SignalSent) => (Phase::Joining, Action::JoinWorker),
            (Phase::ShuttingDown, Event::SignalFailed) => (
                Phase::Stopped,
                Action::Fail(ForgeError::SignalFailed),
            ),
            (Phase::Joining, Event::WorkerJoined) => (Phase::Stopped, Action::Finish),
            (Phase::Joining, Event::WorkerPanicked) => (Phase::Stopped, Action::Abort),
            (phase, _) => (phase, Action::Reject),
        };
        self.phase = next;
        action
    }

    /// Requests shutdown. On a running server the answer is to signal the
    /// worker; in any other phase the request is rejected and changes
    /// nothing.
    pub fn shutdown(&mut self) -> (action: Action)
        ensures
            (final(self).phase(), action) == transition(
                old(self).phase(),
                Event::ShutdownRequested,
            ),
            final(self).spec_address() == old(self).spec_address(),
            final(self).callback() == old(self).callback(),
    {
        self.step(Event::ShutdownRequested)
    }
}

/// Prepares a server for `host` and `port` that delivers to `callback`. The
/// start is refused if the callback has no dispatch function; otherwise the
/// handle is returned in phase [`Phase::Starting`], with the listen address
/// worked out.
pub fn run_server(host: &str, port: u32, callback: &PacketCallback) -> (r: Result<
    ServerContext,
    ForgeError,
>)
    ensures
        r is Ok <==> callback.dispatch_fn() is Some,
        r matches Ok(context) ==> context.phase() == Phase::Starting && context.spec_address()
            == listen_address(host@, port) && context.callback() == *callback,
        r matches Err(e) ==> e == ForgeError::MissingCallback && e.scope() == Scope::Lifecycle,
{
    if callback.dispatch_fn().is_none() {
        return Err(ForgeError::MissingCallback);
    }
    Ok(ServerContext { phase: Phase::Starting, address: format_address(host, port), callback: *callback })
}

/// Prepares a server from a configuration that may be missing or incomplete.
/// There is a handle exactly if the configuration is there, names a host and
/// has a callback with a dispatch function.
pub fn forge_start_server(config: Option<&ServerConfig>) -> (r: Option<ServerContext>)
    ensures
        r is Some <==> startable(config),
        r matches Some(context) ==> context.phase() == Phase::Starting
            && context.spec_address() == listen_address(config->0.host->0@, config->0.port)
            && context.callback() == config->0.callback,
{
    let config = match config {
        Some(config) => config,
        None => {
            return None;
        },
    };
    let host = match &config.host {
        Some(host) => host,
        None => {
            return None;
        },
    };
    match run_server(host.as_str(), config.port, &config.callback) {
        Ok(context) => Some(context),
        Err(_) => None,
    }
}

/// Requests shutdown of the server behind a handle that may be missing.
/// Without a handle nothing happens. With one, shutdown is requested from it
/// and the handle is handed back with the action that is due.
pub fn forge_stop_server(context: Option<ServerContext>) -> (r: Option<(ServerContext, Action)>)
    ensures
        r is Some <==> context is Some,
        r matches Some(stopping) ==> (stopping.0.phase(), stopping.1) == transition(
            context->0.phase(),
            Event::ShutdownRequested,
        ) && stopping.0.spec_address() == context->0.spec_address() && stopping.0.callback()
            == context->0.callback(),
{
    match context {
        Some(mut context) => {
            let action = context.shutdown();
            Some((context, action))
        },
        None => None,
    }
}

/// A stopped server stays stopped: every event is rejected.
pub proof fn lemma_stopped_is_final(event: Event)
    ensures
        transition(Phase::Stopped, event) == (Phase::Stopped, Action::Reject),
{
}

/// A server never goes back to an earlier phase, and an event that is
/// rejected leaves the phase as it is.
pub proof fn lemma_phase_never_regresses(phase: Phase, event: Event)
    ensures
        rank(transition(phase, event).0) >= rank(phase),
        transition(phase, event).1 == Action::Reject ==> transition(phase, event).0 == phase,
{
}

/// Success is reported only when the worker was seen to terminate, and only
/// by a server that was waiting for it; the server is stopped by then.
pub proof fn lemma_finish_only_after_join(phase: Phase, event: Event)
    requires
        transition(phase, event).1 == Action::Finish,
    ensures
        phase == Phase::Joining,
        event == Event::WorkerJoined,
        transition(phase, event).0 == Phase::Stopped,
{
}

/// An outcome is reported only of a server that is stopped by then: no
/// success, failure or abort leaves a server half torn down.
pub proof fn lemma_reports_leave_stopped(phase: Phase, event: Event)
    requires
        transition(phase, event).1 is Finish || transition(phase, event).1 is Fail
            || transition(phase, event).1 is Abort,
    ensures
        transition(phase, event).0 == Phase::Stopped,
        rank(phase) < rank(Phase::Stopped),
        transition(phase, event).1 matches Action::Fail(e) ==> e.scope() == Scope::Lifecycle,
{
}

/// Whatever happens to a server, in whatever order, it never goes back to an
/// earlier phase.
pub proof fn lemma_run_never_regresses(phase: Phase, events: Seq<Event>)
    ensures
        rank(run(phase, events)) >= rank(phase),
    decreases events.len(),
{
    if events.len() > 0 {
        lemma_run_never_regresses(phase, events.drop_last());
        lemma_phase_never_regresses(run(phase, events.drop_last()), events.last());
    }
}

/// The worker is waited for only after the stop signal was delivered: a
/// server that started out before the signal and is now joining or stopped
/// by a join has seen `SignalSent`.
pub proof fn lemma_join_follows_signal(phase: Phase, events: Seq<Event>)
    requires
        rank(phase) <= rank(Phase::ShuttingDown),
        run(phase, events) == Phase::Joining,
    ensures
        events.contains(Event::SignalSent),
    decreases events.len(),
{
    if events.len() > 0 {
        let before = run(phase, events.drop_last());
        lemma_run_never_regresses(phase, events.drop_last());
        if before == Phase::Joining {
            lemma_join_follows_signal(phase, events.drop_last());
            let i = choose|i: int|
                0 <= i < events.drop_last().len() && events.drop_last()[i] == Event::SignalSent;
            assert(events[i] == Event::SignalSent);
        } else {
            assert(events.last() == Event::SignalSent);
            assert(events[events.len() - 1] == Event::SignalSent);
        }
    }
}

} // verus!
