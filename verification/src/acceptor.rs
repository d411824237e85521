//! Start-up and the accept loop, as a state machine.
//!
//! The acceptor does no socket work. It is told what happened and answers
//! with what to do next; the caller owns the runtime, the listener and the
//! connections.

use vstd::prelude::*;

verus! {

/// An IPv4 address and a port to listen on.
#[derive(Clone, Copy, Debug, PartialEq, Eq)]
pub struct BindAddress {
    pub host: (u8, u8, u8, u8),
    pub port: u16,
}

/// The loopback address at `port`.
pub open spec fn loopback(port: u16) -> BindAddress {
    BindAddress { host: (127, 0, 0, 1), port }
}

/// Where the server stands between start and exit.
#[derive(Clone, Copy, Debug, PartialEq, Eq)]
pub enum AcceptorState {
    /// The runtime that will carry the connections is being created.
    Starting,
    /// The listening socket is being bound.
    Binding,
    /// The socket is bound and connections are being accepted.
    Accepting,
    /// Start-up failed; the server will not serve.
    Failed,
}

/// What the caller reports back after performing an action.
#[derive(Clone, Copy, Debug, PartialEq, Eq)]
pub enum AcceptorEvent {
    RuntimeReady,
    RuntimeFailed,
    Bound,
    BindFailed,
    /// A connection arrived.
    Connected,
    /// Accepting a connection failed.
    AcceptFailed,
}

/// What the caller is to do next.
#[derive(Clone, Copy, Debug, PartialEq, Eq)]
pub enum AcceptorAction {
    /// Create the runtime; report `RuntimeReady` or `RuntimeFailed`.
    CreateRuntime,
    /// Bind a listening socket to the address, once; report `Bound` or
    /// `BindFailed`.
    Bind(BindAddress),
    /// Wait for a connection; report `Connected` or `AcceptFailed`.
    Accept,
    /// Hand the connection that just arrived to a task of its own, then
    /// wait for the next one without waiting for that task.
    ServeAndAccept,
    /// Log the failed accept, then wait for the next connection.
    ReportAndAccept,
    /// Report the failure to the operator and return `status` from the
    /// start call.
    Fail { status: i32 },
    /// The event does not belong to the current state: do nothing.
    Ignore,
}

/// The status with which a failed start returns.
pub const START_FAILED: i32 = 1;

/// The state after `event` arrives in `state`.
pub open spec fn next_state(state: AcceptorState, event: AcceptorEvent) -> AcceptorState {
    match (state, event) {
        (AcceptorState::Starting, AcceptorEvent::RuntimeReady) => AcceptorState::Binding,
        (AcceptorState::Starting, AcceptorEvent::RuntimeFailed) => AcceptorState::Failed,
        (AcceptorState::Binding, AcceptorEvent::Bound) => AcceptorState::Accepting,
        (AcceptorState::Binding, AcceptorEvent::BindFailed) => AcceptorState::Failed,
        _ => state,
    }
}

/// The action that answers `event` in `state`, for a server that listens
/// on `address`.
pub open spec fn action_for(
    state: AcceptorState,
    event: AcceptorEvent,
    address: BindAddress,
) -> AcceptorAction {
    match (state, event) {
        (AcceptorState::Starting, AcceptorEvent::RuntimeReady) => AcceptorAction::Bind(address),
        (AcceptorState::Starting, AcceptorEvent::RuntimeFailed) => AcceptorAction::Fail {
            status: START_FAILED,
        },
        (AcceptorState::Binding, AcceptorEvent::Bound) => AcceptorAction::Accept,
        (AcceptorState::Binding, AcceptorEvent::BindFailed) => AcceptorAction::Fail {
            status: START_FAILED,
        },
        (AcceptorState::Accepting, AcceptorEvent::Connected) => AcceptorAction::ServeAndAccept,
        (AcceptorState::Accepting, AcceptorEvent::AcceptFailed) => AcceptorAction::ReportAndAccept,
        _ => AcceptorAction::Ignore,
    }
}

/// The start-up and accept loop of one server.
pub struct Acceptor {
    state: AcceptorState,
    address: BindAddress,
}

impl Acceptor {
    /// Where the acceptor stands.
    pub closed spec fn spec_state(&self) -> AcceptorState {
        self.state
    }

    /// The address that the acceptor binds.
    pub closed spec fn spec_address(&self) -> BindAddress {
        self.address
    }

    /// An acceptor for the loopback address at `port`, about to start.
    pub fn new(port: u16) -> (acceptor: Self)
        ensures
            acceptor.state() == AcceptorState::Starting,
            acceptor.address() == loopback(port),
    {
        Acceptor {
            state: AcceptorState::Starting,
            address: BindAddress { host: (127, 0, 0, 1), port },
        }
    }

    /// Where the acceptor stands.
    #[verifier::when_used_as_spec(spec_state)]
    pub fn state(&self) -> (state: AcceptorState)
        ensures
            state == self.spec_state(),
    {
        self.state
    }

    /// The address that the acceptor binds.
    #[verifier::when_used_as_spec(spec_address)]
    pub fn address(&self) -> (address: BindAddress)
        ensures
            address == self.spec_address(),
    {
        self.address
    }

    /// Takes in what happened and says what to do next.
    pub fn step(&mut self, event: AcceptorEvent) -> (action: AcceptorAction)
        ensures
            final(self).state() == next_state(old(self).state(), event),
            final(self).address() == old(self).address(),
            action == action_for(old(self).state(), event, old(self).address()),
    {
        match (self.state, event) {
            (AcceptorState::Starting, AcceptorEvent::RuntimeReady) => {
                self.state = AcceptorState::Binding;
                AcceptorAction::Bind(self.address)
            },
            (AcceptorState::Starting, AcceptorEvent::RuntimeFailed) => {
                self.state = AcceptorState::Failed;
                AcceptorAction::Fail { status: START_FAILED }
            },
            (AcceptorState::Binding, AcceptorEvent::Bound) => {
                self.state = AcceptorState::Accepting;
                AcceptorAction::Accept
            },
            (AcceptorState::Binding, AcceptorEvent::BindFailed) => {
                self.state = AcceptorState::Failed;
                AcceptorAction::Fail { status: START_FAILED }
            },
            (AcceptorState::Accepting, AcceptorEvent::Connected) => AcceptorAction::ServeAndAccept,
            (AcceptorState::Accepting, AcceptorEvent::AcceptFailed) => {
                AcceptorAction::ReportAndAccept
            },
            _ => AcceptorAction::Ignore,
        }
    }
}

/// The state after a run of events that begins in `state`.
pub open spec fn state_after(state: AcceptorState, events: Seq<AcceptorEvent>) -> AcceptorState
    decreases events.len(),
{
    if events.len() == 0 {
        state
    } else {
        next_state(state_after(state, events.drop_last()), events.last())
    }
}

/// How often a run of events that begins in `state` asks for a bind.
pub open spec fn binds_during(
    state: AcceptorState,
    events: Seq<AcceptorEvent>,
    address: BindAddress,
) -> nat
    decreases events.len(),
{
    if events.len() == 0 {
        0
    } else {
        let before = events.drop_last();
        let asked: nat = if action_for(state_after(state, before), events.last(), address)
            is Bind {
            1
        } else {
            0
        };
        binds_during(state, before, address) + asked
    }
}

/// A start that cannot bind fails for good and says so: the acceptor
/// answers a failed bind with a non-zero exit status, and from then on
/// ignores whatever it is told. It never asks for a second bind or for a
/// connection.
pub proof fn lemma_failed_bind_is_reported(address: BindAddress, later: AcceptorEvent)
    ensures
        next_state(AcceptorState::Binding, AcceptorEvent::BindFailed) == AcceptorState::Failed,
        action_for(AcceptorState::Binding, AcceptorEvent::BindFailed, address)
            == (AcceptorAction::Fail { status: START_FAILED }),
        START_FAILED != 0,
        next_state(AcceptorState::Failed, later) == AcceptorState::Failed,
        action_for(AcceptorState::Failed, later, address) == AcceptorAction::Ignore,
{
}

/// Once connections are accepted they are accepted for ever: no event ends
/// the accept loop. A connection is handed off and the next one awaited; a
/// failed accept is logged and the next one awaited.
pub proof fn lemma_accept_loop_never_ends(address: BindAddress, event: AcceptorEvent)
    ensures
        next_state(AcceptorState::Accepting, event) == AcceptorState::Accepting,
        !(action_for(AcceptorState::Accepting, event, address) is Fail),
        action_for(AcceptorState::Accepting, AcceptorEvent::Connected, address)
            == AcceptorAction::ServeAndAccept,
        action_for(AcceptorState::Accepting, AcceptorEvent::AcceptFailed, address)
            == AcceptorAction::ReportAndAccept,
{
}

/// Whatever happens once the accept loop runs, it keeps running; whatever
/// happens once start-up has failed, it stays failed.
pub proof fn lemma_accepting_and_failed_are_final(events: Seq<AcceptorEvent>)
    ensures
        state_after(AcceptorState::Accepting, events) == AcceptorState::Accepting,
        state_after(AcceptorState::Failed, events) == AcceptorState::Failed,
    decreases events.len(),
{
    if events.len() > 0 {
        lemma_accepting_and_failed_are_final(events.drop_last());
    }
}

/// In no run of events does a server ask for more than one bind, and the
/// one it asks for is made while it is still starting.
pub proof fn lemma_binds_at_most_once(events: Seq<AcceptorEvent>, address: BindAddress)
    ensures
        binds_during(AcceptorState::Starting, events, address) <= 1,
        state_after(AcceptorState::Starting, events) == AcceptorState::Starting
            ==> binds_during(AcceptorState::Starting, events, address) == 0,
    decreases events.len(),
{
    if events.len() > 0 {
        lemma_binds_at_most_once(events.drop_last(), address);
    }
}

/// The socket is bound once, and only to the address the acceptor was made
/// for: a bind is asked for on the way from starting to binding and nowhere
/// else.
pub proof fn lemma_binds_once(state: AcceptorState, event: AcceptorEvent, address: BindAddress)
    ensures
        action_for(state, event, address) is Bind ==> {
            &&& state == AcceptorState::Starting
            &&& event == AcceptorEvent::RuntimeReady
            &&& action_for(state, event, address) == AcceptorAction::Bind(address)
            &&& next_state(state, event) == AcceptorState::Binding
        },
        next_state(state, event) == AcceptorState::Starting ==> state == AcceptorState::Starting,
{
}

} // verus!
