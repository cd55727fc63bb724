use vstd::prelude::*;

verus! {

/// Where one streaming connection stands.
#[derive(Clone, Copy, Debug, PartialEq, Eq, Structural)]
pub enum ConnectionState {
    /// Upgraded, not yet registered.
    Connecting,
    /// Registered under the handle; payloads are relayed to the peer.
    Active(u64),
    /// Relay or read has ended; the handle is still registered.
    Closing(u64),
    /// Unregistered and released.
    Closed,
}

/// What the connection's surroundings report.
#[derive(Clone, Copy, Debug, PartialEq, Eq, Structural)]
pub enum ConnectionEvent {
    /// The registry gave this handle.
    Registered(u64),
    /// The registry had no handle left to give.
    RegistryFull,
    /// The peer sent a frame; it carries nothing that the protocol reads.
    Inbound,
    /// The peer closed the connection.
    PeerClosed,
    /// Reading from the peer failed.
    TransportError,
    /// Relaying a payload to the peer failed.
    SendFailed,
    /// The handle has been removed from the registry.
    Unregistered,
}

/// What the surroundings are to do next.
#[derive(Clone, Copy, Debug, PartialEq, Eq, Structural)]
pub enum ConnectionAction {
    /// Start relaying the channel of this handle to the peer.
    StartRelay(u64),
    /// Nothing to do; keep reading.
    Nothing,
    /// Remove this handle from the registry.
    Unregister(u64),
    /// Stop relay and read, and release the connection.
    Release,
}

/// The lifecycle as a table: the next state and the action for each state and
/// event. Any pair it does not name leaves the state as it is and does nothing.
pub open spec fn transition(s: ConnectionState, e: ConnectionEvent) -> (ConnectionState, ConnectionAction) {
    match (s, e) {
        (ConnectionState::Connecting, ConnectionEvent::Registered(h)) => (
            ConnectionState::Active(h),
            ConnectionAction::StartRelay(h),
        ),
        (ConnectionState::Connecting, ConnectionEvent::RegistryFull) => (
            ConnectionState::Closed,
            ConnectionAction::Release,
        ),
        (ConnectionState::Active(h), ConnectionEvent::PeerClosed) => (
            ConnectionState::Closing(h),
            ConnectionAction::Unregister(h),
        ),
        (ConnectionState::Active(h), ConnectionEvent::TransportError) => (
            ConnectionState::Closing(h),
            ConnectionAction::Unregister(h),
        ),
        (ConnectionState::Active(h), ConnectionEvent::SendFailed) => (
            ConnectionState::Closing(h),
            ConnectionAction::Unregister(h),
        ),
        (ConnectionState::Closing(_), ConnectionEvent::Unregistered) => (
            ConnectionState::Closed,
            ConnectionAction::Release,
        ),
        _ => (s, ConnectionAction::Nothing),
    }
}

/// Advances one connection by one event.
pub fn step(state: ConnectionState, event: ConnectionEvent) -> (r: (ConnectionState, ConnectionAction))
    ensures
        r == transition(state, event),
{
    match state {
        ConnectionState::Connecting => match event {
            ConnectionEvent::Registered(h) => (
                ConnectionState::Active(h),
                ConnectionAction::StartRelay(h),
            ),
            ConnectionEvent::RegistryFull => (ConnectionState::Closed, ConnectionAction::Release),
            _ => (state, ConnectionAction::Nothing),
        },
        ConnectionState::Active(h) => match event {
            ConnectionEvent::PeerClosed | ConnectionEvent::TransportError
            | ConnectionEvent::SendFailed => (
                ConnectionState::Closing(h),
                ConnectionAction::Unregister(h),
            ),
            _ => (state, ConnectionAction::Nothing),
        },
        ConnectionState::Closing(_) => match event {
            ConnectionEvent::Unregistered => (ConnectionState::Closed, ConnectionAction::Release),
            _ => (state, ConnectionAction::Nothing),
        },
        ConnectionState::Closed => (state, ConnectionAction::Nothing),
    }
}

/// A connection leaves the active state only by asking to unregister its own
/// handle, and only when the peer or the transport has ended it.
pub proof fn lemma_leaving_active_unregisters(h: u64, e: ConnectionEvent)
    ensures
        transition(ConnectionState::Active(h), e).0 != ConnectionState::Active(h) ==> {
            &&& transition(ConnectionState::Active(h), e) == (
                ConnectionState::Closing(h),
                ConnectionAction::Unregister(h),
            )
            &&& (e == ConnectionEvent::PeerClosed || e == ConnectionEvent::TransportError || e
                == ConnectionEvent::SendFailed)
        },
{
}

/// Once closed, a connection stays closed and does nothing more.
pub proof fn lemma_closed_is_final(e: ConnectionEvent)
    ensures
        transition(ConnectionState::Closed, e) == (ConnectionState::Closed, ConnectionAction::Nothing),
{
}

} // verus!
