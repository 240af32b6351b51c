use vstd::prelude::*;

use crate::dht22::Reading;
use crate::payload::spec_temperature_payload;
use crate::payload::temperature_payload;
use crate::ReadingError;

verus! {

/// Fixed delay before reconnecting after a session failure, in seconds.
pub const RECONNECT_BACKOFF_SECS: u64 = 10;

/// Shorter delay before the next attempt after a failed acquisition, in
/// seconds; it also keeps the sensor from being over-polled.
pub const RECOVERY_DELAY_SECS: u64 = 10;

/// Keepalive interval requested of the transport, in seconds.
pub const KEEP_ALIVE_SECS: u64 = 60;

/// The light bridge probes its pin once a second.
pub const LIGHT_TICK_SECS: u64 = 1;

/// Where the supervisor stands in the session lifecycle.
#[derive(Clone, Copy, Debug, PartialEq, Eq, Structural)]
pub enum SessionState {
    Disconnected,
    Connecting,
    Connected,
}

/// What the caller reports to the supervisor.
#[derive(Clone, Copy, Debug, PartialEq, Eq, Structural)]
pub enum SessionEvent {
    /// The process wants a session: it is disconnected and ready to try.
    ConnectRequested,
    /// The transport handed out a fresh session.
    SessionEstablished,
    /// A publish was rejected, or the session watcher saw the transport
    /// fail: either way the session is dead.
    SessionLost,
}

/// What the caller must do next.
#[derive(Clone, Copy, Debug, PartialEq, Eq, Structural)]
pub enum SessionAction {
    /// Build session parameters and request a session from the transport.
    RequestSession,
    /// Start the session's two activities: the keepalive watcher and the
    /// acquire/publish loop.
    StartSessionTasks,
    /// Tear the session down, sleep the given number of seconds, then
    /// report `ConnectRequested` again.
    BackoffThenReconnect(u64),
    /// The event does not apply to this state; nothing to do.
    Ignore,
}

/// The session lifecycle: a dead session always costs a full teardown and a
/// fixed backoff before the next attempt, never a partial state.
pub open spec fn spec_session_step(state: SessionState, event: SessionEvent) -> (
    SessionState,
    SessionAction,
) {
    match (state, event) {
        (SessionState::Disconnected, SessionEvent::ConnectRequested) => (
            SessionState::Connecting,
            SessionAction::RequestSession,
        ),
        (SessionState::Connecting, SessionEvent::SessionEstablished) => (
            SessionState::Connected,
            SessionAction::StartSessionTasks,
        ),
        (SessionState::Connected, SessionEvent::SessionLost) => (
            SessionState::Disconnected,
            SessionAction::BackoffThenReconnect(RECONNECT_BACKOFF_SECS),
        ),
        _ => (state, SessionAction::Ignore),
    }
}

/// Advance the session lifecycle by one reported event.
pub fn session_step(state: SessionState, event: SessionEvent) -> (r: (SessionState, SessionAction))
    ensures
        r == spec_session_step(state, event),
{
    match (state, event) {
        (SessionState::Disconnected, SessionEvent::ConnectRequested) => (
            SessionState::Connecting,
            SessionAction::RequestSession,
        ),
        (SessionState::Connecting, SessionEvent::SessionEstablished) => (
            SessionState::Connected,
            SessionAction::StartSessionTasks,
        ),
        (SessionState::Connected, SessionEvent::SessionLost) => (
            SessionState::Disconnected,
            SessionAction::BackoffThenReconnect(RECONNECT_BACKOFF_SECS),
        ),
        (s, _) => (s, SessionAction::Ignore),
    }
}

/// What one temperature-bridge tick decided: what to publish, if anything,
/// and how long to sleep before the next acquisition.
pub struct TemperatureTick {
    pub payload: Option<String>,
    pub delay_secs: u64,
}

/// Decide one tick of the temperature bridge from the acquisition's
/// outcome.
///
/// A decoded reading is published at once and followed by the configured
/// publish delay; a failed acquisition publishes nothing and is followed by
/// the shorter recovery delay, so no attempt ever skips its delay.
pub fn plan_temperature_tick(
    reading: &Result<Reading, ReadingError>,
    publish_delay_secs: u64,
) -> (r: TemperatureTick)
    ensures
        match *reading {
            Ok(rd) => (r.payload matches Some(p) && p@ == spec_temperature_payload(rd))
                && r.delay_secs == publish_delay_secs,
            Err(_) => r.payload is None && r.delay_secs == RECOVERY_DELAY_SECS,
        },
{
    match reading {
        Ok(rd) => TemperatureTick {
            payload: Some(temperature_payload(rd)),
            delay_secs: publish_delay_secs,
        },
        Err(_) => TemperatureTick { payload: None, delay_secs: RECOVERY_DELAY_SECS },
    }
}

} // verus!
