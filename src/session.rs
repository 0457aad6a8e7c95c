use vstd::prelude::*;

verus! {

/// What the transport reported about the last attempt of the presence
/// session.
#[derive(Clone, Copy, Debug, PartialEq, Eq, Structural)]
pub enum SessionEvent {
    /// The session was opened.
    Connected,
    /// Opening the session failed.
    ConnectFailed,
    /// The peer accepted the update.
    Updated,
    /// Sending the update failed; the connection is unusable.
    UpdateFailed,
    /// The connection was re-established.
    Reconnected,
    /// Re-establishing the connection failed.
    ReconnectFailed,
}

/// What the presence session does next.
#[derive(Clone, Copy, Debug, PartialEq, Eq, Structural)]
pub enum SessionAction {
    /// The operation is complete: hand control back to the loop.
    Done,
    /// Wait this many seconds, then try to open the session again.
    Connect { delay_secs: u64 },
    /// Send the update again, from the start.
    Update,
    /// Wait this many seconds, then try to reconnect.
    Reconnect { delay_secs: u64 },
}

/// The retry policy of the presence session. Opening retries after the idle
/// interval until it succeeds; a failed update leads to reconnecting at once,
/// a failed reconnect to another attempt after the idle interval, and a
/// successful reconnect to sending the update once more. Nothing gives up.
pub fn next_action(event: SessionEvent, poll_idle: u64) -> (r: SessionAction)
    ensures
        r == (match event {
            SessionEvent::Connected => SessionAction::Done,
            SessionEvent::ConnectFailed => SessionAction::Connect { delay_secs: poll_idle },
            SessionEvent::Updated => SessionAction::Done,
            SessionEvent::UpdateFailed => SessionAction::Reconnect { delay_secs: 0 },
            SessionEvent::Reconnected => SessionAction::Update,
            SessionEvent::ReconnectFailed => SessionAction::Reconnect { delay_secs: poll_idle },
        }),
{
    match event {
        SessionEvent::Connected => SessionAction::Done,
        SessionEvent::ConnectFailed => SessionAction::Connect { delay_secs: poll_idle },
        SessionEvent::Updated => SessionAction::Done,
        SessionEvent::UpdateFailed => SessionAction::Reconnect { delay_secs: 0 },
        SessionEvent::Reconnected => SessionAction::Update,
        SessionEvent::ReconnectFailed => SessionAction::Reconnect { delay_secs: poll_idle },
    }
}

} // verus!
