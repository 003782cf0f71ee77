use vstd::prelude::*;

verus! {

/// Wait after a failed attempt to open the serial link, in milliseconds.
pub const OPEN_RETRY_MS: u64 = 5000;

/// Pause between two reads of the serial link, in milliseconds.
pub const READ_INTERVAL_MS: u64 = 10;

/// Whether the serial link is open.
#[derive(Clone, Copy, Debug, PartialEq, Eq, Structural)]
pub enum LinkState {
    Disconnected,
    Connected,
}

/// What happened since the driver's last action.
#[derive(Clone, Copy, Debug, PartialEq, Eq, Structural)]
pub enum LinkEvent {
    /// The shutdown signal was seen.
    Cancelled,
    OpenFailed,
    Opened,
    /// A read delivered at least one byte.
    ReadBytes,
    /// A read delivered no bytes.
    ReadNothing,
    /// A read ran into the link's read timeout; not fatal.
    ReadTimedOut,
    /// A read failed otherwise; the link is given up.
    ReadFailed,
}

/// What the driver does next.
#[derive(Clone, Copy, Debug, PartialEq, Eq, Structural)]
pub enum DriverAction {
    /// Leave the loop.
    Exit,
    /// Open the link now.
    Open,
    /// Wait `ms` (or until cancelled), then open the link.
    WaitThenOpen { ms: u64 },
    /// Push the bytes read through the pipeline, wait `ms`, then read again.
    ProcessThenRead { ms: u64 },
    /// Wait `ms`, then read again.
    WaitThenRead { ms: u64 },
}

/// The driver's first state and action: open the link.
pub fn driver_start() -> (r: (LinkState, DriverAction))
    ensures
        r == (LinkState::Disconnected, DriverAction::Open),
{
    (LinkState::Disconnected, DriverAction::Open)
}

/// One decision of the serial driver: from its state and the latest event to
/// its next state and action. Cancellation always ends the loop; a failed
/// open is retried after a fixed back-off; bytes are processed and reading
/// goes on after a short pause; a fatal read error closes the link and
/// reopens it at once.
pub fn driver_step(state: LinkState, event: LinkEvent) -> (r: (LinkState, DriverAction))
    ensures
        event == LinkEvent::Cancelled ==> r == (state, DriverAction::Exit),
        event == LinkEvent::OpenFailed ==> r == (LinkState::Disconnected, DriverAction::WaitThenOpen {
            ms: OPEN_RETRY_MS,
        }),
        event == LinkEvent::Opened ==> r == (LinkState::Connected, DriverAction::WaitThenRead { ms: 0 }),
        event == LinkEvent::ReadBytes ==> r == (LinkState::Connected, DriverAction::ProcessThenRead {
            ms: READ_INTERVAL_MS,
        }),
        event == LinkEvent::ReadNothing ==> r == (LinkState::Connected, DriverAction::WaitThenRead {
            ms: READ_INTERVAL_MS,
        }),
        event == LinkEvent::ReadTimedOut ==> r == (LinkState::Connected, DriverAction::WaitThenRead {
            ms: READ_INTERVAL_MS,
        }),
        event == LinkEvent::ReadFailed ==> r == (LinkState::Disconnected, DriverAction::Open),
{
    match event {
        LinkEvent::Cancelled => (state, DriverAction::Exit),
        LinkEvent::OpenFailed => (LinkState::Disconnected, DriverAction::WaitThenOpen { ms: OPEN_RETRY_MS }),
        LinkEvent::Opened => (LinkState::Connected, DriverAction::WaitThenRead { ms: 0 }),
        LinkEvent::ReadBytes => (LinkState::Connected, DriverAction::ProcessThenRead { ms: READ_INTERVAL_MS }),
        LinkEvent::ReadNothing => (LinkState::Connected, DriverAction::WaitThenRead { ms: READ_INTERVAL_MS }),
        LinkEvent::ReadTimedOut => (LinkState::Connected, DriverAction::WaitThenRead { ms: READ_INTERVAL_MS }),
        LinkEvent::ReadFailed => (LinkState::Disconnected, DriverAction::Open),
    }
}

} // verus!
