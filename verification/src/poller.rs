//! The background poller: the steps of the thread that keeps the sensor
//! state fresh, and the state it shares with its owner.
//!
//! The thread works with two locks, one on the connection and one on the
//! shared state, and never holds both: a slow exchange must not keep the
//! owner from reading the state. It stops by itself, at the end of the
//! round in which it finds `keep_alive` cleared; nobody waits for that.

use vstd::prelude::*;
use crate::error::DeviceError;
use crate::protocol::Exchange;
use crate::serial_connection::PollResult;

verus! {

/// How long the thread sleeps between two rounds.
pub const POLLER_SLEEP_MILLIS: u64 = 250;

/// What the poller thread and its owner share, behind the state lock.
#[derive(Clone, Copy, Debug, PartialEq, Eq, Structural)]
pub struct PollThreadState {
    /// Cleared by the owner to ask the thread to stop.
    pub keep_alive: bool,
    /// The frame of the last poll that succeeded, if any did.
    pub last_frame: Option<PollResult>,
}

/// Where the thread stands in its round.
#[derive(Clone, Copy, Debug, PartialEq, Eq)]
pub enum PollerPhase {
    /// About to take the connection lock.
    LockingConnection,
    /// Holds the connection lock; the poll is to be exchanged.
    Exchanging,
    /// Holds the connection lock and the result of the exchange.
    ReleasingConnection(Result<u8, DeviceError>),
    /// Holds no lock; about to take the state lock.
    LockingState(Result<u8, DeviceError>),
    /// Holds the state lock; the result is to be merged into the shared state.
    Publishing(Result<u8, DeviceError>),
    /// Holds the state lock; `stop` says whether `keep_alive` was found cleared.
    ReleasingState { stop: bool },
    /// Holds no lock; sleeps until the next round.
    Sleeping,
    /// The thread has left its loop.
    Stopped,
}

/// What the thread has to do in a phase.
#[derive(Clone, Copy, Debug, PartialEq, Eq)]
pub enum PollerAction {
    LockConnection,
    /// Carry out this exchange on the locked connection.
    Exchange(Exchange),
    ReleaseConnection,
    LockState,
    /// Merge this result into the locked shared state, with `PollThreadState::merge`.
    Publish(Result<u8, DeviceError>),
    ReleaseState,
    /// Sleep for this many milliseconds.
    Sleep(u64),
    Exit,
}

/// What the thread reports once it has done what a phase asked for.
#[derive(Clone, Copy, Debug, PartialEq, Eq)]
pub enum PollerEvent {
    /// The lock asked for is taken.
    Locked,
    /// The exchange ended with this status byte, or this failure.
    Exchanged(Result<u8, DeviceError>),
    /// The lock held is released.
    Released,
    /// The result was merged, and `keep_alive` was read as given.
    Published { keep_alive: bool },
    /// The sleep is over.
    Slept,
}

impl PollThreadState {
    /// The shared state after a result was merged: a status byte replaces
    /// the last frame whole, a failure leaves it as it was.
    pub open spec fn merged(self, status: Result<u8, DeviceError>) -> PollThreadState {
        match status {
            Ok(byte) => PollThreadState { keep_alive: self.keep_alive, last_frame: Some(PollResult::of_status(byte)) },
            Err(_) => self,
        }
    }

    /// The state that a new poller starts with: alive, and no frame yet.
    pub fn new() -> (shared: PollThreadState)
        ensures
            shared == (PollThreadState { keep_alive: true, last_frame: None }),
    {
        PollThreadState { keep_alive: true, last_frame: None }
    }

    /// Merges the result of a poll, and reads the stop signal. A failed poll
    /// costs this round only: the last frame stays, and the thread goes on.
    pub fn merge(&mut self, status: Result<u8, DeviceError>) -> (keep_alive: bool)
        ensures
            *final(self) == old(self).merged(status),
            keep_alive == old(self).keep_alive,
    {
        match status {
            Ok(byte) => {
                self.last_frame = Some(PollResult::decode(byte));
            },
            Err(_) => {},
        }
        self.keep_alive
    }

    /// Asks the thread to stop. The thread sees this at its next merge; the
    /// last frame stays readable.
    pub fn stop(&mut self)
        ensures
            *final(self) == (PollThreadState { keep_alive: false, last_frame: old(self).last_frame }),
    {
        self.keep_alive = false;
    }
}

impl PollerPhase {
    /// Whether the thread holds the connection lock in this phase.
    pub open spec fn holds_connection_lock(self) -> bool {
        self is Exchanging || self is ReleasingConnection
    }

    /// Whether the thread holds the state lock in this phase.
    pub open spec fn holds_state_lock(self) -> bool {
        self is Publishing || self is ReleasingState
    }

    /// What the thread has to do in each phase.
    pub open spec fn action_of(self) -> PollerAction {
        match self {
            PollerPhase::LockingConnection => PollerAction::LockConnection,
            PollerPhase::Exchanging => PollerAction::Exchange(Exchange { command: 0xAA, response_len: 1 }),
            PollerPhase::ReleasingConnection(_) => PollerAction::ReleaseConnection,
            PollerPhase::LockingState(_) => PollerAction::LockState,
            PollerPhase::Publishing(status) => PollerAction::Publish(status),
            PollerPhase::ReleasingState { .. } => PollerAction::ReleaseState,
            PollerPhase::Sleeping => PollerAction::Sleep(POLLER_SLEEP_MILLIS),
            PollerPhase::Stopped => PollerAction::Exit,
        }
    }

    /// The phase that follows when the thread reports `event`. A report that
    /// does not answer what the phase asked for changes nothing.
    pub open spec fn after(self, event: PollerEvent) -> PollerPhase {
        match (self, event) {
            (PollerPhase::LockingConnection, PollerEvent::Locked) => PollerPhase::Exchanging,
            (PollerPhase::Exchanging, PollerEvent::Exchanged(status)) => PollerPhase::ReleasingConnection(status),
            (PollerPhase::ReleasingConnection(status), PollerEvent::Released) => PollerPhase::LockingState(status),
            (PollerPhase::LockingState(status), PollerEvent::Locked) => PollerPhase::Publishing(status),
            (PollerPhase::Publishing(_), PollerEvent::Published { keep_alive }) => PollerPhase::ReleasingState {
                stop: !keep_alive,
            },
            (PollerPhase::ReleasingState { stop }, PollerEvent::Released) => if stop {
                PollerPhase::Stopped
            } else {
                PollerPhase::Sleeping
            },
            (PollerPhase::Sleeping, PollerEvent::Slept) => PollerPhase::LockingConnection,
            _ => self,
        }
    }

    /// The phase in which a new thread starts.
    pub fn start() -> (phase: PollerPhase)
        ensures
            phase == PollerPhase::LockingConnection,
    {
        PollerPhase::LockingConnection
    }

    /// What the thread has to do now.
    pub fn action(self) -> (action: PollerAction)
        ensures
            action == self.action_of(),
    {
        match self {
            PollerPhase::LockingConnection => PollerAction::LockConnection,
            PollerPhase::Exchanging => PollerAction::Exchange(Exchange { command: 0xAA, response_len: 1 }),
            PollerPhase::ReleasingConnection(_) => PollerAction::ReleaseConnection,
            PollerPhase::LockingState(_) => PollerAction::LockState,
            PollerPhase::Publishing(status) => PollerAction::Publish(status),
            PollerPhase::ReleasingState { .. } => PollerAction::ReleaseState,
            PollerPhase::Sleeping => PollerAction::Sleep(POLLER_SLEEP_MILLIS),
            PollerPhase::Stopped => PollerAction::Exit,
        }
    }

    /// Moves on when the thread reports `event`.
    pub fn advance(self, event: PollerEvent) -> (next: PollerPhase)
        ensures
            next == self.after(event),
    {
        match (self, event) {
            (PollerPhase::LockingConnection, PollerEvent::Locked) => PollerPhase::Exchanging,
            (PollerPhase::Exchanging, PollerEvent::Exchanged(status)) => PollerPhase::ReleasingConnection(status),
            (PollerPhase::ReleasingConnection(status), PollerEvent::Released) => PollerPhase::LockingState(status),
            (PollerPhase::LockingState(status), PollerEvent::Locked) => PollerPhase::Publishing(status),
            (PollerPhase::Publishing(_), PollerEvent::Published { keep_alive }) => PollerPhase::ReleasingState {
                stop: !keep_alive,
            },
            (PollerPhase::ReleasingState { stop }, PollerEvent::Released) => {
                if stop {
                    PollerPhase::Stopped
                } else {
                    PollerPhase::Sleeping
                }
            },
            (PollerPhase::Sleeping, PollerEvent::Slept) => PollerPhase::LockingConnection,
            _ => self,
        }
    }
}

/// The two locks are never held together, and each piece of work is done
/// under its own lock: the exchange under the connection lock only, the
/// merge under the state lock only, and sleeping and leaving under none.
pub proof fn locks_never_overlap(phase: PollerPhase)
    ensures
        !(phase.holds_connection_lock() && phase.holds_state_lock()),
        phase.action_of() is Exchange ==> phase.holds_connection_lock(),
        phase.action_of() is Publish ==> phase.holds_state_lock(),
        phase.action_of() is LockState ==> !phase.holds_connection_lock(),
        phase.action_of() is LockConnection ==> !phase.holds_state_lock(),
        phase.action_of() is Sleep || phase.action_of() is Exit ==> !phase.holds_connection_lock()
            && !phase.holds_state_lock(),
{
}

/// A lock is taken only by the report that it was, and given up only by the
/// report that it was released; no other step changes what is held.
pub proof fn locks_change_by_lock_reports_only(phase: PollerPhase, event: PollerEvent)
    ensures
        !phase.holds_connection_lock() && phase.after(event).holds_connection_lock() ==> phase
            == PollerPhase::LockingConnection && event == PollerEvent::Locked,
        phase.holds_connection_lock() && !phase.after(event).holds_connection_lock() ==> phase
            is ReleasingConnection && event == PollerEvent::Released,
        !phase.holds_state_lock() && phase.after(event).holds_state_lock() ==> phase is LockingState && event
            == PollerEvent::Locked,
        phase.holds_state_lock() && !phase.after(event).holds_state_lock() ==> phase is ReleasingState && event
            == PollerEvent::Released,
{
}

/// One round, from the first lock to the sleep or the exit: the connection
/// is locked, polled and released, then the state is locked, the result is
/// merged and the stop signal read, and the state is released. The round
/// ends in sleep if `keep_alive` was found set, and in the exit if not.
pub proof fn one_round(status: Result<u8, DeviceError>, keep_alive: bool)
    ensures
        ({
            let locked = PollerPhase::LockingConnection.after(PollerEvent::Locked);
            let polled = locked.after(PollerEvent::Exchanged(status));
            let released = polled.after(PollerEvent::Released);
            let relocked = released.after(PollerEvent::Locked);
            let merged = relocked.after(PollerEvent::Published { keep_alive });
            let done = merged.after(PollerEvent::Released);
            &&& PollerPhase::LockingConnection.action_of() == PollerAction::LockConnection
            &&& locked.action_of() == PollerAction::Exchange(Exchange { command: 0xAA, response_len: 1 })
            &&& polled.action_of() == PollerAction::ReleaseConnection
            &&& released.action_of() == PollerAction::LockState
            &&& relocked.action_of() == PollerAction::Publish(status)
            &&& merged.action_of() == PollerAction::ReleaseState
            &&& done.action_of() == if keep_alive {
                PollerAction::Sleep(POLLER_SLEEP_MILLIS)
            } else {
                PollerAction::Exit
            }
            &&& done.after(PollerEvent::Slept) == if keep_alive {
                PollerPhase::LockingConnection
            } else {
                PollerPhase::Stopped
            }
        }),
{
}

/// The thread leaves its loop only after it has read `keep_alive` cleared,
/// and then for good: nothing that is reported afterwards starts it again.
pub proof fn stops_only_when_asked(phase: PollerPhase, event: PollerEvent)
    ensures
        phase != PollerPhase::Stopped && phase.after(event) == PollerPhase::Stopped ==> phase == (
        PollerPhase::ReleasingState { stop: true }),
        phase.after(event) == (PollerPhase::ReleasingState { stop: true }) && phase != phase.after(event) ==> event
            == (PollerEvent::Published { keep_alive: false }),
        PollerPhase::Stopped.after(event) == PollerPhase::Stopped,
{
}

} // verus!
