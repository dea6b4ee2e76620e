//! The failures an operation can report, and what each one asks of the caller.

use vstd::prelude::*;
use vstd::string::StringExecFns;

verus! {

/// Why an operation on the device or on the session did not succeed.
#[derive(Clone, Copy, Debug, PartialEq, Eq, Structural)]
pub enum DeviceError {
    /// An exchange was asked for while no port is open.
    NoConnection,
    /// The named port could not be opened.
    PortUnavailable,
    /// Opening the port or an exchange on it failed.
    IoError,
    /// The device did not answer within the read timeout.
    Timeout,
    /// The credentials offered at login were rejected.
    InvalidCredentials,
    /// A lock was found poisoned by an earlier failure of its holder.
    PoisonedLock,
}

/// What the caller has to do after a failure.
#[derive(Clone, Copy, Debug, PartialEq, Eq, Structural)]
pub enum Recovery {
    /// Nothing is open: the user has to connect first.
    Reconnect,
    /// The connection is no longer usable and must be dropped, not retried.
    DiscardConnection,
    /// The user may simply try again.
    Retry,
    /// The fault was transient and has been cleared: the operation goes on.
    Proceed,
}

impl DeviceError {
    /// The recovery that each failure calls for.
    pub open spec fn recovery_of(self) -> Recovery {
        match self {
            DeviceError::NoConnection => Recovery::Reconnect,
            DeviceError::PortUnavailable => Recovery::DiscardConnection,
            DeviceError::IoError => Recovery::DiscardConnection,
            DeviceError::Timeout => Recovery::DiscardConnection,
            DeviceError::InvalidCredentials => Recovery::Retry,
            DeviceError::PoisonedLock => Recovery::Proceed,
        }
    }

    /// The text shown to the user for each failure.
    pub open spec fn message_of(self) -> Seq<char> {
        match self {
            DeviceError::NoConnection => "No active connection"@,
            DeviceError::PortUnavailable => "Failed to connect to port"@,
            DeviceError::IoError => "Serial I/O failed"@,
            DeviceError::Timeout => "The device did not answer in time"@,
            DeviceError::InvalidCredentials => "Invalid credentials"@,
            DeviceError::PoisonedLock => "Poisoned mutex"@,
        }
    }

    /// What the caller has to do after this failure.
    pub fn recovery(&self) -> (recovery: Recovery)
        ensures
            recovery == self.recovery_of(),
    {
        match self {
            DeviceError::NoConnection => Recovery::Reconnect,
            DeviceError::PortUnavailable => Recovery::DiscardConnection,
            DeviceError::IoError => Recovery::DiscardConnection,
            DeviceError::Timeout => Recovery::DiscardConnection,
            DeviceError::InvalidCredentials => Recovery::Retry,
            DeviceError::PoisonedLock => Recovery::Proceed,
        }
    }

    /// Whether the open connection has to be dropped after this failure.
    pub fn discards_connection(&self) -> (discards: bool)
        ensures
            discards == (self.recovery_of() == Recovery::DiscardConnection),
    {
        match self {
            DeviceError::PortUnavailable => true,
            DeviceError::IoError => true,
            DeviceError::Timeout => true,
            _ => false,
        }
    }

    /// The text shown to the user for this failure.
    pub fn message(&self) -> (text: String)
        ensures
            text@ == self.message_of(),
    {
        match self {
            DeviceError::NoConnection => String::from_str("No active connection"),
            DeviceError::PortUnavailable => String::from_str("Failed to connect to port"),
            DeviceError::IoError => String::from_str("Serial I/O failed"),
            DeviceError::Timeout => String::from_str("The device did not answer in time"),
            DeviceError::InvalidCredentials => String::from_str("Invalid credentials"),
            DeviceError::PoisonedLock => String::from_str("Poisoned mutex"),
        }
    }
}

} // verus!
