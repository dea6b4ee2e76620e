//! The single-byte command protocol spoken over the serial link.
//!
//! Every logical operation is one exchange: one command byte goes out, and a
//! fixed number of bytes is read back before anything else may be sent.

use vstd::prelude::*;
use crate::error::DeviceError;

verus! {

/// Speed of the serial link in bits per second.
pub const BAUD_RATE: u32 = 9_600;

/// Data bits per character on the link.
pub const DATA_BITS: u8 = 8;

/// Stop bits per character on the link.
pub const STOP_BITS: u8 = 1;

/// How long a read waits for the device before the exchange counts as timed out.
pub const READ_TIMEOUT_MILLIS: u64 = 3_000;

/// The parity bit of a character.
#[derive(Clone, Copy, Debug, PartialEq, Eq, Structural)]
pub enum Parity {
    /// No parity bit is sent.
    Off,
    Odd,
    Even,
}

/// How the two ends of the link hold each other back.
#[derive(Clone, Copy, Debug, PartialEq, Eq, Structural)]
pub enum FlowControl {
    /// Neither end holds the other back.
    Off,
    Software,
    Hardware,
}

/// How a port has to be set up to talk to the device.
#[derive(Clone, Copy, Debug, PartialEq, Eq, Structural)]
pub struct LinkSettings {
    pub baud_rate: u32,
    pub data_bits: u8,
    pub stop_bits: u8,
    pub parity: Parity,
    pub flow_control: FlowControl,
    pub read_timeout_millis: u64,
}

/// The settings of the link: 9600 baud, 8 data bits, 1 stop bit, no
/// parity, no flow control, and a read timeout of three seconds.
pub fn link_settings() -> (settings: LinkSettings)
    ensures
        settings == (LinkSettings {
            baud_rate: 9_600,
            data_bits: 8,
            stop_bits: 1,
            parity: Parity::Off,
            flow_control: FlowControl::Off,
            read_timeout_millis: 3_000,
        }),
{
    LinkSettings {
        baud_rate: BAUD_RATE,
        data_bits: DATA_BITS,
        stop_bits: STOP_BITS,
        parity: Parity::Off,
        flow_control: FlowControl::Off,
        read_timeout_millis: READ_TIMEOUT_MILLIS,
    }
}

/// A logical operation of the device.
#[derive(Clone, Copy, Debug, PartialEq, Eq, Structural)]
pub enum Command {
    /// Ask for the status byte that packs the sensor flags.
    Poll,
    /// Reset the controller.
    Reset,
    LockBackDoor,
    UnlockBackDoor,
    LockFrontDoor,
    UnlockFrontDoor,
}

/// One request on the wire: the byte to write, and how many bytes to read
/// back before the exchange is complete.
#[derive(Clone, Copy, Debug, PartialEq, Eq, Structural)]
pub struct Exchange {
    pub command: u8,
    pub response_len: usize,
}

/// What the transport reports after it has carried out one exchange.
#[derive(Debug, PartialEq, Eq)]
pub enum ExchangeOutcome {
    /// The write succeeded and these bytes were read back.
    Received(Vec<u8>),
    /// No answer arrived within the read timeout.
    TimedOut,
    /// The write or the read failed.
    Failed,
}

/// How an attempt to open a serial port ended.
#[derive(Clone, Copy, Debug, PartialEq, Eq, Structural)]
pub enum OpenOutcome {
    /// The port is open.
    Opened,
    /// The device is absent or in use by another process.
    NoDevice,
    /// The port name or a setting was not accepted.
    InvalidInput,
    /// The operating system reported an I/O error.
    Io,
    /// The cause is not known.
    Unknown,
}

/// The state in which a lock was found when it was acquired.
#[derive(Clone, Copy, Debug, PartialEq, Eq, Structural)]
pub enum LockState {
    Clean,
    /// An earlier holder failed while it held the lock.
    Poisoned,
}

/// What to do with a lock that has just been acquired.
#[derive(Clone, Copy, Debug, PartialEq, Eq, Structural)]
pub struct LockRecovery {
    /// Whether the poison flag has to be cleared before going on.
    pub clear_poison: bool,
    /// The transient fault to note, if there was one. The operation goes on either way.
    pub fault: Option<DeviceError>,
}

impl Command {
    /// The byte that stands for each command on the wire.
    pub open spec fn opcode_of(self) -> u8 {
        match self {
            Command::Poll => 0xAA,
            Command::Reset => 0x55,
            Command::LockBackDoor => 0xA2,
            Command::UnlockBackDoor => 0xA3,
            Command::LockFrontDoor => 0xA4,
            Command::UnlockFrontDoor => 0xA5,
        }
    }

    /// The exchange that carries each command: its opcode out, one byte back.
    pub open spec fn exchange_of(self) -> Exchange {
        Exchange { command: self.opcode_of(), response_len: 1 }
    }

    /// The byte that stands for this command on the wire.
    pub fn opcode(self) -> (byte: u8)
        ensures
            byte == self.opcode_of(),
    {
        match self {
            Command::Poll => 0xAA,
            Command::Reset => 0x55,
            Command::LockBackDoor => 0xA2,
            Command::UnlockBackDoor => 0xA3,
            Command::LockFrontDoor => 0xA4,
            Command::UnlockFrontDoor => 0xA5,
        }
    }

    /// The number of bytes the device answers this command with.
    pub fn response_len(self) -> (len: usize)
        ensures
            len == 1,
    {
        1
    }

    /// The exchange that carries this command.
    pub fn exchange(self) -> (exchange: Exchange)
        ensures
            exchange == self.exchange_of(),
    {
        Exchange { command: self.opcode(), response_len: self.response_len() }
    }
}

/// The bytes that an exchange of `response_len` bytes yields, or the failure
/// it ends in: a timeout is reported as such, and a failed transfer, or an
/// answer of any other length, as an I/O error.
pub open spec fn response_of(outcome: ExchangeOutcome, response_len: nat) -> Result<Seq<u8>, DeviceError> {
    match outcome {
        ExchangeOutcome::Received(bytes) => if bytes@.len() == response_len {
            Ok(bytes@)
        } else {
            Err(DeviceError::IoError)
        },
        ExchangeOutcome::TimedOut => Err(DeviceError::Timeout),
        ExchangeOutcome::Failed => Err(DeviceError::IoError),
    }
}

/// The failure that each way of not opening a port is reported as; `None`
/// for a port that did open.
pub open spec fn open_failure_of(outcome: OpenOutcome) -> Option<DeviceError> {
    match outcome {
        OpenOutcome::Opened => None,
        OpenOutcome::NoDevice => Some(DeviceError::PortUnavailable),
        OpenOutcome::InvalidInput => Some(DeviceError::PortUnavailable),
        OpenOutcome::Io => Some(DeviceError::IoError),
        OpenOutcome::Unknown => Some(DeviceError::IoError),
    }
}

/// Reads the single status or acknowledgment byte out of what the transport
/// reported for a one-byte exchange.
pub fn single_byte(outcome: &ExchangeOutcome) -> (byte: Result<u8, DeviceError>)
    ensures
        byte == match response_of(*outcome, 1) {
            Ok(bytes) => Ok(bytes[0]),
            Err(error) => Err(error),
        },
{
    match outcome {
        ExchangeOutcome::Received(bytes) => {
            if bytes.len() == 1 {
                Ok(bytes[0])
            } else {
                Err(DeviceError::IoError)
            }
        },
        ExchangeOutcome::TimedOut => Err(DeviceError::Timeout),
        ExchangeOutcome::Failed => Err(DeviceError::IoError),
    }
}

/// Classifies the result of opening a port.
pub fn open_failure(outcome: OpenOutcome) -> (failure: Option<DeviceError>)
    ensures
        failure == open_failure_of(outcome),
{
    match outcome {
        OpenOutcome::Opened => None,
        OpenOutcome::NoDevice => Some(DeviceError::PortUnavailable),
        OpenOutcome::InvalidInput => Some(DeviceError::PortUnavailable),
        OpenOutcome::Io => Some(DeviceError::IoError),
        OpenOutcome::Unknown => Some(DeviceError::IoError),
    }
}

/// Decides how to go on with a lock that has just been acquired. A poisoned
/// lock never ends the operation: its flag is cleared, the fault is noted,
/// and the holder proceeds.
pub fn recover_lock(state: LockState) -> (recovery: LockRecovery)
    ensures
        recovery.clear_poison == (state == LockState::Poisoned),
        recovery.fault == if state == LockState::Poisoned {
            Some(DeviceError::PoisonedLock)
        } else {
            None
        },
{
    match state {
        LockState::Clean => LockRecovery { clear_poison: false, fault: None },
        LockState::Poisoned => LockRecovery { clear_poison: true, fault: Some(DeviceError::PoisonedLock) },
    }
}

} // verus!
