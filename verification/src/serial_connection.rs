//! The sensor frame that a poll reports, and the open link to the device.

use vstd::prelude::*;
use vstd::string::StringExecFns;
use crate::bit_inspect::{bit_of, BitInspect};
use crate::error::DeviceError;
use crate::protocol::{
    open_failure, open_failure_of, response_of, single_byte, Command, Exchange, ExchangeOutcome,
    OpenOutcome,
};

verus! {

/// Position of each sensor flag in the status byte. Bit 0 carries no flag.
pub const FRONT_DOOR_BIT: usize = 1;

pub const DOOR_INVADE_BIT: usize = 2;

pub const FIRE_BIT: usize = 3;

pub const ACCELEROMETER_BIT: usize = 4;

pub const MOTION_2_BIT: usize = 5;

pub const MOTION_1_BIT: usize = 6;

pub const BACK_DOOR_BIT: usize = 7;

/// The seven sensor flags of one poll. A frame is built whole from one
/// status byte and replaces the frame before it; it is never updated in part.
#[derive(Clone, Copy, Debug, PartialEq, Eq, Structural)]
pub struct PollResult {
    pub open_door_front: bool,
    pub motion_detected_1: bool,
    pub motion_detected_2: bool,
    pub accelerometer: bool,
    pub fire_detected: bool,
    pub door_invade: bool,
    pub open_door_back: bool,
}

impl PollResult {
    /// The frame that a status byte stands for: each flag is the bit at its position.
    pub open spec fn of_status(status: u8) -> PollResult {
        PollResult {
            open_door_front: bit_of(status, FRONT_DOOR_BIT),
            motion_detected_1: bit_of(status, MOTION_1_BIT),
            motion_detected_2: bit_of(status, MOTION_2_BIT),
            accelerometer: bit_of(status, ACCELEROMETER_BIT),
            fire_detected: bit_of(status, FIRE_BIT),
            door_invade: bit_of(status, DOOR_INVADE_BIT),
            open_door_back: bit_of(status, BACK_DOOR_BIT),
        }
    }

    /// Whether at least one sensor reports.
    pub open spec fn any_flag_raised(self) -> bool {
        ||| self.open_door_front
        ||| self.open_door_back
        ||| self.motion_detected_1
        ||| self.motion_detected_2
        ||| self.accelerometer
        ||| self.fire_detected
        ||| self.door_invade
    }

    /// The frame in which no sensor reports.
    pub fn quiet() -> (frame: PollResult)
        ensures
            !frame.any_flag_raised(),
    {
        PollResult {
            open_door_front: false,
            motion_detected_1: false,
            motion_detected_2: false,
            accelerometer: false,
            fire_detected: false,
            door_invade: false,
            open_door_back: false,
        }
    }

    /// Unpacks a status byte. Every byte is a valid status: decoding cannot
    /// fail, and equal bytes give equal frames.
    pub fn decode(status: u8) -> (frame: PollResult)
        ensures
            frame == PollResult::of_status(status),
            frame.open_door_front == bit_of(status, 1),
            frame.door_invade == bit_of(status, 2),
            frame.fire_detected == bit_of(status, 3),
            frame.accelerometer == bit_of(status, 4),
            frame.motion_detected_2 == bit_of(status, 5),
            frame.motion_detected_1 == bit_of(status, 6),
            frame.open_door_back == bit_of(status, 7),
    {
        PollResult {
            open_door_front: status.is_bit_set(FRONT_DOOR_BIT),
            motion_detected_1: status.is_bit_set(MOTION_1_BIT),
            motion_detected_2: status.is_bit_set(MOTION_2_BIT),
            accelerometer: status.is_bit_set(ACCELEROMETER_BIT),
            fire_detected: status.is_bit_set(FIRE_BIT),
            door_invade: status.is_bit_set(DOOR_INVADE_BIT),
            open_door_back: status.is_bit_set(BACK_DOOR_BIT),
        }
    }

    /// Tests whether at least one sensor reports.
    pub fn any_flag(&self) -> (raised: bool)
        ensures
            raised == self.any_flag_raised(),
    {
        self.open_door_front || self.open_door_back || self.motion_detected_1
            || self.motion_detected_2 || self.accelerometer || self.fire_detected
            || self.door_invade
    }
}

/// An open serial link to the device, known by the name of its port.
///
/// The port itself is held by the caller. This value says what to exchange
/// over it and reads what came back.
#[derive(Debug, PartialEq, Eq)]
pub struct SerialConnection {
    port_name: String,
}

impl View for SerialConnection {
    type V = Seq<char>;

    /// The name of the port.
    closed spec fn view(&self) -> Seq<char> {
        self.port_name@
    }
}

/// The frame, or the failure, that a poll ends in for each outcome of its exchange.
pub open spec fn poll_result_of(outcome: ExchangeOutcome) -> Result<PollResult, DeviceError> {
    match response_of(outcome, 1) {
        Ok(bytes) => Ok(PollResult::of_status(bytes[0])),
        Err(error) => Err(error),
    }
}

/// The acknowledgment, or the failure, that a command other than a poll ends
/// in for each outcome of its exchange. The value of the answered byte is not read.
pub open spec fn ack_of(outcome: ExchangeOutcome) -> Result<(), DeviceError> {
    match response_of(outcome, 1) {
        Ok(_) => Ok(()),
        Err(error) => Err(error),
    }
}

impl SerialConnection {
    /// Records the result of opening the port `port_name` with the settings
    /// of the link: a connection if it opened, else the failure.
    pub fn new(port_name: &str, opened: OpenOutcome) -> (connection: Result<SerialConnection, DeviceError>)
        ensures
            match connection {
                Ok(link) => opened == OpenOutcome::Opened && link@ == port_name@,
                Err(error) => open_failure_of(opened) == Some(error),
            },
    {
        match open_failure(opened) {
            None => Ok(SerialConnection { port_name: String::from_str(port_name) }),
            Some(error) => Err(error),
        }
    }

    /// The name of the port.
    pub fn port_name(&self) -> (name: &str)
        ensures
            name@ == self@,
    {
        self.port_name.as_str()
    }

    /// The exchange that polls the sensors.
    pub fn send_poll(&self) -> (exchange: Exchange)
        ensures
            exchange == (Exchange { command: 0xAA, response_len: 1 }),
    {
        Command::Poll.exchange()
    }

    /// The exchange that resets the controller.
    pub fn send_reset(&self) -> (exchange: Exchange)
        ensures
            exchange == (Exchange { command: 0x55, response_len: 1 }),
    {
        Command::Reset.exchange()
    }

    /// The exchange that unlocks the back door.
    pub fn send_unlock_back_door(&self) -> (exchange: Exchange)
        ensures
            exchange == (Exchange { command: 0xA3, response_len: 1 }),
    {
        Command::UnlockBackDoor.exchange()
    }

    /// The exchange that locks the back door.
    pub fn send_lock_back_door(&self) -> (exchange: Exchange)
        ensures
            exchange == (Exchange { command: 0xA2, response_len: 1 }),
    {
        Command::LockBackDoor.exchange()
    }

    /// The exchange that locks the front door.
    pub fn send_lock_front_door(&self) -> (exchange: Exchange)
        ensures
            exchange == (Exchange { command: 0xA4, response_len: 1 }),
    {
        Command::LockFrontDoor.exchange()
    }

    /// The exchange that unlocks the front door.
    pub fn send_unlock_front_door(&self) -> (exchange: Exchange)
        ensures
            exchange == (Exchange { command: 0xA5, response_len: 1 }),
    {
        Command::UnlockFrontDoor.exchange()
    }

    /// Reads the outcome of a poll: the decoded frame, or the failure of the exchange.
    pub fn receive_poll(&self, outcome: &ExchangeOutcome) -> (frame: Result<PollResult, DeviceError>)
        ensures
            frame == poll_result_of(*outcome),
    {
        match single_byte(outcome) {
            Ok(status) => Ok(PollResult::decode(status)),
            Err(error) => Err(error),
        }
    }

    /// Reads the outcome of a command that is answered by one acknowledgment byte.
    pub fn receive_ack(&self, outcome: &ExchangeOutcome) -> (ack: Result<(), DeviceError>)
        ensures
            ack == ack_of(*outcome),
    {
        match single_byte(outcome) {
            Ok(_) => Ok(()),
            Err(error) => Err(error),
        }
    }
}

} // verus!
