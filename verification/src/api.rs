//! The command surface: at most one connection, and every operation of the
//! device as an exchange over it.

use vstd::prelude::*;
use crate::error::{DeviceError, Recovery};
use crate::protocol::{open_failure_of, Command, Exchange, ExchangeOutcome, OpenOutcome};
use crate::serial_connection::{ack_of, poll_result_of, PollResult, SerialConnection};

verus! {

/// Holds the one connection that may be open, if any.
#[derive(Debug)]
pub struct Api {
    active_connection: Option<SerialConnection>,
}

impl View for Api {
    type V = Option<Seq<char>>;

    /// The name of the port that is connected, if one is.
    closed spec fn view(&self) -> Option<Seq<char>> {
        match self.active_connection {
            Some(connection) => Some(connection@),
            None => None,
        }
    }
}

/// The exchange to carry out for a command, or the failure to report where
/// nothing is connected.
pub open spec fn request_of(connected: Option<Seq<char>>, exchange: Exchange) -> Result<Exchange, DeviceError> {
    if connected is Some {
        Ok(exchange)
    } else {
        Err(DeviceError::NoConnection)
    }
}

/// Whether the connection survives an operation that ended in `result`:
/// it is dropped exactly on a failure that leaves the link unusable.
pub open spec fn survives<T>(result: Result<T, DeviceError>) -> bool {
    match result {
        Ok(_) => true,
        Err(error) => error.recovery_of() != Recovery::DiscardConnection,
    }
}

impl Api {
    /// Starts with nothing connected.
    pub fn new() -> (api: Api)
        ensures
            api@ is None,
    {
        Api { active_connection: None }
    }

    /// Takes in the result of opening the port `port_name`. A port that
    /// opened becomes the connection, in place of any earlier one; a failure
    /// is reported and leaves the state as it was.
    pub fn connect(&mut self, port_name: &str, opened: OpenOutcome) -> (result: Result<(), DeviceError>)
        ensures
            match result {
                Ok(_) => opened == OpenOutcome::Opened && final(self)@ == Some(port_name@),
                Err(error) => open_failure_of(opened) == Some(error) && final(self)@ == old(self)@,
            },
    {
        match SerialConnection::new(port_name, opened) {
            Ok(connection) => {
                self.active_connection = Some(connection);
                Ok(())
            },
            Err(error) => Err(error),
        }
    }

    /// Drops the connection, if there is one.
    pub fn close_connection(&mut self)
        ensures
            final(self)@ is None,
    {
        self.active_connection = None;
    }

    /// Whether a port is connected.
    pub fn is_connected(&self) -> (connected: bool)
        ensures
            connected == (self@ is Some),
    {
        self.active_connection.is_some()
    }

    /// The name of the connected port, if one is.
    pub fn port_name(&self) -> (name: Option<&str>)
        ensures
            match name {
                Some(text) => self@ == Some(text@),
                None => self@ is None,
            },
    {
        match &self.active_connection {
            Some(connection) => Some(connection.port_name()),
            None => None,
        }
    }

    /// The exchange that carries `command`; `NoConnection` where nothing is connected.
    pub fn request(&self, command: Command) -> (request: Result<Exchange, DeviceError>)
        ensures
            request == request_of(self@, command.exchange_of()),
    {
        match &self.active_connection {
            Some(_) => Ok(command.exchange()),
            None => Err(DeviceError::NoConnection),
        }
    }

    /// The exchange that polls the sensors; `NoConnection` where nothing is connected.
    pub fn send_poll(&self) -> (request: Result<Exchange, DeviceError>)
        ensures
            request == request_of(self@, Exchange { command: 0xAA, response_len: 1 }),
    {
        match &self.active_connection {
            Some(active_connection) => Ok(active_connection.send_poll()),
            None => Err(DeviceError::NoConnection),
        }
    }

    /// The exchange that resets the controller; `NoConnection` where nothing is connected.
    pub fn send_reset(&self) -> (request: Result<Exchange, DeviceError>)
        ensures
            request == request_of(self@, Exchange { command: 0x55, response_len: 1 }),
    {
        match &self.active_connection {
            Some(active_connection) => Ok(active_connection.send_reset()),
            None => Err(DeviceError::NoConnection),
        }
    }

    /// The exchange that unlocks the back door; `NoConnection` where nothing is connected.
    pub fn send_unlock_back_door(&self) -> (request: Result<Exchange, DeviceError>)
        ensures
            request == request_of(self@, Exchange { command: 0xA3, response_len: 1 }),
    {
        match &self.active_connection {
            Some(active_connection) => Ok(active_connection.send_unlock_back_door()),
            None => Err(DeviceError::NoConnection),
        }
    }

    /// The exchange that locks the back door; `NoConnection` where nothing is connected.
    pub fn send_lock_back_door(&self) -> (request: Result<Exchange, DeviceError>)
        ensures
            request == request_of(self@, Exchange { command: 0xA2, response_len: 1 }),
    {
        match &self.active_connection {
            Some(active_connection) => Ok(active_connection.send_lock_back_door()),
            None => Err(DeviceError::NoConnection),
        }
    }

    /// The exchange that unlocks the front door; `NoConnection` where nothing is connected.
    pub fn send_unlock_front_door(&self) -> (request: Result<Exchange, DeviceError>)
        ensures
            request == request_of(self@, Exchange { command: 0xA5, response_len: 1 }),
    {
        match &self.active_connection {
            Some(active_connection) => Ok(active_connection.send_unlock_front_door()),
            None => Err(DeviceError::NoConnection),
        }
    }

    /// The exchange that locks the front door; `NoConnection` where nothing is connected.
    pub fn send_lock_front_door(&self) -> (request: Result<Exchange, DeviceError>)
        ensures
            request == request_of(self@, Exchange { command: 0xA4, response_len: 1 }),
    {
        match &self.active_connection {
            Some(active_connection) => Ok(active_connection.send_lock_front_door()),
            None => Err(DeviceError::NoConnection),
        }
    }

    /// Takes in the outcome of a poll. Yields the decoded frame, or the
    /// failure of the exchange; a failure that leaves the link unusable also
    /// drops the connection. Where nothing is connected the outcome is not
    /// read and `NoConnection` is reported.
    pub fn receive_poll(&mut self, outcome: &ExchangeOutcome) -> (frame: Result<PollResult, DeviceError>)
        ensures
            old(self)@ is None ==> frame == Err::<PollResult, DeviceError>(DeviceError::NoConnection),
            old(self)@ is Some ==> frame == poll_result_of(*outcome),
            final(self)@ == if survives(frame) { old(self)@ } else { None },
    {
        let frame = match &self.active_connection {
            Some(active_connection) => active_connection.receive_poll(outcome),
            None => Err(DeviceError::NoConnection),
        };
        self.drop_if_unusable(&frame);
        frame
    }

    /// Takes in the outcome of a command that is answered by an
    /// acknowledgment, with the same rules as `receive_poll`.
    pub fn receive_ack(&mut self, outcome: &ExchangeOutcome) -> (ack: Result<(), DeviceError>)
        ensures
            old(self)@ is None ==> ack == Err::<(), DeviceError>(DeviceError::NoConnection),
            old(self)@ is Some ==> ack == ack_of(*outcome),
            final(self)@ == if survives(ack) { old(self)@ } else { None },
    {
        let ack = match &self.active_connection {
            Some(active_connection) => active_connection.receive_ack(outcome),
            None => Err(DeviceError::NoConnection),
        };
        self.drop_if_unusable(&ack);
        ack
    }

    fn drop_if_unusable<T>(&mut self, result: &Result<T, DeviceError>)
        ensures
            final(self)@ == if survives(*result) { old(self)@ } else { None },
    {
        if let Err(error) = result {
            if error.discards_connection() {
                self.active_connection = None;
            }
        }
    }
}

} // verus!
