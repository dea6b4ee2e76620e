//! Core of a door and alarm controller: the single-byte device protocol, the
//! sensor frame it reports, the alarm and power-loss rules, and the timed
//! operator session that gates every control action.
//!
//! The crate performs no input or output. A caller owns the serial port, the
//! clock and the screen; it asks this crate what to put on the wire, hands
//! back what came off it, and passes the current time into every rule that
//! depends on it.

pub mod alarm;
pub mod api;
pub mod app_state;
pub mod bit_inspect;
pub mod containers;
pub mod display;
pub mod error;
pub mod notice;
pub mod poller;
pub mod power;
pub mod protocol;
pub mod serial_connection;
pub mod session;
pub mod time;
pub mod value_ref;
pub mod wire;
