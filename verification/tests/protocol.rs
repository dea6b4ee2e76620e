use door_guard::error::{DeviceError, Recovery};
use door_guard::protocol::{
    link_settings, open_failure, recover_lock, single_byte, Command, Exchange, ExchangeOutcome, FlowControl,
    LinkSettings, LockRecovery, LockState, OpenOutcome, Parity, BAUD_RATE, DATA_BITS, READ_TIMEOUT_MILLIS,
    STOP_BITS,
};

#[test]
fn link_settings_are_9600_8n1_with_a_three_second_timeout() {
    assert_eq!(BAUD_RATE, 9_600);
    assert_eq!(DATA_BITS, 8);
    assert_eq!(STOP_BITS, 1);
    assert_eq!(READ_TIMEOUT_MILLIS, 3_000);
    assert_eq!(
        link_settings(),
        LinkSettings {
            baud_rate: 9_600,
            data_bits: 8,
            stop_bits: 1,
            parity: Parity::Off,
            flow_control: FlowControl::Off,
            read_timeout_millis: 3_000,
        }
    );
}

#[test]
fn opcodes_follow_the_command_table() {
    assert_eq!(Command::Poll.opcode(), 0xAA);
    assert_eq!(Command::Reset.opcode(), 0x55);
    assert_eq!(Command::LockBackDoor.opcode(), 0xA2);
    assert_eq!(Command::UnlockBackDoor.opcode(), 0xA3);
    assert_eq!(Command::LockFrontDoor.opcode(), 0xA4);
    assert_eq!(Command::UnlockFrontDoor.opcode(), 0xA5);
}

#[test]
fn every_command_is_answered_by_one_byte() {
    let commands = [
        Command::Poll,
        Command::Reset,
        Command::LockBackDoor,
        Command::UnlockBackDoor,
        Command::LockFrontDoor,
        Command::UnlockFrontDoor,
    ];
    for command in commands {
        assert_eq!(command.response_len(), 1);
        assert_eq!(command.exchange(), Exchange { command: command.opcode(), response_len: 1 });
    }
}

#[test]
fn single_byte_reads_an_answer_of_length_one() {
    assert_eq!(single_byte(&ExchangeOutcome::Received(vec![0x82])), Ok(0x82));
    assert_eq!(single_byte(&ExchangeOutcome::Received(vec![0x00])), Ok(0x00));
}

#[test]
fn single_byte_reports_a_timeout_as_timeout() {
    assert_eq!(single_byte(&ExchangeOutcome::TimedOut), Err(DeviceError::Timeout));
}

#[test]
fn single_byte_reports_a_failed_transfer_as_io_error() {
    assert_eq!(single_byte(&ExchangeOutcome::Failed), Err(DeviceError::IoError));
}

#[test]
fn single_byte_reports_an_answer_of_another_length_as_io_error() {
    assert_eq!(single_byte(&ExchangeOutcome::Received(vec![])), Err(DeviceError::IoError));
    assert_eq!(single_byte(&ExchangeOutcome::Received(vec![1, 2])), Err(DeviceError::IoError));
}

#[test]
fn open_failure_classifies_each_outcome() {
    assert_eq!(open_failure(OpenOutcome::Opened), None);
    assert_eq!(open_failure(OpenOutcome::NoDevice), Some(DeviceError::PortUnavailable));
    assert_eq!(open_failure(OpenOutcome::InvalidInput), Some(DeviceError::PortUnavailable));
    assert_eq!(open_failure(OpenOutcome::Io), Some(DeviceError::IoError));
    assert_eq!(open_failure(OpenOutcome::Unknown), Some(DeviceError::IoError));
}

#[test]
fn a_clean_lock_needs_no_recovery() {
    assert_eq!(recover_lock(LockState::Clean), LockRecovery { clear_poison: false, fault: None });
}

#[test]
fn a_poisoned_lock_is_cleared_and_the_operation_proceeds() {
    let recovery = recover_lock(LockState::Poisoned);
    assert_eq!(recovery, LockRecovery { clear_poison: true, fault: Some(DeviceError::PoisonedLock) });
    assert_eq!(DeviceError::PoisonedLock.recovery(), Recovery::Proceed);
}

#[test]
fn each_error_names_its_recovery() {
    assert_eq!(DeviceError::NoConnection.recovery(), Recovery::Reconnect);
    assert_eq!(DeviceError::PortUnavailable.recovery(), Recovery::DiscardConnection);
    assert_eq!(DeviceError::IoError.recovery(), Recovery::DiscardConnection);
    assert_eq!(DeviceError::Timeout.recovery(), Recovery::DiscardConnection);
    assert_eq!(DeviceError::InvalidCredentials.recovery(), Recovery::Retry);
    assert_eq!(DeviceError::PoisonedLock.recovery(), Recovery::Proceed);
}

#[test]
fn only_link_failures_discard_the_connection() {
    assert!(!DeviceError::NoConnection.discards_connection());
    assert!(DeviceError::PortUnavailable.discards_connection());
    assert!(DeviceError::IoError.discards_connection());
    assert!(DeviceError::Timeout.discards_connection());
    assert!(!DeviceError::InvalidCredentials.discards_connection());
    assert!(!DeviceError::PoisonedLock.discards_connection());
}

#[test]
fn each_error_has_its_message() {
    assert_eq!(DeviceError::NoConnection.message(), "No active connection");
    assert_eq!(DeviceError::PortUnavailable.message(), "Failed to connect to port");
    assert_eq!(DeviceError::IoError.message(), "Serial I/O failed");
    assert_eq!(DeviceError::Timeout.message(), "The device did not answer in time");
    assert_eq!(DeviceError::InvalidCredentials.message(), "Invalid credentials");
    assert_eq!(DeviceError::PoisonedLock.message(), "Poisoned mutex");
}
