use door_guard::error::DeviceError;
use door_guard::poller::{PollThreadState, PollerAction, PollerEvent, PollerPhase, POLLER_SLEEP_MILLIS};
use door_guard::protocol::Exchange;
use door_guard::serial_connection::PollResult;

#[test]
fn shared_state_starts_alive_and_empty() {
    assert_eq!(PollThreadState::new(), PollThreadState { keep_alive: true, last_frame: None });
}

#[test]
fn merge_replaces_the_frame_whole() {
    let mut shared = PollThreadState::new();
    assert!(shared.merge(Ok(0b0000_0010)));
    assert_eq!(shared.last_frame, Some(PollResult::decode(0b0000_0010)));
    assert!(shared.merge(Ok(0b1000_0000)));
    assert_eq!(shared.last_frame, Some(PollResult::decode(0b1000_0000)));
    assert!(shared.keep_alive);
}

#[test]
fn merge_of_a_failure_keeps_the_last_frame() {
    let mut shared = PollThreadState::new();
    assert!(shared.merge(Err(DeviceError::Timeout)));
    assert_eq!(shared.last_frame, None);
    shared.merge(Ok(0x40));
    assert!(shared.merge(Err(DeviceError::IoError)));
    assert_eq!(shared.last_frame, Some(PollResult::decode(0x40)));
}

#[test]
fn stop_is_seen_at_the_next_merge() {
    let mut shared = PollThreadState::new();
    shared.merge(Ok(0x08));
    shared.stop();
    assert_eq!(shared, PollThreadState { keep_alive: false, last_frame: Some(PollResult::decode(0x08)) });
    assert!(!shared.merge(Ok(0x10)));
    assert_eq!(shared.last_frame, Some(PollResult::decode(0x10)));
    assert!(!shared.merge(Err(DeviceError::IoError)));
}

#[test]
fn poller_starts_by_locking_the_connection() {
    assert_eq!(PollerPhase::start(), PollerPhase::LockingConnection);
    assert_eq!(PollerPhase::start().action(), PollerAction::LockConnection);
}

#[test]
fn sleep_interval_is_250_milliseconds() {
    assert_eq!(POLLER_SLEEP_MILLIS, 250);
    assert_eq!(PollerPhase::Sleeping.action(), PollerAction::Sleep(250));
}

#[test]
fn one_round_goes_through_the_locks_in_order() {
    let mut phase = PollerPhase::start();
    let mut actions = vec![phase.action()];
    for event in [
        PollerEvent::Locked,
        PollerEvent::Exchanged(Ok(0x82)),
        PollerEvent::Released,
        PollerEvent::Locked,
        PollerEvent::Published { keep_alive: true },
        PollerEvent::Released,
        PollerEvent::Slept,
    ] {
        phase = phase.advance(event);
        actions.push(phase.action());
    }
    assert_eq!(
        actions,
        vec![
            PollerAction::LockConnection,
            PollerAction::Exchange(Exchange { command: 0xAA, response_len: 1 }),
            PollerAction::ReleaseConnection,
            PollerAction::LockState,
            PollerAction::Publish(Ok(0x82)),
            PollerAction::ReleaseState,
            PollerAction::Sleep(250),
            PollerAction::LockConnection,
        ]
    );
}

#[test]
fn a_failed_exchange_is_carried_to_the_merge_and_the_loop_goes_on() {
    let phase = PollerPhase::start()
        .advance(PollerEvent::Locked)
        .advance(PollerEvent::Exchanged(Err(DeviceError::Timeout)))
        .advance(PollerEvent::Released)
        .advance(PollerEvent::Locked);
    assert_eq!(phase, PollerPhase::Publishing(Err(DeviceError::Timeout)));
    assert_eq!(phase.action(), PollerAction::Publish(Err(DeviceError::Timeout)));
    let phase = phase.advance(PollerEvent::Published { keep_alive: true }).advance(PollerEvent::Released);
    assert_eq!(phase, PollerPhase::Sleeping);
}

#[test]
fn the_thread_exits_after_it_has_read_keep_alive_cleared() {
    let phase = PollerPhase::Publishing(Ok(0)).advance(PollerEvent::Published { keep_alive: false });
    assert_eq!(phase, PollerPhase::ReleasingState { stop: true });
    assert_eq!(phase.action(), PollerAction::ReleaseState);
    let phase = phase.advance(PollerEvent::Released);
    assert_eq!(phase, PollerPhase::Stopped);
    assert_eq!(phase.action(), PollerAction::Exit);
}

#[test]
fn a_stopped_thread_stays_stopped() {
    for event in [
        PollerEvent::Locked,
        PollerEvent::Exchanged(Ok(1)),
        PollerEvent::Released,
        PollerEvent::Published { keep_alive: true },
        PollerEvent::Slept,
    ] {
        assert_eq!(PollerPhase::Stopped.advance(event), PollerPhase::Stopped);
    }
}

#[test]
fn a_report_out_of_turn_changes_nothing() {
    assert_eq!(PollerPhase::LockingConnection.advance(PollerEvent::Released), PollerPhase::LockingConnection);
    assert_eq!(PollerPhase::LockingConnection.advance(PollerEvent::Slept), PollerPhase::LockingConnection);
    assert_eq!(PollerPhase::Exchanging.advance(PollerEvent::Locked), PollerPhase::Exchanging);
    assert_eq!(PollerPhase::Exchanging.advance(PollerEvent::Released), PollerPhase::Exchanging);
    assert_eq!(
        PollerPhase::LockingState(Ok(3)).advance(PollerEvent::Published { keep_alive: false }),
        PollerPhase::LockingState(Ok(3))
    );
    assert_eq!(PollerPhase::Publishing(Ok(3)).advance(PollerEvent::Released), PollerPhase::Publishing(Ok(3)));
    assert_eq!(PollerPhase::Sleeping.advance(PollerEvent::Locked), PollerPhase::Sleeping);
}

#[test]
fn driving_the_poller_with_a_shared_state() {
    let mut shared = PollThreadState::new();
    let mut phase = PollerPhase::start();
    let statuses = [Ok(0x02), Err(DeviceError::IoError), Ok(0x80)];
    let mut rounds = 0;
    let mut polls = 0;
    let mut steps = 0;
    loop {
        steps += 1;
        assert!(steps < 100);
        match phase.action() {
            PollerAction::LockConnection => phase = phase.advance(PollerEvent::Locked),
            PollerAction::Exchange(exchange) => {
                assert_eq!(exchange, Exchange { command: 0xAA, response_len: 1 });
                phase = phase.advance(PollerEvent::Exchanged(statuses[polls]));
                polls += 1;
            }
            PollerAction::ReleaseConnection => phase = phase.advance(PollerEvent::Released),
            PollerAction::LockState => phase = phase.advance(PollerEvent::Locked),
            PollerAction::Publish(status) => {
                if rounds == 2 {
                    shared.stop();
                }
                let keep_alive = shared.merge(status);
                phase = phase.advance(PollerEvent::Published { keep_alive });
            }
            PollerAction::ReleaseState => phase = phase.advance(PollerEvent::Released),
            PollerAction::Sleep(millis) => {
                assert_eq!(millis, 250);
                rounds += 1;
                phase = phase.advance(PollerEvent::Slept);
            }
            PollerAction::Exit => break,
        }
    }
    assert_eq!(polls, 3);
    assert_eq!(rounds, 2);
    assert_eq!(shared, PollThreadState { keep_alive: false, last_frame: Some(PollResult::decode(0x80)) });
}
