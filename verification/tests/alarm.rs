use door_guard::alarm::{AlarmState, ALARM_DURATION_MILLIS};
use door_guard::serial_connection::PollResult;
use door_guard::time::{TimeDelta, Timestamp};

const FIVE_MINUTES: i64 = 300_000;

fn at(millis: i64) -> Timestamp {
    Timestamp::from_millis(millis)
}

#[test]
fn alarm_duration_is_five_minutes() {
    assert_eq!(ALARM_DURATION_MILLIS, 5 * 60 * 1_000);
}

#[test]
fn alarm_starts_disarmed() {
    let alarm = AlarmState::new();
    assert_eq!(alarm, AlarmState::Disarmed);
    assert!(!alarm.is_alarmed(at(0)));
    assert_eq!(alarm.current(at(123)), AlarmState::Disarmed);
    assert_eq!(alarm.remaining(at(0)), None);
}

#[test]
fn trigger_while_disarmed_starts_a_five_minute_countdown() {
    let mut alarm = AlarmState::new();
    alarm.trigger(at(1_000));
    assert_eq!(alarm, AlarmState::Countdown(at(1_000 + FIVE_MINUTES)));
    assert!(alarm.is_alarmed(at(1_000)));
}

#[test]
fn second_trigger_resets_the_deadline() {
    let mut alarm = AlarmState::new();
    alarm.trigger(at(0));
    alarm.trigger(at(120_000));
    assert_eq!(alarm, AlarmState::Countdown(at(120_000 + FIVE_MINUTES)));
    alarm.trigger(at(120_000 + FIVE_MINUTES));
    assert_eq!(alarm, AlarmState::Countdown(at(120_000 + 2 * FIVE_MINUTES)));
}

#[test]
fn countdown_triggers_strictly_after_its_deadline() {
    let mut alarm = AlarmState::new();
    alarm.trigger(at(0));
    assert_eq!(alarm.current(at(FIVE_MINUTES - 1)), AlarmState::Countdown(at(FIVE_MINUTES)));
    assert_eq!(alarm.current(at(FIVE_MINUTES)), AlarmState::Countdown(at(FIVE_MINUTES)));
    assert_eq!(alarm.current(at(FIVE_MINUTES + 1)), AlarmState::Triggered);
    assert_eq!(alarm, AlarmState::Countdown(at(FIVE_MINUTES)));
}

#[test]
fn tick_stores_what_the_state_has_become() {
    let mut alarm = AlarmState::new();
    alarm.tick(at(10));
    assert_eq!(alarm, AlarmState::Disarmed);
    alarm.trigger(at(0));
    alarm.tick(at(FIVE_MINUTES));
    assert_eq!(alarm, AlarmState::Countdown(at(FIVE_MINUTES)));
    alarm.tick(at(FIVE_MINUTES + 1));
    assert_eq!(alarm, AlarmState::Triggered);
    alarm.tick(at(0));
    assert_eq!(alarm, AlarmState::Triggered);
}

#[test]
fn trigger_after_the_deadline_leaves_the_alarm_triggered() {
    let mut alarm = AlarmState::new();
    alarm.trigger(at(0));
    alarm.trigger(at(FIVE_MINUTES + 1));
    assert_eq!(alarm, AlarmState::Triggered);
    alarm.trigger(at(FIVE_MINUTES + 2));
    assert_eq!(alarm, AlarmState::Triggered);
}

#[test]
fn disarm_returns_to_rest_from_every_state() {
    let mut alarm = AlarmState::new();
    alarm.disarm();
    assert_eq!(alarm, AlarmState::Disarmed);
    alarm.trigger(at(0));
    alarm.disarm();
    assert_eq!(alarm, AlarmState::Disarmed);
    alarm.trigger(at(0));
    alarm.tick(at(FIVE_MINUTES + 1));
    assert_eq!(alarm, AlarmState::Triggered);
    alarm.disarm();
    assert_eq!(alarm, AlarmState::Disarmed);
    alarm.trigger(at(7));
    assert_eq!(alarm, AlarmState::Countdown(at(7 + FIVE_MINUTES)));
}

#[test]
fn a_frame_with_a_flag_raises_a_resting_alarm() {
    let mut alarm = AlarmState::new();
    let raised = alarm.on_frame(&PollResult::decode(0b0000_0100), at(500));
    assert!(raised);
    assert_eq!(alarm, AlarmState::Countdown(at(500 + FIVE_MINUTES)));
}

#[test]
fn every_single_flag_raises_the_alarm() {
    for bit in 1..8u32 {
        let mut alarm = AlarmState::new();
        assert!(alarm.on_frame(&PollResult::decode(1u8 << bit), at(0)));
        assert_eq!(alarm, AlarmState::Countdown(at(FIVE_MINUTES)));
    }
}

#[test]
fn a_quiet_frame_raises_nothing() {
    let mut alarm = AlarmState::new();
    assert!(!alarm.on_frame(&PollResult::quiet(), at(500)));
    assert_eq!(alarm, AlarmState::Disarmed);
    assert!(!alarm.on_frame(&PollResult::decode(0b0000_0001), at(500)));
    assert_eq!(alarm, AlarmState::Disarmed);
}

#[test]
fn a_frame_leaves_a_raised_alarm_as_it_is() {
    let mut alarm = AlarmState::new();
    alarm.trigger(at(0));
    assert!(!alarm.on_frame(&PollResult::decode(0xFF), at(60_000)));
    assert_eq!(alarm, AlarmState::Countdown(at(FIVE_MINUTES)));
    assert!(!alarm.on_frame(&PollResult::decode(0xFF), at(FIVE_MINUTES + 1)));
    assert_eq!(alarm, AlarmState::Triggered);
    assert!(!alarm.on_frame(&PollResult::quiet(), at(FIVE_MINUTES + 2)));
    assert_eq!(alarm, AlarmState::Triggered);
}

#[test]
fn remaining_counts_down_to_the_deadline() {
    let mut alarm = AlarmState::new();
    alarm.trigger(at(1_000));
    assert_eq!(alarm.remaining(at(1_000)), Some(TimeDelta::minutes(5)));
    assert_eq!(alarm.remaining(at(241_000)), Some(TimeDelta::minutes(1)));
    assert_eq!(alarm.remaining(at(301_000)), Some(TimeDelta::milliseconds(0)));
    assert_eq!(alarm.remaining(at(301_001)), None);
    alarm.tick(at(301_001));
    assert_eq!(alarm.remaining(at(0)), None);
}

#[test]
fn remaining_that_cannot_be_represented_is_none() {
    let alarm = AlarmState::Countdown(at(i64::MAX));
    assert_eq!(alarm.remaining(at(-1)), None);
    assert_eq!(alarm.remaining(at(0)), Some(TimeDelta::milliseconds(i64::MAX)));
}

#[test]
fn trigger_at_the_last_representable_instant() {
    let mut alarm = AlarmState::new();
    alarm.trigger(at(i64::MAX - FIVE_MINUTES));
    assert_eq!(alarm, AlarmState::Countdown(at(i64::MAX)));
    assert_eq!(alarm.current(at(i64::MAX)), AlarmState::Countdown(at(i64::MAX)));
}
