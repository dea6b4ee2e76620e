use door_guard::alarm::AlarmState;
use door_guard::display::{
    alarm_banner, clock_text, display_session_header, session_header, AlarmBanner, SessionHeader,
};
use door_guard::session::{AuthLevel, SessionData};
use door_guard::time::{TimeDelta, Timestamp};

fn at(millis: i64) -> Timestamp {
    Timestamp::from_millis(millis)
}

#[test]
fn clock_text_pads_to_two_digits() {
    assert_eq!(clock_text(TimeDelta::milliseconds(0)), "00:00");
    assert_eq!(clock_text(TimeDelta::seconds(5)), "00:05");
    assert_eq!(clock_text(TimeDelta::seconds(59)), "00:59");
    assert_eq!(clock_text(TimeDelta::seconds(60)), "01:00");
    assert_eq!(clock_text(TimeDelta::minutes(5)), "05:00");
    assert_eq!(clock_text(TimeDelta::seconds(4 * 60 + 59)), "04:59");
    assert_eq!(clock_text(TimeDelta::minutes(10)), "10:00");
}

#[test]
fn clock_text_drops_fractions_of_a_second() {
    assert_eq!(clock_text(TimeDelta::milliseconds(999)), "00:00");
    assert_eq!(clock_text(TimeDelta::milliseconds(299_999)), "04:59");
    assert_eq!(clock_text(TimeDelta::milliseconds(61_001)), "01:01");
}

#[test]
fn clock_text_does_not_wrap_minutes_into_hours() {
    assert_eq!(clock_text(TimeDelta::hours(24)), "1440:00");
    assert_eq!(clock_text(TimeDelta::seconds(23 * 3_600 + 59 * 60 + 59)), "1439:59");
    assert_eq!(clock_text(TimeDelta::minutes(100)), "100:00");
}

#[test]
fn clock_text_agrees_with_std_formatting() {
    for millis in [
        0i64,
        1,
        999,
        1_000,
        59_999,
        60_000,
        599_000,
        600_000,
        3_599_999,
        86_400_000,
        -1,
        -1_000,
        -9_000,
        -10_000,
        -59_000,
        -60_000,
        -90_000,
        -600_000,
        -86_400_000,
        i64::MAX,
        i64::MIN,
    ] {
        let seconds = millis / 1_000;
        let expected = format!("{:02}:{:02}", seconds / 60, seconds % 60);
        assert_eq!(clock_text(TimeDelta::milliseconds(millis)), expected);
    }
}

#[test]
fn clock_text_of_a_negative_span_carries_the_sign() {
    assert_eq!(clock_text(TimeDelta::seconds(-90)), "-1:-30");
    assert_eq!(clock_text(TimeDelta::seconds(-5)), "00:-5");
}

#[test]
fn session_header_puts_the_three_lines_together() {
    let header = session_header("alice", "2024-02-29 12:00:00", TimeDelta::seconds(275));
    assert_eq!(
        header,
        SessionHeader {
            user: "Logged in as [alice]".to_string(),
            start: "Session start: [2024-02-29 12:00:00]".to_string(),
            remaining: "Remaining session time: 04:35".to_string(),
        }
    );
}

#[test]
fn display_session_header_prints_the_start_as_utc_date_and_time() {
    let session = SessionData::login("god", true, at(0)).unwrap();
    let header = display_session_header(&session, at(60_000)).unwrap();
    assert_eq!(header.user, "Logged in as [god]");
    assert_eq!(header.start, "Session start: [1970-01-01 00:00:00]");
    assert_eq!(header.remaining, "Remaining session time: 1439:00");
    let session = SessionData::login("alice", true, at(1_000_000_000_555)).unwrap();
    let header = display_session_header(&session, at(1_000_000_001_555)).unwrap();
    assert_eq!(header.user, "Logged in as [alice]");
    assert_eq!(header.start, "Session start: [2001-09-09 01:46:40]");
    assert_eq!(header.remaining, "Remaining session time: 04:59");
}

#[test]
fn display_session_header_before_the_epoch() {
    let session = SessionData::login("alice", true, at(-1)).unwrap();
    let header = display_session_header(&session, at(0)).unwrap();
    assert_eq!(header.start, "Session start: [1969-12-31 23:59:59]");
}

#[test]
fn no_session_header_once_the_session_has_ended() {
    let mut session = SessionData::login("alice", true, at(0)).unwrap();
    assert!(display_session_header(&session, at(300_000)).is_some());
    assert_eq!(display_session_header(&session, at(300_001)), None);
    session.logout();
    assert_eq!(display_session_header(&session, at(1)), None);
}

#[test]
fn no_session_header_for_a_start_outside_the_calendar() {
    let session = SessionData {
        username: "alice".to_string(),
        auth_level: AuthLevel::Modify,
        begin_timestamp: at(i64::MAX - 400_000),
        timeout_time: TimeDelta::minutes(5),
    };
    assert_eq!(session.effective_privilege(at(i64::MAX - 400_000)), AuthLevel::Modify);
    assert_eq!(display_session_header(&session, at(i64::MAX - 400_000)), None);
}

#[test]
fn no_banner_while_the_alarm_is_at_rest() {
    assert_eq!(alarm_banner(&AlarmState::Disarmed, at(0)), None);
}

#[test]
fn banner_shows_the_time_left_during_the_countdown() {
    let alarm = AlarmState::Countdown(at(300_000));
    assert_eq!(
        alarm_banner(&alarm, at(0)),
        Some(AlarmBanner {
            title: "ALARM TRIGGERED!".to_string(),
            caption: "Remaining time:".to_string(),
            clock: Some("05:00".to_string()),
        })
    );
    assert_eq!(alarm_banner(&alarm, at(298_500)).unwrap().clock, Some("00:01".to_string()));
    assert_eq!(alarm_banner(&alarm, at(300_000)).unwrap().clock, Some("00:00".to_string()));
}

#[test]
fn banner_says_expired_once_the_alarm_has_gone_off() {
    let expired = AlarmBanner {
        title: "ALARM TRIGGERED!".to_string(),
        caption: "Timer expired!".to_string(),
        clock: None,
    };
    assert_eq!(alarm_banner(&AlarmState::Countdown(at(300_000)), at(300_001)), Some(expired));
    assert_eq!(alarm_banner(&AlarmState::Triggered, at(0)).unwrap().caption, "Timer expired!");
}

#[test]
fn banner_without_clock_where_the_time_left_cannot_be_represented() {
    let banner = alarm_banner(&AlarmState::Countdown(at(i64::MAX)), at(-1)).unwrap();
    assert_eq!(banner.caption, "Remaining time:");
    assert_eq!(banner.clock, None);
}
