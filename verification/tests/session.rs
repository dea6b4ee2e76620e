use door_guard::error::DeviceError;
use door_guard::session::{AuthLevel, SessionData, ADMIN_TIMEOUT_MILLIS, USER_TIMEOUT_MILLIS};
use door_guard::time::{TimeDelta, Timestamp};

const MINUTE: i64 = 60_000;
const HOUR: i64 = 3_600_000;

fn at(millis: i64) -> Timestamp {
    Timestamp::from_millis(millis)
}

#[test]
fn default_level_is_view() {
    assert_eq!(AuthLevel::default(), AuthLevel::View);
}

#[test]
fn timeouts_are_24_hours_and_5_minutes() {
    assert_eq!(ADMIN_TIMEOUT_MILLIS, 24 * HOUR);
    assert_eq!(USER_TIMEOUT_MILLIS, 5 * MINUTE);
}

#[test]
fn admin_login_yields_a_24_hour_session() {
    let session = SessionData::login("god", true, at(1_000)).unwrap();
    assert_eq!(session.username, "god");
    assert_eq!(session.auth_level, AuthLevel::Modify);
    assert_eq!(session.begin_timestamp, at(1_000));
    assert_eq!(session.timeout_time, TimeDelta::hours(24));
}

#[test]
fn any_other_login_yields_a_5_minute_session() {
    for name in ["alice", "God", "god ", "", "go", "godd", "root"] {
        let session = SessionData::login(name, true, at(0)).unwrap();
        assert_eq!(session.username, name);
        assert_eq!(session.auth_level, AuthLevel::Modify);
        assert_eq!(session.timeout_time, TimeDelta::minutes(5));
    }
}

#[test]
fn rejected_credentials_yield_invalid_credentials() {
    assert_eq!(SessionData::login("god", false, at(0)), Err(DeviceError::InvalidCredentials));
    assert_eq!(SessionData::login("alice", false, at(0)), Err(DeviceError::InvalidCredentials));
}

#[test]
fn scenario_admin_session_lasts_24_hours() {
    let session = SessionData::login("god", true, at(0)).unwrap();
    assert_eq!(session.effective_privilege(at(23 * HOUR + 59 * MINUTE)), AuthLevel::Modify);
    assert_eq!(session.effective_privilege(at(24 * HOUR + 1_000)), AuthLevel::View);
}

#[test]
fn session_is_valid_up_to_and_including_its_end() {
    let session = SessionData::login("alice", true, at(10_000)).unwrap();
    let end = 10_000 + 5 * MINUTE;
    assert_eq!(session.effective_privilege(at(10_000)), AuthLevel::Modify);
    assert_eq!(session.effective_privilege(at(end - 1)), AuthLevel::Modify);
    assert_eq!(session.effective_privilege(at(end)), AuthLevel::Modify);
    assert_eq!(session.effective_privilege(at(end + 1)), AuthLevel::View);
    assert!(!session.is_expired(at(end)));
    assert!(session.is_expired(at(end + 1)));
}

#[test]
fn expired_session_grants_view_whatever_is_stored() {
    let session = SessionData {
        username: "alice".to_string(),
        auth_level: AuthLevel::Modify,
        begin_timestamp: at(0),
        timeout_time: TimeDelta::minutes(5),
    };
    assert_eq!(session.effective_privilege(at(5 * MINUTE + 1)), AuthLevel::View);
    assert_eq!(session.auth_level, AuthLevel::Modify);
}

#[test]
fn stored_view_grants_view_before_expiry_too() {
    let session = SessionData {
        username: "alice".to_string(),
        auth_level: AuthLevel::View,
        begin_timestamp: at(0),
        timeout_time: TimeDelta::minutes(5),
    };
    assert_eq!(session.effective_privilege(at(0)), AuthLevel::View);
    assert_eq!(session.effective_privilege(at(5 * MINUTE + 1)), AuthLevel::View);
}

#[test]
fn logout_ends_the_session_at_once() {
    let mut session = SessionData::login("god", true, at(0)).unwrap();
    session.logout();
    assert_eq!(session.auth_level, AuthLevel::View);
    assert_eq!(session.effective_privilege(at(0)), AuthLevel::View);
    assert_eq!(session.effective_privilege(at(1)), AuthLevel::View);
    assert_eq!(session.effective_privilege(at(25 * HOUR)), AuthLevel::View);
    assert_eq!(session.username, "god");
    assert_eq!(session.begin_timestamp, at(0));
    assert_eq!(session.timeout_time, TimeDelta::hours(24));
    assert_eq!(session.remaining_time(at(1)), None);
}

#[test]
fn remaining_time_counts_down_to_the_end() {
    let session = SessionData::login("alice", true, at(1_000)).unwrap();
    assert_eq!(session.remaining_time(at(1_000)), Some(TimeDelta::minutes(5)));
    assert_eq!(session.remaining_time(at(61_000)), Some(TimeDelta::minutes(4)));
    assert_eq!(session.remaining_time(at(301_000)), Some(TimeDelta::milliseconds(0)));
    assert_eq!(session.remaining_time(at(301_001)), None);
    assert_eq!(session.remaining_time(at(0)), Some(TimeDelta::milliseconds(301_000)));
}

#[test]
fn remaining_time_that_cannot_be_represented_is_none() {
    let session = SessionData::login("alice", true, at(i64::MAX)).unwrap();
    assert_eq!(session.effective_privilege(at(i64::MAX)), AuthLevel::Modify);
    assert_eq!(session.remaining_time(at(i64::MAX)), Some(TimeDelta::minutes(5)));
    assert_eq!(session.remaining_time(at(-1)), None);
    assert_eq!(session.effective_privilege(at(-1)), AuthLevel::Modify);
}

#[test]
fn expiry_does_not_overflow_at_the_ends_of_time() {
    let session = SessionData::login("god", true, at(i64::MAX)).unwrap();
    assert!(!session.is_expired(at(i64::MAX)));
    assert!(!session.is_expired(at(i64::MIN)));
    let early = SessionData::login("god", true, at(i64::MIN)).unwrap();
    assert!(early.is_expired(at(i64::MAX)));
    assert!(!early.is_expired(at(i64::MIN + 24 * HOUR)));
    assert!(early.is_expired(at(i64::MIN + 24 * HOUR + 1)));
}
