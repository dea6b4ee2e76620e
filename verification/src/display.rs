//! The texts of the session panel and of the alarm banner.

use vstd::prelude::*;
use vstd::string::StringExecFns;
use crate::alarm::{AlarmModel, AlarmState};
use crate::session::SessionData;
use crate::time::{quotient_toward_zero, representable, TimeDelta, Timestamp};

verus! {

/// The text of the UTC date and time of the instant `millis` milliseconds
/// after the epoch, as chrono prints it under the pattern
/// `%Y-%m-%d %H:%M:%S`; `None` for an instant outside chrono's calendar.
pub uninterp spec fn utc_date_time_text(millis: i64) -> Option<Seq<char>>;

/// Calls chrono: `DateTime::from_timestamp_millis`, then `format` with the
/// pattern `%Y-%m-%d %H:%M:%S`. The text depends on nothing but `millis`:
/// the instant is taken as UTC and the pattern prints numbers only, so no
/// time zone and no locale enters. What the text is for a given instant is
/// left to chrono.
#[verifier::external_body]
fn format_utc(millis: i64) -> (text: Option<String>)
    ensures
        match text {
            Some(printed) => utc_date_time_text(millis) == Some(printed@),
            None => utc_date_time_text(millis) is None,
        },
{
    match chrono::DateTime::from_timestamp_millis(millis) {
        Some(instant) => Some(instant.format("%Y-%m-%d %H:%M:%S").to_string()),
        None => None,
    }
}

/// The character of a decimal digit.
pub open spec fn digit_char(digit: int) -> char {
    seq!['0', '1', '2', '3', '4', '5', '6', '7', '8', '9'][digit]
}

/// The decimal numeral of `n`, without leading zeros.
pub open spec fn decimal(n: nat) -> Seq<char>
    decreases n,
{
    if n < 10 {
        seq![digit_char(n as int)]
    } else {
        decimal(n / 10).push(digit_char((n % 10) as int))
    }
}

/// The numeral of `n` at a width of at least two: a single digit gets a
/// leading zero, and a negative number its sign.
pub open spec fn two_digits(n: int) -> Seq<char> {
    if n < 0 {
        seq!['-'] + decimal((-n) as nat)
    } else if n < 10 {
        seq!['0'] + decimal(n as nat)
    } else {
        decimal(n as nat)
    }
}

/// A span of time as minutes and seconds, `MM:SS`. Fractions of a second
/// are dropped; the minutes are not wrapped into hours.
pub open spec fn clock_text_of(span: int) -> Seq<char> {
    let seconds = quotient_toward_zero(span, 1_000);
    let minutes = quotient_toward_zero(seconds, 60);
    two_digits(minutes) + seq![':'] + two_digits(seconds - 60 * minutes)
}

/// The three lines of the session panel.
#[derive(Debug, PartialEq, Eq)]
pub struct SessionHeader {
    pub user: String,
    pub start: String,
    pub remaining: String,
}

/// The lines of the alarm banner.
#[derive(Debug, PartialEq, Eq)]
pub struct AlarmBanner {
    pub title: String,
    pub caption: String,
    /// The time left, while the alarm is counting down.
    pub clock: Option<String>,
}

fn digit_text(digit: u64) -> (text: &'static str)
    requires
        digit < 10,
    ensures
        text@ == seq![digit_char(digit as int)],
{
    proof {
        reveal_strlit("0");
        reveal_strlit("1");
        reveal_strlit("2");
        reveal_strlit("3");
        reveal_strlit("4");
        reveal_strlit("5");
        reveal_strlit("6");
        reveal_strlit("7");
        reveal_strlit("8");
        reveal_strlit("9");
    }
    let text = match digit {
        0 => "0",
        1 => "1",
        2 => "2",
        3 => "3",
        4 => "4",
        5 => "5",
        6 => "6",
        7 => "7",
        8 => "8",
        _ => "9",
    };
    assert(text@ =~= seq![digit_char(digit as int)]);
    text
}

fn push_decimal(text: &mut String, n: u64)
    ensures
        final(text)@ == old(text)@ + decimal(n as nat),
    decreases n,
{
    if n >= 10 {
        push_decimal(text, n / 10);
    }
    text.append(digit_text(n % 10));
    assert(text@ =~= old(text)@ + decimal(n as nat));
}

fn push_two_digits(text: &mut String, n: i64)
    ensures
        final(text)@ == old(text)@ + two_digits(n as int),
{
    proof {
        reveal_strlit("-");
        reveal_strlit("0");
    }
    if n < 0 {
        text.append("-");
        let magnitude: u64 = (-(n as i128)) as u64;
        push_decimal(text, magnitude);
        assert(text@ =~= old(text)@ + two_digits(n as int));
    } else {
        if n < 10 {
            text.append("0");
        }
        push_decimal(text, n as u64);
        assert(text@ =~= old(text)@ + two_digits(n as int));
    }
}

/// Prints a span of time as minutes and seconds.
pub fn clock_text(span: TimeDelta) -> (text: String)
    ensures
        text@ == clock_text_of(span@),
{
    proof {
        reveal_strlit(":");
    }
    let seconds: i64 = span.num_seconds();
    let minutes: i64 = seconds / 60;
    let rest: i64 = seconds % 60;
    let mut text = String::new();
    push_two_digits(&mut text, minutes);
    text.append(":");
    push_two_digits(&mut text, rest);
    assert(text@ =~= clock_text_of(span@));
    text
}

/// The lines of the session panel for a user, the printed start of the
/// session, and the time left.
pub open spec fn session_header_of(username: Seq<char>, start: Seq<char>, left: int) -> (Seq<char>, Seq<char>, Seq<
    char,
>) {
    (
        "Logged in as ["@ + username + "]"@,
        "Session start: ["@ + start + "]"@,
        "Remaining session time: "@ + clock_text_of(left),
    )
}

/// Puts together the lines of the session panel.
pub fn session_header(username: &str, start: &str, left: TimeDelta) -> (header: SessionHeader)
    ensures
        (header.user@, header.start@, header.remaining@) == session_header_of(username@, start@, left@),
{
    let mut user = String::from_str("Logged in as [");
    user.append(username);
    user.append("]");
    let mut begin = String::from_str("Session start: [");
    begin.append(start);
    begin.append("]");
    let mut remaining = String::from_str("Remaining session time: ");
    let clock = clock_text(left);
    remaining.append(clock.as_str());
    SessionHeader { user, start: begin, remaining }
}

/// The session panel at `now`: who is logged in, since when, and for how
/// much longer. There is a panel exactly where the session grants control
/// at `now`, the time left can be represented, and the start of the
/// session lies within the calendar.
pub fn display_session_header(session: &SessionData, now: Timestamp) -> (header: Option<SessionHeader>)
    ensures
        match header {
            Some(lines) => {
                &&& session.time_left(now@) matches Some(left)
                &&& utc_date_time_text(session.begin_timestamp.millis) matches Some(start)
                &&& (lines.user@, lines.start@, lines.remaining@) == session_header_of(
                    session.username@,
                    start,
                    left,
                )
            },
            None => {
                ||| session.time_left(now@) is None
                ||| !representable(session.time_left(now@)->0)
                ||| utc_date_time_text(session.begin_timestamp.millis) is None
            },
        },
{
    match session.remaining_time(now) {
        Some(left) => match format_utc(session.begin_timestamp.millis) {
            Some(start) => Some(session_header(session.username.as_str(), start.as_str(), left)),
            None => None,
        },
        None => None,
    }
}

/// The lines of the alarm banner for each state: none at rest, the time
/// left during the countdown, and the word that the timer has expired once
/// the alarm has gone off.
pub open spec fn alarm_banner_of(state: AlarmModel, now: int) -> Option<(Seq<char>, Seq<char>, Option<Seq<char>>)> {
    match state.at(now) {
        AlarmModel::Disarmed => None,
        AlarmModel::Countdown(deadline) => Some(
            (
                "ALARM TRIGGERED!"@,
                "Remaining time:"@,
                if representable(deadline - now) {
                    Some(clock_text_of(deadline - now))
                } else {
                    None
                },
            ),
        ),
        AlarmModel::Triggered => Some(("ALARM TRIGGERED!"@, "Timer expired!"@, None)),
    }
}

/// The alarm banner at `now`.
pub fn alarm_banner(state: &AlarmState, now: Timestamp) -> (banner: Option<AlarmBanner>)
    ensures
        match banner {
            Some(lines) => alarm_banner_of(state@, now@) == Some(
                (
                    lines.title@,
                    lines.caption@,
                    match lines.clock {
                        Some(clock) => Some(clock@),
                        None => None,
                    },
                ),
            ),
            None => alarm_banner_of(state@, now@) is None,
        },
{
    match state.current(now) {
        AlarmState::Disarmed => None,
        AlarmState::Countdown(_) => {
            let clock = match state.remaining(now) {
                Some(left) => Some(clock_text(left)),
                None => None,
            };
            Some(
                AlarmBanner {
                    title: String::from_str("ALARM TRIGGERED!"),
                    caption: String::from_str("Remaining time:"),
                    clock,
                },
            )
        },
        AlarmState::Triggered => Some(
            AlarmBanner {
                title: String::from_str("ALARM TRIGGERED!"),
                caption: String::from_str("Timer expired!"),
                clock: None,
            },
        ),
    }
}

} // verus!
