//! What the user is told: one short message per event, with its urgency.

use vstd::prelude::*;
use vstd::string::StringExecFns;
use crate::error::DeviceError;
use crate::power::{PowerReport, PowerSource};

verus! {

/// How urgent a notice is.
#[derive(Clone, Copy, Debug, PartialEq, Eq, Structural)]
pub enum NoticeLevel {
    Info,
    Warning,
    Error,
}

/// An event the user is told of.
#[derive(Debug, PartialEq, Eq)]
pub enum Notice {
    /// A session was issued to this user.
    LoggedIn(String),
    /// The session has ended, by logout or by timeout.
    LoggedOut,
    /// External power is lost.
    OnBattery,
    /// External power is back.
    OnCharger,
    /// Power stayed away for the whole debounce time: the alarm is raised.
    BatteryAlarm,
    /// An operation failed.
    Failure(DeviceError),
}

impl Notice {
    /// The urgency of each notice.
    pub open spec fn level_of(self) -> NoticeLevel {
        match self {
            Notice::LoggedIn(_) => NoticeLevel::Info,
            Notice::LoggedOut => NoticeLevel::Warning,
            Notice::OnBattery => NoticeLevel::Warning,
            Notice::OnCharger => NoticeLevel::Info,
            Notice::BatteryAlarm => NoticeLevel::Error,
            Notice::Failure(_) => NoticeLevel::Error,
        }
    }

    /// The message of each notice.
    pub open spec fn text_of(self) -> Seq<char> {
        match self {
            Notice::LoggedIn(username) => "Logged in as "@ + username@,
            Notice::LoggedOut => "Logged out"@,
            Notice::OnBattery => "The device is running on battery."@,
            Notice::OnCharger => "The device is running on charger."@,
            Notice::BatteryAlarm => "The device has been on battery for 3 seconds. Activating alarm!"@,
            Notice::Failure(error) => error.message_of(),
        }
    }

    /// The notices that one look at the power supply gives rise to: the
    /// alarm first, then the change of source.
    pub open spec fn of_power(report: PowerReport) -> Seq<Notice> {
        let alarm = if report.raise_alarm {
            seq![Notice::BatteryAlarm]
        } else {
            Seq::<Notice>::empty()
        };
        match report.switched_to {
            Some(PowerSource::Battery) => alarm.push(Notice::OnBattery),
            Some(PowerSource::Charger) => alarm.push(Notice::OnCharger),
            None => alarm,
        }
    }

    /// The urgency of this notice.
    pub fn level(&self) -> (level: NoticeLevel)
        ensures
            level == self.level_of(),
    {
        match self {
            Notice::LoggedIn(_) => NoticeLevel::Info,
            Notice::LoggedOut => NoticeLevel::Warning,
            Notice::OnBattery => NoticeLevel::Warning,
            Notice::OnCharger => NoticeLevel::Info,
            Notice::BatteryAlarm => NoticeLevel::Error,
            Notice::Failure(_) => NoticeLevel::Error,
        }
    }

    /// The message of this notice.
    pub fn text(&self) -> (text: String)
        ensures
            text@ == self.text_of(),
    {
        match self {
            Notice::LoggedIn(username) => String::from_str("Logged in as ").concat(username.as_str()),
            Notice::LoggedOut => String::from_str("Logged out"),
            Notice::OnBattery => String::from_str("The device is running on battery."),
            Notice::OnCharger => String::from_str("The device is running on charger."),
            Notice::BatteryAlarm => String::from_str(
                "The device has been on battery for 3 seconds. Activating alarm!",
            ),
            Notice::Failure(error) => error.message(),
        }
    }

    /// Lists the notices that one look at the power supply gives rise to.
    pub fn from_power(report: &PowerReport) -> (notices: Vec<Notice>)
        ensures
            notices@ == Notice::of_power(*report),
    {
        let mut notices: Vec<Notice> = Vec::new();
        if report.raise_alarm {
            notices.push(Notice::BatteryAlarm);
        }
        match report.switched_to {
            Some(PowerSource::Battery) => notices.push(Notice::OnBattery),
            Some(PowerSource::Charger) => notices.push(Notice::OnCharger),
            None => {},
        }
        notices
    }
}

} // verus!
