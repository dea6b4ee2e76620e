//! The state of the whole controller, and the rules that move it: what a
//! tick of the clock, a poll of the sensors, a look at the power supply or
//! an act of the operator leads to.

use vstd::prelude::*;
use crate::alarm::{AlarmState, ALARM_DURATION_MILLIS};
use crate::api::{request_of, Api};
use crate::error::DeviceError;
use crate::notice::Notice;
use crate::power::{any_drains, on_battery, BatteryState, Look, PowerObservation, PowerReport, PowerWatch};
use crate::protocol::{Command, Exchange, ExchangeOutcome};
use crate::serial_connection::{poll_result_of, PollResult};
use crate::session::{timeout_for, AuthLevel, SessionData};
use crate::time::{representable, TimeDelta, Timestamp};

verus! {

/// The sensors are polled once more than this long has passed since the last poll.
pub const POLL_INTERVAL_MILLIS: i64 = 250;

/// Everything the controller remembers from one frame to the next.
#[derive(Debug)]
pub struct AppState {
    /// The name typed into the login form.
    pub input_username: String,
    /// The password typed into the login form.
    pub input_password: String,
    pub api: Api,
    /// The frame of the last poll that succeeded.
    pub last_poll_result: PollResult,
    /// The session of the operator, if one is logged in.
    pub current_session: Option<SessionData>,
    pub alarm: AlarmState,
    pub power: PowerWatch,
    /// When the sensors were last polled on the clock.
    pub previous_poll_time: Timestamp,
}

impl AppState {
    /// The level of the operator at `now`: what the session grants, and a
    /// view where there is none. Control is only ever granted by a session
    /// that has not expired.
    pub open spec fn privilege_at(self, now: int) -> AuthLevel {
        match self.current_session {
            Some(session) => session.privilege_at(now),
            None => AuthLevel::View,
        }
    }

    /// Whether a poll is due at `now`: a port is connected and more than the
    /// poll interval has passed since the last poll.
    pub open spec fn poll_due_at(self, now: int) -> bool {
        self.api@ is Some && now - self.previous_poll_time@ > POLL_INTERVAL_MILLIS
    }

    /// What a poll started at a state with this connection ends in.
    pub open spec fn poll_outcome(self, outcome: ExchangeOutcome) -> Result<PollResult, DeviceError> {
        if self.api@ is Some {
            poll_result_of(outcome)
        } else {
            Err(DeviceError::NoConnection)
        }
    }

    /// The look at the power supply that the readings amount to at `now`.
    pub open spec fn power_look(self, readings: Seq<Option<BatteryState>>, now: int) -> Look {
        Look { on_battery: any_drains(readings), alarmed: self.alarm@.at(now).is_raised(), now }
    }

    /// Whether everything but the alarm and the power watch is the same in both states.
    pub open spec fn same_desk(self, other: AppState) -> bool {
        &&& self.input_username == other.input_username
        &&& self.input_password == other.input_password
        &&& self.api == other.api
        &&& self.last_poll_result == other.last_poll_result
        &&& self.current_session == other.current_session
        &&& self.previous_poll_time == other.previous_poll_time
    }

    /// Whether everything but the session and the login form is the same in both states.
    pub open spec fn same_device(self, other: AppState) -> bool {
        &&& self.api == other.api
        &&& self.last_poll_result == other.last_poll_result
        &&& self.alarm == other.alarm
        &&& self.power == other.power
        &&& self.previous_poll_time == other.previous_poll_time
    }

    /// The state at start-up: nothing connected, nobody logged in, the alarm
    /// at rest, external power assumed, and the poll clock started at `now`.
    pub fn new(now: Timestamp) -> (state: AppState)
        ensures
            state.input_username@.len() == 0,
            state.input_password@.len() == 0,
            state.api@ is None,
            !state.last_poll_result.any_flag_raised(),
            state.current_session is None,
            state.alarm == AlarmState::Disarmed,
            state.power == (PowerWatch { previous_on_battery: false, send_alarm_time: None }),
            state.previous_poll_time == now,
    {
        AppState {
            input_username: String::new(),
            input_password: String::new(),
            api: Api::new(),
            last_poll_result: PollResult::quiet(),
            current_session: None,
            alarm: AlarmState::new(),
            power: PowerWatch::new(),
            previous_poll_time: now,
        }
    }

    /// Whether a poll is due at `now`.
    pub fn poll_due(&self, now: Timestamp) -> (due: bool)
        ensures
            due == self.poll_due_at(now@),
    {
        let waited: i128 = (now.millis as i128) - (self.previous_poll_time.millis as i128);
        self.api.is_connected() && waited > (POLL_INTERVAL_MILLIS as i128)
    }

    /// Starts a poll if one is due at `now`: restarts the poll clock and
    /// yields the exchange to carry out. Otherwise nothing changes.
    pub fn start_poll(&mut self, now: Timestamp) -> (exchange: Option<Exchange>)
        ensures
            exchange == if old(self).poll_due_at(now@) {
                Some(Exchange { command: 0xAA, response_len: 1 })
            } else {
                None
            },
            final(self).previous_poll_time == if old(self).poll_due_at(now@) {
                now
            } else {
                old(self).previous_poll_time
            },
            final(self).input_username == old(self).input_username,
            final(self).input_password == old(self).input_password,
            final(self).api == old(self).api,
            final(self).last_poll_result == old(self).last_poll_result,
            final(self).current_session == old(self).current_session,
            final(self).alarm == old(self).alarm,
            final(self).power == old(self).power,
    {
        if self.poll_due(now) {
            self.previous_poll_time = now;
            match self.api.send_poll() {
                Ok(exchange) => Some(exchange),
                Err(_) => None,
            }
        } else {
            None
        }
    }

    /// Takes in a sensor frame that was read at `now`: it replaces the last
    /// one whole, and raises the alarm if any of its flags is set and the
    /// alarm is not raised yet.
    pub fn take_frame(&mut self, frame: PollResult, now: Timestamp)
        requires
            representable(now@ + ALARM_DURATION_MILLIS),
        ensures
            final(self).last_poll_result == frame,
            final(self).alarm@ == old(self).alarm@.after_frame(frame, now@),
            final(self).input_username == old(self).input_username,
            final(self).input_password == old(self).input_password,
            final(self).api == old(self).api,
            final(self).current_session == old(self).current_session,
            final(self).power == old(self).power,
            final(self).previous_poll_time == old(self).previous_poll_time,
    {
        self.alarm.on_frame(&frame, now);
        self.last_poll_result = frame;
    }

    /// Takes in the outcome of a poll that was carried out at `now`.
    ///
    /// A frame is taken in as by `take_frame`. A failure leaves frame and
    /// alarm as they were, closes the connection, and is reported.
    pub fn finish_poll(&mut self, outcome: &ExchangeOutcome, now: Timestamp) -> (notice: Option<Notice>)
        requires
            representable(now@ + ALARM_DURATION_MILLIS),
        ensures
            match old(self).poll_outcome(*outcome) {
                Ok(frame) => {
                    &&& notice is None
                    &&& final(self).last_poll_result == frame
                    &&& final(self).alarm@ == old(self).alarm@.after_frame(frame, now@)
                    &&& final(self).api@ == old(self).api@
                },
                Err(error) => {
                    &&& notice == Some(Notice::Failure(error))
                    &&& final(self).last_poll_result == old(self).last_poll_result
                    &&& final(self).alarm == old(self).alarm
                    &&& final(self).api@ is None
                },
            },
            final(self).input_username == old(self).input_username,
            final(self).input_password == old(self).input_password,
            final(self).current_session == old(self).current_session,
            final(self).power == old(self).power,
            final(self).previous_poll_time == old(self).previous_poll_time,
    {
        match self.api.receive_poll(outcome) {
            Ok(frame) => {
                self.take_frame(frame, now);
                None
            },
            Err(error) => {
                self.api.close_connection();
                Some(Notice::Failure(error))
            },
        }
    }

    /// Takes one look at the power supply at `now`, given what each battery
    /// reports. Where the debounced loss of power fires, the alarm is
    /// raised. The notices tell of the alarm and of a change of source.
    pub fn watch_power(&mut self, readings: &[Option<BatteryState>], now: Timestamp) -> (notices: Vec<Notice>)
        requires
            representable(now@ + ALARM_DURATION_MILLIS),
        ensures
            final(self).power@ == old(self).power@.after(old(self).power_look(readings@, now@)),
            final(self).power@.wf(),
            final(self).alarm@ == if old(self).power@.fires(old(self).power_look(readings@, now@)) {
                old(self).alarm@.after_trigger(now@)
            } else {
                old(self).alarm@
            },
            notices@ == Notice::of_power(
                PowerReport {
                    raise_alarm: old(self).power@.fires(old(self).power_look(readings@, now@)),
                    switched_to: old(self).power@.switch_seen(old(self).power_look(readings@, now@)),
                },
            ),
            final(self).same_desk(*old(self)),
    {
        let look = PowerObservation {
            on_battery: on_battery(readings),
            alarmed: self.alarm.is_alarmed(now),
            now,
        };
        let report = self.power.observe(look);
        if report.raise_alarm {
            self.alarm.trigger(now);
        }
        Notice::from_power(&report)
    }

    /// The state of the alarm at `now`.
    pub fn current_alarm_state(&self, now: Timestamp) -> (state: AlarmState)
        ensures
            state@ == self.alarm@.at(now@),
    {
        self.alarm.current(now)
    }

    /// The level of the operator at `now`.
    pub fn current_privilege(&self, now: Timestamp) -> (level: AuthLevel)
        ensures
            level == self.privilege_at(now@),
            level == AuthLevel::Modify ==> self.current_session is Some && !self.current_session->0.expired_at(
                now@,
            ),
    {
        match &self.current_session {
            Some(session) => session.effective_privilege(now),
            None => AuthLevel::View,
        }
    }

    /// Whether the operator may control the device at `now`.
    pub fn may_control(&self, now: Timestamp) -> (allowed: bool)
        ensures
            allowed == (self.privilege_at(now@) == AuthLevel::Modify),
    {
        match self.current_privilege(now) {
            AuthLevel::Modify => true,
            AuthLevel::View => false,
        }
    }

    /// The time left of the session, where it grants control at `now` (see
    /// `SessionData::remaining_time`).
    pub fn remaining_time(&self, now: Timestamp) -> (left: Option<TimeDelta>)
        ensures
            match left {
                Some(span) => self.current_session matches Some(session) && session.time_left(now@) == Some(
                    span@,
                ) && span@ >= 0,
                None => self.current_session matches Some(session) ==> match session.time_left(now@) {
                    Some(millis) => !representable(millis),
                    None => true,
                },
            },
    {
        match &self.current_session {
            Some(session) => session.remaining_time(now),
            None => None,
        }
    }

    /// Logs in the user named in the login form, whose credentials were
    /// checked by the caller. On success the password is wiped from the form
    /// and the new session replaces any other; on failure nothing changes.
    pub fn login(&mut self, credentials_accepted: bool, now: Timestamp) -> (notice: Notice)
        ensures
            final(self).input_username == old(self).input_username,
            final(self).same_device(*old(self)),
            credentials_accepted ==> {
                &&& notice matches Notice::LoggedIn(name)
                &&& name@ == old(self).input_username@
                &&& final(self).input_password@.len() == 0
                &&& final(self).current_session matches Some(session)
                &&& session.username@ == old(self).input_username@
                &&& session.auth_level == AuthLevel::Modify
                &&& session.begin_timestamp == now
                &&& session.timeout_time@ == timeout_for(old(self).input_username@)
            },
            !credentials_accepted ==> {
                &&& notice == Notice::Failure(DeviceError::InvalidCredentials)
                &&& final(self).input_password == old(self).input_password
                &&& final(self).current_session == old(self).current_session
            },
    {
        match SessionData::login(self.input_username.as_str(), credentials_accepted, now) {
            Ok(session) => {
                let name = session.username.clone();
                self.input_password = String::new();
                self.current_session = Some(session);
                Notice::LoggedIn(name)
            },
            Err(error) => Notice::Failure(error),
        }
    }

    /// Drops a session that grants nothing more than a view at `now`,
    /// because it has expired or was logged out, and says so. A session that
    /// still grants control stays.
    pub fn refresh_session(&mut self, now: Timestamp) -> (notice: Option<Notice>)
        ensures
            final(self).input_username == old(self).input_username,
            final(self).input_password == old(self).input_password,
            final(self).same_device(*old(self)),
            old(self).privilege_at(now@) == AuthLevel::Modify ==> notice is None && final(self).current_session
                == old(self).current_session,
            old(self).privilege_at(now@) == AuthLevel::View ==> final(self).current_session is None,
            old(self).privilege_at(now@) == AuthLevel::View ==> notice == if old(self).current_session is Some {
                Some(Notice::LoggedOut)
            } else {
                None
            },
    {
        let ended = match &self.current_session {
            Some(session) => match session.effective_privilege(now) {
                AuthLevel::View => true,
                AuthLevel::Modify => false,
            },
            None => false,
        };
        if ended {
            self.current_session = None;
            Some(Notice::LoggedOut)
        } else {
            None
        }
    }

    /// Ends the session at once. From then on only a view is granted, at
    /// every instant.
    pub fn logout(&mut self) -> (notice: Option<Notice>)
        ensures
            final(self).current_session is None,
            forall|now: int| #[trigger] final(self).privilege_at(now) == AuthLevel::View,
            notice == if old(self).current_session is Some {
                Some(Notice::LoggedOut)
            } else {
                None
            },
            final(self).input_username == old(self).input_username,
            final(self).input_password == old(self).input_password,
            final(self).same_device(*old(self)),
    {
        let had = self.current_session.is_some();
        self.current_session = None;
        if had {
            Some(Notice::LoggedOut)
        } else {
            None
        }
    }

    /// The exchange for a command of the operator. Commands can be reached
    /// only through a session that grants control at `now`: without one the
    /// answer is `None`. With one it is the exchange, or `NoConnection`.
    pub fn issue(&self, command: Command, now: Timestamp) -> (request: Option<Result<Exchange, DeviceError>>)
        ensures
            request == if self.privilege_at(now@) == AuthLevel::Modify {
                Some(request_of(self.api@, command.exchange_of()))
            } else {
                None
            },
    {
        if self.may_control(now) {
            Some(self.api.request(command))
        } else {
            None
        }
    }

    /// The panic button. With control granted at `now`, raises the alarm (or
    /// restarts its countdown) and yields the exchanges that lock the back
    /// door and then the front door, or `NoConnection`; the alarm is raised
    /// either way. Without control nothing happens and the answer is `None`.
    pub fn raise_panic(&mut self, now: Timestamp) -> (locks: Option<Result<(Exchange, Exchange), DeviceError>>)
        requires
            representable(now@ + ALARM_DURATION_MILLIS),
        ensures
            final(self).same_desk(*old(self)),
            final(self).power == old(self).power,
            old(self).privilege_at(now@) == AuthLevel::Modify ==> {
                &&& final(self).alarm@ == old(self).alarm@.after_trigger(now@)
                &&& locks == Some(
                    if old(self).api@ is Some {
                        Ok::<(Exchange, Exchange), DeviceError>(
                            (
                                Exchange { command: 0xA2, response_len: 1 },
                                Exchange { command: 0xA4, response_len: 1 },
                            ),
                        )
                    } else {
                        Err::<(Exchange, Exchange), DeviceError>(DeviceError::NoConnection)
                    },
                )
            },
            old(self).privilege_at(now@) == AuthLevel::View ==> final(self).alarm == old(self).alarm && locks
                is None,
    {
        if !self.may_control(now) {
            return None;
        }
        self.alarm.trigger(now);
        let back = self.api.send_lock_back_door();
        let front = self.api.send_lock_front_door();
        match (back, front) {
            (Ok(back_door), Ok(front_door)) => Some(Ok((back_door, front_door))),
            (Err(error), _) => Some(Err(error)),
            (_, Err(error)) => Some(Err(error)),
        }
    }

    /// Puts the alarm back to rest. Like every control action this takes a
    /// session that grants control at `now`; without one the alarm stays as
    /// it is. Returns whether the alarm was disarmed.
    pub fn disarm(&mut self, now: Timestamp) -> (disarmed: bool)
        ensures
            disarmed == (old(self).privilege_at(now@) == AuthLevel::Modify),
            final(self).alarm == if disarmed {
                AlarmState::Disarmed
            } else {
                old(self).alarm
            },
            final(self).same_desk(*old(self)),
            final(self).power == old(self).power,
    {
        if self.may_control(now) {
            self.alarm.disarm();
            true
        } else {
            false
        }
    }
}

} // verus!
