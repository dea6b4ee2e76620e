//! The alarm: disarmed, counting down to a deadline, or triggered.
//!
//! Nothing runs a timer. The state is stored as it was last set, and what it
//! has become by a given instant is worked out whenever it is looked at.

use vstd::prelude::*;
use crate::serial_connection::PollResult;
use crate::time::{representable, TimeDelta, Timestamp};

verus! {

/// How long the countdown runs from the moment it is set: five minutes.
pub const ALARM_DURATION_MILLIS: i64 = 300_000;

/// The state of the alarm. It only moves forward, from `Disarmed` over
/// `Countdown` to `Triggered`; nothing but `disarm` leads back.
#[derive(Clone, Copy, Debug, PartialEq, Eq, Structural)]
pub enum AlarmState {
    Disarmed,
    /// The alarm was raised and goes off once this instant has passed.
    Countdown(Timestamp),
    Triggered,
}

/// The alarm as the rules see it: instants are milliseconds on an unbounded
/// time line.
pub enum AlarmModel {
    Disarmed,
    Countdown(int),
    Triggered,
}

impl View for AlarmState {
    type V = AlarmModel;

    open spec fn view(&self) -> AlarmModel {
        match *self {
            AlarmState::Disarmed => AlarmModel::Disarmed,
            AlarmState::Countdown(deadline) => AlarmModel::Countdown(deadline@),
            AlarmState::Triggered => AlarmModel::Triggered,
        }
    }
}

impl AlarmModel {
    /// What a stored state has become by `now`: a countdown is triggered
    /// once `now` lies strictly after its deadline, and not before.
    pub open spec fn at(self, now: int) -> AlarmModel {
        match self {
            AlarmModel::Countdown(deadline) => if now > deadline {
                AlarmModel::Triggered
            } else {
                self
            },
            _ => self,
        }
    }

    /// Whether the alarm has been raised: counting down or triggered.
    pub open spec fn is_raised(self) -> bool {
        self != AlarmModel::Disarmed
    }

    /// The state after a trigger at `now`: a countdown that ends five
    /// minutes after `now`, whatever was left of an earlier one. An alarm
    /// that has gone off stays so.
    pub open spec fn after_trigger(self, now: int) -> AlarmModel {
        if self.at(now) == AlarmModel::Triggered {
            AlarmModel::Triggered
        } else {
            AlarmModel::Countdown(now + ALARM_DURATION_MILLIS)
        }
    }

    /// The state after a sensor frame was read at `now`: any flag raises an
    /// alarm that is not raised yet, and leaves a raised one as it is.
    pub open spec fn after_frame(self, frame: PollResult, now: int) -> AlarmModel {
        if frame.any_flag_raised() && !self.at(now).is_raised() {
            self.after_trigger(now)
        } else {
            self.at(now)
        }
    }

    /// The time left until the alarm goes off, where it is counting down at `now`.
    pub open spec fn time_left(self, now: int) -> Option<int> {
        match self.at(now) {
            AlarmModel::Countdown(deadline) => Some(deadline - now),
            _ => None,
        }
    }
}

impl AlarmState {
    /// The alarm at rest.
    pub fn new() -> (state: AlarmState)
        ensures
            state == AlarmState::Disarmed,
    {
        AlarmState::Disarmed
    }

    /// The state of the alarm at `now`.
    pub fn current(&self, now: Timestamp) -> (state: AlarmState)
        ensures
            state@ == self@.at(now@),
    {
        match self {
            AlarmState::Countdown(deadline) => {
                if now.is_after(*deadline) {
                    AlarmState::Triggered
                } else {
                    *self
                }
            },
            _ => *self,
        }
    }

    /// Whether the alarm is raised at `now`.
    pub fn is_alarmed(&self, now: Timestamp) -> (raised: bool)
        ensures
            raised == self@.at(now@).is_raised(),
    {
        match self {
            AlarmState::Disarmed => false,
            _ => true,
        }
    }

    /// Brings the stored state up to `now`.
    pub fn tick(&mut self, now: Timestamp)
        ensures
            final(self)@ == old(self)@.at(now@),
    {
        *self = self.current(now);
    }

    /// Raises the alarm at `now`, or restarts its countdown. The new
    /// deadline lies strictly after `now`.
    pub fn trigger(&mut self, now: Timestamp)
        requires
            representable(now@ + ALARM_DURATION_MILLIS),
        ensures
            final(self)@ == old(self)@.after_trigger(now@),
            final(self)@ matches AlarmModel::Countdown(deadline) ==> deadline > now@,
    {
        match self.current(now) {
            AlarmState::Triggered => {
                *self = AlarmState::Triggered;
            },
            _ => {
                *self = AlarmState::Countdown(Timestamp { millis: now.millis + ALARM_DURATION_MILLIS });
            },
        }
    }

    /// Takes in a sensor frame read at `now`. Returns whether the frame
    /// raised the alarm.
    pub fn on_frame(&mut self, frame: &PollResult, now: Timestamp) -> (raised: bool)
        requires
            representable(now@ + ALARM_DURATION_MILLIS),
        ensures
            final(self)@ == old(self)@.after_frame(*frame, now@),
            raised == (frame.any_flag_raised() && !old(self)@.at(now@).is_raised()),
    {
        if frame.any_flag() && !self.is_alarmed(now) {
            self.trigger(now);
            true
        } else {
            self.tick(now);
            false
        }
    }

    /// Puts the alarm back to rest, from any state.
    pub fn disarm(&mut self)
        ensures
            *final(self) == AlarmState::Disarmed,
    {
        *self = AlarmState::Disarmed;
    }

    /// The time left until the alarm goes off: `Some` exactly where it is
    /// counting down at `now` and the span can be represented, which it can
    /// whenever `now` is no earlier than the instant the countdown was set.
    pub fn remaining(&self, now: Timestamp) -> (left: Option<TimeDelta>)
        ensures
            match left {
                Some(span) => self@.time_left(now@) == Some(span@) && span@ >= 0,
                None => match self@.time_left(now@) {
                    Some(millis) => !representable(millis),
                    None => true,
                },
            },
    {
        match self.current(now) {
            AlarmState::Countdown(deadline) => deadline.checked_duration_since(now),
            _ => None,
        }
    }
}

/// Two alarm states that the rules cannot tell apart are the same state.
pub proof fn alarm_view_is_faithful(left: AlarmState, right: AlarmState)
    ensures
        left@ == right@ <==> left == right,
{
}

/// A trigger at rest starts a countdown that ends five minutes after `now`.
pub proof fn trigger_from_rest_starts_countdown(now: int)
    ensures
        AlarmModel::Disarmed.after_trigger(now) == AlarmModel::Countdown(now + 5 * 60 * 1_000),
{
}

/// A second trigger during a countdown does not queue behind the first: the
/// deadline becomes five minutes after the second trigger, whatever the
/// deadline was before.
pub proof fn second_trigger_resets_deadline(first: int, second: int, deadline: int)
    requires
        second <= first + ALARM_DURATION_MILLIS,
        second <= deadline,
    ensures
        AlarmModel::Disarmed.after_trigger(first).after_trigger(second) == AlarmModel::Countdown(
            second + 5 * 60 * 1_000,
        ),
        AlarmModel::Countdown(deadline).after_trigger(second) == AlarmModel::Countdown(second + 5 * 60 * 1_000),
{
}

/// A countdown is triggered strictly after its deadline and never before:
/// at the deadline itself it still counts down.
pub proof fn countdown_triggers_strictly_after_deadline(deadline: int, now: int)
    ensures
        AlarmModel::Countdown(deadline).at(now) == AlarmModel::Triggered <==> now > deadline,
        now <= deadline ==> AlarmModel::Countdown(deadline).at(now) == AlarmModel::Countdown(deadline),
{
}

/// Looking at the alarm never moves it backward: at a later instant it is at
/// least as far along, and only a countdown can change by the passing of time.
pub proof fn time_only_moves_forward(state: AlarmModel, earlier: int, later: int)
    requires
        earlier <= later,
    ensures
        state.at(earlier).at(later) == state.at(later),
        state.at(earlier) == AlarmModel::Triggered ==> state.at(later) == AlarmModel::Triggered,
        state.at(later) == AlarmModel::Disarmed <==> state == AlarmModel::Disarmed,
{
}

/// Whenever a countdown is set, its deadline lies strictly after the
/// instant at which it is set.
pub proof fn countdown_is_set_into_the_future(state: AlarmModel, frame: PollResult, now: int)
    ensures
        state.after_trigger(now) matches AlarmModel::Countdown(deadline) ==> deadline > now,
        state.after_frame(frame, now) != state.at(now) ==> (state.after_frame(frame, now)
            matches AlarmModel::Countdown(deadline) && deadline > now),
{
}

/// Neither a trigger nor a sensor frame leads back: a raised alarm stays
/// raised, and one that has gone off stays so. Only `disarm` puts the
/// alarm to rest.
pub proof fn raised_alarm_stays_raised(state: AlarmModel, frame: PollResult, now: int)
    ensures
        state.after_trigger(now).is_raised(),
        state.is_raised() ==> state.after_frame(frame, now).is_raised(),
        state.at(now) == AlarmModel::Triggered ==> state.after_trigger(now) == AlarmModel::Triggered
            && state.after_frame(frame, now) == AlarmModel::Triggered,
{
}

} // verus!
