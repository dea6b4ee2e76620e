//! Loss of external power, and the debounce that keeps a short blip from
//! raising the alarm.
//!
//! The first look that finds the machine on battery schedules an alarm three
//! seconds ahead. A look that finds the power back cancels it. A look after
//! the scheduled instant, with no alarm raised yet, lets it fire, once.

use vstd::prelude::*;
use crate::time::{representable, Timestamp};

verus! {

/// How long external power has to stay away before the alarm is raised.
pub const POWER_DEBOUNCE_MILLIS: i64 = 3_000;

/// What a battery reports of itself.
#[derive(Clone, Copy, Debug, PartialEq, Eq, Structural)]
pub enum BatteryState {
    Unknown,
    Charging,
    Discharging,
    Empty,
    Full,
}

/// Where the machine draws its power from.
#[derive(Clone, Copy, Debug, PartialEq, Eq, Structural)]
pub enum PowerSource {
    Charger,
    Battery,
}

/// One look at the power supply: whether the machine runs on battery,
/// whether the alarm is already raised, and when the look was taken.
#[derive(Clone, Copy, Debug, PartialEq, Eq, Structural)]
pub struct PowerObservation {
    pub on_battery: bool,
    pub alarmed: bool,
    pub now: Timestamp,
}

/// What one look at the power supply leads to.
#[derive(Clone, Copy, Debug, PartialEq, Eq, Structural)]
pub struct PowerReport {
    /// Whether the scheduled alarm fires now.
    pub raise_alarm: bool,
    /// The new source of power, where it has changed since the look before.
    pub switched_to: Option<PowerSource>,
}

/// What is remembered between two looks at the power supply.
#[derive(Clone, Copy, Debug, PartialEq, Eq, Structural)]
pub struct PowerWatch {
    /// Whether the look before found the machine on battery.
    pub previous_on_battery: bool,
    /// The instant after which the alarm fires if power has not come back.
    pub send_alarm_time: Option<Timestamp>,
}

/// One look at the power supply as the rules see it, with its instant in
/// milliseconds on an unbounded time line.
pub struct Look {
    pub on_battery: bool,
    pub alarmed: bool,
    pub now: int,
}

/// What is remembered between two looks, as the rules see it.
pub struct PowerModel {
    pub previous_on_battery: bool,
    pub send_alarm_time: Option<int>,
}

impl View for PowerObservation {
    type V = Look;

    open spec fn view(&self) -> Look {
        Look { on_battery: self.on_battery, alarmed: self.alarmed, now: self.now@ }
    }
}

impl View for PowerWatch {
    type V = PowerModel;

    open spec fn view(&self) -> PowerModel {
        PowerModel {
            previous_on_battery: self.previous_on_battery,
            send_alarm_time: match self.send_alarm_time {
                Some(due) => Some(due@),
                None => None,
            },
        }
    }
}

/// Whether a reading counts as running on battery: the battery drains, is
/// empty, or cannot tell. A battery that could not be read does not count.
pub open spec fn drains(reading: Option<BatteryState>) -> bool {
    reading matches Some(state) && (state == BatteryState::Discharging || state == BatteryState::Empty
        || state == BatteryState::Unknown)
}

/// Whether any of the readings counts as running on battery.
pub open spec fn any_drains(readings: Seq<Option<BatteryState>>) -> bool {
    exists|i: int| 0 <= i < readings.len() && drains(#[trigger] readings[i])
}

/// Tells from the readings of all batteries whether the machine runs on
/// battery: it does as soon as one of them drains.
pub fn on_battery(readings: &[Option<BatteryState>]) -> (draining: bool)
    ensures
        draining == any_drains(readings@),
{
    let mut i: usize = 0;
    while i < readings.len()
        invariant
            i <= readings.len(),
            forall|j: int| 0 <= j < i ==> !drains(#[trigger] readings@[j]),
        decreases readings.len() - i,
    {
        match readings[i] {
            Some(BatteryState::Discharging) | Some(BatteryState::Empty) | Some(BatteryState::Unknown) => {
                assert(drains(readings@[i as int]));
                return true;
            },
            _ => {},
        }
        i += 1;
    }
    false
}

impl PowerModel {
    /// The invariant: an alarm is scheduled only while the machine was last
    /// seen on battery.
    pub open spec fn wf(self) -> bool {
        !self.previous_on_battery ==> self.send_alarm_time is None
    }

    /// Whether the scheduled alarm fires at this look: the scheduled instant
    /// lies strictly before the look, and no alarm is raised yet.
    pub open spec fn fires(self, look: Look) -> bool {
        self.send_alarm_time matches Some(due) && due < look.now && !look.alarmed
    }

    /// What is remembered after this look. The first look that finds the
    /// machine on battery schedules the alarm three seconds ahead; a look
    /// that finds it on external power cancels what is scheduled.
    pub open spec fn after(self, look: Look) -> PowerModel {
        if look.on_battery {
            PowerModel {
                previous_on_battery: true,
                send_alarm_time: if !self.previous_on_battery {
                    Some(look.now + POWER_DEBOUNCE_MILLIS)
                } else if self.fires(look) {
                    None
                } else {
                    self.send_alarm_time
                },
            }
        } else {
            PowerModel { previous_on_battery: false, send_alarm_time: None }
        }
    }

    /// The change of source that this look reveals, if any.
    pub open spec fn switch_seen(self, look: Look) -> Option<PowerSource> {
        if look.on_battery && !self.previous_on_battery {
            Some(PowerSource::Battery)
        } else if !look.on_battery && self.previous_on_battery {
            Some(PowerSource::Charger)
        } else {
            None
        }
    }

    /// What is remembered after a run of looks, taken in order.
    pub open spec fn after_all(self, looks: Seq<Look>) -> PowerModel
        decreases looks.len(),
    {
        if looks.len() == 0 {
            self
        } else {
            self.after(looks[0]).after_all(looks.drop_first())
        }
    }

    /// How many times the alarm fires over a run of looks.
    pub open spec fn alarms_over(self, looks: Seq<Look>) -> nat
        decreases looks.len(),
    {
        if looks.len() == 0 {
            0
        } else {
            (if self.fires(looks[0]) {
                1nat
            } else {
                0nat
            }) + self.after(looks[0]).alarms_over(looks.drop_first())
        }
    }
}

impl PowerWatch {
    /// Starts on external power with nothing scheduled.
    pub fn new() -> (watch: PowerWatch)
        ensures
            watch == (PowerWatch { previous_on_battery: false, send_alarm_time: None }),
            watch@.wf(),
    {
        PowerWatch { previous_on_battery: false, send_alarm_time: None }
    }

    /// Takes one look at the power supply.
    pub fn observe(&mut self, look: PowerObservation) -> (report: PowerReport)
        requires
            representable(look.now@ + POWER_DEBOUNCE_MILLIS),
        ensures
            report.raise_alarm == old(self)@.fires(look@),
            report.switched_to == old(self)@.switch_seen(look@),
            final(self)@ == old(self)@.after(look@),
            final(self)@.wf(),
    {
        let raise_alarm = match self.send_alarm_time {
            Some(due) => look.now.is_after(due) && !look.alarmed,
            None => false,
        };
        if raise_alarm {
            self.send_alarm_time = None;
        }
        let switched_to = if look.on_battery {
            let first = !self.previous_on_battery;
            if first {
                self.send_alarm_time = Some(Timestamp { millis: look.now.millis + POWER_DEBOUNCE_MILLIS });
            }
            self.previous_on_battery = true;
            if first {
                Some(PowerSource::Battery)
            } else {
                None
            }
        } else {
            let was = self.previous_on_battery;
            self.previous_on_battery = false;
            self.send_alarm_time = None;
            if was {
                Some(PowerSource::Charger)
            } else {
                None
            }
        };
        PowerReport { raise_alarm, switched_to }
    }
}

/// Two watches that the rules cannot tell apart remember the same.
pub proof fn power_view_is_faithful(left: PowerWatch, right: PowerWatch)
    ensures
        left@ == right@ <==> left == right,
{
}

/// While the machine stays on external power nothing is scheduled and
/// nothing fires.
pub proof fn on_charger_nothing_fires(watch: PowerModel, looks: Seq<Look>)
    requires
        watch.send_alarm_time is None,
        forall|i: int| 0 <= i < looks.len() ==> !(#[trigger] looks[i]).on_battery,
    ensures
        watch.alarms_over(looks) == 0,
        looks.len() > 0 ==> watch.after_all(looks) == (PowerModel {
            previous_on_battery: false,
            send_alarm_time: None,
        }),
    decreases looks.len(),
{
    if looks.len() > 0 {
        let rest = looks.drop_first();
        assert forall|i: int| 0 <= i < rest.len() implies !(#[trigger] rest[i]).on_battery by {
            assert(rest[i] == looks[i + 1]);
        }
        assert(!looks[0].on_battery);
        on_charger_nothing_fires(watch.after(looks[0]), rest);
    }
}

/// A blip never raises the alarm. Power is lost at the first look and seen
/// back at look `restored`; no look up to then is later than three seconds
/// after the first. Then no look of the run fires, however long the machine
/// stays on external power afterwards, and nothing remains scheduled.
pub proof fn blip_never_raises_alarm(watch: PowerModel, looks: Seq<Look>, restored: int)
    requires
        watch.wf(),
        !watch.previous_on_battery,
        0 < restored < looks.len(),
        forall|i: int| 0 <= i < restored ==> (#[trigger] looks[i]).on_battery,
        forall|i: int| restored <= i < looks.len() ==> !(#[trigger] looks[i]).on_battery,
        forall|i: int| 0 <= i <= restored ==> (#[trigger] looks[i]).now <= looks[0].now + POWER_DEBOUNCE_MILLIS,
    ensures
        watch.alarms_over(looks) == 0,
        watch.after_all(looks) == (PowerModel { previous_on_battery: false, send_alarm_time: None }),
{
    let due = looks[0].now + POWER_DEBOUNCE_MILLIS;
    let rest = looks.drop_first();
    assert(looks[0].on_battery);
    assert forall|i: int| 0 <= i < rest.len() implies (#[trigger] rest[i]) == looks[i + 1] by {}
    assert forall|i: int| 0 <= i < restored - 1 implies (#[trigger] rest[i]).on_battery && rest[i].now <= due by {
        assert(rest[i] == looks[i + 1]);
    }
    assert forall|i: int| restored - 1 <= i < rest.len() implies !(#[trigger] rest[i]).on_battery by {
        assert(rest[i] == looks[i + 1]);
    }
    assert(rest[restored - 1] == looks[restored]);
    power_back_before_due(watch.after(looks[0]), rest, due, restored - 1);
}

/// The step behind `blip_never_raises_alarm`: with an alarm scheduled for
/// `due`, looks no later than `due` do not fire, and the look that finds
/// power back cancels what was scheduled.
proof fn power_back_before_due(watch: PowerModel, looks: Seq<Look>, due: int, restored: int)
    requires
        watch.previous_on_battery,
        watch.send_alarm_time == Some(due),
        0 <= restored < looks.len(),
        forall|i: int| 0 <= i < restored ==> (#[trigger] looks[i]).on_battery && looks[i].now <= due,
        looks[restored].now <= due,
        forall|i: int| restored <= i < looks.len() ==> !(#[trigger] looks[i]).on_battery,
    ensures
        watch.alarms_over(looks) == 0,
        watch.after_all(looks) == (PowerModel { previous_on_battery: false, send_alarm_time: None }),
    decreases restored,
{
    let rest = looks.drop_first();
    assert forall|i: int| 0 <= i < rest.len() implies (#[trigger] rest[i]) == looks[i + 1] by {}
    if restored == 0 {
        assert(!looks[0].on_battery);
        assert forall|i: int| 0 <= i < rest.len() implies !(#[trigger] rest[i]).on_battery by {
            assert(rest[i] == looks[i + 1]);
        }
        on_charger_nothing_fires(watch.after(looks[0]), rest);
        if rest.len() == 0 {
            assert(watch.after(looks[0]).after_all(rest) == watch.after(looks[0]));
        }
    } else {
        assert(looks[0].on_battery && looks[0].now <= due);
        assert(watch.after(looks[0]) == watch);
        assert forall|i: int| 0 <= i < restored - 1 implies (#[trigger] rest[i]).on_battery && rest[i].now <= due by {
            assert(rest[i] == looks[i + 1]);
        }
        assert forall|i: int| restored - 1 <= i < rest.len() implies !(#[trigger] rest[i]).on_battery by {
            assert(rest[i] == looks[i + 1]);
        }
        assert(rest[restored - 1] == looks[restored]);
        power_back_before_due(watch, rest, due, restored - 1);
    }
}

/// One loss of power raises the alarm at most once: while the machine stays
/// on battery, no run of looks fires twice.
pub proof fn one_loss_fires_at_most_once(watch: PowerModel, looks: Seq<Look>)
    requires
        watch.previous_on_battery,
        forall|i: int| 0 <= i < looks.len() ==> (#[trigger] looks[i]).on_battery,
    ensures
        watch.alarms_over(looks) <= 1,
        watch.send_alarm_time is None ==> watch.alarms_over(looks) == 0 && watch.after_all(looks).send_alarm_time
            is None,
        watch.after_all(looks).previous_on_battery,
        watch.alarms_over(looks) == 1 ==> watch.after_all(looks).send_alarm_time is None,
    decreases looks.len(),
{
    if looks.len() > 0 {
        let rest = looks.drop_first();
        assert forall|i: int| 0 <= i < rest.len() implies (#[trigger] rest[i]).on_battery by {
            assert(rest[i] == looks[i + 1]);
        }
        assert(looks[0].on_battery);
        one_loss_fires_at_most_once(watch.after(looks[0]), rest);
    }
}

/// A sustained loss raises the alarm exactly once. Power is lost at the
/// first look and never seen back. Look `fired` is the first one taken
/// strictly later than three seconds after the first while no alarm is
/// raised. Then the alarm fires at that look, at no look before it, and at
/// none after it.
pub proof fn sustained_loss_raises_alarm_once(watch: PowerModel, looks: Seq<Look>, fired: int)
    requires
        watch.wf(),
        !watch.previous_on_battery,
        0 < fired < looks.len(),
        forall|i: int| 0 <= i < looks.len() ==> (#[trigger] looks[i]).on_battery,
        looks[fired].now > looks[0].now + POWER_DEBOUNCE_MILLIS,
        !looks[fired].alarmed,
        forall|i: int|
            0 < i < fired ==> (#[trigger] looks[i]).now <= looks[0].now + POWER_DEBOUNCE_MILLIS
                || looks[i].alarmed,
    ensures
        watch.alarms_over(looks.take(fired)) == 0,
        watch.after_all(looks.take(fired)).fires(looks[fired]),
        watch.alarms_over(looks) == 1,
{
    let due = looks[0].now + POWER_DEBOUNCE_MILLIS;
    let rest = looks.drop_first();
    let next = watch.after(looks[0]);
    assert(looks[0].on_battery);
    assert forall|i: int| 0 <= i < rest.len() implies (#[trigger] rest[i]).on_battery by {
        assert(rest[i] == looks[i + 1]);
    }
    assert forall|i: int| 0 <= i < fired - 1 implies (#[trigger] rest[i]).now <= due || rest[i].alarmed by {
        assert(rest[i] == looks[i + 1]);
    }
    assert(rest[fired - 1] == looks[fired]);
    fires_at_first_due_look(next, rest, due, fired - 1);
    let head = looks.take(fired);
    assert(head.len() > 0);
    assert(head[0] == looks[0]);
    assert(head.drop_first() =~= rest.take(fired - 1));
}

/// The step behind `sustained_loss_raises_alarm_once`, from the state in
/// which the alarm is scheduled for `due`.
proof fn fires_at_first_due_look(watch: PowerModel, looks: Seq<Look>, due: int, fired: int)
    requires
        watch.previous_on_battery,
        watch.send_alarm_time == Some(due),
        0 <= fired < looks.len(),
        forall|i: int| 0 <= i < looks.len() ==> (#[trigger] looks[i]).on_battery,
        looks[fired].now > due,
        !looks[fired].alarmed,
        forall|i: int| 0 <= i < fired ==> (#[trigger] looks[i]).now <= due || looks[i].alarmed,
    ensures
        watch.alarms_over(looks.take(fired)) == 0,
        watch.after_all(looks.take(fired)) == watch,
        watch.fires(looks[fired]),
        watch.alarms_over(looks) == 1,
    decreases fired,
{
    let rest = looks.drop_first();
    assert forall|i: int| 0 <= i < rest.len() implies (#[trigger] rest[i]).on_battery by {
        assert(rest[i] == looks[i + 1]);
    }
    assert(looks[0].on_battery);
    if fired == 0 {
        assert(looks.take(0).len() == 0);
        assert(watch.fires(looks[0]));
        one_loss_fires_at_most_once(watch.after(looks[0]), rest);
    } else {
        assert(looks[0].now <= due || looks[0].alarmed);
        assert(!watch.fires(looks[0]));
        assert(watch.after(looks[0]) == watch);
        assert forall|i: int| 0 <= i < fired - 1 implies (#[trigger] rest[i]).now <= due || rest[i].alarmed by {
            assert(rest[i] == looks[i + 1]);
        }
        assert(rest[fired - 1] == looks[fired]);
        fires_at_first_due_look(watch, rest, due, fired - 1);
        let head = looks.take(fired);
        assert(head[0] == looks[0]);
        assert(head.drop_first() =~= rest.take(fired - 1));
    }
}

} // verus!
