//! The wire under the connection lock: why the parties that share one port
//! never mix their bytes.
//!
//! Nothing here runs. The lock itself belongs to the caller; this module
//! states what the lock and the order of steps under it amount to: every
//! command byte on the wire is followed by the read of its own answer, by
//! the same party, before any other byte is sent.

use vstd::prelude::*;
use crate::poller::{PollerEvent, PollerPhase};

verus! {

/// Who is at the connection.
pub enum Party {
    /// The window, carrying out a command of the operator.
    Foreground,
    /// The background poller.
    Poller,
}

/// One step of a party at the connection.
pub enum WireStep {
    /// Takes the connection lock.
    Lock,
    /// Writes this command byte.
    Send(u8),
    /// Ends the read of the answer, with the bytes or with a failure.
    Receive,
    /// Gives the connection lock up.
    Unlock,
}

/// A step together with the party that takes it.
pub struct Step {
    pub party: Party,
    pub kind: WireStep,
}

/// How far the holder of the lock has come with its exchange.
pub enum Stage {
    /// Nothing sent yet.
    Fresh,
    /// The command is out; its answer is awaited.
    Sent,
    /// The read of the answer has ended.
    Answered,
}

/// The connection: free, or held by one party.
pub enum Line {
    Free,
    Held { by: Party, stage: Stage },
}

impl Line {
    /// Whether a step can be taken now. The lock goes to a party only
    /// while it is free. The holder alone sends and receives: one command,
    /// then its answer. It gives the lock up before it has sent anything or
    /// after the read has ended, never in between.
    pub open spec fn admits(self, step: Step) -> bool {
        match (self, step.kind) {
            (Line::Free, WireStep::Lock) => true,
            (Line::Held { by, stage }, WireStep::Send(_)) => by == step.party && stage == Stage::Fresh,
            (Line::Held { by, stage }, WireStep::Receive) => by == step.party && stage == Stage::Sent,
            (Line::Held { by, stage }, WireStep::Unlock) => by == step.party && stage != Stage::Sent,
            _ => false,
        }
    }

    /// The connection after a step.
    pub open spec fn after(self, step: Step) -> Line {
        match step.kind {
            WireStep::Lock => Line::Held { by: step.party, stage: Stage::Fresh },
            WireStep::Send(_) => Line::Held { by: step.party, stage: Stage::Sent },
            WireStep::Receive => Line::Held { by: step.party, stage: Stage::Answered },
            WireStep::Unlock => Line::Free,
        }
    }

    /// The connection after a run of steps, taken in order.
    pub open spec fn after_all(self, steps: Seq<Step>) -> Line
        decreases steps.len(),
    {
        if steps.len() == 0 {
            self
        } else {
            self.after_all(steps.drop_last()).after(steps.last())
        }
    }

    /// Whether every step of a run can be taken when its turn comes.
    pub open spec fn admits_all(self, steps: Seq<Step>) -> bool
        decreases steps.len(),
    {
        if steps.len() == 0 {
            true
        } else {
            self.admits_all(steps.drop_last()) && self.after_all(steps.drop_last()).admits(steps.last())
        }
    }
}

/// What a run of steps puts on the wire: its sends and receives, in order.
pub open spec fn wire_of(steps: Seq<Step>) -> Seq<Step>
    decreases steps.len(),
{
    if steps.len() == 0 {
        Seq::<Step>::empty()
    } else if steps.last().kind is Send || steps.last().kind is Receive {
        wire_of(steps.drop_last()).push(steps.last())
    } else {
        wire_of(steps.drop_last())
    }
}

/// Whether exchange number `k` on the wire is whole: a send at place `2k`
/// and, at the place after it, the receive of the same party. The last
/// send on the wire may still await its receive.
pub open spec fn exchange_at(wire: Seq<Step>, k: int) -> bool {
    &&& wire[2 * k].kind is Send
    &&& 2 * k + 1 < wire.len() ==> wire[2 * k + 1].kind is Receive && wire[2 * k + 1].party == wire[2 * k].party
}

/// Whether the wire carries whole exchanges only, one after the other.
pub open spec fn whole_exchanges(wire: Seq<Step>) -> bool {
    forall|k: int| 0 <= k && 2 * k < wire.len() ==> #[trigger] exchange_at(wire, k)
}

/// The steps that the poller takes at the connection when it moves on: it
/// locks, it sends the poll and receives the answer in one piece, and it
/// unlocks. Every other move of the poller leaves the connection alone.
pub open spec fn poller_steps(phase: PollerPhase, event: PollerEvent) -> Seq<Step> {
    match (phase, event) {
        (PollerPhase::LockingConnection, PollerEvent::Locked) => seq![
            Step { party: Party::Poller, kind: WireStep::Lock },
        ],
        (PollerPhase::Exchanging, PollerEvent::Exchanged(_)) => seq![
            Step { party: Party::Poller, kind: WireStep::Send(0xAA) },
            Step { party: Party::Poller, kind: WireStep::Receive },
        ],
        (PollerPhase::ReleasingConnection(_), PollerEvent::Released) => seq![
            Step { party: Party::Poller, kind: WireStep::Unlock },
        ],
        _ => Seq::<Step>::empty(),
    }
}

/// The connection as the poller holds it in each phase.
pub open spec fn poller_hold(phase: PollerPhase) -> Option<Stage> {
    match phase {
        PollerPhase::Exchanging => Some(Stage::Fresh),
        PollerPhase::ReleasingConnection(_) => Some(Stage::Answered),
        _ => None,
    }
}

/// The steps of one command at the connection, as any party takes them:
/// lock, send, receive, unlock.
pub open spec fn exchange_steps(party: Party, command: u8) -> Seq<Step> {
    seq![
        Step { party, kind: WireStep::Lock },
        Step { party, kind: WireStep::Send(command) },
        Step { party, kind: WireStep::Receive },
        Step { party, kind: WireStep::Unlock },
    ]
}

/// Under the lock the wire carries whole exchanges only. Whatever the
/// parties do and however their steps fall in time: as long as every step
/// is one that the lock and the order of an exchange admit, no command byte
/// is sent while another awaits its answer, and every answer is read by the
/// party that sent the command.
pub proof fn lock_keeps_exchanges_whole(steps: Seq<Step>)
    requires
        Line::Free.admits_all(steps),
    ensures
        whole_exchanges(wire_of(steps)),
{
    wire_follows_line(steps);
}

/// A send may follow whole exchanges that are all answered.
proof fn send_starts_an_exchange(wire: Seq<Step>, step: Step)
    requires
        whole_exchanges(wire),
        wire.len() % 2 == 0,
        step.kind is Send,
    ensures
        whole_exchanges(wire.push(step)),
{
    let longer = wire.push(step);
    assert forall|k: int| 0 <= k && 2 * k < longer.len() implies #[trigger] exchange_at(longer, k) by {
        if 2 * k < wire.len() {
            assert(exchange_at(wire, k));
            assert(longer[2 * k] == wire[2 * k]);
            assert(longer[2 * k + 1] == wire[2 * k + 1]);
        } else {
            assert(longer[2 * k] == step);
        }
    }
}

/// The receive of the party that sent last completes the last exchange.
proof fn receive_completes_the_exchange(wire: Seq<Step>, step: Step)
    requires
        whole_exchanges(wire),
        wire.len() % 2 == 1,
        step.kind is Receive,
        step.party == wire.last().party,
    ensures
        whole_exchanges(wire.push(step)),
{
    let longer = wire.push(step);
    assert forall|k: int| 0 <= k && 2 * k < longer.len() implies #[trigger] exchange_at(longer, k) by {
        assert(2 * k < wire.len());
        assert(exchange_at(wire, k));
        assert(longer[2 * k] == wire[2 * k]);
        if 2 * k + 1 < wire.len() {
            assert(longer[2 * k + 1] == wire[2 * k + 1]);
        } else {
            assert(longer[2 * k + 1] == step);
            assert(wire.last() == wire[2 * k]);
        }
    }
}

/// The invariant behind `lock_keeps_exchanges_whole`: the wire holds whole
/// exchanges, and its last send awaits its receive exactly while the holder
/// of the lock is at that stage.
proof fn wire_follows_line(steps: Seq<Step>)
    requires
        Line::Free.admits_all(steps),
    ensures
        whole_exchanges(wire_of(steps)),
        match Line::Free.after_all(steps) {
            Line::Held { by, stage: Stage::Sent } => wire_of(steps).len() % 2 == 1 && wire_of(steps).last().party
                == by,
            _ => wire_of(steps).len() % 2 == 0,
        },
    decreases steps.len(),
{
    if steps.len() > 0 {
        let before = steps.drop_last();
        let step = steps.last();
        let line = Line::Free.after_all(before);
        let wire = wire_of(before);
        wire_follows_line(before);
        assert(line.admits(step));
        match step.kind {
            WireStep::Send(_) => {
                send_starts_an_exchange(wire, step);
                assert(wire_of(steps) == wire.push(step));
            },
            WireStep::Receive => {
                receive_completes_the_exchange(wire, step);
                assert(wire_of(steps) == wire.push(step));
            },
            _ => {
                assert(wire_of(steps) == wire);
            },
        }
    }
}

/// Taking one more step: the run is admitted if it was so far and the step
/// can be taken where the run has led.
proof fn one_more_step(line: Line, steps: Seq<Step>, step: Step)
    ensures
        line.admits_all(steps.push(step)) == (line.admits_all(steps) && line.after_all(steps).admits(step)),
        line.after_all(steps.push(step)) == line.after_all(steps).after(step),
{
    assert(steps.push(step).drop_last() =~= steps);
    assert(steps.push(step).last() == step);
}

/// One command, carried out from lock to unlock, is admitted whenever the
/// connection is free, and leaves it free.
pub proof fn one_exchange_is_admitted(party: Party, command: u8)
    ensures
        Line::Free.admits_all(exchange_steps(party, command)),
        Line::Free.after_all(exchange_steps(party, command)) == Line::Free,
{
    let lock = Step { party, kind: WireStep::Lock };
    let send = Step { party, kind: WireStep::Send(command) };
    let receive = Step { party, kind: WireStep::Receive };
    let unlock = Step { party, kind: WireStep::Unlock };
    let none = Seq::<Step>::empty();
    one_more_step(Line::Free, none, lock);
    one_more_step(Line::Free, none.push(lock), send);
    one_more_step(Line::Free, none.push(lock).push(send), receive);
    one_more_step(Line::Free, none.push(lock).push(send).push(receive), unlock);
    assert(exchange_steps(party, command) =~= none.push(lock).push(send).push(receive).push(unlock));
}

/// The poller keeps to the order of an exchange. From a connection that is
/// as the poller's phase has it, the steps of each of its moves are
/// admitted, and they leave the connection as its next phase has it. The
/// one thing the poller cannot know by itself is that the lock was free
/// when it took it: that is what the lock is for.
pub proof fn poller_keeps_to_the_order(phase: PollerPhase, event: PollerEvent, line: Line)
    requires
        match poller_hold(phase) {
            Some(stage) => line == (Line::Held { by: Party::Poller, stage }),
            None => line == Line::Free,
        },
    ensures
        line.admits_all(poller_steps(phase, event)),
        match poller_hold(phase.after(event)) {
            Some(stage) => line.after_all(poller_steps(phase, event)) == (Line::Held { by: Party::Poller, stage }),
            None => line.after_all(poller_steps(phase, event)) == Line::Free,
        },
{
    let steps = poller_steps(phase, event);
    let none = Seq::<Step>::empty();
    if steps.len() == 1 {
        one_more_step(line, none, steps[0]);
        assert(steps =~= none.push(steps[0]));
    } else if steps.len() == 2 {
        one_more_step(line, none, steps[0]);
        one_more_step(line, none.push(steps[0]), steps[1]);
        assert(steps =~= none.push(steps[0]).push(steps[1]));
    }
}

} // verus!
