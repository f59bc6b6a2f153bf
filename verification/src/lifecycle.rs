//! Background transitions: what a task does, step by step, the events it
//! reports, and how the control loop takes them in. Also the pass that, at
//! startup, settles the transitions that an earlier run left behind.

use vstd::prelude::*;
use vstd::string::*;
use crate::clock::{log_line, make_log_line};
use crate::models::{units_view, PowerState, Server, ServerView};
use crate::state::{AppState, AppView};
use crate::text::{nat_text, push_nat};

verus! {

broadcast use vstd::std_specs::hash::group_hash_axioms;

/// What a background task reports to the control loop.
#[derive(Clone, Debug)]
pub struct LifecycleEvent {
    pub unit_id: i32,
    pub message: String,
    pub became_active: bool,
}

pub struct EventView {
    pub unit_id: i32,
    pub message: Seq<char>,
    pub became_active: bool,
}

impl View for LifecycleEvent {
    type V = EventView;

    open spec fn view(&self) -> EventView {
        EventView {
            unit_id: self.unit_id,
            message: self.message@,
            became_active: self.became_active,
        }
    }
}

/// One step of a background task: a write to the store, a pause, or a
/// report to the control loop.
#[derive(Clone, Copy, Debug, PartialEq, Eq, Structural)]
pub enum TaskOp {
    SetState(PowerState),
    Wait { millis: u64 },
    Progress { percent: u8 },
    Activated,
    Resolved { became_active: bool },
}

/// The pause between two progress reports of an activation.
pub const ACTIVATION_PAUSE_MS: u64 = 400;

/// How long a unit takes to start or stop.
pub const TOGGLE_DELAY_MS: u64 = 3000;

/// Whether a step reports to the control loop.
pub open spec fn is_report(op: TaskOp) -> bool {
    op is Progress || op is Activated || op is Resolved
}

/// The state in which a unit is while it starts or stops.
pub open spec fn transient_state(turning_on: bool) -> PowerState {
    if turning_on {
        PowerState::Starting
    } else {
        PowerState::Stopping
    }
}

/// The state in which a unit is once it has started or stopped.
pub open spec fn resolved_state(turning_on: bool) -> PowerState {
    if turning_on {
        PowerState::On
    } else {
        PowerState::Off
    }
}

/// The steps of a power toggle: the transient state is written at once,
/// then comes the delay, then the resolved state is written, and only then
/// the one report goes out.
pub open spec fn toggle_ops(turning_on: bool) -> Seq<TaskOp> {
    seq![
        TaskOp::SetState(transient_state(turning_on)),
        TaskOp::Wait { millis: TOGGLE_DELAY_MS },
        TaskOp::SetState(resolved_state(turning_on)),
        TaskOp::Resolved { became_active: turning_on },
    ]
}

/// The first `n` progress reports of an activation, each followed by its
/// pause: at 0, 25, 50 percent and so on.
pub open spec fn progress_ops(n: nat) -> Seq<TaskOp>
    decreases n,
{
    if n == 0 {
        Seq::empty()
    } else {
        progress_ops((n - 1) as nat).push(TaskOp::Progress { percent: ((n - 1) * 25) as u8 }).push(
            TaskOp::Wait { millis: ACTIVATION_PAUSE_MS },
        )
    }
}

/// The steps of an activation: five progress reports, then the unit is
/// written as off, which makes it ready to be powered, then the final report.
pub open spec fn activation_ops() -> Seq<TaskOp> {
    progress_ops(5).push(TaskOp::SetState(PowerState::Off)).push(TaskOp::Activated)
}

pub fn toggle_script(turning_on: bool) -> (r: Vec<TaskOp>)
    ensures
        r@ == toggle_ops(turning_on),
{
    let (transient, resolved) = if turning_on {
        (PowerState::Starting, PowerState::On)
    } else {
        (PowerState::Stopping, PowerState::Off)
    };
    let mut ops: Vec<TaskOp> = Vec::new();
    ops.push(TaskOp::SetState(transient));
    ops.push(TaskOp::Wait { millis: TOGGLE_DELAY_MS });
    ops.push(TaskOp::SetState(resolved));
    ops.push(TaskOp::Resolved { became_active: turning_on });
    assert(ops@ =~= toggle_ops(turning_on));
    ops
}

pub fn activation_script() -> (r: Vec<TaskOp>)
    ensures
        r@ == activation_ops(),
{
    let mut ops: Vec<TaskOp> = Vec::new();
    let mut k: u8 = 0;
    assert(ops@ =~= progress_ops(0));
    while k < 5
        invariant
            k <= 5,
            ops@ == progress_ops(k as nat),
        decreases 5 - k,
    {
        ops.push(TaskOp::Progress { percent: k * 25 });
        ops.push(TaskOp::Wait { millis: ACTIVATION_PAUSE_MS });
        k = k + 1;
    }
    ops.push(TaskOp::SetState(PowerState::Off));
    ops.push(TaskOp::Activated);
    ops
}

/// The message of a report, before it is stamped. `elapsed` is the number
/// of seconds that the transition took.
pub open spec fn report_text(op: TaskOp, name: Seq<char>, elapsed: u64) -> Seq<char> {
    match op {
        TaskOp::Progress { percent } => name + ": Activation "@ + nat_text(percent as nat) + "%"@,
        TaskOp::Activated => name + ": Activation complete"@,
        TaskOp::Resolved { became_active } => if became_active {
            name + ": Started (took "@ + nat_text(elapsed as nat) + "s)"@
        } else {
            name + ": Stopped (took "@ + nat_text(elapsed as nat) + "s)"@
        },
        _ => name,
    }
}

/// The event that a step sends, if it is a report: the stamped message,
/// and whether the unit has just become active.
pub open spec fn report_of(op: TaskOp, unit_id: i32, name: Seq<char>, now: u64, elapsed: u64)
    -> Option<EventView> {
    if is_report(op) {
        Some(
            EventView {
                unit_id,
                message: log_line(now, report_text(op, name, elapsed)),
                became_active: op == (TaskOp::Resolved { became_active: true }),
            },
        )
    } else {
        None
    }
}

/// The event that the step `op` of a task on the unit `unit_id` sends at
/// second `now`, or `None` for a step that sends nothing.
pub fn report(op: TaskOp, unit_id: i32, name: &str, now: u64, elapsed: u64) -> (r: Option<
    LifecycleEvent,
>)
    ensures
        match r {
            Some(ev) => report_of(op, unit_id, name@, now, elapsed) == Some(ev@),
            None => report_of(op, unit_id, name@, now, elapsed).is_none(),
        },
{
    let mut msg = String::from_str(name);
    let became_active = match op {
        TaskOp::Progress { percent } => {
            msg.append(": Activation ");
            push_nat(&mut msg, percent as u64);
            msg.append("%");
            false
        },
        TaskOp::Activated => {
            msg.append(": Activation complete");
            false
        },
        TaskOp::Resolved { became_active } => {
            if became_active {
                msg.append(": Started (took ");
            } else {
                msg.append(": Stopped (took ");
            }
            push_nat(&mut msg, elapsed);
            msg.append("s)");
            became_active
        },
        _ => {
            return None;
        },
    };
    Some(LifecycleEvent { unit_id, message: make_log_line(now, msg.as_str()), became_active })
}

/// A toggle reports exactly once, as its last step, with `became_active`
/// telling which way it went; the resolved state is written before that
/// report and after the delay, and the transient state before anything else.
pub proof fn lemma_toggle_reports_once(turning_on: bool)
    ensures
        toggle_ops(turning_on).len() == 4,
        forall|i: int|
            0 <= i < 4 ==> (is_report(#[trigger] toggle_ops(turning_on)[i]) <==> i == 3),
        toggle_ops(turning_on)[3] == (TaskOp::Resolved { became_active: turning_on }),
        toggle_ops(turning_on)[2] == TaskOp::SetState(resolved_state(turning_on)),
        toggle_ops(turning_on)[1] == (TaskOp::Wait { millis: TOGGLE_DELAY_MS }),
        toggle_ops(turning_on)[0] == TaskOp::SetState(transient_state(turning_on)),
{
}

/// Of the steps of a toggle exactly one sends an event, the last one; the
/// event is for the unit of the task and tells that it became active
/// exactly if it was turned on.
pub proof fn lemma_toggle_sends_one_event(
    turning_on: bool,
    unit_id: i32,
    name: Seq<char>,
    now: u64,
    elapsed: u64,
)
    ensures
        forall|i: int|
            0 <= i < 4 ==> (report_of(
                #[trigger] toggle_ops(turning_on)[i],
                unit_id,
                name,
                now,
                elapsed,
            ).is_some() <==> i == 3),
        report_of(toggle_ops(turning_on)[3], unit_id, name, now, elapsed) == Some(
            EventView {
                unit_id,
                message: log_line(
                    now,
                    report_text(TaskOp::Resolved { became_active: turning_on }, name, elapsed),
                ),
                became_active: turning_on,
            },
        ),
{
}

/// An activation never reports that a unit became active, ends with its
/// final report, and writes the unit as off just before it.
pub proof fn lemma_activation_ends_off()
    ensures
        activation_ops().len() == 12,
        activation_ops()[10] == TaskOp::SetState(PowerState::Off),
        activation_ops()[11] == TaskOp::Activated,
        forall|i: int|
            0 <= i < 12 ==> !(#[trigger] activation_ops()[i] is Resolved),
        forall|i: int|
            0 <= i < 10 ==> !(#[trigger] activation_ops()[i] is SetState),
{
    reveal_with_fuel(progress_ops, 6);
}

impl AppView {
    /// An event arrives: its message goes to the end of the log, and the
    /// unit's running time starts at `now` or stops being kept.
    pub open spec fn event_applied(self, ev: EventView, now: u64) -> AppView {
        AppView {
            logs: self.logs.push(ev.message),
            start_times: if ev.became_active {
                self.start_times.insert(ev.unit_id, now)
            } else {
                self.start_times.remove(ev.unit_id)
            },
            ..self
        }
    }

    /// What the startup pass makes of one unit: one left starting counts
    /// as running from `now`, one left stopping as off, each with a line in
    /// the log; one that is on starts its running time.
    pub open spec fn unit_settled(self, s: ServerView, now: u64) -> AppView {
        match s.status {
            PowerState::Starting => AppView {
                start_times: self.start_times.insert(s.id, now),
                ..self.logged(now, s.name + ": state corrected to ON"@)
            },
            PowerState::Stopping => self.logged(now, s.name + ": state corrected to OFF"@),
            PowerState::On => AppView { start_times: self.start_times.insert(s.id, now), ..self },
            _ => self,
        }
    }

    /// The startup pass over all units, in order.
    pub open spec fn settled(self, units: Seq<ServerView>, now: u64) -> AppView
        decreases units.len(),
    {
        if units.len() == 0 {
            self
        } else {
            self.settled(units.drop_last(), now).unit_settled(units.last(), now)
        }
    }
}

/// A state that the startup pass has to write back to the store.
#[derive(Clone, Copy, Debug, PartialEq, Eq, Structural)]
pub struct Correction {
    pub id: i32,
    pub state: PowerState,
}

/// The state in which a unit is after the startup pass.
pub open spec fn settled_state(state: PowerState) -> PowerState {
    match state {
        PowerState::Starting => PowerState::On,
        PowerState::Stopping => PowerState::Off,
        s => s,
    }
}

/// The corrections that the startup pass asks for, in the order of the
/// units: one for each unit in a transient state.
pub open spec fn corrections(units: Seq<ServerView>) -> Seq<Correction>
    decreases units.len(),
{
    if units.len() == 0 {
        Seq::empty()
    } else {
        let s = units.last();
        let before = corrections(units.drop_last());
        if s.status == PowerState::Starting || s.status == PowerState::Stopping {
            before.push(Correction { id: s.id, state: settled_state(s.status) })
        } else {
            before
        }
    }
}

impl PowerState {
    pub fn settled(self) -> (r: PowerState)
        ensures
            r == settled_state(self),
            r != PowerState::Starting,
            r != PowerState::Stopping,
    {
        match self {
            PowerState::Starting => PowerState::On,
            PowerState::Stopping => PowerState::Off,
            s => s,
        }
    }
}

impl AppState {
    /// Takes in one event of a background task at second `now`.
    pub fn apply_event(&mut self, ev: LifecycleEvent, now: u64)
        ensures
            final(self)@ == old(self)@.event_applied(ev@, now),
    {
        let LifecycleEvent { unit_id, message, became_active } = ev;
        self.logs.push(message);
        if became_active {
            self.start_times.insert(unit_id, now);
        } else {
            self.start_times.remove(&unit_id);
        }
        assert(final(self)@.logs =~= old(self)@.logs.push(ev@.message));
    }

    /// The startup pass: settles in the view state every unit that was left
    /// in a transient state, and returns what has to be written back.
    pub fn reconcile_startup(&mut self, units: &Vec<Server>, now: u64) -> (r: Vec<Correction>)
        ensures
            final(self)@ == old(self)@.settled(units_view(units@), now),
            r@ == corrections(units_view(units@)),
    {
        let ghost start = self@;
        let ghost all = units_view(units@);
        let mut out: Vec<Correction> = Vec::new();
        let mut i: usize = 0;
        assert(all.take(0) =~= Seq::empty());
        while i < units.len()
            invariant
                0 <= i <= units.len(),
                all == units_view(units@),
                self@ == start.settled(all.take(i as int), now),
                out@ == corrections(all.take(i as int)),
            decreases units.len() - i,
        {
            let s = &units[i];
            proof {
                assert(all.take(i + 1).drop_last() =~= all.take(i as int));
                assert(all.take(i + 1).last() == s@);
            }
            match s.status {
                PowerState::Starting => {
                    let mut msg = s.name.clone();
                    msg.append(": state corrected to ON");
                    self.log(now, msg.as_str());
                    self.start_times.insert(s.id, now);
                    out.push(Correction { id: s.id, state: PowerState::On });
                },
                PowerState::Stopping => {
                    let mut msg = s.name.clone();
                    msg.append(": state corrected to OFF");
                    self.log(now, msg.as_str());
                    out.push(Correction { id: s.id, state: PowerState::Off });
                },
                PowerState::On => {
                    self.start_times.insert(s.id, now);
                },
                _ => {},
            }
            i = i + 1;
        }
        assert(all.take(units.len() as int) =~= all);
        out
    }
}

} // verus!
