//! What holds of the transition function on every state: laws that relate
//! several key presses, proved from the definitions of the transitions.

use vstd::prelude::*;
use vstd::arithmetic::div_mod::lemma_mod_self_0;
use crate::form::{accepts, cpu_allowed, entered_port, port_allowed};
use crate::lifecycle::{corrections, resolved_state, transient_state, Correction, EventView};
use crate::machine::selected_unit;
use crate::models::{PowerState, ServerView};
use crate::state::{
    field_of, is_update_mode, mode_for, next_field, ActionView, ActiveBlock, AppView, Field,
    InfoMode, Key,
};

verus! {

/// The flow of a form mode agrees with whether a unit is under edit, and
/// every mode but view mode has the focus on the info panel.
pub open spec fn consistent(v: AppView) -> bool {
    &&& v.info_mode != InfoMode::View ==> v.active_block == ActiveBlock::Info
    &&& field_of(v.info_mode).is_some() ==> (is_update_mode(v.info_mode)
        <==> v.update_id.is_some())
}

/// The key press that types `c`.
pub open spec fn char_key(c: char) -> Key {
    Key::Char(c)
}

/// The key presses that type `text`, one character each.
pub open spec fn typing(text: Seq<char>) -> Seq<Key>
    decreases text.len(),
{
    if text.len() == 0 {
        Seq::empty()
    } else {
        typing(text.drop_last()).push(char_key(text.last()))
    }
}

/// Whether every character of `text` may be typed into `field`.
pub open spec fn all_accepted(field: Field, text: Seq<char>) -> bool {
    forall|i: int| 0 <= i < text.len() ==> accepts(field, #[trigger] text[i])
}

impl AppView {
    /// The state after a sequence of key presses, none of which changes the
    /// units on display.
    pub open spec fn after_keys(self, keys: Seq<Key>, units: Seq<ServerView>, now: u64) -> AppView
        decreases keys.len(),
    {
        if keys.len() == 0 {
            self
        } else {
            self.after_keys(keys.drop_last(), units, now).step(keys.last(), units, now).0
        }
    }
}

/// The initial state is consistent.
pub proof fn lemma_initial_consistent(now: u64)
    ensures
        consistent(AppView::initial(now)),
{
}

/// Every key press keeps a consistent state consistent.
pub proof fn lemma_step_keeps_consistent(v: AppView, key: Key, units: Seq<ServerView>, now: u64)
    requires
        consistent(v),
    ensures
        consistent(v.step(key, units, now).0),
{
}

/// The log only grows: what was logged before a key press is still there
/// after it, in the same place.
pub proof fn lemma_step_appends_to_log(v: AppView, key: Key, units: Seq<ServerView>, now: u64)
    ensures
        v.logs.is_prefix_of(v.step(key, units, now).0.logs),
        v.step(key, units, now).0.logs.len() <= v.logs.len() + 1,
{
    let w = v.step(key, units, now).0;
    assert(v.logs.is_prefix_of(v.logs));
    assert(v.logs.is_prefix_of(v.logs.push(w.logs.last()))) by {
        assert(v.logs.push(w.logs.last()).subrange(0, v.logs.len() as int) =~= v.logs);
    }
}

/// Up on the first field and Down on the last change nothing.
pub proof fn lemma_field_ends_hold(v: AppView, units: Seq<ServerView>, now: u64)
    requires
        v.in_field_entry(),
    ensures
        field_of(v.info_mode) == Some(Field::Name) ==> v.step(Key::Up, units, now) == (
            v,
            ActionView::Idle,
        ),
        field_of(v.info_mode) == Some(Field::Cpu) ==> v.step(Key::Down, units, now) == (
            v,
            ActionView::Idle,
        ),
        field_of(v.step(Key::Up, units, now).0.info_mode).is_some(),
        field_of(v.step(Key::Down, units, now).0.info_mode).is_some(),
{
}

/// Over a list that is not empty the selection wraps: Down on the last row
/// goes to the first, Up on the first row goes to the last, and the
/// selection stays inside the list.
pub proof fn lemma_selection_wraps(v: AppView, units: Seq<ServerView>, now: u64)
    requires
        !v.in_field_entry(),
        0 < units.len() <= usize::MAX,
    ensures
        v.selected == Some((units.len() - 1) as usize) ==> v.step(Key::Down, units, now).0.selected
            == Some(0usize),
        v.selected == Some(0usize) ==> v.step(Key::Up, units, now).0.selected == Some(
            (units.len() - 1) as usize,
        ),
        (v.selected matches Some(i) ==> i < units.len()) ==> (v.step(
            Key::Down,
            units,
            now,
        ).0.selected matches Some(j) && j < units.len()),
        (v.selected matches Some(i) ==> i < units.len()) ==> (v.step(
            Key::Up,
            units,
            now,
        ).0.selected matches Some(j) && j < units.len()),
{
    lemma_mod_self_0(units.len() as int);
    if let Some(i) = v.selected {
        if i < units.len() {
            vstd::arithmetic::div_mod::lemma_mod_bound(i + 1, units.len() as int);
        }
    }
}

/// A form under update that fails validation asks for confirmation on
/// Enter. From there, Enter commits the values as they stand, and Escape
/// goes back to the last field with nothing changed.
pub proof fn lemma_warning_then_confirm_or_cancel(
    v: AppView,
    id: i32,
    units: Seq<ServerView>,
    now: u64,
)
    requires
        v.active_block == ActiveBlock::Info,
        v.info_mode == InfoMode::UpdateServerCpu,
        v.update_id == Some(id),
        !port_allowed(entered_port(v.new_port)) || !cpu_allowed(v.new_cpu),
    ensures
        v.step(Key::Enter, units, now) == (
            AppView { info_mode: InfoMode::ConfirmWarning, ..v },
            ActionView::Idle,
        ),
        v.step(Key::Enter, units, now).0.step(Key::Enter, units, now).1 == (ActionView::Update {
            id,
            name: v.new_name,
            port: entered_port(v.new_port),
            ram: v.new_ram,
            cpu: v.new_cpu,
        }),
        v.step(Key::Enter, units, now).0.step(Key::Enter, units, now).0.info_mode
            == InfoMode::View,
        v.step(Key::Enter, units, now).0.step(Key::Esc, units, now) == (v, ActionView::Idle),
{
}

/// The same in the add flow: a form that fails validation asks for
/// confirmation; Enter then inserts the values as they stand, Escape goes
/// back to the last field.
pub proof fn lemma_warning_in_add_flow(v: AppView, units: Seq<ServerView>, now: u64)
    requires
        v.active_block == ActiveBlock::Info,
        v.info_mode == InfoMode::AddServerCpu,
        v.update_id.is_none(),
        !v.form_valid(),
    ensures
        v.step(Key::Enter, units, now) == (
            AppView { info_mode: InfoMode::ConfirmWarning, ..v },
            ActionView::Idle,
        ),
        v.step(Key::Enter, units, now).0.step(Key::Enter, units, now).1 == (ActionView::Insert {
            name: v.new_name,
            port: entered_port(v.new_port),
            ram: v.new_ram,
            cpu: v.new_cpu,
        }),
        v.step(Key::Enter, units, now).0.step(Key::Esc, units, now) == (v, ActionView::Idle),
{
}

/// Key presses one after the other: first `a`, then `b`.
pub proof fn lemma_after_keys_concat(
    v: AppView,
    a: Seq<Key>,
    b: Seq<Key>,
    units: Seq<ServerView>,
    now: u64,
)
    ensures
        v.after_keys(a + b, units, now) == v.after_keys(a, units, now).after_keys(b, units, now),
    decreases b.len(),
{
    if b.len() == 0 {
        assert(a + b =~= a);
    } else {
        lemma_after_keys_concat(v, a, b.drop_last(), units, now);
        assert((a + b).drop_last() =~= a + b.drop_last());
        assert((a + b).last() == b.last());
    }
}

/// Typing characters that the active field accepts appends them to its
/// buffer and changes nothing else.
pub proof fn lemma_typing_fills_buffer(
    v: AppView,
    field: Field,
    text: Seq<char>,
    units: Seq<ServerView>,
    now: u64,
)
    requires
        v.in_field_entry(),
        field_of(v.info_mode) == Some(field),
        all_accepted(field, text),
    ensures
        v.after_keys(typing(text), units, now) == v.with_buffer(field, v.buffer(field) + text),
    decreases text.len(),
{
    if text.len() == 0 {
        assert(v.buffer(field) + text =~= v.buffer(field));
    } else {
        let front = text.drop_last();
        lemma_typing_fills_buffer(v, field, front, units, now);
        assert(typing(text).drop_last() =~= typing(front));
        assert(typing(text).last() == char_key(text.last()));
        assert((v.buffer(field) + front).push(text.last()) =~= v.buffer(field) + text);
    }
}

/// Typing a field's text into its empty buffer and pressing Enter, on any
/// field but the last, leaves the text in the buffer and moves on to the
/// next field.
pub proof fn lemma_field_filled(
    v: AppView,
    field: Field,
    text: Seq<char>,
    units: Seq<ServerView>,
    now: u64,
)
    requires
        v.in_field_entry(),
        field_of(v.info_mode) == Some(field),
        field != Field::Cpu,
        v.buffer(field).len() == 0,
        all_accepted(field, text),
    ensures
        v.after_keys(typing(text).push(Key::Enter), units, now) == (AppView {
            info_mode: mode_for(v.update_id.is_some(), next_field(field)),
            ..v.with_buffer(field, text)
        }),
{
    let keys = typing(text).push(Key::Enter);
    lemma_typing_fills_buffer(v, field, text, units, now);
    assert(keys.drop_last() =~= typing(text));
    assert(keys.last() == Key::Enter);
    assert(v.buffer(field) + text =~= text);
}

/// The key presses that fill in the whole form: each field's text, with
/// Enter after each of the first three.
pub open spec fn filling(name: Seq<char>, port: Seq<char>, ram: Seq<char>, cpu: Seq<char>) -> Seq<
    Key,
> {
    typing(name).push(Key::Enter) + typing(port).push(Key::Enter) + typing(ram).push(Key::Enter)
        + typing(cpu)
}

/// Opening an empty add form with `n`, filling it in field by field and
/// pressing Enter on the last field asks the driver for exactly one insert,
/// with the fields as they were entered, provided that port and model are
/// allowed. The form is then back in view mode with one more line in the
/// log.
pub proof fn lemma_add_flow_inserts(
    v: AppView,
    name: Seq<char>,
    port: Seq<char>,
    ram: Seq<char>,
    cpu: Seq<char>,
    units: Seq<ServerView>,
    now: u64,
)
    requires
        v.active_block == ActiveBlock::Info,
        field_of(v.info_mode).is_none(),
        all_accepted(Field::Port, port),
        all_accepted(Field::Ram, ram),
        port_allowed(entered_port(port)),
        cpu_allowed(cpu),
    ensures
        ({
            let opened = v.step(Key::Char('n'), units, now).0;
            let filled = opened.after_keys(filling(name, port, ram, cpu), units, now);
            let done = filled.step(Key::Enter, units, now);
            &&& filled == AppView {
                info_mode: InfoMode::AddServerCpu,
                new_name: name,
                new_port: port,
                new_ram: ram,
                new_cpu: cpu,
                ..opened
            }
            &&& done.1 == ActionView::Insert { name, port: entered_port(port), ram, cpu }
            &&& done.0.info_mode == InfoMode::View
            &&& done.0.logs.len() == v.logs.len() + 1
        }),
{
    let s0 = v.step(Key::Char('n'), units, now).0;
    assert(s0 == v.creation_asked());
    let k1 = typing(name).push(Key::Enter);
    let k2 = typing(port).push(Key::Enter);
    let k3 = typing(ram).push(Key::Enter);
    let k4 = typing(cpu);
    assert(all_accepted(Field::Name, name));
    assert(all_accepted(Field::Cpu, cpu));
    lemma_field_filled(s0, Field::Name, name, units, now);
    let s1 = AppView { info_mode: InfoMode::AddServerPort, new_name: name, ..s0 };
    assert(s0.after_keys(k1, units, now) == s1);
    lemma_field_filled(s1, Field::Port, port, units, now);
    let s2 = AppView { info_mode: InfoMode::AddServerRam, new_port: port, ..s1 };
    assert(s1.after_keys(k2, units, now) == s2);
    lemma_field_filled(s2, Field::Ram, ram, units, now);
    let s3 = AppView { info_mode: InfoMode::AddServerCpu, new_ram: ram, ..s2 };
    assert(s2.after_keys(k3, units, now) == s3);
    lemma_typing_fills_buffer(s3, Field::Cpu, cpu, units, now);
    assert(s3.buffer(Field::Cpu) + cpu =~= cpu);
    let s4 = AppView { new_cpu: cpu, ..s3 };
    assert(s3.after_keys(k4, units, now) == s4);
    lemma_after_keys_concat(s0, k1, k2, units, now);
    lemma_after_keys_concat(s0, k1 + k2, k3, units, now);
    lemma_after_keys_concat(s0, k1 + k2 + k3, k4, units, now);
    assert(s0.after_keys(filling(name, port, ram, cpu), units, now) == s4);
}

/// The table of the power states: which state may follow which.
pub open spec fn may_become(from: PowerState, to: PowerState) -> bool {
    ||| from == PowerState::Unknown && to == PowerState::Off
    ||| from == PowerState::Off && to == PowerState::Starting
    ||| from == PowerState::Starting && to == PowerState::On
    ||| from == PowerState::On && to == PowerState::Stopping
    ||| from == PowerState::Stopping && to == PowerState::Off
}

/// What a key press asks of the driver is in order. A toggle is for the
/// selected unit and takes it along the table, to its transient state and
/// on to the resolved one. An activation is for a selected unit that was
/// never activated. An update or a delete is for the unit under edit, an
/// insert is asked only where none is, and only `q` quits.
pub proof fn lemma_actions_are_in_order(v: AppView, key: Key, units: Seq<ServerView>, now: u64)
    ensures
        match v.step(key, units, now).1 {
            ActionView::Idle => true,
            ActionView::Quit => key == Key::Char('q') && !v.in_field_entry(),
            ActionView::TogglePower { id, name, turning_on } => {
                &&& key == Key::Enter
                &&& v.active_block == ActiveBlock::Servers
                &&& selected_unit(v, units) matches Some(s) && s.id == id && s.name == name
                    && may_become(s.status, transient_state(turning_on))
                &&& may_become(transient_state(turning_on), resolved_state(turning_on))
            },
            ActionView::Activate { id, name } => {
                &&& key == Key::Char('a')
                &&& v.active_block == ActiveBlock::Servers
                &&& selected_unit(v, units) matches Some(s) && s.id == id && s.name == name
                    && s.status == PowerState::Unknown
                &&& may_become(PowerState::Unknown, PowerState::Off)
            },
            ActionView::Delete { id } => {
                &&& key == Key::Enter
                &&& v.info_mode == InfoMode::DeleteConfirm
                &&& v.update_id == Some(id)
            },
            ActionView::Update { id, name, port, ram, cpu } => {
                &&& key == Key::Enter
                &&& v.update_id == Some(id)
                &&& name == v.new_name && port == entered_port(v.new_port) && ram == v.new_ram
                    && cpu == v.new_cpu
                &&& v.info_mode == InfoMode::ConfirmWarning || v.form_valid()
            },
            ActionView::Insert { name, port, ram, cpu } => {
                &&& key == Key::Enter
                &&& v.update_id.is_none()
                &&& name == v.new_name && port == entered_port(v.new_port) && ram == v.new_ram
                    && cpu == v.new_cpu
                &&& v.info_mode == InfoMode::ConfirmWarning || v.form_valid()
            },
        },
{
}

/// The form opens for update only on a unit that is off, and is then
/// filled in from that unit.
pub proof fn lemma_update_opens_only_when_off(v: AppView, units: Seq<ServerView>, now: u64)
    requires
        !v.in_field_entry(),
    ensures
        ({
            let w = v.step(Key::Char('u'), units, now).0;
            w.info_mode != v.info_mode ==> {
                &&& w.info_mode == InfoMode::UpdateServerName
                &&& v.active_block == ActiveBlock::Info
                &&& selected_unit(v, units) matches Some(s) && s.status == PowerState::Off
                    && w.update_id == Some(s.id) && w.new_name == s.name && w.new_cpu
                    == s.cpu_model && w.new_ram == s.max_ram
            }
        }),
{
}

/// An event that reports a unit as active starts its running time at
/// `now`; any other event ends it. Either way the message is the new last
/// line of the log and no other unit's running time changes.
pub proof fn lemma_event_tracks_activity(v: AppView, ev: EventView, now: u64)
    ensures
        ({
            let w = v.event_applied(ev, now);
            &&& w.logs == v.logs.push(ev.message)
            &&& ev.became_active ==> w.start_times.contains_key(ev.unit_id)
                && w.start_times[ev.unit_id] == now
            &&& !ev.became_active ==> !w.start_times.contains_key(ev.unit_id)
            &&& forall|id: i32|
                id != ev.unit_id ==> (w.start_times.contains_key(id)
                    <==> v.start_times.contains_key(id))
            &&& w.info_mode == v.info_mode && w.active_block == v.active_block && w.selected
                == v.selected
        }),
{
}

/// The startup pass logs one line for each correction it asks for, asks
/// for one correction for each unit left in a transient state, to the state
/// that the transition was heading for, and keeps a running time for every
/// unit that is on or was starting.
pub proof fn lemma_startup_settles(v: AppView, units: Seq<ServerView>, now: u64)
    ensures
        v.settled(units, now).logs.len() == v.logs.len() + corrections(units).len(),
        v.logs.is_prefix_of(v.settled(units, now).logs),
        corrections(units).len() <= units.len(),
        forall|j: int|
            0 <= j < corrections(units).len() ==> {
                let c = #[trigger] corrections(units)[j];
                c.state == PowerState::On || c.state == PowerState::Off
            },
        forall|i: int|
            0 <= i < units.len() && (#[trigger] units[i]).status == PowerState::Starting
                ==> corrections(units).contains(
                Correction { id: units[i].id, state: PowerState::On },
            ),
        forall|i: int|
            0 <= i < units.len() && (#[trigger] units[i]).status == PowerState::Stopping
                ==> corrections(units).contains(
                Correction { id: units[i].id, state: PowerState::Off },
            ),
        forall|i: int|
            0 <= i < units.len() && ((#[trigger] units[i]).status == PowerState::On
                || units[i].status == PowerState::Starting) ==> v.settled(
                units,
                now,
            ).start_times.contains_key(units[i].id),
        v.settled(units, now).info_mode == v.info_mode,
        v.settled(units, now).active_block == v.active_block,
        v.settled(units, now).selected == v.selected,
    decreases units.len(),
{
    if units.len() > 0 {
        let front = units.drop_last();
        let last = units.last();
        lemma_startup_settles(v, front, now);
        let before = v.settled(front, now);
        let after = v.settled(units, now);
        assert(after == before.unit_settled(last, now));
        assert(forall|i: int| 0 <= i < front.len() ==> front[i] == units[i]);
        let cs = corrections(units);
        let cf = corrections(front);
        if last.status == PowerState::Starting || last.status == PowerState::Stopping {
            assert(cs == cf.push(cs.last()));
            assert(cs[cs.len() - 1] == cs.last());
            assert forall|c: Correction| cf.contains(c) implies cs.contains(
                c,
            ) by {
                let j = choose|j: int| 0 <= j < cf.len() && cf[j] == c;
                assert(cs[j] == c);
            }
        }
        assert forall|i: int|
            0 <= i < units.len() && (#[trigger] units[i]).status
                == PowerState::Starting implies cs.contains(
            Correction { id: units[i].id, state: PowerState::On },
        ) by {
            if i < front.len() {
                assert(front[i].status == PowerState::Starting);
            }
        }
        assert forall|i: int|
            0 <= i < units.len() && (#[trigger] units[i]).status
                == PowerState::Stopping implies cs.contains(
            Correction { id: units[i].id, state: PowerState::Off },
        ) by {
            if i < front.len() {
                assert(front[i].status == PowerState::Stopping);
            }
        }
        assert forall|i: int|
            0 <= i < units.len() && ((#[trigger] units[i]).status == PowerState::On
                || units[i].status == PowerState::Starting) implies after.start_times.contains_key(
            units[i].id,
        ) by {
            if i < front.len() {
                assert(front[i].status == units[i].status);
                assert(before.start_times.contains_key(front[i].id));
            }
        }
        assert(v.logs.is_prefix_of(after.logs)) by {
            assert(before.logs.is_prefix_of(after.logs)) by {
                assert(before.logs.push(after.logs.last()).subrange(0, before.logs.len() as int)
                    =~= before.logs);
            }
            assert(after.logs.subrange(0, v.logs.len() as int) =~= v.logs);
        }
    } else {
        assert(v.logs.is_prefix_of(v.logs));
    }
}

} // verus!
