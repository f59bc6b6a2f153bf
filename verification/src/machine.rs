//! The transition function of the dashboard: one key press, the units on
//! display and the time go in; the next view state and an action for the
//! driver come out.

use vstd::prelude::*;
use vstd::string::*;
use vstd::arithmetic::div_mod::{lemma_add_mod_noop, lemma_small_mod};
use crate::models::{units_view, PowerState, Server, ServerView};
use crate::state::{
    field_of, mode_for, next_field, Action, ActionView, ActiveBlock, AppState, AppView, Field,
    InfoMode, Key,
};
use crate::text::{int_text, int_to_text, push_int};

verus! {

/// The unit under the selection, if the selection points into the list.
pub open spec fn selected_unit(v: AppView, units: Seq<ServerView>) -> Option<ServerView> {
    match v.selected {
        Some(i) => if (i as int) < units.len() {
            Some(units[i as int])
        } else {
            None
        },
        None => None,
    }
}

pub open spec fn already_active_msg(name: Seq<char>) -> Seq<char> {
    "ERROR: Server "@ + name + " is already activated"@
}

pub open spec fn transition_msg(name: Seq<char>, turning_on: bool) -> Seq<char> {
    if turning_on {
        name + ": Starting"@
    } else {
        name + ": Stopping"@
    }
}

pub open spec fn removed_msg(name: Seq<char>) -> Seq<char> {
    "SERVER REMOVED: "@ + name
}

pub open spec fn not_found_msg(id: i32) -> Seq<char> {
    "ERROR: Server "@ + int_text(id as int) + " was not found"@
}

impl AppView {
    /// Up or Down over the list: the selection moves by one and wraps at
    /// both ends; with nothing selected it goes to the first row; an empty
    /// list leaves it alone.
    pub open spec fn selection_moved(self, len: nat, down: bool) -> AppView {
        if len == 0 {
            self
        } else {
            let next: int = match self.selected {
                Some(i) => if down {
                    (i + 1) % (len as int)
                } else if i == 0 {
                    len - 1
                } else {
                    i - 1
                },
                None => 0,
            };
            AppView { selected: Some(next as usize), ..self }
        }
    }

    /// Up or Down: inside the form it moves between the fields, anywhere
    /// else it moves the selection.
    pub open spec fn arrow(self, len: nat, down: bool) -> AppView {
        if self.in_field_entry() {
            self.field_moved(down)
        } else {
            self.selection_moved(len, down)
        }
    }

    /// Tab: the focus changes panel, and the list gets it back in view mode.
    pub open spec fn tabbed(self) -> AppView {
        match self.active_block {
            ActiveBlock::Servers => AppView { active_block: ActiveBlock::Info, ..self },
            ActiveBlock::Info => AppView {
                active_block: ActiveBlock::Servers,
                info_mode: InfoMode::View,
                ..self
            },
        }
    }

    /// Escape: from the warning back to the last field, from a field back
    /// to view mode with the focus on the list, otherwise to view mode.
    pub open spec fn escaped(self) -> AppView {
        if self.info_mode == InfoMode::ConfirmWarning {
            AppView { info_mode: mode_for(self.update_id.is_some(), Field::Cpu), ..self }
        } else if field_of(self.info_mode).is_some() {
            AppView { info_mode: InfoMode::View, active_block: ActiveBlock::Servers, ..self }
        } else {
            AppView { info_mode: InfoMode::View, ..self }
        }
    }

    /// `a`: with the focus on the list, a unit that was never activated is
    /// handed to the driver for activation; any other is refused in the log.
    pub open spec fn activation_asked(self, units: Seq<ServerView>, now: u64) -> (
        AppView,
        ActionView,
    ) {
        match selected_unit(self, units) {
            Some(s) => if self.active_block != ActiveBlock::Servers {
                (self, ActionView::Idle)
            } else if s.status == PowerState::Unknown {
                (self, ActionView::Activate { id: s.id, name: s.name })
            } else {
                (self.logged(now, already_active_msg(s.name)), ActionView::Idle)
            },
            None => (self, ActionView::Idle),
        }
    }

    /// `r`: with the focus on the list, the selected unit is put up for
    /// deletion and the info panel asks for confirmation.
    pub open spec fn removal_asked(self, units: Seq<ServerView>) -> AppView {
        match selected_unit(self, units) {
            Some(s) => if self.active_block == ActiveBlock::Servers {
                AppView {
                    update_id: Some(s.id),
                    new_name: s.name,
                    info_mode: InfoMode::DeleteConfirm,
                    active_block: ActiveBlock::Info,
                    ..self
                }
            } else {
                self
            },
            None => self,
        }
    }

    /// `n`: with the focus on the info panel, an empty form opens on its
    /// first field, with no unit under edit.
    pub open spec fn creation_asked(self) -> AppView {
        if self.active_block == ActiveBlock::Info {
            AppView {
                info_mode: InfoMode::AddServerName,
                update_id: None,
                new_name: Seq::empty(),
                new_port: Seq::empty(),
                new_ram: Seq::empty(),
                new_cpu: Seq::empty(),
                ..self
            }
        } else {
            self
        }
    }

    /// `u`: with the focus on the info panel, a unit that is off opens in
    /// the form, filled in; any other is refused in the log.
    pub open spec fn update_asked(self, units: Seq<ServerView>, now: u64) -> AppView {
        match selected_unit(self, units) {
            Some(s) => if self.active_block != ActiveBlock::Info {
                self
            } else if s.status == PowerState::Off {
                AppView {
                    info_mode: InfoMode::UpdateServerName,
                    update_id: Some(s.id),
                    new_name: s.name,
                    new_port: int_text(s.port as int),
                    new_ram: s.max_ram,
                    new_cpu: s.cpu_model,
                    ..self
                }
            } else {
                self.logged(now, "ERROR: Server must be OFF to be updated"@)
            },
            None => self,
        }
    }

    /// Enter with the focus on the list: a unit that is on or off starts
    /// its transition, one that was never activated is refused in the log,
    /// one in transition is left alone.
    pub open spec fn toggle_asked(self, units: Seq<ServerView>, now: u64) -> (
        AppView,
        ActionView,
    ) {
        match selected_unit(self, units) {
            Some(s) => match s.status {
                PowerState::Unknown => (
                    self.logged(now, "ERROR: Server is not activated"@),
                    ActionView::Idle,
                ),
                PowerState::On => (
                    self.logged(now, transition_msg(s.name, false)),
                    ActionView::TogglePower { id: s.id, name: s.name, turning_on: false },
                ),
                PowerState::Off => (
                    self.logged(now, transition_msg(s.name, true)),
                    ActionView::TogglePower { id: s.id, name: s.name, turning_on: true },
                ),
                _ => (self, ActionView::Idle),
            },
            None => (self, ActionView::Idle),
        }
    }

    /// Enter with the focus on the info panel.
    pub open spec fn form_entered(self, now: u64) -> (AppView, ActionView) {
        match self.info_mode {
            InfoMode::View => (self, ActionView::Idle),
            InfoMode::DeleteConfirm => match self.update_id {
                Some(id) => (
                    AppView {
                        info_mode: InfoMode::View,
                        active_block: ActiveBlock::Servers,
                        ..self.logged(now, removed_msg(self.new_name))
                    },
                    ActionView::Delete { id },
                ),
                None => (self, ActionView::Idle),
            },
            InfoMode::ConfirmWarning => self.committed(now),
            InfoMode::AddServerCpu | InfoMode::UpdateServerCpu => if self.form_valid() {
                self.committed(now)
            } else {
                (AppView { info_mode: InfoMode::ConfirmWarning, ..self }, ActionView::Idle)
            },
            mode => (
                AppView {
                    info_mode: mode_for(self.update_id.is_some(), next_field(field_of(mode).unwrap())),
                    ..self
                },
                ActionView::Idle,
            ),
        }
    }

    pub open spec fn entered(self, units: Seq<ServerView>, now: u64) -> (AppView, ActionView) {
        match self.active_block {
            ActiveBlock::Info => self.form_entered(now),
            ActiveBlock::Servers => self.toggle_asked(units, now),
        }
    }

    /// A character key outside the form.
    pub open spec fn command(self, c: char, units: Seq<ServerView>, now: u64) -> (
        AppView,
        ActionView,
    ) {
        if c == 'q' {
            (self, ActionView::Quit)
        } else if c == 'a' {
            self.activation_asked(units, now)
        } else if c == 'r' {
            (self.removal_asked(units), ActionView::Idle)
        } else if c == 'n' {
            (self.creation_asked(), ActionView::Idle)
        } else if c == 'u' {
            (self.update_asked(units, now), ActionView::Idle)
        } else {
            (self, ActionView::Idle)
        }
    }

    /// The whole transition: what one key press makes of the state, and
    /// what it asks of the driver.
    pub open spec fn step(self, key: Key, units: Seq<ServerView>, now: u64) -> (
        AppView,
        ActionView,
    ) {
        match key {
            Key::Char(c) => if self.in_field_entry() {
                (self.typed(c), ActionView::Idle)
            } else {
                self.command(c, units, now)
            },
            Key::Backspace => if self.in_field_entry() {
                (self.erased(), ActionView::Idle)
            } else {
                (self, ActionView::Idle)
            },
            Key::Tab => (self.tabbed(), ActionView::Idle),
            Key::Up => (self.arrow(units.len(), false), ActionView::Idle),
            Key::Down => (self.arrow(units.len(), true), ActionView::Idle),
            Key::Enter => self.entered(units, now),
            Key::Esc => (self.escaped(), ActionView::Idle),
            Key::Other => (self, ActionView::Idle),
        }
    }
}

/// The monitor without editing: only `q` does anything, and it quits.
pub open spec fn read_only_step(key: Key) -> ActionView {
    if key == Key::Char('q') {
        ActionView::Quit
    } else {
        ActionView::Idle
    }
}

/// Handles a key press where the dashboard only shows and never edits.
pub fn handle_key_read_only(key: Key) -> (action: Action)
    ensures
        action@ == read_only_step(key),
{
    match key {
        Key::Char(c) => if c == 'q' {
            Action::Quit
        } else {
            Action::Idle
        },
        _ => Action::Idle,
    }
}

impl AppState {
    /// The unit under the selection.
    pub fn selected_server<'a>(&self, units: &'a Vec<Server>) -> (r: Option<&'a Server>)
        ensures
            match r {
                Some(s) => selected_unit(self@, units_view(units@)) == Some(s@),
                None => selected_unit(self@, units_view(units@)).is_none(),
            },
    {
        match self.selected {
            Some(i) => if i < units.len() {
                Some(&units[i])
            } else {
                None
            },
            None => None,
        }
    }

    /// Records that the store knew no unit `id` when it was asked to
    /// change or delete it.
    pub fn log_not_found(&mut self, id: i32, now: u64)
        ensures
            final(self)@ == old(self)@.logged(now, not_found_msg(id)),
    {
        let mut msg = String::from_str("ERROR: Server ");
        push_int(&mut msg, id as i64);
        msg.append(" was not found");
        self.log(now, msg.as_str());
    }

    pub fn in_field_entry(&self) -> (r: bool)
        ensures
            r == self@.in_field_entry(),
    {
        self.active_block == ActiveBlock::Info && self.info_mode.field().is_some()
    }

    pub fn move_selection(&mut self, len: usize, down: bool)
        ensures
            final(self)@ == old(self)@.selection_moved(len as nat, down),
    {
        if len > 0 {
            let next: usize = match self.selected {
                Some(i) => if down {
                    proof {
                        lemma_add_mod_noop(i as int, 1, len as int);
                        if len > 1 {
                            lemma_small_mod(1, len as nat);
                        }
                    }
                    (i % len + 1) % len
                } else if i == 0 {
                    len - 1
                } else {
                    i - 1
                },
                None => 0,
            };
            self.selected = Some(next);
        }
    }

    pub fn press_arrow(&mut self, len: usize, down: bool)
        ensures
            final(self)@ == old(self)@.arrow(len as nat, down),
    {
        if self.in_field_entry() {
            self.move_field(down);
        } else {
            self.move_selection(len, down);
        }
    }

    pub fn press_tab(&mut self)
        ensures
            final(self)@ == old(self)@.tabbed(),
    {
        match self.active_block {
            ActiveBlock::Servers => {
                self.active_block = ActiveBlock::Info;
            },
            ActiveBlock::Info => {
                self.active_block = ActiveBlock::Servers;
                self.info_mode = InfoMode::View;
            },
        }
    }

    pub fn press_escape(&mut self)
        ensures
            final(self)@ == old(self)@.escaped(),
    {
        if self.info_mode == InfoMode::ConfirmWarning {
            self.info_mode = InfoMode::entering(self.update_id.is_some(), Field::Cpu);
        } else if self.info_mode.field().is_some() {
            self.info_mode = InfoMode::View;
            self.active_block = ActiveBlock::Servers;
        } else {
            self.info_mode = InfoMode::View;
        }
    }

    pub fn press_activate(&mut self, units: &Vec<Server>, now: u64) -> (action: Action)
        ensures
            (final(self)@, action@) == old(self)@.activation_asked(units_view(units@), now),
    {
        match self.selected_server(units) {
            Some(s) => if self.active_block != ActiveBlock::Servers {
                Action::Idle
            } else if s.status == PowerState::Unknown {
                Action::Activate { id: s.id, name: s.name.clone() }
            } else {
                let mut msg = String::from_str("ERROR: Server ");
                msg.append(s.name.as_str());
                msg.append(" is already activated");
                self.log(now, msg.as_str());
                Action::Idle
            },
            None => Action::Idle,
        }
    }

    pub fn press_remove(&mut self, units: &Vec<Server>)
        ensures
            final(self)@ == old(self)@.removal_asked(units_view(units@)),
    {
        match self.selected_server(units) {
            Some(s) => if self.active_block == ActiveBlock::Servers {
                self.update_id = Some(s.id);
                self.new_name = s.name.clone();
                self.info_mode = InfoMode::DeleteConfirm;
                self.active_block = ActiveBlock::Info;
            },
            None => {},
        }
    }

    pub fn press_new(&mut self)
        ensures
            final(self)@ == old(self)@.creation_asked(),
    {
        if self.active_block == ActiveBlock::Info {
            self.info_mode = InfoMode::AddServerName;
            self.update_id = None;
            self.new_name.clear();
            self.new_port.clear();
            self.new_ram.clear();
            self.new_cpu.clear();
        }
    }

    pub fn press_update(&mut self, units: &Vec<Server>, now: u64)
        ensures
            final(self)@ == old(self)@.update_asked(units_view(units@), now),
    {
        if self.active_block != ActiveBlock::Info {
            return;
        }
        match self.selected_server(units) {
            Some(s) => if s.status == PowerState::Off {
                self.info_mode = InfoMode::UpdateServerName;
                self.update_id = Some(s.id);
                self.new_name = s.name.clone();
                self.new_port = int_to_text(s.port as i64);
                self.new_ram = s.max_ram.clone();
                self.new_cpu = s.cpu_model.clone();
            } else {
                self.log(now, "ERROR: Server must be OFF to be updated");
            },
            None => {},
        }
    }

    pub fn press_toggle(&mut self, units: &Vec<Server>, now: u64) -> (action: Action)
        ensures
            (final(self)@, action@) == old(self)@.toggle_asked(units_view(units@), now),
    {
        match self.selected_server(units) {
            Some(s) => match s.status {
                PowerState::Unknown => {
                    self.log(now, "ERROR: Server is not activated");
                    Action::Idle
                },
                PowerState::On => {
                    let mut msg = s.name.clone();
                    msg.append(": Stopping");
                    self.log(now, msg.as_str());
                    Action::TogglePower { id: s.id, name: s.name.clone(), turning_on: false }
                },
                PowerState::Off => {
                    let mut msg = s.name.clone();
                    msg.append(": Starting");
                    self.log(now, msg.as_str());
                    Action::TogglePower { id: s.id, name: s.name.clone(), turning_on: true }
                },
                _ => Action::Idle,
            },
            None => Action::Idle,
        }
    }

    pub fn press_form_enter(&mut self, now: u64) -> (action: Action)
        ensures
            (final(self)@, action@) == old(self)@.form_entered(now),
    {
        match self.info_mode {
            InfoMode::View => Action::Idle,
            InfoMode::DeleteConfirm => match self.update_id {
                Some(id) => {
                    let mut msg = String::from_str("SERVER REMOVED: ");
                    msg.append(self.new_name.as_str());
                    self.log(now, msg.as_str());
                    self.info_mode = InfoMode::View;
                    self.active_block = ActiveBlock::Servers;
                    Action::Delete { id }
                },
                None => Action::Idle,
            },
            InfoMode::ConfirmWarning => self.commit(now),
            InfoMode::AddServerCpu | InfoMode::UpdateServerCpu => if self.form_is_valid() {
                self.commit(now)
            } else {
                self.info_mode = InfoMode::ConfirmWarning;
                Action::Idle
            },
            mode => {
                let f = mode.field().unwrap();
                self.info_mode = InfoMode::entering(self.update_id.is_some(), f.next());
                Action::Idle
            },
        }
    }

    pub fn press_enter(&mut self, units: &Vec<Server>, now: u64) -> (action: Action)
        ensures
            (final(self)@, action@) == old(self)@.entered(units_view(units@), now),
    {
        match self.active_block {
            ActiveBlock::Info => self.press_form_enter(now),
            ActiveBlock::Servers => self.press_toggle(units, now),
        }
    }

    pub fn press_command(&mut self, c: char, units: &Vec<Server>, now: u64) -> (action: Action)
        ensures
            (final(self)@, action@) == old(self)@.command(c, units_view(units@), now),
    {
        if c == 'q' {
            Action::Quit
        } else if c == 'a' {
            self.press_activate(units, now)
        } else if c == 'r' {
            self.press_remove(units);
            Action::Idle
        } else if c == 'n' {
            self.press_new();
            Action::Idle
        } else if c == 'u' {
            self.press_update(units, now);
            Action::Idle
        } else {
            Action::Idle
        }
    }

    /// Handles one key press against the units on display at second `now`.
    pub fn handle_key(&mut self, key: Key, units: &Vec<Server>, now: u64) -> (action: Action)
        ensures
            (final(self)@, action@) == old(self)@.step(key, units_view(units@), now),
    {
        match key {
            Key::Char(c) => if self.in_field_entry() {
                self.type_char(c);
                Action::Idle
            } else {
                self.press_command(c, units, now)
            },
            Key::Backspace => {
                if self.in_field_entry() {
                    self.backspace();
                }
                Action::Idle
            },
            Key::Tab => {
                self.press_tab();
                Action::Idle
            },
            Key::Up => {
                self.press_arrow(units.len(), false);
                Action::Idle
            },
            Key::Down => {
                self.press_arrow(units.len(), true);
                Action::Idle
            },
            Key::Enter => self.press_enter(units, now),
            Key::Esc => {
                self.press_escape();
                Action::Idle
            },
            Key::Other => Action::Idle,
        }
    }
}

} // verus!
