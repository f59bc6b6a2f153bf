//! The view state of the dashboard and the types that its transitions speak
//! of: focus, mode, form fields, keys and the actions handed to the driver.

use vstd::prelude::*;
use std::collections::HashMap;
use crate::clock::{log_line, make_log_line};

verus! {

broadcast use vstd::std_specs::hash::group_hash_axioms;

/// The panel that has the focus.
#[derive(Clone, Copy, Debug, PartialEq, Eq, Structural)]
pub enum ActiveBlock {
    Servers,
    Info,
}

/// What the info panel is doing.
#[derive(Clone, Copy, Debug, PartialEq, Eq, Structural)]
pub enum InfoMode {
    View,
    AddServerName,
    AddServerPort,
    AddServerRam,
    AddServerCpu,
    UpdateServerName,
    UpdateServerPort,
    UpdateServerRam,
    UpdateServerCpu,
    ConfirmWarning,
    DeleteConfirm,
}

/// The four fields of the form, in their fixed order.
#[derive(Clone, Copy, Debug, PartialEq, Eq, Structural)]
pub enum Field {
    Name,
    Port,
    Ram,
    Cpu,
}

/// A key press, as the input source decodes it.
#[derive(Clone, Copy, Debug, PartialEq, Eq, Structural)]
pub enum Key {
    Char(char),
    Backspace,
    Tab,
    Up,
    Down,
    Enter,
    Esc,
    Other,
}

/// What the driver has to do after a key was handled.
#[derive(Clone, Debug)]
pub enum Action {
    Idle,
    Quit,
    Activate { id: i32, name: String },
    TogglePower { id: i32, name: String, turning_on: bool },
    Delete { id: i32 },
    Insert { name: String, port: i32, ram: String, cpu: String },
    Update { id: i32, name: String, port: i32, ram: String, cpu: String },
}

pub enum ActionView {
    Idle,
    Quit,
    Activate { id: i32, name: Seq<char> },
    TogglePower { id: i32, name: Seq<char>, turning_on: bool },
    Delete { id: i32 },
    Insert { name: Seq<char>, port: i32, ram: Seq<char>, cpu: Seq<char> },
    Update { id: i32, name: Seq<char>, port: i32, ram: Seq<char>, cpu: Seq<char> },
}

impl View for Action {
    type V = ActionView;

    open spec fn view(&self) -> ActionView {
        match *self {
            Action::Idle => ActionView::Idle,
            Action::Quit => ActionView::Quit,
            Action::Activate { id, name } => ActionView::Activate { id, name: name@ },
            Action::TogglePower { id, name, turning_on } => ActionView::TogglePower {
                id,
                name: name@,
                turning_on,
            },
            Action::Delete { id } => ActionView::Delete { id },
            Action::Insert { name, port, ram, cpu } => ActionView::Insert {
                name: name@,
                port,
                ram: ram@,
                cpu: cpu@,
            },
            Action::Update { id, name, port, ram, cpu } => ActionView::Update {
                id,
                name: name@,
                port,
                ram: ram@,
                cpu: cpu@,
            },
        }
    }
}

/// The field that a mode edits, if it is a field-entry mode.
pub open spec fn field_of(mode: InfoMode) -> Option<Field> {
    match mode {
        InfoMode::AddServerName | InfoMode::UpdateServerName => Some(Field::Name),
        InfoMode::AddServerPort | InfoMode::UpdateServerPort => Some(Field::Port),
        InfoMode::AddServerRam | InfoMode::UpdateServerRam => Some(Field::Ram),
        InfoMode::AddServerCpu | InfoMode::UpdateServerCpu => Some(Field::Cpu),
        _ => None,
    }
}

/// Whether a mode belongs to the update flow.
pub open spec fn is_update_mode(mode: InfoMode) -> bool {
    mode == InfoMode::UpdateServerName || mode == InfoMode::UpdateServerPort || mode
        == InfoMode::UpdateServerRam || mode == InfoMode::UpdateServerCpu
}

/// The mode that edits `field` in the add or in the update flow.
pub open spec fn mode_for(update: bool, field: Field) -> InfoMode {
    match field {
        Field::Name => if update { InfoMode::UpdateServerName } else { InfoMode::AddServerName },
        Field::Port => if update { InfoMode::UpdateServerPort } else { InfoMode::AddServerPort },
        Field::Ram => if update { InfoMode::UpdateServerRam } else { InfoMode::AddServerRam },
        Field::Cpu => if update { InfoMode::UpdateServerCpu } else { InfoMode::AddServerCpu },
    }
}

/// The field after `field`; the last field has none after it and stays.
pub open spec fn next_field(field: Field) -> Field {
    match field {
        Field::Name => Field::Port,
        Field::Port => Field::Ram,
        Field::Ram => Field::Cpu,
        Field::Cpu => Field::Cpu,
    }
}

/// The field before `field`; the first field has none before it and stays.
pub open spec fn prev_field(field: Field) -> Field {
    match field {
        Field::Name => Field::Name,
        Field::Port => Field::Name,
        Field::Ram => Field::Port,
        Field::Cpu => Field::Ram,
    }
}

impl Field {
    pub fn next(self) -> (r: Field)
        ensures
            r == next_field(self),
    {
        match self {
            Field::Name => Field::Port,
            Field::Port => Field::Ram,
            Field::Ram => Field::Cpu,
            Field::Cpu => Field::Cpu,
        }
    }

    pub fn prev(self) -> (r: Field)
        ensures
            r == prev_field(self),
    {
        match self {
            Field::Name => Field::Name,
            Field::Port => Field::Name,
            Field::Ram => Field::Port,
            Field::Cpu => Field::Ram,
        }
    }
}

impl InfoMode {
    pub fn field(self) -> (r: Option<Field>)
        ensures
            r == field_of(self),
    {
        match self {
            InfoMode::AddServerName | InfoMode::UpdateServerName => Some(Field::Name),
            InfoMode::AddServerPort | InfoMode::UpdateServerPort => Some(Field::Port),
            InfoMode::AddServerRam | InfoMode::UpdateServerRam => Some(Field::Ram),
            InfoMode::AddServerCpu | InfoMode::UpdateServerCpu => Some(Field::Cpu),
            _ => None,
        }
    }

    pub fn is_update(self) -> (r: bool)
        ensures
            r == is_update_mode(self),
    {
        match self {
            InfoMode::UpdateServerName
            | InfoMode::UpdateServerPort
            | InfoMode::UpdateServerRam
            | InfoMode::UpdateServerCpu => true,
            _ => false,
        }
    }

    pub fn entering(update: bool, field: Field) -> (r: InfoMode)
        ensures
            r == mode_for(update, field),
    {
        match field {
            Field::Name => if update {
                InfoMode::UpdateServerName
            } else {
                InfoMode::AddServerName
            },
            Field::Port => if update {
                InfoMode::UpdateServerPort
            } else {
                InfoMode::AddServerPort
            },
            Field::Ram => if update {
                InfoMode::UpdateServerRam
            } else {
                InfoMode::AddServerRam
            },
            Field::Cpu => if update {
                InfoMode::UpdateServerCpu
            } else {
                InfoMode::AddServerCpu
            },
        }
    }
}

/// Everything the dashboard keeps between frames. `start_times` maps the id
/// of each running unit to the second at which it was seen to be running;
/// `logs` is oldest first.
pub struct AppState {
    pub logs: Vec<String>,
    pub start_times: HashMap<i32, u64>,
    pub active_block: ActiveBlock,
    pub info_mode: InfoMode,
    pub new_name: String,
    pub new_port: String,
    pub new_ram: String,
    pub new_cpu: String,
    pub update_id: Option<i32>,
    pub selected: Option<usize>,
}

pub struct AppView {
    pub logs: Seq<Seq<char>>,
    pub start_times: Map<i32, u64>,
    pub active_block: ActiveBlock,
    pub info_mode: InfoMode,
    pub new_name: Seq<char>,
    pub new_port: Seq<char>,
    pub new_ram: Seq<char>,
    pub new_cpu: Seq<char>,
    pub update_id: Option<i32>,
    pub selected: Option<usize>,
}

/// The lines of a log, in order.
pub open spec fn lines_view(logs: Seq<String>) -> Seq<Seq<char>> {
    Seq::new(logs.len(), |i: int| logs[i]@)
}

impl View for AppState {
    type V = AppView;

    open spec fn view(&self) -> AppView {
        AppView {
            logs: lines_view(self.logs@),
            start_times: self.start_times@,
            active_block: self.active_block,
            info_mode: self.info_mode,
            new_name: self.new_name@,
            new_port: self.new_port@,
            new_ram: self.new_ram@,
            new_cpu: self.new_cpu@,
            update_id: self.update_id,
            selected: self.selected,
        }
    }
}

impl AppView {
    /// The state with one more line at the end of the log.
    pub open spec fn with_log(self, line: Seq<char>) -> AppView {
        AppView { logs: self.logs.push(line), ..self }
    }

    /// The state with the stamped message at the end of the log.
    pub open spec fn logged(self, now: u64, msg: Seq<char>) -> AppView {
        self.with_log(log_line(now, msg))
    }

    /// Whether keys typed now go into a form field.
    pub open spec fn in_field_entry(self) -> bool {
        self.active_block == ActiveBlock::Info && field_of(self.info_mode).is_some()
    }

    /// The state before the first key: view mode, focus on the list, the
    /// first row selected, an empty form, and the greeting in the log.
    pub open spec fn initial(now: u64) -> AppView {
        AppView {
            logs: seq![log_line(now, "Monitoring is running"@)],
            start_times: Map::empty(),
            active_block: ActiveBlock::Servers,
            info_mode: InfoMode::View,
            new_name: Seq::empty(),
            new_port: Seq::empty(),
            new_ram: Seq::empty(),
            new_cpu: Seq::empty(),
            update_id: None,
            selected: Some(0usize),
        }
    }
}

impl AppState {
    pub fn new(now: u64) -> (r: AppState)
        ensures
            r@ == AppView::initial(now),
    {
        let mut logs: Vec<String> = Vec::new();
        logs.push(make_log_line(now, "Monitoring is running"));
        let r = AppState {
            logs,
            start_times: HashMap::new(),
            active_block: ActiveBlock::Servers,
            info_mode: InfoMode::View,
            new_name: String::new(),
            new_port: String::new(),
            new_ram: String::new(),
            new_cpu: String::new(),
            update_id: None,
            selected: Some(0),
        };
        assert(r@.logs =~= seq![log_line(now, "Monitoring is running"@)]);
        r
    }

    /// Appends the stamped message to the log.
    pub fn log(&mut self, now: u64, msg: &str)
        ensures
            final(self)@ == old(self)@.logged(now, msg@),
    {
        let line = make_log_line(now, msg);
        self.logs.push(line);
        assert(final(self)@.logs =~= old(self)@.logs.push(log_line(now, msg@)));
    }
}

} // verus!
