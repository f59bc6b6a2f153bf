//! The form editor: four text buffers, the filter on what may be typed into
//! each, movement between the fields, validation and the commit.

use vstd::prelude::*;
use vstd::string::*;
use crate::state::{
    field_of, is_update_mode, mode_for, next_field, prev_field, Action, ActionView, AppState,
    AppView, Field, InfoMode,
};
use crate::text::{
    eq_ignore_case, fold_case, int_text, is_digit, is_digit_char, parse_i32, parse_i32_spec,
    push_int,
};

verus! {

/// Whether `c` may be typed into `field`: digits only for the port, digits
/// and the decimal point for the capacity, anything for the other two.
pub open spec fn accepts(field: Field, c: char) -> bool {
    match field {
        Field::Name => true,
        Field::Port => is_digit(c),
        Field::Ram => is_digit(c) || c == '.',
        Field::Cpu => true,
    }
}

/// The port that a buffer stands for: its decimal value, or 0 where it has
/// none.
pub open spec fn entered_port(text: Seq<char>) -> i32 {
    match parse_i32_spec(text) {
        Some(p) => p,
        None => 0,
    }
}

pub open spec fn port_allowed(port: i32) -> bool {
    port == 80 || port == 443 || port == 3000 || port == 8080 || port == 27017
}

/// Whether `cpu` is one of the allowed models, letter case aside.
pub open spec fn cpu_allowed(cpu: Seq<char>) -> bool {
    let c = fold_case(cpu);
    c == fold_case("intel-i5"@) || c == fold_case("intel-i7"@) || c == fold_case("intel-i9"@) || c
        == fold_case("ryzen-5"@) || c == fold_case("ryzen-7"@) || c == fold_case("ryzen-9"@)
}

/// The description of the form's contents that goes into the log.
pub open spec fn detail_text(
    name: Seq<char>,
    port: i32,
    ram: Seq<char>,
    cpu: Seq<char>,
) -> Seq<char> {
    name + " (Port: "@ + int_text(port as int) + ", RAM: "@ + ram + "G, CPU: "@ + cpu + ")"@
}

impl AppView {
    pub open spec fn buffer(self, field: Field) -> Seq<char> {
        match field {
            Field::Name => self.new_name,
            Field::Port => self.new_port,
            Field::Ram => self.new_ram,
            Field::Cpu => self.new_cpu,
        }
    }

    pub open spec fn with_buffer(self, field: Field, text: Seq<char>) -> AppView {
        match field {
            Field::Name => AppView { new_name: text, ..self },
            Field::Port => AppView { new_port: text, ..self },
            Field::Ram => AppView { new_ram: text, ..self },
            Field::Cpu => AppView { new_cpu: text, ..self },
        }
    }

    /// A character arrives: it is appended to the active buffer if the
    /// field accepts it, and dropped otherwise.
    pub open spec fn typed(self, c: char) -> AppView {
        match field_of(self.info_mode) {
            Some(f) => if accepts(f, c) {
                self.with_buffer(f, self.buffer(f).push(c))
            } else {
                self
            },
            None => self,
        }
    }

    /// Backspace: the active buffer loses its last character, if it has one.
    pub open spec fn erased(self) -> AppView {
        match field_of(self.info_mode) {
            Some(f) => if self.buffer(f).len() > 0 {
                self.with_buffer(f, self.buffer(f).drop_last())
            } else {
                self
            },
            None => self,
        }
    }

    /// Down or Up inside the form: the next or the previous field of the
    /// same flow, staying put at either end.
    pub open spec fn field_moved(self, down: bool) -> AppView {
        match field_of(self.info_mode) {
            Some(f) => AppView {
                info_mode: mode_for(
                    is_update_mode(self.info_mode),
                    if down {
                        next_field(f)
                    } else {
                        prev_field(f)
                    },
                ),
                ..self
            },
            None => self,
        }
    }

    /// Whether the form passes validation: the port is in the allowed set
    /// and so is the model.
    pub open spec fn form_valid(self) -> bool {
        port_allowed(entered_port(self.new_port)) && cpu_allowed(self.new_cpu)
    }

    pub open spec fn form_detail(self) -> Seq<char> {
        detail_text(self.new_name, entered_port(self.new_port), self.new_ram, self.new_cpu)
    }

    /// The form is committed as it stands: an update of the unit under
    /// edit, or an insert where none is, with a log line, back in view mode.
    pub open spec fn committed(self, now: u64) -> (AppView, ActionView) {
        match self.update_id {
            Some(id) => (
                AppView {
                    info_mode: InfoMode::View,
                    ..self.logged(now, "SERVER UPDATED: "@ + self.form_detail())
                },
                ActionView::Update {
                    id,
                    name: self.new_name,
                    port: entered_port(self.new_port),
                    ram: self.new_ram,
                    cpu: self.new_cpu,
                },
            ),
            None => (
                AppView {
                    info_mode: InfoMode::View,
                    ..self.logged(now, "SERVER CREATED: "@ + self.form_detail())
                },
                ActionView::Insert {
                    name: self.new_name,
                    port: entered_port(self.new_port),
                    ram: self.new_ram,
                    cpu: self.new_cpu,
                },
            ),
        }
    }
}

pub fn is_allowed_port(port: i32) -> (r: bool)
    ensures
        r == port_allowed(port),
{
    port == 80 || port == 443 || port == 3000 || port == 8080 || port == 27017
}

pub fn is_allowed_cpu(cpu: &str) -> (r: bool)
    ensures
        r == cpu_allowed(cpu@),
{
    eq_ignore_case(cpu, "intel-i5") || eq_ignore_case(cpu, "intel-i7") || eq_ignore_case(
        cpu,
        "intel-i9",
    ) || eq_ignore_case(cpu, "ryzen-5") || eq_ignore_case(cpu, "ryzen-7") || eq_ignore_case(
        cpu,
        "ryzen-9",
    )
}

/// The port that `text` stands for, 0 where it is no 32-bit decimal number.
pub fn port_from_text(text: &str) -> (r: i32)
    ensures
        r == entered_port(text@),
{
    match parse_i32(text) {
        Some(p) => p,
        None => 0,
    }
}

impl AppState {
    pub fn type_char(&mut self, c: char)
        ensures
            final(self)@ == old(self)@.typed(c),
    {
        match self.info_mode.field() {
            Some(Field::Name) => {
                self.new_name.push(c);
            },
            Some(Field::Port) => {
                if is_digit_char(c) {
                    self.new_port.push(c);
                }
            },
            Some(Field::Ram) => {
                if is_digit_char(c) || c == '.' {
                    self.new_ram.push(c);
                }
            },
            Some(Field::Cpu) => {
                self.new_cpu.push(c);
            },
            None => {},
        }
    }

    pub fn backspace(&mut self)
        ensures
            final(self)@ == old(self)@.erased(),
    {
        match self.info_mode.field() {
            Some(Field::Name) => {
                self.new_name.pop();
            },
            Some(Field::Port) => {
                self.new_port.pop();
            },
            Some(Field::Ram) => {
                self.new_ram.pop();
            },
            Some(Field::Cpu) => {
                self.new_cpu.pop();
            },
            None => {},
        }
    }

    pub fn move_field(&mut self, down: bool)
        ensures
            final(self)@ == old(self)@.field_moved(down),
    {
        match self.info_mode.field() {
            Some(f) => {
                let target = if down {
                    f.next()
                } else {
                    f.prev()
                };
                self.info_mode = InfoMode::entering(self.info_mode.is_update(), target);
            },
            None => {},
        }
    }

    pub fn form_is_valid(&self) -> (r: bool)
        ensures
            r == self@.form_valid(),
    {
        is_allowed_port(port_from_text(self.new_port.as_str())) && is_allowed_cpu(
            self.new_cpu.as_str(),
        )
    }

    /// The line that describes the form's contents.
    pub fn form_detail(&self) -> (r: String)
        ensures
            r@ == self@.form_detail(),
    {
        let mut out = self.new_name.clone();
        out.append(" (Port: ");
        push_int(&mut out, port_from_text(self.new_port.as_str()) as i64);
        out.append(", RAM: ");
        out.append(self.new_ram.as_str());
        out.append("G, CPU: ");
        out.append(self.new_cpu.as_str());
        out.append(")");
        out
    }

    /// Commits the form without validating it.
    pub fn commit(&mut self, now: u64) -> (action: Action)
        ensures
            (final(self)@, action@) == old(self)@.committed(now),
    {
        let detail = self.form_detail();
        let port = port_from_text(self.new_port.as_str());
        let name = self.new_name.clone();
        let ram = self.new_ram.clone();
        let cpu = self.new_cpu.clone();
        match self.update_id {
            Some(id) => {
                let mut msg = String::from_str("SERVER UPDATED: ");
                msg.append(detail.as_str());
                self.log(now, msg.as_str());
                self.info_mode = InfoMode::View;
                Action::Update { id, name, port, ram, cpu }
            },
            None => {
                let mut msg = String::from_str("SERVER CREATED: ");
                msg.append(detail.as_str());
                self.log(now, msg.as_str());
                self.info_mode = InfoMode::View;
                Action::Insert { name, port, ram, cpu }
            },
        }
    }
}

} // verus!
