//! What a frame shows: the decisions that the renderer takes from the view
//! state and the units, with no drawing in them.

use vstd::prelude::*;
use vstd::string::*;
use crate::models::PowerState;
use crate::state::{lines_view, ActiveBlock, AppState, AppView, InfoMode};
use crate::text::{char_codes, contains_text, nat_text, occurs_in, push_nat};

verus! {

broadcast use vstd::std_specs::hash::group_hash_axioms;

/// How a row of the unit table is painted.
#[derive(Clone, Copy, Debug, PartialEq, Eq, Structural)]
pub enum RowStyle {
    Running,
    Stopped,
    Transition,
    Inactive,
}

/// How a line of the log is painted.
#[derive(Clone, Copy, Debug, PartialEq, Eq, Structural)]
pub enum LogStyle {
    Error,
    Transition,
    Plain,
}

/// What the info panel holds.
#[derive(Clone, Copy, Debug, PartialEq, Eq, Structural)]
pub enum InfoPanel {
    Details,
    DeletePrompt,
    Form,
}

pub open spec fn row_style_of(status: PowerState) -> RowStyle {
    match status {
        PowerState::On => RowStyle::Running,
        PowerState::Off => RowStyle::Stopped,
        PowerState::Starting | PowerState::Stopping => RowStyle::Transition,
        PowerState::Unknown => RowStyle::Inactive,
    }
}

pub open spec fn info_panel_of(mode: InfoMode) -> InfoPanel {
    match mode {
        InfoMode::View => InfoPanel::Details,
        InfoMode::DeleteConfirm => InfoPanel::DeletePrompt,
        _ => InfoPanel::Form,
    }
}

/// A line that reports an error is painted as one, else one that reports a
/// transition under way, else plainly.
pub open spec fn log_style_of(line: Seq<char>) -> LogStyle {
    let l = char_codes(line);
    if occurs_in(l, char_codes("ERROR"@)) {
        LogStyle::Error
    } else if occurs_in(l, char_codes("Starting"@)) || occurs_in(l, char_codes("Stopping"@)) {
        LogStyle::Transition
    } else {
        LogStyle::Plain
    }
}

/// The title of the unit table, with the key hints while it has the focus.
pub open spec fn server_title_of(focus: ActiveBlock) -> Seq<char> {
    match focus {
        ActiveBlock::Servers => " SERVERS | [ENTER] ON/OFF | [A] Activate | [R] Remove "@,
        ActiveBlock::Info => " SERVERS "@,
    }
}

/// The title of the info panel, with the key hints of its mode.
pub open spec fn info_title_of(v: AppView) -> Seq<char> {
    match v.info_mode {
        InfoMode::DeleteConfirm => " Delete? | [ENTER] Yes | [ESC] No "@,
        InfoMode::ConfirmWarning => " INVALID | [ENTER] Continue | [ESC] Back "@,
        InfoMode::View => if v.active_block == ActiveBlock::Info {
            " INFO | [N] New | [U] Update "@
        } else {
            " INFO "@
        },
        _ => if v.update_id.is_some() {
            " UPDATE | [ENTER] Next | [ESC] Cancel "@
        } else {
            " ADD | [ENTER] Next | [ESC] Cancel "@
        },
    }
}

/// The seconds for which a unit has been running at `now`; none if the
/// clock went back.
pub open spec fn elapsed(start: u64, now: u64) -> nat {
    if now >= start {
        (now - start) as nat
    } else {
        0
    }
}

/// Minutes and seconds of a running time.
pub open spec fn run_time_of(secs: nat) -> Seq<char> {
    nat_text(secs / 60) + "m "@ + nat_text(secs % 60) + "s"@
}

/// The running time to show for a unit: `Offline` unless it is kept as
/// running.
pub open spec fn run_time_shown(v: AppView, id: i32, now: u64) -> Seq<char> {
    if v.start_times.contains_key(id) {
        run_time_of(elapsed(v.start_times[id], now))
    } else {
        "Offline"@
    }
}

pub fn row_style(status: PowerState) -> (r: RowStyle)
    ensures
        r == row_style_of(status),
{
    match status {
        PowerState::On => RowStyle::Running,
        PowerState::Off => RowStyle::Stopped,
        PowerState::Starting | PowerState::Stopping => RowStyle::Transition,
        PowerState::Unknown => RowStyle::Inactive,
    }
}

/// Whether a row shows a latency: only for a unit that is on and has one.
pub fn shows_latency(status: PowerState, latency: i32) -> (r: bool)
    ensures
        r == (status == PowerState::On && latency != -1),
{
    status == PowerState::On && latency != -1
}

/// Whether a row shows load figures: not while the unit is off or in a
/// transition.
pub fn shows_load(status: PowerState) -> (r: bool)
    ensures
        r == (status == PowerState::On || status == PowerState::Unknown),
{
    match status {
        PowerState::On | PowerState::Unknown => true,
        _ => false,
    }
}

pub fn info_panel(mode: InfoMode) -> (r: InfoPanel)
    ensures
        r == info_panel_of(mode),
{
    match mode {
        InfoMode::View => InfoPanel::Details,
        InfoMode::DeleteConfirm => InfoPanel::DeletePrompt,
        _ => InfoPanel::Form,
    }
}

pub fn log_style(line: &str) -> (r: LogStyle)
    ensures
        r == log_style_of(line@),
{
    if contains_text(line, "ERROR") {
        LogStyle::Error
    } else if contains_text(line, "Starting") || contains_text(line, "Stopping") {
        LogStyle::Transition
    } else {
        LogStyle::Plain
    }
}

pub fn server_title(focus: ActiveBlock) -> (r: &'static str)
    ensures
        r@ == server_title_of(focus),
{
    match focus {
        ActiveBlock::Servers => " SERVERS | [ENTER] ON/OFF | [A] Activate | [R] Remove ",
        ActiveBlock::Info => " SERVERS ",
    }
}

pub fn run_time_text(start: u64, now: u64) -> (r: String)
    ensures
        r@ == run_time_of(elapsed(start, now)),
{
    let secs: u64 = if now >= start {
        now - start
    } else {
        0
    };
    let mut out = String::new();
    push_nat(&mut out, secs / 60);
    out.append("m ");
    push_nat(&mut out, secs % 60);
    out.append("s");
    assert(out@ =~= run_time_of(elapsed(start, now)));
    out
}

impl AppState {
    pub fn info_title(&self) -> (r: &'static str)
        ensures
            r@ == info_title_of(self@),
    {
        match self.info_mode {
            InfoMode::DeleteConfirm => " Delete? | [ENTER] Yes | [ESC] No ",
            InfoMode::ConfirmWarning => " INVALID | [ENTER] Continue | [ESC] Back ",
            InfoMode::View => if self.active_block == ActiveBlock::Info {
                " INFO | [N] New | [U] Update "
            } else {
                " INFO "
            },
            _ => if self.update_id.is_some() {
                " UPDATE | [ENTER] Next | [ESC] Cancel "
            } else {
                " ADD | [ENTER] Next | [ESC] Cancel "
            },
        }
    }

    /// The log as it is shown: newest line first.
    pub fn visible_logs(&self) -> (r: Vec<String>)
        ensures
            lines_view(r@) == self@.logs.reverse(),
    {
        let n: usize = self.logs.len();
        let mut out: Vec<String> = Vec::new();
        let mut i: usize = n;
        while i > 0
            invariant
                0 <= i <= n,
                n == self.logs@.len(),
                out@.len() == n - i,
                forall|k: int| 0 <= k < out@.len() ==> out@[k]@ == self.logs@[n - 1 - k]@,
            decreases i,
        {
            i = i - 1;
            out.push(self.logs[i].clone());
        }
        assert(lines_view(out@) =~= self@.logs.reverse());
        out
    }

    /// The running time of the unit `id` at second `now`, as the info panel
    /// shows it.
    pub fn run_time(&self, id: i32, now: u64) -> (r: String)
        ensures
            r@ == run_time_shown(self@, id, now),
    {
        match self.start_times.get(&id) {
            Some(start) => run_time_text(*start, now),
            None => String::from_str("Offline"),
        }
    }
}

} // verus!
