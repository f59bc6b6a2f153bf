//! The unit record and its power state.

use vstd::prelude::*;
use vstd::string::*;
use crate::text::{eq_ignore_case, fold_case};

verus! {

/// Where a unit stands in its life cycle. `Unknown` is the state of a unit
/// that was created and not yet activated; `Starting` and `Stopping` are
/// transient.
#[derive(Clone, Copy, Debug, PartialEq, Eq, Structural)]
pub enum PowerState {
    Unknown,
    On,
    Off,
    Starting,
    Stopping,
}

/// The state that a stored label stands for. Letter case is ignored, and
/// every label that names no other state means `Unknown`.
pub open spec fn state_of_label(label: Seq<char>) -> PowerState {
    if fold_case(label) == fold_case("on"@) {
        PowerState::On
    } else if fold_case(label) == fold_case("off"@) {
        PowerState::Off
    } else if fold_case(label) == fold_case("starting"@) {
        PowerState::Starting
    } else if fold_case(label) == fold_case("stopping"@) {
        PowerState::Stopping
    } else {
        PowerState::Unknown
    }
}

/// The label under which a state is stored and shown.
pub open spec fn label_of_state(state: PowerState) -> Seq<char> {
    match state {
        PowerState::Unknown => "/"@,
        PowerState::On => "ON"@,
        PowerState::Off => "OFF"@,
        PowerState::Starting => "Starting"@,
        PowerState::Stopping => "Stopping"@,
    }
}

impl PowerState {
    pub fn from_label(label: &str) -> (r: PowerState)
        ensures
            r == state_of_label(label@),
    {
        if eq_ignore_case(label, "on") {
            PowerState::On
        } else if eq_ignore_case(label, "off") {
            PowerState::Off
        } else if eq_ignore_case(label, "starting") {
            PowerState::Starting
        } else if eq_ignore_case(label, "stopping") {
            PowerState::Stopping
        } else {
            PowerState::Unknown
        }
    }

    pub fn label(self) -> (r: &'static str)
        ensures
            r@ == label_of_state(self),
    {
        match self {
            PowerState::Unknown => "/",
            PowerState::On => "ON",
            PowerState::Off => "OFF",
            PowerState::Starting => "Starting",
            PowerState::Stopping => "Stopping",
        }
    }

    /// Whether the state is one that a background task must still resolve.
    pub fn is_transient(self) -> (r: bool)
        ensures
            r == (self == PowerState::Starting || self == PowerState::Stopping),
    {
        match self {
            PowerState::Starting | PowerState::Stopping => true,
            _ => false,
        }
    }
}

/// Reading back the label of a state gives that state.
pub proof fn lemma_label_round_trip(state: PowerState)
    ensures
        state_of_label(label_of_state(state)) == state,
{
    reveal_strlit("/");
    reveal_strlit("ON");
    reveal_strlit("OFF");
    reveal_strlit("Starting");
    reveal_strlit("Stopping");
    reveal_strlit("on");
    reveal_strlit("off");
    reveal_strlit("starting");
    reveal_strlit("stopping");
    let l = fold_case(label_of_state(state));
    match state {
        PowerState::Unknown => {
            assert(l.len() == 1);
        },
        PowerState::On => {
            assert(l =~= fold_case("on"@));
        },
        PowerState::Off => {
            assert(l.len() == 3);
            assert(l =~= fold_case("off"@));
        },
        PowerState::Starting => {
            assert(l.len() == 8);
            assert(l =~= fold_case("starting"@));
        },
        PowerState::Stopping => {
            assert(l.len() == 8);
            assert(l[2] != fold_case("starting"@)[2]);
            assert(l =~= fold_case("stopping"@));
        },
    }
}

/// A managed unit. `max_ram` is the capacity as decimal text, as it was
/// entered.
#[derive(Clone, Debug)]
pub struct Server {
    pub id: i32,
    pub name: String,
    pub status: PowerState,
    pub port: i32,
    pub cpu_model: String,
    pub max_ram: String,
}

pub struct ServerView {
    pub id: i32,
    pub name: Seq<char>,
    pub status: PowerState,
    pub port: i32,
    pub cpu_model: Seq<char>,
    pub max_ram: Seq<char>,
}

impl View for Server {
    type V = ServerView;

    open spec fn view(&self) -> ServerView {
        ServerView {
            id: self.id,
            name: self.name@,
            status: self.status,
            port: self.port,
            cpu_model: self.cpu_model@,
            max_ram: self.max_ram@,
        }
    }
}

/// The views of a list of units, in order.
pub open spec fn units_view(units: Seq<Server>) -> Seq<ServerView> {
    Seq::new(units.len(), |i: int| units[i]@)
}

impl Server {
    /// A unit as the store creates it: not yet activated.
    pub fn new(id: i32, name: &str, max_ram: &str, port: i32, cpu_model: &str) -> (r: Server)
        ensures
            r@ == (ServerView {
                id,
                name: name@,
                status: PowerState::Unknown,
                port,
                cpu_model: cpu_model@,
                max_ram: max_ram@,
            }),
    {
        Server {
            id,
            name: String::from_str(name),
            status: PowerState::Unknown,
            port,
            cpu_model: String::from_str(cpu_model),
            max_ram: String::from_str(max_ram),
        }
    }
}

} // verus!
