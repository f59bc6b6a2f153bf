//! The parts of a metrics sample that are decided by a unit's state and
//! configuration alone.

use vstd::prelude::*;
use crate::models::PowerState;
use crate::text::{contains_folded, fold_case, occurs_in};

verus! {

/// The latency that stands for "not applicable".
pub const NO_LATENCY: i32 = -1;

/// How much load a processor model takes on: the top models swing least.
#[derive(Clone, Copy, Debug, PartialEq, Eq, Structural)]
pub enum CpuTier {
    High,
    Mid,
    Base,
}

/// Only a unit that is on has live numbers.
pub open spec fn has_metrics(status: PowerState) -> bool {
    status == PowerState::On
}

/// The latency around which a unit's readings move, by its port.
pub open spec fn base_latency(port: i32) -> i32 {
    if port == 80 || port == 443 {
        15
    } else if port == 27017 {
        5
    } else {
        40
    }
}

/// The latency to report for a unit: nothing for one that is not on, the
/// sentinel for one without a port, else the measured value, at least 1.
pub open spec fn latency_shown(status: PowerState, port: i32, measured: i32) -> i32 {
    if !has_metrics(status) {
        0
    } else if port == 0 {
        NO_LATENCY
    } else if measured < 1 {
        1
    } else {
        measured
    }
}

pub open spec fn tier_of(model: Seq<char>) -> CpuTier {
    let m = fold_case(model);
    if occurs_in(m, fold_case("i9"@)) || occurs_in(m, fold_case("ryzen 9"@)) {
        CpuTier::High
    } else if occurs_in(m, fold_case("i7"@)) || occurs_in(m, fold_case("ryzen 7"@)) {
        CpuTier::Mid
    } else {
        CpuTier::Base
    }
}

pub fn reports_metrics(status: PowerState) -> (r: bool)
    ensures
        r == has_metrics(status),
{
    status == PowerState::On
}

pub fn base_latency_ms(port: i32) -> (r: i32)
    ensures
        r == base_latency(port),
{
    if port == 80 || port == 443 {
        15
    } else if port == 27017 {
        5
    } else {
        40
    }
}

pub fn latency_reading(status: PowerState, port: i32, measured: i32) -> (r: i32)
    ensures
        r == latency_shown(status, port, measured),
        status != PowerState::On ==> r == 0,
        status == PowerState::On && port == 0 ==> r == NO_LATENCY,
        status == PowerState::On && port != 0 ==> r >= 1,
{
    if !reports_metrics(status) {
        0
    } else if port == 0 {
        NO_LATENCY
    } else if measured < 1 {
        1
    } else {
        measured
    }
}

pub fn cpu_tier(model: &str) -> (r: CpuTier)
    ensures
        r == tier_of(model@),
{
    if contains_folded(model, "i9") || contains_folded(model, "ryzen 9") {
        CpuTier::High
    } else if contains_folded(model, "i7") || contains_folded(model, "ryzen 7") {
        CpuTier::Mid
    } else {
        CpuTier::Base
    }
}

} // verus!
