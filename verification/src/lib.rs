//! State machine of an interactive dashboard for a small registry of managed
//! units: key handling, form editing, lifecycle plans and the bookkeeping that
//! the control loop needs, each with a verified contract.

pub mod text;
pub mod clock;
pub mod models;
pub mod state;
pub mod form;
pub mod machine;
pub mod lifecycle;
pub mod laws;
pub mod metrics;
pub mod view;
