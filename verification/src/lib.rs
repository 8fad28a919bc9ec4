//! Sequencing of a one-shot antenna deployment: which thermal knife to fire,
//! how a status reply is read, which request comes next, and when to stop.
//!
//! The library decides and never waits or sends: a caller performs each
//! [`sequencer::Action`] and reports how it went.

pub mod command;
pub mod knife;
pub mod run;
pub mod sequencer;
pub mod startup;
pub mod status;
pub mod text;
