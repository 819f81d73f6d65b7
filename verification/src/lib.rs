//! A verified command-state engine for remapping physical input events
//! (key and mouse-button presses) to synthesized output actions.
//!
//! The engine keeps a table of configured commands, tracks for each one
//! whether it is active, and decides on every scheduler tick which commands
//! are due to fire.  Reading raw events, synthesizing output and loading
//! configuration files are left to unverified callers; the table, the
//! trigger resolution rules and the repetition scheduling are verified here.

pub mod clicker;
pub mod engine;
pub mod inputsys;
pub mod laws;
mod rng;
pub mod settings;
pub mod time;
