//! Configuration types: the validated command list that the clicker engine is
//! built from.
//!
//! Loading these from a configuration file is left to unverified callers;
//! here they are plain data with a validity predicate.

use vstd::prelude::*;

verus! {

/// One configured binding: when the `listen` input is triggered, perform the
/// `action` input, activated according to `method`, repeated at a rate drawn
/// from `range` (absent range: press once per activation).
#[derive(Debug)]
pub struct Command {
    pub action: Input,
    pub listen: Input,
    pub method: Method,
    pub range: Option<CpsRange>,
}

/// A physical input identifier: a named key or a named mouse button.
#[derive(Debug)]
pub struct Input {
    pub kind: InputType,
    pub value: String,
}

/// Whether an [`Input`] names a keyboard key or a mouse button.
#[derive(Clone, Copy, PartialEq, Eq, Structural, Debug)]
pub enum InputType {
    Key,
    Button,
}

/// Activation policy of a command: `Hold` is active exactly while the trigger
/// is physically down; `Toggle` flips between active and inactive on each
/// release of the trigger.
#[derive(Clone, Copy, PartialEq, Eq, Structural, Debug)]
pub enum Method {
    Hold,
    Toggle,
}

/// An inclusive range of click rates, in clicks per second.
#[derive(Clone, Copy, PartialEq, Eq, Structural, Debug)]
pub struct CpsRange {
    pub min: u32,
    pub max: u32,
}

impl CpsRange {
    /// A valid rate range has positive bounds in order.
    pub open spec fn wf(self) -> bool {
        1 <= self.min <= self.max
    }
}

/// The whole validated configuration: one entry per binding.
#[derive(Debug)]
pub struct Settings {
    pub commands: Vec<Command>,
}

} // verus!
