//! The command table: the in-memory model of every configured trigger, the
//! state it is in, and the rules for building the table from a validated
//! configuration.

use vstd::prelude::*;

use crate::inputsys::InputButton;
use crate::settings::{Command, CpsRange, Input, InputType, Method, Settings};

verus! {

/// The trigger of a command: a named key or a mouse button.
#[derive(PartialEq, Eq, Hash, Debug)]
pub enum ClickerInput {
    Key(String),
    Button(InputButton),
}

impl ClickerInput {
    /// Value equality of triggers: keys compare by their characters, buttons
    /// structurally.
    pub open spec fn spec_eq(self, other: ClickerInput) -> bool {
        match (self, other) {
            (ClickerInput::Key(a), ClickerInput::Key(b)) => a@ == b@,
            (ClickerInput::Button(a), ClickerInput::Button(b)) => a == b,
            _ => false,
        }
    }

    /// Decides whether two triggers identify the same physical input.
    pub fn matches(&self, other: &ClickerInput) -> (r: bool)
        ensures
            r == self.spec_eq(*other),
    {
        match (self, other) {
            (ClickerInput::Key(a), ClickerInput::Key(b)) => a.eq(b),
            (ClickerInput::Button(a), ClickerInput::Button(b)) => *a == *b,
            _ => false,
        }
    }
}

/// The synthetic output bound to a trigger: press a key or button once per
/// activation, or click it repeatedly at a rate drawn from a range.
#[derive(PartialEq, Eq, Debug)]
pub enum ClickerAction {
    KeyPress(String),
    KeyClick(String, CpsRange),
    ButtonPress(InputButton),
    ButtonClick(InputButton, CpsRange),
}

/// The rate range of a click-repeat action; `None` for press-once actions.
pub open spec fn action_range(a: ClickerAction) -> Option<CpsRange> {
    match a {
        ClickerAction::KeyPress(_) => None,
        ClickerAction::KeyClick(_, r) => Some(r),
        ClickerAction::ButtonPress(_) => None,
        ClickerAction::ButtonClick(_, r) => Some(r),
    }
}

/// One configured binding together with its live state.
///
/// `is_active` is mutated only by the trigger resolver; `is_pressed` marks
/// that a press-once action has delivered its one shot for the current
/// activation; `last_action` is the time of the most recent firing (0 before
/// the first); `next_cps` is the rate chosen for the upcoming interval of a
/// click-repeat action.
#[derive(Debug)]
pub struct ClickerCommand {
    pub input: ClickerInput,
    pub is_active: bool,
    pub is_pressed: bool,
    pub last_action: i64,
    pub next_cps: Option<u32>,
    pub action: ClickerAction,
    pub method: Method,
}

impl ClickerCommand {
    /// Well-formedness of one command: a click-repeat action carries a valid
    /// range and a scheduled rate inside it, a press-once action carries no
    /// rate, timestamps are never negative, and the one-shot mark is only set
    /// while the command is active.
    pub open spec fn wf(self) -> bool {
        &&& match action_range(self.action) {
            Some(r) => r.wf() && match self.next_cps {
                Some(c) => r.min <= c <= r.max,
                None => false,
            },
            None => self.next_cps is None,
        }
        &&& self.last_action >= 0
        &&& self.is_pressed ==> self.is_active
    }
}

/// The command table: the single source of truth for all configured commands.
#[derive(Debug)]
pub struct ClickerState {
    pub commands: Vec<ClickerCommand>,
}

impl ClickerState {
    /// No two commands share a trigger.
    pub open spec fn triggers_unique(self) -> bool {
        forall|i: int, j: int|
            0 <= i < j < self.commands@.len() ==> !(#[trigger] self.commands@[i].input).spec_eq(
                #[trigger] self.commands@[j].input,
            )
    }

    /// Well-formedness of the table: every command is well formed and no
    /// trigger occurs twice.
    pub open spec fn wf(self) -> bool {
        &&& self.triggers_unique()
        &&& forall|i: int| 0 <= i < self.commands@.len() ==> (#[trigger] self.commands@[i]).wf()
    }
}

/// Why a configuration was rejected.
#[derive(Clone, Copy, PartialEq, Eq, Structural, Debug)]
pub enum ConfigError {
    /// A listen or action identifier does not name a known key or button.
    UnknownIdentifier,
    /// A rate range has a zero bound or `min > max`.
    InvalidRange,
    /// Two bindings share the same trigger.
    DuplicateTrigger,
}

/// The button named by a one-letter identifier in the configuration.
pub open spec fn spec_parse_button(s: Seq<char>) -> Option<InputButton> {
    if s == "L"@ {
        Some(InputButton::Left)
    } else if s == "M"@ {
        Some(InputButton::Middle)
    } else if s == "R"@ {
        Some(InputButton::Right)
    } else if s == "B"@ {
        Some(InputButton::Back)
    } else if s == "F"@ {
        Some(InputButton::Forward)
    } else {
        None
    }
}

/// Resolves a one-letter button identifier from the configuration.
pub fn parse_input_button(s: String) -> (r: Option<InputButton>)
    ensures
        r == spec_parse_button(s@),
{
    if s == "L".to_string() {
        Some(InputButton::Left)
    } else if s == "M".to_string() {
        Some(InputButton::Middle)
    } else if s == "R".to_string() {
        Some(InputButton::Right)
    } else if s == "B".to_string() {
        Some(InputButton::Back)
    } else if s == "F".to_string() {
        Some(InputButton::Forward)
    } else {
        None
    }
}

/// The trigger that a configured input resolves to, if it resolves.
pub open spec fn spec_parse_input(inp: Input) -> Option<ClickerInput> {
    match inp.kind {
        InputType::Key => Some(ClickerInput::Key(inp.value)),
        InputType::Button => match spec_parse_button(inp.value@) {
            Some(b) => Some(ClickerInput::Button(b)),
            None => None,
        },
    }
}

/// The action that a configured binding resolves to, if it resolves.
pub open spec fn spec_parse_action(c: Command) -> Option<ClickerAction> {
    match c.action.kind {
        InputType::Key => match c.range {
            Some(r) => Some(ClickerAction::KeyClick(c.action.value, r)),
            None => Some(ClickerAction::KeyPress(c.action.value)),
        },
        InputType::Button => match spec_parse_button(c.action.value@) {
            Some(b) => match c.range {
                Some(r) => Some(ClickerAction::ButtonClick(b, r)),
                None => Some(ClickerAction::ButtonPress(b)),
            },
            None => None,
        },
    }
}

/// The initial table entry a binding resolves to: inactive, never fired, and
/// with the first rate seeded to the range's minimum so that the first firing
/// after activation is never delayed (`last_action` of 0 makes the due check
/// pass immediately).
pub open spec fn spec_parse_command(c: Command) -> Option<ClickerCommand> {
    match (spec_parse_input(c.listen), spec_parse_action(c)) {
        (Some(input), Some(action)) => Some(
            ClickerCommand {
                input,
                is_active: false,
                is_pressed: false,
                last_action: 0,
                next_cps: match c.range {
                    Some(r) => Some(r.min),
                    None => None,
                },
                action,
                method: c.method,
            },
        ),
        _ => None,
    }
}

/// The table that a configuration builds to, entry by entry in order, or the
/// error of the first binding that is rejected.  Each binding is checked for
/// unresolvable identifiers first, then for an invalid rate range, then for a
/// trigger that an earlier binding already uses.
pub open spec fn spec_build(cmds: Seq<Command>) -> Result<Seq<ClickerCommand>, ConfigError>
    decreases cmds.len(),
{
    if cmds.len() == 0 {
        Ok(Seq::empty())
    } else {
        match spec_build(cmds.drop_last()) {
            Err(e) => Err(e),
            Ok(built) => {
                let c = cmds.last();
                match spec_parse_command(c) {
                    None => Err(ConfigError::UnknownIdentifier),
                    Some(entry) => if !(c.range matches Some(r) ==> r.wf()) {
                        Err(ConfigError::InvalidRange)
                    } else if exists|j: int|
                        0 <= j < built.len() && (#[trigger] built[j].input).spec_eq(entry.input) {
                        Err(ConfigError::DuplicateTrigger)
                    } else {
                        Ok(built.push(entry))
                    },
                }
            },
        }
    }
}

/// An error for a prefix of the configuration is the error for the whole of
/// it: building stops at the first rejected binding.
proof fn lemma_build_err_extends(cmds: Seq<Command>, n: int, e: ConfigError)
    requires
        0 <= n <= cmds.len(),
        spec_build(cmds.take(n)) == Err::<Seq<ClickerCommand>, ConfigError>(e),
    ensures
        spec_build(cmds) == Err::<Seq<ClickerCommand>, ConfigError>(e),
    decreases cmds.len() - n,
{
    if n == cmds.len() {
        assert(cmds.take(n) == cmds);
    } else {
        assert(cmds.take(n + 1).drop_last() == cmds.take(n));
        lemma_build_err_extends(cmds, n + 1, e);
    }
}

impl ClickerState {
    /// Builds the command table from a configuration, exactly as
    /// [`spec_build`] describes, or reports why the configuration is invalid.
    /// A successful build yields a well-formed table.
    #[verifier::loop_isolation(false)]
    pub fn build(settings: &Settings) -> (r: Result<ClickerState, ConfigError>)
        ensures
            r matches Ok(st) ==> spec_build(settings.commands@) == Ok::<
                Seq<ClickerCommand>,
                ConfigError,
            >(st.commands@) && st.wf(),
            r matches Err(e) ==> spec_build(settings.commands@) == Err::<
                Seq<ClickerCommand>,
                ConfigError,
            >(e),
    {
        let cmds = &settings.commands;
        let ghost all = cmds@;
        let mut built: Vec<ClickerCommand> = Vec::new();
        let mut idx: usize = 0;
        while idx < cmds.len()
            invariant
                idx <= all.len(),
                cmds@ == all,
                spec_build(all.take(idx as int)) == Ok::<Seq<ClickerCommand>, ConfigError>(built@),
                forall|i: int, j: int|
                    0 <= i < j < built@.len() ==> !(#[trigger] built@[i].input).spec_eq(
                        #[trigger] built@[j].input,
                    ),
                forall|i: int| 0 <= i < built@.len() ==> (#[trigger] built@[i]).wf(),
            decreases all.len() - idx,
        {
            let c = &cmds[idx];
            let ghost prefix = all.take(idx as int);
            proof {
                assert(all.take(idx + 1).drop_last() == prefix);
                assert(all.take(idx + 1).last() == all[idx as int]);
            }
            let input = match c.listen.kind {
                InputType::Key => ClickerInput::Key(c.listen.value.clone()),
                InputType::Button => match parse_input_button(c.listen.value.clone()) {
                    Some(b) => ClickerInput::Button(b),
                    None => {
                        proof {
                            lemma_build_err_extends(
                                all,
                                idx + 1,
                                ConfigError::UnknownIdentifier,
                            );
                        }
                        return Err(ConfigError::UnknownIdentifier);
                    },
                },
            };
            let action = match c.action.kind {
                InputType::Key => match &c.range {
                    Some(r) => ClickerAction::KeyClick(c.action.value.clone(), *r),
                    None => ClickerAction::KeyPress(c.action.value.clone()),
                },
                InputType::Button => match parse_input_button(c.action.value.clone()) {
                    Some(b) => match &c.range {
                        Some(r) => ClickerAction::ButtonClick(b, *r),
                        None => ClickerAction::ButtonPress(b),
                    },
                    None => {
                        proof {
                            lemma_build_err_extends(
                                all,
                                idx + 1,
                                ConfigError::UnknownIdentifier,
                            );
                        }
                        return Err(ConfigError::UnknownIdentifier);
                    },
                },
            };
            if let Some(r) = &c.range {
                if r.min < 1 || r.min > r.max {
                    proof {
                        lemma_build_err_extends(all, idx + 1, ConfigError::InvalidRange);
                    }
                    return Err(ConfigError::InvalidRange);
                }
            }
            let mut j: usize = 0;
            while j < built.len()
                invariant
                    j <= built@.len(),
                    forall|k: int|
                        0 <= k < j ==> !(#[trigger] built@[k].input).spec_eq(input),
                decreases built@.len() - j,
            {
                if built[j].input.matches(&input) {
                    proof {
                        lemma_build_err_extends(all, idx + 1, ConfigError::DuplicateTrigger);
                    }
                    return Err(ConfigError::DuplicateTrigger);
                }
                j += 1;
            }
            let next_cps = match &c.range {
                Some(r) => Some(r.min),
                None => None,
            };
            let entry = ClickerCommand {
                input,
                is_active: false,
                is_pressed: false,
                last_action: 0,
                next_cps,
                action,
                method: c.method,
            };
            proof {
                assert(spec_parse_command(all[idx as int]) == Some(entry));
            }
            built.push(entry);
            idx += 1;
        }
        proof {
            assert(all.take(all.len() as int) == all);
        }
        Ok(ClickerState { commands: built })
    }

    /// Builds the command table, reporting only whether the configuration was
    /// valid.
    pub fn parse(settings: &Settings) -> (r: Option<ClickerState>)
        ensures
            r matches Some(st) ==> spec_build(settings.commands@) == Ok::<
                Seq<ClickerCommand>,
                ConfigError,
            >(st.commands@) && st.wf(),
            r is None <==> spec_build(settings.commands@) is Err,
    {
        match Self::build(settings) {
            Ok(st) => Some(st),
            Err(_) => None,
        }
    }
}

} // verus!
