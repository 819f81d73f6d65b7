//! The trigger resolver and the repetition scheduler: how raw press/release
//! events move commands between active and inactive, and which active
//! commands fire on a scheduler tick.

use vstd::prelude::*;

use crate::clicker::{action_range, ClickerAction, ClickerCommand, ClickerInput, ClickerState};
use crate::inputsys::InputButton;
use crate::rng::draw_cps;
use crate::settings::Method;
use crate::time::{cps_to_millis, get_timestamp, spec_cps_to_millis};

verus! {

/// Whether a raw event presses or releases its trigger.
#[derive(Clone, Copy, PartialEq, Eq, Structural, Debug)]
pub enum EventKind {
    Press,
    Release,
}

/// The state a command moves to when its trigger is pressed: a `Hold` command
/// becomes active.  A press never drives a `Toggle` command, so that the
/// operating system's key auto-repeat cannot re-toggle a held trigger.
pub open spec fn press_step(cmd: ClickerCommand) -> ClickerCommand {
    if cmd.method == Method::Hold {
        ClickerCommand { is_active: true, ..cmd }
    } else {
        cmd
    }
}

/// The state a command moves to when its trigger is released: a `Hold`
/// command deactivates, a `Toggle` command flips.  The one-shot mark is
/// cleared whenever the command could leave the active state, so that the
/// next activation delivers its press-once action again.
pub open spec fn release_step(cmd: ClickerCommand) -> ClickerCommand {
    match cmd.method {
        Method::Hold => ClickerCommand { is_active: false, is_pressed: false, ..cmd },
        Method::Toggle => ClickerCommand {
            is_active: !cmd.is_active,
            is_pressed: false,
            ..cmd
        },
    }
}

/// What one event does to a command whose trigger it carries.
pub open spec fn apply_event(cmd: ClickerCommand, ev: EventKind) -> ClickerCommand {
    match ev {
        EventKind::Press => press_step(cmd),
        EventKind::Release => release_step(cmd),
    }
}

/// What one event does to one table entry: only an entry whose trigger
/// matches the event's moves.
pub open spec fn event_result(cmd: ClickerCommand, input: ClickerInput, ev: EventKind)
    -> ClickerCommand {
    if cmd.input.spec_eq(input) {
        apply_event(cmd, ev)
    } else {
        cmd
    }
}

/// Whether a command is due to fire at time `now`: it must be active, and a
/// click-repeat command additionally waits until strictly more than its
/// scheduled interval has elapsed since it last fired, while a press-once
/// command fires only if its one shot is still owed for this activation.
pub open spec fn fires(cmd: ClickerCommand, now: int) -> bool {
    cmd.is_active && match action_range(cmd.action) {
        Some(_) => match cmd.next_cps {
            Some(c) => now - cmd.last_action > spec_cps_to_millis(c as int),
            None => false,
        },
        None => !cmd.is_pressed,
    }
}

/// How one scheduler tick at time `now` moves one table entry.  An entry that
/// does not fire is untouched.  A firing press-once entry only takes its
/// one-shot mark.  A firing click-repeat entry records `now` as the time of
/// its last firing and schedules a fresh rate from its range; the rate is
/// drawn at random, so only its bounds are promised.
pub open spec fn tick_step(pre: ClickerCommand, post: ClickerCommand, now: int) -> bool {
    if fires(pre, now) {
        match action_range(pre.action) {
            Some(r) => {
                &&& match post.next_cps {
                    Some(c) => r.min <= c <= r.max,
                    None => false,
                }
                &&& post.last_action == now
                &&& post.input == pre.input
                &&& post.action == pre.action
                &&& post.method == pre.method
                &&& post.is_active == pre.is_active
                &&& post.is_pressed == pre.is_pressed
            },
            None => post == (ClickerCommand { is_pressed: true, ..pre }),
        }
    } else {
        post == pre
    }
}

/// What a firing command asks the output sink to click: its action's key or
/// button.
#[derive(PartialEq, Eq, Debug)]
pub enum DispatchTarget {
    Key(String),
    Button(InputButton),
}

/// The key or button that a command's action clicks when it fires.
pub open spec fn target_of(a: ClickerAction) -> DispatchTarget {
    match a {
        ClickerAction::KeyPress(k) => DispatchTarget::Key(k),
        ClickerAction::KeyClick(k, _) => DispatchTarget::Key(k),
        ClickerAction::ButtonPress(b) => DispatchTarget::Button(b),
        ClickerAction::ButtonClick(b, _) => DispatchTarget::Button(b),
    }
}

/// The dispatches of one sweep over the table at time `now`, in table order.
pub open spec fn fired_targets(cmds: Seq<ClickerCommand>, now: int) -> Seq<DispatchTarget>
    decreases cmds.len(),
{
    if cmds.len() == 0 {
        Seq::empty()
    } else if fires(cmds.last(), now) {
        fired_targets(cmds.drop_last(), now).push(target_of(cmds.last().action))
    } else {
        fired_targets(cmds.drop_last(), now)
    }
}

impl ClickerState {
    /// Applies one press or release event to the table: the entry whose
    /// trigger matches (if any) takes its transition, every other entry is
    /// untouched, and a well-formed table stays well formed.  An event whose
    /// trigger is not configured is a no-op, not an error.
    #[verifier::loop_isolation(false)]
    pub fn on_event(&mut self, input: &ClickerInput, ev: EventKind)
        ensures
            final(self).commands@.len() == old(self).commands@.len(),
            forall|i: int|
                0 <= i < old(self).commands@.len() ==> final(self).commands@[i] == event_result(
                    old(self).commands@[i],
                    *input,
                    ev,
                ),
            old(self).wf() ==> final(self).wf(),
    {
        let n: usize = self.commands.len();
        let mut i: usize = 0;
        while i < n
            invariant
                i <= n,
                self.commands@.len() == n,
                forall|k: int|
                    0 <= k < i ==> self.commands@[k] == event_result(
                        old(self).commands@[k],
                        *input,
                        ev,
                    ),
                forall|k: int| i <= k < n ==> self.commands@[k] == old(self).commands@[k],
            decreases n - i,
        {
            let cmd = &mut self.commands[i];
            if cmd.input.matches(input) {
                match ev {
                    EventKind::Press => {
                        if cmd.method == Method::Hold {
                            cmd.is_active = true;
                        }
                    },
                    EventKind::Release => {
                        match cmd.method {
                            Method::Hold => {
                                cmd.is_active = false;
                                cmd.is_pressed = false;
                            },
                            Method::Toggle => {
                                cmd.is_active = !cmd.is_active;
                                cmd.is_pressed = false;
                            },
                        }
                    },
                }
            }
            i += 1;
        }
        proof {
            if old(self).wf() {
                assert forall|a: int| 0 <= a < n implies (#[trigger] self.commands@[a]).wf() by {
                    assert(old(self).commands@[a].wf());
                }
                assert forall|a: int, b: int| 0 <= a < b < n implies !(
                #[trigger] self.commands@[a].input).spec_eq(
                    #[trigger] self.commands@[b].input,
                ) by {
                    assert(self.commands@[a].input == old(self).commands@[a].input);
                    assert(self.commands@[b].input == old(self).commands@[b].input);
                }
            }
        }
    }

    /// Presses the given trigger.
    pub fn on_press(&mut self, input: &ClickerInput)
        ensures
            final(self).commands@.len() == old(self).commands@.len(),
            forall|i: int|
                0 <= i < old(self).commands@.len() ==> final(self).commands@[i] == event_result(
                    old(self).commands@[i],
                    *input,
                    EventKind::Press,
                ),
            old(self).wf() ==> final(self).wf(),
    {
        self.on_event(input, EventKind::Press)
    }

    /// Releases the given trigger.
    pub fn on_release(&mut self, input: &ClickerInput)
        ensures
            final(self).commands@.len() == old(self).commands@.len(),
            forall|i: int|
                0 <= i < old(self).commands@.len() ==> final(self).commands@[i] == event_result(
                    old(self).commands@[i],
                    *input,
                    EventKind::Release,
                ),
            old(self).wf() ==> final(self).wf(),
    {
        self.on_event(input, EventKind::Release)
    }

    /// One scheduler sweep at time `now`: every entry takes its
    /// [`tick_step`], and the sweep returns what the entries that fired want
    /// clicked, in table order.  The caller performs the clicks; a failed
    /// click affects no other entry, since the table has already moved on.
    ///
    /// A press-once command fires once per activation: the sweep that finds
    /// it active and still owing its shot delivers it and sets the one-shot
    /// mark, which the resolver clears again on deactivation.
    #[verifier::loop_isolation(false)]
    pub fn tick(&mut self, now: i64) -> (fired: Vec<DispatchTarget>)
        requires
            old(self).wf(),
            now >= 0,
        ensures
            final(self).wf(),
            final(self).commands@.len() == old(self).commands@.len(),
            forall|i: int|
                0 <= i < old(self).commands@.len() ==> tick_step(
                    old(self).commands@[i],
                    #[trigger] final(self).commands@[i],
                    now as int,
                ),
            fired@ == fired_targets(old(self).commands@, now as int),
    {
        let mut fired: Vec<DispatchTarget> = Vec::new();
        let n: usize = self.commands.len();
        let mut i: usize = 0;
        while i < n
            invariant
                i <= n,
                self.commands@.len() == n,
                forall|k: int|
                    0 <= k < i ==> tick_step(
                        old(self).commands@[k],
                        #[trigger] self.commands@[k],
                        now as int,
                    ),
                forall|k: int| i <= k < n ==> #[trigger] self.commands@[k] == old(
                    self,
                ).commands@[k],
                fired@ == fired_targets(old(self).commands@.take(i as int), now as int),
            decreases n - i,
        {
            proof {
                assert(old(self).commands@.take(i + 1).drop_last() == old(self).commands@.take(
                    i as int,
                ));
                assert(old(self).commands@[i as int].wf());
            }
            let cmd = &mut self.commands[i];
            if cmd.is_active {
                match &cmd.action {
                    ClickerAction::ButtonPress(b) => {
                        if !cmd.is_pressed {
                            let target = DispatchTarget::Button(*b);
                            cmd.is_pressed = true;
                            fired.push(target);
                        }
                    },
                    ClickerAction::KeyPress(k) => {
                        if !cmd.is_pressed {
                            let target = DispatchTarget::Key(k.clone());
                            cmd.is_pressed = true;
                            fired.push(target);
                        }
                    },
                    ClickerAction::ButtonClick(b, r) => {
                        let c = cmd.next_cps.unwrap();
                        if now - cmd.last_action > cps_to_millis(c) {
                            let target = DispatchTarget::Button(*b);
                            let range = *r;
                            cmd.next_cps = Some(draw_cps(range.min, range.max));
                            cmd.last_action = now;
                            fired.push(target);
                        }
                    },
                    ClickerAction::KeyClick(k, r) => {
                        let c = cmd.next_cps.unwrap();
                        if now - cmd.last_action > cps_to_millis(c) {
                            let target = DispatchTarget::Key(k.clone());
                            let range = *r;
                            cmd.next_cps = Some(draw_cps(range.min, range.max));
                            cmd.last_action = now;
                            fired.push(target);
                        }
                    },
                }
            }
            i += 1;
        }
        proof {
            assert(old(self).commands@.take(n as int) == old(self).commands@);
            assert forall|a: int| 0 <= a < n implies (#[trigger] self.commands@[a]).wf() by {
                assert(tick_step(old(self).commands@[a], self.commands@[a], now as int));
                assert(old(self).commands@[a].wf());
            }
            assert forall|a: int, b: int| 0 <= a < b < n implies !(
            #[trigger] self.commands@[a].input).spec_eq(#[trigger] self.commands@[b].input) by {
                assert(tick_step(old(self).commands@[a], self.commands@[a], now as int));
                assert(tick_step(old(self).commands@[b], self.commands@[b], now as int));
                assert(self.commands@[a].input == old(self).commands@[a].input);
                assert(self.commands@[b].input == old(self).commands@[b].input);
            }
        }
        fired
    }

    /// One scheduler sweep at the current wall-clock time.  The time is read
    /// from the system clock (clamped to the epoch if the clock reports an
    /// earlier instant), so only its existence is promised: the sweep behaves
    /// as [`tick`](Self::tick) for some non-negative timestamp.
    pub fn tick_now(&mut self) -> (fired: Vec<DispatchTarget>)
        requires
            old(self).wf(),
        ensures
            final(self).wf(),
            final(self).commands@.len() == old(self).commands@.len(),
            exists|now: int|
                #![auto]
                0 <= now && (forall|i: int|
                    0 <= i < old(self).commands@.len() ==> tick_step(
                        old(self).commands@[i],
                        final(self).commands@[i],
                        now,
                    )) && fired@ == fired_targets(old(self).commands@, now),
    {
        let t = get_timestamp();
        let now: i64 = if t < 0 {
            0
        } else {
            t
        };
        self.tick(now)
    }
}

} // verus!
