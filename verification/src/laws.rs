//! The laws of the engine: properties of trigger resolution and repetition
//! scheduling that hold for every configuration, stated over the same spec
//! functions that the executable functions' contracts use.

use vstd::arithmetic::div_mod::{lemma_fundamental_div_mod, lemma_mod_bound};
use vstd::prelude::*;

use crate::clicker::{action_range, ClickerCommand};
use crate::engine::{apply_event, fires, press_step, tick_step, EventKind};
use crate::settings::Method;
use crate::time::spec_cps_to_millis;

verus! {

/// The state one command reaches after a whole sequence of events for its
/// trigger, oldest event first.
pub open spec fn apply_events(cmd: ClickerCommand, evs: Seq<EventKind>) -> ClickerCommand
    decreases evs.len(),
{
    if evs.len() == 0 {
        cmd
    } else {
        apply_event(apply_events(cmd, evs.drop_last()), evs.last())
    }
}

/// How many events of the sequence release the trigger.
pub open spec fn count_releases(evs: Seq<EventKind>) -> int
    decreases evs.len(),
{
    if evs.len() == 0 {
        0
    } else {
        count_releases(evs.drop_last()) + if evs.last() == EventKind::Release {
            1int
        } else {
            0int
        }
    }
}

/// Events never change a command's activation policy.
pub proof fn lemma_apply_events_method(cmd: ClickerCommand, evs: Seq<EventKind>)
    ensures
        apply_events(cmd, evs).method == cmd.method,
    decreases evs.len(),
{
    if evs.len() > 0 {
        lemma_apply_events_method(cmd, evs.drop_last());
    }
}

/// Law (hold semantics): a `Hold` command is active exactly when the most
/// recent event for its trigger was a press and no release has occurred
/// since; before any event arrives it keeps its initial state.
pub proof fn lemma_hold_semantics(cmd: ClickerCommand, evs: Seq<EventKind>)
    requires
        cmd.method == Method::Hold,
    ensures
        apply_events(cmd, evs).is_active == if evs.len() == 0 {
            cmd.is_active
        } else {
            evs.last() == EventKind::Press
        },
{
    if evs.len() > 0 {
        lemma_apply_events_method(cmd, evs.drop_last());
    }
}

/// Law (toggle semantics): each release of the trigger flips a `Toggle`
/// command's activation, and presses never change it, so after any event
/// sequence the command is active exactly when an odd number of releases has
/// inverted its initial state.
pub proof fn lemma_toggle_semantics(cmd: ClickerCommand, evs: Seq<EventKind>)
    requires
        cmd.method == Method::Toggle,
    ensures
        apply_events(cmd, evs).is_active == (cmd.is_active != (count_releases(evs) % 2 == 1)),
    decreases evs.len(),
{
    if evs.len() > 0 {
        lemma_toggle_semantics(cmd, evs.drop_last());
        lemma_apply_events_method(cmd, evs.drop_last());
    }
}

/// Law (presses never toggle): a press leaves a `Toggle` command untouched,
/// so the operating system's key auto-repeat cannot re-toggle a held trigger.
pub proof fn lemma_toggle_press_noop(cmd: ClickerCommand)
    requires
        cmd.method == Method::Toggle,
    ensures
        press_step(cmd) == cmd,
{
}

/// A higher click rate never lengthens the repetition interval.
pub proof fn lemma_interval_anti_monotone(a: int, b: int)
    requires
        1 <= a <= b,
    ensures
        spec_cps_to_millis(b) <= spec_cps_to_millis(a),
{
    let fa = (2000 + a) / (2 * a);
    let fb = (2000 + b) / (2 * b);
    let ra = (2000 + a) % (2 * a);
    let rb = (2000 + b) % (2 * b);
    lemma_fundamental_div_mod(2000 + a, 2 * a);
    lemma_mod_bound(2000 + a, 2 * a);
    lemma_fundamental_div_mod(2000 + b, 2 * b);
    lemma_mod_bound(2000 + b, 2 * b);
    assert(fa >= 0) by (nonlinear_arith)
        requires
            2000 + a == 2 * a * fa + ra,
            0 <= ra < 2 * a,
            a >= 1,
    ;
    assert(fb <= fa) by (nonlinear_arith)
        requires
            2000 + a == 2 * a * fa + ra,
            0 <= ra < 2 * a,
            2000 + b == 2 * b * fb + rb,
            0 <= rb < 2 * b,
            1 <= a <= b,
            fa >= 0,
    ;
}

/// Law (immediate first fire): an active click-repeat command that has never
/// fired (`last_action` of 0) is due on any tick evaluated later than the
/// interval of its range's minimum rate — immediately for practical clocks,
/// since elapsed time against the epoch vastly exceeds any interval.
pub proof fn lemma_immediate_first_fire(cmd: ClickerCommand, now: int)
    requires
        cmd.wf(),
        cmd.is_active,
        action_range(cmd.action) is Some,
        cmd.last_action == 0,
        now > spec_cps_to_millis(action_range(cmd.action).unwrap().min as int),
    ensures
        fires(cmd, now),
{
    let r = action_range(cmd.action).unwrap();
    let c = cmd.next_cps.unwrap();
    lemma_interval_anti_monotone(r.min as int, c as int);
}

/// Law (no double fire): when a click-repeat command fires at time `now`,
/// strictly more than `1000 / c` milliseconds have passed since its previous
/// firing, where `c` is the rate that was scheduled between the two — in
/// integers, the separation times the rate exceeds 1000.
pub proof fn lemma_no_double_fire(cmd: ClickerCommand, now: int)
    requires
        cmd.wf(),
        action_range(cmd.action) is Some,
        fires(cmd, now),
    ensures
        (now - cmd.last_action) * (cmd.next_cps.unwrap() as int) > 1000,
{
    let c = cmd.next_cps.unwrap() as int;
    let f = spec_cps_to_millis(c);
    let rm = (2000 + c) % (2 * c);
    lemma_fundamental_div_mod(2000 + c, 2 * c);
    lemma_mod_bound(2000 + c, 2 * c);
    assert((f + 1) * c > 1000) by (nonlinear_arith)
        requires
            2000 + c == 2 * c * f + rm,
            0 <= rm < 2 * c,
            c >= 1,
    ;
    let elapsed = now - cmd.last_action;
    assert(elapsed * c >= (f + 1) * c) by (nonlinear_arith)
        requires
            elapsed >= f + 1,
            c >= 1,
    ;
}

/// Law (fire separation): when a click-repeat command fires on one sweep at
/// `now1` and again on a later sweep at `now2`, the two dispatches are more
/// than `1000 / c` milliseconds apart, where `c` is the rate the first sweep
/// scheduled between them.
pub proof fn lemma_fire_separation(
    pre: ClickerCommand,
    mid: ClickerCommand,
    now1: int,
    now2: int,
)
    requires
        pre.wf(),
        0 <= now1,
        action_range(pre.action) is Some,
        fires(pre, now1),
        tick_step(pre, mid, now1),
        fires(mid, now2),
    ensures
        (now2 - now1) * (mid.next_cps.unwrap() as int) > 1000,
{
    assert(mid.wf());
    assert(mid.last_action == now1);
    lemma_no_double_fire(mid, now2);
}

} // verus!
