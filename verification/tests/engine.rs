use natty::clicker::{ClickerInput, ClickerState};
use natty::engine::DispatchTarget;
use natty::inputsys::InputButton;
use natty::settings::{Command, CpsRange, Input, InputType, Method, Settings};

fn single_command(listen: Input, action: Input, method: Method, range: Option<CpsRange>)
    -> ClickerState {
    let settings = Settings {
        commands: vec![Command { action, listen, method, range }],
    };
    ClickerState::build(&settings).unwrap()
}

fn key_input(value: &str) -> Input {
    Input { kind: InputType::Key, value: value.to_string() }
}

fn button_input(value: &str) -> Input {
    Input { kind: InputType::Button, value: value.to_string() }
}

#[test]
fn hold_tracks_press_and_release() {
    let mut state = single_command(key_input("A"), key_input("X"), Method::Hold, None);
    let trigger = ClickerInput::Key("A".to_string());
    assert!(!state.commands[0].is_active);
    state.on_press(&trigger);
    assert!(state.commands[0].is_active);
    state.on_press(&trigger);
    assert!(state.commands[0].is_active);
    state.on_release(&trigger);
    assert!(!state.commands[0].is_active);
    state.on_release(&trigger);
    assert!(!state.commands[0].is_active);
}

#[test]
fn toggle_flips_on_release_only() {
    let mut state = single_command(key_input("A"), key_input("X"), Method::Toggle, None);
    let trigger = ClickerInput::Key("A".to_string());
    state.on_press(&trigger);
    assert!(!state.commands[0].is_active, "a press must never toggle");
    state.on_release(&trigger);
    assert!(state.commands[0].is_active);
    state.on_press(&trigger);
    assert!(state.commands[0].is_active, "a press must never toggle");
    state.on_release(&trigger);
    assert!(!state.commands[0].is_active);
}

#[test]
fn scenario_hold_press_once_button() {
    // Trigger: mouse button Left, method Hold, action press-once.
    let mut state =
        single_command(button_input("L"), button_input("L"), Method::Hold, None);
    let trigger = ClickerInput::Button(InputButton::Left);

    // Before any press nothing fires.
    assert_eq!(state.tick(1_000), Vec::<DispatchTarget>::new());

    // One dispatch on the first tick after the press ...
    state.on_press(&trigger);
    let fired = state.tick(1_005);
    assert_eq!(fired, vec![DispatchTarget::Button(InputButton::Left)]);

    // ... and no further dispatches while the button stays held.
    for t in 1..200i64 {
        assert_eq!(state.tick(1_005 + 5 * t), Vec::<DispatchTarget>::new());
    }

    // Zero dispatches after the release.
    state.on_release(&trigger);
    for t in 0..200i64 {
        assert_eq!(state.tick(2_010 + 5 * t), Vec::<DispatchTarget>::new());
    }

    // A fresh activation delivers exactly one shot again.
    state.on_press(&trigger);
    let fired = state.tick(3_015);
    assert_eq!(fired, vec![DispatchTarget::Button(InputButton::Left)]);
    assert_eq!(state.tick(3_020), Vec::<DispatchTarget>::new());
}

#[test]
fn scenario_toggle_click_repeat_key() {
    // Trigger: key "A", method Toggle, action click-repeat [min=5, max=10].
    let mut state = single_command(
        key_input("A"),
        key_input("A"),
        Method::Toggle,
        Some(CpsRange { min: 5, max: 10 }),
    );
    let trigger = ClickerInput::Key("A".to_string());
    state.on_release(&trigger);
    assert!(state.commands[0].is_active, "first toggle activates");

    // Simulate 2000 ms of 1 ms scheduler ticks.
    let start: i64 = 1_000_000;
    let mut dispatch_times: Vec<i64> = Vec::new();
    for t in 0..2000i64 {
        let now = start + t;
        let fired = state.tick(now);
        for target in &fired {
            assert_eq!(*target, DispatchTarget::Key("A".to_string()));
        }
        if !fired.is_empty() {
            assert_eq!(fired.len(), 1);
            dispatch_times.push(now);
        }
    }

    // 5..=10 cps over 2 s: between 10 and 20 dispatches.
    assert!(
        (10..=20).contains(&dispatch_times.len()),
        "got {} dispatches",
        dispatch_times.len()
    );
    // Spaced at least the shortest interval apart, and at most the longest
    // interval plus the tick granularity of 1 ms.
    for pair in dispatch_times.windows(2) {
        let gap = pair[1] - pair[0];
        assert!((100..=201).contains(&gap), "gap of {} ms", gap);
    }
}

#[test]
fn scenario_unconfigured_trigger_is_ignored() {
    let mut state = single_command(
        key_input("A"),
        key_input("X"),
        Method::Toggle,
        Some(CpsRange { min: 5, max: 10 }),
    );
    let stranger = ClickerInput::Key("Z".to_string());

    state.on_press(&stranger);
    state.on_release(&stranger);
    let cmd = &state.commands[0];
    assert!(!cmd.is_active);
    assert!(!cmd.is_pressed);
    assert_eq!(cmd.last_action, 0);
    assert_eq!(cmd.next_cps, Some(5));

    // The single command is still inactive, so nothing fires either.
    assert_eq!(state.tick(5_000), Vec::<DispatchTarget>::new());
}

#[test]
fn sampled_rates_stay_in_range() {
    let mut state = single_command(
        key_input("A"),
        key_input("X"),
        Method::Toggle,
        Some(CpsRange { min: 3, max: 9 }),
    );
    let trigger = ClickerInput::Key("A".to_string());
    state.on_release(&trigger);

    // Every sweep is overdue, so every sweep fires and draws a fresh rate.
    let mut now: i64 = 10_000;
    for _ in 0..10_000 {
        let fired = state.tick(now);
        assert_eq!(fired.len(), 1);
        let cps = state.commands[0].next_cps.unwrap();
        assert!((3..=9).contains(&cps), "sampled rate {} out of range", cps);
        now += 10_000;
    }
}

#[test]
fn first_fire_is_immediate() {
    // Never fired (last_action 0), seeded to min cps 5 (interval 200 ms):
    // due at any time strictly past the interval.
    let mut state = single_command(
        key_input("A"),
        key_input("X"),
        Method::Toggle,
        Some(CpsRange { min: 5, max: 10 }),
    );
    let trigger = ClickerInput::Key("A".to_string());
    state.on_release(&trigger);

    let mut probe = single_command(
        key_input("A"),
        key_input("X"),
        Method::Toggle,
        Some(CpsRange { min: 5, max: 10 }),
    );
    probe.on_release(&trigger);

    // Not yet due at exactly the interval ...
    assert_eq!(probe.tick(200), Vec::<DispatchTarget>::new());
    // ... due one millisecond past it, and at any later time.
    assert_eq!(probe.tick(201).len(), 1);
    assert_eq!(state.tick(987_654_321).len(), 1);
}

#[test]
fn no_double_fire_within_interval() {
    // A degenerate range pins the rate to 5 cps (interval 200 ms).
    let mut state = single_command(
        key_input("A"),
        key_input("X"),
        Method::Toggle,
        Some(CpsRange { min: 5, max: 5 }),
    );
    let trigger = ClickerInput::Key("A".to_string());
    state.on_release(&trigger);

    let start: i64 = 50_000;
    let mut dispatch_times: Vec<i64> = Vec::new();
    for t in 0..1000i64 {
        if !state.tick(start + t).is_empty() {
            dispatch_times.push(start + t);
        }
    }
    assert!(dispatch_times.len() >= 2);
    for pair in dispatch_times.windows(2) {
        let gap = pair[1] - pair[0];
        assert_eq!(gap, 201, "at 5 cps two dispatches are 201 ms apart");
        assert!(gap * 5 > 1000);
    }
}

#[test]
fn press_once_key_dispatches_key() {
    let mut state = single_command(button_input("M"), key_input("Y"), Method::Hold, None);
    let trigger = ClickerInput::Button(InputButton::Middle);
    state.on_press(&trigger);
    let fired = state.tick(77);
    assert_eq!(fired, vec![DispatchTarget::Key("Y".to_string())]);
}

#[test]
fn independent_commands_fire_independently() {
    let settings = Settings {
        commands: vec![
            Command {
                action: key_input("X"),
                listen: key_input("A"),
                method: Method::Hold,
                range: None,
            },
            Command {
                action: button_input("R"),
                listen: key_input("B"),
                method: Method::Toggle,
                range: Some(CpsRange { min: 1, max: 1 }),
            },
        ],
    };
    let mut state = ClickerState::build(&settings).unwrap();
    state.on_press(&ClickerInput::Key("A".to_string()));
    state.on_release(&ClickerInput::Key("B".to_string()));
    let fired = state.tick(123_456);
    assert_eq!(
        fired,
        vec![
            DispatchTarget::Key("X".to_string()),
            DispatchTarget::Button(InputButton::Right),
        ]
    );

    // The press-once command is spent; the click-repeat one waits a second.
    assert_eq!(state.tick(123_457), Vec::<DispatchTarget>::new());
    let fired = state.tick(124_458);
    assert_eq!(fired, vec![DispatchTarget::Button(InputButton::Right)]);
}

#[test]
fn tick_now_runs_against_the_clock() {
    let mut state = single_command(key_input("A"), key_input("X"), Method::Hold, None);
    state.on_press(&ClickerInput::Key("A".to_string()));
    let fired = state.tick_now();
    assert_eq!(fired, vec![DispatchTarget::Key("X".to_string())]);
}
