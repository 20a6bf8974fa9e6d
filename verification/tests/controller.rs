use rebellion::controller::{
    action_pressed, connection_message, ClockAction, ConnectionPhase, ControllerGate, GateInput, PadSnapshot,
};
use rebellion::keybindings::Action;

fn idle_pad() -> PadSnapshot {
    PadSnapshot {
        buttons: [false; 16],
        buttons_just: [false; 16],
        fire: false,
        ability_held: false,
        ability_just: false,
        dpad_x: 0,
        dpad_y: 0,
        dpad_just_left: false,
        dpad_just_right: false,
        dpad_just_up: false,
        dpad_just_down: false,
    }
}

fn input(neutral: bool, confirm: bool) -> GateInput {
    GateInput {
        connected: true,
        device: Some(1),
        neutral,
        neutral_but_confirm: true,
        confirm,
        clock_paused: false,
    }
}

#[test]
fn pad_actions() {
    let mut pad = idle_pad();
    assert!(!action_pressed(Action::Fire, &pad, false));
    pad.fire = true;
    assert!(action_pressed(Action::Fire, &pad, false));
    assert!(action_pressed(Action::Fire, &pad, true));
    pad.buttons[0] = true;
    assert!(action_pressed(Action::Confirm, &pad, false));
    assert!(!action_pressed(Action::Confirm, &pad, true));
    pad.buttons_just[9] = true;
    assert!(action_pressed(Action::Pause, &pad, true));
    pad.dpad_x = -1;
    assert!(action_pressed(Action::MenuLeft, &pad, false));
    assert!(action_pressed(Action::CycleAmmoPrev, &pad, false));
    assert!(!action_pressed(Action::MenuRight, &pad, false));
    pad.dpad_y = 1;
    assert!(action_pressed(Action::MenuUp, &pad, false));
    pad.dpad_just_down = true;
    assert!(action_pressed(Action::MenuDown, &pad, true));
    pad.ability_held = true;
    assert!(action_pressed(Action::ActivateAbility, &pad, false));
    assert!(!action_pressed(Action::ActivateAbility, &pad, true));
    assert!(!action_pressed(Action::MoveUp, &pad, false));
}

#[test]
fn gate_walks_through_release_confirm_release() {
    let mut g = ControllerGate::default();
    assert!(g.is_blocked());
    // sticks held: stay in the first phase, clock is held (and was running)
    assert_eq!(g.update(input(false, false)), ClockAction::Hold);
    assert_eq!(g.phase, ConnectionPhase::ReleaseControls);
    assert!(g.paused_clock);
    assert_eq!(g.update(input(true, false)), ClockAction::Hold);
    assert_eq!(g.phase, ConnectionPhase::Confirm);
    assert_eq!(g.update(input(true, true)), ClockAction::Hold);
    assert_eq!(g.phase, ConnectionPhase::ReleaseConfirm);
    assert_eq!(g.update(input(false, true)), ClockAction::Hold);
    assert_eq!(g.update(input(true, false)), ClockAction::Resume);
    assert_eq!(g.phase, ConnectionPhase::Playing);
    assert!(!g.is_blocked());
    assert!(!g.paused_clock);
    assert_eq!(g.update(input(true, false)), ClockAction::Leave);
}

#[test]
fn disconnect_or_new_device_blocks_again() {
    let mut g = ControllerGate { phase: ConnectionPhase::Playing, device: Some(1), paused_clock: false };
    let mut i = input(true, false);
    i.connected = false;
    assert_eq!(g.update(i), ClockAction::Hold);
    assert_eq!(g.phase, ConnectionPhase::ReleaseControls);
    let mut g = ControllerGate { phase: ConnectionPhase::Playing, device: Some(1), paused_clock: false };
    let mut i = input(false, false);
    i.device = Some(2);
    assert_eq!(g.update(i), ClockAction::Hold);
    assert_eq!(g.device, Some(2));
    assert!(g.is_blocked());
}

#[test]
fn gate_does_not_resume_a_clock_it_did_not_pause() {
    let paused = |neutral: bool, confirm: bool| {
        let mut i = input(neutral, confirm);
        i.clock_paused = true;
        i
    };
    let mut g = ControllerGate::default();
    assert_eq!(g.update(paused(false, false)), ClockAction::Hold);
    assert!(!g.paused_clock);
    g.update(paused(true, false));
    g.update(paused(true, true));
    assert_eq!(g.update(paused(true, false)), ClockAction::Leave);
    assert!(!g.paused_clock);
}

#[test]
fn confirm_needs_the_rest_of_the_pad_neutral() {
    let mut g = ControllerGate { phase: ConnectionPhase::Confirm, device: Some(1), paused_clock: true };
    let mut i = input(false, true);
    i.neutral_but_confirm = false;
    g.update(i);
    assert_eq!(g.phase, ConnectionPhase::Confirm);
}

#[test]
fn connection_screen_messages() {
    assert_eq!(connection_message(false, ConnectionPhase::Playing), "CONNECT A CONTROLLER");
    assert_eq!(connection_message(true, ConnectionPhase::ReleaseControls), "RELEASE THE STICKS AND BUTTONS");
    assert_eq!(connection_message(true, ConnectionPhase::Confirm), "PRESS A TO CONTINUE");
    assert_eq!(connection_message(true, ConnectionPhase::ReleaseConfirm), "RELEASE A TO CONTINUE");
    assert_eq!(connection_message(true, ConnectionPhase::Playing), "");
}
