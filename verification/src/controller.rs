//! Controller-only input: which discrete actions a gamepad drives, and the
//! gate that freezes play until a controller is connected and acknowledged.

use vstd::prelude::*;
use crate::keybindings::Action;

verus! {

/// One frame of gamepad input, reduced to what the action table reads.
#[derive(Debug, Clone, Copy)]
pub struct PadSnapshot {
    /// Buttons held, by index.
    pub buttons: [bool; 16],
    /// Buttons that went down this frame, by index.
    pub buttons_just: [bool; 16],
    /// Right trigger past its threshold.
    pub fire: bool,
    /// Left trigger past its threshold.
    pub ability_held: bool,
    /// Ability input went down this frame.
    pub ability_just: bool,
    /// D-pad axes: -1, 0 or 1.
    pub dpad_x: i8,
    pub dpad_y: i8,
    /// D-pad directions that went down this frame.
    pub dpad_just_left: bool,
    pub dpad_just_right: bool,
    pub dpad_just_up: bool,
    pub dpad_just_down: bool,
}

/// Button `i`, held or just pressed depending on `edge`.
pub open spec fn pad_button(pad: PadSnapshot, i: int, edge: bool) -> bool {
    if edge {
        pad.buttons_just@[i]
    } else {
        pad.buttons@[i]
    }
}

/// Whether a discrete action is driven by the pad. Sticks are read as
/// vectors elsewhere; numbered ammunition selection and the other actions
/// are not driven by the pad.
pub open spec fn action_pressed_spec(action: Action, pad: PadSnapshot, edge: bool) -> bool {
    match action {
        Action::Fire => pad.fire,
        Action::ActivateAbility => if edge { pad.ability_just } else { pad.ability_held },
        Action::Confirm => pad_button(pad, 0, edge),
        Action::Cancel => pad_button(pad, 1, edge),
        Action::Pause => pad_button(pad, 9, edge),
        Action::CycleAmmoPrev | Action::MenuLeft => if edge { pad.dpad_just_left } else { pad.dpad_x < 0 },
        Action::CycleAmmoNext | Action::MenuRight => if edge { pad.dpad_just_right } else { pad.dpad_x > 0 },
        Action::MenuUp => if edge { pad.dpad_just_up } else { pad.dpad_y > 0 },
        Action::MenuDown => if edge { pad.dpad_just_down } else { pad.dpad_y < 0 },
        _ => false,
    }
}

fn button(pad: &PadSnapshot, i: usize, edge: bool) -> (r: bool)
    requires
        i < 16,
    ensures
        r == pad_button(*pad, i as int, edge),
{
    if edge {
        pad.buttons_just[i]
    } else {
        pad.buttons[i]
    }
}

/// Resolve a discrete action from the pad, held or (with `edge`) just
/// pressed.
pub fn action_pressed(action: Action, pad: &PadSnapshot, edge: bool) -> (r: bool)
    ensures
        r == action_pressed_spec(action, *pad, edge),
{
    match action {
        Action::Fire => pad.fire,
        Action::ActivateAbility => {
            if edge {
                pad.ability_just
            } else {
                pad.ability_held
            }
        },
        Action::Confirm => button(pad, 0, edge),
        Action::Cancel => button(pad, 1, edge),
        Action::Pause => button(pad, 9, edge),
        Action::CycleAmmoPrev | Action::MenuLeft => {
            if edge {
                pad.dpad_just_left
            } else {
                pad.dpad_x < 0
            }
        },
        Action::CycleAmmoNext | Action::MenuRight => {
            if edge {
                pad.dpad_just_right
            } else {
                pad.dpad_x > 0
            }
        },
        Action::MenuUp => {
            if edge {
                pad.dpad_just_up
            } else {
                pad.dpad_y > 0
            }
        },
        Action::MenuDown => {
            if edge {
                pad.dpad_just_down
            } else {
                pad.dpad_y < 0
            }
        },
        _ => false,
    }
}

/// Steps of connecting a controller.
#[derive(Default, Debug, Clone, Copy, PartialEq, Eq, Structural)]
pub enum ConnectionPhase {
    #[default]
    ReleaseControls,
    Confirm,
    ReleaseConfirm,
    Playing,
}

/// What the caller does with the game clock after an update.
#[derive(Debug, Clone, Copy, PartialEq, Eq, Structural)]
pub enum ClockAction {
    /// Keep the clock paused, zero this frame's delta and discard pad input.
    Hold,
    /// Resume the clock the controller lock paused.
    Resume,
    /// Leave the clock alone.
    Leave,
}

/// What the controller lock sees of the pad in one frame.
#[derive(Debug, Clone, Copy, PartialEq, Eq, Structural)]
pub struct GateInput {
    /// A gamepad is connected.
    pub connected: bool,
    /// Identity of the active gamepad, if any.
    pub device: Option<u64>,
    /// Nothing is held: sticks centred, triggers released, no button down.
    pub neutral: bool,
    /// Nothing but the confirm button is held.
    pub neutral_but_confirm: bool,
    /// The confirm button is held.
    pub confirm: bool,
    /// The game clock is paused already.
    pub clock_paused: bool,
}

/// Controller gate: play is blocked until the player has released every
/// control, pressed confirm and released it again on the active controller.
#[derive(Default, Debug, Clone, Copy, PartialEq, Eq, Structural)]
pub struct ControllerGate {
    pub phase: ConnectionPhase,
    pub device: Option<u64>,
    pub paused_clock: bool,
}

/// Gate after one frame, and what happens to the clock.
pub open spec fn gate_step_spec(g: ControllerGate, i: GateInput) -> (ControllerGate, ClockAction) {
    let reset = !i.connected || g.device != i.device;
    let phase0 = if reset { ConnectionPhase::ReleaseControls } else { g.phase };
    let device = if reset { i.device } else { g.device };
    let phase = if i.connected {
        match phase0 {
            ConnectionPhase::ReleaseControls => if i.neutral { ConnectionPhase::Confirm } else { phase0 },
            ConnectionPhase::Confirm => if i.confirm && i.neutral_but_confirm {
                ConnectionPhase::ReleaseConfirm
            } else {
                phase0
            },
            ConnectionPhase::ReleaseConfirm => if i.neutral { ConnectionPhase::Playing } else { phase0 },
            ConnectionPhase::Playing => phase0,
        }
    } else {
        phase0
    };
    if phase != ConnectionPhase::Playing {
        let paused_clock = if !g.paused_clock { !i.clock_paused } else { g.paused_clock };
        (ControllerGate { phase, device, paused_clock }, ClockAction::Hold)
    } else if g.paused_clock {
        (ControllerGate { phase, device, paused_clock: false }, ClockAction::Resume)
    } else {
        (ControllerGate { phase, device, paused_clock: g.paused_clock }, ClockAction::Leave)
    }
}

impl ControllerGate {
    /// Whether play is blocked.
    pub fn is_blocked(&self) -> (r: bool)
        ensures
            r == (self.phase != ConnectionPhase::Playing),
    {
        self.phase != ConnectionPhase::Playing
    }

    /// Advance the controller lock by one frame. A lost controller, or a different one,
    /// sends the controller lock back to the start.
    pub fn update(&mut self, input: GateInput) -> (r: ClockAction)
        ensures
            (*final(self), r) == gate_step_spec(*old(self), input),
    {
        if !input.connected || self.device != input.device {
            self.phase = ConnectionPhase::ReleaseControls;
            self.device = input.device;
        }
        if input.connected {
            self.phase = match self.phase {
                ConnectionPhase::ReleaseControls if input.neutral => ConnectionPhase::Confirm,
                ConnectionPhase::Confirm if input.confirm && input.neutral_but_confirm => {
                    ConnectionPhase::ReleaseConfirm
                },
                ConnectionPhase::ReleaseConfirm if input.neutral => ConnectionPhase::Playing,
                phase => phase,
            };
        }
        if self.is_blocked() {
            if !self.paused_clock {
                self.paused_clock = !input.clock_paused;
            }
            ClockAction::Hold
        } else if self.paused_clock {
            self.paused_clock = false;
            ClockAction::Resume
        } else {
            ClockAction::Leave
        }
    }
}

/// Losing the controller, or switching to another one, blocks play.
pub proof fn law_disconnect_blocks(g: ControllerGate, i: GateInput)
    requires
        !i.connected || g.device != i.device,
    ensures
        gate_step_spec(g, i).0.phase == ConnectionPhase::ReleaseControls || gate_step_spec(g, i).0.phase
            == ConnectionPhase::Confirm,
        gate_step_spec(g, i).1 == ClockAction::Hold,
        !i.connected ==> gate_step_spec(g, i).0.phase == ConnectionPhase::ReleaseControls,
{
}

/// Play resumes only from the release-confirm step, with every control
/// released, or continues when already playing on the same connected pad.
pub proof fn law_play_needs_release_after_confirm(g: ControllerGate, i: GateInput)
    ensures
        gate_step_spec(g, i).0.phase == ConnectionPhase::Playing ==> i.connected && g.device == i.device && (
            g.phase == ConnectionPhase::Playing || (g.phase == ConnectionPhase::ReleaseConfirm && i.neutral)),
{
}

/// The release-confirm step is reached only by pressing confirm, with
/// nothing else held, at the confirm step.
pub proof fn law_confirm_needs_press(g: ControllerGate, i: GateInput)
    ensures
        gate_step_spec(g, i).0.phase == ConnectionPhase::ReleaseConfirm ==> (g.phase
            == ConnectionPhase::ReleaseConfirm && i.connected && g.device == i.device) || (i.confirm
            && i.neutral_but_confirm && i.connected),
{
}

/// The controller lock resumes only a clock that it paused itself: if the clock was
/// already paused when the controller lock first blocked, it is left paused.
pub proof fn law_resumes_only_its_own_pause(g: ControllerGate, i: GateInput)
    requires
        !g.paused_clock,
        i.clock_paused,
    ensures
        !gate_step_spec(g, i).0.paused_clock,
        gate_step_spec(g, i).1 != ClockAction::Resume,
{
}

/// Message shown on the connection screen.
pub open spec fn connection_message_spec(connected: bool, phase: ConnectionPhase) -> Seq<char> {
    if !connected {
        "CONNECT A CONTROLLER"@
    } else {
        match phase {
            ConnectionPhase::ReleaseControls => "RELEASE THE STICKS AND BUTTONS"@,
            ConnectionPhase::Confirm => "PRESS A TO CONTINUE"@,
            ConnectionPhase::ReleaseConfirm => "RELEASE A TO CONTINUE"@,
            ConnectionPhase::Playing => ""@,
        }
    }
}

/// Message shown on the connection screen: what the player has to do next.
pub fn connection_message(connected: bool, phase: ConnectionPhase) -> (r: &'static str)
    ensures
        r@ == connection_message_spec(connected, phase),
{
    if !connected {
        "CONNECT A CONTROLLER"
    } else {
        match phase {
            ConnectionPhase::ReleaseControls => "RELEASE THE STICKS AND BUTTONS",
            ConnectionPhase::Confirm => "PRESS A TO CONTINUE",
            ConnectionPhase::ReleaseConfirm => "RELEASE A TO CONTINUE",
            ConnectionPhase::Playing => "",
        }
    }
}

/// The face buttons act as the controls guide lists them: A (button 0)
/// confirms, B (button 1) goes back and Menu (button 9) pauses, held or
/// just pressed as asked; the right trigger fires.
pub proof fn law_face_buttons(pad: PadSnapshot, edge: bool)
    ensures
        action_pressed_spec(Action::Confirm, pad, edge) == if edge {
            pad.buttons_just@[0]
        } else {
            pad.buttons@[0]
        },
        action_pressed_spec(Action::Cancel, pad, edge) == if edge {
            pad.buttons_just@[1]
        } else {
            pad.buttons@[1]
        },
        action_pressed_spec(Action::Pause, pad, edge) == if edge {
            pad.buttons_just@[9]
        } else {
            pad.buttons@[9]
        },
        action_pressed_spec(Action::Fire, pad, edge) == pad.fire,
{
}

} // verus!
