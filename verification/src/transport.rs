//! The Hedion transport encounter: objective kinds, phases, failure
//! reasons, the decisions taken each tick, and the texts shown for them.
//! Timers and distances stay with the caller; this module receives their
//! outcome as flags.

use vstd::prelude::*;
use crate::states::GameState;

verus! {

/// Mission-specific completion contract.
#[derive(Debug, Clone, Copy, PartialEq, Eq, Default, Structural)]
pub enum EFMissionObjective {
    #[default]
    ClearWaves,
    LiberateTransport,
    EscortTransport,
}

/// Briefing text of an objective.
pub open spec fn briefing_spec(o: EFMissionObjective) -> Seq<char> {
    match o {
        EFMissionObjective::ClearWaves => "Clear the enemy waves and defeat their commander."@,
        EFMissionObjective::LiberateTransport => "Stay inside the transport's ring for 12 seconds to board. Dodge freely: boarding progress is retained. Keep the transport intact and secure it before the 90-second warp deadline, then clear the waves and defeat the commander."@,
        EFMissionObjective::EscortTransport => "Stay inside the transport's ring to guide it to evacuation (40 seconds in range). Protect it from marked raiders. Reach safety before the 90-second deadline, then clear the waves and defeat the commander."@,
    }
}

impl EFMissionObjective {
    /// Briefing text, shared by the briefing screen and the HUD.
    pub fn briefing(self) -> (r: &'static str)
        ensures
            r@ == briefing_spec(self),
    {
        match self {
            Self::ClearWaves => "Clear the enemy waves and defeat their commander.",
            Self::LiberateTransport => "Stay inside the transport's ring for 12 seconds to board. Dodge freely: boarding progress is retained. Keep the transport intact and secure it before the 90-second warp deadline, then clear the waves and defeat the commander.",
            Self::EscortTransport => "Stay inside the transport's ring to guide it to evacuation (40 seconds in range). Protect it from marked raiders. Reach safety before the 90-second deadline, then clear the waves and defeat the commander.",
        }
    }
}

/// Why a transport objective failed.
#[derive(Debug, Clone, Copy, PartialEq, Eq, Structural)]
pub enum TransportFailure {
    Destroyed,
    Escaped,
}

/// Text explaining a failure.
pub open spec fn failure_message_spec(f: TransportFailure) -> Seq<char> {
    match f {
        TransportFailure::Destroyed => "The transport was destroyed. Intercept incoming fire and eliminate its attackers."@,
        TransportFailure::Escaped => "The transport missed the extraction window. Stay inside its ring to advance the objective."@,
    }
}

impl TransportFailure {
    /// Text explaining the failure.
    pub fn message(self) -> (r: &'static str)
        ensures
            r@ == failure_message_spec(self),
    {
        match self {
            Self::Destroyed => "The transport was destroyed. Intercept incoming fire and eliminate its attackers.",
            Self::Escaped => "The transport missed the extraction window. Stay inside its ring to advance the objective.",
        }
    }
}

/// Phase of one transport attempt.
#[derive(Debug, Clone, Copy, PartialEq, Eq, Default, Structural)]
pub enum TransportPhase {
    #[default]
    Inactive,
    Active,
    Secured,
    Failed(TransportFailure),
}

/// Phase an attempt starts in: missions that only clear waves have no
/// transport.
pub open spec fn start_phase_spec(kind: EFMissionObjective) -> TransportPhase {
    if kind == EFMissionObjective::ClearWaves {
        TransportPhase::Inactive
    } else {
        TransportPhase::Active
    }
}

/// Phase an attempt starts in.
pub fn start_phase(kind: EFMissionObjective) -> (r: TransportPhase)
    ensures
        r == start_phase_spec(kind),
{
    match kind {
        EFMissionObjective::ClearWaves => TransportPhase::Inactive,
        _ => TransportPhase::Active,
    }
}

/// The failure reason of a phase, if it failed.
pub fn failure(phase: TransportPhase) -> (r: Option<TransportFailure>)
    ensures
        r == (match phase {
            TransportPhase::Failed(reason) => Some(reason),
            _ => None,
        }),
{
    if let TransportPhase::Failed(reason) = phase {
        Some(reason)
    } else {
        None
    }
}

/// The commander may come once the transport is out of the picture: there
/// was none, or it was secured and has finished departing.
pub fn ready_for_boss(phase: TransportPhase, departure_done: bool) -> (r: bool)
    ensures
        r == (phase == TransportPhase::Inactive || (phase == TransportPhase::Secured && departure_done)),
{
    phase == TransportPhase::Inactive || (phase == TransportPhase::Secured && departure_done)
}

/// Label shown once the transport is secured.
pub open spec fn success_label_spec(kind: EFMissionObjective) -> Seq<char> {
    match kind {
        EFMissionObjective::LiberateTransport => "TRANSPORT LIBERATED"@,
        _ => "CONVOY EVACUATED"@,
    }
}

/// Label shown once the transport is secured.
pub fn success_label(kind: EFMissionObjective) -> (r: &'static str)
    ensures
        r@ == success_label_spec(kind),
{
    match kind {
        EFMissionObjective::LiberateTransport => "TRANSPORT LIBERATED",
        _ => "CONVOY EVACUATED",
    }
}

/// HUD instruction for the objective's phase and whether the player is
/// inside the transport's ring.
pub open spec fn hud_instruction_spec(kind: EFMissionObjective, phase: TransportPhase, in_range: bool) -> Seq<char> {
    match phase {
        TransportPhase::Secured => "Transport secured. Clear the waves and defeat the commander."@,
        TransportPhase::Failed(_) => "Transport objective failed."@,
        TransportPhase::Active => if kind == EFMissionObjective::LiberateTransport {
            if in_range {
                "Boarding link active. Dodge and keep the transport intact."@
            } else {
                "Enter the transport ring to board. Progress is retained when dodging."@
            }
        } else {
            if in_range {
                "Convoy moving. Destroy marked raiders and intercept fire."@
            } else {
                "Enter the transport ring to guide the convoy to evacuation."@
            }
        },
        TransportPhase::Inactive => "Clear the waves. Defeat the enemy commander."@,
    }
}

/// HUD instruction for the objective's phase.
pub fn hud_instruction(kind: EFMissionObjective, phase: TransportPhase, in_range: bool) -> (r: &'static str)
    ensures
        r@ == hud_instruction_spec(kind, phase, in_range),
{
    match phase {
        TransportPhase::Secured => "Transport secured. Clear the waves and defeat the commander.",
        TransportPhase::Failed(_) => "Transport objective failed.",
        TransportPhase::Active => {
            if kind == EFMissionObjective::LiberateTransport {
                if in_range {
                    "Boarding link active. Dodge and keep the transport intact."
                } else {
                    "Enter the transport ring to board. Progress is retained when dodging."
                }
            } else {
                if in_range {
                    "Convoy moving. Destroy marked raiders and intercept fire."
                } else {
                    "Enter the transport ring to guide the convoy to evacuation."
                }
            }
        },
        TransportPhase::Inactive => "Clear the waves. Defeat the enemy commander.",
    }
}

/// What happened to the transport this tick, as seen by the caller.
#[derive(Debug, Clone, Copy, PartialEq, Eq, Structural)]
pub struct TransportTick {
    /// The game is already on its way to the game-over screen.
    pub game_over_pending: bool,
    /// The transport entity still exists.
    pub transport_present: bool,
    /// Its hull is at or below zero.
    pub hull_destroyed: bool,
    /// Boarding or escort progress reached its requirement this tick.
    pub objective_complete: bool,
    /// The deadline has been reached.
    pub deadline_reached: bool,
}

/// Phase after a tick, and the screen to switch to.
pub open spec fn transport_step_spec(phase: TransportPhase, t: TransportTick) -> (TransportPhase, Option<GameState>) {
    if t.game_over_pending {
        (phase, None)
    } else if phase == TransportPhase::Inactive || phase is Failed {
        (phase, None)
    } else if !t.transport_present {
        if phase == TransportPhase::Active {
            (TransportPhase::Failed(TransportFailure::Destroyed), Some(GameState::GameOver))
        } else {
            (phase, None)
        }
    } else if phase == TransportPhase::Secured {
        (phase, None)
    } else if t.hull_destroyed {
        (TransportPhase::Failed(TransportFailure::Destroyed), Some(GameState::GameOver))
    } else if t.objective_complete {
        (TransportPhase::Secured, None)
    } else if t.deadline_reached {
        (TransportPhase::Failed(TransportFailure::Escaped), Some(GameState::GameOver))
    } else {
        (phase, None)
    }
}

/// Decide the transport's phase for this tick. A lost or destroyed
/// transport fails the objective; completing it before the deadline
/// secures it (completion on the last eligible tick wins); missing the
/// deadline lets it escape.
pub fn transport_step(phase: TransportPhase, t: TransportTick) -> (r: (TransportPhase, Option<GameState>))
    ensures
        r == transport_step_spec(phase, t),
{
    if t.game_over_pending {
        return (phase, None);
    }
    match phase {
        TransportPhase::Inactive | TransportPhase::Failed(_) => {
            return (phase, None);
        },
        _ => {},
    }
    if !t.transport_present {
        if phase == TransportPhase::Active {
            return (TransportPhase::Failed(TransportFailure::Destroyed), Some(GameState::GameOver));
        }
        return (phase, None);
    }
    if phase == TransportPhase::Secured {
        return (phase, None);
    }
    if t.hull_destroyed {
        return (TransportPhase::Failed(TransportFailure::Destroyed), Some(GameState::GameOver));
    }
    if t.objective_complete {
        (TransportPhase::Secured, None)
    } else if t.deadline_reached {
        (TransportPhase::Failed(TransportFailure::Escaped), Some(GameState::GameOver))
    } else {
        (phase, None)
    }
}

/// Secured, failed and inactive attempts never change phase again.
pub proof fn law_settled_phases_stay(phase: TransportPhase, t: TransportTick)
    requires
        phase != TransportPhase::Active,
    ensures
        transport_step_spec(phase, t).0 == phase,
{
}

/// The game ends exactly when the attempt fails in this tick.
pub proof fn law_game_over_exactly_on_failure(phase: TransportPhase, t: TransportTick)
    ensures
        transport_step_spec(phase, t).1 == Some(GameState::GameOver) <==> (transport_step_spec(phase, t).0 is Failed
            && phase == TransportPhase::Active),
        transport_step_spec(phase, t).1 is None || transport_step_spec(phase, t).1 == Some(GameState::GameOver),
{
}

/// Completing the objective on the tick the deadline is reached still
/// secures the transport, provided it survives the tick.
pub proof fn law_completion_beats_deadline(t: TransportTick)
    requires
        !t.game_over_pending,
        t.transport_present,
        !t.hull_destroyed,
        t.objective_complete,
    ensures
        transport_step_spec(TransportPhase::Active, t) == (TransportPhase::Secured, None::<GameState>),
{
}

} // verus!
