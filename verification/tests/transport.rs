use rebellion::states::GameState;
use rebellion::transport::{
    failure, hud_instruction, ready_for_boss, start_phase, success_label, transport_step,
    EFMissionObjective, TransportFailure, TransportPhase, TransportTick,
};

fn tick() -> TransportTick {
    TransportTick {
        game_over_pending: false,
        transport_present: true,
        hull_destroyed: false,
        objective_complete: false,
        deadline_reached: false,
    }
}

#[test]
fn objectives_start_in_their_phase() {
    assert_eq!(start_phase(EFMissionObjective::ClearWaves), TransportPhase::Inactive);
    assert_eq!(start_phase(EFMissionObjective::LiberateTransport), TransportPhase::Active);
    assert_eq!(start_phase(EFMissionObjective::EscortTransport), TransportPhase::Active);
    assert_eq!(EFMissionObjective::default(), EFMissionObjective::ClearWaves);
}

#[test]
fn briefings_and_labels() {
    assert_eq!(
        EFMissionObjective::ClearWaves.briefing(),
        "Clear the enemy waves and defeat their commander."
    );
    assert!(EFMissionObjective::LiberateTransport.briefing().contains("12 seconds"));
    assert!(EFMissionObjective::EscortTransport.briefing().contains("40 seconds"));
    assert_eq!(success_label(EFMissionObjective::LiberateTransport), "TRANSPORT LIBERATED");
    assert_eq!(success_label(EFMissionObjective::EscortTransport), "CONVOY EVACUATED");
    assert!(TransportFailure::Destroyed.message().starts_with("The transport was destroyed."));
    assert!(TransportFailure::Escaped.message().starts_with("The transport missed"));
}

#[test]
fn hud_instructions() {
    let l = EFMissionObjective::LiberateTransport;
    let e = EFMissionObjective::EscortTransport;
    assert_eq!(
        hud_instruction(l, TransportPhase::Active, true),
        "Boarding link active. Dodge and keep the transport intact."
    );
    assert_eq!(
        hud_instruction(e, TransportPhase::Active, false),
        "Enter the transport ring to guide the convoy to evacuation."
    );
    assert_eq!(
        hud_instruction(e, TransportPhase::Failed(TransportFailure::Escaped), true),
        "Transport objective failed."
    );
    assert_eq!(
        hud_instruction(l, TransportPhase::Inactive, true),
        "Clear the waves. Defeat the enemy commander."
    );
}

#[test]
fn completion_secures_the_transport() {
    let mut t = tick();
    t.objective_complete = true;
    t.deadline_reached = true;
    assert_eq!(transport_step(TransportPhase::Active, t), (TransportPhase::Secured, None));
}

#[test]
fn deadline_and_destruction_fail_the_mission() {
    let mut t = tick();
    t.deadline_reached = true;
    assert_eq!(
        transport_step(TransportPhase::Active, t),
        (TransportPhase::Failed(TransportFailure::Escaped), Some(GameState::GameOver))
    );
    let mut t = tick();
    t.hull_destroyed = true;
    t.objective_complete = true;
    assert_eq!(
        transport_step(TransportPhase::Active, t),
        (TransportPhase::Failed(TransportFailure::Destroyed), Some(GameState::GameOver))
    );
    let mut t = tick();
    t.transport_present = false;
    assert_eq!(
        transport_step(TransportPhase::Active, t),
        (TransportPhase::Failed(TransportFailure::Destroyed), Some(GameState::GameOver))
    );
}

#[test]
fn settled_phases_stay_put() {
    let mut t = tick();
    t.hull_destroyed = true;
    assert_eq!(transport_step(TransportPhase::Secured, t), (TransportPhase::Secured, None));
    assert_eq!(transport_step(TransportPhase::Inactive, t), (TransportPhase::Inactive, None));
    let failed = TransportPhase::Failed(TransportFailure::Escaped);
    assert_eq!(transport_step(failed, t), (failed, None));
    let mut t = tick();
    t.game_over_pending = true;
    t.hull_destroyed = true;
    assert_eq!(transport_step(TransportPhase::Active, t), (TransportPhase::Active, None));
}

#[test]
fn boss_waits_for_the_transport() {
    assert!(ready_for_boss(TransportPhase::Inactive, false));
    assert!(!ready_for_boss(TransportPhase::Active, true));
    assert!(!ready_for_boss(TransportPhase::Secured, false));
    assert!(ready_for_boss(TransportPhase::Secured, true));
    assert_eq!(failure(TransportPhase::Failed(TransportFailure::Escaped)), Some(TransportFailure::Escaped));
    assert_eq!(failure(TransportPhase::Active), None);
}
