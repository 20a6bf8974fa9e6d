use rebellion::elder_fleet::{
    amarr_missions, boss_score, ef_spawn_for_rolls, check_ef_boss_defeated, check_ef_wave_complete, get_ef_ship_class,
    is_minmatar_player, minmatar_missions, missions_for, spawn_ef_wave, update_ef_mission,
    EFSpawn, ElderFleetCampaignState, EF_MAX_WAVE_SIZE,
};
use rebellion::enemy::EnemyVariant;
use rebellion::states::GameState;

#[test]
fn minmatar_missions_has_five_entries() {
    let missions = minmatar_missions();
    assert_eq!(missions.len(), 5);
}

#[test]
fn amarr_missions_has_five_entries() {
    let missions = amarr_missions();
    assert_eq!(missions.len(), 5);
}

#[test]
fn campaign_state_resets_correctly() {
    let mut state = ElderFleetCampaignState::default();
    state.current_mission = 3;
    state.current_wave = 4;
    state.boss_spawned = true;

    state.reset();

    assert_eq!(state.current_mission, 0);
    assert_eq!(state.current_wave, 0);
    assert!(!state.boss_spawned);
}

#[test]
fn start_mission_sets_waves_correctly() {
    let mut state = ElderFleetCampaignState::default();

    state.start_mission(0);
    assert_eq!(state.waves_in_mission, 3);

    state.start_mission(2);
    assert_eq!(state.waves_in_mission, 4);

    state.start_mission(4);
    assert_eq!(state.waves_in_mission, 5);
}

#[test]
fn get_ef_ship_class_maps_correctly() {
    assert_eq!(get_ef_ship_class(587), "Rifter Frigate");
    assert_eq!(get_ef_ship_class(597), "Punisher Frigate");
    assert_eq!(get_ef_ship_class(643), "Apocalypse Battleship");
    assert_eq!(get_ef_ship_class(9999), "Unknown");
}

#[test]
fn mission_bosses_by_side() {
    let m = minmatar_missions();
    let a = amarr_missions();
    let mh: Vec<u32> = m.iter().map(|x| x.boss_health).collect();
    assert_eq!(mh, vec![300, 400, 600, 800, 1200]);
    assert_eq!(m[0].boss_type_id, 597);
    assert_eq!(m[4].boss_type_id, 643);
    assert_eq!(a[0].boss_type_id, 587);
    assert_eq!(a[1].boss_type_id, 11371);
    assert_eq!(a[4].boss_phases, 4);
}

#[test]
fn side_follows_the_chosen_faction() {
    assert!(is_minmatar_player(None));
    assert!(is_minmatar_player(Some("minmatar")));
    assert!(!is_minmatar_player(Some("amarr")));
    assert_eq!(missions_for(Some("amarr"))[0].boss_type_id, 587);
    assert_eq!(missions_for(None)[0].boss_type_id, 597);
}

#[test]
fn boss_score_is_twice_health() {
    assert_eq!(boss_score(300), 600);
    assert_eq!(boss_score(1200), 2400);
    assert_eq!(boss_score(u32::MAX), 2 * u32::MAX as u64);
}

#[test]
fn waves_then_commander_then_next_mission() {
    let mut s = ElderFleetCampaignState::default();
    s.start_mission(0);
    for wave in 0..3u32 {
        assert_eq!(update_ef_mission(&mut s), None);
        let spawned = spawn_ef_wave(&mut s, Some("minmatar"), 0);
        assert_eq!(spawned.len() as u32, 4 + wave);
        assert_eq!(s.current_wave, wave + 1);
        assert_eq!(s.enemies_remaining, 4 + wave);
        // enemies still alive: nothing new spawns
        assert!(spawn_ef_wave(&mut s, Some("minmatar"), 2).is_empty());
        check_ef_wave_complete(&mut s, 0);
    }
    assert!(spawn_ef_wave(&mut s, Some("minmatar"), 0).is_empty());
    assert_eq!(update_ef_mission(&mut s), Some(GameState::BossIntro));
    assert!(s.boss_spawned);
    assert_eq!(update_ef_mission(&mut s), None);
    assert_eq!(check_ef_boss_defeated(&mut s, true), None);
    assert_eq!(check_ef_boss_defeated(&mut s, false), Some(GameState::StageComplete));
    assert!(s.mission_complete);
    assert_eq!(s.current_mission, 1);
}

#[test]
fn fifth_commander_wins_the_campaign() {
    let mut s = ElderFleetCampaignState::default();
    s.start_mission(4);
    s.current_wave = s.waves_in_mission;
    assert_eq!(update_ef_mission(&mut s), Some(GameState::BossIntro));
    assert_eq!(check_ef_boss_defeated(&mut s, false), Some(GameState::Victory));
    assert_eq!(s.current_mission, 5);
}

#[test]
fn no_boss_no_completion() {
    let mut s = ElderFleetCampaignState::default();
    assert_eq!(check_ef_boss_defeated(&mut s, false), None);
    assert_eq!(s, ElderFleetCampaignState::default());
}

#[test]
fn wave_size_is_capped() {
    let mut s = ElderFleetCampaignState::default();
    s.start_mission(4);
    s.current_wave = 4;
    let spawned = spawn_ef_wave(&mut s, Some("amarr"), 0);
    assert_eq!(spawned.len() as u32, EF_MAX_WAVE_SIZE.min(4 + 4 + 4));
    let mut big = ElderFleetCampaignState::default();
    big.start_mission(10);
    let spawned = spawn_ef_wave(&mut big, None, 0);
    assert_eq!(spawned.len() as u32, EF_MAX_WAVE_SIZE);
}

#[test]
fn spawned_enemies_belong_to_the_enemy_side() {
    for _ in 0..20 {
        let mut s = ElderFleetCampaignState::default();
        s.start_mission(3);
        for e in spawn_ef_wave(&mut s, Some("amarr"), 0) {
            match e {
                EFSpawn::Variant(v) => assert_eq!(v, EnemyVariant::RifterBerserker),
                EFSpawn::Ship(ship) => assert!([587, 585, 598, 602].contains(&ship.type_id)),
            }
        }
        let mut s = ElderFleetCampaignState::default();
        s.start_mission(3);
        for e in spawn_ef_wave(&mut s, None, 0) {
            match e {
                EFSpawn::Variant(v) => assert!(
                    v == EnemyVariant::PunisherTank || v == EnemyVariant::ExecutionerElite
                ),
                EFSpawn::Ship(ship) => assert!([597, 589, 591, 603].contains(&ship.type_id)),
            }
        }
    }
}

#[test]
fn spawn_choice_follows_the_rolls() {
    assert_eq!(ef_spawn_for_rolls(true, 0, 0, 0), EFSpawn::Variant(EnemyVariant::PunisherTank));
    assert_eq!(ef_spawn_for_rolls(true, 14, 1, 3), EFSpawn::Variant(EnemyVariant::ExecutionerElite));
    assert_eq!(ef_spawn_for_rolls(false, 14, 0, 2), EFSpawn::Variant(EnemyVariant::RifterBerserker));
    match ef_spawn_for_rolls(true, 15, 3, 2) {
        EFSpawn::Ship(ship) => {
            assert_eq!(ship.type_id, 603);
            assert_eq!(ship.behavior, rebellion::enemy::EnemyBehavior::Homing);
        }
        other => panic!("expected a generic hull, got {:?}", other),
    }
    match ef_spawn_for_rolls(false, 99, 0, 0) {
        EFSpawn::Ship(ship) => {
            assert_eq!(ship.type_id, 587);
            assert_eq!(ship.behavior, rebellion::enemy::EnemyBehavior::Linear);
        }
        other => panic!("expected a generic hull, got {:?}", other),
    }
}

#[test]
fn states_that_change_nothing_accept_any_counters() {
    let mut s = ElderFleetCampaignState::default();
    s.current_mission = u32::MAX;
    s.boss_spawned = true;
    assert_eq!(check_ef_boss_defeated(&mut s, true), None);
    assert_eq!(s.current_mission, u32::MAX);
    s.boss_spawned = false;
    assert_eq!(check_ef_boss_defeated(&mut s, false), None);
    let mut w = ElderFleetCampaignState::default();
    w.current_mission = u32::MAX;
    w.waves_in_mission = 3;
    w.enemies_remaining = 2;
    assert!(spawn_ef_wave(&mut w, None, 0).is_empty());
    assert_eq!(w.enemies_remaining, 2);
}
