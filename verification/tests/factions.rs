use rebellion::collectibles::CollectibleType;
use rebellion::enemy::{
    behavior_for_mission_roll, cg_behavior_for_mission, last_stand_enemy_type, plan_cg_wave,
    plan_generic_wave, wave_behavior, wave_hulls, EnemyBehavior,
};
use rebellion::factions::{
    get_faction_weapon, get_player_weapon_type, is_untinted_hull, liberation_value, Faction,
    ShipClass, WeaponDoctrine, WeaponType,
};
use rebellion::items::{display_name, mod_applies, required_weapon_type, Inventory};

#[test]
fn ship_class_names() {
    assert_eq!(ShipClass::Frigate.name(), "Frigate");
    assert_eq!(ShipClass::AssaultFrigate.name(), "Assault Frigate");
    assert_eq!(ShipClass::TacticalDestroyer.name(), "Tactical Destroyer");
    assert_eq!(ShipClass::Battleship.name(), "Battleship");
}

#[test]
fn doctrine_names() {
    assert_eq!(WeaponDoctrine::Projectile.name(), "Autocannons");
    assert_eq!(WeaponDoctrine::Laser.name(), "Lasers");
    assert_eq!(WeaponDoctrine::Missile.name(), "Missiles");
    assert_eq!(WeaponDoctrine::Hybrid.name(), "Blasters");
}

#[test]
fn enemy_weapons_by_hull() {
    assert_eq!(get_faction_weapon(597), WeaponType::Laser);
    assert_eq!(get_faction_weapon(603), WeaponType::Railgun);
    assert_eq!(get_faction_weapon(583), WeaponType::MissileLauncher);
    assert_eq!(get_faction_weapon(608), WeaponType::Drone);
    assert_eq!(get_faction_weapon(587), WeaponType::Autocannon);
    assert_eq!(get_faction_weapon(47269), WeaponType::Disintegrator);
    assert_eq!(get_faction_weapon(54732), WeaponType::Vorton);
    assert_eq!(get_faction_weapon(1), WeaponType::Laser);
}

#[test]
fn player_weapons_fall_back_to_faction_default() {
    assert_eq!(get_player_weapon_type(54731, Faction::Amarr), WeaponType::Vorton);
    assert_eq!(get_player_weapon_type(11379, Faction::Minmatar), WeaponType::MissileLauncher);
    assert_eq!(get_player_weapon_type(12044, Faction::Caldari), WeaponType::Drone);
    assert_eq!(get_player_weapon_type(11400, Faction::Gallente), WeaponType::Autocannon);
    assert_eq!(get_player_weapon_type(17715, Faction::Amarr), WeaponType::MissileLauncher);
    assert_eq!(get_player_weapon_type(1, Faction::Amarr), WeaponType::Laser);
    assert_eq!(get_player_weapon_type(1, Faction::Caldari), WeaponType::MissileLauncher);
    assert_eq!(get_player_weapon_type(1, Faction::Gallente), WeaponType::Drone);
    assert_eq!(get_player_weapon_type(1, Faction::Minmatar), WeaponType::Autocannon);
}

#[test]
fn untinted_hulls_and_liberation_values() {
    assert!(is_untinted_hull(54731));
    assert!(is_untinted_hull(17715));
    assert!(!is_untinted_hull(587));
    assert_eq!(liberation_value(20185), 5);
    assert_eq!(liberation_value(2006), 3);
    assert_eq!(liberation_value(24690), 2);
    assert_eq!(liberation_value(24692), 3);
    assert_eq!(liberation_value(587), 1);
}

#[test]
fn weapon_mods_attach_to_their_family() {
    assert_eq!(display_name(CollectibleType::RailSpike), "Republic Fleet Barrage");
    assert_eq!(display_name(CollectibleType::Credits), "");
    assert_eq!(required_weapon_type(CollectibleType::PlasmaLance), Some(WeaponType::Laser));
    assert_eq!(required_weapon_type(CollectibleType::Nanite), None);
    assert!(mod_applies(CollectibleType::HomingSwarm, WeaponType::Drone));
    assert!(!mod_applies(CollectibleType::HomingSwarm, WeaponType::Laser));
    assert!(mod_applies(CollectibleType::Nanite, WeaponType::Laser));
}

#[test]
fn inventory_add_stacks_by_kind() {
    let mut inv = Inventory::default();
    inv.add(CollectibleType::RailSpike);
    inv.add(CollectibleType::Nanite);
    inv.add(CollectibleType::RailSpike);
    assert!(inv.dirty);
    assert_eq!(inv.stacks.len(), 2);
    assert_eq!(inv.stacks[0].id, CollectibleType::RailSpike);
    assert_eq!(inv.stacks[0].count, 2);
    assert_eq!(inv.stacks[1].id, CollectibleType::Nanite);
    assert_eq!(inv.stacks[1].count, 1);
}

#[test]
fn wave_behaviours_and_hulls() {
    assert_eq!(wave_behavior(0), EnemyBehavior::Linear);
    assert_eq!(wave_behavior(1), EnemyBehavior::Zigzag);
    assert_eq!(wave_behavior(2), EnemyBehavior::Homing);
    assert_eq!(wave_behavior(3), EnemyBehavior::Weaver);
    assert_eq!(wave_hulls(Faction::Caldari), [583, 602, 603]);
    assert_eq!(wave_hulls(Faction::Gallente), [608, 594, 593]);
    assert_eq!(wave_hulls(Faction::Amarr), [597, 589, 591]);
    assert_eq!(wave_hulls(Faction::Minmatar), [587, 585, 598]);
}

#[test]
fn mission_behaviour_tables() {
    assert_eq!(behavior_for_mission_roll(0, 6), EnemyBehavior::Linear);
    assert_eq!(behavior_for_mission_roll(0, 7), EnemyBehavior::Zigzag);
    assert_eq!(behavior_for_mission_roll(1, 3), EnemyBehavior::Zigzag);
    assert_eq!(behavior_for_mission_roll(1, 4), EnemyBehavior::Homing);
    assert_eq!(behavior_for_mission_roll(1, 8), EnemyBehavior::Linear);
    assert_eq!(behavior_for_mission_roll(1, 9), EnemyBehavior::Weaver);
    assert_eq!(behavior_for_mission_roll(2, 6), EnemyBehavior::Weaver);
    assert_eq!(behavior_for_mission_roll(5, 12), EnemyBehavior::Homing);
    assert_eq!(behavior_for_mission_roll(5, 17), EnemyBehavior::Zigzag);
    assert_eq!(behavior_for_mission_roll(5, 19), EnemyBehavior::Linear);
}

#[test]
fn random_plans_stay_in_their_tables() {
    for _ in 0..50 {
        let b = cg_behavior_for_mission(0);
        assert!(b == EnemyBehavior::Linear || b == EnemyBehavior::Zigzag);
        let wave = plan_generic_wave(Faction::Amarr, 6);
        assert_eq!(wave.len(), 6);
        for ship in &wave {
            assert!([597, 589, 591].contains(&ship.type_id));
            assert!(matches!(
                ship.behavior,
                EnemyBehavior::Linear | EnemyBehavior::Zigzag | EnemyBehavior::Homing | EnemyBehavior::Weaver
            ));
        }
        let cg = plan_cg_wave(Faction::Gallente, 0, 4);
        assert_eq!(cg.len(), 4);
        for ship in &cg {
            assert!([608, 594, 593].contains(&ship.type_id));
            assert!(ship.behavior == EnemyBehavior::Linear || ship.behavior == EnemyBehavior::Zigzag);
        }
        assert!([608, 594, 593].contains(&last_stand_enemy_type()));
    }
}
