use rebellion::enemy::{EnemyBehavior, EnemyVariant};
use rebellion::factions::WeaponType;
use rebellion::triglavian;

fn all_variants() -> Vec<EnemyVariant> {
    EnemyVariant::ALL.to_vec()
}

#[test]
fn all_variants_have_positive_score() {
    for variant in all_variants() {
        let config = variant.profile();
        assert!(config.score_value > 0, "{} has zero score", variant.name());
    }
}

#[test]
fn all_variants_have_names() {
    for variant in all_variants() {
        assert!(!variant.name().is_empty());
    }
}

#[test]
fn only_drekavac_is_boss() {
    for variant in all_variants() {
        let config = variant.profile();
        if variant.name() == "Drekavac" {
            assert!(config.is_boss, "Drekavac should be a boss");
        } else {
            assert!(!config.is_boss, "{} should not be a boss", variant.name());
        }
    }
}

#[test]
fn sniper_has_weapon_override() {
    let config = EnemyVariant::Sniper.profile();
    assert!(config.weapon_override.is_some());
}

#[test]
fn spawner_has_spawner_component() {
    let config = EnemyVariant::Spawner.profile();
    assert!(config.spawner.is_some());
}

#[test]
fn triglavian_variants_have_disintegrator() {
    let trig_variants = vec![
        EnemyVariant::Damavik,
        EnemyVariant::StarvingDamavik,
        EnemyVariant::Vedmak,
        EnemyVariant::BlindingVedmak,
        EnemyVariant::Kikimora,
        EnemyVariant::Leshak,
        EnemyVariant::DrekavacBoss,
    ];
    for variant in trig_variants {
        let config = variant.profile();
        assert!(config.disintegrator, "{} should have disintegrator", variant.name());
        assert!(config.remove_weapon, "{} should remove standard weapon", variant.name());
        assert_eq!(config.behavior, EnemyBehavior::Disintegrator);
    }
}

#[test]
fn standard_variants_no_disintegrator() {
    let standard = vec![
        EnemyVariant::Kamikaze,
        EnemyVariant::Weaver,
        EnemyVariant::Sniper,
        EnemyVariant::Spawner,
        EnemyVariant::Tank,
        EnemyVariant::ExecutionerElite,
        EnemyVariant::PunisherTank,
        EnemyVariant::RifterBerserker,
    ];
    for variant in standard {
        let config = variant.profile();
        assert!(!config.disintegrator, "{} should not have disintegrator", variant.name());
        assert!(!config.remove_weapon);
    }
}

#[test]
fn drekavac_boss_has_highest_score() {
    let boss = EnemyVariant::DrekavacBoss.profile();
    for variant in all_variants() {
        let config = variant.profile();
        assert!(boss.score_value >= config.score_value, "Drekavac should have highest score");
    }
}

#[test]
fn variant_profiles_by_example() {
    let carrier = EnemyVariant::Spawner.profile();
    assert_eq!(EnemyVariant::Spawner.name(), "Carrier");
    assert_eq!(carrier.type_id, 593);
    let launches = carrier.spawner.unwrap();
    assert_eq!(launches.spawn_type_id, 589);
    assert_eq!(launches.max_spawned, 3);
    assert_eq!(carrier.liberation_value, 3);
    let leshak = EnemyVariant::Leshak.profile();
    assert_eq!(leshak.type_id, triglavian::LESHAK);
    assert_eq!(leshak.score_value, 500);
    assert_eq!(EnemyVariant::ExecutionerElite.profile().weapon_override, Some(WeaponType::Laser));
    assert_eq!(EnemyVariant::RifterBerserker.profile().weapon_override, Some(WeaponType::Autocannon));
    assert_eq!(EnemyVariant::RifterBerserker.profile().behavior, EnemyBehavior::Zigzag);
    assert_eq!(EnemyVariant::DrekavacBoss.profile().score_value, 1000);
    assert_eq!(EnemyVariant::ALL.len(), 15);
}
