use rebellion::boosters::{BoosterInventory, BoosterKind, CAPACITY_PER_KIND};
use rebellion::collectibles::{get_icon_filename, CollectibleType};

#[test]
fn pickups_map_to_boosters_and_back() {
    for kind in BoosterKind::ALL {
        assert_eq!(BoosterKind::from_pickup(kind.pickup()), Some(kind));
    }
    assert_eq!(BoosterKind::from_pickup(CollectibleType::Overdrive), Some(BoosterKind::Overclocker));
    assert_eq!(BoosterKind::from_pickup(CollectibleType::DamageBoost), Some(BoosterKind::Pyrolancea));
    assert_eq!(BoosterKind::from_pickup(CollectibleType::Invulnerability), Some(BoosterKind::XInstinct));
    assert_eq!(BoosterKind::from_pickup(CollectibleType::Credits), None);
    assert_eq!(BoosterKind::from_pickup(CollectibleType::HullRepair), None);
}

#[test]
fn booster_names_and_descriptions() {
    assert_eq!(BoosterKind::Overclocker.name(), "OVERCLOCKER");
    assert_eq!(BoosterKind::Pyrolancea.name(), "PYROLANCEA");
    assert_eq!(BoosterKind::XInstinct.name(), "X-INSTINCT");
    assert_eq!(BoosterKind::Overclocker.description(), "Speed x1.5 / 5s");
    assert_eq!(BoosterKind::Pyrolancea.description(), "Damage x2 / 10s");
    assert_eq!(BoosterKind::XInstinct.description(), "Invulnerable / 3s");
}

#[test]
fn default_inventory_is_empty() {
    let inv = BoosterInventory::default();
    assert!(inv.is_empty());
    assert_eq!(inv.selected(), BoosterKind::Overclocker);
    for kind in BoosterKind::ALL {
        assert_eq!(inv.count(kind), 0);
    }
}

#[test]
fn first_store_selects_that_kind() {
    let mut inv = BoosterInventory::default();
    assert!(inv.store(BoosterKind::XInstinct));
    assert_eq!(inv.selected(), BoosterKind::XInstinct);
    assert!(inv.store(BoosterKind::Pyrolancea));
    assert_eq!(inv.selected(), BoosterKind::XInstinct);
    assert_eq!(inv.count(BoosterKind::Pyrolancea), 1);
}

#[test]
fn store_stops_at_capacity() {
    let mut inv = BoosterInventory::default();
    for _ in 0..CAPACITY_PER_KIND {
        assert!(inv.store(BoosterKind::Overclocker));
    }
    assert!(!inv.store(BoosterKind::Overclocker));
    assert_eq!(inv.count(BoosterKind::Overclocker), 3);
    assert!(inv.store(BoosterKind::Pyrolancea));
}

#[test]
fn cycle_skips_empty_slots_both_ways() {
    let mut inv = BoosterInventory::default();
    inv.store(BoosterKind::Overclocker);
    inv.store(BoosterKind::XInstinct);
    inv.cycle(true);
    assert_eq!(inv.selected(), BoosterKind::XInstinct);
    inv.cycle(true);
    assert_eq!(inv.selected(), BoosterKind::Overclocker);
    inv.cycle(false);
    assert_eq!(inv.selected(), BoosterKind::XInstinct);
}

#[test]
fn cycle_on_empty_inventory_keeps_selection() {
    let mut inv = BoosterInventory::default();
    inv.cycle(true);
    assert_eq!(inv.selected(), BoosterKind::Overclocker);
    inv.cycle(false);
    assert_eq!(inv.selected(), BoosterKind::Overclocker);
}

#[test]
fn cycle_with_one_kind_stays_on_it() {
    let mut inv = BoosterInventory::default();
    inv.store(BoosterKind::Pyrolancea);
    inv.cycle(true);
    assert_eq!(inv.selected(), BoosterKind::Pyrolancea);
    inv.cycle(false);
    assert_eq!(inv.selected(), BoosterKind::Pyrolancea);
}

#[test]
fn use_spends_one_dose_of_selected() {
    let mut inv = BoosterInventory::default();
    inv.store(BoosterKind::Pyrolancea);
    inv.store(BoosterKind::Pyrolancea);
    assert_eq!(inv.use_selected(false), Some(BoosterKind::Pyrolancea));
    assert_eq!(inv.count(BoosterKind::Pyrolancea), 1);
}

#[test]
fn use_while_effect_active_spends_nothing() {
    let mut inv = BoosterInventory::default();
    inv.store(BoosterKind::XInstinct);
    assert_eq!(inv.use_selected(true), None);
    assert_eq!(inv.count(BoosterKind::XInstinct), 1);
}

#[test]
fn use_of_empty_slot_spends_nothing() {
    let mut inv = BoosterInventory::default();
    assert_eq!(inv.use_selected(false), None);
    assert!(inv.is_empty());
}

#[test]
fn store_then_use_restores_counts() {
    let mut inv = BoosterInventory::default();
    inv.store(BoosterKind::Overclocker);
    let before: Vec<u8> = BoosterKind::ALL.iter().map(|k| inv.count(*k)).collect();
    assert!(inv.store(BoosterKind::Overclocker));
    assert_eq!(inv.use_selected(false), Some(BoosterKind::Overclocker));
    let after: Vec<u8> = BoosterKind::ALL.iter().map(|k| inv.count(*k)).collect();
    assert_eq!(before, after);
}

#[test]
fn booster_indices_follow_declaration_order() {
    for (i, kind) in BoosterKind::ALL.iter().enumerate() {
        assert_eq!(kind.index(), i);
        assert_eq!(BoosterKind::at(i), *kind);
    }
}

#[test]
fn pickup_icons() {
    assert_eq!(get_icon_filename(&CollectibleType::Overdrive), Some("microwarpdrive.png"));
    assert_eq!(get_icon_filename(&CollectibleType::DamageBoost), Some("combat_booster.png"));
    assert_eq!(get_icon_filename(&CollectibleType::Invulnerability), Some("assault_damage_control.png"));
    assert_eq!(get_icon_filename(&CollectibleType::Credits), None);
    assert_eq!(get_icon_filename(&CollectibleType::Refugee), None);
    assert_eq!(get_icon_filename(&CollectibleType::CapacitorCharge), None);
}
