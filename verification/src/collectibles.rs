//! Pickups that can appear in space, and the icon each one is drawn with.

use vstd::prelude::*;

verus! {

/// Every kind of collectible pickup.
#[derive(Debug, Clone, Copy, PartialEq, Eq, Hash, Structural)]
pub enum CollectibleType {
    Credits,
    Refugee,
    ShieldBoost,
    ArmorRepair,
    HullRepair,
    CapacitorCharge,
    Overdrive,
    DamageBoost,
    Invulnerability,
    Nanite,
    ExtraLife,
    ScatterLauncher,
    RailSpike,
    PlasmaLance,
    HomingSwarm,
    VortonProjector,
}

/// Icon file drawn for a pickup; credits, refugees and capacitor charges
/// use simple shapes instead.
pub open spec fn icon_filename_spec(t: CollectibleType) -> Option<Seq<char>> {
    match t {
        CollectibleType::ShieldBoost => Some("shield_hardener.png"@),
        CollectibleType::ArmorRepair => Some("armor_hardener.png"@),
        CollectibleType::HullRepair => Some("reinforced_bulkheads.png"@),
        CollectibleType::Overdrive => Some("microwarpdrive.png"@),
        CollectibleType::DamageBoost => Some("combat_booster.png"@),
        CollectibleType::Invulnerability => Some("assault_damage_control.png"@),
        CollectibleType::Nanite => Some("nanite_paste.png"@),
        CollectibleType::ExtraLife => Some("speed_booster.png"@),
        CollectibleType::ScatterLauncher => Some("scourge_rage_missile.png"@),
        CollectibleType::RailSpike => Some("republic_fleet_barrage.png"@),
        CollectibleType::PlasmaLance => Some("conflagration_pulse.png"@),
        CollectibleType::HomingSwarm => Some("warrior_drone_swarm.png"@),
        CollectibleType::VortonProjector => Some("vorton_projector.png"@),
        _ => None,
    }
}

/// Icon file for a pickup, if it has one.
pub fn get_icon_filename(t: &CollectibleType) -> (r: Option<&'static str>)
    ensures
        r matches Some(f) ==> icon_filename_spec(*t) == Some(f@),
        r is None <==> icon_filename_spec(*t) is None,
{
    match t {
        CollectibleType::ShieldBoost => Some("shield_hardener.png"),
        CollectibleType::ArmorRepair => Some("armor_hardener.png"),
        CollectibleType::HullRepair => Some("reinforced_bulkheads.png"),
        CollectibleType::Overdrive => Some("microwarpdrive.png"),
        CollectibleType::DamageBoost => Some("combat_booster.png"),
        CollectibleType::Invulnerability => Some("assault_damage_control.png"),
        CollectibleType::Nanite => Some("nanite_paste.png"),
        CollectibleType::ExtraLife => Some("speed_booster.png"),
        CollectibleType::ScatterLauncher => Some("scourge_rage_missile.png"),
        CollectibleType::RailSpike => Some("republic_fleet_barrage.png"),
        CollectibleType::PlasmaLance => Some("conflagration_pulse.png"),
        CollectibleType::HomingSwarm => Some("warrior_drone_swarm.png"),
        CollectibleType::VortonProjector => Some("vorton_projector.png"),
        _ => None,
    }
}

} // verus!
