//! Enemy behaviours, firing patterns, specialised variants and the random
//! choices that populate a wave.

use vstd::prelude::*;
use crate::factions::{Faction, WeaponType};
use crate::triglavian::{DAMAVIK, DREKAVAC, KIKIMORA, LESHAK, VEDMAK};
use crate::rng::{random_u32_below, random_usize_below};

verus! {

/// Enemy movement and combat behaviour.
#[derive(Debug, Clone, Copy, PartialEq, Eq, Hash, Structural)]
pub enum EnemyBehavior {
    Linear,
    Zigzag,
    Homing,
    Orbital,
    Sniper,
    Kamikaze,
    Weaver,
    Spawner,
    Tank,
    Disintegrator,
}

/// Enemy firing patterns.
#[derive(Debug, Clone, Copy, PartialEq, Eq, Structural)]
pub enum FiringPattern {
    Single,
    Spread3,
    Spread5,
    Circle,
    Stream,
}

/// Predefined specialised enemies.
#[derive(Debug, Clone, Copy, PartialEq, Eq, Structural)]
pub enum EnemyVariant {
    Kamikaze,
    Weaver,
    Sniper,
    Spawner,
    Tank,
    Damavik,
    StarvingDamavik,
    Vedmak,
    BlindingVedmak,
    Kikimora,
    Leshak,
    DrekavacBoss,
    ExecutionerElite,
    PunisherTank,
    RifterBerserker,
}

/// Behaviour of a generic wave ship from a roll in `0..4`.
pub open spec fn wave_behavior_spec(roll: u32) -> EnemyBehavior {
    if roll == 0 {
        EnemyBehavior::Linear
    } else if roll == 1 {
        EnemyBehavior::Zigzag
    } else if roll == 2 {
        EnemyBehavior::Homing
    } else {
        EnemyBehavior::Weaver
    }
}

/// Behaviour of a generic wave ship from a roll in `0..4`.
pub fn wave_behavior(roll: u32) -> (r: EnemyBehavior)
    ensures
        r == wave_behavior_spec(roll),
{
    match roll {
        0 => EnemyBehavior::Linear,
        1 => EnemyBehavior::Zigzag,
        2 => EnemyBehavior::Homing,
        _ => EnemyBehavior::Weaver,
    }
}

/// Frigates an enemy faction sends in generic waves.
pub open spec fn wave_hulls_spec(f: Faction) -> Seq<u32> {
    match f {
        Faction::Caldari => seq![583u32, 602, 603],
        Faction::Gallente => seq![608u32, 594, 593],
        Faction::Amarr => seq![597u32, 589, 591],
        Faction::Minmatar => seq![587u32, 585, 598],
    }
}

/// Frigates an enemy faction sends in generic waves.
pub fn wave_hulls(f: Faction) -> (r: [u32; 3])
    ensures
        r@ == wave_hulls_spec(f),
{
    let r = match f {
        Faction::Caldari => [583, 602, 603],
        Faction::Gallente => [608, 594, 593],
        Faction::Amarr => [597, 589, 591],
        Faction::Minmatar => [587, 585, 598],
    };
    assert(r@ =~= wave_hulls_spec(f));
    r
}

/// Campaign behaviour weighting by mission, from a roll: the tutorial
/// (roll in `0..10`) is mostly linear; the second mission (roll in `0..10`)
/// favours zigzag and homing; later missions (roll in `0..20`) favour
/// weavers and homing.
pub open spec fn mission_behavior_spec(mission_index: usize, roll: u32) -> EnemyBehavior {
    if mission_index == 0 {
        if roll <= 6 { EnemyBehavior::Linear } else { EnemyBehavior::Zigzag }
    } else if mission_index == 1 {
        if roll <= 3 {
            EnemyBehavior::Zigzag
        } else if roll <= 6 {
            EnemyBehavior::Homing
        } else if roll <= 8 {
            EnemyBehavior::Linear
        } else {
            EnemyBehavior::Weaver
        }
    } else {
        if roll <= 6 {
            EnemyBehavior::Weaver
        } else if roll <= 12 {
            EnemyBehavior::Homing
        } else if roll <= 17 {
            EnemyBehavior::Zigzag
        } else {
            EnemyBehavior::Linear
        }
    }
}

/// Size of the roll that picks a campaign behaviour.
pub open spec fn mission_roll_range(mission_index: usize) -> u32 {
    if mission_index <= 1 { 10 } else { 20 }
}

/// Campaign behaviour for a mission from a roll.
pub fn behavior_for_mission_roll(mission_index: usize, roll: u32) -> (r: EnemyBehavior)
    ensures
        r == mission_behavior_spec(mission_index, roll),
{
    match mission_index {
        0 => match roll {
            0..=6 => EnemyBehavior::Linear,
            _ => EnemyBehavior::Zigzag,
        },
        1 => match roll {
            0..=3 => EnemyBehavior::Zigzag,
            4..=6 => EnemyBehavior::Homing,
            7..=8 => EnemyBehavior::Linear,
            _ => EnemyBehavior::Weaver,
        },
        _ => match roll {
            0..=6 => EnemyBehavior::Weaver,
            7..=12 => EnemyBehavior::Homing,
            13..=17 => EnemyBehavior::Zigzag,
            _ => EnemyBehavior::Linear,
        },
    }
}

/// Pick a campaign behaviour for a mission at random, weighted by mission.
pub fn cg_behavior_for_mission(mission_index: usize) -> (r: EnemyBehavior)
    ensures
        exists|roll: u32| roll < mission_roll_range(mission_index) && r == mission_behavior_spec(mission_index, roll),
{
    let range: u32 = if mission_index <= 1 { 10 } else { 20 };
    let roll = random_u32_below(range);
    behavior_for_mission_roll(mission_index, roll)
}

/// One generic enemy: its hull and behaviour.
#[derive(Debug, Clone, Copy, PartialEq, Eq, Structural)]
pub struct WaveShip {
    pub type_id: u32,
    pub behavior: EnemyBehavior,
}

/// The ship chosen by a hull roll in `0..3` and a behaviour roll in `0..4`.
pub open spec fn wave_ship_spec(f: Faction, hull_roll: int, behavior_roll: u32) -> WaveShip {
    WaveShip { type_id: wave_hulls_spec(f)[hull_roll], behavior: wave_behavior_spec(behavior_roll) }
}

/// `s` is a generic ship of faction `f`: one of its frigates, flying one of
/// the four generic behaviours.
pub open spec fn is_generic_ship(f: Faction, s: WaveShip) -> bool {
    exists|h: int, b: u32| 0 <= h < 3 && b < 4 && s == wave_ship_spec(f, h, b)
}

/// `s` is a campaign ship of faction `f` for the given mission: one of its
/// frigates, with a behaviour from the mission's weighting.
pub open spec fn is_campaign_ship(f: Faction, mission_index: usize, s: WaveShip) -> bool {
    exists|h: int, b: u32| 0 <= h < 3 && b < mission_roll_range(mission_index) && s == (WaveShip {
        type_id: wave_hulls_spec(f)[h],
        behavior: mission_behavior_spec(mission_index, b),
    })
}

/// Pick `count` generic ships of an enemy faction at random.
pub fn plan_generic_wave(enemy_faction: Faction, count: usize) -> (r: Vec<WaveShip>)
    ensures
        r@.len() == count,
        forall|i: int| 0 <= i < count ==> is_generic_ship(enemy_faction, #[trigger] r@[i]),
{
    let hulls = wave_hulls(enemy_faction);
    let mut r: Vec<WaveShip> = Vec::new();
    let mut i: usize = 0;
    while i < count
        invariant
            i <= count,
            r@.len() == i,
            hulls@ == wave_hulls_spec(enemy_faction),
            forall|j: int| 0 <= j < i ==> is_generic_ship(enemy_faction, #[trigger] r@[j]),
        decreases count - i,
    {
        let h = random_usize_below(3);
        let b = random_u32_below(4);
        let ship = WaveShip { type_id: hulls[h], behavior: wave_behavior(b) };
        assert(ship == wave_ship_spec(enemy_faction, h as int, b));
        r.push(ship);
        i = i + 1;
    }
    r
}

/// Pick `count` ships for a campaign wave at random: each hull is one of the
/// enemy faction's frigates and each behaviour weighted by mission.
pub fn plan_cg_wave(enemy_faction: Faction, mission_index: usize, count: usize) -> (r: Vec<WaveShip>)
    ensures
        r@.len() == count,
        forall|i: int| 0 <= i < count ==> is_campaign_ship(enemy_faction, mission_index, #[trigger] r@[i]),
{
    let hulls = wave_hulls(enemy_faction);
    let range: u32 = if mission_index <= 1 { 10 } else { 20 };
    let mut r: Vec<WaveShip> = Vec::new();
    let mut i: usize = 0;
    while i < count
        invariant
            i <= count,
            r@.len() == i,
            hulls@ == wave_hulls_spec(enemy_faction),
            range == mission_roll_range(mission_index),
            forall|j: int| 0 <= j < i ==> is_campaign_ship(enemy_faction, mission_index, #[trigger] r@[j]),
        decreases count - i,
    {
        let h = random_usize_below(3);
        let b = random_u32_below(range);
        let ship = WaveShip { type_id: hulls[h], behavior: behavior_for_mission_roll(mission_index, b) };
        assert(ship == (WaveShip {
            type_id: wave_hulls_spec(enemy_faction)[h as int],
            behavior: mission_behavior_spec(mission_index, b),
        }));
        r.push(ship);
        i = i + 1;
    }
    r
}

/// Gallente frigates that raid the Last Stand platform.
pub open spec fn last_stand_hulls_spec() -> Seq<u32> {
    seq![608u32, 594, 593]
}

/// Pick the hull of one Last Stand raider at random.
pub fn last_stand_enemy_type() -> (r: u32)
    ensures
        last_stand_hulls_spec().contains(r),
{
    let hulls: [u32; 3] = [608, 594, 593];
    let h = random_usize_below(3);
    let r = hulls[h];
    assert(last_stand_hulls_spec()[h as int] == r);
    r
}

/// The fighters a carrier launches: their hull and how many at most.
#[derive(Debug, Clone, Copy, PartialEq, Eq, Structural)]
pub struct VariantSpawner {
    pub spawn_type_id: u32,
    pub max_spawned: u32,
}

/// What a specialised enemy is, apart from its floating-point tuning
/// (health, speed and weapon figures): hull, behaviour, score, whether it is
/// a boss, souls carried, the weapon family it fires instead of its hull's,
/// the fighters it launches, and whether it carries a disintegrator in place
/// of its standard weapon.
#[derive(Debug, Clone, Copy, PartialEq, Eq, Structural)]
pub struct VariantProfile {
    pub type_id: u32,
    pub behavior: EnemyBehavior,
    pub score_value: u64,
    pub is_boss: bool,
    pub liberation_value: u32,
    pub weapon_override: Option<WeaponType>,
    pub spawner: Option<VariantSpawner>,
    pub disintegrator: bool,
    pub remove_weapon: bool,
}

/// The profile of each specialised enemy.
pub open spec fn variant_profile_spec(v: EnemyVariant) -> VariantProfile {
    match v {
        EnemyVariant::Kamikaze => VariantProfile {
            type_id: 589,
            behavior: EnemyBehavior::Kamikaze,
            score_value: 150,
            is_boss: false,
            liberation_value: 1,
            weapon_override: None,
            spawner: None,
            disintegrator: false,
            remove_weapon: false,
        },
        EnemyVariant::Weaver => VariantProfile {
            type_id: 602,
            behavior: EnemyBehavior::Weaver,
            score_value: 120,
            is_boss: false,
            liberation_value: 1,
            weapon_override: None,
            spawner: None,
            disintegrator: false,
            remove_weapon: false,
        },
        EnemyVariant::Sniper => VariantProfile {
            type_id: 603,
            behavior: EnemyBehavior::Sniper,
            score_value: 130,
            is_boss: false,
            liberation_value: 1,
            weapon_override: Some(WeaponType::Railgun),
            spawner: None,
            disintegrator: false,
            remove_weapon: false,
        },
        EnemyVariant::Spawner => VariantProfile {
            type_id: 593,
            behavior: EnemyBehavior::Spawner,
            score_value: 200,
            is_boss: false,
            liberation_value: 3,
            weapon_override: None,
            spawner: Some(VariantSpawner { spawn_type_id: 589, max_spawned: 3 }),
            disintegrator: false,
            remove_weapon: false,
        },
        EnemyVariant::Tank => VariantProfile {
            type_id: 597,
            behavior: EnemyBehavior::Tank,
            score_value: 250,
            is_boss: false,
            liberation_value: 2,
            weapon_override: None,
            spawner: None,
            disintegrator: false,
            remove_weapon: false,
        },
        EnemyVariant::Damavik => VariantProfile {
            type_id: DAMAVIK,
            behavior: EnemyBehavior::Disintegrator,
            score_value: 180,
            is_boss: false,
            liberation_value: 2,
            weapon_override: None,
            spawner: None,
            disintegrator: true,
            remove_weapon: true,
        },
        EnemyVariant::StarvingDamavik => VariantProfile {
            type_id: DAMAVIK,
            behavior: EnemyBehavior::Disintegrator,
            score_value: 150,
            is_boss: false,
            liberation_value: 1,
            weapon_override: None,
            spawner: None,
            disintegrator: true,
            remove_weapon: true,
        },
        EnemyVariant::Vedmak => VariantProfile {
            type_id: VEDMAK,
            behavior: EnemyBehavior::Disintegrator,
            score_value: 350,
            is_boss: false,
            liberation_value: 5,
            weapon_override: None,
            spawner: None,
            disintegrator: true,
            remove_weapon: true,
        },
        EnemyVariant::BlindingVedmak => VariantProfile {
            type_id: VEDMAK,
            behavior: EnemyBehavior::Disintegrator,
            score_value: 320,
            is_boss: false,
            liberation_value: 4,
            weapon_override: None,
            spawner: None,
            disintegrator: true,
            remove_weapon: true,
        },
        EnemyVariant::Kikimora => VariantProfile {
            type_id: KIKIMORA,
            behavior: EnemyBehavior::Disintegrator,
            score_value: 280,
            is_boss: false,
            liberation_value: 3,
            weapon_override: None,
            spawner: None,
            disintegrator: true,
            remove_weapon: true,
        },
        EnemyVariant::Leshak => VariantProfile {
            type_id: LESHAK,
            behavior: EnemyBehavior::Disintegrator,
            score_value: 500,
            is_boss: false,
            liberation_value: 8,
            weapon_override: None,
            spawner: None,
            disintegrator: true,
            remove_weapon: true,
        },
        EnemyVariant::DrekavacBoss => VariantProfile {
            type_id: DREKAVAC,
            behavior: EnemyBehavior::Disintegrator,
            score_value: 1000,
            is_boss: true,
            liberation_value: 10,
            weapon_override: None,
            spawner: None,
            disintegrator: true,
            remove_weapon: true,
        },
        EnemyVariant::ExecutionerElite => VariantProfile {
            type_id: 589,
            behavior: EnemyBehavior::Homing,
            score_value: 200,
            is_boss: false,
            liberation_value: 1,
            weapon_override: Some(WeaponType::Laser),
            spawner: None,
            disintegrator: false,
            remove_weapon: false,
        },
        EnemyVariant::PunisherTank => VariantProfile {
            type_id: 597,
            behavior: EnemyBehavior::Tank,
            score_value: 300,
            is_boss: false,
            liberation_value: 2,
            weapon_override: Some(WeaponType::Laser),
            spawner: None,
            disintegrator: false,
            remove_weapon: false,
        },
        EnemyVariant::RifterBerserker => VariantProfile {
            type_id: 587,
            behavior: EnemyBehavior::Zigzag,
            score_value: 180,
            is_boss: false,
            liberation_value: 1,
            weapon_override: Some(WeaponType::Autocannon),
            spawner: None,
            disintegrator: false,
            remove_weapon: false,
        },
    }
}

/// The display name of each specialised enemy.
pub open spec fn variant_name_spec(v: EnemyVariant) -> Seq<char> {
    match v {
        EnemyVariant::Kamikaze => "Kamikaze"@,
        EnemyVariant::Weaver => "Weaver"@,
        EnemyVariant::Sniper => "Sniper"@,
        EnemyVariant::Spawner => "Carrier"@,
        EnemyVariant::Tank => "Juggernaut"@,
        EnemyVariant::Damavik => "Raznaborg Damavik"@,
        EnemyVariant::StarvingDamavik => "Starving Damavik"@,
        EnemyVariant::Vedmak => "Harrowing Vedmak"@,
        EnemyVariant::BlindingVedmak => "Blinding Vedmak"@,
        EnemyVariant::Kikimora => "Rapid Kikimora"@,
        EnemyVariant::Leshak => "Siege Leshak"@,
        EnemyVariant::DrekavacBoss => "Drekavac"@,
        EnemyVariant::ExecutionerElite => "Elite Executioner"@,
        EnemyVariant::PunisherTank => "Heavy Punisher"@,
        EnemyVariant::RifterBerserker => "Berserker Rifter"@,
    }
}

impl EnemyVariant {
    /// Every specialised enemy, in declaration order.
    pub const ALL: [EnemyVariant; 15] = [
        EnemyVariant::Kamikaze,
        EnemyVariant::Weaver,
        EnemyVariant::Sniper,
        EnemyVariant::Spawner,
        EnemyVariant::Tank,
        EnemyVariant::Damavik,
        EnemyVariant::StarvingDamavik,
        EnemyVariant::Vedmak,
        EnemyVariant::BlindingVedmak,
        EnemyVariant::Kikimora,
        EnemyVariant::Leshak,
        EnemyVariant::DrekavacBoss,
        EnemyVariant::ExecutionerElite,
        EnemyVariant::PunisherTank,
        EnemyVariant::RifterBerserker,
    ];

    /// The variant's profile.
    pub fn profile(&self) -> (r: VariantProfile)
        ensures
            r == variant_profile_spec(*self),
    {
        match self {
            EnemyVariant::Kamikaze => VariantProfile {
                type_id: 589,
                behavior: EnemyBehavior::Kamikaze,
                score_value: 150,
                is_boss: false,
                liberation_value: 1,
                weapon_override: None,
                spawner: None,
                disintegrator: false,
                remove_weapon: false,
            },
            EnemyVariant::Weaver => VariantProfile {
                type_id: 602,
                behavior: EnemyBehavior::Weaver,
                score_value: 120,
                is_boss: false,
                liberation_value: 1,
                weapon_override: None,
                spawner: None,
                disintegrator: false,
                remove_weapon: false,
            },
            EnemyVariant::Sniper => VariantProfile {
                type_id: 603,
                behavior: EnemyBehavior::Sniper,
                score_value: 130,
                is_boss: false,
                liberation_value: 1,
                weapon_override: Some(WeaponType::Railgun),
                spawner: None,
                disintegrator: false,
                remove_weapon: false,
            },
            EnemyVariant::Spawner => VariantProfile {
                type_id: 593,
                behavior: EnemyBehavior::Spawner,
                score_value: 200,
                is_boss: false,
                liberation_value: 3,
                weapon_override: None,
                spawner: Some(VariantSpawner { spawn_type_id: 589, max_spawned: 3 }),
                disintegrator: false,
                remove_weapon: false,
            },
            EnemyVariant::Tank => VariantProfile {
                type_id: 597,
                behavior: EnemyBehavior::Tank,
                score_value: 250,
                is_boss: false,
                liberation_value: 2,
                weapon_override: None,
                spawner: None,
                disintegrator: false,
                remove_weapon: false,
            },
            EnemyVariant::Damavik => VariantProfile {
                type_id: DAMAVIK,
                behavior: EnemyBehavior::Disintegrator,
                score_value: 180,
                is_boss: false,
                liberation_value: 2,
                weapon_override: None,
                spawner: None,
                disintegrator: true,
                remove_weapon: true,
            },
            EnemyVariant::StarvingDamavik => VariantProfile {
                type_id: DAMAVIK,
                behavior: EnemyBehavior::Disintegrator,
                score_value: 150,
                is_boss: false,
                liberation_value: 1,
                weapon_override: None,
                spawner: None,
                disintegrator: true,
                remove_weapon: true,
            },
            EnemyVariant::Vedmak => VariantProfile {
                type_id: VEDMAK,
                behavior: EnemyBehavior::Disintegrator,
                score_value: 350,
                is_boss: false,
                liberation_value: 5,
                weapon_override: None,
                spawner: None,
                disintegrator: true,
                remove_weapon: true,
            },
            EnemyVariant::BlindingVedmak => VariantProfile {
                type_id: VEDMAK,
                behavior: EnemyBehavior::Disintegrator,
                score_value: 320,
                is_boss: false,
                liberation_value: 4,
                weapon_override: None,
                spawner: None,
                disintegrator: true,
                remove_weapon: true,
            },
            EnemyVariant::Kikimora => VariantProfile {
                type_id: KIKIMORA,
                behavior: EnemyBehavior::Disintegrator,
                score_value: 280,
                is_boss: false,
                liberation_value: 3,
                weapon_override: None,
                spawner: None,
                disintegrator: true,
                remove_weapon: true,
            },
            EnemyVariant::Leshak => VariantProfile {
                type_id: LESHAK,
                behavior: EnemyBehavior::Disintegrator,
                score_value: 500,
                is_boss: false,
                liberation_value: 8,
                weapon_override: None,
                spawner: None,
                disintegrator: true,
                remove_weapon: true,
            },
            EnemyVariant::DrekavacBoss => VariantProfile {
                type_id: DREKAVAC,
                behavior: EnemyBehavior::Disintegrator,
                score_value: 1000,
                is_boss: true,
                liberation_value: 10,
                weapon_override: None,
                spawner: None,
                disintegrator: true,
                remove_weapon: true,
            },
            EnemyVariant::ExecutionerElite => VariantProfile {
                type_id: 589,
                behavior: EnemyBehavior::Homing,
                score_value: 200,
                is_boss: false,
                liberation_value: 1,
                weapon_override: Some(WeaponType::Laser),
                spawner: None,
                disintegrator: false,
                remove_weapon: false,
            },
            EnemyVariant::PunisherTank => VariantProfile {
                type_id: 597,
                behavior: EnemyBehavior::Tank,
                score_value: 300,
                is_boss: false,
                liberation_value: 2,
                weapon_override: Some(WeaponType::Laser),
                spawner: None,
                disintegrator: false,
                remove_weapon: false,
            },
            EnemyVariant::RifterBerserker => VariantProfile {
                type_id: 587,
                behavior: EnemyBehavior::Zigzag,
                score_value: 180,
                is_boss: false,
                liberation_value: 1,
                weapon_override: Some(WeaponType::Autocannon),
                spawner: None,
                disintegrator: false,
                remove_weapon: false,
            },
        }
    }

    /// The variant's display name.
    pub fn name(&self) -> (r: &'static str)
        ensures
            r@ == variant_name_spec(*self),
    {
        match self {
            EnemyVariant::Kamikaze => "Kamikaze",
            EnemyVariant::Weaver => "Weaver",
            EnemyVariant::Sniper => "Sniper",
            EnemyVariant::Spawner => "Carrier",
            EnemyVariant::Tank => "Juggernaut",
            EnemyVariant::Damavik => "Raznaborg Damavik",
            EnemyVariant::StarvingDamavik => "Starving Damavik",
            EnemyVariant::Vedmak => "Harrowing Vedmak",
            EnemyVariant::BlindingVedmak => "Blinding Vedmak",
            EnemyVariant::Kikimora => "Rapid Kikimora",
            EnemyVariant::Leshak => "Siege Leshak",
            EnemyVariant::DrekavacBoss => "Drekavac",
            EnemyVariant::ExecutionerElite => "Elite Executioner",
            EnemyVariant::PunisherTank => "Heavy Punisher",
            EnemyVariant::RifterBerserker => "Berserker Rifter",
        }
    }
}

/// The Drekavac is the only boss among the specialised enemies, and scores
/// more than any other of them.
pub proof fn law_drekavac_is_the_only_boss(v: EnemyVariant)
    ensures
        variant_profile_spec(v).is_boss <==> v == EnemyVariant::DrekavacBoss,
        v != EnemyVariant::DrekavacBoss ==> variant_profile_spec(v).score_value
            < variant_profile_spec(EnemyVariant::DrekavacBoss).score_value,
{
}

/// Every specialised enemy scores something and frees at least one soul.
pub proof fn law_variants_reward(v: EnemyVariant)
    ensures
        variant_profile_spec(v).score_value > 0,
        variant_profile_spec(v).liberation_value >= 1,
        variant_name_spec(v).len() > 0,
{
    reveal_strlit("Kamikaze");
    reveal_strlit("Weaver");
    reveal_strlit("Sniper");
    reveal_strlit("Carrier");
    reveal_strlit("Juggernaut");
    reveal_strlit("Raznaborg Damavik");
    reveal_strlit("Starving Damavik");
    reveal_strlit("Harrowing Vedmak");
    reveal_strlit("Blinding Vedmak");
    reveal_strlit("Rapid Kikimora");
    reveal_strlit("Siege Leshak");
    reveal_strlit("Drekavac");
    reveal_strlit("Elite Executioner");
    reveal_strlit("Heavy Punisher");
    reveal_strlit("Berserker Rifter");
}

/// Exactly the Triglavian variants fly with a disintegrator, and each of
/// them gives up its standard weapon for it and fights with the
/// disintegrator behaviour.
pub proof fn law_triglavians_carry_disintegrators(v: EnemyVariant)
    ensures
        variant_profile_spec(v).disintegrator <==> (variant_profile_spec(v).type_id == DAMAVIK
            || variant_profile_spec(v).type_id == VEDMAK
            || variant_profile_spec(v).type_id == KIKIMORA
            || variant_profile_spec(v).type_id == LESHAK
            || variant_profile_spec(v).type_id == DREKAVAC),
        variant_profile_spec(v).disintegrator == variant_profile_spec(v).remove_weapon,
        variant_profile_spec(v).disintegrator <==> variant_profile_spec(v).behavior
            == EnemyBehavior::Disintegrator,
        variant_profile_spec(v).disintegrator ==> variant_profile_spec(v).weapon_override is None,
{
}

} // verus!
