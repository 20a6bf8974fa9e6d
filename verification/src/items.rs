//! Persistent stacking weapon mods.
//!
//! Weapon-mod pickups stack in the player's inventory until the ship dies.
//! Each mod belongs to one weapon family and is inert on other weapons.

use vstd::prelude::*;
use crate::collectibles::CollectibleType;
use crate::factions::{Faction, WeaponType, faction_default_weapon};

verus! {

/// Stats a weapon mod can change.
#[derive(Clone, Copy, Debug, PartialEq, Eq, Structural)]
pub enum Stat {
    Damage,
    FireRate,
    ProjectileCount,
    Spread,
    Pierce,
    CritChance,
    CritDamage,
    HomingStrength,
    ChainTargets,
    BurnDoT,
}

/// In-fiction display name of a weapon-mod pickup; empty for other pickups.
pub open spec fn display_name_spec(t: CollectibleType) -> Seq<char> {
    match t {
        CollectibleType::ScatterLauncher => "Scourge Rage Missile"@,
        CollectibleType::RailSpike => "Republic Fleet Barrage"@,
        CollectibleType::PlasmaLance => "Conflagration Pulse"@,
        CollectibleType::HomingSwarm => "Warrior Drone Swarm"@,
        CollectibleType::VortonProjector => "Vorton Projector"@,
        _ => ""@,
    }
}

/// In-fiction display name of a weapon-mod pickup; empty for other pickups.
pub fn display_name(t: CollectibleType) -> (r: &'static str)
    ensures
        r@ == display_name_spec(t),
{
    match t {
        CollectibleType::ScatterLauncher => "Scourge Rage Missile",
        CollectibleType::RailSpike => "Republic Fleet Barrage",
        CollectibleType::PlasmaLance => "Conflagration Pulse",
        CollectibleType::HomingSwarm => "Warrior Drone Swarm",
        CollectibleType::VortonProjector => "Vorton Projector",
        _ => "",
    }
}

/// Weapon family a mod attaches to; `None` for pickups that are not mods.
pub open spec fn required_weapon_spec(t: CollectibleType) -> Option<WeaponType> {
    match t {
        CollectibleType::ScatterLauncher => Some(WeaponType::MissileLauncher),
        CollectibleType::RailSpike => Some(WeaponType::Autocannon),
        CollectibleType::PlasmaLance => Some(WeaponType::Laser),
        CollectibleType::HomingSwarm => Some(WeaponType::Drone),
        CollectibleType::VortonProjector => Some(WeaponType::Vorton),
        _ => None,
    }
}

/// Weapon family a mod attaches to; `None` for pickups that are not mods.
pub fn required_weapon_type(t: CollectibleType) -> (r: Option<WeaponType>)
    ensures
        r == required_weapon_spec(t),
{
    match t {
        CollectibleType::ScatterLauncher => Some(WeaponType::MissileLauncher),
        CollectibleType::RailSpike => Some(WeaponType::Autocannon),
        CollectibleType::PlasmaLance => Some(WeaponType::Laser),
        CollectibleType::HomingSwarm => Some(WeaponType::Drone),
        CollectibleType::VortonProjector => Some(WeaponType::Vorton),
        _ => None,
    }
}

/// Whether a stack of `t` counts for a ship firing `weapon`: mods count only
/// on their own weapon family.
pub open spec fn mod_applies_spec(t: CollectibleType, weapon: WeaponType) -> bool {
    match required_weapon_spec(t) {
        Some(req) => req == weapon,
        None => true,
    }
}

/// Whether a stack of `t` counts for a ship firing `weapon`.
pub fn mod_applies(t: CollectibleType, weapon: WeaponType) -> (r: bool)
    ensures
        r == mod_applies_spec(t, weapon),
{
    match required_weapon_type(t) {
        Some(req) => req == weapon,
        None => true,
    }
}

/// A stack of identical pickups.
#[derive(Clone, Copy, Debug)]
pub struct ItemStack {
    pub id: CollectibleType,
    pub count: u32,
}

/// Stacks held, as plain values.
pub open spec fn stacks_view(v: Seq<ItemStack>) -> Seq<(CollectibleType, u32)> {
    v.map_values(|s: ItemStack| (s.id, s.count))
}

/// No two stacks share a pickup kind.
pub open spec fn distinct_ids(s: Seq<(CollectibleType, u32)>) -> bool {
    forall|i: int, j: int| 0 <= i < s.len() && 0 <= j < s.len() && i != j ==> s[i].0 != s[j].0
}

/// `i` is the first stack of kind `id`.
pub open spec fn first_stack_at(s: Seq<(CollectibleType, u32)>, id: CollectibleType, i: int) -> bool {
    0 <= i < s.len() && s[i].0 == id && forall|j: int| 0 <= j < i ==> s[j].0 != id
}

/// Effect of `Inventory::add`: one more in the first stack of that kind, or a
/// new stack of one at the end.
pub open spec fn add_spec(s: Seq<(CollectibleType, u32)>, id: CollectibleType) -> Seq<(CollectibleType, u32)> {
    if exists|i: int| #[trigger] first_stack_at(s, id, i) {
        let i = choose|i: int| #[trigger] first_stack_at(s, id, i);
        s.update(i, (id, (s[i].1 + 1) as u32))
    } else {
        s.push((id, 1u32))
    }
}

/// How many of a kind the stacks hold.
pub open spec fn held_count(s: Seq<(CollectibleType, u32)>, id: CollectibleType) -> int
    decreases s.len(),
{
    if s.len() == 0 {
        0
    } else {
        held_count(s.drop_last(), id) + if s.last().0 == id { s.last().1 as int } else { 0 }
    }
}

/// The player's stacked pickups; `dirty` marks that derived stats are stale.
#[derive(Debug, Default)]
pub struct Inventory {
    pub stacks: Vec<ItemStack>,
    pub dirty: bool,
}

impl Inventory {
    /// Add one pickup: the first stack of that kind grows by one, or a new
    /// stack of one is appended. Derived stats become stale.
    pub fn add(&mut self, id: CollectibleType)
        requires
            forall|i: int| 0 <= i < old(self).stacks@.len() && old(self).stacks@[i].id == id
                ==> old(self).stacks@[i].count < u32::MAX,
        ensures
            stacks_view(final(self).stacks@) == add_spec(stacks_view(old(self).stacks@), id),
            final(self).dirty,
    {
        let ghost s = stacks_view(self.stacks@);
        let mut i: usize = 0;
        let mut found = false;
        while i < self.stacks.len() && !found
            invariant
                i <= self.stacks@.len(),
                s == stacks_view(self.stacks@),
                !found ==> forall|j: int| 0 <= j < i ==> s[j].0 != id,
                found ==> i >= 1 && first_stack_at(s, id, i - 1),
            decreases self.stacks@.len() - i + if found { 0int } else { 1int },
        {
            if self.stacks[i].id == id {
                found = true;
            }
            i = i + 1;
        }
        if found {
            let k = i - 1;
            assert(first_stack_at(s, id, k as int));
            assert(forall|m: int| #[trigger] first_stack_at(s, id, m) ==> m == k);
            let mut st = self.stacks[k];
            st.count = st.count + 1;
            self.stacks.set(k, st);
            assert(stacks_view(self.stacks@) =~= add_spec(s, id));
        } else {
            assert(!exists|m: int| #[trigger] first_stack_at(s, id, m));
            self.stacks.push(ItemStack { id, count: 1 });
            assert(stacks_view(self.stacks@) =~= add_spec(s, id));
        }
        self.dirty = true;
    }
}

proof fn lemma_held_count_update(s: Seq<(CollectibleType, u32)>, i: int, v: (CollectibleType, u32), id: CollectibleType)
    requires
        0 <= i < s.len(),
    ensures
        held_count(s.update(i, v), id) == held_count(s, id)
            - (if s[i].0 == id { s[i].1 as int } else { 0 })
            + (if v.0 == id { v.1 as int } else { 0 }),
    decreases s.len(),
{
    if i == s.len() - 1 {
        assert(s.update(i, v).drop_last() =~= s.drop_last());
    } else {
        lemma_held_count_update(s.drop_last(), i, v, id);
        assert(s.update(i, v).drop_last() =~= s.drop_last().update(i, v));
    }
}

/// Adding a pickup raises its held count by one and leaves every other
/// kind's count alone; stacks stay one per kind.
pub proof fn law_add_counts_one(s: Seq<(CollectibleType, u32)>, id: CollectibleType, other: CollectibleType)
    requires
        distinct_ids(s),
        forall|i: int| 0 <= i < s.len() && s[i].0 == id ==> s[i].1 < u32::MAX,
    ensures
        held_count(add_spec(s, id), id) == held_count(s, id) + 1,
        other != id ==> held_count(add_spec(s, id), other) == held_count(s, other),
        distinct_ids(add_spec(s, id)),
{
    if exists|i: int| #[trigger] first_stack_at(s, id, i) {
        let i = choose|i: int| #[trigger] first_stack_at(s, id, i);
        lemma_held_count_update(s, i, (id, (s[i].1 + 1) as u32), id);
        lemma_held_count_update(s, i, (id, (s[i].1 + 1) as u32), other);
    } else {
        assert(s.push((id, 1u32)).drop_last() =~= s);
        assert forall|i: int| 0 <= i < s.len() implies s[i].0 != id by {
            if s[i].0 == id {
                lemma_first_stack_exists(s, id, i);
            }
        }
    }
}

proof fn lemma_first_stack_exists(s: Seq<(CollectibleType, u32)>, id: CollectibleType, j: int)
    requires
        0 <= j < s.len(),
        s[j].0 == id,
    ensures
        exists|i: int| #[trigger] first_stack_at(s, id, i),
    decreases j,
{
    if exists|m: int| 0 <= m < j && s[m].0 == id {
        let m = choose|m: int| 0 <= m < j && s[m].0 == id;
        lemma_first_stack_exists(s, id, m);
    } else {
        assert(first_stack_at(s, id, j));
    }
}

/// The weapon mod carrying a faction's doctrine: Scourge Rage missiles
/// (Caldari), Republic Fleet Barrage (Minmatar), Conflagration Pulse
/// (Amarr), Warrior drones (Gallente).
pub open spec fn faction_mod(f: Faction) -> CollectibleType {
    match f {
        Faction::Caldari => CollectibleType::ScatterLauncher,
        Faction::Minmatar => CollectibleType::RailSpike,
        Faction::Amarr => CollectibleType::PlasmaLance,
        Faction::Gallente => CollectibleType::HomingSwarm,
    }
}

/// Each faction's weapon mod counts exactly on that faction's weapon family
/// (missiles, autocannons, lasers, drones), the Vorton projector only on
/// Vorton weapons, and any pickup that is not a mod counts on every weapon.
pub proof fn law_mods_follow_faction_weapons(f: Faction, w: WeaponType, t: CollectibleType)
    ensures
        mod_applies_spec(faction_mod(f), w) <==> w == faction_default_weapon(f),
        required_weapon_spec(faction_mod(f)) == Some(faction_default_weapon(f)),
        mod_applies_spec(CollectibleType::VortonProjector, w) <==> w == WeaponType::Vorton,
        display_name_spec(t).len() == 0 ==> mod_applies_spec(t, w),
{
    reveal_strlit("");
    reveal_strlit("Scourge Rage Missile");
    reveal_strlit("Republic Fleet Barrage");
    reveal_strlit("Conflagration Pulse");
    reveal_strlit("Warrior Drone Swarm");
    reveal_strlit("Vorton Projector");
}

} // verus!
