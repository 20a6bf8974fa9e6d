//! Factions, ship classes, doctrines and the hull-to-weapon tables.

use vstd::prelude::*;

verus! {

/// The four empire factions.
#[derive(Debug, Clone, Copy, PartialEq, Eq, Structural)]
pub enum Faction {
    Minmatar,
    Amarr,
    Caldari,
    Gallente,
}

/// Ship hull classes.
#[derive(Debug, Clone, Copy, PartialEq, Eq, Structural)]
pub enum ShipClass {
    Frigate,
    AssaultFrigate,
    Interceptor,
    Destroyer,
    TacticalDestroyer,
    Cruiser,
    Battlecruiser,
    Battleship,
}

pub open spec fn ship_class_name_spec(c: ShipClass) -> Seq<char> {
    match c {
        ShipClass::Frigate => "Frigate"@,
        ShipClass::AssaultFrigate => "Assault Frigate"@,
        ShipClass::Interceptor => "Interceptor"@,
        ShipClass::Destroyer => "Destroyer"@,
        ShipClass::TacticalDestroyer => "Tactical Destroyer"@,
        ShipClass::Cruiser => "Cruiser"@,
        ShipClass::Battlecruiser => "Battlecruiser"@,
        ShipClass::Battleship => "Battleship"@,
    }
}

impl ShipClass {
    /// Display name of the class.
    pub fn name(&self) -> (r: &'static str)
        ensures
            r@ == ship_class_name_spec(*self),
    {
        match self {
            ShipClass::Frigate => "Frigate",
            ShipClass::AssaultFrigate => "Assault Frigate",
            ShipClass::Interceptor => "Interceptor",
            ShipClass::Destroyer => "Destroyer",
            ShipClass::TacticalDestroyer => "Tactical Destroyer",
            ShipClass::Cruiser => "Cruiser",
            ShipClass::Battlecruiser => "Battlecruiser",
            ShipClass::Battleship => "Battleship",
        }
    }
}


/// Weapon doctrine of a faction.
#[derive(Debug, Clone, Copy, PartialEq, Eq, Structural)]
pub enum WeaponDoctrine {
    Projectile,
    Laser,
    Missile,
    Hybrid,
}

/// Display name of a weapon doctrine.
pub open spec fn doctrine_name_spec(d: WeaponDoctrine) -> Seq<char> {
    match d {
        WeaponDoctrine::Projectile => "Autocannons"@,
        WeaponDoctrine::Laser => "Lasers"@,
        WeaponDoctrine::Missile => "Missiles"@,
        WeaponDoctrine::Hybrid => "Blasters"@,
    }
}

impl WeaponDoctrine {
    /// Display name of the doctrine's weapons.
    pub fn name(&self) -> (r: &'static str)
        ensures
            r@ == doctrine_name_spec(*self),
    {
        match self {
            WeaponDoctrine::Projectile => "Autocannons",
            WeaponDoctrine::Laser => "Lasers",
            WeaponDoctrine::Missile => "Missiles",
            WeaponDoctrine::Hybrid => "Blasters",
        }
    }
}

/// Tank doctrine of a faction.
#[derive(Debug, Clone, Copy, PartialEq, Eq, Structural)]
pub enum TankDoctrine {
    Shield,
    Armor,
    Speed,
}

/// Weapon families a hull can fire.
#[derive(Debug, Clone, Copy, PartialEq, Eq, Hash, Structural)]
pub enum WeaponType {
    Autocannon,
    Artillery,
    Laser,
    Railgun,
    MissileLauncher,
    Drone,
    Disintegrator,
    Vorton,
}

/// Weapon fired by an enemy hull, by type id; unknown hulls fire lasers.
pub open spec fn faction_weapon_spec(type_id: u32) -> WeaponType {
    if type_id == 597 || type_id == 589 || type_id == 591 || type_id == 16236 || type_id == 24696
        || type_id == 624 {
        WeaponType::Laser
    } else if type_id == 603 || type_id == 16238 || type_id == 11381 {
        WeaponType::Railgun
    } else if type_id == 602 || type_id == 583 || type_id == 24698 {
        WeaponType::MissileLauncher
    } else if type_id == 593 || type_id == 594 || type_id == 608 || type_id == 16240 || type_id
        == 24700 {
        WeaponType::Drone
    } else if type_id == 585 || type_id == 587 || type_id == 598 {
        WeaponType::Autocannon
    } else if type_id == 47269 || type_id == 47270 || type_id == 47271 || type_id == 49710
        || type_id == 49711 || type_id == 52250 {
        WeaponType::Disintegrator
    } else if 54731 <= type_id <= 54733 {
        WeaponType::Vorton
    } else {
        WeaponType::Laser
    }
}

/// Weapon fired by an enemy hull, by type id; unknown hulls fire lasers.
pub fn get_faction_weapon(type_id: u32) -> (r: WeaponType)
    ensures
        r == faction_weapon_spec(type_id),
{
    match type_id {
        597 | 589 | 591 | 16236 | 24696 | 624 => WeaponType::Laser,
        603 | 16238 | 11381 => WeaponType::Railgun,
        602 | 583 | 24698 => WeaponType::MissileLauncher,
        593 | 594 | 608 | 16240 | 24700 => WeaponType::Drone,
        585 | 587 | 598 => WeaponType::Autocannon,
        47269 | 47270 | 47271 | 49710 | 49711 | 52250 => WeaponType::Disintegrator,
        54731..=54733 => WeaponType::Vorton,
        _ => WeaponType::Laser,
    }
}

/// Default weapon family of a faction's player ships.
pub open spec fn faction_default_weapon(f: Faction) -> WeaponType {
    match f {
        Faction::Amarr => WeaponType::Laser,
        Faction::Caldari => WeaponType::MissileLauncher,
        Faction::Gallente => WeaponType::Drone,
        Faction::Minmatar => WeaponType::Autocannon,
    }
}

/// Weapon family of a player hull: the hull decides where it is listed,
/// otherwise the faction's default applies.
pub open spec fn player_weapon_spec(type_id: u32, faction: Faction) -> WeaponType {
    if 54731 <= type_id <= 54733 {
        WeaponType::Vorton
    } else if type_id == 47269 || type_id == 47270 || type_id == 47271 || type_id == 49710
        || type_id == 49711 || type_id == 52250 {
        WeaponType::Disintegrator
    } else if type_id == 602 || type_id == 583 || type_id == 11379 || type_id == 34828 || type_id
        == 621 || type_id == 24698 {
        WeaponType::MissileLauncher
    } else if type_id == 603 || type_id == 16238 || type_id == 11381 {
        WeaponType::Railgun
    } else if type_id == 597 || type_id == 589 || type_id == 591 || type_id == 16236 || type_id
        == 24696 || type_id == 11393 || type_id == 34317 {
        WeaponType::Laser
    } else if type_id == 12019 {
        WeaponType::MissileLauncher
    } else if type_id == 593 || type_id == 594 || type_id == 608 || type_id == 16240 || type_id
        == 24700 || type_id == 12044 || type_id == 12042 || type_id == 35683 {
        WeaponType::Drone
    } else if type_id == 587 || type_id == 585 || type_id == 598 || type_id == 11400 {
        WeaponType::Autocannon
    } else if type_id == 11993 || type_id == 17715 {
        WeaponType::MissileLauncher
    } else {
        faction_default_weapon(faction)
    }
}

/// Weapon family of a player hull.
pub fn get_player_weapon_type(type_id: u32, faction: Faction) -> (r: WeaponType)
    ensures
        r == player_weapon_spec(type_id, faction),
{
    match type_id {
        54731..=54733 => WeaponType::Vorton,
        47269 | 47270 | 47271 | 49710 | 49711 | 52250 => WeaponType::Disintegrator,
        602 | 583 | 11379 | 34828 | 621 | 24698 => WeaponType::MissileLauncher,
        603 | 16238 | 11381 => WeaponType::Railgun,
        597 | 589 | 591 | 16236 | 24696 | 11393 | 34317 => WeaponType::Laser,
        12019 => WeaponType::MissileLauncher,
        593 | 594 | 608 | 16240 | 24700 | 12044 | 12042 | 35683 => WeaponType::Drone,
        587 | 585 | 598 | 11400 => WeaponType::Autocannon,
        11993 => WeaponType::MissileLauncher,
        17715 => WeaponType::MissileLauncher,
        _ => match faction {
            Faction::Amarr => WeaponType::Laser,
            Faction::Caldari => WeaponType::MissileLauncher,
            Faction::Gallente => WeaponType::Drone,
            Faction::Minmatar => WeaponType::Autocannon,
        },
    }
}

/// Hulls drawn with their own art, without a faction tint.
pub open spec fn untinted_hull_spec(type_id: u32) -> bool {
    type_id == 54731 || type_id == 54733 || type_id == 54732 || type_id == 47269 || type_id
        == 47270 || type_id == 47271 || type_id == 49710 || type_id == 49711 || type_id == 52250
        || type_id == 17715
}

/// Whether a hull is drawn with its own art, without a faction tint
/// (EDENCOM, Triglavian and pirate hulls).
pub fn is_untinted_hull(type_id: u32) -> (r: bool)
    ensures
        r == untinted_hull_spec(type_id),
{
    match type_id {
        54731 | 54733 | 54732 | 47269 | 47270 | 47271 | 49710 | 49711 | 52250 | 17715 => true,
        _ => false,
    }
}

/// Souls carried by an enemy hull, freed when it is destroyed.
pub open spec fn liberation_value_spec(type_id: u32) -> u32 {
    if type_id == 20185 {
        5
    } else if type_id == 2006 {
        3
    } else if type_id == 24690 {
        2
    } else if type_id == 24692 {
        3
    } else {
        1
    }
}

/// Souls carried by an enemy hull, freed when it is destroyed.
pub fn liberation_value(type_id: u32) -> (r: u32)
    ensures
        r == liberation_value_spec(type_id),
{
    match type_id {
        20185 => 5,
        2006 => 3,
        24690 => 2,
        24692 => 3,
        _ => 1,
    }
}

/// Icon file of a faction's emblem.
pub open spec fn faction_icon_spec(f: Faction) -> Seq<char> {
    match f {
        Faction::Amarr => "amarr.png"@,
        Faction::Caldari => "caldari.png"@,
        Faction::Gallente => "gallente.png"@,
        Faction::Minmatar => "minmatar.png"@,
    }
}

/// Icon file of a faction's emblem.
pub fn faction_icon_filename(f: Faction) -> (r: &'static str)
    ensures
        r@ == faction_icon_spec(f),
{
    match f {
        Faction::Amarr => "amarr.png",
        Faction::Caldari => "caldari.png",
        Faction::Gallente => "gallente.png",
        Faction::Minmatar => "minmatar.png",
    }
}

} // verus!
