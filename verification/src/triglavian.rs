//! Type ids of Triglavian hulls.

use vstd::prelude::*;

verus! {

/// Light frigate.
pub const DAMAVIK: u32 = 47269;
/// Cruiser.
pub const VEDMAK: u32 = 47270;
/// Battleship.
pub const LESHAK: u32 = 47271;
/// Destroyer.
pub const KIKIMORA: u32 = 49710;
/// Battlecruiser.
pub const DREKAVAC: u32 = 49711;
/// Assault frigate.
pub const NERGAL: u32 = 52250;
/// Heavy assault cruiser.
pub const IKITURSA: u32 = 52252;
/// Command destroyer.
pub const DRAUGUR: u32 = 52254;

} // verus!
