//! Type ids of EDENCOM hulls.

use vstd::prelude::*;

verus! {

/// Frigate.
pub const SKYBREAKER: u32 = 54731;
/// Battleship.
pub const STORMBRINGER: u32 = 54732;
/// Cruiser.
pub const THUNDERCHILD: u32 = 54733;

} // verus!
