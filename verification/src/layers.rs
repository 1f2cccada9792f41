//! The gameplay collision layers, as the raw bits of a `LayerMask`.

use vstd::prelude::*;

verus! {

/// The layer the player ship occupies.
pub const PLAYER_MASK: u8 = 1;

/// The layer the enemies occupy.
pub const ENEMY_MASK: u8 = 2;

} // verus!
