//! The control actions a player can hold, and the marker trait the input
//! layer keys its maps by.

use vstd::prelude::*;

verus! {

/// What any action enumeration must offer the input layer.
pub trait ActionLike: Default + Copy + Eq {

}

/// The actions steering an asteroid-game ship.
#[derive(PartialEq, Eq, Structural, Hash, Clone, Copy, Debug, Default)]
pub enum AsteroidAction {
    #[default]
    TurnLeft,
    TurnRight,
    Forward,
    Backward,
    Shoot,
}

impl ActionLike for AsteroidAction {

}

} // verus!
