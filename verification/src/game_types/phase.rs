//! The phases a player goes through during a match.

use vstd::prelude::*;

verus! {

/// Player's current phase within the game.
#[derive(Debug, Clone, Copy, PartialEq, Eq, Structural)]
pub enum PlayerPhase {
    /// On the battle bus, hasn't dropped yet
    OnBus,
    /// Freefalling after exiting bus
    Freefall,
    /// Glider/parachute deployed
    Gliding,
    /// On the ground, normal gameplay
    Grounded,
    /// Dead, eliminated from the match
    Eliminated,
    /// Spectating another player
    Spectating,
}

impl Default for PlayerPhase {
    fn default() -> (r: Self)
        ensures
            r == PlayerPhase::OnBus,
    {
        PlayerPhase::OnBus
    }
}

impl PlayerPhase {
    /// Whether the player can move in this phase.
    pub fn can_move(&self) -> (r: bool)
        ensures
            r == (*self is Freefall || *self is Gliding || *self is Grounded),
    {
        matches!(self, Self::Freefall | Self::Gliding | Self::Grounded)
    }

    /// Whether the player can take damage in this phase.
    pub fn can_take_damage(&self) -> (r: bool)
        ensures
            r == (*self is Freefall || *self is Gliding || *self is Grounded),
    {
        matches!(self, Self::Freefall | Self::Gliding | Self::Grounded)
    }

    /// Whether the player is in the air.
    pub fn is_airborne(&self) -> (r: bool)
        ensures
            r == (*self is OnBus || *self is Freefall || *self is Gliding),
    {
        matches!(self, Self::OnBus | Self::Freefall | Self::Gliding)
    }

    /// Whether the player is alive.
    pub fn is_alive(&self) -> (r: bool)
        ensures
            r == !(*self is Eliminated),
    {
        !matches!(self, Self::Eliminated)
    }

    /// Whether the player is playing (not spectating or eliminated).
    pub fn is_active(&self) -> (r: bool)
        ensures
            r == !(*self is Eliminated || *self is Spectating),
    {
        !matches!(self, Self::Eliminated | Self::Spectating)
    }
}

} // verus!
