//! World rules: the storm's phase schedule and loot drops.

use vstd::prelude::*;

verus! {

/// Storm phase.
#[derive(Debug, Clone, Copy, PartialEq, Eq, Structural)]
pub enum StormPhase {
    /// Waiting before first shrink
    Waiting,
    /// Storm is shrinking
    Shrinking,
    /// Storm is paused between phases
    Paused,
    /// Final circle, match ending
    Final,
}

impl Default for StormPhase {
    fn default() -> (r: Self)
        ensures
            r == StormPhase::Waiting,
    {
        StormPhase::Waiting
    }
}

/// Seconds the storm waits before its first shrink.
pub const STORM_FIRST_WAIT_SECS: u32 = 120;
/// Seconds the storm pauses after each shrink.
pub const STORM_PAUSE_SECS: u32 = 60;
/// The shrink after which the storm enters its final circle.
pub const STORM_FINAL_PHASE: u8 = 7;

/// The storm's schedule: which phase it is in, how many shrinks have
/// started, and the damage it deals per second outside the safe zone.
///
/// The circle itself (centre, radius, their targets) and the phase timer
/// are real-valued and kept by the caller, who tells [`Storm::update`]
/// whether the timer has run out and whether the circle has reached its
/// target.
#[derive(Debug, Clone, Copy, PartialEq, Eq, Structural)]
pub struct Storm {
    pub phase: StormPhase,
    pub phase_number: u8,
    pub damage_per_second: u8,
}

/// What the caller does to the circle after a storm update.
#[derive(Debug, Clone, Copy, PartialEq, Eq, Structural)]
pub enum StormStep {
    /// Nothing changes.
    Hold,
    /// A shrink starts: the target radius becomes half the radius, the
    /// target centre an offset inside the circle.
    BeginShrink,
    /// The final circle starts: the target radius becomes zero.
    BeginFinal,
    /// The circle reached its target: snap to it and pause for
    /// [`STORM_PAUSE_SECS`].
    Settle,
}

/// The schedule after the next shrink starts from `s`.
pub open spec fn after_shrink(s: Storm) -> Storm {
    let n = s.phase_number + 1;
    if n >= STORM_FINAL_PHASE {
        Storm { phase: StormPhase::Final, phase_number: n as u8, damage_per_second: 10 }
    } else {
        Storm { phase: StormPhase::Shrinking, phase_number: n as u8, damage_per_second: if n < 5 { n as u8 } else { 5 } }
    }
}

/// The schedule a storm follows from [`Storm::new`]: at most seven shrinks,
/// final exactly after the seventh, one damage per second before the first,
/// then the shrink count capped at five, and ten in the final circle.
pub open spec fn on_schedule(s: Storm) -> bool {
    &&& s.phase_number <= STORM_FINAL_PHASE
    &&& (s.phase is Final <==> s.phase_number == STORM_FINAL_PHASE)
    &&& (s.phase is Waiting <==> s.phase_number == 0)
    &&& s.damage_per_second == if s.phase_number == 0 {
        1
    } else if s.phase is Final {
        10
    } else if s.phase_number < 5 {
        s.phase_number
    } else {
        5
    }
}

impl Storm {
    /// A storm waiting for its first shrink, dealing one point per second.
    pub fn new() -> (s: Self)
        ensures
            s == (Storm { phase: StormPhase::Waiting, phase_number: 0, damage_per_second: 1 }),
            on_schedule(s),
    {
        Storm { phase: StormPhase::Waiting, phase_number: 0, damage_per_second: 1 }
    }

    /// One storm update. While waiting or paused, a timer that ran out
    /// starts the next shrink: the shrink count goes up, and from the
    /// seventh on the storm is final (ten damage per second); before that
    /// it shrinks, dealing as much damage as shrinks so far (at most five).
    /// While shrinking, reaching the target pauses it. The final circle
    /// never changes.
    pub fn update(&mut self, timer_expired: bool, reached_target: bool) -> (step: StormStep)
        requires
            (old(self).phase is Waiting || old(self).phase is Paused) && timer_expired
                ==> old(self).phase_number < 255,
        ensures
            (old(self).phase is Waiting || old(self).phase is Paused) && timer_expired ==> {
                &&& *final(self) == after_shrink(*old(self))
                &&& step == if final(self).phase is Final { StormStep::BeginFinal } else { StormStep::BeginShrink }
            },
            old(self).phase is Shrinking && reached_target ==> {
                &&& *final(self) == (Storm { phase: StormPhase::Paused, ..*old(self) })
                &&& step == StormStep::Settle
            },
            !((old(self).phase is Waiting || old(self).phase is Paused) && timer_expired)
                && !(old(self).phase is Shrinking && reached_target) ==> {
                &&& *final(self) == *old(self)
                &&& step == StormStep::Hold
            },
            final(self).phase_number >= old(self).phase_number,
            on_schedule(*old(self)) ==> on_schedule(*final(self)),
            on_schedule(*old(self)) ==> final(self).damage_per_second >= old(self).damage_per_second,
    {
        match self.phase {
            StormPhase::Waiting | StormPhase::Paused => {
                if timer_expired {
                    self.start_shrink()
                } else {
                    StormStep::Hold
                }
            },
            StormPhase::Shrinking => {
                if reached_target {
                    self.phase = StormPhase::Paused;
                    StormStep::Settle
                } else {
                    StormStep::Hold
                }
            },
            StormPhase::Final => StormStep::Hold,
        }
    }

    /// Start the next shrink phase.
    fn start_shrink(&mut self) -> (step: StormStep)
        requires
            old(self).phase_number < 255,
        ensures
            *final(self) == after_shrink(*old(self)),
            step == if final(self).phase is Final { StormStep::BeginFinal } else { StormStep::BeginShrink },
    {
        self.phase_number = self.phase_number + 1;
        if self.phase_number >= STORM_FINAL_PHASE {
            self.phase = StormPhase::Final;
            self.damage_per_second = 10;
            return StormStep::BeginFinal;
        }
        self.phase = StormPhase::Shrinking;
        self.damage_per_second = if self.phase_number < 5 { self.phase_number } else { 5 };
        StormStep::BeginShrink
    }
}

/// Loot drop item type.
#[derive(Debug, Clone, Copy, PartialEq, Eq, Structural)]
pub enum LootType {
    Weapon,
    Ammo,
    Health,
    Shield,
    Materials,
}

/// A loot drop; where it lies in the world is kept by the caller.
#[derive(Debug, Clone, Copy, PartialEq, Eq, Structural)]
pub struct LootDrop {
    pub loot_type: LootType,
    pub weapon_type: Option<u8>,
    pub rarity: u8,
    pub amount: u16,
    pub collected: bool,
}

impl LootDrop {
    /// A single weapon of the given type code and rarity.
    pub fn weapon(weapon_type: u8, rarity: u8) -> (d: Self)
        ensures
            d == (LootDrop { loot_type: LootType::Weapon, weapon_type: Some(weapon_type), rarity, amount: 1, collected: false }),
    {
        LootDrop { loot_type: LootType::Weapon, weapon_type: Some(weapon_type), rarity, amount: 1, collected: false }
    }

    /// An ammo pile of `amount` rounds.
    pub fn ammo(amount: u16) -> (d: Self)
        ensures
            d == (LootDrop { loot_type: LootType::Ammo, weapon_type: None, rarity: 0, amount, collected: false }),
    {
        LootDrop { loot_type: LootType::Ammo, weapon_type: None, rarity: 0, amount, collected: false }
    }

    /// A health item worth `amount`.
    pub fn health(amount: u16) -> (d: Self)
        ensures
            d == (LootDrop { loot_type: LootType::Health, weapon_type: None, rarity: 0, amount, collected: false }),
    {
        LootDrop { loot_type: LootType::Health, weapon_type: None, rarity: 0, amount, collected: false }
    }

    /// A shield item worth `amount`.
    pub fn shield(amount: u16) -> (d: Self)
        ensures
            d == (LootDrop { loot_type: LootType::Shield, weapon_type: None, rarity: 0, amount, collected: false }),
    {
        LootDrop { loot_type: LootType::Shield, weapon_type: None, rarity: 0, amount, collected: false }
    }

    /// Mark the drop as collected.
    pub fn collect(&mut self)
        ensures
            *final(self) == (LootDrop { collected: true, ..*old(self) }),
    {
        self.collected = true;
    }
}

} // verus!
