//! Weapon types, rarities and ammunition kinds.

use vstd::prelude::*;

verus! {

/// Weapon type.
#[derive(Debug, Clone, Copy, PartialEq, Eq, Structural)]
pub enum WeaponType {
    Pickaxe,
    Pistol,
    Shotgun,
    AssaultRifle,
    Sniper,
    Smg,
}

/// Network code of each weapon type.
pub open spec fn weapon_code(w: WeaponType) -> u8 {
    match w {
        WeaponType::Pickaxe => 0,
        WeaponType::Pistol => 1,
        WeaponType::Shotgun => 2,
        WeaponType::AssaultRifle => 3,
        WeaponType::Sniper => 4,
        WeaponType::Smg => 5,
    }
}

/// Base damage of each weapon type.
pub open spec fn weapon_base_damage(w: WeaponType) -> u8 {
    match w {
        WeaponType::Pickaxe => 20,
        WeaponType::Pistol => 23,
        WeaponType::Shotgun => 90,
        WeaponType::AssaultRifle => 30,
        WeaponType::Sniper => 100,
        WeaponType::Smg => 17,
    }
}

/// Magazine size of each weapon type (0 for the pickaxe, which needs none).
pub open spec fn weapon_magazine(w: WeaponType) -> u16 {
    match w {
        WeaponType::Pickaxe => 0,
        WeaponType::Pistol => 16,
        WeaponType::Shotgun => 5,
        WeaponType::AssaultRifle => 30,
        WeaponType::Sniper => 1,
        WeaponType::Smg => 30,
    }
}

/// Display name of each weapon type.
pub open spec fn weapon_name(w: WeaponType) -> &'static str {
    match w {
        WeaponType::Pickaxe => "PICKAXE",
        WeaponType::Pistol => "PISTOL",
        WeaponType::Shotgun => "SHOTGUN",
        WeaponType::AssaultRifle => "ASSAULT RIFLE",
        WeaponType::Sniper => "SNIPER",
        WeaponType::Smg => "SMG",
    }
}

impl WeaponType {
    /// Convert from u8 (network protocol).
    pub fn from_u8(value: u8) -> (r: Option<Self>)
        ensures
            value <= 5 <==> r is Some,
            r matches Some(w) ==> weapon_code(w) == value,
    {
        match value {
            0 => Some(Self::Pickaxe),
            1 => Some(Self::Pistol),
            2 => Some(Self::Shotgun),
            3 => Some(Self::AssaultRifle),
            4 => Some(Self::Sniper),
            5 => Some(Self::Smg),
            _ => None,
        }
    }

    /// Convert to u8.
    pub fn to_u8(self) -> (r: u8)
        ensures
            r == weapon_code(self),
    {
        match self {
            Self::Pickaxe => 0,
            Self::Pistol => 1,
            Self::Shotgun => 2,
            Self::AssaultRifle => 3,
            Self::Sniper => 4,
            Self::Smg => 5,
        }
    }

    /// Display name.
    pub fn name(&self) -> (r: &'static str)
        ensures
            r == weapon_name(*self),
    {
        match self {
            Self::Pickaxe => "PICKAXE",
            Self::Pistol => "PISTOL",
            Self::Shotgun => "SHOTGUN",
            Self::AssaultRifle => "ASSAULT RIFLE",
            Self::Sniper => "SNIPER",
            Self::Smg => "SMG",
        }
    }

    /// Base damage for this weapon type.
    pub fn base_damage(&self) -> (r: u8)
        ensures
            r == weapon_base_damage(*self),
    {
        match self {
            Self::Pickaxe => 20,
            Self::Pistol => 23,
            Self::Shotgun => 90,
            Self::AssaultRifle => 30,
            Self::Sniper => 100,
            Self::Smg => 17,
        }
    }

    /// Magazine size.
    pub fn magazine_size(&self) -> (r: u16)
        ensures
            r == weapon_magazine(*self),
    {
        match self {
            Self::Pickaxe => 0,
            Self::Pistol => 16,
            Self::Shotgun => 5,
            Self::AssaultRifle => 30,
            Self::Sniper => 1,
            Self::Smg => 30,
        }
    }

    /// Is this a hitscan weapon? Every current weapon is.
    pub fn is_hitscan(&self) -> (r: bool)
        ensures
            r,
    {
        true
    }
}

/// Decoding the network code of any weapon type gives that weapon type back.
pub proof fn lemma_weapon_code_roundtrip(w: WeaponType, v: u8)
    ensures
        weapon_code(w) <= 5,
        v <= 5 ==> exists|x: WeaponType| weapon_code(x) == v,
        forall|x: WeaponType, y: WeaponType| weapon_code(x) == weapon_code(y) ==> x == y,
{
    if v <= 5 {
        if v == 0 { assert(weapon_code(WeaponType::Pickaxe) == v); }
        else if v == 1 { assert(weapon_code(WeaponType::Pistol) == v); }
        else if v == 2 { assert(weapon_code(WeaponType::Shotgun) == v); }
        else if v == 3 { assert(weapon_code(WeaponType::AssaultRifle) == v); }
        else if v == 4 { assert(weapon_code(WeaponType::Sniper) == v); }
        else { assert(weapon_code(WeaponType::Smg) == v); }
    }
}

/// Weapon rarity, ordered from most common to rarest.
#[derive(Debug, Clone, Copy, PartialEq, Eq, PartialOrd, Ord, Structural)]
pub enum Rarity {
    Common,
    Uncommon,
    Rare,
    Epic,
    Legendary,
}

/// Display color (RGB) of a rarity.
pub open spec fn rarity_color(r: Rarity) -> u32 {
    match r {
        Rarity::Common => 0x888888,
        Rarity::Uncommon => 0x44CC44,
        Rarity::Rare => 0x4488FF,
        Rarity::Epic => 0xAA44CC,
        Rarity::Legendary => 0xFFAA00,
    }
}

/// Display name of a rarity.
pub open spec fn rarity_name(r: Rarity) -> &'static str {
    match r {
        Rarity::Common => "COMMON",
        Rarity::Uncommon => "UNCOMMON",
        Rarity::Rare => "RARE",
        Rarity::Epic => "EPIC",
        Rarity::Legendary => "LEGENDARY",
    }
}

impl Rarity {
    /// Color for this rarity (RGB).
    pub fn color(&self) -> (r: u32)
        ensures
            r == rarity_color(*self),
    {
        match self {
            Self::Common => 0x888888,
            Self::Uncommon => 0x44CC44,
            Self::Rare => 0x4488FF,
            Self::Epic => 0xAA44CC,
            Self::Legendary => 0xFFAA00,
        }
    }

    /// Display name.
    pub fn name(&self) -> (r: &'static str)
        ensures
            r == rarity_name(*self),
    {
        match self {
            Self::Common => "COMMON",
            Self::Uncommon => "UNCOMMON",
            Self::Rare => "RARE",
            Self::Epic => "EPIC",
            Self::Legendary => "LEGENDARY",
        }
    }
}

/// Ammo types (shared across weapon types).
#[derive(Debug, Clone, Copy, PartialEq, Eq, Structural)]
pub enum AmmoType {
    Light,
    Medium,
    Heavy,
    Shells,
}

/// Ammunition used by each weapon type; the pickaxe uses none.
pub open spec fn ammo_for(w: WeaponType) -> Option<AmmoType> {
    match w {
        WeaponType::Pickaxe => None,
        WeaponType::Pistol | WeaponType::Smg => Some(AmmoType::Light),
        WeaponType::AssaultRifle => Some(AmmoType::Medium),
        WeaponType::Sniper => Some(AmmoType::Heavy),
        WeaponType::Shotgun => Some(AmmoType::Shells),
    }
}

impl AmmoType {
    /// Get ammo type for a weapon.
    pub fn for_weapon(weapon_type: WeaponType) -> (r: Option<Self>)
        ensures
            r == ammo_for(weapon_type),
    {
        match weapon_type {
            WeaponType::Pickaxe => None,
            WeaponType::Pistol | WeaponType::Smg => Some(Self::Light),
            WeaponType::AssaultRifle => Some(Self::Medium),
            WeaponType::Sniper => Some(Self::Heavy),
            WeaponType::Shotgun => Some(Self::Shells),
        }
    }
}

/// A weapon instance.
///
/// Its fire cooldown and reload timer are counted down in seconds by the
/// caller; here each is held as whether it is still running, which is all
/// the rules below read of them.
#[derive(Debug, Clone, Copy, PartialEq, Eq, Structural)]
pub struct Weapon {
    pub weapon_type: WeaponType,
    pub rarity: Rarity,
    pub ammo: u16,
    pub max_ammo: u16,
    /// The reload timer is above zero.
    pub reloading: bool,
    /// The fire cooldown is above zero.
    pub cooling_down: bool,
}

impl Weapon {
    /// Whether the weapon can fire now: no cooldown, not reloading, and a
    /// round loaded, except for the pickaxe, whose magazine is unlimited.
    pub open spec fn ready(self) -> bool {
        !self.cooling_down && !self.reloading && (self.ammo > 0 || self.weapon_type == WeaponType::Pickaxe)
    }

    /// A fresh weapon with a full magazine and no timer running.
    pub fn new(weapon_type: WeaponType, rarity: Rarity) -> (w: Self)
        ensures
            w.weapon_type == weapon_type,
            w.rarity == rarity,
            w.ammo == weapon_magazine(weapon_type),
            w.max_ammo == weapon_magazine(weapon_type),
            !w.reloading,
            !w.cooling_down,
    {
        let max_ammo = weapon_type.magazine_size();
        Weapon { weapon_type, rarity, ammo: max_ammo, max_ammo, reloading: false, cooling_down: false }
    }

    /// The pickaxe (always available): a common weapon with an unlimited
    /// magazine, recorded as zero rounds.
    pub fn pickaxe() -> (w: Self)
        ensures
            w == (Weapon {
                weapon_type: WeaponType::Pickaxe,
                rarity: Rarity::Common,
                ammo: 0,
                max_ammo: 0,
                reloading: false,
                cooling_down: false,
            }),
    {
        Self::new(WeaponType::Pickaxe, Rarity::Common)
    }

    /// Display name: that of the weapon type.
    pub fn name(&self) -> (r: &'static str)
        ensures
            r == weapon_name(self.weapon_type),
    {
        self.weapon_type.name()
    }

    /// Check if the weapon can fire.
    pub fn can_fire(&self) -> (r: bool)
        ensures
            r == self.ready(),
    {
        !self.cooling_down && !self.reloading && (self.ammo > 0 || self.weapon_type == WeaponType::Pickaxe)
    }

    /// Check if the weapon is reloading.
    pub fn is_reloading(&self) -> (r: bool)
        ensures
            r == self.reloading,
    {
        self.reloading
    }

    /// Fire: when the weapon is ready, spend a round (the pickaxe, with its
    /// unlimited magazine, spends none) and start the fire cooldown;
    /// otherwise nothing changes.
    pub fn fire(&mut self) -> (fired: bool)
        ensures
            fired == old(self).ready(),
            !fired ==> *final(self) == *old(self),
            fired ==> *final(self) == (Weapon {
                ammo: if old(self).weapon_type == WeaponType::Pickaxe {
                    old(self).ammo
                } else {
                    (old(self).ammo - 1) as u16
                },
                cooling_down: true,
                ..*old(self)
            }),
            old(self).ammo <= old(self).max_ammo ==> final(self).ammo <= final(self).max_ammo,
    {
        if !self.can_fire() {
            return false;
        }
        if self.weapon_type != WeaponType::Pickaxe {
            self.ammo = self.ammo - 1;
        }
        self.cooling_down = true;
        true
    }

    /// Start reloading when the magazine is not full and no reload is
    /// running; returns whether the reload timer was set. It is set to the
    /// weapon's reload time, which is zero (so nothing runs) for the pickaxe.
    pub fn start_reload(&mut self) -> (started: bool)
        ensures
            started == (old(self).ammo < old(self).max_ammo && !old(self).reloading),
            !started ==> *final(self) == *old(self),
            started ==> *final(self) == (Weapon {
                reloading: old(self).weapon_type != WeaponType::Pickaxe,
                ..*old(self)
            }),
    {
        if self.ammo < self.max_ammo && !self.reloading {
            self.reloading = self.weapon_type != WeaponType::Pickaxe;
            true
        } else {
            false
        }
    }

    /// Advance the timers: the caller has counted each running timer down
    /// by the elapsed time and says whether it is still above zero. A
    /// stopped timer stays stopped; a reload that runs out fills the magazine.
    pub fn update(&mut self, cooldown_running: bool, reload_running: bool)
        ensures
            final(self).cooling_down == (old(self).cooling_down && cooldown_running),
            final(self).reloading == (old(self).reloading && reload_running),
            final(self).ammo == if old(self).reloading && !reload_running {
                old(self).max_ammo
            } else {
                old(self).ammo
            },
            final(self).weapon_type == old(self).weapon_type,
            final(self).rarity == old(self).rarity,
            final(self).max_ammo == old(self).max_ammo,
            old(self).ammo <= old(self).max_ammo ==> final(self).ammo <= final(self).max_ammo,
    {
        if self.cooling_down {
            self.cooling_down = cooldown_running;
        }
        if self.reloading {
            self.reloading = reload_running;
            if !reload_running {
                self.ammo = self.max_ammo;
            }
        }
    }

    /// Add ammo up to the magazine size; returns the amount actually added.
    pub fn add_ammo(&mut self, amount: u16) -> (added: u16)
        requires
            old(self).ammo <= old(self).max_ammo,
        ensures
            added == if amount < old(self).max_ammo - old(self).ammo {
                amount as int
            } else {
                old(self).max_ammo - old(self).ammo
            },
            *final(self) == (Weapon { ammo: (old(self).ammo + added) as u16, ..*old(self) }),
            final(self).ammo <= final(self).max_ammo,
    {
        let space = self.max_ammo - self.ammo;
        let added = if amount < space { amount } else { space };
        self.ammo = self.ammo + added;
        added
    }
}

/// A weapon uses ammunition exactly when it has a magazine.
pub proof fn lemma_ammo_iff_magazine(w: WeaponType)
    ensures
        ammo_for(w) is None <==> weapon_magazine(w) == 0,
{
}

} // verus!
