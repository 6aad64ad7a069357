//! Standard color palette for voxel models, as 0xRRGGBB values.

use vstd::prelude::*;

verus! {

// Skin tones
pub const SKIN_LIGHT: u32 = 0xFFDBB4;
pub const SKIN_MEDIUM: u32 = 0xD4A574;
pub const SKIN_DARK: u32 = 0x8B5A2B;

// Hair colors
pub const HAIR_BLACK: u32 = 0x2C2C2C;
pub const HAIR_BROWN: u32 = 0x654321;
pub const HAIR_BLONDE: u32 = 0xFFD700;
pub const HAIR_RED: u32 = 0x8B4513;

// Clothing
pub const SHIRT_BLUE: u32 = 0x3366CC;
pub const SHIRT_RED: u32 = 0xCC3333;
pub const SHIRT_GREEN: u32 = 0x33CC33;
pub const SHIRT_WHITE: u32 = 0xEEEEEE;
pub const PANTS_BLUE: u32 = 0x2244AA;
pub const PANTS_BLACK: u32 = 0x333333;
pub const PANTS_BROWN: u32 = 0x8B4513;
pub const SHOES_BLACK: u32 = 0x222222;
pub const SHOES_BROWN: u32 = 0x654321;

// Materials
pub const WOOD_LIGHT: u32 = 0xDEB887;
pub const WOOD_MEDIUM: u32 = 0xCD853F;
pub const WOOD_DARK: u32 = 0x8B4513;
pub const WOOD_PLANK: u32 = 0xC4A76E;
pub const BRICK_RED: u32 = 0xB44332;
pub const BRICK_BROWN: u32 = 0x8B5A2B;
pub const STONE_GRAY: u32 = 0x808080;
pub const STONE_DARK: u32 = 0x505050;
pub const METAL_GRAY: u32 = 0xA0A0A0;
pub const METAL_DARK: u32 = 0x606060;

// Nature
pub const GRASS_GREEN: u32 = 0x4CAF50;
pub const GRASS_DARK: u32 = 0x388E3C;
pub const LEAF_GREEN: u32 = 0x66BB6A;
pub const DIRT_BROWN: u32 = 0x795548;
pub const SAND_TAN: u32 = 0xD7CCC8;
pub const WATER_BLUE: u32 = 0x42A5F5;

// Sky
pub const SKY_BLUE: u32 = 0x87CEEB;
pub const CLOUD_WHITE: u32 = 0xFFFFFF;

// Weapons
pub const GUN_METAL: u32 = 0x4A4A4A;
pub const GUN_DARK: u32 = 0x2A2A2A;
pub const GUN_GRIP: u32 = 0x3D2B1F;
pub const GUN_ACCENT: u32 = 0xCC3333;

// Equipment
pub const BACKPACK_GREEN: u32 = 0x556B2F;
pub const BACKPACK_TAN: u32 = 0xD2B48C;
pub const GLIDER_RED: u32 = 0xE53935;
pub const GLIDER_BLUE: u32 = 0x1E88E5;

// Chrome/metallic
pub const CHROME: u32 = 0xCCCCCC;
pub const CHROME_DARK: u32 = 0x999999;

// Lights
pub const HEADLIGHT: u32 = 0xFFFF99;
pub const TAILLIGHT: u32 = 0xFF3333;

// Fabric/materials
pub const CANVAS_TAN: u32 = 0xD4C4A8;
pub const ROPE_BROWN: u32 = 0x8B7355;
pub const RUBBER: u32 = 0x1A1A1A;
pub const GLASS: u32 = 0xAADDFF;

// Bus colors
pub const BUS_BLUE: u32 = 0x2266AA;
pub const BUS_LIGHT_BLUE: u32 = 0x3388CC;
pub const BUS_YELLOW: u32 = 0xFFCC00;

// Balloon colors
pub const BALLOON_RED: u32 = 0xCC3333;
pub const BALLOON_WHITE: u32 = 0xEEEEEE;

} // verus!
