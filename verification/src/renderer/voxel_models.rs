//! Procedural voxel models: characters, weapons, scenery, building pieces and
//! the battle bus, each painted box by box into a grid of its own size. The
//! mesh placement origin of each model is kept by the mesh builder.

use vstd::prelude::*;
use super::palette;
use super::voxel::{
    VoxelColor, VoxelModel, Voxel, CharacterCustomization, hex_color, over, over_stripe, skin_hex, hair_hex, shirt_hex, pants_hex,
    shoes_hex,
};

verus! {

/// The dark gray of eyes, lens rims and glider accents.
pub const DARK_DETAIL: u32 = 0x222222;

/// A model of the given size, well formed.
pub open spec fn sized(m: VoxelModel, w: usize, h: usize, d: usize) -> bool {
    &&& m.wf()
    &&& m.width == w && m.height == h && m.depth == d
}

/// Every cell of a model of the given size is the voxel `rule` gives it.
pub open spec fn painted_as(m: VoxelModel, rule: spec_fn(int, int, int) -> Voxel) -> bool {
    forall|x: int, y: int, z: int| #![trigger m.at(x, y, z)] m.in_bounds(x, y, z) ==> m.at(x, y, z) == rule(x, y, z)
}

/// Player voxel at (x, y, z): shoes and legs, torso, sleeves with hands,
/// the head with two eyes, then the hair of the chosen style.
pub open spec fn player_voxel(c: CharacterCustomization, x: int, y: int, z: int) -> Voxel {
    let skin = hex_color(skin_hex(c.skin_tone));
    let hair = hex_color(hair_hex(c.hair_color));
    let shirt = hex_color(shirt_hex(c.shirt_color));
    let pants = hex_color(pants_hex(c.pants_color));
    let shoes = hex_color(shoes_hex(c.shoes_color));
    let eye = hex_color(DARK_DETAIL);
    let v = over(Voxel::Empty, x, y, z, (1, 0, 1, 2, 1, 2), shoes);
    let v = over(v, x, y, z, (1, 2, 1, 2, 7, 2), pants);
    let v = over(v, x, y, z, (5, 0, 1, 6, 1, 2), shoes);
    let v = over(v, x, y, z, (5, 2, 1, 6, 7, 2), pants);
    let v = over(v, x, y, z, (1, 8, 1, 6, 15, 2), shirt);
    let v = over(v, x, y, z, (0, 10, 1, 0, 15, 2), shirt);
    let v = over(v, x, y, z, (0, 10, 1, 0, 11, 2), skin);
    let v = over(v, x, y, z, (7, 10, 1, 7, 15, 2), shirt);
    let v = over(v, x, y, z, (7, 10, 1, 7, 11, 2), skin);
    let v = over(v, x, y, z, (2, 16, 0, 5, 23, 3), skin);
    let v = over(v, x, y, z, (2, 20, 0, 2, 20, 0), eye);
    let v = over(v, x, y, z, (5, 20, 0, 5, 20, 0), eye);
    match c.hair_style {
        0 => over(v, x, y, z, (2, 22, 0, 5, 23, 3), hair),
        1 => over(over(v, x, y, z, (2, 21, 0, 5, 23, 3), hair), x, y, z, (1, 22, 1, 6, 23, 2), hair),
        2 => over(over(v, x, y, z, (2, 20, 0, 5, 23, 3), hair), x, y, z, (1, 18, 1, 6, 23, 2), hair),
        _ => over(v, x, y, z, (2, 22, 1, 5, 23, 2), hair),
    }
}

/// Player character, 8x24x4: shoes, legs, torso, arms, head with eyes, and
/// the chosen hair style on top, in the customization's colors.
pub fn create_player_model(customization: &CharacterCustomization) -> (m: VoxelModel)
    ensures
        sized(m, 8, 24, 4),
        painted_as(m, |x: int, y: int, z: int| player_voxel(*customization, x, y, z)),
        m.at(1, 0, 1) == Voxel::Filled(hex_color(shoes_hex(customization.shoes_color))),
        m.at(5, 4, 2) == Voxel::Filled(hex_color(pants_hex(customization.pants_color))),
        m.at(3, 12, 1) == Voxel::Filled(hex_color(shirt_hex(customization.shirt_color))),
        m.at(0, 10, 1) == Voxel::Filled(hex_color(skin_hex(customization.skin_tone))),
        m.at(3, 17, 0) == Voxel::Filled(hex_color(skin_hex(customization.skin_tone))),
        m.at(3, 23, 1) == Voxel::Filled(hex_color(hair_hex(customization.hair_color))),
        customization.hair_style != 2 ==> m.at(2, 20, 0) == Voxel::Filled(hex_color(DARK_DETAIL)),
        customization.hair_style == 2 ==> m.at(2, 20, 0) == Voxel::Filled(hex_color(hair_hex(customization.hair_color))),
{
    let mut model = VoxelModel::new(8, 24, 4);
    let skin = customization.skin_color();
    let hair = customization.hair_color();
    let shirt = customization.shirt_color();
    let pants = customization.pants_color();
    let shoes = customization.shoes_color();

    // Legs
    model.fill_box(1, 0, 1, 2, 1, 2, shoes);
    model.fill_box(1, 2, 1, 2, 7, 2, pants);
    model.fill_box(5, 0, 1, 6, 1, 2, shoes);
    model.fill_box(5, 2, 1, 6, 7, 2, pants);

    // Torso
    model.fill_box(1, 8, 1, 6, 15, 2, shirt);

    // Arms with hands
    model.fill_box(0, 10, 1, 0, 15, 2, shirt);
    model.fill_box(0, 10, 1, 0, 11, 2, skin);
    model.fill_box(7, 10, 1, 7, 15, 2, shirt);
    model.fill_box(7, 10, 1, 7, 11, 2, skin);

    // Head and eyes
    model.fill_box(2, 16, 0, 5, 23, 3, skin);
    let eye_color = VoxelColor::from_hex(DARK_DETAIL);
    model.set_color(2, 20, 0, eye_color);
    model.set_color(5, 20, 0, eye_color);

    // Hair
    match customization.hair_style {
        0 => {
            model.fill_box(2, 22, 0, 5, 23, 3, hair);
        },
        1 => {
            model.fill_box(2, 21, 0, 5, 23, 3, hair);
            model.fill_box(1, 22, 1, 6, 23, 2, hair);
        },
        2 => {
            model.fill_box(2, 20, 0, 5, 23, 3, hair);
            model.fill_box(1, 18, 1, 6, 23, 2, hair);
        },
        _ => {
            model.fill_box(2, 22, 1, 5, 23, 2, hair);
        },
    }
    model
}

/// First-person arms voxel at (x, y, z): each sleeve with its hand in front.
pub open spec fn fp_arms_voxel(skin: VoxelColor, shirt: VoxelColor, x: int, y: int, z: int) -> Voxel {
    let v = over(Voxel::Empty, x, y, z, (0, 0, 2, 2, 3, 3), shirt);
    let v = over(v, x, y, z, (0, 0, 1, 2, 2, 1), skin);
    let v = over(v, x, y, z, (9, 0, 2, 11, 3, 3), shirt);
    let v = over(v, x, y, z, (9, 0, 1, 11, 2, 1), skin);
    v
}

/// First-person arms, 12x8x6: a sleeve and a hand on each side.
pub fn create_fp_arms(skin: VoxelColor, shirt: VoxelColor) -> (m: VoxelModel)
    ensures
        sized(m, 12, 8, 6),
        painted_as(m, |x: int, y: int, z: int| fp_arms_voxel(skin, shirt, x, y, z)),
        m.at(1, 1, 3) == Voxel::Filled(shirt),
        m.at(10, 1, 1) == Voxel::Filled(skin),
        m.at(5, 1, 3) == Voxel::Empty,
{
    let mut model = VoxelModel::new(12, 8, 6);
    model.fill_box(0, 0, 2, 2, 3, 3, shirt);
    model.fill_box(0, 0, 1, 2, 2, 1, skin);
    model.fill_box(9, 0, 2, 11, 3, 3, shirt);
    model.fill_box(9, 0, 1, 11, 2, 1, skin);
    model
}

/// Pistol voxel at (x, y, z): slide, frame, grip, then the trigger guard and magazine cells.
pub open spec fn pistol_voxel(x: int, y: int, z: int) -> Voxel {
    let metal = hex_color(palette::GUN_METAL);
    let dark = hex_color(palette::GUN_DARK);
    let grip = hex_color(palette::GUN_GRIP);
    let v = over(Voxel::Empty, x, y, z, (1, 3, 0, 7, 5, 1), metal);
    let v = over(v, x, y, z, (2, 4, 0, 6, 4, 0), dark);
    let v = over(v, x, y, z, (1, 1, 0, 5, 3, 1), dark);
    let v = over(v, x, y, z, (1, 0, 0, 3, 2, 1), grip);
    let v = over(v, x, y, z, (4, 1, 0, 4, 1, 0), dark);
    let v = over(v, x, y, z, (4, 1, 1, 4, 1, 1), dark);
    let v = over(v, x, y, z, (2, 0, 0, 2, 0, 0), metal);
    let v = over(v, x, y, z, (2, 0, 1, 2, 0, 1), metal);
    v
}

/// Pistol, 8x6x2: slide, frame, grip, trigger guard and magazine.
pub fn create_pistol_model() -> (m: VoxelModel)
    ensures
        sized(m, 8, 6, 2),
        painted_as(m, |x: int, y: int, z: int| pistol_voxel(x, y, z)),
        m.at(2, 0, 0) == Voxel::Filled(hex_color(palette::GUN_METAL)),
        m.at(4, 1, 1) == Voxel::Filled(hex_color(palette::GUN_DARK)),
        m.at(7, 5, 1) == Voxel::Filled(hex_color(palette::GUN_METAL)),
{
    let mut model = VoxelModel::new(8, 6, 2);
    let metal = VoxelColor::from_hex(palette::GUN_METAL);
    let dark = VoxelColor::from_hex(palette::GUN_DARK);
    let grip = VoxelColor::from_hex(palette::GUN_GRIP);

    model.fill_box(1, 3, 0, 7, 5, 1, metal);
    model.fill_box(2, 4, 0, 6, 4, 0, dark);
    model.fill_box(1, 1, 0, 5, 3, 1, dark);
    model.fill_box(1, 0, 0, 3, 2, 1, grip);
    model.set_color(4, 1, 0, dark);
    model.set_color(4, 1, 1, dark);
    model.set_color(2, 0, 0, metal);
    model.set_color(2, 0, 1, metal);
    model
}

/// SMG voxel at (x, y, z): barrel, receiver, magazine, stock and grip.
pub open spec fn smg_voxel(x: int, y: int, z: int) -> Voxel {
    let metal = hex_color(palette::GUN_METAL);
    let dark = hex_color(palette::GUN_DARK);
    let grip = hex_color(palette::GUN_GRIP);
    let v = over(Voxel::Empty, x, y, z, (9, 2, 1, 13, 3, 1), metal);
    let v = over(v, x, y, z, (3, 1, 0, 10, 4, 2), metal);
    let v = over(v, x, y, z, (5, 0, 0, 7, 1, 2), dark);
    let v = over(v, x, y, z, (0, 2, 1, 3, 3, 1), metal);
    let v = over(v, x, y, z, (0, 3, 1, 1, 4, 1), metal);
    let v = over(v, x, y, z, (3, 0, 0, 4, 1, 2), grip);
    v
}

/// SMG, 14x5x3: barrel, receiver, magazine, folded stock and grip.
pub fn create_smg_model() -> (m: VoxelModel)
    ensures
        sized(m, 14, 5, 3),
        painted_as(m, |x: int, y: int, z: int| smg_voxel(x, y, z)),
        m.at(13, 2, 1) == Voxel::Filled(hex_color(palette::GUN_METAL)),
        m.at(6, 0, 1) == Voxel::Filled(hex_color(palette::GUN_DARK)),
        m.at(3, 0, 0) == Voxel::Filled(hex_color(palette::GUN_GRIP)),
{
    let mut model = VoxelModel::new(14, 5, 3);
    let metal = VoxelColor::from_hex(palette::GUN_METAL);
    let dark = VoxelColor::from_hex(palette::GUN_DARK);
    let grip = VoxelColor::from_hex(palette::GUN_GRIP);

    model.fill_box(9, 2, 1, 13, 3, 1, metal);
    model.fill_box(3, 1, 0, 10, 4, 2, metal);
    model.fill_box(5, 0, 0, 7, 1, 2, dark);
    model.fill_box(0, 2, 1, 3, 3, 1, metal);
    model.fill_box(0, 3, 1, 1, 4, 1, metal);
    model.fill_box(3, 0, 0, 4, 1, 2, grip);
    model
}

/// Pickaxe voxel at (x, y, z): handle, head, dark points and the top.
pub open spec fn pickaxe_voxel(x: int, y: int, z: int) -> Voxel {
    let wood = hex_color(palette::WOOD_MEDIUM);
    let metal = hex_color(palette::METAL_GRAY);
    let metal_dark = hex_color(palette::METAL_DARK);
    let v = over(Voxel::Empty, x, y, z, (5, 0, 1, 6, 11, 1), wood);
    let v = over(v, x, y, z, (1, 12, 1, 10, 13, 1), metal);
    let v = over(v, x, y, z, (0, 12, 1, 0, 12, 1), metal_dark);
    let v = over(v, x, y, z, (11, 12, 1, 11, 12, 1), metal_dark);
    let v = over(v, x, y, z, (4, 14, 1, 7, 15, 1), metal);
    let v = over(v, x, y, z, (5, 14, 0, 6, 14, 2), metal);
    v
}

/// Pickaxe, 12x16x3: wooden handle and a metal head with two points.
pub fn create_pickaxe_model() -> (m: VoxelModel)
    ensures
        sized(m, 12, 16, 3),
        painted_as(m, |x: int, y: int, z: int| pickaxe_voxel(x, y, z)),
        m.at(5, 0, 1) == Voxel::Filled(hex_color(palette::WOOD_MEDIUM)),
        m.at(0, 12, 1) == Voxel::Filled(hex_color(palette::METAL_DARK)),
        m.at(11, 12, 1) == Voxel::Filled(hex_color(palette::METAL_DARK)),
        m.at(5, 15, 1) == Voxel::Filled(hex_color(palette::METAL_GRAY)),
{
    let mut model = VoxelModel::new(12, 16, 3);
    let wood = VoxelColor::from_hex(palette::WOOD_MEDIUM);
    let metal = VoxelColor::from_hex(palette::METAL_GRAY);
    let metal_dark = VoxelColor::from_hex(palette::METAL_DARK);

    model.fill_box(5, 0, 1, 6, 11, 1, wood);
    model.fill_box(1, 12, 1, 10, 13, 1, metal);
    model.fill_box(0, 12, 1, 0, 12, 1, metal_dark);
    model.fill_box(11, 12, 1, 11, 12, 1, metal_dark);
    model.fill_box(4, 14, 1, 7, 15, 1, metal);
    model.fill_box(5, 14, 0, 6, 14, 2, metal);
    model
}

/// Chest voxel at (x, y, z): body and lid, side bands, the middle band and the lock.
pub open spec fn chest_voxel(x: int, y: int, z: int) -> Voxel {
    let wood = hex_color(palette::WOOD_MEDIUM);
    let metal = hex_color(palette::METAL_GRAY);
    let gold = hex_color(0xFFD700);
    let v = over(Voxel::Empty, x, y, z, (0, 0, 0, 5, 3, 3), wood);
    let v = over(v, x, y, z, (0, 4, 0, 5, 4, 3), wood);
    let v = over(v, x, y, z, (0, 0, 0, 0, 4, 3), metal);
    let v = over(v, x, y, z, (5, 0, 0, 5, 4, 3), metal);
    let v = over(v, x, y, z, (0, 2, 0, 5, 2, 0), metal);
    let v = over(v, x, y, z, (2, 2, 0, 2, 2, 0), gold);
    let v = over(v, x, y, z, (3, 2, 0, 3, 2, 0), gold);
    v
}

/// Loot chest, 6x5x4: wooden body and lid, metal bands and a gold lock.
pub fn create_chest() -> (m: VoxelModel)
    ensures
        sized(m, 6, 5, 4),
        painted_as(m, |x: int, y: int, z: int| chest_voxel(x, y, z)),
        m.at(2, 2, 0) == Voxel::Filled(hex_color(0xFFD700)),
        m.at(3, 2, 0) == Voxel::Filled(hex_color(0xFFD700)),
        m.at(2, 4, 2) == Voxel::Filled(hex_color(palette::WOOD_MEDIUM)),
        m.at(0, 1, 1) == Voxel::Filled(hex_color(palette::METAL_GRAY)),
{
    let mut model = VoxelModel::new(6, 5, 4);
    let wood = VoxelColor::from_hex(palette::WOOD_MEDIUM);
    let metal = VoxelColor::from_hex(palette::METAL_GRAY);
    let gold = VoxelColor::from_hex(0xFFD700);

    model.fill_box(0, 0, 0, 5, 3, 3, wood);
    model.fill_box(0, 4, 0, 5, 4, 3, wood);
    model.fill_box(0, 0, 0, 0, 4, 3, metal);
    model.fill_box(5, 0, 0, 5, 4, 3, metal);
    model.fill_box(0, 2, 0, 5, 2, 0, metal);
    model.set_color(2, 2, 0, gold);
    model.set_color(3, 2, 0, gold);
    model
}

/// Wooden wall plank color of row `y`: two plank rows, then two light rows.
pub open spec fn wall_wood_row(y: int) -> u32 {
    if y % 4 < 2 { palette::WOOD_PLANK } else { palette::WOOD_LIGHT }
}

/// Wooden wall color at column `x`, row `y`: dark on the frame (outer
/// columns and rows and the middle cross), otherwise the row's planks.
pub open spec fn wall_wood_color(x: int, y: int) -> u32 {
    if x == 0 || x == 15 || x == 7 || x == 8 || y == 0 || y == 15 || y == 7 || y == 8 {
        palette::WOOD_DARK
    } else {
        wall_wood_row(y)
    }
}

/// Wooden wall, 16x16x2: horizontal planks in a dark frame with a middle cross.
pub fn create_wall_wood() -> (m: VoxelModel)
    ensures
        sized(m, 16, 16, 2),
        forall|x: int, y: int, z: int| #![trigger m.at(x, y, z)] m.in_bounds(x, y, z)
            ==> m.at(x, y, z) == Voxel::Filled(hex_color(wall_wood_color(x, y))),
{
    let mut model = VoxelModel::new(16, 16, 2);
    let plank = VoxelColor::from_hex(palette::WOOD_PLANK);
    let dark = VoxelColor::from_hex(palette::WOOD_DARK);
    let light = VoxelColor::from_hex(palette::WOOD_LIGHT);

    let mut y: usize = 0;
    while y < 16
        invariant
            sized(model, 16, 16, 2),
            y <= 16,
            plank == hex_color(palette::WOOD_PLANK),
            light == hex_color(palette::WOOD_LIGHT),
            forall|a: int, b: int, c: int| 0 <= a < 16 && 0 <= b < y && 0 <= c < 2
                ==> #[trigger] model.at(a, b, c) == Voxel::Filled(hex_color(wall_wood_row(b))),
        decreases 16 - y,
    {
        let color = if y % 4 < 2 { plank } else { light };
        model.fill_box(0, y, 0, 15, y, 1, color);
        y = y + 1;
    }

    model.fill_box(0, 0, 0, 0, 15, 1, dark);
    model.fill_box(15, 0, 0, 15, 15, 1, dark);
    model.fill_box(7, 0, 0, 8, 15, 1, dark);
    model.fill_box(0, 0, 0, 15, 0, 1, dark);
    model.fill_box(0, 15, 0, 15, 15, 1, dark);
    model.fill_box(0, 7, 0, 15, 8, 1, dark);
    model
}

/// Whether brick-wall cell (x, y) is mortar: every third row, and one cell in
/// four along a row, shifted by two every three rows.
pub open spec fn brick_is_mortar(x: int, y: int) -> bool {
    y % 3 == 2 || (x + (y / 3) * 2) % 4 == 3
}

/// Brick wall, 16x16x2: red bricks in a running bond of gray mortar.
pub fn create_wall_brick() -> (m: VoxelModel)
    ensures
        sized(m, 16, 16, 2),
        forall|x: int, y: int, z: int| #![trigger m.at(x, y, z)] m.in_bounds(x, y, z)
            ==> m.at(x, y, z) == Voxel::Filled(hex_color(
                if brick_is_mortar(x, y) { 0xAAAAAA } else { palette::BRICK_RED })),
{
    let mut model = VoxelModel::new(16, 16, 2);
    let brick = VoxelColor::from_hex(palette::BRICK_RED);
    let mortar = VoxelColor::from_hex(0xAAAAAA);

    let mut y: usize = 0;
    while y < 16
        invariant
            sized(model, 16, 16, 2),
            y <= 16,
            brick == hex_color(palette::BRICK_RED),
            mortar == hex_color(0xAAAAAA),
            forall|a: int, b: int, c: int| 0 <= a < 16 && 0 <= b < y && 0 <= c < 2
                ==> #[trigger] model.at(a, b, c) == Voxel::Filled(hex_color(
                    if brick_is_mortar(a, b) { 0xAAAAAA } else { palette::BRICK_RED })),
        decreases 16 - y,
    {
        let mut x: usize = 0;
        while x < 16
            invariant
                sized(model, 16, 16, 2),
                y < 16,
                x <= 16,
                brick == hex_color(palette::BRICK_RED),
                mortar == hex_color(0xAAAAAA),
                forall|a: int, b: int, c: int| 0 <= a < 16 && 0 <= b < y && 0 <= c < 2
                    ==> #[trigger] model.at(a, b, c) == Voxel::Filled(hex_color(
                        if brick_is_mortar(a, b) { 0xAAAAAA } else { palette::BRICK_RED })),
                forall|a: int, c: int| 0 <= a < x && 0 <= c < 2
                    ==> #[trigger] model.at(a, y as int, c) == Voxel::Filled(hex_color(
                        if brick_is_mortar(a, y as int) { 0xAAAAAA } else { palette::BRICK_RED })),
            decreases 16 - x,
        {
            let is_mortar = y % 3 == 2 || (x + (y / 3) * 2) % 4 == 3;
            let color = if is_mortar { mortar } else { brick };
            model.fill_box(x, y, 0, x, y, 1, color);
            x = x + 1;
        }
        y = y + 1;
    }
    model
}

/// Metal wall color at (x, y, z): rivets and the dividing cross on the front
/// face, plain panels elsewhere.
pub open spec fn wall_metal_color(x: int, y: int, z: int) -> u32 {
    if z == 0 && (x == 1 || x == 6 || x == 9 || x == 14) && (y == 1 || y == 6 || y == 9 || y == 14) {
        0x505050
    } else if z == 0 && (x == 7 || x == 8 || y == 7 || y == 8) {
        palette::METAL_DARK
    } else {
        palette::METAL_GRAY
    }
}

/// Metal wall, 16x16x2: four panels divided by a dark cross, with rivets.
pub fn create_wall_metal() -> (m: VoxelModel)
    ensures
        sized(m, 16, 16, 2),
        forall|x: int, y: int, z: int| #![trigger m.at(x, y, z)] m.in_bounds(x, y, z)
            ==> m.at(x, y, z) == Voxel::Filled(hex_color(wall_metal_color(x, y, z))),
{
    let mut model = VoxelModel::new(16, 16, 2);
    let metal = VoxelColor::from_hex(palette::METAL_GRAY);
    let dark = VoxelColor::from_hex(palette::METAL_DARK);
    let rivet = VoxelColor::from_hex(0x505050);

    model.fill_box(0, 0, 0, 15, 15, 1, metal);
    model.fill_box(7, 0, 0, 8, 15, 0, dark);
    model.fill_box(0, 7, 0, 15, 8, 0, dark);
    model.set_color(1, 1, 0, rivet);
    model.set_color(1, 6, 0, rivet);
    model.set_color(1, 9, 0, rivet);
    model.set_color(1, 14, 0, rivet);
    model.set_color(6, 1, 0, rivet);
    model.set_color(6, 6, 0, rivet);
    model.set_color(6, 9, 0, rivet);
    model.set_color(6, 14, 0, rivet);
    model.set_color(9, 1, 0, rivet);
    model.set_color(9, 6, 0, rivet);
    model.set_color(9, 9, 0, rivet);
    model.set_color(9, 14, 0, rivet);
    model.set_color(14, 1, 0, rivet);
    model.set_color(14, 6, 0, rivet);
    model.set_color(14, 9, 0, rivet);
    model.set_color(14, 14, 0, rivet);
    model
}

/// Floor color at (x, y, z): the top layer is planks with a dark one every
/// third row; the bottom layer is a dark beam grid and empty between beams.
pub open spec fn floor_wood_voxel(x: int, y: int, z: int) -> Voxel {
    if y == 1 {
        Voxel::Filled(hex_color(if z % 3 == 2 { palette::WOOD_DARK } else { palette::WOOD_PLANK }))
    } else if z == 0 || z == 7 || z == 8 || z == 15 || x == 0 || x == 7 || x == 8 || x == 15 {
        Voxel::Filled(hex_color(palette::WOOD_DARK))
    } else {
        Voxel::Empty
    }
}

/// Floor piece, 16x2x16: a plank surface on a grid of support beams.
pub fn create_floor_wood() -> (m: VoxelModel)
    ensures
        sized(m, 16, 2, 16),
        forall|x: int, y: int, z: int| #![trigger m.at(x, y, z)] m.in_bounds(x, y, z)
            ==> m.at(x, y, z) == floor_wood_voxel(x, y, z),
{
    let mut model = VoxelModel::new(16, 2, 16);
    let plank = VoxelColor::from_hex(palette::WOOD_PLANK);
    let dark = VoxelColor::from_hex(palette::WOOD_DARK);

    let mut z: usize = 0;
    while z < 16
        invariant
            sized(model, 16, 2, 16),
            z <= 16,
            plank == hex_color(palette::WOOD_PLANK),
            dark == hex_color(palette::WOOD_DARK),
            forall|a: int, b: int, c: int| #![trigger model.at(a, b, c)] 0 <= a < 16 && 0 <= b < 2 && 0 <= c < 16
                ==> model.at(a, b, c) == if b == 1 && c < z {
                    Voxel::Filled(hex_color(if c % 3 == 2 { palette::WOOD_DARK } else { palette::WOOD_PLANK }))
                } else {
                    Voxel::Empty
                },
        decreases 16 - z,
    {
        let color = if z % 3 == 2 { dark } else { plank };
        model.fill_box(0, 1, z, 15, 1, z, color);
        z = z + 1;
    }

    model.fill_box(0, 0, 0, 15, 0, 0, dark);
    model.fill_box(0, 0, 7, 15, 0, 8, dark);
    model.fill_box(0, 0, 15, 15, 0, 15, dark);
    model.fill_box(0, 0, 0, 0, 0, 15, dark);
    model.fill_box(7, 0, 0, 8, 0, 15, dark);
    model.fill_box(15, 0, 0, 15, 0, 15, dark);
    model
}

/// Ramp voxel at (x, y, z): step `z` rises to height `z` (a dark step every
/// third), and a dark rail runs along both sides two cells above the steps.
pub open spec fn ramp_wood_voxel(x: int, y: int, z: int) -> Voxel {
    let rail_y = if z + 2 < 15 { z + 2 } else { 15 };
    if (x == 0 || x == 15) && y == rail_y {
        Voxel::Filled(hex_color(palette::WOOD_DARK))
    } else if y <= z {
        Voxel::Filled(hex_color(if z % 3 == 2 { palette::WOOD_DARK } else { palette::WOOD_PLANK }))
    } else {
        Voxel::Empty
    }
}

/// Ramp piece, 16x16x16: a staircase rising one cell per row, with side rails.
pub fn create_ramp_wood() -> (m: VoxelModel)
    ensures
        sized(m, 16, 16, 16),
        forall|x: int, y: int, z: int| #![trigger m.at(x, y, z)] m.in_bounds(x, y, z)
            ==> m.at(x, y, z) == ramp_wood_voxel(x, y, z),
{
    let mut model = VoxelModel::new(16, 16, 16);
    let plank = VoxelColor::from_hex(palette::WOOD_PLANK);
    let dark = VoxelColor::from_hex(palette::WOOD_DARK);

    let mut z: usize = 0;
    while z < 16
        invariant
            sized(model, 16, 16, 16),
            z <= 16,
            plank == hex_color(palette::WOOD_PLANK),
            dark == hex_color(palette::WOOD_DARK),
            forall|a: int, b: int, c: int| #![trigger model.at(a, b, c)] model.in_bounds(a, b, c)
                ==> model.at(a, b, c) == if c < z && b <= c {
                    Voxel::Filled(hex_color(if c % 3 == 2 { palette::WOOD_DARK } else { palette::WOOD_PLANK }))
                } else {
                    Voxel::Empty
                },
        decreases 16 - z,
    {
        let color = if z % 3 == 2 { dark } else { plank };
        model.fill_box(0, 0, z, 15, z, z, color);
        z = z + 1;
    }

    let mut z: usize = 0;
    while z < 16
        invariant
            sized(model, 16, 16, 16),
            z <= 16,
            dark == hex_color(palette::WOOD_DARK),
            forall|a: int, b: int, c: int| #![trigger model.at(a, b, c)] model.in_bounds(a, b, c)
                ==> model.at(a, b, c) == if c < z {
                    ramp_wood_voxel(a, b, c)
                } else if b <= c {
                    Voxel::Filled(hex_color(if c % 3 == 2 { palette::WOOD_DARK } else { palette::WOOD_PLANK }))
                } else {
                    Voxel::Empty
                },
        decreases 16 - z,
    {
        let height = z + 2;
        let rail_y = if height < 15 { height } else { 15 };
        model.set_color(0, rail_y, z, dark);
        model.set_color(15, rail_y, z, dark);
        z = z + 1;
    }
    model
}

/// Pine voxel at (x, y, z): trunk, four needle layers, then the darker patches.
pub open spec fn pine_voxel(x: int, y: int, z: int) -> Voxel {
    let trunk = hex_color(palette::WOOD_DARK);
    let leaves = hex_color(palette::LEAF_GREEN);
    let leaves_dark = hex_color(palette::GRASS_DARK);
    let v = over(Voxel::Empty, x, y, z, (4, 0, 4, 5, 8, 5), trunk);
    let v = over(v, x, y, z, (1, 6, 1, 8, 8, 8), leaves);
    let v = over(v, x, y, z, (2, 9, 2, 7, 12, 7), leaves);
    let v = over(v, x, y, z, (3, 13, 3, 6, 16, 6), leaves);
    let v = over(v, x, y, z, (4, 17, 4, 5, 19, 5), leaves);
    let v = over(v, x, y, z, (2, 7, 2, 2, 7, 2), leaves_dark);
    let v = over(v, x, y, z, (7, 7, 7, 7, 7, 7), leaves_dark);
    let v = over(v, x, y, z, (3, 10, 3, 3, 10, 3), leaves_dark);
    let v = over(v, x, y, z, (6, 10, 6, 6, 10, 6), leaves_dark);
    let v = over(v, x, y, z, (4, 14, 4, 4, 14, 4), leaves_dark);
    v
}

/// Pine tree, 10x20x10: a trunk under four shrinking layers of needles with darker patches.
pub fn create_pine_tree() -> (m: VoxelModel)
    ensures
        sized(m, 10, 20, 10),
        painted_as(m, |x: int, y: int, z: int| pine_voxel(x, y, z)),
        m.at(4, 0, 4) == Voxel::Filled(hex_color(palette::WOOD_DARK)),
        m.at(4, 7, 4) == Voxel::Filled(hex_color(palette::LEAF_GREEN)),
        m.at(2, 7, 2) == Voxel::Filled(hex_color(palette::GRASS_DARK)),
        m.at(5, 19, 5) == Voxel::Filled(hex_color(palette::LEAF_GREEN)),
        m.at(0, 19, 0) == Voxel::Empty,
{
    let mut model = VoxelModel::new(10, 20, 10);
    let trunk = VoxelColor::from_hex(palette::WOOD_DARK);
    let leaves = VoxelColor::from_hex(palette::LEAF_GREEN);
    let leaves_dark = VoxelColor::from_hex(palette::GRASS_DARK);

    model.fill_box(4, 0, 4, 5, 8, 5, trunk);
    model.fill_box(1, 6, 1, 8, 8, 8, leaves);
    model.fill_box(2, 9, 2, 7, 12, 7, leaves);
    model.fill_box(3, 13, 3, 6, 16, 6, leaves);
    model.fill_box(4, 17, 4, 5, 19, 5, leaves);
    model.set_color(2, 7, 2, leaves_dark);
    model.set_color(7, 7, 7, leaves_dark);
    model.set_color(3, 10, 3, leaves_dark);
    model.set_color(6, 10, 6, leaves_dark);
    model.set_color(4, 14, 4, leaves_dark);
    model
}

/// Oak voxel at (x, y, z): trunk and branches, then the crown.
pub open spec fn oak_voxel(x: int, y: int, z: int) -> Voxel {
    let trunk = hex_color(palette::WOOD_DARK);
    let leaves = hex_color(palette::LEAF_GREEN);
    let v = over(Voxel::Empty, x, y, z, (5, 0, 5, 6, 7, 6), trunk);
    let v = over(v, x, y, z, (4, 6, 5, 4, 7, 6), trunk);
    let v = over(v, x, y, z, (7, 6, 5, 7, 7, 6), trunk);
    let v = over(v, x, y, z, (5, 6, 4, 6, 7, 4), trunk);
    let v = over(v, x, y, z, (5, 6, 7, 6, 7, 7), trunk);
    let v = over(v, x, y, z, (2, 8, 2, 9, 13, 9), leaves);
    let v = over(v, x, y, z, (1, 9, 3, 10, 12, 8), leaves);
    let v = over(v, x, y, z, (3, 9, 1, 8, 12, 10), leaves);
    let v = over(v, x, y, z, (3, 14, 3, 8, 15, 8), leaves);
    v
}

/// Oak tree, 12x16x12: a trunk with four branches under a rounded crown.
pub fn create_oak_tree() -> (m: VoxelModel)
    ensures
        sized(m, 12, 16, 12),
        painted_as(m, |x: int, y: int, z: int| oak_voxel(x, y, z)),
        m.at(5, 0, 5) == Voxel::Filled(hex_color(palette::WOOD_DARK)),
        m.at(4, 6, 5) == Voxel::Filled(hex_color(palette::WOOD_DARK)),
        m.at(5, 10, 5) == Voxel::Filled(hex_color(palette::LEAF_GREEN)),
        m.at(0, 0, 0) == Voxel::Empty,
{
    let mut model = VoxelModel::new(12, 16, 12);
    let trunk = VoxelColor::from_hex(palette::WOOD_DARK);
    let leaves = VoxelColor::from_hex(palette::LEAF_GREEN);

    model.fill_box(5, 0, 5, 6, 7, 6, trunk);
    model.fill_box(4, 6, 5, 4, 7, 6, trunk);
    model.fill_box(7, 6, 5, 7, 7, 6, trunk);
    model.fill_box(5, 6, 4, 6, 7, 4, trunk);
    model.fill_box(5, 6, 7, 6, 7, 7, trunk);
    model.fill_box(2, 8, 2, 9, 13, 9, leaves);
    model.fill_box(1, 9, 3, 10, 12, 8, leaves);
    model.fill_box(3, 9, 1, 8, 12, 10, leaves);
    model.fill_box(3, 14, 3, 8, 15, 8, leaves);
    model
}

/// Rock voxel at (x, y, z): the gray lump, then two dark spots placed by the
/// parity of the seed.
pub open spec fn rock_voxel(seed: u32, x: int, y: int, z: int) -> Voxel {
    let gray = hex_color(palette::STONE_GRAY);
    let dark = hex_color(palette::STONE_DARK);
    let v = over(Voxel::Empty, x, y, z, (1, 0, 1, 4, 2, 3), gray);
    let v = over(v, x, y, z, (0, 0, 1, 0, 1, 2), gray);
    let v = over(v, x, y, z, (5, 0, 2, 5, 1, 3), gray);
    let v = over(v, x, y, z, (2, 3, 2, 3, 3, 2), gray);
    if seed % 2 == 0 {
        over(over(v, x, y, z, (1, 1, 1, 1, 1, 1), dark), x, y, z, (4, 2, 3, 4, 2, 3), dark)
    } else {
        over(over(v, x, y, z, (3, 2, 2, 3, 2, 2), dark), x, y, z, (0, 0, 2, 0, 0, 2), dark)
    }
}

/// Rock, 6x4x5: an irregular gray lump whose two dark spots depend on the
/// parity of `seed`.
pub fn create_rock(seed: u32) -> (m: VoxelModel)
    ensures
        sized(m, 6, 4, 5),
        painted_as(m, |x: int, y: int, z: int| rock_voxel(seed, x, y, z)),
        m.at(2, 0, 2) == Voxel::Filled(hex_color(palette::STONE_GRAY)),
        seed % 2 == 0 ==> m.at(1, 1, 1) == Voxel::Filled(hex_color(palette::STONE_DARK))
            && m.at(4, 2, 3) == Voxel::Filled(hex_color(palette::STONE_DARK))
            && m.at(3, 2, 2) == Voxel::Filled(hex_color(palette::STONE_GRAY)),
        seed % 2 == 1 ==> m.at(3, 2, 2) == Voxel::Filled(hex_color(palette::STONE_DARK))
            && m.at(0, 0, 2) == Voxel::Filled(hex_color(palette::STONE_DARK))
            && m.at(1, 1, 1) == Voxel::Filled(hex_color(palette::STONE_GRAY)),
{
    let mut model = VoxelModel::new(6, 4, 5);
    let gray = VoxelColor::from_hex(palette::STONE_GRAY);
    let dark = VoxelColor::from_hex(palette::STONE_DARK);

    model.fill_box(1, 0, 1, 4, 2, 3, gray);
    model.fill_box(0, 0, 1, 0, 1, 2, gray);
    model.fill_box(5, 0, 2, 5, 1, 3, gray);
    model.fill_box(2, 3, 2, 3, 3, 2, gray);
    if seed % 2 == 0 {
        model.set_color(1, 1, 1, dark);
        model.set_color(4, 2, 3, dark);
    } else {
        model.set_color(3, 2, 2, dark);
        model.set_color(0, 0, 2, dark);
    }
    model
}

/// Backpack body size for a style: small, medium, or large for any other value.
pub open spec fn backpack_size(style: u8) -> (int, int, int) {
    match style {
        1 => (4, 5, 2),
        2 => (5, 7, 3),
        _ => (6, 8, 4),
    }
}

/// Backpack color for a style: green, tan, or black for any other value.
pub open spec fn backpack_hex(style: u8) -> u32 {
    match style {
        1 => palette::BACKPACK_GREEN,
        2 => palette::BACKPACK_TAN,
        _ => palette::PANTS_BLACK,
    }
}

/// Backpack voxel at (x, y, z) for a style other than 0: the body of the
/// style's size centered in the grid, strap corners on its back face and a
/// pocket two rows high on its front.
pub open spec fn backpack_voxel(style: u8, x: int, y: int, z: int) -> Voxel {
    let (w, h, d) = backpack_size(style);
    let ox = (6 - w) / 2;
    let oy = (8 - h) / 2;
    let strap = hex_color(0x333333);
    let v = over(Voxel::Empty, x, y, z, (ox, oy, 0, ox + w - 1, oy + h - 1, d - 1), hex_color(backpack_hex(style)));
    let v = over(v, x, y, z, (ox, oy + 1, d - 1, ox, oy + 1, d - 1), strap);
    let v = over(v, x, y, z, (ox + w - 1, oy + 1, d - 1, ox + w - 1, oy + 1, d - 1), strap);
    let v = over(v, x, y, z, (ox, oy + h - 2, d - 1, ox, oy + h - 2, d - 1), strap);
    let v = over(v, x, y, z, (ox + w - 1, oy + h - 2, d - 1, ox + w - 1, oy + h - 2, d - 1), strap);
    over(v, x, y, z, (ox + 1, oy + 1, 0, ox + w - 2, oy + 2, 0), hex_color(0x2A2A2A))
}

/// Backpack for a style: style 0 is no backpack (an empty 1x1x1 model);
/// otherwise a body of the style's size centered in a 6x8x4 grid, with strap
/// corners on its back face and a pocket on its front.
pub fn create_backpack_model(style: u8) -> (m: VoxelModel)
    ensures
        style == 0 ==> sized(m, 1, 1, 1) && m.at(0, 0, 0) == Voxel::Empty,
        style != 0 ==> painted_as(m, |x: int, y: int, z: int| backpack_voxel(style, x, y, z)),
        style != 0 ==> sized(m, 6, 8, 4) && ({
            let (w, h, d) = backpack_size(style);
            let ox = (6 - w) / 2;
            let oy = (8 - h) / 2;
            &&& m.at(ox + w - 2, oy + h / 2, d - 1) == Voxel::Filled(hex_color(backpack_hex(style)))
            &&& m.at(ox, oy + 1, d - 1) == Voxel::Filled(hex_color(0x333333))
            &&& m.at(ox + 1, oy + 1, 0) == Voxel::Filled(hex_color(0x2A2A2A))
            &&& m.at(ox + w, oy, 0) == Voxel::Empty
        }),
{
    let color_hex: u32 = match style {
        0 => {
            return VoxelModel::new(1, 1, 1);
        },
        1 => palette::BACKPACK_GREEN,
        2 => palette::BACKPACK_TAN,
        _ => palette::PANTS_BLACK,
    };
    let color = VoxelColor::from_hex(color_hex);
    let mut model = VoxelModel::new(6, 8, 4);
    let size: (usize, usize, usize) = match style {
        1 => (4, 5, 2),
        2 => (5, 7, 3),
        _ => (6, 8, 4),
    };
    let ox = (6 - size.0) / 2;
    let oy = (8 - size.1) / 2;
    let oz: usize = 0;

    model.fill_box(ox, oy, oz, ox + size.0 - 1, oy + size.1 - 1, oz + size.2 - 1, color);

    let strap = VoxelColor::from_hex(0x333333);
    if size.1 > 4 {
        model.set_color(ox, oy + 1, oz + size.2 - 1, strap);
        model.set_color(ox + size.0 - 1, oy + 1, oz + size.2 - 1, strap);
        model.set_color(ox, oy + size.1 - 2, oz + size.2 - 1, strap);
        model.set_color(ox + size.0 - 1, oy + size.1 - 2, oz + size.2 - 1, strap);
    }

    let pocket = VoxelColor::from_hex(0x2A2A2A);
    if size.0 > 3 && size.1 > 3 {
        model.fill_box(ox + 1, oy + 1, oz, ox + size.0 - 2, oy + 2, oz, pocket);
    }
    model
}

/// Glider canopy color for a style: red, blue, green, or orange for any other value.
pub open spec fn glider_hex(style: u8) -> u32 {
    match style {
        0 => palette::GLIDER_RED,
        1 => palette::GLIDER_BLUE,
        2 => 0x44AA44,
        _ => 0xFFAA00,
    }
}

/// Glider voxel at (x, y, z): canopy layers, accent stripes, strings and the harness.
pub open spec fn glider_voxel(style: u8, x: int, y: int, z: int) -> Voxel {
    let main_color = hex_color(glider_hex(style));
    let accent = hex_color(DARK_DETAIL);
    let string = hex_color(0x888888);
    let v = over(Voxel::Empty, x, y, z, (2, 6, 2, 21, 6, 13), main_color);
    let v = over(v, x, y, z, (4, 7, 4, 19, 7, 11), main_color);
    let v = over(v, x, y, z, (11, 6, 2, 12, 7, 13), accent);
    let v = over(v, x, y, z, (2, 6, 7, 21, 7, 8), accent);
    let v = over(v, x, y, z, (4, 5, 4, 4, 5, 4), string);
    let v = over(v, x, y, z, (6, 4, 5, 6, 4, 5), string);
    let v = over(v, x, y, z, (8, 3, 6, 8, 3, 6), string);
    let v = over(v, x, y, z, (10, 2, 7, 10, 2, 7), string);
    let v = over(v, x, y, z, (11, 1, 7, 11, 1, 7), string);
    let v = over(v, x, y, z, (19, 5, 4, 19, 5, 4), string);
    let v = over(v, x, y, z, (17, 4, 5, 17, 4, 5), string);
    let v = over(v, x, y, z, (15, 3, 6, 15, 3, 6), string);
    let v = over(v, x, y, z, (13, 2, 7, 13, 2, 7), string);
    let v = over(v, x, y, z, (12, 1, 7, 12, 1, 7), string);
    let v = over(v, x, y, z, (4, 5, 11, 4, 5, 11), string);
    let v = over(v, x, y, z, (6, 4, 10, 6, 4, 10), string);
    let v = over(v, x, y, z, (8, 3, 9, 8, 3, 9), string);
    let v = over(v, x, y, z, (10, 2, 8, 10, 2, 8), string);
    let v = over(v, x, y, z, (19, 5, 11, 19, 5, 11), string);
    let v = over(v, x, y, z, (17, 4, 10, 17, 4, 10), string);
    let v = over(v, x, y, z, (15, 3, 9, 15, 3, 9), string);
    let v = over(v, x, y, z, (13, 2, 8, 13, 2, 8), string);
    let v = over(v, x, y, z, (10, 0, 7, 13, 0, 8), accent);
    v
}

/// Glider, 24x8x16: a two-layer canopy in the style's color with dark accent
/// stripes, support strings down to a harness point.
pub fn create_glider_model(style: u8) -> (m: VoxelModel)
    ensures
        sized(m, 24, 8, 16),
        painted_as(m, |x: int, y: int, z: int| glider_voxel(style, x, y, z)),
        m.at(3, 6, 3) == Voxel::Filled(hex_color(glider_hex(style))),
        m.at(5, 7, 5) == Voxel::Filled(hex_color(glider_hex(style))),
        m.at(11, 6, 3) == Voxel::Filled(hex_color(DARK_DETAIL)),
        m.at(4, 5, 4) == Voxel::Filled(hex_color(0x888888)),
        m.at(10, 0, 7) == Voxel::Filled(hex_color(DARK_DETAIL)),
{
    let mut model = VoxelModel::new(24, 8, 16);
    let main_hex: u32 = match style {
        0 => palette::GLIDER_RED,
        1 => palette::GLIDER_BLUE,
        2 => 0x44AA44,
        _ => 0xFFAA00,
    };
    let main_color = VoxelColor::from_hex(main_hex);
    let accent = VoxelColor::from_hex(DARK_DETAIL);
    let string = VoxelColor::from_hex(0x888888);

    model.fill_box(2, 6, 2, 21, 6, 13, main_color);
    model.fill_box(4, 7, 4, 19, 7, 11, main_color);
    model.fill_box(11, 6, 2, 12, 7, 13, accent);
    model.fill_box(2, 6, 7, 21, 7, 8, accent);

    model.set_color(4, 5, 4, string);
    model.set_color(6, 4, 5, string);
    model.set_color(8, 3, 6, string);
    model.set_color(10, 2, 7, string);
    model.set_color(11, 1, 7, string);

    model.set_color(19, 5, 4, string);
    model.set_color(17, 4, 5, string);
    model.set_color(15, 3, 6, string);
    model.set_color(13, 2, 7, string);
    model.set_color(12, 1, 7, string);

    model.set_color(4, 5, 11, string);
    model.set_color(6, 4, 10, string);
    model.set_color(8, 3, 9, string);
    model.set_color(10, 2, 8, string);

    model.set_color(19, 5, 11, string);
    model.set_color(17, 4, 10, string);
    model.set_color(15, 3, 9, string);
    model.set_color(13, 2, 8, string);

    model.fill_box(10, 0, 7, 13, 0, 8, accent);
    model
}

/// Shotgun voxel at (x, y, z): barrel, the rib every other column, muzzle and bead, magazine tube, receiver, trigger, grooved pump, stock and sights.
pub open spec fn shotgun_voxel(x: int, y: int, z: int) -> Voxel {
    let metal = hex_color(palette::GUN_METAL);
    let dark = hex_color(palette::GUN_DARK);
    let grip = hex_color(palette::GUN_GRIP);
    let accent = hex_color(palette::GUN_ACCENT);
    let chrome = hex_color(palette::CHROME_DARK);
    let v = over(Voxel::Empty, x, y, z, (10, 4, 2, 31, 5, 3), metal);
    let v = over(v, x, y, z, (10, 4, 1, 31, 4, 1), dark);
    let v = over(v, x, y, z, (10, 5, 1, 31, 5, 1), dark);
    let v = over(v, x, y, z, (10, 4, 4, 31, 4, 4), dark);
    let v = over(v, x, y, z, (10, 5, 4, 31, 5, 4), dark);
    let v = over_stripe(over_stripe(v, x, y, z, 12, 2, 30, 6, 2, metal), x, y, z, 12, 2, 30, 6, 3, metal);
    let v = over(v, x, y, z, (30, 4, 2, 31, 5, 3), dark);
    let v = over(v, x, y, z, (30, 6, 2, 30, 6, 2), accent);
    let v = over(v, x, y, z, (30, 6, 3, 30, 6, 3), accent);
    let v = over(v, x, y, z, (10, 2, 2, 26, 3, 3), metal);
    let v = over(v, x, y, z, (26, 2, 2, 27, 3, 3), dark);
    let v = over(v, x, y, z, (4, 2, 1, 14, 5, 4), metal);
    let v = over(v, x, y, z, (5, 3, 2, 13, 4, 3), dark);
    let v = over(v, x, y, z, (8, 4, 4, 12, 5, 4), dark);
    let v = over(v, x, y, z, (6, 2, 1, 10, 3, 1), dark);
    let v = over(v, x, y, z, (6, 1, 2, 10, 1, 3), metal);
    let v = over(v, x, y, z, (8, 1, 2, 8, 1, 2), dark);
    let v = over(v, x, y, z, (8, 1, 3, 8, 1, 3), dark);
    let v = over(v, x, y, z, (14, 1, 1, 22, 3, 4), grip);
    let v = over(v, x, y, z, (15, 1, 1, 15, 3, 1), dark);
    let v = over(v, x, y, z, (15, 1, 4, 15, 3, 4), dark);
    let v = over(v, x, y, z, (17, 1, 1, 17, 3, 1), dark);
    let v = over(v, x, y, z, (17, 1, 4, 17, 3, 4), dark);
    let v = over(v, x, y, z, (19, 1, 1, 19, 3, 1), dark);
    let v = over(v, x, y, z, (19, 1, 4, 19, 3, 4), dark);
    let v = over(v, x, y, z, (21, 1, 1, 21, 3, 1), dark);
    let v = over(v, x, y, z, (21, 1, 4, 21, 3, 4), dark);
    let v = over(v, x, y, z, (0, 1, 1, 5, 4, 4), grip);
    let v = over(v, x, y, z, (0, 0, 2, 3, 0, 3), grip);
    let v = over(v, x, y, z, (0, 1, 1, 0, 4, 4), dark);
    let v = over(v, x, y, z, (4, 0, 1, 6, 1, 4), grip);
    let v = over(v, x, y, z, (8, 6, 2, 8, 6, 2), chrome);
    let v = over(v, x, y, z, (8, 6, 3, 8, 6, 3), chrome);
    v
}

/// Pump-action shotgun, 32x8x6: barrel with a ventilated rib, magazine tube,
/// receiver, grooved pump, stock and sights.
pub fn create_shotgun_model() -> (m: VoxelModel)
    ensures
        sized(m, 32, 8, 6),
        painted_as(m, |x: int, y: int, z: int| shotgun_voxel(x, y, z)),
        m.at(31, 4, 2) == Voxel::Filled(hex_color(palette::GUN_DARK)),
        m.at(30, 6, 2) == Voxel::Filled(hex_color(palette::GUN_ACCENT)),
        m.at(15, 1, 1) == Voxel::Filled(hex_color(palette::GUN_DARK)),
        m.at(16, 2, 2) == Voxel::Filled(hex_color(palette::GUN_GRIP)),
        m.at(0, 2, 2) == Voxel::Filled(hex_color(palette::GUN_DARK)),
        m.at(8, 6, 3) == Voxel::Filled(hex_color(palette::CHROME_DARK)),
{
    let mut model = VoxelModel::new(32, 8, 6);
    let metal = VoxelColor::from_hex(palette::GUN_METAL);
    let dark = VoxelColor::from_hex(palette::GUN_DARK);
    let grip = VoxelColor::from_hex(palette::GUN_GRIP);
    let accent = VoxelColor::from_hex(palette::GUN_ACCENT);
    let chrome = VoxelColor::from_hex(palette::CHROME_DARK);

    // Barrel
    model.fill_box(10, 4, 2, 31, 5, 3, metal);
    model.fill_box(10, 4, 1, 31, 4, 1, dark);
    model.fill_box(10, 5, 1, 31, 5, 1, dark);
    model.fill_box(10, 4, 4, 31, 4, 4, dark);
    model.fill_box(10, 5, 4, 31, 5, 4, dark);

    // Ventilated rib on top of the barrel
    let ghost before_rib = model;
    let mut x: usize = 12;
    while x < 30
        invariant
            sized(model, 32, 8, 6),
            12 <= x <= 30,
            (x - 12) % 2 == 0,
            forall|a: int, b: int, c: int| #![trigger model.at(a, b, c)] model.in_bounds(a, b, c)
                ==> model.at(a, b, c) == over_stripe(over_stripe(before_rib.at(a, b, c), a, b, c, 12, 2, x as int, 6, 2, metal), a, b, c, 12, 2, x as int, 6, 3, metal),
        decreases 31 - x,
    {
        model.set_color(x, 6, 2, metal);
        model.set_color(x, 6, 3, metal);
        x = x + 2;
    }

    // Muzzle and bead sight
    model.fill_box(30, 4, 2, 31, 5, 3, dark);
    model.set_color(30, 6, 2, accent);
    model.set_color(30, 6, 3, accent);

    // Magazine tube
    model.fill_box(10, 2, 2, 26, 3, 3, metal);
    model.fill_box(26, 2, 2, 27, 3, 3, dark);

    // Receiver, ejection port, loading gate
    model.fill_box(4, 2, 1, 14, 5, 4, metal);
    model.fill_box(5, 3, 2, 13, 4, 3, dark);
    model.fill_box(8, 4, 4, 12, 5, 4, dark);
    model.fill_box(6, 2, 1, 10, 3, 1, dark);

    // Trigger guard and trigger
    model.fill_box(6, 1, 2, 10, 1, 3, metal);
    model.set_color(8, 1, 2, dark);
    model.set_color(8, 1, 3, dark);

    // Pump with grooves
    model.fill_box(14, 1, 1, 22, 3, 4, grip);
    model.fill_box(15, 1, 1, 15, 3, 1, dark);
    model.fill_box(15, 1, 4, 15, 3, 4, dark);
    model.fill_box(17, 1, 1, 17, 3, 1, dark);
    model.fill_box(17, 1, 4, 17, 3, 4, dark);
    model.fill_box(19, 1, 1, 19, 3, 1, dark);
    model.fill_box(19, 1, 4, 19, 3, 4, dark);
    model.fill_box(21, 1, 1, 21, 3, 1, dark);
    model.fill_box(21, 1, 4, 21, 3, 4, dark);

    // Stock, toe, buttpad and pistol grip
    model.fill_box(0, 1, 1, 5, 4, 4, grip);
    model.fill_box(0, 0, 2, 3, 0, 3, grip);
    model.fill_box(0, 1, 1, 0, 4, 4, dark);
    model.fill_box(4, 0, 1, 6, 1, 4, grip);

    // Rear sight
    model.set_color(8, 6, 2, chrome);
    model.set_color(8, 6, 3, chrome);
    model
}

/// Assault rifle voxel at (x, y, z): barrel and muzzle brake, gas block and handguard, rails every other column, upper receiver and carry handle, controls, lower receiver, magazine, grip, stock and sights.
pub open spec fn ar_voxel(x: int, y: int, z: int) -> Voxel {
    let metal = hex_color(palette::GUN_METAL);
    let dark = hex_color(palette::GUN_DARK);
    let grip = hex_color(palette::GUN_GRIP);
    let accent = hex_color(palette::GUN_ACCENT);
    let chrome = hex_color(palette::CHROME_DARK);
    let rail = hex_color(0x3A3A3A);
    let v = over(Voxel::Empty, x, y, z, (26, 4, 2, 39, 5, 3), metal);
    let v = over(v, x, y, z, (26, 4, 1, 35, 4, 1), dark);
    let v = over(v, x, y, z, (26, 5, 1, 35, 5, 1), dark);
    let v = over(v, x, y, z, (26, 4, 4, 35, 4, 4), dark);
    let v = over(v, x, y, z, (26, 5, 4, 35, 5, 4), dark);
    let v = over(v, x, y, z, (37, 4, 2, 39, 5, 3), dark);
    let v = over(v, x, y, z, (38, 4, 1, 39, 5, 1), metal);
    let v = over(v, x, y, z, (38, 4, 4, 39, 5, 4), metal);
    let v = over(v, x, y, z, (30, 6, 2, 32, 6, 3), metal);
    let v = over(v, x, y, z, (20, 3, 1, 29, 6, 4), dark);
    let v = over_stripe(over_stripe(v, x, y, z, 20, 2, 30, 7, 2, rail), x, y, z, 20, 2, 30, 7, 3, rail);
    let v = over_stripe(over_stripe(over_stripe(over_stripe(v, x, y, z, 21, 2, 29, 4, 0, rail), x, y, z, 21, 2, 29, 5, 0, rail), x, y, z, 21, 2, 29, 4, 5, rail), x, y, z, 21, 2, 29, 5, 5, rail);
    let v = over_stripe(over_stripe(v, x, y, z, 21, 2, 29, 2, 2, rail), x, y, z, 21, 2, 29, 2, 3, rail);
    let v = over(v, x, y, z, (10, 4, 1, 22, 7, 4), metal);
    let v = over(v, x, y, z, (12, 8, 2, 20, 8, 3), metal);
    let v = over_stripe(over_stripe(v, x, y, z, 13, 2, 19, 9, 2, rail), x, y, z, 13, 2, 19, 9, 3, rail);
    let v = over(v, x, y, z, (17, 6, 4, 17, 6, 4), chrome);
    let v = over(v, x, y, z, (18, 6, 4, 18, 6, 4), chrome);
    let v = over(v, x, y, z, (14, 5, 4, 18, 6, 4), dark);
    let v = over(v, x, y, z, (10, 7, 2, 12, 7, 3), dark);
    let v = over(v, x, y, z, (10, 8, 2, 10, 8, 2), dark);
    let v = over(v, x, y, z, (10, 8, 3, 10, 8, 3), dark);
    let v = over(v, x, y, z, (10, 2, 1, 18, 4, 4), metal);
    let v = over(v, x, y, z, (12, 1, 1, 16, 1, 4), metal);
    let v = over(v, x, y, z, (14, 1, 2, 14, 1, 2), dark);
    let v = over(v, x, y, z, (14, 1, 3, 14, 1, 3), dark);
    let v = over(v, x, y, z, (13, 1, 1, 17, 2, 4), dark);
    let v = over(v, x, y, z, (13, 0, 1, 17, 1, 4), dark);
    let v = over(v, x, y, z, (14, 0, 1, 14, 0, 1), accent);
    let v = over(v, x, y, z, (15, 0, 1, 15, 0, 1), accent);
    let v = over(v, x, y, z, (10, 0, 1, 12, 2, 4), grip);
    let v = over(v, x, y, z, (2, 4, 2, 10, 5, 3), dark);
    let v = over(v, x, y, z, (0, 3, 1, 6, 6, 4), grip);
    let v = over(v, x, y, z, (0, 2, 2, 2, 2, 3), grip);
    let v = over(v, x, y, z, (0, 3, 1, 0, 6, 4), dark);
    let v = over(v, x, y, z, (4, 4, 0, 4, 4, 0), chrome);
    let v = over(v, x, y, z, (4, 5, 0, 4, 5, 0), chrome);
    let v = over(v, x, y, z, (34, 7, 2, 34, 7, 2), accent);
    let v = over(v, x, y, z, (34, 7, 3, 34, 7, 3), accent);
    let v = over(v, x, y, z, (15, 9, 2, 15, 9, 2), chrome);
    let v = over(v, x, y, z, (15, 9, 3, 15, 9, 3), chrome);
    v
}

/// Assault rifle, 40x10x6: barrel with muzzle brake, railed handguard, upper
/// and lower receiver, magazine, grip, buffer tube, stock and sights.
pub fn create_ar_model() -> (m: VoxelModel)
    ensures
        sized(m, 40, 10, 6),
        painted_as(m, |x: int, y: int, z: int| ar_voxel(x, y, z)),
        m.at(39, 4, 2) == Voxel::Filled(hex_color(palette::GUN_DARK)),
        m.at(39, 4, 1) == Voxel::Filled(hex_color(palette::GUN_METAL)),
        m.at(14, 0, 1) == Voxel::Filled(hex_color(palette::GUN_ACCENT)),
        m.at(11, 1, 2) == Voxel::Filled(hex_color(palette::GUN_GRIP)),
        m.at(34, 7, 2) == Voxel::Filled(hex_color(palette::GUN_ACCENT)),
        m.at(15, 9, 3) == Voxel::Filled(hex_color(palette::CHROME_DARK)),
        m.at(0, 4, 2) == Voxel::Filled(hex_color(palette::GUN_DARK)),
{
    let mut model = VoxelModel::new(40, 10, 6);
    let metal = VoxelColor::from_hex(palette::GUN_METAL);
    let dark = VoxelColor::from_hex(palette::GUN_DARK);
    let grip = VoxelColor::from_hex(palette::GUN_GRIP);
    let accent = VoxelColor::from_hex(palette::GUN_ACCENT);
    let chrome = VoxelColor::from_hex(palette::CHROME_DARK);
    let rail = VoxelColor::from_hex(0x3A3A3A);

    // Barrel and muzzle brake
    model.fill_box(26, 4, 2, 39, 5, 3, metal);
    model.fill_box(26, 4, 1, 35, 4, 1, dark);
    model.fill_box(26, 5, 1, 35, 5, 1, dark);
    model.fill_box(26, 4, 4, 35, 4, 4, dark);
    model.fill_box(26, 5, 4, 35, 5, 4, dark);
    model.fill_box(37, 4, 2, 39, 5, 3, dark);
    model.fill_box(38, 4, 1, 39, 5, 1, metal);
    model.fill_box(38, 4, 4, 39, 5, 4, metal);

    // Gas block and handguard
    model.fill_box(30, 6, 2, 32, 6, 3, metal);
    model.fill_box(20, 3, 1, 29, 6, 4, dark);

    // Top rail
    let ghost before_top_rail = model;
    let mut x: usize = 20;
    while x < 29
        invariant
            sized(model, 40, 10, 6),
            20 <= x <= 30,
            (x - 20) % 2 == 0,
            forall|a: int, b: int, c: int| #![trigger model.at(a, b, c)] model.in_bounds(a, b, c)
                ==> model.at(a, b, c) == over_stripe(over_stripe(before_top_rail.at(a, b, c), a, b, c, 20, 2, x as int, 7, 2, rail), a, b, c, 20, 2, x as int, 7, 3, rail),
        decreases 30 - x,
    {
        model.set_color(x, 7, 2, rail);
        model.set_color(x, 7, 3, rail);
        x = x + 2;
    }
    // Side rails
    let ghost before_side_rails = model;
    let mut x: usize = 21;
    while x < 28
        invariant
            sized(model, 40, 10, 6),
            21 <= x <= 29,
            (x - 21) % 2 == 0,
            forall|a: int, b: int, c: int| #![trigger model.at(a, b, c)] model.in_bounds(a, b, c)
                ==> model.at(a, b, c) == over_stripe(over_stripe(over_stripe(over_stripe(before_side_rails.at(a, b, c), a, b, c, 21, 2, x as int, 4, 0, rail), a, b, c, 21, 2, x as int, 5, 0, rail), a, b, c, 21, 2, x as int, 4, 5, rail), a, b, c, 21, 2, x as int, 5, 5, rail),
        decreases 29 - x,
    {
        model.set_color(x, 4, 0, rail);
        model.set_color(x, 5, 0, rail);
        model.set_color(x, 4, 5, rail);
        model.set_color(x, 5, 5, rail);
        x = x + 2;
    }
    // Bottom rail
    let ghost before_bottom_rail = model;
    let mut x: usize = 21;
    while x < 28
        invariant
            sized(model, 40, 10, 6),
            21 <= x <= 29,
            (x - 21) % 2 == 0,
            forall|a: int, b: int, c: int| #![trigger model.at(a, b, c)] model.in_bounds(a, b, c)
                ==> model.at(a, b, c) == over_stripe(over_stripe(before_bottom_rail.at(a, b, c), a, b, c, 21, 2, x as int, 2, 2, rail), a, b, c, 21, 2, x as int, 2, 3, rail),
        decreases 29 - x,
    {
        model.set_color(x, 2, 2, rail);
        model.set_color(x, 2, 3, rail);
        x = x + 2;
    }

    // Upper receiver and carry handle
    model.fill_box(10, 4, 1, 22, 7, 4, metal);
    model.fill_box(12, 8, 2, 20, 8, 3, metal);
    let ghost before_handle_rail = model;
    let mut x: usize = 13;
    while x < 19
        invariant
            sized(model, 40, 10, 6),
            13 <= x <= 19,
            (x - 13) % 2 == 0,
            forall|a: int, b: int, c: int| #![trigger model.at(a, b, c)] model.in_bounds(a, b, c)
                ==> model.at(a, b, c) == over_stripe(over_stripe(before_handle_rail.at(a, b, c), a, b, c, 13, 2, x as int, 9, 2, rail), a, b, c, 13, 2, x as int, 9, 3, rail),
        decreases 20 - x,
    {
        model.set_color(x, 9, 2, rail);
        model.set_color(x, 9, 3, rail);
        x = x + 2;
    }

    // Forward assist, ejection port cover, charging handle
    model.set_color(17, 6, 4, chrome);
    model.set_color(18, 6, 4, chrome);
    model.fill_box(14, 5, 4, 18, 6, 4, dark);
    model.fill_box(10, 7, 2, 12, 7, 3, dark);
    model.set_color(10, 8, 2, dark);
    model.set_color(10, 8, 3, dark);

    // Lower receiver, trigger guard and trigger
    model.fill_box(10, 2, 1, 18, 4, 4, metal);
    model.fill_box(12, 1, 1, 16, 1, 4, metal);
    model.set_color(14, 1, 2, dark);
    model.set_color(14, 1, 3, dark);

    // Magazine well, magazine and its window
    model.fill_box(13, 1, 1, 17, 2, 4, dark);
    model.fill_box(13, 0, 1, 17, 1, 4, dark);
    model.set_color(14, 0, 1, accent);
    model.set_color(15, 0, 1, accent);

    // Pistol grip, buffer tube, stock, toe and buttpad
    model.fill_box(10, 0, 1, 12, 2, 4, grip);
    model.fill_box(2, 4, 2, 10, 5, 3, dark);
    model.fill_box(0, 3, 1, 6, 6, 4, grip);
    model.fill_box(0, 2, 2, 2, 2, 3, grip);
    model.fill_box(0, 3, 1, 0, 6, 4, dark);

    // Adjustment lever
    model.set_color(4, 4, 0, chrome);
    model.set_color(4, 5, 0, chrome);

    // Front sight post and rear sight
    model.set_color(34, 7, 2, accent);
    model.set_color(34, 7, 3, accent);
    model.set_color(15, 9, 2, chrome);
    model.set_color(15, 9, 3, chrome);
    model
}

/// Sniper voxel at (x, y, z): barrel and suppressor, fluting every third column, receiver, scope with lenses and turrets, bolt, trigger, textured grip, stock and bipod.
pub open spec fn sniper_voxel(x: int, y: int, z: int) -> Voxel {
    let metal = hex_color(palette::GUN_METAL);
    let dark = hex_color(palette::GUN_DARK);
    let grip = hex_color(palette::GUN_GRIP);
    let chrome = hex_color(palette::CHROME_DARK);
    let lens = hex_color(0x4488CC);
    let lens_rim = hex_color(DARK_DETAIL);
    let v = over(Voxel::Empty, x, y, z, (30, 4, 2, 47, 5, 3), metal);
    let v = over(v, x, y, z, (30, 4, 1, 42, 4, 1), dark);
    let v = over(v, x, y, z, (30, 5, 1, 42, 5, 1), dark);
    let v = over(v, x, y, z, (30, 4, 4, 42, 4, 4), dark);
    let v = over(v, x, y, z, (30, 5, 4, 42, 5, 4), dark);
    let v = over(v, x, y, z, (44, 4, 2, 47, 5, 3), dark);
    let v = over(v, x, y, z, (45, 3, 2, 46, 3, 3), metal);
    let v = over(v, x, y, z, (45, 6, 2, 46, 6, 3), metal);
    let v = over_stripe(over_stripe(over_stripe(over_stripe(v, x, y, z, 32, 3, 44, 4, 1, metal), x, y, z, 32, 3, 44, 5, 1, metal), x, y, z, 32, 3, 44, 4, 4, metal), x, y, z, 32, 3, 44, 5, 4, metal);
    let v = over(v, x, y, z, (16, 3, 1, 32, 6, 4), metal);
    let v = over(v, x, y, z, (18, 7, 1, 30, 9, 4), dark);
    let v = over(v, x, y, z, (17, 7, 2, 17, 9, 3), dark);
    let v = over(v, x, y, z, (31, 7, 2, 32, 9, 3), dark);
    let v = over(v, x, y, z, (20, 6, 1, 22, 7, 4), chrome);
    let v = over(v, x, y, z, (27, 6, 1, 29, 7, 4), chrome);
    let v = over(v, x, y, z, (32, 7, 2, 32, 9, 3), lens_rim);
    let v = over(v, x, y, z, (32, 8, 2, 32, 8, 2), lens);
    let v = over(v, x, y, z, (32, 8, 3, 32, 8, 3), lens);
    let v = over(v, x, y, z, (17, 7, 2, 17, 9, 3), lens_rim);
    let v = over(v, x, y, z, (17, 8, 2, 17, 8, 2), lens);
    let v = over(v, x, y, z, (17, 8, 3, 17, 8, 3), lens);
    let v = over(v, x, y, z, (24, 9, 2, 25, 10, 3), chrome);
    let v = over(v, x, y, z, (24, 8, 4, 25, 9, 5), chrome);
    let v = over(v, x, y, z, (22, 5, 4, 24, 5, 5), chrome);
    let v = over(v, x, y, z, (24, 5, 5, 25, 6, 6), chrome);
    let v = over(v, x, y, z, (20, 5, 4, 24, 6, 4), dark);
    let v = over(v, x, y, z, (20, 1, 1, 26, 3, 4), dark);
    let v = over(v, x, y, z, (21, 0, 2, 25, 0, 3), dark);
    let v = over(v, x, y, z, (19, 2, 2, 19, 2, 2), chrome);
    let v = over(v, x, y, z, (16, 1, 1, 20, 1, 4), metal);
    let v = over(v, x, y, z, (18, 1, 2, 18, 1, 2), chrome);
    let v = over(v, x, y, z, (18, 1, 3, 18, 1, 3), chrome);
    let v = over(v, x, y, z, (14, 0, 1, 18, 3, 4), grip);
    let v = over(over(v, x, y, z, (14, 0, 1, 14, 3 - 1, 1), dark), x, y, z, (14, 0, 4, 14, 3 - 1, 4), dark);
    let v = over(v, x, y, z, (0, 2, 1, 14, 5, 4), grip);
    let v = over(v, x, y, z, (0, 1, 2, 8, 1, 3), grip);
    let v = over(v, x, y, z, (4, 6, 1, 10, 7, 4), grip);
    let v = over(v, x, y, z, (6, 7, 2, 8, 7, 3), dark);
    let v = over(v, x, y, z, (10, 2, 2, 12, 4, 3), dark);
    let v = over(v, x, y, z, (0, 2, 1, 0, 5, 4), dark);
    let v = over(v, x, y, z, (32, 0, 0, 33, 3, 0), metal);
    let v = over(v, x, y, z, (33, 0, 0, 34, 0, 0), dark);
    let v = over(v, x, y, z, (32, 0, 5, 33, 3, 5), metal);
    let v = over(v, x, y, z, (33, 0, 5, 34, 0, 5), dark);
    let v = over(v, x, y, z, (32, 3, 1, 34, 4, 4), chrome);
    v
}

/// Bolt-action sniper rifle, 48x10x6: fluted barrel with muzzle brake, long
/// receiver, scope with lenses and turrets, bolt, magazine, grip, thumbhole
/// stock and a deployed bipod.
pub fn create_sniper_model() -> (m: VoxelModel)
    ensures
        sized(m, 48, 10, 6),
        painted_as(m, |x: int, y: int, z: int| sniper_voxel(x, y, z)),
        m.at(32, 8, 2) == Voxel::Filled(hex_color(0x4488CC)),
        m.at(17, 8, 3) == Voxel::Filled(hex_color(0x4488CC)),
        m.at(17, 7, 2) == Voxel::Filled(hex_color(DARK_DETAIL)),
        m.at(14, 1, 1) == Voxel::Filled(hex_color(palette::GUN_DARK)),
        m.at(33, 0, 0) == Voxel::Filled(hex_color(palette::GUN_DARK)),
        m.at(32, 3, 2) == Voxel::Filled(hex_color(palette::CHROME_DARK)),
{
    let mut model = VoxelModel::new(48, 10, 6);
    let metal = VoxelColor::from_hex(palette::GUN_METAL);
    let dark = VoxelColor::from_hex(palette::GUN_DARK);
    let grip = VoxelColor::from_hex(palette::GUN_GRIP);
    let chrome = VoxelColor::from_hex(palette::CHROME_DARK);
    let lens = VoxelColor::from_hex(0x4488CC);
    let lens_rim = VoxelColor::from_hex(DARK_DETAIL);

    // Barrel and muzzle brake
    model.fill_box(30, 4, 2, 47, 5, 3, metal);
    model.fill_box(30, 4, 1, 42, 4, 1, dark);
    model.fill_box(30, 5, 1, 42, 5, 1, dark);
    model.fill_box(30, 4, 4, 42, 4, 4, dark);
    model.fill_box(30, 5, 4, 42, 5, 4, dark);
    model.fill_box(44, 4, 2, 47, 5, 3, dark);
    model.fill_box(45, 3, 2, 46, 3, 3, metal);
    model.fill_box(45, 6, 2, 46, 6, 3, metal);

    // Barrel fluting
    let ghost before_fluting = model;
    let mut x: usize = 32;
    while x < 42
        invariant
            sized(model, 48, 10, 6),
            32 <= x <= 44,
            (x - 32) % 3 == 0,
            forall|a: int, b: int, c: int| #![trigger model.at(a, b, c)] model.in_bounds(a, b, c)
                ==> model.at(a, b, c) == over_stripe(over_stripe(over_stripe(over_stripe(before_fluting.at(a, b, c), a, b, c, 32, 3, x as int, 4, 1, metal), a, b, c, 32, 3, x as int, 5, 1, metal), a, b, c, 32, 3, x as int, 4, 4, metal), a, b, c, 32, 3, x as int, 5, 4, metal),
        decreases 44 - x,
    {
        model.set_color(x, 4, 1, metal);
        model.set_color(x, 5, 1, metal);
        model.set_color(x, 4, 4, metal);
        model.set_color(x, 5, 4, metal);
        x = x + 3;
    }

    // Receiver
    model.fill_box(16, 3, 1, 32, 6, 4, metal);

    // Scope body, bells and rings
    model.fill_box(18, 7, 1, 30, 9, 4, dark);
    model.fill_box(17, 7, 2, 17, 9, 3, dark);
    model.fill_box(31, 7, 2, 32, 9, 3, dark);
    model.fill_box(20, 6, 1, 22, 7, 4, chrome);
    model.fill_box(27, 6, 1, 29, 7, 4, chrome);

    // Front and rear lenses
    model.fill_box(32, 7, 2, 32, 9, 3, lens_rim);
    model.set_color(32, 8, 2, lens);
    model.set_color(32, 8, 3, lens);
    model.fill_box(17, 7, 2, 17, 9, 3, lens_rim);
    model.set_color(17, 8, 2, lens);
    model.set_color(17, 8, 3, lens);

    // Turrets
    model.fill_box(24, 9, 2, 25, 10, 3, chrome);
    model.fill_box(24, 8, 4, 25, 9, 5, chrome);

    // Bolt handle and knob, ejection port
    model.fill_box(22, 5, 4, 24, 5, 5, chrome);
    model.fill_box(24, 5, 5, 25, 6, 6, chrome);
    model.fill_box(20, 5, 4, 24, 6, 4, dark);

    // Magazine and release
    model.fill_box(20, 1, 1, 26, 3, 4, dark);
    model.fill_box(21, 0, 2, 25, 0, 3, dark);
    model.set_color(19, 2, 2, chrome);

    // Trigger guard and trigger
    model.fill_box(16, 1, 1, 20, 1, 4, metal);
    model.set_color(18, 1, 2, chrome);
    model.set_color(18, 1, 3, chrome);

    // Pistol grip with texture
    model.fill_box(14, 0, 1, 18, 3, 4, grip);
    let ghost before_grip_texture = model;
    let mut y: usize = 0;
    while y < 3
        invariant
            sized(model, 48, 10, 6),
            0 <= y <= 3,
            forall|a: int, b: int, c: int| #![trigger model.at(a, b, c)] model.in_bounds(a, b, c)
                ==> model.at(a, b, c) == over(over(before_grip_texture.at(a, b, c), a, b, c, (14, 0, 1, 14, y as int - 1, 1), dark), a, b, c, (14, 0, 4, 14, y as int - 1, 4), dark),
        decreases 3 - y,
    {
        model.set_color(14, y, 1, dark);
        model.set_color(14, y, 4, dark);
        y = y + 1;
    }

    // Stock, toe, cheek rest, thumbhole, buttpad
    model.fill_box(0, 2, 1, 14, 5, 4, grip);
    model.fill_box(0, 1, 2, 8, 1, 3, grip);
    model.fill_box(4, 6, 1, 10, 7, 4, grip);
    model.fill_box(6, 7, 2, 8, 7, 3, dark);
    model.fill_box(10, 2, 2, 12, 4, 3, dark);
    model.fill_box(0, 2, 1, 0, 5, 4, dark);

    // Bipod legs, feet and mount
    model.fill_box(32, 0, 0, 33, 3, 0, metal);
    model.fill_box(33, 0, 0, 34, 0, 0, dark);
    model.fill_box(32, 0, 5, 33, 3, 5, metal);
    model.fill_box(33, 0, 5, 34, 0, 5, dark);
    model.fill_box(32, 3, 1, 34, 4, 4, chrome);
    model
}

/// `below` with the four diagonal white stripes of the balloon painted
/// over it on rows 5 up to `rows_end` (not included): on row y, at inset
/// (y - 5) / 3 from each corner of the 8..23 square.
pub open spec fn balloon_diagonals(below: Voxel, x: int, y: int, z: int, rows_end: int, white: VoxelColor) -> Voxel {
    let o = (y - 5) / 3;
    if 5 <= y < rows_end && (x == 8 + o || x == 23 - o) && (z == 8 + o || z == 23 - o) {
        Voxel::Filled(white)
    } else {
        below
    }
}

/// Whether (x, z) is a rope cell on row `i`: at each corner of the basket,
/// the cell moved `i` outwards diagonally and its two neighbours two cells
/// back along each side (one of them on the other side of the corner).
pub open spec fn balloon_rope_cell(x: int, z: int, i: int) -> bool {
    let lo = 10 - i;
    let hi = 21 + i;
    ||| (x == lo || x == lo + 2) && z == lo
    ||| x == lo && z == lo + 2
    ||| (x == hi || x == hi - 2) && z == lo
    ||| x == hi && z == lo + 2
    ||| (x == lo || x == lo + 2) && z == hi
    ||| x == lo && z == hi - 2
    ||| (x == hi || x == hi - 2) && z == hi
    ||| x == hi && z == hi - 2
}

/// `below` with the ropes of rows 0 up to `rows_end` (not included) painted over it.
pub open spec fn balloon_ropes(below: Voxel, x: int, y: int, z: int, rows_end: int, rope: VoxelColor) -> Voxel {
    if 0 <= y < rows_end && balloon_rope_cell(x, z, y) {
        Voxel::Filled(rope)
    } else {
        below
    }
}

/// Balloon voxel at (x, y, z): the red envelope from bottom to top, four
/// white side stripes, the diagonal stripes, the vent, then the ropes.
pub open spec fn balloon_voxel(x: int, y: int, z: int) -> Voxel {
    let red = hex_color(palette::BALLOON_RED);
    let white = hex_color(palette::BALLOON_WHITE);
    let v = over(Voxel::Empty, x, y, z, (12, 0, 12, 19, 1, 19), red);
    let v = over(v, x, y, z, (10, 2, 10, 21, 4, 21), red);
    let v = over(v, x, y, z, (8, 5, 8, 23, 7, 23), red);
    let v = over(v, x, y, z, (6, 8, 6, 25, 12, 25), red);
    let v = over(v, x, y, z, (5, 10, 7, 26, 11, 24), red);
    let v = over(v, x, y, z, (7, 10, 5, 24, 11, 26), red);
    let v = over(v, x, y, z, (8, 13, 8, 23, 16, 23), red);
    let v = over(v, x, y, z, (10, 17, 10, 21, 20, 21), red);
    let v = over(v, x, y, z, (12, 21, 12, 19, 22, 19), red);
    let v = over(v, x, y, z, (14, 23, 14, 17, 23, 17), red);
    let v = over(v, x, y, z, (15, 2, 5, 16, 22, 7), white);
    let v = over(v, x, y, z, (15, 2, 24, 16, 22, 26), white);
    let v = over(v, x, y, z, (5, 2, 15, 7, 22, 16), white);
    let v = over(v, x, y, z, (24, 2, 15, 26, 22, 16), white);
    let v = balloon_diagonals(v, x, y, z, 20, white);
    let v = over(v, x, y, z, (14, 23, 14, 17, 23, 17), hex_color(0x444444));
    balloon_ropes(v, x, y, z, 6, hex_color(palette::ROPE_BROWN))
}

/// Balloon envelope, 32x24x32: a red oval in stacked layers, white stripes
/// up the four sides and four diagonals, a dark vent on top and twelve ropes
/// hanging from the bottom.
pub fn create_balloon() -> (m: VoxelModel)
    ensures
        sized(m, 32, 24, 32),
        painted_as(m, |x: int, y: int, z: int| balloon_voxel(x, y, z)),
        m.at(16, 10, 16) == Voxel::Filled(hex_color(palette::BALLOON_RED)),
        m.at(15, 2, 5) == Voxel::Filled(hex_color(palette::BALLOON_WHITE)),
        m.at(14, 23, 14) == Voxel::Filled(hex_color(0x444444)),
        m.at(10, 0, 10) == Voxel::Filled(hex_color(palette::ROPE_BROWN)),
        m.at(0, 23, 0) == Voxel::Empty,
{
    let mut model = VoxelModel::new(32, 24, 32);
    let red = VoxelColor::from_hex(palette::BALLOON_RED);
    let white = VoxelColor::from_hex(palette::BALLOON_WHITE);
    let rope = VoxelColor::from_hex(palette::ROPE_BROWN);
    let vent = VoxelColor::from_hex(0x444444);

    // Envelope, bottom to top
    model.fill_box(12, 0, 12, 19, 1, 19, red);
    model.fill_box(10, 2, 10, 21, 4, 21, red);
    model.fill_box(8, 5, 8, 23, 7, 23, red);
    model.fill_box(6, 8, 6, 25, 12, 25, red);
    model.fill_box(5, 10, 7, 26, 11, 24, red);
    model.fill_box(7, 10, 5, 24, 11, 26, red);
    model.fill_box(8, 13, 8, 23, 16, 23, red);
    model.fill_box(10, 17, 10, 21, 20, 21, red);
    model.fill_box(12, 21, 12, 19, 22, 19, red);
    model.fill_box(14, 23, 14, 17, 23, 17, red);

    // Side stripes: front, back, left, right
    let ghost side0 = model;
    let mut y: usize = 2;
    while y < 23
        invariant
            sized(model, 32, 24, 32),
            2 <= y <= 23,
            forall|a: int, b: int, c: int| #![trigger model.at(a, b, c)] model.in_bounds(a, b, c)
                ==> model.at(a, b, c) == over(side0.at(a, b, c), a, b, c, (15, 2, 5, 16, y as int - 1, 7), white),
        decreases 23 - y,
    {
        model.fill_box(15, y, 5, 16, y, 7, white);
        y = y + 1;
    }
    let ghost side1 = model;
    let mut y: usize = 2;
    while y < 23
        invariant
            sized(model, 32, 24, 32),
            2 <= y <= 23,
            forall|a: int, b: int, c: int| #![trigger model.at(a, b, c)] model.in_bounds(a, b, c)
                ==> model.at(a, b, c) == over(side1.at(a, b, c), a, b, c, (15, 2, 24, 16, y as int - 1, 26), white),
        decreases 23 - y,
    {
        model.fill_box(15, y, 24, 16, y, 26, white);
        y = y + 1;
    }
    let ghost side2 = model;
    let mut y: usize = 2;
    while y < 23
        invariant
            sized(model, 32, 24, 32),
            2 <= y <= 23,
            forall|a: int, b: int, c: int| #![trigger model.at(a, b, c)] model.in_bounds(a, b, c)
                ==> model.at(a, b, c) == over(side2.at(a, b, c), a, b, c, (5, 2, 15, 7, y as int - 1, 16), white),
        decreases 23 - y,
    {
        model.fill_box(5, y, 15, 7, y, 16, white);
        y = y + 1;
    }
    let ghost side3 = model;
    let mut y: usize = 2;
    while y < 23
        invariant
            sized(model, 32, 24, 32),
            2 <= y <= 23,
            forall|a: int, b: int, c: int| #![trigger model.at(a, b, c)] model.in_bounds(a, b, c)
                ==> model.at(a, b, c) == over(side3.at(a, b, c), a, b, c, (24, 2, 15, 26, y as int - 1, 16), white),
        decreases 23 - y,
    {
        model.fill_box(24, y, 15, 26, y, 16, white);
        y = y + 1;
    }

    // Diagonal stripes
    let ghost sides = model;
    let mut y: usize = 5;
    while y < 20
        invariant
            sized(model, 32, 24, 32),
            5 <= y <= 20,
            forall|a: int, b: int, c: int| #![trigger model.at(a, b, c)] model.in_bounds(a, b, c)
                ==> model.at(a, b, c) == balloon_diagonals(sides.at(a, b, c), a, b, c, y as int, white),
        decreases 20 - y,
    {
        let offset = (y - 5) / 3;
        if 8 + offset < 24 {
            model.set_color(8 + offset, y, 8 + offset, white);
            model.set_color(23 - offset, y, 8 + offset, white);
            model.set_color(8 + offset, y, 23 - offset, white);
            model.set_color(23 - offset, y, 23 - offset, white);
        }
        y = y + 1;
    }

    // Vent
    model.fill_box(14, 23, 14, 17, 23, 17, vent);

    // Ropes: three from each bottom corner, one cell outwards per cell down
    let ghost envelope = model;
    let mut i: usize = 0;
    while i < 6
        invariant
            sized(model, 32, 24, 32),
            i <= 6,
            forall|a: int, b: int, c: int| #![trigger model.at(a, b, c)] model.in_bounds(a, b, c)
                ==> model.at(a, b, c) == balloon_ropes(envelope.at(a, b, c), a, b, c, i as int, rope),
        decreases 6 - i,
    {
        model.set_color(10 - i, i, 10 - i, rope);
        model.set_color(12 - i, i, 10 - i, rope);
        model.set_color(10 - i, i, 12 - i, rope);
        model.set_color(21 + i, i, 10 - i, rope);
        model.set_color(19 + i, i, 10 - i, rope);
        model.set_color(21 + i, i, 12 - i, rope);
        model.set_color(10 - i, i, 21 + i, rope);
        model.set_color(12 - i, i, 21 + i, rope);
        model.set_color(10 - i, i, 19 + i, rope);
        model.set_color(21 + i, i, 21 + i, rope);
        model.set_color(19 + i, i, 21 + i, rope);
        model.set_color(21 + i, i, 19 + i, rope);
        i = i + 1;
    }
    model
}

/// `below` with the first `n` side windows of the bus painted over it on
/// both sides (columns 4 and 35): window `k` fills rows 8 to 14 of columns
/// 12 + 5k to 15 + 5k, framed above, below and on both ends.
pub open spec fn bus_side_windows(below: Voxel, x: int, y: int, z: int, n: int, window: VoxelColor, frame: VoxelColor) -> Voxel {
    let q = z - 12;
    if (x == 4 || x == 35) && n > 0 && -1 <= q < 5 * n {
        if 8 <= y <= 14 {
            if q >= 0 && q % 5 < 4 {
                Voxel::Filled(window)
            } else {
                Voxel::Filled(frame)
            }
        } else if (y == 7 || y == 15) && q >= 0 && q % 5 < 4 {
            Voxel::Filled(frame)
        } else {
            below
        }
    } else {
        below
    }
}

/// Battle bus voxel at (x, y, z): body and trim, front panel and grille,
/// lights and bumper, windshield, the side windows, doors, mirrors, wheels,
/// wheel wells and rear, then the balloon's filled voxels 4, 20, 16 cells
/// further on.
pub open spec fn bus_voxel(x: int, y: int, z: int) -> Voxel {
    let body_blue = hex_color(palette::BUS_BLUE);
    let body_light = hex_color(palette::BUS_LIGHT_BLUE);
    let body_dark = hex_color(0x1A4488);
    let window = hex_color(palette::GLASS);
    let window_frame = hex_color(palette::CHROME_DARK);
    let wheel = hex_color(palette::RUBBER);
    let wheel_hub = hex_color(palette::CHROME);
    let bumper = hex_color(palette::CHROME);
    let headlight = hex_color(palette::HEADLIGHT);
    let taillight = hex_color(palette::TAILLIGHT);
    let grille = hex_color(0x333333);
    let door_handle = hex_color(palette::CHROME);
    let exhaust = hex_color(palette::METAL_DARK);
    let mirror = hex_color(palette::CHROME_DARK);
    let v = over(Voxel::Empty, x, y, z, (4, 2, 8, 35, 16, 55), body_blue);
    let v = over(v, x, y, z, (5, 17, 9, 34, 18, 54), body_light);
    let v = over(v, x, y, z, (6, 19, 10, 33, 19, 53), body_light);
    let v = over(v, x, y, z, (4, 2, 8, 35, 3, 55), body_dark);
    let v = over(v, x, y, z, (8, 3, 2, 31, 14, 7), body_blue);
    let v = over(v, x, y, z, (8, 3, 1, 31, 12, 1), body_blue);
    let v = over(v, x, y, z, (12, 4, 1, 27, 8, 1), grille);
    let v = over(v, x, y, z, (14, 5, 0, 16, 7, 0), grille);
    let v = over(v, x, y, z, (18, 5, 0, 20, 7, 0), grille);
    let v = over(v, x, y, z, (21, 5, 0, 23, 7, 0), grille);
    let v = over(v, x, y, z, (25, 5, 0, 27, 7, 0), grille);
    let v = over(v, x, y, z, (9, 6, 0, 11, 8, 1), headlight);
    let v = over(v, x, y, z, (9, 4, 0, 11, 5, 1), headlight);
    let v = over(v, x, y, z, (28, 6, 0, 30, 8, 1), headlight);
    let v = over(v, x, y, z, (28, 4, 0, 30, 5, 1), headlight);
    let v = over(v, x, y, z, (6, 1, 0, 33, 2, 2), bumper);
    let v = over(v, x, y, z, (8, 0, 1, 31, 0, 1), bumper);
    let v = over(v, x, y, z, (10, 10, 2, 29, 16, 2), window);
    let v = over(v, x, y, z, (9, 10, 2, 9, 16, 2), window_frame);
    let v = over(v, x, y, z, (30, 10, 2, 30, 16, 2), window_frame);
    let v = over(v, x, y, z, (10, 9, 2, 29, 9, 2), window_frame);
    let v = over(v, x, y, z, (10, 17, 2, 29, 17, 2), window_frame);
    let v = bus_side_windows(v, x, y, z, 8, window, window_frame);
    let v = over(v, x, y, z, (3, 3, 14, 3, 15, 14), body_dark);
    let v = over(v, x, y, z, (3, 3, 22, 3, 15, 22), body_dark);
    let v = over(v, x, y, z, (3, 9, 20, 3, 9, 20), door_handle);
    let v = over(v, x, y, z, (3, 9, 21, 3, 9, 21), door_handle);
    let v = over(v, x, y, z, (3, 3, 36, 3, 15, 36), body_dark);
    let v = over(v, x, y, z, (3, 3, 44, 3, 15, 44), body_dark);
    let v = over(v, x, y, z, (3, 9, 42, 3, 9, 42), door_handle);
    let v = over(v, x, y, z, (3, 9, 43, 3, 9, 43), door_handle);
    let v = over(v, x, y, z, (2, 12, 6, 2, 14, 8), mirror);
    let v = over(v, x, y, z, (37, 12, 6, 37, 14, 8), mirror);
    let v = over(v, x, y, z, (6, 0, 10, 6, 3, 10), wheel);
    let v = over(v, x, y, z, (6, 0, 11, 6, 3, 11), wheel);
    let v = over(v, x, y, z, (6, 0, 12, 6, 3, 12), wheel);
    let v = over(v, x, y, z, (7, 0, 10, 7, 3, 10), wheel);
    let v = over(v, x, y, z, (7, 0, 11, 7, 3, 11), wheel);
    let v = over(v, x, y, z, (7, 0, 12, 7, 3, 12), wheel);
    let v = over(v, x, y, z, (32, 0, 10, 32, 3, 10), wheel);
    let v = over(v, x, y, z, (32, 0, 11, 32, 3, 11), wheel);
    let v = over(v, x, y, z, (32, 0, 12, 32, 3, 12), wheel);
    let v = over(v, x, y, z, (33, 0, 10, 33, 3, 10), wheel);
    let v = over(v, x, y, z, (33, 0, 11, 33, 3, 11), wheel);
    let v = over(v, x, y, z, (33, 0, 12, 33, 3, 12), wheel);
    let v = over(v, x, y, z, (6, 1, 11, 6, 1, 11), wheel_hub);
    let v = over(v, x, y, z, (33, 1, 11, 33, 1, 11), wheel_hub);
    let v = over(v, x, y, z, (6, 0, 46, 6, 3, 46), wheel);
    let v = over(v, x, y, z, (6, 0, 47, 6, 3, 47), wheel);
    let v = over(v, x, y, z, (6, 0, 48, 6, 3, 48), wheel);
    let v = over(v, x, y, z, (7, 0, 46, 7, 3, 46), wheel);
    let v = over(v, x, y, z, (7, 0, 47, 7, 3, 47), wheel);
    let v = over(v, x, y, z, (7, 0, 48, 7, 3, 48), wheel);
    let v = over(v, x, y, z, (32, 0, 46, 32, 3, 46), wheel);
    let v = over(v, x, y, z, (32, 0, 47, 32, 3, 47), wheel);
    let v = over(v, x, y, z, (32, 0, 48, 32, 3, 48), wheel);
    let v = over(v, x, y, z, (33, 0, 46, 33, 3, 46), wheel);
    let v = over(v, x, y, z, (33, 0, 47, 33, 3, 47), wheel);
    let v = over(v, x, y, z, (33, 0, 48, 33, 3, 48), wheel);
    let v = over(v, x, y, z, (6, 1, 47, 6, 1, 47), wheel_hub);
    let v = over(v, x, y, z, (33, 1, 47, 33, 1, 47), wheel_hub);
    let v = over(v, x, y, z, (5, 2, 9, 8, 4, 13), body_dark);
    let v = over(v, x, y, z, (31, 2, 9, 34, 4, 13), body_dark);
    let v = over(v, x, y, z, (5, 2, 45, 8, 4, 49), body_dark);
    let v = over(v, x, y, z, (31, 2, 45, 34, 4, 49), body_dark);
    let v = over(v, x, y, z, (8, 3, 56, 31, 14, 57), body_blue);
    let v = over(v, x, y, z, (12, 8, 57, 27, 14, 57), window);
    let v = over(v, x, y, z, (11, 8, 57, 11, 14, 57), window_frame);
    let v = over(v, x, y, z, (28, 8, 57, 28, 14, 57), window_frame);
    let v = over(v, x, y, z, (8, 5, 57, 10, 8, 58), taillight);
    let v = over(v, x, y, z, (29, 5, 57, 31, 8, 58), taillight);
    let v = over(v, x, y, z, (6, 1, 56, 33, 2, 58), bumper);
    let v = over(v, x, y, z, (28, 1, 58, 30, 2, 60), exhaust);
    let (bx, by, bz) = (x - 4, y - 20, z - 16);
    if 0 <= bx < 32 && 0 <= by < 24 && 0 <= bz < 32 && balloon_voxel(bx, by, bz) is Filled {
        balloon_voxel(bx, by, bz)
    } else {
        v
    }
}

/// Battle bus, 40x32x64: body and roof, front with grille, headlights, bumper
/// and windshield, eight framed windows a side, doors, mirrors, wheels with
/// hubs, rear with window, taillights, bumper and exhaust, and the balloon
/// merged on top at (4, 20, 16), cut at the grid's edges.
pub fn create_battle_bus() -> (m: VoxelModel)
    ensures
        sized(m, 40, 32, 64),
        painted_as(m, |x: int, y: int, z: int| bus_voxel(x, y, z)),
        m.at(20, 12, 2) == Voxel::Filled(hex_color(palette::GLASS)),
        m.at(6, 1, 11) == Voxel::Filled(hex_color(palette::CHROME)),
        m.at(9, 6, 58) == Voxel::Filled(hex_color(palette::TAILLIGHT)),
        m.at(10, 7, 0) == Voxel::Filled(hex_color(palette::HEADLIGHT)),
        m.at(4, 10, 13) == Voxel::Filled(hex_color(palette::GLASS)),
        m.at(20, 30, 32) == Voxel::Filled(hex_color(palette::BALLOON_RED)),
{
    let mut model = VoxelModel::new(40, 32, 64);
    let body_blue = VoxelColor::from_hex(palette::BUS_BLUE);
    let body_light = VoxelColor::from_hex(palette::BUS_LIGHT_BLUE);
    let body_dark = VoxelColor::from_hex(0x1A4488);
    let window = VoxelColor::from_hex(palette::GLASS);
    let window_frame = VoxelColor::from_hex(palette::CHROME_DARK);
    let wheel = VoxelColor::from_hex(palette::RUBBER);
    let wheel_hub = VoxelColor::from_hex(palette::CHROME);
    let bumper = VoxelColor::from_hex(palette::CHROME);
    let headlight = VoxelColor::from_hex(palette::HEADLIGHT);
    let taillight = VoxelColor::from_hex(palette::TAILLIGHT);
    let grille = VoxelColor::from_hex(0x333333);
    let door_handle = VoxelColor::from_hex(palette::CHROME);
    let exhaust = VoxelColor::from_hex(palette::METAL_DARK);
    let mirror = VoxelColor::from_hex(palette::CHROME_DARK);

    // Body, roof, lower trim
    model.fill_box(4, 2, 8, 35, 16, 55, body_blue);
    model.fill_box(5, 17, 9, 34, 18, 54, body_light);
    model.fill_box(6, 19, 10, 33, 19, 53, body_light);
    model.fill_box(4, 2, 8, 35, 3, 55, body_dark);

    // Front panel and grille
    model.fill_box(8, 3, 2, 31, 14, 7, body_blue);
    model.fill_box(8, 3, 1, 31, 12, 1, body_blue);
    model.fill_box(12, 4, 1, 27, 8, 1, grille);
    model.fill_box(14, 5, 0, 16, 7, 0, grille);
    model.fill_box(18, 5, 0, 20, 7, 0, grille);
    model.fill_box(21, 5, 0, 23, 7, 0, grille);
    model.fill_box(25, 5, 0, 27, 7, 0, grille);

    // Headlights and bumper
    model.fill_box(9, 6, 0, 11, 8, 1, headlight);
    model.fill_box(9, 4, 0, 11, 5, 1, headlight);
    model.fill_box(28, 6, 0, 30, 8, 1, headlight);
    model.fill_box(28, 4, 0, 30, 5, 1, headlight);
    model.fill_box(6, 1, 0, 33, 2, 2, bumper);
    model.fill_box(8, 0, 1, 31, 0, 1, bumper);

    // Windshield with frame
    model.fill_box(10, 10, 2, 29, 16, 2, window);
    model.fill_box(9, 10, 2, 9, 16, 2, window_frame);
    model.fill_box(30, 10, 2, 30, 16, 2, window_frame);
    model.fill_box(10, 9, 2, 29, 9, 2, window_frame);
    model.fill_box(10, 17, 2, 29, 17, 2, window_frame);

    // Side windows, eight a side
    let ghost front = model;
    let mut i: usize = 0;
    while i < 8
        invariant
            sized(model, 40, 32, 64),
            i <= 8,
            forall|a: int, b: int, c: int| #![trigger model.at(a, b, c)] model.in_bounds(a, b, c)
                ==> model.at(a, b, c) == bus_side_windows(front.at(a, b, c), a, b, c, i as int, window, window_frame),
        decreases 8 - i,
    {
        let z = 12 + i * 5;
        model.fill_box(4, 8, z, 4, 14, z + 3, window);
        model.fill_box(4, 7, z, 4, 7, z + 3, window_frame);
        model.fill_box(4, 15, z, 4, 15, z + 3, window_frame);
        model.fill_box(4, 8, z - 1, 4, 14, z - 1, window_frame);
        model.fill_box(4, 8, z + 4, 4, 14, z + 4, window_frame);

        model.fill_box(35, 8, z, 35, 14, z + 3, window);
        model.fill_box(35, 7, z, 35, 7, z + 3, window_frame);
        model.fill_box(35, 15, z, 35, 15, z + 3, window_frame);
        model.fill_box(35, 8, z - 1, 35, 14, z - 1, window_frame);
        model.fill_box(35, 8, z + 4, 35, 14, z + 4, window_frame);
        i = i + 1;
    }

    // Doors with handles
    model.fill_box(3, 3, 14, 3, 15, 14, body_dark);
    model.fill_box(3, 3, 22, 3, 15, 22, body_dark);
    model.set_color(3, 9, 20, door_handle);
    model.set_color(3, 9, 21, door_handle);
    model.fill_box(3, 3, 36, 3, 15, 36, body_dark);
    model.fill_box(3, 3, 44, 3, 15, 44, body_dark);
    model.set_color(3, 9, 42, door_handle);
    model.set_color(3, 9, 43, door_handle);

    // Mirrors
    model.fill_box(2, 12, 6, 2, 14, 8, mirror);
    model.fill_box(37, 12, 6, 37, 14, 8, mirror);

    // Front wheels: columns 6, 7, 32, 33 at rows 10 to 12, then hub caps
    model.fill_box(6, 0, 10, 6, 3, 10, wheel);
    model.fill_box(6, 0, 11, 6, 3, 11, wheel);
    model.fill_box(6, 0, 12, 6, 3, 12, wheel);
    model.fill_box(7, 0, 10, 7, 3, 10, wheel);
    model.fill_box(7, 0, 11, 7, 3, 11, wheel);
    model.fill_box(7, 0, 12, 7, 3, 12, wheel);
    model.fill_box(32, 0, 10, 32, 3, 10, wheel);
    model.fill_box(32, 0, 11, 32, 3, 11, wheel);
    model.fill_box(32, 0, 12, 32, 3, 12, wheel);
    model.fill_box(33, 0, 10, 33, 3, 10, wheel);
    model.fill_box(33, 0, 11, 33, 3, 11, wheel);
    model.fill_box(33, 0, 12, 33, 3, 12, wheel);
    model.set_color(6, 1, 11, wheel_hub);
    model.set_color(33, 1, 11, wheel_hub);

    // Rear wheels: columns 6, 7, 32, 33 at rows 46 to 48, then hub caps
    model.fill_box(6, 0, 46, 6, 3, 46, wheel);
    model.fill_box(6, 0, 47, 6, 3, 47, wheel);
    model.fill_box(6, 0, 48, 6, 3, 48, wheel);
    model.fill_box(7, 0, 46, 7, 3, 46, wheel);
    model.fill_box(7, 0, 47, 7, 3, 47, wheel);
    model.fill_box(7, 0, 48, 7, 3, 48, wheel);
    model.fill_box(32, 0, 46, 32, 3, 46, wheel);
    model.fill_box(32, 0, 47, 32, 3, 47, wheel);
    model.fill_box(32, 0, 48, 32, 3, 48, wheel);
    model.fill_box(33, 0, 46, 33, 3, 46, wheel);
    model.fill_box(33, 0, 47, 33, 3, 47, wheel);
    model.fill_box(33, 0, 48, 33, 3, 48, wheel);
    model.set_color(6, 1, 47, wheel_hub);
    model.set_color(33, 1, 47, wheel_hub);

    // Wheel wells
    model.fill_box(5, 2, 9, 8, 4, 13, body_dark);
    model.fill_box(31, 2, 9, 34, 4, 13, body_dark);
    model.fill_box(5, 2, 45, 8, 4, 49, body_dark);
    model.fill_box(31, 2, 45, 34, 4, 49, body_dark);

    // Rear panel, window, taillights, bumper, exhaust
    model.fill_box(8, 3, 56, 31, 14, 57, body_blue);
    model.fill_box(12, 8, 57, 27, 14, 57, window);
    model.fill_box(11, 8, 57, 11, 14, 57, window_frame);
    model.fill_box(28, 8, 57, 28, 14, 57, window_frame);
    model.fill_box(8, 5, 57, 10, 8, 58, taillight);
    model.fill_box(29, 5, 57, 31, 8, 58, taillight);
    model.fill_box(6, 1, 56, 33, 2, 58, bumper);
    model.fill_box(28, 1, 58, 30, 2, 60, exhaust);

    // Balloon on top
    let balloon = create_balloon();
    model.merge(&balloon, 4, 20, 16);
    model
}

} // verus!
