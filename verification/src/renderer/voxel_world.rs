//! Terrain chunks: the 16x16 height field of a chunk, clamped, and the
//! surface chosen for each column from its height.

use vstd::prelude::*;
use super::palette;
use super::voxel::{VoxelColor, VoxelModel, Voxel, hex_color, over};
use super::voxel_models::{painted_as, sized};

verus! {

/// Columns per chunk side.
pub const CHUNK_SIZE: usize = 16;

/// Surface of a terrain column.
#[derive(Debug, Clone, Copy, PartialEq, Eq, Structural)]
pub enum SurfaceType {
    Grass,
    Dirt,
    Sand,
    Stone,
    Water,
    Road,
}

impl SurfaceType {
    /// Palette color of the surface.
    pub fn color(&self) -> (c: VoxelColor)
        ensures
            c == hex_color(match *self {
                SurfaceType::Grass => palette::GRASS_GREEN,
                SurfaceType::Dirt => palette::DIRT_BROWN,
                SurfaceType::Sand => palette::SAND_TAN,
                SurfaceType::Stone => palette::STONE_GRAY,
                SurfaceType::Water => palette::WATER_BLUE,
                SurfaceType::Road => palette::STONE_DARK,
            }),
    {
        VoxelColor::from_hex(match *self {
            SurfaceType::Grass => palette::GRASS_GREEN,
            SurfaceType::Dirt => palette::DIRT_BROWN,
            SurfaceType::Sand => palette::SAND_TAN,
            SurfaceType::Stone => palette::STONE_GRAY,
            SurfaceType::Water => palette::WATER_BLUE,
            SurfaceType::Road => palette::STONE_DARK,
        })
    }
}

/// Surface of a column of raw height `h`: water below 3, sand below 5, stone
/// above 20, grass otherwise.
pub open spec fn surface_for(h: u8) -> SurfaceType {
    if h < 3 {
        SurfaceType::Water
    } else if h < 5 {
        SurfaceType::Sand
    } else if h > 20 {
        SurfaceType::Stone
    } else {
        SurfaceType::Grass
    }
}

/// Height kept for a column: the raw height clamped to 1..=32.
pub open spec fn clamped_height(h: u8) -> u8 {
    if h < 1 { 1 } else if h > 32 { 32 } else { h }
}

/// A 16x16 terrain chunk; column (x, z) is entry `z * 16 + x`.
pub struct TerrainChunk {
    pub x: i32,
    pub z: i32,
    pub heightmap: Vec<u8>,
    pub surface_type: Vec<SurfaceType>,
}

impl TerrainChunk {
    /// Build chunk (chunk_x, chunk_z) from the raw column heights the terrain
    /// noise produced (`z * 16 + x` order): heights are clamped to 1..=32 and
    /// each surface is chosen from the raw height.
    pub fn generate(chunk_x: i32, chunk_z: i32, raw_heights: &Vec<u8>) -> (c: Self)
        requires
            raw_heights@.len() == CHUNK_SIZE * CHUNK_SIZE,
        ensures
            c.x == chunk_x,
            c.z == chunk_z,
            c.heightmap@.len() == 256,
            c.surface_type@.len() == 256,
            forall|i: int| 0 <= i < 256 ==> #[trigger] c.heightmap@[i] == clamped_height(raw_heights@[i]),
            forall|i: int| 0 <= i < 256 ==> #[trigger] c.surface_type@[i] == surface_for(raw_heights@[i]),
    {
        let mut heightmap: Vec<u8> = Vec::new();
        let mut surface_type: Vec<SurfaceType> = Vec::new();
        let mut i: usize = 0;
        while i < CHUNK_SIZE * CHUNK_SIZE
            invariant
                raw_heights@.len() == 256,
                i <= 256,
                heightmap@.len() == i,
                surface_type@.len() == i,
                forall|j: int| 0 <= j < i ==> #[trigger] heightmap@[j] == clamped_height(raw_heights@[j]),
                forall|j: int| 0 <= j < i ==> #[trigger] surface_type@[j] == surface_for(raw_heights@[j]),
            decreases 256 - i,
        {
            let height = raw_heights[i];
            let kept = if height < 1 { 1 } else if height > 32 { 32 } else { height };
            heightmap.push(kept);
            let surface = if height < 3 {
                SurfaceType::Water
            } else if height < 5 {
                SurfaceType::Sand
            } else if height > 20 {
                SurfaceType::Stone
            } else {
                SurfaceType::Grass
            };
            surface_type.push(surface);
            i = i + 1;
        }
        TerrainChunk { x: chunk_x, z: chunk_z, heightmap, surface_type }
    }
}

/// Kinds of placed structures.
#[derive(Debug, Clone, Copy, PartialEq, Eq, Structural)]
pub enum StructureType {
    SmallHouse,
    MediumHouse,
    LargeHouse,
    Tower,
    Warehouse,
    Fence,
    Crate,
}

/// Small house voxel at (x, y, z): floor, walls with door and windows, then
/// the roof, one layer per row from row 11 up, each inset one cell further
/// on both sides.
pub open spec fn small_house_voxel(x: int, y: int, z: int) -> Voxel {
    let wall = hex_color(palette::WOOD_PLANK);
    let window = hex_color(0x88CCFF);
    let door = hex_color(palette::WOOD_DARK);
    let floor = hex_color(palette::WOOD_MEDIUM);
    let v = over(Voxel::Empty, x, y, z, (0, 0, 0, 19, 0, 23), floor);
    let v = over(v, x, y, z, (0, 1, 0, 19, 10, 0), wall);
    let v = over(v, x, y, z, (8, 1, 0, 11, 7, 0), door);
    let v = over(v, x, y, z, (2, 4, 0, 5, 7, 0), window);
    let v = over(v, x, y, z, (14, 4, 0, 17, 7, 0), window);
    let v = over(v, x, y, z, (0, 1, 23, 19, 10, 23), wall);
    let v = over(v, x, y, z, (4, 4, 23, 7, 7, 23), window);
    let v = over(v, x, y, z, (12, 4, 23, 15, 7, 23), window);
    let v = over(v, x, y, z, (0, 1, 0, 0, 10, 23), wall);
    let v = over(v, x, y, z, (3, 4, 0, 3, 7, 0), window);
    let v = over(v, x, y, z, (19, 1, 0, 19, 10, 23), wall);
    small_house_roof(v, x, y, z, 6)
}

/// `below` with the first `layers` roof layers of the small house painted
/// over it: layer `k` is row 11 + k, from column k to column 19 - k.
pub open spec fn small_house_roof(below: Voxel, x: int, y: int, z: int, layers: int) -> Voxel {
    if 11 <= y < 11 + layers && y - 11 <= x <= 30 - y && 0 <= z <= 23 {
        Voxel::Filled(hex_color(palette::BRICK_RED))
    } else {
        below
    }
}

/// Small house, 20x16x24: a wooden floor, plank walls with a door and windows,
/// and a peaked brick roof narrowing by one cell on each side per layer (its
/// sixth layer lies above the grid and is dropped).
pub fn create_small_house() -> (m: VoxelModel)
    ensures
        sized(m, 20, 16, 24),
        painted_as(m, |x: int, y: int, z: int| small_house_voxel(x, y, z)),
        m.at(10, 0, 10) == Voxel::Filled(hex_color(palette::WOOD_MEDIUM)),
        m.at(9, 3, 0) == Voxel::Filled(hex_color(palette::WOOD_DARK)),
        m.at(3, 5, 0) == Voxel::Filled(hex_color(0x88CCFF)),
        m.at(0, 5, 10) == Voxel::Filled(hex_color(palette::WOOD_PLANK)),
        m.at(10, 5, 10) == Voxel::Empty,
        m.at(4, 15, 10) == Voxel::Filled(hex_color(palette::BRICK_RED)),
        m.at(3, 15, 10) == Voxel::Empty,
{
    let mut model = VoxelModel::new(20, 16, 24);
    let wall = VoxelColor::from_hex(palette::WOOD_PLANK);
    let roof = VoxelColor::from_hex(palette::BRICK_RED);
    let window = VoxelColor::from_hex(0x88CCFF);
    let door = VoxelColor::from_hex(palette::WOOD_DARK);
    let floor = VoxelColor::from_hex(palette::WOOD_MEDIUM);

    model.fill_box(0, 0, 0, 19, 0, 23, floor);
    model.fill_box(0, 1, 0, 19, 10, 0, wall);
    model.fill_box(8, 1, 0, 11, 7, 0, door);
    model.fill_box(2, 4, 0, 5, 7, 0, window);
    model.fill_box(14, 4, 0, 17, 7, 0, window);
    model.fill_box(0, 1, 23, 19, 10, 23, wall);
    model.fill_box(4, 4, 23, 7, 7, 23, window);
    model.fill_box(12, 4, 23, 15, 7, 23, window);
    model.fill_box(0, 1, 0, 0, 10, 23, wall);
    model.fill_box(3, 4, 0, 3, 7, 0, window);
    model.fill_box(19, 1, 0, 19, 10, 23, wall);

    let ghost walls = model;
    let mut y: usize = 0;
    while y < 6
        invariant
            sized(model, 20, 16, 24),
            y <= 6,
            roof == hex_color(palette::BRICK_RED),
            forall|a: int, b: int, c: int| #![trigger model.at(a, b, c)] model.in_bounds(a, b, c)
                ==> model.at(a, b, c) == small_house_roof(walls.at(a, b, c), a, b, c, y as int),
        decreases 6 - y,
    {
        let inset = y;
        model.fill_box(inset, 11 + y, 0, 19 - inset, 11 + y, 23, roof);
        y = y + 1;
    }
    model
}

/// Warehouse voxel at (x, y, z): floor, the wall rings (rows 1 to 9, light
/// on even rows and dark on odd ones), the doors, then the roof.
pub open spec fn warehouse_voxel(x: int, y: int, z: int) -> Voxel {
    let roof = hex_color(palette::METAL_DARK);
    let door = hex_color(0x666666);
    let v = over(Voxel::Empty, x, y, z, (0, 0, 0, 31, 0, 23), hex_color(0x444444));
    let v = warehouse_walls(v, x, y, z, 10);
    let v = over(v, x, y, z, (4, 1, 0, 12, 8, 0), door);
    let v = over(v, x, y, z, (19, 1, 0, 27, 8, 0), door);
    let v = over(v, x, y, z, (0, 10, 0, 31, 10, 23), roof);
    over(v, x, y, z, (1, 11, 4, 30, 11, 19), roof)
}

/// `below` with the warehouse wall rings of rows 1 up to `rows_end` (not
/// included) painted over it: the four outer faces of each row, light gray
/// on even rows and dark on odd ones.
pub open spec fn warehouse_walls(below: Voxel, x: int, y: int, z: int, rows_end: int) -> Voxel {
    if 1 <= y < rows_end && 0 <= x <= 31 && 0 <= z <= 23 && (z == 0 || z == 23 || x == 0 || x == 31) {
        Voxel::Filled(hex_color(if y % 2 == 0 { palette::METAL_GRAY } else { palette::METAL_DARK }))
    } else {
        below
    }
}

/// Warehouse, 32x12x24: a dark floor, corrugated metal walls in alternating
/// shades, two large front doors and a flat roof with a raised middle.
pub fn create_warehouse() -> (m: VoxelModel)
    ensures
        sized(m, 32, 12, 24),
        painted_as(m, |x: int, y: int, z: int| warehouse_voxel(x, y, z)),
        m.at(10, 0, 10) == Voxel::Filled(hex_color(0x444444)),
        m.at(31, 2, 5) == Voxel::Filled(hex_color(palette::METAL_GRAY)),
        m.at(31, 3, 5) == Voxel::Filled(hex_color(palette::METAL_DARK)),
        m.at(5, 2, 0) == Voxel::Filled(hex_color(0x666666)),
        m.at(15, 2, 0) == Voxel::Filled(hex_color(palette::METAL_GRAY)),
        m.at(10, 11, 10) == Voxel::Filled(hex_color(palette::METAL_DARK)),
        m.at(10, 5, 10) == Voxel::Empty,
{
    let mut model = VoxelModel::new(32, 12, 24);
    let wall = VoxelColor::from_hex(palette::METAL_GRAY);
    let wall_dark = VoxelColor::from_hex(palette::METAL_DARK);
    let roof = VoxelColor::from_hex(palette::METAL_DARK);
    let door = VoxelColor::from_hex(0x666666);
    let floor = VoxelColor::from_hex(0x444444);

    model.fill_box(0, 0, 0, 31, 0, 23, floor);

    let ghost base = model;
    let mut y: usize = 1;
    while y < 10
        invariant
            sized(model, 32, 12, 24),
            1 <= y <= 10,
            wall == hex_color(palette::METAL_GRAY),
            wall_dark == hex_color(palette::METAL_DARK),
            forall|a: int, b: int, c: int| #![trigger model.at(a, b, c)] model.in_bounds(a, b, c)
                ==> model.at(a, b, c) == warehouse_walls(base.at(a, b, c), a, b, c, y as int),
        decreases 10 - y,
    {
        let color = if y % 2 == 0 { wall } else { wall_dark };
        model.fill_box(0, y, 0, 31, y, 0, color);
        model.fill_box(0, y, 23, 31, y, 23, color);
        model.fill_box(0, y, 0, 0, y, 23, color);
        model.fill_box(31, y, 0, 31, y, 23, color);
        y = y + 1;
    }

    model.fill_box(4, 1, 0, 12, 8, 0, door);
    model.fill_box(19, 1, 0, 27, 8, 0, door);
    model.fill_box(0, 10, 0, 31, 10, 23, roof);
    model.fill_box(1, 11, 4, 30, 11, 19, roof);
    model
}

/// Watch tower voxel at (x, y, z): legs, bracing at three heights, the
/// platform with its railing and black opening, then the stepped roof.
pub open spec fn tower_voxel(x: int, y: int, z: int) -> Voxel {
    let wood = hex_color(palette::WOOD_MEDIUM);
    let wood_dark = hex_color(palette::WOOD_DARK);
    let floor = hex_color(palette::WOOD_PLANK);
    let v = over(Voxel::Empty, x, y, z, (0, 0, 0, 1, 20, 1), wood_dark);
    let v = over(v, x, y, z, (10, 0, 0, 11, 20, 1), wood_dark);
    let v = over(v, x, y, z, (0, 0, 10, 1, 20, 11), wood_dark);
    let v = over(v, x, y, z, (10, 0, 10, 11, 20, 11), wood_dark);
    let v = over(v, x, y, z, (0, 4, 0, 11, 4, 0), wood);
    let v = over(v, x, y, z, (0, 4, 11, 11, 4, 11), wood);
    let v = over(v, x, y, z, (0, 4, 0, 0, 4, 11), wood);
    let v = over(v, x, y, z, (11, 4, 0, 11, 4, 11), wood);
    let v = over(v, x, y, z, (0, 10, 0, 11, 10, 0), wood);
    let v = over(v, x, y, z, (0, 10, 11, 11, 10, 11), wood);
    let v = over(v, x, y, z, (0, 10, 0, 0, 10, 11), wood);
    let v = over(v, x, y, z, (11, 10, 0, 11, 10, 11), wood);
    let v = over(v, x, y, z, (0, 16, 0, 11, 16, 0), wood);
    let v = over(v, x, y, z, (0, 16, 11, 11, 16, 11), wood);
    let v = over(v, x, y, z, (0, 16, 0, 0, 16, 11), wood);
    let v = over(v, x, y, z, (11, 16, 0, 11, 16, 11), wood);
    let v = over(v, x, y, z, (0, 21, 0, 11, 21, 11), floor);
    let v = over(v, x, y, z, (0, 22, 0, 11, 24, 0), wood);
    let v = over(v, x, y, z, (0, 22, 11, 11, 24, 11), wood);
    let v = over(v, x, y, z, (0, 22, 0, 0, 24, 11), wood);
    let v = over(v, x, y, z, (11, 22, 0, 11, 24, 11), wood);
    let v = over(v, x, y, z, (4, 22, 0, 7, 24, 0), hex_color(0x000000));
    let v = over(v, x, y, z, (0, 28, 0, 11, 28, 11), wood_dark);
    let v = over(v, x, y, z, (2, 29, 2, 9, 29, 9), wood_dark);
    let v = over(v, x, y, z, (4, 30, 4, 7, 30, 7), wood_dark);
    over(v, x, y, z, (5, 31, 5, 6, 31, 6), wood_dark)
}

/// Watch tower, 12x32x12: four corner legs braced at three heights, a
/// railed platform with an opening on one side painted black, and a stepped roof.
pub fn create_tower() -> (m: VoxelModel)
    ensures
        sized(m, 12, 32, 12),
        painted_as(m, |x: int, y: int, z: int| tower_voxel(x, y, z)),
        m.at(0, 0, 0) == Voxel::Filled(hex_color(palette::WOOD_DARK)),
        m.at(11, 20, 11) == Voxel::Filled(hex_color(palette::WOOD_DARK)),
        m.at(5, 4, 0) == Voxel::Filled(hex_color(palette::WOOD_MEDIUM)),
        m.at(5, 21, 5) == Voxel::Filled(hex_color(palette::WOOD_PLANK)),
        m.at(5, 23, 0) == Voxel::Filled(hex_color(0x000000)),
        m.at(2, 23, 0) == Voxel::Filled(hex_color(palette::WOOD_MEDIUM)),
        m.at(5, 31, 5) == Voxel::Filled(hex_color(palette::WOOD_DARK)),
        m.at(5, 25, 5) == Voxel::Empty,
{
    let mut model = VoxelModel::new(12, 32, 12);
    let wood = VoxelColor::from_hex(palette::WOOD_MEDIUM);
    let wood_dark = VoxelColor::from_hex(palette::WOOD_DARK);
    let floor = VoxelColor::from_hex(palette::WOOD_PLANK);

    // Corner legs
    model.fill_box(0, 0, 0, 1, 20, 1, wood_dark);
    model.fill_box(10, 0, 0, 11, 20, 1, wood_dark);
    model.fill_box(0, 0, 10, 1, 20, 11, wood_dark);
    model.fill_box(10, 0, 10, 11, 20, 11, wood_dark);

    // Cross bracing at heights 4, 10 and 16
    model.fill_box(0, 4, 0, 11, 4, 0, wood);
    model.fill_box(0, 4, 11, 11, 4, 11, wood);
    model.fill_box(0, 4, 0, 0, 4, 11, wood);
    model.fill_box(11, 4, 0, 11, 4, 11, wood);
    model.fill_box(0, 10, 0, 11, 10, 0, wood);
    model.fill_box(0, 10, 11, 11, 10, 11, wood);
    model.fill_box(0, 10, 0, 0, 10, 11, wood);
    model.fill_box(11, 10, 0, 11, 10, 11, wood);
    model.fill_box(0, 16, 0, 11, 16, 0, wood);
    model.fill_box(0, 16, 11, 11, 16, 11, wood);
    model.fill_box(0, 16, 0, 0, 16, 11, wood);
    model.fill_box(11, 16, 0, 11, 16, 11, wood);

    // Platform, railing and opening
    model.fill_box(0, 21, 0, 11, 21, 11, floor);
    model.fill_box(0, 22, 0, 11, 24, 0, wood);
    model.fill_box(0, 22, 11, 11, 24, 11, wood);
    model.fill_box(0, 22, 0, 0, 24, 11, wood);
    model.fill_box(11, 22, 0, 11, 24, 11, wood);
    model.fill_box(4, 22, 0, 7, 24, 0, VoxelColor::from_hex(0x000000));

    // Stepped roof
    model.fill_box(0, 28, 0, 11, 28, 11, wood_dark);
    model.fill_box(2, 29, 2, 9, 29, 9, wood_dark);
    model.fill_box(4, 30, 4, 7, 30, 7, wood_dark);
    model.fill_box(5, 31, 5, 6, 31, 6, wood_dark);
    model
}

/// Fence section voxel at (x, y, z): two rails on the front face, dark posts
/// at both ends and in the middle, nothing else.
pub open spec fn fence_voxel(x: int, y: int, z: int) -> Voxel {
    if z == 0 && (y == 2 || y == 4) {
        Voxel::Filled(hex_color(palette::WOOD_MEDIUM))
    } else if x == 0 || x == 1 || x == 7 || x == 8 || x == 14 || x == 15 {
        Voxel::Filled(hex_color(palette::WOOD_DARK))
    } else {
        Voxel::Empty
    }
}

/// Fence section, 16x6x2: three posts joined by two rails.
pub fn create_fence() -> (m: VoxelModel)
    ensures
        sized(m, 16, 6, 2),
        forall|x: int, y: int, z: int| #![trigger m.at(x, y, z)] m.in_bounds(x, y, z)
            ==> m.at(x, y, z) == fence_voxel(x, y, z),
{
    let mut model = VoxelModel::new(16, 6, 2);
    let wood = VoxelColor::from_hex(palette::WOOD_MEDIUM);
    let wood_dark = VoxelColor::from_hex(palette::WOOD_DARK);

    model.fill_box(0, 0, 0, 1, 5, 1, wood_dark);
    model.fill_box(7, 0, 0, 8, 5, 1, wood_dark);
    model.fill_box(14, 0, 0, 15, 5, 1, wood_dark);
    model.fill_box(0, 4, 0, 15, 4, 0, wood);
    model.fill_box(0, 2, 0, 15, 2, 0, wood);
    model
}

/// Supply crate voxel at (x, y, z): the plank cube, its dark vertical
/// edges, then the metal bands on the front.
pub open spec fn supply_crate_voxel(x: int, y: int, z: int) -> Voxel {
    let wood = hex_color(palette::WOOD_PLANK);
    let wood_dark = hex_color(palette::WOOD_DARK);
    let metal = hex_color(palette::METAL_GRAY);
    let v = over(Voxel::Empty, x, y, z, (0, 0, 0, 3, 3, 3), wood);
    let v = over(v, x, y, z, (0, 0, 0, 0, 3, 0), wood_dark);
    let v = over(v, x, y, z, (3, 0, 0, 3, 3, 0), wood_dark);
    let v = over(v, x, y, z, (0, 0, 3, 0, 3, 3), wood_dark);
    let v = over(v, x, y, z, (3, 0, 3, 3, 3, 3), wood_dark);
    let v = over(v, x, y, z, (0, 0, 0, 3, 0, 0), metal);
    over(v, x, y, z, (0, 3, 0, 3, 3, 0), metal)
}

/// Supply crate, 4x4x4: a plank cube with dark vertical edges and metal
/// bands along the top and bottom of its front.
pub fn create_supply_crate() -> (m: VoxelModel)
    ensures
        sized(m, 4, 4, 4),
        painted_as(m, |x: int, y: int, z: int| supply_crate_voxel(x, y, z)),
        m.at(1, 1, 1) == Voxel::Filled(hex_color(palette::WOOD_PLANK)),
        m.at(0, 1, 0) == Voxel::Filled(hex_color(palette::WOOD_DARK)),
        m.at(3, 2, 3) == Voxel::Filled(hex_color(palette::WOOD_DARK)),
        m.at(0, 0, 0) == Voxel::Filled(hex_color(palette::METAL_GRAY)),
        m.at(2, 3, 0) == Voxel::Filled(hex_color(palette::METAL_GRAY)),
{
    let mut model = VoxelModel::new(4, 4, 4);
    let wood = VoxelColor::from_hex(palette::WOOD_PLANK);
    let wood_dark = VoxelColor::from_hex(palette::WOOD_DARK);
    let metal = VoxelColor::from_hex(palette::METAL_GRAY);

    model.fill_box(0, 0, 0, 3, 3, 3, wood);
    model.fill_box(0, 0, 0, 0, 3, 0, wood_dark);
    model.fill_box(3, 0, 0, 3, 3, 0, wood_dark);
    model.fill_box(0, 0, 3, 0, 3, 3, wood_dark);
    model.fill_box(3, 0, 3, 3, 3, 3, wood_dark);
    model.fill_box(0, 0, 0, 3, 0, 0, metal);
    model.fill_box(0, 3, 0, 3, 3, 0, metal);
    model
}

/// Cloud voxel at (x, y, z): two white layers, then the bumps `seed % 3` picks.
pub open spec fn cloud_voxel(seed: u32, x: int, y: int, z: int) -> Voxel {
    let white = hex_color(palette::CLOUD_WHITE);
    let v = over(Voxel::Empty, x, y, z, (2, 0, 2, 9, 1, 5), white);
    let v = over(v, x, y, z, (1, 1, 1, 10, 2, 6), white);
    if seed % 3 == 0 {
        over(over(v, x, y, z, (3, 3, 3, 5, 3, 4), white), x, y, z, (7, 3, 2, 8, 3, 5), white)
    } else if seed % 3 == 1 {
        over(over(v, x, y, z, (2, 3, 2, 4, 3, 5), white), x, y, z, (6, 3, 3, 9, 3, 4), white)
    } else {
        over(v, x, y, z, (4, 3, 2, 7, 3, 5), white)
    }
}

/// Cloud, 12x4x8: two white layers with bumps on top chosen by `seed % 3`.
pub fn create_cloud(seed: u32) -> (m: VoxelModel)
    ensures
        sized(m, 12, 4, 8),
        painted_as(m, |x: int, y: int, z: int| cloud_voxel(seed, x, y, z)),
        m.at(5, 1, 3) == Voxel::Filled(hex_color(palette::CLOUD_WHITE)),
        m.at(0, 0, 0) == Voxel::Empty,
        seed % 3 == 0 ==> m.at(3, 3, 3) == Voxel::Filled(hex_color(palette::CLOUD_WHITE))
            && m.at(2, 3, 2) == Voxel::Empty,
        seed % 3 == 1 ==> m.at(2, 3, 2) == Voxel::Filled(hex_color(palette::CLOUD_WHITE))
            && m.at(4, 3, 3) == Voxel::Filled(hex_color(palette::CLOUD_WHITE)),
        seed % 3 == 2 ==> m.at(4, 3, 2) == Voxel::Filled(hex_color(palette::CLOUD_WHITE))
            && m.at(3, 3, 3) == Voxel::Empty,
{
    let mut model = VoxelModel::new(12, 4, 8);
    let white = VoxelColor::from_hex(palette::CLOUD_WHITE);

    model.fill_box(2, 0, 2, 9, 1, 5, white);
    model.fill_box(1, 1, 1, 10, 2, 6, white);
    if seed % 3 == 0 {
        model.fill_box(3, 3, 3, 5, 3, 4, white);
        model.fill_box(7, 3, 2, 8, 3, 5, white);
    } else if seed % 3 == 1 {
        model.fill_box(2, 3, 2, 4, 3, 5, white);
        model.fill_box(6, 3, 3, 9, 3, 4, white);
    } else {
        model.fill_box(4, 3, 2, 7, 3, 5, white);
    }
    model
}

} // verus!
