use battle_royale_os::renderer::palette;
use battle_royale_os::renderer::voxel::{CharacterCustomization, Face, Voxel, VoxelColor, VoxelModel};
use battle_royale_os::renderer::voxel_world::{SurfaceType, TerrainChunk};

#[test]
fn colors_from_hex() {
    assert_eq!(VoxelColor::from_hex(0x123456), VoxelColor::new(0x12, 0x34, 0x56));
    assert_eq!(VoxelColor::from_hex(0xAB00_00FF), VoxelColor::new(0, 0, 0xFF));
    assert_eq!(VoxelColor::from_hex(palette::SKIN_LIGHT), VoxelColor::new(0xFF, 0xDB, 0xB4));
}

#[test]
fn model_set_get_and_bounds() {
    let red = VoxelColor::new(255, 0, 0);
    let mut m = VoxelModel::new(3, 2, 4);
    assert_eq!(m.voxels.len(), 24);
    assert_eq!(m.voxel_count(), 0);
    m.set_color(2, 1, 3, red);
    assert_eq!(m.get(2, 1, 3), Voxel::Filled(red));
    assert_eq!(m.voxels[2 + 1 * 3 + 3 * 6], Voxel::Filled(red));
    m.set_color(3, 0, 0, red);
    assert_eq!(m.get(3, 0, 0), Voxel::Empty);
    assert_eq!(m.voxel_count(), 1);
    m.set(2, 1, 3, Voxel::Empty);
    assert_eq!(m.voxel_count(), 0);
}

#[test]
fn fill_box_is_clipped() {
    let c = VoxelColor::new(1, 2, 3);
    let mut a = VoxelModel::new(4, 4, 4);
    a.fill_box(1, 1, 1, 9, 2, 2, c);
    assert_eq!(a.voxel_count(), 3 * 2 * 2);
    assert_eq!(a.get(3, 2, 2), Voxel::Filled(c));
    assert_eq!(a.get(0, 1, 1), Voxel::Empty);
    // corners given the wrong way round span no cell
    let mut b = VoxelModel::new(4, 4, 4);
    b.fill_box(3, 2, 2, 1, 1, 1, c);
    assert_eq!(b.voxel_count(), 0);
    // filling twice changes nothing more
    let once = a.voxels.clone();
    a.fill_box(1, 1, 1, 9, 2, 2, c);
    assert_eq!(a.voxels, once);
}

#[test]
fn face_visibility() {
    let c = VoxelColor::new(9, 9, 9);
    let mut m = VoxelModel::new(3, 3, 3);
    m.set_color(1, 1, 1, c);
    m.set_color(1, 2, 1, c);
    assert!(!m.face_visible(1, 1, 1, Face::Top));
    assert!(m.face_visible(1, 1, 1, Face::Bottom));
    assert!(m.face_visible(1, 2, 1, Face::Top));
    assert!(m.face_visible(0, 0, 0, Face::Left));
    assert!(m.face_visible(2, 2, 2, Face::Front));
}

#[test]
fn merge_shifts_and_drops() {
    let c = VoxelColor::new(5, 6, 7);
    let mut part = VoxelModel::new(2, 1, 1);
    part.set_color(0, 0, 0, c);
    part.set_color(1, 0, 0, c);
    let mut body = VoxelModel::new(3, 3, 3);
    body.merge(&part, 2, 1, 0);
    assert_eq!(body.get(2, 1, 0), Voxel::Filled(c));
    assert_eq!(body.voxel_count(), 1);
    body.merge(&part, -1, 0, 0);
    assert_eq!(body.get(0, 0, 0), Voxel::Filled(c));
    assert_eq!(body.voxel_count(), 2);
    // empty cells of the merged model leave the target alone
    let empty = VoxelModel::new(3, 3, 3);
    let before = body.voxels.clone();
    body.merge(&empty, 0, 0, 0);
    assert_eq!(body.voxels, before);
}

#[test]
fn customization_colors() {
    let d = CharacterCustomization::default();
    assert_eq!(d.backpack_style, 1);
    assert_eq!(d.skin_color(), VoxelColor::from_hex(palette::SKIN_LIGHT));
    let mut c = d;
    c.hair_color = 3;
    c.shoes_color = 1;
    c.skin_tone = 7;
    assert_eq!(c.hair_color(), VoxelColor::from_hex(palette::HAIR_RED));
    assert_eq!(c.shoes_color(), VoxelColor::from_hex(palette::SHOES_BROWN));
    assert_eq!(c.skin_color(), VoxelColor::from_hex(palette::SKIN_DARK));
    c.pants_color = 1;
    assert_eq!(c.pants_color(), VoxelColor::from_hex(palette::PANTS_BLACK));
    c.shirt_color = 2;
    assert_eq!(c.shirt_color(), VoxelColor::from_hex(palette::SHIRT_GREEN));
}

#[test]
fn terrain_chunk_clamps_and_classifies() {
    let mut raw = vec![10u8; 256];
    raw[0] = 0;
    raw[1] = 2;
    raw[2] = 4;
    raw[3] = 21;
    raw[4] = 40;
    let chunk = TerrainChunk::generate(-1, 2, &raw);
    assert_eq!((chunk.x, chunk.z), (-1, 2));
    assert_eq!(&chunk.heightmap[0..5], &[1, 2, 4, 21, 32]);
    assert_eq!(
        &chunk.surface_type[0..6],
        &[SurfaceType::Water, SurfaceType::Water, SurfaceType::Sand, SurfaceType::Stone, SurfaceType::Stone, SurfaceType::Grass]
    );
    assert_eq!(SurfaceType::Road.color(), VoxelColor::from_hex(palette::STONE_DARK));
}

use battle_royale_os::renderer::voxel_models::{
    create_ar_model, create_backpack_model, create_balloon, create_battle_bus, create_chest, create_floor_wood,
    create_fp_arms, create_glider_model, create_oak_tree, create_pickaxe_model, create_pine_tree, create_pistol_model,
    create_player_model, create_ramp_wood, create_rock, create_shotgun_model, create_smg_model, create_sniper_model,
    create_wall_brick, create_wall_metal, create_wall_wood,
};

fn dims(m: &VoxelModel) -> (usize, usize, usize) {
    (m.width, m.height, m.depth)
}

fn filled(hex: u32) -> Voxel {
    Voxel::Filled(VoxelColor::from_hex(hex))
}

#[test]
fn player_model_follows_customization() {
    let mut c = CharacterCustomization::default();
    c.shoes_color = 1;
    c.hair_color = 2;
    c.hair_style = 0;
    let m = create_player_model(&c);
    assert_eq!(dims(&m), (8, 24, 4));
    assert_eq!(m.get(1, 0, 1), filled(palette::SHOES_BROWN));
    assert_eq!(m.get(3, 23, 1), filled(palette::HAIR_BLONDE));
    assert_eq!(m.get(2, 20, 0), filled(0x222222));
    assert_eq!(m.get(3, 17, 0), filled(palette::SKIN_LIGHT));
    c.hair_style = 2;
    let long = create_player_model(&c);
    assert_eq!(long.get(2, 20, 0), filled(palette::HAIR_BLONDE));
    assert_eq!(long.get(1, 18, 1), filled(palette::HAIR_BLONDE));
    assert_eq!(m.get(1, 18, 1), Voxel::Empty);
}

#[test]
fn weapon_models() {
    assert_eq!(dims(&create_pistol_model()), (8, 6, 2));
    assert_eq!(dims(&create_smg_model()), (14, 5, 3));
    let shotgun = create_shotgun_model();
    assert_eq!(dims(&shotgun), (32, 8, 6));
    assert_eq!(shotgun.get(30, 6, 2), filled(palette::GUN_ACCENT));
    assert_eq!(shotgun.get(14, 6, 2), filled(palette::GUN_METAL));
    assert_eq!(shotgun.get(13, 6, 2), Voxel::Empty);
    let ar = create_ar_model();
    assert_eq!(dims(&ar), (40, 10, 6));
    assert_eq!(ar.get(24, 7, 2), filled(0x3A3A3A));
    assert_eq!(ar.get(22, 7, 2), filled(palette::GUN_METAL));
    let sniper = create_sniper_model();
    assert_eq!(dims(&sniper), (48, 10, 6));
    assert_eq!(sniper.get(32, 8, 2), filled(0x4488CC));
    assert_eq!(sniper.get(35, 4, 1), filled(palette::GUN_METAL));
    assert_eq!(sniper.get(36, 4, 1), filled(palette::GUN_DARK));
    assert_eq!(sniper.get(34, 4, 1), filled(palette::CHROME_DARK));
    assert_eq!(dims(&create_pickaxe_model()), (12, 16, 3));
    let arms = create_fp_arms(VoxelColor::new(1, 1, 1), VoxelColor::new(2, 2, 2));
    assert_eq!(arms.get(10, 1, 1), Voxel::Filled(VoxelColor::new(1, 1, 1)));
}

#[test]
fn gear_models() {
    let none = create_backpack_model(0);
    assert_eq!(dims(&none), (1, 1, 1));
    assert_eq!(none.voxel_count(), 0);
    let small = create_backpack_model(1);
    assert_eq!(dims(&small), (6, 8, 4));
    assert_eq!(small.get(1, 2, 1), Voxel::Filled(VoxelColor::new(0x33, 0x33, 0x33)));
    assert_eq!(small.get(0, 2, 0), Voxel::Empty);
    assert_eq!(create_backpack_model(3).voxel_count(), 6 * 8 * 4);
    let glider = create_glider_model(1);
    assert_eq!(dims(&glider), (24, 8, 16));
    assert_eq!(glider.get(3, 6, 3), filled(palette::GLIDER_BLUE));
    assert_eq!(create_glider_model(9).get(3, 6, 3), filled(0xFFAA00));
}

#[test]
fn scenery_models() {
    let pine = create_pine_tree();
    assert_eq!(pine.get(7, 7, 7), filled(palette::GRASS_DARK));
    assert_eq!(dims(&create_oak_tree()), (12, 16, 12));
    let even = create_rock(4);
    let odd = create_rock(7);
    assert_eq!(even.get(1, 1, 1), filled(palette::STONE_DARK));
    assert_eq!(odd.get(1, 1, 1), filled(palette::STONE_GRAY));
    assert_eq!(even.voxel_count(), odd.voxel_count());
    let chest = create_chest();
    assert_eq!(chest.voxel_count(), 6 * 5 * 4);
    assert_eq!(chest.get(2, 2, 0), filled(0xFFD700));
}

#[test]
fn building_pieces() {
    let wood = create_wall_wood();
    assert_eq!(wood.voxel_count(), 16 * 16 * 2);
    assert_eq!(wood.get(3, 2, 1), filled(palette::WOOD_LIGHT));
    assert_eq!(wood.get(3, 1, 1), filled(palette::WOOD_PLANK));
    assert_eq!(wood.get(7, 3, 0), filled(palette::WOOD_DARK));
    let brick = create_wall_brick();
    assert_eq!(brick.get(0, 2, 0), filled(0xAAAAAA));
    assert_eq!(brick.get(3, 0, 0), filled(0xAAAAAA));
    assert_eq!(brick.get(1, 3, 0), filled(0xAAAAAA));
    assert_eq!(brick.get(3, 3, 0), filled(palette::BRICK_RED));
    let metal = create_wall_metal();
    assert_eq!(metal.get(6, 9, 0), filled(0x505050));
    assert_eq!(metal.get(7, 2, 1), filled(palette::METAL_GRAY));
    let floor = create_floor_wood();
    assert_eq!(floor.get(3, 0, 3), Voxel::Empty);
    assert_eq!(floor.get(3, 1, 5), filled(palette::WOOD_DARK));
    let ramp = create_ramp_wood();
    assert_eq!(ramp.get(5, 5, 5), filled(palette::WOOD_DARK));
    assert_eq!(ramp.get(5, 6, 5), Voxel::Empty);
    assert_eq!(ramp.get(0, 15, 15), filled(palette::WOOD_DARK));
    assert_eq!(ramp.get(15, 3, 1), filled(palette::WOOD_DARK));
}

#[test]
fn bus_carries_the_balloon() {
    let balloon = create_balloon();
    assert_eq!(dims(&balloon), (32, 24, 32));
    assert_eq!(balloon.get(16, 10, 16), filled(palette::BALLOON_RED));
    let bus = create_battle_bus();
    assert_eq!(dims(&bus), (40, 32, 64));
    assert_eq!(bus.get(20, 30, 32), filled(palette::BALLOON_RED));
    assert_eq!(bus.get(20, 12, 2), filled(palette::GLASS));
    assert_eq!(bus.get(6, 1, 11), filled(palette::CHROME));
}

use battle_royale_os::renderer::voxel_world::{
    create_cloud, create_fence, create_small_house, create_supply_crate, create_tower, create_warehouse,
};

#[test]
fn structure_models() {
    let house = create_small_house();
    assert_eq!(dims(&house), (20, 16, 24));
    assert_eq!(house.get(9, 3, 0), filled(palette::WOOD_DARK));
    assert_eq!(house.get(4, 15, 10), filled(palette::BRICK_RED));
    assert_eq!(house.get(3, 15, 10), Voxel::Empty);
    assert_eq!(house.get(10, 5, 10), Voxel::Empty);
    let warehouse = create_warehouse();
    assert_eq!(warehouse.get(31, 2, 5), filled(palette::METAL_GRAY));
    assert_eq!(warehouse.get(31, 3, 5), filled(palette::METAL_DARK));
    assert_eq!(warehouse.get(5, 2, 0), filled(0x666666));
    let tower = create_tower();
    assert_eq!(tower.get(5, 23, 0), filled(0x000000));
    assert_eq!(tower.get(5, 31, 5), filled(palette::WOOD_DARK));
    let fence = create_fence();
    assert_eq!(fence.get(3, 2, 0), filled(palette::WOOD_MEDIUM));
    assert_eq!(fence.get(0, 2, 0), filled(palette::WOOD_MEDIUM));
    assert_eq!(fence.get(0, 2, 1), filled(palette::WOOD_DARK));
    assert_eq!(fence.get(3, 3, 0), Voxel::Empty);
    assert_eq!(fence.voxel_count(), 6 * 6 * 2 + 10 * 2);
    let crate_model = create_supply_crate();
    assert_eq!(crate_model.voxel_count(), 64);
    assert_eq!(crate_model.get(0, 0, 0), filled(palette::METAL_GRAY));
    assert_eq!(create_cloud(3).get(3, 3, 3), filled(palette::CLOUD_WHITE));
    assert_eq!(create_cloud(4).get(2, 3, 2), filled(palette::CLOUD_WHITE));
    assert_eq!(create_cloud(5).get(3, 3, 3), Voxel::Empty);
}
