use battle_royale_os::game_types::state::{frame_transition, lobby_entry};
use battle_royale_os::game_types::phase::PlayerPhase;
use battle_royale_os::game_types::state::{CustomizationCategory, GameState, MenuAction, NetworkMode, PlayerCustomization, Settings};
use battle_royale_os::game_types::weapon::{AmmoType, Rarity, Weapon, WeaponType};
use battle_royale_os::game_types::world::{LootDrop, LootType, Storm, StormPhase, StormStep};

#[test]
fn weapon_codes_roundtrip() {
    for code in 0u8..6 {
        let w = WeaponType::from_u8(code).unwrap();
        assert_eq!(w.to_u8(), code);
    }
    assert!(WeaponType::from_u8(6).is_none());
    assert!(WeaponType::from_u8(255).is_none());
}

#[test]
fn weapon_stats() {
    assert_eq!(WeaponType::Shotgun.base_damage(), 90);
    assert_eq!(WeaponType::Sniper.base_damage(), 100);
    assert_eq!(WeaponType::Smg.magazine_size(), 30);
    assert_eq!(WeaponType::Pickaxe.magazine_size(), 0);
    assert_eq!(WeaponType::AssaultRifle.name(), "ASSAULT RIFLE");
    assert!(WeaponType::Pistol.is_hitscan());
}

#[test]
fn ammo_types() {
    assert_eq!(AmmoType::for_weapon(WeaponType::Pickaxe), None);
    assert_eq!(AmmoType::for_weapon(WeaponType::Pistol), Some(AmmoType::Light));
    assert_eq!(AmmoType::for_weapon(WeaponType::Smg), Some(AmmoType::Light));
    assert_eq!(AmmoType::for_weapon(WeaponType::AssaultRifle), Some(AmmoType::Medium));
    assert_eq!(AmmoType::for_weapon(WeaponType::Sniper), Some(AmmoType::Heavy));
    assert_eq!(AmmoType::for_weapon(WeaponType::Shotgun), Some(AmmoType::Shells));
}

#[test]
fn rarity_colors_and_names() {
    assert_eq!(Rarity::Common.color(), 0x888888);
    assert_eq!(Rarity::Legendary.color(), 0xFFAA00);
    assert_eq!(Rarity::Epic.name(), "EPIC");
}

#[test]
fn phases() {
    assert!(PlayerPhase::Grounded.can_move());
    assert!(!PlayerPhase::OnBus.can_move());
    assert!(PlayerPhase::OnBus.is_airborne());
    assert!(!PlayerPhase::Eliminated.is_alive());
    assert!(PlayerPhase::Spectating.is_alive());
    assert!(!PlayerPhase::Spectating.is_active());
    assert!(PlayerPhase::Gliding.can_take_damage());
}

#[test]
fn game_state_kinds() {
    assert!(GameState::PartyLobby.is_menu());
    assert!(GameState::Matchmaking { elapsed_secs: 3 }.is_menu());
    assert!(GameState::InGame.is_gameplay());
    assert!(GameState::LobbyCountdown { remaining_secs: 4 }.is_warmup());
    assert!(!GameState::Victory { winner_id: None }.is_menu());
    assert_eq!(GameState::default(), GameState::PartyLobby);
    assert_eq!(NetworkMode::default(), NetworkMode::Offline);
    assert!(MenuAction::Left.is_directional());
    assert!(!MenuAction::Select.is_directional());
}

#[test]
fn default_settings() {
    let s = Settings::default();
    assert!(s.show_fps);
    assert_eq!(s.sensitivity, 5);
    assert_eq!(s.volume, 80);
}

#[test]
fn customization_cycles_within_range() {
    let mut c = PlayerCustomization::default();
    assert_eq!(c.get(CustomizationCategory::Backpack), 1);
    c.next(CustomizationCategory::ShoesColor);
    assert_eq!(c.get(CustomizationCategory::ShoesColor), 1);
    c.next(CustomizationCategory::ShoesColor);
    assert_eq!(c.get(CustomizationCategory::ShoesColor), 0);
    c.prev(CustomizationCategory::SkinTone);
    assert_eq!(c.get(CustomizationCategory::SkinTone), 2);
    c.set(CustomizationCategory::HairColor, 9);
    assert_eq!(c.get(CustomizationCategory::HairColor), 3);
    assert_eq!(CustomizationCategory::from_index(9), CustomizationCategory::HairStyle);
    assert_eq!(CustomizationCategory::Glider.label(), "GLIDER");
    assert_eq!(CustomizationCategory::PantsColor.max_value(), 2);
}

#[test]
fn next_then_prev_restores() {
    let mut c = PlayerCustomization::default();
    for i in 0..8 {
        let cat = CustomizationCategory::from_index(i);
        let before = c.get(cat);
        c.next(cat);
        c.prev(cat);
        assert_eq!(c.get(cat), before);
    }
}

#[test]
fn weapon_fire_spends_a_round_and_cools_down() {
    let mut w = Weapon::new(WeaponType::Pistol, Rarity::Rare);
    assert_eq!(w.ammo, 16);
    assert!(w.can_fire());
    assert!(w.fire());
    assert_eq!(w.ammo, 15);
    assert!(w.cooling_down);
    assert!(!w.can_fire());
    assert!(!w.fire());
    w.update(false, false);
    assert!(w.can_fire());
}

#[test]
fn weapon_reload_refills_when_timer_runs_out() {
    let mut w = Weapon::new(WeaponType::Sniper, Rarity::Common);
    assert!(w.fire());
    assert_eq!(w.ammo, 0);
    assert!(w.start_reload());
    assert!(w.is_reloading());
    assert!(!w.start_reload());
    w.update(false, true);
    assert_eq!(w.ammo, 0);
    w.update(false, false);
    assert_eq!(w.ammo, 1);
    assert!(!w.is_reloading());
}

#[test]
fn pickaxe_fires_without_ammo_and_cannot_reload() {
    let mut p = Weapon::pickaxe();
    assert_eq!(p.name(), "PICKAXE");
    assert_eq!(p.max_ammo, 0);
    assert!(p.can_fire());
    assert!(p.fire());
    assert_eq!(p.ammo, 0);
    assert!(!p.can_fire());
    p.update(false, false);
    assert!(p.can_fire());
    assert!(!p.start_reload());
}

#[test]
fn add_ammo_stops_at_the_magazine_size() {
    let mut w = Weapon::new(WeaponType::Shotgun, Rarity::Epic);
    w.ammo = 2;
    assert_eq!(w.add_ammo(10), 3);
    assert_eq!(w.ammo, 5);
    assert_eq!(w.add_ammo(4), 0);
}

#[test]
fn storm_follows_its_schedule_to_the_final_circle() {
    let mut s = Storm::new();
    assert_eq!(s.damage_per_second, 1);
    assert_eq!(s.update(false, false), StormStep::Hold);
    assert_eq!(s.update(true, false), StormStep::BeginShrink);
    assert_eq!(s.phase, StormPhase::Shrinking);
    assert_eq!(s.damage_per_second, 1);
    assert_eq!(s.update(true, false), StormStep::Hold);
    for n in 2..7u8 {
        assert_eq!(s.update(false, true), StormStep::Settle);
        assert_eq!(s.phase, StormPhase::Paused);
        assert_eq!(s.update(true, false), StormStep::BeginShrink);
        assert_eq!(s.phase_number, n);
        assert_eq!(s.damage_per_second, if n < 5 { n } else { 5 });
    }
    assert_eq!(s.update(false, true), StormStep::Settle);
    assert_eq!(s.update(true, false), StormStep::BeginFinal);
    assert_eq!(s.phase, StormPhase::Final);
    assert_eq!(s.damage_per_second, 10);
    let before = s;
    assert_eq!(s.update(true, true), StormStep::Hold);
    assert_eq!(s, before);
}

#[test]
fn loot_drops_and_collection() {
    let mut d = LootDrop::weapon(3, 2);
    assert_eq!(d.loot_type, LootType::Weapon);
    assert_eq!(d.weapon_type, Some(3));
    assert_eq!(d.amount, 1);
    d.collect();
    assert!(d.collected);
    let a = LootDrop::ammo(30);
    assert_eq!((a.loot_type, a.weapon_type, a.amount), (LootType::Ammo, None, 30));
    assert_eq!(LootDrop::health(50).loot_type, LootType::Health);
    assert_eq!(LootDrop::shield(25).amount, 25);
}

#[test]
fn frame_loop_transitions() {
    assert_eq!(frame_transition(GameState::PartyLobby, MenuAction::NoAction, true), Some(GameState::TestMap));
    assert_eq!(frame_transition(GameState::PartyLobby, MenuAction::Back, false), None);
    assert_eq!(
        frame_transition(GameState::LobbyIsland, MenuAction::NoAction, false),
        Some(GameState::LobbyCountdown { remaining_secs: 10 })
    );
    assert_eq!(frame_transition(GameState::InGame, MenuAction::Back, false), Some(GameState::PartyLobby));
    assert_eq!(frame_transition(GameState::BusPhase, MenuAction::Select, false), None);
    assert_eq!(
        frame_transition(GameState::Matchmaking { elapsed_secs: 3 }, MenuAction::Back, false),
        Some(GameState::PartyLobby)
    );
    assert_eq!(frame_transition(GameState::Victory { winner_id: Some(2) }, MenuAction::Select, false), Some(GameState::PartyLobby));
    assert_eq!(frame_transition(GameState::Settings, MenuAction::Back, true), None);
    assert_eq!(lobby_entry(GameState::Matchmaking { elapsed_secs: 0 }), GameState::LobbyCountdown { remaining_secs: 5 });
    assert_eq!(lobby_entry(GameState::Settings), GameState::Settings);
}
