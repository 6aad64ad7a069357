use battle_royale_os::game_types::state::{GameState, MenuAction, NetworkMode, PlayerCustomization, Settings};
use battle_royale_os::ui::customization::CustomizationScreen;
use battle_royale_os::ui::fortnite_lobby::{
    format_client_status, format_player_count as lobby_count_line, format_server_status, FortniteLobby, GameMode, LobbyTab,
};
use battle_royale_os::ui::game_ui::{format_ammo, GameUI};
use battle_royale_os::ui::input::{get_menu_action, hotbar_choice, player_input, HotbarChoice, KeyState};
use battle_royale_os::ui::lobby::{format_player_count, format_ready_count, format_timer, LobbyOutcome, LobbyScreen};
use battle_royale_os::ui::main_menu::MainMenuScreen;
use battle_royale_os::ui::menu::{LobbyPlayer, MainMenuOption, SettingsOption};
use battle_royale_os::ui::server_select::{format_ip_display, format_port_display, InputMode, ServerMode, ServerSelectScreen};
use battle_royale_os::ui::settings::SettingsScreen;
use battle_royale_os::ui::test_map::{format_model_info, format_size_info};

fn text(v: Vec<char>) -> String {
    v.into_iter().collect()
}

#[test]
fn lobby_starts_with_local_player() {
    let lobby = LobbyScreen::new(1280, 720);
    assert_eq!(lobby.players.len(), 1);
    assert_eq!(lobby.local_player_id, Some(0));
    assert_eq!(lobby.countdown_value, 5);
    assert_eq!(lobby.player_list.items_per_page, 10);
}

#[test]
fn lobby_ready_starts_countdown_then_bus() {
    let mut lobby = LobbyScreen::new(1280, 720);
    assert_eq!(lobby.update(MenuAction::Select), Some(LobbyOutcome::Countdown { remaining_secs: 5 }));
    assert!(lobby.countdown_active);
    assert!(lobby.players[0].ready);
    for _ in 0..5 {
        assert_eq!(lobby.update(MenuAction::NoAction), None);
        lobby.tick_countdown();
    }
    assert_eq!(lobby.countdown_value, 0);
    lobby.tick_countdown();
    assert_eq!(lobby.countdown_value, 0);
    assert_eq!(lobby.update(MenuAction::NoAction), Some(LobbyOutcome::BusPhase));
}

#[test]
fn lobby_waits_for_everyone() {
    let mut lobby = LobbyScreen::new(1280, 720);
    let id = lobby.add_player("Ann", PlayerCustomization::default());
    assert_eq!(id, 1);
    assert_eq!(lobby.update(MenuAction::Select), None);
    assert_eq!(lobby.ready_count(), 1);
    assert!(!lobby.all_ready());
    lobby.set_ready(1, true);
    assert!(lobby.all_ready());
    assert_eq!(lobby.update(MenuAction::NoAction), Some(LobbyOutcome::Countdown { remaining_secs: 5 }));
}

#[test]
fn lobby_remove_and_leave() {
    let mut lobby = LobbyScreen::new(1280, 720);
    lobby.add_player("Ann", PlayerCustomization::default());
    lobby.add_player("Ben", PlayerCustomization::default());
    lobby.remove_player(1);
    assert_eq!(lobby.players.len(), 2);
    assert_eq!(lobby.players[1].id, 2);
    lobby.remove_player(9);
    assert_eq!(lobby.players.len(), 2);
    assert_eq!(lobby.update(MenuAction::Back), Some(LobbyOutcome::MainMenu));
}

#[test]
fn lobby_text_lines() {
    assert_eq!(text(format_player_count(42)), "PLAYERS: 42");
    assert_eq!(text(format_player_count(0)), "PLAYERS: 0");
    assert_eq!(text(format_player_count(123_456_789)), "PLAYERS: 3456789");
    assert_eq!(text(format_ready_count(3, 10)), "READY: 3/10");
    assert_eq!(text(format_timer(60)), "AUTO START: 60s");
    assert_eq!(text(format_ammo(7, 30)), "7/30");
    assert_eq!(text(lobby_count_line(1, 100)), "1/100 Players");
    assert_eq!(text(lobby_count_line(123456789, 987654321)), "123456789/654321");
    assert_eq!(text(format_server_status(5000)), "SERVER: 10.0.2.15:5000");
    assert_eq!(text(format_client_status(&[192, 168, 1, 20], 5000)), "CONNECTED TO: 192.168.1.20:5000");
    assert_eq!(text(format_ip_display("Your IP: ", &[10, 0, 2, 15])), "Your IP: 10.0.2.15");
    assert_eq!(text(format_port_display(0)), "Port: 0");
    assert_eq!(text(format_model_info("Triangles: ", 312)), "Triangles: 312");
    assert_eq!(text(format_size_info(8, 24, 4)), "Size: 8x24x4 voxels");
}

#[test]
fn main_menu_navigation() {
    let mut menu = MainMenuScreen::new(1280, 720);
    assert_eq!(menu.buttons.selected_index, 0);
    assert_eq!(menu.buttons.buttons[0].x, 490);
    assert_eq!(menu.buttons.buttons[1].y, 340);
    assert_eq!(menu.update(MenuAction::Select), Some(GameState::ServerSelect));
    assert_eq!(menu.update(MenuAction::Up), None);
    assert_eq!(menu.buttons.selected_index, 3);
    assert!(menu.quit_selected());
    assert_eq!(menu.update(MenuAction::Select), None);
    menu.update(MenuAction::Down);
    menu.update(MenuAction::Down);
    assert_eq!(menu.update(MenuAction::Select), Some(GameState::Settings));
    assert_eq!(MainMenuOption::from_index(6), MainMenuOption::Customization);
    assert_eq!(MainMenuOption::Quit.to_index(), 3);
}

#[test]
fn settings_edit_and_save() {
    let mut global = Settings::default();
    let mut screen = SettingsScreen::new(1280, 720, global);
    assert_eq!(screen.update(MenuAction::Left, &mut global), None);
    assert!(!screen.local_settings.show_fps);
    assert!(global.show_fps);
    screen.update(MenuAction::Down, &mut global);
    screen.update(MenuAction::Down, &mut global);
    for _ in 0..10 {
        screen.update(MenuAction::Right, &mut global);
    }
    assert_eq!(screen.local_settings.sensitivity, 10);
    screen.update(MenuAction::Up, &mut global);
    screen.update(MenuAction::Up, &mut global);
    screen.update(MenuAction::Up, &mut global);
    assert_eq!(screen.selected_index, 5);
    assert_eq!(screen.update(MenuAction::Select, &mut global), Some(GameState::PartyLobby));
    assert!(!global.show_fps);
    assert_eq!(global.sensitivity, 10);
}

#[test]
fn settings_option_helpers() {
    let mut s = Settings::default();
    s.adjust(SettingsOption::Volume, 100);
    assert_eq!(s.volume, 100);
    s.adjust(SettingsOption::RenderDistance, -100);
    assert_eq!(s.render_distance, 1);
    assert_eq!(s.get_value_str(SettingsOption::ShowFps), "ON");
    s.toggle(SettingsOption::ShowFps);
    assert_eq!(s.get_value(SettingsOption::ShowFps), 0);
    assert_eq!(SettingsOption::from_index(7), SettingsOption::InvertY);
    assert!(SettingsOption::Volume.is_range());
    assert!(SettingsOption::InvertY.is_toggle());
}

#[test]
fn server_select_host_offline_and_join() {
    let mut net = NetworkMode::Offline;
    let mut screen = ServerSelectScreen::new(1280, 720);
    assert_eq!(screen.selected_mode, 2);
    screen.update(MenuAction::Down, &mut net);
    assert_eq!(screen.selected_mode, 0);
    assert_eq!(screen.update(MenuAction::Select, &mut net), Some(GameState::PartyLobby));
    assert_eq!(net, NetworkMode::Server { port: 5000 });

    let mut screen = ServerSelectScreen::new(1280, 720);
    screen.update(MenuAction::Up, &mut net);
    assert_eq!(ServerMode::from_index(screen.selected_mode), ServerMode::Join);
    assert_eq!(screen.update(MenuAction::Select, &mut net), None);
    assert_eq!(screen.input_mode, InputMode::IpEntry);
    screen.clear_octet();
    screen.handle_number_key(1);
    screen.handle_number_key(0);
    screen.update(MenuAction::Right, &mut net);
    screen.update(MenuAction::Down, &mut net);
    screen.update(MenuAction::Right, &mut net);
    screen.update(MenuAction::Right, &mut net);
    screen.update(MenuAction::Right, &mut net);
    screen.update(MenuAction::Up, &mut net);
    assert_eq!(screen.ip_cursor, 3);
    assert_eq!(screen.ip_octets, [10, 167, 1, 2]);
    assert_eq!(screen.update(MenuAction::Select, &mut net), Some(GameState::PartyLobby));
    assert_eq!(net, NetworkMode::Client { server_ip: [10, 167, 1, 2], port: 5000 });
}

#[test]
fn server_select_octet_caps_at_255() {
    let mut net = NetworkMode::Offline;
    let mut screen = ServerSelectScreen::new(1280, 720);
    screen.handle_number_key(9);
    assert_eq!(screen.ip_octets[0], 192);
    screen.update(MenuAction::Up, &mut net);
    screen.update(MenuAction::Select, &mut net);
    screen.handle_number_key(9);
    assert_eq!(screen.ip_octets[0], 255);
    screen.update(MenuAction::Back, &mut net);
    assert_eq!(screen.input_mode, InputMode::ModeSelect);
    assert_eq!(ServerMode::Offline.label(), "OFFLINE");
}

#[test]
fn fortnite_lobby_tabs_and_ready() {
    let mut lobby = FortniteLobby::new(1280, 720);
    lobby.update(MenuAction::Left);
    assert_eq!(GameMode::from_index(lobby.selected_mode), GameMode::Squads);
    lobby.update(MenuAction::Down);
    assert_eq!(LobbyTab::from_index(lobby.selected_tab), LobbyTab::Locker);
    assert_eq!(lobby.update(MenuAction::Select), Some(GameState::Customization));
    lobby.update(MenuAction::Up);
    assert_eq!(lobby.update(MenuAction::Select), Some(GameState::Matchmaking { elapsed_secs: 0 }));
    assert!(lobby.countdown_active);
    assert_eq!(lobby.update(MenuAction::Back), Some(GameState::Settings));
    assert_eq!(lobby.check_test_map_key(true), Some(GameState::TestMap));
    assert_eq!(lobby.check_test_map_key(false), None);
    assert_eq!(GameMode::Duos.description(), "50 teams of 2");
    assert_eq!(LobbyTab::ItemShop.label(), "ITEM SHOP");
}

#[test]
fn customization_screen_cycles_and_saves() {
    let mut global = PlayerCustomization::default();
    let mut screen = CustomizationScreen::new(1280, 720, global);
    screen.update(MenuAction::Left, &mut global);
    assert_eq!(screen.local_customization.skin_tone, 2);
    assert_eq!(global.skin_tone, 0);
    screen.update(MenuAction::Up, &mut global);
    assert_eq!(screen.selected_category, 7);
    assert_eq!(screen.update(MenuAction::Back, &mut global), Some(GameState::PartyLobby));
    assert_eq!(global.skin_tone, 2);
}

#[test]
fn key_edges() {
    let prev = KeyState::new();
    let mut cur = KeyState::new();
    cur.w = true;
    cur.escape = true;
    assert_eq!(get_menu_action(&cur, &prev), MenuAction::Up);
    assert_eq!(get_menu_action(&cur, &cur), MenuAction::NoAction);
    let mut esc = KeyState::new();
    esc.escape = true;
    assert_eq!(get_menu_action(&esc, &prev), MenuAction::Back);
    let mut keys = KeyState::new();
    keys.three = true;
    keys.four = true;
    assert_eq!(hotbar_choice(&keys, &prev), Some(HotbarChoice::Slot(1)));
    keys.s = true;
    keys.a = true;
    keys.d = true;
    let input = player_input(&keys, false, true, 2, 10, -500, 30);
    assert_eq!(input.forward, -1);
    assert_eq!(input.strafe, 1);
    assert!(input.build);
    assert!(!input.fire);
    assert_eq!(input.yaw, -500);
}

#[test]
fn misc_screens() {
    let ui = GameUI::new(800, 600);
    assert_eq!(ui.fb_width, 800);
    let p = LobbyPlayer::new(3, "Zed");
    assert_eq!(p.name.iter().collect::<String>(), "Zed");
    assert!(!p.ready);
}

use battle_royale_os::ui::test_map::{model_name, model_size, model_tri_count, TestMapScreen, MODEL_COUNT};

#[test]
fn model_gallery_navigation() {
    let mut s = TestMapScreen::new(1024, 768);
    assert_eq!(s.get_model_index(), 0);
    assert_eq!(s.update(MenuAction::Left), None);
    assert_eq!(s.get_model_index(), MODEL_COUNT - 1);
    assert_eq!(s.update(MenuAction::Right), None);
    assert_eq!(s.get_model_index(), 0);
    assert_eq!(s.update(MenuAction::Up), None);
    assert_eq!(s.get_model_index(), 0);
    assert_eq!(s.update(MenuAction::Back), Some(GameState::PartyLobby));
    assert_eq!(model_name(19), Some("Battle Bus"));
    assert_eq!(model_name(MODEL_COUNT), None);
    assert_eq!(model_size(0), Some((8, 24, 4)));
    assert_eq!(model_tri_count(12), Some(576));
    assert_eq!(model_tri_count(24), None);
}
