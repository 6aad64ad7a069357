use battle_royale_os::game_types::phase::PlayerPhase;
use battle_royale_os::game_types::state::{MenuAction, NetworkMode, PlayerCustomization, Settings};
use battle_royale_os::graphics::framebuffer::Framebuffer;
use battle_royale_os::graphics::ui::button::Slider;
use battle_royale_os::graphics::ui::colors;
use battle_royale_os::graphics::ui::list::KillFeed;
use battle_royale_os::graphics::ui::panel::{draw_gradient_background_raw, draw_percent_bar};
use battle_royale_os::ui::customization::CustomizationScreen;
use battle_royale_os::ui::fortnite_lobby::FortniteLobby;
use battle_royale_os::ui::game_ui::{draw_countdown, draw_victory, GameUI};
use battle_royale_os::ui::lobby::LobbyScreen;
use battle_royale_os::ui::main_menu::MainMenuScreen;
use battle_royale_os::ui::server_select::{InputMode, ServerSelectScreen};
use battle_royale_os::ui::settings::SettingsScreen;
use battle_royale_os::ui::test_map::{format_zoom_info, TestMapScreen};

const W: usize = 1024;
const H: usize = 768;

fn screen() -> Framebuffer {
    Framebuffer::new(W, H, W * 4, 32).unwrap()
}

#[test]
fn background_rows_fill_the_screen() {
    let mut f = Framebuffer::new(8, 4, 40, 32).unwrap();
    draw_gradient_background_raw(&mut f, &vec![1, 2, 3], 6, 4);
    assert_eq!(f.get_pixel(0, 0), 1);
    assert_eq!(f.get_pixel(5, 2), 3);
    assert_eq!(f.get_pixel(6, 0), 0);
    assert_eq!(f.get_pixel(0, 3), 0);
}

#[test]
fn lobby_screen_draw() {
    let lobby = LobbyScreen::new(W, H);
    let mut f = screen();
    lobby.draw(&mut f, &vec![0x111111; H], W, H);
    assert_eq!(f.get_pixel(0, 0), 0x111111);
    assert_eq!(f.get_pixel(53, 100), colors::WHITE);
    assert_eq!(f.get_pixel(302, 100), colors::WHITE);
    assert_eq!(f.get_pixel(60, 182), colors::PANEL_BORDER);
    assert_eq!(f.get_pixel(64, 206), colors::NOT_READY);
    assert_eq!(f.get_pixel(500, 150), colors::PANEL_BORDER);
    assert_eq!(f.get_pixel(505, 155), colors::PANEL_BG);
    assert_eq!(f.get_pixel(525, 370), colors::PANEL_BORDER);
    assert_eq!(f.get_pixel(530, 375), colors::BUTTON_NORMAL);
}

#[test]
fn lobby_ready_button_turns_green() {
    let mut lobby = LobbyScreen::new(W, H);
    lobby.local_ready = true;
    let mut f = screen();
    lobby.draw(&mut f, &vec![0; H], W, H);
    assert_eq!(f.get_pixel(530, 375), colors::READY);
}

#[test]
fn server_select_draw_modes() {
    let s = ServerSelectScreen::new(W, H);
    let mut f = screen();
    s.draw(&mut f, &vec![0x101010; H], W, H);
    assert_eq!(f.get_pixel(320, 170), colors::PANEL_BG);
    assert_eq!(f.get_pixel(320, 410), colors::BUTTON_SELECTED);
    assert_eq!(f.get_pixel(312, 400), colors::PANEL_BORDER);
    assert_eq!(f.get_pixel(0, 0), 0x101010);
}

#[test]
fn server_select_ip_entry_dims_the_screen() {
    let mut s = ServerSelectScreen::new(W, H);
    let mut net = NetworkMode::Offline;
    s.update(MenuAction::Up, &mut net);
    s.update(MenuAction::Select, &mut net);
    assert_eq!(s.input_mode, InputMode::IpEntry);
    let mut f = screen();
    s.draw(&mut f, &vec![0x808080; H], W, H);
    assert_eq!(f.get_pixel(0, 0), 0x404040);
    assert_eq!(f.get_pixel(320, 170), 0x151525);
    assert_eq!(f.get_pixel(364, 332), colors::FN_YELLOW);
    assert_eq!(f.get_pixel(444, 332), colors::BUTTON_NORMAL);
}

#[test]
fn settings_draw_fills_sliders() {
    let s = SettingsScreen::new(W, H, Settings::default());
    let mut f = screen();
    s.draw(&mut f, &vec![0; H], W, H);
    assert_eq!(f.get_pixel(233, 161), colors::BUTTON_SELECTED);
    assert_eq!(f.get_pixel(608, 302), colors::FN_BLUE);
    assert_eq!(f.get_pixel(609, 302), colors::PANEL_BG);
    assert_eq!(f.get_pixel(687, 422), colors::FN_BLUE);
    assert_eq!(f.get_pixel(688, 422), colors::PANEL_BG);
}

#[test]
fn customization_draw_preview() {
    let s = CustomizationScreen::new(W, H, PlayerCustomization::default());
    let mut f = screen();
    s.draw(&mut f, &vec![0; H], W, H);
    assert_eq!(f.get_pixel(66, 116), colors::BUTTON_SELECTED);
    assert_eq!(f.get_pixel(321, 137), colors::FN_YELLOW);
    assert_eq!(f.get_pixel(341, 137), colors::PANEL_BORDER);
    assert_eq!(f.get_pixel(650, 300), 0xFFDBB4);
    assert_eq!(f.get_pixel(650, 285), 0x2C2C2C);
    assert_eq!(f.get_pixel(650, 330), 0x3366CC);
    assert_eq!(f.get_pixel(676, 340), 0x556B2F);
}

#[test]
fn customization_draw_glider_preview() {
    let mut s = CustomizationScreen::new(W, H, PlayerCustomization::default());
    s.selected_category = 7;
    let mut f = screen();
    s.draw(&mut f, &vec![0; H], W, H);
    assert_eq!(f.get_pixel(601, 451), 0xE53935);
    assert_eq!(f.get_pixel(605, 480), 0x888888);
    assert_eq!(f.get_pixel(635, 505), 0x888888);
    assert_eq!(f.get_pixel(640, 508), 0x222222);
}

#[test]
fn main_menu_draw() {
    let m = MainMenuScreen::new(W, H);
    let mut f = screen();
    m.draw(&mut f, &vec![0; H], W, H);
    assert_eq!(f.get_pixel(362, 284), colors::FN_YELLOW);
    assert_eq!(f.get_pixel(370, 290), colors::BUTTON_SELECTED);
    assert_eq!(f.get_pixel(21, 738), colors::SUBTITLE);
}

#[test]
fn test_map_draw_overlay() {
    let t = TestMapScreen::new(W, H);
    let mut f = screen();
    t.draw(&mut f, 100, W, H);
    assert_eq!(f.get_pixel(5, 5), 0x00101020);
    assert_eq!(f.get_pixel(20, 648), colors::PANEL_BORDER);
    assert_eq!(f.get_pixel(154, 723), colors::SUBTITLE);
    assert_eq!(format_zoom_info(150).into_iter().collect::<String>(), "Zoom: 150%");
}

#[test]
fn game_ui_ground_hud() {
    let ui = GameUI::new(W, H);
    let mut f = screen();
    ui.draw(&mut f, 53, 0, 30, 30, 100, 50, 2, PlayerPhase::Grounded, "AR");
    assert_eq!(f.get_pixel(20, 648), colors::PANEL_BORDER);
    assert_eq!(f.get_pixel(124, 660), colors::HEALTH_HIGH);
    assert_eq!(f.get_pixel(125, 660), colors::PANEL_BG);
    assert_eq!(f.get_pixel(30, 685), 0);
    assert_eq!(f.get_pixel(20, 60), colors::PANEL_BORDER);
    assert_eq!(f.get_pixel(35, 75), 0x4CAF50);
    assert_eq!(f.get_pixel(95, 135), colors::WHITE);
    assert_eq!(f.get_pixel(95, 130), colors::FN_YELLOW);
    assert_eq!(f.get_pixel(499, 384), colors::WHITE);
}

#[test]
fn game_ui_altitude_while_gliding() {
    let ui = GameUI::new(W, H);
    let mut f = screen();
    ui.draw(&mut f, 100, 0, 0, 0, 0, 1, 0, PlayerPhase::Gliding, "");
    // 200 m fill 160 of the 400-pixel bar, from row 340 down to 500.
    assert_eq!(f.get_pixel(970, 339), colors::PANEL_BG);
    assert_eq!(f.get_pixel(970, 340), colors::HEALTH_HIGH);
    assert_eq!(f.get_pixel(970, 420), colors::FN_YELLOW);
}

#[test]
fn percent_bar_fill() {
    let mut f = screen();
    draw_percent_bar(&mut f, 10, 10, 200, 20, 150, 7, 9);
    assert_eq!(f.get_pixel(10, 10), colors::PANEL_BORDER);
    assert_eq!(f.get_pixel(208, 15), 7);
    assert_eq!(f.get_pixel(209, 15), colors::PANEL_BORDER);
    let mut g = screen();
    draw_percent_bar(&mut g, 10, 10, 200, 20, 0, 7, 9);
    assert_eq!(g.get_pixel(11, 15), 9);
}

#[test]
fn countdown_and_victory_screens() {
    let mut f = screen();
    draw_countdown(&mut f, &vec![0x050505; H], W, H, 5);
    assert_eq!(f.get_pixel(0, 0), 0x050505);
    assert_eq!(f.get_pixel(477, 384), colors::FN_YELLOW);
    let mut g = screen();
    draw_victory(&mut g, &vec![0; H], W, H, Some(0));
    assert_eq!(g.get_pixel(102, 52), colors::FN_YELLOW);
    assert_eq!(g.get_pixel(139, 75), colors::FN_BLUE);
    assert_eq!(g.get_pixel(312, 444), colors::PANEL_BORDER);
    let mut d = screen();
    draw_victory(&mut d, &vec![0; H], W, H, Some(3));
    assert_eq!(d.get_pixel(102, 52), 0);
}

#[test]
fn party_lobby_backdrop() {
    let lobby = FortniteLobby::new(W, H);
    let mut f = screen();
    lobby.draw(&mut f, &vec![0x101010; H], W, H, NetworkMode::Offline);
    assert_eq!(f.get_pixel(130, 660), 0x0A0A20);
    assert_eq!(f.get_pixel(110, 588), 0x0A0A20);
    assert_eq!(f.get_pixel(300, 570), 0x6080C0FF);
    assert_eq!(f.get_pixel(223, 559), 0x408FFF);
    assert_eq!(f.get_pixel(20, 743), colors::SUBTITLE);
    let mut g = screen();
    lobby.draw_ui_only(&mut g, &Vec::new(), W, H, true, NetworkMode::Offline);
    assert_eq!(g.get_pixel(130, 660), 0);
}

#[test]
fn kill_feed_fades_after_five_seconds() {
    let mut feed = KillFeed::new();
    feed.add("P1", "S2", false, 1000);
    let mut f = screen();
    feed.draw(&mut f, W, 3000);
    assert_eq!(f.get_pixel(725, 50), colors::WHITE);
    assert_eq!(f.get_pixel(764, 50), colors::HEALTH_LOW);
    let mut g = screen();
    feed.draw(&mut g, W, 7000);
    assert_eq!(g.get_pixel(725, 50), 0);
}

#[test]
fn slider_draw_fill() {
    let s = Slider::new(100, 100, 200, 40, "SENS", 5, 1, 10);
    let mut f = screen();
    s.draw(&mut f, 30);
    assert_eq!(f.get_pixel(229, 117), colors::FN_BLUE);
    assert_eq!(f.get_pixel(230, 117), colors::PANEL_BG);
    assert_eq!(f.get_pixel(101, 101), colors::BUTTON_NORMAL);
}
