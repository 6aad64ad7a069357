//! The kernel's menu screens and in-game interface.

pub mod customization;
pub mod fortnite_lobby;
pub mod game_ui;
pub mod input;
pub mod lobby;
pub mod main_menu;
pub mod menu;
pub mod server_select;
pub mod settings;
pub mod test_map;
