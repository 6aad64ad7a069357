//! Menu model shared by the kernel screens: lobby players, the main-menu and
//! settings options, and the edits the settings screen makes.

use vstd::prelude::*;
use crate::game_types::state::{PlayerCustomization, Settings};
use crate::graphics::font::chars_of;

verus! {

/// A player shown in a lobby.
pub struct LobbyPlayer {
    pub id: u8,
    pub name: Vec<char>,
    pub ready: bool,
    pub customization: PlayerCustomization,
}

impl LobbyPlayer {
    /// A player who is not ready yet, with the default look.
    pub fn new(id: u8, name: &str) -> (r: Self)
        ensures
            r.id == id,
            r.name@ == name@,
            !r.ready,
            r.customization == (PlayerCustomization {
                skin_tone: 0,
                hair_style: 0,
                hair_color: 0,
                shirt_color: 0,
                pants_color: 0,
                shoes_color: 0,
                backpack_style: 1,
                glider_style: 0,
            }),
    {
        LobbyPlayer { id, name: chars_of(name), ready: false, customization: PlayerCustomization::default() }
    }
}

/// Main menu options, in menu order.
#[derive(Debug, Clone, Copy, PartialEq, Eq, Structural)]
pub enum MainMenuOption {
    Play,
    Settings,
    Customization,
    Quit,
}

/// Number of main menu options.
pub const MAIN_MENU_OPTION_COUNT: usize = 4;

/// The main menu option at position `i` (0 to 3).
pub open spec fn main_option_at(i: int) -> MainMenuOption {
    if i == 0 {
        MainMenuOption::Play
    } else if i == 1 {
        MainMenuOption::Settings
    } else if i == 2 {
        MainMenuOption::Customization
    } else {
        MainMenuOption::Quit
    }
}

impl MainMenuOption {
    /// Position of an option in the menu.
    pub open spec fn index_of(self) -> usize {
        match self {
            MainMenuOption::Play => 0,
            MainMenuOption::Settings => 1,
            MainMenuOption::Customization => 2,
            MainMenuOption::Quit => 3,
        }
    }

    /// The option at `index` (wrapping around the menu).
    pub fn from_index(index: usize) -> (r: Self)
        ensures
            r == main_option_at(index as int % MAIN_MENU_OPTION_COUNT as int),
    {
        match index % MAIN_MENU_OPTION_COUNT {
            0 => MainMenuOption::Play,
            1 => MainMenuOption::Settings,
            2 => MainMenuOption::Customization,
            _ => MainMenuOption::Quit,
        }
    }

    /// Position of the option in the menu.
    pub fn to_index(self) -> (r: usize)
        ensures
            r == self.index_of(),
    {
        match self {
            MainMenuOption::Play => 0,
            MainMenuOption::Settings => 1,
            MainMenuOption::Customization => 2,
            MainMenuOption::Quit => 3,
        }
    }

    /// Button label of the option.
    pub fn label(self) -> (r: &'static str)
        ensures
            r@ == main_menu_label(self),
    {
        match self {
            MainMenuOption::Play => "PLAY",
            MainMenuOption::Settings => "SETTINGS",
            MainMenuOption::Customization => "CUSTOMIZE",
            MainMenuOption::Quit => "QUIT",
        }
    }
}

/// Button label of a main menu option.
pub open spec fn main_menu_label(o: MainMenuOption) -> Seq<char> {
    match o {
        MainMenuOption::Play => "PLAY"@,
        MainMenuOption::Settings => "SETTINGS"@,
        MainMenuOption::Customization => "CUSTOMIZE"@,
        MainMenuOption::Quit => "QUIT"@,
    }
}

/// Positions and options correspond one to one: the option at an option's
/// position is that option, and the position of the option at `i` is `i`.
pub proof fn lemma_main_menu_index_roundtrip(i: int, o: MainMenuOption)
    ensures
        main_option_at(o.index_of() as int) == o,
        0 <= i < MAIN_MENU_OPTION_COUNT ==> main_option_at(i).index_of() == i,
{
}

/// Settings screen options, in screen order.
#[derive(Debug, Clone, Copy, PartialEq, Eq, Structural)]
pub enum SettingsOption {
    ShowFps,
    InvertY,
    Sensitivity,
    RenderDistance,
    Volume,
    Back,
}

/// Number of settings options.
pub const SETTINGS_OPTION_COUNT: usize = 6;

/// The settings option at position `i` (0 to 5).
pub open spec fn settings_option_at(i: int) -> SettingsOption {
    if i == 0 {
        SettingsOption::ShowFps
    } else if i == 1 {
        SettingsOption::InvertY
    } else if i == 2 {
        SettingsOption::Sensitivity
    } else if i == 3 {
        SettingsOption::RenderDistance
    } else if i == 4 {
        SettingsOption::Volume
    } else {
        SettingsOption::Back
    }
}

impl SettingsOption {
    /// Position of an option on the screen.
    pub open spec fn index_of(self) -> usize {
        match self {
            SettingsOption::ShowFps => 0,
            SettingsOption::InvertY => 1,
            SettingsOption::Sensitivity => 2,
            SettingsOption::RenderDistance => 3,
            SettingsOption::Volume => 4,
            SettingsOption::Back => 5,
        }
    }

    /// The option at `index` (wrapping around the list).
    pub fn from_index(index: usize) -> (r: Self)
        ensures
            r == settings_option_at(index as int % SETTINGS_OPTION_COUNT as int),
    {
        match index % SETTINGS_OPTION_COUNT {
            0 => SettingsOption::ShowFps,
            1 => SettingsOption::InvertY,
            2 => SettingsOption::Sensitivity,
            3 => SettingsOption::RenderDistance,
            4 => SettingsOption::Volume,
            _ => SettingsOption::Back,
        }
    }

    /// On/off options.
    pub fn is_toggle(self) -> (r: bool)
        ensures
            r == (self is ShowFps || self is InvertY),
    {
        match self {
            SettingsOption::ShowFps | SettingsOption::InvertY => true,
            _ => false,
        }
    }

    /// Options with a numeric range.
    pub fn is_range(self) -> (r: bool)
        ensures
            r == (self is Sensitivity || self is RenderDistance || self is Volume),
    {
        match self {
            SettingsOption::Sensitivity | SettingsOption::RenderDistance | SettingsOption::Volume => true,
            _ => false,
        }
    }

    /// Label of the option.
    pub fn label(self) -> (r: &'static str)
        ensures
            r@ == settings_label(self),
    {
        match self {
            SettingsOption::ShowFps => "SHOW FPS",
            SettingsOption::InvertY => "INVERT Y",
            SettingsOption::Sensitivity => "SENSITIVITY",
            SettingsOption::RenderDistance => "RENDER DISTANCE",
            SettingsOption::Volume => "VOLUME",
            SettingsOption::Back => "BACK",
        }
    }

    /// Lowest and highest value of a range option (the slider's bounds).
    pub fn bounds(self) -> (r: (u8, u8))
        ensures
            r == range_bounds(self),
    {
        match self {
            SettingsOption::Sensitivity => (1, 10),
            SettingsOption::RenderDistance => (1, 3),
            SettingsOption::Volume => (0, 100),
            _ => (0, 1),
        }
    }
}

/// Label of a settings option.
pub open spec fn settings_label(o: SettingsOption) -> Seq<char> {
    match o {
        SettingsOption::ShowFps => "SHOW FPS"@,
        SettingsOption::InvertY => "INVERT Y"@,
        SettingsOption::Sensitivity => "SENSITIVITY"@,
        SettingsOption::RenderDistance => "RENDER DISTANCE"@,
        SettingsOption::Volume => "VOLUME"@,
        SettingsOption::Back => "BACK"@,
    }
}

/// Slider bounds of a range option.
pub open spec fn range_bounds(o: SettingsOption) -> (u8, u8) {
    match o {
        SettingsOption::Sensitivity => (1, 10),
        SettingsOption::RenderDistance => (1, 3),
        SettingsOption::Volume => (0, 100),
        _ => (0, 1),
    }
}

/// Value of a range option in a settings record.
pub open spec fn range_value(s: Settings, o: SettingsOption) -> u8 {
    match o {
        SettingsOption::Sensitivity => s.sensitivity,
        SettingsOption::RenderDistance => s.render_distance,
        SettingsOption::Volume => s.volume,
        _ => 0,
    }
}

/// `v + delta` kept within `[lo, hi]`.
pub open spec fn clamp_step(v: int, delta: int, lo: int, hi: int) -> int {
    if v + delta < lo {
        lo
    } else if v + delta > hi {
        hi
    } else {
        v + delta
    }
}

impl Settings {
    /// Flip an on/off option; other options are left alone.
    pub fn toggle(&mut self, option: SettingsOption)
        ensures
            *final(self) == match option {
                SettingsOption::ShowFps => Settings { show_fps: !old(self).show_fps, ..*old(self) },
                SettingsOption::InvertY => Settings { invert_y: !old(self).invert_y, ..*old(self) },
                _ => *old(self),
            },
    {
        match option {
            SettingsOption::ShowFps => {
                self.show_fps = !self.show_fps;
            },
            SettingsOption::InvertY => {
                self.invert_y = !self.invert_y;
            },
            _ => {},
        }
    }

    /// Move a range option by `delta`, kept within its bounds; other options are left alone.
    pub fn adjust(&mut self, option: SettingsOption, delta: i8)
        ensures
            *final(self) == match option {
                SettingsOption::Sensitivity => Settings {
                    sensitivity: clamp_step(old(self).sensitivity as int, delta as int, 1, 10) as u8,
                    ..*old(self)
                },
                SettingsOption::RenderDistance => Settings {
                    render_distance: clamp_step(old(self).render_distance as int, delta as int, 1, 3) as u8,
                    ..*old(self)
                },
                SettingsOption::Volume => Settings {
                    volume: clamp_step(old(self).volume as int, delta as int, 0, 100) as u8,
                    ..*old(self)
                },
                _ => *old(self),
            },
    {
        if !option.is_range() {
            return;
        }
        let (lo, hi) = option.bounds();
        let v: i16 = match option {
            SettingsOption::Sensitivity => self.sensitivity as i16,
            SettingsOption::RenderDistance => self.render_distance as i16,
            _ => self.volume as i16,
        };
        let moved: i16 = v + delta as i16;
        let clamped: u8 = if moved < lo as i16 {
            lo
        } else if moved > hi as i16 {
            hi
        } else {
            moved as u8
        };
        match option {
            SettingsOption::Sensitivity => {
                self.sensitivity = clamped;
            },
            SettingsOption::RenderDistance => {
                self.render_distance = clamped;
            },
            _ => {
                self.volume = clamped;
            },
        }
    }

    /// 1 when an on/off option is on, 0 otherwise; the value of a range option.
    pub fn get_value(&self, option: SettingsOption) -> (r: u8)
        ensures
            r == match option {
                SettingsOption::ShowFps => if self.show_fps { 1u8 } else { 0u8 },
                SettingsOption::InvertY => if self.invert_y { 1u8 } else { 0u8 },
                SettingsOption::Back => 0u8,
                _ => range_value(*self, option),
            },
    {
        match option {
            SettingsOption::ShowFps => if self.show_fps { 1 } else { 0 },
            SettingsOption::InvertY => if self.invert_y { 1 } else { 0 },
            SettingsOption::Sensitivity => self.sensitivity,
            SettingsOption::RenderDistance => self.render_distance,
            SettingsOption::Volume => self.volume,
            SettingsOption::Back => 0,
        }
    }

    /// "ON" or "OFF" for an on/off option (value 1 or not).
    pub fn get_value_str(&self, option: SettingsOption) -> (r: &'static str)
        ensures
            r@ == if self.get_value_spec(option) == 1 { "ON"@ } else { "OFF"@ },
    {
        if self.get_value(option) == 1 {
            "ON"
        } else {
            "OFF"
        }
    }

    /// Spec form of `get_value`.
    pub open spec fn get_value_spec(self, option: SettingsOption) -> u8 {
        match option {
            SettingsOption::ShowFps => if self.show_fps { 1u8 } else { 0u8 },
            SettingsOption::InvertY => if self.invert_y { 1u8 } else { 0u8 },
            SettingsOption::Back => 0u8,
            _ => range_value(self, option),
        }
    }
}

/// A range option stays within its bounds whatever adjustments are made, once
/// it started there.
pub proof fn lemma_adjust_stays_in_bounds(v: int, delta: int, lo: int, hi: int)
    requires
        lo <= hi,
    ensures
        lo <= clamp_step(v, delta, lo, hi) <= hi,
{
}

/// Toggling an on/off option twice gives the settings back.
pub proof fn lemma_toggle_twice(s: Settings, option: SettingsOption)
    ensures
        toggled(toggled(s, option), option) == s,
{
}

/// Settings after `toggle(option)`.
pub open spec fn toggled(s: Settings, option: SettingsOption) -> Settings {
    match option {
        SettingsOption::ShowFps => Settings { show_fps: !s.show_fps, ..s },
        SettingsOption::InvertY => Settings { invert_y: !s.invert_y, ..s },
        _ => s,
    }
}

} // verus!
