//! Game state, settings and character customization options.

use vstd::prelude::*;

verus! {

/// Main game state.
#[derive(Debug, Clone, Copy, PartialEq, Eq, Structural)]
pub enum GameState {
    /// Party Lobby - social hub, party up to 4, customize, queue
    PartyLobby,
    /// Settings screen - graphics, audio, controls
    Settings,
    /// Player customization screen
    Customization,
    /// Matchmaking queue - searching for players
    Matchmaking { elapsed_secs: u16 },
    /// Lobby Island - warmup area, respawn on death
    LobbyIsland,
    /// Final countdown before bus (10 seconds)
    LobbyCountdown { remaining_secs: u8 },
    /// Bus flying across the map
    BusPhase,
    /// Active gameplay
    InGame,
    /// Victory/defeat screen
    Victory { winner_id: Option<u8> },
    /// Test map - model gallery viewer
    TestMap,
    /// Server selection screen
    ServerSelect,
}

impl Default for GameState {
    fn default() -> (r: Self)
        ensures
            r == GameState::PartyLobby,
    {
        GameState::PartyLobby
    }
}

impl GameState {
    /// Check if we're in a menu state.
    pub fn is_menu(&self) -> (r: bool)
        ensures
            r == (*self is PartyLobby || *self is Settings || *self is Customization
                || *self is Matchmaking || *self is TestMap || *self is ServerSelect),
    {
        match self {
            GameState::PartyLobby
            | GameState::Settings
            | GameState::Customization
            | GameState::Matchmaking { .. }
            | GameState::TestMap
            | GameState::ServerSelect => true,
            _ => false,
        }
    }

    /// Check if we're in active gameplay.
    pub fn is_gameplay(&self) -> (r: bool)
        ensures
            r == (*self is BusPhase || *self is InGame),
    {
        match self {
            GameState::BusPhase | GameState::InGame => true,
            _ => false,
        }
    }

    /// Check if we're in lobby island (warmup).
    pub fn is_warmup(&self) -> (r: bool)
        ensures
            r == (*self is LobbyIsland || *self is LobbyCountdown),
    {
        match self {
            GameState::LobbyIsland | GameState::LobbyCountdown { .. } => true,
            _ => false,
        }
    }
}

/// A game state is at most one of: menu, gameplay, warmup.
pub proof fn lemma_state_kinds_disjoint(s: GameState)
    ensures
        !((s is PartyLobby || s is Settings || s is Customization || s is Matchmaking
            || s is TestMap || s is ServerSelect) && (s is BusPhase || s is InGame)),
        !((s is PartyLobby || s is Settings || s is Customization || s is Matchmaking
            || s is TestMap || s is ServerSelect) && (s is LobbyIsland || s is LobbyCountdown)),
        !((s is BusPhase || s is InGame) && (s is LobbyIsland || s is LobbyCountdown)),
{
}

/// Network connection mode.
#[derive(Debug, Clone, Copy, PartialEq, Eq)]
pub enum NetworkMode {
    /// Offline single-player mode
    Offline,
    /// Server mode - host a game
    Server { port: u16 },
    /// Client mode - connect to a server
    Client { server_ip: [u8; 4], port: u16 },
}

impl Default for NetworkMode {
    fn default() -> (r: Self)
        ensures
            r == NetworkMode::Offline,
    {
        NetworkMode::Offline
    }
}

/// Menu navigation action.
#[derive(Debug, Clone, Copy, PartialEq, Eq, Structural)]
pub enum MenuAction {
    NoAction,
    Up,
    Down,
    Left,
    Right,
    Select,
    Back,
}

impl Default for MenuAction {
    fn default() -> (r: Self)
        ensures
            r == MenuAction::NoAction,
    {
        MenuAction::NoAction
    }
}

impl MenuAction {
    /// Whether the action is one of the four arrow directions.
    pub fn is_directional(&self) -> (r: bool)
        ensures
            r == (*self is Up || *self is Down || *self is Left || *self is Right),
    {
        matches!(self, Self::Up | Self::Down | Self::Left | Self::Right)
    }
}

/// Game settings.
#[derive(Debug, Clone, Copy)]
pub struct Settings {
    pub show_fps: bool,
    pub invert_y: bool,
    pub sensitivity: u8,
    pub render_distance: u8,
    pub volume: u8,
}

impl Default for Settings {
    fn default() -> (r: Self)
        ensures
            r.show_fps && !r.invert_y && r.sensitivity == 5 && r.render_distance == 3
                && r.volume == 80,
    {
        Settings { show_fps: true, invert_y: false, sensitivity: 5, render_distance: 3, volume: 80 }
    }
}

/// Character customization options (voxel-based).
#[derive(Debug, Clone, Copy)]
pub struct PlayerCustomization {
    pub skin_tone: u8,
    pub hair_style: u8,
    pub hair_color: u8,
    pub shirt_color: u8,
    pub pants_color: u8,
    pub shoes_color: u8,
    pub backpack_style: u8,
    pub glider_style: u8,
}

impl Default for PlayerCustomization {
    fn default() -> (r: Self)
        ensures
            r.skin_tone == 0 && r.hair_style == 0 && r.hair_color == 0 && r.shirt_color == 0
                && r.pants_color == 0 && r.shoes_color == 0 && r.backpack_style == 1
                && r.glider_style == 0,
    {
        PlayerCustomization {
            skin_tone: 0,
            hair_style: 0,
            hair_color: 0,
            shirt_color: 0,
            pants_color: 0,
            shoes_color: 0,
            backpack_style: 1,
            glider_style: 0,
        }
    }
}

/// Customization category for UI navigation.
#[derive(Debug, Clone, Copy, PartialEq, Eq, Structural)]
pub enum CustomizationCategory {
    SkinTone,
    HairStyle,
    HairColor,
    ShirtColor,
    PantsColor,
    ShoesColor,
    Backpack,
    Glider,
}

/// Number of customization categories.
pub const CUSTOMIZATION_CATEGORY_COUNT: usize = 8;

/// The category at position `i` (0-based) of the navigation order.
pub open spec fn category_at(i: int) -> CustomizationCategory {
    if i == 0 {
        CustomizationCategory::SkinTone
    } else if i == 1 {
        CustomizationCategory::HairStyle
    } else if i == 2 {
        CustomizationCategory::HairColor
    } else if i == 3 {
        CustomizationCategory::ShirtColor
    } else if i == 4 {
        CustomizationCategory::PantsColor
    } else if i == 5 {
        CustomizationCategory::ShoesColor
    } else if i == 6 {
        CustomizationCategory::Backpack
    } else {
        CustomizationCategory::Glider
    }
}

/// Largest value a category can hold.
pub open spec fn category_max(c: CustomizationCategory) -> u8 {
    match c {
        CustomizationCategory::SkinTone => 2,
        CustomizationCategory::HairStyle => 3,
        CustomizationCategory::HairColor => 3,
        CustomizationCategory::ShirtColor => 3,
        CustomizationCategory::PantsColor => 2,
        CustomizationCategory::ShoesColor => 1,
        CustomizationCategory::Backpack => 3,
        CustomizationCategory::Glider => 3,
    }
}

impl CustomizationCategory {
    /// Number of categories.
    pub const COUNT: usize = 8;

    /// The category at `index`, wrapping around the category count.
    pub fn from_index(index: usize) -> (r: Self)
        ensures
            r == category_at((index % 8) as int),
    {
        match index % Self::COUNT {
            0 => Self::SkinTone,
            1 => Self::HairStyle,
            2 => Self::HairColor,
            3 => Self::ShirtColor,
            4 => Self::PantsColor,
            5 => Self::ShoesColor,
            6 => Self::Backpack,
            _ => Self::Glider,
        }
    }

    /// Display label.
    pub fn label(self) -> (r: &'static str)
        ensures
            r == category_label(self),
    {
        match self {
            Self::SkinTone => "SKIN TONE",
            Self::HairStyle => "HAIR STYLE",
            Self::HairColor => "HAIR COLOR",
            Self::ShirtColor => "SHIRT",
            Self::PantsColor => "PANTS",
            Self::ShoesColor => "SHOES",
            Self::Backpack => "BACKPACK",
            Self::Glider => "GLIDER",
        }
    }

    /// Largest value the category can hold.
    pub fn max_value(self) -> (r: u8)
        ensures
            r == category_max(self),
    {
        match self {
            Self::SkinTone => 2,
            Self::HairStyle => 3,
            Self::HairColor => 3,
            Self::ShirtColor => 3,
            Self::PantsColor => 2,
            Self::ShoesColor => 1,
            Self::Backpack => 3,
            Self::Glider => 3,
        }
    }
}

/// Display label of a category.
pub open spec fn category_label(c: CustomizationCategory) -> &'static str {
    match c {
        CustomizationCategory::SkinTone => "SKIN TONE",
        CustomizationCategory::HairStyle => "HAIR STYLE",
        CustomizationCategory::HairColor => "HAIR COLOR",
        CustomizationCategory::ShirtColor => "SHIRT",
        CustomizationCategory::PantsColor => "PANTS",
        CustomizationCategory::ShoesColor => "SHOES",
        CustomizationCategory::Backpack => "BACKPACK",
        CustomizationCategory::Glider => "GLIDER",
    }
}

impl PlayerCustomization {
    /// The value stored for a category.
    pub open spec fn value_of(self, c: CustomizationCategory) -> u8 {
        match c {
            CustomizationCategory::SkinTone => self.skin_tone,
            CustomizationCategory::HairStyle => self.hair_style,
            CustomizationCategory::HairColor => self.hair_color,
            CustomizationCategory::ShirtColor => self.shirt_color,
            CustomizationCategory::PantsColor => self.pants_color,
            CustomizationCategory::ShoesColor => self.shoes_color,
            CustomizationCategory::Backpack => self.backpack_style,
            CustomizationCategory::Glider => self.glider_style,
        }
    }

    /// `self` with category `c` set to `v`, every other category unchanged.
    pub open spec fn with_value(self, c: CustomizationCategory, v: u8) -> PlayerCustomization {
        match c {
            CustomizationCategory::SkinTone => PlayerCustomization { skin_tone: v, ..self },
            CustomizationCategory::HairStyle => PlayerCustomization { hair_style: v, ..self },
            CustomizationCategory::HairColor => PlayerCustomization { hair_color: v, ..self },
            CustomizationCategory::ShirtColor => PlayerCustomization { shirt_color: v, ..self },
            CustomizationCategory::PantsColor => PlayerCustomization { pants_color: v, ..self },
            CustomizationCategory::ShoesColor => PlayerCustomization { shoes_color: v, ..self },
            CustomizationCategory::Backpack => PlayerCustomization { backpack_style: v, ..self },
            CustomizationCategory::Glider => PlayerCustomization { glider_style: v, ..self },
        }
    }

    /// Get value for a category.
    pub fn get(&self, category: CustomizationCategory) -> (r: u8)
        ensures
            r == self.value_of(category),
    {
        match category {
            CustomizationCategory::SkinTone => self.skin_tone,
            CustomizationCategory::HairStyle => self.hair_style,
            CustomizationCategory::HairColor => self.hair_color,
            CustomizationCategory::ShirtColor => self.shirt_color,
            CustomizationCategory::PantsColor => self.pants_color,
            CustomizationCategory::ShoesColor => self.shoes_color,
            CustomizationCategory::Backpack => self.backpack_style,
            CustomizationCategory::Glider => self.glider_style,
        }
    }

    /// Set value for a category, clamped to the category's maximum.
    pub fn set(&mut self, category: CustomizationCategory, value: u8)
        ensures
            *final(self) == old(self).with_value(
                category,
                if value <= category_max(category) { value } else { category_max(category) },
            ),
    {
        let max = category.max_value();
        let clamped = if value < max { value } else { max };
        match category {
            CustomizationCategory::SkinTone => self.skin_tone = clamped,
            CustomizationCategory::HairStyle => self.hair_style = clamped,
            CustomizationCategory::HairColor => self.hair_color = clamped,
            CustomizationCategory::ShirtColor => self.shirt_color = clamped,
            CustomizationCategory::PantsColor => self.pants_color = clamped,
            CustomizationCategory::ShoesColor => self.shoes_color = clamped,
            CustomizationCategory::Backpack => self.backpack_style = clamped,
            CustomizationCategory::Glider => self.glider_style = clamped,
        }
    }

    /// Increment value for a category, wrapping from the maximum to 0.
    pub fn next(&mut self, category: CustomizationCategory)
        ensures
            *final(self) == old(self).with_value(
                category,
                next_value(old(self).value_of(category), category_max(category)),
            ),
    {
        let current = self.get(category);
        let max = category.max_value();
        let new_value = if current >= max { 0 } else { current + 1 };
        self.set(category, new_value);
    }

    /// Decrement value for a category, wrapping from 0 to the maximum.
    pub fn prev(&mut self, category: CustomizationCategory)
        ensures
            *final(self) == old(self).with_value(
                category,
                prev_value(old(self).value_of(category), category_max(category)),
            ),
    {
        let current = self.get(category);
        let max = category.max_value();
        let new_value = if current == 0 { max } else { current - 1 };
        self.set(category, new_value);
    }

    /// Every category value is within its range.
    pub open spec fn in_range(self) -> bool {
        &&& self.skin_tone <= 2
        &&& self.hair_style <= 3
        &&& self.hair_color <= 3
        &&& self.shirt_color <= 3
        &&& self.pants_color <= 2
        &&& self.shoes_color <= 1
        &&& self.backpack_style <= 3
        &&& self.glider_style <= 3
    }
}

/// Value after `next`: one more, or 0 once the maximum is reached.
pub open spec fn next_value(current: u8, max: u8) -> u8 {
    if current >= max {
        0
    } else {
        (current + 1) as u8
    }
}

/// Value after `prev`: one less, or the maximum from 0 (clamped to the maximum).
pub open spec fn prev_value(current: u8, max: u8) -> u8 {
    if current == 0 {
        max
    } else if current - 1 <= max {
        (current - 1) as u8
    } else {
        max
    }
}

/// Stepping forward then back through a category returns to the starting value,
/// for any value within the category's range.
pub proof fn lemma_next_prev_inverse(current: u8, max: u8)
    requires
        current <= max,
    ensures
        prev_value(next_value(current, max), max) == current,
        next_value(prev_value(current, max), max) == current,
{
}

/// The default customization is within range, and `set`, `next` and `prev` keep
/// every category within range.
pub proof fn lemma_customization_stays_in_range(p: PlayerCustomization, c: CustomizationCategory, v: u8)
    requires
        p.in_range(),
    ensures
        p.with_value(c, if v <= category_max(c) { v } else { category_max(c) }).in_range(),
        p.with_value(c, next_value(p.value_of(c), category_max(c))).in_range(),
        p.with_value(c, prev_value(p.value_of(c), category_max(c))).in_range(),
{
}

/// Seconds on the countdown when the lobby's queue starts a match.
pub const QUEUE_COUNTDOWN_SECS: u8 = 5;
/// Seconds on the countdown when play starts from the lobby island.
pub const ISLAND_COUNTDOWN_SECS: u8 = 10;

/// The state changes the frame loop makes itself on a frame's menu action
/// and whether the test-map key was just pressed; `None` where the state
/// stays (or the screen's own update decides). From the party lobby the
/// test-map key opens the model gallery; the lobby island starts the long
/// countdown; Back leaves matchmaking, the bus and the match for the party
/// lobby, and Select or Back leaves the end screen for it.
pub fn frame_transition(state: GameState, action: MenuAction, test_map_key: bool) -> (r: Option<GameState>)
    ensures
        r == match state {
            GameState::PartyLobby => if test_map_key { Some(GameState::TestMap) } else { None },
            GameState::LobbyIsland => Some(GameState::LobbyCountdown { remaining_secs: ISLAND_COUNTDOWN_SECS }),
            GameState::Matchmaking { .. } | GameState::BusPhase | GameState::InGame => if action is Back {
                Some(GameState::PartyLobby)
            } else {
                None
            },
            GameState::Victory { .. } => if action is Select || action is Back {
                Some(GameState::PartyLobby)
            } else {
                None
            },
            _ => None,
        },
{
    match state {
        GameState::PartyLobby => if test_map_key { Some(GameState::TestMap) } else { None },
        GameState::LobbyIsland => Some(GameState::LobbyCountdown { remaining_secs: ISLAND_COUNTDOWN_SECS }),
        GameState::Matchmaking { .. } | GameState::BusPhase | GameState::InGame => if matches!(action, MenuAction::Back) {
            Some(GameState::PartyLobby)
        } else {
            None
        },
        GameState::Victory { .. } => if matches!(action, MenuAction::Select | MenuAction::Back) {
            Some(GameState::PartyLobby)
        } else {
            None
        },
        _ => None,
    }
}

/// The state the frame loop enters when the party lobby's update asks for
/// `requested`: joining the queue goes straight to the short countdown;
/// anything else is entered as asked.
pub fn lobby_entry(requested: GameState) -> (r: GameState)
    ensures
        r == if requested is Matchmaking {
            GameState::LobbyCountdown { remaining_secs: QUEUE_COUNTDOWN_SECS }
        } else {
            requested
        },
{
    if matches!(requested, GameState::Matchmaking { .. }) {
        GameState::LobbyCountdown { remaining_secs: QUEUE_COUNTDOWN_SECS }
    } else {
        requested
    }
}

} // verus!
