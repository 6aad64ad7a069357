//! Keyboard edges to menu actions and player input. Actions fire on the
//! frame a key goes down, not while it is held.

use vstd::prelude::*;
use crate::game_types::state::MenuAction;
use crate::protocol::packets::ClientInput;

verus! {

/// Which keys are held this frame.
#[derive(Debug, Clone, Copy, PartialEq, Eq, Structural)]
pub struct KeyState {
    pub w: bool,
    pub a: bool,
    pub s: bool,
    pub d: bool,
    pub up: bool,
    pub down: bool,
    pub left: bool,
    pub right: bool,
    pub space: bool,
    pub enter: bool,
    pub escape: bool,
    pub shift: bool,
    pub ctrl: bool,
    pub b: bool,
    pub e: bool,
    pub r: bool,
    pub t: bool,
    pub one: bool,
    pub two: bool,
    pub three: bool,
    pub four: bool,
    pub five: bool,
}

impl KeyState {
    /// No key held.
    pub fn new() -> (k: Self)
        ensures
            k == released(),
    {
        KeyState {
            w: false,
            a: false,
            s: false,
            d: false,
            up: false,
            down: false,
            left: false,
            right: false,
            space: false,
            enter: false,
            escape: false,
            shift: false,
            ctrl: false,
            b: false,
            e: false,
            r: false,
            t: false,
            one: false,
            two: false,
            three: false,
            four: false,
            five: false,
        }
    }
}

/// The state with no key held.
pub open spec fn released() -> KeyState {
    KeyState {
        w: false,
        a: false,
        s: false,
        d: false,
        up: false,
        down: false,
        left: false,
        right: false,
        space: false,
        enter: false,
        escape: false,
        shift: false,
        ctrl: false,
        b: false,
        e: false,
        r: false,
        t: false,
        one: false,
        two: false,
        three: false,
        four: false,
        five: false,
    }
}

/// A key went down this frame.
pub open spec fn pressed(now: bool, before: bool) -> bool {
    now && !before
}

/// The menu action of this frame's key presses: Up (W or Up arrow), Down (S
/// or Down), Left (A or Left), Right (D or Right), Select (Enter or Space),
/// Back (Escape), first match in that order; none otherwise.
pub open spec fn menu_action_of(current: KeyState, prev: KeyState) -> MenuAction {
    if pressed(current.w, prev.w) || pressed(current.up, prev.up) {
        MenuAction::Up
    } else if pressed(current.s, prev.s) || pressed(current.down, prev.down) {
        MenuAction::Down
    } else if pressed(current.a, prev.a) || pressed(current.left, prev.left) {
        MenuAction::Left
    } else if pressed(current.d, prev.d) || pressed(current.right, prev.right) {
        MenuAction::Right
    } else if pressed(current.enter, prev.enter) || pressed(current.space, prev.space) {
        MenuAction::Select
    } else if pressed(current.escape, prev.escape) {
        MenuAction::Back
    } else {
        MenuAction::NoAction
    }
}

/// The menu action of this frame.
pub fn get_menu_action(current: &KeyState, prev: &KeyState) -> (r: MenuAction)
    ensures
        r == menu_action_of(*current, *prev),
{
    if current.w && !prev.w || current.up && !prev.up {
        return MenuAction::Up;
    }
    if current.s && !prev.s || current.down && !prev.down {
        return MenuAction::Down;
    }
    if current.a && !prev.a || current.left && !prev.left {
        return MenuAction::Left;
    }
    if current.d && !prev.d || current.right && !prev.right {
        return MenuAction::Right;
    }
    if current.enter && !prev.enter || current.space && !prev.space {
        return MenuAction::Select;
    }
    if current.escape && !prev.escape {
        return MenuAction::Back;
    }
    MenuAction::NoAction
}

/// Holding keys without pressing new ones triggers no menu action, and
/// releasing keys triggers none either.
pub proof fn lemma_held_keys_do_nothing(k: KeyState)
    ensures
        menu_action_of(k, k) == MenuAction::NoAction,
        menu_action_of(released(), k) == MenuAction::NoAction,
{
}

/// The input a player sends for this frame: W/S move forward/back (W wins),
/// D/A strafe right/left (D wins), Space jumps and leaves the bus, Ctrl
/// crouches, the left button or Shift fires, B or the right button builds;
/// the view angles are in hundredths of a degree.
pub fn player_input(
    keys: &KeyState,
    mouse_left: bool,
    mouse_right: bool,
    player_id: u8,
    sequence: u32,
    yaw: i16,
    pitch: i16,
) -> (r: ClientInput)
    ensures
        r == (ClientInput {
            player_id,
            sequence,
            forward: if keys.w { 1i8 } else if keys.s { -1i8 } else { 0i8 },
            strafe: if keys.d { 1i8 } else if keys.a { -1i8 } else { 0i8 },
            jump: keys.space,
            crouch: keys.ctrl,
            fire: mouse_left || keys.shift,
            build: keys.b || mouse_right,
            exit_bus: keys.space,
            yaw,
            pitch,
        }),
{
    ClientInput {
        player_id,
        sequence,
        forward: if keys.w { 1 } else if keys.s { -1 } else { 0 },
        strafe: if keys.d { 1 } else if keys.a { -1 } else { 0 },
        jump: keys.space,
        crouch: keys.ctrl,
        fire: mouse_left || keys.shift,
        build: keys.b || mouse_right,
        exit_bus: keys.space,
        yaw,
        pitch,
    }
}

/// Weapon selection from the number keys.
#[derive(Debug, Clone, Copy, PartialEq, Eq, Structural)]
pub enum HotbarChoice {
    /// Key 1: the pickaxe.
    Pickaxe,
    /// Keys 2 to 5: inventory slot 0 to 3.
    Slot(u8),
}

/// The hotbar selection of this frame: the first number key pressed, 1 to 5.
pub fn hotbar_choice(current: &KeyState, prev: &KeyState) -> (r: Option<HotbarChoice>)
    ensures
        r == if pressed(current.one, prev.one) {
            Some(HotbarChoice::Pickaxe)
        } else if pressed(current.two, prev.two) {
            Some(HotbarChoice::Slot(0))
        } else if pressed(current.three, prev.three) {
            Some(HotbarChoice::Slot(1))
        } else if pressed(current.four, prev.four) {
            Some(HotbarChoice::Slot(2))
        } else if pressed(current.five, prev.five) {
            Some(HotbarChoice::Slot(3))
        } else {
            None
        },
{
    if current.one && !prev.one {
        Some(HotbarChoice::Pickaxe)
    } else if current.two && !prev.two {
        Some(HotbarChoice::Slot(0))
    } else if current.three && !prev.three {
        Some(HotbarChoice::Slot(1))
    } else if current.four && !prev.four {
        Some(HotbarChoice::Slot(2))
    } else if current.five && !prev.five {
        Some(HotbarChoice::Slot(3))
    } else {
        None
    }
}

/// R went down: reload.
pub fn reload_pressed(current: &KeyState, prev: &KeyState) -> (r: bool)
    ensures
        r == pressed(current.r, prev.r),
{
    current.r && !prev.r
}

/// E went down: pick up loot.
pub fn pickup_pressed(current: &KeyState, prev: &KeyState) -> (r: bool)
    ensures
        r == pressed(current.e, prev.e),
{
    current.e && !prev.e
}

/// T went down: open the model gallery.
pub fn test_map_pressed(current: &KeyState, prev: &KeyState) -> (r: bool)
    ensures
        r == pressed(current.t, prev.t),
{
    current.t && !prev.t
}

} // verus!
