//! Party lobby: tabs across the top, the game mode picker on the Play tab,
//! and the ready flag that starts matchmaking.

use vstd::prelude::*;
use crate::game_types::state::{GameState, MenuAction};
use super::menu::LobbyPlayer;
use super::lobby::everyone_ready;
use crate::graphics::font::{
    decimal, digits_within, write_number, push_text_capped, lemma_decimal_len, text_rule, text_width, draw_chars,
    draw_string, string_width, chars_of, lemma_text_width_mono,
};
use crate::graphics::framebuffer::{
    Framebuffer, repainted, overlay, no_paint, solid_rect, fill_span_rect, lemma_repainted_compose,
    lemma_repainted_same_rule, lemma_repainted_nothing, lemma_width_bound,
};
use crate::graphics::ui::colors;
use crate::graphics::ui::panel::{bordered_box, rows_rule, draw_gradient_background_raw, draw_panel_raw, fill_rect_raw};
use crate::game_types::state::NetworkMode;

verus! {

/// Lobby tabs.
#[derive(Debug, Clone, Copy, PartialEq, Eq, Structural)]
pub enum LobbyTab {
    Play,
    Locker,
    ItemShop,
    Career,
}

/// Number of tabs.
pub const LOBBY_TAB_COUNT: usize = 4;

/// The tab at position `i` (0 to 3).
pub open spec fn tab_at(i: int) -> LobbyTab {
    if i == 0 {
        LobbyTab::Play
    } else if i == 1 {
        LobbyTab::Locker
    } else if i == 2 {
        LobbyTab::ItemShop
    } else {
        LobbyTab::Career
    }
}

impl LobbyTab {
    /// The tab at `index`, wrapping around.
    pub fn from_index(index: usize) -> (r: Self)
        ensures
            r == tab_at(index as int % 4),
    {
        match index % LOBBY_TAB_COUNT {
            0 => LobbyTab::Play,
            1 => LobbyTab::Locker,
            2 => LobbyTab::ItemShop,
            _ => LobbyTab::Career,
        }
    }

    /// Tab label.
    pub fn label(self) -> (r: &'static str)
        ensures
            r@ == tab_label(self),
    {
        match self {
            LobbyTab::Play => "PLAY",
            LobbyTab::Locker => "LOCKER",
            LobbyTab::ItemShop => "ITEM SHOP",
            LobbyTab::Career => "CAREER",
        }
    }
}

/// Label of a tab.
pub open spec fn tab_label(t: LobbyTab) -> Seq<char> {
    match t {
        LobbyTab::Play => "PLAY"@,
        LobbyTab::Locker => "LOCKER"@,
        LobbyTab::ItemShop => "ITEM SHOP"@,
        LobbyTab::Career => "CAREER"@,
    }
}

/// Game mode selection.
#[derive(Debug, Clone, Copy, PartialEq, Eq, Structural)]
pub enum GameMode {
    Solo,
    Duos,
    Squads,
}

/// Number of game modes.
pub const GAME_MODE_COUNT: usize = 3;

/// The game mode at position `i` (0 to 2).
pub open spec fn game_mode_at(i: int) -> GameMode {
    if i == 0 {
        GameMode::Solo
    } else if i == 1 {
        GameMode::Duos
    } else {
        GameMode::Squads
    }
}

/// Label of a game mode.
pub open spec fn game_mode_label(m: GameMode) -> Seq<char> {
    match m {
        GameMode::Solo => "SOLO"@,
        GameMode::Duos => "DUOS"@,
        GameMode::Squads => "SQUADS"@,
    }
}

impl GameMode {
    /// The mode at `index`, wrapping around.
    pub fn from_index(index: usize) -> (r: Self)
        ensures
            r == game_mode_at(index as int % 3),
    {
        match index % GAME_MODE_COUNT {
            0 => GameMode::Solo,
            1 => GameMode::Duos,
            _ => GameMode::Squads,
        }
    }

    /// Mode label.
    pub fn label(self) -> (r: &'static str)
        ensures
            r@ == game_mode_label(self),
    {
        match self {
            GameMode::Solo => "SOLO",
            GameMode::Duos => "DUOS",
            GameMode::Squads => "SQUADS",
        }
    }

    /// Mode description.
    pub fn description(self) -> (r: &'static str)
        ensures
            r@ == match self {
                GameMode::Solo => "100 players, no teammates"@,
                GameMode::Duos => "50 teams of 2"@,
                GameMode::Squads => "25 teams of 4"@,
            },
    {
        match self {
            GameMode::Solo => "100 players, no teammates",
            GameMode::Duos => "50 teams of 2",
            GameMode::Squads => "25 teams of 4",
        }
    }
}

/// Party lobby state (the turning player preview is kept by the renderer).
pub struct FortniteLobby {
    pub selected_tab: usize,
    pub selected_mode: usize,
    pub is_ready: bool,
    pub players: Vec<LobbyPlayer>,
    pub local_player_id: Option<u8>,
    pub countdown_active: bool,
    pub countdown_value: u8,
    pub fb_width: usize,
    pub fb_height: usize,
}

/// `i - 1`, wrapping from 0 to `count - 1`.
pub open spec fn wrap_prev(i: int, count: int) -> int {
    if i == 0 { count - 1 } else { i - 1 }
}

/// `i + 1`, wrapping from `count - 1` to 0.
pub open spec fn wrap_next(i: int, count: int) -> int {
    (i + 1) % count
}

/// Stepping forward then back (or back then forward) returns to the same
/// position of a wrap-around menu.
pub proof fn lemma_wrap_inverse(i: int, count: int)
    requires
        0 <= i < count,
    ensures
        wrap_prev(wrap_next(i, count), count) == i,
        wrap_next(wrap_prev(i, count), count) == i,
        0 <= wrap_next(i, count) < count,
        0 <= wrap_prev(i, count) < count,
{
    if i + 1 == count {
        assert((i + 1) % count == 0) by (nonlinear_arith)
            requires
                i + 1 == count,
                count > 0,
        ;
    } else {
        assert((i + 1) % count == i + 1) by (nonlinear_arith)
            requires
                0 <= i + 1 < count,
        ;
    }
    if i == 0 {
        assert((count - 1 + 1) % count == 0) by (nonlinear_arith)
            requires
                count > 0,
        ;
    } else {
        assert((i - 1 + 1) % count == i) by (nonlinear_arith)
            requires
                0 < i < count,
        ;
    }
}

impl FortniteLobby {
    /// Tab and mode are in range.
    pub open spec fn wf(self) -> bool {
        self.selected_tab < LOBBY_TAB_COUNT && self.selected_mode < GAME_MODE_COUNT
    }

    /// Play tab, Solo, not ready; the local player (id 0, "Player") alone.
    pub fn new(fb_width: usize, fb_height: usize) -> (r: Self)
        ensures
            r.wf(),
            r.selected_tab == 0,
            r.selected_mode == 0,
            !r.is_ready,
            r.players@.len() == 1,
            r.players@[0].id == 0,
            r.players@[0].name@ == "Player"@,
            !r.players@[0].ready,
            r.local_player_id == Some(0u8),
            !r.countdown_active,
            r.countdown_value == 5,
            r.fb_width == fb_width,
            r.fb_height == fb_height,
    {
        let mut players: Vec<LobbyPlayer> = Vec::new();
        players.push(LobbyPlayer::new(0, "Player"));
        FortniteLobby {
            selected_tab: 0,
            selected_mode: 0,
            is_ready: false,
            players,
            local_player_id: Some(0),
            countdown_active: false,
            countdown_value: 5,
            fb_width,
            fb_height,
        }
    }

    /// Handle one menu action. On the Play tab Left/Right pick the game mode;
    /// elsewhere they change tab. Up/Down change tab. Enter on Play toggles the
    /// local player's ready flag and, when now ready and everyone is ready,
    /// starts matchmaking; Enter on Locker opens customization. Escape opens
    /// the settings.
    pub fn update(&mut self, action: MenuAction) -> (r: Option<GameState>)
        requires
            old(self).wf(),
        ensures
            final(self).wf(),
            final(self).local_player_id == old(self).local_player_id,
            final(self).countdown_value == old(self).countdown_value,
            ({
                let tab = old(self).selected_tab as int;
                let mode = old(self).selected_mode as int;
                match action {
                    MenuAction::Left => r is None && final(self).players@ == old(self).players@
                        && final(self).is_ready == old(self).is_ready
                        && final(self).countdown_active == old(self).countdown_active
                        && if tab == 0 {
                            final(self).selected_mode == wrap_prev(mode, 3) && final(self).selected_tab == 0
                        } else {
                            final(self).selected_tab == wrap_prev(tab, 4) && final(self).selected_mode == mode
                        },
                    MenuAction::Right => r is None && final(self).players@ == old(self).players@
                        && final(self).is_ready == old(self).is_ready
                        && final(self).countdown_active == old(self).countdown_active
                        && if tab == 0 {
                            final(self).selected_mode == wrap_next(mode, 3) && final(self).selected_tab == 0
                        } else {
                            final(self).selected_tab == wrap_next(tab, 4) && final(self).selected_mode == mode
                        },
                    MenuAction::Up => r is None && final(self).players@ == old(self).players@
                        && final(self).is_ready == old(self).is_ready
                        && final(self).countdown_active == old(self).countdown_active
                        && final(self).selected_tab == wrap_prev(tab, 4) && final(self).selected_mode == mode,
                    MenuAction::Down => r is None && final(self).players@ == old(self).players@
                        && final(self).is_ready == old(self).is_ready
                        && final(self).countdown_active == old(self).countdown_active
                        && final(self).selected_tab == wrap_next(tab, 4) && final(self).selected_mode == mode,
                    MenuAction::Select => final(self).selected_tab == tab && final(self).selected_mode == mode
                        && match tab_at(tab) {
                        LobbyTab::Play => {
                            let toggles = old(self).local_player_id is Some;
                            let ready = if toggles { !old(self).is_ready } else { old(self).is_ready };
                            let id = old(self).local_player_id->0 as int;
                            let players = if toggles && id < old(self).players@.len() {
                                old(self).players@.update(id, LobbyPlayer { ready, ..old(self).players@[id] })
                            } else {
                                old(self).players@
                            };
                            &&& final(self).is_ready == ready
                            &&& final(self).players@ == players
                            &&& if ready && everyone_ready(players) {
                                r == Some(GameState::Matchmaking { elapsed_secs: 0 }) && final(self).countdown_active
                            } else {
                                r is None && final(self).countdown_active == old(self).countdown_active
                            }
                        },
                        LobbyTab::Locker => r == Some(GameState::Customization)
                            && final(self).players@ == old(self).players@ && final(self).is_ready == old(self).is_ready
                            && final(self).countdown_active == old(self).countdown_active,
                        _ => r is None && final(self).players@ == old(self).players@
                            && final(self).is_ready == old(self).is_ready
                            && final(self).countdown_active == old(self).countdown_active,
                    },
                    MenuAction::Back => r == Some(GameState::Settings) && final(self).players@ == old(self).players@
                        && final(self).is_ready == old(self).is_ready
                        && final(self).countdown_active == old(self).countdown_active
                        && final(self).selected_tab == tab && final(self).selected_mode == mode,
                    MenuAction::NoAction => r is None && final(self).players@ == old(self).players@
                        && final(self).is_ready == old(self).is_ready
                        && final(self).countdown_active == old(self).countdown_active
                        && final(self).selected_tab == tab && final(self).selected_mode == mode,
                }
            }),
    {
        match action {
            MenuAction::Left => {
                if self.selected_tab == 0 {
                    if self.selected_mode == 0 {
                        self.selected_mode = GAME_MODE_COUNT - 1;
                    } else {
                        self.selected_mode = self.selected_mode - 1;
                    }
                } else {
                    self.selected_tab = self.selected_tab - 1;
                }
            },
            MenuAction::Right => {
                if self.selected_tab == 0 {
                    self.selected_mode = (self.selected_mode + 1) % GAME_MODE_COUNT;
                } else {
                    self.selected_tab = (self.selected_tab + 1) % LOBBY_TAB_COUNT;
                }
            },
            MenuAction::Up => {
                if self.selected_tab == 0 {
                    self.selected_tab = LOBBY_TAB_COUNT - 1;
                } else {
                    self.selected_tab = self.selected_tab - 1;
                }
            },
            MenuAction::Down => {
                self.selected_tab = (self.selected_tab + 1) % LOBBY_TAB_COUNT;
            },
            MenuAction::Select => {
                match LobbyTab::from_index(self.selected_tab) {
                    LobbyTab::Play => {
                        match self.local_player_id {
                            Some(id) => {
                                self.is_ready = !self.is_ready;
                                let idx = id as usize;
                                if idx < self.players.len() {
                                    let ready = self.is_ready;
                                    self.players[idx].ready = ready;
                                }
                            },
                            None => {},
                        }
                        if self.is_ready && self.all_ready() {
                            self.countdown_active = true;
                            return Some(GameState::Matchmaking { elapsed_secs: 0 });
                        }
                    },
                    LobbyTab::Locker => {
                        return Some(GameState::Customization);
                    },
                    _ => {},
                }
            },
            MenuAction::Back => {
                return Some(GameState::Settings);
            },
            MenuAction::NoAction => {},
        }
        None
    }

    /// The test map opens when `T` is pressed.
    pub fn check_test_map_key(&self, t_pressed: bool) -> (r: Option<GameState>)
        ensures
            r == if t_pressed { Some(GameState::TestMap) } else { None },
    {
        if t_pressed {
            return Some(GameState::TestMap);
        }
        None
    }

    /// Whether there are players and all are ready.
    fn all_ready(&self) -> (r: bool)
        ensures
            r == everyone_ready(self.players@),
    {
        let n = self.players.len();
        if n == 0 {
            return false;
        }
        let mut i: usize = 0;
        while i < n
            invariant
                n == self.players@.len(),
                i <= n,
                forall|j: int| 0 <= j < i ==> #[trigger] self.players@[j].ready,
            decreases n - i,
        {
            if !self.players[i].ready {
                return false;
            }
            i = i + 1;
        }
        true
    }
}

/// Append `value` to text growing to `cap` characters, keeping the lowest
/// digits that fit.
pub fn write_num(out: &mut Vec<char>, value: usize, cap: usize)
    requires
        old(out)@.len() <= cap,
        value == 0 ==> old(out)@.len() < cap,
    ensures
        final(out)@ == old(out)@ + digits_within(value as nat, cap - old(out)@.len()),
{
    write_number(out, value as u64, cap);
}

/// Lobby count line "current/max Players", in sixteen characters (the suffix
/// is cut when it does not fit).
pub open spec fn count_line(current: nat, max: nat) -> Seq<char> {
    let base = decimal(current) + "/"@ + digits_within(max, 15 - decimal(current).len());
    base + " Players"@.take(if 8 <= 16 - base.len() { 8 } else { 16 - base.len() })
}

/// Lobby count line "current/max Players", in sixteen characters (the suffix
/// is cut when it does not fit).
pub fn format_player_count(current: usize, max: usize) -> (r: Vec<char>)
    requires
        decimal(current as nat).len() <= 15,
        decimal(current as nat).len() == 15 ==> max > 0,
    ensures
        r@ == count_line(current as nat, max as nat),
{
    proof {
        reveal_strlit("/");
        reveal_strlit(" Players");
        lemma_decimal_len(current as nat);
    }
    let mut out: Vec<char> = Vec::new();
    write_num(&mut out, current, 16);
    out.push('/');
    write_num(&mut out, max, 16);
    push_text_capped(&mut out, " Players", 16);
    out
}

/// Server status line "SERVER: 10.0.2.15:" and the port.
pub fn format_server_status(port: u16) -> (r: Vec<char>)
    ensures
        r@ == "SERVER: 10.0.2.15:"@ + decimal(port as nat),
{
    proof {
        reveal_strlit("SERVER: 10.0.2.15:");
        lemma_decimal_len(port as nat);
    }
    let mut out: Vec<char> = Vec::new();
    push_text_capped(&mut out, "SERVER: 10.0.2.15:", 64);
    assert("SERVER: 10.0.2.15:"@.take(18) =~= "SERVER: 10.0.2.15:"@);
    write_num(&mut out, port as usize, 64);
    out
}

/// Client status line "CONNECTED TO: a.b.c.d:port".
pub fn format_client_status(ip: &[u8; 4], port: u16) -> (r: Vec<char>)
    ensures
        r@ == "CONNECTED TO: "@ + decimal(ip@[0] as nat) + "."@ + decimal(ip@[1] as nat) + "."@
            + decimal(ip@[2] as nat) + "."@ + decimal(ip@[3] as nat) + ":"@ + decimal(port as nat),
{
    proof {
        reveal_strlit("CONNECTED TO: ");
        reveal_strlit(".");
        reveal_strlit(":");
        lemma_decimal_len(ip@[0] as nat);
        lemma_decimal_len(ip@[1] as nat);
        lemma_decimal_len(ip@[2] as nat);
        lemma_decimal_len(ip@[3] as nat);
        lemma_decimal_len(port as nat);
    }
    let mut out: Vec<char> = Vec::new();
    push_text_capped(&mut out, "CONNECTED TO: ", 64);
    assert("CONNECTED TO: "@.take(14) =~= "CONNECTED TO: "@);
    write_num(&mut out, ip[0] as usize, 64);
    out.push('.');
    write_num(&mut out, ip[1] as usize, 64);
    out.push('.');
    write_num(&mut out, ip[2] as usize, 64);
    out.push('.');
    write_num(&mut out, ip[3] as usize, 64);
    out.push(':');
    write_num(&mut out, port as usize, 64);
    assert(out@ =~= "CONNECTED TO: "@ + decimal(ip@[0] as nat) + "."@ + decimal(ip@[1] as nat) + "."@
        + decimal(ip@[2] as nat) + "."@ + decimal(ip@[3] as nat) + ":"@ + decimal(port as nat));
    out
}

/// Horizontal offset of frond `k` (0 to 4) `i` rows above the crown: the
/// frond leans 0.75 (k - 2) pixels per row, truncated toward zero.
pub open spec fn frond_offset(k: int, i: int) -> int {
    let v = 3 * (k - 2) * i;
    if v >= 0 { v / 4 } else { -((-v) / 4) }
}

/// Whether column `px` lies on frond `k` in the row `i` rows above the crown,
/// the fronds starting at column `c`: within `30 - i` pixels of the frond's center.
pub open spec fn frond_hit(px: int, c: int, i: int, k: int) -> bool {
    c + frond_offset(k, i) - (30 - i) <= px <= c + frond_offset(k, i) + (30 - i)
}

/// Whether column `px` lies on one of the first `n` fronds in row `i`.
pub open spec fn fronds_hit(px: int, c: int, i: int, n: int) -> bool
    decreases n,
{
    n > 0 && (fronds_hit(px, c, i, n - 1) || frond_hit(px, c, i, n - 1))
}

/// Rule of the fronds of a palm whose crown row is `top`, centered at column
/// `c`, painted for the first `rows` rows and, in row `rows`, the first `n` fronds.
pub open spec fn fronds_rule(c: int, top: int, rows: int, n: int, color: u32) -> spec_fn(int, int) -> Option<u32> {
    |px: int, py: int| {
        let i = top - py;
        if 0 <= px && 0 <= i && ((i < rows && fronds_hit(px, c, i, 5)) || (i == rows && fronds_hit(px, c, i, n))) {
            Some(color)
        } else {
            None
        }
    }
}

/// Rule of a palm silhouette at column `x` standing on row `base_y`: an
/// 8-pixel trunk `height` rows tall, and five fronds 30 rows tall fanning
/// out above it.
pub open spec fn palm_rule(x: int, base_y: int, height: int, color: u32) -> spec_fn(int, int) -> Option<u32> {
    overlay(
        solid_rect(x, base_y - height + 1, x + 8, base_y + 1, color),
        fronds_rule(x + 4, base_y - height, 30, 0, color))
}

/// Rule of the two palm silhouettes of the sunset backdrop.
pub open spec fn palms_rule(fb_width: int, fb_height: int) -> spec_fn(int, int) -> Option<u32> {
    overlay(
        palm_rule(fb_width / 8, fb_height - 100, 80, 0x0A0A20),
        palm_rule(fb_width * 7 / 8, fb_height - 120, 100, 0x0A0A20))
}

/// Draw a palm silhouette at column `x` standing on row `base_y`.
fn draw_palm_silhouette(fb: &mut Framebuffer, x: usize, base_y: usize, height: usize, color: u32)
    requires
        old(fb).wf(),
        x <= 0x0100_0000,
        base_y <= 0x0100_0000,
        height + 29 <= base_y,
    ensures
        final(fb).wf(),
        repainted(*old(fb), *final(fb), palm_rule(x as int, base_y as int, height as int, color)),
{
    let ghost f0 = *fb;
    fill_span_rect(fb, x, base_y - height + 1, x + 8, base_y + 1, color);
    let ghost f1 = *fb;
    let ghost trunk = solid_rect(x as int, base_y - height + 1, x + 8, base_y + 1, color);
    let top = base_y - height;
    let c = (x + 4) as i64;
    proof {
        lemma_repainted_nothing(f1);
        assert forall|px: int, py: int| 0 <= px < f1.width && 0 <= py < f1.height implies
            #[trigger] crate::graphics::framebuffer::no_paint()(px, py) == fronds_rule(c as int, top as int, 0, 0, color)(px, py) by {}
        lemma_repainted_same_rule(f1, f1, crate::graphics::framebuffer::no_paint(), fronds_rule(c as int, top as int, 0, 0, color));
    }
    let mut i: usize = 0;
    while i < 30
        invariant
            fb.wf(),
            i <= 30,
            top <= 0x0100_0000,
            i <= 30 ==> 29 <= top,
            c == x + 4,
            x <= 0x0100_0000,
            repainted(f1, *fb, fronds_rule(c as int, top as int, i as int, 0, color)),
        decreases 30 - i,
    {
        let row = top - i;
        let w = (30 - i) as i64;
        let mut k: usize = 0;
        while k < 5
            invariant
                fb.wf(),
                i < 30,
                k <= 5,
                row == top - i,
                top <= 0x0100_0000,
                w == 30 - i,
                c == x + 4,
                x <= 0x0100_0000,
                repainted(f1, *fb, fronds_rule(c as int, top as int, i as int, k as int, color)),
            decreases 5 - k,
        {
            let d = k as i64 - 2;
            let ii = i as i64;
            assert(-180 <= 3 * d * ii <= 180) by (nonlinear_arith)
                requires -2 <= d <= 2, 0 <= ii < 30;
            let v = 3 * d * ii;
            let off = if v >= 0 { v / 4 } else { -((-v) / 4) };
            assert(off == frond_offset(k as int, i as int));
            let left = c + off - w;
            let right = c + off + w;
            let ghost before = *fb;
            let ghost seg = if right >= 0 {
                solid_rect(if left >= 0 { left as int } else { 0 }, row as int, right + 1, row + 1, color)
            } else {
                no_paint()
            };
            if right >= 0 {
                let l: usize = if left >= 0 { left as usize } else { 0 };
                fill_span_rect(fb, l, row, (right + 1) as usize, row + 1, color);
            } else {
                proof {
                    lemma_repainted_nothing(before);
                }
            }
            proof {
                lemma_repainted_compose(f1, before, *fb, fronds_rule(c as int, top as int, i as int, k as int, color), seg);
                assert forall|px: int, py: int| 0 <= px < f1.width && 0 <= py < f1.height implies
                    #[trigger] overlay(fronds_rule(c as int, top as int, i as int, k as int, color), seg)(px, py)
                        == fronds_rule(c as int, top as int, i as int, k + 1, color)(px, py) by {
                    assert(fronds_hit(px, c as int, i as int, k + 1)
                        == (fronds_hit(px, c as int, i as int, k as int) || frond_hit(px, c as int, i as int, k as int)));
                }
                lemma_repainted_same_rule(f1, *fb, overlay(fronds_rule(c as int, top as int, i as int, k as int, color), seg),
                    fronds_rule(c as int, top as int, i as int, k + 1, color));
            }
            k += 1;
        }
        proof {
            assert forall|px: int, py: int| 0 <= px < f1.width && 0 <= py < f1.height implies
                #[trigger] fronds_rule(c as int, top as int, i as int, 5, color)(px, py)
                    == fronds_rule(c as int, top as int, i + 1, 0, color)(px, py) by {
                assert(!fronds_hit(px, c as int, (i + 1) as int, 0));
            }
            lemma_repainted_same_rule(f1, *fb, fronds_rule(c as int, top as int, i as int, 5, color),
                fronds_rule(c as int, top as int, i + 1, 0, color));
        }
        i += 1;
    }
    proof {
        lemma_repainted_compose(f0, f1, *fb, trunk, fronds_rule(c as int, top as int, 30, 0, color));
    }
}

/// Draw the two palm silhouettes of the sunset backdrop.
fn draw_palm_silhouettes(fb: &mut Framebuffer, fb_width: usize, fb_height: usize)
    requires
        old(fb).wf(),
        fb_width <= 0x0100_0000,
        249 <= fb_height <= 0x0100_0000,
    ensures
        final(fb).wf(),
        repainted(*old(fb), *final(fb), palms_rule(fb_width as int, fb_height as int)),
{
    let ghost f0 = *fb;
    draw_palm_silhouette(fb, fb_width / 8, fb_height - 100, 80, 0x0A0A20);
    let ghost f1 = *fb;
    draw_palm_silhouette(fb, fb_width * 7 / 8, fb_height - 120, 100, 0x0A0A20);
    proof {
        lemma_repainted_compose(f0, f1, *fb, palm_rule((fb_width / 8) as int, fb_height - 100, 80, 0x0A0A20),
            palm_rule((fb_width * 7 / 8) as int, fb_height - 120, 100, 0x0A0A20));
    }
}

/// Color of glow ring `g` (0 to 9) around the preview platform: blue, with
/// more green the closer the ring is to the platform.
pub open spec fn glow_color(g: int) -> u32 {
    ((0x40 * 0x10000) + (0x80 + (10 - g) * 15) * 0x100 + 0xFF) as u32
}

/// Rule of the first `n` glow rings around the platform centered at column
/// `cx` with its top at row `py`.
pub open spec fn glow_rule(cx: int, py: int, n: int) -> spec_fn(int, int) -> Option<u32>
    decreases n,
{
    if n <= 0 {
        no_paint()
    } else {
        let g = n - 1;
        overlay(glow_rule(cx, py, n - 1),
            solid_rect(cx - 100 - 2 * g, py - g, cx + 100 + 2 * g, py + 20 + g, glow_color(g)))
    }
}

/// Rule of the preview platform under the 3D player: ten glow rings, the
/// platform and a placeholder label above it.
pub open spec fn platform_rule(fb_width: int, fb_height: int) -> spec_fn(int, int) -> Option<u32> {
    let cx = fb_width / 3;
    let py = fb_height - 200;
    overlay(overlay(
        glow_rule(cx, py, 10),
        solid_rect(cx - 100, py, cx + 100, py + 20, 0x6080C0FF)),
        text_rule(cx - 50, py - 100, "[3D PLAYER]"@, colors::SUBTITLE, 2))
}

/// Draw the preview platform under the 3D player.
fn draw_player_preview_silhouette(fb: &mut Framebuffer, fb_width: usize, fb_height: usize)
    requires
        old(fb).wf(),
        354 <= fb_width <= 0x0100_0000,
        300 <= fb_height <= 0x0100_0000,
    ensures
        final(fb).wf(),
        repainted(*old(fb), *final(fb), platform_rule(fb_width as int, fb_height as int)),
{
    let cx = fb_width / 3;
    let py = fb_height - 200;
    let ghost f0 = *fb;
    proof {
        lemma_repainted_nothing(f0);
    }
    let mut g: usize = 0;
    while g < 10
        invariant
            fb.wf(),
            g <= 10,
            cx == fb_width / 3,
            118 <= cx <= 0x0100_0000,
            py == fb_height - 200,
            100 <= py <= 0x0100_0000,
            repainted(f0, *fb, glow_rule(cx as int, py as int, g as int)),
        decreases 10 - g,
    {
        let alpha = ((10 - g) * 15) as u32;
        let mid: u32 = 0x80 + alpha;
        let color: u32 = (0x40 << 16) | (mid << 8) | 0xFF;
        assert(color == 0x400000 + mid * 256 + 255) by (bit_vector)
            requires
                mid < 512,
                color == (0x40u32 << 16u32) | (mid << 8u32) | 0xFFu32;
        assert(color == glow_color(g as int));
        let ghost before = *fb;
        fill_rect_raw(fb, cx - 100 - g * 2, py - g, 200 + g * 4, 20 + g * 2, color);
        proof {
            lemma_repainted_compose(f0, before, *fb, glow_rule(cx as int, py as int, g as int),
                solid_rect(cx - 100 - 2 * g, py - g, cx + 100 + 2 * g, py + 20 + g, glow_color(g as int)));
        }
        g += 1;
    }
    let ghost f1 = *fb;
    fill_rect_raw(fb, cx - 100, py, 200, 20, 0x6080C0FF);
    let ghost f2 = *fb;
    proof {
        lemma_repainted_compose(f0, f1, f2, glow_rule(cx as int, py as int, 10), solid_rect(cx - 100, py as int, cx + 100, py + 20, 0x6080C0FF));
        reveal_strlit("[3D PLAYER]");
    }
    assert(text_width(11, 2) == 198);
    draw_string(fb, cx - 50, py - 100, "[3D PLAYER]", colors::SUBTITLE, 2);
    proof {
        lemma_repainted_compose(f0, f2, *fb,
            overlay(glow_rule(cx as int, py as int, 10), solid_rect(cx - 100, py as int, cx + 100, py + 20, 0x6080C0FF)),
            text_rule(cx - 50, py - 100, "[3D PLAYER]"@, colors::SUBTITLE, 2));
    }
}

/// Status line for the network mode.
pub open spec fn status_line(network: NetworkMode) -> Seq<char> {
    match network {
        NetworkMode::Offline => "OFFLINE MODE"@,
        NetworkMode::Server { port } => "SERVER: 10.0.2.15:"@ + decimal(port as nat),
        NetworkMode::Client { server_ip, port } => "CONNECTED TO: "@ + decimal(server_ip@[0] as nat) + "."@
            + decimal(server_ip@[1] as nat) + "."@ + decimal(server_ip@[2] as nat) + "."@ + decimal(server_ip@[3] as nat)
            + ":"@ + decimal(port as nat),
    }
}

impl FortniteLobby {
    /// Rule of tab `i` of the header: its box, lighter when selected, and its
    /// label centered on it when it fits the tab's 120 pixels.
    pub open spec fn tab_rule(self, i: int) -> spec_fn(int, int) -> Option<u32> {
        let tx = 300 + 130 * i;
        let sel = i == self.selected_tab;
        let label = tab_label(tab_at(i));
        let w = text_width(label.len() as int, 2);
        overlay(
            solid_rect(tx, 10, tx + 120, 50, if sel { 0x504080C0 } else { 0x30304060 }),
            if w <= 120 {
                text_rule(tx + (120 - w) / 2, 18, label, if sel { colors::WHITE } else { colors::SUBTITLE }, 2)
            } else {
                no_paint()
            })
    }

    /// Rule of the first `n` tabs.
    pub open spec fn tabs_rule(self, n: int) -> spec_fn(int, int) -> Option<u32>
        decreases n,
    {
        if n <= 0 { no_paint() } else { overlay(self.tabs_rule(n - 1), self.tab_rule(n - 1)) }
    }

    /// Rule of the header: dark band, title and the four tabs.
    pub open spec fn header_rule(self, fb_width: int) -> spec_fn(int, int) -> Option<u32> {
        overlay(overlay(
            solid_rect(0, 0, fb_width, 60, 0x20102030),
            text_rule(20, 15, "BATTLE ROYALE"@, colors::TITLE, 3)),
            self.tabs_rule(4))
    }

    /// Rule of the player panel in the right third: name, level and ready state.
    pub open spec fn info_rule(self, fb_width: int) -> spec_fn(int, int) -> Option<u32> {
        let px = fb_width * 2 / 3;
        overlay(overlay(overlay(
            bordered_box(px, 100, fb_width / 3 - 20, 200, 2, 0x30203040, colors::PANEL_BORDER),
            text_rule(px + 20, 120, "Player"@, colors::WHITE, 3)),
            text_rule(px + 20, 160, "Level: 1"@, colors::SUBTITLE, 2)),
            text_rule(px + 20, 200, if self.is_ready { "READY!"@ } else { "NOT READY"@ },
                if self.is_ready { colors::READY } else { colors::NOT_READY }, 2))
    }

    /// Rule of the bottom bar: band, "BATTLE ROYALE", the mode between `<` and
    /// `>`, the PLAY (or READY!) button at the right and the player count above it.
    pub open spec fn bottom_rule(self, fb_width: int, fb_height: int) -> spec_fn(int, int) -> Option<u32> {
        let by = fb_height - 100;
        let label = game_mode_label(game_mode_at(self.selected_mode as int % 3));
        let bx = fb_width - 230;
        let play = if self.is_ready { "READY!"@ } else { "PLAY"@ };
        overlay(overlay(overlay(overlay(overlay(overlay(overlay(
            solid_rect(0, by, fb_width, by + 80, 0x40102030),
            text_rule(30, by + 10, "BATTLE ROYALE"@, colors::WHITE, 2)),
            text_rule(30, by + 40, label, colors::FN_YELLOW, 3)),
            text_rule(10, by + 40, seq!['<'], colors::SUBTITLE, 3)),
            text_rule(30 + text_width(label.len() as int, 3) + 10, by + 40, seq!['>'], colors::SUBTITLE, 3)),
            solid_rect(bx, by + 10, bx + 200, by + 70, if self.is_ready { colors::READY } else { colors::FN_YELLOW })),
            text_rule(bx + (200 - text_width(play.len() as int, 3)) / 2, by + 28, play, colors::BLACK, 3)),
            text_rule(bx, by - 15, count_line(self.players@.len(), 100), colors::SUBTITLE, 2))
    }

    /// Rule of the status line at the bottom: the network mode at the left and
    /// the model viewer hint at the right.
    pub open spec fn status_rule(self, network: NetworkMode, fb_width: int, fb_height: int) -> spec_fn(int, int) -> Option<u32> {
        overlay(
            text_rule(10, fb_height - 25, status_line(network), colors::SUBTITLE, 1),
            text_rule(fb_width - text_width(24, 1) - 10, fb_height - 25, "Press T for Model Viewer"@, colors::SUBTITLE, 1))
    }

    /// Rule of the lobby over the sunset rows `bg` (when the backdrop is
    /// drawn): backdrop with palms and preview platform, then header, player
    /// panel, bottom bar and status line.
    pub open spec fn ui_rule(self, bg: Seq<u32>, fb_width: int, fb_height: int, skip_background: bool, network: NetworkMode)
        -> spec_fn(int, int) -> Option<u32> {
        let ui = overlay(overlay(overlay(
            self.header_rule(fb_width),
            self.info_rule(fb_width)),
            self.bottom_rule(fb_width, fb_height)),
            self.status_rule(network, fb_width, fb_height));
        if skip_background {
            ui
        } else {
            overlay(overlay(overlay(rows_rule(bg, fb_width, fb_height), palms_rule(fb_width, fb_height)),
                platform_rule(fb_width, fb_height)), ui)
        }
    }

    /// The screen is large enough for the lobby's panels and bars, and the
    /// player count short enough for its line.
    pub open spec fn fits(self, fb_width: int, fb_height: int) -> bool {
        &&& 230 <= fb_width <= 0x0100_0000
        &&& 115 <= fb_height <= 0x0100_0000
        &&& decimal(self.players@.len()).len() <= 15
    }

    /// The screen is also large enough for the backdrop and the preview platform.
    pub open spec fn fits_backdrop(fb_width: int, fb_height: int) -> bool {
        354 <= fb_width && 300 <= fb_height
    }

    /// Draw the whole lobby over the sunset rows `background`.
    pub fn draw(&self, fb: &mut Framebuffer, background: &Vec<u32>, fb_width: usize, fb_height: usize, network: NetworkMode)
        requires
            old(fb).wf(),
            self.fits(fb_width as int, fb_height as int),
            Self::fits_backdrop(fb_width as int, fb_height as int),
        ensures
            final(fb).wf(),
            repainted(*old(fb), *final(fb), self.ui_rule(background@, fb_width as int, fb_height as int, false, network)),
    {
        self.draw_ui_only(fb, background, fb_width, fb_height, false, network);
    }

    /// Draw the lobby, without the backdrop and preview platform when
    /// `skip_background` (the 3D preview is rendered separately).
    pub fn draw_ui_only(&self, fb: &mut Framebuffer, background: &Vec<u32>, fb_width: usize, fb_height: usize,
        skip_background: bool, network: NetworkMode)
        requires
            old(fb).wf(),
            self.fits(fb_width as int, fb_height as int),
            !skip_background ==> Self::fits_backdrop(fb_width as int, fb_height as int),
        ensures
            final(fb).wf(),
            repainted(*old(fb), *final(fb), self.ui_rule(background@, fb_width as int, fb_height as int, skip_background, network)),
    {
        let ghost f0 = *fb;
        let ghost back = overlay(overlay(rows_rule(background@, fb_width as int, fb_height as int),
            palms_rule(fb_width as int, fb_height as int)), platform_rule(fb_width as int, fb_height as int));
        if !skip_background {
            self.draw_sunset_background(fb, background, fb_width, fb_height);
            let ghost f2 = *fb;
            draw_player_preview_silhouette(fb, fb_width, fb_height);
            proof {
                lemma_repainted_compose(f0, f2, *fb,
                    overlay(rows_rule(background@, fb_width as int, fb_height as int), palms_rule(fb_width as int, fb_height as int)),
                    platform_rule(fb_width as int, fb_height as int));
            }
        } else {
            proof {
                lemma_repainted_nothing(f0);
            }
        }
        let ghost fb_back = *fb;
        let ghost start = if skip_background { no_paint() } else { back };
        self.draw_header(fb, fb_width);
        let ghost f3 = *fb;
        proof { lemma_repainted_compose(f0, fb_back, f3, start, self.header_rule(fb_width as int)); }
        self.draw_player_info(fb, fb_width);
        let ghost f4 = *fb;
        proof { lemma_repainted_compose(f0, f3, f4, overlay(start, self.header_rule(fb_width as int)), self.info_rule(fb_width as int)); }
        self.draw_bottom_bar(fb, fb_width, fb_height);
        let ghost f5 = *fb;
        let ghost a = overlay(overlay(start, self.header_rule(fb_width as int)), self.info_rule(fb_width as int));
        proof { lemma_repainted_compose(f0, f4, f5, a, self.bottom_rule(fb_width as int, fb_height as int)); }
        self.draw_network_status(fb, fb_width, fb_height, network);
        proof {
            lemma_repainted_compose(f0, f5, *fb, overlay(a, self.bottom_rule(fb_width as int, fb_height as int)),
                self.status_rule(network, fb_width as int, fb_height as int));
            let ui = overlay(overlay(overlay(
                self.header_rule(fb_width as int),
                self.info_rule(fb_width as int)),
                self.bottom_rule(fb_width as int, fb_height as int)),
                self.status_rule(network, fb_width as int, fb_height as int));
            assert forall|px: int, py: int| 0 <= px < f0.width && 0 <= py < f0.height implies
                #[trigger] overlay(overlay(a, self.bottom_rule(fb_width as int, fb_height as int)),
                    self.status_rule(network, fb_width as int, fb_height as int))(px, py)
                    == self.ui_rule(background@, fb_width as int, fb_height as int, skip_background, network)(px, py) by {}
            lemma_repainted_same_rule(f0, *fb,
                overlay(overlay(a, self.bottom_rule(fb_width as int, fb_height as int)),
                    self.status_rule(network, fb_width as int, fb_height as int)),
                self.ui_rule(background@, fb_width as int, fb_height as int, skip_background, network));
        }
    }

    /// Draw the sunset backdrop: the gradient rows `background` (orange, pink,
    /// purple, dark blue from top to bottom) and two palm silhouettes.
    fn draw_sunset_background(&self, fb: &mut Framebuffer, background: &Vec<u32>, fb_width: usize, fb_height: usize)
        requires
            old(fb).wf(),
            fb_width <= 0x0100_0000,
            249 <= fb_height <= 0x0100_0000,
        ensures
            final(fb).wf(),
            repainted(*old(fb), *final(fb), overlay(rows_rule(background@, fb_width as int, fb_height as int),
                palms_rule(fb_width as int, fb_height as int))),
    {
        let ghost f0 = *fb;
        draw_gradient_background_raw(fb, background, fb_width, fb_height);
        let ghost f1 = *fb;
        draw_palm_silhouettes(fb, fb_width, fb_height);
        proof {
            lemma_repainted_compose(f0, f1, *fb, rows_rule(background@, fb_width as int, fb_height as int),
                palms_rule(fb_width as int, fb_height as int));
        }
    }

    /// Draw the header band with the title and the tabs.
    fn draw_header(&self, fb: &mut Framebuffer, fb_width: usize)
        requires
            old(fb).wf(),
            fb_width <= 0x0100_0000,
        ensures
            final(fb).wf(),
            repainted(*old(fb), *final(fb), self.header_rule(fb_width as int)),
    {
        let ghost f0 = *fb;
        fill_rect_raw(fb, 0, 0, fb_width, 60, 0x20102030);
        let ghost f1 = *fb;
        proof {
            reveal_strlit("BATTLE ROYALE");
        }
        assert(text_width(13, 3) == 351);
        draw_string(fb, 20, 15, "BATTLE ROYALE", colors::TITLE, 3);
        let ghost f2 = *fb;
        let ghost r = overlay(solid_rect(0, 0, fb_width as int, 60, 0x20102030), text_rule(20, 15, "BATTLE ROYALE"@, colors::TITLE, 3));
        proof {
            lemma_repainted_compose(f0, f1, f2, solid_rect(0, 0, fb_width as int, 60, 0x20102030),
                text_rule(20, 15, "BATTLE ROYALE"@, colors::TITLE, 3));
            lemma_repainted_nothing(f2);
        }
        let mut i: usize = 0;
        while i < LOBBY_TAB_COUNT
            invariant
                fb.wf(),
                i <= 4,
                repainted(f2, *fb, self.tabs_rule(i as int)),
            decreases 4 - i,
        {
            let tab = LobbyTab::from_index(i);
            let tab_x = 300 + i * 130;
            let selected = i == self.selected_tab;
            let bg: u32 = if selected { 0x504080C0 } else { 0x30304060 };
            let ghost before = *fb;
            fill_rect_raw(fb, tab_x, 10, 120, 40, bg);
            let ghost mid = *fb;
            proof {
                reveal_strlit("PLAY");
                reveal_strlit("LOCKER");
                reveal_strlit("ITEM SHOP");
                reveal_strlit("CAREER");
            }
            let label = tab.label();
            let text = chars_of(label);
            proof {
                lemma_text_width_mono(text@.len() as int, 9, 2);
            }
            let w = string_width(&text, 2);
            let color = if selected { colors::WHITE } else { colors::SUBTITLE };
            let ghost lr = if w <= 120 { text_rule(tab_x + (120 - w) / 2, 18, text@, color, 2) } else { no_paint() };
            if w <= 120 {
                draw_chars(fb, tab_x + (120 - w) / 2, 18, &text, color, 2);
            } else {
                proof {
                    lemma_repainted_nothing(mid);
                }
            }
            proof {
                lemma_repainted_compose(before, mid, *fb, solid_rect(tab_x as int, 10, tab_x + 120, 50, bg), lr);
                lemma_repainted_compose(f2, before, *fb, self.tabs_rule(i as int), self.tab_rule(i as int));
            }
            i += 1;
        }
        proof {
            lemma_repainted_compose(f0, f2, *fb, r, self.tabs_rule(4));
        }
    }

    /// Draw the player panel in the right third.
    fn draw_player_info(&self, fb: &mut Framebuffer, fb_width: usize)
        requires
            old(fb).wf(),
            230 <= fb_width <= 0x0100_0000,
        ensures
            final(fb).wf(),
            repainted(*old(fb), *final(fb), self.info_rule(fb_width as int)),
    {
        let px = fb_width * 2 / 3;
        let ghost f0 = *fb;
        draw_panel_raw(fb, px, 100, fb_width / 3 - 20, 200, 0x30203040);
        let ghost f1 = *fb;
        let ghost r1 = bordered_box(px as int, 100, fb_width / 3 - 20, 200, 2, 0x30203040, colors::PANEL_BORDER);
        proof {
            reveal_strlit("Player");
            reveal_strlit("Level: 1");
            reveal_strlit("READY!");
            reveal_strlit("NOT READY");
        }
        assert(text_width(6, 3) == 162);
        draw_string(fb, px + 20, 120, "Player", colors::WHITE, 3);
        let ghost f2 = *fb;
        let ghost r2 = text_rule(px + 20, 120, "Player"@, colors::WHITE, 3);
        proof { lemma_repainted_compose(f0, f1, f2, r1, r2); }
        assert(text_width(8, 2) == 144);
        draw_string(fb, px + 20, 160, "Level: 1", colors::SUBTITLE, 2);
        let ghost f3 = *fb;
        let ghost r3 = text_rule(px + 20, 160, "Level: 1"@, colors::SUBTITLE, 2);
        proof { lemma_repainted_compose(f0, f2, f3, overlay(r1, r2), r3); }
        let text = if self.is_ready { "READY!" } else { "NOT READY" };
        let color = if self.is_ready { colors::READY } else { colors::NOT_READY };
        proof {
            lemma_text_width_mono(text@.len() as int, 9, 2);
        }
        draw_string(fb, px + 20, 200, text, color, 2);
        proof {
            lemma_repainted_compose(f0, f3, *fb, overlay(overlay(r1, r2), r3), text_rule(px + 20, 200, text@, color, 2));
        }
    }

    /// Draw the bottom bar.
    fn draw_bottom_bar(&self, fb: &mut Framebuffer, fb_width: usize, fb_height: usize)
        requires
            old(fb).wf(),
            self.fits(fb_width as int, fb_height as int),
        ensures
            final(fb).wf(),
            repainted(*old(fb), *final(fb), self.bottom_rule(fb_width as int, fb_height as int)),
    {
        let by = fb_height - 100;
        let ghost f0 = *fb;
        fill_rect_raw(fb, 0, by, fb_width, 80, 0x40102030);
        let ghost f1 = *fb;
        let ghost r1 = solid_rect(0, by as int, fb_width as int, by + 80, 0x40102030);
        proof {
            reveal_strlit("BATTLE ROYALE");
            reveal_strlit("SOLO");
            reveal_strlit("DUOS");
            reveal_strlit("SQUADS");
            reveal_strlit("<");
            reveal_strlit(">");
            reveal_strlit("READY!");
            reveal_strlit("PLAY");
            assert("<"@ =~= seq!['<']);
            assert(">"@ =~= seq!['>']);
        }
        assert(text_width(13, 2) == 234);
        draw_string(fb, 30, by + 10, "BATTLE ROYALE", colors::WHITE, 2);
        let ghost f2 = *fb;
        let ghost r2 = text_rule(30, by + 10, "BATTLE ROYALE"@, colors::WHITE, 2);
        proof { lemma_repainted_compose(f0, f1, f2, r1, r2); }
        let mode = GameMode::from_index(self.selected_mode);
        let label = mode.label();
        let text = chars_of(label);
        proof {
            lemma_text_width_mono(text@.len() as int, 6, 3);
        }
        draw_chars(fb, 30, by + 40, &text, colors::FN_YELLOW, 3);
        let ghost f3 = *fb;
        let ghost r3 = text_rule(30, by + 40, text@, colors::FN_YELLOW, 3);
        proof { lemma_repainted_compose(f0, f2, f3, overlay(r1, r2), r3); }
        assert(text_width(1, 3) == 27);
        draw_string(fb, 10, by + 40, "<", colors::SUBTITLE, 3);
        let ghost f4 = *fb;
        let ghost r4 = text_rule(10, by + 40, seq!['<'], colors::SUBTITLE, 3);
        proof { lemma_repainted_compose(f0, f3, f4, overlay(overlay(r1, r2), r3), r4); }
        let w = string_width(&text, 3);
        draw_string(fb, 30 + w + 10, by + 40, ">", colors::SUBTITLE, 3);
        let ghost f5 = *fb;
        let ghost r5 = text_rule(30 + w + 10, by + 40, seq!['>'], colors::SUBTITLE, 3);
        let ghost a = overlay(overlay(overlay(overlay(r1, r2), r3), r4), r5);
        proof { lemma_repainted_compose(f0, f4, f5, overlay(overlay(overlay(r1, r2), r3), r4), r5); }
        let bx = fb_width - 230;
        let button_color = if self.is_ready { colors::READY } else { colors::FN_YELLOW };
        fill_rect_raw(fb, bx, by + 10, 200, 60, button_color);
        let ghost f6 = *fb;
        let ghost r6 = solid_rect(bx as int, by + 10, bx + 200, by + 70, button_color);
        proof { lemma_repainted_compose(f0, f5, f6, a, r6); }
        let play = if self.is_ready { "READY!" } else { "PLAY" };
        let play_text = chars_of(play);
        proof {
            lemma_text_width_mono(play_text@.len() as int, 6, 3);
        }
        let pw = string_width(&play_text, 3);
        draw_chars(fb, bx + (200 - pw) / 2, by + 28, &play_text, colors::BLACK, 3);
        let ghost f7 = *fb;
        let ghost r7 = text_rule(bx + (200 - pw) / 2, by + 28, play_text@, colors::BLACK, 3);
        proof { lemma_repainted_compose(f0, f6, f7, overlay(a, r6), r7); }
        let count = format_player_count(self.players.len(), 100);
        proof {
            reveal_strlit("/");
            reveal_strlit(" Players");
            assert(count@.len() <= 16);
            lemma_text_width_mono(count@.len() as int, 16, 2);
        }
        draw_chars(fb, bx, by - 15, &count, colors::SUBTITLE, 2);
        proof {
            lemma_repainted_compose(f0, f7, *fb, overlay(overlay(a, r6), r7),
                text_rule(bx as int, by - 15, count_line(self.players@.len(), 100), colors::SUBTITLE, 2));
        }
    }

    /// Draw the status line: network mode at the left, model viewer hint at the right.
    fn draw_network_status(&self, fb: &mut Framebuffer, fb_width: usize, fb_height: usize, network: NetworkMode)
        requires
            old(fb).wf(),
            230 <= fb_width <= 0x0100_0000,
            115 <= fb_height <= 0x0100_0000,
        ensures
            final(fb).wf(),
            repainted(*old(fb), *final(fb), self.status_rule(network, fb_width as int, fb_height as int)),
    {
        let status_y = fb_height - 25;
        proof {
            reveal_strlit("OFFLINE MODE");
            reveal_strlit("SERVER: 10.0.2.15:");
            reveal_strlit("CONNECTED TO: ");
            reveal_strlit(".");
            reveal_strlit(":");
        }
        let line = match network {
            NetworkMode::Offline => chars_of("OFFLINE MODE"),
            NetworkMode::Server { port } => format_server_status(port),
            NetworkMode::Client { server_ip, port } => format_client_status(&server_ip, port),
        };
        assert(line@ == status_line(network));
        proof {
            match network {
                NetworkMode::Server { port } => { lemma_decimal_len(port as nat); },
                NetworkMode::Client { server_ip, port } => {
                    lemma_decimal_len(port as nat);
                    lemma_decimal_len(server_ip@[0] as nat);
                    lemma_decimal_len(server_ip@[1] as nat);
                    lemma_decimal_len(server_ip@[2] as nat);
                    lemma_decimal_len(server_ip@[3] as nat);
                },
                _ => {},
            }
            assert(line@.len() <= 64);
            lemma_text_width_mono(line@.len() as int, 64, 1);
        }
        let ghost f0 = *fb;
        draw_chars(fb, 10, status_y, &line, colors::SUBTITLE, 1);
        let ghost f1 = *fb;
        proof {
            reveal_strlit("Press T for Model Viewer");
        }
        assert(text_width(24, 1) == 216);
        draw_string(fb, fb_width - 216 - 10, status_y, "Press T for Model Viewer", colors::SUBTITLE, 1);
        proof {
            lemma_repainted_compose(f0, f1, *fb, text_rule(10, status_y as int, status_line(network), colors::SUBTITLE, 1),
                text_rule(fb_width - text_width(24, 1) - 10, status_y as int, "Press T for Model Viewer"@, colors::SUBTITLE, 1));
        }
    }
}

} // verus!
