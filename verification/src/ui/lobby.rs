//! Lobby screen: the players waiting for a match, the local player's ready
//! state, and the countdown that starts once everyone is ready.

use vstd::prelude::*;
use crate::game_types::state::{MenuAction, PlayerCustomization};
use crate::graphics::ui::list::PlayerList;
use super::menu::LobbyPlayer;
use crate::graphics::font::{
    decimal, digits_within, write_number, push_text_capped, lemma_decimal_len, text_rule, text_width,
    centered_x, draw_chars, lemma_text_width_mono, draw_chars_centered, draw_string, format_number, chars_of, string_width,
};
use crate::graphics::framebuffer::{Framebuffer, repainted, overlay, lemma_repainted_compose};
use crate::graphics::ui::colors;
use crate::graphics::ui::panel::{bordered_box, rows_rule, draw_gradient_background_raw, draw_panel_raw, fill_bordered_box};

verus! {

/// Where the lobby sends the game.
#[derive(Debug, Clone, Copy, PartialEq, Eq, Structural)]
pub enum LobbyOutcome {
    /// Back to the main menu.
    MainMenu,
    /// Everyone is ready: count down.
    Countdown { remaining_secs: u8 },
    /// The countdown ran out: board the bus.
    BusPhase,
}

/// Lobby screen state.
pub struct LobbyScreen {
    pub players: Vec<LobbyPlayer>,
    pub local_player_id: Option<u8>,
    pub local_ready: bool,
    pub auto_start_timer: u8,
    pub countdown_active: bool,
    pub countdown_value: u8,
    pub player_list: PlayerList,
    pub fb_width: usize,
    pub fb_height: usize,
}

/// Position of the first player with `id`, or the length when there is none.
pub open spec fn first_index(s: Seq<LobbyPlayer>, id: u8) -> int
    decreases s.len(),
{
    if s.len() == 0 {
        0
    } else {
        let f = first_index(s.drop_last(), id);
        if f < s.len() - 1 {
            f
        } else if s.last().id == id {
            s.len() - 1
        } else {
            s.len() as int
        }
    }
}

/// `first_index` is the first position holding `id`.
pub proof fn lemma_first_index(s: Seq<LobbyPlayer>, id: u8, k: int)
    requires
        0 <= k <= s.len(),
        forall|j: int| 0 <= j < k ==> s[j].id != id,
        k < s.len() ==> s[k].id == id,
    ensures
        first_index(s, id) == k,
    decreases s.len(),
{
    if s.len() > 0 {
        let d = s.drop_last();
        if k < s.len() - 1 {
            lemma_first_index(d, id, k);
        } else {
            lemma_first_index(d, id, d.len() as int);
        }
    }
}

/// The players with the first player of `id` marked ready or not.
pub open spec fn with_ready(s: Seq<LobbyPlayer>, id: u8, ready: bool) -> Seq<LobbyPlayer> {
    let k = first_index(s, id);
    if k < s.len() {
        s.update(k, LobbyPlayer { ready, ..s[k] })
    } else {
        s
    }
}

/// The players without those of `id`, in order.
pub open spec fn without_id(s: Seq<LobbyPlayer>, id: u8) -> Seq<LobbyPlayer>
    decreases s.len(),
{
    if s.len() == 0 {
        s
    } else if s.last().id == id {
        without_id(s.drop_last(), id)
    } else {
        without_id(s.drop_last(), id).push(s.last())
    }
}

/// Number of ready players.
pub open spec fn count_ready(s: Seq<LobbyPlayer>) -> nat
    decreases s.len(),
{
    if s.len() == 0 {
        0
    } else {
        count_ready(s.drop_last()) + if s.last().ready { 1nat } else { 0nat }
    }
}

/// There are players and all of them are ready.
pub open spec fn everyone_ready(s: Seq<LobbyPlayer>) -> bool {
    s.len() > 0 && forall|i: int| 0 <= i < s.len() ==> #[trigger] s[i].ready
}

impl LobbyScreen {
    /// The lobby with the local player (id 0, "Player") not ready, a 60-second
    /// auto-start timer and a 5-second countdown not running yet.
    pub fn new(fb_width: usize, fb_height: usize) -> (r: Self)
        ensures
            r.players@.len() == 1,
            r.players@[0].id == 0,
            r.players@[0].name@ == "Player"@,
            !r.players@[0].ready,
            r.local_player_id == Some(0u8),
            !r.local_ready,
            r.auto_start_timer == 60,
            !r.countdown_active,
            r.countdown_value == 5,
            r.player_list == (PlayerList { x: 50, y: 150, width: 400, height: 450, scroll_offset: 0, items_per_page: 10 }),
            r.fb_width == fb_width,
            r.fb_height == fb_height,
    {
        let local_player = LobbyPlayer::new(0, "Player");
        let mut players: Vec<LobbyPlayer> = Vec::new();
        players.push(local_player);
        LobbyScreen {
            players,
            local_player_id: Some(0),
            local_ready: false,
            auto_start_timer: 60,
            countdown_active: false,
            countdown_value: 5,
            player_list: PlayerList::new(50, 150, 400, 450),
            fb_width,
            fb_height,
        }
    }

    /// Add a player with the given look; its id is the player count before
    /// the addition (truncated to a byte).
    pub fn add_player(&mut self, name: &str, customization: PlayerCustomization) -> (id: u8)
        ensures
            id == old(self).players@.len() as u8,
            final(self).players@.len() == old(self).players@.len() + 1,
            final(self).players@.drop_last() == old(self).players@,
            final(self).players@.last().id == id,
            final(self).players@.last().name@ == name@,
            !final(self).players@.last().ready,
            final(self).players@.last().customization == customization,
            final(self).local_player_id == old(self).local_player_id,
            final(self).local_ready == old(self).local_ready,
            final(self).countdown_active == old(self).countdown_active,
            final(self).countdown_value == old(self).countdown_value,
            final(self).player_list == old(self).player_list,
    {
        let id = self.players.len() as u8;
        let mut player = LobbyPlayer::new(id, name);
        player.customization = customization;
        self.players.push(player);
        proof {
            assert(self.players@.drop_last() =~= old(self).players@);
        }
        id
    }

    /// Remove every player with `id`.
    pub fn remove_player(&mut self, id: u8)
        ensures
            final(self).players@ == without_id(old(self).players@, id),
            final(self).local_player_id == old(self).local_player_id,
            final(self).local_ready == old(self).local_ready,
            final(self).countdown_active == old(self).countdown_active,
            final(self).countdown_value == old(self).countdown_value,
            final(self).player_list == old(self).player_list,
    {
        let mut remaining: Vec<LobbyPlayer> = Vec::new();
        std::mem::swap(&mut remaining, &mut self.players);
        let ghost orig = remaining@;
        let n = remaining.len();
        let mut k: usize = 0;
        while k < n
            invariant
                orig == old(self).players@,
                n == orig.len(),
                k <= n,
                remaining@ == orig.skip(k as int),
                self.players@ == without_id(orig.take(k as int), id),
                self.local_player_id == old(self).local_player_id,
                self.local_ready == old(self).local_ready,
                self.countdown_active == old(self).countdown_active,
                self.countdown_value == old(self).countdown_value,
                self.player_list == old(self).player_list,
            decreases n - k,
        {
            let p = remaining.remove(0);
            assert(p == orig[k as int]);
            assert(orig.take(k + 1).drop_last() =~= orig.take(k as int));
            assert(remaining@ =~= orig.skip(k + 1));
            if p.id != id {
                self.players.push(p);
            }
            k = k + 1;
        }
        assert(orig.take(n as int) =~= orig);
    }

    /// Set the ready flag of the first player with `id`, if any.
    pub fn set_ready(&mut self, id: u8, ready: bool)
        ensures
            final(self).players@ == with_ready(old(self).players@, id, ready),
            final(self).local_player_id == old(self).local_player_id,
            final(self).local_ready == old(self).local_ready,
            final(self).countdown_active == old(self).countdown_active,
            final(self).countdown_value == old(self).countdown_value,
            final(self).player_list == old(self).player_list,
            final(self).auto_start_timer == old(self).auto_start_timer,
    {
        let n = self.players.len();
        let mut i: usize = 0;
        while i < n
            invariant
                n == self.players@.len(),
                self.players@ == old(self).players@,
                i <= n,
                forall|j: int| 0 <= j < i ==> self.players@[j].id != id,
                self.local_player_id == old(self).local_player_id,
                self.local_ready == old(self).local_ready,
                self.countdown_active == old(self).countdown_active,
                self.countdown_value == old(self).countdown_value,
                self.player_list == old(self).player_list,
                self.auto_start_timer == old(self).auto_start_timer,
            decreases n - i,
        {
            if self.players[i].id == id {
                proof {
                    lemma_first_index(self.players@, id, i as int);
                }
                self.players[i].ready = ready;
                assert(self.players@ =~= with_ready(old(self).players@, id, ready));
                return;
            }
            i = i + 1;
        }
        proof {
            lemma_first_index(self.players@, id, n as int);
        }
    }

    /// Number of ready players.
    pub fn ready_count(&self) -> (r: usize)
        ensures
            r == count_ready(self.players@),
    {
        let n = self.players.len();
        let mut c: usize = 0;
        let mut i: usize = 0;
        while i < n
            invariant
                n == self.players@.len(),
                i <= n,
                c == count_ready(self.players@.take(i as int)),
                c <= i,
            decreases n - i,
        {
            assert(self.players@.take(i + 1).drop_last() =~= self.players@.take(i as int));
            if self.players[i].ready {
                c = c + 1;
            }
            i = i + 1;
        }
        assert(self.players@.take(n as int) =~= self.players@);
        c
    }

    /// Whether there are players and all of them are ready.
    pub fn all_ready(&self) -> (r: bool)
        ensures
            r == everyone_ready(self.players@),
    {
        let n = self.players.len();
        if n == 0 {
            return false;
        }
        let mut i: usize = 0;
        while i < n
            invariant
                n == self.players@.len(),
                i <= n,
                forall|j: int| 0 <= j < i ==> #[trigger] self.players@[j].ready,
            decreases n - i,
        {
            if !self.players[i].ready {
                return false;
            }
            i = i + 1;
        }
        true
    }

    /// Decrement the countdown while it runs and has not reached zero.
    pub fn tick_countdown(&mut self)
        ensures
            final(self).countdown_value == if old(self).countdown_active && old(self).countdown_value > 0 {
                (old(self).countdown_value - 1) as u8
            } else {
                old(self).countdown_value
            },
            final(self).countdown_active == old(self).countdown_active,
            final(self).players@ == old(self).players@,
            final(self).local_ready == old(self).local_ready,
            final(self).player_list == old(self).player_list,
    {
        if self.countdown_active && self.countdown_value > 0 {
            self.countdown_value = self.countdown_value - 1;
        }
    }

    /// Handle one menu action: Enter toggles the local player's ready flag,
    /// Escape leaves for the main menu, Up and Down scroll the player list.
    /// Then, unless leaving: if no countdown runs and everyone is ready, the
    /// countdown starts at 5; if it runs and reached 0, the bus phase begins.
    pub fn update(&mut self, action: MenuAction) -> (r: Option<LobbyOutcome>)
        requires
            old(self).player_list.scroll_offset + old(self).player_list.items_per_page <= usize::MAX,
        ensures
            action is Back ==> r == Some(LobbyOutcome::MainMenu) && final(self).players@ == old(self).players@
                && final(self).local_ready == old(self).local_ready
                && final(self).countdown_active == old(self).countdown_active
                && final(self).countdown_value == old(self).countdown_value
                && final(self).player_list == old(self).player_list,
            !(action is Back) ==> {
                let toggles = action is Select && old(self).local_player_id is Some;
                let ready = if toggles { !old(self).local_ready } else { old(self).local_ready };
                let players = if toggles {
                    with_ready(old(self).players@, old(self).local_player_id->0, ready)
                } else {
                    old(self).players@
                };
                &&& final(self).local_ready == ready
                &&& final(self).players@ == players
                &&& final(self).player_list == match action {
                    MenuAction::Up => old(self).player_list.scrolled_up(),
                    MenuAction::Down => old(self).player_list.scrolled_down(old(self).players@.len() as int),
                    _ => old(self).player_list,
                }
                &&& (!old(self).countdown_active && everyone_ready(players)) ==> (
                    r == Some(LobbyOutcome::Countdown { remaining_secs: 5 })
                    && final(self).countdown_active
                    && final(self).countdown_value == 5)
                &&& (!old(self).countdown_active && !everyone_ready(players)) ==> (r is None
                    && !final(self).countdown_active && final(self).countdown_value == old(self).countdown_value)
                &&& old(self).countdown_active ==> (final(self).countdown_active
                    && final(self).countdown_value == old(self).countdown_value
                    && r == (if old(self).countdown_value == 0 { Some(LobbyOutcome::BusPhase) } else { None }))
            },
            final(self).local_player_id == old(self).local_player_id,
            final(self).auto_start_timer == old(self).auto_start_timer,
    {
        match action {
            MenuAction::Select => {
                match self.local_player_id {
                    Some(id) => {
                        self.local_ready = !self.local_ready;
                        let ready = self.local_ready;
                        self.set_ready(id, ready);
                    },
                    None => {},
                }
            },
            MenuAction::Back => {
                return Some(LobbyOutcome::MainMenu);
            },
            MenuAction::Up => {
                self.player_list.scroll_up();
            },
            MenuAction::Down => {
                let total = self.players.len();
                self.player_list.scroll_down(total);
            },
            _ => {},
        }
        if !self.countdown_active {
            if self.all_ready() && self.players.len() >= 1 {
                self.countdown_active = true;
                self.countdown_value = 5;
                return Some(LobbyOutcome::Countdown { remaining_secs: 5 });
            }
        } else {
            if self.countdown_value == 0 {
                return Some(LobbyOutcome::BusPhase);
            }
        }
        None
    }
}

/// Footer of the lobby screen.
pub open spec fn lobby_footer() -> Seq<char> {
    "ENTER: READY/UNREADY   ESC: LEAVE"@
}

impl LobbyScreen {
    /// Text of the ready button.
    pub open spec fn button_text(self) -> Seq<char> {
        if self.local_ready { "READY!"@ } else { "PRESS ENTER"@ }
    }

    /// Rule of the right-hand status panel: ready count, then the countdown or
    /// the auto-start timer.
    pub open spec fn status_rule(self) -> spec_fn(int, int) -> Option<u32> {
        let panel = overlay(
            bordered_box(500, 150, 350, 300, 2, colors::PANEL_BG, colors::PANEL_BORDER),
            text_rule(520, 170, ready_text(count_ready(self.players@), self.players@.len()), colors::WHITE, 2));
        if self.countdown_active {
            overlay(
                overlay(panel, text_rule(520, 210, "STARTING IN:"@, colors::FN_YELLOW, 2)),
                text_rule(600, 250, decimal(self.countdown_value as nat), colors::TITLE, 6))
        } else {
            overlay(
                overlay(panel, text_rule(520, 210, "WAITING FOR PLAYERS"@, colors::SUBTITLE, 2)),
                text_rule(520, 250, timer_text(self.auto_start_timer as nat), colors::SUBTITLE, 2))
        }
    }

    /// Rule of the ready button: a box with a 1-pixel border, green once the
    /// local player is ready, and its text centered on it.
    pub open spec fn button_rule(self) -> spec_fn(int, int) -> Option<u32> {
        overlay(
            bordered_box(525, 370, 300, 60, 1,
                if self.local_ready { colors::READY } else { colors::BUTTON_NORMAL }, colors::PANEL_BORDER),
            text_rule(525 + (300 - text_width(self.button_text().len() as int, 2)) / 2, 392,
                self.button_text(), colors::WHITE, 2))
    }

    /// Rule of the lobby screen over the background rows `bg`, on a screen
    /// `screen_w` pixels wide: title, player count, player list, status panel,
    /// ready button and the centered footer `fb_height - 40` from the top.
    pub open spec fn rule(self, bg: Seq<u32>, fb_width: int, fb_height: int, screen_w: int) -> spec_fn(int, int) -> Option<u32> {
        overlay(
            overlay(
                overlay(
                    overlay(
                        overlay(
                            overlay(
                                rows_rule(bg, fb_width, fb_height),
                                text_rule(50, 40, "LOBBY"@, colors::TITLE, 4)),
                            text_rule(50, 100, player_count_text(self.players@.len()), colors::WHITE, 3)),
                        self.player_list.rule(self.players@)),
                    self.status_rule()),
                self.button_rule()),
            text_rule(centered_x(screen_w, text_width(lobby_footer().len() as int, 2)), fb_height - 40,
                lobby_footer(), colors::SUBTITLE, 2))
    }

    /// Draw the lobby screen over the gradient background rows `background`.
    pub fn draw(&self, fb: &mut Framebuffer, background: &Vec<u32>, fb_width: usize, fb_height: usize)
        requires
            old(fb).wf(),
            fb_height >= 40,
            self.player_list.drawable(self.players@),
        ensures
            final(fb).wf(),
            repainted(*old(fb), *final(fb), self.rule(background@, fb_width as int, fb_height as int, old(fb).width as int)),
    {
        let ghost f0 = *fb;
        draw_gradient_background_raw(fb, background, fb_width, fb_height);
        let ghost f1 = *fb;
        let ghost r1 = rows_rule(background@, fb_width as int, fb_height as int);
        proof {
            reveal_strlit("LOBBY");
        }
        assert(text_width(5, 4) == 180);
        draw_string(fb, 50, 40, "LOBBY", colors::TITLE, 4);
        let ghost f2 = *fb;
        let ghost r2 = text_rule(50, 40, "LOBBY"@, colors::TITLE, 4);
        proof {
            lemma_repainted_compose(f0, f1, f2, r1, r2);
        }
        let count = format_player_count(self.players.len());
        proof {
            reveal_strlit("PLAYERS: ");
            assert(digits_within(self.players@.len(), 7).len() <= 7);
        }
        assert(count@.len() <= 16);
        proof {
            lemma_text_width_mono(count@.len() as int, 16, 3);
        }
        draw_chars(fb, 50, 100, &count, colors::WHITE, 3);
        let ghost f3 = *fb;
        let ghost r3 = text_rule(50, 100, player_count_text(self.players@.len()), colors::WHITE, 3);
        proof {
            lemma_repainted_compose(f0, f2, f3, overlay(r1, r2), r3);
        }
        self.player_list.draw(fb, &self.players);
        let ghost f4 = *fb;
        let ghost r4 = self.player_list.rule(self.players@);
        proof {
            lemma_repainted_compose(f0, f3, f4, overlay(overlay(r1, r2), r3), r4);
        }
        self.draw_status(fb);
        let ghost f5 = *fb;
        proof {
            lemma_repainted_compose(f0, f4, f5, overlay(overlay(overlay(r1, r2), r3), r4), self.status_rule());
        }
        self.draw_ready_button(fb);
        let ghost f6 = *fb;
        let ghost upto = overlay(overlay(overlay(overlay(r1, r2), r3), r4), self.status_rule());
        proof {
            lemma_repainted_compose(f0, f5, f6, upto, self.button_rule());
        }
        let footer = chars_of("ENTER: READY/UNREADY   ESC: LEAVE");
        proof {
            reveal_strlit("ENTER: READY/UNREADY   ESC: LEAVE");
            crate::graphics::framebuffer::lemma_width_bound(f6);
        }
        assert(text_width(footer@.len() as int, 2) == 594);
        draw_chars_centered(fb, fb_height - 40, &footer, colors::SUBTITLE, 2);
        proof {
            lemma_repainted_compose(f0, f6, *fb, overlay(upto, self.button_rule()),
                text_rule(centered_x(f6.width as int, text_width(lobby_footer().len() as int, 2)), fb_height - 40,
                    lobby_footer(), colors::SUBTITLE, 2));
        }
    }

    /// Draw the status panel.
    fn draw_status(&self, fb: &mut Framebuffer)
        requires
            old(fb).wf(),
        ensures
            final(fb).wf(),
            repainted(*old(fb), *final(fb), self.status_rule()),
    {
        let ghost f0 = *fb;
        draw_panel_raw(fb, 500, 150, 350, 300, colors::PANEL_BG);
        let ghost f1 = *fb;
        let ghost r1 = bordered_box(500, 150, 350, 300, 2, colors::PANEL_BG, colors::PANEL_BORDER);
        let ready = self.ready_count();
        let line = format_ready_count(ready, self.players.len());
        proof {
            reveal_strlit("READY: ");
            reveal_strlit("/");
            lemma_decimal_len(ready as nat);
            assert(digits_within(self.players@.len(), 24 - decimal(ready as nat).len()).len() <= 24);
        }
        assert(line@.len() <= 32);
        proof {
            lemma_text_width_mono(line@.len() as int, 32, 2);
        }
        draw_chars(fb, 520, 170, &line, colors::WHITE, 2);
        let ghost f2 = *fb;
        let ghost r2 = text_rule(520, 170, ready_text(count_ready(self.players@), self.players@.len()), colors::WHITE, 2);
        proof {
            lemma_repainted_compose(f0, f1, f2, r1, r2);
        }
        if self.countdown_active {
            proof {
                reveal_strlit("STARTING IN:");
            }
            assert(text_width(12, 2) == 216);
            draw_string(fb, 520, 210, "STARTING IN:", colors::FN_YELLOW, 2);
            let ghost f3 = *fb;
            let ghost r3 = text_rule(520, 210, "STARTING IN:"@, colors::FN_YELLOW, 2);
            proof {
                lemma_repainted_compose(f0, f2, f3, overlay(r1, r2), r3);
                lemma_decimal_len(self.countdown_value as nat);
            }
            let num = format_number(self.countdown_value as u32);
            proof {
                lemma_text_width_mono(num@.len() as int, 3, 6);
            }
            draw_chars(fb, 600, 250, &num, colors::TITLE, 6);
            proof {
                lemma_repainted_compose(f0, f3, *fb, overlay(overlay(r1, r2), r3),
                    text_rule(600, 250, decimal(self.countdown_value as nat), colors::TITLE, 6));
            }
        } else {
            proof {
                reveal_strlit("WAITING FOR PLAYERS");
            }
            assert(text_width(19, 2) == 342);
            draw_string(fb, 520, 210, "WAITING FOR PLAYERS", colors::SUBTITLE, 2);
            let ghost f3 = *fb;
            let ghost r3 = text_rule(520, 210, "WAITING FOR PLAYERS"@, colors::SUBTITLE, 2);
            proof {
                lemma_repainted_compose(f0, f2, f3, overlay(r1, r2), r3);
                reveal_strlit("AUTO START: ");
                reveal_strlit("s");
                lemma_decimal_len(self.auto_start_timer as nat);
            }
            let timer = format_timer(self.auto_start_timer);
            assert(text_width(timer@.len() as int, 2) <= 16 * 18);
            draw_chars(fb, 520, 250, &timer, colors::SUBTITLE, 2);
            proof {
                lemma_repainted_compose(f0, f3, *fb, overlay(overlay(r1, r2), r3),
                    text_rule(520, 250, timer_text(self.auto_start_timer as nat), colors::SUBTITLE, 2));
            }
        }
    }

    /// Draw the ready button.
    fn draw_ready_button(&self, fb: &mut Framebuffer)
        requires
            old(fb).wf(),
        ensures
            final(fb).wf(),
            repainted(*old(fb), *final(fb), self.button_rule()),
    {
        let color = if self.local_ready { colors::READY } else { colors::BUTTON_NORMAL };
        let ghost f0 = *fb;
        fill_bordered_box(fb, 525, 370, 300, 60, 1, color, colors::PANEL_BORDER);
        let ghost f1 = *fb;
        proof {
            reveal_strlit("READY!");
            reveal_strlit("PRESS ENTER");
        }
        let text = if self.local_ready { chars_of("READY!") } else { chars_of("PRESS ENTER") };
        assert(text@ == self.button_text());
        let w = string_width(&text, 2);
        draw_chars(fb, 525 + (300 - w) / 2, 392, &text, colors::WHITE, 2);
        proof {
            lemma_repainted_compose(f0, f1, *fb, bordered_box(525, 370, 300, 60, 1, color, colors::PANEL_BORDER),
                text_rule(525 + (300 - text_width(self.button_text().len() as int, 2)) / 2, 392,
                    self.button_text(), colors::WHITE, 2));
        }
    }
}

/// Player count line: "PLAYERS: " and the count (its last seven digits).
pub open spec fn player_count_text(count: nat) -> Seq<char> {
    "PLAYERS: "@ + digits_within(count, 7)
}

/// Ready line: "READY: ", the ready count, "/", and the player count (as many
/// of its last digits as fit in 32 characters).
pub open spec fn ready_text(ready: nat, total: nat) -> Seq<char> {
    "READY: "@ + decimal(ready) + "/"@ + digits_within(total, 24 - decimal(ready).len())
}

/// Auto-start line: "AUTO START: ", the seconds, "s".
pub open spec fn timer_text(seconds: nat) -> Seq<char> {
    "AUTO START: "@ + decimal(seconds) + "s"@
}

/// Player count line: "PLAYERS: " and the count (its last seven digits).
pub fn format_player_count(count: usize) -> (r: Vec<char>)
    ensures
        r@ == player_count_text(count as nat),
{
    proof {
        reveal_strlit("PLAYERS: ");
    }
    let mut out: Vec<char> = Vec::new();
    push_text_capped(&mut out, "PLAYERS: ", 16);
    assert("PLAYERS: "@.take(9) =~= "PLAYERS: "@);
    write_number(&mut out, count as u64, 16);
    out
}

/// Ready line: "READY: ", the ready count, "/", the player count.
pub fn format_ready_count(ready: usize, total: usize) -> (r: Vec<char>)
    ensures
        r@ == ready_text(ready as nat, total as nat),
{
    proof {
        reveal_strlit("READY: ");
        reveal_strlit("/");
        lemma_decimal_len(ready as nat);
    }
    let mut out: Vec<char> = Vec::new();
    push_text_capped(&mut out, "READY: ", 32);
    assert("READY: "@.take(7) =~= "READY: "@);
    write_number(&mut out, ready as u64, 32);
    out.push('/');
    write_number(&mut out, total as u64, 32);
    assert(out@ =~= "READY: "@ + decimal(ready as nat) + "/"@ + digits_within(total as nat, 24 - decimal(ready as nat).len()));
    out
}

/// Auto-start line: "AUTO START: ", the seconds, "s".
pub fn format_timer(seconds: u8) -> (r: Vec<char>)
    ensures
        r@ == timer_text(seconds as nat),
{
    proof {
        reveal_strlit("AUTO START: ");
        reveal_strlit("s");
        lemma_decimal_len(seconds as nat);
    }
    let mut out: Vec<char> = Vec::new();
    push_text_capped(&mut out, "AUTO START: ", 32);
    assert("AUTO START: "@.take(12) =~= "AUTO START: "@);
    write_number(&mut out, seconds as u64, 32);
    out.push('s');
    assert(out@ =~= "AUTO START: "@ + decimal(seconds as nat) + "s"@);
    out
}

} // verus!
