//! Scrollable player list and the kill feed.

use vstd::prelude::*;
use vstd::string::StringSliceAdditionalSpecFns;
use crate::graphics::font::{
    decimal, digits_within, write_number, lemma_decimal_len, text_rule, text_width, draw_chars, draw_string,
    format_number, string_width, lemma_text_width_mono,
};
use crate::graphics::framebuffer::{
    Framebuffer, repainted, overlay, solid_rect, fill_span_rect, paint_rect, within, no_paint,
    lemma_repainted_same_rule, lemma_repainted_compose, lemma_repainted_nothing,
};
use crate::ui::menu::LobbyPlayer;
use super::colors;
use super::panel::{bordered_box, draw_panel_raw, round_dot_rule, draw_round_dot};

verus! {

/// Height of one player row, in pixels.
pub const ITEM_HEIGHT: usize = 40;

/// A scrollable player list for the lobby.
#[derive(Debug, Clone, Copy, PartialEq, Eq, Structural)]
pub struct PlayerList {
    pub x: usize,
    pub y: usize,
    pub width: usize,
    pub height: usize,
    pub scroll_offset: usize,
    pub items_per_page: usize,
}

impl PlayerList {
    /// A list at (x, y) of the given size, scrolled to the top; a page holds as
    /// many 40-pixel rows as fit below the 20-pixel header.
    pub fn new(x: usize, y: usize, width: usize, height: usize) -> (r: Self)
        requires
            height >= 20,
        ensures
            r == (PlayerList { x, y, width, height, scroll_offset: 0, items_per_page: ((height - 20) / 40) as usize }),
    {
        let items_per_page = (height - 20) / ITEM_HEIGHT;
        PlayerList { x, y, width, height, scroll_offset: 0, items_per_page }
    }

    /// The list scrolled one row up (stopping at the top).
    pub open spec fn scrolled_up(self) -> PlayerList {
        PlayerList { scroll_offset: if self.scroll_offset > 0 { (self.scroll_offset - 1) as usize } else { 0 }, ..self }
    }

    /// The list scrolled one row down when rows of the `total` remain below the page.
    pub open spec fn scrolled_down(self, total: int) -> PlayerList {
        PlayerList {
            scroll_offset: if self.scroll_offset + self.items_per_page < total {
                (self.scroll_offset + 1) as usize
            } else {
                self.scroll_offset
            },
            ..self
        }
    }

    /// Scroll one row up, stopping at the top.
    pub fn scroll_up(&mut self)
        ensures
            *final(self) == old(self).scrolled_up(),
    {
        if self.scroll_offset > 0 {
            self.scroll_offset = self.scroll_offset - 1;
        }
    }

    /// Scroll one row down while rows of the `total_items` remain below the page.
    pub fn scroll_down(&mut self, total_items: usize)
        requires
            old(self).scroll_offset + old(self).items_per_page <= usize::MAX,
        ensures
            *final(self) == old(self).scrolled_down(total_items as int),
    {
        if self.scroll_offset + self.items_per_page < total_items {
            self.scroll_offset = self.scroll_offset + 1;
        }
    }
}

/// Text of the list's count: the number of players and "/100".
pub open spec fn count_text(total: nat) -> Seq<char> {
    decimal(total) + seq!['/', '1', '0', '0']
}

impl PlayerList {
    /// Number of rows drawn for `total` players: rows of the page that exist
    /// and whose 40 pixels end within the list.
    pub open spec fn shown_rows(self, total: int) -> int {
        let avail = if total > self.scroll_offset { total - self.scroll_offset } else { 0 };
        let fit = if self.height >= 80 { (self.height - 80) / 40 + 1 } else { 0 };
        let m = if self.items_per_page < avail { self.items_per_page as int } else { avail };
        if m < fit { m } else { fit }
    }

    /// Rule of one player row whose top is `row_y`: the ready dot, the name,
    /// a `#` and the player's number (its id plus one).
    pub open spec fn row_rule(self, player: LobbyPlayer, row_y: int) -> spec_fn(int, int) -> Option<u32> {
        overlay(
            overlay(
                overlay(
                    round_dot_rule(self.x + 10, row_y + 12, 8, 16, if player.ready { colors::READY } else { colors::NOT_READY }),
                    text_rule(self.x + 28, row_y + 8, player.name@, colors::WHITE, 2)),
                text_rule(self.x + self.width - 40, row_y + 8, seq!['#'], colors::SUBTITLE, 2)),
            text_rule(self.x + self.width - 20, row_y + 8, decimal((player.id + 1) as nat), colors::SUBTITLE, 2))
    }

    /// Rule of the first `n` rows of the page, drawn in order.
    pub open spec fn rows_rule(self, players: Seq<LobbyPlayer>, n: int) -> spec_fn(int, int) -> Option<u32>
        decreases n,
    {
        if n <= 0 {
            no_paint()
        } else {
            overlay(
                self.rows_rule(players, n - 1),
                self.row_rule(players[self.scroll_offset + n - 1], self.y + 40 * n))
        }
    }

    /// Rule of the whole list: the panel, the "PLAYERS" header, the count at the
    /// right, a divider, the rows of the page, and the scroll marks.
    pub open spec fn rule(self, players: Seq<LobbyPlayer>) -> spec_fn(int, int) -> Option<u32> {
        let n = players.len() as int;
        let cnt = count_text(players.len());
        let right = self.x + self.width;
        let body = overlay(
            overlay(
                overlay(
                    overlay(
                        bordered_box(self.x as int, self.y as int, self.width as int, self.height as int, 2,
                            colors::PANEL_BG, colors::PANEL_BORDER),
                        text_rule(self.x + 10, self.y + 8, seq!['P', 'L', 'A', 'Y', 'E', 'R', 'S'], colors::SUBTITLE, 2)),
                    text_rule(right - text_width(cnt.len() as int, 2) - 10, self.y + 8, cnt, colors::WHITE, 2)),
                solid_rect(self.x + 4, self.y + 32, right - 4, self.y + 33, colors::PANEL_BORDER)),
            self.rows_rule(players, self.shown_rows(n)));
        let up = if self.scroll_offset > 0 {
            overlay(body, text_rule(right - 20, self.y + 40, seq!['^'], colors::WHITE, 1))
        } else {
            body
        };
        if self.scroll_offset + self.items_per_page < n {
            overlay(up, text_rule(right - 20, self.y + self.height - 20, seq!['V'], colors::WHITE, 1))
        } else {
            up
        }
    }

    /// Every name fits the coordinate range when drawn in its row.
    pub open spec fn names_fit(self, players: Seq<LobbyPlayer>) -> bool {
        forall|i: int| 0 <= i < players.len() ==>
            self.x + 28 + text_width(#[trigger] players[i].name@.len() as int, 2) <= usize::MAX
    }

    /// The list can be drawn with `players`: its coordinates leave room for the
    /// text, the count has at most twelve digits and fits left of the right
    /// edge, and the bottom scroll mark lies on the list.
    pub open spec fn drawable(self, players: Seq<LobbyPlayer>) -> bool {
        &&& self.x + self.width + 200 <= usize::MAX
        &&& self.y + self.height + 80 <= usize::MAX
        &&& self.scroll_offset + self.items_per_page <= usize::MAX
        &&& decimal(players.len()).len() <= 12
        &&& self.x + self.width >= text_width(count_text(players.len()).len() as int, 2) + 10
        &&& self.scroll_offset + self.items_per_page < players.len() ==> self.y + self.height >= 20
        &&& self.names_fit(players)
    }

    /// Draw the list with the page of `players` it is scrolled to.
    pub fn draw(&self, fb: &mut Framebuffer, players: &Vec<LobbyPlayer>)
        requires
            old(fb).wf(),
            self.drawable(players@),
        ensures
            final(fb).wf(),
            repainted(*old(fb), *final(fb), self.rule(players@)),
    {
        let ghost n = players@.len() as int;
        let ghost cnt_spec = count_text(players@.len());
        let right = self.x + self.width;
        let ghost f0 = *fb;
        draw_panel_raw(fb, self.x, self.y, self.width, self.height, colors::PANEL_BG);
        let ghost f1 = *fb;
        proof {
            reveal_strlit("PLAYERS");
        }
        assert(text_width(7, 2) == 126);
        draw_string(fb, self.x + 10, self.y + 8, "PLAYERS", colors::SUBTITLE, 2);
        let ghost f2 = *fb;
        let ghost r1 = bordered_box(self.x as int, self.y as int, self.width as int, self.height as int, 2,
            colors::PANEL_BG, colors::PANEL_BORDER);
        let ghost r2 = text_rule(self.x + 10, self.y + 8, seq!['P', 'L', 'A', 'Y', 'E', 'R', 'S'], colors::SUBTITLE, 2);
        proof {
            assert("PLAYERS"@ =~= seq!['P', 'L', 'A', 'Y', 'E', 'R', 'S']);
            lemma_repainted_compose(f0, f1, f2, r1, r2);
        }
        let count = format_player_count(players.len());
        proof {
            reveal_strlit("/100");
            assert(count@ =~= cnt_spec);
        }
        let count_width = string_width(&count, 2);
        draw_chars(fb, right - count_width - 10, self.y + 8, &count, colors::WHITE, 2);
        let ghost f3 = *fb;
        let ghost r3 = text_rule(right - text_width(cnt_spec.len() as int, 2) - 10, self.y + 8, cnt_spec, colors::WHITE, 2);
        proof {
            lemma_repainted_compose(f0, f2, f3, overlay(r1, r2), r3);
        }
        fill_span_rect(fb, self.x + 4, self.y + 32, right - 4, self.y + 33, colors::PANEL_BORDER);
        let ghost f4 = *fb;
        let ghost r4 = solid_rect(self.x + 4, self.y + 32, right - 4, self.y + 33, colors::PANEL_BORDER);
        proof {
            lemma_repainted_compose(f0, f3, f4, overlay(overlay(r1, r2), r3), r4);
        }
        let ghost head = overlay(overlay(overlay(r1, r2), r3), r4);
        let total = players.len();
        let avail = if total > self.scroll_offset { total - self.scroll_offset } else { 0 };
        let fit = if self.height >= 80 { (self.height - 80) / ITEM_HEIGHT + 1 } else { 0 };
        let m = if self.items_per_page < avail { self.items_per_page } else { avail };
        let shown = if m < fit { m } else { fit };
        assert(shown == self.shown_rows(n));
        proof {
            lemma_repainted_nothing(*fb);
            lemma_decimal_len(players@.len());
            assert(count_text(players@.len()).len() == decimal(players@.len()).len() + 4);
            let cl = count_text(players@.len()).len() as int;
            assert(cl >= 5);
            assert(cl * (9 * 2) >= 90) by (nonlinear_arith) requires cl >= 5;
        }
        let ghost rows_start = *fb;
        let mut k: usize = 0;
        while k < shown
            invariant
                fb.wf(),
                k <= shown,
                shown == self.shown_rows(n),
                n == players@.len(),
                self.x + self.width + 200 <= usize::MAX,
                self.x + self.width >= 40,
                self.y + self.height + 80 <= usize::MAX,
                shown == 0 || self.scroll_offset + shown <= total,
                total == n,
                self.names_fit(players@),
                repainted(rows_start, *fb, self.rows_rule(players@, k as int)),
            decreases shown - k,
        {
            proof {
                lemma_row_fits(k as int, self.height as int);
            }
            let row_y = self.y + 40 + k * ITEM_HEIGHT;
            let ghost before = *fb;
            self.draw_player_row(fb, &players[self.scroll_offset + k], row_y);
            proof {
                assert(row_y == self.y + 40 * (k + 1));
                lemma_repainted_compose(rows_start, before, *fb, self.rows_rule(players@, k as int),
                    self.row_rule(players@[self.scroll_offset + k], row_y as int));
            }
            k += 1;
        }
        let ghost f5 = *fb;
        proof {
            lemma_repainted_compose(f0, f4, f5, head, self.rows_rule(players@, shown as int));
            reveal_strlit("^");
            reveal_strlit("V");
        }
        let ghost body = overlay(head, self.rows_rule(players@, shown as int));
        assert(text_width(1, 1) == 9);
        if self.scroll_offset > 0 {
            draw_string(fb, right - 20, self.y + 40, "^", colors::WHITE, 1);
            proof {
                assert("^"@ =~= seq!['^']);
                lemma_repainted_compose(f0, f5, *fb, body, text_rule(right - 20, self.y + 40, seq!['^'], colors::WHITE, 1));
            }
        }
        let ghost f6 = *fb;
        let ghost up = if self.scroll_offset > 0 {
            overlay(body, text_rule(right - 20, self.y + 40, seq!['^'], colors::WHITE, 1))
        } else {
            body
        };
        let visible_end = if self.scroll_offset + self.items_per_page < total { self.scroll_offset + self.items_per_page } else { total };
        if visible_end < total {
            draw_string(fb, right - 20, self.y + self.height - 20, "V", colors::WHITE, 1);
            proof {
                assert("V"@ =~= seq!['V']);
                lemma_repainted_compose(f0, f6, *fb, up,
                    text_rule(right - 20, self.y + self.height - 20, seq!['V'], colors::WHITE, 1));
            }
        }
    }

    /// Draw one player row whose top is `row_y`.
    fn draw_player_row(&self, fb: &mut Framebuffer, player: &LobbyPlayer, row_y: usize)
        requires
            old(fb).wf(),
            self.x + self.width + 100 <= usize::MAX,
            row_y + 40 <= usize::MAX,
            self.x + self.width >= 40,
            self.x + 28 + text_width(player.name@.len() as int, 2) <= usize::MAX,
        ensures
            final(fb).wf(),
            repainted(*old(fb), *final(fb), self.row_rule(*player, row_y as int)),
    {
        let color = if player.ready { colors::READY } else { colors::NOT_READY };
        let dot_x = self.x + 10;
        let dot_y = row_y + 12;
        let ghost dot = round_dot_rule(dot_x as int, dot_y as int, 8, 16, color);
        let ghost f0 = *fb;
        draw_round_dot(fb, dot_x, dot_y, 8, 16, color);
        let ghost f1 = *fb;
        draw_chars(fb, dot_x + 18, row_y + 8, &player.name, colors::WHITE, 2);
        let ghost f2 = *fb;
        let ghost r2 = text_rule(self.x + 28, row_y + 8, player.name@, colors::WHITE, 2);
        proof {
            lemma_repainted_compose(f0, f1, f2, dot, r2);
            reveal_strlit("#");
        }
        assert(text_width(1, 2) == 18);
        draw_string(fb, self.x + self.width - 40, row_y + 8, "#", colors::SUBTITLE, 2);
        let ghost f3 = *fb;
        let ghost r3 = text_rule(self.x + self.width - 40, row_y + 8, seq!['#'], colors::SUBTITLE, 2);
        proof {
            assert("#"@ =~= seq!['#']);
            lemma_repainted_compose(f0, f2, f3, overlay(dot, r2), r3);
            lemma_decimal_len((player.id + 1) as nat);
        }
        let id_text = format_number(player.id as u32 + 1);
        assert(id_text@.len() <= 5);
        assert(text_width(id_text@.len() as int, 2) <= 90);
        draw_chars(fb, self.x + self.width - 20, row_y + 8, &id_text, colors::SUBTITLE, 2);
        proof {
            lemma_repainted_compose(f0, f3, *fb, overlay(overlay(dot, r2), r3),
                text_rule(self.x + self.width - 20, row_y + 8, decimal((player.id + 1) as nat), colors::SUBTITLE, 2));
        }
    }
}

/// Row `k` of a list `height` pixels tall ends within the list when `k` is
/// below the number of rows that fit.
proof fn lemma_row_fits(k: int, height: int)
    requires
        0 <= k,
        height >= 80 ==> k < (height - 80) / 40 + 1,
        height < 80 ==> k < 0,
    ensures
        40 + 40 * k + 40 <= height,
{
    assert(40 * k <= height - 80) by (nonlinear_arith)
        requires
            0 <= k,
            k < (height - 80) / 40 + 1,
            height >= 80,
    ;
}

/// Scrolling down and then up returns to the same place whenever the list
/// could scroll down.
pub proof fn lemma_scroll_down_up(offset: usize, per_page: usize, total: usize)
    requires
        offset + per_page < total,
        offset + per_page <= usize::MAX,
    ensures
        ((offset + 1) as usize) > 0,
        (((offset + 1) as usize) - 1) as usize == offset,
{
}

/// A kill feed entry: NUL-padded names, headshot flag, time of the kill (ms).
#[derive(Debug, Clone, Copy)]
pub struct KillFeedEntry {
    pub killer: [u8; 16],
    pub victim: [u8; 16],
    pub headshot: bool,
    pub timestamp: u32,
}

/// Number of entries the kill feed keeps.
pub const KILL_FEED_LEN: usize = 5;

/// The first 16 bytes of a name, padded with zeros.
pub open spec fn name_field(bytes: Seq<u8>) -> Seq<u8> {
    Seq::new(16, |i: int| if i < bytes.len() { bytes[i] } else { 0u8 })
}

/// Kill feed: the five most recent kills, newest first.
pub struct KillFeed {
    pub entries: [Option<KillFeedEntry>; 5],
    pub count: usize,
}

impl KillFeed {
    /// No entries.
    pub fn new() -> (r: Self)
        ensures
            forall|i: int| 0 <= i < KILL_FEED_LEN ==> r.entries@[i] is None,
            r.count == 0,
    {
        KillFeed { entries: [None, None, None, None, None], count: 0 }
    }

    /// Record a kill at the top; the oldest entry drops off the bottom.
    pub fn add(&mut self, killer: &str, victim: &str, headshot: bool, timestamp: u32)
        requires
            old(self).count < usize::MAX,
        ensures
            final(self).entries@[0] == Some(KillFeedEntry {
                killer: final(self).entries@[0]->0.killer,
                victim: final(self).entries@[0]->0.victim,
                headshot,
                timestamp,
            }),
            final(self).entries@[0]->0.killer@ == name_field(killer.spec_bytes()),
            final(self).entries@[0]->0.victim@ == name_field(victim.spec_bytes()),
            forall|i: int| 1 <= i < KILL_FEED_LEN ==> final(self).entries@[i] == old(self).entries@[i - 1],
            final(self).count == if old(self).count + 1 < KILL_FEED_LEN { old(self).count + 1 } else { KILL_FEED_LEN as int },
    {
        let ghost before = self.entries@;
        let mut i: usize = 4;
        while i > 0
            invariant
                i <= 4,
                self.count == old(self).count,
                self.count < usize::MAX,
                before == old(self).entries@,
                forall|j: int| 0 <= j < i ==> self.entries@[j] == before[j],
                forall|j: int| i < j < 5 ==> self.entries@[j] == before[j - 1],
            decreases i,
        {
            self.entries[i] = self.entries[i - 1];
            self.entries[i - 1] = None;
            i = i - 1;
        }
        let killer_bytes = killer.as_bytes_vec();
        let victim_bytes = victim.as_bytes_vec();
        let killer_buf = name_bytes(&killer_bytes);
        let victim_buf = name_bytes(&victim_bytes);
        self.entries[0] = Some(KillFeedEntry { killer: killer_buf, victim: victim_buf, headshot, timestamp });
        self.count = if self.count + 1 < KILL_FEED_LEN { self.count + 1 } else { KILL_FEED_LEN };
    }
}

/// Position of the first zero byte of `s` (its length when there is none).
pub open spec fn zero_index(s: Seq<u8>) -> int
    decreases s.len(),
{
    if s.len() == 0 {
        0
    } else if s[0] == 0 {
        0
    } else {
        1 + zero_index(s.drop_first())
    }
}

/// Text of a zero-padded name: its bytes up to the first zero read as UTF-8,
/// or "???" when they are not valid UTF-8.
pub open spec fn entry_text(name: Seq<u8>) -> Seq<char> {
    let b = name.take(zero_index(name));
    if vstd::utf8::valid_utf8(b) { vstd::utf8::decode_utf8(b) } else { "???"@ }
}

/// `core::str::from_utf8`: the bytes as a string slice when they are valid
/// UTF-8, nothing otherwise. Claimed: the result is present exactly for valid
/// UTF-8 and then holds the same bytes.
#[verifier::external_body]
pub(crate) fn str_from_utf8(bytes: &[u8]) -> (r: Option<&str>)
    ensures
        r is Some <==> vstd::utf8::valid_utf8(bytes@),
        r matches Some(s) ==> s.spec_bytes() == bytes@,
{
    core::str::from_utf8(bytes).ok()
}

/// The name held in a zero-padded entry field.
fn entry_name_str(name: &[u8; 16]) -> (r: &str)
    ensures
        r@ == entry_text(name@),
{
    let bytes = name.as_slice();
    let mut end: usize = 0;
    assert(name@.skip(0) =~= name@);
    while end < 16 && bytes[end] != 0
        invariant
            end <= 16,
            bytes@ == name@,
            name@.len() == 16,
            zero_index(name@) == end + zero_index(name@.skip(end as int)),
        decreases 16 - end,
    {
        assert(name@.skip(end as int).drop_first() =~= name@.skip(end + 1));
        end += 1;
    }
    proof {
        if end < 16 {
            assert(name@.skip(end as int)[0] == 0);
        } else {
            assert(name@.skip(16).len() == 0);
        }
    }
    assert(zero_index(name@) == end);
    let prefix = &bytes[0..end];
    assert(prefix@ =~= name@.take(end as int));
    match str_from_utf8(prefix) {
        Some(text) => {
            proof {
                vstd::utf8::encode_utf8_decode_utf8(text@);
            }
            text
        },
        None => {
            proof {
                reveal_strlit("???");
            }
            "???"
        },
    }
}

impl KillFeed {
    /// Rule of the first `n` entries of `entries` drawn from row `y`: each
    /// entry younger than five seconds at `now` takes a 20-pixel line with the
    /// killer, a `>` (yellow for a headshot) and the victim.
    pub open spec fn lines_rule(entries: Seq<Option<KillFeedEntry>>, x: int, y: int, now: u32, n: int) -> spec_fn(int, int) -> Option<u32>
        decreases n,
    {
        if n <= 0 {
            no_paint()
        } else {
            let prev = Self::lines_rule(entries, x, y, now, n - 1);
            let row = y + 20 * Self::shown_before(entries, now, n - 1);
            match entries[n - 1] {
                Some(e) if now <= e.timestamp + 5000 => {
                    let killer = entry_text(e.killer@);
                    let ax = x + text_width(killer.len() as int, 1) + 5;
                    overlay(overlay(overlay(prev,
                        text_rule(x, row, killer, colors::WHITE, 1)),
                        text_rule(ax, row, seq!['>'], if e.headshot { colors::FN_YELLOW } else { colors::SUBTITLE }, 1)),
                        text_rule(ax + 15, row, entry_text(e.victim@), colors::HEALTH_LOW, 1))
                },
                _ => prev,
            }
        }
    }

    /// Number of the first `n` entries still shown at `now`.
    pub open spec fn shown_before(entries: Seq<Option<KillFeedEntry>>, now: u32, n: int) -> int
        decreases n,
    {
        if n <= 0 {
            0
        } else {
            Self::shown_before(entries, now, n - 1) + match entries[n - 1] {
                Some(e) => if now <= e.timestamp + 5000 { 1int } else { 0int },
                None => 0int,
            }
        }
    }

    /// Names fit the text limits and time stamps leave room for the five seconds.
    pub open spec fn drawable(self) -> bool {
        forall|i: int| 0 <= i < 5 ==> match #[trigger] self.entries@[i] {
            Some(e) => e.timestamp + 5000 <= u32::MAX,
            None => true,
        }
    }

    /// Draw the kill feed in the top-right corner as of `current_time` (ms).
    pub fn draw(&self, fb: &mut Framebuffer, fb_width: usize, current_time: u32)
        requires
            old(fb).wf(),
            300 <= fb_width <= 0x0100_0000,
            self.drawable(),
        ensures
            final(fb).wf(),
            repainted(*old(fb), *final(fb), Self::lines_rule(self.entries@, fb_width - 300, 50, current_time, 5)),
    {
        let x = fb_width - 300;
        let mut y: usize = 50;
        let ghost f0 = *fb;
        proof {
            lemma_repainted_nothing(f0);
        }
        let mut i: usize = 0;
        while i < 5
            invariant
                fb.wf(),
                i <= 5,
                x == fb_width - 300,
                x <= 0x0100_0000,
                self.drawable(),
                0 <= Self::shown_before(self.entries@, current_time, i as int) <= i,
                y == 50 + 20 * Self::shown_before(self.entries@, current_time, i as int),
                repainted(f0, *fb, Self::lines_rule(self.entries@, x as int, 50, current_time, i as int)),
            decreases 5 - i,
        {
            let ghost before = *fb;
            match &self.entries[i] {
                Some(e) => {
                    assert(self.entries@[i as int] == Some(*e));
                    if current_time <= e.timestamp + 5000 {
                        let killer = entry_name_str(&e.killer);
                        let victim = entry_name_str(&e.victim);
                        proof {
                            lemma_entry_text_len(e.killer@);
                            lemma_entry_text_len(e.victim@);
                            lemma_text_width_mono(killer@.len() as int, 16, 1);
                            lemma_text_width_mono(victim@.len() as int, 16, 1);
                        }
                        draw_string(fb, x, y, killer, colors::WHITE, 1);
                        let ghost f1 = *fb;
                        let arrow_x = x + string_width(&crate::graphics::font::chars_of(killer), 1) + 5;
                        let arrow_color = if e.headshot { colors::FN_YELLOW } else { colors::SUBTITLE };
                        proof {
                            reveal_strlit(">");
                            assert(">"@ =~= seq!['>']);
                        }
                        assert(text_width(1, 1) == 9);
                        draw_string(fb, arrow_x, y, ">", arrow_color, 1);
                        let ghost f2 = *fb;
                        draw_string(fb, arrow_x + 15, y, victim, colors::HEALTH_LOW, 1);
                        proof {
                            let r1 = text_rule(x as int, y as int, killer@, colors::WHITE, 1);
                            let r2 = text_rule(arrow_x as int, y as int, seq!['>'], arrow_color, 1);
                            lemma_repainted_compose(before, f1, f2, r1, r2);
                            lemma_repainted_compose(before, f2, *fb, overlay(r1, r2),
                                text_rule(arrow_x + 15, y as int, victim@, colors::HEALTH_LOW, 1));
                            lemma_repainted_compose(f0, before, *fb, Self::lines_rule(self.entries@, x as int, 50, current_time, i as int),
                                overlay(overlay(r1, r2), text_rule(arrow_x + 15, y as int, victim@, colors::HEALTH_LOW, 1)));
                        }
                        y = y + 20;
                    } else {
                        proof {
                            lemma_repainted_nothing(before);
                        }
                    }
                },
                None => {},
            }
            i += 1;
        }
    }
}

/// A zero-padded 16-byte name reads as at most 16 characters.
proof fn lemma_entry_text_len(name: Seq<u8>)
    requires
        name.len() == 16,
    ensures
        entry_text(name).len() <= 16,
{
    reveal_strlit("???");
    lemma_zero_index_bound(name);
    let b = name.take(zero_index(name));
    if vstd::utf8::valid_utf8(b) {
        lemma_decode_len(b);
    }
}

/// The first zero byte lies within the sequence (or at its end).
proof fn lemma_zero_index_bound(s: Seq<u8>)
    ensures
        0 <= zero_index(s) <= s.len(),
    decreases s.len(),
{
    if s.len() > 0 && s[0] != 0 {
        lemma_zero_index_bound(s.drop_first());
    }
}

/// Decoding UTF-8 gives at most one character per byte.
proof fn lemma_decode_len(b: Seq<u8>)
    requires
        vstd::utf8::valid_utf8(b),
    ensures
        vstd::utf8::decode_utf8(b).len() <= b.len(),
{
    vstd::utf8::decode_utf8_encode_utf8(b);
    lemma_encode_len(vstd::utf8::decode_utf8(b));
}

/// Encoding characters as UTF-8 takes at least one byte per character.
proof fn lemma_encode_len(c: Seq<char>)
    ensures
        vstd::utf8::encode_utf8(c).len() >= c.len(),
    decreases c.len(),
{
    if c.len() > 0 {
        lemma_encode_len(c.drop_first());
    }
}

/// The first 16 bytes, padded with zeros.
fn name_bytes(bytes: &Vec<u8>) -> (r: [u8; 16])
    ensures
        r@ == name_field(bytes@),
{
    let mut buf: [u8; 16] = [0u8; 16];
    let n = if bytes.len() < 16 { bytes.len() } else { 16 };
    let mut i: usize = 0;
    while i < n
        invariant
            n <= 16,
            n <= bytes@.len(),
            n == 16 || n == bytes@.len(),
            i <= n,
            buf@.len() == 16,
            forall|j: int| 0 <= j < i ==> buf@[j] == bytes@[j],
            forall|j: int| i <= j < 16 ==> buf@[j] == 0,
        decreases n - i,
    {
        buf[i] = bytes[i];
        i = i + 1;
    }
    assert(buf@ =~= name_field(bytes@));
    buf
}

/// Count line of the player list: the count and "/100" (the text has room for
/// sixteen characters, so counts of up to twelve digits).
pub fn format_player_count(count: usize) -> (r: Vec<char>)
    requires
        decimal(count as nat).len() <= 12,
    ensures
        r@ == decimal(count as nat) + "/100"@,
{
    proof {
        reveal_strlit("/100");
        lemma_decimal_len(count as nat);
    }
    let mut out: Vec<char> = Vec::new();
    write_number(&mut out, count as u64, 16);
    out.push('/');
    out.push('1');
    out.push('0');
    out.push('0');
    assert(out@ =~= decimal(count as nat) + "/100"@);
    out
}

} // verus!
