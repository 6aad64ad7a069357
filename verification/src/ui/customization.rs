//! Character customization screen: a list of categories whose values cycle
//! with Left and Right, edited in a local copy saved on leaving.

use vstd::prelude::*;
use crate::game_types::state::{
    CustomizationCategory, GameState, MenuAction, PlayerCustomization, category_at, category_max, next_value, prev_value,
};
use crate::graphics::framebuffer::{
    Framebuffer, repainted, solid_rect, overlay, no_paint, paint_rect, within, fill_span_rect, lemma_repainted_compose,
    lemma_repainted_same_rule, lemma_repainted_nothing, lemma_width_bound,
};
use crate::game_types::state::category_label;
use crate::graphics::font::{text_rule, text_width, centered_x, draw_chars_centered, draw_string, chars_of, lemma_text_width_mono};
use crate::graphics::ui::colors;
use crate::graphics::ui::panel::{
    bordered_box, rows_rule, draw_gradient_background_raw, draw_panel_raw, fill_rect_raw, round_dot_rule, draw_round_dot,
};

verus! {

/// Number of customization categories.
pub const CATEGORY_COUNT: usize = 8;

/// Customization screen state (the turning preview is kept by the renderer).
pub struct CustomizationScreen {
    pub selected_category: usize,
    pub local_customization: PlayerCustomization,
    pub fb_width: usize,
    pub fb_height: usize,
}

impl CustomizationScreen {
    /// The screen editing a copy of the player's look, first category selected.
    pub fn new(fb_width: usize, fb_height: usize, current: PlayerCustomization) -> (r: Self)
        ensures
            r == (CustomizationScreen { selected_category: 0, local_customization: current, fb_width, fb_height }),
    {
        CustomizationScreen { selected_category: 0, local_customization: current, fb_width, fb_height }
    }

    /// Take a fresh copy of the player's look.
    pub fn reload(&mut self, current: PlayerCustomization)
        ensures
            *final(self) == (CustomizationScreen { local_customization: current, ..*old(self) }),
    {
        self.local_customization = current;
    }

    /// Store the edited look as the player's look.
    pub fn save(&self, global: &mut PlayerCustomization)
        ensures
            *final(global) == self.local_customization,
    {
        *global = self.local_customization;
    }

    /// Up/Down move between categories (wrapping), Left/Right step the
    /// selected category's value (wrapping), Escape saves and returns to the
    /// party lobby.
    pub fn update(&mut self, action: MenuAction, global: &mut PlayerCustomization) -> (r: Option<GameState>)
        requires
            old(self).selected_category < CATEGORY_COUNT,
        ensures
            final(self).selected_category < CATEGORY_COUNT,
            final(self).fb_width == old(self).fb_width,
            final(self).fb_height == old(self).fb_height,
            ({
                let i = old(self).selected_category;
                let c = category_at(i as int);
                let look = old(self).local_customization;
                match action {
                    MenuAction::Up => r is None && *final(global) == *old(global) && final(self).local_customization == look
                        && final(self).selected_category == (if i == 0 { 7 } else { i - 1 }),
                    MenuAction::Down => r is None && *final(global) == *old(global) && final(self).local_customization == look
                        && final(self).selected_category == (i + 1) % 8,
                    MenuAction::Left => r is None && *final(global) == *old(global) && final(self).selected_category == i
                        && final(self).local_customization == look.with_value(c, prev_value(look.value_of(c), category_max(c))),
                    MenuAction::Right => r is None && *final(global) == *old(global) && final(self).selected_category == i
                        && final(self).local_customization == look.with_value(c, next_value(look.value_of(c), category_max(c))),
                    MenuAction::Back => r == Some(GameState::PartyLobby) && *final(global) == look
                        && final(self).selected_category == i && final(self).local_customization == look,
                    _ => r is None && *final(global) == *old(global) && final(self).selected_category == i
                        && final(self).local_customization == look,
                }
            }),
    {
        match action {
            MenuAction::Up => {
                if self.selected_category == 0 {
                    self.selected_category = CATEGORY_COUNT - 1;
                } else {
                    self.selected_category = self.selected_category - 1;
                }
            },
            MenuAction::Down => {
                self.selected_category = (self.selected_category + 1) % CATEGORY_COUNT;
            },
            MenuAction::Left => {
                let category = CustomizationCategory::from_index(self.selected_category);
                self.local_customization.prev(category);
            },
            MenuAction::Right => {
                let category = CustomizationCategory::from_index(self.selected_category);
                self.local_customization.next(category);
            },
            MenuAction::Back => {
                self.save(global);
                return Some(GameState::PartyLobby);
            },
            _ => {},
        }
        None
    }
}

/// One step of Bresenham's walk from the point (x, y) with error term `err`
/// toward (x1, y1), where `dx = |x1 - x0|`, `dy = -|y1 - y0|` and `sx`, `sy`
/// are the directions: the next point and error, or `None` where the walk ends.
pub open spec fn line_next(x: int, y: int, err: int, x1: int, y1: int, dx: int, dy: int, sx: int, sy: int) -> Option<(int, int, int)> {
    let e2 = 2 * err;
    if x == x1 && y == y1 {
        None
    } else if e2 >= dy && x == x1 {
        None
    } else {
        let nx = if e2 >= dy { x + sx } else { x };
        let nerr = if e2 >= dy { err + dy } else { err };
        if e2 <= dx && y == y1 {
            None
        } else if e2 <= dx {
            Some((nx, y + sy, nerr + dx))
        } else {
            Some((nx, y, nerr))
        }
    }
}

/// Whether the walk from (x, y, err) plots (px, py) within `fuel` points.
pub open spec fn line_hits(px: int, py: int, x: int, y: int, err: int, x1: int, y1: int, dx: int, dy: int, sx: int, sy: int, fuel: nat) -> bool
    decreases fuel,
{
    if fuel == 0 {
        false
    } else if px == x && py == y {
        true
    } else {
        match line_next(x, y, err, x1, y1, dx, dy, sx, sy) {
            Some(n) => line_hits(px, py, n.0, n.1, n.2, x1, y1, dx, dy, sx, sy, (fuel - 1) as nat),
            None => false,
        }
    }
}

/// `|a|`.
pub open spec fn abs_int(a: int) -> int {
    if a >= 0 { a } else { -a }
}

/// Rule of the line from (x0, y0) to (x1, y1) drawn by Bresenham's algorithm:
/// the points of the walk, which ends at (x1, y1).
pub open spec fn line_rule(x0: int, y0: int, x1: int, y1: int, color: u32) -> spec_fn(int, int) -> Option<u32> {
    let dx = abs_int(x1 - x0);
    let dy = -abs_int(y1 - y0);
    let sx = if x0 < x1 { 1int } else { -1int };
    let sy = if y0 < y1 { 1int } else { -1int };
    |px: int, py: int|
        if line_hits(px, py, x0, y0, dx + dy, x1, y1, dx, dy, sx, sy, (dx - dy + 1) as nat) { Some(color) } else { None }
}

/// Rule painting the points of `pts` with `color`.
pub open spec fn points_rule(pts: Set<(int, int)>, color: u32) -> spec_fn(int, int) -> Option<u32> {
    |px: int, py: int| if pts.contains((px, py)) { Some(color) } else { None }
}

/// Draw a line between two points with Bresenham's algorithm.
fn draw_line(fb: &mut Framebuffer, x0: usize, y0: usize, x1: usize, y1: usize, color: u32)
    requires
        old(fb).wf(),
        x0 <= 0x1000_0000,
        y0 <= 0x1000_0000,
        x1 <= 0x1000_0000,
        y1 <= 0x1000_0000,
    ensures
        final(fb).wf(),
        repainted(*old(fb), *final(fb), line_rule(x0 as int, y0 as int, x1 as int, y1 as int, color)),
{
    let ax0 = x0 as i64;
    let ay0 = y0 as i64;
    let ax1 = x1 as i64;
    let ay1 = y1 as i64;
    let dx: i64 = if ax1 >= ax0 { ax1 - ax0 } else { ax0 - ax1 };
    let dy: i64 = if ay1 >= ay0 { ay0 - ay1 } else { ay1 - ay0 };
    let sx: i64 = if x0 < x1 { 1 } else { -1 };
    let sy: i64 = if y0 < y1 { 1 } else { -1 };
    let mut err: i64 = dx + dy;
    let mut x: i64 = ax0;
    let mut y: i64 = ay0;
    let mut done = false;
    let ghost f0 = *fb;
    let ghost fuel0 = (dx - dy + 1) as nat;
    let ghost mut fuel: nat = fuel0;
    let ghost mut pts: Set<(int, int)> = Set::empty();
    proof {
        assert(points_rule(pts, color) =~= crate::graphics::framebuffer::no_paint());
        lemma_repainted_nothing(f0);
    }
    while !done
        invariant
            fb.wf(),
            dx == abs_int(x1 - x0),
            dy == -abs_int(y1 - y0),
            sx == (if x0 < x1 { 1int } else { -1int }),
            sy == (if y0 < y1 { 1int } else { -1int }),
            ax1 == x1,
            ay1 == y1,
            dx <= 0x1000_0000,
            dy >= -0x1000_0000,
            !done ==> {
                &&& 2 * dy <= err <= 2 * dx
                &&& (sx == 1 ==> x0 <= x <= x1) && (sx == -1 ==> x1 <= x <= x0)
                &&& (sy == 1 ==> y0 <= y <= y1) && (sy == -1 ==> y1 <= y <= y0)
                &&& fuel >= abs_int(x1 - x) + abs_int(y1 - y) + 1
            },
            forall|px: int, py: int|
                #[trigger] line_hits(px, py, x0 as int, y0 as int, dx + dy, x1 as int, y1 as int, dx as int, dy as int, sx as int, sy as int, fuel0)
                    == (pts.contains((px, py)) || (!done && line_hits(px, py, x as int, y as int, err as int, x1 as int, y1 as int,
                        dx as int, dy as int, sx as int, sy as int, fuel))),
            repainted(f0, *fb, points_rule(pts, color)),
        decreases
            if done { 0int } else { abs_int(x1 - x) + abs_int(y1 - y) + 1 },
    {
        let ghost before = *fb;
        fb.put_pixel(x as usize, y as usize, color);
        let ghost cur = (x as int, y as int);
        let ghost step = line_next(x as int, y as int, err as int, x1 as int, y1 as int, dx as int, dy as int, sx as int, sy as int);
        let ghost old_fuel = fuel;
        let ghost (ox, oy, oerr) = (x as int, y as int, err as int);
        proof {
            lemma_repainted_compose(f0, before, *fb, points_rule(pts, color),
                solid_rect(x as int, y as int, x + 1, y + 1, color));
            lemma_repainted_same_rule(f0, *fb,
                crate::graphics::framebuffer::overlay(points_rule(pts, color), solid_rect(x as int, y as int, x + 1, y + 1, color)),
                points_rule(pts.insert(cur), color));
            pts = pts.insert(cur);
        }
        let e2 = 2 * err;
        if x == ax1 && y == ay1 {
            done = true;
        } else if e2 >= dy && x == ax1 {
            done = true;
        } else {
            let nx = if e2 >= dy { x + sx } else { x };
            let nerr = if e2 >= dy { err + dy } else { err };
            if e2 <= dx && y == ay1 {
                done = true;
            } else {
                if e2 <= dx {
                    y = y + sy;
                    err = nerr + dx;
                } else {
                    err = nerr;
                }
                x = nx;
                proof {
                    fuel = (fuel - 1) as nat;
                }
            }
        }
        proof {
            assert forall|px: int, py: int|
                #[trigger] line_hits(px, py, x0 as int, y0 as int, dx + dy, x1 as int, y1 as int, dx as int, dy as int, sx as int, sy as int, fuel0)
                    == (pts.contains((px, py)) || (!done && line_hits(px, py, x as int, y as int, err as int, x1 as int, y1 as int,
                        dx as int, dy as int, sx as int, sy as int, fuel))) by {
                assert(line_hits(px, py, ox, oy, oerr, x1 as int, y1 as int, dx as int, dy as int, sx as int, sy as int, old_fuel)
                    == ((px == ox && py == oy) || (!done && line_hits(px, py, x as int, y as int, err as int, x1 as int, y1 as int,
                        dx as int, dy as int, sx as int, sy as int, fuel))));
            }
        }
    }
    proof {
        lemma_repainted_same_rule(f0, *fb, points_rule(pts, color), line_rule(x0 as int, y0 as int, x1 as int, y1 as int, color));
    }
}

/// Skin color shown in the preview.
pub open spec fn preview_skin(v: u8) -> u32 {
    let i = v % 3;
    if i == 0 { 0xFFDBB4 } else if i == 1 { 0xD4A574 } else { 0x8B5A2B }
}

/// Shirt color shown in the preview.
pub open spec fn preview_shirt(v: u8) -> u32 {
    let i = v % 4;
    if i == 0 { 0x3366CC } else if i == 1 { 0xCC3333 } else if i == 2 { 0x33CC33 } else { 0xEEEEEE }
}

/// Pants color shown in the preview.
pub open spec fn preview_pants(v: u8) -> u32 {
    let i = v % 3;
    if i == 0 { 0x2244AA } else if i == 1 { 0x333333 } else { 0x8B4513 }
}

/// Hair color shown in the preview.
pub open spec fn preview_hair(v: u8) -> u32 {
    let i = v % 4;
    if i == 0 { 0x2C2C2C } else if i == 1 { 0x654321 } else if i == 2 { 0xFFD700 } else { 0x8B4513 }
}

/// Height of the hair in 6-pixel units for a hair style.
pub open spec fn preview_hair_height(style: u8) -> int {
    if style == 0 { 1 } else if style == 1 { 2 } else if style == 2 { 3 } else { 0 }
}

/// Backpack color shown in the preview.
pub open spec fn preview_backpack(style: u8) -> u32 {
    if style == 1 { 0x556B2F } else if style == 2 { 0xD2B48C } else { 0x333333 }
}

/// Canopy color of a glider style.
pub open spec fn glider_main(style: u8) -> u32 {
    let i = style % 4;
    if i == 0 { 0xE53935 } else if i == 1 { 0x1E88E5 } else if i == 2 { 0x44AA44 } else { 0xFFAA00 }
}

/// Name of a glider style.
pub open spec fn glider_name(style: u8) -> Seq<char> {
    let i = style % 4;
    if i == 0 { "Red"@ } else if i == 1 { "Blue"@ } else if i == 2 { "Green"@ } else { "Orange"@ }
}

/// Rule of the glider preview at (x, y): its label, the canopy with a dark
/// cross, two strings down to the harness, the harness and the style's name.
pub open spec fn glider_rule(x: int, y: int, style: u8) -> spec_fn(int, int) -> Option<u32> {
    overlay(overlay(overlay(overlay(overlay(overlay(overlay(
        text_rule(x, y, "GLIDER:"@, colors::SUBTITLE, 1),
        solid_rect(x + 80, y + 10, x + 160, y + 40, glider_main(style))),
        solid_rect(x + 116, y + 10, x + 124, y + 40, 0x222222)),
        solid_rect(x + 80, y + 23, x + 160, y + 27, 0x222222)),
        line_rule(x + 85, y + 40, x + 115, y + 65, 0x888888)),
        line_rule(x + 155, y + 40, x + 125, y + 65, 0x888888)),
        solid_rect(x + 116, y + 65, x + 124, y + 71, 0x222222)),
        text_rule(x, y + 70, glider_name(style), colors::WHITE, 2))
}

/// Rule of the character preview centered at (cx, cy), drawn in 6-pixel
/// blocks: head, hair, torso, arms, legs, shoes and backpack.
pub open spec fn body_rule(cx: int, cy: int, c: PlayerCustomization) -> spec_fn(int, int) -> Option<u32> {
    let hh = preview_hair_height(c.hair_style);
    let shoe = if c.shoes_color == 0 { 0x222222u32 } else { 0x654321u32 };
    let bp = c.backpack_style as int * 6;
    let head = solid_rect(cx - 18, cy - 72, cx + 18, cy - 36, preview_skin(c.skin_tone));
    let hair = if hh > 0 { overlay(head, solid_rect(cx - 18, cy - 72 - hh * 6, cx + 18, cy - 72, preview_hair(c.hair_color))) } else { head };
    let body = overlay(overlay(overlay(overlay(overlay(overlay(overlay(hair,
        solid_rect(cx - 24, cy - 36, cx + 24, cy + 12, preview_shirt(c.shirt_color))),
        solid_rect(cx - 36, cy - 30, cx - 24, cy + 6, preview_shirt(c.shirt_color))),
        solid_rect(cx + 24, cy - 30, cx + 36, cy + 6, preview_shirt(c.shirt_color))),
        solid_rect(cx - 18, cy + 12, cx, cy + 60, preview_pants(c.pants_color))),
        solid_rect(cx, cy + 12, cx + 18, cy + 60, preview_pants(c.pants_color))),
        solid_rect(cx - 18, cy + 60, cx, cy + 72, shoe)),
        solid_rect(cx, cy + 60, cx + 18, cy + 72, shoe));
    if c.backpack_style > 0 {
        overlay(body, solid_rect(cx + 24, cy - 24, cx + 24 + bp, cy - 24 + bp + 6, preview_backpack(c.backpack_style)))
    } else {
        body
    }
}

/// Rule of the value dots of a category row: dot `i` of `n`, 20 pixels apart
/// from (x, y), is a larger yellow dot when `i` is the value.
pub open spec fn dots_rule(x: int, y: int, value: u8, n: int) -> spec_fn(int, int) -> Option<u32>
    decreases n,
{
    if n <= 0 {
        no_paint()
    } else {
        let i = n - 1;
        overlay(dots_rule(x, y, value, n - 1),
            round_dot_rule(x + 20 * i, y, 12, if i == value { 36 } else { 25 }, if i == value { colors::FN_YELLOW } else { colors::PANEL_BORDER }))
    }
}

impl CustomizationScreen {
    /// Rule of the 320 x 45 row of `category` at (x, y): background, label,
    /// one dot per value at the right, and a `>` left of a selected row.
    pub open spec fn category_rule(self, category: CustomizationCategory, x: int, y: int, selected: bool) -> spec_fn(int, int) -> Option<u32> {
        let max = category_max(category) as int;
        let base = overlay(overlay(
            solid_rect(x, y, x + 320, y + 45, if selected { colors::BUTTON_SELECTED } else { colors::BUTTON_NORMAL }),
            text_rule(x + 10, y + 14, category_label(category)@, colors::BUTTON_TEXT, 2)),
            dots_rule(x + 310 - 20 * (max + 1), y + 16, self.local_customization.value_of(category), max + 1));
        if selected { overlay(base, text_rule(x - 20, y + 14, seq!['>'], colors::FN_YELLOW, 2)) } else { base }
    }

    /// Rule of the first `n` category rows.
    pub open spec fn categories_rule(self, n: int) -> spec_fn(int, int) -> Option<u32>
        decreases n,
    {
        if n <= 0 {
            no_paint()
        } else {
            overlay(self.categories_rule(n - 1),
                self.category_rule(category_at(n - 1), 65, 115 + 55 * (n - 1), n - 1 == self.selected_category))
        }
    }

    /// Rule of the preview frame at (x, y), `width` x `height`: the character
    /// at its center, and the glider preview while Glider is selected.
    pub open spec fn preview_rule(self, x: int, y: int, width: int, height: int) -> spec_fn(int, int) -> Option<u32> {
        let body = body_rule(x + width / 2, y + height / 2, self.local_customization);
        if self.selected_category == 7 {
            overlay(body, glider_rule(x + 20, y + height - 120, self.local_customization.glider_style))
        } else {
            body
        }
    }

    /// Rule of the customization screen over the background rows `bg` on a
    /// screen `screen_w` pixels wide.
    pub open spec fn rule(self, bg: Seq<u32>, fb_width: int, fb_height: int, screen_w: int) -> spec_fn(int, int) -> Option<u32> {
        overlay(overlay(overlay(overlay(overlay(overlay(overlay(
            rows_rule(bg, fb_width, fb_height),
            text_rule(centered_x(screen_w, text_width(9, 4)), 40, "CUSTOMIZE"@, colors::TITLE, 4)),
            bordered_box(50, 100, 350, 500, 2, colors::PANEL_BG, colors::PANEL_BORDER)),
            self.categories_rule(8)),
            bordered_box(450, 100, 400, 500, 2, colors::PANEL_BG, colors::PANEL_BORDER)),
            text_rule(470, 115, "PREVIEW"@, colors::SUBTITLE, 2)),
            self.preview_rule(500, 160, 300, 400)),
            text_rule(centered_x(screen_w, text_width(34, 2)), fb_height - 50, "LEFT/RIGHT TO CHANGE. ESC TO SAVE."@, colors::SUBTITLE, 2))
    }

    /// Draw the customization screen over the gradient background rows `background`.
    pub fn draw(&self, fb: &mut Framebuffer, background: &Vec<u32>, fb_width: usize, fb_height: usize)
        requires
            old(fb).wf(),
            fb_height >= 50,
        ensures
            final(fb).wf(),
            repainted(*old(fb), *final(fb), self.rule(background@, fb_width as int, fb_height as int, old(fb).width as int)),
    {
        let ghost f0 = *fb;
        let ghost screen_w = f0.width as int;
        proof {
            lemma_width_bound(f0);
        }
        draw_gradient_background_raw(fb, background, fb_width, fb_height);
        let ghost f1 = *fb;
        let ghost r1 = rows_rule(background@, fb_width as int, fb_height as int);
        proof {
            reveal_strlit("CUSTOMIZE");
        }
        let title = chars_of("CUSTOMIZE");
        draw_chars_centered(fb, 40, &title, colors::TITLE, 4);
        let ghost f2 = *fb;
        let ghost r2 = text_rule(centered_x(screen_w, text_width(9, 4)), 40, "CUSTOMIZE"@, colors::TITLE, 4);
        proof {
            lemma_repainted_compose(f0, f1, f2, r1, r2);
        }
        draw_panel_raw(fb, 50, 100, 350, 500, colors::PANEL_BG);
        let ghost f3 = *fb;
        let ghost r3 = bordered_box(50, 100, 350, 500, 2, colors::PANEL_BG, colors::PANEL_BORDER);
        proof {
            lemma_repainted_compose(f0, f2, f3, overlay(r1, r2), r3);
            lemma_repainted_nothing(f3);
        }
        let mut i: usize = 0;
        while i < CATEGORY_COUNT
            invariant
                fb.wf(),
                i <= 8,
                repainted(f3, *fb, self.categories_rule(i as int)),
            decreases 8 - i,
        {
            let category = CustomizationCategory::from_index(i);
            let ghost before = *fb;
            self.draw_category_option(fb, 65, 115 + i * 55, category, i == self.selected_category);
            proof {
                lemma_repainted_compose(f3, before, *fb, self.categories_rule(i as int),
                    self.category_rule(category_at(i as int), 65, 115 + 55 * i, i == self.selected_category));
            }
            i += 1;
        }
        let ghost f4 = *fb;
        let ghost r4 = self.categories_rule(8);
        proof {
            lemma_repainted_compose(f0, f3, f4, overlay(overlay(r1, r2), r3), r4);
        }
        draw_panel_raw(fb, 450, 100, 400, 500, colors::PANEL_BG);
        let ghost f5 = *fb;
        let ghost r5 = bordered_box(450, 100, 400, 500, 2, colors::PANEL_BG, colors::PANEL_BORDER);
        proof {
            lemma_repainted_compose(f0, f4, f5, overlay(overlay(overlay(r1, r2), r3), r4), r5);
            reveal_strlit("PREVIEW");
        }
        assert(text_width(7, 2) == 126);
        draw_string(fb, 470, 115, "PREVIEW", colors::SUBTITLE, 2);
        let ghost f6 = *fb;
        let ghost r6 = text_rule(470, 115, "PREVIEW"@, colors::SUBTITLE, 2);
        proof {
            lemma_repainted_compose(f0, f5, f6, overlay(overlay(overlay(overlay(r1, r2), r3), r4), r5), r6);
        }
        self.draw_preview_frame(fb, 500, 160, 300, 400);
        let ghost f7 = *fb;
        let ghost r7 = self.preview_rule(500, 160, 300, 400);
        let ghost upto = overlay(overlay(overlay(overlay(overlay(r1, r2), r3), r4), r5), r6);
        proof {
            lemma_repainted_compose(f0, f6, f7, upto, r7);
            reveal_strlit("LEFT/RIGHT TO CHANGE. ESC TO SAVE.");
        }
        let footer = chars_of("LEFT/RIGHT TO CHANGE. ESC TO SAVE.");
        draw_chars_centered(fb, fb_height - 50, &footer, colors::SUBTITLE, 2);
        proof {
            lemma_repainted_compose(f0, f7, *fb, overlay(upto, r7),
                text_rule(centered_x(screen_w, text_width(34, 2)), fb_height - 50, "LEFT/RIGHT TO CHANGE. ESC TO SAVE."@, colors::SUBTITLE, 2));
        }
    }

    /// Draw the 320 x 45 row of `category` at (x, y).
    fn draw_category_option(&self, fb: &mut Framebuffer, x: usize, y: usize, category: CustomizationCategory, selected: bool)
        requires
            old(fb).wf(),
            20 <= x <= 10_000,
            y <= 10_000,
        ensures
            final(fb).wf(),
            repainted(*old(fb), *final(fb), self.category_rule(category, x as int, y as int, selected)),
    {
        let bg = if selected { colors::BUTTON_SELECTED } else { colors::BUTTON_NORMAL };
        let ghost f0 = *fb;
        fill_rect_raw(fb, x, y, 320, 45, bg);
        let ghost f1 = *fb;
        let ghost r1 = solid_rect(x as int, y as int, x + 320, y + 45, bg);
        let label = category.label();
        proof {
            reveal_strlit("SKIN TONE");
            reveal_strlit("HAIR STYLE");
            reveal_strlit("HAIR COLOR");
            reveal_strlit("SHIRT");
            reveal_strlit("PANTS");
            reveal_strlit("SHOES");
            reveal_strlit("BACKPACK");
            reveal_strlit("GLIDER");
            lemma_text_width_mono(label@.len() as int, 10, 2);
        }
        draw_string(fb, x + 10, y + 14, label, colors::BUTTON_TEXT, 2);
        let ghost f2 = *fb;
        let ghost r2 = text_rule(x + 10, y + 14, category_label(category)@, colors::BUTTON_TEXT, 2);
        proof {
            lemma_repainted_compose(f0, f1, f2, r1, r2);
        }
        let value = self.local_customization.get(category);
        let max = category.max_value();
        let dots_x = x + 310 - (max as usize + 1) * 20;
        let ghost dx0 = x + 310 - 20 * (max + 1);
        proof {
            lemma_repainted_nothing(f2);
        }
        let mut i: u8 = 0;
        while i <= max
            invariant
                fb.wf(),
                i <= max + 1,
                max <= 3,
                dots_x == dx0,
                dots_x <= 10_310,
                x <= 10_000,
                y <= 10_000,
                repainted(f2, *fb, dots_rule(dx0, y + 16, value, i as int)),
            decreases max + 1 - i,
        {
            let filled = i == value;
            let color = if filled { colors::FN_YELLOW } else { colors::PANEL_BORDER };
            let r2: i32 = if filled { 36 } else { 25 };
            let ghost before = *fb;
            draw_round_dot(fb, dots_x + i as usize * 20, y + 16, 12, r2, color);
            proof {
                lemma_repainted_compose(f2, before, *fb, dots_rule(dx0, y + 16, value, i as int),
                    round_dot_rule(dx0 + 20 * i, y + 16, 12, r2 as int, color));
            }
            i += 1;
        }
        let ghost f3 = *fb;
        proof {
            assert(value == self.local_customization.value_of(category));
            lemma_repainted_compose(f0, f2, f3, overlay(r1, r2), dots_rule(dx0, y + 16, value, max + 1));
        }
        if selected {
            proof {
                reveal_strlit(">");
                assert(">"@ =~= seq!['>']);
            }
            assert(text_width(1, 2) == 18);
            draw_string(fb, x - 20, y + 14, ">", colors::FN_YELLOW, 2);
            proof {
                lemma_repainted_compose(f0, f3, *fb, overlay(overlay(r1, r2), dots_rule(dx0, y + 16, value, max + 1)),
                    text_rule(x - 20, y + 14, seq!['>'], colors::FN_YELLOW, 2));
            }
        }
    }

    /// Draw the preview frame at (x, y), `width` x `height`.
    fn draw_preview_frame(&self, fb: &mut Framebuffer, x: usize, y: usize, width: usize, height: usize)
        requires
            old(fb).wf(),
            x + width / 2 >= 36,
            y + height / 2 >= 90,
            height >= 120,
            x + width <= 10_000,
            y + height <= 10_000,
        ensures
            final(fb).wf(),
            repainted(*old(fb), *final(fb), self.preview_rule(x as int, y as int, width as int, height as int)),
    {
        let c = self.local_customization;
        let cx = x + width / 2;
        let cy = y + height / 2;
        let ghost f0 = *fb;
        let ghost body = body_rule(cx as int, cy as int, c);
        self.draw_body(fb, cx, cy);
        if self.selected_category == 7 {
            let ghost f1 = *fb;
            draw_glider_preview(fb, x + 20, y + height - 120, c.glider_style);
            proof {
                lemma_repainted_compose(f0, f1, *fb, body, glider_rule(x + 20, y + height - 120, c.glider_style));
            }
        }
    }

    /// Draw the character preview centered at (cx, cy).
    #[verifier::rlimit(40)]
    fn draw_body(&self, fb: &mut Framebuffer, cx: usize, cy: usize)
        requires
            old(fb).wf(),
            36 <= cx <= 10_000,
            90 <= cy <= 10_000,
        ensures
            final(fb).wf(),
            repainted(*old(fb), *final(fb), body_rule(cx as int, cy as int, self.local_customization)),
    {
        let c = self.local_customization;
        let skin: u32 = match c.skin_tone % 3 { 0 => 0xFFDBB4, 1 => 0xD4A574, _ => 0x8B5A2B };
        let shirt: u32 = match c.shirt_color % 4 { 0 => 0x3366CC, 1 => 0xCC3333, 2 => 0x33CC33, _ => 0xEEEEEE };
        let pants: u32 = match c.pants_color % 3 { 0 => 0x2244AA, 1 => 0x333333, _ => 0x8B4513 };
        let hair: u32 = match c.hair_color % 4 { 0 => 0x2C2C2C, 1 => 0x654321, 2 => 0xFFD700, _ => 0x8B4513 };
        let ghost f0 = *fb;
        fill_rect_raw(fb, cx - 18, cy - 72, 36, 36, skin);
        let ghost head = solid_rect(cx - 18, cy - 72, cx + 18, cy - 36, preview_skin(c.skin_tone));
        let hair_height: usize = match c.hair_style { 0 => 1, 1 => 2, 2 => 3, _ => 0 };
        let ghost hair_rule = if hair_height > 0 {
            overlay(head, solid_rect(cx - 18, cy - 72 - hair_height * 6, cx + 18, cy - 72, preview_hair(c.hair_color)))
        } else {
            head
        };
        if hair_height > 0 {
            let ghost f1 = *fb;
            fill_rect_raw(fb, cx - 18, cy - 72 - hair_height * 6, 36, hair_height * 6, hair);
            proof {
                lemma_repainted_compose(f0, f1, *fb, head,
                    solid_rect(cx - 18, cy - 72 - hair_height * 6, cx + 18, cy - 72, preview_hair(c.hair_color)));
            }
        }
        let ghost f2 = *fb;
        fill_rect_raw(fb, cx - 24, cy - 36, 48, 48, shirt);
        let ghost f3 = *fb;
        let ghost a = solid_rect(cx - 24, cy - 36, cx + 24, cy + 12, shirt);
        proof { lemma_repainted_compose(f0, f2, f3, hair_rule, a); }
        fill_rect_raw(fb, cx - 36, cy - 30, 12, 36, shirt);
        let ghost f4 = *fb;
        let ghost b = solid_rect(cx - 36, cy - 30, cx - 24, cy + 6, shirt);
        proof { lemma_repainted_compose(f0, f3, f4, overlay(hair_rule, a), b); }
        fill_rect_raw(fb, cx + 24, cy - 30, 12, 36, shirt);
        let ghost f5 = *fb;
        let ghost d = solid_rect(cx + 24, cy - 30, cx + 36, cy + 6, shirt);
        proof { lemma_repainted_compose(f0, f4, f5, overlay(overlay(hair_rule, a), b), d); }
        fill_rect_raw(fb, cx - 18, cy + 12, 18, 48, pants);
        let ghost f6 = *fb;
        let ghost e = solid_rect(cx - 18, cy + 12, cx as int, cy + 60, pants);
        proof { lemma_repainted_compose(f0, f5, f6, overlay(overlay(overlay(hair_rule, a), b), d), e); }
        fill_rect_raw(fb, cx, cy + 12, 18, 48, pants);
        let ghost f7 = *fb;
        let ghost g = solid_rect(cx as int, cy + 12, cx + 18, cy + 60, pants);
        proof { lemma_repainted_compose(f0, f6, f7, overlay(overlay(overlay(overlay(hair_rule, a), b), d), e), g); }
        let shoe: u32 = if c.shoes_color == 0 { 0x222222 } else { 0x654321 };
        fill_rect_raw(fb, cx - 18, cy + 60, 18, 12, shoe);
        let ghost f8 = *fb;
        let ghost h = solid_rect(cx - 18, cy + 60, cx as int, cy + 72, shoe);
        proof { lemma_repainted_compose(f0, f7, f8, overlay(overlay(overlay(overlay(overlay(hair_rule, a), b), d), e), g), h); }
        fill_rect_raw(fb, cx, cy + 60, 18, 12, shoe);
        let ghost f9 = *fb;
        let ghost k = solid_rect(cx as int, cy + 60, cx + 18, cy + 72, shoe);
        let ghost all = overlay(overlay(overlay(overlay(overlay(overlay(overlay(hair_rule, a), b), d), e), g), h), k);
        proof { lemma_repainted_compose(f0, f8, f9, overlay(overlay(overlay(overlay(overlay(overlay(hair_rule, a), b), d), e), g), h), k); }
        if c.backpack_style > 0 {
            let bp = c.backpack_style as usize * 6;
            let bp_color: u32 = if c.backpack_style == 1 { 0x556B2F } else if c.backpack_style == 2 { 0xD2B48C } else { 0x333333 };
            fill_rect_raw(fb, cx + 24, cy - 24, bp, bp + 6, bp_color);
            proof {
                lemma_repainted_compose(f0, f9, *fb, all, solid_rect(cx + 24, cy - 24, cx + 24 + bp, cy - 24 + bp + 6, bp_color));
            }
        }
    }
}

/// Draw the glider preview at (x, y).
fn draw_glider_preview(fb: &mut Framebuffer, x: usize, y: usize, style: u8)
    requires
        old(fb).wf(),
        x <= 20_000,
        y <= 20_000,
    ensures
        final(fb).wf(),
        repainted(*old(fb), *final(fb), glider_rule(x as int, y as int, style)),
{
    let main: u32 = match style % 4 { 0 => 0xE53935, 1 => 0x1E88E5, 2 => 0x44AA44, _ => 0xFFAA00 };
    let ghost f0 = *fb;
    proof {
        reveal_strlit("GLIDER:");
    }
    assert(text_width(7, 1) == 63);
    draw_string(fb, x, y, "GLIDER:", colors::SUBTITLE, 1);
    let ghost f1 = *fb;
    let ghost r1 = text_rule(x as int, y as int, "GLIDER:"@, colors::SUBTITLE, 1);
    fill_rect_raw(fb, x + 80, y + 10, 80, 30, main);
    let ghost f2 = *fb;
    let ghost r2 = solid_rect(x + 80, y + 10, x + 160, y + 40, glider_main(style));
    proof { lemma_repainted_compose(f0, f1, f2, r1, r2); }
    fill_rect_raw(fb, x + 116, y + 10, 8, 30, 0x222222);
    let ghost f3 = *fb;
    let ghost r3 = solid_rect(x + 116, y + 10, x + 124, y + 40, 0x222222);
    proof { lemma_repainted_compose(f0, f2, f3, overlay(r1, r2), r3); }
    fill_rect_raw(fb, x + 80, y + 23, 80, 4, 0x222222);
    let ghost f4 = *fb;
    let ghost r4 = solid_rect(x + 80, y + 23, x + 160, y + 27, 0x222222);
    proof { lemma_repainted_compose(f0, f3, f4, overlay(overlay(r1, r2), r3), r4); }
    draw_line(fb, x + 85, y + 40, x + 115, y + 65, 0x888888);
    let ghost f5 = *fb;
    let ghost r5 = line_rule(x + 85, y + 40, x + 115, y + 65, 0x888888);
    proof { lemma_repainted_compose(f0, f4, f5, overlay(overlay(overlay(r1, r2), r3), r4), r5); }
    draw_line(fb, x + 155, y + 40, x + 125, y + 65, 0x888888);
    let ghost f6 = *fb;
    let ghost r6 = line_rule(x + 155, y + 40, x + 125, y + 65, 0x888888);
    proof { lemma_repainted_compose(f0, f5, f6, overlay(overlay(overlay(overlay(r1, r2), r3), r4), r5), r6); }
    fill_rect_raw(fb, x + 116, y + 65, 8, 6, 0x222222);
    let ghost f7 = *fb;
    let ghost r7 = solid_rect(x + 116, y + 65, x + 124, y + 71, 0x222222);
    let ghost upto = overlay(overlay(overlay(overlay(overlay(r1, r2), r3), r4), r5), r6);
    proof { lemma_repainted_compose(f0, f6, f7, upto, r7); }
    proof {
        reveal_strlit("Red");
        reveal_strlit("Blue");
        reveal_strlit("Green");
        reveal_strlit("Orange");
    }
    let name = match style % 4 { 0 => "Red", 1 => "Blue", 2 => "Green", _ => "Orange" };
    assert(name@ == glider_name(style));
    proof {
        lemma_text_width_mono(name@.len() as int, 6, 2);
    }
    draw_string(fb, x, y + 70, name, colors::WHITE, 2);
    proof {
        lemma_repainted_compose(f0, f7, *fb, overlay(upto, r7), text_rule(x as int, y + 70, glider_name(style), colors::WHITE, 2));
    }
}

} // verus!
