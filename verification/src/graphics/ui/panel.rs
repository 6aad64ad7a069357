//! Panel UI primitives: containers, dividers, swatches and the crosshair.

use vstd::prelude::*;
use crate::graphics::framebuffer::{Framebuffer, repainted, within, paint_rect, lemma_repainted_same_rule, solid_rect, fill_span_rect};
use super::colors;

verus! {

/// Rule of a background over the `w` x `h` screen whose row `y` has color `rows[y]`.
pub open spec fn rows_rule(rows: Seq<u32>, w: int, h: int) -> spec_fn(int, int) -> Option<u32> {
    |px: int, py: int| if 0 <= px < w && 0 <= py < h && py < rows.len() { Some(rows[py]) } else { None }
}

/// Draw the vertical gradient background over the `fb_width` x `fb_height`
/// screen: row `y` takes color `rows[y]` (the gradient's color at that row).
pub fn draw_gradient_background_raw(fb: &mut Framebuffer, rows: &Vec<u32>, fb_width: usize, fb_height: usize)
    requires
        old(fb).wf(),
    ensures
        final(fb).wf(),
        repainted(*old(fb), *final(fb), rows_rule(rows@, fb_width as int, fb_height as int)),
{
    let ghost rule = rows_rule(rows@, fb_width as int, fb_height as int);
    let h = if fb_height < rows.len() { fb_height } else { rows.len() };
    let f = |px: usize, py: usize| -> (r: Option<u32>)
        requires
            px < fb_width,
            py < h,
        ensures
            r == rule(px as int, py as int),
        {
            Some(rows[py])
        };
    paint_rect(fb, 0, 0, fb_width, h, f, Ghost(rule));
    proof {
        lemma_repainted_same_rule(*old(fb), *fb, within(0, 0, fb_width as int, h as int, rule), rule);
    }
}

/// Rule of a `width` x `height` box at (x, y) with a border `bw` pixels wide.
pub open spec fn bordered_box(x: int, y: int, width: int, height: int, bw: int, fill: u32, border: u32) -> spec_fn(int, int) -> Option<u32> {
    |px: int, py: int|
        if x <= px < x + width && y <= py < y + height {
            if px < x + bw || px >= x + width - bw || py < y + bw || py >= y + height - bw {
                Some(border)
            } else {
                Some(fill)
            }
        } else {
            None
        }
}

/// Paint a bordered box; shared by panels, buttons and swatches.
pub(crate) fn fill_bordered_box(
    fb: &mut Framebuffer,
    x: usize,
    y: usize,
    width: usize,
    height: usize,
    bw: usize,
    fill: u32,
    border: u32,
)
    requires
        old(fb).wf(),
        x + width <= usize::MAX,
        y + height <= usize::MAX,
        bw <= 3,
    ensures
        final(fb).wf(),
        repainted(*old(fb), *final(fb), bordered_box(x as int, y as int, width as int, height as int, bw as int, fill, border)),
{
    let ghost rule = bordered_box(x as int, y as int, width as int, height as int, bw as int, fill, border);
    let ghost max = (usize::MAX / 4) as int;
    assert(fb.width <= max);
    let f = |px: usize, py: usize| -> (r: Option<u32>)
        requires
            x <= px < x + width,
            y <= py < y + height,
            px <= max,
        ensures
            r == rule(px as int, py as int),
        {
            let is_border = px - x < bw || x + width - px <= bw || py - y < bw || y + height - py <= bw;
            if is_border { Some(border) } else { Some(fill) }
        };
    paint_rect(fb, x, y, x + width, y + height, f, Ghost(rule));
    proof {
        lemma_repainted_same_rule(*old(fb), *fb, within(x as int, y as int, x + width, y + height, rule), rule);
    }
}

/// Draw a panel with a 2-pixel border.
pub fn draw_panel_raw(fb: &mut Framebuffer, x: usize, y: usize, width: usize, height: usize, bg_color: u32)
    requires
        old(fb).wf(),
        x + width <= usize::MAX,
        y + height <= usize::MAX,
    ensures
        final(fb).wf(),
        repainted(*old(fb), *final(fb), bordered_box(x as int, y as int, width as int, height as int, 2, bg_color, colors::PANEL_BORDER)),
{
    fill_bordered_box(fb, x, y, width, height, 2, bg_color, colors::PANEL_BORDER);
}

/// Draw a panel with a 2-pixel border on the screen's framebuffer, if there is one.
pub fn draw_panel(slot: &mut Option<Framebuffer>, x: usize, y: usize, width: usize, height: usize, bg_color: u32)
    requires
        *old(slot) matches Some(f) ==> f.wf(),
        x + width <= usize::MAX,
        y + height <= usize::MAX,
    ensures
        match (*old(slot), *final(slot)) {
            (Some(a), Some(b)) => b.wf() && repainted(a, b, bordered_box(
                x as int, y as int, width as int, height as int, 2, bg_color, colors::PANEL_BORDER)),
            (None, None) => true,
            _ => false,
        },
{
    match slot {
        Some(fb) => draw_panel_raw(fb, x, y, width, height, bg_color),
        None => {},
    }
}

/// Rule of a panel with rounded corners of radius `r`: pixels of a corner square
/// farther than `r` from the corner's center are left out.
pub open spec fn rounded_box(x: int, y: int, w: int, h: int, r: int, bg: u32) -> spec_fn(int, int) -> Option<u32> {
    |px: int, py: int|
        if x <= px < x + w && y <= py < y + h {
            let in_tl = px < x + r && py < y + r;
            let in_tr = px >= x + w - r && py < y + r;
            let in_bl = px < x + r && py >= y + h - r;
            let in_br = px >= x + w - r && py >= y + h - r;
            let skip = (in_tl && (x + r - px) * (x + r - px) + (y + r - py) * (y + r - py) > r * r)
                || (in_tr && (px - (x + w - r - 1)) * (px - (x + w - r - 1)) + (y + r - py) * (y + r - py) > r * r)
                || (in_bl && (x + r - px) * (x + r - px) + (py - (y + h - r - 1)) * (py - (y + h - r - 1)) > r * r)
                || (in_br && (px - (x + w - r - 1)) * (px - (x + w - r - 1)) + (py - (y + h - r - 1)) * (py - (y + h - r - 1)) > r * r);
            if skip {
                None
            } else if px < x + 2 || px >= x + w - 2 || py < y + 2 || py >= y + h - 2 {
                Some(colors::PANEL_BORDER)
            } else {
                Some(bg)
            }
        } else {
            None
        }
}

proof fn lemma_sum_squares(dx: int, dy: int, r: int)
    requires
        0 <= dx <= r,
        0 <= dy <= r,
    ensures
        dx * dx + dy * dy <= 2 * r * r,
{
    assert(dx * dx + dy * dy <= 2 * r * r) by (nonlinear_arith)
        requires
            0 <= dx <= r,
            0 <= dy <= r,
    ;
}

/// Draw a rounded panel (corners approximated by clipping against circles).
pub fn draw_rounded_panel_raw(fb: &mut Framebuffer, x: usize, y: usize, width: usize, height: usize, bg_color: u32, radius: usize)
    requires
        old(fb).wf(),
        x + width <= usize::MAX,
        y + height <= usize::MAX,
        2 * radius * radius <= usize::MAX,
        width > 0 && height > 0 ==> radius < x + width && radius < y + height,
    ensures
        final(fb).wf(),
        repainted(*old(fb), *final(fb), rounded_box(x as int, y as int, width as int, height as int, radius as int, bg_color)),
{
    let ghost rule = rounded_box(x as int, y as int, width as int, height as int, radius as int, bg_color);
    if width == 0 || height == 0 {
        fill_span_rect(fb, x, y, x, y, bg_color);
        proof {
            lemma_repainted_same_rule(*old(fb), *fb, solid_rect(x as int, y as int, x as int, y as int, bg_color), rule);
        }
        return;
    }
    assert(radius * radius <= usize::MAX) by (nonlinear_arith)
        requires
            2 * radius * radius <= usize::MAX,
    ;
    let rr = radius * radius;
    let f = |px: usize, py: usize| -> (r: Option<u32>)
        requires
            x <= px < x + width,
            y <= py < y + height,
            2 * radius * radius <= usize::MAX,
            rr == radius * radius,
            radius < x + width,
            radius < y + height,
        ensures
            r == rule(px as int, py as int),
        {
            let in_tl = px - x < radius && py - y < radius;
            let in_tr = px >= x + width - radius && py - y < radius;
            let in_bl = px - x < radius && py >= y + height - radius;
            let in_br = px >= x + width - radius && py >= y + height - radius;
            let mut skip = false;
            if in_tl {
                let dx = radius - (px - x);
                let dy = radius - (py - y);
                proof { lemma_sum_squares(dx as int, dy as int, radius as int); }
                if dx * dx + dy * dy > rr {
                    skip = true;
                }
            }
            if in_tr {
                let dx = px - (x + width - radius - 1);
                let dy = radius - (py - y);
                proof { lemma_sum_squares(dx as int, dy as int, radius as int); }
                if dx * dx + dy * dy > rr {
                    skip = true;
                }
            }
            if in_bl {
                let dx = radius - (px - x);
                let dy = py - (y + height - radius - 1);
                proof { lemma_sum_squares(dx as int, dy as int, radius as int); }
                if dx * dx + dy * dy > rr {
                    skip = true;
                }
            }
            if in_br {
                let dx = px - (x + width - radius - 1);
                let dy = py - (y + height - radius - 1);
                proof { lemma_sum_squares(dx as int, dy as int, radius as int); }
                if dx * dx + dy * dy > rr {
                    skip = true;
                }
            }
            if skip {
                None
            } else if px - x < 2 || x + width - px <= 2 || py - y < 2 || y + height - py <= 2 {
                Some(colors::PANEL_BORDER)
            } else {
                Some(bg_color)
            }
        };
    paint_rect(fb, x, y, x + width, y + height, f, Ghost(rule));
    proof {
        lemma_repainted_same_rule(*old(fb), *fb, within(x as int, y as int, x + width, y + height, rule), rule);
    }
}

/// Draw a horizontal divider two pixels tall.
pub fn draw_divider_raw(fb: &mut Framebuffer, x: usize, y: usize, width: usize, color: u32)
    requires
        old(fb).wf(),
        x + width <= usize::MAX,
        width > 0 && x < old(fb).width ==> y < usize::MAX,
    ensures
        final(fb).wf(),
        repainted(*old(fb), *final(fb), solid_rect(x as int, y as int, x + width, y + 2, color)),
{
    if width == 0 || x >= fb.width {
        fill_span_rect(fb, x, y, x, y, color);
        proof {
            lemma_repainted_same_rule(*old(fb), *fb, solid_rect(x as int, y as int, x as int, y as int, color),
                solid_rect(x as int, y as int, x + width, y + 2, color));
        }
        return;
    }
    let y2 = y.saturating_add(2);
    fill_span_rect(fb, x, y, x + width, y2, color);
    proof {
        lemma_repainted_same_rule(*old(fb), *fb, solid_rect(x as int, y as int, x + width, y2 as int, color),
            solid_rect(x as int, y as int, x + width, y + 2, color));
    }
}

/// Draw a color swatch: a square with a 3-pixel yellow border when selected,
/// otherwise a 2-pixel panel border.
pub fn draw_swatch_raw(fb: &mut Framebuffer, x: usize, y: usize, size: usize, color: u32, selected: bool)
    requires
        old(fb).wf(),
        x + size <= usize::MAX,
        y + size <= usize::MAX,
    ensures
        final(fb).wf(),
        repainted(*old(fb), *final(fb), bordered_box(x as int, y as int, size as int, size as int,
            if selected { 3 } else { 2 }, color, if selected { colors::FN_YELLOW } else { colors::PANEL_BORDER })),
{
    let border_color = if selected { colors::FN_YELLOW } else { colors::PANEL_BORDER };
    let border_width: usize = if selected { 3 } else { 2 };
    fill_bordered_box(fb, x, y, size, size, border_width, color, border_color);
}

/// Draw a simple filled rectangle.
pub fn fill_rect_raw(fb: &mut Framebuffer, x: usize, y: usize, width: usize, height: usize, color: u32)
    requires
        old(fb).wf(),
        x + width <= usize::MAX,
        y + height <= usize::MAX,
    ensures
        final(fb).wf(),
        repainted(*old(fb), *final(fb), solid_rect(x as int, y as int, x + width, y + height, color)),
{
    fill_span_rect(fb, x, y, x + width, y + height, color);
}

/// Rule of a round dot in the `size` x `size` square at (x, y): the pixels
/// `(x + dx, y + dy)` with `(dx - size/2)^2 + (dy - size/2)^2 <= r2`.
pub open spec fn round_dot_rule(x: int, y: int, size: int, r2: int, color: u32) -> spec_fn(int, int) -> Option<u32> {
    |px: int, py: int|
        if x <= px < x + size && y <= py < y + size
            && (px - x - size / 2) * (px - x - size / 2) + (py - y - size / 2) * (py - y - size / 2) <= r2 {
            Some(color)
        } else {
            None
        }
}

/// Paint a round dot in the `size` x `size` square at (x, y).
pub fn draw_round_dot(fb: &mut Framebuffer, x: usize, y: usize, size: usize, r2: i32, color: u32)
    requires
        old(fb).wf(),
        size <= 64,
        x + size <= usize::MAX,
        y + size <= usize::MAX,
    ensures
        final(fb).wf(),
        repainted(*old(fb), *final(fb), round_dot_rule(x as int, y as int, size as int, r2 as int, color)),
{
    let ghost rule = round_dot_rule(x as int, y as int, size as int, r2 as int, color);
    let half = (size / 2) as i32;
    let f = |px: usize, py: usize| -> (r: Option<u32>)
        requires
            x <= px < x + size,
            y <= py < y + size,
            size <= 64,
            half == size / 2,
        ensures
            r == rule(px as int, py as int),
        {
            let dx = (px - x) as i32 - half;
            let dy = (py - y) as i32 - half;
            assert(0 <= dx * dx <= 4096 && 0 <= dy * dy <= 4096) by (nonlinear_arith)
                requires -64 <= dx <= 64, -64 <= dy <= 64;
            if dx * dx + dy * dy <= r2 { Some(color) } else { None }
        };
    paint_rect(fb, x, y, x + size, y + size, f, Ghost(rule));
    proof {
        lemma_repainted_same_rule(*old(fb), *fb, within(x as int, y as int, x + size, y + size, rule), rule);
    }
}

/// Width of the filled part of a progress bar `width` pixels wide at
/// `percent` percent (more than 100 counts as 100), rounded down.
pub open spec fn bar_fill(width: int, percent: int) -> int {
    (width - 2) * (if percent < 100 { percent } else { 100 }) / 100
}

/// Rule of a `width` x `height` progress bar at (x, y): a 1-pixel border, the
/// inside filled from the left over `bar_fill(width, percent)` pixels and
/// `bg` elsewhere.
pub open spec fn percent_bar_rule(x: int, y: int, width: int, height: int, percent: int, fill: u32, bg: u32) -> spec_fn(int, int) -> Option<u32> {
    |px: int, py: int|
        if x <= px < x + width && y <= py < y + height {
            if px < x + 1 || px >= x + width - 1 || py < y + 1 || py >= y + height - 1 {
                Some(colors::PANEL_BORDER)
            } else if px < x + 1 + bar_fill(width, percent) {
                Some(fill)
            } else {
                Some(bg)
            }
        } else {
            None
        }
}

/// Draw a progress bar with a 1-pixel border, filled from the left to
/// `percent` percent.
pub fn draw_percent_bar(fb: &mut Framebuffer, x: usize, y: usize, width: usize, height: usize, percent: u8, fill: u32, bg: u32)
    requires
        old(fb).wf(),
        2 <= width <= 0x0100_0000,
        x + width <= usize::MAX,
        y + height <= usize::MAX,
    ensures
        final(fb).wf(),
        repainted(*old(fb), *final(fb), percent_bar_rule(x as int, y as int, width as int, height as int, percent as int, fill, bg)),
{
    let ghost rule = percent_bar_rule(x as int, y as int, width as int, height as int, percent as int, fill, bg);
    let p: usize = if percent < 100 { percent as usize } else { 100 };
    let w2 = width - 2;
    assert(w2 * p <= 0x0100_0000 * 100) by (nonlinear_arith)
        requires w2 <= 0x0100_0000, p <= 100;
    let filled = w2 * p / 100;
    assert(filled == bar_fill(width as int, percent as int));
    let f = |px: usize, py: usize| -> (r: Option<u32>)
        requires
            x <= px < x + width,
            y <= py < y + height,
        ensures
            r == rule(px as int, py as int),
        {
            let is_border = px - x < 1 || x + width - px <= 1 || py - y < 1 || y + height - py <= 1;
            if is_border {
                Some(colors::PANEL_BORDER)
            } else if px - x < 1 + filled {
                Some(fill)
            } else {
                Some(bg)
            }
        };
    paint_rect(fb, x, y, x + width, y + height, f, Ghost(rule));
    proof {
        lemma_repainted_same_rule(*old(fb), *fb, within(x as int, y as int, x + width, y + height, rule), rule);
    }
}

/// Rule of the crosshair centered at (cx, cy): two 10-pixel arms on each axis
/// with a 3-pixel gap around the center.
pub open spec fn crosshair(cx: int, cy: int, color: u32) -> spec_fn(int, int) -> Option<u32> {
    |px: int, py: int|
        if (py == cy && ((cx - 13 <= px < cx - 3) || (cx + 4 <= px < cx + 14)))
            || (px == cx && ((cy - 13 <= py < cy - 3) || (cy + 4 <= py < cy + 14))) {
            Some(color)
        } else {
            None
        }
}

/// Draw a crosshair at the center of the screen.
pub fn draw_crosshair_raw(fb: &mut Framebuffer, fb_width: usize, fb_height: usize, color: u32)
    requires
        old(fb).wf(),
        fb_width / 2 >= 13,
        fb_height / 2 >= 13,
    ensures
        final(fb).wf(),
        repainted(*old(fb), *final(fb), crosshair((fb_width / 2) as int, (fb_height / 2) as int, color)),
{
    let cx = fb_width / 2;
    let cy = fb_height / 2;
    let ghost rule = crosshair(cx as int, cy as int, color);
    let f = |px: usize, py: usize| -> (r: Option<u32>)
        ensures
            r == rule(px as int, py as int),
        {
            let on = (py == cy && ((cx - 13 <= px && px < cx - 3) || (cx + 4 <= px && px < cx + 14)))
                || (px == cx && ((cy - 13 <= py && py < cy - 3) || (cy + 4 <= py && py < cy + 14)));
            if on { Some(color) } else { None }
        };
    paint_rect(fb, cx - 13, cy - 13, cx + 14, cy + 14, f, Ghost(rule));
    proof {
        lemma_repainted_same_rule(*old(fb), *fb, within(cx - 13, cy - 13, cx + 14, cy + 14, rule), rule);
    }
}

} // verus!
