//! Mouse cursor rendering: a 12x16 arrow with its hotspot at the top-left corner.

use vstd::prelude::*;
use crate::graphics::framebuffer::{Framebuffer, repainted, within, paint_rect, lemma_repainted_same_rule};

verus! {

/// Cursor width in pixels
pub const CURSOR_WIDTH: usize = 12;
/// Cursor height in pixels
pub const CURSOR_HEIGHT: usize = 16;

/// Row `row` of the arrow bitmap: 0 = transparent, 1 = outline, 2 = fill.
pub open spec fn cursor_row(row: int) -> Seq<u8> {
    if row == 0 {
        seq![1u8, 0, 0, 0, 0, 0, 0, 0, 0, 0, 0, 0]
    } else if row == 1 {
        seq![1u8, 1, 0, 0, 0, 0, 0, 0, 0, 0, 0, 0]
    } else if row == 2 {
        seq![1u8, 2, 1, 0, 0, 0, 0, 0, 0, 0, 0, 0]
    } else if row == 3 {
        seq![1u8, 2, 2, 1, 0, 0, 0, 0, 0, 0, 0, 0]
    } else if row == 4 {
        seq![1u8, 2, 2, 2, 1, 0, 0, 0, 0, 0, 0, 0]
    } else if row == 5 {
        seq![1u8, 2, 2, 2, 2, 1, 0, 0, 0, 0, 0, 0]
    } else if row == 6 {
        seq![1u8, 2, 2, 2, 2, 2, 1, 0, 0, 0, 0, 0]
    } else if row == 7 {
        seq![1u8, 2, 2, 2, 2, 2, 2, 1, 0, 0, 0, 0]
    } else if row == 8 {
        seq![1u8, 2, 2, 2, 2, 2, 2, 2, 1, 0, 0, 0]
    } else if row == 9 {
        seq![1u8, 2, 2, 2, 2, 2, 2, 2, 2, 1, 0, 0]
    } else if row == 10 {
        seq![1u8, 2, 2, 2, 2, 2, 1, 1, 1, 1, 1, 0]
    } else if row == 11 {
        seq![1u8, 2, 2, 1, 2, 2, 1, 0, 0, 0, 0, 0]
    } else if row == 12 {
        seq![1u8, 2, 1, 0, 1, 2, 2, 1, 0, 0, 0, 0]
    } else if row == 13 {
        seq![1u8, 1, 0, 0, 1, 2, 2, 1, 0, 0, 0, 0]
    } else if row == 14 {
        seq![1u8, 0, 0, 0, 0, 1, 2, 2, 1, 0, 0, 0]
    } else {
        seq![0u8, 0, 0, 0, 0, 1, 1, 1, 1, 0, 0, 0]
    }
}

/// Cell of the arrow bitmap.
fn cursor_cell(row: usize, col: usize) -> (r: u8)
    requires
        row < 16,
        col < 12,
    ensures
        r == cursor_row(row as int)[col as int],
{
    let cells: [u8; 12] = match row {
        0 => [1u8, 0, 0, 0, 0, 0, 0, 0, 0, 0, 0, 0],
        1 => [1u8, 1, 0, 0, 0, 0, 0, 0, 0, 0, 0, 0],
        2 => [1u8, 2, 1, 0, 0, 0, 0, 0, 0, 0, 0, 0],
        3 => [1u8, 2, 2, 1, 0, 0, 0, 0, 0, 0, 0, 0],
        4 => [1u8, 2, 2, 2, 1, 0, 0, 0, 0, 0, 0, 0],
        5 => [1u8, 2, 2, 2, 2, 1, 0, 0, 0, 0, 0, 0],
        6 => [1u8, 2, 2, 2, 2, 2, 1, 0, 0, 0, 0, 0],
        7 => [1u8, 2, 2, 2, 2, 2, 2, 1, 0, 0, 0, 0],
        8 => [1u8, 2, 2, 2, 2, 2, 2, 2, 1, 0, 0, 0],
        9 => [1u8, 2, 2, 2, 2, 2, 2, 2, 2, 1, 0, 0],
        10 => [1u8, 2, 2, 2, 2, 2, 1, 1, 1, 1, 1, 0],
        11 => [1u8, 2, 2, 1, 2, 2, 1, 0, 0, 0, 0, 0],
        12 => [1u8, 2, 1, 0, 1, 2, 2, 1, 0, 0, 0, 0],
        13 => [1u8, 1, 0, 0, 1, 2, 2, 1, 0, 0, 0, 0],
        14 => [1u8, 0, 0, 0, 0, 1, 2, 2, 1, 0, 0, 0],
        _ => [0u8, 0, 0, 0, 0, 1, 1, 1, 1, 0, 0, 0],
    };
    assert(cells@ =~= cursor_row(row as int));
    cells[col]
}

/// Rule of the cursor drawn with its top-left corner at (x, y).
pub open spec fn cursor_rule(x: int, y: int, outline: u32, fill: u32) -> spec_fn(int, int) -> Option<u32> {
    |px: int, py: int|
        if 0 <= px - x < 12 && 0 <= py - y < 16 && cursor_row(py - y)[px - x] != 0 {
            Some(if cursor_row(py - y)[px - x] == 1 { outline } else { fill })
        } else {
            None
        }
}

/// Draw the cursor with the given outline and fill colors at (x, y), which may
/// lie partly off screen.
pub fn draw_cursor_colored(fb: &mut Framebuffer, x: i32, y: i32, outline: u32, fill: u32)
    requires
        old(fb).wf(),
        old(fb).width <= i32::MAX,
        old(fb).height <= i32::MAX,
        x <= i32::MAX - 12,
        y <= i32::MAX - 16,
    ensures
        final(fb).wf(),
        repainted(*old(fb), *final(fb), cursor_rule(x as int, y as int, outline, fill)),
{
    let ghost rule = cursor_rule(x as int, y as int, outline, fill);
    let x0: usize = if x < 0 { 0 } else { x as usize };
    let y0: usize = if y < 0 { 0 } else { y as usize };
    let x1: usize = if x + 12 <= 0 { 0 } else { (x + 12) as usize };
    let y1: usize = if y + 16 <= 0 { 0 } else { (y + 16) as usize };
    let w = fb.width;
    let h = fb.height;
    let f = |px: usize, py: usize| -> (r: Option<u32>)
        requires
            px < w,
            py < h,
            w <= i32::MAX,
            h <= i32::MAX,
            x as int <= px < x + 12,
            y as int <= py < y + 16,
        ensures
            r == rule(px as int, py as int),
        {
            let dx = (px as i32 - x) as usize;
            let dy = (py as i32 - y) as usize;
            let cell = cursor_cell(dy, dx);
            if cell == 0 {
                None
            } else if cell == 1 {
                Some(outline)
            } else {
                Some(fill)
            }
        };
    paint_rect(fb, x0, y0, x1, y1, f, Ghost(rule));
    proof {
        lemma_repainted_same_rule(*old(fb), *fb, within(x0 as int, y0 as int, x1 as int, y1 as int, rule), rule);
    }
}

/// Black outline color of the default cursor.
pub const CURSOR_OUTLINE: u32 = 0x000000;
/// White fill color of the default cursor.
pub const CURSOR_FILL: u32 = 0xFFFFFF;

/// Draw the default black-and-white mouse cursor at (x, y).
pub fn draw_cursor(fb: &mut Framebuffer, x: i32, y: i32)
    requires
        old(fb).wf(),
        old(fb).width <= i32::MAX,
        old(fb).height <= i32::MAX,
        x <= i32::MAX - 12,
        y <= i32::MAX - 16,
    ensures
        final(fb).wf(),
        repainted(*old(fb), *final(fb), cursor_rule(x as int, y as int, CURSOR_OUTLINE, CURSOR_FILL)),
{
    draw_cursor_colored(fb, x, y, CURSOR_OUTLINE, CURSOR_FILL);
}

/// Check if a point is within a rectangular area.
pub fn point_in_rect(x: i32, y: i32, rect_x: usize, rect_y: usize, width: usize, height: usize) -> (r: bool)
    requires
        rect_x + width <= usize::MAX,
        rect_y + height <= usize::MAX,
    ensures
        r == ((x as int >= (rect_x as i32) as int) && (x as int) < ((rect_x + width) as i32) as int
            && (y as int >= (rect_y as i32) as int) && (y as int) < ((rect_y + height) as i32) as int),
{
    x >= rect_x as i32 && x < (rect_x + width) as i32 && y >= rect_y as i32 && y < (rect_y + height) as i32
}

} // verus!
