//! 8x8 bitmap font with digits, F, P, S, colon, space and period.
//!
//! Characters are drawn on a grid of `9 * scale` pixel cells: an `8 * scale`
//! square glyph followed by `scale` pixels of spacing.

use vstd::prelude::*;
use vstd::string::*;
use crate::graphics::framebuffer::{
    Framebuffer, repainted, within, paint_rect, lemma_repainted_same_rule, solid_rect, fill_span_rect,
    overlay, lemma_repainted_compose,
};

verus! {

/// Rows (top to bottom) of glyph `g`; bit 7 of a row is its leftmost column.
/// Glyphs 0-9 are the digits, then F, P, S, colon, space and period.
pub open spec fn glyph_rows(g: int) -> Seq<u8> {
    if g == 0 {
        seq![0x3C, 0x66, 0x6E, 0x76, 0x66, 0x66, 0x3C, 0x00]
    } else if g == 1 {
        seq![0x18, 0x38, 0x18, 0x18, 0x18, 0x18, 0x7E, 0x00]
    } else if g == 2 {
        seq![0x3C, 0x66, 0x06, 0x1C, 0x30, 0x60, 0x7E, 0x00]
    } else if g == 3 {
        seq![0x3C, 0x66, 0x06, 0x1C, 0x06, 0x66, 0x3C, 0x00]
    } else if g == 4 {
        seq![0x0E, 0x1E, 0x36, 0x66, 0x7F, 0x06, 0x06, 0x00]
    } else if g == 5 {
        seq![0x7E, 0x60, 0x7C, 0x06, 0x06, 0x66, 0x3C, 0x00]
    } else if g == 6 {
        seq![0x1C, 0x30, 0x60, 0x7C, 0x66, 0x66, 0x3C, 0x00]
    } else if g == 7 {
        seq![0x7E, 0x06, 0x0C, 0x18, 0x30, 0x30, 0x30, 0x00]
    } else if g == 8 {
        seq![0x3C, 0x66, 0x66, 0x3C, 0x66, 0x66, 0x3C, 0x00]
    } else if g == 9 {
        seq![0x3C, 0x66, 0x66, 0x3E, 0x06, 0x0C, 0x38, 0x00]
    } else if g == 10 {
        seq![0x7E, 0x60, 0x60, 0x7C, 0x60, 0x60, 0x60, 0x00]
    } else if g == 11 {
        seq![0x7C, 0x66, 0x66, 0x7C, 0x60, 0x60, 0x60, 0x00]
    } else if g == 12 {
        seq![0x3C, 0x66, 0x60, 0x3C, 0x06, 0x66, 0x3C, 0x00]
    } else if g == 13 {
        seq![0x00, 0x18, 0x18, 0x00, 0x18, 0x18, 0x00, 0x00]
    } else if g == 14 {
        seq![0x00, 0x00, 0x00, 0x00, 0x00, 0x00, 0x00, 0x00]
    } else {
        seq![0x00, 0x00, 0x00, 0x00, 0x00, 0x18, 0x18, 0x00]
    }
}

/// Glyph index of a character; unknown characters draw as a space.
pub open spec fn char_glyph(c: char) -> int {
    if '0' <= c && c <= '9' {
        c as int - '0' as int
    } else if c == 'F' || c == 'f' {
        10
    } else if c == 'P' || c == 'p' {
        11
    } else if c == 'S' || c == 's' {
        12
    } else if c == ':' {
        13
    } else if c == '.' {
        15
    } else {
        14
    }
}

/// Every digit is drawn with its own glyph: the glyph of `c` is `c - '0'`
/// for each of '0' to '9', and no other character is drawn with a digit's
/// glyph.
pub proof fn lemma_digit_glyphs(c: char)
    ensures
        '0' <= c <= '9' ==> char_glyph(c) == c as int - '0' as int,
        0 <= char_glyph(c) < 10 ==> '0' <= c <= '9' && char_glyph(c) == c as int - '0' as int,
{
}

/// A digit drawn at scale 1 shows its own glyph: after `text_rule` paints a
/// one-character digit string at (x, y), each pixel of the 8x8 cell takes
/// the color exactly where glyph `c - '0'` has that pixel set and keeps its
/// old value elsewhere.
pub proof fn lemma_digit_drawn(f0: Framebuffer, f1: Framebuffer, x: int, y: int, c: char, color: u32, row: int, col: int)
    requires
        f0.wf(),
        repainted(f0, f1, text_rule(x, y, seq![c], color, 1)),
        '0' <= c <= '9',
        0 <= row < 8,
        0 <= col < 8,
        0 <= x,
        0 <= y,
        x + col < f0.width,
        y + row < f0.height,
    ensures
        f1.pixel(x + col, y + row) == if glyph_on(c as int - '0' as int, row, col) {
            color
        } else {
            f0.pixel(x + col, y + row)
        },
{
    let rule = text_rule(x, y, seq![c], color, 1);
    assert((col / 9) == 0 && col % 9 == col && row / 1 == row && col / 1 == col);
    assert(seq![c][0] == c);
    assert(f1.pixel(x + col, y + row) == (if x + col < f0.width && rule(x + col, y + row) is Some {
        rule(x + col, y + row)->0
    } else {
        f0.pixel(x + col, y + row)
    }));
}

/// Whether glyph `g` has its pixel at (`row`, `col`) set.
pub open spec fn glyph_on(g: int, row: int, col: int) -> bool {
    0 <= row < 8 && 0 <= col < 8 && (glyph_rows(g)[row] & (0x80u8 >> (col as u8))) != 0
}

/// Rule of `text` drawn at (x, y): character `k` occupies the cell starting at
/// `x + 9 * scale * k`; each glyph pixel is a `scale` x `scale` block.
pub open spec fn text_rule(x: int, y: int, text: Seq<char>, color: u32, scale: int) -> spec_fn(int, int) -> Option<u32> {
    |px: int, py: int|
        if scale > 0 && x <= px && y <= py {
            let cell = (px - x) / (9 * scale);
            let off = (px - x) % (9 * scale);
            if cell < text.len() && off < 8 * scale && glyph_on(char_glyph(text[cell]), (py - y) / scale, off / scale) {
                Some(color)
            } else {
                None
            }
        } else {
            None
        }
}

/// Width in pixels of `n` characters at `scale` (glyph plus spacing each).
pub open spec fn text_width(n: int, scale: int) -> int {
    n * (9 * scale)
}

/// Row `row` of glyph `glyph` of the bitmap font.
fn glyph_row(glyph: usize, row: usize) -> (r: u8)
    requires
        glyph < 16,
        row < 8,
    ensures
        r == glyph_rows(glyph as int)[row as int],
{
    let rows: [u8; 8] = match glyph {
        0 => [0x3C, 0x66, 0x6E, 0x76, 0x66, 0x66, 0x3C, 0x00],
        1 => [0x18, 0x38, 0x18, 0x18, 0x18, 0x18, 0x7E, 0x00],
        2 => [0x3C, 0x66, 0x06, 0x1C, 0x30, 0x60, 0x7E, 0x00],
        3 => [0x3C, 0x66, 0x06, 0x1C, 0x06, 0x66, 0x3C, 0x00],
        4 => [0x0E, 0x1E, 0x36, 0x66, 0x7F, 0x06, 0x06, 0x00],
        5 => [0x7E, 0x60, 0x7C, 0x06, 0x06, 0x66, 0x3C, 0x00],
        6 => [0x1C, 0x30, 0x60, 0x7C, 0x66, 0x66, 0x3C, 0x00],
        7 => [0x7E, 0x06, 0x0C, 0x18, 0x30, 0x30, 0x30, 0x00],
        8 => [0x3C, 0x66, 0x66, 0x3C, 0x66, 0x66, 0x3C, 0x00],
        9 => [0x3C, 0x66, 0x66, 0x3E, 0x06, 0x0C, 0x38, 0x00],
        10 => [0x7E, 0x60, 0x60, 0x7C, 0x60, 0x60, 0x60, 0x00],
        11 => [0x7C, 0x66, 0x66, 0x7C, 0x60, 0x60, 0x60, 0x00],
        12 => [0x3C, 0x66, 0x60, 0x3C, 0x06, 0x66, 0x3C, 0x00],
        13 => [0x00, 0x18, 0x18, 0x00, 0x18, 0x18, 0x00, 0x00],
        14 => [0x00, 0x00, 0x00, 0x00, 0x00, 0x00, 0x00, 0x00],
        _ => [0x00, 0x00, 0x00, 0x00, 0x00, 0x18, 0x18, 0x00],
    };
    assert(rows@ =~= glyph_rows(glyph as int));
    rows[row]
}

/// Get glyph index for a character (unknown characters map to the space glyph).
fn char_to_glyph(c: char) -> (g: usize)
    ensures
        g == char_glyph(c),
        '0' <= c <= '9' ==> g == c as int - '0' as int,
        g < 16,
{
    if '0' <= c && c <= '9' {
        (c as u32 - '0' as u32) as usize
    } else if c == 'F' || c == 'f' {
        10
    } else if c == 'P' || c == 'p' {
        11
    } else if c == 'S' || c == 's' {
        12
    } else if c == ':' {
        13
    } else if c == '.' {
        15
    } else {
        14
    }
}

/// Draw a sequence of characters at (x, y).
pub fn draw_chars(fb: &mut Framebuffer, x: usize, y: usize, text: &Vec<char>, color: u32, scale: usize)
    requires
        old(fb).wf(),
        x + text_width(text@.len() as int, scale as int) <= usize::MAX,
        y + 8 * scale <= usize::MAX,
    ensures
        final(fb).wf(),
        repainted(*old(fb), *final(fb), text_rule(x as int, y as int, text@, color, scale as int)),
{
    let ghost rule = text_rule(x as int, y as int, text@, color, scale as int);
    if scale == 0 || text.len() == 0 {
        fill_span_rect(fb, x, y, x, y, color);
        proof {
            assert forall|px: int, py: int| 0 <= px < old(fb).width && 0 <= py < old(fb).height implies
                #[trigger] solid_rect(x as int, y as int, x as int, y as int, color)(px, py) == rule(px, py) by {
                if scale > 0 && x <= px {
                    assert((px - x) / (9 * scale as int) >= 0) by (nonlinear_arith)
                        requires scale > 0, x <= px;
                }
            }
            lemma_repainted_same_rule(*old(fb), *fb, solid_rect(x as int, y as int, x as int, y as int, color), rule);
        }
        return;
    }
    let n = text.len();
    assert(9 * scale <= usize::MAX) by (nonlinear_arith)
        requires
            x + n * (9 * scale) <= usize::MAX,
            n >= 1,
            scale >= 0,
    ;
    let cell = 9 * scale;
    assert(n * cell <= usize::MAX) by (nonlinear_arith)
        requires
            x + n * (9 * scale) <= usize::MAX,
            cell == 9 * scale,
    ;
    let x_end = x + n * cell;
    let y_end = y + 8 * scale;
    let f = |px: usize, py: usize| -> (r: Option<u32>)
        requires
            x <= px < x_end,
            y <= py < y_end,
            scale > 0,
            cell == 9 * scale,
            x_end == x + n * cell,
            n == text@.len(),
        ensures
            r == rule(px as int, py as int),
        {
            let k = (px - x) / cell;
            let off = (px - x) % cell;
            proof {
                lemma_cell_in_range((px - x) as int, cell as int, n as int);
            }
            if off < 8 * scale {
                let row = (py - y) / scale;
                let col = off / scale;
                proof {
                    lemma_row_col_range((py - y) as int, off as int, scale as int);
                }
                let g = char_to_glyph(text[k]);
                let bits = glyph_row(g, row);
                if bits & (0x80u8 >> (col as u8)) != 0 {
                    Some(color)
                } else {
                    None
                }
            } else {
                None
            }
        };
    paint_rect(fb, x, y, x_end, y_end, f, Ghost(rule));
    proof {
        assert forall|px: int, py: int| 0 <= px < old(fb).width && 0 <= py < old(fb).height implies
            #[trigger] within(x as int, y as int, x_end as int, y_end as int, rule)(px, py) == rule(px, py) by {
            if x <= px && y <= py && !(px < x_end && py < y_end) {
                lemma_outside_text(px - x, py - y, scale as int, n as int);
            }
        }
        lemma_repainted_same_rule(*old(fb), *fb, within(x as int, y as int, x_end as int, y_end as int, rule), rule);
    }
}

proof fn lemma_cell_in_range(d: int, cell: int, n: int)
    requires
        0 <= d < n * cell,
        cell > 0,
    ensures
        0 <= d / cell < n,
        0 <= d % cell < cell,
{
    assert(0 <= d / cell < n) by (nonlinear_arith)
        requires
            0 <= d < n * cell,
            cell > 0,
    ;
}

proof fn lemma_row_col_range(dy: int, off: int, scale: int)
    requires
        0 <= dy < 8 * scale,
        0 <= off < 8 * scale,
        scale > 0,
    ensures
        0 <= dy / scale < 8,
        0 <= off / scale < 8,
{
    assert(0 <= dy / scale < 8) by (nonlinear_arith)
        requires
            0 <= dy < 8 * scale,
            scale > 0,
    ;
    assert(0 <= off / scale < 8) by (nonlinear_arith)
        requires
            0 <= off < 8 * scale,
            scale > 0,
    ;
}

proof fn lemma_outside_text(dx: int, dy: int, scale: int, n: int)
    requires
        dx >= 0,
        dy >= 0,
        scale > 0,
        dx >= n * (9 * scale) || dy >= 8 * scale,
    ensures
        !(dx / (9 * scale) < n && dx % (9 * scale) < 8 * scale && glyph_on(0, dy / scale, 0) && dy / scale < 8)
            || dx / (9 * scale) >= n || dy / scale >= 8,
        dx >= n * (9 * scale) ==> dx / (9 * scale) >= n,
        dy >= 8 * scale ==> dy / scale >= 8,
{
    if dx >= n * (9 * scale) {
        assert(dx / (9 * scale) >= n) by (nonlinear_arith)
            requires
                dx >= n * (9 * scale),
                scale > 0,
        ;
    }
    if dy >= 8 * scale {
        assert(dy / scale >= 8) by (nonlinear_arith)
            requires
                dy >= 8 * scale,
                scale > 0,
        ;
    }
}

/// Digit character for 0..=9.
pub open spec fn digit_char(d: int) -> char {
    (48 + d) as char
}

/// Decimal representation of `n`, most significant digit first, no leading zeros.
pub open spec fn decimal(n: nat) -> Seq<char>
    decreases n,
{
    if n < 10 {
        seq![digit_char(n as int)]
    } else {
        decimal(n / 10).push(digit_char((n % 10) as int))
    }
}

/// Append the decimal digits of `n`.
fn push_decimal(out: &mut Vec<char>, n: u64)
    ensures
        final(out)@ == old(out)@ + decimal(n as nat),
    decreases n,
{
    if n >= 10 {
        push_decimal(out, n / 10);
    }
    let d = (n % 10) as u8;
    out.push((48u8 + d) as char);
    assert(out@ =~= old(out)@ + decimal(n as nat));
}

/// Decimal text of a number.
pub fn format_number(n: u32) -> (r: Vec<char>)
    ensures
        r@ == decimal(n as nat),
        digits_value(r@) == n,
        forall|i: int| 0 <= i < r@.len() ==> '0' <= #[trigger] r@[i] <= '9',
        r@.len() >= 1,
        r@[0] == '0' ==> n == 0,
{
    proof {
        lemma_decimal_reads_back(n as nat);
    }
    let mut out: Vec<char> = Vec::new();
    push_decimal(&mut out, n as u64);
    assert(out@ =~= decimal(n as nat));
    out
}

/// The last `room` digits of `n` (all of them when they fit): what a writer
/// that emits digits least significant first until its buffer is full keeps.
pub open spec fn digits_within(n: nat, room: int) -> Seq<char> {
    let d = decimal(n);
    if d.len() <= room {
        d
    } else {
        d.subrange(d.len() - room, d.len() as int)
    }
}

/// Append the decimal digits of `value` to text that may grow to `cap`
/// characters: the lowest digits that fit are kept, in order.
pub fn write_number(out: &mut Vec<char>, value: u64, cap: usize)
    requires
        old(out)@.len() <= cap,
        value == 0 ==> old(out)@.len() < cap,
    ensures
        final(out)@ == old(out)@ + digits_within(value as nat, cap - old(out)@.len()),
{
    let mut digits: Vec<char> = Vec::new();
    push_decimal(&mut digits, value);
    assert(digits@ =~= decimal(value as nat));
    let room = cap - out.len();
    let n = digits.len();
    let start = if n <= room { 0 } else { n - room };
    let mut i = start;
    let ghost o = out@;
    while i < n
        invariant
            start <= i <= n,
            n == digits@.len(),
            out@ == o + digits@.subrange(start as int, i as int),
        decreases n - i,
    {
        out.push(digits[i]);
        i = i + 1;
        assert(out@ =~= o + digits@.subrange(start as int, i as int));
    }
    assert(digits@.subrange(0, n as int) =~= digits@);
}

/// Append the characters of `s` that fit in text growing to `cap` characters.
pub fn push_text_capped(out: &mut Vec<char>, s: &str, cap: usize)
    requires
        old(out)@.len() <= cap,
    ensures
        final(out)@ == old(out)@ + s@.take(
            if s@.len() <= cap - old(out)@.len() { s@.len() as int } else { cap - old(out)@.len() }),
{
    let n = s.unicode_len();
    let room = cap - out.len();
    let m = if n <= room { n } else { room };
    let ghost o = out@;
    let mut i: usize = 0;
    while i < m
        invariant
            n == s@.len(),
            m <= n,
            i <= m,
            out@ == o + s@.take(i as int),
        decreases m - i,
    {
        out.push(s.get_char(i));
        i = i + 1;
        assert(out@ =~= o + s@.take(i as int));
    }
}

/// The characters of a string.
pub fn chars_of(s: &str) -> (r: Vec<char>)
    ensures
        r@ == s@,
{
    let mut out: Vec<char> = Vec::new();
    let n = s.unicode_len();
    let mut i: usize = 0;
    while i < n
        invariant
            n == s@.len(),
            i <= n,
            out@ == s@.take(i as int),
        decreases n - i,
    {
        out.push(s.get_char(i));
        i += 1;
        assert(out@ =~= s@.take(i as int));
    }
    assert(s@.take(n as int) =~= s@);
    out
}

/// Shorter text is no wider.
pub proof fn lemma_text_width_mono(n: int, m: int, scale: int)
    requires
        0 <= n <= m,
        scale >= 0,
    ensures
        0 <= text_width(n, scale) <= text_width(m, scale),
{
    assert(0 <= n * (9 * scale) <= m * (9 * scale)) by (nonlinear_arith)
        requires
            0 <= n <= m,
            scale >= 0,
    ;
}

/// Width in pixels of a piece of text at `scale`.
pub fn string_width(text: &Vec<char>, scale: usize) -> (r: usize)
    requires
        text_width(text@.len() as int, scale as int) <= usize::MAX,
    ensures
        r == text_width(text@.len() as int, scale as int),
{
    proof {
        lemma_text_width_parts(text@.len() as int, scale as int);
    }
    if text.len() == 0 {
        return 0;
    }
    text.len() * (9 * scale)
}

/// Height in pixels of a line of text at `scale`.
pub fn char_height(scale: usize) -> (r: usize)
    requires
        8 * scale <= usize::MAX,
    ensures
        r == 8 * scale,
{
    8 * scale
}

proof fn lemma_text_width_parts(n: int, scale: int)
    requires
        n >= 0,
        scale >= 0,
        n * (9 * scale) <= usize::MAX,
    ensures
        n > 0 ==> 9 * scale <= usize::MAX,
{
    if n > 0 {
        assert(9 * scale <= n * (9 * scale)) by (nonlinear_arith)
            requires
                n >= 1,
                scale >= 0,
        ;
    }
}

/// Draw a character at (x, y) with the given color; `scale` multiplies its size.
pub fn draw_char(fb: &mut Framebuffer, x: usize, y: usize, c: char, color: u32, scale: usize)
    requires
        old(fb).wf(),
        x + 9 * scale <= usize::MAX,
        y + 8 * scale <= usize::MAX,
    ensures
        final(fb).wf(),
        repainted(*old(fb), *final(fb), text_rule(x as int, y as int, seq![c], color, scale as int)),
{
    let mut text: Vec<char> = Vec::new();
    text.push(c);
    assert(text@ =~= seq![c]);
    assert(text_width(1, scale as int) == 9 * scale);
    draw_chars(fb, x, y, &text, color, scale);
}

/// Draw a string at (x, y); each character advances by `9 * scale` pixels.
pub fn draw_string(fb: &mut Framebuffer, x: usize, y: usize, s: &str, color: u32, scale: usize)
    requires
        old(fb).wf(),
        x + text_width(s@.len() as int, scale as int) <= usize::MAX,
        y + 8 * scale <= usize::MAX,
    ensures
        final(fb).wf(),
        repainted(*old(fb), *final(fb), text_rule(x as int, y as int, s@, color, scale as int)),
{
    let text = chars_of(s);
    draw_chars(fb, x, y, &text, color, scale);
}

/// Left edge that centers text of width `w` on a screen `fb_width` wide.
pub open spec fn centered_x(fb_width: int, w: int) -> int {
    if w <= fb_width { (fb_width - w) / 2 } else { 0 }
}

/// Draw text horizontally centered on the screen at row `y`.
pub fn draw_chars_centered(fb: &mut Framebuffer, y: usize, text: &Vec<char>, color: u32, scale: usize)
    requires
        old(fb).wf(),
        old(fb).width + text_width(text@.len() as int, scale as int) <= usize::MAX,
        y + 8 * scale <= usize::MAX,
    ensures
        final(fb).wf(),
        repainted(*old(fb), *final(fb), text_rule(
            centered_x(old(fb).width as int, text_width(text@.len() as int, scale as int)), y as int, text@, color, scale as int)),
{
    let w = string_width(text, scale);
    let x = if w <= fb.width { (fb.width - w) / 2 } else { 0 };
    draw_chars(fb, x, y, text, color, scale);
}

/// Draw a string horizontally centered on the screen at row `y`.
pub fn draw_string_centered(fb: &mut Framebuffer, y: usize, s: &str, color: u32, scale: usize)
    requires
        old(fb).wf(),
        old(fb).width + text_width(s@.len() as int, scale as int) <= usize::MAX,
        y + 8 * scale <= usize::MAX,
    ensures
        final(fb).wf(),
        repainted(*old(fb), *final(fb), text_rule(
            centered_x(old(fb).width as int, text_width(s@.len() as int, scale as int)), y as int, s@, color, scale as int)),
{
    let text = chars_of(s);
    draw_chars_centered(fb, y, &text, color, scale);
}

/// Text of the FPS counter: "FPS: " followed by the number.
pub open spec fn fps_text(fps: u32) -> Seq<char> {
    seq!['F', 'P', 'S', ':', ' '] + decimal(fps as nat)
}

/// Format the FPS counter text (at most 12 characters, so below ten million).
fn format_fps(fps: u32) -> (r: Vec<char>)
    requires
        fps < 10_000_000,
    ensures
        r@ == fps_text(fps),
{
    let mut out: Vec<char> = Vec::new();
    out.push('F');
    out.push('P');
    out.push('S');
    out.push(':');
    out.push(' ');
    push_decimal(&mut out, fps as u64);
    assert(out@ =~= fps_text(fps));
    out
}

/// Background color behind the FPS counter.
pub const FPS_BG: u32 = 0x00202040;
/// Text color of the FPS counter.
pub const FPS_FG: u32 = 0x00FFFF00;

/// Draw the FPS counter in the top-left corner at scale 3 on a solid background
/// extending 6 pixels around the text.
pub fn draw_fps(fb: &mut Framebuffer, fps: u32, _fb_width: usize)
    requires
        old(fb).wf(),
        fps < 10_000_000,
    ensures
        final(fb).wf(),
        repainted(*old(fb), *final(fb), overlay(
            solid_rect(4, 4, 16 + text_width(fps_text(fps).len() as int, 3), 40, FPS_BG),
            text_rule(10, 10, fps_text(fps), FPS_FG, 3))),
{
    let text = format_fps(fps);
    proof {
        lemma_decimal_len(fps as nat);
    }
    let text_w = text.len() * 27;
    let ghost f0 = *fb;
    fill_span_rect(fb, 4, 4, 16 + text_w, 40, FPS_BG);
    let ghost f1 = *fb;
    draw_chars(fb, 10, 10, &text, FPS_FG, 3);
    proof {
        lemma_repainted_compose(f0, f1, *fb,
            solid_rect(4, 4, 16 + text_w, 40, FPS_BG), text_rule(10, 10, text@, FPS_FG, 3));
    }
}

/// The number a string of decimal digits denotes, most significant first.
pub open spec fn digits_value(s: Seq<char>) -> int
    decreases s.len(),
{
    if s.len() == 0 {
        0
    } else {
        digits_value(s.drop_last()) * 10 + (s.last() as int - '0' as int)
    }
}

/// The decimal form of `n` reads back as `n`: it is a non-empty string of
/// the characters '0' to '9', with no leading zero unless it is "0", whose
/// value is `n`.
pub proof fn lemma_decimal_reads_back(n: nat)
    ensures
        decimal(n).len() >= 1,
        forall|i: int| 0 <= i < decimal(n).len() ==> '0' <= #[trigger] decimal(n)[i] <= '9',
        decimal(n)[0] == '0' ==> n == 0,
        digits_value(decimal(n)) == n,
    decreases n,
{
    if n < 10 {
        assert(digit_char(n as int) as int == 48 + n);
        assert('0' as int == 48);
        assert(decimal(n) == seq![digit_char(n as int)]);
        assert(seq![digit_char(n as int)].drop_last() =~= Seq::<char>::empty());
        assert(digits_value(decimal(n)) == digits_value(Seq::<char>::empty()) * 10 + (digit_char(n as int) as int - '0' as int));
    } else {
        lemma_decimal_reads_back(n / 10);
        let s = decimal(n);
        assert(digit_char((n % 10) as int) as int == 48 + n % 10);
        assert('0' as int == 48);
        assert(s == decimal(n / 10).push(digit_char((n % 10) as int)));
        assert(s.drop_last() =~= decimal(n / 10));
        assert forall|i: int| 0 <= i < s.len() implies '0' <= #[trigger] s[i] <= '9' by {
            if i < s.len() - 1 {
                assert(s[i] == decimal(n / 10)[i]);
            }
        }
        assert(s[0] == decimal(n / 10)[0]);
        assert(digits_value(s) == digits_value(s.drop_last()) * 10 + (s.last() as int - '0' as int));
        assert(n / 10 * 10 + n % 10 == n);
    }
}

/// A number below ten million has at most seven decimal digits; any u32 at most ten.
pub proof fn lemma_decimal_len(n: nat)
    ensures
        decimal(n).len() >= 1,
        n < 256 ==> decimal(n).len() <= 3,
        n < 0x1_0000 ==> decimal(n).len() <= 5,
        n < 10_000_000 ==> decimal(n).len() <= 7,
        n < 0x1_0000_0000 ==> decimal(n).len() <= 10,
        n < 0x1_0000_0000_0000_0000 ==> decimal(n).len() <= 20,
    decreases n,
{
    lemma_decimal_len_bound(n, 3);
    lemma_decimal_len_bound(n, 5);
    lemma_decimal_len_bound(n, 7);
    lemma_decimal_len_bound(n, 10);
    lemma_decimal_len_bound(n, 20);
    reveal_with_fuel(pow10, 21);
    if n >= 10 {
        lemma_decimal_len(n / 10);
    }
}

/// A number below 10^k has at most k decimal digits.
proof fn lemma_decimal_len_bound(n: nat, k: nat)
    ensures
        n < pow10(k) ==> decimal(n).len() <= k || k == 0,
    decreases n,
{
    if n >= 10 && k > 0 {
        lemma_decimal_len_bound(n / 10, (k - 1) as nat);
        if n < pow10(k) {
            assert(n / 10 < pow10((k - 1) as nat)) by (nonlinear_arith)
                requires
                    n < pow10(k),
                    pow10(k) == 10 * pow10((k - 1) as nat),
            ;
        }
    }
}

/// 10^k.
pub open spec fn pow10(k: nat) -> nat
    decreases k,
{
    if k == 0 {
        1
    } else {
        10 * pow10((k - 1) as nat)
    }
}

} // verus!
