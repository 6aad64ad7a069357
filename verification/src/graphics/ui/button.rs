//! Buttons, button lists, toggles and sliders.

use vstd::prelude::*;
use crate::graphics::framebuffer::{Framebuffer, repainted, overlay, solid_rect, lemma_repainted_compose, fill_span_rect};
use crate::graphics::font::{
    text_rule, text_width, draw_string, draw_chars, chars_of, string_width, decimal, format_number, lemma_decimal_len,
    lemma_text_width_mono,
};
use super::colors;
use super::panel::{bordered_box, fill_bordered_box};

verus! {

/// A selectable button with a label.
#[derive(Debug, Clone, Copy)]
pub struct Button {
    pub x: usize,
    pub y: usize,
    pub width: usize,
    pub height: usize,
    pub label: &'static str,
    pub selected: bool,
}

/// Label scale used by buttons, toggles and sliders.
pub const LABEL_SCALE: usize = 2;
/// Height of a label line at scale 2.
pub const LABEL_HEIGHT: usize = 16;

/// `a - b`, or 0 when `b > a`.
pub open spec fn sat_sub(a: int, b: int) -> int {
    if a >= b { a - b } else { 0 }
}

impl Button {
    /// Create a new, unselected button.
    pub fn new(x: usize, y: usize, width: usize, height: usize, label: &'static str) -> (r: Self)
        ensures
            r == (Button { x, y, width, height, label, selected: false }),
    {
        Button { x, y, width, height, label, selected: false }
    }

    /// Create a button horizontally centered on a screen `fb_width` wide.
    pub fn centered(y: usize, width: usize, height: usize, label: &'static str, fb_width: usize) -> (r: Self)
        ensures
            r == (Button { x: (sat_sub(fb_width as int, width as int) / 2) as usize, y, width, height, label, selected: false }),
    {
        let x = fb_width.saturating_sub(width) / 2;
        Self::new(x, y, width, height, label)
    }

    /// Left edge of the label.
    pub open spec fn label_x(self) -> int {
        self.x + sat_sub(self.width as int, text_width(self.label@.len() as int, 2)) / 2
    }

    /// Top edge of the label.
    pub open spec fn label_y(self) -> int {
        self.y + sat_sub(self.height as int, 16) / 2
    }

    /// Rule of the whole button: the bordered box (yellow border and highlighted
    /// fill when selected), the label centered on it, and a `>` marker 30 pixels
    /// to the left of a selected button.
    pub open spec fn rule(self) -> spec_fn(int, int) -> Option<u32> {
        let boxed = bordered_box(self.x as int, self.y as int, self.width as int, self.height as int, 2,
            if self.selected { colors::BUTTON_SELECTED } else { colors::BUTTON_NORMAL },
            if self.selected { colors::FN_YELLOW } else { colors::PANEL_BORDER });
        let labeled = overlay(boxed, text_rule(self.label_x(), self.label_y(), self.label@, colors::BUTTON_TEXT, 2));
        if self.selected {
            overlay(labeled, text_rule(sat_sub(self.x as int, 30), self.label_y(), seq!['>'], colors::FN_YELLOW, 2))
        } else {
            labeled
        }
    }

    /// Coordinates are small enough for every drawing computation.
    pub open spec fn fits(self) -> bool {
        &&& self.x + self.width + text_width(self.label@.len() as int, 2) <= usize::MAX
        &&& self.y + self.height + 16 <= usize::MAX
    }

    /// Draw the button.
    pub fn draw(&self, fb: &mut Framebuffer)
        requires
            old(fb).wf(),
            self.fits(),
        ensures
            final(fb).wf(),
            repainted(*old(fb), *final(fb), self.rule()),
    {
        let bg_color = if self.selected { colors::BUTTON_SELECTED } else { colors::BUTTON_NORMAL };
        let border_color = if self.selected { colors::FN_YELLOW } else { colors::PANEL_BORDER };
        let ghost f0 = *fb;
        fill_bordered_box(fb, self.x, self.y, self.width, self.height, 2, bg_color, border_color);
        let ghost f1 = *fb;
        let label = chars_of(self.label);
        let text_w = string_width(&label, 2);
        let text_x = self.x + self.width.saturating_sub(text_w) / 2;
        let text_y = self.y + self.height.saturating_sub(LABEL_HEIGHT) / 2;
        draw_string(fb, text_x, text_y, self.label, colors::BUTTON_TEXT, LABEL_SCALE);
        let ghost f2 = *fb;
        proof {
            lemma_repainted_compose(f0, f1, f2,
                bordered_box(self.x as int, self.y as int, self.width as int, self.height as int, 2, bg_color, border_color),
                text_rule(self.label_x(), self.label_y(), self.label@, colors::BUTTON_TEXT, 2));
        }
        if self.selected {
            let arrow_x = self.x.saturating_sub(30);
            proof {
                reveal_strlit(">");
            }
            assert(text_width(1, 2) == 18);
            draw_string(fb, arrow_x, text_y, ">", colors::FN_YELLOW, LABEL_SCALE);
            proof {
                lemma_repainted_compose(f0, f2, *fb,
                    overlay(
                        bordered_box(self.x as int, self.y as int, self.width as int, self.height as int, 2, bg_color, border_color),
                        text_rule(self.label_x(), self.label_y(), self.label@, colors::BUTTON_TEXT, 2)),
                    text_rule(sat_sub(self.x as int, 30), self.label_y(), seq!['>'], colors::FN_YELLOW, 2));
            }
        }
    }

    /// Check if a point is inside the button.
    pub fn contains(&self, px: usize, py: usize) -> (r: bool)
        requires
            self.x + self.width <= usize::MAX,
            self.y + self.height <= usize::MAX,
        ensures
            r == (self.x <= px < self.x + self.width && self.y <= py < self.y + self.height),
    {
        px >= self.x && px < self.x + self.width && py >= self.y && py < self.y + self.height
    }
}

/// `b` with its selection flag set to `sel`.
pub open spec fn with_selected(b: Button, sel: bool) -> Button {
    Button { selected: sel, ..b }
}

/// Buttons with `from` deselected and then `to` selected.
pub open spec fn reselected(b: Seq<Button>, from: int, to: int) -> Seq<Button> {
    let cleared = b.update(from, with_selected(b[from], false));
    cleared.update(to, with_selected(cleared[to], true))
}

/// A list of up to four menu buttons with one selected.
pub struct ButtonList {
    pub buttons: [Button; 4],
    pub selected_index: usize,
    pub count: usize,
}

impl ButtonList {
    /// At most four buttons are in use and the selection is one of them.
    pub open spec fn wf(self) -> bool {
        &&& self.count <= 4
        &&& self.selected_index < 4
        &&& self.count > 0 ==> self.selected_index < self.count
    }

    /// Create a new button list using the first `count` buttons; the first is selected.
    pub fn new(buttons: [Button; 4], count: usize) -> (r: Self)
        ensures
            r.selected_index == 0,
            r.count == count,
            r.buttons@ == if count > 0 { buttons@.update(0, with_selected(buttons@[0], true)) } else { buttons@ },
    {
        let mut list = ButtonList { buttons, selected_index: 0, count };
        if count > 0 {
            let mut b = list.buttons[0];
            b.selected = true;
            list.buttons[0] = b;
        }
        list
    }

    /// Move the selection to button `to`.
    fn move_selection(&mut self, to: usize)
        requires
            old(self).selected_index < 4,
            to < 4,
        ensures
            final(self).count == old(self).count,
            final(self).selected_index == to,
            final(self).buttons@ == reselected(old(self).buttons@, old(self).selected_index as int, to as int),
    {
        let i = self.selected_index;
        let mut b = self.buttons[i];
        b.selected = false;
        self.buttons[i] = b;
        self.selected_index = to;
        let mut c = self.buttons[to];
        c.selected = true;
        self.buttons[to] = c;
    }

    /// Move selection up, wrapping from the first button to the last.
    pub fn select_prev(&mut self)
        requires
            old(self).wf(),
        ensures
            final(self).wf(),
            old(self).count == 0 ==> *final(self) == *old(self),
            old(self).count > 0 ==> final(self).selected_index == (if old(self).selected_index == 0 {
                old(self).count - 1
            } else {
                old(self).selected_index - 1
            }),
            old(self).count > 0 ==> final(self).buttons@ == reselected(old(self).buttons@, old(self).selected_index as int, final(self).selected_index as int),
            final(self).count == old(self).count,
    {
        if self.count == 0 {
            return;
        }
        let to = if self.selected_index == 0 { self.count - 1 } else { self.selected_index - 1 };
        self.move_selection(to);
    }

    /// Move selection down, wrapping from the last button to the first.
    pub fn select_next(&mut self)
        requires
            old(self).wf(),
        ensures
            final(self).wf(),
            old(self).count == 0 ==> *final(self) == *old(self),
            old(self).count > 0 ==> final(self).selected_index == (old(self).selected_index + 1) % (old(self).count as int),
            old(self).count > 0 ==> final(self).buttons@ == reselected(old(self).buttons@, old(self).selected_index as int, final(self).selected_index as int),
            final(self).count == old(self).count,
    {
        if self.count == 0 {
            return;
        }
        let to = (self.selected_index + 1) % self.count;
        self.move_selection(to);
    }

    /// Set selection by index; indices past the button count are ignored.
    pub fn select(&mut self, index: usize)
        requires
            old(self).wf(),
        ensures
            final(self).wf(),
            index >= old(self).count ==> *final(self) == *old(self),
            index < old(self).count ==> final(self).selected_index == index,
            index < old(self).count ==> final(self).buttons@ == reselected(old(self).buttons@, old(self).selected_index as int, index as int),
            final(self).count == old(self).count,
    {
        if index >= self.count {
            return;
        }
        self.move_selection(index);
    }

    /// Get the selected button's label.
    pub fn selected_label(&self) -> (r: &'static str)
        requires
            self.selected_index < 4,
        ensures
            r == self.buttons@[self.selected_index as int].label,
    {
        self.buttons[self.selected_index].label
    }

    /// Draw the buttons in use, in order.
    pub fn draw(&self, fb: &mut Framebuffer)
        requires
            old(fb).wf(),
            self.count <= 4,
            forall|i: int| 0 <= i < self.count ==> #[trigger] self.buttons@[i].fits(),
        ensures
            final(fb).wf(),
            repainted(*old(fb), *final(fb), buttons_rule(self.buttons@, self.count as int)),
    {
        let ghost f0 = *fb;
        fill_span_rect(fb, 0, 0, 0, 0, 0);
        proof {
            crate::graphics::framebuffer::lemma_repainted_same_rule(f0, *fb, solid_rect(0, 0, 0, 0, 0), buttons_rule(self.buttons@, 0));
        }
        let mut i: usize = 0;
        while i < self.count
            invariant
                fb.wf(),
                i <= self.count,
                self.count <= 4,
                forall|j: int| 0 <= j < self.count ==> #[trigger] self.buttons@[j].fits(),
                repainted(f0, *fb, buttons_rule(self.buttons@, i as int)),
            decreases self.count - i,
        {
            let ghost before = *fb;
            self.buttons[i].draw(fb);
            proof {
                lemma_repainted_compose(f0, before, *fb, buttons_rule(self.buttons@, i as int), self.buttons@[i as int].rule());
            }
            i += 1;
        }
    }
}

/// Rule of the first `n` buttons drawn in order (later buttons on top).
pub open spec fn buttons_rule(buttons: Seq<Button>, n: int) -> spec_fn(int, int) -> Option<u32>
    decreases n,
{
    if n <= 0 {
        |x: int, y: int| None
    } else {
        overlay(buttons_rule(buttons, n - 1), buttons[n - 1].rule())
    }
}

/// A toggle switch (ON/OFF).
pub struct Toggle {
    pub x: usize,
    pub y: usize,
    pub width: usize,
    pub height: usize,
    pub label: &'static str,
    pub value: bool,
    pub selected: bool,
}

impl Toggle {
    /// Create an unselected toggle.
    pub fn new(x: usize, y: usize, width: usize, height: usize, label: &'static str, value: bool) -> (r: Self)
        ensures
            r == (Toggle { x, y, width, height, label, value, selected: false }),
    {
        Toggle { x, y, width, height, label, value, selected: false }
    }

    /// The value text: "ON" or "OFF".
    pub open spec fn value_text(self) -> Seq<char> {
        if self.value { seq!['O', 'N'] } else { seq!['O', 'F', 'F'] }
    }

    /// Top edge of the text line.
    pub open spec fn text_y(self) -> int {
        self.y + sat_sub(self.height as int, 16) / 2
    }

    /// Rule of the toggle: its background, the label 10 pixels from the left
    /// edge and the value text ending 10 pixels from the right edge.
    pub open spec fn rule(self) -> spec_fn(int, int) -> Option<u32> {
        overlay(
            overlay(
                solid_rect(self.x as int, self.y as int, self.x + self.width, self.y + self.height,
                    if self.selected { colors::BUTTON_SELECTED } else { colors::BUTTON_NORMAL }),
                text_rule(self.x + 10, self.text_y(), self.label@, colors::BUTTON_TEXT, 2)),
            text_rule(self.x + self.width - text_width(self.value_text().len() as int, 2) - 10, self.text_y(),
                self.value_text(), if self.value { colors::READY } else { colors::NOT_READY }, 2))
    }

    /// Draw the toggle.
    pub fn draw(&self, fb: &mut Framebuffer)
        requires
            old(fb).wf(),
            self.x + self.width + 10 + text_width(self.label@.len() as int, 2) <= usize::MAX,
            self.y + self.height + 16 <= usize::MAX,
            self.x + self.width >= 10 + text_width(self.value_text().len() as int, 2),
        ensures
            final(fb).wf(),
            repainted(*old(fb), *final(fb), self.rule()),
    {
        let bg_color = if self.selected { colors::BUTTON_SELECTED } else { colors::BUTTON_NORMAL };
        let ghost f0 = *fb;
        fill_span_rect(fb, self.x, self.y, self.x + self.width, self.y + self.height, bg_color);
        let ghost f1 = *fb;
        let text_y = self.y + self.height.saturating_sub(LABEL_HEIGHT) / 2;
        draw_string(fb, self.x + 10, text_y, self.label, colors::BUTTON_TEXT, LABEL_SCALE);
        let ghost f2 = *fb;
        proof {
            lemma_repainted_compose(f0, f1, f2,
                solid_rect(self.x as int, self.y as int, self.x + self.width, self.y + self.height, bg_color),
                text_rule(self.x + 10, self.text_y(), self.label@, colors::BUTTON_TEXT, 2));
            reveal_strlit("ON");
            reveal_strlit("OFF");
        }
        let value_str = if self.value { "ON" } else { "OFF" };
        let value_color = if self.value { colors::READY } else { colors::NOT_READY };
        assert(value_str@ == self.value_text());
        let value_width: usize = if self.value { 36 } else { 54 };
        assert(text_width(2, 2) == 2 * 18);
        assert(text_width(3, 2) == 3 * 18);
        assert(value_width == text_width(self.value_text().len() as int, 2));
        let value_x = self.x + self.width - value_width - 10;
        draw_string(fb, value_x, text_y, value_str, value_color, LABEL_SCALE);
        proof {
            lemma_repainted_compose(f0, f2, *fb,
                overlay(
                    solid_rect(self.x as int, self.y as int, self.x + self.width, self.y + self.height, bg_color),
                    text_rule(self.x + 10, self.text_y(), self.label@, colors::BUTTON_TEXT, 2)),
                text_rule(value_x as int, self.text_y(), self.value_text(), value_color, 2));
        }
    }

    /// Flip the value.
    pub fn toggle(&mut self)
        ensures
            *final(self) == (Toggle { value: !old(self).value, ..*old(self) }),
    {
        self.value = !self.value;
    }
}

/// A slider holding a value in `[min, max]`.
pub struct Slider {
    pub x: usize,
    pub y: usize,
    pub width: usize,
    pub height: usize,
    pub label: &'static str,
    pub value: u8,
    pub min: u8,
    pub max: u8,
    pub selected: bool,
}

impl Slider {
    /// Create an unselected slider.
    pub fn new(x: usize, y: usize, width: usize, height: usize, label: &'static str, value: u8, min: u8, max: u8) -> (r: Self)
        ensures
            r == (Slider { x, y, width, height, label, value, min, max, selected: false }),
    {
        Slider { x, y, width, height, label, value, min, max, selected: false }
    }

    /// Rule of the slider with its bar filled over `fill` pixels: background,
    /// label at the left, the bar in the right half (40 pixels short of the
    /// edge), its filled part, and the value at the right.
    pub open spec fn rule(self, fill: int) -> spec_fn(int, int) -> Option<u32> {
        let ty = self.y + sat_sub(self.height as int, 16) / 2;
        let bx = self.x + self.width / 2;
        let by = self.y + self.height / 2 - 4;
        let digits = decimal(self.value as nat);
        overlay(overlay(overlay(overlay(
            solid_rect(self.x as int, self.y as int, self.x + self.width, self.y + self.height,
                if self.selected { colors::BUTTON_SELECTED } else { colors::BUTTON_NORMAL }),
            text_rule(self.x + 10, ty, self.label@, colors::BUTTON_TEXT, 2)),
            solid_rect(bx, by, bx + self.width / 2 - 40, by + 8, colors::PANEL_BG)),
            solid_rect(bx, by, bx + fill, by + 8, colors::FN_BLUE)),
            text_rule(self.x + self.width - text_width(digits.len() as int, 2) - 10, ty, digits, colors::BUTTON_TEXT, 2))
    }

    /// Draw the slider; `fill_width` is the width of the bar's filled part
    /// (the bar's width times `(value - min) / (max - min)`, which the caller
    /// computes in floating point).
    pub fn draw(&self, fb: &mut Framebuffer, fill_width: usize)
        requires
            old(fb).wf(),
            self.width >= 80,
            self.height >= 8,
            self.x + self.width + text_width(self.label@.len() as int, 2) + 10 <= usize::MAX,
            self.y + self.height + 16 <= usize::MAX,
            self.x + self.width / 2 + fill_width <= usize::MAX,
            self.x + self.width >= text_width(decimal(self.value as nat).len() as int, 2) + 10,
        ensures
            final(fb).wf(),
            repainted(*old(fb), *final(fb), self.rule(fill_width as int)),
    {
        let bg = if self.selected { colors::BUTTON_SELECTED } else { colors::BUTTON_NORMAL };
        let ghost f0 = *fb;
        fill_span_rect(fb, self.x, self.y, self.x + self.width, self.y + self.height, bg);
        let ghost f1 = *fb;
        let ghost r1 = solid_rect(self.x as int, self.y as int, self.x + self.width, self.y + self.height, bg);
        let text_y = self.y + self.height.saturating_sub(LABEL_HEIGHT) / 2;
        draw_string(fb, self.x + 10, text_y, self.label, colors::BUTTON_TEXT, LABEL_SCALE);
        let ghost f2 = *fb;
        let ghost r2 = text_rule(self.x + 10, text_y as int, self.label@, colors::BUTTON_TEXT, 2);
        proof { lemma_repainted_compose(f0, f1, f2, r1, r2); }
        let bar_x = self.x + self.width / 2;
        let bar_width = self.width / 2 - 40;
        let bar_y = self.y + self.height / 2 - 4;
        fill_span_rect(fb, bar_x, bar_y, bar_x + bar_width, bar_y + 8, colors::PANEL_BG);
        let ghost f3 = *fb;
        let ghost r3 = solid_rect(bar_x as int, bar_y as int, bar_x + bar_width, bar_y + 8, colors::PANEL_BG);
        proof { lemma_repainted_compose(f0, f2, f3, overlay(r1, r2), r3); }
        fill_span_rect(fb, bar_x, bar_y, bar_x + fill_width, bar_y + 8, colors::FN_BLUE);
        let ghost f4 = *fb;
        let ghost r4 = solid_rect(bar_x as int, bar_y as int, bar_x + fill_width, bar_y + 8, colors::FN_BLUE);
        proof {
            lemma_repainted_compose(f0, f3, f4, overlay(overlay(r1, r2), r3), r4);
            lemma_decimal_len(self.value as nat);
        }
        let digits = format_number(self.value as u32);
        let w = string_width(&digits, 2);
        proof {
            lemma_text_width_mono(digits@.len() as int, 3, 2);
        }
        draw_chars(fb, self.x + self.width - w - 10, text_y, &digits, colors::BUTTON_TEXT, 2);
        proof {
            lemma_repainted_compose(f0, f4, *fb, overlay(overlay(overlay(r1, r2), r3), r4),
                text_rule(self.x + self.width - w - 10, text_y as int, decimal(self.value as nat), colors::BUTTON_TEXT, 2));
        }
    }

    /// Step the value up by one unless it is at the maximum.
    pub fn increase(&mut self)
        ensures
            *final(self) == (Slider {
                value: if old(self).value < old(self).max { (old(self).value + 1) as u8 } else { old(self).value },
                ..*old(self)
            }),
    {
        if self.value < self.max {
            self.value += 1;
        }
    }

    /// Step the value down by one unless it is at the minimum.
    pub fn decrease(&mut self)
        ensures
            *final(self) == (Slider {
                value: if old(self).value > old(self).min { (old(self).value - 1) as u8 } else { old(self).value },
                ..*old(self)
            }),
    {
        if self.value > self.min {
            self.value -= 1;
        }
    }
}

/// A value within a slider's range stays there under `increase` and `decrease`,
/// and `decrease` undoes `increase` below the maximum.
pub proof fn lemma_slider_steps(value: u8, min: u8, max: u8)
    requires
        min <= value <= max,
    ensures
        value < max ==> min <= value + 1 <= max && ((value + 1) as u8 > min) && ((value + 1) - 1 == value),
        value > min ==> min <= value - 1 <= max,
{
}

} // verus!
