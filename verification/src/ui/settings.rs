//! Settings screen: a list of options edited in a local copy of the settings,
//! saved back when the screen is left.

use vstd::prelude::*;
use crate::game_types::state::{GameState, MenuAction, Settings};
use super::menu::{
    SettingsOption, SETTINGS_OPTION_COUNT, settings_option_at, clamp_step, toggled, settings_label, range_bounds,
    range_value,
};
use crate::graphics::font::{
    decimal, lemma_decimal_len, text_rule, text_width, centered_x, draw_chars, draw_chars_centered, draw_string,
    format_number, chars_of, string_width, lemma_text_width_mono,
};
use crate::graphics::framebuffer::{
    Framebuffer, repainted, overlay, no_paint, solid_rect, fill_span_rect, lemma_repainted_compose,
    lemma_repainted_nothing, lemma_width_bound,
};
use crate::graphics::ui::colors;
use crate::graphics::ui::panel::{bordered_box, rows_rule, draw_gradient_background_raw, draw_panel_raw};

verus! {

/// Settings screen state.
pub struct SettingsScreen {
    pub selected_index: usize,
    pub fb_width: usize,
    pub fb_height: usize,
    pub local_settings: Settings,
}

/// Settings after moving a range option by `delta` within its bounds.
pub open spec fn adjusted(s: Settings, option: SettingsOption, delta: int) -> Settings {
    match option {
        SettingsOption::Sensitivity => Settings { sensitivity: clamp_step(s.sensitivity as int, delta, 1, 10) as u8, ..s },
        SettingsOption::RenderDistance => Settings {
            render_distance: clamp_step(s.render_distance as int, delta, 1, 3) as u8,
            ..s
        },
        SettingsOption::Volume => Settings { volume: clamp_step(s.volume as int, delta, 0, 100) as u8, ..s },
        _ => s,
    }
}

/// Settings after Left (`delta` -1) or Right (`delta` 1) on `option`: an on/off
/// option flips, a range option moves.
pub open spec fn edited(s: Settings, option: SettingsOption, delta: int) -> Settings {
    if option is ShowFps || option is InvertY {
        toggled(s, option)
    } else {
        adjusted(s, option, delta)
    }
}

impl SettingsScreen {
    /// The screen editing a copy of `settings`, first option selected.
    pub fn new(fb_width: usize, fb_height: usize, settings: Settings) -> (r: Self)
        ensures
            r == (SettingsScreen { selected_index: 0, fb_width, fb_height, local_settings: settings }),
    {
        SettingsScreen { selected_index: 0, fb_width, fb_height, local_settings: settings }
    }

    /// Take a fresh copy of the global settings.
    pub fn reload(&mut self, settings: Settings)
        ensures
            *final(self) == (SettingsScreen { local_settings: settings, ..*old(self) }),
    {
        self.local_settings = settings;
    }

    /// Store the edited settings in the global ones.
    pub fn save(&self, global: &mut Settings)
        ensures
            *final(global) == self.local_settings,
    {
        *global = self.local_settings;
    }

    /// Up and Down move the selection (wrapping); Left and Right flip an on/off
    /// option or move a range option by one; Enter flips an on/off option or,
    /// on Back, saves and returns to the party lobby; Escape saves and returns.
    pub fn update(&mut self, action: MenuAction, global: &mut Settings) -> (r: Option<GameState>)
        requires
            old(self).selected_index < SETTINGS_OPTION_COUNT,
        ensures
            final(self).selected_index < SETTINGS_OPTION_COUNT,
            final(self).fb_width == old(self).fb_width,
            final(self).fb_height == old(self).fb_height,
            ({
                let i = old(self).selected_index;
                let option = settings_option_at(i as int);
                let s = old(self).local_settings;
                match action {
                    MenuAction::Up => final(self).selected_index == (if i == 0 { 5 } else { i - 1 })
                        && final(self).local_settings == s && r is None && *final(global) == *old(global),
                    MenuAction::Down => final(self).selected_index == (i + 1) % 6
                        && final(self).local_settings == s && r is None && *final(global) == *old(global),
                    MenuAction::Left => final(self).selected_index == i && final(self).local_settings == edited(s, option, -1)
                        && r is None && *final(global) == *old(global),
                    MenuAction::Right => final(self).selected_index == i && final(self).local_settings == edited(s, option, 1)
                        && r is None && *final(global) == *old(global),
                    MenuAction::Select => final(self).selected_index == i && if option is Back {
                        final(self).local_settings == s && *final(global) == s && r == Some(GameState::PartyLobby)
                    } else {
                        final(self).local_settings == toggled(s, option) && r is None && *final(global) == *old(global)
                    },
                    MenuAction::Back => final(self).selected_index == i && final(self).local_settings == s
                        && *final(global) == s && r == Some(GameState::PartyLobby),
                    MenuAction::NoAction => *final(self) == *old(self) && r is None && *final(global) == *old(global),
                }
            }),
    {
        match action {
            MenuAction::Up => {
                if self.selected_index == 0 {
                    self.selected_index = SETTINGS_OPTION_COUNT - 1;
                } else {
                    self.selected_index = self.selected_index - 1;
                }
            },
            MenuAction::Down => {
                self.selected_index = (self.selected_index + 1) % SETTINGS_OPTION_COUNT;
            },
            MenuAction::Left => {
                let option = SettingsOption::from_index(self.selected_index);
                if option.is_toggle() {
                    self.local_settings.toggle(option);
                } else if option.is_range() {
                    self.local_settings.adjust(option, -1);
                }
            },
            MenuAction::Right => {
                let option = SettingsOption::from_index(self.selected_index);
                if option.is_toggle() {
                    self.local_settings.toggle(option);
                } else if option.is_range() {
                    self.local_settings.adjust(option, 1);
                }
            },
            MenuAction::Select => {
                let option = SettingsOption::from_index(self.selected_index);
                if option.is_toggle() {
                    self.local_settings.toggle(option);
                } else if option == SettingsOption::Back {
                    self.save(global);
                    return Some(GameState::PartyLobby);
                }
            },
            MenuAction::Back => {
                self.save(global);
                return Some(GameState::PartyLobby);
            },
            MenuAction::NoAction => {},
        }
        None
    }
}

/// Width of the filled part of a 220-pixel slider bar for `v` in `[lo, hi]`:
/// the bar's width times `(v - lo) / (hi - lo)`, rounded down.
pub open spec fn fill_width(v: int, lo: int, hi: int) -> int {
    220 * (v - lo) / (hi - lo)
}

/// Range options hold values within their bounds.
pub open spec fn settings_in_range(s: Settings) -> bool {
    &&& 1 <= s.sensitivity <= 10
    &&& 1 <= s.render_distance <= 3
    &&& s.volume <= 100
}

impl SettingsScreen {
    /// Rule of the 560 x 50 row of `option` at (x, y): its background, the label,
    /// and the value: "ON"/"OFF" for an on/off option; a slider bar, its filled
    /// part and the number for a range option; a `>` left of a selected Back.
    pub open spec fn option_rule(self, option: SettingsOption, x: int, y: int, selected: bool) -> spec_fn(int, int) -> Option<u32> {
        let base = overlay(
            solid_rect(x, y, x + 560, y + 50, if selected { colors::BUTTON_SELECTED } else { colors::BUTTON_NORMAL }),
            text_rule(x + 15, y + 17, settings_label(option), colors::BUTTON_TEXT, 2));
        let s = self.local_settings;
        if option is ShowFps || option is InvertY {
            let on = s.get_value_spec(option) == 1;
            let text = if on { "ON"@ } else { "OFF"@ };
            overlay(base, text_rule(x + 560 - text_width(text.len() as int, 2) - 15, y + 17, text,
                if on { colors::READY } else { colors::NOT_READY }, 2))
        } else if option is Back {
            if selected { overlay(base, text_rule(x - 25, y + 17, seq!['>'], colors::FN_YELLOW, 2)) } else { base }
        } else {
            let v = range_value(s, option) as int;
            let (lo, hi) = range_bounds(option);
            let digits = decimal(v as nat);
            overlay(
                overlay(
                    overlay(base, solid_rect(x + 280, y + 21, x + 500, y + 29, colors::PANEL_BG)),
                    solid_rect(x + 280, y + 21, x + 280 + fill_width(v, lo as int, hi as int), y + 29, colors::FN_BLUE)),
                text_rule(x + 560 - text_width(digits.len() as int, 2) - 15, y + 17, digits, colors::BUTTON_TEXT, 2))
        }
    }

    /// Rule of the first `n` option rows, the panel starting at column `px`.
    pub open spec fn options_rule(self, px: int, n: int) -> spec_fn(int, int) -> Option<u32>
        decreases n,
    {
        if n <= 0 {
            no_paint()
        } else {
            overlay(self.options_rule(px, n - 1),
                self.option_rule(settings_option_at(n - 1), px + 20, 160 + 60 * (n - 1), n - 1 == self.selected_index))
        }
    }

    /// Rule of the settings screen over the background rows `bg` on a screen
    /// `screen_w` pixels wide: centered title, the 600 x 450 panel centered on a
    /// screen `fb_width` wide, the six option rows and the centered footer.
    pub open spec fn rule(self, bg: Seq<u32>, fb_width: int, fb_height: int, screen_w: int) -> spec_fn(int, int) -> Option<u32> {
        let px = (fb_width - 600) / 2;
        overlay(
            overlay(
                overlay(
                    overlay(
                        rows_rule(bg, fb_width, fb_height),
                        text_rule(centered_x(screen_w, text_width(8, 4)), 60, "SETTINGS"@, colors::TITLE, 4)),
                    bordered_box(px, 140, 600, 450, 2, colors::PANEL_BG, colors::PANEL_BORDER)),
                self.options_rule(px, 6)),
            text_rule(centered_x(screen_w, text_width(43, 2)), fb_height - 50,
                "LEFT/RIGHT TO ADJUST. ESC TO SAVE AND EXIT."@, colors::SUBTITLE, 2))
    }

    /// Draw the settings screen over the gradient background rows `background`.
    pub fn draw(&self, fb: &mut Framebuffer, background: &Vec<u32>, fb_width: usize, fb_height: usize)
        requires
            old(fb).wf(),
            fb_height >= 50,
            600 <= fb_width <= usize::MAX / 2,
            self.selected_index == 5 ==> fb_width >= 610,
            settings_in_range(self.local_settings),
        ensures
            final(fb).wf(),
            repainted(*old(fb), *final(fb), self.rule(background@, fb_width as int, fb_height as int, old(fb).width as int)),
    {
        let ghost f0 = *fb;
        let ghost screen_w = f0.width as int;
        proof {
            lemma_width_bound(f0);
        }
        draw_gradient_background_raw(fb, background, fb_width, fb_height);
        let ghost f1 = *fb;
        let ghost r1 = rows_rule(background@, fb_width as int, fb_height as int);
        let title = chars_of("SETTINGS");
        proof {
            reveal_strlit("SETTINGS");
        }
        draw_chars_centered(fb, 60, &title, colors::TITLE, 4);
        let ghost f2 = *fb;
        let ghost r2 = text_rule(centered_x(screen_w, text_width(8, 4)), 60, "SETTINGS"@, colors::TITLE, 4);
        proof {
            lemma_repainted_compose(f0, f1, f2, r1, r2);
        }
        let panel_x = (fb_width - 600) / 2;
        draw_panel_raw(fb, panel_x, 140, 600, 450, colors::PANEL_BG);
        let ghost f3 = *fb;
        let ghost r3 = bordered_box(panel_x as int, 140, 600, 450, 2, colors::PANEL_BG, colors::PANEL_BORDER);
        proof {
            lemma_repainted_compose(f0, f2, f3, overlay(r1, r2), r3);
            lemma_repainted_nothing(f3);
        }
        let mut i: usize = 0;
        while i < SETTINGS_OPTION_COUNT
            invariant
                fb.wf(),
                i <= 6,
                panel_x == (fb_width - 600) / 2,
                fb_width <= usize::MAX / 2,
                self.selected_index == 5 ==> panel_x >= 5,
                settings_in_range(self.local_settings),
                repainted(f3, *fb, self.options_rule(panel_x as int, i as int)),
            decreases 6 - i,
        {
            let option = SettingsOption::from_index(i);
            let ghost before = *fb;
            self.draw_option(fb, panel_x + 20, 160 + i * 60, option, i == self.selected_index);
            proof {
                lemma_repainted_compose(f3, before, *fb, self.options_rule(panel_x as int, i as int),
                    self.option_rule(settings_option_at(i as int), panel_x + 20, 160 + 60 * i, i == self.selected_index));
            }
            i += 1;
        }
        let ghost f4 = *fb;
        proof {
            lemma_repainted_compose(f0, f3, f4, overlay(overlay(r1, r2), r3), self.options_rule(panel_x as int, 6));
            reveal_strlit("LEFT/RIGHT TO ADJUST. ESC TO SAVE AND EXIT.");
        }
        let footer = chars_of("LEFT/RIGHT TO ADJUST. ESC TO SAVE AND EXIT.");
        draw_chars_centered(fb, fb_height - 50, &footer, colors::SUBTITLE, 2);
        proof {
            lemma_repainted_compose(f0, f4, *fb, overlay(overlay(overlay(r1, r2), r3), self.options_rule(panel_x as int, 6)),
                text_rule(centered_x(screen_w, text_width(43, 2)), fb_height - 50,
                    "LEFT/RIGHT TO ADJUST. ESC TO SAVE AND EXIT."@, colors::SUBTITLE, 2));
        }
    }

    /// Draw the 560 x 50 row of `option` at (x, y).
    fn draw_option(&self, fb: &mut Framebuffer, x: usize, y: usize, option: SettingsOption, selected: bool)
        requires
            old(fb).wf(),
            x <= usize::MAX / 4,
            y <= 600,
            option is Back && selected ==> x >= 25,
            settings_in_range(self.local_settings),
        ensures
            final(fb).wf(),
            repainted(*old(fb), *final(fb), self.option_rule(option, x as int, y as int, selected)),
    {
        let bg = if selected { colors::BUTTON_SELECTED } else { colors::BUTTON_NORMAL };
        let ghost f0 = *fb;
        fill_span_rect(fb, x, y, x + 560, y + 50, bg);
        let ghost f1 = *fb;
        let ghost r1 = solid_rect(x as int, y as int, x + 560, y + 50, bg);
        proof {
            reveal_strlit("SHOW FPS");
            reveal_strlit("INVERT Y");
            reveal_strlit("SENSITIVITY");
            reveal_strlit("RENDER DISTANCE");
            reveal_strlit("VOLUME");
            reveal_strlit("BACK");
        }
        let label = option.label();
        proof {
            lemma_text_width_mono(label@.len() as int, 15, 2);
        }
        let text_y = y + 17;
        draw_string(fb, x + 15, text_y, label, colors::BUTTON_TEXT, 2);
        let ghost f2 = *fb;
        let ghost base = overlay(r1, text_rule(x + 15, y + 17, settings_label(option), colors::BUTTON_TEXT, 2));
        proof {
            lemma_repainted_compose(f0, f1, f2, r1, text_rule(x + 15, y + 17, settings_label(option), colors::BUTTON_TEXT, 2));
        }
        if option.is_toggle() {
            proof {
                reveal_strlit("ON");
                reveal_strlit("OFF");
            }
            let value_str = self.local_settings.get_value_str(option);
            let on = self.local_settings.get_value(option) == 1;
            let value_color = if on { colors::READY } else { colors::NOT_READY };
            let value_width: usize = if on { 36 } else { 54 };
            assert(value_width == text_width(value_str@.len() as int, 2));
            draw_string(fb, x + 560 - value_width - 15, text_y, value_str, value_color, 2);
            proof {
                lemma_repainted_compose(f0, f2, *fb, base,
                    text_rule(x + 560 - value_width - 15, y + 17, value_str@, value_color, 2));
            }
        } else if option.is_range() {
            let (lo, hi) = option.bounds();
            let value = self.local_settings.get_value(option);
            fill_span_rect(fb, x + 280, y + 21, x + 500, y + 29, colors::PANEL_BG);
            let ghost f3 = *fb;
            let ghost r3 = solid_rect(x + 280, y + 21, x + 500, y + 29, colors::PANEL_BG);
            proof {
                lemma_repainted_compose(f0, f2, f3, base, r3);
            }
            let num = (value - lo) as usize;
            let den = (hi - lo) as usize;
            let prod = 220 * num;
            let fill = prod / den;
            assert(fill <= 220) by (nonlinear_arith)
                requires
                    prod == 220 * num,
                    num <= den,
                    den > 0,
                    fill == prod / den,
            ;
            assert(fill == fill_width(value as int, lo as int, hi as int));
            fill_span_rect(fb, x + 280, y + 21, x + 280 + fill, y + 29, colors::FN_BLUE);
            let ghost f4 = *fb;
            let ghost r4 = solid_rect(x + 280, y + 21, x + 280 + fill_width(value as int, lo as int, hi as int), y + 29, colors::FN_BLUE);
            proof {
                lemma_repainted_compose(f0, f3, f4, overlay(base, r3), r4);
                lemma_decimal_len(value as nat);
            }
            let digits = format_number(value as u32);
            let w = string_width(&digits, 2);
            proof {
                lemma_text_width_mono(digits@.len() as int, 3, 2);
            }
            draw_chars(fb, x + 560 - w - 15, text_y, &digits, colors::BUTTON_TEXT, 2);
            proof {
                lemma_repainted_compose(f0, f4, *fb, overlay(overlay(base, r3), r4),
                    text_rule(x + 560 - w - 15, y + 17, decimal(value as nat), colors::BUTTON_TEXT, 2));
            }
        } else if selected {
            proof {
                reveal_strlit(">");
                assert(">"@ =~= seq!['>']);
            }
            assert(text_width(1, 2) == 18);
            draw_string(fb, x - 25, text_y, ">", colors::FN_YELLOW, 2);
            proof {
                lemma_repainted_compose(f0, f2, *fb, base, text_rule(x - 25, y + 17, seq!['>'], colors::FN_YELLOW, 2));
            }
        }
    }
}

} // verus!
