//! Main menu screen: four stacked buttons.

use vstd::prelude::*;
use crate::game_types::state::{GameState, MenuAction};
use crate::graphics::ui::button::{Button, ButtonList, sat_sub, with_selected, buttons_rule};
use crate::graphics::font::{text_rule, text_width, centered_x, draw_chars_centered, draw_string, chars_of};
use crate::graphics::framebuffer::{Framebuffer, repainted, overlay, lemma_repainted_compose, lemma_width_bound};
use crate::graphics::ui::colors;
use crate::graphics::ui::panel::{rows_rule, draw_gradient_background_raw};
use super::menu::{MainMenuOption, MAIN_MENU_OPTION_COUNT, main_option_at, main_menu_label};

verus! {

/// Main menu button width.
pub const MENU_BUTTON_WIDTH: usize = 300;
/// Main menu button height.
pub const MENU_BUTTON_HEIGHT: usize = 60;
/// Vertical gap between buttons.
pub const MENU_BUTTON_SPACING: usize = 20;

/// Main menu screen state.
pub struct MainMenuScreen {
    pub buttons: ButtonList,
    pub fb_width: usize,
    pub fb_height: usize,
}

/// Top of the first button on a screen `fb_height` tall.
pub open spec fn menu_start_y(fb_height: int) -> int {
    fb_height / 2 - 100
}

impl MainMenuScreen {
    /// Buttons for Play, Settings, Customize and Quit, 300x60, centered, 20 pixels
    /// apart starting 100 pixels above mid-screen; Play selected.
    pub fn new(fb_width: usize, fb_height: usize) -> (r: Self)
        requires
            fb_height / 2 >= 100,
        ensures
            r.fb_width == fb_width,
            r.fb_height == fb_height,
            r.buttons.wf(),
            r.buttons.count == MAIN_MENU_OPTION_COUNT,
            r.buttons.selected_index == 0,
            forall|k: int| 0 <= k < 4 ==> {
                let b = #[trigger] r.buttons.buttons@[k];
                &&& b.x == sat_sub(fb_width as int, MENU_BUTTON_WIDTH as int) / 2
                &&& b.y == menu_start_y(fb_height as int) + 80 * k
                &&& b.width == MENU_BUTTON_WIDTH
                &&& b.height == MENU_BUTTON_HEIGHT
                &&& b.label@ == main_menu_label(main_option_at(k))
                &&& b.selected == (k == 0)
            },
    {
        let start_y = fb_height / 2 - 100;
        let step = MENU_BUTTON_HEIGHT + MENU_BUTTON_SPACING;
        let buttons = [
            Button::centered(start_y, MENU_BUTTON_WIDTH, MENU_BUTTON_HEIGHT, MainMenuOption::Play.label(), fb_width),
            Button::centered(start_y + step, MENU_BUTTON_WIDTH, MENU_BUTTON_HEIGHT, MainMenuOption::Settings.label(), fb_width),
            Button::centered(start_y + step * 2, MENU_BUTTON_WIDTH, MENU_BUTTON_HEIGHT, MainMenuOption::Customization.label(), fb_width),
            Button::centered(start_y + step * 3, MENU_BUTTON_WIDTH, MENU_BUTTON_HEIGHT, MainMenuOption::Quit.label(), fb_width),
        ];
        let list = ButtonList::new(buttons, MAIN_MENU_OPTION_COUNT);
        assert forall|k: int| 0 <= k < 4 implies {
            let b = #[trigger] list.buttons@[k];
            &&& b.x == sat_sub(fb_width as int, MENU_BUTTON_WIDTH as int) / 2
            &&& b.y == menu_start_y(fb_height as int) + 80 * k
            &&& b.width == MENU_BUTTON_WIDTH
            &&& b.height == MENU_BUTTON_HEIGHT
            &&& b.label@ == main_menu_label(main_option_at(k))
            &&& b.selected == (k == 0)
        } by {
            if k == 0 {
                assert(list.buttons@[0] == with_selected(buttons@[0], true));
            } else {
                assert(list.buttons@[k] == buttons@[k]);
            }
        }
        MainMenuScreen { buttons: list, fb_width, fb_height }
    }

    /// Up and Down move the selection (wrapping); Enter on Play, Settings or
    /// Customize opens that screen; Enter on Quit gives `None` (the main loop
    /// asks `quit_selected`).
    pub fn update(&mut self, action: MenuAction) -> (r: Option<GameState>)
        requires
            old(self).buttons.wf(),
            old(self).buttons.count == MAIN_MENU_OPTION_COUNT,
        ensures
            final(self).buttons.wf(),
            final(self).buttons.count == MAIN_MENU_OPTION_COUNT,
            final(self).fb_width == old(self).fb_width,
            final(self).fb_height == old(self).fb_height,
            final(self).buttons.selected_index == match action {
                MenuAction::Up => if old(self).buttons.selected_index == 0 {
                    3
                } else {
                    (old(self).buttons.selected_index - 1) as usize
                },
                MenuAction::Down => ((old(self).buttons.selected_index + 1) % 4) as usize,
                _ => old(self).buttons.selected_index,
            },
            !(action is Up || action is Down) ==> final(self).buttons == old(self).buttons,
            r == if action is Select {
                match main_option_at(old(self).buttons.selected_index as int) {
                    MainMenuOption::Play => Some(GameState::ServerSelect),
                    MainMenuOption::Settings => Some(GameState::Settings),
                    MainMenuOption::Customization => Some(GameState::Customization),
                    MainMenuOption::Quit => None,
                }
            } else {
                None
            },
    {
        match action {
            MenuAction::Up => {
                self.buttons.select_prev();
            },
            MenuAction::Down => {
                self.buttons.select_next();
            },
            MenuAction::Select => {
                match MainMenuOption::from_index(self.buttons.selected_index) {
                    MainMenuOption::Play => {
                        return Some(GameState::ServerSelect);
                    },
                    MainMenuOption::Settings => {
                        return Some(GameState::Settings);
                    },
                    MainMenuOption::Customization => {
                        return Some(GameState::Customization);
                    },
                    MainMenuOption::Quit => {
                        return None;
                    },
                }
            },
            _ => {},
        }
        None
    }

    /// Whether the Quit button is selected.
    pub fn quit_selected(&self) -> (r: bool)
        ensures
            r == (self.buttons.selected_index == MainMenuOption::Quit.index_of()),
    {
        self.buttons.selected_index == MainMenuOption::Quit.to_index()
    }
}

impl MainMenuScreen {
    /// Rule of the main menu over the background rows `bg` on a screen
    /// `screen_w` pixels wide: centered title and subtitle, the buttons, the
    /// centered footer and the version in the bottom-left corner.
    pub open spec fn rule(self, bg: Seq<u32>, fb_width: int, fb_height: int, screen_w: int) -> spec_fn(int, int) -> Option<u32> {
        overlay(overlay(overlay(overlay(overlay(
            rows_rule(bg, fb_width, fb_height),
            text_rule(centered_x(screen_w, text_width(13, 5)), 80, "BATTLE ROYALE"@, colors::TITLE, 5)),
            text_rule(centered_x(screen_w, text_width(24, 2)), 140, "100 PLAYERS. ONE WINNER."@, colors::SUBTITLE, 2)),
            buttons_rule(self.buttons.buttons@, self.buttons.count as int)),
            text_rule(centered_x(screen_w, text_width(21, 2)), fb_height - 50, "PRESS ENTER TO SELECT"@, colors::SUBTITLE, 2)),
            text_rule(10, fb_height - 30, "V0.1.0"@, colors::SUBTITLE, 1))
    }

    /// Draw the main menu over the gradient background rows `background`.
    pub fn draw(&self, fb: &mut Framebuffer, background: &Vec<u32>, fb_width: usize, fb_height: usize)
        requires
            old(fb).wf(),
            fb_height >= 50,
            self.buttons.count <= 4,
            forall|i: int| 0 <= i < self.buttons.count ==> #[trigger] self.buttons.buttons@[i].fits(),
        ensures
            final(fb).wf(),
            repainted(*old(fb), *final(fb), self.rule(background@, fb_width as int, fb_height as int, old(fb).width as int)),
    {
        let ghost f0 = *fb;
        let ghost screen_w = f0.width as int;
        proof {
            lemma_width_bound(f0);
            reveal_strlit("BATTLE ROYALE");
            reveal_strlit("100 PLAYERS. ONE WINNER.");
            reveal_strlit("PRESS ENTER TO SELECT");
            reveal_strlit("V0.1.0");
        }
        draw_gradient_background_raw(fb, background, fb_width, fb_height);
        let ghost f1 = *fb;
        let ghost r1 = rows_rule(background@, fb_width as int, fb_height as int);
        let title = chars_of("BATTLE ROYALE");
        draw_chars_centered(fb, 80, &title, colors::TITLE, 5);
        let ghost f2 = *fb;
        let ghost r2 = text_rule(centered_x(screen_w, text_width(13, 5)), 80, "BATTLE ROYALE"@, colors::TITLE, 5);
        proof { lemma_repainted_compose(f0, f1, f2, r1, r2); }
        let subtitle = chars_of("100 PLAYERS. ONE WINNER.");
        draw_chars_centered(fb, 140, &subtitle, colors::SUBTITLE, 2);
        let ghost f3 = *fb;
        let ghost r3 = text_rule(centered_x(screen_w, text_width(24, 2)), 140, "100 PLAYERS. ONE WINNER."@, colors::SUBTITLE, 2);
        proof { lemma_repainted_compose(f0, f2, f3, overlay(r1, r2), r3); }
        self.buttons.draw(fb);
        let ghost f4 = *fb;
        let ghost r4 = buttons_rule(self.buttons.buttons@, self.buttons.count as int);
        proof { lemma_repainted_compose(f0, f3, f4, overlay(overlay(r1, r2), r3), r4); }
        let footer = chars_of("PRESS ENTER TO SELECT");
        draw_chars_centered(fb, fb_height - 50, &footer, colors::SUBTITLE, 2);
        let ghost f5 = *fb;
        let ghost r5 = text_rule(centered_x(screen_w, text_width(21, 2)), fb_height - 50, "PRESS ENTER TO SELECT"@, colors::SUBTITLE, 2);
        proof { lemma_repainted_compose(f0, f4, f5, overlay(overlay(overlay(r1, r2), r3), r4), r5); }
        assert(text_width(6, 1) == 54);
        draw_string(fb, 10, fb_height - 30, "V0.1.0", colors::SUBTITLE, 1);
        proof {
            lemma_repainted_compose(f0, f5, *fb, overlay(overlay(overlay(overlay(r1, r2), r3), r4), r5),
                text_rule(10, fb_height - 30, "V0.1.0"@, colors::SUBTITLE, 1));
        }
    }
}

} // verus!
