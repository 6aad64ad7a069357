//! In-game interface manager.

use vstd::prelude::*;
use crate::graphics::font::{
    decimal, write_number, lemma_decimal_len, text_rule, text_width, centered_x, draw_chars, draw_string,
    draw_string_centered, format_number, string_width, lemma_text_width_mono,
};
use crate::graphics::framebuffer::{
    Framebuffer, repainted, overlay, no_paint, solid_rect, lemma_repainted_compose, lemma_repainted_nothing, lemma_width_bound,
};
use crate::graphics::ui::colors;
use crate::graphics::ui::panel::{
    bordered_box, crosshair, draw_crosshair_raw, draw_panel_raw, fill_rect_raw, fill_bordered_box, round_dot_rule,
    draw_round_dot, percent_bar_rule, draw_percent_bar, bar_fill,
};
use crate::game_types::phase::PlayerPhase;
use crate::graphics::ui::panel::{rows_rule, draw_gradient_background_raw};

verus! {

/// In-game HUD manager: the screen size it lays the HUD out for.
#[derive(Debug, Clone, Copy, PartialEq, Eq, Structural)]
pub struct GameUI {
    pub fb_width: usize,
    pub fb_height: usize,
}

impl GameUI {
    /// A HUD for a `fb_width` x `fb_height` screen.
    pub fn new(fb_width: usize, fb_height: usize) -> (r: Self)
        ensures
            r == (GameUI { fb_width, fb_height }),
    {
        GameUI { fb_width, fb_height }
    }
}

/// Ammo line: current and maximum ammo, "current/max".
pub fn format_ammo(current: u16, max: u16) -> (r: Vec<char>)
    ensures
        r@ == decimal(current as nat) + "/"@ + decimal(max as nat),
{
    proof {
        reveal_strlit("/");
        lemma_decimal_len(current as nat);
        lemma_decimal_len(max as nat);
    }
    let mut out: Vec<char> = Vec::new();
    write_number(&mut out, current as u64, 16);
    out.push('/');
    write_number(&mut out, max as u64, 16);
    assert(out@ =~= decimal(current as nat) + "/"@ + decimal(max as nat));
    out
}

/// Color of the wood icon next to the materials count.
pub const WOOD_PLANK: u32 = 0xC4A76E;
/// Color of the terrain on the minimap.
pub const GRASS_GREEN: u32 = 0x4CAF50;

/// Color of the health bar: green above 50, yellow above 25, red otherwise.
pub open spec fn health_color(health: u8) -> u32 {
    if health > 50 { colors::HEALTH_HIGH } else if health > 25 { colors::HEALTH_MED } else { colors::HEALTH_LOW }
}

/// Color of the altitude bar: red below 100 m, yellow below 200 m, green otherwise.
pub open spec fn altitude_color(altitude: u32) -> u32 {
    if altitude < 100 { colors::HEALTH_LOW } else if altitude < 200 { colors::HEALTH_MED } else { colors::HEALTH_HIGH }
}

/// Height of the filled part of the 400-pixel altitude bar (full at 500 m).
pub open spec fn altitude_fill(altitude: u32) -> int {
    400 * (if altitude < 500 { altitude as int } else { 500 }) / 500
}

/// Rule of a health bar at (x, y): the bar filled to `health` percent and
/// the number to its right.
pub open spec fn health_rule(x: int, y: int, w: int, h: int, health: u8) -> spec_fn(int, int) -> Option<u32> {
    overlay(
        percent_bar_rule(x, y, w, h, health as int, health_color(health), colors::PANEL_BG),
        text_rule(x + w + 10, y + 4, decimal(health as nat), colors::WHITE, 2))
}

/// The health bar warns by color: once a `w` x `h` health bar is drawn at
/// (x, y) and its fill reaches the first inside pixel, that pixel is green
/// (`HEALTH_HIGH`) above 50 health, yellow (`HEALTH_MED`) from 26 to 50 and
/// red (`HEALTH_LOW`) at 25 or below.
pub proof fn lemma_health_bar_fill_color(f0: Framebuffer, f1: Framebuffer, x: int, y: int, w: int, h: int, health: u8)
    requires
        f0.wf(),
        repainted(f0, f1, health_rule(x, y, w, h, health)),
        w >= 3,
        h >= 3,
        (w - 2) * (if health < 100 { health as int } else { 100 }) >= 100,
        0 <= x,
        0 <= y,
        x + 1 < f0.width,
        y + 1 < f0.height,
    ensures
        f1.pixel(x + 1, y + 1) == if health > 50 {
            colors::HEALTH_HIGH
        } else if health > 25 {
            colors::HEALTH_MED
        } else {
            colors::HEALTH_LOW
        },
{
    let p = if health < 100 { health as int } else { 100 };
    assert((w - 2) * p / 100 >= 1) by (nonlinear_arith)
        requires
            (w - 2) * p >= 100,
    ;
    assert(bar_fill(w, health as int) >= 1);
    let text = text_rule(x + w + 10, y + 4, decimal(health as nat), colors::WHITE, 2);
    assert(text(x + 1, y + 1) is None);
    assert(f1.pixel(x + 1, y + 1) == (if x + 1 < f0.width && health_rule(x, y, w, h, health)(x + 1, y + 1) is Some {
        health_rule(x, y, w, h, health)(x + 1, y + 1)->0
    } else {
        f0.pixel(x + 1, y + 1)
    }));
}

/// Rule of a shield bar at (x, y): nothing without shield, otherwise a blue
/// bar filled to `shield` percent and the number to its right.
pub open spec fn shield_rule(x: int, y: int, w: int, h: int, shield: u8) -> spec_fn(int, int) -> Option<u32> {
    if shield == 0 {
        no_paint()
    } else {
        overlay(
            percent_bar_rule(x, y, w, h, shield as int, colors::FN_BLUE, colors::PANEL_BG),
            text_rule(x + w + 10, y + 2, decimal(shield as nat), colors::FN_BLUE, 2))
    }
}

/// Rule of the materials panel at (x, y): panel, wood icon and count.
pub open spec fn materials_rule(x: int, y: int, materials: u32) -> spec_fn(int, int) -> Option<u32> {
    overlay(overlay(
        bordered_box(x, y, 130, 60, 2, colors::PANEL_BG, colors::PANEL_BORDER),
        solid_rect(x + 10, y + 15, x + 40, y + 45, WOOD_PLANK)),
        text_rule(x + 50, y + 20, decimal(materials as nat), colors::WHITE, 2))
}

/// Rule of the alive-players panel at (x, y): panel, figure icon and count.
pub open spec fn player_count_rule(x: int, y: int, count: nat) -> spec_fn(int, int) -> Option<u32> {
    overlay(overlay(overlay(
        bordered_box(x, y, 100, 35, 2, colors::PANEL_BG, colors::PANEL_BORDER),
        solid_rect(x + 8, y + 8, x + 14, y + 16, colors::WHITE)),
        solid_rect(x + 6, y + 16, x + 16, y + 28, colors::WHITE)),
        text_rule(x + 30, y + 10, decimal(count), colors::WHITE, 2))
}

/// Rule of the eliminations panel at (x, y): panel, skull icon and count.
pub open spec fn eliminations_rule(x: int, y: int, elims: u16) -> spec_fn(int, int) -> Option<u32> {
    overlay(overlay(overlay(overlay(overlay(
        bordered_box(x, y, 100, 35, 2, colors::PANEL_BG, colors::PANEL_BORDER),
        solid_rect(x + 8, y + 8, x + 18, y + 18, colors::WHITE)),
        solid_rect(x + 10, y + 12, x + 11, y + 13, colors::PANEL_BG)),
        solid_rect(x + 14, y + 12, x + 15, y + 13, colors::PANEL_BG)),
        solid_rect(x + 10, y + 18, x + 16, y + 22, colors::WHITE)),
        text_rule(x + 30, y + 10, decimal(elims as nat), colors::WHITE, 2))
}

/// Rule of the minimap stand-in at (x, y), `size` pixels square: bordered
/// background, grass, the player's dot at the center and a heading mark.
pub open spec fn minimap_rule(x: int, y: int, size: int) -> spec_fn(int, int) -> Option<u32> {
    let cx = x + size / 2;
    let cy = y + size / 2;
    overlay(overlay(overlay(overlay(
        bordered_box(x, y, size, size, 1, colors::PANEL_BG, colors::PANEL_BORDER),
        solid_rect(x + 10, y + 10, x + size - 10, y + size - 10, GRASS_GREEN)),
        round_dot_rule(cx - 3, cy - 3, 6, 9, colors::WHITE)),
        solid_rect(cx, cy - 5, cx + 1, cy - 4, colors::FN_YELLOW)),
        solid_rect(cx, cy - 6, cx + 1, cy - 5, colors::FN_YELLOW))
}

impl GameUI {
    /// The screen is small enough for the pixel arithmetic.
    pub open spec fn bounded(self) -> bool {
        self.fb_width <= 0x0100_0000 && self.fb_height <= 0x0100_0000
    }

    /// The screen is large enough for the HUD of `phase`, with a weapon name
    /// `name_width` pixels wide.
    pub open spec fn fits(self, phase: PlayerPhase, name_width: int) -> bool {
        &&& self.bounded()
        &&& match phase {
            PlayerPhase::OnBus | PlayerPhase::Eliminated => self.fb_height >= 100,
            PlayerPhase::Freefall | PlayerPhase::Gliding => self.fb_width >= 110 && self.fb_height >= 26,
            PlayerPhase::Grounded => self.fb_width >= 340 && self.fb_height >= 120 && name_width <= self.fb_width,
            PlayerPhase::Spectating => self.fb_width >= 300 && self.fb_height >= 40,
        }
    }

    /// Rule of the altitude indicator at the right edge for `altitude` meters:
    /// the bar, its fill from the bottom, the number with "M" below, and the
    /// deploy mark at 100 m.
    pub open spec fn altitude_rule(self, altitude: u32) -> spec_fn(int, int) -> Option<u32> {
        let bx = self.fb_width - 60;
        overlay(overlay(overlay(overlay(
            solid_rect(bx, 100, bx + 20, 500, colors::PANEL_BG),
            solid_rect(bx, 500 - altitude_fill(altitude), bx + 20, 500, altitude_color(altitude))),
            text_rule(bx - 50, 510, decimal(altitude as nat), colors::WHITE, 2)),
            text_rule(bx - 10, 510, seq!['M'], colors::SUBTITLE, 2)),
            solid_rect(bx, 420, bx + 20, 421, colors::FN_YELLOW))
    }

    /// Rule of hotbar slot `i` (the first is selected) on the row `y`.
    pub open spec fn slot_rule(self, i: int, y: int) -> spec_fn(int, int) -> Option<u32> {
        let sx = (self.fb_width - 340) / 2 + 70 * i;
        overlay(
            bordered_box(sx, y, 60, 60, 1, if i == 0 { colors::BUTTON_SELECTED } else { colors::PANEL_BG },
                if i == 0 { colors::FN_YELLOW } else { colors::PANEL_BORDER }),
            text_rule(sx + 5, y + 5, decimal((i + 1) as nat), colors::SUBTITLE, 1))
    }

    /// Rule of the first `n` hotbar slots.
    pub open spec fn slots_rule(self, y: int, n: int) -> spec_fn(int, int) -> Option<u32>
        decreases n,
    {
        if n <= 0 { no_paint() } else { overlay(self.slots_rule(y, n - 1), self.slot_rule(n - 1, y)) }
    }

    /// Rule of the weapon hotbar: five slots centered 80 pixels above the
    /// bottom, the weapon's name and the ammo line centered below them.
    pub open spec fn hotbar_rule(self, name: Seq<char>, ammo: u16, max_ammo: u16) -> spec_fn(int, int) -> Option<u32> {
        let y = self.fb_height - 80;
        let ammo_text = decimal(ammo as nat) + "/"@ + decimal(max_ammo as nat);
        overlay(overlay(
            self.slots_rule(y, 5),
            text_rule((self.fb_width - text_width(name.len() as int, 2)) / 2, y + 65, name, colors::WHITE, 2)),
            text_rule((self.fb_width - text_width(ammo_text.len() as int, 2)) / 2, y + 90, ammo_text, colors::FN_YELLOW, 2))
    }

    /// Rule of the HUD on the ground.
    pub open spec fn ground_rule(self, health: u8, shield: u8, ammo: u16, max_ammo: u16, materials: u32,
        alive_count: nat, eliminations: u16, name: Seq<char>) -> spec_fn(int, int) -> Option<u32> {
        let by = self.fb_height - 120;
        overlay(overlay(overlay(overlay(overlay(overlay(overlay(
            crosshair((self.fb_width / 2) as int, (self.fb_height / 2) as int, colors::WHITE),
            health_rule(20, by, 200, 25, health)),
            shield_rule(20, by + 30, 200, 20, shield)),
            self.hotbar_rule(name, ammo, max_ammo)),
            materials_rule(self.fb_width - 150, by, materials)),
            player_count_rule(self.fb_width - 120, 20, alive_count)),
            eliminations_rule(self.fb_width - 120, 60, eliminations)),
            minimap_rule(20, 60, 150))
    }

    /// Rule of the HUD for `phase` on a screen `screen_w` pixels wide. The
    /// altitude shown while falling is 500 m, while gliding 200 m; the player
    /// spectated is shown as "PlayerName".
    pub open spec fn rule(self, health: u8, shield: u8, ammo: u16, max_ammo: u16, materials: u32, alive_count: nat,
        eliminations: u16, phase: PlayerPhase, name: Seq<char>, screen_w: int) -> spec_fn(int, int) -> Option<u32> {
        let h = self.fb_height as int;
        let w = self.fb_width as int;
        let cross = crosshair(w / 2, h / 2, colors::WHITE);
        match phase {
            PlayerPhase::OnBus => overlay(
                text_rule(centered_x(screen_w, text_width(20, 4)), h / 2 - 50, "PRESS SPACE TO DROP!"@, colors::FN_YELLOW, 4),
                text_rule(centered_x(screen_w, text_width(33, 2)), h / 2 + 20, "LOOK AT MINIMAP FOR DROP LOCATION"@, colors::WHITE, 2)),
            PlayerPhase::Freefall => overlay(cross, self.altitude_rule(500)),
            PlayerPhase::Gliding => overlay(overlay(cross, self.altitude_rule(200)),
                text_rule(centered_x(screen_w, text_width(7, 2)), 50, "GLIDING"@, colors::FN_BLUE, 2)),
            PlayerPhase::Grounded => self.ground_rule(health, shield, ammo, max_ammo, materials, alive_count, eliminations, name),
            PlayerPhase::Eliminated => overlay(
                text_rule(centered_x(screen_w, text_width(10, 5)), h / 2 - 50, "ELIMINATED"@, colors::HEALTH_LOW, 5),
                text_rule(centered_x(screen_w, text_width(23, 2)), h / 2 + 30, "PRESS SPACE TO SPECTATE"@, colors::WHITE, 2)),
            PlayerPhase::Spectating => overlay(overlay(overlay(
                bordered_box(w / 2 - 150, 20, 300, 50, 2, colors::PANEL_BG, colors::PANEL_BORDER),
                text_rule(w / 2 - 130, 30, "SPECTATING:"@, colors::SUBTITLE, 2)),
                text_rule(w / 2 - 20, 30, "PlayerName"@, colors::WHITE, 2)),
                text_rule(centered_x(screen_w, text_width(18, 2)), h - 40, "A/D: SWITCH PLAYER"@, colors::SUBTITLE, 2)),
        }
    }

    /// Draw the HUD for the player's phase.
    pub fn draw(&self, fb: &mut Framebuffer, health: u8, shield: u8, ammo: u16, max_ammo: u16, materials: u32,
        alive_count: usize, eliminations: u16, phase: PlayerPhase, weapon_name: &str)
        requires
            old(fb).wf(),
            self.fits(phase, text_width(weapon_name@.len() as int, 2)),
            alive_count <= 99_999_999,
        ensures
            final(fb).wf(),
            repainted(*old(fb), *final(fb), self.rule(health, shield, ammo, max_ammo, materials, alive_count as nat,
                eliminations, phase, weapon_name@, old(fb).width as int)),
    {
        proof {
            lemma_width_bound(*old(fb));
        }
        match phase {
            PlayerPhase::OnBus => self.draw_bus_ui(fb),
            PlayerPhase::Freefall => self.draw_freefall_ui(fb, 500),
            PlayerPhase::Gliding => self.draw_gliding_ui(fb, 200),
            PlayerPhase::Grounded => {
                self.draw_ground_ui(fb, health, shield, ammo, max_ammo, materials, alive_count, eliminations, weapon_name);
            },
            PlayerPhase::Eliminated => self.draw_eliminated_ui(fb),
            PlayerPhase::Spectating => self.draw_spectating_ui(fb),
        }
    }

    /// Draw the drop prompt shown on the bus.
    fn draw_bus_ui(&self, fb: &mut Framebuffer)
        requires
            old(fb).wf(),
            self.bounded(),
            self.fb_height >= 100,
            old(fb).width <= usize::MAX / 4,
        ensures
            final(fb).wf(),
            repainted(*old(fb), *final(fb), self.rule(0, 0, 0, 0, 0, 0, 0, PlayerPhase::OnBus, Seq::empty(), old(fb).width as int)),
    {
        let ghost f0 = *fb;
        proof {
            reveal_strlit("PRESS SPACE TO DROP!");
            reveal_strlit("LOOK AT MINIMAP FOR DROP LOCATION");
        }
        assert(text_width(20, 4) == 720);
        assert(text_width(33, 2) == 594);
        draw_string_centered(fb, self.fb_height / 2 - 50, "PRESS SPACE TO DROP!", colors::FN_YELLOW, 4);
        let ghost f1 = *fb;
        draw_string_centered(fb, self.fb_height / 2 + 20, "LOOK AT MINIMAP FOR DROP LOCATION", colors::WHITE, 2);
        proof {
            lemma_repainted_compose(f0, f1, *fb,
                text_rule(centered_x(f0.width as int, text_width(20, 4)), self.fb_height / 2 - 50, "PRESS SPACE TO DROP!"@, colors::FN_YELLOW, 4),
                text_rule(centered_x(f0.width as int, text_width(33, 2)), self.fb_height / 2 + 20, "LOOK AT MINIMAP FOR DROP LOCATION"@, colors::WHITE, 2));
        }
    }

    /// Draw the crosshair, the altitude indicator, and the deploy prompt
    /// between 100 and 200 meters.
    fn draw_freefall_ui(&self, fb: &mut Framebuffer, altitude: u32)
        requires
            old(fb).wf(),
            self.bounded(),
            self.fb_width >= 110,
            self.fb_height >= 26,
            100 < altitude < 200 ==> self.fb_height >= 150,
            old(fb).width <= usize::MAX / 4,
        ensures
            final(fb).wf(),
            repainted(*old(fb), *final(fb), {
                let base = overlay(crosshair((self.fb_width / 2) as int, (self.fb_height / 2) as int, colors::WHITE),
                    self.altitude_rule(altitude));
                if 100 < altitude < 200 {
                    overlay(base, text_rule(centered_x(old(fb).width as int, text_width(28, 2)), self.fb_height - 150,
                        "PRESS SPACE TO DEPLOY GLIDER"@, colors::FN_YELLOW, 2))
                } else {
                    base
                }
            }),
    {
        let ghost f0 = *fb;
        draw_crosshair_raw(fb, self.fb_width, self.fb_height, colors::WHITE);
        let ghost f1 = *fb;
        let ghost c = crosshair((self.fb_width / 2) as int, (self.fb_height / 2) as int, colors::WHITE);
        self.draw_altitude_indicator(fb, altitude);
        let ghost f2 = *fb;
        proof {
            lemma_repainted_compose(f0, f1, f2, c, self.altitude_rule(altitude));
        }
        if altitude < 200 && altitude > 100 {
            proof {
                reveal_strlit("PRESS SPACE TO DEPLOY GLIDER");
            }
            assert(text_width(28, 2) == 504);
            draw_string_centered(fb, self.fb_height - 150, "PRESS SPACE TO DEPLOY GLIDER", colors::FN_YELLOW, 2);
            proof {
                lemma_repainted_compose(f0, f2, *fb, overlay(c, self.altitude_rule(altitude)),
                    text_rule(centered_x(f0.width as int, text_width(28, 2)), self.fb_height - 150,
                        "PRESS SPACE TO DEPLOY GLIDER"@, colors::FN_YELLOW, 2));
            }
        }
    }

    /// Draw the crosshair, the altitude indicator and the gliding banner.
    fn draw_gliding_ui(&self, fb: &mut Framebuffer, altitude: u32)
        requires
            old(fb).wf(),
            self.bounded(),
            self.fb_width >= 110,
            self.fb_height >= 26,
            old(fb).width <= usize::MAX / 4,
        ensures
            final(fb).wf(),
            repainted(*old(fb), *final(fb), overlay(overlay(
                crosshair((self.fb_width / 2) as int, (self.fb_height / 2) as int, colors::WHITE),
                self.altitude_rule(altitude)),
                text_rule(centered_x(old(fb).width as int, text_width(7, 2)), 50, "GLIDING"@, colors::FN_BLUE, 2))),
    {
        let ghost f0 = *fb;
        draw_crosshair_raw(fb, self.fb_width, self.fb_height, colors::WHITE);
        let ghost f1 = *fb;
        let ghost c = crosshair((self.fb_width / 2) as int, (self.fb_height / 2) as int, colors::WHITE);
        self.draw_altitude_indicator(fb, altitude);
        let ghost f2 = *fb;
        proof {
            lemma_repainted_compose(f0, f1, f2, c, self.altitude_rule(altitude));
            reveal_strlit("GLIDING");
        }
        assert(text_width(7, 2) == 126);
        draw_string_centered(fb, 50, "GLIDING", colors::FN_BLUE, 2);
        proof {
            lemma_repainted_compose(f0, f2, *fb, overlay(c, self.altitude_rule(altitude)),
                text_rule(centered_x(f0.width as int, text_width(7, 2)), 50, "GLIDING"@, colors::FN_BLUE, 2));
        }
    }

    /// Draw the "eliminated" message.
    fn draw_eliminated_ui(&self, fb: &mut Framebuffer)
        requires
            old(fb).wf(),
            self.bounded(),
            self.fb_height >= 100,
            old(fb).width <= usize::MAX / 4,
        ensures
            final(fb).wf(),
            repainted(*old(fb), *final(fb), self.rule(0, 0, 0, 0, 0, 0, 0, PlayerPhase::Eliminated, Seq::empty(), old(fb).width as int)),
    {
        let ghost f0 = *fb;
        proof {
            reveal_strlit("ELIMINATED");
            reveal_strlit("PRESS SPACE TO SPECTATE");
        }
        assert(text_width(10, 5) == 450);
        draw_string_centered(fb, self.fb_height / 2 - 50, "ELIMINATED", colors::HEALTH_LOW, 5);
        let ghost f1 = *fb;
        assert(text_width(23, 2) == 414);
        draw_string_centered(fb, self.fb_height / 2 + 30, "PRESS SPACE TO SPECTATE", colors::WHITE, 2);
        proof {
            lemma_repainted_compose(f0, f1, *fb,
                text_rule(centered_x(f0.width as int, text_width(10, 5)), self.fb_height / 2 - 50, "ELIMINATED"@, colors::HEALTH_LOW, 5),
                text_rule(centered_x(f0.width as int, text_width(23, 2)), self.fb_height / 2 + 30, "PRESS SPACE TO SPECTATE"@, colors::WHITE, 2));
        }
    }

    /// Draw the spectating banner and the key help.
    fn draw_spectating_ui(&self, fb: &mut Framebuffer)
        requires
            old(fb).wf(),
            self.bounded(),
            self.fb_width >= 300,
            self.fb_height >= 40,
            old(fb).width <= usize::MAX / 4,
        ensures
            final(fb).wf(),
            repainted(*old(fb), *final(fb), self.rule(0, 0, 0, 0, 0, 0, 0, PlayerPhase::Spectating, Seq::empty(), old(fb).width as int)),
    {
        let w2 = self.fb_width / 2;
        let ghost f0 = *fb;
        draw_panel_raw(fb, w2 - 150, 20, 300, 50, colors::PANEL_BG);
        let ghost f1 = *fb;
        let ghost r1 = bordered_box(w2 - 150, 20, 300, 50, 2, colors::PANEL_BG, colors::PANEL_BORDER);
        proof {
            reveal_strlit("SPECTATING:");
            reveal_strlit("PlayerName");
            reveal_strlit("A/D: SWITCH PLAYER");
        }
        assert(text_width(11, 2) == 198);
        draw_string(fb, w2 - 130, 30, "SPECTATING:", colors::SUBTITLE, 2);
        let ghost f2 = *fb;
        let ghost r2 = text_rule(w2 - 130, 30, "SPECTATING:"@, colors::SUBTITLE, 2);
        proof { lemma_repainted_compose(f0, f1, f2, r1, r2); }
        assert(text_width(10, 2) == 180);
        draw_string(fb, w2 - 20, 30, "PlayerName", colors::WHITE, 2);
        let ghost f3 = *fb;
        let ghost r3 = text_rule(w2 - 20, 30, "PlayerName"@, colors::WHITE, 2);
        proof { lemma_repainted_compose(f0, f2, f3, overlay(r1, r2), r3); }
        assert(text_width(18, 2) == 324);
        draw_string_centered(fb, self.fb_height - 40, "A/D: SWITCH PLAYER", colors::SUBTITLE, 2);
        proof {
            lemma_repainted_compose(f0, f3, *fb, overlay(overlay(r1, r2), r3),
                text_rule(centered_x(f0.width as int, text_width(18, 2)), self.fb_height - 40, "A/D: SWITCH PLAYER"@, colors::SUBTITLE, 2));
        }
    }

    /// Draw the altitude indicator for `altitude` meters.
    fn draw_altitude_indicator(&self, fb: &mut Framebuffer, altitude: u32)
        requires
            old(fb).wf(),
            self.bounded(),
            self.fb_width >= 110,
        ensures
            final(fb).wf(),
            repainted(*old(fb), *final(fb), self.altitude_rule(altitude)),
    {
        let bar_x = self.fb_width - 60;
        let ghost f0 = *fb;
        fill_rect_raw(fb, bar_x, 100, 20, 400, colors::PANEL_BG);
        let ghost f1 = *fb;
        let ghost r1 = solid_rect(bar_x as int, 100, bar_x + 20, 500, colors::PANEL_BG);
        let capped: usize = if altitude < 500 { altitude as usize } else { 500 };
        let fill_height = 400 * capped / 500;
        let fill_color = if altitude < 100 {
            colors::HEALTH_LOW
        } else if altitude < 200 {
            colors::HEALTH_MED
        } else {
            colors::HEALTH_HIGH
        };
        fill_rect_raw(fb, bar_x, 500 - fill_height, 20, fill_height, fill_color);
        let ghost f2 = *fb;
        let ghost r2 = solid_rect(bar_x as int, 500 - altitude_fill(altitude), bar_x + 20, 500, altitude_color(altitude));
        proof { lemma_repainted_compose(f0, f1, f2, r1, r2); }
        proof {
            lemma_decimal_len(altitude as nat);
        }
        let digits = format_number(altitude);
        proof {
            lemma_text_width_mono(digits@.len() as int, 10, 2);
        }
        draw_chars(fb, bar_x - 50, 510, &digits, colors::WHITE, 2);
        let ghost f3 = *fb;
        let ghost r3 = text_rule(bar_x - 50, 510, decimal(altitude as nat), colors::WHITE, 2);
        proof {
            lemma_repainted_compose(f0, f2, f3, overlay(r1, r2), r3);
            reveal_strlit("M");
            assert("M"@ =~= seq!['M']);
        }
        assert(text_width(1, 2) == 18);
        draw_string(fb, bar_x - 10, 510, "M", colors::SUBTITLE, 2);
        let ghost f4 = *fb;
        let ghost r4 = text_rule(bar_x - 10, 510, seq!['M'], colors::SUBTITLE, 2);
        proof { lemma_repainted_compose(f0, f3, f4, overlay(overlay(r1, r2), r3), r4); }
        fill_rect_raw(fb, bar_x, 420, 20, 1, colors::FN_YELLOW);
        proof {
            lemma_repainted_compose(f0, f4, *fb, overlay(overlay(overlay(r1, r2), r3), r4),
                solid_rect(bar_x as int, 420, bar_x + 20, 421, colors::FN_YELLOW));
        }
    }
}

impl GameUI {
    /// Draw the HUD on the ground: crosshair, health and shield bars, weapon
    /// hotbar, materials, alive players, eliminations and the minimap.
    fn draw_ground_ui(&self, fb: &mut Framebuffer, health: u8, shield: u8, ammo: u16, max_ammo: u16, materials: u32,
        alive_count: usize, eliminations: u16, weapon_name: &str)
        requires
            old(fb).wf(),
            self.bounded(),
            self.fb_width >= 340,
            self.fb_height >= 120,
            text_width(weapon_name@.len() as int, 2) <= self.fb_width,
            alive_count <= 99_999_999,
        ensures
            final(fb).wf(),
            repainted(*old(fb), *final(fb), self.ground_rule(health, shield, ammo, max_ammo, materials, alive_count as nat,
                eliminations, weapon_name@)),
    {
        let by = self.fb_height - 120;
        let ghost f0 = *fb;
        draw_crosshair_raw(fb, self.fb_width, self.fb_height, colors::WHITE);
        let ghost f1 = *fb;
        let ghost r1 = crosshair((self.fb_width / 2) as int, (self.fb_height / 2) as int, colors::WHITE);
        self.draw_health_bar(fb, 20, by, 200, 25, health);
        let ghost f2 = *fb;
        let ghost r2 = health_rule(20, by as int, 200, 25, health);
        proof { lemma_repainted_compose(f0, f1, f2, r1, r2); }
        self.draw_shield_bar(fb, 20, by + 30, 200, 20, shield);
        let ghost f3 = *fb;
        let ghost r3 = shield_rule(20, by + 30, 200, 20, shield);
        proof { lemma_repainted_compose(f0, f2, f3, overlay(r1, r2), r3); }
        self.draw_weapon_hotbar(fb, weapon_name, ammo, max_ammo);
        let ghost f4 = *fb;
        let ghost r4 = self.hotbar_rule(weapon_name@, ammo, max_ammo);
        let ghost a = overlay(overlay(overlay(r1, r2), r3), r4);
        proof { lemma_repainted_compose(f0, f3, f4, overlay(overlay(r1, r2), r3), r4); }
        draw_materials(fb, self.fb_width - 150, by, materials);
        let ghost f5 = *fb;
        let ghost r5 = materials_rule(self.fb_width - 150, by as int, materials);
        proof { lemma_repainted_compose(f0, f4, f5, a, r5); }
        draw_player_count(fb, self.fb_width - 120, 20, alive_count);
        let ghost f6 = *fb;
        let ghost r6 = player_count_rule(self.fb_width - 120, 20, alive_count as nat);
        proof { lemma_repainted_compose(f0, f5, f6, overlay(a, r5), r6); }
        draw_eliminations(fb, self.fb_width - 120, 60, eliminations);
        let ghost f7 = *fb;
        let ghost r7 = eliminations_rule(self.fb_width - 120, 60, eliminations);
        proof { lemma_repainted_compose(f0, f6, f7, overlay(overlay(a, r5), r6), r7); }
        draw_minimap_placeholder(fb, 20, 60, 150);
        proof {
            lemma_repainted_compose(f0, f7, *fb, overlay(overlay(overlay(a, r5), r6), r7), minimap_rule(20, 60, 150));
        }
    }

    /// Draw a health bar at (x, y) with the number to its right.
    fn draw_health_bar(&self, fb: &mut Framebuffer, x: usize, y: usize, width: usize, height: usize, health: u8)
        requires
            old(fb).wf(),
            2 <= width <= 1000,
            x <= 1000,
            y <= 0x0100_0000,
            height <= 1000,
        ensures
            final(fb).wf(),
            repainted(*old(fb), *final(fb), health_rule(x as int, y as int, width as int, height as int, health)),
    {
        let fill = if health > 50 { colors::HEALTH_HIGH } else if health > 25 { colors::HEALTH_MED } else { colors::HEALTH_LOW };
        let ghost f0 = *fb;
        draw_percent_bar(fb, x, y, width, height, health, fill, colors::PANEL_BG);
        let ghost f1 = *fb;
        proof {
            lemma_decimal_len(health as nat);
        }
        let digits = format_number(health as u32);
        proof {
            lemma_text_width_mono(digits@.len() as int, 3, 2);
        }
        draw_chars(fb, x + width + 10, y + 4, &digits, colors::WHITE, 2);
        proof {
            lemma_repainted_compose(f0, f1, *fb,
                percent_bar_rule(x as int, y as int, width as int, height as int, health as int, fill, colors::PANEL_BG),
                text_rule(x + width + 10, y + 4, decimal(health as nat), colors::WHITE, 2));
        }
    }

    /// Draw a shield bar at (x, y) with the number to its right, when there is shield.
    fn draw_shield_bar(&self, fb: &mut Framebuffer, x: usize, y: usize, width: usize, height: usize, shield: u8)
        requires
            old(fb).wf(),
            2 <= width <= 1000,
            x <= 1000,
            y <= 0x0100_0000,
            height <= 1000,
        ensures
            final(fb).wf(),
            repainted(*old(fb), *final(fb), shield_rule(x as int, y as int, width as int, height as int, shield)),
    {
        if shield == 0 {
            proof {
                lemma_repainted_nothing(*fb);
            }
            return;
        }
        let ghost f0 = *fb;
        draw_percent_bar(fb, x, y, width, height, shield, colors::FN_BLUE, colors::PANEL_BG);
        let ghost f1 = *fb;
        proof {
            lemma_decimal_len(shield as nat);
        }
        let digits = format_number(shield as u32);
        proof {
            lemma_text_width_mono(digits@.len() as int, 3, 2);
        }
        draw_chars(fb, x + width + 10, y + 2, &digits, colors::FN_BLUE, 2);
        proof {
            lemma_repainted_compose(f0, f1, *fb,
                percent_bar_rule(x as int, y as int, width as int, height as int, shield as int, colors::FN_BLUE, colors::PANEL_BG),
                text_rule(x + width + 10, y + 2, decimal(shield as nat), colors::FN_BLUE, 2));
        }
    }

    /// Draw the weapon hotbar (first slot selected), the weapon's name and the ammo line.
    fn draw_weapon_hotbar(&self, fb: &mut Framebuffer, weapon_name: &str, ammo: u16, max_ammo: u16)
        requires
            old(fb).wf(),
            self.bounded(),
            self.fb_width >= 340,
            self.fb_height >= 80,
            text_width(weapon_name@.len() as int, 2) <= self.fb_width,
        ensures
            final(fb).wf(),
            repainted(*old(fb), *final(fb), self.hotbar_rule(weapon_name@, ammo, max_ammo)),
    {
        let y = self.fb_height - 80;
        let start_x = (self.fb_width - 340) / 2;
        let ghost f0 = *fb;
        proof {
            lemma_repainted_nothing(f0);
        }
        let mut i: usize = 0;
        while i < 5
            invariant
                fb.wf(),
                i <= 5,
                self.bounded(),
                self.fb_width >= 340,
                self.fb_height >= 80,
                y == self.fb_height - 80,
                start_x == (self.fb_width - 340) / 2,
                repainted(f0, *fb, self.slots_rule(y as int, i as int)),
            decreases 5 - i,
        {
            let slot_x = start_x + i * 70;
            let selected = i == 0;
            let bg = if selected { colors::BUTTON_SELECTED } else { colors::PANEL_BG };
            let border = if selected { colors::FN_YELLOW } else { colors::PANEL_BORDER };
            let ghost before = *fb;
            fill_bordered_box(fb, slot_x, y, 60, 60, 1, bg, border);
            let ghost mid = *fb;
            proof {
                lemma_decimal_len((i + 1) as nat);
            }
            let digit = format_number((i + 1) as u32);
            assert(decimal((i + 1) as nat).len() == 1);
            assert(text_width(1, 1) == 9);
            draw_chars(fb, slot_x + 5, y + 5, &digit, colors::SUBTITLE, 1);
            proof {
                lemma_repainted_compose(before, mid, *fb, bordered_box(slot_x as int, y as int, 60, 60, 1, bg, border),
                    text_rule(slot_x + 5, y + 5, decimal((i + 1) as nat), colors::SUBTITLE, 1));
                lemma_repainted_compose(f0, before, *fb, self.slots_rule(y as int, i as int), self.slot_rule(i as int, y as int));
            }
            i += 1;
        }
        let ghost f1 = *fb;
        let name = crate::graphics::font::chars_of(weapon_name);
        let name_width = string_width(&name, 2);
        draw_chars(fb, (self.fb_width - name_width) / 2, y + 65, &name, colors::WHITE, 2);
        let ghost f2 = *fb;
        let ghost r2 = text_rule((self.fb_width - text_width(weapon_name@.len() as int, 2)) / 2, y + 65, weapon_name@, colors::WHITE, 2);
        proof { lemma_repainted_compose(f0, f1, f2, self.slots_rule(y as int, 5), r2); }
        let ammo_text = format_ammo(ammo, max_ammo);
        proof {
            reveal_strlit("/");
            lemma_decimal_len(ammo as nat);
            lemma_decimal_len(max_ammo as nat);
            lemma_text_width_mono(ammo_text@.len() as int, 11, 2);
        }
        let ammo_width = string_width(&ammo_text, 2);
        draw_chars(fb, (self.fb_width - ammo_width) / 2, y + 90, &ammo_text, colors::FN_YELLOW, 2);
        proof {
            lemma_repainted_compose(f0, f2, *fb, overlay(self.slots_rule(y as int, 5), r2),
                text_rule((self.fb_width - text_width(ammo_text@.len() as int, 2)) / 2, y + 90, ammo_text@, colors::FN_YELLOW, 2));
        }
    }
}

/// Draw the materials panel at (x, y).
fn draw_materials(fb: &mut Framebuffer, x: usize, y: usize, materials: u32)
    requires
        old(fb).wf(),
        x <= 0x0100_0000,
        y <= 0x0100_0000,
    ensures
        final(fb).wf(),
        repainted(*old(fb), *final(fb), materials_rule(x as int, y as int, materials)),
{
    let ghost f0 = *fb;
    draw_panel_raw(fb, x, y, 130, 60, colors::PANEL_BG);
    let ghost f1 = *fb;
    let ghost r1 = bordered_box(x as int, y as int, 130, 60, 2, colors::PANEL_BG, colors::PANEL_BORDER);
    fill_rect_raw(fb, x + 10, y + 15, 30, 30, WOOD_PLANK);
    let ghost f2 = *fb;
    let ghost r2 = solid_rect(x + 10, y + 15, x + 40, y + 45, WOOD_PLANK);
    proof {
        lemma_repainted_compose(f0, f1, f2, r1, r2);
        lemma_decimal_len(materials as nat);
    }
    let digits = format_number(materials);
    proof {
        lemma_text_width_mono(digits@.len() as int, 10, 2);
    }
    draw_chars(fb, x + 50, y + 20, &digits, colors::WHITE, 2);
    proof {
        lemma_repainted_compose(f0, f2, *fb, overlay(r1, r2), text_rule(x + 50, y + 20, decimal(materials as nat), colors::WHITE, 2));
    }
}

/// Draw the alive-players panel at (x, y).
fn draw_player_count(fb: &mut Framebuffer, x: usize, y: usize, count: usize)
    requires
        old(fb).wf(),
        x <= 0x0100_0000,
        y <= 0x0100_0000,
        count <= 99_999_999,
    ensures
        final(fb).wf(),
        repainted(*old(fb), *final(fb), player_count_rule(x as int, y as int, count as nat)),
{
    let ghost f0 = *fb;
    draw_panel_raw(fb, x, y, 100, 35, colors::PANEL_BG);
    let ghost f1 = *fb;
    let ghost r1 = bordered_box(x as int, y as int, 100, 35, 2, colors::PANEL_BG, colors::PANEL_BORDER);
    fill_rect_raw(fb, x + 8, y + 8, 6, 8, colors::WHITE);
    let ghost f2 = *fb;
    let ghost r2 = solid_rect(x + 8, y + 8, x + 14, y + 16, colors::WHITE);
    proof { lemma_repainted_compose(f0, f1, f2, r1, r2); }
    fill_rect_raw(fb, x + 6, y + 16, 10, 12, colors::WHITE);
    let ghost f3 = *fb;
    let ghost r3 = solid_rect(x + 6, y + 16, x + 16, y + 28, colors::WHITE);
    proof {
        lemma_repainted_compose(f0, f2, f3, overlay(r1, r2), r3);
        lemma_decimal_len(count as nat);
    }
    let digits = format_number(count as u32);
    proof {
        lemma_text_width_mono(digits@.len() as int, 10, 2);
    }
    draw_chars(fb, x + 30, y + 10, &digits, colors::WHITE, 2);
    proof {
        lemma_repainted_compose(f0, f3, *fb, overlay(overlay(r1, r2), r3), text_rule(x + 30, y + 10, decimal(count as nat), colors::WHITE, 2));
    }
}

/// Draw the eliminations panel at (x, y).
fn draw_eliminations(fb: &mut Framebuffer, x: usize, y: usize, elims: u16)
    requires
        old(fb).wf(),
        x <= 0x0100_0000,
        y <= 0x0100_0000,
    ensures
        final(fb).wf(),
        repainted(*old(fb), *final(fb), eliminations_rule(x as int, y as int, elims)),
{
    let ghost f0 = *fb;
    draw_panel_raw(fb, x, y, 100, 35, colors::PANEL_BG);
    let ghost f1 = *fb;
    let ghost r1 = bordered_box(x as int, y as int, 100, 35, 2, colors::PANEL_BG, colors::PANEL_BORDER);
    fill_rect_raw(fb, x + 8, y + 8, 10, 10, colors::WHITE);
    let ghost f2 = *fb;
    let ghost r2 = solid_rect(x + 8, y + 8, x + 18, y + 18, colors::WHITE);
    proof { lemma_repainted_compose(f0, f1, f2, r1, r2); }
    fb.put_pixel(x + 10, y + 12, colors::PANEL_BG);
    let ghost f3 = *fb;
    let ghost r3 = solid_rect(x + 10, y + 12, x + 11, y + 13, colors::PANEL_BG);
    proof { lemma_repainted_compose(f0, f2, f3, overlay(r1, r2), r3); }
    fb.put_pixel(x + 14, y + 12, colors::PANEL_BG);
    let ghost f4 = *fb;
    let ghost r4 = solid_rect(x + 14, y + 12, x + 15, y + 13, colors::PANEL_BG);
    proof { lemma_repainted_compose(f0, f3, f4, overlay(overlay(r1, r2), r3), r4); }
    fill_rect_raw(fb, x + 10, y + 18, 6, 4, colors::WHITE);
    let ghost f5 = *fb;
    let ghost r5 = solid_rect(x + 10, y + 18, x + 16, y + 22, colors::WHITE);
    proof {
        lemma_repainted_compose(f0, f4, f5, overlay(overlay(overlay(r1, r2), r3), r4), r5);
        lemma_decimal_len(elims as nat);
    }
    let digits = format_number(elims as u32);
    proof {
        lemma_text_width_mono(digits@.len() as int, 5, 2);
    }
    draw_chars(fb, x + 30, y + 10, &digits, colors::WHITE, 2);
    proof {
        lemma_repainted_compose(f0, f5, *fb, overlay(overlay(overlay(overlay(r1, r2), r3), r4), r5),
            text_rule(x + 30, y + 10, decimal(elims as nat), colors::WHITE, 2));
    }
}

/// Draw the minimap stand-in at (x, y), `size` pixels square.
fn draw_minimap_placeholder(fb: &mut Framebuffer, x: usize, y: usize, size: usize)
    requires
        old(fb).wf(),
        20 <= size <= 0x0100_0000,
        x <= 0x0100_0000,
        y <= 0x0100_0000,
    ensures
        final(fb).wf(),
        repainted(*old(fb), *final(fb), minimap_rule(x as int, y as int, size as int)),
{
    let ghost f0 = *fb;
    fill_bordered_box(fb, x, y, size, size, 1, colors::PANEL_BG, colors::PANEL_BORDER);
    let ghost f1 = *fb;
    let ghost r1 = bordered_box(x as int, y as int, size as int, size as int, 1, colors::PANEL_BG, colors::PANEL_BORDER);
    fill_rect_raw(fb, x + 10, y + 10, size - 20, size - 20, GRASS_GREEN);
    let ghost f2 = *fb;
    let ghost r2 = solid_rect(x + 10, y + 10, x + size - 10, y + size - 10, GRASS_GREEN);
    proof { lemma_repainted_compose(f0, f1, f2, r1, r2); }
    let cx = x + size / 2;
    let cy = y + size / 2;
    draw_round_dot(fb, cx - 3, cy - 3, 6, 9, colors::WHITE);
    let ghost f3 = *fb;
    let ghost r3 = round_dot_rule(cx - 3, cy - 3, 6, 9, colors::WHITE);
    proof { lemma_repainted_compose(f0, f2, f3, overlay(r1, r2), r3); }
    fb.put_pixel(cx, cy - 5, colors::FN_YELLOW);
    let ghost f4 = *fb;
    let ghost r4 = solid_rect(cx as int, cy - 5, cx + 1, cy - 4, colors::FN_YELLOW);
    proof { lemma_repainted_compose(f0, f3, f4, overlay(overlay(r1, r2), r3), r4); }
    fb.put_pixel(cx, cy - 6, colors::FN_YELLOW);
    proof {
        lemma_repainted_compose(f0, f4, *fb, overlay(overlay(overlay(r1, r2), r3), r4),
            solid_rect(cx as int, cy - 6, cx + 1, cy - 5, colors::FN_YELLOW));
    }
}

/// Rule of the countdown screen over the background rows `bg` on a screen
/// `screen_w` pixels wide: "GAME STARTING", the seconds in large digits and
/// "GET READY!", centered around mid-screen.
pub open spec fn countdown_rule(bg: Seq<u32>, fb_width: int, fb_height: int, seconds: u8, screen_w: int) -> spec_fn(int, int) -> Option<u32> {
    let digits = decimal(seconds as nat);
    overlay(overlay(overlay(
        rows_rule(bg, fb_width, fb_height),
        text_rule(centered_x(screen_w, text_width(13, 4)), fb_height / 2 - 100, "GAME STARTING"@, colors::TITLE, 4)),
        text_rule(centered_x(screen_w, text_width(digits.len() as int, 10)), fb_height / 2, digits, colors::FN_YELLOW, 10)),
        text_rule(centered_x(screen_w, text_width(10, 3)), fb_height / 2 + 120, "GET READY!"@, colors::WHITE, 3))
}

/// Draw the countdown screen over the gradient background rows `background`.
pub fn draw_countdown(fb: &mut Framebuffer, background: &Vec<u32>, fb_width: usize, fb_height: usize, seconds: u8)
    requires
        old(fb).wf(),
        200 <= fb_height <= 0x0100_0000,
    ensures
        final(fb).wf(),
        repainted(*old(fb), *final(fb), countdown_rule(background@, fb_width as int, fb_height as int, seconds, old(fb).width as int)),
{
    let ghost f0 = *fb;
    let ghost sw = f0.width as int;
    proof {
        lemma_width_bound(f0);
        reveal_strlit("GAME STARTING");
        reveal_strlit("GET READY!");
    }
    draw_gradient_background_raw(fb, background, fb_width, fb_height);
    let ghost f1 = *fb;
    let ghost r1 = rows_rule(background@, fb_width as int, fb_height as int);
    assert(text_width(13, 4) == 468);
    draw_string_centered(fb, fb_height / 2 - 100, "GAME STARTING", colors::TITLE, 4);
    let ghost f2 = *fb;
    let ghost r2 = text_rule(centered_x(sw, text_width(13, 4)), fb_height / 2 - 100, "GAME STARTING"@, colors::TITLE, 4);
    proof {
        lemma_repainted_compose(f0, f1, f2, r1, r2);
        lemma_decimal_len(seconds as nat);
    }
    let digits = format_number(seconds as u32);
    proof {
        lemma_text_width_mono(digits@.len() as int, 3, 10);
    }
    crate::graphics::font::draw_chars_centered(fb, fb_height / 2, &digits, colors::FN_YELLOW, 10);
    let ghost f3 = *fb;
    let ghost r3 = text_rule(centered_x(sw, text_width(digits@.len() as int, 10)), (fb_height / 2) as int, digits@, colors::FN_YELLOW, 10);
    proof { lemma_repainted_compose(f0, f2, f3, overlay(r1, r2), r3); }
    assert(text_width(10, 3) == 270);
    draw_string_centered(fb, fb_height / 2 + 120, "GET READY!", colors::WHITE, 3);
    proof {
        lemma_repainted_compose(f0, f3, *fb, overlay(overlay(r1, r2), r3),
            text_rule(centered_x(sw, text_width(10, 3)), fb_height / 2 + 120, "GET READY!"@, colors::WHITE, 3));
    }
}

/// Color of confetti square `i`.
pub open spec fn confetti_color(i: int) -> u32 {
    let k = i % 4;
    if k == 0 { colors::FN_YELLOW } else if k == 1 { colors::FN_BLUE } else if k == 2 { 0xCC3366 } else { colors::READY }
}

/// Rule of the first `n` confetti squares: square `i` is 6 pixels wide at
/// ((37i + 100) mod `fb_width`, (23i + 50) mod `half_h`).
pub open spec fn confetti_rule(fb_width: int, half_h: int, n: int) -> spec_fn(int, int) -> Option<u32>
    decreases n,
{
    if n <= 0 {
        no_paint()
    } else {
        let i = n - 1;
        let x = (i * 37 + 100) % fb_width;
        let y = (i * 23 + 50) % half_h;
        overlay(confetti_rule(fb_width, half_h, n - 1), solid_rect(x, y, x + 6, y + 6, confetti_color(i)))
    }
}

/// Rule of the end-of-match screen over the background rows `bg` on a screen
/// `screen_w` pixels wide: a victory title with 50 confetti squares when the
/// local player (id 0) won, otherwise a defeat title and the placement line;
/// then the stats panel and the centered prompt.
pub open spec fn victory_rule(bg: Seq<u32>, fb_width: int, fb_height: int, winner_id: Option<u8>, screen_w: int) -> spec_fn(int, int) -> Option<u32> {
    let h2 = fb_height / 2;
    let top = if winner_id == Some(0u8) {
        overlay(
            text_rule(centered_x(screen_w, text_width(15, 5)), h2 - 80, "VICTORY ROYALE!"@, colors::FN_YELLOW, 5),
            confetti_rule(fb_width, h2, 50))
    } else {
        let placement = if winner_id is Some { "YOU PLACED: #2"@ } else { "MATCH ENDED"@ };
        overlay(
            text_rule(centered_x(screen_w, text_width(21, 4)), h2 - 80, "BETTER LUCK NEXT TIME"@, colors::HEALTH_LOW, 4),
            text_rule(centered_x(screen_w, text_width(placement.len() as int, 3)), h2, placement, colors::WHITE, 3))
    };
    let px = (fb_width - 400) / 2;
    let py = h2 + 60;
    overlay(overlay(overlay(overlay(overlay(overlay(overlay(overlay(overlay(
        rows_rule(bg, fb_width, fb_height),
        top),
        bordered_box(px, py, 400, 150, 2, colors::PANEL_BG, colors::PANEL_BORDER)),
        text_rule(px + 20, py + 20, "ELIMINATIONS:"@, colors::SUBTITLE, 2)),
        text_rule(px + 250, py + 20, "0"@, colors::WHITE, 2)),
        text_rule(px + 20, py + 60, "DAMAGE DEALT:"@, colors::SUBTITLE, 2)),
        text_rule(px + 250, py + 60, "0"@, colors::WHITE, 2)),
        text_rule(px + 20, py + 100, "TIME SURVIVED:"@, colors::SUBTITLE, 2)),
        text_rule(px + 250, py + 100, "0:00"@, colors::WHITE, 2)),
        text_rule(centered_x(screen_w, text_width(23, 2)), fb_height - 60, "PRESS ENTER TO CONTINUE"@, colors::SUBTITLE, 2))
}

/// Draw the end-of-match screen over the gradient background rows `background`.
pub fn draw_victory(fb: &mut Framebuffer, background: &Vec<u32>, fb_width: usize, fb_height: usize, winner_id: Option<u8>)
    requires
        old(fb).wf(),
        400 <= fb_width <= 0x0100_0000,
        160 <= fb_height <= 0x0100_0000,
    ensures
        final(fb).wf(),
        repainted(*old(fb), *final(fb), victory_rule(background@, fb_width as int, fb_height as int, winner_id, old(fb).width as int)),
{
    let ghost f0 = *fb;
    let ghost sw = f0.width as int;
    proof {
        lemma_width_bound(f0);
    }
    draw_gradient_background_raw(fb, background, fb_width, fb_height);
    let ghost f1 = *fb;
    let ghost r1 = rows_rule(background@, fb_width as int, fb_height as int);
    let h2 = fb_height / 2;
    let is_winner = match winner_id { Some(id) => id == 0, None => false };
    assert(is_winner == (winner_id == Some(0u8)));
    if is_winner {
        proof {
            reveal_strlit("VICTORY ROYALE!");
        }
        assert(text_width(15, 5) == 675);
        draw_string_centered(fb, h2 - 80, "VICTORY ROYALE!", colors::FN_YELLOW, 5);
        let ghost f2 = *fb;
        proof {
            lemma_repainted_nothing(f2);
        }
        let mut i: usize = 0;
        while i < 50
            invariant
                fb.wf(),
                i <= 50,
                400 <= fb_width <= 0x0100_0000,
                h2 == fb_height / 2,
                80 <= h2,
                repainted(f2, *fb, confetti_rule(fb_width as int, h2 as int, i as int)),
            decreases 50 - i,
        {
            let x = (i * 37 + 100) % fb_width;
            let y = (i * 23 + 50) % h2;
            let color = match i % 4 {
                0 => colors::FN_YELLOW,
                1 => colors::FN_BLUE,
                2 => 0xCC3366,
                _ => colors::READY,
            };
            let ghost before = *fb;
            fill_rect_raw(fb, x, y, 6, 6, color);
            proof {
                lemma_repainted_compose(f2, before, *fb, confetti_rule(fb_width as int, h2 as int, i as int),
                    solid_rect(x as int, y as int, x + 6, y + 6, confetti_color(i as int)));
            }
            i += 1;
        }
        proof {
            lemma_repainted_compose(f1, f2, *fb,
                text_rule(centered_x(sw, text_width(15, 5)), h2 - 80, "VICTORY ROYALE!"@, colors::FN_YELLOW, 5),
                confetti_rule(fb_width as int, h2 as int, 50));
        }
    } else {
        proof {
            reveal_strlit("BETTER LUCK NEXT TIME");
            reveal_strlit("YOU PLACED: #2");
            reveal_strlit("MATCH ENDED");
        }
        assert(text_width(21, 4) == 756);
        draw_string_centered(fb, h2 - 80, "BETTER LUCK NEXT TIME", colors::HEALTH_LOW, 4);
        let ghost f2 = *fb;
        let placement = match winner_id { Some(_) => "YOU PLACED: #2", None => "MATCH ENDED" };
        proof {
            lemma_text_width_mono(placement@.len() as int, 14, 3);
        }
        draw_string_centered(fb, h2, placement, colors::WHITE, 3);
        proof {
            lemma_repainted_compose(f1, f2, *fb,
                text_rule(centered_x(sw, text_width(21, 4)), h2 - 80, "BETTER LUCK NEXT TIME"@, colors::HEALTH_LOW, 4),
                text_rule(centered_x(sw, text_width(placement@.len() as int, 3)), h2 as int, placement@, colors::WHITE, 3));
        }
    }
    let ghost f3 = *fb;
    let ghost top = if winner_id == Some(0u8) {
        overlay(
            text_rule(centered_x(sw, text_width(15, 5)), h2 - 80, "VICTORY ROYALE!"@, colors::FN_YELLOW, 5),
            confetti_rule(fb_width as int, h2 as int, 50))
    } else {
        let placement = if winner_id is Some { "YOU PLACED: #2"@ } else { "MATCH ENDED"@ };
        overlay(
            text_rule(centered_x(sw, text_width(21, 4)), h2 - 80, "BETTER LUCK NEXT TIME"@, colors::HEALTH_LOW, 4),
            text_rule(centered_x(sw, text_width(placement.len() as int, 3)), h2 as int, placement, colors::WHITE, 3))
    };
    proof { lemma_repainted_compose(f0, f1, f3, r1, top); }
    let ghost a = overlay(r1, top);
    let px = (fb_width - 400) / 2;
    let py = h2 + 60;
    draw_panel_raw(fb, px, py, 400, 150, colors::PANEL_BG);
    let ghost f4 = *fb;
    let ghost r4 = bordered_box(px as int, py as int, 400, 150, 2, colors::PANEL_BG, colors::PANEL_BORDER);
    proof { lemma_repainted_compose(f0, f3, f4, a, r4); }
    draw_stats(fb, px, py);
    let ghost f5 = *fb;
    let ghost r5 = stats_rule(px as int, py as int);
    proof { lemma_repainted_compose(f0, f4, f5, overlay(a, r4), r5); }
    proof {
        reveal_strlit("PRESS ENTER TO CONTINUE");
    }
    assert(text_width(23, 2) == 414);
    draw_string_centered(fb, fb_height - 60, "PRESS ENTER TO CONTINUE", colors::SUBTITLE, 2);
    proof {
        lemma_repainted_compose(f0, f5, *fb, overlay(overlay(a, r4), r5),
            text_rule(centered_x(sw, text_width(23, 2)), fb_height - 60, "PRESS ENTER TO CONTINUE"@, colors::SUBTITLE, 2));
        assert(victory_rule(background@, fb_width as int, fb_height as int, winner_id, sw)
            =~= overlay(overlay(overlay(a, r4), r5),
                text_rule(centered_x(sw, text_width(23, 2)), fb_height - 60, "PRESS ENTER TO CONTINUE"@, colors::SUBTITLE, 2)));
    }
}

/// Rule of the stats lines of the end-of-match panel at (px, py).
pub open spec fn stats_rule(px: int, py: int) -> spec_fn(int, int) -> Option<u32> {
    overlay(overlay(overlay(overlay(overlay(
        text_rule(px + 20, py + 20, "ELIMINATIONS:"@, colors::SUBTITLE, 2),
        text_rule(px + 250, py + 20, "0"@, colors::WHITE, 2)),
        text_rule(px + 20, py + 60, "DAMAGE DEALT:"@, colors::SUBTITLE, 2)),
        text_rule(px + 250, py + 60, "0"@, colors::WHITE, 2)),
        text_rule(px + 20, py + 100, "TIME SURVIVED:"@, colors::SUBTITLE, 2)),
        text_rule(px + 250, py + 100, "0:00"@, colors::WHITE, 2))
}

/// Draw the stats lines of the end-of-match panel at (px, py).
fn draw_stats(fb: &mut Framebuffer, px: usize, py: usize)
    requires
        old(fb).wf(),
        px <= 0x0100_0000,
        py <= 0x0100_0000,
    ensures
        final(fb).wf(),
        repainted(*old(fb), *final(fb), stats_rule(px as int, py as int)),
{
    proof {
        reveal_strlit("ELIMINATIONS:");
        reveal_strlit("DAMAGE DEALT:");
        reveal_strlit("TIME SURVIVED:");
        reveal_strlit("0");
        reveal_strlit("0:00");
    }
    assert(text_width(13, 2) == 234);
    assert(text_width(14, 2) == 252);
    assert(text_width(1, 2) == 18);
    assert(text_width(4, 2) == 72);
    let ghost f0 = *fb;
    draw_string(fb, px + 20, py + 20, "ELIMINATIONS:", colors::SUBTITLE, 2);
    let ghost f1 = *fb;
    let ghost r1 = text_rule(px + 20, py + 20, "ELIMINATIONS:"@, colors::SUBTITLE, 2);
    draw_string(fb, px + 250, py + 20, "0", colors::WHITE, 2);
    let ghost f2 = *fb;
    let ghost r2 = text_rule(px + 250, py + 20, "0"@, colors::WHITE, 2);
    proof { lemma_repainted_compose(f0, f1, f2, r1, r2); }
    draw_string(fb, px + 20, py + 60, "DAMAGE DEALT:", colors::SUBTITLE, 2);
    let ghost f3 = *fb;
    let ghost r3 = text_rule(px + 20, py + 60, "DAMAGE DEALT:"@, colors::SUBTITLE, 2);
    proof { lemma_repainted_compose(f0, f2, f3, overlay(r1, r2), r3); }
    draw_string(fb, px + 250, py + 60, "0", colors::WHITE, 2);
    let ghost f4 = *fb;
    let ghost r4 = text_rule(px + 250, py + 60, "0"@, colors::WHITE, 2);
    proof { lemma_repainted_compose(f0, f3, f4, overlay(overlay(r1, r2), r3), r4); }
    draw_string(fb, px + 20, py + 100, "TIME SURVIVED:", colors::SUBTITLE, 2);
    let ghost f5 = *fb;
    let ghost r5 = text_rule(px + 20, py + 100, "TIME SURVIVED:"@, colors::SUBTITLE, 2);
    proof { lemma_repainted_compose(f0, f4, f5, overlay(overlay(overlay(r1, r2), r3), r4), r5); }
    draw_string(fb, px + 250, py + 100, "0:00", colors::WHITE, 2);
    proof {
        lemma_repainted_compose(f0, f5, *fb, overlay(overlay(overlay(overlay(r1, r2), r3), r4), r5),
            text_rule(px + 250, py + 100, "0:00"@, colors::WHITE, 2));
    }
}

} // verus!
