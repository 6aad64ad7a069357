//! The model gallery: which model is shown, its catalogue entry, and the
//! text lines of its overlay. Zoom and rotation are kept by the renderer.

use vstd::prelude::*;
use crate::graphics::font::{
    decimal, digits_within, write_number as write_digits, push_text_capped, lemma_decimal_len, text_rule, text_width,
    centered_x, draw_chars, draw_chars_centered, draw_string, chars_of, lemma_text_width_mono,
};
use crate::graphics::framebuffer::{Framebuffer, repainted, overlay, solid_rect, lemma_repainted_compose, lemma_width_bound};
use crate::graphics::ui::colors;
use crate::graphics::ui::panel::{bordered_box, draw_panel_raw, fill_rect_raw};
use crate::game_types::state::{GameState, MenuAction};
use crate::ui::fortnite_lobby::{wrap_prev, wrap_next};

verus! {

/// Append `value` to text growing to `cap` characters, keeping the lowest
/// digits that fit.
pub fn write_number(out: &mut Vec<char>, value: usize, cap: usize)
    requires
        old(out)@.len() <= cap,
        value == 0 ==> old(out)@.len() < cap,
    ensures
        final(out)@ == old(out)@ + digits_within(value as nat, cap - old(out)@.len()),
{
    write_digits(out, value as u64, cap);
}

/// A labelled number in 32 characters: the prefix (cut to fit), then the
/// value's digits that still fit.
pub open spec fn model_info_text(prefix: Seq<char>, value: nat) -> Seq<char> {
    let p = prefix.take(if prefix.len() <= 32 { prefix.len() as int } else { 32 });
    p + if p.len() == 32 { Seq::<char>::empty() } else { digits_within(value, 32 - p.len()) }
}

/// A labelled number in 32 characters: the prefix (cut to fit), then the
/// value's digits that still fit.
pub fn format_model_info(prefix: &str, value: usize) -> (r: Vec<char>)
    requires
        vstd::string::is_ascii(prefix),
    ensures
        r@ == model_info_text(prefix@, value as nat),
{
    let mut out: Vec<char> = Vec::new();
    push_text_capped(&mut out, prefix, 32);
    if out.len() < 32 {
        write_number(&mut out, value, 32);
    } else {
        assert(out@ =~= out@ + Seq::<char>::empty());
    }
    out
}

/// Size line "Size: WxHxD voxels" in 48 characters (the suffix is cut when it
/// does not fit).
pub open spec fn size_text(w: nat, h: nat, d: nat) -> Seq<char> {
    let base = "Size: "@ + decimal(w) + "x"@ + decimal(h) + "x"@
        + digits_within(d, 40 - decimal(w).len() - decimal(h).len());
    base + " voxels"@.take(if 7 <= 48 - base.len() { 7 } else { 48 - base.len() })
}

/// Size line "Size: WxHxD voxels" in 48 characters (the suffix is cut when it
/// does not fit).
pub fn format_size_info(w: usize, h: usize, d: usize) -> (r: Vec<char>)
    requires
        decimal(w as nat).len() + decimal(h as nat).len() < 40 || d > 0,
    ensures
        r@ == size_text(w as nat, h as nat, d as nat),
{
    proof {
        reveal_strlit("Size: ");
        reveal_strlit("x");
        reveal_strlit(" voxels");
        lemma_decimal_len(w as nat);
        lemma_decimal_len(h as nat);
    }
    let mut out: Vec<char> = Vec::new();
    push_text_capped(&mut out, "Size: ", 48);
    assert("Size: "@.take(6) =~= "Size: "@);
    write_number(&mut out, w, 48);
    out.push('x');
    write_number(&mut out, h, 48);
    out.push('x');
    write_number(&mut out, d, 48);
    push_text_capped(&mut out, " voxels", 48);
    out
}

/// Number of models in the gallery.
pub const MODEL_COUNT: usize = 24;

/// Display name of gallery model `index` (below the model count).
pub open spec fn model_name_text(index: int) -> Seq<char> {
    if index == 0 { "Player"@ }
    else if index == 1 { "Shotgun"@ }
    else if index == 2 { "Assault Rifle"@ }
    else if index == 3 { "Pistol"@ }
    else if index == 4 { "SMG"@ }
    else if index == 5 { "Sniper Rifle"@ }
    else if index == 6 { "Pickaxe"@ }
    else if index == 7 { "Glider (Red)"@ }
    else if index == 8 { "Glider (Blue)"@ }
    else if index == 9 { "Glider (Green)"@ }
    else if index == 10 { "Glider (Orange)"@ }
    else if index == 11 { "Pine Tree"@ }
    else if index == 12 { "Oak Tree"@ }
    else if index == 13 { "Rock"@ }
    else if index == 14 { "Wall (Wood)"@ }
    else if index == 15 { "Wall (Brick)"@ }
    else if index == 16 { "Wall (Metal)"@ }
    else if index == 17 { "Floor (Wood)"@ }
    else if index == 18 { "Ramp (Wood)"@ }
    else if index == 19 { "Battle Bus"@ }
    else if index == 20 { "Chest"@ }
    else if index == 21 { "Backpack (Small)"@ }
    else if index == 22 { "Backpack (Medium)"@ }
    else { "Backpack (Large)"@ }
}

/// Display name of gallery model `index`.
pub fn model_name(index: usize) -> (r: Option<&'static str>)
    ensures
        r is Some <==> index < MODEL_COUNT,
        r matches Some(s) ==> s@ == model_name_text(index as int),
{
    match index {
        0 => Some("Player"),
        1 => Some("Shotgun"),
        2 => Some("Assault Rifle"),
        3 => Some("Pistol"),
        4 => Some("SMG"),
        5 => Some("Sniper Rifle"),
        6 => Some("Pickaxe"),
        7 => Some("Glider (Red)"),
        8 => Some("Glider (Blue)"),
        9 => Some("Glider (Green)"),
        10 => Some("Glider (Orange)"),
        11 => Some("Pine Tree"),
        12 => Some("Oak Tree"),
        13 => Some("Rock"),
        14 => Some("Wall (Wood)"),
        15 => Some("Wall (Brick)"),
        16 => Some("Wall (Metal)"),
        17 => Some("Floor (Wood)"),
        18 => Some("Ramp (Wood)"),
        19 => Some("Battle Bus"),
        20 => Some("Chest"),
        21 => Some("Backpack (Small)"),
        22 => Some("Backpack (Medium)"),
        23 => Some("Backpack (Large)"),
        _ => None,
    }
}

/// Approximate triangle count of gallery model `index`, as listed in the catalogue.
pub open spec fn model_tri_count_spec(index: usize) -> Option<usize> {
    match index {
        0 => Some(312usize),
        1 => Some(96usize),
        2 => Some(144usize),
        3 => Some(72usize),
        4 => Some(108usize),
        5 => Some(192usize),
        6 => Some(84usize),
        7 => Some(288usize),
        8 => Some(288usize),
        9 => Some(288usize),
        10 => Some(288usize),
        11 => Some(432usize),
        12 => Some(576usize),
        13 => Some(96usize),
        14 => Some(384usize),
        15 => Some(384usize),
        16 => Some(384usize),
        17 => Some(192usize),
        18 => Some(480usize),
        19 => Some(864usize),
        20 => Some(108usize),
        21 => Some(96usize),
        22 => Some(144usize),
        23 => Some(192usize),
        _ => None,
    }
}

/// Approximate triangle count of gallery model `index`.
pub fn model_tri_count(index: usize) -> (r: Option<usize>)
    ensures
        r == model_tri_count_spec(index),
{
    match index {
        0 => Some(312),
        1 => Some(96),
        2 => Some(144),
        3 => Some(72),
        4 => Some(108),
        5 => Some(192),
        6 => Some(84),
        7 => Some(288),
        8 => Some(288),
        9 => Some(288),
        10 => Some(288),
        11 => Some(432),
        12 => Some(576),
        13 => Some(96),
        14 => Some(384),
        15 => Some(384),
        16 => Some(384),
        17 => Some(192),
        18 => Some(480),
        19 => Some(864),
        20 => Some(108),
        21 => Some(96),
        22 => Some(144),
        23 => Some(192),
        _ => None,
    }
}

/// Catalogue size (width, height, depth in voxels) of gallery model `index`.
pub open spec fn model_size_spec(index: usize) -> Option<(usize, usize, usize)> {
    match index {
        0 => Some((8usize, 24usize, 4usize)),
        1 => Some((16usize, 4usize, 3usize)),
        2 => Some((20usize, 5usize, 3usize)),
        3 => Some((8usize, 6usize, 2usize)),
        4 => Some((14usize, 5usize, 3usize)),
        5 => Some((24usize, 5usize, 3usize)),
        6 => Some((12usize, 16usize, 3usize)),
        7 => Some((24usize, 8usize, 16usize)),
        8 => Some((24usize, 8usize, 16usize)),
        9 => Some((24usize, 8usize, 16usize)),
        10 => Some((24usize, 8usize, 16usize)),
        11 => Some((10usize, 20usize, 10usize)),
        12 => Some((12usize, 16usize, 12usize)),
        13 => Some((6usize, 4usize, 5usize)),
        14 => Some((16usize, 16usize, 2usize)),
        15 => Some((16usize, 16usize, 2usize)),
        16 => Some((16usize, 16usize, 2usize)),
        17 => Some((16usize, 2usize, 16usize)),
        18 => Some((16usize, 16usize, 16usize)),
        19 => Some((20usize, 16usize, 32usize)),
        20 => Some((6usize, 5usize, 4usize)),
        21 => Some((4usize, 5usize, 2usize)),
        22 => Some((5usize, 7usize, 3usize)),
        23 => Some((6usize, 8usize, 4usize)),
        _ => None,
    }
}

/// Catalogue size of gallery model `index`.
pub fn model_size(index: usize) -> (r: Option<(usize, usize, usize)>)
    ensures
        r == model_size_spec(index),
{
    match index {
        0 => Some((8, 24, 4)),
        1 => Some((16, 4, 3)),
        2 => Some((20, 5, 3)),
        3 => Some((8, 6, 2)),
        4 => Some((14, 5, 3)),
        5 => Some((24, 5, 3)),
        6 => Some((12, 16, 3)),
        7 => Some((24, 8, 16)),
        8 => Some((24, 8, 16)),
        9 => Some((24, 8, 16)),
        10 => Some((24, 8, 16)),
        11 => Some((10, 20, 10)),
        12 => Some((12, 16, 12)),
        13 => Some((6, 4, 5)),
        14 => Some((16, 16, 2)),
        15 => Some((16, 16, 2)),
        16 => Some((16, 16, 2)),
        17 => Some((16, 2, 16)),
        18 => Some((16, 16, 16)),
        19 => Some((20, 16, 32)),
        20 => Some((6, 5, 4)),
        21 => Some((4, 5, 2)),
        22 => Some((5, 7, 3)),
        23 => Some((6, 8, 4)),
        _ => None,
    }
}

/// Model gallery screen: the model on show and the screen size.
pub struct TestMapScreen {
    pub current_model: usize,
    pub fb_width: usize,
    pub fb_height: usize,
}

impl TestMapScreen {
    /// The selection is a gallery model.
    pub open spec fn wf(self) -> bool {
        self.current_model < MODEL_COUNT
    }

    /// The gallery showing its first model.
    pub fn new(fb_width: usize, fb_height: usize) -> (r: Self)
        ensures
            r.wf(),
            r.current_model == 0,
            r.fb_width == fb_width,
            r.fb_height == fb_height,
    {
        TestMapScreen { current_model: 0, fb_width, fb_height }
    }

    /// Handle a menu action: left and right step through the models with
    /// wrap-around, back returns to the party lobby; anything else (zoom
    /// included, which the renderer applies) leaves the selection alone.
    pub fn update(&mut self, action: MenuAction) -> (r: Option<GameState>)
        requires
            old(self).wf(),
        ensures
            final(self).wf(),
            final(self).fb_width == old(self).fb_width,
            final(self).fb_height == old(self).fb_height,
            r == if action == MenuAction::Back { Some(GameState::PartyLobby) } else { None },
            final(self).current_model == match action {
                MenuAction::Left => wrap_prev(old(self).current_model as int, MODEL_COUNT as int),
                MenuAction::Right => wrap_next(old(self).current_model as int, MODEL_COUNT as int),
                _ => old(self).current_model as int,
            },
    {
        match action {
            MenuAction::Left => {
                if self.current_model == 0 {
                    self.current_model = MODEL_COUNT - 1;
                } else {
                    self.current_model = self.current_model - 1;
                }
                None
            },
            MenuAction::Right => {
                self.current_model = (self.current_model + 1) % MODEL_COUNT;
                None
            },
            MenuAction::Back => Some(GameState::PartyLobby),
            _ => None,
        }
    }

    /// The model on show.
    pub fn get_model_index(&self) -> (r: usize)
        ensures
            r == self.current_model,
    {
        self.current_model
    }
}

/// Zoom line: "Zoom: ", the zoom in percent, "%".
pub open spec fn zoom_text(percent: nat) -> Seq<char> {
    "Zoom: "@ + decimal(percent) + "%"@
}

/// Format the zoom line for a zoom of `percent` percent (the text has room for
/// 24 characters, so at most seventeen digits).
pub fn format_zoom_info(percent: usize) -> (r: Vec<char>)
    requires
        decimal(percent as nat).len() <= 17,
    ensures
        r@ == zoom_text(percent as nat),
{
    proof {
        reveal_strlit("Zoom: ");
        reveal_strlit("%");
        lemma_decimal_len(percent as nat);
    }
    let mut out: Vec<char> = Vec::new();
    push_text_capped(&mut out, "Zoom: ", 24);
    assert("Zoom: "@.take(6) =~= "Zoom: "@);
    write_number(&mut out, percent, 24);
    out.push('%');
    assert(out@ =~= zoom_text(percent as nat));
    out
}

/// Name shown for the model on show.
pub open spec fn shown_name(index: int) -> Seq<char> {
    if 0 <= index < MODEL_COUNT { model_name_text(index) } else { "Unknown"@ }
}

impl TestMapScreen {
    /// Rule of the gallery overlay on a screen `screen_w` pixels wide, with the
    /// zoom shown as `zoom_percent`: the dark header with the centered title,
    /// the model's name between `<` and `>`, the info panel with triangle
    /// count, size and zoom, and the centered key help.
    pub open spec fn rule(self, zoom_percent: nat, fb_width: int, fb_height: int, screen_w: int) -> spec_fn(int, int) -> Option<u32> {
        let name = shown_name(self.current_model as int);
        let tri = match model_tri_count_spec(self.current_model) { Some(t) => t, None => 0usize };
        let size = match model_size_spec(self.current_model) { Some(z) => z, None => (0usize, 0usize, 0usize) };
        let py = fb_height - 120;
        overlay(overlay(overlay(overlay(overlay(overlay(overlay(overlay(overlay(
            solid_rect(0, 0, fb_width, 80, 0x00101020),
            text_rule(centered_x(screen_w, text_width(12, 3)), 20, "MODEL VIEWER"@, colors::TITLE, 3)),
            text_rule(50, 50, seq!['<'], colors::FN_YELLOW, 2)),
            text_rule(centered_x(screen_w, text_width(name.len() as int, 2)), 50, name, colors::WHITE, 2)),
            text_rule(fb_width - 70, 50, seq!['>'], colors::FN_YELLOW, 2)),
            bordered_box(20, py, fb_width - 40, 100, 2, colors::PANEL_BG, colors::PANEL_BORDER)),
            text_rule(40, py + 15, model_info_text("Triangles: "@, tri as nat), colors::WHITE, 2)),
            text_rule(40, py + 45, size_text(size.0 as nat, size.1 as nat, size.2 as nat), colors::WHITE, 2)),
            text_rule(40, py + 75, zoom_text(zoom_percent), colors::SUBTITLE, 2)),
            text_rule(centered_x(screen_w, text_width(49, 1)), fb_height - 30,
                "[LEFT/RIGHT] Navigate  [UP/DOWN] Zoom  [ESC] Back"@, colors::SUBTITLE, 1))
    }

    /// Draw the gallery overlay; the renderer's zoom is shown as `zoom_percent`.
    pub fn draw(&self, fb: &mut Framebuffer, zoom_percent: usize, fb_width: usize, fb_height: usize)
        requires
            old(fb).wf(),
            70 <= fb_width <= usize::MAX / 2,
            120 <= fb_height <= usize::MAX / 2,
            decimal(zoom_percent as nat).len() <= 17,
        ensures
            final(fb).wf(),
            repainted(*old(fb), *final(fb), self.rule(zoom_percent as nat, fb_width as int, fb_height as int, old(fb).width as int)),
    {
        let ghost f0 = *fb;
        let ghost screen_w = f0.width as int;
        proof {
            lemma_width_bound(f0);
            reveal_strlit("MODEL VIEWER");
            reveal_strlit("<");
            reveal_strlit(">");
            reveal_strlit("Unknown");
            reveal_strlit("[LEFT/RIGHT] Navigate  [UP/DOWN] Zoom  [ESC] Back");
            assert("<"@ =~= seq!['<']);
            assert(">"@ =~= seq!['>']);
        }
        fill_rect_raw(fb, 0, 0, fb_width, 80, 0x00101020);
        let ghost f1 = *fb;
        let ghost r1 = solid_rect(0, 0, fb_width as int, 80, 0x00101020);
        let title = chars_of("MODEL VIEWER");
        draw_chars_centered(fb, 20, &title, colors::TITLE, 3);
        let ghost f2 = *fb;
        let ghost r2 = text_rule(centered_x(screen_w, text_width(12, 3)), 20, "MODEL VIEWER"@, colors::TITLE, 3);
        proof { lemma_repainted_compose(f0, f1, f2, r1, r2); }
        assert(text_width(1, 2) == 18);
        draw_string(fb, 50, 50, "<", colors::FN_YELLOW, 2);
        let ghost f3 = *fb;
        let ghost r3 = text_rule(50, 50, seq!['<'], colors::FN_YELLOW, 2);
        proof { lemma_repainted_compose(f0, f2, f3, overlay(r1, r2), r3); }
        let name_str = match model_name(self.current_model) { Some(n) => n, None => "Unknown" };
        let name = chars_of(name_str);
        assert(name@ == shown_name(self.current_model as int));
        proof {
            reveal_strlit("Player"); reveal_strlit("Shotgun"); reveal_strlit("Assault Rifle"); reveal_strlit("Pistol");
            reveal_strlit("SMG"); reveal_strlit("Sniper Rifle"); reveal_strlit("Pickaxe"); reveal_strlit("Glider (Red)");
            reveal_strlit("Glider (Blue)"); reveal_strlit("Glider (Green)"); reveal_strlit("Glider (Orange)");
            reveal_strlit("Pine Tree"); reveal_strlit("Oak Tree"); reveal_strlit("Rock"); reveal_strlit("Wall (Wood)");
            reveal_strlit("Wall (Brick)"); reveal_strlit("Wall (Metal)"); reveal_strlit("Floor (Wood)");
            reveal_strlit("Ramp (Wood)"); reveal_strlit("Battle Bus"); reveal_strlit("Chest");
            reveal_strlit("Backpack (Small)"); reveal_strlit("Backpack (Medium)"); reveal_strlit("Backpack (Large)");
            assert(name@.len() <= 17);
            lemma_text_width_mono(name@.len() as int, 17, 2);
        }
        draw_chars_centered(fb, 50, &name, colors::WHITE, 2);
        let ghost f4 = *fb;
        let ghost r4 = text_rule(centered_x(screen_w, text_width(name@.len() as int, 2)), 50, name@, colors::WHITE, 2);
        proof { lemma_repainted_compose(f0, f3, f4, overlay(overlay(r1, r2), r3), r4); }
        draw_string(fb, fb_width - 70, 50, ">", colors::FN_YELLOW, 2);
        let ghost f5 = *fb;
        let ghost r5 = text_rule(fb_width - 70, 50, seq!['>'], colors::FN_YELLOW, 2);
        let ghost a = overlay(overlay(overlay(overlay(r1, r2), r3), r4), r5);
        proof { lemma_repainted_compose(f0, f4, f5, overlay(overlay(overlay(r1, r2), r3), r4), r5); }
        let panel_y = fb_height - 120;
        draw_panel_raw(fb, 20, panel_y, fb_width - 40, 100, colors::PANEL_BG);
        let ghost f6 = *fb;
        let ghost r6 = bordered_box(20, panel_y as int, fb_width - 40, 100, 2, colors::PANEL_BG, colors::PANEL_BORDER);
        proof { lemma_repainted_compose(f0, f5, f6, a, r6); }
        self.draw_info(fb, zoom_percent, panel_y);
        let ghost f7 = *fb;
        let ghost r7 = self.info_rule(zoom_percent as nat, panel_y as int);
        proof { lemma_repainted_compose(f0, f6, f7, overlay(a, r6), r7); }
        let controls = chars_of("[LEFT/RIGHT] Navigate  [UP/DOWN] Zoom  [ESC] Back");
        draw_chars_centered(fb, fb_height - 30, &controls, colors::SUBTITLE, 1);
        proof {
            lemma_repainted_compose(f0, f7, *fb, overlay(overlay(a, r6), r7),
                text_rule(centered_x(screen_w, text_width(49, 1)), fb_height - 30,
                    "[LEFT/RIGHT] Navigate  [UP/DOWN] Zoom  [ESC] Back"@, colors::SUBTITLE, 1));
        }
    }

    /// Rule of the three info lines of the panel whose top is `py`.
    pub open spec fn info_rule(self, zoom_percent: nat, py: int) -> spec_fn(int, int) -> Option<u32> {
        let tri = match model_tri_count_spec(self.current_model) { Some(t) => t, None => 0usize };
        let size = match model_size_spec(self.current_model) { Some(z) => z, None => (0usize, 0usize, 0usize) };
        overlay(overlay(
            text_rule(40, py + 15, model_info_text("Triangles: "@, tri as nat), colors::WHITE, 2),
            text_rule(40, py + 45, size_text(size.0 as nat, size.1 as nat, size.2 as nat), colors::WHITE, 2)),
            text_rule(40, py + 75, zoom_text(zoom_percent), colors::SUBTITLE, 2))
    }

    /// Draw the triangle count, size and zoom lines of the info panel.
    fn draw_info(&self, fb: &mut Framebuffer, zoom_percent: usize, panel_y: usize)
        requires
            old(fb).wf(),
            panel_y <= usize::MAX / 2,
            decimal(zoom_percent as nat).len() <= 17,
        ensures
            final(fb).wf(),
            repainted(*old(fb), *final(fb), self.info_rule(zoom_percent as nat, panel_y as int)),
    {
        let tri = match model_tri_count(self.current_model) { Some(t) => t, None => 0 };
        let size = match model_size(self.current_model) { Some(z) => z, None => (0, 0, 0) };
        proof {
            reveal_strlit("Triangles: ");
            assert(vstd::string::is_ascii("Triangles: "));
        }
        let tri_line = format_model_info("Triangles: ", tri);
        proof {
            lemma_text_width_mono(tri_line@.len() as int, 32, 2);
        }
        let ghost f0 = *fb;
        draw_chars(fb, 40, panel_y + 15, &tri_line, colors::WHITE, 2);
        let ghost f1 = *fb;
        let ghost r1 = text_rule(40, panel_y + 15, tri_line@, colors::WHITE, 2);
        proof {
            lemma_decimal_len(size.0 as nat);
            lemma_decimal_len(size.1 as nat);
            lemma_decimal_len(size.2 as nat);
        }
        let size_line = format_size_info(size.0, size.1, size.2);
        proof {
            reveal_strlit("Size: ");
            reveal_strlit("x");
            reveal_strlit(" voxels");
            assert(size_line@.len() <= 48);
            lemma_text_width_mono(size_line@.len() as int, 48, 2);
        }
        draw_chars(fb, 40, panel_y + 45, &size_line, colors::WHITE, 2);
        let ghost f2 = *fb;
        let ghost r2 = text_rule(40, panel_y + 45, size_line@, colors::WHITE, 2);
        proof { lemma_repainted_compose(f0, f1, f2, r1, r2); }
        let zoom_line = format_zoom_info(zoom_percent);
        proof {
            reveal_strlit("Zoom: ");
            reveal_strlit("%");
            lemma_text_width_mono(zoom_line@.len() as int, 24, 2);
        }
        draw_chars(fb, 40, panel_y + 75, &zoom_line, colors::SUBTITLE, 2);
        proof {
            lemma_repainted_compose(f0, f2, *fb, overlay(r1, r2), text_rule(40, panel_y + 75, zoom_line@, colors::SUBTITLE, 2));
        }
    }
}

} // verus!
