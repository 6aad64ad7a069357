//! Server selection screen: host, join (with IP entry) or play offline.

use vstd::prelude::*;
use crate::game_types::state::{GameState, MenuAction, NetworkMode};
use crate::graphics::font::{
    decimal, digits_within, write_number, push_text_capped, lemma_decimal_len, text_rule, text_width, centered_x,
    draw_chars, draw_chars_centered, draw_string, format_number, chars_of, string_width, lemma_text_width_mono,
};
use crate::graphics::framebuffer::{
    Framebuffer, repainted, overlay, no_paint, recolored, paint_step, then_step, dim_step, lemma_repainted_compose,
    lemma_repainted_nothing, lemma_repainted_recolored, lemma_recolored_compose, lemma_repainted_same_rule,
    lemma_width_bound, solid_rect, fill_span_rect,
};
use crate::graphics::ui::colors;
use crate::graphics::ui::panel::{bordered_box, rows_rule, draw_gradient_background_raw, draw_panel_raw, fill_rect_raw};

verus! {

/// Server mode options.
#[derive(Debug, Clone, Copy, PartialEq, Eq, Structural)]
pub enum ServerMode {
    /// Host a game server.
    Host,
    /// Join an existing server.
    Join,
    /// Play offline (single player).
    Offline,
}

/// Number of server modes.
pub const SERVER_MODE_COUNT: usize = 3;

/// The mode at position `i` (0 to 2).
pub open spec fn server_mode_at(i: int) -> ServerMode {
    if i == 0 {
        ServerMode::Host
    } else if i == 1 {
        ServerMode::Join
    } else {
        ServerMode::Offline
    }
}

/// Menu label of a mode.
pub open spec fn mode_label(m: ServerMode) -> Seq<char> {
    match m {
        ServerMode::Host => "HOST GAME"@,
        ServerMode::Join => "JOIN GAME"@,
        ServerMode::Offline => "OFFLINE"@,
    }
}

/// One-line description of a mode.
pub open spec fn mode_description(m: ServerMode) -> Seq<char> {
    match m {
        ServerMode::Host => "Start a server and wait for players"@,
        ServerMode::Join => "Connect to an existing server"@,
        ServerMode::Offline => "Play single player with bots"@,
    }
}

impl ServerMode {
    /// The mode at `index`, wrapping around.
    pub fn from_index(index: usize) -> (r: Self)
        ensures
            r == server_mode_at(index as int % 3),
    {
        match index % SERVER_MODE_COUNT {
            0 => ServerMode::Host,
            1 => ServerMode::Join,
            _ => ServerMode::Offline,
        }
    }

    /// Menu label.
    pub fn label(self) -> (r: &'static str)
        ensures
            r@ == mode_label(self),
    {
        match self {
            ServerMode::Host => "HOST GAME",
            ServerMode::Join => "JOIN GAME",
            ServerMode::Offline => "OFFLINE",
        }
    }

    /// One-line description.
    pub fn description(self) -> (r: &'static str)
        ensures
            r@ == mode_description(self),
    {
        match self {
            ServerMode::Host => "Start a server and wait for players",
            ServerMode::Join => "Connect to an existing server",
            ServerMode::Offline => "Play single player with bots",
        }
    }
}

/// What the keys edit.
#[derive(Debug, Clone, Copy, PartialEq, Eq, Structural)]
pub enum InputMode {
    /// Choosing Host, Join or Offline.
    ModeSelect,
    /// Typing the server's IP address.
    IpEntry,
}

/// Server selection screen state.
pub struct ServerSelectScreen {
    pub selected_mode: usize,
    pub ip_octets: [u8; 4],
    pub ip_cursor: usize,
    pub port: u16,
    pub input_mode: InputMode,
    pub local_ip: [u8; 4],
    pub fb_width: usize,
    pub fb_height: usize,
}

impl ServerSelectScreen {
    /// The selection and the IP cursor are in range.
    pub open spec fn wf(self) -> bool {
        self.selected_mode < SERVER_MODE_COUNT && self.ip_cursor < 4
    }

    /// Offline preselected, IP 192.168.1.1, port 5000, local address 10.0.2.15.
    pub fn new(fb_width: usize, fb_height: usize) -> (r: Self)
        ensures
            r.wf(),
            r.selected_mode == 2,
            r.ip_octets@ == seq![192u8, 168, 1, 1],
            r.ip_cursor == 0,
            r.port == 5000,
            r.input_mode == InputMode::ModeSelect,
            r.local_ip@ == seq![10u8, 0, 2, 15],
            r.fb_width == fb_width,
            r.fb_height == fb_height,
    {
        let r = ServerSelectScreen {
            selected_mode: 2,
            ip_octets: [192, 168, 1, 1],
            ip_cursor: 0,
            port: 5000,
            input_mode: InputMode::ModeSelect,
            local_ip: [10, 0, 2, 15],
            fb_width,
            fb_height,
        };
        assert(r.ip_octets@ =~= seq![192u8, 168, 1, 1]);
        assert(r.local_ip@ =~= seq![10u8, 0, 2, 15]);
        r
    }

    /// Handle one menu action. Choosing a mode: Up/Down move (wrapping); Enter
    /// on Host sets server mode on the configured port, on Offline sets offline
    /// mode (both go to the party lobby), on Join starts IP entry at the first
    /// octet; Escape goes back to the party lobby. Entering the IP: Left/Right
    /// move between octets, Up/Down change the octet (wrapping), Enter connects
    /// as a client, Escape returns to choosing a mode.
    pub fn update(&mut self, action: MenuAction, network: &mut NetworkMode) -> (r: Option<GameState>)
        requires
            old(self).wf(),
        ensures
            final(self).wf(),
            final(self).port == old(self).port,
            final(self).local_ip == old(self).local_ip,
            final(self).fb_width == old(self).fb_width,
            final(self).fb_height == old(self).fb_height,
            old(self).input_mode == InputMode::ModeSelect ==> {
                let mode = server_mode_at(old(self).selected_mode as int);
                &&& final(self).ip_octets == old(self).ip_octets
                &&& match action {
                    MenuAction::Up => r is None && *final(network) == *old(network)
                        && final(self).input_mode == InputMode::ModeSelect
                        && final(self).selected_mode == (if old(self).selected_mode == 0 { 2 } else { old(self).selected_mode - 1 })
                        && final(self).ip_cursor == old(self).ip_cursor,
                    MenuAction::Down => r is None && *final(network) == *old(network)
                        && final(self).input_mode == InputMode::ModeSelect
                        && final(self).selected_mode == (old(self).selected_mode + 1) % 3
                        && final(self).ip_cursor == old(self).ip_cursor,
                    MenuAction::Select => final(self).selected_mode == old(self).selected_mode && match mode {
                        ServerMode::Host => r == Some(GameState::PartyLobby)
                            && *final(network) == (NetworkMode::Server { port: old(self).port })
                            && final(self).input_mode == InputMode::ModeSelect
                            && final(self).ip_cursor == old(self).ip_cursor,
                        ServerMode::Join => r is None && *final(network) == *old(network)
                            && final(self).input_mode == InputMode::IpEntry && final(self).ip_cursor == 0,
                        ServerMode::Offline => r == Some(GameState::PartyLobby) && *final(network) == NetworkMode::Offline
                            && final(self).input_mode == InputMode::ModeSelect
                            && final(self).ip_cursor == old(self).ip_cursor,
                    },
                    MenuAction::Back => r == Some(GameState::PartyLobby) && *final(network) == *old(network)
                        && final(self).input_mode == InputMode::ModeSelect
                        && final(self).selected_mode == old(self).selected_mode
                        && final(self).ip_cursor == old(self).ip_cursor,
                    _ => r is None && *final(network) == *old(network)
                        && final(self).input_mode == InputMode::ModeSelect
                        && final(self).selected_mode == old(self).selected_mode
                        && final(self).ip_cursor == old(self).ip_cursor,
                }
            },
            old(self).input_mode == InputMode::IpEntry ==> {
                let c = old(self).ip_cursor;
                let o = old(self).ip_octets@;
                &&& final(self).selected_mode == old(self).selected_mode
                &&& match action {
                    MenuAction::Left => r is None && *final(network) == *old(network)
                        && final(self).ip_cursor == (if c > 0 { c - 1 } else { 0int })
                        && final(self).ip_octets == old(self).ip_octets
                        && final(self).input_mode == InputMode::IpEntry,
                    MenuAction::Right => r is None && *final(network) == *old(network)
                        && final(self).ip_cursor == (if c < 3 { c + 1 } else { c as int })
                        && final(self).ip_octets == old(self).ip_octets
                        && final(self).input_mode == InputMode::IpEntry,
                    MenuAction::Up => r is None && *final(network) == *old(network)
                        && final(self).ip_cursor == c
                        && final(self).ip_octets@ == o.update(c as int, o[c as int].wrapping_add(1))
                        && final(self).input_mode == InputMode::IpEntry,
                    MenuAction::Down => r is None && *final(network) == *old(network)
                        && final(self).ip_cursor == c
                        && final(self).ip_octets@ == o.update(c as int, o[c as int].wrapping_sub(1))
                        && final(self).input_mode == InputMode::IpEntry,
                    MenuAction::Select => r == Some(GameState::PartyLobby)
                        && *final(network) == (NetworkMode::Client { server_ip: old(self).ip_octets, port: old(self).port })
                        && final(self).ip_cursor == c
                        && final(self).ip_octets == old(self).ip_octets
                        && final(self).input_mode == InputMode::IpEntry,
                    MenuAction::Back => r is None && *final(network) == *old(network)
                        && final(self).ip_cursor == c
                        && final(self).ip_octets == old(self).ip_octets
                        && final(self).input_mode == InputMode::ModeSelect,
                    MenuAction::NoAction => r is None && *final(network) == *old(network)
                        && final(self).ip_cursor == c
                        && final(self).ip_octets == old(self).ip_octets
                        && final(self).input_mode == InputMode::IpEntry,
                }
            },
    {
        match self.input_mode {
            InputMode::ModeSelect => self.handle_mode_select(action, network),
            InputMode::IpEntry => self.handle_ip_entry(action, network),
        }
    }

    fn handle_mode_select(&mut self, action: MenuAction, network: &mut NetworkMode) -> (r: Option<GameState>)
        requires
            old(self).wf(),
            old(self).input_mode == InputMode::ModeSelect,
        ensures
            final(self).wf(),
            final(self).port == old(self).port,
            final(self).local_ip == old(self).local_ip,
            final(self).fb_width == old(self).fb_width,
            final(self).fb_height == old(self).fb_height,
            final(self).ip_octets == old(self).ip_octets,
            ({
                let mode = server_mode_at(old(self).selected_mode as int);
                match action {
                    MenuAction::Up => r is None && *final(network) == *old(network)
                        && final(self).input_mode == InputMode::ModeSelect
                        && final(self).selected_mode == (if old(self).selected_mode == 0 { 2 } else { old(self).selected_mode - 1 })
                        && final(self).ip_cursor == old(self).ip_cursor,
                    MenuAction::Down => r is None && *final(network) == *old(network)
                        && final(self).input_mode == InputMode::ModeSelect
                        && final(self).selected_mode == (old(self).selected_mode + 1) % 3
                        && final(self).ip_cursor == old(self).ip_cursor,
                    MenuAction::Select => final(self).selected_mode == old(self).selected_mode && match mode {
                        ServerMode::Host => r == Some(GameState::PartyLobby)
                            && *final(network) == (NetworkMode::Server { port: old(self).port })
                            && final(self).input_mode == InputMode::ModeSelect
                            && final(self).ip_cursor == old(self).ip_cursor,
                        ServerMode::Join => r is None && *final(network) == *old(network)
                            && final(self).input_mode == InputMode::IpEntry && final(self).ip_cursor == 0,
                        ServerMode::Offline => r == Some(GameState::PartyLobby) && *final(network) == NetworkMode::Offline
                            && final(self).input_mode == InputMode::ModeSelect
                            && final(self).ip_cursor == old(self).ip_cursor,
                    },
                    MenuAction::Back => r == Some(GameState::PartyLobby) && *final(network) == *old(network)
                        && final(self).input_mode == InputMode::ModeSelect
                        && final(self).selected_mode == old(self).selected_mode
                        && final(self).ip_cursor == old(self).ip_cursor,
                    _ => r is None && *final(network) == *old(network)
                        && final(self).input_mode == InputMode::ModeSelect
                        && final(self).selected_mode == old(self).selected_mode
                        && final(self).ip_cursor == old(self).ip_cursor,
                }
            }),
    {
        match action {
            MenuAction::Up => {
                if self.selected_mode == 0 {
                    self.selected_mode = SERVER_MODE_COUNT - 1;
                } else {
                    self.selected_mode = self.selected_mode - 1;
                }
            },
            MenuAction::Down => {
                self.selected_mode = (self.selected_mode + 1) % SERVER_MODE_COUNT;
            },
            MenuAction::Select => {
                let mode = ServerMode::from_index(self.selected_mode);
                match mode {
                    ServerMode::Host => {
                        *network = NetworkMode::Server { port: self.port };
                        return Some(GameState::PartyLobby);
                    },
                    ServerMode::Join => {
                        self.input_mode = InputMode::IpEntry;
                        self.ip_cursor = 0;
                    },
                    ServerMode::Offline => {
                        *network = NetworkMode::Offline;
                        return Some(GameState::PartyLobby);
                    },
                }
            },
            MenuAction::Back => {
                return Some(GameState::PartyLobby);
            },
            _ => {},
        }
        None
    }

    fn handle_ip_entry(&mut self, action: MenuAction, network: &mut NetworkMode) -> (r: Option<GameState>)
        requires
            old(self).wf(),
            old(self).input_mode == InputMode::IpEntry,
        ensures
            final(self).wf(),
            final(self).port == old(self).port,
            final(self).local_ip == old(self).local_ip,
            final(self).fb_width == old(self).fb_width,
            final(self).fb_height == old(self).fb_height,
            final(self).selected_mode == old(self).selected_mode,
            ({
                let c = old(self).ip_cursor;
                let o = old(self).ip_octets@;
                match action {
                    MenuAction::Left => r is None && *final(network) == *old(network)
                        && final(self).ip_cursor == (if c > 0 { c - 1 } else { 0int })
                        && final(self).ip_octets == old(self).ip_octets
                        && final(self).input_mode == InputMode::IpEntry,
                    MenuAction::Right => r is None && *final(network) == *old(network)
                        && final(self).ip_cursor == (if c < 3 { c + 1 } else { c as int })
                        && final(self).ip_octets == old(self).ip_octets
                        && final(self).input_mode == InputMode::IpEntry,
                    MenuAction::Up => r is None && *final(network) == *old(network)
                        && final(self).ip_cursor == c
                        && final(self).ip_octets@ == o.update(c as int, o[c as int].wrapping_add(1))
                        && final(self).input_mode == InputMode::IpEntry,
                    MenuAction::Down => r is None && *final(network) == *old(network)
                        && final(self).ip_cursor == c
                        && final(self).ip_octets@ == o.update(c as int, o[c as int].wrapping_sub(1))
                        && final(self).input_mode == InputMode::IpEntry,
                    MenuAction::Select => r == Some(GameState::PartyLobby)
                        && *final(network) == (NetworkMode::Client { server_ip: old(self).ip_octets, port: old(self).port })
                        && final(self).ip_cursor == c
                        && final(self).ip_octets == old(self).ip_octets
                        && final(self).input_mode == InputMode::IpEntry,
                    MenuAction::Back => r is None && *final(network) == *old(network)
                        && final(self).ip_cursor == c
                        && final(self).ip_octets == old(self).ip_octets
                        && final(self).input_mode == InputMode::ModeSelect,
                    MenuAction::NoAction => r is None && *final(network) == *old(network)
                        && final(self).ip_cursor == c
                        && final(self).ip_octets == old(self).ip_octets
                        && final(self).input_mode == InputMode::IpEntry,
                }
            }),
    {
        match action {
            MenuAction::Left => {
                if self.ip_cursor > 0 {
                    self.ip_cursor = self.ip_cursor - 1;
                }
            },
            MenuAction::Right => {
                if self.ip_cursor < 3 {
                    self.ip_cursor = self.ip_cursor + 1;
                }
            },
            MenuAction::Up => {
                let c = self.ip_cursor;
                self.ip_octets[c] = self.ip_octets[c].wrapping_add(1);
            },
            MenuAction::Down => {
                let c = self.ip_cursor;
                self.ip_octets[c] = self.ip_octets[c].wrapping_sub(1);
            },
            MenuAction::Select => {
                *network = NetworkMode::Client { server_ip: self.ip_octets, port: self.port };
                return Some(GameState::PartyLobby);
            },
            MenuAction::Back => {
                self.input_mode = InputMode::ModeSelect;
            },
            MenuAction::NoAction => {},
        }
        None
    }

    /// Type a digit into the current octet while entering the IP: the octet
    /// becomes `octet * 10 + digit`, capped at 255.
    pub fn handle_number_key(&mut self, digit: u8)
        requires
            old(self).wf(),
        ensures
            final(self).wf(),
            old(self).input_mode != InputMode::IpEntry ==> final(self).ip_octets == old(self).ip_octets,
            old(self).input_mode == InputMode::IpEntry ==> final(self).ip_octets@ == old(self).ip_octets@.update(
                old(self).ip_cursor as int,
                typed_octet(old(self).ip_octets@[old(self).ip_cursor as int], digit),
            ),
            final(self).ip_cursor == old(self).ip_cursor,
            final(self).input_mode == old(self).input_mode,
            final(self).selected_mode == old(self).selected_mode,
            final(self).port == old(self).port,
    {
        if self.input_mode != InputMode::IpEntry {
            return;
        }
        let c = self.ip_cursor;
        let v: u16 = self.ip_octets[c] as u16 * 10 + digit as u16;
        let capped: u16 = if v < 255 { v } else { 255 };
        self.ip_octets[c] = capped as u8;
    }

    /// Clear the current octet while entering the IP.
    pub fn clear_octet(&mut self)
        requires
            old(self).wf(),
        ensures
            final(self).wf(),
            old(self).input_mode != InputMode::IpEntry ==> final(self).ip_octets == old(self).ip_octets,
            old(self).input_mode == InputMode::IpEntry ==> final(self).ip_octets@
                == old(self).ip_octets@.update(old(self).ip_cursor as int, 0),
            final(self).ip_cursor == old(self).ip_cursor,
            final(self).input_mode == old(self).input_mode,
            final(self).selected_mode == old(self).selected_mode,
            final(self).port == old(self).port,
    {
        if self.input_mode == InputMode::IpEntry {
            let c = self.ip_cursor;
            self.ip_octets[c] = 0;
        }
    }
}

/// Address line shown below the modes while Host is chosen.
pub open spec fn ip_line(ip: Seq<u8>) -> Seq<char> {
    "Your IP: "@ + decimal(ip[0] as nat) + "."@ + decimal(ip[1] as nat) + "."@ + decimal(ip[2] as nat) + "."@
        + decimal(ip[3] as nat)
}

impl ServerSelectScreen {
    /// Whether mode panel `i` is highlighted.
    pub open spec fn mode_selected(self, i: int) -> bool {
        i == self.selected_mode && self.input_mode == InputMode::ModeSelect
    }

    /// Rule of mode panel `i` with panels starting at column `px`: the panel,
    /// the mode's label and description, and a `>` left of a highlighted panel.
    pub open spec fn mode_rule(self, i: int, px: int) -> spec_fn(int, int) -> Option<u32> {
        let sel = self.mode_selected(i);
        let m = server_mode_at(i);
        let base = overlay(
            overlay(
                bordered_box(px, 160 + 120 * i, 400, 100, 2,
                    if sel { colors::BUTTON_SELECTED } else { colors::PANEL_BG }, colors::PANEL_BORDER),
                text_rule(px + 20, 180 + 120 * i, mode_label(m), if sel { colors::FN_YELLOW } else { colors::WHITE }, 3)),
            text_rule(px + 20, 220 + 120 * i, mode_description(m), colors::SUBTITLE, 1));
        if sel {
            overlay(base, text_rule(px - 30, 180 + 120 * i, seq!['>'], colors::FN_YELLOW, 3))
        } else {
            base
        }
    }

    /// Rule of the first `n` mode panels.
    pub open spec fn modes_rule(self, px: int, n: int) -> spec_fn(int, int) -> Option<u32>
        decreases n,
    {
        if n <= 0 { no_paint() } else { overlay(self.modes_rule(px, n - 1), self.mode_rule(n - 1, px)) }
    }

    /// Footer with the keys of the current input mode.
    pub open spec fn footer(self) -> Seq<char> {
        if self.input_mode == InputMode::IpEntry {
            "[UP/DOWN] Adjust  [LEFT/RIGHT] Move  [ENTER] Connect  [ESC] Back"@
        } else {
            "[UP/DOWN] Select  [ENTER] Confirm  [ESC] Back"@
        }
    }

    /// Rule of the background, the centered title and subtitle, and the mode panels.
    pub open spec fn head_rule(self, bg: Seq<u32>, fb_width: int, fb_height: int, screen_w: int) -> spec_fn(int, int) -> Option<u32> {
        overlay(
            overlay(
                overlay(
                    rows_rule(bg, fb_width, fb_height),
                    text_rule(centered_x(screen_w, text_width(12, 4)), 40, "NETWORK MODE"@, colors::TITLE, 4)),
                text_rule(centered_x(screen_w, text_width(18, 2)), 100, "Choose how to play"@, colors::SUBTITLE, 2)),
            self.modes_rule((fb_width - 400) / 2, 3))
    }

    /// Rule of octet box `i` of the IP entry panel at column `px`: the box
    /// (yellow at the cursor), the octet's digits centered on it when they fit
    /// its 60 pixels, and a dot after the first three.
    pub open spec fn octet_rule(self, i: int, px: int) -> spec_fn(int, int) -> Option<u32> {
        let sel = i == self.ip_cursor;
        let ox = px + 100 + 80 * i;
        let digits = decimal(self.ip_octets@[i] as nat);
        let w = text_width(digits.len() as int, 3);
        let boxed = overlay(
            solid_rect(ox, 330, ox + 60, 370, if sel { colors::FN_YELLOW } else { colors::BUTTON_NORMAL }),
            if w <= 60 {
                text_rule(ox + (60 - w) / 2, 338, digits, if sel { colors::BLACK } else { colors::WHITE }, 3)
            } else {
                no_paint()
            });
        if i < 3 { overlay(boxed, text_rule(ox + 65, 338, seq!['.'], colors::WHITE, 3)) } else { boxed }
    }

    /// Rule of the first `n` octet boxes.
    pub open spec fn octets_rule(self, px: int, n: int) -> spec_fn(int, int) -> Option<u32>
        decreases n,
    {
        if n <= 0 { no_paint() } else { overlay(self.octets_rule(px, n - 1), self.octet_rule(n - 1, px)) }
    }

    /// Rule of the IP entry panel centered on a screen `fb_width` wide.
    pub open spec fn ip_rule(self, fb_width: int) -> spec_fn(int, int) -> Option<u32> {
        let px = (fb_width - 500) / 2;
        overlay(
            overlay(
                overlay(
                    bordered_box(px, 250, 500, 200, 2, colors::PANEL_BG, colors::PANEL_BORDER),
                    text_rule(px + 20, 270, "ENTER SERVER IP"@, colors::TITLE, 3)),
                self.octets_rule(px, 4)),
            text_rule(px + 20, 390, "Port: "@ + decimal(self.port as nat), colors::SUBTITLE, 2))
    }

    /// What drawing the screen does to each pixel: the background, title and
    /// modes; while an IP is typed, the screen darkened to half and the IP
    /// panel; while Host is chosen, this machine's address; then the footer.
    pub open spec fn draw_steps(self, bg: Seq<u32>, fb_width: int, fb_height: int, screen_w: int) -> spec_fn(int, int, u32) -> u32 {
        let head = self.head_rule(bg, fb_width, fb_height, screen_w);
        let foot = text_rule(centered_x(screen_w, text_width(self.footer().len() as int, 2)), fb_height - 40,
            self.footer(), colors::SUBTITLE, 2);
        if self.input_mode == InputMode::IpEntry {
            then_step(then_step(then_step(paint_step(head), dim_step()), paint_step(self.ip_rule(fb_width))), paint_step(foot))
        } else if self.selected_mode == 0 {
            let line = ip_line(self.local_ip@);
            paint_step(overlay(overlay(head,
                text_rule(centered_x(screen_w, text_width(line.len() as int, 2)), 540, line, colors::SUBTITLE, 2)), foot))
        } else {
            paint_step(overlay(head, foot))
        }
    }

    /// Draw the server selection screen over the gradient background rows `background`.
    pub fn draw(&self, fb: &mut Framebuffer, background: &Vec<u32>, fb_width: usize, fb_height: usize)
        requires
            old(fb).wf(),
            fb_height >= 40,
            fb_width >= 400,
            fb_width <= usize::MAX / 2,
            self.input_mode == InputMode::ModeSelect && self.selected_mode < 3 ==> fb_width >= 460,
            self.input_mode == InputMode::IpEntry ==> fb_width >= 500,
        ensures
            final(fb).wf(),
            recolored(*old(fb), *final(fb), self.draw_steps(background@, fb_width as int, fb_height as int, old(fb).width as int)),
    {
        let ghost f0 = *fb;
        let ghost screen_w = f0.width as int;
        proof {
            lemma_width_bound(f0);
        }
        draw_gradient_background_raw(fb, background, fb_width, fb_height);
        let ghost f1 = *fb;
        let ghost r1 = rows_rule(background@, fb_width as int, fb_height as int);
        let title = chars_of("NETWORK MODE");
        proof {
            reveal_strlit("NETWORK MODE");
            reveal_strlit("Choose how to play");
        }
        draw_chars_centered(fb, 40, &title, colors::TITLE, 4);
        let ghost f2 = *fb;
        let ghost r2 = text_rule(centered_x(screen_w, text_width(12, 4)), 40, "NETWORK MODE"@, colors::TITLE, 4);
        proof {
            lemma_repainted_compose(f0, f1, f2, r1, r2);
        }
        let subtitle = chars_of("Choose how to play");
        draw_chars_centered(fb, 100, &subtitle, colors::SUBTITLE, 2);
        let ghost f3 = *fb;
        let ghost r3 = text_rule(centered_x(screen_w, text_width(18, 2)), 100, "Choose how to play"@, colors::SUBTITLE, 2);
        proof {
            lemma_repainted_compose(f0, f2, f3, overlay(r1, r2), r3);
            lemma_repainted_nothing(f3);
        }
        let panel_x = (fb_width - 400) / 2;
        let mut i: usize = 0;
        while i < SERVER_MODE_COUNT
            invariant
                fb.wf(),
                i <= 3,
                panel_x == (fb_width - 400) / 2,
                fb_width <= usize::MAX / 2,
                self.input_mode == InputMode::ModeSelect && self.selected_mode < 3 ==> panel_x >= 30,
                repainted(f3, *fb, self.modes_rule(panel_x as int, i as int)),
            decreases 3 - i,
        {
            let ghost before = *fb;
            self.draw_mode_panel(fb, i, panel_x);
            proof {
                lemma_repainted_compose(f3, before, *fb, self.modes_rule(panel_x as int, i as int),
                    self.mode_rule(i as int, panel_x as int));
            }
            i += 1;
        }
        let ghost f4 = *fb;
        let ghost head = self.head_rule(background@, fb_width as int, fb_height as int, screen_w);
        proof {
            lemma_repainted_compose(f0, f3, f4, overlay(overlay(r1, r2), r3), self.modes_rule(panel_x as int, 3));
            reveal_strlit("[UP/DOWN] Adjust  [LEFT/RIGHT] Move  [ENTER] Connect  [ESC] Back");
            reveal_strlit("[UP/DOWN] Select  [ENTER] Confirm  [ESC] Back");
        }
        let footer = if self.input_mode == InputMode::IpEntry {
            chars_of("[UP/DOWN] Adjust  [LEFT/RIGHT] Move  [ENTER] Connect  [ESC] Back")
        } else {
            chars_of("[UP/DOWN] Select  [ENTER] Confirm  [ESC] Back")
        };
        assert(footer@ == self.footer());
        let ghost foot = text_rule(centered_x(screen_w, text_width(self.footer().len() as int, 2)), fb_height - 40,
            self.footer(), colors::SUBTITLE, 2);
        if self.input_mode == InputMode::IpEntry {
            proof {
                lemma_repainted_recolored(f0, f4, head);
            }
            fb.dim();
            let ghost f5 = *fb;
            proof {
                lemma_recolored_compose(f0, f4, f5, paint_step(head), dim_step());
            }
            self.draw_ip_entry(fb, fb_width);
            let ghost f6 = *fb;
            proof {
                lemma_repainted_recolored(f5, f6, self.ip_rule(fb_width as int));
                lemma_recolored_compose(f0, f5, f6, then_step(paint_step(head), dim_step()), paint_step(self.ip_rule(fb_width as int)));
            }
            draw_chars_centered(fb, fb_height - 40, &footer, colors::SUBTITLE, 2);
            proof {
                lemma_repainted_recolored(f6, *fb, foot);
                lemma_recolored_compose(f0, f6, *fb,
                    then_step(then_step(paint_step(head), dim_step()), paint_step(self.ip_rule(fb_width as int))),
                    paint_step(foot));
            }
        } else if self.selected_mode == 0 {
            proof {
                reveal_strlit("Your IP: ");
                assert(vstd::string::is_ascii("Your IP: "));
            }
            let line = format_ip_display("Your IP: ", &self.local_ip);
            proof {
                reveal_strlit(".");
                lemma_decimal_len(self.local_ip@[0] as nat);
                lemma_decimal_len(self.local_ip@[1] as nat);
                lemma_decimal_len(self.local_ip@[2] as nat);
                lemma_decimal_len(self.local_ip@[3] as nat);
                assert(line@ == ip_line(self.local_ip@));
                lemma_text_width_mono(line@.len() as int, 24, 2);
            }
            draw_chars_centered(fb, 540, &line, colors::SUBTITLE, 2);
            let ghost f5 = *fb;
            let ghost info = text_rule(centered_x(screen_w, text_width(line@.len() as int, 2)), 540, line@, colors::SUBTITLE, 2);
            proof {
                lemma_repainted_compose(f0, f4, f5, head, info);
            }
            draw_chars_centered(fb, fb_height - 40, &footer, colors::SUBTITLE, 2);
            proof {
                lemma_repainted_compose(f0, f5, *fb, overlay(head, info), foot);
                lemma_repainted_recolored(f0, *fb, overlay(overlay(head, info), foot));
            }
        } else {
            draw_chars_centered(fb, fb_height - 40, &footer, colors::SUBTITLE, 2);
            proof {
                lemma_repainted_compose(f0, f4, *fb, head, foot);
                lemma_repainted_recolored(f0, *fb, overlay(head, foot));
            }
        }
    }

    /// Draw mode panel `i` with panels starting at column `panel_x`.
    fn draw_mode_panel(&self, fb: &mut Framebuffer, i: usize, panel_x: usize)
        requires
            old(fb).wf(),
            i < 3,
            panel_x <= usize::MAX / 4,
            self.mode_selected(i as int) ==> panel_x >= 30,
        ensures
            final(fb).wf(),
            repainted(*old(fb), *final(fb), self.mode_rule(i as int, panel_x as int)),
    {
        let selected = i == self.selected_mode && self.input_mode == InputMode::ModeSelect;
        let mode = ServerMode::from_index(i);
        let panel_y = 160 + i * 120;
        let bg = if selected { colors::BUTTON_SELECTED } else { colors::PANEL_BG };
        let ghost f0 = *fb;
        draw_panel_raw(fb, panel_x, panel_y, 400, 100, bg);
        let ghost f1 = *fb;
        let ghost r1 = bordered_box(panel_x as int, 160 + 120 * i, 400, 100, 2, bg, colors::PANEL_BORDER);
        proof {
            reveal_strlit("HOST GAME");
            reveal_strlit("JOIN GAME");
            reveal_strlit("OFFLINE");
            reveal_strlit("Start a server and wait for players");
            reveal_strlit("Connect to an existing server");
            reveal_strlit("Play single player with bots");
        }
        let label = mode.label();
        let label_color = if selected { colors::FN_YELLOW } else { colors::WHITE };
        proof {
            lemma_text_width_mono(label@.len() as int, 9, 3);
        }
        draw_string(fb, panel_x + 20, panel_y + 20, label, label_color, 3);
        let ghost f2 = *fb;
        let ghost r2 = text_rule(panel_x + 20, 180 + 120 * i, mode_label(server_mode_at(i as int)), label_color, 3);
        proof {
            lemma_repainted_compose(f0, f1, f2, r1, r2);
        }
        let desc = mode.description();
        proof {
            lemma_text_width_mono(desc@.len() as int, 35, 1);
        }
        draw_string(fb, panel_x + 20, panel_y + 60, desc, colors::SUBTITLE, 1);
        let ghost f3 = *fb;
        let ghost r3 = text_rule(panel_x + 20, 220 + 120 * i, mode_description(server_mode_at(i as int)), colors::SUBTITLE, 1);
        proof {
            lemma_repainted_compose(f0, f2, f3, overlay(r1, r2), r3);
        }
        if selected {
            proof {
                reveal_strlit(">");
                assert(">"@ =~= seq!['>']);
            }
            assert(text_width(1, 3) == 27);
            draw_string(fb, panel_x - 30, panel_y + 20, ">", colors::FN_YELLOW, 3);
            proof {
                lemma_repainted_compose(f0, f3, *fb, overlay(overlay(r1, r2), r3),
                    text_rule(panel_x - 30, 180 + 120 * i, seq!['>'], colors::FN_YELLOW, 3));
            }
        }
    }

    /// Draw the IP entry panel centered on a screen `fb_width` wide.
    fn draw_ip_entry(&self, fb: &mut Framebuffer, fb_width: usize)
        requires
            old(fb).wf(),
            500 <= fb_width <= usize::MAX / 2,
        ensures
            final(fb).wf(),
            repainted(*old(fb), *final(fb), self.ip_rule(fb_width as int)),
    {
        let panel_x = (fb_width - 500) / 2;
        let ghost f0 = *fb;
        draw_panel_raw(fb, panel_x, 250, 500, 200, colors::PANEL_BG);
        let ghost f1 = *fb;
        let ghost r1 = bordered_box(panel_x as int, 250, 500, 200, 2, colors::PANEL_BG, colors::PANEL_BORDER);
        proof {
            reveal_strlit("ENTER SERVER IP");
        }
        assert(text_width(15, 3) == 405);
        draw_string(fb, panel_x + 20, 270, "ENTER SERVER IP", colors::TITLE, 3);
        let ghost f2 = *fb;
        let ghost r2 = text_rule(panel_x + 20, 270, "ENTER SERVER IP"@, colors::TITLE, 3);
        proof {
            lemma_repainted_compose(f0, f1, f2, r1, r2);
            lemma_repainted_nothing(f2);
        }
        let mut i: usize = 0;
        while i < 4
            invariant
                fb.wf(),
                i <= 4,
                panel_x == (fb_width - 500) / 2,
                fb_width <= usize::MAX / 2,
                repainted(f2, *fb, self.octets_rule(panel_x as int, i as int)),
            decreases 4 - i,
        {
            let ghost before = *fb;
            self.draw_octet(fb, i, panel_x);
            proof {
                lemma_repainted_compose(f2, before, *fb, self.octets_rule(panel_x as int, i as int),
                    self.octet_rule(i as int, panel_x as int));
            }
            i += 1;
        }
        let ghost f3 = *fb;
        proof {
            lemma_repainted_compose(f0, f2, f3, overlay(r1, r2), self.octets_rule(panel_x as int, 4));
        }
        let port = format_port_display(self.port);
        proof {
            reveal_strlit("Port: ");
            lemma_decimal_len(self.port as nat);
            lemma_text_width_mono(port@.len() as int, 11, 2);
        }
        draw_chars(fb, panel_x + 20, 390, &port, colors::SUBTITLE, 2);
        proof {
            lemma_repainted_compose(f0, f3, *fb, overlay(overlay(r1, r2), self.octets_rule(panel_x as int, 4)),
                text_rule(panel_x + 20, 390, "Port: "@ + decimal(self.port as nat), colors::SUBTITLE, 2));
        }
    }

    /// Draw octet box `i` of the IP entry panel at column `panel_x`.
    fn draw_octet(&self, fb: &mut Framebuffer, i: usize, panel_x: usize)
        requires
            old(fb).wf(),
            i < 4,
            panel_x <= usize::MAX / 4,
        ensures
            final(fb).wf(),
            repainted(*old(fb), *final(fb), self.octet_rule(i as int, panel_x as int)),
    {
        let selected = i == self.ip_cursor;
        let ox = panel_x + 100 + i * 80;
        let bg = if selected { colors::FN_YELLOW } else { colors::BUTTON_NORMAL };
        let ghost f0 = *fb;
        fill_rect_raw(fb, ox, 330, 60, 40, bg);
        let ghost f1 = *fb;
        let ghost r1 = solid_rect(ox as int, 330, ox + 60, 370, bg);
        let digits = format_number(self.ip_octets[i] as u32);
        proof {
            lemma_decimal_len(self.ip_octets@[i as int] as nat);
            lemma_text_width_mono(digits@.len() as int, 3, 3);
        }
        let w = string_width(&digits, 3);
        let color = if selected { colors::BLACK } else { colors::WHITE };
        let ghost r2 = if w <= 60 {
            text_rule(ox + (60 - w) / 2, 338, digits@, color, 3)
        } else {
            no_paint()
        };
        if w <= 60 {
            draw_chars(fb, ox + (60 - w) / 2, 338, &digits, color, 3);
        } else {
            proof {
                lemma_repainted_nothing(f1);
            }
        }
        let ghost f2 = *fb;
        proof {
            lemma_repainted_compose(f0, f1, f2, r1, r2);
        }
        if i < 3 {
            proof {
                reveal_strlit(".");
                assert("."@ =~= seq!['.']);
            }
            assert(text_width(1, 3) == 27);
            draw_string(fb, ox + 65, 338, ".", colors::WHITE, 3);
            proof {
                lemma_repainted_compose(f0, f2, *fb, overlay(r1, r2), text_rule(ox + 65, 338, seq!['.'], colors::WHITE, 3));
            }
        }
    }
}

/// An octet after typing `digit`: `octet * 10 + digit`, capped at 255.
pub open spec fn typed_octet(octet: u8, digit: u8) -> u8 {
    if octet * 10 + digit < 255 { (octet * 10 + digit) as u8 } else { 255 }
}

/// Typing digits can never push an octet past 255, and typing "1", "9", "2"
/// into a cleared octet gives 192.
pub proof fn lemma_typed_octet_bounded(octet: u8, digit: u8)
    ensures
        typed_octet(octet, digit) <= 255,
        typed_octet(typed_octet(typed_octet(0, 1), 9), 2) == 192,
{
}

/// Append `value` to text growing to `cap` characters, keeping the lowest
/// digits that fit.
pub fn write_number_to_buf(out: &mut Vec<char>, value: usize, cap: usize)
    requires
        old(out)@.len() <= cap,
        value == 0 ==> old(out)@.len() < cap,
    ensures
        final(out)@ == old(out)@ + digits_within(value as nat, cap - old(out)@.len()),
{
    write_number(out, value as u64, cap);
}

/// An address line: the (ASCII) prefix, then "a.b.c.d".
pub fn format_ip_display(prefix: &str, ip: &[u8; 4]) -> (r: Vec<char>)
    requires
        vstd::string::is_ascii(prefix),
        prefix@.len() <= 17,
    ensures
        r@ == prefix@ + decimal(ip@[0] as nat) + "."@ + decimal(ip@[1] as nat) + "."@ + decimal(ip@[2] as nat) + "."@
            + decimal(ip@[3] as nat),
{
    proof {
        reveal_strlit(".");
        lemma_decimal_len(ip@[0] as nat);
        lemma_decimal_len(ip@[1] as nat);
        lemma_decimal_len(ip@[2] as nat);
        lemma_decimal_len(ip@[3] as nat);
    }
    let mut out: Vec<char> = Vec::new();
    push_text_capped(&mut out, prefix, 32);
    assert(prefix@.take(prefix@.len() as int) =~= prefix@);
    write_number_to_buf(&mut out, ip[0] as usize, 32);
    out.push('.');
    write_number_to_buf(&mut out, ip[1] as usize, 32);
    out.push('.');
    write_number_to_buf(&mut out, ip[2] as usize, 32);
    out.push('.');
    write_number_to_buf(&mut out, ip[3] as usize, 32);
    assert(out@ =~= prefix@ + decimal(ip@[0] as nat) + "."@ + decimal(ip@[1] as nat) + "."@ + decimal(ip@[2] as nat)
        + "."@ + decimal(ip@[3] as nat));
    out
}

/// Port line "Port: " and the port.
pub fn format_port_display(port: u16) -> (r: Vec<char>)
    ensures
        r@ == "Port: "@ + decimal(port as nat),
{
    proof {
        reveal_strlit("Port: ");
        lemma_decimal_len(port as nat);
    }
    let mut out: Vec<char> = Vec::new();
    push_text_capped(&mut out, "Port: ", 16);
    assert("Port: "@.take(6) =~= "Port: "@);
    write_number_to_buf(&mut out, port as usize, 16);
    out
}

} // verus!
