use battle_royale_os::graphics::cursor::{draw_cursor, point_in_rect, CURSOR_FILL};
use battle_royale_os::graphics::edges::{block_intersects_triangle, setup_edges};
use battle_royale_os::graphics::font::{char_height, chars_of, draw_char, draw_string, format_number, string_width};
use battle_royale_os::graphics::framebuffer::{init, rgb, DisplayMode, Framebuffer};
use battle_royale_os::graphics::gpu::{self, ClearAction, GpuBackend, PresentAction};
use battle_royale_os::graphics::ui::button::{Button, ButtonList, Slider, Toggle};
use battle_royale_os::graphics::ui::colors;
use battle_royale_os::graphics::ui::list::{format_player_count, KillFeed, PlayerList};
use battle_royale_os::graphics::ui::panel::{draw_crosshair_raw, draw_panel, draw_panel_raw, fill_rect_raw};

fn fb(w: usize, h: usize) -> Framebuffer {
    Framebuffer::new(w, h, w * 4, 32).unwrap()
}

#[test]
fn framebuffer_rejects_bad_modes() {
    assert!(Framebuffer::new(10, 10, 36, 32).is_none());
    let f = Framebuffer::new(10, 4, 48, 32).unwrap();
    assert_eq!(f.back_buffer.len(), 48);
    assert_eq!(f.pixel_count(), 40);
}

#[test]
fn pixels_are_clipped() {
    let mut f = fb(8, 4);
    f.put_pixel(3, 2, 7);
    f.put_pixel(8, 0, 9);
    f.put_pixel(0, 4, 9);
    assert_eq!(f.get_pixel(3, 2), 7);
    assert_eq!(f.get_pixel(8, 0), 0);
    assert_eq!(f.back_buffer.iter().filter(|&&p| p != 0).count(), 1);
    f.set_pixel_at(100, 5);
    assert_eq!(f.pixel_at(100), 0);
}

#[test]
fn fill_rect_and_hline() {
    let mut f = fb(8, 8);
    f.fill_rect(6, 6, 5, 5, 3);
    assert_eq!(f.get_pixel(6, 6), 3);
    assert_eq!(f.get_pixel(7, 7), 3);
    assert_eq!(f.get_pixel(5, 6), 0);
    f.hline(5, 2, 1, 4);
    assert_eq!(f.get_pixel(2, 1), 4);
    assert_eq!(f.get_pixel(4, 1), 4);
    assert_eq!(f.get_pixel(5, 1), 0);
    f.clear(1);
    assert!(f.back_buffer.iter().all(|&p| p == 1));
}

#[test]
fn rgb_packs_channels() {
    assert_eq!(rgb(0x12, 0x34, 0x56), 0x123456);
    assert_eq!(rgb(255, 0, 0), 0xFF0000);
}

#[test]
fn init_fills_the_slot() {
    let mut slot = None;
    let mode = DisplayMode { width: 4, height: 3, pitch: 16, bpp: 32 };
    assert_eq!(init(&mut slot, Some(mode)), Some((4, 3)));
    assert!(slot.is_some());
    let mut empty: Option<Framebuffer> = None;
    assert_eq!(init(&mut empty, None), None);
    assert!(empty.is_none());
}

#[test]
fn glyph_pixels() {
    let mut f = fb(16, 16);
    draw_char(&mut f, 0, 0, '1', 9, 1);
    assert_eq!(f.get_pixel(3, 0), 9);
    assert_eq!(f.get_pixel(4, 0), 9);
    assert_eq!(f.get_pixel(2, 0), 0);
    let mut g = fb(16, 16);
    draw_char(&mut g, 0, 0, '1', 9, 2);
    assert_eq!(g.get_pixel(6, 0), 9);
    assert_eq!(g.get_pixel(9, 1), 9);
    assert_eq!(g.get_pixel(5, 0), 0);
}

#[test]
fn text_metrics() {
    assert_eq!(format_number(0).iter().collect::<String>(), "0");
    assert_eq!(format_number(4_294_967_295).iter().collect::<String>(), "4294967295");
    assert_eq!(string_width(&chars_of("FPS"), 2), 54);
    assert_eq!(string_width(&chars_of(""), 2), 0);
    assert_eq!(char_height(3), 24);
    let mut f = fb(40, 10);
    draw_string(&mut f, 0, 0, " ", 5, 1);
    assert!(f.back_buffer.iter().all(|&p| p == 0));
}

#[test]
fn cursor_and_hit_tests() {
    let mut f = fb(20, 20);
    draw_cursor(&mut f, 2, 2);
    assert_eq!(f.get_pixel(2, 2), 0x000000);
    assert_eq!(f.get_pixel(3, 4), CURSOR_FILL);
    assert_eq!(f.get_pixel(5, 2), 0);
    assert!(point_in_rect(5, 5, 0, 0, 10, 10));
    assert!(!point_in_rect(10, 5, 0, 0, 10, 10));
    assert!(!point_in_rect(-1, 5, 0, 0, 10, 10));
}

#[test]
fn panels() {
    let mut f = fb(10, 10);
    draw_panel_raw(&mut f, 1, 1, 6, 6, colors::PANEL_BG);
    assert_eq!(f.get_pixel(1, 1), colors::PANEL_BORDER);
    assert_eq!(f.get_pixel(3, 3), colors::PANEL_BG);
    assert_eq!(f.get_pixel(6, 6), colors::PANEL_BORDER);
    assert_eq!(f.get_pixel(7, 7), 0);
    fill_rect_raw(&mut f, 0, 0, 2, 2, 1);
    assert_eq!(f.get_pixel(1, 1), 1);
    let mut slot = Some(fb(4, 4));
    draw_panel(&mut slot, 0, 0, 4, 4, 2);
    assert_eq!(slot.as_ref().unwrap().get_pixel(0, 0), colors::PANEL_BORDER);
    let mut none: Option<Framebuffer> = None;
    draw_panel(&mut none, 0, 0, 4, 4, 2);
    assert!(none.is_none());
}

#[test]
fn crosshair_gap() {
    let mut f = fb(40, 40);
    draw_crosshair_raw(&mut f, 40, 40, 5);
    assert_eq!(f.get_pixel(7, 20), 5);
    assert_eq!(f.get_pixel(20, 20), 0);
    assert_eq!(f.get_pixel(24, 20), 5);
    assert_eq!(f.get_pixel(20, 33), 5);
    assert_eq!(f.get_pixel(20, 34), 0);
}

#[test]
fn button_list_wraps() {
    let b = Button::new(0, 0, 10, 10, "A");
    let mut list = ButtonList::new([b, b, b, b], 3);
    assert!(list.buttons[0].selected);
    list.select_prev();
    assert_eq!(list.selected_index, 2);
    assert!(list.buttons[2].selected && !list.buttons[0].selected);
    list.select_next();
    assert_eq!(list.selected_index, 0);
    list.select(3);
    assert_eq!(list.selected_index, 0);
    assert!(Button::new(5, 5, 10, 10, "B").contains(14, 5));
    assert!(!Button::new(5, 5, 10, 10, "B").contains(15, 5));
    assert_eq!(Button::centered(0, 100, 20, "C", 300).x, 100);
}

#[test]
fn toggle_and_slider() {
    let mut t = Toggle::new(0, 0, 10, 10, "T", false);
    t.toggle();
    assert!(t.value);
    let mut s = Slider::new(0, 0, 10, 10, "S", 9, 1, 10);
    s.increase();
    s.increase();
    assert_eq!(s.value, 10);
    let mut low = Slider::new(0, 0, 10, 10, "S", 1, 1, 10);
    low.decrease();
    assert_eq!(low.value, 1);
}

#[test]
fn player_list_scrolling() {
    let mut list = PlayerList::new(50, 150, 400, 450);
    assert_eq!(list.items_per_page, 10);
    list.scroll_up();
    assert_eq!(list.scroll_offset, 0);
    list.scroll_down(10);
    assert_eq!(list.scroll_offset, 0);
    list.scroll_down(12);
    list.scroll_down(12);
    list.scroll_down(12);
    assert_eq!(list.scroll_offset, 2);
    list.scroll_up();
    assert_eq!(list.scroll_offset, 1);
    assert_eq!(format_player_count(7).iter().collect::<String>(), "7/100");
}

#[test]
fn kill_feed_keeps_five_newest() {
    let mut feed = KillFeed::new();
    for i in 0..7u32 {
        feed.add("killer", "victim", i % 2 == 0, i);
    }
    assert_eq!(feed.count, 5);
    assert_eq!(feed.entries[0].as_ref().unwrap().timestamp, 6);
    assert_eq!(feed.entries[4].as_ref().unwrap().timestamp, 2);
    feed.add("a_very_long_killer_name", "v", true, 99);
    let e = feed.entries[0].as_ref().unwrap();
    assert_eq!(&e.killer, b"a_very_long_kill");
    assert_eq!(&e.victim[..2], b"v\0");
    assert!(e.headshot);
}

#[test]
fn gpu_backend_selection() {
    assert_eq!(gpu::init(Some((1024, 768)), true, None), (GpuBackend::Svga3D, (1024, 768)));
    assert_eq!(gpu::init(Some((1024, 768)), false, Some((1, 1))), (GpuBackend::Vmsvga, (1024, 768)));
    assert_eq!(gpu::init(None, true, Some((800, 600))), (GpuBackend::Software, (800, 600)));
    assert_eq!(gpu::init(None, false, None), (GpuBackend::Software, (640, 480)));
    assert_eq!(gpu::backend_name(GpuBackend::Vmsvga), "VMSVGA (2D accel)");
    assert!(gpu::has_hw_accel(GpuBackend::Svga3D));
    assert!(!gpu::has_3d(GpuBackend::Vmsvga));
    assert_eq!(gpu::present(GpuBackend::Svga3D, true, true), PresentAction::Gpu3dEndFrame);
    assert_eq!(gpu::present(GpuBackend::Svga3D, false, true), PresentAction::CopyBackBuffer { update_device: false });
    assert_eq!(gpu::present(GpuBackend::Vmsvga, false, true), PresentAction::CopyBackBuffer { update_device: true });
}

#[test]
fn gpu_software_path_draws_into_back_buffer() {
    let mut slot = Some(fb(4, 4));
    assert_eq!(gpu::clear(GpuBackend::Software, false, false, &mut slot, 6), ClearAction::Done);
    assert_eq!(gpu::get_pixel(&slot, 1, 1), 6);
    gpu::put_pixel(&mut slot, 1, 1, 8);
    gpu::fill_rect(&mut slot, 2, 2, 9, 9, 9);
    assert_eq!(gpu::get_pixel(&slot, 1, 1), 8);
    assert_eq!(gpu::get_pixel(&slot, 3, 3), 9);
    assert_eq!(gpu::dimensions(GpuBackend::Software, (0, 0), &slot), (4, 4));
    assert_eq!(gpu::dimensions(GpuBackend::Vmsvga, (7, 8), &slot), (7, 8));
    assert_eq!(gpu::pitch(GpuBackend::Software, 0, &slot), 16);
    assert_eq!(gpu::clear(GpuBackend::Vmsvga, false, true, &mut slot, 1), ClearAction::Device);
    assert_eq!(gpu::get_pixel(&slot, 0, 0), 6);
    assert!(gpu::is_initialized(GpuBackend::Software, false, false, &slot));
    assert!(!gpu::is_initialized(GpuBackend::Software, false, false, &None));
}

#[test]
fn triangle_edges_oriented() {
    // counter-clockwise in the rasterizer's sense: positive area
    let e = setup_edges(0, 0, 160, 0, 0, 160, 100, 100).unwrap();
    assert!(!e.is_cw);
    assert_eq!(e.area, 160 * 160);
    assert_eq!((e.min_x, e.max_x, e.min_y, e.max_y), (0, 10, 0, 10));
    // the same triangle with the other winding is flipped
    let f = setup_edges(0, 0, 0, 160, 160, 0, 100, 100).unwrap();
    assert!(f.is_cw);
    assert_eq!(f.area, 160 * 160);
    // an interior point is inside all three edges
    for s in [e, f] {
        let (x, y) = (40i64, 40i64);
        assert!(s.a12 as i64 * x + s.b12 as i64 * y + s.c12 >= 0);
        assert!(s.a20 as i64 * x + s.b20 as i64 * y + s.c20 >= 0);
        assert!(s.a01 as i64 * x + s.b01 as i64 * y + s.c01 >= 0);
    }
    // degenerate and off-screen triangles are skipped
    assert!(setup_edges(0, 0, 16, 16, 32, 32, 100, 100).is_none());
    assert!(setup_edges(-320, -320, -160, -320, -320, -160, 100, 100).is_none());
    // the box is clamped to the screen
    let g = setup_edges(-16, -16, 4000, 0, 0, 4000, 100, 50).unwrap();
    assert_eq!((g.min_x, g.max_x, g.min_y, g.max_y), (0, 99, 0, 49));
}

#[test]
fn block_rejection() {
    // triangle covering pixels near the top-left corner: (0,0), (10,0), (0,10) in pixels
    let e = setup_edges(0, 0, 160, 0, 0, 160, 100, 100).unwrap();
    assert!(block_intersects_triangle(&e, 0, 0, 8));
    assert!(block_intersects_triangle(&e, 8, 0, 8));
    // a block far past the hypotenuse is outside one edge
    assert!(!block_intersects_triangle(&e, 16, 16, 8));
    assert!(!block_intersects_triangle(&e, 64, 0, 8));
    // the other winding gives the same answers
    let f = setup_edges(0, 0, 0, 160, 160, 0, 100, 100).unwrap();
    assert!(block_intersects_triangle(&f, 0, 0, 8));
    assert!(!block_intersects_triangle(&f, 16, 16, 8));
}
