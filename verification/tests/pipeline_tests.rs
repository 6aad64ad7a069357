use battle_royale_os::graphics::gpu3d::{self, Gpu3dResource, Gpu3dState, InitFailure};
use battle_royale_os::graphics::gpu_batch::{
    self, add_triangle, begin_batch, end_batch, flush_batch, get_cpu_triangles, needs_flush, BatchResources, BatchSlot,
    FlushCommand, GpuBatch, PresentTarget, MAX_TRIANGLES_PER_BATCH,
};
use battle_royale_os::graphics::gpu_render::{self, GpuRenderState};
use battle_royale_os::graphics::tiles::{
    self, bin_triangle_lockfree, next_tile_job, Tile, TileBinLockFree, TileState, TileWorkQueue, TriBounds,
    TriangleStorage, MAX_TRIANGLES_PER_TILE,
};
use battle_royale_os::graphics::vsync::{
    self, probe_continues, sleep_done, sleep_ms, vblank_step, wait_for_blanking, wait_for_vblank, FrameTimer,
    VblankPhase, VsyncProbe, VsyncState, PROBE_TIMEOUT_CYCLES,
};

#[test]
fn tile_bin_keeps_order_and_drops_overflow() {
    let mut bin = TileBinLockFree::new();
    assert_eq!(bin.len(), 0);
    assert!(bin.add(7));
    assert!(bin.add(9));
    assert_eq!(bin.get(0), Some(7));
    assert_eq!(bin.get(1), Some(9));
    assert_eq!(bin.get(2), None);
    for i in 2..MAX_TRIANGLES_PER_TILE {
        assert!(bin.add(i as u16));
    }
    assert!(!bin.add(1000));
    assert_eq!(bin.len(), MAX_TRIANGLES_PER_TILE);
    assert_eq!(bin.get(MAX_TRIANGLES_PER_TILE - 1), Some((MAX_TRIANGLES_PER_TILE - 1) as u16));
    bin.clear();
    assert_eq!(bin.len(), 0);
    assert_eq!(bin.get(0), None);
}

#[test]
fn triangle_storage_indices() {
    let mut st: TriangleStorage<u32> = TriangleStorage::new();
    assert_eq!(st.add(11), Some(0));
    assert_eq!(st.add(12), Some(1));
    assert_eq!(st.len(), 2);
    assert_eq!(st.get(1), Some(12));
    assert_eq!(st.get(2), None);
    st.reset();
    assert_eq!(st.len(), 0);
    assert_eq!(st.get(0), None);
    assert_eq!(st.add(13), Some(0));
    assert_eq!(st.get(0), Some(13));
}

#[test]
fn work_queue_covers_screen_row_by_row() {
    let mut q = TileWorkQueue::new(130, 70);
    assert_eq!(q.tile_count(), 6);
    assert_eq!(q.get_tile(0), Some(&Tile { x: 0, y: 0, width: 64, height: 64 }));
    assert_eq!(q.get_tile(2), Some(&Tile { x: 128, y: 0, width: 2, height: 64 }));
    assert_eq!(q.get_tile(5), Some(&Tile { x: 128, y: 64, width: 2, height: 6 }));
    assert_eq!(q.get_tile(6), None);
    assert_eq!(q.get_next_tile_idx(), Some(0));
    assert_eq!(q.get_next_tile(), Some(&Tile { x: 64, y: 0, width: 64, height: 64 }));
    for _ in 2..6 {
        assert!(q.get_next_tile_idx().is_some());
    }
    assert_eq!(q.get_next_tile_idx(), None);
    q.reset();
    assert_eq!(q.get_next_tile_idx(), Some(0));
}

#[test]
fn worker_loop_drains_the_queue() {
    let mut none: Option<TileWorkQueue> = None;
    assert_eq!(next_tile_job(&mut none), None);
    let mut q = Some(TileWorkQueue::new(64, 128));
    assert_eq!(next_tile_job(&mut q), Some((0, Tile { x: 0, y: 0, width: 64, height: 64 })));
    assert_eq!(next_tile_job(&mut q), Some((1, Tile { x: 0, y: 64, width: 64, height: 64 })));
    assert_eq!(next_tile_job(&mut q), None);
}

#[test]
fn binning_touches_overlapped_tiles() {
    let mut st: TileState<u32> = TileState::new();
    tiles::init(&mut st, 200, 130);
    assert_eq!((st.grid.width, st.grid.height), (4, 3));
    let idx = tiles::add_triangle(&mut st, 5).unwrap();
    assert_eq!(idx, 0);
    assert_eq!(tiles::get_triangle(&st, 0), Some(5));
    assert_eq!(tiles::triangle_count(&st), 1);
    // box over columns 1..2, rows 0..1
    bin_triangle_lockfree(&mut st, idx, TriBounds { min_x: 70, max_x: 140, min_y: 10, max_y: 100 });
    let hit: Vec<usize> = (0..12).filter(|&k| st.bins[k].len() == 1).collect();
    assert_eq!(hit, vec![1, 2, 5, 6]);
    assert_eq!(st.bins[5].get(0), Some(0));
    // a box past the right edge is clamped to the last column
    bin_triangle_lockfree(&mut st, 3, TriBounds { min_x: 190, max_x: 5000, min_y: 129, max_y: 129 });
    assert_eq!(st.bins[11].get(0), Some(3));
    tiles::clear_lockfree_bins(&mut st);
    assert!((0..12).all(|k| st.bins[k].len() == 0));
    tiles::reset_triangle_buffer(&mut st);
    assert_eq!(tiles::triangle_count(&st), 0);
}

#[test]
fn vga_probe_and_vblank_wait() {
    let mut probe = VsyncProbe::new();
    assert!(!probe.observe(0x08));
    assert!(probe.observe(0x00));
    assert!(probe_continues(0, 10, false));
    assert!(!probe_continues(0, 10, true));
    assert!(!probe_continues(0, PROBE_TIMEOUT_CYCLES, false));
    let mut st = VsyncState::new();
    assert_eq!(wait_for_vblank(&st), VblankPhase::Done);
    vsync::init(&mut st, &probe);
    assert!(vsync::is_available(&st));
    let mut phase = wait_for_vblank(&st);
    assert_eq!(phase, VblankPhase::LeavingRetrace);
    for status in [0x08u8, 0x09, 0x00, 0x01] {
        phase = vblank_step(phase, status);
        assert_ne!(phase, VblankPhase::Done);
    }
    assert_eq!(phase, VblankPhase::AwaitingRetrace);
    phase = vblank_step(phase, 0x08);
    assert_eq!(phase, VblankPhase::Done);
    assert_eq!(vblank_step(phase, 0x00), VblankPhase::Done);
    assert!(!wait_for_blanking(&st, 0x00));
    assert!(wait_for_blanking(&st, 0x01));
}

#[test]
fn sleeping_and_frame_timing() {
    let mut st = VsyncState::new();
    assert_eq!(sleep_ms(&st, 2), 4_000_000);
    assert!(!sleep_done(100, 200, 101));
    assert!(sleep_done(100, 201, 101));
    let mut t = FrameTimer::new(&st, 1000);
    assert_eq!(t.tsc_per_frame, 16666 * 2000);
    t.begin_frame(5000);
    assert!(t.end_frame(&mut st, 5000 + 100));
    assert_eq!(vsync::frame_count(&st), 1);
    assert_eq!(vsync::dropped_frames(&st), 0);
    assert!(!t.frame_wait_done(5000 + 100));
    assert!(t.frame_wait_done(5000 + 16666 * 2000));
    t.begin_frame(10_000);
    assert!(!t.end_frame(&mut st, 10_000 + 40_000_000));
    assert_eq!(vsync::dropped_frames(&st), 1);
    // a second after the timer started the rate is updated
    t.begin_frame(2_000_001_000);
    t.end_frame(&mut st, 2_000_001_000);
    assert_eq!(t.fps(), 3);
    assert_eq!(t.fps_frame_count, 0);
    t.set_vsync(&mut st, false);
    assert!(!t.vsync_enabled());
    assert!(!vsync::is_enabled(&st));
    vsync::enable(&mut st);
    assert!(vsync::is_enabled(&st));
}

fn resources(complete: bool) -> BatchResources {
    BatchResources {
        context_id: Some(1),
        color_target_id: Some(2),
        depth_target_id: Some(3),
        gmr_id: Some(4),
        vertex_surface_id: Some(5),
        has_vertex_ptr: true,
        complete,
    }
}

#[test]
fn batch_software_path_collects_triangles() {
    let mut b: GpuBatch<u32> = GpuBatch::new();
    assert!(!gpu_batch::init(&mut b, 640, 480, false, resources(true)));
    assert_eq!(add_triangle(&mut b, 1), None);
    assert_eq!(begin_batch(&mut b), None);
    assert_eq!(add_triangle(&mut b, 1), Some(BatchSlot::Cpu));
    assert_eq!(add_triangle(&mut b, 2), Some(BatchSlot::Cpu));
    let end = end_batch(&mut b);
    assert_eq!(end.flushed, 2);
    assert_eq!(end.flush, None);
    assert_eq!(end.present, None);
    assert_eq!(get_cpu_triangles(&mut b), vec![1, 2]);
    assert!(get_cpu_triangles(&mut b).is_empty());
    assert_eq!(gpu_batch::get_stats(&b), (1, 2, 1, false));
}

#[test]
fn batch_gpu_path_flushes_full_batches() {
    let mut b: GpuBatch<u32> = GpuBatch::new();
    assert!(!gpu_batch::init(&mut b, 640, 480, true, resources(false)));
    assert!(gpu_batch::init(&mut b, 640, 480, true, resources(true)));
    assert_eq!(begin_batch(&mut b), Some(1));
    assert_eq!(add_triangle(&mut b, 0), Some(BatchSlot::Gpu(0)));
    assert_eq!(add_triangle(&mut b, 0), Some(BatchSlot::Gpu(48)));
    let (n, cmd) = flush_batch(&mut b);
    assert_eq!(n, 2);
    assert_eq!(
        cmd,
        Some(FlushCommand { gmr_id: 4, vertex_surface_id: 5, context_id: 1, data_size: 96, num_vertices: 6, sync: false })
    );
    assert_eq!(flush_batch(&mut b), (0, None));
    for _ in 0..MAX_TRIANGLES_PER_BATCH {
        assert!(add_triangle(&mut b, 0).is_some());
    }
    assert!(needs_flush(&b));
    assert_eq!(add_triangle(&mut b, 0), None);
    let end = end_batch(&mut b);
    assert_eq!(end.flushed, MAX_TRIANGLES_PER_BATCH);
    assert_eq!(end.flush.unwrap().sync, true);
    assert_eq!(end.present, Some(PresentTarget { surface_id: 2, width: 640, height: 480 }));
    assert!(!gpu_batch::is_active(&b));
    assert_eq!(gpu_batch::get_stats(&b), (1, 2 + MAX_TRIANGLES_PER_BATCH, 2, true));
}

#[test]
fn render_state_limits_triangles() {
    let mut s: GpuRenderState<u8> = GpuRenderState::new();
    gpu_render::init(&mut s, true);
    assert!(gpu_render::is_gpu_enabled(&s));
    assert!(gpu_render::begin_frame(&mut s, true, true));
    assert!(!gpu_render::begin_frame(&mut s, true, false));
    assert_eq!(gpu_render::frame_count(&s), 2);
    s.max_triangles = 2;
    assert!(s.add_triangle(1));
    assert!(s.add_triangle(2));
    assert!(!s.add_triangle(3));
    assert_eq!(s.triangle_batch, vec![1, 2]);
    assert_eq!(gpu_render::triangles_this_frame(&s), 2);
    gpu_render::record_triangle(&mut s);
    assert_eq!(gpu_render::triangles_this_frame(&s), 3);
}

#[test]
fn gpu3d_lifecycle() {
    assert_eq!(
        gpu3d::init_rollback(InitFailure::DepthTarget, 1, 2, 3),
        vec![Gpu3dResource::Surface(2), Gpu3dResource::Context(1)]
    );
    assert_eq!(
        gpu3d::init_rollback(InitFailure::Viewport, 1, 2, 3),
        vec![Gpu3dResource::Surface(3), Gpu3dResource::Surface(2), Gpu3dResource::Context(1)]
    );
    let mut s = Gpu3dState::new();
    assert_eq!(gpu3d::begin_frame(&s), None);
    gpu3d::init(&mut s, 800, 600, 7, 8, 9);
    assert!(gpu3d::is_ready(&s));
    assert_eq!(gpu3d::begin_frame(&s), Some(7));
    assert_eq!(gpu3d::set_world_matrix(&s), Some(7));
    assert_eq!(gpu3d::end_frame(&s), Some((8, 800, 600)));
    s.vertex_buffer = Some(10);
    let released = gpu3d::shutdown(&mut s);
    assert_eq!(
        released,
        vec![Gpu3dResource::Context(7), Gpu3dResource::Surface(10), Gpu3dResource::Surface(9), Gpu3dResource::Surface(8)]
    );
    assert!(!gpu3d::is_ready(&s));
    assert_eq!(gpu3d::end_frame(&s), None);
    assert!(gpu3d::shutdown(&mut s).is_empty());
}

#[test]
fn triangle_count_stops_at_frame_capacity() {
    let mut st: TileState<u32> = TileState::new();
    tiles::init(&mut st, 200, 130);
    for n in 0..tiles::MAX_TRIANGLES_PER_FRAME as u32 {
        assert_eq!(tiles::add_triangle(&mut st, n), Some(n as u16));
    }
    assert_eq!(tiles::add_triangle(&mut st, 7), None);
    assert_eq!(tiles::add_triangle(&mut st, 8), None);
    assert_eq!(tiles::triangle_count(&st), tiles::MAX_TRIANGLES_PER_FRAME);
    assert_eq!(tiles::get_triangle(&st, 100), Some(100));
    assert_eq!(tiles::get_triangle(&st, u16::MAX), None);
}
