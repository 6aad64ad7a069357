//! Triangle batching for the SVGA3D path: triangles are collected into a
//! batch of at most `MAX_TRIANGLES_PER_BATCH` and flushed to the device in one
//! draw; without GPU 3D they are kept for the software rasterizer.
//!
//! The batch is generic over the triangle type; the device commands are
//! returned to the caller, which issues them.

use vstd::prelude::*;

verus! {

/// Maximum triangles per batch.
pub const MAX_TRIANGLES_PER_BATCH: usize = 1024;

/// Bytes per vertex: three floats and an ARGB color.
pub const VERTEX_SIZE: usize = 16;

/// Bytes per triangle.
pub const TRIANGLE_SIZE: usize = 48;

/// Bytes of the vertex buffer.
pub const BATCH_BUFFER_SIZE: usize = 49152;

/// Device resources created for batching (each `None` when its creation was
/// not reached or failed) and whether the whole set-up succeeded.
#[derive(Debug, Clone, Copy, PartialEq, Eq, Structural)]
pub struct BatchResources {
    pub context_id: Option<u32>,
    pub color_target_id: Option<u32>,
    pub depth_target_id: Option<u32>,
    pub gmr_id: Option<u32>,
    pub vertex_surface_id: Option<u32>,
    pub has_vertex_ptr: bool,
    pub complete: bool,
}

/// Commands to draw a flushed batch.
#[derive(Debug, Clone, Copy, PartialEq, Eq, Structural)]
pub struct FlushCommand {
    pub gmr_id: u32,
    pub vertex_surface_id: u32,
    pub context_id: u32,
    /// Bytes to upload from the GMR to the vertex surface.
    pub data_size: u32,
    /// Vertices to draw.
    pub num_vertices: u32,
    /// Whether to wait for the device afterwards (not on the first batch of a frame).
    pub sync: bool,
}

/// Where an accepted triangle goes.
#[derive(Debug, Clone, Copy, PartialEq, Eq, Structural)]
pub enum BatchSlot {
    /// Write it into the GMR vertex buffer at this byte offset.
    Gpu(usize),
    /// GPU batching is on but no vertex buffer is mapped: the triangle is only counted.
    Unmapped,
    /// Kept in the batch's CPU list.
    Cpu,
}

/// The batch and its counters.
pub struct GpuBatch<T> {
    pub enabled: bool,
    pub gmr_id: Option<u32>,
    pub vertex_surface_id: Option<u32>,
    pub has_vertex_ptr: bool,
    pub triangle_count: usize,
    pub frame_triangle_count: usize,
    pub batch_count: usize,
    pub frame_count: u64,
    pub width: u32,
    pub height: u32,
    pub context_id: Option<u32>,
    pub color_target_id: Option<u32>,
    pub depth_target_id: Option<u32>,
    pub cpu_triangles: Vec<T>,
    pub resources_initialized: bool,
    /// A batch is open for triangles.
    pub active: bool,
    /// Triangles reserved in the open batch.
    pub reserved: usize,
}

impl<T> GpuBatch<T> {
    /// The reservation counter never passes the batch capacity.
    pub open spec fn wf(self) -> bool {
        &&& self.reserved <= MAX_TRIANGLES_PER_BATCH
        &&& self.triangle_count <= MAX_TRIANGLES_PER_BATCH
    }

    /// Nothing set up, no triangles, closed.
    pub fn new() -> (r: Self)
        ensures
            r.wf(),
            !r.enabled,
            !r.active,
            r.reserved == 0,
            r.triangle_count == 0,
            r.frame_triangle_count == 0,
            r.batch_count == 0,
            r.frame_count == 0,
            r.cpu_triangles@.len() == 0,
            !r.resources_initialized,
            r.context_id is None && r.gmr_id is None && r.vertex_surface_id is None,
    {
        GpuBatch {
            enabled: false,
            gmr_id: None,
            vertex_surface_id: None,
            has_vertex_ptr: false,
            triangle_count: 0,
            frame_triangle_count: 0,
            batch_count: 0,
            frame_count: 0,
            width: 0,
            height: 0,
            context_id: None,
            color_target_id: None,
            depth_target_id: None,
            cpu_triangles: Vec::new(),
            resources_initialized: false,
            active: false,
            reserved: 0,
        }
    }
}

/// Set up batching for a `width` x `height` target. `has_3d` says whether the
/// GPU backend has 3D; `resources` is what the device set-up produced (used only
/// with 3D). Returns whether GPU batching is enabled; otherwise triangles are
/// collected for the software path.
pub fn init<T>(batch: &mut GpuBatch<T>, width: u32, height: u32, has_3d: bool, resources: BatchResources) -> (r: bool)
    requires
        old(batch).wf(),
    ensures
        final(batch).wf(),
        final(batch).width == width,
        final(batch).height == height,
        r == (has_3d && resources.complete),
        final(batch).enabled == r,
        r ==> final(batch).resources_initialized && final(batch).cpu_triangles@ == old(batch).cpu_triangles@,
        !r ==> final(batch).resources_initialized == old(batch).resources_initialized
            && final(batch).cpu_triangles@.len() == 0,
        has_3d ==> final(batch).context_id == resources.context_id
            && final(batch).color_target_id == resources.color_target_id
            && final(batch).depth_target_id == resources.depth_target_id
            && final(batch).gmr_id == resources.gmr_id
            && final(batch).vertex_surface_id == resources.vertex_surface_id
            && final(batch).has_vertex_ptr == resources.has_vertex_ptr,
        !has_3d ==> final(batch).context_id == old(batch).context_id
            && final(batch).gmr_id == old(batch).gmr_id
            && final(batch).vertex_surface_id == old(batch).vertex_surface_id,
        final(batch).active == old(batch).active,
        final(batch).reserved == old(batch).reserved,
        final(batch).triangle_count == old(batch).triangle_count,
        final(batch).frame_count == old(batch).frame_count,
{
    batch.width = width;
    batch.height = height;
    if !has_3d {
        batch.enabled = false;
        batch.cpu_triangles = Vec::new();
        return false;
    }
    batch.context_id = resources.context_id;
    batch.color_target_id = resources.color_target_id;
    batch.depth_target_id = resources.depth_target_id;
    batch.gmr_id = resources.gmr_id;
    batch.vertex_surface_id = resources.vertex_surface_id;
    batch.has_vertex_ptr = resources.has_vertex_ptr;
    if !resources.complete {
        batch.enabled = false;
        batch.cpu_triangles = Vec::new();
        return false;
    }
    batch.enabled = true;
    batch.resources_initialized = true;
    true
}

/// Whether GPU batching is enabled.
pub fn is_enabled<T>(batch: &GpuBatch<T>) -> (r: bool)
    ensures
        r == batch.enabled,
{
    batch.enabled
}

/// Open the batch for a new frame: counters reset, frame counted, the CPU list
/// emptied (software path). Returns the context to clear on the GPU path.
pub fn begin_batch<T>(batch: &mut GpuBatch<T>) -> (clear_context: Option<u32>)
    requires
        old(batch).wf(),
        old(batch).frame_count < u64::MAX,
    ensures
        final(batch).wf(),
        final(batch).triangle_count == 0,
        final(batch).frame_triangle_count == 0,
        final(batch).batch_count == 0,
        final(batch).frame_count == old(batch).frame_count + 1,
        final(batch).active,
        final(batch).reserved == 0,
        final(batch).enabled == old(batch).enabled,
        !old(batch).enabled ==> final(batch).cpu_triangles@.len() == 0 && clear_context is None,
        old(batch).enabled ==> final(batch).cpu_triangles@ == old(batch).cpu_triangles@
            && clear_context == old(batch).context_id,
        final(batch).context_id == old(batch).context_id,
        final(batch).gmr_id == old(batch).gmr_id,
        final(batch).vertex_surface_id == old(batch).vertex_surface_id,
        final(batch).color_target_id == old(batch).color_target_id,
        final(batch).has_vertex_ptr == old(batch).has_vertex_ptr,
        final(batch).width == old(batch).width,
        final(batch).height == old(batch).height,
{
    batch.triangle_count = 0;
    batch.frame_triangle_count = 0;
    batch.batch_count = 0;
    batch.frame_count = batch.frame_count + 1;
    let mut clear_context: Option<u32> = None;
    if !batch.enabled {
        batch.cpu_triangles.clear();
    } else {
        clear_context = batch.context_id;
    }
    batch.reserved = 0;
    batch.active = true;
    clear_context
}

/// `after` is `before` once a triangle was taken into the open batch: one
/// more reserved, and the batch's count is the reservations.
pub open spec fn triangle_taken<T>(before: GpuBatch<T>, after: GpuBatch<T>) -> bool {
    &&& before.active
    &&& before.reserved < MAX_TRIANGLES_PER_BATCH
    &&& after.active
    &&& after.reserved == before.reserved + 1
    &&& after.triangle_count == before.reserved + 1
}

/// After a batch is begun (or flushed) and `k` triangles are taken into it,
/// it holds exactly `k`: `flush_batch` then reports `k` triangles, adds `k`
/// to the frame's count and one batch when `k > 0`, and changes nothing
/// when `k == 0`.
pub proof fn lemma_batch_counts_taken<T>(states: Seq<GpuBatch<T>>, k: int)
    requires
        states.len() == k + 1,
        k >= 0,
        states[0].reserved == 0,
        states[0].triangle_count == 0,
        forall|j: int| 0 <= j < k ==> #[trigger] triangle_taken(states[j], states[j + 1]),
    ensures
        states[k].triangle_count == k,
        states[k].reserved == k,
    decreases k,
{
    if k > 0 {
        lemma_batch_counts_taken(states.take(k), k - 1);
        let j = k - 1;
        assert(states.take(k)[j] == states[j]);
        assert(triangle_taken(states[j], states[j + 1]));
    }
}

/// Add a triangle to the open batch. `None` when no batch is open or the batch
/// is full; otherwise where the triangle goes (on the GPU path the caller writes
/// it into the vertex buffer at the given offset).
pub fn add_triangle<T>(batch: &mut GpuBatch<T>, tri: T) -> (r: Option<BatchSlot>)
    requires
        old(batch).wf(),
    ensures
        final(batch).wf(),
        r is Some <==> triangle_taken(*old(batch), *final(batch)),
        !old(batch).active || old(batch).reserved >= MAX_TRIANGLES_PER_BATCH ==> r is None
            && final(batch).reserved == old(batch).reserved
            && final(batch).triangle_count == old(batch).triangle_count
            && final(batch).cpu_triangles@ == old(batch).cpu_triangles@,
        old(batch).active && old(batch).reserved < MAX_TRIANGLES_PER_BATCH ==> {
            &&& final(batch).reserved == old(batch).reserved + 1
            &&& final(batch).triangle_count == old(batch).reserved + 1
            &&& r == Some(if !old(batch).enabled {
                BatchSlot::Cpu
            } else if old(batch).has_vertex_ptr {
                BatchSlot::Gpu((old(batch).reserved * TRIANGLE_SIZE) as usize)
            } else {
                BatchSlot::Unmapped
            })
            &&& final(batch).cpu_triangles@ == if old(batch).enabled {
                old(batch).cpu_triangles@
            } else {
                old(batch).cpu_triangles@.push(tri)
            }
        },
        final(batch).active == old(batch).active,
        final(batch).enabled == old(batch).enabled,
        final(batch).frame_triangle_count == old(batch).frame_triangle_count,
        final(batch).batch_count == old(batch).batch_count,
        final(batch).frame_count == old(batch).frame_count,
        final(batch).context_id == old(batch).context_id,
        final(batch).gmr_id == old(batch).gmr_id,
        final(batch).vertex_surface_id == old(batch).vertex_surface_id,
        final(batch).color_target_id == old(batch).color_target_id,
        final(batch).has_vertex_ptr == old(batch).has_vertex_ptr,
        final(batch).width == old(batch).width,
        final(batch).height == old(batch).height,
{
    if !batch.active {
        return None;
    }
    let count = batch.reserved;
    if count >= MAX_TRIANGLES_PER_BATCH {
        return None;
    }
    batch.reserved = count + 1;
    let slot = if batch.enabled {
        if batch.has_vertex_ptr {
            BatchSlot::Gpu(count * TRIANGLE_SIZE)
        } else {
            BatchSlot::Unmapped
        }
    } else {
        batch.cpu_triangles.push(tri);
        BatchSlot::Cpu
    };
    batch.triangle_count = count + 1;
    Some(slot)
}

/// Close the current batch: its triangles are added to the frame count and,
/// on the GPU path with all resources present, drawn with the returned
/// command. Returns the number of triangles flushed (0 for an empty batch,
/// which changes nothing).
pub fn flush_batch<T>(batch: &mut GpuBatch<T>) -> (r: (usize, Option<FlushCommand>))
    requires
        old(batch).wf(),
        old(batch).frame_triangle_count + old(batch).triangle_count <= usize::MAX,
        old(batch).batch_count < usize::MAX,
    ensures
        final(batch).wf(),
        r.0 == old(batch).triangle_count,
        old(batch).triangle_count == 0 ==> r.1 is None && *final(batch) == *old(batch),
        old(batch).triangle_count > 0 ==> {
            &&& final(batch).frame_triangle_count == old(batch).frame_triangle_count + old(batch).triangle_count
            &&& final(batch).batch_count == old(batch).batch_count + 1
            &&& final(batch).triangle_count == 0
            &&& final(batch).reserved == 0
            &&& r.1 == if old(batch).enabled && old(batch).gmr_id is Some && old(batch).vertex_surface_id is Some
                && old(batch).context_id is Some {
                Some(FlushCommand {
                    gmr_id: old(batch).gmr_id->0,
                    vertex_surface_id: old(batch).vertex_surface_id->0,
                    context_id: old(batch).context_id->0,
                    data_size: (old(batch).triangle_count * TRIANGLE_SIZE) as u32,
                    num_vertices: (old(batch).triangle_count * 3) as u32,
                    sync: old(batch).batch_count > 0,
                })
            } else {
                None
            }
            &&& final(batch).active == old(batch).active
            &&& final(batch).enabled == old(batch).enabled
            &&& final(batch).cpu_triangles@ == old(batch).cpu_triangles@
            &&& final(batch).frame_count == old(batch).frame_count
            &&& final(batch).context_id == old(batch).context_id
            &&& final(batch).color_target_id == old(batch).color_target_id
            &&& final(batch).width == old(batch).width
            &&& final(batch).height == old(batch).height
        },
{
    let count = batch.triangle_count;
    if count == 0 {
        return (0, None);
    }
    let mut cmd: Option<FlushCommand> = None;
    if batch.enabled {
        match (batch.gmr_id, batch.vertex_surface_id, batch.context_id) {
            (Some(gmr_id), Some(vertex_surface_id), Some(context_id)) => {
                cmd = Some(FlushCommand {
                    gmr_id,
                    vertex_surface_id,
                    context_id,
                    data_size: (count * TRIANGLE_SIZE) as u32,
                    num_vertices: (count * 3) as u32,
                    sync: batch.batch_count > 0,
                });
            },
            _ => {},
        }
    }
    batch.frame_triangle_count = batch.frame_triangle_count + count;
    batch.batch_count = batch.batch_count + 1;
    batch.triangle_count = 0;
    batch.reserved = 0;
    (count, cmd)
}

/// A render target to present: color surface and its size.
#[derive(Debug, Clone, Copy, PartialEq, Eq, Structural)]
pub struct PresentTarget {
    pub surface_id: u32,
    pub width: u32,
    pub height: u32,
}

/// What ends a frame: the final flush, and the render target to present on the GPU path.
#[derive(Debug, Clone, Copy, PartialEq, Eq, Structural)]
pub struct EndBatch {
    pub flushed: usize,
    pub flush: Option<FlushCommand>,
    pub present: Option<PresentTarget>,
}

/// Flush the last batch, close batching for the frame, and name the target to present.
pub fn end_batch<T>(batch: &mut GpuBatch<T>) -> (r: EndBatch)
    requires
        old(batch).wf(),
        old(batch).frame_triangle_count + old(batch).triangle_count <= usize::MAX,
        old(batch).batch_count < usize::MAX,
    ensures
        final(batch).wf(),
        !final(batch).active,
        r.flushed == old(batch).triangle_count,
        final(batch).triangle_count == 0,
        final(batch).frame_triangle_count == old(batch).frame_triangle_count + old(batch).triangle_count,
        final(batch).batch_count == old(batch).batch_count + if old(batch).triangle_count > 0 { 1int } else { 0 },
        r.present == if old(batch).enabled && old(batch).color_target_id is Some {
            Some(PresentTarget { surface_id: old(batch).color_target_id->0, width: old(batch).width, height: old(batch).height })
        } else {
            None
        },
        final(batch).enabled == old(batch).enabled,
        final(batch).frame_count == old(batch).frame_count,
        final(batch).cpu_triangles@ == old(batch).cpu_triangles@,
{
    let (flushed, flush) = flush_batch(batch);
    batch.active = false;
    let present = if batch.enabled {
        match batch.color_target_id {
            Some(sid) => Some(PresentTarget { surface_id: sid, width: batch.width, height: batch.height }),
            None => None,
        }
    } else {
        None
    };
    EndBatch { flushed, flush, present }
}

/// Take the triangles collected for the software path, leaving the list empty.
pub fn get_cpu_triangles<T>(batch: &mut GpuBatch<T>) -> (r: Vec<T>)
    ensures
        r@ == old(batch).cpu_triangles@,
        final(batch).cpu_triangles@.len() == 0,
        final(batch).triangle_count == old(batch).triangle_count,
        final(batch).reserved == old(batch).reserved,
        final(batch).active == old(batch).active,
        final(batch).enabled == old(batch).enabled,
{
    let mut taken: Vec<T> = Vec::new();
    std::mem::swap(&mut taken, &mut batch.cpu_triangles);
    taken
}

/// Frame statistics: frames, triangles this frame, batches this frame, GPU path on.
pub fn get_stats<T>(batch: &GpuBatch<T>) -> (r: (u64, usize, usize, bool))
    ensures
        r == (batch.frame_count, batch.frame_triangle_count, batch.batch_count, batch.enabled),
{
    (batch.frame_count, batch.frame_triangle_count, batch.batch_count, batch.enabled)
}

/// Whether a batch is open.
pub fn is_active<T>(batch: &GpuBatch<T>) -> (r: bool)
    ensures
        r == batch.active,
{
    batch.active
}

/// Triangles reserved in the open batch.
pub fn current_count<T>(batch: &GpuBatch<T>) -> (r: usize)
    ensures
        r == batch.reserved,
{
    batch.reserved
}

/// Whether the open batch is full and must be flushed.
pub fn needs_flush<T>(batch: &GpuBatch<T>) -> (r: bool)
    ensures
        r == (batch.reserved >= MAX_TRIANGLES_PER_BATCH),
{
    batch.reserved >= MAX_TRIANGLES_PER_BATCH
}

} // verus!
