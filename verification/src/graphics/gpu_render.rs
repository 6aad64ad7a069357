//! Per-frame bookkeeping of the GPU render path: the triangle list of the
//! frame (bounded) and the frame and triangle counters.

use vstd::prelude::*;

verus! {

/// Default maximum triangles per frame (about 1 MB of vertex data).
pub const DEFAULT_MAX_TRIANGLES: usize = 16384;

/// GPU render state, generic over the triangle type.
pub struct GpuRenderState<T> {
    pub gpu_enabled: bool,
    pub triangle_batch: Vec<T>,
    pub max_triangles: usize,
    pub frame_count: u64,
    pub triangles_this_frame: usize,
}

impl<T> GpuRenderState<T> {
    /// GPU off, no triangles, the default limit.
    pub fn new() -> (r: Self)
        ensures
            !r.gpu_enabled,
            r.triangle_batch@.len() == 0,
            r.max_triangles == DEFAULT_MAX_TRIANGLES,
            r.frame_count == 0,
            r.triangles_this_frame == 0,
    {
        GpuRenderState {
            gpu_enabled: false,
            triangle_batch: Vec::new(),
            max_triangles: DEFAULT_MAX_TRIANGLES,
            frame_count: 0,
            triangles_this_frame: 0,
        }
    }

    /// Empty the triangle list and the frame's triangle count.
    pub fn begin_frame(&mut self)
        ensures
            final(self).triangle_batch@.len() == 0,
            final(self).triangles_this_frame == 0,
            final(self).gpu_enabled == old(self).gpu_enabled,
            final(self).max_triangles == old(self).max_triangles,
            final(self).frame_count == old(self).frame_count,
    {
        self.triangle_batch.clear();
        self.triangles_this_frame = 0;
    }

    /// Append a triangle unless the list is full; whether it was added.
    pub fn add_triangle(&mut self, tri: T) -> (r: bool)
        requires
            old(self).triangle_batch@.len() < old(self).max_triangles ==> old(self).triangles_this_frame < usize::MAX,
        ensures
            r == (old(self).triangle_batch@.len() < old(self).max_triangles),
            r ==> final(self).triangle_batch@ == old(self).triangle_batch@.push(tri)
                && final(self).triangles_this_frame == old(self).triangles_this_frame + 1,
            !r ==> final(self).triangle_batch@ == old(self).triangle_batch@
                && final(self).triangles_this_frame == old(self).triangles_this_frame,
            final(self).gpu_enabled == old(self).gpu_enabled,
            final(self).max_triangles == old(self).max_triangles,
            final(self).frame_count == old(self).frame_count,
    {
        if self.triangle_batch.len() >= self.max_triangles {
            return false;
        }
        self.triangle_batch.push(tri);
        self.triangles_this_frame = self.triangles_this_frame + 1;
        true
    }
}

/// Set the GPU path from whether the backend has 3D, and start an empty list.
pub fn init<T>(state: &mut GpuRenderState<T>, has_3d: bool)
    ensures
        final(state).gpu_enabled == has_3d,
        final(state).triangle_batch@.len() == 0,
        final(state).max_triangles == old(state).max_triangles,
        final(state).frame_count == old(state).frame_count,
        final(state).triangles_this_frame == old(state).triangles_this_frame,
{
    state.gpu_enabled = has_3d;
    state.triangle_batch = Vec::new();
}

/// Whether the GPU path is enabled.
pub fn is_gpu_enabled<T>(state: &GpuRenderState<T>) -> (r: bool)
    ensures
        r == state.gpu_enabled,
{
    state.gpu_enabled
}

/// Start a frame: empty list, frame counted. Returns whether the GPU 3D frame
/// must be started too (3D backend with a ready device).
pub fn begin_frame<T>(state: &mut GpuRenderState<T>, has_3d: bool, gpu3d_ready: bool) -> (start_gpu_frame: bool)
    requires
        old(state).frame_count < u64::MAX,
    ensures
        final(state).triangle_batch@.len() == 0,
        final(state).triangles_this_frame == 0,
        final(state).frame_count == old(state).frame_count + 1,
        final(state).gpu_enabled == old(state).gpu_enabled,
        final(state).max_triangles == old(state).max_triangles,
        start_gpu_frame == (has_3d && gpu3d_ready),
{
    state.begin_frame();
    state.frame_count = state.frame_count + 1;
    has_3d && gpu3d_ready
}

/// Triangles recorded this frame.
pub fn triangles_this_frame<T>(state: &GpuRenderState<T>) -> (r: usize)
    ensures
        r == state.triangles_this_frame,
{
    state.triangles_this_frame
}

/// Frames started so far.
pub fn frame_count<T>(state: &GpuRenderState<T>) -> (r: u64)
    ensures
        r == state.frame_count,
{
    state.frame_count
}

/// Count one more triangle drawn this frame.
pub fn record_triangle<T>(state: &mut GpuRenderState<T>)
    requires
        old(state).triangles_this_frame < usize::MAX,
    ensures
        final(state).triangles_this_frame == old(state).triangles_this_frame + 1,
        final(state).triangle_batch@ == old(state).triangle_batch@,
        final(state).frame_count == old(state).frame_count,
        final(state).gpu_enabled == old(state).gpu_enabled,
        final(state).max_triangles == old(state).max_triangles,
{
    state.triangles_this_frame = state.triangles_this_frame + 1;
}

} // verus!
