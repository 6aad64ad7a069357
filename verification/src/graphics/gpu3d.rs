//! SVGA3D rendering state: the context and surfaces of the GPU render path,
//! and the decisions of its set-up, frame and shutdown. The device commands
//! are issued by the caller on the ids returned here.

use vstd::prelude::*;

verus! {

/// The SVGA3D context and its surfaces.
#[derive(Debug, Clone, Copy, PartialEq, Eq, Structural)]
pub struct Gpu3dState {
    pub context_id: Option<u32>,
    pub color_target: Option<u32>,
    pub depth_target: Option<u32>,
    pub vertex_buffer: Option<u32>,
    pub index_buffer: Option<u32>,
    pub width: u32,
    pub height: u32,
    pub ready: bool,
}

impl Gpu3dState {
    /// Nothing created, not ready.
    pub fn new() -> (r: Self)
        ensures
            r == (Gpu3dState {
                context_id: None,
                color_target: None,
                depth_target: None,
                vertex_buffer: None,
                index_buffer: None,
                width: 0,
                height: 0,
                ready: false,
            }),
    {
        Gpu3dState {
            context_id: None,
            color_target: None,
            depth_target: None,
            vertex_buffer: None,
            index_buffer: None,
            width: 0,
            height: 0,
            ready: false,
        }
    }
}

/// A device object to destroy.
#[derive(Debug, Clone, Copy, PartialEq, Eq, Structural)]
pub enum Gpu3dResource {
    Context(u32),
    Surface(u32),
}

/// The set-up step that failed after the context was created.
#[derive(Debug, Clone, Copy, PartialEq, Eq, Structural)]
pub enum InitFailure {
    /// Creating the color render target.
    ColorTarget,
    /// Creating the depth buffer.
    DepthTarget,
    /// Binding the render targets.
    RenderTarget,
    /// Setting the viewport.
    Viewport,
}

/// What to destroy, in order, when set-up fails at `failed`: everything created
/// before it, newest first.
pub fn init_rollback(failed: InitFailure, context_id: u32, color: u32, depth: u32) -> (r: Vec<Gpu3dResource>)
    ensures
        r@ == match failed {
            InitFailure::ColorTarget => seq![Gpu3dResource::Context(context_id)],
            InitFailure::DepthTarget => seq![Gpu3dResource::Surface(color), Gpu3dResource::Context(context_id)],
            _ => seq![
                Gpu3dResource::Surface(depth),
                Gpu3dResource::Surface(color),
                Gpu3dResource::Context(context_id),
            ],
        },
{
    let mut r: Vec<Gpu3dResource> = Vec::new();
    match failed {
        InitFailure::ColorTarget => {},
        InitFailure::DepthTarget => {
            r.push(Gpu3dResource::Surface(color));
        },
        _ => {
            r.push(Gpu3dResource::Surface(depth));
            r.push(Gpu3dResource::Surface(color));
        },
    }
    r.push(Gpu3dResource::Context(context_id));
    r
}

/// Record a completed set-up: the context, both render targets and the size; ready.
pub fn init(state: &mut Gpu3dState, width: u32, height: u32, context_id: u32, color: u32, depth: u32)
    ensures
        *final(state) == (Gpu3dState {
            context_id: Some(context_id),
            color_target: Some(color),
            depth_target: Some(depth),
            width,
            height,
            ready: true,
            ..*old(state)
        }),
{
    state.context_id = Some(context_id);
    state.color_target = Some(color);
    state.depth_target = Some(depth);
    state.width = width;
    state.height = height;
    state.ready = true;
}

/// Whether 3D rendering is ready.
pub fn is_ready(state: &Gpu3dState) -> (r: bool)
    ensures
        r == state.ready,
{
    state.ready
}

/// The context a per-frame command goes to: `None` (the command is not sent)
/// unless rendering is ready and a context exists.
pub open spec fn command_context(state: Gpu3dState) -> Option<u32> {
    if state.ready { state.context_id } else { None }
}

/// Begin a frame: the context to clear to sky blue at depth 1.
pub fn begin_frame(state: &Gpu3dState) -> (r: Option<u32>)
    ensures
        r == command_context(*state),
{
    if !state.ready {
        return None;
    }
    state.context_id
}

/// Sky blue, the color each frame starts from.
pub const FRAME_CLEAR_COLOR: u32 = 0xFF87CEEB;

/// The context on which to set the view matrix.
pub fn set_view_matrix(state: &Gpu3dState) -> (r: Option<u32>)
    ensures
        r == command_context(*state),
{
    begin_frame(state)
}

/// The context on which to set the projection matrix.
pub fn set_projection_matrix(state: &Gpu3dState) -> (r: Option<u32>)
    ensures
        r == command_context(*state),
{
    begin_frame(state)
}

/// The context on which to set the world matrix.
pub fn set_world_matrix(state: &Gpu3dState) -> (r: Option<u32>)
    ensures
        r == command_context(*state),
{
    begin_frame(state)
}

/// End a frame: the color target to present and its size, when ready.
pub fn end_frame(state: &Gpu3dState) -> (r: Option<(u32, u32, u32)>)
    ensures
        r == if state.ready && state.color_target is Some {
            Some((state.color_target->0, state.width, state.height))
        } else {
            None
        },
{
    if !state.ready {
        return None;
    }
    match state.color_target {
        Some(sid) => Some((sid, state.width, state.height)),
        None => None,
    }
}

/// Release everything: the objects to destroy in order (context, vertex buffer,
/// index buffer, depth target, color target; those that exist), and the state
/// left with none of them and not ready.
pub fn shutdown(state: &mut Gpu3dState) -> (r: Vec<Gpu3dResource>)
    ensures
        *final(state) == (Gpu3dState {
            context_id: None,
            vertex_buffer: None,
            index_buffer: None,
            depth_target: None,
            color_target: None,
            ready: false,
            ..*old(state)
        }),
        r@ == opt_context(old(state).context_id) + opt_surface(old(state).vertex_buffer)
            + opt_surface(old(state).index_buffer) + opt_surface(old(state).depth_target)
            + opt_surface(old(state).color_target),
{
    let mut r: Vec<Gpu3dResource> = Vec::new();
    match state.context_id.take() {
        Some(cid) => r.push(Gpu3dResource::Context(cid)),
        None => {},
    }
    match state.vertex_buffer.take() {
        Some(sid) => r.push(Gpu3dResource::Surface(sid)),
        None => {},
    }
    match state.index_buffer.take() {
        Some(sid) => r.push(Gpu3dResource::Surface(sid)),
        None => {},
    }
    match state.depth_target.take() {
        Some(sid) => r.push(Gpu3dResource::Surface(sid)),
        None => {},
    }
    match state.color_target.take() {
        Some(sid) => r.push(Gpu3dResource::Surface(sid)),
        None => {},
    }
    state.ready = false;
    r
}

/// The context to destroy, if any.
pub open spec fn opt_context(id: Option<u32>) -> Seq<Gpu3dResource> {
    match id {
        Some(c) => seq![Gpu3dResource::Context(c)],
        None => Seq::empty(),
    }
}

/// The surface to destroy, if any.
pub open spec fn opt_surface(id: Option<u32>) -> Seq<Gpu3dResource> {
    match id {
        Some(s) => seq![Gpu3dResource::Surface(s)],
        None => Seq::empty(),
    }
}

} // verus!
