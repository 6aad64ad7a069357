//! Core roles and the frame signals shared between cores.

use vstd::prelude::*;

verus! {

/// What a core does.
#[derive(Debug, Clone, Copy, PartialEq, Eq, Structural)]
pub enum CoreRole {
    /// Main game logic, input and frame orchestration.
    GameLogic,
    /// Triangle rasterization; the number says which rasterizer.
    Rasterizer(u8),
    /// Network polling and packet processing.
    Network,
}

/// Per-core bookkeeping.
pub struct CoreData {
    pub id: u32,
    pub role: CoreRole,
    pub running: bool,
}

impl CoreData {
    /// A core that has not started running yet.
    pub fn new(id: u32, role: CoreRole) -> (r: Self)
        ensures
            r.id == id,
            r.role == role,
            !r.running,
    {
        CoreData { id, role, running: false }
    }
}

/// The role table the kernel is built with: core 0 runs game logic, cores 1 to 3
/// rasterize, core 4 polls the network and any other core is an idle game-logic slot.
pub open spec fn role_of_core(id: int) -> CoreRole {
    if id == 0 {
        CoreRole::GameLogic
    } else if 1 <= id <= 3 {
        CoreRole::Rasterizer((id - 1) as u8)
    } else if id == 4 {
        CoreRole::Network
    } else {
        CoreRole::GameLogic
    }
}

/// The role assigned to core `id` in the kernel's core table.
pub fn core_role(id: u32) -> (r: CoreRole)
    ensures
        r == role_of_core(id as int),
{
    if id == 0 {
        CoreRole::GameLogic
    } else if id <= 3 {
        CoreRole::Rasterizer((id - 1) as u8)
    } else if id == 4 {
        CoreRole::Network
    } else {
        CoreRole::GameLogic
    }
}

/// Where a processor is sent when the cores are started.
#[derive(Debug, Clone, Copy, PartialEq, Eq, Structural)]
pub enum CoreStart {
    /// The bootstrap processor: it stays on the game loop and is marked running.
    Bootstrap,
    /// The rasterizer entry point.
    Rasterizer,
    /// The network entry point.
    Network,
    /// The idle entry point, which halts.
    Idle,
}

/// Entry point for the processor at position `index` in the processor list.
pub open spec fn start_of(index: int) -> CoreStart {
    if index == 0 {
        CoreStart::Bootstrap
    } else if 1 <= index <= 3 {
        CoreStart::Rasterizer
    } else if index == 4 {
        CoreStart::Network
    } else {
        CoreStart::Idle
    }
}

/// The start-up plan: how many cores are active and where each one goes.
pub struct StartPlan {
    pub active_cores: u32,
    pub starts: Vec<CoreStart>,
}

/// Number of processors the bootloader reported, or 1 without a report.
pub fn cpu_count(reported: Option<usize>) -> (r: u32)
    ensures
        r == match reported {
            Some(n) => n as u32,
            None => 1u32,
        },
{
    match reported {
        Some(n) => n as u32,
        None => 1,
    }
}

/// Plan the start of the processors the bootloader reported: `None` (no report)
/// means single-core operation with nothing to start.
pub fn init(reported: Option<usize>) -> (r: Option<StartPlan>)
    ensures
        reported is None ==> r is None,
        reported matches Some(n) ==> r matches Some(plan) && plan.active_cores == n as u32
            && plan.starts@.len() == n
            && forall|i: int| 0 <= i < n ==> #[trigger] plan.starts@[i] == start_of(i),
{
    match reported {
        None => None,
        Some(n) => {
            let mut starts: Vec<CoreStart> = Vec::new();
            let mut i: usize = 0;
            while i < n
                invariant
                    i <= n,
                    starts@.len() == i,
                    forall|j: int| 0 <= j < i ==> #[trigger] starts@[j] == start_of(j),
                decreases n - i,
            {
                let s = if i == 0 {
                    CoreStart::Bootstrap
                } else if i <= 3 {
                    CoreStart::Rasterizer
                } else if i == 4 {
                    CoreStart::Network
                } else {
                    CoreStart::Idle
                };
                starts.push(s);
                i = i + 1;
            }
            Some(StartPlan { active_cores: n as u32, starts })
        },
    }
}

/// The signals every core reads each frame: whether rendering may start, the
/// frame counter and the shutdown request.
pub struct FrameSignals {
    pub render_start: bool,
    pub frame: u32,
    pub shutdown: bool,
}

impl FrameSignals {
    /// No rendering, frame 0, no shutdown.
    pub fn new() -> (r: Self)
        ensures
            !r.render_start,
            r.frame == 0,
            !r.shutdown,
    {
        FrameSignals { render_start: false, frame: 0, shutdown: false }
    }
}

/// Signal render cores to start.
pub fn start_render(s: &mut FrameSignals)
    ensures
        *final(s) == (FrameSignals { render_start: true, ..*old(s) }),
{
    s.render_start = true;
}

/// Signal render cores that the frame is complete.
pub fn end_render(s: &mut FrameSignals)
    ensures
        *final(s) == (FrameSignals { render_start: false, ..*old(s) }),
{
    s.render_start = false;
}

/// Advance the frame counter (wrapping).
pub fn next_frame(s: &mut FrameSignals)
    ensures
        *final(s) == (FrameSignals { frame: old(s).frame.wrapping_add(1), ..*old(s) }),
{
    s.frame = s.frame.wrapping_add(1);
}

/// The current frame number.
pub fn current_frame(s: &FrameSignals) -> (r: u32)
    ensures
        r == s.frame,
{
    s.frame
}

/// Signal all cores to shut down.
pub fn shutdown(s: &mut FrameSignals)
    ensures
        *final(s) == (FrameSignals { shutdown: true, ..*old(s) }),
{
    s.shutdown = true;
}

/// Whether shutdown was requested.
pub fn should_shutdown(s: &FrameSignals) -> (r: bool)
    ensures
        r == s.shutdown,
{
    s.shutdown
}

} // verus!
