//! Frame pacing: VGA retrace detection from the input status register,
//! TSC-based frame timing and frame statistics. The caller reads the status
//! port and the timestamp counter and hands the values in.

use vstd::prelude::*;

verus! {

/// VGA input status register 1 (port 0x3DA).
pub const VGA_INPUT_STATUS_1: u16 = 0x3DA;

/// Status bit set during the vertical retrace interval.
pub const VGA_VRETRACE_BIT: u8 = 0x08;

/// Status bit set during blanking (horizontal or vertical).
pub const VGA_DISPLAY_ENABLE_BIT: u8 = 0x01;

/// Target frame rate (Hz).
pub const TARGET_FPS: u64 = 60;

/// Target frame time in microseconds.
pub const TARGET_FRAME_TIME_US: u64 = 16666;

/// Default TSC cycles per microsecond (about 2 GHz).
pub const DEFAULT_TSC_PER_US: u64 = 2000;

/// TSC cycles the VGA probe runs for (about 50 ms at 2 GHz).
pub const PROBE_TIMEOUT_CYCLES: u64 = 100_000_000;

/// Whether a status register value shows the vertical retrace.
pub fn is_in_vretrace(status: u8) -> (r: bool)
    ensures
        r == (status & VGA_VRETRACE_BIT != 0),
{
    (status & VGA_VRETRACE_BIT) != 0
}

/// Whether a status register value shows blanking (horizontal or vertical).
pub fn is_in_blanking(status: u8) -> (r: bool)
    ensures
        r == (status & VGA_DISPLAY_ENABLE_BIT != 0),
{
    (status & VGA_DISPLAY_ENABLE_BIT) != 0
}

/// Global vsync state: calibration, availability, the enable switch and frame statistics.
pub struct VsyncState {
    pub tsc_per_us: u64,
    pub available: bool,
    pub enabled: bool,
    pub frame_count: u64,
    pub dropped_frames: u64,
}

impl VsyncState {
    /// Before `init`: default calibration, no hardware vsync, enabled, no frames.
    pub fn new() -> (r: Self)
        ensures
            r == (VsyncState {
                tsc_per_us: DEFAULT_TSC_PER_US,
                available: false,
                enabled: true,
                frame_count: 0,
                dropped_frames: 0,
            }),
    {
        VsyncState { tsc_per_us: DEFAULT_TSC_PER_US, available: false, enabled: true, frame_count: 0, dropped_frames: 0 }
    }
}

/// Progress of the VGA probe: which retrace states were seen so far.
pub struct VsyncProbe {
    pub seen_retrace: bool,
    pub seen_no_retrace: bool,
}

impl VsyncProbe {
    /// Nothing seen yet.
    pub fn new() -> (r: Self)
        ensures
            !r.seen_retrace,
            !r.seen_no_retrace,
    {
        VsyncProbe { seen_retrace: false, seen_no_retrace: false }
    }

    /// Record one status read; true once both states were seen, which shows
    /// the retrace bit is live.
    pub fn observe(&mut self, status: u8) -> (done: bool)
        ensures
            final(self).seen_retrace == (old(self).seen_retrace || status & VGA_VRETRACE_BIT != 0),
            final(self).seen_no_retrace == (old(self).seen_no_retrace || status & VGA_VRETRACE_BIT == 0),
            done == (final(self).seen_retrace && final(self).seen_no_retrace),
    {
        if is_in_vretrace(status) {
            self.seen_retrace = true;
        } else {
            self.seen_no_retrace = true;
        }
        self.seen_retrace && self.seen_no_retrace
    }
}

/// Whether the probe should read the status again: its time is not up
/// (`now - start` below the timeout) and the retrace was not confirmed yet.
pub fn probe_continues(start: u64, now: u64, done: bool) -> (r: bool)
    requires
        start <= now,
    ensures
        r == (!done && now - start < PROBE_TIMEOUT_CYCLES),
{
    !done && now - start < PROBE_TIMEOUT_CYCLES
}

/// Finish initialization with the probe's outcome: hardware vsync is available
/// when both retrace states were seen, and the TSC rate is set to the default.
pub fn init(state: &mut VsyncState, probe: &VsyncProbe)
    ensures
        *final(state) == (VsyncState {
            available: old(state).available || (probe.seen_retrace && probe.seen_no_retrace),
            tsc_per_us: DEFAULT_TSC_PER_US,
            ..*old(state)
        }),
{
    if probe.seen_retrace && probe.seen_no_retrace {
        state.available = true;
    }
    state.tsc_per_us = DEFAULT_TSC_PER_US;
}

/// Where a wait for the vertical blank stands.
#[derive(Debug, Clone, Copy, PartialEq, Eq, Structural)]
pub enum VblankPhase {
    /// Waiting for a retrace already under way to end.
    LeavingRetrace,
    /// Waiting for the next retrace to begin.
    AwaitingRetrace,
    /// The wait is over.
    Done,
}

/// Start waiting for the vertical blank; without hardware vsync there is nothing to wait for.
pub fn wait_for_vblank(state: &VsyncState) -> (r: VblankPhase)
    ensures
        r == if state.available { VblankPhase::LeavingRetrace } else { VblankPhase::Done },
{
    if state.available {
        VblankPhase::LeavingRetrace
    } else {
        VblankPhase::Done
    }
}

/// Advance the vertical-blank wait with one status read: the wait ends at the
/// first retrace that begins after a non-retrace read.
pub fn vblank_step(phase: VblankPhase, status: u8) -> (r: VblankPhase)
    ensures
        r == match phase {
            VblankPhase::LeavingRetrace => if status & VGA_VRETRACE_BIT != 0 {
                VblankPhase::LeavingRetrace
            } else {
                VblankPhase::AwaitingRetrace
            },
            VblankPhase::AwaitingRetrace => if status & VGA_VRETRACE_BIT != 0 {
                VblankPhase::Done
            } else {
                VblankPhase::AwaitingRetrace
            },
            VblankPhase::Done => VblankPhase::Done,
        },
{
    match phase {
        VblankPhase::LeavingRetrace => {
            if is_in_vretrace(status) {
                VblankPhase::LeavingRetrace
            } else {
                VblankPhase::AwaitingRetrace
            }
        },
        VblankPhase::AwaitingRetrace => {
            if is_in_vretrace(status) {
                VblankPhase::Done
            } else {
                VblankPhase::AwaitingRetrace
            }
        },
        VblankPhase::Done => VblankPhase::Done,
    }
}

/// Phase reached after feeding a sequence of status reads to the wait.
pub open spec fn vblank_after(phase: VblankPhase, reads: Seq<u8>) -> VblankPhase
    decreases reads.len(),
{
    if reads.len() == 0 {
        phase
    } else {
        let p = vblank_after(phase, reads.drop_last());
        let status = reads.last();
        match p {
            VblankPhase::LeavingRetrace => if status & VGA_VRETRACE_BIT != 0 {
                VblankPhase::LeavingRetrace
            } else {
                VblankPhase::AwaitingRetrace
            },
            VblankPhase::AwaitingRetrace => if status & VGA_VRETRACE_BIT != 0 {
                VblankPhase::Done
            } else {
                VblankPhase::AwaitingRetrace
            },
            VblankPhase::Done => VblankPhase::Done,
        }
    }
}

/// A wait that started on a retrace ends only after the display left it and
/// a new retrace began: the last read shows a retrace and an earlier read did not.
pub proof fn lemma_vblank_waits_for_new_retrace(reads: Seq<u8>)
    requires
        vblank_after(VblankPhase::LeavingRetrace, reads) == VblankPhase::Done,
    ensures
        exists|i: int, j: int| 0 <= i < j < reads.len()
            && #[trigger] (reads[i] & VGA_VRETRACE_BIT) == 0
            && #[trigger] (reads[j] & VGA_VRETRACE_BIT) != 0,
    decreases reads.len(),
{
    let n = reads.len() as int;
    let prefix = reads.drop_last();
    let p = vblank_after(VblankPhase::LeavingRetrace, prefix);
    if p == VblankPhase::Done {
        lemma_vblank_waits_for_new_retrace(prefix);
        let (i, j) = choose|i: int, j: int| 0 <= i < j < prefix.len()
            && #[trigger] (prefix[i] & VGA_VRETRACE_BIT) == 0
            && #[trigger] (prefix[j] & VGA_VRETRACE_BIT) != 0;
        assert(reads[i] == prefix[i] && reads[j] == prefix[j]);
    } else {
        assert(p == VblankPhase::AwaitingRetrace);
        lemma_awaiting_was_left(prefix);
        let i = choose|i: int| 0 <= i < prefix.len() && #[trigger] (prefix[i] & VGA_VRETRACE_BIT) == 0;
        assert(reads[i] == prefix[i]);
        assert(reads[n - 1] == reads.last());
    }
}

/// A wait that started on a retrace and now awaits the next one has seen a
/// read without retrace.
pub proof fn lemma_awaiting_was_left(reads: Seq<u8>)
    requires
        vblank_after(VblankPhase::LeavingRetrace, reads) == VblankPhase::AwaitingRetrace,
    ensures
        exists|i: int| 0 <= i < reads.len() && #[trigger] (reads[i] & VGA_VRETRACE_BIT) == 0,
    decreases reads.len(),
{
    let prefix = reads.drop_last();
    let p = vblank_after(VblankPhase::LeavingRetrace, prefix);
    if p == VblankPhase::AwaitingRetrace {
        lemma_awaiting_was_left(prefix);
        let i = choose|i: int| 0 <= i < prefix.len() && #[trigger] (prefix[i] & VGA_VRETRACE_BIT) == 0;
        assert(reads[i] == prefix[i]);
    } else {
        assert(reads[reads.len() - 1] == reads.last());
    }
}

/// Whether the wait for blanking is over: immediately without hardware vsync,
/// otherwise once the status shows blanking.
pub fn wait_for_blanking(state: &VsyncState, status: u8) -> (done: bool)
    ensures
        done == (!state.available || status & VGA_DISPLAY_ENABLE_BIT != 0),
{
    !state.available || is_in_blanking(status)
}

/// TSC cycles to wait for `microseconds`.
pub fn sleep_us(state: &VsyncState, microseconds: u64) -> (cycles: u64)
    requires
        microseconds * state.tsc_per_us <= u64::MAX,
    ensures
        cycles == microseconds * state.tsc_per_us,
{
    microseconds * state.tsc_per_us
}

/// TSC cycles to wait for `milliseconds`.
pub fn sleep_ms(state: &VsyncState, milliseconds: u64) -> (cycles: u64)
    requires
        milliseconds * 1000 <= u64::MAX,
        milliseconds * 1000 * state.tsc_per_us <= u64::MAX,
    ensures
        cycles == milliseconds * 1000 * state.tsc_per_us,
{
    sleep_us(state, milliseconds * 1000)
}

/// Whether a sleep of `cycles` started at TSC `start` is over at TSC `now`.
pub fn sleep_done(start: u64, now: u64, cycles: u64) -> (r: bool)
    requires
        start <= now,
    ensures
        r == (now - start >= cycles),
{
    now - start >= cycles
}

/// Frame timing state for the main loop (TSC values).
pub struct FrameTimer {
    pub frame_start: u64,
    pub last_fps_time: u64,
    pub fps_frame_count: u32,
    pub current_fps: u32,
    pub tsc_per_frame: u64,
    pub use_vsync: bool,
}

impl FrameTimer {
    /// A timer started at TSC `now`, with the frame budget from the calibration
    /// and vsync following the global switch.
    pub fn new(state: &VsyncState, now: u64) -> (r: Self)
        requires
            TARGET_FRAME_TIME_US * state.tsc_per_us <= u64::MAX,
        ensures
            r == (FrameTimer {
                frame_start: now,
                last_fps_time: now,
                fps_frame_count: 0,
                current_fps: 0,
                tsc_per_frame: (TARGET_FRAME_TIME_US * state.tsc_per_us) as u64,
                use_vsync: state.enabled,
            }),
    {
        let tsc_per_frame = TARGET_FRAME_TIME_US * state.tsc_per_us;
        FrameTimer {
            frame_start: now,
            last_fps_time: now,
            fps_frame_count: 0,
            current_fps: 0,
            tsc_per_frame,
            use_vsync: state.enabled,
        }
    }

    /// Start a frame at TSC `now`.
    pub fn begin_frame(&mut self, now: u64)
        ensures
            *final(self) == (FrameTimer { frame_start: now, ..*old(self) }),
    {
        self.frame_start = now;
    }

    /// End the frame at TSC `frame_end`: count it, update the FPS once a second
    /// has passed, and report whether it was on time (a late frame is counted
    /// as dropped). After an on-time frame with vsync on, the caller waits
    /// until `frame_wait_done` holds.
    pub fn end_frame(&mut self, state: &mut VsyncState, frame_end: u64) -> (on_time: bool)
        requires
            old(self).fps_frame_count < u32::MAX,
            old(state).tsc_per_us * 1_000_000 <= u64::MAX,
        ensures
            on_time == (frame_end.wrapping_sub(old(self).frame_start) < old(self).tsc_per_frame),
            final(state).frame_count == old(state).frame_count.wrapping_add(1),
            final(state).dropped_frames == if on_time {
                old(state).dropped_frames
            } else {
                old(state).dropped_frames.wrapping_add(1)
            },
            final(state).tsc_per_us == old(state).tsc_per_us,
            final(state).available == old(state).available,
            final(state).enabled == old(state).enabled,
            final(self).frame_start == old(self).frame_start,
            final(self).tsc_per_frame == old(self).tsc_per_frame,
            final(self).use_vsync == old(self).use_vsync,
            frame_end.wrapping_sub(old(self).last_fps_time) >= old(state).tsc_per_us * 1_000_000 ==> {
                &&& final(self).current_fps == old(self).fps_frame_count + 1
                &&& final(self).fps_frame_count == 0
                &&& final(self).last_fps_time == frame_end
            },
            frame_end.wrapping_sub(old(self).last_fps_time) < old(state).tsc_per_us * 1_000_000 ==> {
                &&& final(self).current_fps == old(self).current_fps
                &&& final(self).fps_frame_count == old(self).fps_frame_count + 1
                &&& final(self).last_fps_time == old(self).last_fps_time
            },
    {
        let frame_duration = frame_end.wrapping_sub(self.frame_start);
        self.fps_frame_count = self.fps_frame_count + 1;
        state.frame_count = state.frame_count.wrapping_add(1);
        let tsc_per_second = state.tsc_per_us * 1_000_000;
        let elapsed = frame_end.wrapping_sub(self.last_fps_time);
        if elapsed >= tsc_per_second {
            self.current_fps = self.fps_frame_count;
            self.fps_frame_count = 0;
            self.last_fps_time = frame_end;
        }
        let on_time = frame_duration < self.tsc_per_frame;
        if !on_time {
            state.dropped_frames = state.dropped_frames.wrapping_add(1);
        }
        on_time
    }

    /// Whether the frame budget is used up at TSC `now` (the end of the vsync wait).
    pub fn frame_wait_done(&self, now: u64) -> (r: bool)
        ensures
            r == (now.wrapping_sub(self.frame_start) >= self.tsc_per_frame),
    {
        now.wrapping_sub(self.frame_start) >= self.tsc_per_frame
    }

    /// Current frames per second.
    pub fn fps(&self) -> (r: u32)
        ensures
            r == self.current_fps,
    {
        self.current_fps
    }

    /// Enable or disable vsync for this timer and globally.
    pub fn set_vsync(&mut self, state: &mut VsyncState, enabled: bool)
        ensures
            *final(self) == (FrameTimer { use_vsync: enabled, ..*old(self) }),
            *final(state) == (VsyncState { enabled, ..*old(state) }),
    {
        self.use_vsync = enabled;
        state.enabled = enabled;
    }

    /// Whether vsync is enabled for this timer.
    pub fn vsync_enabled(&self) -> (r: bool)
        ensures
            r == self.use_vsync,
    {
        self.use_vsync
    }
}

/// Enable vsync globally.
pub fn enable(state: &mut VsyncState)
    ensures
        *final(state) == (VsyncState { enabled: true, ..*old(state) }),
{
    state.enabled = true;
}

/// Disable vsync globally (for benchmarking).
pub fn disable(state: &mut VsyncState)
    ensures
        *final(state) == (VsyncState { enabled: false, ..*old(state) }),
{
    state.enabled = false;
}

/// Whether vsync is globally enabled.
pub fn is_enabled(state: &VsyncState) -> (r: bool)
    ensures
        r == state.enabled,
{
    state.enabled
}

/// Whether hardware vsync is available.
pub fn is_available(state: &VsyncState) -> (r: bool)
    ensures
        r == state.available,
{
    state.available
}

/// Frames counted since start-up.
pub fn frame_count(state: &VsyncState) -> (r: u64)
    ensures
        r == state.frame_count,
{
    state.frame_count
}

/// Frames that overran their budget since start-up.
pub fn dropped_frames(state: &VsyncState) -> (r: u64)
    ensures
        r == state.dropped_frames,
{
    state.dropped_frames
}

} // verus!
