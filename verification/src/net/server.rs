//! Tick scheduling of the dedicated server: a fixed 20 Hz tick driven by the
//! timestamp counter, a world broadcast on every tick and a status line
//! every ten seconds. The caller reads the counter and does the work.

use vstd::prelude::*;

verus! {

/// Assumed TSC rate (2 GHz).
pub const TSC_PER_SECOND: u64 = 2_000_000_000;

/// TSC cycles per tick at 20 ticks per second.
pub const TSC_PER_TICK: u64 = 100_000_000;

/// Ticks between world broadcasts: every tick, so clients get 20 updates a second.
pub const BROADCAST_EVERY: u64 = 1;

/// Server clock state.
#[derive(Debug, Clone, Copy, PartialEq, Eq, Structural)]
pub struct ServerClock {
    pub start_tsc: u64,
    pub tick_count: u64,
    pub next_tick_tsc: u64,
    pub last_status_tsc: u64,
}

/// What the server does at one reading of the counter.
#[derive(Debug, Clone, Copy, PartialEq, Eq, Structural)]
pub enum ServerStep {
    /// Not time yet: halt until the next interrupt.
    Idle,
    /// Run a tick: process packets, update the world, poll the network;
    /// broadcast the world when asked; print the status (uptime in seconds)
    /// when given.
    Tick { tick: u64, broadcast: bool, status: Option<u64> },
}

impl ServerClock {
    /// A clock started at TSC `start`, first tick one tick later.
    pub fn new(start: u64) -> (r: Self)
        requires
            start + TSC_PER_TICK <= u64::MAX,
        ensures
            r == (ServerClock { start_tsc: start, tick_count: 0, next_tick_tsc: (start + TSC_PER_TICK) as u64, last_status_tsc: start }),
    {
        ServerClock { start_tsc: start, tick_count: 0, next_tick_tsc: start + TSC_PER_TICK, last_status_tsc: start }
    }

    /// Decide what to do at TSC `now` (counters only grow).
    pub fn step(&mut self, now: u64) -> (r: ServerStep)
        requires
            old(self).start_tsc <= old(self).last_status_tsc <= now,
            old(self).tick_count < u64::MAX,
            now + TSC_PER_TICK <= u64::MAX,
        ensures
            now < old(self).next_tick_tsc ==> r == ServerStep::Idle && *final(self) == *old(self),
            now >= old(self).next_tick_tsc ==> {
                let tick = old(self).tick_count + 1;
                let status_due = now - old(self).last_status_tsc >= TSC_PER_SECOND * 10;
                &&& r == ServerStep::Tick {
                    tick: tick as u64,
                    broadcast: tick % BROADCAST_EVERY as int == 0,
                    status: if status_due { Some(((now - old(self).start_tsc) / TSC_PER_SECOND as int) as u64) } else { None },
                }
                &&& final(self).tick_count == tick
                &&& final(self).next_tick_tsc == now + TSC_PER_TICK
                &&& final(self).last_status_tsc == if status_due { now } else { old(self).last_status_tsc }
                &&& final(self).start_tsc == old(self).start_tsc
            },
    {
        if now < self.next_tick_tsc {
            return ServerStep::Idle;
        }
        self.tick_count = self.tick_count + 1;
        self.next_tick_tsc = now + TSC_PER_TICK;
        let broadcast = self.tick_count % BROADCAST_EVERY == 0;
        let status = if now - self.last_status_tsc >= TSC_PER_SECOND * 10 {
            self.last_status_tsc = now;
            Some((now - self.start_tsc) / TSC_PER_SECOND)
        } else {
            None
        };
        ServerStep::Tick { tick: self.tick_count, broadcast, status }
    }
}

} // verus!
