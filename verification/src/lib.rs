//! Verified core of a bare-metal battle-royale unikernel: wire protocol,
//! shared game rules, framebuffer drawing, tile scheduling and kernel
//! bookkeeping, each with a contract proved by Verus.

pub mod cmdline;
pub mod game_types;
pub mod graphics;
pub mod memory;
pub mod net;
pub mod protocol;
pub mod renderer;
pub mod smp;
pub mod ui;
