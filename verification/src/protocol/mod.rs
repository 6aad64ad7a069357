//! Network protocol: little-endian field codec and game packets.

pub mod codec;
pub mod packets;
