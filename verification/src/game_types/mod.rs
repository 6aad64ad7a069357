//! Pure game data types and rules shared between kernel and applications.

pub mod phase;
pub mod state;
pub mod weapon;
pub mod world;
