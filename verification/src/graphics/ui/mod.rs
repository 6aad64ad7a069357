//! UI primitives for menu rendering.

pub mod button;
pub mod colors;
pub mod list;
pub mod panel;
