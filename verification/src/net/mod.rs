//! Game networking: what the kernel does with each packet it receives.

pub mod protocol;
pub mod server;
