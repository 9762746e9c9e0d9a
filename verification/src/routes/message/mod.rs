//! The message routes: starting a relay and cancelling one.

pub mod cancel;
pub mod create;
pub mod laws;
pub mod relay;
pub mod wire;
