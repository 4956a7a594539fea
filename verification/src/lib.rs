//! A manually driven simulation timeline, decoupled from the render loop.
//!
//! The clock in [`clock`] counts discrete simulation ticks scrubbed forward
//! by UI events; [`frames`] models whole frames of the surrounding update
//! loop and proves that the physics drain executes exactly one step per
//! qualifying event, never double-counting across frames.

pub mod clock;
pub mod frames;
