use vstd::prelude::*;

pub mod api;
pub mod autostart;
pub mod ball;
pub mod config;
pub mod geometry;
pub mod state;
pub mod text;
pub mod tray;
pub mod wave;

verus! {

/// Fixed-point scale of a fill ratio: `RATIO_SCALE` stands for a full gauge.
pub const RATIO_SCALE: u32 = 10_000;

} // verus!
