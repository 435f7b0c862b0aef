use vstd::prelude::*;

pub mod binary;
pub mod command;
pub mod constant;
pub mod control_msg;
pub mod device_msg;
pub mod effect;
pub mod gesture;
pub mod keymap;
pub mod mapping_config;
pub mod mapping_engine;
pub mod media;
pub mod script_eval;
pub mod script_helper;
pub mod session;
pub mod web;

verus! {

/// Interpolation steps are never longer than this many pixels.
pub const MIN_MOVE_STEP_LENGTH: u64 = 25;

/// Interpolation steps are never closer together than this many milliseconds.
pub const MIN_MOVE_STEP_INTERVAL: u64 = 25;

} // verus!
