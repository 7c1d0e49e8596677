//! Real-time runtime core of a family of audio plugins: a bounded log
//! console, a wall-clock timer, a cyclic byte feed that is played back as
//! audio, the life cycle of a loudness integrator, and the per-block
//! decisions of the plugin runtimes built on them.
//!
//! Sample values themselves never enter this crate. Whatever reads or writes
//! them lives with the host adapter; the functions here decide what has to
//! happen in a block and keep the state that outlives it.

pub mod console;
pub mod data;
pub mod feed;
pub mod loudness;
pub mod meter;
pub mod read_mode;
pub mod runtime;
pub mod runtime_data;
pub mod text;
pub mod timer;
