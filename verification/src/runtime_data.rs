//! The figures that a runtime publishes after each block.

use vstd::prelude::*;
use crate::loudness::LoudnessStats;

verus! {

/// One consistent set of figures, made on the audio thread once per block
/// and read by the display whenever it redraws.
///
/// Numbers that are not whole are carried as bit patterns: the smoothed
/// block time as that of a single-precision number of milliseconds, the
/// loudness figures as those of double-precision numbers.
#[derive(Clone, Copy, Debug, PartialEq, Eq, Structural)]
pub struct RuntimeData {
    pub sample_rate: u32,
    pub buffer_size: usize,
    pub channels: usize,
    pub run_ms: u32,
    pub active_time_nanos: u128,
    pub lufs_global_loudness: u64,
    pub lufs_momentary_loudness: u64,
    pub lufs_range_loudness: u64,
    pub lufs_shortterm_loudness: u64,
}

impl RuntimeData {
    /// The figures before the first block: all zero.
    pub open spec fn zero() -> RuntimeData {
        RuntimeData {
            sample_rate: 0,
            buffer_size: 0,
            channels: 0,
            run_ms: 0,
            active_time_nanos: 0,
            lufs_global_loudness: 0,
            lufs_momentary_loudness: 0,
            lufs_range_loudness: 0,
            lufs_shortterm_loudness: 0,
        }
    }

    /// The loudness figures of this set.
    pub open spec fn loudness(self) -> LoudnessStats {
        LoudnessStats {
            global: self.lufs_global_loudness,
            momentary: self.lufs_momentary_loudness,
            range: self.lufs_range_loudness,
            shortterm: self.lufs_shortterm_loudness,
        }
    }

    pub fn new() -> (data: RuntimeData)
        ensures
            data == RuntimeData::zero(),
    {
        RuntimeData {
            sample_rate: 0,
            buffer_size: 0,
            channels: 0,
            run_ms: 0,
            active_time_nanos: 0,
            lufs_global_loudness: 0,
            lufs_momentary_loudness: 0,
            lufs_range_loudness: 0,
            lufs_shortterm_loudness: 0,
        }
    }
}

} // verus!
