//! The plain runtime: the frame that every plugin of the family starts
//! from. It keeps the figures of the current block and says whether the
//! samples are to be clipped.

use vstd::prelude::*;
use vstd::string::*;
use crate::console::{log_to, ConsoleSender};
use crate::runtime_data::RuntimeData;
use crate::timer::{timed_line, Timer};

verus! {

/// What a plain runtime is, to its callers.
pub struct RuntimeModel {
    pub sample_rate: u32,
    pub buffer_size: usize,
    pub channels: usize,
    pub clip: bool,
}

impl RuntimeModel {
    /// The runtime at the start of a block.
    pub open spec fn begun(self, frames: usize, channels: usize) -> RuntimeModel {
        RuntimeModel { buffer_size: frames, channels, ..self }
    }

    /// What is published, given the smoothed block time.
    pub open spec fn published(self, run_ms: u32) -> RuntimeData {
        RuntimeData {
            sample_rate: self.sample_rate,
            buffer_size: self.buffer_size,
            channels: self.channels,
            run_ms,
            ..RuntimeData::zero()
        }
    }
}

/// The plain runtime.
pub struct Runtime {
    pub console: Option<ConsoleSender>,
    sample_rate: u32,
    buffer_size: usize,
    channels: usize,
    clip: bool,
}

impl View for Runtime {
    type V = RuntimeModel;

    closed spec fn view(&self) -> RuntimeModel {
        RuntimeModel {
            sample_rate: self.sample_rate,
            buffer_size: self.buffer_size,
            channels: self.channels,
            clip: self.clip,
        }
    }
}

impl Runtime {
    /// A runtime that knows nothing yet. `clip` says whether the samples of
    /// each block are to be held to the range from -1 to 1.
    pub fn new(console: Option<ConsoleSender>, clip: bool) -> (runtime: Runtime)
        ensures
            runtime@ == (RuntimeModel { sample_rate: 0, buffer_size: 0, channels: 0, clip }),
    {
        Runtime { console, sample_rate: 0, buffer_size: 0, channels: 0, clip }
    }

    /// Takes note of the sample rate, in Hz, once the host has fixed it.
    pub fn init(&mut self, sample_rate: u32)
        ensures
            final(self)@ == (RuntimeModel { sample_rate, ..old(self)@ }),
    {
        let execute_timer = Timer::new();
        self.sample_rate = sample_rate;
        self.log(timed_line("Init", execute_timer.elapsed_nanos()));
    }

    /// There is nothing to start over; only the console hears of the reset.
    pub fn reset(&mut self)
        ensures
            final(self)@ == old(self)@,
    {
        let execute_timer = Timer::new();
        self.log(timed_line("Reset", execute_timer.elapsed_nanos()));
    }

    /// Begins a block of `frames` frames on `channels` channels, and says
    /// whether its samples are to be clipped.
    pub fn run(&mut self, frames: usize, channels: usize) -> (clip: bool)
        ensures
            final(self)@ == old(self)@.begun(frames, channels),
            clip == old(self)@.clip,
    {
        self.buffer_size = frames;
        self.channels = channels;
        self.clip
    }

    /// The figures to publish. `run_ms` is the smoothed block time.
    pub fn update_params(&self, run_ms: u32) -> (data: RuntimeData)
        ensures
            data == self@.published(run_ms),
    {
        RuntimeData {
            sample_rate: self.sample_rate,
            buffer_size: self.buffer_size,
            channels: self.channels,
            run_ms,
            active_time_nanos: 0,
            lufs_global_loudness: 0,
            lufs_momentary_loudness: 0,
            lufs_range_loudness: 0,
            lufs_shortterm_loudness: 0,
        }
    }

    fn log(&self, message: String) {
        log_to(&self.console, message);
    }
}

} // verus!
