//! The runtime of the loudness meter plugin: what happens to the meter at
//! the start of each block, and what is published at its end.
//!
//! A block goes in three steps. [`Runtime::run`] takes note of the block and
//! of the controls, resets the meter where they ask for it, and makes it
//! ready. The host adapter then clips the block's samples where the plan
//! says so and feeds them, as the host will get them, to the integrator.
//! [`Runtime::run_ebur128`] reads the new figures, and
//! [`Runtime::update_values`] publishes them.

use vstd::prelude::*;
use vstd::string::*;
use ebur128::EbuR128;
use crate::console::{log_to, ConsoleSender};
use crate::loudness::{
    built, config_check, LoudnessMeter, LoudnessStats, MeterError, MeterModel, MeterState,
};
use crate::runtime_data::RuntimeData;
use crate::text::labelled;
use crate::timer::{timed_line, Timer};

verus! {

/// What the host adapter is to do with the samples of a block.
#[derive(Clone, Copy, Debug, PartialEq, Eq, Structural)]
pub struct BlockPlan {
    /// Hold the samples to the range from -1 to 1 first.
    pub clip: bool,
    /// Feed the samples to the integrator: it is ready for them.
    pub feed: bool,
    /// Take back the request for a reset: it has been served.
    pub clear_reset: bool,
}

/// What a meter runtime is, to its callers.
pub struct RuntimeModel {
    pub sample_rate: u32,
    pub buffer_size: usize,
    pub channels: usize,
    pub last_playing: bool,
    pub clip: bool,
    pub meter: MeterModel,
    /// How often the time that the meter has been active was started over.
    pub restarts: nat,
}

impl RuntimeModel {
    /// The runtime after the host has fixed the sample rate.
    pub open spec fn initialized(self, sample_rate: u32) -> RuntimeModel {
        RuntimeModel { sample_rate, ..self }
    }

    /// The runtime after a reset of its meter for the channels and the
    /// sample rate on record. Where an integrator can be made, the meter
    /// holds a new one and the figures of silence, and its active time
    /// starts over. Where none can be made, nothing changes.
    pub open spec fn reset(self) -> RuntimeModel {
        if config_check(self.channels, self.sample_rate) is Ok {
            RuntimeModel {
                meter: self.meter.reset(self.channels, self.sample_rate),
                restarts: self.restarts + 1,
                ..self
            }
        } else {
            self
        }
    }

    /// Whether playback has just started and a reset is wanted for that.
    pub open spec fn starts_playing(self, reset_on_play: bool, playing: bool) -> bool {
        reset_on_play && !self.last_playing && playing
    }

    /// The runtime at the start of a block, before any sample is fed. The
    /// size and the channels of the block go on record; the meter is reset
    /// where playback has just started and that asks for one, and again
    /// where a reset was requested; then, where it is not ready for the
    /// block, it is reset once more.
    pub open spec fn begun(
        self,
        frames: usize,
        channels: usize,
        reset_on_play: bool,
        playing: bool,
        reset_requested: bool,
    ) -> RuntimeModel {
        let recorded = RuntimeModel { buffer_size: frames, channels, ..self };
        let on_play = if self.starts_playing(reset_on_play, playing) {
            recorded.reset()
        } else {
            recorded
        };
        let on_request = if reset_requested {
            on_play.reset()
        } else {
            on_play
        };
        let ready = if on_request.meter.ready_for(channels, self.sample_rate) {
            on_request
        } else {
            on_request.reset()
        };
        RuntimeModel { last_playing: playing, ..ready }
    }

    /// The plan for the samples of the block just begun.
    pub open spec fn plan(self, reset_requested: bool) -> BlockPlan {
        BlockPlan {
            feed: self.meter.ready_for(self.channels, self.sample_rate),
            clip: self.clip,
            clear_reset: reset_requested,
        }
    }

    /// The runtime with `integrator` in place of the one its meter holds, as
    /// after samples were fed to it.
    pub open spec fn holding(self, integrator: EbuR128) -> RuntimeModel {
        RuntimeModel { meter: self.meter.holding(integrator), ..self }
    }

    /// The runtime after the figures were read with `outcome`.
    pub open spec fn collected(self, outcome: Result<LoudnessStats, MeterError>) -> RuntimeModel {
        RuntimeModel { meter: self.meter.refreshed(outcome), ..self }
    }

    /// What is published, given the smoothed block time and the time that
    /// the meter has been active.
    pub open spec fn published(self, run_ms: u32, active_time_nanos: u128) -> RuntimeData {
        RuntimeData {
            sample_rate: self.sample_rate,
            buffer_size: self.buffer_size,
            channels: self.channels,
            run_ms,
            active_time_nanos,
            lufs_global_loudness: self.meter.stats.global,
            lufs_momentary_loudness: self.meter.stats.momentary,
            lufs_range_loudness: self.meter.stats.range,
            lufs_shortterm_loudness: self.meter.stats.shortterm,
        }
    }
}

/// Resetting the runtime twice in a row leaves its meter as resetting it
/// once: what is published after the second reset is what is published
/// after the first. Where an integrator can be made, those are the figures
/// of silence, the meter holds a new integrator, and each of the two resets
/// starts the active time over.
pub proof fn lemma_reset_twice(runtime: RuntimeModel, run_ms: u32, active_time_nanos: u128)
    ensures
        runtime.reset().reset().meter == runtime.reset().meter,
        runtime.reset().reset().published(run_ms, active_time_nanos) == runtime.reset().published(
            run_ms,
            active_time_nanos,
        ),
        config_check(runtime.channels, runtime.sample_rate) is Ok ==> {
            &&& runtime.reset().published(run_ms, active_time_nanos).loudness()
                == LoudnessStats::baseline()
            &&& runtime.reset().meter.held == Some(
                built(runtime.channels as u32, runtime.sample_rate),
            )
            &&& runtime.reset().restarts == runtime.restarts + 1
            &&& runtime.reset().reset().restarts == runtime.restarts + 2
        },
        config_check(runtime.channels, runtime.sample_rate) is Err ==> runtime.reset() == runtime,
{
}

/// After a reset that can make an integrator, nothing is left of what came
/// before: two runtimes on record for the same block, whatever each has
/// measured, hold the same meter afterwards, and go on to read the same
/// figures once their integrators were fed alike.
pub proof fn lemma_reset_forgets(a: RuntimeModel, b: RuntimeModel, fed: EbuR128)
    requires
        a.channels == b.channels,
        a.sample_rate == b.sample_rate,
        config_check(a.channels, a.sample_rate) is Ok,
    ensures
        a.reset().meter == b.reset().meter,
        a.reset().holding(fed).meter.read(Ok(())) == b.reset().holding(fed).meter.read(Ok(())),
{
}

/// The runtime of the loudness meter.
pub struct Runtime {
    pub console: Option<ConsoleSender>,
    sample_rate: u32,
    buffer_size: usize,
    channels: usize,
    last_playing: bool,
    active_time: Timer,
    meter: LoudnessMeter,
    clip: bool,
}

impl View for Runtime {
    type V = RuntimeModel;

    closed spec fn view(&self) -> RuntimeModel {
        RuntimeModel {
            sample_rate: self.sample_rate,
            buffer_size: self.buffer_size,
            channels: self.channels,
            last_playing: self.last_playing,
            clip: self.clip,
            meter: self.meter@,
            restarts: self.active_time.restarts(),
        }
    }
}

impl Runtime {
    /// A runtime that knows nothing yet. `clip` says whether the samples of
    /// each block are to be held to the range from -1 to 1.
    pub fn new(console: Option<ConsoleSender>, clip: bool) -> (runtime: Runtime)
        ensures
            runtime@ == (RuntimeModel {
                sample_rate: 0,
                buffer_size: 0,
                channels: 0,
                last_playing: false,
                clip,
                meter: MeterModel {
                    state: MeterState::Uninitialized,
                    stats: LoudnessStats::zero(),
                    held: None,
                },
                restarts: 0,
            }),
    {
        Runtime {
            console,
            sample_rate: 0,
            buffer_size: 0,
            channels: 0,
            last_playing: false,
            active_time: Timer::new(),
            meter: LoudnessMeter::new(),
            clip,
        }
    }

    /// Takes note of the sample rate, in Hz, once the host has fixed it.
    pub fn init(&mut self, sample_rate: u32)
        ensures
            final(self)@ == old(self)@.initialized(sample_rate),
    {
        let execute_timer = Timer::new();
        self.sample_rate = sample_rate;
        self.log(timed_line("Init", execute_timer.elapsed_nanos()));
    }

    /// Starts the measurement over: a new integrator, the figures of
    /// silence, and the active time from now. A meter that cannot be made
    /// for the channels and the sample rate on record stays as it is, and
    /// the failure goes to the console.
    pub fn reset(&mut self)
        ensures
            final(self)@ == old(self)@.reset(),
    {
        let execute_timer = Timer::new();
        match self.reset_meter() {
            Ok(()) => (),
            Err(e) => {
                let reason = e.message();
                self.log(labelled("Failed to reset meter: ", reason.as_str()));
            },
        }
        self.log(timed_line("Reset", execute_timer.elapsed_nanos()));
    }

    /// Begins a block of `frames` frames on `channels` channels, and says
    /// what is to be done with its samples.
    pub fn run(
        &mut self,
        frames: usize,
        channels: usize,
        reset_on_play: bool,
        playing: bool,
        reset_requested: bool,
    ) -> (plan: BlockPlan)
        ensures
            final(self)@ == old(self)@.begun(
                frames,
                channels,
                reset_on_play,
                playing,
                reset_requested,
            ),
            plan == final(self)@.plan(reset_requested),
    {
        self.buffer_size = frames;
        self.channels = channels;
        if reset_on_play && !self.last_playing && playing {
            match self.reset_meter() {
                Ok(()) => (),
                Err(e) => {
                    let reason = e.message();
                    self.log(labelled("Failed to reset meter: ", reason.as_str()));
                },
            }
        }
        self.last_playing = playing;
        if reset_requested {
            match self.reset_meter() {
                Ok(()) => (),
                Err(e) => {
                    let reason = e.message();
                    self.log(labelled("Couldn't refresh EbuR128: ", reason.as_str()));
                },
            }
        }
        let feed = if self.meter.is_ready_for(self.channels, self.sample_rate) {
            true
        } else {
            match self.reset_meter() {
                Ok(()) => true,
                Err(e) => {
                    let reason = e.message();
                    self.log(labelled("Failed to run EbuR128: ", reason.as_str()));
                    false
                },
            }
        };
        BlockPlan { feed, clip: self.clip, clear_reset: reset_requested }
    }

    /// The integrator, for feeding it the samples of the block. The meter
    /// then holds it as the caller leaves it; nothing else changes.
    pub fn integrator_mut(&mut self) -> (integrator: Option<&mut EbuR128>)
        ensures
            match integrator {
                Some(lent) => old(self)@.meter.held == Some(*lent) && final(self)@ == old(
                    self,
                )@.holding(*final(lent)),
                None => old(self)@.meter.held is None && final(self)@ == old(self)@,
            },
    {
        self.meter.integrator_mut()
    }

    /// Reads the figures after the samples of the block were fed with the
    /// outcome `fed`: the four readings of the integrator held. New figures
    /// replace the old ones all at once; after any failure the old ones
    /// stay, and the failure goes to the console.
    pub fn run_ebur128(&mut self, fed: Result<(), MeterError>) -> (r: Result<LoudnessStats, MeterError>)
        ensures
            r == old(self)@.meter.read(fed),
            final(self)@ == old(self)@.collected(r),
    {
        let outcome = self.meter.refresh(fed);
        match outcome {
            Ok(_) => (),
            Err(e) => {
                let reason = e.message();
                self.log(labelled("Failed to run EbuR128: ", reason.as_str()));
            },
        }
        outcome
    }

    /// The figures to publish. `run_ms` is the smoothed block time.
    pub fn update_values(&self, run_ms: u32) -> (data: RuntimeData)
        ensures
            exists|active_time_nanos: u128| data == #[trigger] self@.published(run_ms, active_time_nanos),
    {
        let active_time_nanos = self.active_time.elapsed_nanos();
        let data = RuntimeData {
            sample_rate: self.sample_rate,
            buffer_size: self.buffer_size,
            channels: self.channels,
            run_ms,
            active_time_nanos,
            lufs_global_loudness: self.meter.stats().global,
            lufs_momentary_loudness: self.meter.stats().momentary,
            lufs_range_loudness: self.meter.stats().range,
            lufs_shortterm_loudness: self.meter.stats().shortterm,
        };
        assert(data == self@.published(run_ms, active_time_nanos));
        data
    }

    fn reset_meter(&mut self) -> (r: Result<(), MeterError>)
        ensures
            r == config_check(old(self)@.channels, old(self)@.sample_rate),
            final(self)@ == old(self)@.reset(),
    {
        let r = self.meter.reset(self.channels, self.sample_rate);
        if r.is_ok() {
            self.active_time.reset();
        }
        r
    }

    fn log(&self, message: String) {
        log_to(&self.console, message);
    }
}

} // verus!
