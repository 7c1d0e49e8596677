//! The loudness meter: the life cycle of an EBU R128 integrator and the four
//! figures last read from it.
//!
//! Loudness figures are double-precision numbers. This module never computes
//! with them; it carries each as its 64-bit pattern, from the integrator to
//! whoever displays it.

use vstd::prelude::*;
use vstd::string::*;
use ebur128::EbuR128;

verus! {

/// `ebur128::EbuR128`, the integrator. Nothing of its inside is known here.
#[verifier::external_type_specification]
#[verifier::external_body]
pub struct ExEbuR128(EbuR128);

/// `ebur128::Error`, with its three variants.
#[verifier::external_type_specification]
pub struct ExFault(ebur128::Error);

/// The most channels that an integrator takes.
pub const MAX_CHANNELS: usize = 64;

/// The lowest sample rate that an integrator takes, in Hz.
pub const MIN_RATE: u32 = 16;

/// The highest sample rate that an integrator takes, in Hz.
pub const MAX_RATE: u32 = 2822400;

/// The pattern of negative infinity: the loudness of silence.
pub const SILENCE: u64 = 0xFFF0_0000_0000_0000;

/// Frames of filtered audio that an integrator keeps for a three-second
/// window at `rate`: three seconds' worth, rounded up to a whole number of
/// tenths of a second.
pub open spec fn window_frames(rate: u32) -> int {
    let tenth = (rate + 5) / 10;
    let frames = rate * 3;
    if frames % tenth == 0 {
        frames
    } else {
        frames + tenth - frames % tenth
    }
}

/// Whether an integrator can be made for `channels` channels at `rate` Hz:
/// both lie in the range that the integrator takes, and the sizes of its
/// buffers can be counted on this machine.
pub open spec fn supported(channels: u32, rate: u32) -> bool {
    &&& 1 <= channels <= MAX_CHANNELS
    &&& MIN_RATE <= rate <= MAX_RATE
    &&& rate * 3000 <= usize::MAX
    &&& rate * 3 + (rate + 5) / 10 <= usize::MAX || (rate * 3) % ((rate + 5) / 10) == 0
    &&& window_frames(rate) * channels <= usize::MAX
}

/// The integrator that `EbuR128::new` makes for `channels` channels at
/// `rate` Hz with every mode switched on, where it makes one: a new one that
/// has heard nothing.
pub uninterp spec fn built(channels: u32, rate: u32) -> EbuR128;

/// What `EbuR128::loudness_global` reads from `integrator`, the figure as
/// its bit pattern.
pub uninterp spec fn global_reading(integrator: EbuR128) -> Result<u64, ebur128::Error>;

/// What `EbuR128::loudness_momentary` reads from `integrator`, the figure as
/// its bit pattern.
pub uninterp spec fn momentary_reading(integrator: EbuR128) -> Result<u64, ebur128::Error>;

/// What `EbuR128::loudness_range` reads from `integrator`, the figure as its
/// bit pattern.
pub uninterp spec fn range_reading(integrator: EbuR128) -> Result<u64, ebur128::Error>;

/// What `EbuR128::loudness_shortterm` reads from `integrator`, the figure as
/// its bit pattern.
pub uninterp spec fn shortterm_reading(integrator: EbuR128) -> Result<u64, ebur128::Error>;

/// `EbuR128::new` with every mode switched on. It refuses, with `NoMem`, a
/// channel count of zero or above 64, a rate below 16 Hz or above 2822400 Hz,
/// and a configuration whose buffer sizes overflow `usize`; everything else it
/// accepts. With every mode on, it has no other way to fail. What it makes
/// depends on the two numbers alone, and has the name [`built`].
#[verifier::external_body]
fn build_integrator(channels: u32, rate: u32) -> (r: Result<EbuR128, ebur128::Error>)
    ensures
        r is Ok <==> supported(channels, rate),
        r matches Err(fault) ==> fault == ebur128::Error::NoMem,
        r matches Ok(made) ==> made == built(channels, rate),
{
    EbuR128::new(channels, rate, ebur128::Mode::all())
}

/// `EbuR128::loudness_global`, the figure as its bit pattern. The reading
/// depends on the integrator alone, on all that it was fed, and has the name
/// [`global_reading`].
#[verifier::external_body]
fn global_bits(integrator: &EbuR128) -> (r: Result<u64, ebur128::Error>)
    ensures
        r == global_reading(*integrator),
{
    match integrator.loudness_global() {
        Ok(v) => Ok(v.to_bits()),
        Err(e) => Err(e),
    }
}

/// `EbuR128::loudness_momentary`, the figure as its bit pattern. The reading
/// depends on the integrator alone and has the name [`momentary_reading`].
#[verifier::external_body]
fn momentary_bits(integrator: &EbuR128) -> (r: Result<u64, ebur128::Error>)
    ensures
        r == momentary_reading(*integrator),
{
    match integrator.loudness_momentary() {
        Ok(v) => Ok(v.to_bits()),
        Err(e) => Err(e),
    }
}

/// `EbuR128::loudness_range`, the figure as its bit pattern. The reading
/// depends on the integrator alone and has the name [`range_reading`].
#[verifier::external_body]
fn range_bits(integrator: &EbuR128) -> (r: Result<u64, ebur128::Error>)
    ensures
        r == range_reading(*integrator),
{
    match integrator.loudness_range() {
        Ok(v) => Ok(v.to_bits()),
        Err(e) => Err(e),
    }
}

/// `EbuR128::loudness_shortterm`, the figure as its bit pattern. The reading
/// depends on the integrator alone and has the name [`shortterm_reading`].
#[verifier::external_body]
fn shortterm_bits(integrator: &EbuR128) -> (r: Result<u64, ebur128::Error>)
    ensures
        r == shortterm_reading(*integrator),
{
    match integrator.loudness_shortterm() {
        Ok(v) => Ok(v.to_bits()),
        Err(e) => Err(e),
    }
}

/// Why the meter could not do what was asked.
#[derive(Clone, Copy, Debug, PartialEq, Eq, Structural)]
pub enum MeterError {
    /// There is no channel to measure.
    NoChannels,
    /// The sample rate is not known yet.
    NoSampleRate,
    /// There is no integrator to feed or to read.
    Uninitialized,
    /// The integrator cannot be made for this configuration.
    NoMem,
    /// The integrator was not made for the figure asked of it.
    InvalidMode,
    /// A channel outside those of the integrator was named.
    InvalidChannelIndex,
}

impl MeterError {
    /// The error of the meter that stands for a fault of the integrator.
    pub open spec fn of_fault(fault: ebur128::Error) -> MeterError {
        match fault {
            ebur128::Error::NoMem => MeterError::NoMem,
            ebur128::Error::InvalidMode => MeterError::InvalidMode,
            ebur128::Error::InvalidChannelIndex => MeterError::InvalidChannelIndex,
        }
    }

    pub fn from_fault(fault: ebur128::Error) -> (e: MeterError)
        ensures
            e == MeterError::of_fault(fault),
    {
        match fault {
            ebur128::Error::NoMem => MeterError::NoMem,
            ebur128::Error::InvalidMode => MeterError::InvalidMode,
            ebur128::Error::InvalidChannelIndex => MeterError::InvalidChannelIndex,
        }
    }

    /// The words for this error in a log line.
    pub open spec fn text(self) -> Seq<char> {
        match self {
            MeterError::NoChannels => "No channels"@,
            MeterError::NoSampleRate => "No sample rate"@,
            MeterError::Uninitialized => "No EbuR128"@,
            MeterError::NoMem => "NoMem"@,
            MeterError::InvalidMode => "Invalid Mode"@,
            MeterError::InvalidChannelIndex => "Invalid Channel Index"@,
        }
    }

    pub fn message(&self) -> (s: String)
        ensures
            s@ == self.text(),
    {
        match self {
            MeterError::NoChannels => String::from_str("No channels"),
            MeterError::NoSampleRate => String::from_str("No sample rate"),
            MeterError::Uninitialized => String::from_str("No EbuR128"),
            MeterError::NoMem => String::from_str("NoMem"),
            MeterError::InvalidMode => String::from_str("Invalid Mode"),
            MeterError::InvalidChannelIndex => String::from_str("Invalid Channel Index"),
        }
    }
}

/// The four loudness figures, each as the bit pattern of a double-precision
/// number: integrated, momentary and short-term loudness in LUFS, and the
/// loudness range in LU.
#[derive(Clone, Copy, Debug, PartialEq, Eq, Structural)]
pub struct LoudnessStats {
    pub global: u64,
    pub momentary: u64,
    pub range: u64,
    pub shortterm: u64,
}

impl LoudnessStats {
    /// The figures before anything was measured: all zero.
    pub open spec fn zero() -> LoudnessStats {
        LoudnessStats { global: 0, momentary: 0, range: 0, shortterm: 0 }
    }

    /// The figures of an integrator that has heard nothing: no loudness at
    /// all, and no range.
    pub open spec fn baseline() -> LoudnessStats {
        LoudnessStats { global: SILENCE, momentary: SILENCE, range: 0, shortterm: SILENCE }
    }

    /// What four readings amount to: the figures if all four were read, else
    /// the first failure in the order global, momentary, range, short-term.
    pub open spec fn gathered(
        global: Result<u64, MeterError>,
        momentary: Result<u64, MeterError>,
        range: Result<u64, MeterError>,
        shortterm: Result<u64, MeterError>,
    ) -> Result<LoudnessStats, MeterError> {
        match (global, momentary, range, shortterm) {
            (Ok(g), Ok(m), Ok(r), Ok(s)) => Ok(
                LoudnessStats { global: g, momentary: m, range: r, shortterm: s },
            ),
            (Err(e), _, _, _) => Err(e),
            (_, Err(e), _, _) => Err(e),
            (_, _, Err(e), _) => Err(e),
            (_, _, _, Err(e)) => Err(e),
        }
    }

    pub fn new() -> (stats: LoudnessStats)
        ensures
            stats == LoudnessStats::zero(),
    {
        LoudnessStats { global: 0, momentary: 0, range: 0, shortterm: 0 }
    }

    pub fn silent() -> (stats: LoudnessStats)
        ensures
            stats == LoudnessStats::baseline(),
    {
        LoudnessStats { global: SILENCE, momentary: SILENCE, range: 0, shortterm: SILENCE }
    }

    /// Puts four readings together: all of them, or the first failure.
    pub fn gather(
        global: Result<u64, MeterError>,
        momentary: Result<u64, MeterError>,
        range: Result<u64, MeterError>,
        shortterm: Result<u64, MeterError>,
    ) -> (r: Result<LoudnessStats, MeterError>)
        ensures
            r == LoudnessStats::gathered(global, momentary, range, shortterm),
    {
        let g = match global {
            Ok(g) => g,
            Err(e) => {
                return Err(e);
            },
        };
        let m = match momentary {
            Ok(m) => m,
            Err(e) => {
                return Err(e);
            },
        };
        let r = match range {
            Ok(r) => r,
            Err(e) => {
                return Err(e);
            },
        };
        let s = match shortterm {
            Ok(s) => s,
            Err(e) => {
                return Err(e);
            },
        };
        Ok(LoudnessStats { global: g, momentary: m, range: r, shortterm: s })
    }
}

/// Where the meter stands: without an integrator, or with one made for a
/// channel count and a sample rate.
#[derive(Clone, Copy, Debug, PartialEq, Eq, Structural)]
pub enum MeterState {
    Uninitialized,
    Active { channels: usize, sample_rate: u32 },
}

/// What the meter is, to its callers: its state, the figures it holds, and
/// the integrator it holds.
pub struct MeterModel {
    pub state: MeterState,
    pub stats: LoudnessStats,
    pub held: Option<EbuR128>,
}

/// The outcome of asking for an integrator for `channels` channels at
/// `sample_rate` Hz: nothing where one can be made, else the reason.
pub open spec fn config_check(channels: usize, sample_rate: u32) -> Result<(), MeterError> {
    if channels == 0 {
        Err(MeterError::NoChannels)
    } else if sample_rate == 0 {
        Err(MeterError::NoSampleRate)
    } else if channels > MAX_CHANNELS || !supported(channels as u32, sample_rate) {
        Err(MeterError::NoMem)
    } else {
        Ok(())
    }
}

impl MeterModel {
    /// The meter after a reset for the given configuration. Where an
    /// integrator can be made, the meter holds a new one in place of the
    /// one it had, is active for the configuration, and holds the figures of
    /// silence, whatever it held before. Where none can be made, nothing
    /// changes.
    pub open spec fn reset(self, channels: usize, sample_rate: u32) -> MeterModel {
        if config_check(channels, sample_rate) is Ok {
            MeterModel {
                state: MeterState::Active { channels, sample_rate },
                stats: LoudnessStats::baseline(),
                held: Some(built(channels as u32, sample_rate)),
            }
        } else {
            self
        }
    }

    /// The meter made ready for a block of the given configuration: as it is
    /// where its integrator was made for that configuration, else reset.
    pub open spec fn prepared(self, channels: usize, sample_rate: u32) -> MeterModel {
        if self.ready_for(channels, sample_rate) {
            self
        } else {
            self.reset(channels, sample_rate)
        }
    }

    /// Whether the meter is ready for a block of the given configuration.
    pub open spec fn ready_for(self, channels: usize, sample_rate: u32) -> bool {
        self.state == (MeterState::Active { channels, sample_rate })
    }

    /// The meter with `integrator` in place of the one it holds, as after
    /// samples were fed to it.
    pub open spec fn holding(self, integrator: EbuR128) -> MeterModel {
        MeterModel { held: Some(integrator), ..self }
    }

    /// What reading the meter gives after a feed that ended in `fed`: the
    /// failure of the feed; else, without an integrator, that there is none;
    /// else the four readings of the integrator held, all of them or the
    /// first failure among them.
    pub open spec fn read(self, fed: Result<(), MeterError>) -> Result<LoudnessStats, MeterError> {
        match fed {
            Err(e) => Err(e),
            Ok(_) => match self.held {
                None => Err(MeterError::Uninitialized),
                Some(integrator) => LoudnessStats::gathered(
                    converted(global_reading(integrator)),
                    converted(momentary_reading(integrator)),
                    converted(range_reading(integrator)),
                    converted(shortterm_reading(integrator)),
                ),
            },
        }
    }

    /// The meter after an attempt to read it that ended in `outcome`: new
    /// figures replace the old ones, a failure leaves them.
    pub open spec fn refreshed(self, outcome: Result<LoudnessStats, MeterError>) -> MeterModel {
        match outcome {
            Ok(stats) => MeterModel { stats, ..self },
            Err(_) => self,
        }
    }
}

/// A configuration that an integrator can be made for stays one with fewer
/// channels, as long as there is a channel left.
pub proof fn lemma_fewer_channels_supported(fewer: usize, more: usize, sample_rate: u32)
    requires
        1 <= fewer <= more,
        config_check(more, sample_rate) is Ok,
    ensures
        config_check(fewer, sample_rate) is Ok,
{
    let frames = window_frames(sample_rate);
    assert(frames * fewer <= frames * more) by (nonlinear_arith)
        requires
            0 <= frames,
            0 <= fewer <= more,
    ;
}

/// Resetting twice is resetting once: the second reset of a meter, for the
/// same configuration, leaves it exactly as the first one did. Where an
/// integrator can be made, that is with a new integrator and the figures of
/// silence, and so it is for any two meters, whatever each went through
/// before.
pub proof fn lemma_reset_idempotent(
    meter: MeterModel,
    other: MeterModel,
    channels: usize,
    sample_rate: u32,
)
    ensures
        meter.reset(channels, sample_rate).reset(channels, sample_rate) == meter.reset(
            channels,
            sample_rate,
        ),
        config_check(channels, sample_rate) is Ok ==> meter.reset(channels, sample_rate).stats
            == LoudnessStats::baseline(),
        config_check(channels, sample_rate) is Ok ==> meter.reset(channels, sample_rate).held
            == Some(built(channels as u32, sample_rate)),
        config_check(channels, sample_rate) is Ok ==> meter.reset(channels, sample_rate)
            == other.reset(channels, sample_rate),
{
}

/// A change of the channel count or of the sample rate does away with what
/// was measured before: the meter made ready for the new configuration holds
/// a new integrator made for it and the figures of silence, whatever it held,
/// and the figures read next are those of the integrator that it holds then.
pub proof fn lemma_config_change_starts_over(
    meter: MeterModel,
    other: MeterModel,
    channels: usize,
    sample_rate: u32,
    fed: EbuR128,
)
    requires
        !meter.ready_for(channels, sample_rate),
        !other.ready_for(channels, sample_rate),
        config_check(channels, sample_rate) is Ok,
    ensures
        meter.prepared(channels, sample_rate).ready_for(channels, sample_rate),
        meter.prepared(channels, sample_rate).held == Some(built(channels as u32, sample_rate)),
        meter.prepared(channels, sample_rate).stats == LoudnessStats::baseline(),
        meter.prepared(channels, sample_rate) == other.prepared(channels, sample_rate),
        ({
            let after = meter.prepared(channels, sample_rate).holding(fed);
            let reading = after.read(Ok(()));
            &&& reading == other.prepared(channels, sample_rate).holding(fed).read(Ok(()))
            &&& reading matches Ok(stats) ==> after.refreshed(reading).stats == stats
        }),
{
}

/// An EBU R128 integrator together with what it was made for and the figures
/// last read from it.
pub struct LoudnessMeter {
    integrator: Option<EbuR128>,
    channels: usize,
    sample_rate: u32,
    stats: LoudnessStats,
}

impl View for LoudnessMeter {
    type V = MeterModel;

    closed spec fn view(&self) -> MeterModel {
        MeterModel {
            state: if self.integrator is Some {
                MeterState::Active { channels: self.channels, sample_rate: self.sample_rate }
            } else {
                MeterState::Uninitialized
            },
            stats: self.stats,
            held: self.integrator,
        }
    }
}

impl LoudnessMeter {
    /// A meter without an integrator, all figures zero.
    pub fn new() -> (meter: LoudnessMeter)
        ensures
            meter@ == (MeterModel {
                state: MeterState::Uninitialized,
                stats: LoudnessStats::zero(),
                held: None,
            }),
    {
        LoudnessMeter { integrator: None, channels: 0, sample_rate: 0, stats: LoudnessStats::new() }
    }

    /// Throws the integrator away and makes a new one for the given
    /// configuration. A configuration that no integrator can be made for
    /// leaves the meter as it was, with the integrator it had, and is
    /// reported.
    pub fn reset(&mut self, channels: usize, sample_rate: u32) -> (r: Result<(), MeterError>)
        ensures
            r == config_check(channels, sample_rate),
            final(self)@ == old(self)@.reset(channels, sample_rate),
    {
        if channels == 0 {
            return Err(MeterError::NoChannels);
        }
        if sample_rate == 0 {
            return Err(MeterError::NoSampleRate);
        }
        if channels > MAX_CHANNELS {
            return Err(MeterError::NoMem);
        }
        match build_integrator(channels as u32, sample_rate) {
            Ok(integrator) => {
                self.integrator = Some(integrator);
                self.channels = channels;
                self.sample_rate = sample_rate;
                self.stats = LoudnessStats::silent();
                Ok(())
            },
            Err(fault) => Err(MeterError::from_fault(fault)),
        }
    }

    /// Makes the meter ready for a block of the given configuration: keeps
    /// the integrator where it was made for just that, and makes a new one
    /// otherwise.
    pub fn prepare(&mut self, channels: usize, sample_rate: u32) -> (r: Result<(), MeterError>)
        ensures
            final(self)@ == old(self)@.prepared(channels, sample_rate),
            r is Ok <==> final(self)@.ready_for(channels, sample_rate),
            r is Err ==> r == config_check(channels, sample_rate),
    {
        if self.is_ready_for(channels, sample_rate) {
            Ok(())
        } else {
            self.reset(channels, sample_rate)
        }
    }

    /// Whether the integrator was made for just this configuration.
    pub fn is_ready_for(&self, channels: usize, sample_rate: u32) -> (ready: bool)
        ensures
            ready == self@.ready_for(channels, sample_rate),
    {
        self.integrator.is_some() && self.channels == channels && self.sample_rate == sample_rate
    }

    /// The integrator, for feeding it. The meter then holds it as the
    /// caller leaves it; nothing else of the meter changes.
    pub fn integrator_mut(&mut self) -> (integrator: Option<&mut EbuR128>)
        ensures
            match integrator {
                Some(lent) => old(self)@.held == Some(*lent) && final(self)@ == old(
                    self,
                )@.holding(*final(lent)),
                None => old(self)@.held is None && final(self)@ == old(self)@,
            },
    {
        self.integrator.as_mut()
    }

    /// Reads the four figures after a feed that ended in `fed`. The figures
    /// are taken over all at once or not at all: after a failed feed, without
    /// an integrator, or where a reading fails, the meter keeps what it had.
    pub fn refresh(&mut self, fed: Result<(), MeterError>) -> (r: Result<LoudnessStats, MeterError>)
        ensures
            r == old(self)@.read(fed),
            final(self)@ == old(self)@.refreshed(r),
    {
        if let Err(e) = fed {
            return Err(e);
        }
        let outcome = match &self.integrator {
            None => Err(MeterError::Uninitialized),
            Some(integrator) => {
                let global = convert(global_bits(integrator));
                let momentary = convert(momentary_bits(integrator));
                let range = convert(range_bits(integrator));
                let shortterm = convert(shortterm_bits(integrator));
                LoudnessStats::gather(global, momentary, range, shortterm)
            },
        };
        if let Ok(stats) = outcome {
            self.stats = stats;
        }
        outcome
    }

    /// The figures last read.
    pub fn stats(&self) -> (stats: LoudnessStats)
        ensures
            stats == self@.stats,
    {
        self.stats
    }

    /// Whether the meter has an integrator.
    pub fn is_active(&self) -> (active: bool)
        ensures
            active == (self@.state != MeterState::Uninitialized),
            active == (self@.held is Some),
    {
        self.integrator.is_some()
    }
}

/// A reading with the fault, if any, in the meter's own terms.
pub open spec fn converted(reading: Result<u64, ebur128::Error>) -> Result<u64, MeterError> {
    match reading {
        Ok(bits) => Ok(bits),
        Err(fault) => Err(MeterError::of_fault(fault)),
    }
}

fn convert(reading: Result<u64, ebur128::Error>) -> (r: Result<u64, MeterError>)
    ensures
        r == converted(reading),
{
    match reading {
        Ok(bits) => Ok(bits),
        Err(fault) => Err(MeterError::from_fault(fault)),
    }
}

} // verus!
