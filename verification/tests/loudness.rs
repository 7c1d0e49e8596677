use mlem_runtime::loudness::{
    LoudnessMeter, LoudnessStats, MeterError, MAX_CHANNELS, MAX_RATE, MIN_RATE, SILENCE,
};

fn feed(meter: &mut LoudnessMeter, samples: &[f32]) -> Result<(), MeterError> {
    match meter.integrator_mut() {
        Some(integrator) => integrator.add_frames_f32(samples).map_err(MeterError::from_fault),
        None => Err(MeterError::Uninitialized),
    }
}

fn sine(frames: usize, channels: usize, rate: f32) -> Vec<f32> {
    let mut samples = Vec::with_capacity(frames * channels);
    for frame in 0..frames {
        let value = (2.0 * std::f32::consts::PI * 1000.0 * frame as f32 / rate).sin();
        for _ in 0..channels {
            samples.push(value);
        }
    }
    samples
}

#[test]
fn silence_is_negative_infinity() {
    assert_eq!(f64::from_bits(SILENCE), f64::NEG_INFINITY);
    let baseline = LoudnessStats::silent();
    assert_eq!(f64::from_bits(baseline.global), f64::NEG_INFINITY);
    assert_eq!(f64::from_bits(baseline.momentary), f64::NEG_INFINITY);
    assert_eq!(f64::from_bits(baseline.shortterm), f64::NEG_INFINITY);
    assert_eq!(f64::from_bits(baseline.range), 0.0);
    let zero = LoudnessStats::new();
    assert_eq!(zero, LoudnessStats { global: 0, momentary: 0, range: 0, shortterm: 0 });
}

#[test]
fn new_meter_is_idle() {
    let mut meter = LoudnessMeter::new();
    assert!(!meter.is_active());
    assert!(meter.integrator_mut().is_none());
    assert_eq!(meter.stats(), LoudnessStats::new());
}

#[test]
fn reset_without_channels_fails() {
    let mut meter = LoudnessMeter::new();
    assert_eq!(meter.reset(0, 48000), Err(MeterError::NoChannels));
    assert_eq!(meter.reset(0, 0), Err(MeterError::NoChannels));
    assert!(!meter.is_active());
    assert_eq!(meter.stats(), LoudnessStats::new());
}

#[test]
fn reset_without_a_sample_rate_fails() {
    let mut meter = LoudnessMeter::new();
    assert_eq!(meter.reset(2, 0), Err(MeterError::NoSampleRate));
    assert!(!meter.is_active());
}

#[test]
fn reset_outside_what_the_integrator_takes_fails() {
    let mut meter = LoudnessMeter::new();
    assert_eq!(meter.reset(MAX_CHANNELS + 1, 48000), Err(MeterError::NoMem));
    assert_eq!(meter.reset(usize::MAX, 48000), Err(MeterError::NoMem));
    assert_eq!(meter.reset(2, MIN_RATE - 1), Err(MeterError::NoMem));
    assert_eq!(meter.reset(2, MAX_RATE + 1), Err(MeterError::NoMem));
    assert_eq!(meter.reset(2, u32::MAX), Err(MeterError::NoMem));
    assert!(!meter.is_active());
}

#[test]
fn reset_at_the_edges_of_what_the_integrator_takes() {
    let mut meter = LoudnessMeter::new();
    assert_eq!(meter.reset(1, MIN_RATE), Ok(()));
    assert_eq!(meter.integrator_mut().unwrap().channels(), 1);
    assert_eq!(meter.integrator_mut().unwrap().rate(), MIN_RATE);
    assert_eq!(meter.reset(MAX_CHANNELS, 48000), Ok(()));
    assert_eq!(meter.integrator_mut().unwrap().channels(), 64);
    assert_eq!(meter.reset(1, MAX_RATE), Ok(()));
    assert_eq!(meter.integrator_mut().unwrap().rate(), MAX_RATE);
}

#[test]
fn failed_reset_keeps_the_integrator_and_the_figures() {
    let mut meter = LoudnessMeter::new();
    assert_eq!(meter.reset(2, 48000), Ok(()));
    assert_eq!(feed(&mut meter, &sine(48000, 2, 48000.0)), Ok(()));
    let before = meter.refresh(Ok(())).unwrap();
    assert_eq!(meter.reset(0, 48000), Err(MeterError::NoChannels));
    assert!(meter.is_active());
    assert_eq!(meter.stats(), before);
    assert_eq!(meter.refresh(Ok(())), Ok(before));
}

#[test]
fn fresh_integrator_reads_the_baseline() {
    let mut meter = LoudnessMeter::new();
    assert_eq!(meter.reset(2, 48000), Ok(()));
    assert_eq!(meter.stats(), LoudnessStats::silent());
    assert_eq!(meter.refresh(Ok(())), Ok(LoudnessStats::silent()));
}

#[test]
fn refresh_replaces_the_figures() {
    let mut meter = LoudnessMeter::new();
    assert_eq!(meter.reset(1, 48000), Ok(()));
    assert_eq!(feed(&mut meter, &sine(48000, 1, 48000.0)), Ok(()));
    let stats = meter.refresh(Ok(())).unwrap();
    assert_eq!(meter.stats(), stats);
    let global = f64::from_bits(stats.global);
    let momentary = f64::from_bits(stats.momentary);
    // A full-scale sine at 1 kHz measures about -3 LUFS.
    assert!((global + 3.01).abs() < 0.1, "global loudness {}", global);
    assert!((momentary + 3.01).abs() < 0.1, "momentary loudness {}", momentary);
    assert_ne!(stats, LoudnessStats::silent());
}

#[test]
fn refresh_after_a_failed_feed_keeps_the_figures() {
    let mut meter = LoudnessMeter::new();
    assert_eq!(meter.reset(1, 48000), Ok(()));
    assert_eq!(feed(&mut meter, &sine(48000, 1, 48000.0)), Ok(()));
    assert_eq!(
        meter.refresh(Err(MeterError::InvalidChannelIndex)),
        Err(MeterError::InvalidChannelIndex)
    );
    assert_eq!(meter.stats(), LoudnessStats::silent());
    assert_eq!(meter.refresh(Err(MeterError::NoMem)), Err(MeterError::NoMem));
}

#[test]
fn refresh_without_an_integrator_fails() {
    let mut meter = LoudnessMeter::new();
    assert_eq!(meter.refresh(Ok(())), Err(MeterError::Uninitialized));
    assert_eq!(meter.stats(), LoudnessStats::new());
    assert_eq!(feed(&mut meter, &[0.0; 4]), Err(MeterError::Uninitialized));
}

#[test]
fn prepare_keeps_an_integrator_that_fits() {
    let mut meter = LoudnessMeter::new();
    assert_eq!(meter.prepare(2, 48000), Ok(()));
    assert_eq!(feed(&mut meter, &sine(48000, 2, 48000.0)), Ok(()));
    let heard = meter.refresh(Ok(())).unwrap();
    assert_eq!(meter.prepare(2, 48000), Ok(()));
    assert_eq!(meter.stats(), heard);
    assert_eq!(meter.refresh(Ok(())), Ok(heard));
}

#[test]
fn prepare_starts_over_when_the_channels_change() {
    let mut meter = LoudnessMeter::new();
    assert_eq!(meter.prepare(2, 48000), Ok(()));
    assert_eq!(feed(&mut meter, &sine(48000, 2, 48000.0)), Ok(()));
    let stereo = meter.refresh(Ok(())).unwrap();
    assert_ne!(stereo, LoudnessStats::silent());

    assert_eq!(meter.prepare(1, 48000), Ok(()));
    assert_eq!(meter.stats(), LoudnessStats::silent());
    assert_eq!(meter.integrator_mut().unwrap().channels(), 1);
    assert_eq!(feed(&mut meter, &vec![0.0; 4800]), Ok(()));
    // Only the silence after the change counts.
    assert_eq!(meter.refresh(Ok(())), Ok(LoudnessStats::silent()));
}

#[test]
fn prepare_starts_over_when_the_rate_changes() {
    let mut meter = LoudnessMeter::new();
    assert_eq!(meter.prepare(2, 48000), Ok(()));
    assert_eq!(feed(&mut meter, &sine(48000, 2, 48000.0)), Ok(()));
    assert!(meter.refresh(Ok(())).is_ok());
    assert_eq!(meter.prepare(2, 44100), Ok(()));
    assert_eq!(meter.integrator_mut().unwrap().rate(), 44100);
    assert_eq!(meter.stats(), LoudnessStats::silent());
}

#[test]
fn prepare_reports_what_cannot_be_made() {
    let mut meter = LoudnessMeter::new();
    assert_eq!(meter.prepare(0, 48000), Err(MeterError::NoChannels));
    assert_eq!(meter.prepare(2, 0), Err(MeterError::NoSampleRate));
    assert_eq!(meter.prepare(65, 48000), Err(MeterError::NoMem));
    assert_eq!(meter.prepare(2, 48000), Ok(()));
    // The integrator made before stays where the next one cannot be made.
    assert_eq!(meter.prepare(0, 48000), Err(MeterError::NoChannels));
    assert!(meter.is_active());
    assert_eq!(meter.integrator_mut().unwrap().channels(), 2);
}

#[test]
fn resetting_twice_is_resetting_once() {
    let mut meter = LoudnessMeter::new();
    assert_eq!(meter.prepare(2, 48000), Ok(()));
    assert_eq!(feed(&mut meter, &sine(48000, 2, 48000.0)), Ok(()));
    assert!(meter.refresh(Ok(())).is_ok());
    assert_eq!(meter.reset(2, 48000), Ok(()));
    let first = meter.stats();
    assert_eq!(meter.reset(2, 48000), Ok(()));
    assert_eq!(meter.stats(), first);
    assert_eq!(first, LoudnessStats::silent());
    assert_eq!(meter.refresh(Ok(())), Ok(first));
}

#[test]
fn gather_wants_all_four_readings() {
    assert_eq!(
        LoudnessStats::gather(Ok(1), Ok(2), Ok(3), Ok(4)),
        Ok(LoudnessStats { global: 1, momentary: 2, range: 3, shortterm: 4 })
    );
    assert_eq!(
        LoudnessStats::gather(Ok(1), Err(MeterError::InvalidMode), Ok(3), Err(MeterError::NoMem)),
        Err(MeterError::InvalidMode)
    );
    assert_eq!(
        LoudnessStats::gather(Err(MeterError::NoMem), Err(MeterError::InvalidMode), Ok(3), Ok(4)),
        Err(MeterError::NoMem)
    );
    assert_eq!(
        LoudnessStats::gather(Ok(1), Ok(2), Err(MeterError::InvalidChannelIndex), Ok(4)),
        Err(MeterError::InvalidChannelIndex)
    );
    assert_eq!(
        LoudnessStats::gather(Ok(1), Ok(2), Ok(3), Err(MeterError::Uninitialized)),
        Err(MeterError::Uninitialized)
    );
}

#[test]
fn faults_of_the_integrator_keep_their_names() {
    assert_eq!(MeterError::from_fault(ebur128::Error::NoMem), MeterError::NoMem);
    assert_eq!(MeterError::from_fault(ebur128::Error::InvalidMode), MeterError::InvalidMode);
    assert_eq!(
        MeterError::from_fault(ebur128::Error::InvalidChannelIndex),
        MeterError::InvalidChannelIndex
    );
    assert_eq!(MeterError::NoMem.message(), ebur128::Error::NoMem.to_string());
    assert_eq!(MeterError::InvalidMode.message(), ebur128::Error::InvalidMode.to_string());
    assert_eq!(
        MeterError::InvalidChannelIndex.message(),
        ebur128::Error::InvalidChannelIndex.to_string()
    );
    assert_eq!(MeterError::NoChannels.message(), "No channels");
    assert_eq!(MeterError::NoSampleRate.message(), "No sample rate");
    assert_eq!(MeterError::Uninitialized.message(), "No EbuR128");
}
