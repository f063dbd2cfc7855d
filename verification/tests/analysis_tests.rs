use rms_recorder::audio::analysis::{
    analyze_samples, check_wav_format, samples_to_ms, window_active, window_samples, ActivityCounts, ActivityTracker,
    DEFAULT_MIN_ACTIVE_MS, DEFAULT_POWER_DEN, DEFAULT_POWER_NUM, DEFAULT_WINDOW_MS,
};

const SAMPLE_RATE: u32 = 16_000;

fn square_sum(samples: &[i16]) -> u128 {
    samples.iter().map(|&s| (s as i64 * s as i64) as u128).sum()
}

fn analyze(samples: &[i16]) -> ActivityCounts {
    analyze_samples(
        &samples.to_vec(),
        1,
        SAMPLE_RATE,
        DEFAULT_WINDOW_MS,
        DEFAULT_POWER_NUM,
        DEFAULT_POWER_DEN,
        DEFAULT_MIN_ACTIVE_MS,
    )
}

#[test]
fn silent_wav_is_inactive_even_when_file_has_duration() {
    let c = analyze(&vec![0; SAMPLE_RATE as usize]);
    assert!(!c.is_active);
    assert_eq!(c.active_ms, 0);
    assert!(c.duration_ms >= 900);
}

#[test]
fn sustained_voice_level_audio_is_active() {
    let samples = vec![2_000i16; SAMPLE_RATE as usize];
    let c = analyze(&samples);
    assert!(c.is_active);
    assert!(c.active_ms >= 300);
    assert_eq!(c.duration_ms, 1000);
    // The overall level is above -50 dBFS.
    assert!(window_active(square_sum(&samples), samples.len() as u64, DEFAULT_POWER_NUM, DEFAULT_POWER_DEN));
}

#[test]
fn low_noise_below_threshold_is_inactive() {
    let samples = vec![20i16; SAMPLE_RATE as usize];
    let c = analyze(&samples);
    assert!(!c.is_active);
    assert_eq!(c.active_ms, 0);
    // The overall level is below -50 dBFS.
    assert!(!window_active(square_sum(&samples), samples.len() as u64, DEFAULT_POWER_NUM, DEFAULT_POWER_DEN));
}

#[test]
fn isolated_click_does_not_count_as_valid_audio() {
    let mut samples = vec![0; SAMPLE_RATE as usize];
    samples[0] = i16::MAX;
    let c = analyze(&samples);
    assert!(!c.is_active);
    assert_eq!(c.active_ms, 100);
    assert!(c.peak_amplitude > 0);
    assert!(c.active_ms <= c.duration_ms);
}

#[test]
fn window_loudness_threshold_is_minus_fifty_dbfs() {
    // 32767^2 = 1_073_676_289; -50 dBFS is a mean square of 10736.76...
    assert!(window_active(10_737, 1, DEFAULT_POWER_NUM, DEFAULT_POWER_DEN));
    assert!(!window_active(10_736, 1, DEFAULT_POWER_NUM, DEFAULT_POWER_DEN));
    assert!(!window_active(0, 0, DEFAULT_POWER_NUM, DEFAULT_POWER_DEN));
    assert_eq!(window_samples(SAMPLE_RATE, 1, DEFAULT_WINDOW_MS), 1600);
    assert_eq!(window_samples(48_000, 2, 0), 96);
    assert_eq!(samples_to_ms(16_000, 1, SAMPLE_RATE), 1000);
    assert_eq!(samples_to_ms(u64::MAX, 1, 1), u64::MAX / 1);
    assert_eq!(samples_to_ms(5, 0, SAMPLE_RATE), 0);
}

#[test]
fn only_sixteen_bit_integer_wav_is_analyzed() {
    assert!(check_wav_format(16_000, 1, false, 16).is_ok());
    assert_eq!(check_wav_format(0, 1, false, 16).unwrap_err(), "WAV sample rate/channel invalid");
    assert_eq!(check_wav_format(16_000, 1, true, 32).unwrap_err(), "Unsupported WAV format: Float 32-bit");
    assert_eq!(check_wav_format(16_000, 2, false, 24).unwrap_err(), "Unsupported WAV format: Int 24-bit");
}

#[test]
fn thresholds_other_than_the_default_apply() {
    // -40 dBFS (ratio 1 / 10^4) and +0 dBFS (ratio 1 / 1).
    assert!(window_active(107_368, 1, 10_000, 1));
    assert!(!window_active(107_367, 1, 10_000, 1));
    assert!(window_active(1_073_676_289, 1, 1, 1));
    assert!(!window_active(1_073_676_288, 1, 1, 1));
    // A louder default threshold turns the voice-level signal silent.
    let mut t = ActivityTracker::new(1600, 1, SAMPLE_RATE, 1, 1);
    for _ in 0..16_000 {
        if t.push_sample(2_000) {
            t.close_window();
        }
    }
    assert_eq!(t.finish(DEFAULT_MIN_ACTIVE_MS).active_ms, 0);
}

#[test]
fn milliseconds_add_up_at_most_to_the_whole() {
    assert_eq!(samples_to_ms(7, 1, 3), 2333);
    assert_eq!(samples_to_ms(8, 1, 3), 2666);
    assert_eq!(samples_to_ms(15, 1, 3), 5000);
    assert!(samples_to_ms(7, 1, 3) + samples_to_ms(8, 1, 3) <= samples_to_ms(15, 1, 3));
}

#[test]
fn analysis_windows_start_at_the_first_sample() {
    // Windows of 4 samples at 1 channel, 40 Hz: 100 ms each; the last window
    // (2 samples, 50 ms) is loud, the full ones are silent or loud.
    let samples = vec![0, 0, 0, 0, 9000, 9000, 9000, 9000, 0, 0, 0, 0, 9000, 9000];
    let c = analyze_samples(&samples, 1, 40, 100, DEFAULT_POWER_NUM, DEFAULT_POWER_DEN, 150);
    assert_eq!(c.duration_ms, 350);
    assert_eq!(c.active_ms, 150);
    assert!(c.is_active);
    assert_eq!(c.peak_amplitude, 9000);
    let c = analyze_samples(&vec![], 1, 40, 100, DEFAULT_POWER_NUM, DEFAULT_POWER_DEN, 0);
    assert_eq!((c.duration_ms, c.active_ms, c.peak_amplitude, c.is_active), (0, 0, 0, true));
}
