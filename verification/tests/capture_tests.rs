use rms_recorder::audio::capture::{
    selected_audio_sources, source_label, Direction, ReadErrors, ReadKind, StartupEvent,
    StartupStep, StartupWait, DEFAULT_DEVICE_NAME,
};
use rms_recorder::audio::mixer::{decode_pcm, Mixer};

#[test]
fn selected_audio_sources_skip_empty_sides() {
    let (render_sources, capture_sources) =
        selected_audio_sources(vec!["Speaker".to_string()], Vec::new()).unwrap();

    assert_eq!(render_sources, vec!["Speaker".to_string()]);
    assert!(capture_sources.is_empty());
}

#[test]
fn selected_audio_sources_keep_explicit_default_selection() {
    let (render_sources, capture_sources) = selected_audio_sources(
        vec![DEFAULT_DEVICE_NAME.to_string()],
        vec![DEFAULT_DEVICE_NAME.to_string()],
    )
    .unwrap();

    assert_eq!(render_sources, vec![DEFAULT_DEVICE_NAME.to_string()]);
    assert_eq!(capture_sources, vec![DEFAULT_DEVICE_NAME.to_string()]);
}

#[test]
fn selected_audio_sources_reject_empty_input_and_output() {
    let error = selected_audio_sources(Vec::new(), Vec::new()).unwrap_err();

    assert_eq!(error, "Select at least one microphone or system audio device.");
}

#[test]
fn mixer_thread_aggregates_multiple_sources() {
    let mut mixer = Mixer::new(2);
    mixer.push_chunk(0, vec![100, 200, 300, 400]);
    mixer.push_chunk(1, vec![50, 100, 150, 200]);

    let expected_i16 = vec![150i16, 300, 450, 600];
    let mut expected_bytes = Vec::new();
    for sample in expected_i16 {
        expected_bytes.extend_from_slice(&sample.to_le_bytes());
    }

    // Below the jitter buffer nothing is mixed while capture runs.
    assert!(mixer.mix_round(&vec![true, true], false).is_empty());
    // Once capture ends, whatever every active source holds is mixed.
    assert!(mixer.mix_round(&vec![true, true], true).is_empty());
    assert_eq!(mixer.flush(), Some(expected_bytes));
    assert_eq!(mixer.flush(), None);
}

#[test]
fn mixer_clamps_and_publishes_whole_chunks() {
    let mut mixer = Mixer::new(3);
    mixer.push_chunk(0, vec![30000; 2400]);
    mixer.push_chunk(1, vec![30000; 2500]);
    mixer.push_chunk(2, vec![-5; 10]);
    mixer.push_chunk(7, vec![1; 5000]);
    // Source 2 is inactive, so 2400 frames are ready.
    let chunks = mixer.mix_round(&vec![true, true, false], false);
    assert_eq!(chunks.len(), 1);
    assert_eq!(chunks[0].len(), 4096);
    assert_eq!(&chunks[0][0..2], &32767i16.to_le_bytes());
    let rest = mixer.flush().unwrap();
    assert_eq!(rest.len(), 2400 * 2 - 4096);
}

#[test]
fn mixer_keeps_newest_frames_only() {
    let mut mixer = Mixer::new(1);
    let data: Vec<i16> = (0..20000).map(|i| (i % 1000) as i16).collect();
    mixer.push_chunk(0, data);
    let chunks = mixer.mix_round(&vec![true], false);
    let total: usize = chunks.iter().map(|c| c.len()).sum::<usize>() + mixer.flush().map(|r| r.len()).unwrap_or(0);
    assert_eq!(total, 19200 * 2);
    // The first kept frame is frame 800 of the input.
    assert_eq!(&chunks[0][0..2], &800i16.to_le_bytes());
}

#[test]
fn source_labels_name_direction_and_device() {
    assert_eq!(source_label(Direction::Capture, "  USB Mic "), "input: USB Mic");
    assert_eq!(source_label(Direction::Render, "   "), "output: default device");
}

#[test]
fn startup_waits_for_every_source() {
    let mut w = StartupWait::new(2);
    assert!(!w.is_ready());
    assert!(matches!(w.step(StartupEvent::Started), StartupStep::Waiting));
    assert!(matches!(w.step(StartupEvent::Started), StartupStep::Ready));
    assert!(w.is_ready());

    let mut w = StartupWait::new(3);
    w.step(StartupEvent::Started);
    match w.step(StartupEvent::TimedOut) {
        StartupStep::Failed(m) => assert_eq!(m, "Audio startup timed out: 1/3 WASAPI sources started"),
        _ => panic!("expected failure"),
    }
    match w.step(StartupEvent::Failed { label: "input: Mic".to_string(), error: "busy".to_string() }) {
        StartupStep::Failed(m) => assert_eq!(m, "Audio source failed (input: Mic): busy"),
        _ => panic!("expected failure"),
    }
    match w.step(StartupEvent::Disconnected) {
        StartupStep::Failed(m) => assert_eq!(m, "Audio startup channel closed before sources were ready"),
        _ => panic!("expected failure"),
    }
    assert!(StartupWait::new(0).is_ready());
}

#[test]
fn read_errors_give_up_after_ten_in_a_row() {
    let mut e = ReadErrors::new();
    for _ in 0..9 {
        assert!(e.record_failure(3, ReadKind::Polling, "x").is_none());
    }
    e.record_success();
    for _ in 0..9 {
        assert!(e.record_failure(3, ReadKind::Event, "x").is_none());
    }
    assert_eq!(
        e.record_failure(3, ReadKind::Event, "device lost"),
        Some("WASAPI source 3 failed after 10 read errors: device lost".to_string())
    );
}

#[test]
fn recorded_bytes_decode_to_the_mixed_samples() {
    let samples: Vec<i16> = vec![0, 1, -1, 32767, -32768, 1234, -4321];
    let mut mixer = Mixer::new(1);
    mixer.push_chunk(0, samples.clone());
    assert!(mixer.mix_round(&vec![true], true).is_empty());
    let bytes = mixer.flush().unwrap();
    assert_eq!(decode_pcm(&bytes), samples);
    assert_eq!(decode_pcm(&vec![0x34, 0x12, 0xff]), vec![0x1234]);
}
