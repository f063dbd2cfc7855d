use rms_recorder::services::deepgram::Reconnect;
use rms_recorder::services::groq::{GroqRun, GroqStep, WorkflowManifest};

fn manifest(n: usize) -> WorkflowManifest {
    WorkflowManifest::fresh("a.wav", "whisper-large-v3", "id", n, "2024-01-01T00:00:00+00:00")
}

#[test]
fn groq_run_uploads_each_chunk_and_finishes() {
    let mut run = GroqRun::new(manifest(2));
    match run.next(false) {
        GroqStep::Upload { index, line } => {
            assert_eq!(index, 0);
            assert_eq!(line, "Groq: upload chunk 1 attempt 1");
        }
        _ => panic!("expected an upload"),
    }
    assert_eq!(run.manifest.chunks[0].status, "uploading");
    assert_eq!(run.manifest.chunks[0].attempts, 1);
    let (line, wait) = run.upload_done(Ok("  hello ".to_string()));
    assert_eq!(line, "Groq: chunk 1 success");
    assert_eq!(wait, None);
    assert_eq!(run.manifest.chunks[0].text, "hello");
    assert!(matches!(run.next(false), GroqStep::Upload { index: 1, .. }));
    run.upload_done(Ok("world".to_string()));
    assert!(matches!(run.next(false), GroqStep::Finished));
    assert_eq!(run.manifest.final_text(), "hello world");
}

#[test]
fn groq_run_skips_finished_chunks_and_gives_up_after_four_failures() {
    let mut m = manifest(2);
    m.mark_success(0, "done");
    let mut run = GroqRun::new(m);
    match run.next(false) {
        GroqStep::Skip { index, line } => {
            assert_eq!(index, 0);
            assert_eq!(line, "Groq: chunk 1 skipped (already successful)");
        }
        _ => panic!("expected a skip"),
    }
    let waits: Vec<u64> = (1..=4)
        .map(|_| {
            assert!(matches!(run.next(false), GroqStep::Upload { index: 1, .. }));
            let (line, wait) = run.upload_done(Err("HTTP 500".to_string()));
            assert_eq!(line, "Groq: chunk 2 failed: HTTP 500");
            wait.unwrap()
        })
        .collect();
    assert_eq!(waits, vec![2, 4, 8, 16]);
    assert_eq!(run.manifest.chunks[1].attempts, 4);
    match run.next(false) {
        GroqStep::Stop(err) => assert_eq!(err, "Groq chunk 2 failed finally: HTTP 500"),
        _ => panic!("expected a stop"),
    }
}

#[test]
fn groq_run_stops_when_cancelled() {
    let mut run = GroqRun::new(manifest(1));
    match run.next(true) {
        GroqStep::Stop(err) => assert_eq!(err, "Groq cancelled"),
        _ => panic!("expected a stop"),
    }
    assert_eq!(run.manifest.chunks[0].status, "pending");
}

#[test]
fn deepgram_reconnect_counts_and_backs_off() {
    let mut r = Reconnect::new();
    assert_eq!(r.begin(), "Deepgram: connect attempt 1");
    assert_eq!(r.delay_secs(), 2);
    assert_eq!(r.begin(), "Deepgram: connect attempt 2");
    assert_eq!(r.delay_secs(), 4);
    r.connected();
    assert_eq!(r.attempt, 0);
    for _ in 0..9 {
        r.begin();
    }
    assert_eq!(r.delay_secs(), 32);
}

#[test]
fn groq_run_gives_up_rather_than_cancels_after_the_last_attempt() {
    let mut run = GroqRun::new(manifest(1));
    for _ in 0..4 {
        assert!(matches!(run.next(false), GroqStep::Upload { index: 0, .. }));
        run.upload_done(Err("timeout".to_string()));
    }
    match run.next(true) {
        GroqStep::Stop(err) => assert_eq!(err, "Groq chunk 1 failed finally: timeout"),
        _ => panic!("expected a stop"),
    }
}
