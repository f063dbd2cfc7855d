use rms_recorder::audio::analysis::{check_wav_format, samples_to_ms, window_samples, ActivityTracker};
use rms_recorder::logger::{stamped_transcript_line, transcript_log_line};
use rms_recorder::messages::{CredentialProvider, UiMessage};
use rms_recorder::options::{
    normalized_output_dir, session_output_path_in_dir, AfterReviewTranscriptionMode, PersistedUiOptions,
    WorkflowOptions,
};
use rms_recorder::session::{kept_transcript_text, SessionState};
use rms_recorder::stage::{AppStage, FailedStage};
use rms_recorder::workflow::{autosave_step, AutosaveStep, NextStep};

fn options() -> WorkflowOptions {
    WorkflowOptions::defaults_in("out", '/')
}

fn session() -> SessionState {
    SessionState::new(options(), false)
}

#[test]
fn defaults_follow_the_output_folder() {
    let o = options();
    assert!(o.enable_deepgram && !o.auto_groq && !o.enable_summary && !o.enable_assemblyai);
    assert_eq!(o.input_device_names, vec!["Default".to_string()]);
    assert_eq!(o.wav_file_path, "out/audio/record.wav");
    assert_eq!(o.log_file_path, "out/transcripts/transcript_log.txt");
    assert_eq!(o.groq_file_path, "out/transcripts/transcript_whisper.txt");
    assert_eq!(o.summary_file_path, "out/transcripts/summary.txt");
    assert_eq!(o.summary_base_url, "https://api.openai.com/v1");
    assert_eq!(o.language, "id");
    assert_eq!(o.after_review_transcription_mode(), AfterReviewTranscriptionMode::Disabled);
}

#[test]
fn settings_round_trip_and_blank_values() {
    let mut o = options();
    o.auto_groq = true;
    o.groq_api_key = "gk".to_string();
    o.language = "en".to_string();
    // Settings are trimmed when read back; the built-in prompt ends with a line break.
    assert!(o.summary_prompt.ends_with('\n'));
    o.summary_prompt = o.summary_prompt.trim().to_string();
    let persisted = o.to_persisted(true);
    assert_eq!(persisted.dark_mode, Some(true));
    assert_eq!(persisted.schema_version, Some(1));
    // The AssemblyAI settings are not persisted; everything else reads back.
    let mut back = WorkflowOptions::defaults_in("out", '/');
    back.enable_deepgram = false;
    back.summary_model = "other".to_string();
    back.apply_persisted(&persisted);
    assert!(back.same_as(&o));
    let mut elsewhere = WorkflowOptions::defaults_in("elsewhere", '/');
    elsewhere.apply_persisted(&persisted);
    assert!(!elsewhere.same_as(&o));
    assert_eq!(elsewhere.wav_file_path, o.wav_file_path);
    assert_eq!(elsewhere.assemblyai_file_path, "elsewhere/transcripts/transcript_assemblyai.txt");

    let mut p = o.to_persisted(false);
    p.language = Some("   ".to_string());
    p.output_prefix = Some("  team ".to_string());
    p.groq_model = None;
    let mut again = o.duplicate();
    again.apply_persisted(&p);
    assert_eq!(again.language, "en");
    assert_eq!(again.output_prefix, "team");
    assert_eq!(again.groq_model, o.groq_model);
}

#[test]
fn empty_persisted_settings_change_nothing() {
    let o = options();
    let p = PersistedUiOptions {
        schema_version: None, enable_deepgram: None, auto_groq: None, enable_summary: None,
        input_device_names: None, output_device_names: None, deepgram_api_key: None,
        groq_api_key: None, summary_api_key: None, summary_base_url: None, deepgram_model: None,
        groq_model: None, summary_model: None, language: None, output_dir: None, output_prefix: None,
        log_file_path: None, wav_file_path: None, groq_file_path: None, summary_file_path: None,
        summary_prompt: None, dark_mode: None,
    };
    let mut same = o.duplicate();
    same.apply_persisted(&p);
    assert!(same.same_as(&o));
}

#[test]
fn session_paths_use_prefix_and_trimmed_folder() {
    assert_eq!(session_output_path_in_dir(" out/audio/ ", "", "20240101_000000_000", "record", "wav"), "out/audio/20240101_000000_000_record.wav");
    assert_eq!(session_output_path_in_dir("out", " team ", "S", "groq", "txt"), "out/team_S_groq.txt");
    assert_eq!(normalized_output_dir("  d  "), "d");
    assert!(normalized_output_dir("  ").ends_with("outputs"));
}

#[test]
fn log_keeps_newest_lines() {
    let mut s = session();
    for i in 0..600 {
        s.push_log_at(&format!("line {i}"), "12:00:00");
    }
    assert_eq!(s.logs.len(), 500);
    assert_eq!(s.logs[499], "[12:00:00] line 599");
    assert_eq!(s.logs[0], "[12:00:00] line 100");
}

#[test]
fn recording_to_review_to_done() {
    let mut s = session();
    assert!(s.begin_workflow_at("t"));
    assert_eq!(s.stage, AppStage::Recording);
    assert!(!s.begin_workflow_at("t"));
    s.configure_session_at("out", "out/audio", "out/transcripts", "S", "t");
    assert_eq!(s.options.wav_file_path, "out/audio/S_record.wav");
    assert_eq!(s.options.log_file_path, "out/transcripts/S_deepgram.txt");
    assert!(s.validate_start_at("t"));
    s.capture_started_at("t");
    assert!(s.capture_running);
    s.handle_message_at(UiMessage::InterimTranscript("hal".to_string()), "t");
    assert_eq!(s.interim_transcript, "hal");
    s.handle_message_at(UiMessage::FinalTranscript("halo".to_string()), "t");
    assert_eq!(s.transcripts, vec!["halo".to_string()]);
    assert!(s.interim_transcript.is_empty());
    assert!(s.stop_workflow_at("t"));
    assert_eq!(s.stage, AppStage::Finalizing);
    s.handle_message_at(UiMessage::Stage("Finalizing WAV".to_string()), "t");
    s.handle_message_at(UiMessage::ReviewReady { wav_path: "a.wav".to_string() }, "t");
    assert_eq!(s.stage, AppStage::Review);
    assert!(!s.capture_running);
    assert_eq!(s.review_wav_path.as_deref(), Some("a.wav"));
    assert_eq!(s.logs.last().unwrap(), "[t] Review: transcript is editable before AI processing; WAV ready at a.wav");
    match s.plan_after_review_at(false, "t") {
        NextStep::Idle => {}
        _ => panic!("nothing is enabled after review"),
    }
    assert_eq!(s.stage, AppStage::Done);
}

#[test]
fn failed_steps_are_retried_or_skipped() {
    let mut s = session();
    s.options.auto_groq = true;
    s.options.enable_assemblyai = true;
    s.stage = AppStage::Review;
    s.review_wav_path = Some("a.wav".to_string());
    match s.plan_after_review_at(false, "t") {
        NextStep::Transcribe(job) => {
            assert!(job.run_groq && job.run_assemblyai);
            assert_eq!(job.wav_path, "a.wav");
        }
        _ => panic!("expected transcription"),
    }
    assert_eq!(s.stage, AppStage::GroqProcessing);
    s.handle_message_at(UiMessage::GroqError("boom".to_string()), "t");
    assert_eq!(s.stage, AppStage::Error);
    assert_eq!(s.failed_stage, Some(FailedStage::Groq));
    assert_eq!(s.logs.last().unwrap(), "[t] ERROR: [Groq] Error: boom");
    assert!(matches!(s.retry_failed_step_at("t"), NextStep::RunAfterReview { skip_groq: false }));
    assert_eq!(s.failed_stage, None);
    s.handle_message_at(UiMessage::AssemblyAiError("x".to_string()), "t");
    assert!(matches!(s.retry_failed_step_at("t"), NextStep::RunAfterReview { skip_groq: true }));
    s.handle_message_at(UiMessage::GroqError("boom".to_string()), "t");
    assert!(matches!(s.skip_ai_step_at(FailedStage::Groq, "t"), NextStep::RunAfterReview { skip_groq: false }));
    assert_eq!(s.stage, AppStage::Review);
    match s.plan_after_review_at(true, "t") {
        NextStep::Transcribe(job) => assert!(!job.run_groq && job.run_assemblyai),
        _ => panic!("expected AssemblyAI only"),
    }
    assert!(matches!(s.skip_ai_step_at(FailedStage::Summary, "t"), NextStep::Idle));
    assert_eq!(s.stage, AppStage::Done);
}

#[test]
fn summary_starts_after_batch_when_enabled() {
    let mut s = session();
    s.options.enable_summary = true;
    s.transcripts = vec!["  a ".to_string(), "ERROR: x".to_string(), " ".to_string(), "b".to_string()];
    let out = s.handle_message_at(UiMessage::BatchTranscriptionDone, "t");
    let job = out.summary.expect("summary job");
    assert_eq!(job.deepgram_transcript, "a\nb");
    assert_eq!(job.whisper_transcript, "");
    assert_eq!(s.stage, AppStage::SummaryProcessing);
    s.handle_message_at(UiMessage::Summary("sum".to_string()), "t");
    assert_eq!(s.stage, AppStage::Done);
    assert_eq!(s.summary_result, "sum");
    assert!(s.handle_message_at(UiMessage::BatchTranscriptionDone, "t").summary.is_none());

    let mut e = session();
    e.options.enable_summary = true;
    assert!(e.start_summary_at("t").is_none());
    assert_eq!(e.logs.last().unwrap(), "[t] Summary: skipped because Deepgram, Groq, and AssemblyAI transcripts are empty");
    assert_eq!(kept_transcript_text(&vec![" x ".to_string(), "y".to_string()]), "x\ny");
}

#[test]
fn stopped_message_and_deferred_close() {
    let mut s = session();
    s.begin_workflow_at("t");
    s.capture_started_at("t");
    let close = s.handle_close_request_at(true, "t");
    assert!(close.cancel_close && close.cancel_capture);
    assert!(s.close_after_busy);
    assert_eq!(s.stage, AppStage::Finalizing);
    let out = s.handle_message_at(UiMessage::Stopped, "t");
    assert_eq!(s.stage, AppStage::Done);
    assert!(out.close_window);
    assert!(!s.close_after_busy);
    assert!(!s.capture_running);
}

#[test]
fn credential_results_and_statuses() {
    let mut s = session();
    s.begin_credential_check(CredentialProvider::Groq);
    assert_eq!(s.groq_check_status, "Checking...");
    s.handle_message_at(UiMessage::CredentialCheck { provider: CredentialProvider::Groq, result: Err("bad".to_string()) }, "t");
    assert_eq!(s.groq_check_status, "Failed: bad");
    s.handle_message_at(UiMessage::CredentialCheck { provider: CredentialProvider::Summary, result: Ok("OK".to_string()) }, "t");
    assert_eq!(s.summary_check_status, "OK");
}

#[test]
fn start_is_refused_with_unusable_options() {
    let mut s = session();
    s.options.auto_groq = true;
    assert!(!s.validate_start_at("t"));
    assert_eq!(s.stage, AppStage::Error);
    assert_eq!(s.logs.last().unwrap(), "[t] ERROR: groq_api_key is empty or invalid; disable Auto Groq or fill settings.json");
    let mut d = session();
    d.options.input_device_names.clear();
    d.options.output_device_names.clear();
    assert!(!d.validate_start_at("t"));
    let mut m = session();
    m.options.enable_summary = true;
    m.options.enable_deepgram = false;
    assert!(!m.validate_start_at("t"));
    assert_eq!(m.logs.last().unwrap(), "[t] ERROR: AI Summary needs Deepgram realtime or Auto Groq enabled so a transcript is available");
}

#[test]
fn reset_and_autosave() {
    let mut s = session();
    s.handle_message_at(UiMessage::FinalTranscript("a".to_string()), "t");
    assert!(s.can_reset());
    s.reset_session_at("t");
    assert_eq!(s.stage, AppStage::Init);
    assert!(s.transcripts.is_empty());
    assert_eq!(s.logs, vec!["[t] Init: ready to start a new session".to_string()]);
    assert!(!s.can_reset());
    s.mark_transcript_dirty();
    assert!(s.transcript_dirty);
    assert!(matches!(autosave_step(true, Some(400), 1500), AutosaveStep::Wait(1100)));
    assert!(matches!(autosave_step(true, Some(1500), 1500), AutosaveStep::Save));
    assert!(matches!(autosave_step(false, Some(9000), 1500), AutosaveStep::Idle));
    assert!(matches!(autosave_step(true, None, 1500), AutosaveStep::Idle));
    s.transcripts = vec![" one ".to_string(), "two".to_string()];
    assert_eq!(s.edited_transcript_text("D"), "[Edited from UI: D]\n\nFinal #1\none\n\nFinal #2\ntwo\n");
    s.transcript_autosaved_at("12:00:00");
    assert!(!s.transcript_dirty);
    assert_eq!(s.transcript_autosave_status, "Realtime transcript auto-saved 12:00:00");
    s.set_devices(vec!["mic".to_string()], vec![]);
    assert_eq!(s.config_notice, "Device list refreshed: 1 input, 0 output");
}

#[test]
fn activity_bookkeeping() {
    assert_eq!(samples_to_ms(16000, 1, 16000), 1000);
    assert_eq!(samples_to_ms(10, 0, 16000), 0);
    assert_eq!(window_samples(16000, 1, 100), 1600);
    assert_eq!(window_samples(5, 1, 0), 1);
    assert!(check_wav_format(16000, 1, false, 16).is_ok());
    assert_eq!(check_wav_format(0, 1, false, 16).unwrap_err(), "WAV sample rate/channel invalid");
    assert_eq!(check_wav_format(16000, 1, true, 32).unwrap_err(), "Unsupported WAV format: Float 32-bit");
    let mut t = ActivityTracker::new(2, 1, 1000, 100_000, 1);
    assert!(!t.push_sample(-32768));
    assert!(t.push_sample(5));
    t.close_window();
    assert!(!t.push_sample(1));
    t.close_window();
    let c = t.finish(2);
    assert_eq!(c.peak_amplitude, 32767);
    assert_eq!(c.active_ms, 2);
    assert_eq!(c.duration_ms, 3);
    assert!(c.is_active);
    assert_eq!(transcript_log_line("  ", "s"), None);
    assert_eq!(transcript_log_line("hi", "s"), Some("[s] hi".to_string()));
}

#[test]
fn recovery_is_offered_only_for_a_failed_step_in_the_error_stage() {
    let mut s = session();
    assert_eq!(s.recovery_offered(), None);
    s.stage = AppStage::GroqProcessing;
    s.handle_message_at(UiMessage::AssemblyAiError("down".to_string()), "t");
    assert_eq!(s.stage, AppStage::Error);
    let failed = s.recovery_offered().unwrap();
    assert_eq!(failed, FailedStage::AssemblyAi);
    assert_eq!(failed.name(), "AssemblyAI");
    assert_eq!(FailedStage::Groq.name(), "Groq");
    assert_eq!(FailedStage::Summary.name(), "Summary");
    s.stage = AppStage::Review;
    assert_eq!(s.recovery_offered(), None);
    s.stage = AppStage::Error;
    s.failed_stage = None;
    assert_eq!(s.recovery_offered(), None);
}

#[test]
fn stamped_lines_carry_a_date_time_with_milliseconds() {
    assert_eq!(stamped_transcript_line("  "), None);
    let line = stamped_transcript_line("hi").unwrap();
    assert!(line.starts_with('['));
    assert!(line.ends_with("] hi"));
    let stamp = &line[1..line.len() - 4];
    assert_eq!(stamp.len(), 23);
    assert_eq!(stamp.as_bytes()[10], b' ');
    assert_eq!(stamp.as_bytes()[19], b'.');
}
