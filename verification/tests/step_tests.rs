use rms_recorder::messages::UiMessage;
use rms_recorder::services::assemblyai::build_transcript_request;
use rms_recorder::services::credentials::chat_completions_endpoint;
use rms_recorder::services::groq::{GroqRun, GroqStep, WorkflowManifest};
use rms_recorder::workflow::{transcription_step, TranscriptionAction, TranscriptionEvent, TranscriptionJob};

fn job(run_groq: bool, run_assemblyai: bool) -> TranscriptionJob {
    TranscriptionJob {
        wav_path: "a.wav".to_string(),
        run_groq,
        run_assemblyai,
        groq_file_path: "g.txt".to_string(),
        groq_api_key: "k".to_string(),
        groq_model: "m".to_string(),
        assemblyai_file_path: "a.txt".to_string(),
        assemblyai_api_key: "k".to_string(),
        assemblyai_model: "universal-2".to_string(),
        language: "id".to_string(),
    }
}

fn texts(messages: &[UiMessage]) -> Vec<String> {
    messages
        .iter()
        .map(|m| match m {
            UiMessage::Stage(t) => format!("stage {t}"),
            UiMessage::Log(t) => format!("log {t}"),
            UiMessage::Error(t) => format!("error {t}"),
            UiMessage::Stopped => "stopped".to_string(),
            UiMessage::GroqTranscript(t) => format!("groq {t}"),
            UiMessage::GroqError(t) => format!("groq error {t}"),
            UiMessage::AssemblyAiFinalTranscript(t) => format!("assemblyai {t}"),
            UiMessage::AssemblyAiError(t) => format!("assemblyai error {t}"),
            UiMessage::BatchTranscriptionDone => "done".to_string(),
            _ => "other".to_string(),
        })
        .collect()
}

#[test]
fn after_review_batch_runs_groq_then_assemblyai() {
    let j = job(true, true);
    let (m, a) = transcription_step(&j, TranscriptionEvent::Analyzed(Ok(true)));
    assert_eq!(texts(&m), vec!["stage Groq chunk/upload", "log [Groq] Starting WAV transcription..."]);
    assert_eq!(a, TranscriptionAction::RunGroq);
    let (m, a) = transcription_step(&j, TranscriptionEvent::Groq(Ok("hi".to_string())));
    assert_eq!(
        texts(&m),
        vec!["groq hi", "stage AssemblyAI WAV upload", "log [AssemblyAI] Starting WAV upload..."]
    );
    assert_eq!(a, TranscriptionAction::RunAssemblyAi);
    let (m, a) = transcription_step(&j, TranscriptionEvent::AssemblyAi(Ok("yo".to_string())));
    assert_eq!(texts(&m), vec!["assemblyai yo", "done"]);
    assert_eq!(a, TranscriptionAction::Done);
}

#[test]
fn after_review_batch_stops_on_silence_errors_and_failures() {
    let j = job(true, false);
    let (m, a) = transcription_step(&j, TranscriptionEvent::Analyzed(Ok(false)));
    assert_eq!(
        texts(&m),
        vec!["log After-review transcription skipped because the WAV is silent or has no valid audio", "stopped"]
    );
    assert_eq!(a, TranscriptionAction::Done);
    let (m, _) = transcription_step(&j, TranscriptionEvent::Analyzed(Err("bad".to_string())));
    assert_eq!(texts(&m), vec!["error Audio analysis error: bad", "stopped"]);
    let (m, a) = transcription_step(&j, TranscriptionEvent::Groq(Err("HTTP 500".to_string())));
    assert_eq!(texts(&m), vec!["groq error HTTP 500"]);
    assert_eq!(a, TranscriptionAction::Done);
    let (m, _) = transcription_step(&j, TranscriptionEvent::Groq(Ok("t".to_string())));
    assert_eq!(texts(&m), vec!["groq t", "done"]);
    let (m, a) = transcription_step(&job(false, true), TranscriptionEvent::Analyzed(Ok(true)));
    assert_eq!(texts(&m), vec!["stage AssemblyAI WAV upload", "log [AssemblyAI] Starting WAV upload..."]);
    assert_eq!(a, TranscriptionAction::RunAssemblyAi);
}

#[test]
fn a_finished_groq_run_uploads_nothing_again() {
    let mut m = WorkflowManifest::fresh("a.wav", "m", "id", 2, "t");
    m.mark_success(0, "hello");
    m.mark_success(1, "world");
    let mut run = GroqRun::new(m);
    assert!(matches!(run.next(false), GroqStep::Skip { index: 0, .. }));
    assert!(matches!(run.next(false), GroqStep::Skip { index: 1, .. }));
    assert!(matches!(run.next(false), GroqStep::Finished));
    assert_eq!(run.manifest.final_text(), "hello world");
    assert_eq!(run.manifest.chunks[0].attempts, 0);
}

#[test]
fn endpoint_is_a_fixed_point_and_ignores_extra_slashes() {
    let e = chat_completions_endpoint(" https://api.example.com/v1/ ");
    assert_eq!(e, "https://api.example.com/v1/chat/completions");
    assert_eq!(chat_completions_endpoint(&e), e);
    assert_eq!(chat_completions_endpoint("https://api.example.com/v1//"), e);
    assert_eq!(chat_completions_endpoint("   "), "/chat/completions");
}

#[test]
fn transcript_request_normalizes_once() {
    let r = build_transcript_request("u", "  ", " Bahasa Indonesia ");
    assert_eq!(r.speech_models, vec!["universal-2".to_string()]);
    assert_eq!(r.language_code, "id");
    let again = build_transcript_request(&r.audio_url, &r.speech_models[0], &r.language_code);
    assert_eq!(again.speech_models, r.speech_models);
    assert_eq!(again.language_code, r.language_code);
}
