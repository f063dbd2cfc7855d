use rms_recorder::services::assemblyai::{
    build_transcript_request, check_api_key, poll_step, transcript_request_from, PollStep,
    UploadAction, UploadFailure, UploadRetry,
};
use rms_recorder::services::credentials::{
    assemblyai_check_outcome, chat_completions_endpoint, deepgram_check_outcome, format_http_error,
    groq_check_outcome, openai_check_outcome, plan_deepgram_check, plan_openai_compatible_check,
    validate_key, validate_non_empty, CheckTransport, ConnectOutcome, HttpReply,
};
use rms_recorder::services::deepgram::{
    backoff_secs, classify_event, stream_request_url, stream_url, DeepgramAction, DeepgramEvent,
};
use rms_recorder::services::groq::{chunk_plan, whisper_transcript_content, ChunkPlan, WorkflowManifest};
use rms_recorder::services::summary::{
    build_messages, default_system_prompt, fallback_empty, plan_summary_request, plan_summary_request_at,
    summary_from_choices, summary_http_error, validate_config,
};

#[test]
fn test_assemblyai_batch_language_and_model() {
    let req = build_transcript_request("https://example.com/audio.wav", "universal-2", "id-ID");
    assert_eq!(req.language_code, "id");
    assert_eq!(req.speech_models[0], "universal-2");
}

#[test]
fn assemblyai_request_defaults_and_languages() {
    let req = build_transcript_request("u", "  ", "  Bahasa Indonesia ");
    assert_eq!(req.speech_models, vec!["universal-2".to_string()]);
    assert_eq!(req.language_code, "id");
    assert!(req.format_text);
    assert_eq!(build_transcript_request("u", "best", "EN").language_code, "en");
    assert_eq!(build_transcript_request("u", "best", "").language_code, "id");
    assert_eq!(transcript_request_from("u", " m ", "fr").language_code, "fr");
    assert_eq!(transcript_request_from("u", " m ", "fr").speech_models[0], "m");
    assert!(check_api_key(" your_assemblyai_api_key_here ").is_err());
    assert!(check_api_key("abc").is_ok());
}

#[test]
fn assemblyai_upload_retries_three_times() {
    let mut r = UploadRetry::new();
    assert!(matches!(r.next(false), UploadAction::Send { delay_ms: 0, log: None }));
    r.failed(UploadFailure::Transport("reset".to_string()));
    match r.next(false) {
        UploadAction::Send { delay_ms, log } => {
            assert_eq!(delay_ms, 3000);
            assert_eq!(log.unwrap(), "AssemblyAI: Retrying upload (attempt 2/3)");
        }
        _ => panic!("expected a retry"),
    }
    r.failed(UploadFailure::Refused { status_text: "500 Internal Server Error".to_string(), body: "oops".to_string() });
    assert!(matches!(r.next(false), UploadAction::Send { delay_ms: 4500, .. }));
    r.failed(UploadFailure::BadJson("eof".to_string()));
    match r.next(false) {
        UploadAction::GiveUp(e) => assert_eq!(e, "Invalid upload JSON response: eof"),
        _ => panic!("expected to give up"),
    }
    let mut c = UploadRetry::new();
    match c.next(true) {
        UploadAction::GiveUp(e) => assert_eq!(e, "AssemblyAI transcription cancelled by user"),
        _ => panic!("expected cancellation"),
    }
}

#[test]
fn assemblyai_poll_decisions() {
    assert!(matches!(poll_step("completed", Some("hi".to_string()), None, 1), PollStep::Completed(t) if t == "hi"));
    assert!(matches!(poll_step("completed", None, None, 1), PollStep::Completed(t) if t.is_empty()));
    assert!(matches!(poll_step("error", None, None, 1), PollStep::Failed(t) if t == "AssemblyAI transcription error: Unknown AssemblyAI error"));
    assert!(matches!(poll_step("queued", None, None, 7), PollStep::Pending(t) if t == "AssemblyAI: Status 'queued' (attempt 7/120)"));
}

#[test]
fn placeholder_keys_are_rejected() {
    assert!(validate_key("", "placeholder").is_err());
    assert!(validate_key("placeholder", "placeholder").is_err());
}

#[test]
fn chat_completions_endpoint_accepts_base_or_full_endpoint() {
    assert_eq!(
        chat_completions_endpoint("https://api.openai.com/v1"),
        "https://api.openai.com/v1/chat/completions"
    );
    assert_eq!(
        chat_completions_endpoint("https://api.openai.com/v1/chat/completions"),
        "https://api.openai.com/v1/chat/completions"
    );
}

#[test]
fn endpoint_trims_spaces_and_slashes() {
    assert_eq!(chat_completions_endpoint("  https://x.test/v1// "), "https://x.test/v1/chat/completions");
    assert_eq!(validate_key("  key ", "placeholder"), Ok(()));
    assert_eq!(validate_key(" placeholder ", "placeholder"), Err("API key is empty or still a placeholder".to_string()));
    assert_eq!(validate_non_empty(" ", "Groq model"), Err("Groq model is empty".to_string()));
    assert_eq!(format_http_error("Groq", "401 Unauthorized", "  "), "Groq check failed HTTP 401 Unauthorized");
    assert_eq!(format_http_error("Groq", "401 Unauthorized", " bad key "), "Groq check failed HTTP 401 Unauthorized: bad key");
}

fn reply(status: u16, text: &str, body: &str) -> CheckTransport {
    CheckTransport::Replied(HttpReply { status, status_text: text.to_string(), body: body.to_string() })
}

#[test]
fn credential_check_outcomes() {
    let plan = plan_deepgram_check(" k ", " nova-3 ", " ").unwrap();
    assert_eq!(plan.url, "wss://api.deepgram.com/v1/listen?encoding=linear16&sample_rate=16000&channels=1&model=nova-3&language=id");
    assert_eq!(plan.token, "k");
    assert_eq!(plan_deepgram_check("k", " ", "id").err().unwrap(), "Deepgram model is empty");
    assert_eq!(deepgram_check_outcome(" nova-3 ", ConnectOutcome::Connected), Ok("OK: Deepgram model nova-3 reachable".to_string()));
    assert_eq!(deepgram_check_outcome("m", ConnectOutcome::TimedOut), Err("Deepgram check timeout".to_string()));

    let ids = vec!["whisper-large-v3".to_string()];
    assert_eq!(groq_check_outcome("whisper-large-v3", reply(200, "200 OK", "{}"), Some(ids.clone())), Ok("OK: Groq model whisper-large-v3 reachable".to_string()));
    assert_eq!(groq_check_outcome("other", reply(200, "200 OK", "{}"), Some(ids)), Err("Groq key valid, model other not listed".to_string()));
    assert_eq!(groq_check_outcome("other", reply(200, "200 OK", "x"), None), Ok("OK: Groq model other reachable".to_string()));
    assert_eq!(groq_check_outcome("m", reply(401, "401 Unauthorized", ""), None), Err("Groq check failed HTTP 401 Unauthorized".to_string()));

    assert_eq!(assemblyai_check_outcome("u", reply(404, "404 Not Found", "")), Ok("OK: AssemblyAI model u configured".to_string()));
    assert!(assemblyai_check_outcome("u", reply(401, "401 Unauthorized", "")).is_err());
    assert!(assemblyai_check_outcome("u", reply(503, "503 Service Unavailable", "")).is_err());

    assert_eq!(openai_check_outcome(" gpt ", reply(200, "200 OK", "")), Ok("OK: Summary model gpt reachable".to_string()));
    assert_eq!(openai_check_outcome("gpt", CheckTransport::Failed("dns".to_string())), Err("OpenAI-compatible check failed: dns".to_string()));

    let c = plan_openai_compatible_check(" k ", "https://a/v1/", " gpt ").unwrap();
    assert_eq!(c.endpoint, "https://a/v1/chat/completions");
    assert_eq!(c.model, "gpt");
    assert_eq!(c.content, "Reply OK");
    assert_eq!(c.max_tokens, 1);
    assert_eq!(plan_openai_compatible_check("k", " ", "gpt").err().unwrap(), "OpenAI-compatible base URL is empty");
}

#[test]
fn deepgram_stream_decisions() {
    assert_eq!(
        stream_url(48000, "nova-3", "id"),
        "wss://api.deepgram.com/v1/listen?encoding=linear16&sample_rate=48000&channels=1&model=nova-3&language=id&interim_results=true&endpointing=100"
    );
    assert_eq!(backoff_secs(1), 2);
    assert_eq!(backoff_secs(0), 1);
    assert_eq!(backoff_secs(9), 32);
    let final_event = DeepgramEvent { msg_type: Some("Results".to_string()), transcript: Some("halo".to_string()), is_final: Some(true), err_code: None, err_msg: None };
    assert!(matches!(classify_event(final_event), DeepgramAction::Final(t) if t == "halo"));
    let interim = DeepgramEvent { msg_type: None, transcript: Some("ha".to_string()), is_final: None, err_code: None, err_msg: None };
    assert!(matches!(classify_event(interim), DeepgramAction::Interim(t) if t == "ha"));
    let blank = DeepgramEvent { msg_type: None, transcript: Some("  ".to_string()), is_final: Some(true), err_code: None, err_msg: None };
    assert!(matches!(classify_event(blank), DeepgramAction::Ignore));
    let err = DeepgramEvent { msg_type: Some("Error".to_string()), transcript: None, is_final: None, err_code: Some("E1".to_string()), err_msg: None };
    assert!(matches!(classify_event(err), DeepgramAction::Error(t) if t == "Deepgram Error: E1 - "));
}

#[test]
fn groq_chunking_and_manifest() {
    assert_eq!(chunk_plan(16000, 1, 16), ChunkPlan::Whole);
    assert_eq!(chunk_plan(20_000_000, 1, 16), ChunkPlan::Split { samples_per_chunk: 10_000_000 });
    let mut m = WorkflowManifest::fresh("a.wav", "whisper", "id", 3, "now");
    assert_eq!(m.chunks.len(), 3);
    assert_eq!(m.chunks[2].index, 3);
    assert_eq!(m.chunks[0].status, "pending");
    assert!(m.matches("a.wav", "whisper", "id", 3));
    assert!(!m.matches("a.wav", "whisper", "en", 3));
    m.begin_attempt(0);
    assert_eq!(m.chunks[0].status, "uploading");
    assert_eq!(m.chunks[0].attempts, 1);
    m.mark_failed(0, "timeout");
    assert_eq!(m.chunks[0].last_error.as_deref(), Some("timeout"));
    m.begin_attempt(0);
    m.mark_success(0, "  halo  ");
    m.mark_success(2, " dunia ");
    assert!(m.chunk_succeeded(0));
    assert!(!m.chunk_succeeded(1));
    assert_eq!(m.chunks[0].attempts, 2);
    assert_eq!(m.final_text(), "halo dunia");
    let again = WorkflowManifest::load_or_create(Some(m), "a.wav", "whisper", "id", 3, "later");
    assert_eq!(again.updated_at, "now");
    let fresh = WorkflowManifest::load_or_create(Some(again), "b.wav", "whisper", "id", 3, "later");
    assert_eq!(fresh.updated_at, "later");
    assert_eq!(fresh.final_text(), "");
    assert_eq!(whisper_transcript_content("t", "a.wav", "  "), None);
    assert_eq!(whisper_transcript_content("t", "a.wav", " x "), Some("[t] [File: a.wav]\nx\n\n".to_string()));
}

#[test]
fn summary_request_and_reply() {
    assert_eq!(validate_config("", "u", "m").unwrap_err(), "OPENAI_API_KEY is empty or invalid for summary");
    assert_eq!(validate_config("k", " ", "m").unwrap_err(), "OPENAI_BASE_URL is empty for summary");
    assert_eq!(validate_config("k", "u", " ").unwrap_err(), "OPENAI_MODEL is empty for summary");
    assert_eq!(fallback_empty("  "), "(empty / unavailable)");
    assert_eq!(fallback_empty(" a "), "a");
    let messages = build_messages("d", "", " a ", "  ", "2024-01-02 03:04:05");
    assert_eq!(messages[0].role, "system");
    assert_eq!(messages[0].content, default_system_prompt());
    assert_eq!(messages[1].content, "Summary date: 2024-01-02 03:04:05\n\nUse the transcripts below to create a clear, natural plain-text summary.\n\n<deepgram_realtime_transcript>\nd\n</deepgram_realtime_transcript>\n\n<groq_whisper_final_transcript>\n(empty / unavailable)\n</groq_whisper_final_transcript>\n\n<assemblyai_wav_final_transcript>\na\n</assemblyai_wav_final_transcript>");
    assert_eq!(
        plan_summary_request_at(" ", "", "", "", "k", "https://a/v1", "m", "d").err().unwrap(),
        "Summary skipped: all transcripts are empty"
    );
    let req = plan_summary_request_at("x", "", "", "Be brief", " k ", "https://a/v1", "m", "d").unwrap();
    assert_eq!(req.endpoint, "https://a/v1/chat/completions");
    assert_eq!(req.bearer_token, "k");
    assert_eq!(req.max_tokens, 2400);
    assert_eq!(req.messages[0].content, "Be brief");
    assert_eq!(summary_from_choices(&vec![" done ".to_string()]), Ok("done".to_string()));
    assert_eq!(summary_from_choices(&vec![]), Err("Summary response is empty".to_string()));
    assert_eq!(summary_from_choices(&vec!["  ".to_string()]), Err("Summary response is empty".to_string()));
    assert_eq!(summary_http_error("500 Internal Server Error", " "), "Summary API error HTTP 500 Internal Server Error");
    assert_eq!(summary_http_error("500 Internal Server Error", "busy"), "Summary API error HTTP 500 Internal Server Error: busy");
    assert!(default_system_prompt().starts_with("You are a careful senior meeting-notes assistant."));
}

#[test]
fn clock_dated_summary_request_carries_the_transcripts_and_a_date() {
    let req = plan_summary_request("live", "final", "", "Be brief", " k ", "https://a/v1", "m").unwrap();
    assert_eq!(req.bearer_token, "k");
    assert_eq!(req.model, "m");
    assert_eq!(req.max_tokens, 2400);
    assert_eq!(req.messages.len(), 2);
    assert_eq!(req.messages[0].role, "system");
    assert_eq!(req.messages[0].content, "Be brief");
    assert_eq!(req.messages[1].role, "user");
    let user = &req.messages[1].content;
    let date = user.strip_prefix("Summary date: ").unwrap();
    let date = &date[..19];
    assert_eq!(date.as_bytes()[4], b'-');
    assert_eq!(date.as_bytes()[10], b' ');
    assert_eq!(date.as_bytes()[13], b':');
    let deepgram_at = user.find("live").unwrap();
    let whisper_at = user.find("final").unwrap();
    assert!(deepgram_at < whisper_at);
}

#[test]
fn stream_request_url_is_the_parsed_stream_url() {
    let url = stream_request_url(16000, "nova-3", "id").unwrap();
    assert_eq!(url, stream_url(16000, "nova-3", "id"));
    // The parser percent-encodes what a query may not hold as it is.
    let spaced = stream_request_url(16000, "nova 3", "id").unwrap();
    assert!(spaced.contains("model=nova%203"));
    assert_ne!(spaced, stream_url(16000, "nova 3", "id"));
}
