//! Batch transcription of a recorded WAV file with AssemblyAI: the request
//! body, the upload retries, the polling decisions and the saved transcript.

use vstd::prelude::*;
use crate::text::{
    cat, cat3, decimal, decimal_string, is_ws, lemma_trim_idempotent, lemma_trim_solid_fixed, owned, text_eq, trim,
    trim_spec,
};

verus! {

/// Upload attempts before giving up.
pub const MAX_UPLOAD_ATTEMPTS: u32 = 3;
/// Status polls before giving up.
pub const MAX_POLL_ATTEMPTS: u32 = 120;

/// The body of a transcript request.
pub struct TranscriptRequest {
    pub audio_url: String,
    pub language_code: String,
    pub format_text: bool,
    pub speech_models: Vec<String>,
}

/// The lower-case form of a string (`str::to_lowercase`).
pub uninterp spec fn lowercase(s: Seq<char>) -> Seq<char>;

/// `str::to_lowercase`: Unicode lower-case mapping, a function of the string
/// alone. Nothing more is stated of the mapping.
#[verifier::external_body]
fn to_lowercase(s: &str) -> (r: String)
    ensures
        r@ == lowercase(s@),
{
    s.to_lowercase()
}

/// Language names that mean Indonesian.
pub open spec fn means_indonesian(lang: Seq<char>) -> bool {
    lang == ""@ || lang == "id-id"@ || lang == "ind"@ || lang == "indonesian"@ || lang == "bahasa"@
        || lang == "bahasa indonesia"@
}

pub open spec fn request_model(model: Seq<char>) -> Seq<char> {
    if trim_spec(model).len() == 0 {
        "universal-2"@
    } else {
        trim_spec(model)
    }
}

pub open spec fn request_language(lowered: Seq<char>) -> Seq<char> {
    if means_indonesian(lowered) {
        "id"@
    } else {
        lowered
    }
}

/// The request for `audio_url`, given the trimmed and lower-cased language.
pub fn transcript_request_from(audio_url: &str, model: &str, lowered_language: &str) -> (r: TranscriptRequest)
    ensures
        r.audio_url@ == audio_url@,
        r.language_code@ == request_language(lowered_language@),
        r.format_text,
        r.speech_models@.len() == 1,
        r.speech_models@[0]@ == request_model(model@),
{
    let m0 = trim(model);
    let m = if m0.unicode_len() == 0 { owned("universal-2") } else { m0 };
    let l = lowered_language;
    let language = if text_eq(l, "") || text_eq(l, "id-id") || text_eq(l, "ind") || text_eq(l, "indonesian")
        || text_eq(l, "bahasa") || text_eq(l, "bahasa indonesia") {
        owned("id")
    } else {
        owned(l)
    };
    let mut models: Vec<String> = Vec::new();
    models.push(m);
    TranscriptRequest { audio_url: owned(audio_url), language_code: language, format_text: true, speech_models: models }
}

/// The request for `audio_url` with the model (default `universal-2`) and the
/// language code (Indonesian names mapped to `id`).
pub fn build_transcript_request(audio_url: &str, model: &str, language: &str) -> (r: TranscriptRequest)
    ensures
        r.audio_url@ == audio_url@,
        r.language_code@ == request_language(lowercase(trim_spec(language@))),
        r.format_text,
        r.speech_models@.len() == 1,
        r.speech_models@[0]@ == request_model(model@),
{
    let t = trim(language);
    let lowered = to_lowercase(t.as_str());
    transcript_request_from(audio_url, model, lowered.as_str())
}

proof fn lemma_universal_2_trimmed()
    ensures
        trim_spec("universal-2"@) == "universal-2"@,
{
    reveal_strlit("universal-2");
    let s = "universal-2"@;
    assert(!is_ws(s[0]) && !is_ws(s.last()));
    lemma_trim_solid_fixed(s);
}

/// Normalizing a transcript request twice changes nothing: the model is
/// stable outright, and the language code is stable whenever lower-casing the
/// trimmed code gives it back (the standard library's documentation does not
/// say that lower-casing is idempotent, so that is assumed of the input here).
pub proof fn law_transcript_request_normalizes_once(model: Seq<char>, language: Seq<char>)
    requires
        ({
            let code = request_language(lowercase(trim_spec(language)));
            lowercase(trim_spec(code)) == code
        }),
    ensures
        request_model(request_model(model)) == request_model(model),
        ({
            let code = request_language(lowercase(trim_spec(language)));
            request_language(lowercase(trim_spec(code))) == code
        }),
{
    lemma_universal_2_trimmed();
    lemma_trim_idempotent(model);
    reveal_strlit("universal-2");
    reveal_strlit("id");
    reveal_strlit("");
    reveal_strlit("id-id");
    reveal_strlit("ind");
    reveal_strlit("indonesian");
    reveal_strlit("bahasa");
    reveal_strlit("bahasa indonesia");
    assert("id"@.len() == 2);
    assert(""@.len() != 2 && "id-id"@.len() != 2 && "ind"@.len() != 2 && "indonesian"@.len() != 2);
    assert("bahasa"@.len() != 2 && "bahasa indonesia"@.len() != 2);
    assert(!means_indonesian("id"@));
}

/// Refuses a blank key and the template placeholder.
pub fn check_api_key(api_key: &str) -> (r: Result<(), String>)
    ensures
        (trim_spec(api_key@).len() == 0 || trim_spec(api_key@) == "your_assemblyai_api_key_here"@) ==> r is Err
            && r->Err_0@ == "AssemblyAI API Key is empty or default placeholder"@,
        !(trim_spec(api_key@).len() == 0 || trim_spec(api_key@) == "your_assemblyai_api_key_here"@) ==> r is Ok,
{
    let t = trim(api_key);
    if t.unicode_len() == 0 || text_eq(t.as_str(), "your_assemblyai_api_key_here") {
        Err(owned("AssemblyAI API Key is empty or default placeholder"))
    } else {
        Ok(())
    }
}

/// How one upload attempt failed.
pub enum UploadFailure {
    Transport(String),
    Refused { status_text: String, body: String },
    BadJson(String),
}

pub open spec fn upload_failure_text(f: UploadFailure) -> Seq<char> {
    match f {
        UploadFailure::Transport(e) => "Upload HTTP error: "@ + e@,
        UploadFailure::Refused { status_text, body } => "Upload failed (HTTP "@ + status_text@ + "): "@ + body@,
        UploadFailure::BadJson(e) => "Invalid upload JSON response: "@ + e@,
    }
}

/// What to do before the next upload attempt.
pub enum UploadAction {
    /// Send the file after waiting `delay_ms`, logging `log` first.
    Send { delay_ms: u64, log: Option<String> },
    GiveUp(String),
}

/// The upload retries so far.
pub struct UploadRetry {
    pub attempt: u32,
    pub last_error: String,
}

pub open spec fn cancelled_text() -> Seq<char> {
    "AssemblyAI transcription cancelled by user"@
}

impl UploadRetry {
    pub fn new() -> (r: UploadRetry)
        ensures
            r.attempt == 0,
            r.last_error@ == Seq::<char>::empty(),
    {
        UploadRetry { attempt: 0, last_error: String::new() }
    }

    /// Decides the next attempt: three attempts at most, the later ones after a
    /// growing delay, none once the transcription was cancelled.
    pub fn next(&mut self, cancelled: bool) -> (a: UploadAction)
        requires
            old(self).attempt <= MAX_UPLOAD_ATTEMPTS,
        ensures
            old(self).attempt >= MAX_UPLOAD_ATTEMPTS ==> *final(self) == *old(self) && a is GiveUp && a->GiveUp_0 == old(self).last_error,
            old(self).attempt < MAX_UPLOAD_ATTEMPTS ==> final(self).attempt == old(self).attempt + 1 && final(self).last_error == old(self).last_error,
            old(self).attempt < MAX_UPLOAD_ATTEMPTS && cancelled ==> a is GiveUp && a->GiveUp_0@ == cancelled_text(),
            old(self).attempt < MAX_UPLOAD_ATTEMPTS && !cancelled && final(self).attempt == 1 ==> a == (UploadAction::Send { delay_ms: 0, log: None }),
            old(self).attempt < MAX_UPLOAD_ATTEMPTS && !cancelled && final(self).attempt > 1 ==> a is Send
                && a->delay_ms == 1500 * final(self).attempt
                && a->log is Some
                && a->log->0@ == "AssemblyAI: Retrying upload (attempt "@ + decimal(final(self).attempt as nat) + "/3)"@,
    {
        if self.attempt >= MAX_UPLOAD_ATTEMPTS {
            return UploadAction::GiveUp(self.last_error.clone());
        }
        self.attempt = self.attempt + 1;
        if cancelled {
            return UploadAction::GiveUp(owned("AssemblyAI transcription cancelled by user"));
        }
        if self.attempt > 1 {
            let n = decimal_string(self.attempt as u64);
            let log = cat3("AssemblyAI: Retrying upload (attempt ", n.as_str(), "/3)");
            UploadAction::Send { delay_ms: 1500 * self.attempt as u64, log: Some(log) }
        } else {
            UploadAction::Send { delay_ms: 0, log: None }
        }
    }

    /// Records a failed attempt.
    pub fn failed(&mut self, failure: UploadFailure)
        ensures
            final(self).attempt == old(self).attempt,
            final(self).last_error@ == upload_failure_text(failure),
    {
        self.last_error = match failure {
            UploadFailure::Transport(e) => cat("Upload HTTP error: ", e.as_str()),
            UploadFailure::Refused { status_text, body } => {
                let mut m = cat3("Upload failed (HTTP ", status_text.as_str(), "): ");
                m.append(body.as_str());
                m
            },
            UploadFailure::BadJson(e) => cat("Invalid upload JSON response: ", e.as_str()),
        };
    }
}

/// The error of a refused transcript submission.
pub fn submit_refused_text(status_text: &str, body: &str) -> (r: String)
    ensures
        r@ == "Transcript submit failed (HTTP "@ + status_text@ + "): "@ + body@,
{
    let mut m = cat3("Transcript submit failed (HTTP ", status_text, "): ");
    m.append(body);
    m
}

/// The URL polled for a transcript.
pub fn poll_url(transcript_id: &str) -> (r: String)
    ensures
        r@ == "https://api.assemblyai.com/v2/transcript/"@ + transcript_id@,
{
    cat("https://api.assemblyai.com/v2/transcript/", transcript_id)
}

/// What a poll reply decides.
pub enum PollStep {
    Completed(String),
    Failed(String),
    /// Not finished: log this line and poll again.
    Pending(String),
}

/// The decision for a poll reply with `status`, `text` and `error`, at poll
/// number `attempt`.
pub fn poll_step(status: &str, text: Option<String>, error: Option<String>, attempt: u32) -> (r: PollStep)
    ensures
        status@ == "completed"@ ==> r is Completed && r->Completed_0@ == (match text {
            Some(t) => t@,
            None => Seq::empty(),
        }),
        status@ != "completed"@ && status@ == "error"@ ==> r is Failed && r->Failed_0@ == "AssemblyAI transcription error: "@ + (match error {
            Some(e) => e@,
            None => "Unknown AssemblyAI error"@,
        }),
        status@ != "completed"@ && status@ != "error"@ ==> r is Pending && r->Pending_0@ == "AssemblyAI: Status '"@ + status@
            + "' (attempt "@ + decimal(attempt as nat) + "/120)"@,
{
    if text_eq(status, "completed") {
        return PollStep::Completed(match text {
            Some(t) => t,
            None => String::new(),
        });
    }
    if text_eq(status, "error") {
        let e = match error {
            Some(e) => e,
            None => owned("Unknown AssemblyAI error"),
        };
        return PollStep::Failed(cat("AssemblyAI transcription error: ", e.as_str()));
    }
    let n = decimal_string(attempt as u64);
    let mut m = cat3("AssemblyAI: Status '", status, "' (attempt ");
    m.append(n.as_str());
    m.append("/120)");
    PollStep::Pending(m)
}

/// The saved transcript file: a stamped header naming the WAV file, then the text.
pub fn transcript_file_content(stamp: &str, wav_file_path: &str, text: &str) -> (r: String)
    ensures
        r@ == "["@ + stamp@ + "] [File: "@ + wav_file_path@ + "]\n"@ + text@ + "\n\n"@,
{
    let mut r = cat3("[", stamp, "] [File: ");
    r.append(wav_file_path);
    r.append("]\n");
    r.append(text);
    r.append("\n\n");
    r
}

/// The language code of a request: each name that means Indonesian — empty,
/// `id-id`, `ind`, `indonesian`, `bahasa`, `bahasa indonesia`, after trimming
/// and lower-casing — becomes `id`, and any other lowered name is sent as it is.
pub proof fn law_indonesian_names_become_id(lowered: Seq<char>)
    ensures
        request_language(""@) == "id"@,
        request_language("id-id"@) == "id"@,
        request_language("ind"@) == "id"@,
        request_language("indonesian"@) == "id"@,
        request_language("bahasa"@) == "id"@,
        request_language("bahasa indonesia"@) == "id"@,
        !(lowered == ""@ || lowered == "id-id"@ || lowered == "ind"@ || lowered == "indonesian"@
            || lowered == "bahasa"@ || lowered == "bahasa indonesia"@) ==> request_language(lowered) == lowered,
{
}

} // verus!
