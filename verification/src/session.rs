//! The recording session: what the user and the workers change in it, step by
//! step. Every step is a function from the session and an event to the next
//! session and the work left for the caller (starting a worker, closing the
//! window).

use vstd::prelude::*;
use crate::clock::hms_text;
use crate::messages::{CredentialProvider, MessageView, UiMessage};
use crate::options::{mode_spec, OptionsView, WorkflowOptions};
use crate::stage::{parse_stage, parse_stage_spec, AppStage, FailedStage};
use crate::text::{cat, cat3, join_spec, join_strings, owned, starts_with, starts_with_spec, trim, trim_spec, views};

verus! {

/// The number of log lines kept by [`SessionState::push_log_at`].
pub const MAX_LOG_LINES: usize = 500;

/// Everything the session knows, except the channels, clocks and threads of the
/// program that runs it.
pub struct SessionState {
    pub stage: AppStage,
    pub failed_stage: Option<FailedStage>,
    pub show_settings: bool,
    pub transcripts: Vec<String>,
    pub assemblyai_transcripts: Vec<String>,
    pub logs: Vec<String>,
    pub interim_transcript: String,
    pub groq_result: String,
    pub summary_result: String,
    pub review_wav_path: Option<String>,
    pub options: WorkflowOptions,
    pub input_devices: Vec<String>,
    pub output_devices: Vec<String>,
    pub config_notice: String,
    pub dark_mode: bool,
    pub settings_dirty: bool,
    pub settings_autosave_status: String,
    pub transcript_dirty: bool,
    pub transcript_autosave_status: String,
    pub deepgram_check_status: String,
    pub assemblyai_check_status: String,
    pub groq_check_status: String,
    pub summary_check_status: String,
    pub close_after_busy: bool,
    /// Whether audio capture is running and can be asked to stop.
    pub capture_running: bool,
}

/// The mathematical value of a [`SessionState`].
pub struct SessionView {
    pub stage: AppStage,
    pub failed_stage: Option<FailedStage>,
    pub show_settings: bool,
    pub transcripts: Seq<Seq<char>>,
    pub assemblyai_transcripts: Seq<Seq<char>>,
    pub logs: Seq<Seq<char>>,
    pub interim_transcript: Seq<char>,
    pub groq_result: Seq<char>,
    pub summary_result: Seq<char>,
    pub review_wav_path: Option<Seq<char>>,
    pub options: OptionsView,
    pub input_devices: Seq<Seq<char>>,
    pub output_devices: Seq<Seq<char>>,
    pub config_notice: Seq<char>,
    pub dark_mode: bool,
    pub settings_dirty: bool,
    pub settings_autosave_status: Seq<char>,
    pub transcript_dirty: bool,
    pub transcript_autosave_status: Seq<char>,
    pub deepgram_check_status: Seq<char>,
    pub assemblyai_check_status: Seq<char>,
    pub groq_check_status: Seq<char>,
    pub summary_check_status: Seq<char>,
    pub close_after_busy: bool,
    pub capture_running: bool,
}

impl View for SessionState {
    type V = SessionView;

    open spec fn view(&self) -> SessionView {
        SessionView {
            stage: self.stage,
            failed_stage: self.failed_stage,
            show_settings: self.show_settings,
            transcripts: self.transcripts.deep_view(),
            assemblyai_transcripts: self.assemblyai_transcripts.deep_view(),
            logs: self.logs.deep_view(),
            interim_transcript: self.interim_transcript@,
            groq_result: self.groq_result@,
            summary_result: self.summary_result@,
            review_wav_path: match self.review_wav_path {
                Some(p) => Some(p@),
                None => None,
            },
            options: self.options@,
            input_devices: self.input_devices.deep_view(),
            output_devices: self.output_devices.deep_view(),
            config_notice: self.config_notice@,
            dark_mode: self.dark_mode,
            settings_dirty: self.settings_dirty,
            settings_autosave_status: self.settings_autosave_status@,
            transcript_dirty: self.transcript_dirty,
            transcript_autosave_status: self.transcript_autosave_status@,
            deepgram_check_status: self.deepgram_check_status@,
            assemblyai_check_status: self.assemblyai_check_status@,
            groq_check_status: self.groq_check_status@,
            summary_check_status: self.summary_check_status@,
            close_after_busy: self.close_after_busy,
            capture_running: self.capture_running,
        }
    }
}

/// What a summary worker is started with.
pub struct SummaryJob {
    pub deepgram_transcript: String,
    pub whisper_transcript: String,
    pub assemblyai_transcript: String,
    pub system_prompt: String,
    pub api_key: String,
    pub base_url: String,
    pub model: String,
    pub output_path: String,
}

pub struct SummaryJobView {
    pub deepgram_transcript: Seq<char>,
    pub whisper_transcript: Seq<char>,
    pub assemblyai_transcript: Seq<char>,
    pub system_prompt: Seq<char>,
    pub api_key: Seq<char>,
    pub base_url: Seq<char>,
    pub model: Seq<char>,
    pub output_path: Seq<char>,
}

impl View for SummaryJob {
    type V = SummaryJobView;

    open spec fn view(&self) -> SummaryJobView {
        SummaryJobView {
            deepgram_transcript: self.deepgram_transcript@,
            whisper_transcript: self.whisper_transcript@,
            assemblyai_transcript: self.assemblyai_transcript@,
            system_prompt: self.system_prompt@,
            api_key: self.api_key@,
            base_url: self.base_url@,
            model: self.model@,
            output_path: self.output_path@,
        }
    }
}

pub open spec fn job_view(j: Option<SummaryJob>) -> Option<SummaryJobView> {
    match j {
        Some(x) => Some(x@),
        None => None,
    }
}

/// A log line stamped with the time of day.
pub open spec fn stamped(stamp: Seq<char>, line: Seq<char>) -> Seq<char> {
    "["@ + stamp + "] "@ + line
}

/// The log after appending a line: only the newest lines are kept.
pub open spec fn push_log_spec(logs: Seq<Seq<char>>, stamp: Seq<char>, line: Seq<char>) -> Seq<Seq<char>> {
    let l = logs.push(stamped(stamp, line));
    if l.len() > MAX_LOG_LINES {
        l.subrange(l.len() - MAX_LOG_LINES, l.len() as int)
    } else {
        l
    }
}

pub open spec fn log_spec(s: SessionView, stamp: Seq<char>, line: Seq<char>) -> SessionView {
    SessionView { logs: push_log_spec(s.logs, stamp, line), ..s }
}

/// Records an error: the line is appended (the log is not shortened) and the
/// session is in error.
pub open spec fn error_spec(s: SessionView, stamp: Seq<char>, err: Seq<char>) -> SessionView {
    SessionView {
        logs: s.logs.push("["@ + stamp + "] ERROR: "@ + err),
        stage: AppStage::Error,
        ..s
    }
}

/// The transcript entries a summary reads: trimmed, without blank entries and
/// without entries that record an error.
pub open spec fn kept_items(items: Seq<Seq<char>>) -> Seq<Seq<char>>
    decreases items.len(),
{
    if items.len() == 0 {
        Seq::empty()
    } else {
        let rest = kept_items(items.drop_last());
        let t = trim_spec(items.last());
        if t.len() > 0 && !starts_with_spec(t, "ERROR:"@) {
            rest.push(t)
        } else {
            rest
        }
    }
}

pub open spec fn joined_kept(items: Seq<Seq<char>>) -> Seq<char> {
    join_spec(kept_items(items), "\n"@)
}

/// Starting the summary worker: nothing happens unless the summary is enabled;
/// it is skipped, with a log line, when every transcript is empty.
pub open spec fn summary_start_spec(s: SessionView, stamp: Seq<char>) -> (SessionView, Option<SummaryJobView>) {
    if !s.options.enable_summary {
        (s, None)
    } else {
        let d = joined_kept(s.transcripts);
        let w = trim_spec(s.groq_result);
        let a = joined_kept(s.assemblyai_transcripts);
        if d.len() == 0 && w.len() == 0 && a.len() == 0 {
            (log_spec(s, stamp, "Summary: skipped because Deepgram, Groq, and AssemblyAI transcripts are empty"@), None)
        } else {
            (
                log_spec(
                    SessionView { stage: AppStage::SummaryProcessing, ..s },
                    stamp,
                    "Summary: sending available transcripts to the OpenAI-compatible API"@,
                ),
                Some(SummaryJobView {
                    deepgram_transcript: d,
                    whisper_transcript: w,
                    assemblyai_transcript: a,
                    system_prompt: s.options.summary_prompt,
                    api_key: s.options.summary_api_key,
                    base_url: s.options.summary_base_url,
                    model: s.options.summary_model,
                    output_path: s.options.summary_file_path,
                }),
            )
        }
    }
}

pub open spec fn check_status_text(result: Result<Seq<char>, Seq<char>>) -> Seq<char> {
    match result {
        Ok(m) => m,
        Err(e) => "Failed: "@ + e,
    }
}

/// The session after one worker message, and the summary worker it starts.
pub open spec fn handle_message_spec(s: SessionView, m: MessageView, stamp: Seq<char>) -> (SessionView, Option<SummaryJobView>) {
    match m {
        MessageView::InterimTranscript(t) => (SessionView { interim_transcript: t, ..s }, None),
        MessageView::FinalTranscript(t) => (
            SessionView { transcripts: s.transcripts.push(t), interim_transcript: Seq::empty(), ..s },
            None,
        ),
        MessageView::ReviewReady { wav_path } => (
            log_spec(
                SessionView {
                    interim_transcript: Seq::empty(),
                    review_wav_path: Some(wav_path),
                    capture_running: false,
                    stage: AppStage::Review,
                    ..s
                },
                stamp,
                "Review: transcript is editable before AI processing; WAV ready at "@ + wav_path,
            ),
            None,
        ),
        MessageView::GroqTranscript(t) => (
            log_spec(SessionView { groq_result: t, ..s }, stamp, "[Groq] Completed successfully."@),
            None,
        ),
        MessageView::AssemblyAiFinalTranscript(t) => (
            log_spec(
                SessionView { assemblyai_transcripts: seq![t], ..s },
                stamp,
                "[AssemblyAI] Completed successfully."@,
            ),
            None,
        ),
        MessageView::BatchTranscriptionDone => if s.options.enable_summary && trim_spec(
            s.summary_result,
        ).len() == 0 {
            summary_start_spec(s, stamp)
        } else {
            (SessionView { stage: AppStage::Done, failed_stage: None, ..s }, None)
        },
        MessageView::Summary(t) => (
            SessionView {
                stage: AppStage::Done,
                failed_stage: None,
                ..log_spec(SessionView { summary_result: t, ..s }, stamp, "[Summary] Completed successfully."@)
            },
            None,
        ),
        MessageView::Log(line) => (log_spec(s, stamp, line), None),
        MessageView::Error(e) => (error_spec(s, stamp, e), None),
        MessageView::GroqError(e) => (
            SessionView { failed_stage: Some(FailedStage::Groq), ..error_spec(s, stamp, "[Groq] Error: "@ + e) },
            None,
        ),
        MessageView::AssemblyAiError(e) => (
            SessionView {
                failed_stage: Some(FailedStage::AssemblyAi),
                ..error_spec(s, stamp, "[AssemblyAI] Error: "@ + e)
            },
            None,
        ),
        MessageView::SummaryError(e) => (
            SessionView {
                failed_stage: Some(FailedStage::Summary),
                ..error_spec(s, stamp, "[Summary] Error: "@ + e)
            },
            None,
        ),
        MessageView::Stage(name) => {
            let st = parse_stage_spec(name);
            (
                SessionView {
                    stage: st,
                    failed_stage: if st == AppStage::Error { s.failed_stage } else { None },
                    ..s
                },
                None,
            )
        },
        MessageView::CredentialCheck { provider, result } => {
            let status = check_status_text(result);
            (
                match provider {
                    CredentialProvider::Deepgram => SessionView { deepgram_check_status: status, ..s },
                    CredentialProvider::AssemblyAi => SessionView { assemblyai_check_status: status, ..s },
                    CredentialProvider::Groq => SessionView { groq_check_status: status, ..s },
                    CredentialProvider::Summary => SessionView { summary_check_status: status, ..s },
                },
                None,
            )
        },
        MessageView::Stopped => {
            let st = if s.stage == AppStage::Error {
                AppStage::Error
            } else if s.stage == AppStage::SummaryProcessing {
                AppStage::SummaryProcessing
            } else {
                AppStage::Done
            };
            let s1 = SessionView {
                stage: st,
                interim_transcript: Seq::empty(),
                capture_running: false,
                ..s
            };
            if s1.options.enable_summary && trim_spec(s1.summary_result).len() == 0 && st
                == AppStage::Done {
                summary_start_spec(s1, stamp)
            } else {
                (s1, None)
            }
        },
    }
}

/// Closing a window whose close was deferred, once no worker is busy.
pub open spec fn close_step_spec(s: SessionView) -> (SessionView, bool) {
    if s.close_after_busy && !s.stage.busy() {
        (SessionView { close_after_busy: false, ..s }, true)
    } else {
        (s, false)
    }
}

/// What the caller does after a message has been handled.
pub struct MessageOutcome {
    /// A summary worker to start.
    pub summary: Option<SummaryJob>,
    /// Whether the window is to be closed now.
    pub close_window: bool,
}

proof fn lemma_push_deep(v: Seq<String>, x: String)
    ensures
        Seq::new(v.push(x).len(), |i: int| v.push(x)[i].deep_view()) =~= Seq::new(
            v.len(),
            |i: int| v[i].deep_view(),
        ).push(x@),
{
}

fn clone_texts(v: &Vec<String>) -> (r: Vec<String>)
    ensures
        r.deep_view() == v.deep_view(),
{
    let mut r: Vec<String> = Vec::new();
    let mut i: usize = 0;
    while i < v.len()
        invariant
            i <= v@.len(),
            r@.len() == i,
            forall|k: int| 0 <= k < i ==> #[trigger] r@[k]@ == v@[k]@,
        decreases v@.len() - i,
    {
        let c = v[i].clone();
        r.push(c);
        i = i + 1;
    }
    assert(r.deep_view() =~= v.deep_view());
    r
}

/// The trimmed entries worth summarizing, joined by line breaks.
pub fn kept_transcript_text(items: &Vec<String>) -> (r: String)
    ensures
        r@ == joined_kept(items.deep_view()),
{
    let mut kept: Vec<String> = Vec::new();
    let mut i: usize = 0;
    while i < items.len()
        invariant
            i <= items@.len(),
            views(kept@) == kept_items(items.deep_view().subrange(0, i as int)),
        decreases items@.len() - i,
    {
        let t = trim(items[i].as_str());
        proof {
            let pre = items.deep_view().subrange(0, i as int);
            let post = items.deep_view().subrange(0, i + 1);
            assert(post.drop_last() =~= pre);
            assert(post.last() == items@[i as int]@);
        }
        if t.unicode_len() > 0 && !starts_with(t.as_str(), "ERROR:") {
            let ghost before = kept@;
            kept.push(t);
            assert(views(kept@) =~= views(before).push(kept@[kept@.len() - 1]@));
        }
        i = i + 1;
    }
    assert(items.deep_view().subrange(0, items@.len() as int) =~= items.deep_view());
    join_strings(&kept, "\n")
}

impl SessionState {
    /// A new session with the given options and theme.
    pub open spec fn initial_spec(options: OptionsView, dark_mode: bool) -> SessionView {
        SessionView {
            stage: AppStage::Init,
            failed_stage: None,
            show_settings: false,
            transcripts: Seq::empty(),
            assemblyai_transcripts: Seq::empty(),
            logs: seq!["Init: choose a mode, then click Start"@],
            interim_transcript: Seq::empty(),
            groq_result: Seq::empty(),
            summary_result: Seq::empty(),
            review_wav_path: None,
            options,
            input_devices: Seq::empty(),
            output_devices: Seq::empty(),
            config_notice: Seq::empty(),
            dark_mode,
            settings_dirty: false,
            settings_autosave_status: "Settings saved"@,
            transcript_dirty: false,
            transcript_autosave_status: "Realtime transcript saved"@,
            deepgram_check_status: "Unchecked"@,
            assemblyai_check_status: "Unchecked"@,
            groq_check_status: "Unchecked"@,
            summary_check_status: "Unchecked"@,
            close_after_busy: false,
            capture_running: false,
        }
    }

    pub fn new(options: WorkflowOptions, dark_mode: bool) -> (r: SessionState)
        ensures
            r@ == Self::initial_spec(options@, dark_mode),
    {
        let mut logs: Vec<String> = Vec::new();
        logs.push(owned("Init: choose a mode, then click Start"));
        let r = SessionState {
            stage: AppStage::Init,
            failed_stage: None,
            show_settings: false,
            transcripts: Vec::new(),
            assemblyai_transcripts: Vec::new(),
            logs,
            interim_transcript: String::new(),
            groq_result: String::new(),
            summary_result: String::new(),
            review_wav_path: None,
            options,
            input_devices: Vec::new(),
            output_devices: Vec::new(),
            config_notice: String::new(),
            dark_mode,
            settings_dirty: false,
            settings_autosave_status: owned("Settings saved"),
            transcript_dirty: false,
            transcript_autosave_status: owned("Realtime transcript saved"),
            deepgram_check_status: owned("Unchecked"),
            assemblyai_check_status: owned("Unchecked"),
            groq_check_status: owned("Unchecked"),
            summary_check_status: owned("Unchecked"),
            close_after_busy: false,
            capture_running: false,
        };
        assert(r@.transcripts =~= Seq::<Seq<char>>::empty());
        assert(r@.assemblyai_transcripts =~= Seq::<Seq<char>>::empty());
        assert(r@.input_devices =~= Seq::<Seq<char>>::empty());
        assert(r@.output_devices =~= Seq::<Seq<char>>::empty());
        assert(r@.logs =~= seq!["Init: choose a mode, then click Start"@]);
        r
    }

    /// Appends a log line stamped `stamp`, keeping the newest lines only.
    pub fn push_log_at(&mut self, line: &str, stamp: &str)
        ensures
            final(self)@ == log_spec(old(self)@, stamp@, line@),
    {
        let mut entry = cat3("[", stamp, "] ");
        entry.append(line);
        let ghost before = self.logs@;
        self.logs.push(entry);
        proof {
            lemma_push_deep(before, self.logs@.last());
            assert(self.logs@ == before.push(self.logs@.last()));
        }
        let n = self.logs.len();
        if n > MAX_LOG_LINES {
            let ghost full = self.logs@;
            let tail = self.logs.split_off(n - MAX_LOG_LINES);
            self.logs = tail;
            assert(self.logs.deep_view() =~= full.map_values(|x: String| x@).subrange((n - MAX_LOG_LINES) as int, n as int));
        }
        assert(self@.logs =~= push_log_spec(old(self)@.logs, stamp@, line@));
    }

    /// Appends an error line stamped `stamp` and puts the session in error.
    pub fn push_error_at(&mut self, err: &str, stamp: &str)
        ensures
            final(self)@ == error_spec(old(self)@, stamp@, err@),
    {
        let mut entry = cat3("[", stamp, "] ERROR: ");
        entry.append(err);
        let ghost before = self.logs@;
        self.logs.push(entry);
        proof {
            lemma_push_deep(before, self.logs@.last());
        }
        self.stage = AppStage::Error;
        assert(self@.logs =~= old(self)@.logs.push("["@ + stamp@ + "] ERROR: "@ + err@));
    }

    /// Appends a log line stamped with the local time of day (`HH:MM:SS`).
    pub fn push_log(&mut self, line: &str)
        ensures
            exists|stamp: Seq<char>| hms_text(stamp) && final(self)@ == log_spec(old(self)@, stamp, line@),
    {
        let stamp = crate::clock::clock_hms();
        self.push_log_at(line, stamp.as_str());
    }

    /// Appends an error line stamped with the local time of day (`HH:MM:SS`).
    pub fn push_error(&mut self, err: &str)
        ensures
            exists|stamp: Seq<char>| hms_text(stamp) && final(self)@ == error_spec(old(self)@, stamp, err@),
    {
        let stamp = crate::clock::clock_hms();
        self.push_error_at(err, stamp.as_str());
    }

    /// Starts the summary step if it is enabled and some transcript has text.
    pub fn start_summary_at(&mut self, stamp: &str) -> (job: Option<SummaryJob>)
        ensures
            (final(self)@, job_view(job)) == summary_start_spec(old(self)@, stamp@),
    {
        if !self.options.enable_summary {
            return None;
        }
        let d = kept_transcript_text(&self.transcripts);
        let w = trim(self.groq_result.as_str());
        let a = kept_transcript_text(&self.assemblyai_transcripts);
        if d.unicode_len() == 0 && w.unicode_len() == 0 && a.unicode_len() == 0 {
            self.push_log_at("Summary: skipped because Deepgram, Groq, and AssemblyAI transcripts are empty", stamp);
            return None;
        }
        self.stage = AppStage::SummaryProcessing;
        self.push_log_at("Summary: sending available transcripts to the OpenAI-compatible API", stamp);
        Some(SummaryJob {
            deepgram_transcript: d,
            whisper_transcript: w,
            assemblyai_transcript: a,
            system_prompt: self.options.summary_prompt.clone(),
            api_key: self.options.summary_api_key.clone(),
            base_url: self.options.summary_base_url.clone(),
            model: self.options.summary_model.clone(),
            output_path: self.options.summary_file_path.clone(),
        })
    }

    /// Closes a window whose close was deferred once no worker is busy.
    pub fn close_window_if_ready(&mut self) -> (close: bool)
        ensures
            (final(self)@, close) == close_step_spec(old(self)@),
    {
        if self.close_after_busy && !self.stage.is_busy() {
            self.close_after_busy = false;
            true
        } else {
            false
        }
    }

    /// Handles one worker message stamped `stamp`: the session changes as
    /// [`handle_message_spec`] says, then a deferred close is carried out if no
    /// worker is busy any more.
    pub fn handle_message_at(&mut self, msg: UiMessage, stamp: &str) -> (out: MessageOutcome)
        ensures
            ({
                let (s1, job) = handle_message_spec(old(self)@, msg@, stamp@);
                let (s2, close) = close_step_spec(s1);
                final(self)@ == s2 && job_view(out.summary) == job && out.close_window == close
            }),
    {
        let summary = self.apply_message(msg, stamp);
        let close_window = self.close_window_if_ready();
        MessageOutcome { summary, close_window }
    }

    /// Handles one worker message stamped with the local time of day (`HH:MM:SS`).
    pub fn handle_message(&mut self, msg: UiMessage) -> (out: MessageOutcome)
        ensures
            exists|stamp: Seq<char>| #![trigger handle_message_spec(old(self)@, msg@, stamp)] {
                let (s1, job) = handle_message_spec(old(self)@, msg@, stamp);
                let (s2, close) = close_step_spec(s1);
                hms_text(stamp) && final(self)@ == s2 && job_view(out.summary) == job && out.close_window == close
            },
    {
        let stamp = crate::clock::clock_hms();
        let ghost m = msg@;
        let out = self.handle_message_at(msg, stamp.as_str());
        assert({
            let (s1, job) = handle_message_spec(old(self)@, m, stamp@);
            let (s2, close) = close_step_spec(s1);
            self@ == s2 && job_view(out.summary) == job && out.close_window == close
        });
        out
    }

    fn apply_message(&mut self, msg: UiMessage, stamp: &str) -> (job: Option<SummaryJob>)
        ensures
            (final(self)@, job_view(job)) == handle_message_spec(old(self)@, msg@, stamp@),
    {
        match msg {
            UiMessage::InterimTranscript(text) => {
                self.interim_transcript = text;
                None
            },
            UiMessage::FinalTranscript(text) => self.on_final_transcript(text),
            UiMessage::ReviewReady { wav_path } => self.on_review_ready(wav_path, stamp),
            UiMessage::GroqTranscript(text) => self.on_groq_transcript(text, stamp),
            UiMessage::AssemblyAiFinalTranscript(text) => self.on_assemblyai_transcript(text, stamp),
            UiMessage::BatchTranscriptionDone => self.on_batch_done(stamp),
            UiMessage::Summary(text) => self.on_summary(text, stamp),
            UiMessage::Log(line) => {
                self.push_log_at(line.as_str(), stamp);
                None
            },
            UiMessage::Error(err) => {
                self.push_error_at(err.as_str(), stamp);
                None
            },
            UiMessage::GroqError(err) => self.on_step_error(err, FailedStage::Groq, stamp),
            UiMessage::AssemblyAiError(err) => self.on_step_error(err, FailedStage::AssemblyAi, stamp),
            UiMessage::SummaryError(err) => self.on_step_error(err, FailedStage::Summary, stamp),
            UiMessage::Stage(name) => {
                self.stage = parse_stage(name.as_str());
                if self.stage != AppStage::Error {
                    self.failed_stage = None;
                }
                None
            },
            UiMessage::CredentialCheck { provider, result } => self.on_check(provider, result),
            UiMessage::Stopped => self.on_stopped(stamp),
        }
    }

    fn on_final_transcript(&mut self, text: String) -> (job: Option<SummaryJob>)
        ensures
            (final(self)@, job_view(job)) == handle_message_spec(old(self)@, MessageView::FinalTranscript(text@), Seq::empty()),
    {
        let ghost before = self.transcripts@;
        self.transcripts.push(text);
        proof {
            lemma_push_deep(before, self.transcripts@.last());
        }
        self.interim_transcript = String::new();
        None
    }

    fn on_review_ready(&mut self, wav_path: String, stamp: &str) -> (job: Option<SummaryJob>)
        ensures
            (final(self)@, job_view(job)) == handle_message_spec(old(self)@, MessageView::ReviewReady { wav_path: wav_path@ }, stamp@),
    {
        self.interim_transcript = String::new();
        let line = cat("Review: transcript is editable before AI processing; WAV ready at ", wav_path.as_str());
        self.review_wav_path = Some(wav_path);
        self.capture_running = false;
        self.stage = AppStage::Review;
        self.push_log_at(line.as_str(), stamp);
        None
    }

    fn on_groq_transcript(&mut self, text: String, stamp: &str) -> (job: Option<SummaryJob>)
        ensures
            (final(self)@, job_view(job)) == handle_message_spec(old(self)@, MessageView::GroqTranscript(text@), stamp@),
    {
        self.groq_result = text;
        self.push_log_at("[Groq] Completed successfully.", stamp);
        None
    }

    fn on_assemblyai_transcript(&mut self, text: String, stamp: &str) -> (job: Option<SummaryJob>)
        ensures
            (final(self)@, job_view(job)) == handle_message_spec(old(self)@, MessageView::AssemblyAiFinalTranscript(text@), stamp@),
    {
        let mut v: Vec<String> = Vec::new();
        v.push(text);
        self.assemblyai_transcripts = v;
        assert(self.assemblyai_transcripts.deep_view() =~= seq![self.assemblyai_transcripts@[0]@]);
        self.push_log_at("[AssemblyAI] Completed successfully.", stamp);
        None
    }

    fn on_batch_done(&mut self, stamp: &str) -> (job: Option<SummaryJob>)
        ensures
            (final(self)@, job_view(job)) == handle_message_spec(old(self)@, MessageView::BatchTranscriptionDone, stamp@),
    {
        let t = trim(self.summary_result.as_str());
        if self.options.enable_summary && t.unicode_len() == 0 {
            self.start_summary_at(stamp)
        } else {
            self.stage = AppStage::Done;
            self.failed_stage = None;
            None
        }
    }

    fn on_summary(&mut self, text: String, stamp: &str) -> (job: Option<SummaryJob>)
        ensures
            (final(self)@, job_view(job)) == handle_message_spec(old(self)@, MessageView::Summary(text@), stamp@),
    {
        self.summary_result = text;
        self.push_log_at("[Summary] Completed successfully.", stamp);
        self.stage = AppStage::Done;
        self.failed_stage = None;
        None
    }

    fn on_step_error(&mut self, err: String, failed: FailedStage, stamp: &str) -> (job: Option<SummaryJob>)
        ensures
            (final(self)@, job_view(job)) == handle_message_spec(old(self)@, match failed {
                FailedStage::Groq => MessageView::GroqError(err@),
                FailedStage::AssemblyAi => MessageView::AssemblyAiError(err@),
                FailedStage::Summary => MessageView::SummaryError(err@),
            }, stamp@),
    {
        let e = match failed {
            FailedStage::Groq => cat("[Groq] Error: ", err.as_str()),
            FailedStage::AssemblyAi => cat("[AssemblyAI] Error: ", err.as_str()),
            FailedStage::Summary => cat("[Summary] Error: ", err.as_str()),
        };
        self.push_error_at(e.as_str(), stamp);
        self.failed_stage = Some(failed);
        None
    }

    fn on_check(&mut self, provider: CredentialProvider, result: Result<String, String>) -> (job: Option<SummaryJob>)
        ensures
            (final(self)@, job_view(job)) == handle_message_spec(old(self)@, MessageView::CredentialCheck {
                provider,
                result: match result {
                    Ok(m) => Ok(m@),
                    Err(e) => Err(e@),
                },
            }, Seq::empty()),
    {
        let status = match result {
            Ok(message) => message,
            Err(err) => cat("Failed: ", err.as_str()),
        };
        match provider {
            CredentialProvider::Deepgram => self.deepgram_check_status = status,
            CredentialProvider::AssemblyAi => self.assemblyai_check_status = status,
            CredentialProvider::Groq => self.groq_check_status = status,
            CredentialProvider::Summary => self.summary_check_status = status,
        }
        None
    }

    fn on_stopped(&mut self, stamp: &str) -> (job: Option<SummaryJob>)
        ensures
            (final(self)@, job_view(job)) == handle_message_spec(old(self)@, MessageView::Stopped, stamp@),
    {
        self.stage = if self.stage == AppStage::Error {
            AppStage::Error
        } else if self.stage == AppStage::SummaryProcessing {
            AppStage::SummaryProcessing
        } else {
            AppStage::Done
        };
        self.interim_transcript = String::new();
        self.capture_running = false;
        let t = trim(self.summary_result.as_str());
        if self.options.enable_summary && t.unicode_len() == 0 && self.stage == AppStage::Done {
            self.start_summary_at(stamp)
        } else {
            None
        }
    }
}

} // verus!
