//! User actions on the session: starting and stopping a recording, the
//! after-review steps, skipping and retrying them, resetting, closing, and the
//! autosave bookkeeping.

use vstd::prelude::*;
use crate::options::{mode_spec, session_dir_spec, session_file_name_spec, session_output_path_in_dir, AfterReviewTranscriptionMode};
use crate::messages::{CredentialProvider, MessageView, UiMessage};
use crate::session::{error_spec, handle_message_spec, job_view, joined_kept, log_spec, push_log_spec, summary_start_spec, SessionState, SessionView, SummaryJob, SummaryJobView};
use crate::stage::{AppStage, FailedStage};
use crate::text::{cat, cat3, decimal, decimal_string, join_spec, join_strings, owned, text_eq, trim, trim_spec, views};

verus! {

/// What a transcription worker is started with after review.
pub struct TranscriptionJob {
    pub wav_path: String,
    pub run_groq: bool,
    pub run_assemblyai: bool,
    pub groq_file_path: String,
    pub groq_api_key: String,
    pub groq_model: String,
    pub assemblyai_file_path: String,
    pub assemblyai_api_key: String,
    pub assemblyai_model: String,
    pub language: String,
}

pub struct TranscriptionJobView {
    pub wav_path: Seq<char>,
    pub run_groq: bool,
    pub run_assemblyai: bool,
    pub groq_file_path: Seq<char>,
    pub groq_api_key: Seq<char>,
    pub groq_model: Seq<char>,
    pub assemblyai_file_path: Seq<char>,
    pub assemblyai_api_key: Seq<char>,
    pub assemblyai_model: Seq<char>,
    pub language: Seq<char>,
}

impl View for TranscriptionJob {
    type V = TranscriptionJobView;

    open spec fn view(&self) -> TranscriptionJobView {
        TranscriptionJobView {
            wav_path: self.wav_path@,
            run_groq: self.run_groq,
            run_assemblyai: self.run_assemblyai,
            groq_file_path: self.groq_file_path@,
            groq_api_key: self.groq_api_key@,
            groq_model: self.groq_model@,
            assemblyai_file_path: self.assemblyai_file_path@,
            assemblyai_api_key: self.assemblyai_api_key@,
            assemblyai_model: self.assemblyai_model@,
            language: self.language@,
        }
    }
}

/// The work an action leaves for the caller.
pub enum NextStep {
    Idle,
    StartSummary(SummaryJob),
    /// Run the after-review steps (saving pending transcript edits first).
    RunAfterReview { skip_groq: bool },
    Transcribe(TranscriptionJob),
}

pub enum NextStepView {
    Idle,
    StartSummary(SummaryJobView),
    RunAfterReview { skip_groq: bool },
    Transcribe(TranscriptionJobView),
}

impl View for NextStep {
    type V = NextStepView;

    open spec fn view(&self) -> NextStepView {
        match self {
            NextStep::Idle => NextStepView::Idle,
            NextStep::StartSummary(j) => NextStepView::StartSummary(j@),
            NextStep::RunAfterReview { skip_groq } => NextStepView::RunAfterReview { skip_groq: *skip_groq },
            NextStep::Transcribe(j) => NextStepView::Transcribe(j@),
        }
    }
}

/// The next step once the summary worker may have been started.
pub open spec fn summary_step(r: (SessionView, Option<SummaryJobView>)) -> (SessionView, NextStepView) {
    (r.0, match r.1 {
        Some(j) => NextStepView::StartSummary(j),
        None => NextStepView::Idle,
    })
}

fn summary_next(job: Option<SummaryJob>) -> (n: NextStep)
    ensures
        n@ == (match job_view(job) {
            Some(j) => NextStepView::StartSummary(j),
            None => NextStepView::Idle,
        }),
{
    match job {
        Some(j) => NextStep::StartSummary(j),
        None => NextStep::Idle,
    }
}

/// Whether a session path is `dir/file` for the trimmed folder `dir`, or for
/// some default folder when `dir` is blank.
pub open spec fn session_path_rel(r: Seq<char>, dir: Seq<char>, prefix: Seq<char>, id: Seq<char>, name: Seq<char>, ext: Seq<char>) -> bool {
    &&& session_dir_spec(dir).len() > 0 ==> r == session_dir_spec(dir) + "/"@ + session_file_name_spec(prefix, id, name, ext)
    &&& session_dir_spec(dir).len() == 0 ==> exists|d: Seq<char>| r == d + "/"@ + session_file_name_spec(prefix, id, name, ext)
}

pub open spec fn begin_workflow_spec(s: SessionView, stamp: Seq<char>) -> (SessionView, bool) {
    if s.stage.busy() {
        (s, false)
    } else {
        (
            log_spec(
                SessionView {
                    stage: AppStage::Recording,
                    transcript_dirty: false,
                    transcript_autosave_status: "Realtime transcript saved"@,
                    transcripts: Seq::empty(),
                    assemblyai_transcripts: Seq::empty(),
                    logs: Seq::empty(),
                    interim_transcript: Seq::empty(),
                    groq_result: Seq::empty(),
                    summary_result: Seq::empty(),
                    review_wav_path: None,
                    ..s
                },
                stamp,
                "Workflow: start"@,
            ),
            true,
        )
    }
}

/// The checks that must pass before audio capture starts.
pub open spec fn validate_start_spec(s: SessionView, stamp: Seq<char>) -> (SessionView, bool) {
    let o = s.options;
    if o.auto_groq && (o.groq_api_key.len() == 0 || o.groq_api_key == "your_groq_api_key_here"@) {
        (error_spec(s, stamp, "groq_api_key is empty or invalid; disable Auto Groq or fill settings.json"@), false)
    } else if o.enable_summary && !o.enable_deepgram && !o.auto_groq {
        (error_spec(s, stamp, "AI Summary needs Deepgram realtime or Auto Groq enabled so a transcript is available"@), false)
    } else if o.enable_summary && (trim_spec(o.summary_api_key).len() == 0 || o.summary_api_key == "your_openai_compatible_api_key_here"@) {
        (error_spec(s, stamp, "OPENAI_API_KEY is empty or invalid; disable AI Summary or fill settings.json"@), false)
    } else if o.input_device_names.len() == 0 && o.output_device_names.len() == 0 {
        (error_spec(s, stamp, "Select at least one microphone or system audio device."@), false)
    } else {
        (s, true)
    }
}

pub open spec fn stop_spec(s: SessionView, stamp: Seq<char>) -> (SessionView, bool) {
    if s.stage != AppStage::Recording {
        (s, false)
    } else {
        (
            SessionView {
                interim_transcript: Seq::empty(),
                stage: AppStage::Finalizing,
                ..log_spec(s, stamp, "UI: stop clicked"@)
            },
            s.capture_running,
        )
    }
}

/// What the caller does about a request to close the window.
pub struct CloseRequestOutcome {
    /// Keep the window open for now.
    pub cancel_close: bool,
    /// Stop audio capture.
    pub cancel_capture: bool,
}

pub open spec fn close_request_spec(s: SessionView, requested: bool, stamp: Seq<char>) -> (SessionView, bool, bool) {
    if !requested || !s.stage.busy() {
        (s, false, false)
    } else {
        let s1 = if !s.close_after_busy {
            log_spec(s, stamp, "UI: close requested, waiting for current workflow to finish safely"@)
        } else {
            s
        };
        let s2 = SessionView { close_after_busy: true, ..s1 };
        if s2.stage == AppStage::Recording {
            let (s3, cancel) = stop_spec(s2, stamp);
            (s3, true, cancel)
        } else {
            (s2, true, false)
        }
    }
}

pub open spec fn reset_spec(s: SessionView, stamp: Seq<char>) -> SessionView {
    if s.stage.busy() {
        s
    } else {
        log_spec(
            SessionView {
                stage: AppStage::Init,
                transcript_dirty: false,
                transcript_autosave_status: "Realtime transcript saved"@,
                transcripts: Seq::empty(),
                assemblyai_transcripts: Seq::empty(),
                interim_transcript: Seq::empty(),
                groq_result: Seq::empty(),
                summary_result: Seq::empty(),
                review_wav_path: None,
                logs: Seq::empty(),
                ..s
            },
            stamp,
            "Init: ready to start a new session"@,
        )
    }
}

pub open spec fn skip_spec(s: SessionView, stage: FailedStage, stamp: Seq<char>) -> (SessionView, NextStepView) {
    match stage {
        FailedStage::Groq => {
            let s1 = SessionView {
                stage: AppStage::Review,
                failed_stage: None,
                ..log_spec(s, stamp, "[Groq] Skipped by user."@)
            };
            if mode_spec(s.options.auto_groq, s.options.enable_assemblyai).assemblyai_runs() {
                (s1, NextStepView::RunAfterReview { skip_groq: false })
            } else if s.options.enable_summary {
                summary_step(summary_start_spec(s1, stamp))
            } else {
                (SessionView { stage: AppStage::Done, ..s1 }, NextStepView::Idle)
            }
        },
        FailedStage::AssemblyAi => {
            let s1 = SessionView {
                stage: AppStage::Review,
                failed_stage: None,
                ..log_spec(s, stamp, "[AssemblyAI] Skipped by user."@)
            };
            if s.options.enable_summary {
                summary_step(summary_start_spec(s1, stamp))
            } else {
                (SessionView { stage: AppStage::Done, ..s1 }, NextStepView::Idle)
            }
        },
        FailedStage::Summary => (
            SessionView {
                stage: AppStage::Done,
                failed_stage: None,
                ..log_spec(s, stamp, "[Summary] Skipped by user."@)
            },
            NextStepView::Idle,
        ),
    }
}

pub open spec fn retry_spec(s: SessionView, stamp: Seq<char>) -> (SessionView, NextStepView) {
    let s0 = SessionView { failed_stage: None, ..s };
    match s.failed_stage {
        Some(FailedStage::Summary) => summary_step(
            summary_start_spec(log_spec(s0, stamp, "[Summary] Retrying summary generation..."@), stamp),
        ),
        Some(FailedStage::AssemblyAi) => (
            log_spec(s0, stamp, "[AssemblyAI] Retrying WAV transcription..."@),
            NextStepView::RunAfterReview { skip_groq: true },
        ),
        _ => (
            log_spec(s0, stamp, "[Groq] Retrying WAV transcription..."@),
            NextStepView::RunAfterReview { skip_groq: false },
        ),
    }
}

pub open spec fn plan_after_review_spec(s: SessionView, skip_groq: bool, stamp: Seq<char>) -> (SessionView, NextStepView) {
    match s.review_wav_path {
        None => (error_spec(s, stamp, "Review WAV path is missing; start a new recording"@), NextStepView::Idle),
        Some(wav) => {
            let s1 = log_spec(s, stamp, "Review: AI processing requested"@);
            let mode = mode_spec(s.options.auto_groq, s.options.enable_assemblyai);
            if mode == AfterReviewTranscriptionMode::Disabled || (skip_groq && !mode.assemblyai_runs()) {
                if s.options.enable_summary {
                    summary_step(summary_start_spec(s1, stamp))
                } else {
                    (log_spec(SessionView { stage: AppStage::Done, ..s1 }, stamp, "Review: no AI post-processing enabled"@), NextStepView::Idle)
                }
            } else {
                (
                    SessionView { stage: AppStage::GroqProcessing, ..s1 },
                    NextStepView::Transcribe(TranscriptionJobView {
                        wav_path: wav,
                        run_groq: !skip_groq && mode.groq_runs(),
                        run_assemblyai: mode.assemblyai_runs(),
                        groq_file_path: s.options.groq_file_path,
                        groq_api_key: s.options.groq_api_key,
                        groq_model: s.options.groq_model,
                        assemblyai_file_path: s.options.assemblyai_file_path,
                        assemblyai_api_key: s.options.assemblyai_api_key,
                        assemblyai_model: s.options.assemblyai_model,
                        language: s.options.language,
                    }),
                )
            }
        },
    }
}

/// The realtime transcript blocks, numbered from one.
pub open spec fn final_blocks(items: Seq<Seq<char>>) -> Seq<Seq<char>> {
    Seq::new(items.len(), |i: int| "Final #"@ + decimal((i + 1) as nat) + "\n"@ + trim_spec(items[i]))
}

/// The file written when realtime transcript edits are saved on `date`.
pub open spec fn edited_transcript_spec(items: Seq<Seq<char>>, date: Seq<char>) -> Seq<char> {
    "[Edited from UI: "@ + date + "]\n\n"@ + trim_spec(join_spec(final_blocks(items), "\n\n"@)) + "\n"@
}

/// What the after-review worker learned last.
pub enum TranscriptionEvent {
    /// The activity analysis of the WAV file: whether it holds speech, or the error.
    Analyzed(Result<bool, String>),
    /// The Groq transcript, or the error.
    Groq(Result<String, String>),
    /// The AssemblyAI transcript, or the error.
    AssemblyAi(Result<String, String>),
}

/// What the after-review worker does next.
#[derive(Clone, Copy, Debug, PartialEq, Eq, Structural)]
pub enum TranscriptionAction {
    RunGroq,
    RunAssemblyAi,
    Done,
}

/// The values of a list of messages.
pub open spec fn message_views(v: Seq<UiMessage>) -> Seq<MessageView> {
    v.map_values(|m: UiMessage| m@)
}

/// The messages that announce the AssemblyAI upload, or the end of the batch.
pub open spec fn after_groq_spec(run_assemblyai: bool) -> (Seq<MessageView>, TranscriptionAction) {
    if run_assemblyai {
        (
            seq![
                MessageView::Stage("AssemblyAI WAV upload"@),
                MessageView::Log("[AssemblyAI] Starting WAV upload..."@),
            ],
            TranscriptionAction::RunAssemblyAi,
        )
    } else {
        (seq![MessageView::BatchTranscriptionDone], TranscriptionAction::Done)
    }
}

/// The messages the after-review worker sends for `event` and what it does
/// next: a silent or unreadable recording ends the batch with `Stopped`;
/// a recording with speech runs Groq (when the job asks for it), then
/// AssemblyAI (when asked), then reports the batch done; an error of either
/// service ends the batch.
pub open spec fn transcription_step_spec(run_groq: bool, run_assemblyai: bool, event: TranscriptionEvent) -> (
    Seq<MessageView>,
    TranscriptionAction,
) {
    match event {
        TranscriptionEvent::Analyzed(Ok(true)) => if run_groq {
            (
                seq![
                    MessageView::Stage("Groq chunk/upload"@),
                    MessageView::Log("[Groq] Starting WAV transcription..."@),
                ],
                TranscriptionAction::RunGroq,
            )
        } else {
            after_groq_spec(run_assemblyai)
        },
        TranscriptionEvent::Analyzed(Ok(false)) => (
            seq![
                MessageView::Log(
                    "After-review transcription skipped because the WAV is silent or has no valid audio"@,
                ),
                MessageView::Stopped,
            ],
            TranscriptionAction::Done,
        ),
        TranscriptionEvent::Analyzed(Err(e)) => (
            seq![MessageView::Error("Audio analysis error: "@ + e@), MessageView::Stopped],
            TranscriptionAction::Done,
        ),
        TranscriptionEvent::Groq(Ok(t)) => {
            let (rest, next) = after_groq_spec(run_assemblyai);
            (seq![MessageView::GroqTranscript(t@)] + rest, next)
        },
        TranscriptionEvent::Groq(Err(e)) => (seq![MessageView::GroqError(e@)], TranscriptionAction::Done),
        TranscriptionEvent::AssemblyAi(Ok(t)) => (
            seq![MessageView::AssemblyAiFinalTranscript(t@), MessageView::BatchTranscriptionDone],
            TranscriptionAction::Done,
        ),
        TranscriptionEvent::AssemblyAi(Err(e)) => (
            seq![MessageView::AssemblyAiError(e@)],
            TranscriptionAction::Done,
        ),
    }
}

fn after_groq(run_assemblyai: bool, msgs: &mut Vec<UiMessage>) -> (next: TranscriptionAction)
    ensures
        message_views(final(msgs)@) == message_views(old(msgs)@) + after_groq_spec(run_assemblyai).0,
        next == after_groq_spec(run_assemblyai).1,
{
    let ghost before = old(msgs)@;
    if run_assemblyai {
        msgs.push(UiMessage::Stage(owned("AssemblyAI WAV upload")));
        msgs.push(UiMessage::Log(owned("[AssemblyAI] Starting WAV upload...")));
        assert(message_views(msgs@) =~= message_views(before) + after_groq_spec(run_assemblyai).0);
        TranscriptionAction::RunAssemblyAi
    } else {
        msgs.push(UiMessage::BatchTranscriptionDone);
        assert(message_views(msgs@) =~= message_views(before) + after_groq_spec(run_assemblyai).0);
        TranscriptionAction::Done
    }
}

/// One step of the after-review worker for `job`: the messages to send for
/// `event`, in order, and what to do next (see [`transcription_step_spec`]).
pub fn transcription_step(job: &TranscriptionJob, event: TranscriptionEvent) -> (r: (Vec<UiMessage>, TranscriptionAction))
    ensures
        (message_views(r.0@), r.1) == transcription_step_spec(job.run_groq, job.run_assemblyai, event),
{
    let ghost ev = event;
    let mut msgs: Vec<UiMessage> = Vec::new();
    let next = match event {
        TranscriptionEvent::Analyzed(Ok(true)) => {
            if job.run_groq {
                msgs.push(UiMessage::Stage(owned("Groq chunk/upload")));
                msgs.push(UiMessage::Log(owned("[Groq] Starting WAV transcription...")));
                TranscriptionAction::RunGroq
            } else {
                after_groq(job.run_assemblyai, &mut msgs)
            }
        },
        TranscriptionEvent::Analyzed(Ok(false)) => {
            msgs.push(UiMessage::Log(owned(
                "After-review transcription skipped because the WAV is silent or has no valid audio",
            )));
            msgs.push(UiMessage::Stopped);
            TranscriptionAction::Done
        },
        TranscriptionEvent::Analyzed(Err(e)) => {
            msgs.push(UiMessage::Error(cat("Audio analysis error: ", e.as_str())));
            msgs.push(UiMessage::Stopped);
            TranscriptionAction::Done
        },
        TranscriptionEvent::Groq(Ok(t)) => {
            msgs.push(UiMessage::GroqTranscript(t));
            after_groq(job.run_assemblyai, &mut msgs)
        },
        TranscriptionEvent::Groq(Err(e)) => {
            msgs.push(UiMessage::GroqError(e));
            TranscriptionAction::Done
        },
        TranscriptionEvent::AssemblyAi(Ok(t)) => {
            msgs.push(UiMessage::AssemblyAiFinalTranscript(t));
            msgs.push(UiMessage::BatchTranscriptionDone);
            TranscriptionAction::Done
        },
        TranscriptionEvent::AssemblyAi(Err(e)) => {
            msgs.push(UiMessage::AssemblyAiError(e));
            TranscriptionAction::Done
        },
    };
    assert(message_views(msgs@) =~= transcription_step_spec(job.run_groq, job.run_assemblyai, ev).0);
    (msgs, next)
}

/// Whether an autosave is due.
pub enum AutosaveStep {
    /// Nothing to save.
    Idle,
    /// Save after this many more milliseconds.
    Wait(u64),
    Save,
}

/// The autosave decision for a dirty flag, the time since the last edit and the
/// debounce delay.
pub fn autosave_step(dirty: bool, elapsed_ms: Option<u64>, debounce_ms: u64) -> (r: AutosaveStep)
    ensures
        !dirty ==> r is Idle,
        dirty && elapsed_ms is None ==> r is Idle,
        dirty && elapsed_ms is Some && elapsed_ms->0 < debounce_ms ==> r == AutosaveStep::Wait((debounce_ms - elapsed_ms->0) as u64),
        dirty && elapsed_ms is Some && elapsed_ms->0 >= debounce_ms ==> r is Save,
{
    if !dirty {
        return AutosaveStep::Idle;
    }
    match elapsed_ms {
        None => AutosaveStep::Idle,
        Some(e) => {
            if e < debounce_ms {
                AutosaveStep::Wait(debounce_ms - e)
            } else {
                AutosaveStep::Save
            }
        },
    }
}

impl SessionState {
    /// Starts a new session unless a worker is busy; returns whether it started.
    pub fn begin_workflow_at(&mut self, stamp: &str) -> (started: bool)
        ensures
            (final(self)@, started) == begin_workflow_spec(old(self)@, stamp@),
    {
        if self.stage.is_busy() {
            return false;
        }
        self.stage = AppStage::Recording;
        self.transcript_dirty = false;
        self.transcript_autosave_status = owned("Realtime transcript saved");
        self.transcripts = Vec::new();
        self.assemblyai_transcripts = Vec::new();
        self.logs = Vec::new();
        self.interim_transcript = String::new();
        self.groq_result = String::new();
        self.summary_result = String::new();
        self.review_wav_path = None;
        assert(self@.transcripts =~= Seq::<Seq<char>>::empty());
        assert(self@.assemblyai_transcripts =~= Seq::<Seq<char>>::empty());
        assert(self@.logs =~= Seq::<Seq<char>>::empty());
        self.push_log_at("Workflow: start", stamp);
        true
    }

    /// Names the session's output files inside the created output folders.
    pub fn configure_session_at(&mut self, output_dir: &str, audio_dir: &str, transcripts_dir: &str, session_id: &str, stamp: &str)
        ensures
            ({
                let o = final(self)@.options;
                let p = old(self)@.options.output_prefix;
                &&& final(self)@ == log_spec(SessionView {
                    options: crate::options::OptionsView {
                        output_dir: output_dir@,
                        wav_file_path: o.wav_file_path,
                        log_file_path: o.log_file_path,
                        groq_file_path: o.groq_file_path,
                        summary_file_path: o.summary_file_path,
                        ..old(self)@.options
                    },
                    ..old(self)@
                }, stamp@, "Session: "@ + session_id@)
                &&& session_path_rel(o.wav_file_path, audio_dir@, p, session_id@, "record"@, "wav"@)
                &&& session_path_rel(o.log_file_path, transcripts_dir@, p, session_id@, "deepgram"@, "txt"@)
                &&& session_path_rel(o.groq_file_path, transcripts_dir@, p, session_id@, "groq"@, "txt"@)
                &&& session_path_rel(o.summary_file_path, transcripts_dir@, p, session_id@, "summary"@, "txt"@)
            }),
    {
        self.options.output_dir = owned(output_dir);
        let prefix = self.options.output_prefix.clone();
        self.options.wav_file_path = session_output_path_in_dir(audio_dir, prefix.as_str(), session_id, "record", "wav");
        self.options.log_file_path = session_output_path_in_dir(transcripts_dir, prefix.as_str(), session_id, "deepgram", "txt");
        self.options.groq_file_path = session_output_path_in_dir(transcripts_dir, prefix.as_str(), session_id, "groq", "txt");
        self.options.summary_file_path = session_output_path_in_dir(transcripts_dir, prefix.as_str(), session_id, "summary", "txt");
        let line = cat("Session: ", session_id);
        self.push_log_at(line.as_str(), stamp);
    }

    /// Checks the options before capture starts; a refusal is logged as an error.
    pub fn validate_start_at(&mut self, stamp: &str) -> (ok: bool)
        ensures
            (final(self)@, ok) == validate_start_spec(old(self)@, stamp@),
    {
        if self.options.auto_groq && (self.options.groq_api_key.unicode_len() == 0 || text_eq(self.options.groq_api_key.as_str(), "your_groq_api_key_here")) {
            self.push_error_at("groq_api_key is empty or invalid; disable Auto Groq or fill settings.json", stamp);
            return false;
        }
        if self.options.enable_summary && !self.options.enable_deepgram && !self.options.auto_groq {
            self.push_error_at("AI Summary needs Deepgram realtime or Auto Groq enabled so a transcript is available", stamp);
            return false;
        }
        if self.options.enable_summary {
            let k = trim(self.options.summary_api_key.as_str());
            if k.unicode_len() == 0 || text_eq(self.options.summary_api_key.as_str(), "your_openai_compatible_api_key_here") {
                self.push_error_at("OPENAI_API_KEY is empty or invalid; disable AI Summary or fill settings.json", stamp);
                return false;
            }
        }
        if self.options.input_device_names.len() == 0 && self.options.output_device_names.len() == 0 {
            self.push_error_at("Select at least one microphone or system audio device.", stamp);
            return false;
        }
        true
    }

    /// Audio capture has started.
    pub fn capture_started_at(&mut self, stamp: &str)
        ensures
            final(self)@ == log_spec(SessionView { capture_running: true, ..old(self)@ }, stamp@, "Audio: Unified WASAPI loopback capture started"@),
    {
        self.capture_running = true;
        self.push_log_at("Audio: Unified WASAPI loopback capture started", stamp);
    }

    /// Audio capture could not start.
    pub fn capture_failed_at(&mut self, err: &str, stamp: &str)
        ensures
            final(self)@ == error_spec(SessionView { capture_running: false, ..old(self)@ }, stamp@, "WASAPI loopback error: "@ + err@),
    {
        let e = cat("WASAPI loopback error: ", err);
        self.capture_running = false;
        self.push_error_at(e.as_str(), stamp);
    }

    /// Stops a recording; returns whether audio capture is to be cancelled.
    pub fn stop_workflow_at(&mut self, stamp: &str) -> (cancel: bool)
        ensures
            (final(self)@, cancel) == stop_spec(old(self)@, stamp@),
    {
        if self.stage != AppStage::Recording {
            return false;
        }
        self.push_log_at("UI: stop clicked", stamp);
        self.interim_transcript = String::new();
        self.stage = AppStage::Finalizing;
        self.capture_running
    }

    /// Handles a request to close the window: while a worker is busy the close
    /// is deferred and a recording is stopped.
    pub fn handle_close_request_at(&mut self, requested: bool, stamp: &str) -> (out: CloseRequestOutcome)
        ensures
            (final(self)@, out.cancel_close, out.cancel_capture) == close_request_spec(old(self)@, requested, stamp@),
    {
        if !requested || !self.stage.is_busy() {
            return CloseRequestOutcome { cancel_close: false, cancel_capture: false };
        }
        if !self.close_after_busy {
            self.push_log_at("UI: close requested, waiting for current workflow to finish safely", stamp);
        }
        self.close_after_busy = true;
        let mut cancel_capture = false;
        if self.stage == AppStage::Recording {
            cancel_capture = self.stop_workflow_at(stamp);
        }
        CloseRequestOutcome { cancel_close: true, cancel_capture }
    }

    /// Clears the session for a new recording unless a worker is busy.
    pub fn reset_session_at(&mut self, stamp: &str)
        ensures
            final(self)@ == reset_spec(old(self)@, stamp@),
    {
        if self.stage.is_busy() {
            return;
        }
        self.stage = AppStage::Init;
        self.transcript_dirty = false;
        self.transcript_autosave_status = owned("Realtime transcript saved");
        self.transcripts = Vec::new();
        self.assemblyai_transcripts = Vec::new();
        self.interim_transcript = String::new();
        self.groq_result = String::new();
        self.summary_result = String::new();
        self.review_wav_path = None;
        self.logs = Vec::new();
        assert(self@.transcripts =~= Seq::<Seq<char>>::empty());
        assert(self@.assemblyai_transcripts =~= Seq::<Seq<char>>::empty());
        assert(self@.logs =~= Seq::<Seq<char>>::empty());
        self.push_log_at("Init: ready to start a new session", stamp);
    }

    /// The user declares the session done.
    pub fn mark_done_at(&mut self, stamp: &str)
        ensures
            final(self)@ == log_spec(SessionView { stage: AppStage::Done, failed_stage: None, ..old(self)@ }, stamp@, "Workflow: marked as Done by user."@),
    {
        self.stage = AppStage::Done;
        self.failed_stage = None;
        self.push_log_at("Workflow: marked as Done by user.", stamp);
    }

    /// The user skips the failed after-review step `stage`.
    pub fn skip_ai_step_at(&mut self, stage: FailedStage, stamp: &str) -> (next: NextStep)
        ensures
            (final(self)@, next@) == skip_spec(old(self)@, stage, stamp@),
    {
        match stage {
            FailedStage::Groq => {
                self.push_log_at("[Groq] Skipped by user.", stamp);
                self.stage = AppStage::Review;
                self.failed_stage = None;
                let mode = self.options.after_review_transcription_mode();
                if mode.runs_assemblyai() {
                    NextStep::RunAfterReview { skip_groq: false }
                } else if self.options.enable_summary {
                    let job = self.start_summary_at(stamp);
                    summary_next(job)
                } else {
                    self.stage = AppStage::Done;
                    NextStep::Idle
                }
            },
            FailedStage::AssemblyAi => {
                self.push_log_at("[AssemblyAI] Skipped by user.", stamp);
                self.stage = AppStage::Review;
                self.failed_stage = None;
                if self.options.enable_summary {
                    let job = self.start_summary_at(stamp);
                    summary_next(job)
                } else {
                    self.stage = AppStage::Done;
                    NextStep::Idle
                }
            },
            FailedStage::Summary => {
                self.push_log_at("[Summary] Skipped by user.", stamp);
                self.stage = AppStage::Done;
                self.failed_stage = None;
                NextStep::Idle
            },
        }
    }

    /// The user retries the failed after-review step.
    pub fn retry_failed_step_at(&mut self, stamp: &str) -> (next: NextStep)
        ensures
            (final(self)@, next@) == retry_spec(old(self)@, stamp@),
    {
        let failed = self.failed_stage;
        self.failed_stage = None;
        match failed {
            Some(FailedStage::Summary) => {
                self.push_log_at("[Summary] Retrying summary generation...", stamp);
                let job = self.start_summary_at(stamp);
                summary_next(job)
            },
            Some(FailedStage::AssemblyAi) => {
                self.push_log_at("[AssemblyAI] Retrying WAV transcription...", stamp);
                NextStep::RunAfterReview { skip_groq: true }
            },
            _ => {
                self.push_log_at("[Groq] Retrying WAV transcription...", stamp);
                NextStep::RunAfterReview { skip_groq: false }
            },
        }
    }

    /// The user asks for the after-review steps.
    pub fn request_ai_after_review(&mut self) -> (next: NextStep)
        ensures
            final(self)@ == (SessionView { failed_stage: None, ..old(self)@ }),
            next@ == (NextStepView::RunAfterReview { skip_groq: false }),
    {
        self.failed_stage = None;
        NextStep::RunAfterReview { skip_groq: false }
    }

    /// Whether the after-review steps may run in the current stage.
    pub fn after_review_allowed(&self) -> (b: bool)
        ensures
            b == (self.stage == AppStage::Review || self.stage == AppStage::Error),
    {
        self.stage == AppStage::Review || self.stage == AppStage::Error
    }

    /// Decides the after-review work once pending transcript edits are saved.
    pub fn plan_after_review_at(&mut self, skip_groq: bool, stamp: &str) -> (next: NextStep)
        ensures
            (final(self)@, next@) == plan_after_review_spec(old(self)@, skip_groq, stamp@),
    {
        let wav = match &self.review_wav_path {
            None => {
                self.push_error_at("Review WAV path is missing; start a new recording", stamp);
                return NextStep::Idle;
            },
            Some(w) => w.clone(),
        };
        self.push_log_at("Review: AI processing requested", stamp);
        let mode = self.options.after_review_transcription_mode();
        if mode == AfterReviewTranscriptionMode::Disabled || (skip_groq && !mode.runs_assemblyai()) {
            if self.options.enable_summary {
                let job = self.start_summary_at(stamp);
                return summary_next(job);
            } else {
                self.stage = AppStage::Done;
                self.push_log_at("Review: no AI post-processing enabled", stamp);
                return NextStep::Idle;
            }
        }
        self.stage = AppStage::GroqProcessing;
        NextStep::Transcribe(TranscriptionJob {
            wav_path: wav,
            run_groq: !skip_groq && mode.runs_groq(),
            run_assemblyai: mode.runs_assemblyai(),
            groq_file_path: self.options.groq_file_path.clone(),
            groq_api_key: self.options.groq_api_key.clone(),
            groq_model: self.options.groq_model.clone(),
            assemblyai_file_path: self.options.assemblyai_file_path.clone(),
            assemblyai_api_key: self.options.assemblyai_api_key.clone(),
            assemblyai_model: self.options.assemblyai_model.clone(),
            language: self.options.language.clone(),
        })
    }

    /// Pending transcript edits were saved before the after-review steps.
    pub fn transcript_saved_at(&mut self, stamp: &str)
        ensures
            final(self)@ == (SessionView { transcript_dirty: false, transcript_autosave_status: "Realtime transcript saved "@ + stamp@, ..old(self)@ }),
    {
        self.transcript_dirty = false;
        self.transcript_autosave_status = cat("Realtime transcript saved ", stamp);
    }

    /// Pending transcript edits could not be saved before the after-review steps.
    pub fn transcript_save_before_ai_failed_at(&mut self, err: &str, stamp: &str)
        ensures
            final(self)@ == error_spec(old(self)@, stamp@, "Transcript save before AI failed: "@ + err@),
    {
        let e = cat("Transcript save before AI failed: ", err);
        self.push_error_at(e.as_str(), stamp);
    }

    /// The user edited the realtime transcript.
    pub fn mark_transcript_dirty(&mut self)
        ensures
            final(self)@ == (SessionView { transcript_dirty: true, transcript_autosave_status: "Unsaved realtime transcript changes..."@, ..old(self)@ }),
    {
        self.transcript_dirty = true;
        self.transcript_autosave_status = owned("Unsaved realtime transcript changes...");
    }

    /// The user changed a setting.
    pub fn mark_settings_dirty(&mut self)
        ensures
            final(self)@ == (SessionView { settings_dirty: true, settings_autosave_status: "Saving settings..."@, ..old(self)@ }),
    {
        self.settings_dirty = true;
        self.settings_autosave_status = owned("Saving settings...");
    }

    /// The settings were saved.
    pub fn settings_saved_at(&mut self, stamp: &str)
        ensures
            final(self)@ == (SessionView { settings_dirty: false, settings_autosave_status: "Settings saved "@ + stamp@, ..old(self)@ }),
    {
        self.settings_dirty = false;
        self.settings_autosave_status = cat("Settings saved ", stamp);
    }

    /// The settings could not be saved.
    pub fn settings_save_failed_at(&mut self, err: &str, stamp: &str)
        ensures
            final(self)@ == error_spec(SessionView { settings_autosave_status: "Settings save failed: "@ + err@, ..old(self)@ }, stamp@, "Settings autosave failed: "@ + err@),
    {
        self.settings_autosave_status = cat("Settings save failed: ", err);
        let e = cat("Settings autosave failed: ", err);
        self.push_error_at(e.as_str(), stamp);
    }

    /// A transcript autosave begins.
    pub fn transcript_autosave_started(&mut self)
        ensures
            final(self)@ == (SessionView { transcript_autosave_status: "Saving realtime transcript..."@, ..old(self)@ }),
    {
        self.transcript_autosave_status = owned("Saving realtime transcript...");
    }

    /// The transcript was autosaved.
    pub fn transcript_autosaved_at(&mut self, stamp: &str)
        ensures
            final(self)@ == (SessionView { transcript_dirty: false, transcript_autosave_status: "Realtime transcript auto-saved "@ + stamp@, ..old(self)@ }),
    {
        self.transcript_dirty = false;
        self.transcript_autosave_status = cat("Realtime transcript auto-saved ", stamp);
    }

    /// The transcript could not be autosaved.
    pub fn transcript_autosave_failed_at(&mut self, err: &str, stamp: &str)
        ensures
            final(self)@ == error_spec(SessionView { transcript_autosave_status: "Transcript save failed: "@ + err@, ..old(self)@ }, stamp@, "Transcript autosave failed: "@ + err@),
    {
        self.transcript_autosave_status = cat("Transcript save failed: ", err);
        let e = cat("Transcript autosave failed: ", err);
        self.push_error_at(e.as_str(), stamp);
    }

    /// The text written when realtime transcript edits are saved on `date`.
    pub fn edited_transcript_text(&self, date: &str) -> (r: String)
        ensures
            r@ == edited_transcript_spec(self.transcripts.deep_view(), date@),
    {
        let mut blocks: Vec<String> = Vec::new();
        let n = self.transcripts.len();
        let mut i: usize = 0;
        while i < n
            invariant
                n == self.transcripts@.len(),
                i <= n,
                views(blocks@) == final_blocks(self.transcripts.deep_view()).subrange(0, i as int),
            decreases n - i,
        {
            let num = decimal_string((i + 1) as u64);
            let mut b = cat3("Final #", num.as_str(), "\n");
            let t = trim(self.transcripts[i].as_str());
            b.append(t.as_str());
            let ghost before = blocks@;
            blocks.push(b);
            assert(views(blocks@) =~= views(before).push(blocks@[i as int]@));
            i = i + 1;
            assert(views(blocks@) =~= final_blocks(self.transcripts.deep_view()).subrange(0, i as int));
        }
        assert(final_blocks(self.transcripts.deep_view()).subrange(0, n as int) =~= final_blocks(self.transcripts.deep_view()));
        let body = join_strings(&blocks, "\n\n");
        let tb = trim(body.as_str());
        let mut r = cat3("[Edited from UI: ", date, "]\n\n");
        r.append(tb.as_str());
        r.append("\n");
        r
    }

    /// The device lists were read again.
    pub fn set_devices(&mut self, inputs: Vec<String>, outputs: Vec<String>)
        ensures
            final(self)@ == (SessionView {
                input_devices: inputs.deep_view(),
                output_devices: outputs.deep_view(),
                config_notice: "Device list refreshed: "@ + decimal(inputs@.len()) + " input, "@ + decimal(outputs@.len()) + " output"@,
                ..old(self)@
            }),
    {
        let ni = decimal_string(inputs.len() as u64);
        let no = decimal_string(outputs.len() as u64);
        let mut notice = cat3("Device list refreshed: ", ni.as_str(), " input, ");
        notice.append(no.as_str());
        notice.append(" output");
        self.input_devices = inputs;
        self.output_devices = outputs;
        self.config_notice = notice;
    }

    /// A credential check of `provider` begins.
    pub fn begin_credential_check(&mut self, provider: CredentialProvider)
        ensures
            final(self)@ == (match provider {
                CredentialProvider::Deepgram => SessionView { deepgram_check_status: "Checking..."@, ..old(self)@ },
                CredentialProvider::AssemblyAi => SessionView { assemblyai_check_status: "Checking..."@, ..old(self)@ },
                CredentialProvider::Groq => SessionView { groq_check_status: "Checking..."@, ..old(self)@ },
                CredentialProvider::Summary => SessionView { summary_check_status: "Checking..."@, ..old(self)@ },
            }),
    {
        match provider {
            CredentialProvider::Deepgram => self.deepgram_check_status = owned("Checking..."),
            CredentialProvider::AssemblyAi => self.assemblyai_check_status = owned("Checking..."),
            CredentialProvider::Groq => self.groq_check_status = owned("Checking..."),
            CredentialProvider::Summary => self.summary_check_status = owned("Checking..."),
        }
    }

    /// Whether some after-review step is enabled.
    pub fn ai_after_review_enabled(&self) -> (b: bool)
        ensures
            b == (self.options.auto_groq || self.options.enable_assemblyai || self.options.enable_summary),
    {
        self.options.auto_groq || self.options.enable_assemblyai || self.options.enable_summary
    }

    /// The failed step for which done, skip and retry are offered: only in the
    /// error stage, and only when a step is recorded as failed.
    pub fn recovery_offered(&self) -> (r: Option<FailedStage>)
        ensures
            r == (if self.stage == AppStage::Error { self.failed_stage } else { None::<FailedStage> }),
    {
        if self.stage == AppStage::Error {
            self.failed_stage
        } else {
            None
        }
    }

    /// Whether the session can be reset: it is idle and holds something.
    pub fn can_reset(&self) -> (b: bool)
        ensures
            b == ((self.stage == AppStage::Review || self.stage == AppStage::Done || self.stage == AppStage::Error || self.stage == AppStage::Init)
                && (self.transcripts@.len() > 0 || self.groq_result@.len() > 0 || self.summary_result@.len() > 0 || self.logs@.len() > 1
                    || self.stage == AppStage::Done || self.stage == AppStage::Error)),
    {
        (self.stage == AppStage::Review || self.stage == AppStage::Done || self.stage == AppStage::Error || self.stage == AppStage::Init)
            && (self.transcripts.len() > 0 || self.groq_result.unicode_len() > 0 || self.summary_result.unicode_len() > 0
                || self.logs.len() > 1 || self.stage == AppStage::Done || self.stage == AppStage::Error)
    }
}

/// The log keeps at most [`MAX_LOG_LINES`] lines, the newest last; below the
/// limit nothing is dropped.
pub proof fn law_log_keeps_newest_lines(logs: Seq<Seq<char>>, stamp: Seq<char>, line: Seq<char>)
    ensures
        push_log_spec(logs, stamp, line).len() <= crate::session::MAX_LOG_LINES,
        push_log_spec(logs, stamp, line).last() == crate::session::stamped(stamp, line),
        logs.len() < crate::session::MAX_LOG_LINES ==> push_log_spec(logs, stamp, line) == logs.push(crate::session::stamped(stamp, line)),
{
}

/// A session whose worker is busy cannot start again; an idle one starts
/// recording with empty transcripts and a fresh log.
pub proof fn law_start_only_when_idle(s: SessionView, stamp: Seq<char>)
    ensures
        s.stage.busy() ==> begin_workflow_spec(s, stamp) == (s, false),
        !s.stage.busy() ==> {
            let (r, started) = begin_workflow_spec(s, stamp);
            &&& started
            &&& r.stage == AppStage::Recording
            &&& r.transcripts.len() == 0
            &&& r.logs == seq![crate::session::stamped(stamp, "Workflow: start"@)]
        },
{
}

/// Resetting leaves a busy session alone and otherwise returns to the initial
/// stage with nothing recorded.
pub proof fn law_reset_only_when_idle(s: SessionView, stamp: Seq<char>)
    ensures
        s.stage.busy() ==> reset_spec(s, stamp) == s,
        !s.stage.busy() ==> reset_spec(s, stamp).stage == AppStage::Init && reset_spec(s, stamp).transcripts.len() == 0
            && reset_spec(s, stamp).review_wav_path is None && reset_spec(s, stamp).logs.len() == 1,
{
}

/// The window closes only when no worker is busy, and a close requested while a
/// worker is busy is deferred.
pub proof fn law_close_waits_for_workers(s: SessionView, stamp: Seq<char>)
    ensures
        crate::session::close_step_spec(s).1 ==> !s.stage.busy(),
        s.stage.busy() ==> close_request_spec(s, true, stamp).1 && close_request_spec(s, true, stamp).0.close_after_busy,
        !close_request_spec(s, false, stamp).1,
{
}

/// A failed after-review step puts the session in error, and retrying it runs
/// that same step again: Groq from the start, AssemblyAI without Groq, the
/// summary as a summary.
pub proof fn law_failed_step_is_retried(s: SessionView, err: Seq<char>, stamp: Seq<char>)
    ensures
        ({
            let g = crate::session::handle_message_spec(s, crate::messages::MessageView::GroqError(err), stamp).0;
            &&& g.stage == AppStage::Error && g.failed_stage == Some(FailedStage::Groq)
            &&& retry_spec(g, stamp).1 == (NextStepView::RunAfterReview { skip_groq: false })
            &&& retry_spec(g, stamp).0.failed_stage is None
        }),
        ({
            let a = crate::session::handle_message_spec(s, crate::messages::MessageView::AssemblyAiError(err), stamp).0;
            &&& a.stage == AppStage::Error && a.failed_stage == Some(FailedStage::AssemblyAi)
            &&& retry_spec(a, stamp).1 == (NextStepView::RunAfterReview { skip_groq: true })
        }),
        ({
            let m = crate::session::handle_message_spec(s, crate::messages::MessageView::SummaryError(err), stamp).0;
            &&& m.stage == AppStage::Error && m.failed_stage == Some(FailedStage::Summary)
            &&& !(retry_spec(m, stamp).1 is RunAfterReview) && !(retry_spec(m, stamp).1 is Transcribe)
        }),
{
}

/// After a worker reports that it stopped, audio capture is no longer running
/// and the session is finished, failed, or summarizing.
pub proof fn law_stopped_releases_capture(s: SessionView, stamp: Seq<char>)
    ensures
        ({
            let r = crate::session::handle_message_spec(s, crate::messages::MessageView::Stopped, stamp).0;
            &&& !r.capture_running
            &&& (r.stage == AppStage::Done || r.stage == AppStage::Error || r.stage == AppStage::SummaryProcessing)
        }),
{
}

/// A summary worker starts only when the summary is enabled and some transcript
/// has text, and it is sent the summary settings of the options.
pub proof fn law_summary_needs_text(s: SessionView, stamp: Seq<char>)
    ensures
        summary_start_spec(s, stamp).1 is Some ==> {
            let j = summary_start_spec(s, stamp).1->0;
            &&& s.options.enable_summary
            &&& (j.deepgram_transcript.len() > 0 || j.whisper_transcript.len() > 0 || j.assemblyai_transcript.len() > 0)
            &&& j.api_key == s.options.summary_api_key && j.model == s.options.summary_model
            &&& j.output_path == s.options.summary_file_path
            &&& summary_start_spec(s, stamp).0.stage == AppStage::SummaryProcessing
        },
        !s.options.enable_summary ==> summary_start_spec(s, stamp) == (s, None::<SummaryJobView>),
{
}

/// Stopping is possible only while recording, and it leaves the recording to
/// finalize.
pub proof fn law_stop_only_while_recording(s: SessionView, stamp: Seq<char>)
    ensures
        s.stage != AppStage::Recording ==> stop_spec(s, stamp) == (s, false),
        s.stage == AppStage::Recording ==> stop_spec(s, stamp).0.stage == AppStage::Finalizing
            && stop_spec(s, stamp).1 == s.capture_running,
{
}

/// The summary job that a session with transcripts `s` hands to the summary
/// worker: its three transcripts, kept and trimmed, and its summary settings.
pub open spec fn summary_job_of(j: SummaryJobView, s: SessionView) -> bool {
    &&& j.deepgram_transcript == joined_kept(s.transcripts)
    &&& j.whisper_transcript == trim_spec(s.groq_result)
    &&& j.assemblyai_transcript == joined_kept(s.assemblyai_transcripts)
    &&& j.system_prompt == s.options.summary_prompt
    &&& j.api_key == s.options.summary_api_key
    &&& j.base_url == s.options.summary_base_url
    &&& j.model == s.options.summary_model
    &&& j.output_path == s.options.summary_file_path
}

/// Skipping a failed AssemblyAI step goes on to the summary when it is
/// enabled: with some transcript text the summary worker starts, on the
/// session's transcripts, exactly the job that the end of the batch starts;
/// with none the session stays in review. With the summary disabled the
/// session is done. Either way the step is no longer marked failed.
pub proof fn law_skipping_assemblyai_goes_on_to_the_summary(s: SessionView, stamp: Seq<char>)
    ensures
        ({
            let (s2, next) = skip_spec(s, FailedStage::AssemblyAi, stamp);
            let has_text = joined_kept(s.transcripts).len() > 0 || trim_spec(s.groq_result).len() > 0
                || joined_kept(s.assemblyai_transcripts).len() > 0;
            &&& s2.failed_stage is None
            &&& s.options.enable_summary && has_text ==> {
                &&& s2.stage == AppStage::SummaryProcessing
                &&& next matches NextStepView::StartSummary(j) && summary_job_of(j, s)
                &&& trim_spec(s.summary_result).len() == 0 ==> next == NextStepView::StartSummary(
                    handle_message_spec(s, MessageView::BatchTranscriptionDone, stamp).1->0,
                )
            }
            &&& s.options.enable_summary && !has_text ==> s2.stage == AppStage::Review && next == NextStepView::Idle
            &&& !s.options.enable_summary ==> s2.stage == AppStage::Done && next == NextStepView::Idle
        }),
{
}

/// Skipping a failed Groq step runs AssemblyAI where it is configured to run,
/// and otherwise goes on as a skipped AssemblyAI step does: to the summary
/// when it is enabled and some transcript has text, else to review or done.
pub proof fn law_skipping_groq_goes_on_to_the_next_step(s: SessionView, stamp: Seq<char>)
    ensures
        ({
            let (s2, next) = skip_spec(s, FailedStage::Groq, stamp);
            let has_text = joined_kept(s.transcripts).len() > 0 || trim_spec(s.groq_result).len() > 0
                || joined_kept(s.assemblyai_transcripts).len() > 0;
            let runs_assemblyai = mode_spec(s.options.auto_groq, s.options.enable_assemblyai).assemblyai_runs();
            &&& s2.failed_stage is None
            &&& runs_assemblyai ==> s2.stage == AppStage::Review && next == (NextStepView::RunAfterReview { skip_groq: false })
            &&& !runs_assemblyai && s.options.enable_summary && has_text ==> {
                &&& s2.stage == AppStage::SummaryProcessing
                &&& next matches NextStepView::StartSummary(j) && summary_job_of(j, s)
            }
            &&& !runs_assemblyai && !s.options.enable_summary ==> s2.stage == AppStage::Done && next == NextStepView::Idle
        }),
{
}

} // verus!
