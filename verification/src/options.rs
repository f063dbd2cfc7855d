//! The user's workflow options, their persisted form, and the per-session
//! output file names.

use vstd::prelude::*;
use crate::audio::capture::DEFAULT_DEVICE_NAME;
use crate::storage::{default_output_dir, join_spec, join_with, some_platform_sep};
use crate::services::summary::{default_system_prompt, SYSTEM_PROMPT};
use crate::text::{cat, cat3, owned, trim, trim_end_seps, trim_end_seps_spec, trim_spec};

verus! {

/// The options that drive a recording session and its after-review steps.
pub struct WorkflowOptions {
    pub enable_deepgram: bool,
    pub auto_groq: bool,
    pub enable_assemblyai: bool,
    pub enable_summary: bool,
    pub input_device_names: Vec<String>,
    pub output_device_names: Vec<String>,
    pub deepgram_api_key: String,
    pub groq_api_key: String,
    pub assemblyai_api_key: String,
    pub summary_api_key: String,
    pub summary_base_url: String,
    pub deepgram_model: String,
    pub groq_model: String,
    pub assemblyai_model: String,
    pub summary_model: String,
    pub language: String,
    pub output_dir: String,
    pub output_prefix: String,
    pub log_file_path: String,
    pub wav_file_path: String,
    pub groq_file_path: String,
    pub assemblyai_file_path: String,
    pub summary_file_path: String,
    pub summary_prompt: String,
}

/// The mathematical value of [`WorkflowOptions`].
pub struct OptionsView {
    pub enable_deepgram: bool,
    pub auto_groq: bool,
    pub enable_assemblyai: bool,
    pub enable_summary: bool,
    pub input_device_names: Seq<Seq<char>>,
    pub output_device_names: Seq<Seq<char>>,
    pub deepgram_api_key: Seq<char>,
    pub groq_api_key: Seq<char>,
    pub assemblyai_api_key: Seq<char>,
    pub summary_api_key: Seq<char>,
    pub summary_base_url: Seq<char>,
    pub deepgram_model: Seq<char>,
    pub groq_model: Seq<char>,
    pub assemblyai_model: Seq<char>,
    pub summary_model: Seq<char>,
    pub language: Seq<char>,
    pub output_dir: Seq<char>,
    pub output_prefix: Seq<char>,
    pub log_file_path: Seq<char>,
    pub wav_file_path: Seq<char>,
    pub groq_file_path: Seq<char>,
    pub assemblyai_file_path: Seq<char>,
    pub summary_file_path: Seq<char>,
    pub summary_prompt: Seq<char>,
}

impl View for WorkflowOptions {
    type V = OptionsView;

    open spec fn view(&self) -> OptionsView {
        OptionsView {
            enable_deepgram: self.enable_deepgram,
            auto_groq: self.auto_groq,
            enable_assemblyai: self.enable_assemblyai,
            enable_summary: self.enable_summary,
            input_device_names: self.input_device_names.deep_view(),
            output_device_names: self.output_device_names.deep_view(),
            deepgram_api_key: self.deepgram_api_key@,
            groq_api_key: self.groq_api_key@,
            assemblyai_api_key: self.assemblyai_api_key@,
            summary_api_key: self.summary_api_key@,
            summary_base_url: self.summary_base_url@,
            deepgram_model: self.deepgram_model@,
            groq_model: self.groq_model@,
            assemblyai_model: self.assemblyai_model@,
            summary_model: self.summary_model@,
            language: self.language@,
            output_dir: self.output_dir@,
            output_prefix: self.output_prefix@,
            log_file_path: self.log_file_path@,
            wav_file_path: self.wav_file_path@,
            groq_file_path: self.groq_file_path@,
            assemblyai_file_path: self.assemblyai_file_path@,
            summary_file_path: self.summary_file_path@,
            summary_prompt: self.summary_prompt@,
        }
    }
}

/// The options as stored in the settings file; an absent entry leaves the
/// current option as it is.
pub struct PersistedUiOptions {
    pub schema_version: Option<u32>,
    pub enable_deepgram: Option<bool>,
    pub auto_groq: Option<bool>,
    pub enable_summary: Option<bool>,
    pub input_device_names: Option<Vec<String>>,
    pub output_device_names: Option<Vec<String>>,
    pub deepgram_api_key: Option<String>,
    pub groq_api_key: Option<String>,
    pub summary_api_key: Option<String>,
    pub summary_base_url: Option<String>,
    pub deepgram_model: Option<String>,
    pub groq_model: Option<String>,
    pub summary_model: Option<String>,
    pub language: Option<String>,
    pub output_dir: Option<String>,
    pub output_prefix: Option<String>,
    pub log_file_path: Option<String>,
    pub wav_file_path: Option<String>,
    pub groq_file_path: Option<String>,
    pub summary_file_path: Option<String>,
    pub summary_prompt: Option<String>,
    pub dark_mode: Option<bool>,
}

/// The mathematical value of [`PersistedUiOptions`].
pub struct PersistedView {
    pub schema_version: Option<u32>,
    pub enable_deepgram: Option<bool>,
    pub auto_groq: Option<bool>,
    pub enable_summary: Option<bool>,
    pub input_device_names: Option<Seq<Seq<char>>>,
    pub output_device_names: Option<Seq<Seq<char>>>,
    pub deepgram_api_key: Option<Seq<char>>,
    pub groq_api_key: Option<Seq<char>>,
    pub summary_api_key: Option<Seq<char>>,
    pub summary_base_url: Option<Seq<char>>,
    pub deepgram_model: Option<Seq<char>>,
    pub groq_model: Option<Seq<char>>,
    pub summary_model: Option<Seq<char>>,
    pub language: Option<Seq<char>>,
    pub output_dir: Option<Seq<char>>,
    pub output_prefix: Option<Seq<char>>,
    pub log_file_path: Option<Seq<char>>,
    pub wav_file_path: Option<Seq<char>>,
    pub groq_file_path: Option<Seq<char>>,
    pub summary_file_path: Option<Seq<char>>,
    pub summary_prompt: Option<Seq<char>>,
    pub dark_mode: Option<bool>,
}

pub open spec fn opt_text(o: Option<String>) -> Option<Seq<char>> {
    match o {
        Some(s) => Some(s@),
        None => None,
    }
}

pub open spec fn opt_texts(o: Option<Vec<String>>) -> Option<Seq<Seq<char>>> {
    match o {
        Some(v) => Some(v.deep_view()),
        None => None,
    }
}

impl View for PersistedUiOptions {
    type V = PersistedView;

    open spec fn view(&self) -> PersistedView {
        PersistedView {
            schema_version: self.schema_version,
            enable_deepgram: self.enable_deepgram,
            auto_groq: self.auto_groq,
            enable_summary: self.enable_summary,
            input_device_names: opt_texts(self.input_device_names),
            output_device_names: opt_texts(self.output_device_names),
            deepgram_api_key: opt_text(self.deepgram_api_key),
            groq_api_key: opt_text(self.groq_api_key),
            summary_api_key: opt_text(self.summary_api_key),
            summary_base_url: opt_text(self.summary_base_url),
            deepgram_model: opt_text(self.deepgram_model),
            groq_model: opt_text(self.groq_model),
            summary_model: opt_text(self.summary_model),
            language: opt_text(self.language),
            output_dir: opt_text(self.output_dir),
            output_prefix: opt_text(self.output_prefix),
            log_file_path: opt_text(self.log_file_path),
            wav_file_path: opt_text(self.wav_file_path),
            groq_file_path: opt_text(self.groq_file_path),
            summary_file_path: opt_text(self.summary_file_path),
            summary_prompt: opt_text(self.summary_prompt),
            dark_mode: self.dark_mode,
        }
    }
}

/// The value a field takes when a setting that must not be blank is read:
/// the trimmed setting, unless it is absent or blank.
pub open spec fn non_empty_or(target: Seq<char>, value: Option<Seq<char>>) -> Seq<char> {
    match value {
        Some(v) => if trim_spec(v).len() > 0 {
            trim_spec(v)
        } else {
            target
        },
        None => target,
    }
}

/// The value a field takes when an optional setting is read: the trimmed
/// setting when present.
pub open spec fn optional_or(target: Seq<char>, value: Option<Seq<char>>) -> Seq<char> {
    match value {
        Some(v) => trim_spec(v),
        None => target,
    }
}

pub open spec fn flag_or(target: bool, value: Option<bool>) -> bool {
    match value {
        Some(v) => v,
        None => target,
    }
}

pub open spec fn list_or(target: Seq<Seq<char>>, value: Option<Seq<Seq<char>>>) -> Seq<Seq<char>> {
    match value {
        Some(v) => v,
        None => target,
    }
}

/// The options after reading the persisted settings `p` over `o`.
pub open spec fn apply_persisted_spec(o: OptionsView, p: PersistedView) -> OptionsView {
    OptionsView {
        enable_deepgram: flag_or(o.enable_deepgram, p.enable_deepgram),
        auto_groq: flag_or(o.auto_groq, p.auto_groq),
        enable_summary: flag_or(o.enable_summary, p.enable_summary),
        input_device_names: list_or(o.input_device_names, p.input_device_names),
        output_device_names: list_or(o.output_device_names, p.output_device_names),
        deepgram_api_key: optional_or(o.deepgram_api_key, p.deepgram_api_key),
        groq_api_key: optional_or(o.groq_api_key, p.groq_api_key),
        summary_api_key: optional_or(o.summary_api_key, p.summary_api_key),
        summary_base_url: non_empty_or(o.summary_base_url, p.summary_base_url),
        deepgram_model: non_empty_or(o.deepgram_model, p.deepgram_model),
        groq_model: non_empty_or(o.groq_model, p.groq_model),
        summary_model: non_empty_or(o.summary_model, p.summary_model),
        language: non_empty_or(o.language, p.language),
        output_dir: non_empty_or(o.output_dir, p.output_dir),
        output_prefix: optional_or(o.output_prefix, p.output_prefix),
        log_file_path: non_empty_or(o.log_file_path, p.log_file_path),
        wav_file_path: non_empty_or(o.wav_file_path, p.wav_file_path),
        groq_file_path: non_empty_or(o.groq_file_path, p.groq_file_path),
        summary_file_path: non_empty_or(o.summary_file_path, p.summary_file_path),
        summary_prompt: non_empty_or(o.summary_prompt, p.summary_prompt),
        ..o
    }
}

/// The persisted form of `o` with the theme choice `dark_mode`.
pub open spec fn to_persisted_spec(o: OptionsView, dark_mode: bool) -> PersistedView {
    PersistedView {
        schema_version: Some(1),
        enable_deepgram: Some(o.enable_deepgram),
        auto_groq: Some(o.auto_groq),
        enable_summary: Some(o.enable_summary),
        input_device_names: Some(o.input_device_names),
        output_device_names: Some(o.output_device_names),
        deepgram_api_key: Some(o.deepgram_api_key),
        groq_api_key: Some(o.groq_api_key),
        summary_api_key: Some(o.summary_api_key),
        summary_base_url: Some(o.summary_base_url),
        deepgram_model: Some(o.deepgram_model),
        groq_model: Some(o.groq_model),
        summary_model: Some(o.summary_model),
        language: Some(o.language),
        output_dir: Some(o.output_dir),
        output_prefix: Some(o.output_prefix),
        log_file_path: Some(o.log_file_path),
        wav_file_path: Some(o.wav_file_path),
        groq_file_path: Some(o.groq_file_path),
        summary_file_path: Some(o.summary_file_path),
        summary_prompt: Some(o.summary_prompt),
        dark_mode: Some(dark_mode),
    }
}

/// Overwrites `target` with the trimmed `value` unless it is absent or blank.
pub fn apply_non_empty(target: &mut String, value: Option<&str>)
    ensures
        final(target)@ == non_empty_or(old(target)@, match value {
            Some(v) => Some(v@),
            None => None,
        }),
{
    if let Some(v) = value {
        let t = trim(v);
        if t.unicode_len() > 0 {
            *target = t;
        }
    }
}

/// Overwrites `target` with the trimmed `value` when it is present.
pub fn apply_optional_string(target: &mut String, value: Option<&str>)
    ensures
        final(target)@ == optional_or(old(target)@, match value {
            Some(v) => Some(v@),
            None => None,
        }),
{
    if let Some(v) = value {
        *target = trim(v);
    }
}

fn as_opt_str(o: &Option<String>) -> (r: Option<&str>)
    ensures
        match r {
            Some(s) => o is Some && s@ == o->Some_0@,
            None => o is None,
        },
{
    match o {
        Some(s) => Some(s.as_str()),
        None => None,
    }
}

fn clone_texts(v: &Vec<String>) -> (r: Vec<String>)
    ensures
        r.deep_view() == v.deep_view(),
{
    let mut r: Vec<String> = Vec::new();
    let mut i: usize = 0;
    while i < v.len()
        invariant
            i <= v@.len(),
            r@.len() == i,
            forall|k: int| 0 <= k < i ==> #[trigger] r@[k]@ == v@[k]@,
        decreases v@.len() - i,
    {
        let c = v[i].clone();
        r.push(c);
        i = i + 1;
    }
    assert(r.deep_view() =~= v.deep_view());
    r
}

impl WorkflowOptions {
    /// Reads the persisted settings over these options.
    pub fn apply_persisted(&mut self, persisted: &PersistedUiOptions)
        ensures
            final(self)@ == apply_persisted_spec(old(self)@, persisted@),
    {
        if let Some(value) = persisted.enable_deepgram {
            self.enable_deepgram = value;
        }
        if let Some(value) = persisted.auto_groq {
            self.auto_groq = value;
        }
        if let Some(value) = persisted.enable_summary {
            self.enable_summary = value;
        }
        if let Some(devices) = &persisted.input_device_names {
            self.input_device_names = clone_texts(devices);
        }
        if let Some(devices) = &persisted.output_device_names {
            self.output_device_names = clone_texts(devices);
        }
        apply_optional_string(&mut self.deepgram_api_key, as_opt_str(&persisted.deepgram_api_key));
        apply_optional_string(&mut self.groq_api_key, as_opt_str(&persisted.groq_api_key));
        apply_optional_string(&mut self.summary_api_key, as_opt_str(&persisted.summary_api_key));
        apply_non_empty(&mut self.summary_base_url, as_opt_str(&persisted.summary_base_url));
        apply_non_empty(&mut self.deepgram_model, as_opt_str(&persisted.deepgram_model));
        apply_non_empty(&mut self.groq_model, as_opt_str(&persisted.groq_model));
        apply_non_empty(&mut self.summary_model, as_opt_str(&persisted.summary_model));
        apply_non_empty(&mut self.language, as_opt_str(&persisted.language));
        apply_non_empty(&mut self.output_dir, as_opt_str(&persisted.output_dir));
        apply_optional_string(&mut self.output_prefix, as_opt_str(&persisted.output_prefix));
        apply_non_empty(&mut self.log_file_path, as_opt_str(&persisted.log_file_path));
        apply_non_empty(&mut self.wav_file_path, as_opt_str(&persisted.wav_file_path));
        apply_non_empty(&mut self.groq_file_path, as_opt_str(&persisted.groq_file_path));
        apply_non_empty(&mut self.summary_file_path, as_opt_str(&persisted.summary_file_path));
        apply_non_empty(&mut self.summary_prompt, as_opt_str(&persisted.summary_prompt));
    }

    /// The persisted form of these options.
    pub fn to_persisted(&self, dark_mode: bool) -> (r: PersistedUiOptions)
        ensures
            r@ == to_persisted_spec(self@, dark_mode),
    {
        PersistedUiOptions {
            schema_version: Some(1),
            enable_deepgram: Some(self.enable_deepgram),
            auto_groq: Some(self.auto_groq),
            enable_summary: Some(self.enable_summary),
            input_device_names: Some(clone_texts(&self.input_device_names)),
            output_device_names: Some(clone_texts(&self.output_device_names)),
            deepgram_api_key: Some(self.deepgram_api_key.clone()),
            groq_api_key: Some(self.groq_api_key.clone()),
            summary_api_key: Some(self.summary_api_key.clone()),
            summary_base_url: Some(self.summary_base_url.clone()),
            deepgram_model: Some(self.deepgram_model.clone()),
            groq_model: Some(self.groq_model.clone()),
            summary_model: Some(self.summary_model.clone()),
            language: Some(self.language.clone()),
            output_dir: Some(self.output_dir.clone()),
            output_prefix: Some(self.output_prefix.clone()),
            log_file_path: Some(self.log_file_path.clone()),
            wav_file_path: Some(self.wav_file_path.clone()),
            groq_file_path: Some(self.groq_file_path.clone()),
            summary_file_path: Some(self.summary_file_path.clone()),
            summary_prompt: Some(self.summary_prompt.clone()),
            dark_mode: Some(dark_mode),
        }
    }
}


/// Which transcription services run after review.
#[derive(Clone, Copy, Debug, PartialEq, Eq, Structural)]
pub enum AfterReviewTranscriptionMode {
    Disabled,
    Groq,
    AssemblyAi,
    Both,
}

impl AfterReviewTranscriptionMode {
    pub open spec fn groq_runs(self) -> bool {
        self is Groq || self is Both
    }

    pub open spec fn assemblyai_runs(self) -> bool {
        self is AssemblyAi || self is Both
    }

    pub fn runs_groq(self) -> (b: bool)
        ensures
            b == self.groq_runs(),
    {
        match self {
            AfterReviewTranscriptionMode::Groq | AfterReviewTranscriptionMode::Both => true,
            _ => false,
        }
    }

    pub fn runs_assemblyai(self) -> (b: bool)
        ensures
            b == self.assemblyai_runs(),
    {
        match self {
            AfterReviewTranscriptionMode::AssemblyAi | AfterReviewTranscriptionMode::Both => true,
            _ => false,
        }
    }
}

pub open spec fn mode_spec(auto_groq: bool, enable_assemblyai: bool) -> AfterReviewTranscriptionMode {
    if auto_groq && enable_assemblyai {
        AfterReviewTranscriptionMode::Both
    } else if auto_groq {
        AfterReviewTranscriptionMode::Groq
    } else if enable_assemblyai {
        AfterReviewTranscriptionMode::AssemblyAi
    } else {
        AfterReviewTranscriptionMode::Disabled
    }
}

/// The options with every field derived from the output folder `out` and the
/// path separator `sep`, and every other field at its initial value.
pub open spec fn defaults_spec(out: Seq<char>, sep: char) -> OptionsView {
    let audio = join_spec(out, "audio"@, sep);
    let transcripts = join_spec(out, "transcripts"@, sep);
    OptionsView {
        enable_deepgram: true,
        auto_groq: false,
        enable_assemblyai: false,
        enable_summary: false,
        input_device_names: seq!["Default"@],
        output_device_names: seq!["Default"@],
        deepgram_api_key: Seq::empty(),
        groq_api_key: Seq::empty(),
        assemblyai_api_key: Seq::empty(),
        summary_api_key: Seq::empty(),
        summary_base_url: "https://api.openai.com/v1"@,
        deepgram_model: "nova-3"@,
        groq_model: "whisper-large-v3"@,
        assemblyai_model: "universal-2"@,
        summary_model: "gpt-4o-mini"@,
        language: "id"@,
        output_dir: out,
        output_prefix: Seq::empty(),
        log_file_path: join_spec(transcripts, "transcript_log.txt"@, sep),
        wav_file_path: join_spec(audio, "record.wav"@, sep),
        groq_file_path: join_spec(transcripts, "transcript_whisper.txt"@, sep),
        assemblyai_file_path: join_spec(transcripts, "transcript_assemblyai.txt"@, sep),
        summary_file_path: join_spec(transcripts, "summary.txt"@, sep),
        summary_prompt: SYSTEM_PROMPT@,
    }
}

fn default_devices() -> (r: Vec<String>)
    ensures
        r.deep_view() == seq!["Default"@],
{
    let mut r: Vec<String> = Vec::new();
    r.push(owned(DEFAULT_DEVICE_NAME));
    assert(r.deep_view() =~= seq!["Default"@]);
    r
}

impl WorkflowOptions {
    /// The initial options for the output folder `output_dir`, with paths
    /// joined by `sep`.
    pub fn defaults_in(output_dir: &str, sep: char) -> (r: WorkflowOptions)
        ensures
            r@ == defaults_spec(output_dir@, sep),
    {
        proof {
            crate::storage::lemma_joined_names_are_plain();
        }
        let audio_dir = join_with(output_dir, "audio", sep);
        let transcripts_dir = join_with(output_dir, "transcripts", sep);
        WorkflowOptions {
            enable_deepgram: true,
            auto_groq: false,
            enable_assemblyai: false,
            enable_summary: false,
            input_device_names: default_devices(),
            output_device_names: default_devices(),
            deepgram_api_key: String::new(),
            groq_api_key: String::new(),
            assemblyai_api_key: String::new(),
            summary_api_key: String::new(),
            summary_base_url: owned("https://api.openai.com/v1"),
            deepgram_model: owned("nova-3"),
            groq_model: owned("whisper-large-v3"),
            assemblyai_model: owned("universal-2"),
            summary_model: owned("gpt-4o-mini"),
            language: owned("id"),
            output_dir: owned(output_dir),
            output_prefix: String::new(),
            log_file_path: join_with(transcripts_dir.as_str(), "transcript_log.txt", sep),
            wav_file_path: join_with(audio_dir.as_str(), "record.wav", sep),
            groq_file_path: join_with(transcripts_dir.as_str(), "transcript_whisper.txt", sep),
            assemblyai_file_path: join_with(transcripts_dir.as_str(), "transcript_assemblyai.txt", sep),
            summary_file_path: join_with(transcripts_dir.as_str(), "summary.txt", sep),
            summary_prompt: owned(default_system_prompt()),
        }
    }

    /// The initial options under this user's default output folder.
    pub fn initial() -> (r: WorkflowOptions)
        ensures
            exists|out: Seq<char>, sep: char| some_platform_sep(sep) && r@ == defaults_spec(out, sep),
    {
        let out = default_output_dir();
        let sep = crate::storage::platform_separator();
        let r = WorkflowOptions::defaults_in(out.as_str(), sep);
        assert(some_platform_sep(sep) && r@ == defaults_spec(out@, sep));
        r
    }

    /// Which after-review transcription services these options run.
    pub fn after_review_transcription_mode(&self) -> (m: AfterReviewTranscriptionMode)
        ensures
            m == mode_spec(self.auto_groq, self.enable_assemblyai),
    {
        if self.auto_groq && self.enable_assemblyai {
            AfterReviewTranscriptionMode::Both
        } else if self.auto_groq {
            AfterReviewTranscriptionMode::Groq
        } else if self.enable_assemblyai {
            AfterReviewTranscriptionMode::AssemblyAi
        } else {
            AfterReviewTranscriptionMode::Disabled
        }
    }

    /// A copy of these options.
    pub fn duplicate(&self) -> (r: WorkflowOptions)
        ensures
            r@ == self@,
    {
        WorkflowOptions {
            enable_deepgram: self.enable_deepgram,
            auto_groq: self.auto_groq,
            enable_assemblyai: self.enable_assemblyai,
            enable_summary: self.enable_summary,
            input_device_names: clone_texts(&self.input_device_names),
            output_device_names: clone_texts(&self.output_device_names),
            deepgram_api_key: self.deepgram_api_key.clone(),
            groq_api_key: self.groq_api_key.clone(),
            assemblyai_api_key: self.assemblyai_api_key.clone(),
            summary_api_key: self.summary_api_key.clone(),
            summary_base_url: self.summary_base_url.clone(),
            deepgram_model: self.deepgram_model.clone(),
            groq_model: self.groq_model.clone(),
            assemblyai_model: self.assemblyai_model.clone(),
            summary_model: self.summary_model.clone(),
            language: self.language.clone(),
            output_dir: self.output_dir.clone(),
            output_prefix: self.output_prefix.clone(),
            log_file_path: self.log_file_path.clone(),
            wav_file_path: self.wav_file_path.clone(),
            groq_file_path: self.groq_file_path.clone(),
            assemblyai_file_path: self.assemblyai_file_path.clone(),
            summary_file_path: self.summary_file_path.clone(),
            summary_prompt: self.summary_prompt.clone(),
        }
    }

    /// Whether two option sets are the same.
    pub fn same_as(&self, other: &WorkflowOptions) -> (b: bool)
        ensures
            b == (self@ == other@),
    {
        let r = self.enable_deepgram == other.enable_deepgram && self.auto_groq == other.auto_groq
            && self.enable_assemblyai == other.enable_assemblyai && self.enable_summary
            == other.enable_summary && same_texts(&self.input_device_names, &other.input_device_names)
            && same_texts(&self.output_device_names, &other.output_device_names)
            && self.deepgram_api_key == other.deepgram_api_key && self.groq_api_key
            == other.groq_api_key && self.assemblyai_api_key == other.assemblyai_api_key
            && self.summary_api_key == other.summary_api_key && self.summary_base_url
            == other.summary_base_url && self.deepgram_model == other.deepgram_model
            && self.groq_model == other.groq_model && self.assemblyai_model
            == other.assemblyai_model && self.summary_model == other.summary_model
            && self.language == other.language && self.output_dir == other.output_dir
            && self.output_prefix == other.output_prefix && self.log_file_path
            == other.log_file_path && self.wav_file_path == other.wav_file_path
            && self.groq_file_path == other.groq_file_path && self.assemblyai_file_path
            == other.assemblyai_file_path && self.summary_file_path == other.summary_file_path
            && self.summary_prompt == other.summary_prompt;
        r
    }
}

/// Whether two lists of strings are the same.
pub fn same_texts(a: &Vec<String>, b: &Vec<String>) -> (r: bool)
    ensures
        r == (a.deep_view() == b.deep_view()),
{
    if a.len() != b.len() {
        assert(a.deep_view().len() != b.deep_view().len());
        return false;
    }
    let mut i: usize = 0;
    while i < a.len()
        invariant
            a@.len() == b@.len(),
            i <= a@.len(),
            forall|k: int| 0 <= k < i ==> #[trigger] a@[k]@ == b@[k]@,
        decreases a@.len() - i,
    {
        if a[i] != b[i] {
            assert(a.deep_view()[i as int] != b.deep_view()[i as int]);
            return false;
        }
        i = i + 1;
    }
    assert(a.deep_view() =~= b.deep_view());
    true
}

/// The output folder to use: the trimmed setting, or this user's default
/// output folder when the setting is blank.
pub fn normalized_output_dir(output_dir: &str) -> (r: String)
    ensures
        trim_spec(output_dir@).len() > 0 ==> r@ == trim_spec(output_dir@),
        trim_spec(output_dir@).len() == 0 ==> exists|base: Seq<char>, sep: char|
            some_platform_sep(sep) && r@ == join_spec(base, "outputs"@, sep),
{
    let t = trim(output_dir);
    if t.unicode_len() == 0 {
        default_output_dir()
    } else {
        t
    }
}

/// The folder part of a session file path before the default is substituted.
pub open spec fn session_dir_spec(output_dir: Seq<char>) -> Seq<char> {
    trim_spec(trim_end_seps_spec(trim_spec(output_dir)))
}

pub open spec fn session_file_name_spec(prefix: Seq<char>, session_id: Seq<char>, name: Seq<char>, extension: Seq<char>) -> Seq<char> {
    if trim_spec(prefix).len() == 0 {
        session_id + "_"@ + name + "."@ + extension
    } else {
        trim_spec(prefix) + "_"@ + session_id + "_"@ + name + "."@ + extension
    }
}

/// The file name of one session output: `[prefix_]session_name.extension`.
pub fn session_file_name(prefix: &str, session_id: &str, name: &str, extension: &str) -> (r: String)
    ensures
        r@ == session_file_name_spec(prefix@, session_id@, name@, extension@),
{
    let p = trim(prefix);
    let mut r = if p.unicode_len() == 0 {
        owned(session_id)
    } else {
        cat3(p.as_str(), "_", session_id)
    };
    r.append("_");
    r.append(name);
    r.append(".");
    r.append(extension);
    r
}

/// The path of one session output inside `output_dir`, falling back to this
/// user's default output folder when `output_dir` is blank.
pub fn session_output_path_in_dir(
    output_dir: &str,
    output_prefix: &str,
    session_id: &str,
    name: &str,
    extension: &str,
) -> (r: String)
    ensures
        session_dir_spec(output_dir@).len() > 0 ==> r@ == session_dir_spec(output_dir@) + "/"@
            + session_file_name_spec(output_prefix@, session_id@, name@, extension@),
        session_dir_spec(output_dir@).len() == 0 ==> exists|dir: Seq<char>| r@ == dir + "/"@
            + session_file_name_spec(output_prefix@, session_id@, name@, extension@),
{
    let t = trim(output_dir);
    let u = trim_end_seps(t.as_str());
    let d = trim(u.as_str());
    let dir = if d.unicode_len() == 0 {
        default_output_dir()
    } else {
        d
    };
    let file = session_file_name(output_prefix, session_id, name, extension);
    let r = cat3(dir.as_str(), "/", file.as_str());
    assert(r@ == dir@ + "/"@ + file@);
    r
}

/// Options whose text settings read back unchanged: every optional text is
/// trimmed and every text that must not be blank is trimmed and non-blank.
pub open spec fn persistable(o: OptionsView) -> bool {
    &&& trim_spec(o.deepgram_api_key) == o.deepgram_api_key
    &&& trim_spec(o.groq_api_key) == o.groq_api_key
    &&& trim_spec(o.summary_api_key) == o.summary_api_key
    &&& trim_spec(o.output_prefix) == o.output_prefix
    &&& trim_spec(o.summary_base_url) == o.summary_base_url && o.summary_base_url.len() > 0
    &&& trim_spec(o.deepgram_model) == o.deepgram_model && o.deepgram_model.len() > 0
    &&& trim_spec(o.groq_model) == o.groq_model && o.groq_model.len() > 0
    &&& trim_spec(o.summary_model) == o.summary_model && o.summary_model.len() > 0
    &&& trim_spec(o.language) == o.language && o.language.len() > 0
    &&& trim_spec(o.output_dir) == o.output_dir && o.output_dir.len() > 0
    &&& trim_spec(o.log_file_path) == o.log_file_path && o.log_file_path.len() > 0
    &&& trim_spec(o.wav_file_path) == o.wav_file_path && o.wav_file_path.len() > 0
    &&& trim_spec(o.groq_file_path) == o.groq_file_path && o.groq_file_path.len() > 0
    &&& trim_spec(o.summary_file_path) == o.summary_file_path && o.summary_file_path.len() > 0
    &&& trim_spec(o.summary_prompt) == o.summary_prompt && o.summary_prompt.len() > 0
}

/// Saving options and reading them back over any options gives the saved
/// options back, except the AssemblyAI settings, which the settings file does
/// not hold and which keep the values they had; the theme choice is kept too.
pub proof fn law_settings_round_trip(o: OptionsView, base: OptionsView, dark_mode: bool)
    requires
        persistable(o),
    ensures
        apply_persisted_spec(base, to_persisted_spec(o, dark_mode)) == (OptionsView {
            enable_assemblyai: base.enable_assemblyai,
            assemblyai_api_key: base.assemblyai_api_key,
            assemblyai_model: base.assemblyai_model,
            assemblyai_file_path: base.assemblyai_file_path,
            ..o
        }),
        to_persisted_spec(o, dark_mode).dark_mode == Some(dark_mode),
{
}

/// Reading the same settings twice gives the options of reading them once.
pub proof fn law_apply_persisted_idempotent(o: OptionsView, p: PersistedView)
    ensures
        apply_persisted_spec(apply_persisted_spec(o, p), p) == apply_persisted_spec(o, p),
{
}

/// Reading settings fills each option from the setting of the same name: a
/// flag or device list as it is saved; a key or the file prefix trimmed; any
/// other text trimmed unless it is blank. A setting that is absent (or, for
/// those, blank) leaves its option as it was, and the AssemblyAI options,
/// which the file does not hold, are never touched.
pub proof fn law_settings_read_by_name(o: OptionsView, p: PersistedView)
    ensures
        p.enable_deepgram is Some ==> apply_persisted_spec(o, p).enable_deepgram == p.enable_deepgram->0,
        p.enable_deepgram is None ==> apply_persisted_spec(o, p).enable_deepgram == o.enable_deepgram,
        p.auto_groq is Some ==> apply_persisted_spec(o, p).auto_groq == p.auto_groq->0,
        p.auto_groq is None ==> apply_persisted_spec(o, p).auto_groq == o.auto_groq,
        p.enable_summary is Some ==> apply_persisted_spec(o, p).enable_summary == p.enable_summary->0,
        p.enable_summary is None ==> apply_persisted_spec(o, p).enable_summary == o.enable_summary,
        p.input_device_names is Some ==> apply_persisted_spec(o, p).input_device_names == p.input_device_names->0,
        p.input_device_names is None ==> apply_persisted_spec(o, p).input_device_names == o.input_device_names,
        p.output_device_names is Some ==> apply_persisted_spec(o, p).output_device_names == p.output_device_names->0,
        p.output_device_names is None ==> apply_persisted_spec(o, p).output_device_names == o.output_device_names,
        p.deepgram_api_key is Some ==> apply_persisted_spec(o, p).deepgram_api_key == trim_spec(p.deepgram_api_key->0),
        p.deepgram_api_key is None ==> apply_persisted_spec(o, p).deepgram_api_key == o.deepgram_api_key,
        p.groq_api_key is Some ==> apply_persisted_spec(o, p).groq_api_key == trim_spec(p.groq_api_key->0),
        p.groq_api_key is None ==> apply_persisted_spec(o, p).groq_api_key == o.groq_api_key,
        p.summary_api_key is Some ==> apply_persisted_spec(o, p).summary_api_key == trim_spec(p.summary_api_key->0),
        p.summary_api_key is None ==> apply_persisted_spec(o, p).summary_api_key == o.summary_api_key,
        p.output_prefix is Some ==> apply_persisted_spec(o, p).output_prefix == trim_spec(p.output_prefix->0),
        p.output_prefix is None ==> apply_persisted_spec(o, p).output_prefix == o.output_prefix,
        p.summary_base_url is Some && trim_spec(p.summary_base_url->0).len() > 0 ==> apply_persisted_spec(o, p).summary_base_url == trim_spec(p.summary_base_url->0),
        !(p.summary_base_url is Some && trim_spec(p.summary_base_url->0).len() > 0) ==> apply_persisted_spec(o, p).summary_base_url == o.summary_base_url,
        p.deepgram_model is Some && trim_spec(p.deepgram_model->0).len() > 0 ==> apply_persisted_spec(o, p).deepgram_model == trim_spec(p.deepgram_model->0),
        !(p.deepgram_model is Some && trim_spec(p.deepgram_model->0).len() > 0) ==> apply_persisted_spec(o, p).deepgram_model == o.deepgram_model,
        p.groq_model is Some && trim_spec(p.groq_model->0).len() > 0 ==> apply_persisted_spec(o, p).groq_model == trim_spec(p.groq_model->0),
        !(p.groq_model is Some && trim_spec(p.groq_model->0).len() > 0) ==> apply_persisted_spec(o, p).groq_model == o.groq_model,
        p.summary_model is Some && trim_spec(p.summary_model->0).len() > 0 ==> apply_persisted_spec(o, p).summary_model == trim_spec(p.summary_model->0),
        !(p.summary_model is Some && trim_spec(p.summary_model->0).len() > 0) ==> apply_persisted_spec(o, p).summary_model == o.summary_model,
        p.language is Some && trim_spec(p.language->0).len() > 0 ==> apply_persisted_spec(o, p).language == trim_spec(p.language->0),
        !(p.language is Some && trim_spec(p.language->0).len() > 0) ==> apply_persisted_spec(o, p).language == o.language,
        p.output_dir is Some && trim_spec(p.output_dir->0).len() > 0 ==> apply_persisted_spec(o, p).output_dir == trim_spec(p.output_dir->0),
        !(p.output_dir is Some && trim_spec(p.output_dir->0).len() > 0) ==> apply_persisted_spec(o, p).output_dir == o.output_dir,
        p.log_file_path is Some && trim_spec(p.log_file_path->0).len() > 0 ==> apply_persisted_spec(o, p).log_file_path == trim_spec(p.log_file_path->0),
        !(p.log_file_path is Some && trim_spec(p.log_file_path->0).len() > 0) ==> apply_persisted_spec(o, p).log_file_path == o.log_file_path,
        p.wav_file_path is Some && trim_spec(p.wav_file_path->0).len() > 0 ==> apply_persisted_spec(o, p).wav_file_path == trim_spec(p.wav_file_path->0),
        !(p.wav_file_path is Some && trim_spec(p.wav_file_path->0).len() > 0) ==> apply_persisted_spec(o, p).wav_file_path == o.wav_file_path,
        p.groq_file_path is Some && trim_spec(p.groq_file_path->0).len() > 0 ==> apply_persisted_spec(o, p).groq_file_path == trim_spec(p.groq_file_path->0),
        !(p.groq_file_path is Some && trim_spec(p.groq_file_path->0).len() > 0) ==> apply_persisted_spec(o, p).groq_file_path == o.groq_file_path,
        p.summary_file_path is Some && trim_spec(p.summary_file_path->0).len() > 0 ==> apply_persisted_spec(o, p).summary_file_path == trim_spec(p.summary_file_path->0),
        !(p.summary_file_path is Some && trim_spec(p.summary_file_path->0).len() > 0) ==> apply_persisted_spec(o, p).summary_file_path == o.summary_file_path,
        p.summary_prompt is Some && trim_spec(p.summary_prompt->0).len() > 0 ==> apply_persisted_spec(o, p).summary_prompt == trim_spec(p.summary_prompt->0),
        !(p.summary_prompt is Some && trim_spec(p.summary_prompt->0).len() > 0) ==> apply_persisted_spec(o, p).summary_prompt == o.summary_prompt,
        apply_persisted_spec(o, p).enable_assemblyai == o.enable_assemblyai,
        apply_persisted_spec(o, p).assemblyai_api_key == o.assemblyai_api_key,
        apply_persisted_spec(o, p).assemblyai_model == o.assemblyai_model,
        apply_persisted_spec(o, p).assemblyai_file_path == o.assemblyai_file_path,
{
}

/// Saving writes each option under the setting of the same name, as it is,
/// with the schema version 1 and the theme choice.
pub proof fn law_settings_written_by_name(o: OptionsView, dark_mode: bool)
    ensures
        to_persisted_spec(o, dark_mode).schema_version == Some(1u32),
        to_persisted_spec(o, dark_mode).dark_mode == Some(dark_mode),
        to_persisted_spec(o, dark_mode).enable_deepgram == Some(o.enable_deepgram),
        to_persisted_spec(o, dark_mode).auto_groq == Some(o.auto_groq),
        to_persisted_spec(o, dark_mode).enable_summary == Some(o.enable_summary),
        to_persisted_spec(o, dark_mode).input_device_names == Some(o.input_device_names),
        to_persisted_spec(o, dark_mode).output_device_names == Some(o.output_device_names),
        to_persisted_spec(o, dark_mode).deepgram_api_key == Some(o.deepgram_api_key),
        to_persisted_spec(o, dark_mode).groq_api_key == Some(o.groq_api_key),
        to_persisted_spec(o, dark_mode).summary_api_key == Some(o.summary_api_key),
        to_persisted_spec(o, dark_mode).output_prefix == Some(o.output_prefix),
        to_persisted_spec(o, dark_mode).summary_base_url == Some(o.summary_base_url),
        to_persisted_spec(o, dark_mode).deepgram_model == Some(o.deepgram_model),
        to_persisted_spec(o, dark_mode).groq_model == Some(o.groq_model),
        to_persisted_spec(o, dark_mode).summary_model == Some(o.summary_model),
        to_persisted_spec(o, dark_mode).language == Some(o.language),
        to_persisted_spec(o, dark_mode).output_dir == Some(o.output_dir),
        to_persisted_spec(o, dark_mode).log_file_path == Some(o.log_file_path),
        to_persisted_spec(o, dark_mode).wav_file_path == Some(o.wav_file_path),
        to_persisted_spec(o, dark_mode).groq_file_path == Some(o.groq_file_path),
        to_persisted_spec(o, dark_mode).summary_file_path == Some(o.summary_file_path),
        to_persisted_spec(o, dark_mode).summary_prompt == Some(o.summary_prompt),
{
}

} // verus!
