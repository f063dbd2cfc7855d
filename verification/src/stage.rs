//! Workflow stages, the primary action offered in each stage, and the mapping
//! from stage names carried by worker messages to stages.

use vstd::prelude::*;
use crate::text::text_eq;

verus! {

/// The stage of a recording session.
#[derive(Clone, Copy, Debug, PartialEq, Eq, Structural)]
pub enum AppStage {
    Init,
    Recording,
    Finalizing,
    Review,
    GroqProcessing,
    AssemblyAiProcessing,
    SummaryProcessing,
    Done,
    Error,
}

/// The after-review step that failed last.
#[derive(Clone, Copy, Debug, PartialEq, Eq, Structural)]
pub enum FailedStage {
    Groq,
    AssemblyAi,
    Summary,
}

/// The main button shown for a stage.
#[derive(Clone, Copy, Debug, PartialEq, Eq, Structural)]
pub enum PrimaryAction {
    Start,
    Stop,
    RunAi,
    LoadingStop,
    LoadingRunAi,
}

impl AppStage {
    /// Stages in which a worker is running and a new session must not start.
    pub open spec fn busy(self) -> bool {
        self is Recording || self is Finalizing || self is GroqProcessing
            || self is AssemblyAiProcessing || self is SummaryProcessing
    }

    /// Stages in which the realtime transcript may still be edited.
    pub open spec fn edit_allowed(self) -> bool {
        self is Recording || self is Finalizing || self is Review
    }

    pub fn is_busy(self) -> (b: bool)
        ensures
            b == self.busy(),
    {
        match self {
            AppStage::Recording | AppStage::Finalizing | AppStage::GroqProcessing
            | AppStage::AssemblyAiProcessing | AppStage::SummaryProcessing => true,
            _ => false,
        }
    }

    pub fn allows_transcript_edit(self) -> (b: bool)
        ensures
            b == self.edit_allowed(),
    {
        match self {
            AppStage::Recording | AppStage::Finalizing | AppStage::Review => true,
            _ => false,
        }
    }
}

impl FailedStage {
    /// The name under which the failed step is offered for skipping or retrying.
    pub open spec fn name_spec(self) -> Seq<char> {
        match self {
            FailedStage::Groq => "Groq"@,
            FailedStage::AssemblyAi => "AssemblyAI"@,
            FailedStage::Summary => "Summary"@,
        }
    }

    pub fn name(self) -> (n: &'static str)
        ensures
            n@ == self.name_spec(),
    {
        match self {
            FailedStage::Groq => "Groq",
            FailedStage::AssemblyAi => "AssemblyAI",
            FailedStage::Summary => "Summary",
        }
    }
}

impl PrimaryAction {
    pub open spec fn label_spec(self) -> Seq<char> {
        match self {
            PrimaryAction::Start => "Start"@,
            PrimaryAction::Stop => "Stop"@,
            PrimaryAction::RunAi => "Run AI"@,
            PrimaryAction::LoadingStop => "Stop"@,
            PrimaryAction::LoadingRunAi => "Run AI"@,
        }
    }

    pub open spec fn loading(self) -> bool {
        self is LoadingStop || self is LoadingRunAi
    }

    pub fn label(self) -> (l: &'static str)
        ensures
            l@ == self.label_spec(),
    {
        match self {
            PrimaryAction::Start => "Start",
            PrimaryAction::Stop => "Stop",
            PrimaryAction::RunAi => "Run AI",
            PrimaryAction::LoadingStop => "Stop",
            PrimaryAction::LoadingRunAi => "Run AI",
        }
    }

    pub fn is_loading(self) -> (b: bool)
        ensures
            b == self.loading(),
    {
        match self {
            PrimaryAction::LoadingStop | PrimaryAction::LoadingRunAi => true,
            _ => false,
        }
    }
}

pub open spec fn primary_action_spec(stage: AppStage, ai_after_review_enabled: bool) -> Option<
    PrimaryAction,
> {
    match stage {
        AppStage::Init | AppStage::Done | AppStage::Error => Some(PrimaryAction::Start),
        AppStage::Recording => Some(PrimaryAction::Stop),
        AppStage::Review => if ai_after_review_enabled {
            Some(PrimaryAction::RunAi)
        } else {
            Some(PrimaryAction::Start)
        },
        AppStage::Finalizing => Some(PrimaryAction::LoadingStop),
        AppStage::GroqProcessing | AppStage::AssemblyAiProcessing
        | AppStage::SummaryProcessing => Some(PrimaryAction::LoadingRunAi),
    }
}

/// The primary action shown for `stage`.
pub fn primary_action_for(stage: AppStage, ai_after_review_enabled: bool) -> (r: Option<
    PrimaryAction,
>)
    ensures
        r == primary_action_spec(stage, ai_after_review_enabled),
{
    match stage {
        AppStage::Init | AppStage::Done | AppStage::Error => Some(PrimaryAction::Start),
        AppStage::Recording => Some(PrimaryAction::Stop),
        AppStage::Review => {
            if ai_after_review_enabled {
                Some(PrimaryAction::RunAi)
            } else {
                Some(PrimaryAction::Start)
            }
        },
        AppStage::Finalizing => Some(PrimaryAction::LoadingStop),
        AppStage::GroqProcessing | AppStage::AssemblyAiProcessing
        | AppStage::SummaryProcessing => Some(PrimaryAction::LoadingRunAi),
    }
}

pub open spec fn parse_stage_spec(name: Seq<char>) -> AppStage {
    if name == "Finalizing WAV"@ {
        AppStage::Finalizing
    } else if name == "Review transcript"@ {
        AppStage::Review
    } else if name == "Groq chunk/upload"@ {
        AppStage::GroqProcessing
    } else if name == "AssemblyAI WAV upload"@ {
        AppStage::AssemblyAiProcessing
    } else if name == "Summary generation"@ {
        AppStage::SummaryProcessing
    } else if name == "Done"@ {
        AppStage::Done
    } else {
        AppStage::Recording
    }
}

/// The stage named by a worker's stage message; unknown names mean recording.
pub fn parse_stage(name: &str) -> (r: AppStage)
    ensures
        r == parse_stage_spec(name@),
{
    if text_eq(name, "Finalizing WAV") {
        AppStage::Finalizing
    } else if text_eq(name, "Review transcript") {
        AppStage::Review
    } else if text_eq(name, "Groq chunk/upload") {
        AppStage::GroqProcessing
    } else if text_eq(name, "AssemblyAI WAV upload") {
        AppStage::AssemblyAiProcessing
    } else if text_eq(name, "Summary generation") {
        AppStage::SummaryProcessing
    } else if text_eq(name, "Done") {
        AppStage::Done
    } else {
        AppStage::Recording
    }
}

/// Every stage offers a primary action.
pub proof fn law_primary_action_always_offered(stage: AppStage, ai_after_review_enabled: bool)
    ensures
        primary_action_spec(stage, ai_after_review_enabled) is Some,
{
}

/// A loading (disabled) primary action is shown only while a worker is busy, and
/// every busy stage other than recording shows a loading action.
pub proof fn law_loading_action_iff_busy_after_recording(
    stage: AppStage,
    ai_after_review_enabled: bool,
)
    ensures
        primary_action_spec(stage, ai_after_review_enabled)->0.loading() <==> (stage.busy()
            && stage != AppStage::Recording),
{
}

/// "Run AI" is offered only in review and only when some after-review step is enabled.
pub proof fn law_run_ai_only_in_review(stage: AppStage, ai_after_review_enabled: bool)
    ensures
        primary_action_spec(stage, ai_after_review_enabled) == Some(PrimaryAction::RunAi) <==> (
        stage == AppStage::Review && ai_after_review_enabled),
{
}

/// A loading action carries the same label as the action it stands for.
pub proof fn law_loading_labels_match()
    ensures
        PrimaryAction::LoadingStop.label_spec() == PrimaryAction::Stop.label_spec(),
        PrimaryAction::LoadingRunAi.label_spec() == PrimaryAction::RunAi.label_spec(),
{
}

/// The transcript can be edited only before after-review processing starts, and
/// never while the session is finished or failed.
pub proof fn law_edit_only_before_ai(stage: AppStage)
    ensures
        stage.edit_allowed() ==> !(stage is GroqProcessing || stage is AssemblyAiProcessing
            || stage is SummaryProcessing || stage is Done || stage is Error || stage is Init),
{
}

} // verus!
