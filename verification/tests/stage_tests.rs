use rms_recorder::stage::{parse_stage, primary_action_for, AppStage, PrimaryAction};

#[test]
fn primary_action_progresses_through_record_review_ai() {
    assert_eq!(primary_action_for(AppStage::Init, true), Some(PrimaryAction::Start));
    assert_eq!(primary_action_for(AppStage::Recording, true), Some(PrimaryAction::Stop));
    assert_eq!(primary_action_for(AppStage::Review, true), Some(PrimaryAction::RunAi));
}

#[test]
fn primary_action_hides_run_ai_when_no_ai_is_enabled() {
    assert_eq!(primary_action_for(AppStage::Review, false), Some(PrimaryAction::Start));
}

#[test]
fn primary_action_stays_visible_as_loading_during_busy_stages() {
    assert_eq!(primary_action_for(AppStage::Finalizing, true), Some(PrimaryAction::LoadingStop));
    assert_eq!(primary_action_for(AppStage::GroqProcessing, true), Some(PrimaryAction::LoadingRunAi));
    assert_eq!(primary_action_for(AppStage::SummaryProcessing, true), Some(PrimaryAction::LoadingRunAi));
}

#[test]
fn primary_action_has_stable_user_facing_labels() {
    assert_eq!(PrimaryAction::Start.label(), "Start");
    assert_eq!(PrimaryAction::Stop.label(), "Stop");
    assert_eq!(PrimaryAction::RunAi.label(), "Run AI");
    assert_eq!(PrimaryAction::LoadingStop.label(), "Stop");
    assert_eq!(PrimaryAction::LoadingRunAi.label(), "Run AI");
}

#[test]
fn transcript_editing_is_only_allowed_before_ai_processing() {
    assert!(AppStage::Recording.allows_transcript_edit());
    assert!(AppStage::Finalizing.allows_transcript_edit());
    assert!(AppStage::Review.allows_transcript_edit());
    assert!(!AppStage::GroqProcessing.allows_transcript_edit());
    assert!(!AppStage::SummaryProcessing.allows_transcript_edit());
    assert!(!AppStage::Done.allows_transcript_edit());
}

#[test]
fn assemblyai_stage_is_busy_and_loading() {
    assert!(AppStage::AssemblyAiProcessing.is_busy());
    assert!(!AppStage::AssemblyAiProcessing.allows_transcript_edit());
    assert_eq!(primary_action_for(AppStage::AssemblyAiProcessing, false), Some(PrimaryAction::LoadingRunAi));
}

#[test]
fn every_stage_offers_an_action_and_loading_means_busy() {
    let stages = [
        AppStage::Init,
        AppStage::Recording,
        AppStage::Finalizing,
        AppStage::Review,
        AppStage::GroqProcessing,
        AppStage::AssemblyAiProcessing,
        AppStage::SummaryProcessing,
        AppStage::Done,
        AppStage::Error,
    ];
    for stage in stages {
        for ai in [true, false] {
            let action = primary_action_for(stage, ai).unwrap();
            assert_eq!(action.is_loading(), stage.is_busy() && stage != AppStage::Recording);
        }
    }
}

#[test]
fn stage_names_from_workers() {
    assert_eq!(parse_stage("Finalizing WAV"), AppStage::Finalizing);
    assert_eq!(parse_stage("Review transcript"), AppStage::Review);
    assert_eq!(parse_stage("Groq chunk/upload"), AppStage::GroqProcessing);
    assert_eq!(parse_stage("AssemblyAI WAV upload"), AppStage::AssemblyAiProcessing);
    assert_eq!(parse_stage("Summary generation"), AppStage::SummaryProcessing);
    assert_eq!(parse_stage("Done"), AppStage::Done);
    assert_eq!(parse_stage("something else"), AppStage::Recording);
    assert_eq!(parse_stage("done"), AppStage::Recording);
}
