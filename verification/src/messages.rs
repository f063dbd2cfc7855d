//! Messages that workers send to the session, and their mathematical values.

use vstd::prelude::*;

verus! {

/// The service whose credentials were checked.
#[derive(Clone, Copy, Debug, PartialEq, Eq, Structural)]
pub enum CredentialProvider {
    Deepgram,
    AssemblyAi,
    Groq,
    Summary,
}

/// A message from a worker to the session.
pub enum UiMessage {
    InterimTranscript(String),
    FinalTranscript(String),
    ReviewReady { wav_path: String },
    GroqTranscript(String),
    AssemblyAiFinalTranscript(String),
    BatchTranscriptionDone,
    Summary(String),
    Log(String),
    Error(String),
    GroqError(String),
    AssemblyAiError(String),
    SummaryError(String),
    Stage(String),
    CredentialCheck { provider: CredentialProvider, result: Result<String, String> },
    Stopped,
}

/// The mathematical value of a [`UiMessage`].
pub enum MessageView {
    InterimTranscript(Seq<char>),
    FinalTranscript(Seq<char>),
    ReviewReady { wav_path: Seq<char> },
    GroqTranscript(Seq<char>),
    AssemblyAiFinalTranscript(Seq<char>),
    BatchTranscriptionDone,
    Summary(Seq<char>),
    Log(Seq<char>),
    Error(Seq<char>),
    GroqError(Seq<char>),
    AssemblyAiError(Seq<char>),
    SummaryError(Seq<char>),
    Stage(Seq<char>),
    CredentialCheck { provider: CredentialProvider, result: Result<Seq<char>, Seq<char>> },
    Stopped,
}

impl View for UiMessage {
    type V = MessageView;

    open spec fn view(&self) -> MessageView {
        match self {
            UiMessage::InterimTranscript(t) => MessageView::InterimTranscript(t@),
            UiMessage::FinalTranscript(t) => MessageView::FinalTranscript(t@),
            UiMessage::ReviewReady { wav_path } => MessageView::ReviewReady { wav_path: wav_path@ },
            UiMessage::GroqTranscript(t) => MessageView::GroqTranscript(t@),
            UiMessage::AssemblyAiFinalTranscript(t) => MessageView::AssemblyAiFinalTranscript(t@),
            UiMessage::BatchTranscriptionDone => MessageView::BatchTranscriptionDone,
            UiMessage::Summary(t) => MessageView::Summary(t@),
            UiMessage::Log(t) => MessageView::Log(t@),
            UiMessage::Error(t) => MessageView::Error(t@),
            UiMessage::GroqError(t) => MessageView::GroqError(t@),
            UiMessage::AssemblyAiError(t) => MessageView::AssemblyAiError(t@),
            UiMessage::SummaryError(t) => MessageView::SummaryError(t@),
            UiMessage::Stage(t) => MessageView::Stage(t@),
            UiMessage::CredentialCheck { provider, result } => MessageView::CredentialCheck {
                provider: *provider,
                result: match result {
                    Ok(m) => Ok(m@),
                    Err(e) => Err(e@),
                },
            },
            UiMessage::Stopped => MessageView::Stopped,
        }
    }
}

} // verus!
