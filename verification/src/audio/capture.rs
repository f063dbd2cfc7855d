//! The decisions of audio capture: which devices are opened, how sources are
//! labelled, when startup is complete or has failed, and when a source gives up
//! after repeated read errors.

use vstd::prelude::*;
use crate::messages::{MessageView, UiMessage};
use crate::text::{cat, cat3, decimal, decimal_string, owned, trim, trim_spec};

verus! {

/// The device name that selects the system default device.
pub const DEFAULT_DEVICE_NAME: &'static str = "Default";

/// Consecutive read errors after which a source gives up.
pub const MAX_CONSECUTIVE_READ_ERRORS: usize = 10;

/// The sample rate of the mixed stream.
pub const LOOPBACK_SAMPLE_RATE: u32 = 48000;

/// Whether a source records what the system plays or what a microphone hears.
#[derive(Clone, Copy, Debug, PartialEq, Eq, Structural)]
pub enum Direction {
    Render,
    Capture,
}

/// An event of an audio source.
pub enum WasapiCaptureEvent {
    SourceStarted { source_id: usize, label: String },
    SourceFailed { source_id: usize, label: String, error: String },
}

/// The session message that reports a source event, and whether the capture
/// must be cancelled because of it.
pub open spec fn capture_event_message_spec(event: WasapiCaptureEvent) -> (MessageView, bool) {
    match event {
        WasapiCaptureEvent::SourceStarted { source_id, label } => (
            MessageView::Log("Audio: source "@ + decimal(source_id as nat) + " started ("@ + label@ + ")"@),
            false,
        ),
        WasapiCaptureEvent::SourceFailed { source_id, label, error } => (
            MessageView::Error(
                "Audio source "@ + decimal(source_id as nat) + " failed ("@ + label@ + "): "@ + error@,
            ),
            true,
        ),
    }
}

/// Turns a source event into the message shown to the user; a failed source
/// also cancels the capture.
pub fn capture_event_message(event: WasapiCaptureEvent) -> (r: (UiMessage, bool))
    ensures
        (r.0@, r.1) == capture_event_message_spec(event),
{
    match event {
        WasapiCaptureEvent::SourceStarted { source_id, label } => {
            let id = decimal_string(source_id as u64);
            let mut m = cat3("Audio: source ", id.as_str(), " started (");
            m.append(label.as_str());
            m.append(")");
            (UiMessage::Log(m), false)
        },
        WasapiCaptureEvent::SourceFailed { source_id, label, error } => {
            let id = decimal_string(source_id as u64);
            let mut m = cat3("Audio source ", id.as_str(), " failed (");
            m.append(label.as_str());
            m.append("): ");
            m.append(error.as_str());
            (UiMessage::Error(m), true)
        },
    }
}

pub open spec fn direction_label_spec(d: Direction) -> Seq<char> {
    match d {
        Direction::Render => "output"@,
        Direction::Capture => "input"@,
    }
}

pub fn direction_label(direction: Direction) -> (r: &'static str)
    ensures
        r@ == direction_label_spec(direction),
{
    match direction {
        Direction::Render => "output",
        Direction::Capture => "input",
    }
}

pub open spec fn source_label_spec(d: Direction, device_name: Seq<char>) -> Seq<char> {
    direction_label_spec(d) + ": "@ + (if trim_spec(device_name).len() == 0 {
        "default device"@
    } else {
        trim_spec(device_name)
    })
}

/// The label of a source, such as `input: USB Microphone`.
pub fn source_label(direction: Direction, device_name: &str) -> (r: String)
    ensures
        r@ == source_label_spec(direction, device_name@),
{
    let t = trim(device_name);
    let device = if t.unicode_len() == 0 { owned("default device") } else { t };
    cat3(direction_label(direction), ": ", device.as_str())
}

/// The output and input devices to open; at least one must be selected.
pub fn selected_audio_sources(render_device_names: Vec<String>, capture_device_names: Vec<String>) -> (r: Result<(Vec<String>, Vec<String>), String>)
    ensures
        render_device_names@.len() == 0 && capture_device_names@.len() == 0 ==> r is Err
            && r->Err_0@ == "Select at least one microphone or system audio device."@,
        !(render_device_names@.len() == 0 && capture_device_names@.len() == 0) ==> r is Ok
            && r->Ok_0.0@ == render_device_names@ && r->Ok_0.1@ == capture_device_names@,
{
    if render_device_names.len() == 0 && capture_device_names.len() == 0 {
        return Err(owned("Select at least one microphone or system audio device."));
    }
    Ok((render_device_names, capture_device_names))
}

/// What ended a wait for the next startup event.
pub enum StartupEvent {
    Started,
    Failed { label: String, error: String },
    /// The startup deadline passed before the next event.
    TimedOut,
    /// Every source thread ended without reporting.
    Disconnected,
}

/// Where startup stands.
pub enum StartupStep {
    Waiting,
    Ready,
    /// Startup failed; capture is to be cancelled.
    Failed(String),
}

/// Counts the sources that reported a successful start.
pub struct StartupWait {
    pub started: usize,
    pub total: usize,
}

pub open spec fn timeout_message(started: nat, total: nat) -> Seq<char> {
    "Audio startup timed out: "@ + decimal(started) + "/"@ + decimal(total) + " WASAPI sources started"@
}

fn timeout_text(started: usize, total: usize) -> (r: String)
    ensures
        r@ == timeout_message(started as nat, total as nat),
{
    let a = decimal_string(started as u64);
    let b = decimal_string(total as u64);
    let mut r = cat3("Audio startup timed out: ", a.as_str(), "/");
    r.append(b.as_str());
    r.append(" WASAPI sources started");
    r
}

impl StartupWait {
    pub fn new(total: usize) -> (w: StartupWait)
        ensures
            w.started == 0,
            w.total == total,
    {
        StartupWait { started: 0, total }
    }

    /// Whether every source has started.
    pub fn is_ready(&self) -> (b: bool)
        ensures
            b == (self.started >= self.total),
    {
        self.started >= self.total
    }

    /// Takes one startup event.
    pub fn step(&mut self, event: StartupEvent) -> (r: StartupStep)
        requires
            old(self).started < old(self).total,
        ensures
            final(self).total == old(self).total,
            match event {
                StartupEvent::Started => final(self).started == old(self).started + 1 && (if final(self).started >= final(self).total {
                    r is Ready
                } else {
                    r is Waiting
                }),
                StartupEvent::Failed { label, error } => final(self).started == old(self).started && r is Failed
                    && r->Failed_0@ == "Audio source failed ("@ + label@ + "): "@ + error@,
                StartupEvent::TimedOut => final(self).started == old(self).started && r is Failed
                    && r->Failed_0@ == timeout_message(old(self).started as nat, old(self).total as nat),
                StartupEvent::Disconnected => final(self).started == old(self).started && r is Failed
                    && r->Failed_0@ == "Audio startup channel closed before sources were ready"@,
            },
    {
        match event {
            StartupEvent::Started => {
                self.started = self.started + 1;
                if self.started >= self.total {
                    StartupStep::Ready
                } else {
                    StartupStep::Waiting
                }
            },
            StartupEvent::Failed { label, error } => {
                let mut m = cat3("Audio source failed (", label.as_str(), "): ");
                m.append(error.as_str());
                StartupStep::Failed(m)
            },
            StartupEvent::TimedOut => StartupStep::Failed(timeout_text(self.started, self.total)),
            StartupEvent::Disconnected => StartupStep::Failed(owned("Audio startup channel closed before sources were ready")),
        }
    }
}

/// Which kind of device read failed.
#[derive(Clone, Copy, Debug, PartialEq, Eq, Structural)]
pub enum ReadKind {
    /// An event-driven read.
    Event,
    /// Reading the size of the next packet while polling.
    PacketSize,
    /// A polling read.
    Polling,
}

pub open spec fn read_kind_words(k: ReadKind) -> Seq<char> {
    match k {
        ReadKind::Event => " read errors: "@,
        ReadKind::PacketSize => " packet read errors: "@,
        ReadKind::Polling => " polling read errors: "@,
    }
}

/// Counts consecutive read errors of one source.
pub struct ReadErrors {
    pub consecutive: usize,
}

impl ReadErrors {
    pub fn new() -> (r: ReadErrors)
        ensures
            r.consecutive == 0,
    {
        ReadErrors { consecutive: 0 }
    }

    /// A read succeeded.
    pub fn record_success(&mut self)
        ensures
            final(self).consecutive == 0,
    {
        self.consecutive = 0;
    }

    /// A read failed with `err`; returns the reason to give up once
    /// [`MAX_CONSECUTIVE_READ_ERRORS`] reads in a row have failed.
    pub fn record_failure(&mut self, source_id: usize, kind: ReadKind, err: &str) -> (give_up: Option<String>)
        requires
            old(self).consecutive < MAX_CONSECUTIVE_READ_ERRORS,
        ensures
            final(self).consecutive == old(self).consecutive + 1,
            final(self).consecutive >= MAX_CONSECUTIVE_READ_ERRORS ==> give_up is Some && give_up->0@ == "WASAPI source "@
                + decimal(source_id as nat) + " failed after "@ + decimal(final(self).consecutive as nat) + read_kind_words(kind) + err@,
            final(self).consecutive < MAX_CONSECUTIVE_READ_ERRORS ==> give_up is None,
    {
        self.consecutive = self.consecutive + 1;
        if self.consecutive >= MAX_CONSECUTIVE_READ_ERRORS {
            let id = decimal_string(source_id as u64);
            let n = decimal_string(self.consecutive as u64);
            let mut m = cat3("WASAPI source ", id.as_str(), " failed after ");
            m.append(n.as_str());
            m.append(match kind {
                ReadKind::Event => " read errors: ",
                ReadKind::PacketSize => " packet read errors: ",
                ReadKind::Polling => " polling read errors: ",
            });
            m.append(err);
            Some(m)
        } else {
            None
        }
    }
}

} // verus!
