//! Realtime transcription with Deepgram: the stream URL, the reconnect delay,
//! and what each streamed result means for the session.

use vstd::prelude::*;
use crate::text::{cat, cat3, decimal, decimal_string, owned, text_eq, trim, trim_spec};

verus! {

/// Refuses a blank key and the template placeholder.
pub fn check_api_key(api_key: &str) -> (r: Result<(), String>)
    ensures
        (trim_spec(api_key@).len() == 0 || api_key@ == "your_deepgram_api_key_here"@) ==> r is Err
            && r->Err_0@ == "Deepgram API key is empty or invalid; realtime transcript skipped"@,
        !(trim_spec(api_key@).len() == 0 || api_key@ == "your_deepgram_api_key_here"@) ==> r is Ok,
{
    let t = trim(api_key);
    if t.unicode_len() == 0 || text_eq(api_key, "your_deepgram_api_key_here") {
        Err(owned("Deepgram API key is empty or invalid; realtime transcript skipped"))
    } else {
        Ok(())
    }
}

pub open spec fn stream_url_spec(sample_rate: u32, model: Seq<char>, language: Seq<char>) -> Seq<char> {
    "wss://api.deepgram.com/v1/listen?encoding=linear16&sample_rate="@ + decimal(sample_rate as nat) + "&channels=1&model="@
        + model + "&language="@ + language + "&interim_results=true&endpointing=100"@
}

/// The streaming URL for mono 16-bit audio at `sample_rate`.
pub fn stream_url(sample_rate: u32, model: &str, language: &str) -> (r: String)
    ensures
        r@ == stream_url_spec(sample_rate, model@, language@),
{
    let sr = decimal_string(sample_rate as u64);
    let mut r = cat3("wss://api.deepgram.com/v1/listen?encoding=linear16&sample_rate=", sr.as_str(), "&channels=1&model=");
    r.append(model);
    r.append("&language=");
    r.append(language);
    r.append("&interim_results=true&endpointing=100");
    r
}

/// What `url::Url::parse` gives for `text`: the URL as `Url::as_str`
/// serializes it, or the text of the parse error.
pub uninterp spec fn url_parse(text: Seq<char>) -> Result<Seq<char>, Seq<char>>;

/// Parses `text` with `url::Url::parse` and gives `Url::as_str`, or the
/// error's text. The contract claims only that the outcome is a function of
/// the text.
#[verifier::external_body]
fn parse_url(text: &str) -> (r: Result<String, String>)
    ensures
        match (r, url_parse(text@)) {
            (Ok(u), Ok(v)) => u@ == v,
            (Err(e), Err(m)) => e@ == m,
            _ => false,
        },
{
    url::Url::parse(text).map(|u| u.as_str().to_string()).map_err(|e| e.to_string())
}

/// The streaming URL, parsed as the websocket request takes it.
pub fn stream_request_url(sample_rate: u32, model: &str, language: &str) -> (r: Result<String, String>)
    ensures
        match (r, url_parse(stream_url_spec(sample_rate, model@, language@))) {
            (Ok(u), Ok(v)) => u@ == v,
            (Err(e), Err(m)) => e@ == m,
            _ => false,
        },
{
    let url = stream_url(sample_rate, model, language);
    parse_url(url.as_str())
}

pub open spec fn pow2(e: nat) -> nat
    decreases e,
{
    if e == 0 { 1 } else { 2 * pow2((e - 1) as nat) }
}

/// Seconds to wait after failed attempt `attempt` (reconnects and uploads):
/// doubling, at most 32.
pub fn backoff_secs(attempt: u32) -> (s: u64)
    ensures
        s == pow2(if attempt < 5 { attempt as nat } else { 5 }),
{
    let e: u32 = if attempt < 5 { attempt } else { 5 };
    let mut s: u64 = 1;
    let mut i: u32 = 0;
    while i < e
        invariant
            i <= e <= 5,
            s == pow2(i as nat),
            s <= 32,
        decreases e - i,
    {
        proof {
            reveal_with_fuel(pow2, 6);
        }
        s = s * 2;
        i = i + 1;
    }
    s
}

/// The log line of connect attempt `attempt`.
pub fn connect_attempt_line(attempt: u32) -> (r: String)
    ensures
        r@ == "Deepgram: connect attempt "@ + decimal(attempt as nat),
{
    let n = decimal_string(attempt as u64);
    cat("Deepgram: connect attempt ", n.as_str())
}

/// The reconnect count of a stream: the attempts since the last successful
/// connection.
pub struct Reconnect {
    pub attempt: u32,
}

impl Reconnect {
    pub fn new() -> (r: Reconnect)
        ensures
            r.attempt == 0,
    {
        Reconnect { attempt: 0 }
    }

    /// A connection attempt begins; gives its log line. The count wraps at
    /// `u32::MAX`.
    pub fn begin(&mut self) -> (line: String)
        ensures
            final(self).attempt == (if old(self).attempt < u32::MAX { (old(self).attempt + 1) as u32 } else { 0 }),
            line@ == "Deepgram: connect attempt "@ + decimal(final(self).attempt as nat),
    {
        self.attempt = self.attempt.wrapping_add(1);
        connect_attempt_line(self.attempt)
    }

    /// The connection was made: the count starts again.
    pub fn connected(&mut self)
        ensures
            final(self).attempt == 0,
    {
        self.attempt = 0;
    }

    /// The seconds to wait before the next attempt.
    pub fn delay_secs(&self) -> (s: u64)
        ensures
            s == pow2(if self.attempt < 5 { self.attempt as nat } else { 5 }),
    {
        backoff_secs(self.attempt)
    }
}

/// A streamed Deepgram result, reduced to what the session reads: the message
/// type, the first alternative's transcript (if any), the final flag and the
/// error fields.
pub struct DeepgramEvent {
    pub msg_type: Option<String>,
    pub transcript: Option<String>,
    pub is_final: Option<bool>,
    pub err_code: Option<String>,
    pub err_msg: Option<String>,
}

/// What a streamed result means.
pub enum DeepgramAction {
    Ignore,
    /// Report an error to the session.
    Error(String),
    /// A final transcript: log it and pass it on.
    Final(String),
    /// An interim transcript: show it.
    Interim(String),
}

pub open spec fn text_or_empty(o: Option<String>) -> Seq<char> {
    match o {
        Some(s) => s@,
        None => Seq::empty(),
    }
}

/// The meaning of a streamed result.
pub fn classify_event(event: DeepgramEvent) -> (a: DeepgramAction)
    ensures
        ({
            let is_error = event.msg_type is Some && event.msg_type->0@ == "Error"@;
            &&& is_error ==> a is Error && a->Error_0@ == "Deepgram Error: "@ + text_or_empty(event.err_code) + " - "@ + text_or_empty(event.err_msg)
            &&& !is_error && event.transcript is None ==> a is Ignore
            &&& !is_error && event.transcript is Some && trim_spec(event.transcript->0@).len() == 0 ==> a is Ignore
            &&& !is_error && event.transcript is Some && trim_spec(event.transcript->0@).len() > 0 ==> (
                if event.is_final == Some(true) {
                    a is Final && a->Final_0@ == event.transcript->0@
                } else {
                    a is Interim && a->Interim_0@ == event.transcript->0@
                })
        }),
{
    let is_error = match &event.msg_type {
        Some(t) => text_eq(t.as_str(), "Error"),
        None => false,
    };
    if is_error {
        let code = match event.err_code {
            Some(c) => c,
            None => String::new(),
        };
        let msg = match event.err_msg {
            Some(m) => m,
            None => String::new(),
        };
        let mut m = cat3("Deepgram Error: ", code.as_str(), " - ");
        m.append(msg.as_str());
        return DeepgramAction::Error(m);
    }
    match event.transcript {
        None => DeepgramAction::Ignore,
        Some(t) => {
            let tt = trim(t.as_str());
            if tt.unicode_len() == 0 {
                DeepgramAction::Ignore
            } else if event.is_final == Some(true) {
                DeepgramAction::Final(t)
            } else {
                DeepgramAction::Interim(t)
            }
        },
    }
}

} // verus!
