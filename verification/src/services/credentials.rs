//! Credential checks for the speech and summary services: which inputs are
//! refused before any request, what each check sends, and how its reply reads.

use vstd::prelude::*;
use crate::text::{
    is_ws,
    cat, cat3, ends_with, ends_with_spec, lemma_trim_end_char_prefix, lemma_trim_ends_solid, lemma_trim_idempotent,
    lemma_trim_solid_fixed, owned, text_eq, trim, trim_end_char, trim_end_char_spec, trim_spec, views,
};

verus! {

/// An HTTP reply reduced to what the checks read.
pub struct HttpReply {
    pub status: u16,
    /// The status as the HTTP client renders it, such as `401 Unauthorized`.
    pub status_text: String,
    pub body: String,
}

/// How a credential check request ended.
pub enum CheckTransport {
    TimedOut,
    Failed(String),
    Replied(HttpReply),
}

/// How the Deepgram websocket check ended.
pub enum ConnectOutcome {
    TimedOut,
    Failed(String),
    Connected,
}

pub open spec fn unit_result_view(r: Result<(), String>) -> Result<(), Seq<char>> {
    match r {
        Ok(()) => Ok(()),
        Err(e) => Err(e@),
    }
}

pub open spec fn text_result_view(r: Result<String, String>) -> Result<Seq<char>, Seq<char>> {
    match r {
        Ok(t) => Ok(t@),
        Err(e) => Err(e@),
    }
}

pub open spec fn validate_key_spec(api_key: Seq<char>, placeholder: Seq<char>) -> Result<(), Seq<char>> {
    if trim_spec(api_key).len() == 0 || trim_spec(api_key) == placeholder {
        Err("API key is empty or still a placeholder"@)
    } else {
        Ok(())
    }
}

/// Refuses a blank key and the placeholder that ships in the settings template.
pub fn validate_key(api_key: &str, placeholder: &str) -> (r: Result<(), String>)
    ensures
        unit_result_view(r) == validate_key_spec(api_key@, placeholder@),
{
    let t = trim(api_key);
    if t.unicode_len() == 0 || text_eq(t.as_str(), placeholder) {
        Err(owned("API key is empty or still a placeholder"))
    } else {
        Ok(())
    }
}

pub open spec fn validate_non_empty_spec(value: Seq<char>, label: Seq<char>) -> Result<(), Seq<char>> {
    if trim_spec(value).len() == 0 {
        Err(label + " is empty"@)
    } else {
        Ok(())
    }
}

/// Refuses a blank setting, naming it by `label`.
pub fn validate_non_empty(value: &str, label: &str) -> (r: Result<(), String>)
    ensures
        unit_result_view(r) == validate_non_empty_spec(value@, label@),
{
    let t = trim(value);
    if t.unicode_len() == 0 {
        Err(cat(label, " is empty"))
    } else {
        Ok(())
    }
}

pub open spec fn chat_completions_endpoint_spec(base_url: Seq<char>) -> Seq<char> {
    let t = trim_end_char_spec(trim_spec(base_url), '/');
    if ends_with_spec(t, "/chat/completions"@) {
        t
    } else {
        t + "/chat/completions"@
    }
}

proof fn lemma_endpoint_shape(base_url: Seq<char>)
    ensures
        ({
            let e = chat_completions_endpoint_spec(base_url);
            let t = trim_end_char_spec(trim_spec(base_url), '/');
            &&& ends_with_spec(e, "/chat/completions"@)
            &&& e.len() >= 17
            &&& e.last() == 's'
            &&& (t.len() > 0 ==> e[0] == trim_spec(base_url)[0])
            &&& (t.len() == 0 ==> e[0] == '/')
        }),
{
    reveal_strlit("/chat/completions");
    let suf = "/chat/completions"@;
    let t = trim_end_char_spec(trim_spec(base_url), '/');
    let e = chat_completions_endpoint_spec(base_url);
    lemma_trim_end_char_prefix(trim_spec(base_url), '/');
    if ends_with_spec(t, suf) {
        assert(e == t);
        assert(e[e.len() - 1] == e.subrange(e.len() - 17, e.len() as int)[16]);
        assert(t[0] == trim_spec(base_url).subrange(0, t.len() as int)[0]);
    } else {
        assert(e == t + suf);
        assert(e.subrange(e.len() - 17, e.len() as int) =~= suf);
        if t.len() > 0 {
            assert(t[0] == trim_spec(base_url).subrange(0, t.len() as int)[0]);
        }
    }
}

proof fn lemma_endpoint_fixed(base_url: Seq<char>)
    ensures
        chat_completions_endpoint_spec(chat_completions_endpoint_spec(base_url))
            == chat_completions_endpoint_spec(base_url),
{
    let e = chat_completions_endpoint_spec(base_url);
    lemma_endpoint_shape(base_url);
    lemma_trim_ends_solid(base_url);
    assert(!is_ws(e[0]) && !is_ws(e.last()));
    lemma_trim_solid_fixed(e);
    assert(trim_end_char_spec(e, '/') == e);
}

proof fn lemma_endpoint_extra_slashes(base_url: Seq<char>)
    ensures
        trim_end_char_spec(trim_spec(trim_spec(base_url) + "//"@), '/') == trim_end_char_spec(trim_spec(base_url), '/'),
{
    reveal_strlit("//");
    reveal_strlit("/");
    let tb = trim_spec(base_url);
    let x = tb + "//"@;
    lemma_trim_ends_solid(base_url);
    assert(x.len() > 0 ==> !is_ws(x[0]) && !is_ws(x.last())) by {
        assert(x.last() == '/');
        if tb.len() > 0 {
            assert(x[0] == tb[0]);
        } else {
            assert(x[0] == '/');
        }
    }
    lemma_trim_solid_fixed(x);
    let y = tb + "/"@;
    assert(x.drop_last() =~= y);
    assert(y.drop_last() =~= tb);
    assert(x.len() > 0 && x.last() == '/');
    assert(trim_end_char_spec(x, '/') == trim_end_char_spec(y, '/'));
    assert(y.len() > 0 && y.last() == '/');
    assert(trim_end_char_spec(y, '/') == trim_end_char_spec(tb, '/'));
}

/// The endpoint always names `/chat/completions`, is its own endpoint, and
/// ignores extra trailing slashes after the (trimmed) base URL.
pub proof fn law_endpoint_is_fixed_point(base_url: Seq<char>)
    ensures
        ends_with_spec(chat_completions_endpoint_spec(base_url), "/chat/completions"@),
        chat_completions_endpoint_spec(chat_completions_endpoint_spec(base_url))
            == chat_completions_endpoint_spec(base_url),
        chat_completions_endpoint_spec(trim_spec(base_url) + "//"@) == chat_completions_endpoint_spec(base_url),
{
    lemma_endpoint_shape(base_url);
    lemma_endpoint_fixed(base_url);
    lemma_endpoint_extra_slashes(base_url);
}

/// The chat-completions endpoint for a base URL or for the endpoint itself.
pub fn chat_completions_endpoint(base_url: &str) -> (r: String)
    ensures
        r@ == chat_completions_endpoint_spec(base_url@),
{
    let t0 = trim(base_url);
    let t = trim_end_char(t0.as_str(), '/');
    if ends_with(t.as_str(), "/chat/completions") {
        t
    } else {
        cat(t.as_str(), "/chat/completions")
    }
}

pub open spec fn format_http_error_spec(provider: Seq<char>, status: Seq<char>, body: Seq<char>) -> Seq<char> {
    if trim_spec(body).len() == 0 {
        provider + " check failed HTTP "@ + status
    } else {
        provider + " check failed HTTP "@ + status + ": "@ + trim_spec(body)
    }
}

/// The error for a check reply that was refused.
pub fn format_http_error(provider: &str, status: &str, body: &str) -> (r: String)
    ensures
        r@ == format_http_error_spec(provider@, status@, body@),
{
    let b = trim(body);
    let mut r = cat3(provider, " check failed HTTP ", status);
    if b.unicode_len() > 0 {
        r.append(": ");
        r.append(b.as_str());
    }
    r
}

pub open spec fn http_success(status: u16) -> bool {
    200 <= status <= 299
}

// ---------------------------------------------------------------- Deepgram

/// What the Deepgram check connects to.
pub struct DeepgramCheck {
    pub url: String,
    pub token: String,
}

pub open spec fn deepgram_check_url_spec(model: Seq<char>, language: Seq<char>) -> Seq<char> {
    "wss://api.deepgram.com/v1/listen?encoding=linear16&sample_rate=16000&channels=1&model="@
        + trim_spec(model) + "&language="@ + (if trim_spec(language).len() == 0 {
        "id"@
    } else {
        trim_spec(language)
    })
}

/// The websocket URL and key for the Deepgram check, or why the settings are refused.
pub fn plan_deepgram_check(api_key: &str, model: &str, language: &str) -> (r: Result<DeepgramCheck, String>)
    ensures
        validate_key_spec(api_key@, "your_deepgram_api_key_here"@) is Err ==> r is Err && r->Err_0@
            == validate_key_spec(api_key@, "your_deepgram_api_key_here"@)->Err_0,
        validate_key_spec(api_key@, "your_deepgram_api_key_here"@) is Ok ==> match validate_non_empty_spec(model@, "Deepgram model"@) {
            Err(e) => r is Err && r->Err_0@ == e,
            Ok(()) => r is Ok && r->Ok_0.url@ == deepgram_check_url_spec(model@, language@)
                && r->Ok_0.token@ == trim_spec(api_key@),
        },
{
    validate_key(api_key, "your_deepgram_api_key_here")?;
    validate_non_empty(model, "Deepgram model")?;
    let lang0 = trim(language);
    let lang = if lang0.unicode_len() == 0 { owned("id") } else { lang0 };
    let m = trim(model);
    let mut url = cat("wss://api.deepgram.com/v1/listen?encoding=linear16&sample_rate=16000&channels=1&model=", m.as_str());
    url.append("&language=");
    url.append(lang.as_str());
    Ok(DeepgramCheck { url, token: trim(api_key) })
}

pub open spec fn deepgram_check_outcome_spec(model: Seq<char>, outcome: ConnectOutcome) -> Result<Seq<char>, Seq<char>> {
    match outcome {
        ConnectOutcome::TimedOut => Err("Deepgram check timeout"@),
        ConnectOutcome::Failed(e) => Err("Deepgram check failed: "@ + e@),
        ConnectOutcome::Connected => Ok("OK: Deepgram model "@ + trim_spec(model) + " reachable"@),
    }
}

/// The status line of a Deepgram check that got as far as connecting.
pub fn deepgram_check_outcome(model: &str, outcome: ConnectOutcome) -> (r: Result<String, String>)
    ensures
        text_result_view(r) == deepgram_check_outcome_spec(model@, outcome),
{
    match outcome {
        ConnectOutcome::TimedOut => Err(owned("Deepgram check timeout")),
        ConnectOutcome::Failed(e) => Err(cat("Deepgram check failed: ", e.as_str())),
        ConnectOutcome::Connected => {
            let m = trim(model);
            Ok(cat3("OK: Deepgram model ", m.as_str(), " reachable"))
        },
    }
}

// ---------------------------------------------------------------- Groq

/// Refuses unusable Groq settings before the model list is requested.
pub fn plan_groq_check(api_key: &str, model: &str) -> (r: Result<String, String>)
    ensures
        validate_key_spec(api_key@, "your_groq_api_key_here"@) is Err ==> r is Err && r->Err_0@
            == validate_key_spec(api_key@, "your_groq_api_key_here"@)->Err_0,
        validate_key_spec(api_key@, "your_groq_api_key_here"@) is Ok ==> match validate_non_empty_spec(model@, "Groq model"@) {
            Err(e) => r is Err && r->Err_0@ == e,
            Ok(()) => r is Ok && r->Ok_0@ == trim_spec(api_key@),
        },
{
    validate_key(api_key, "your_groq_api_key_here")?;
    validate_non_empty(model, "Groq model")?;
    Ok(trim(api_key))
}

pub open spec fn seq_has(ids: Seq<Seq<char>>, x: Seq<char>) -> bool {
    exists|i: int| 0 <= i < ids.len() && ids[i] == x
}

pub open spec fn groq_check_outcome_spec(model: Seq<char>, transport: CheckTransport, listed: Option<Seq<Seq<char>>>) -> Result<Seq<char>, Seq<char>> {
    match transport {
        CheckTransport::TimedOut => Err("Groq check timeout"@),
        CheckTransport::Failed(e) => Err("Groq check failed: "@ + e@),
        CheckTransport::Replied(reply) => if !http_success(reply.status) {
            Err(format_http_error_spec("Groq"@, reply.status_text@, reply.body@))
        } else {
            match listed {
                Some(ids) => if !seq_has(ids, trim_spec(model)) {
                    Err("Groq key valid, model "@ + trim_spec(model) + " not listed"@)
                } else {
                    Ok("OK: Groq model "@ + trim_spec(model) + " reachable"@)
                },
                None => Ok("OK: Groq model "@ + trim_spec(model) + " reachable"@),
            }
        },
    }
}

/// Whether `x` is one of `ids`.
pub fn contains_text(ids: &Vec<String>, x: &str) -> (b: bool)
    ensures
        b == seq_has(views(ids@), x@),
{
    let mut i: usize = 0;
    while i < ids.len()
        invariant
            i <= ids@.len(),
            forall|k: int| 0 <= k < i ==> ids@[k]@ != x@,
        decreases ids@.len() - i,
    {
        if text_eq(ids[i].as_str(), x) {
            assert(views(ids@)[i as int] == x@);
            return true;
        }
        i = i + 1;
    }
    assert forall|k: int| 0 <= k < views(ids@).len() implies views(ids@)[k] != x@ by {
        assert(views(ids@)[k] == ids@[k]@);
    }
    false
}

/// The status line of a Groq check from its reply; `listed` holds the model ids
/// of the reply body when it parsed as a model list.
pub fn groq_check_outcome(model: &str, transport: CheckTransport, listed: Option<Vec<String>>) -> (r: Result<String, String>)
    ensures
        text_result_view(r) == groq_check_outcome_spec(model@, transport, match listed {
            Some(v) => Some(views(v@)),
            None => None,
        }),
{
    let m = trim(model);
    match transport {
        CheckTransport::TimedOut => Err(owned("Groq check timeout")),
        CheckTransport::Failed(e) => Err(cat("Groq check failed: ", e.as_str())),
        CheckTransport::Replied(reply) => {
            if !(200 <= reply.status && reply.status <= 299) {
                return Err(format_http_error("Groq", reply.status_text.as_str(), reply.body.as_str()));
            }
            match listed {
                Some(ids) => {
                    if !contains_text(&ids, m.as_str()) {
                        Err(cat3("Groq key valid, model ", m.as_str(), " not listed"))
                    } else {
                        Ok(cat3("OK: Groq model ", m.as_str(), " reachable"))
                    }
                },
                None => Ok(cat3("OK: Groq model ", m.as_str(), " reachable")),
            }
        },
    }
}

// ---------------------------------------------------------------- AssemblyAI

/// Refuses unusable AssemblyAI settings before the key is tried.
pub fn plan_assemblyai_check(api_key: &str, model: &str) -> (r: Result<String, String>)
    ensures
        validate_key_spec(api_key@, "your_assemblyai_api_key_here"@) is Err ==> r is Err && r->Err_0@
            == validate_key_spec(api_key@, "your_assemblyai_api_key_here"@)->Err_0,
        validate_key_spec(api_key@, "your_assemblyai_api_key_here"@) is Ok ==> match validate_non_empty_spec(model@, "AssemblyAI model"@) {
            Err(e) => r is Err && r->Err_0@ == e,
            Ok(()) => r is Ok && r->Ok_0@ == trim_spec(api_key@),
        },
{
    validate_key(api_key, "your_assemblyai_api_key_here")?;
    validate_non_empty(model, "AssemblyAI model")?;
    Ok(trim(api_key))
}

pub open spec fn assemblyai_check_outcome_spec(model: Seq<char>, transport: CheckTransport) -> Result<Seq<char>, Seq<char>> {
    match transport {
        CheckTransport::TimedOut => Err("AssemblyAI check timeout"@),
        CheckTransport::Failed(e) => Err("AssemblyAI check failed: "@ + e@),
        CheckTransport::Replied(reply) => if reply.status == 401 || (500 <= reply.status <= 599) {
            Err(format_http_error_spec("AssemblyAI"@, reply.status_text@, reply.body@))
        } else {
            Ok("OK: AssemblyAI model "@ + trim_spec(model) + " configured"@)
        },
    }
}

/// The status line of an AssemblyAI check: only an unauthorized reply or a
/// server error fails it (an unknown transcript id is expected).
pub fn assemblyai_check_outcome(model: &str, transport: CheckTransport) -> (r: Result<String, String>)
    ensures
        text_result_view(r) == assemblyai_check_outcome_spec(model@, transport),
{
    match transport {
        CheckTransport::TimedOut => Err(owned("AssemblyAI check timeout")),
        CheckTransport::Failed(e) => Err(cat("AssemblyAI check failed: ", e.as_str())),
        CheckTransport::Replied(reply) => {
            if reply.status == 401 || (500 <= reply.status && reply.status <= 599) {
                Err(format_http_error("AssemblyAI", reply.status_text.as_str(), reply.body.as_str()))
            } else {
                let m = trim(model);
                Ok(cat3("OK: AssemblyAI model ", m.as_str(), " configured"))
            }
        },
    }
}

// ---------------------------------------------------------------- OpenAI-compatible

/// What the summary-service check sends: one user message asking for "Reply OK"
/// with a budget of one token.
pub struct ChatCheck {
    pub endpoint: String,
    pub bearer_token: String,
    pub model: String,
    pub role: String,
    pub content: String,
    pub max_tokens: u32,
}

/// The summary-service check request, or why the settings are refused.
pub fn plan_openai_compatible_check(api_key: &str, base_url: &str, model: &str) -> (r: Result<ChatCheck, String>)
    ensures
        validate_key_spec(api_key@, "your_openai_compatible_api_key_here"@) is Err ==> r is Err && r->Err_0@
            == validate_key_spec(api_key@, "your_openai_compatible_api_key_here"@)->Err_0,
        validate_key_spec(api_key@, "your_openai_compatible_api_key_here"@) is Ok
            && validate_non_empty_spec(base_url@, "OpenAI-compatible base URL"@) is Err ==> r is Err
            && r->Err_0@ == validate_non_empty_spec(base_url@, "OpenAI-compatible base URL"@)->Err_0,
        validate_key_spec(api_key@, "your_openai_compatible_api_key_here"@) is Ok
            && validate_non_empty_spec(base_url@, "OpenAI-compatible base URL"@) is Ok ==> match validate_non_empty_spec(model@, "Summary model"@) {
            Err(e) => r is Err && r->Err_0@ == e,
            Ok(()) => r is Ok && {
                let c = r->Ok_0;
                &&& c.endpoint@ == chat_completions_endpoint_spec(base_url@)
                &&& c.bearer_token@ == trim_spec(api_key@)
                &&& c.model@ == trim_spec(model@)
                &&& c.role@ == "user"@
                &&& c.content@ == "Reply OK"@
                &&& c.max_tokens == 1
            },
        },
{
    validate_key(api_key, "your_openai_compatible_api_key_here")?;
    validate_non_empty(base_url, "OpenAI-compatible base URL")?;
    validate_non_empty(model, "Summary model")?;
    Ok(ChatCheck {
        endpoint: chat_completions_endpoint(base_url),
        bearer_token: trim(api_key),
        model: trim(model),
        role: owned("user"),
        content: owned("Reply OK"),
        max_tokens: 1,
    })
}

pub open spec fn openai_check_outcome_spec(model: Seq<char>, transport: CheckTransport) -> Result<Seq<char>, Seq<char>> {
    match transport {
        CheckTransport::TimedOut => Err("OpenAI-compatible check timeout"@),
        CheckTransport::Failed(e) => Err("OpenAI-compatible check failed: "@ + e@),
        CheckTransport::Replied(reply) => if !http_success(reply.status) {
            Err(format_http_error_spec("OpenAI-compatible"@, reply.status_text@, reply.body@))
        } else {
            Ok("OK: Summary model "@ + trim_spec(model) + " reachable"@)
        },
    }
}

/// The status line of a summary-service check from its reply.
pub fn openai_check_outcome(model: &str, transport: CheckTransport) -> (r: Result<String, String>)
    ensures
        text_result_view(r) == openai_check_outcome_spec(model@, transport),
{
    match transport {
        CheckTransport::TimedOut => Err(owned("OpenAI-compatible check timeout")),
        CheckTransport::Failed(e) => Err(cat("OpenAI-compatible check failed: ", e.as_str())),
        CheckTransport::Replied(reply) => {
            if !(200 <= reply.status && reply.status <= 299) {
                Err(format_http_error("OpenAI-compatible", reply.status_text.as_str(), reply.body.as_str()))
            } else {
                let m = trim(model);
                Ok(cat3("OK: Summary model ", m.as_str(), " reachable"))
            }
        },
    }
}

} // verus!
