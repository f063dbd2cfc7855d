//! Summary requests to an OpenAI-compatible chat-completions API: the
//! configuration checks, the messages sent, and how the reply is read.

use vstd::prelude::*;
use crate::text::{cat, cat3, owned, text_eq, trim, trim_spec, views};
use crate::services::credentials::{chat_completions_endpoint, chat_completions_endpoint_spec};

verus! {

/// The system prompt used when the user has not written one.
pub const SYSTEM_PROMPT: &'static str = r#"You are a careful senior meeting-notes assistant.

Meeting context:
- Meetings usually have 2 main sessions:
  1. Session 1: Daily Updates
  2. Session 2: Work Review & Blocker Discussion
- The Daily Updates session contains multiple people reporting one by one. The number of reporters can vary, and the same person may speak more than once.
- The Work Review & Blocker Discussion session usually has an MC/facilitator asking about project, task, issue, blocker, decision, or follow-up progress.
- The input contains two transcripts: Deepgram realtime and final Groq/Whisper.

Source priority:
- Prioritize final Groq/Whisper for word accuracy because it comes from the final WAV file.
- Use Deepgram realtime as context comparison when Groq/Whisper is ambiguous or has missing parts.
- Do not invent names, numbers, ticket IDs, decisions, statuses, blockers, or deadlines that do not appear in the transcript.
- If a person/topic/ticket/status is unclear, write "needs confirmation" naturally in the related bullet.
- If one person or topic is discussed multiple times, merge it into one section when it is clearly the same item. If unsure, keep it separate.

Output style:
- Output MUST be plain text, not Markdown.
- Write the final summary in the same primary language as the transcript.
- If the transcript is mostly Indonesian, write the summary in Indonesian.
- If the transcript mixes Indonesian and English, keep the natural mixed style from the meeting.
- Do not translate names, ticket IDs, product names, or technical terms.
- Use natural section headings in the transcript language.
- Do not use generic openings or closings such as "Here is the summary...", "Overall...", or "That is all...".
- Style should feel like human internal notes: natural, concise, and not overly formal.
- Do not create empty sections or extra templates such as TL;DR, Action Items, Risks, Conclusion, or Transcript Quality.
- Avoid repetitive formal phrases unless they are the most natural phrasing.
- Use normal workplace terms when they appear in the transcript: follow up, continue, pairing, recheck, review MR, bug fix, retesting, still blocked.
- Each bullet should ideally contain one idea. Do not make bullets too long and do not repeat the same context.
- Do not invent action items. Write targets only when they are clearly mentioned.
- Use person names as plain lines in Session 1, without Markdown symbols.
- Use bullet "•" for main points.
- Use sub-bullet "o" for nested details in Session 2.
- Do not use Markdown characters such as #, ##, ###, **bold**, checkboxes, tables, or backticks.

Required output structure:

Session 1: Daily Updates

<Person Name or Reporter needs confirmation>
• Completed progress, written naturally and concisely.
• Issues/blockers/follow-ups mentioned, if any.
• Pairing/discussion/review/MR/testing done, if any.
• Today's target: plan or next step mentioned, if any.

Repeat the person-name format above for every detected reporter.
If today's target is not mentioned, do not force it; just write the available progress and blockers.

Session 2: Work Review & Blocker Discussion

• Issue/ticket/topic name: Summary of the main discussion, decision, status, or blocker.
  o Extra detail if available, such as flow differences, technical reasoning, discussion result, follow-up, or PIC.
  o If there is an explicit decision, write it naturally in the same bullet.

Repeat the bullet format above for every detected issue/ticket/topic.
If no ticket ID is mentioned but the topic is clear, use a short accurate topic name from the transcript.
If the MC/facilitator is clear, you may mention them in the opening bullet for Session 2. If unclear, do not create a special section.

Final rules:
- If Session 1 or Session 2 is not clearly detected, still create the heading and write one bullet: "• This session was not clearly detected / needs confirmation."
- Focus on meeting content, not transcript quality.
- Do not add information outside the transcript.
- Do not make the result sound like an article, formal report, or chatbot answer. Make it read like workplace notes ready to send to an internal chat.
"#;

/// Tokens the summary reply may use.
pub const SUMMARY_MAX_TOKENS: u32 = 2400;

/// One chat message of a summary request.
pub struct ChatMessage {
    pub role: String,
    pub content: String,
}

/// Everything the summary request sends, except the sampling temperature.
pub struct SummaryRequest {
    pub endpoint: String,
    pub bearer_token: String,
    pub model: String,
    pub messages: Vec<ChatMessage>,
    pub max_tokens: u32,
}

/// The built-in system prompt.
pub fn default_system_prompt() -> (r: &'static str)
    ensures
        r == SYSTEM_PROMPT,
{
    SYSTEM_PROMPT
}

pub open spec fn validate_config_spec(api_key: Seq<char>, base_url: Seq<char>, model: Seq<char>) -> Result<(), Seq<char>> {
    if trim_spec(api_key).len() == 0 || api_key == "your_openai_compatible_api_key_here"@ {
        Err("OPENAI_API_KEY is empty or invalid for summary"@)
    } else if trim_spec(base_url).len() == 0 {
        Err("OPENAI_BASE_URL is empty for summary"@)
    } else if trim_spec(model).len() == 0 {
        Err("OPENAI_MODEL is empty for summary"@)
    } else {
        Ok(())
    }
}

pub open spec fn result_view(r: Result<(), String>) -> Result<(), Seq<char>> {
    match r {
        Ok(()) => Ok(()),
        Err(e) => Err(e@),
    }
}

/// Checks that the key, base URL and model of the summary service are usable.
pub fn validate_config(api_key: &str, base_url: &str, model: &str) -> (r: Result<(), String>)
    ensures
        result_view(r) == validate_config_spec(api_key@, base_url@, model@),
{
    let key = trim(api_key);
    if key.unicode_len() == 0 || text_eq(api_key, "your_openai_compatible_api_key_here") {
        return Err(owned("OPENAI_API_KEY is empty or invalid for summary"));
    }
    let url = trim(base_url);
    if url.unicode_len() == 0 {
        return Err(owned("OPENAI_BASE_URL is empty for summary"));
    }
    let m = trim(model);
    if m.unicode_len() == 0 {
        return Err(owned("OPENAI_MODEL is empty for summary"));
    }
    Ok(())
}

pub open spec fn fallback_empty_spec(value: Seq<char>) -> Seq<char> {
    if trim_spec(value).len() == 0 {
        "(empty / unavailable)"@
    } else {
        trim_spec(value)
    }
}

/// The trimmed transcript, or a marker when it is blank.
pub fn fallback_empty(value: &str) -> (r: String)
    ensures
        r@ == fallback_empty_spec(value@),
{
    let t = trim(value);
    if t.unicode_len() == 0 {
        owned("(empty / unavailable)")
    } else {
        t
    }
}

pub open spec fn user_content_spec(date: Seq<char>, deepgram: Seq<char>, whisper: Seq<char>, assemblyai: Seq<char>) -> Seq<char> {
    "Summary date: "@ + date
        + "\n\nUse the transcripts below to create a clear, natural plain-text summary.\n\n<deepgram_realtime_transcript>\n"@
        + fallback_empty_spec(deepgram)
        + "\n</deepgram_realtime_transcript>\n\n<groq_whisper_final_transcript>\n"@
        + fallback_empty_spec(whisper)
        + "\n</groq_whisper_final_transcript>\n\n<assemblyai_wav_final_transcript>\n"@
        + fallback_empty_spec(assemblyai)
        + "\n</assemblyai_wav_final_transcript>"@
}

pub open spec fn system_content_spec(system_prompt: Seq<char>) -> Seq<char> {
    if trim_spec(system_prompt).len() == 0 {
        SYSTEM_PROMPT@
    } else {
        trim_spec(system_prompt)
    }
}

pub open spec fn messages_view(m: Seq<ChatMessage>) -> Seq<(Seq<char>, Seq<char>)> {
    m.map_values(|x: ChatMessage| (x.role@, x.content@))
}

/// The system and user messages of a summary request dated `date`.
pub fn build_messages(deepgram: &str, whisper: &str, assemblyai: &str, system_prompt: &str, date: &str) -> (r: Vec<ChatMessage>)
    ensures
        messages_view(r@) == seq![
            ("system"@, system_content_spec(system_prompt@)),
            ("user"@, user_content_spec(date@, deepgram@, whisper@, assemblyai@)),
        ],
{
    let p = trim(system_prompt);
    let prompt = if p.unicode_len() == 0 { owned(SYSTEM_PROMPT) } else { p };
    let mut content = cat("Summary date: ", date);
    content.append("\n\nUse the transcripts below to create a clear, natural plain-text summary.\n\n<deepgram_realtime_transcript>\n");
    let d = fallback_empty(deepgram);
    content.append(d.as_str());
    content.append("\n</deepgram_realtime_transcript>\n\n<groq_whisper_final_transcript>\n");
    let w = fallback_empty(whisper);
    content.append(w.as_str());
    content.append("\n</groq_whisper_final_transcript>\n\n<assemblyai_wav_final_transcript>\n");
    let a = fallback_empty(assemblyai);
    content.append(a.as_str());
    content.append("\n</assemblyai_wav_final_transcript>");
    let mut r: Vec<ChatMessage> = Vec::new();
    r.push(ChatMessage { role: owned("system"), content: prompt });
    r.push(ChatMessage { role: owned("user"), content });
    assert(messages_view(r@) =~= seq![
        ("system"@, system_content_spec(system_prompt@)),
        ("user"@, user_content_spec(date@, deepgram@, whisper@, assemblyai@)),
    ]);
    r
}

pub open spec fn all_blank(a: Seq<char>, b: Seq<char>, c: Seq<char>) -> bool {
    trim_spec(a).len() == 0 && trim_spec(b).len() == 0 && trim_spec(c).len() == 0
}

/// Builds the summary request, or says why none can be sent: the configuration
/// is checked first, then that at least one transcript has text.
pub fn plan_summary_request_at(
    deepgram: &str,
    whisper: &str,
    assemblyai: &str,
    system_prompt: &str,
    api_key: &str,
    base_url: &str,
    model: &str,
    date: &str,
) -> (r: Result<SummaryRequest, String>)
    ensures
        validate_config_spec(api_key@, base_url@, model@) is Err ==> r is Err && r->Err_0@
            == validate_config_spec(api_key@, base_url@, model@)->Err_0,
        validate_config_spec(api_key@, base_url@, model@) is Ok && all_blank(deepgram@, whisper@, assemblyai@)
            ==> r is Err && r->Err_0@ == "Summary skipped: all transcripts are empty"@,
        validate_config_spec(api_key@, base_url@, model@) is Ok && !all_blank(deepgram@, whisper@, assemblyai@)
            ==> r is Ok && {
                let q = r->Ok_0;
                &&& q.endpoint@ == chat_completions_endpoint_spec(base_url@)
                &&& q.bearer_token@ == trim_spec(api_key@)
                &&& q.model@ == model@
                &&& q.max_tokens == SUMMARY_MAX_TOKENS
                &&& messages_view(q.messages@) == seq![
                    ("system"@, system_content_spec(system_prompt@)),
                    ("user"@, user_content_spec(date@, deepgram@, whisper@, assemblyai@)),
                ]
            },
{
    match validate_config(api_key, base_url, model) {
        Err(e) => return Err(e),
        Ok(()) => {},
    }
    let d = trim(deepgram);
    let w = trim(whisper);
    let a = trim(assemblyai);
    if d.unicode_len() == 0 && w.unicode_len() == 0 && a.unicode_len() == 0 {
        return Err(owned("Summary skipped: all transcripts are empty"));
    }
    let endpoint = chat_completions_endpoint(base_url);
    let messages = build_messages(deepgram, whisper, assemblyai, system_prompt, date);
    Ok(SummaryRequest {
        endpoint,
        bearer_token: trim(api_key),
        model: owned(model),
        messages,
        max_tokens: SUMMARY_MAX_TOKENS,
    })
}

/// As [`plan_summary_request_at`], dated with the local clock.
pub fn plan_summary_request(
    deepgram: &str,
    whisper: &str,
    assemblyai: &str,
    system_prompt: &str,
    api_key: &str,
    base_url: &str,
    model: &str,
) -> (r: Result<SummaryRequest, String>)
    ensures
        validate_config_spec(api_key@, base_url@, model@) is Err ==> r is Err && r->Err_0@
            == validate_config_spec(api_key@, base_url@, model@)->Err_0,
        validate_config_spec(api_key@, base_url@, model@) is Ok && all_blank(deepgram@, whisper@, assemblyai@)
            ==> r is Err && r->Err_0@ == "Summary skipped: all transcripts are empty"@,
        validate_config_spec(api_key@, base_url@, model@) is Ok && !all_blank(deepgram@, whisper@, assemblyai@)
            ==> r is Ok && exists|date: Seq<char>| #![trigger crate::clock::date_time_text(date)] {
                let q = r->Ok_0;
                &&& crate::clock::date_time_text(date)
                &&& q.endpoint@ == chat_completions_endpoint_spec(base_url@)
                &&& q.bearer_token@ == trim_spec(api_key@)
                &&& q.model@ == model@
                &&& q.max_tokens == SUMMARY_MAX_TOKENS
                &&& messages_view(q.messages@) == seq![
                    ("system"@, system_content_spec(system_prompt@)),
                    ("user"@, user_content_spec(date, deepgram@, whisper@, assemblyai@)),
                ]
            },
{
    let date = crate::clock::clock_date_time();
    let r = plan_summary_request_at(deepgram, whisper, assemblyai, system_prompt, api_key, base_url, model, &date);
    proof {
        if validate_config_spec(api_key@, base_url@, model@) is Ok && !all_blank(deepgram@, whisper@, assemblyai@) {
            let q = r->Ok_0;
            assert(crate::clock::date_time_text(date@) && messages_view(q.messages@) == seq![
                ("system"@, system_content_spec(system_prompt@)),
                ("user"@, user_content_spec(date@, deepgram@, whisper@, assemblyai@)),
            ]);
        }
    }
    r
}

pub open spec fn summary_from_choices_spec(contents: Seq<Seq<char>>) -> Result<Seq<char>, Seq<char>> {
    if contents.len() > 0 && trim_spec(contents[0]).len() > 0 {
        Ok(trim_spec(contents[0]))
    } else {
        Err("Summary response is empty"@)
    }
}

/// The summary text of a reply whose choices carry `contents`: the first
/// choice, trimmed, unless it is missing or blank.
pub fn summary_from_choices(contents: &Vec<String>) -> (r: Result<String, String>)
    ensures
        match summary_from_choices_spec(views(contents@)) {
            Ok(t) => r is Ok && r->Ok_0@ == t,
            Err(e) => r is Err && r->Err_0@ == e,
        },
{
    if contents.len() == 0 {
        return Err(owned("Summary response is empty"));
    }
    let t = trim(contents[0].as_str());
    if t.unicode_len() == 0 {
        Err(owned("Summary response is empty"))
    } else {
        Ok(t)
    }
}

pub open spec fn summary_http_error_spec(status: Seq<char>, body: Seq<char>) -> Seq<char> {
    if trim_spec(body).len() == 0 {
        "Summary API error HTTP "@ + status
    } else {
        "Summary API error HTTP "@ + status + ": "@ + body
    }
}

/// The error for a non-success reply with status text `status` and body `body`.
pub fn summary_http_error(status: &str, body: &str) -> (r: String)
    ensures
        r@ == summary_http_error_spec(status@, body@),
{
    let b = trim(body);
    if b.unicode_len() == 0 {
        cat("Summary API error HTTP ", status)
    } else {
        let mut r = cat3("Summary API error HTTP ", status, ": ");
        r.append(body);
        r
    }
}

/// A summary request is refused as empty only when all three transcripts —
/// Deepgram, Groq Whisper and AssemblyAI — are blank after trimming: any one
/// with text is enough, and the request's user message then ends with the
/// AssemblyAI transcript, trimmed, where it has text.
pub proof fn law_any_transcript_is_enough(deepgram: Seq<char>, whisper: Seq<char>, assemblyai: Seq<char>, date: Seq<char>)
    ensures
        trim_spec(deepgram).len() > 0 ==> !all_blank(deepgram, whisper, assemblyai),
        trim_spec(whisper).len() > 0 ==> !all_blank(deepgram, whisper, assemblyai),
        trim_spec(assemblyai).len() > 0 ==> !all_blank(deepgram, whisper, assemblyai),
        trim_spec(deepgram).len() == 0 && trim_spec(whisper).len() == 0 && trim_spec(assemblyai).len() == 0
            ==> all_blank(deepgram, whisper, assemblyai),
        trim_spec(assemblyai).len() > 0 ==> crate::text::ends_with_spec(
            user_content_spec(date, deepgram, whisper, assemblyai),
            trim_spec(assemblyai) + "\n</assemblyai_wav_final_transcript>"@,
        ),
{
    if trim_spec(assemblyai).len() > 0 {
        let u = user_content_spec(date, deepgram, whisper, assemblyai);
        let tail = trim_spec(assemblyai) + "\n</assemblyai_wav_final_transcript>"@;
        let head = "Summary date: "@ + date
            + "\n\nUse the transcripts below to create a clear, natural plain-text summary.\n\n<deepgram_realtime_transcript>\n"@
            + fallback_empty_spec(deepgram)
            + "\n</deepgram_realtime_transcript>\n\n<groq_whisper_final_transcript>\n"@
            + fallback_empty_spec(whisper)
            + "\n</groq_whisper_final_transcript>\n\n<assemblyai_wav_final_transcript>\n"@;
        assert(u =~= head + tail);
        assert(u.subrange(u.len() - tail.len(), u.len() as int) =~= tail);
    }
}

} // verus!
