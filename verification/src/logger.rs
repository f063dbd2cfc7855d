//! Lines of the realtime transcript log.

use vstd::prelude::*;
use crate::text::{cat3, trim, trim_spec};

verus! {

/// The log line for a transcript, or nothing for a blank transcript.
pub fn transcript_log_line(text: &str, stamp: &str) -> (r: Option<String>)
    ensures
        trim_spec(text@).len() == 0 ==> r is None,
        trim_spec(text@).len() > 0 ==> r is Some && r->0@ == "["@ + stamp@ + "] "@ + text@,
{
    let t = trim(text);
    if t.unicode_len() == 0 {
        return None;
    }
    let mut line = cat3("[", stamp, "] ");
    line.append(text);
    Some(line)
}

/// The log line for a transcript stamped with the local date and time.
pub fn stamped_transcript_line(text: &str) -> (r: Option<String>)
    ensures
        trim_spec(text@).len() == 0 ==> r is None,
        trim_spec(text@).len() > 0 ==> r is Some && exists|stamp: Seq<char>|
            crate::clock::date_time_millis_text(stamp) && r->0@ == "["@ + stamp + "] "@ + text@,
{
    let t = trim(text);
    if t.unicode_len() == 0 {
        return None;
    }
    let stamp = crate::clock::clock_date_time_millis();
    let r = transcript_log_line(text, stamp.as_str());
    assert(crate::clock::date_time_millis_text(stamp@) && r->0@ == "["@ + stamp@ + "] "@ + text@);
    r
}

} // verus!
