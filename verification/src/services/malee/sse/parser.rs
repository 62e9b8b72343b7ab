//! Server-sent-event line parsing.
use vstd::prelude::*;
use crate::text::{chars_equal, chars_of, occurs_at, starts_with, trim, trim_range};

verus! {

/// The payload of an SSE `data: ` line, trimmed; `None` for any other line.
pub open spec fn sse_data(line: Seq<char>) -> Option<Seq<char>> {
    if line == "data: [DONE]"@ {
        Some("[DONE]"@)
    } else if starts_with(line, "data: "@) {
        Some(trim(line.skip(6)))
    } else {
        None
    }
}

/// The payload of an SSE `data: ` line, trimmed; `None` for any other line.
/// The line `data: [DONE]` gives `[DONE]`.
pub fn parse_sse_line(line: &str) -> (r: Option<&str>)
    ensures
        match r {
            Some(t) => sse_data(line@) == Some(t@),
            None => sse_data(line@) is None,
        },
        line@ == "data: [DONE]"@ ==> (r matches Some(t) && t@ == "[DONE]"@),
        line@ != "data: [DONE]"@ ==> (if starts_with(line@, "data: "@) {
            r matches Some(t) && t@ == trim(line@.skip(6))
        } else {
            r is None
        }),
{
    let cs = chars_of(line);
    let done = chars_of("data: [DONE]");
    if chars_equal(&cs, &done) {
        return Some("[DONE]");
    }
    let prefix = chars_of("data: ");
    proof {
        reveal_strlit("data: ");
    }
    if occurs_at(&cs, &prefix, 0) {
        proof {
            assert(cs@.subrange(0, 6) =~= cs@.take(6));
        }
        let (a, b) = trim_range(&cs, 6);
        Some(line.substring_char(a, b))
    } else {
        proof {
            if cs@.len() >= 6 {
                assert(cs@.subrange(0, 6) =~= cs@.take(6));
            }
        }
        None
    }
}

} // verus!
