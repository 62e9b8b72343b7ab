//! The decisions of the connector's JSON-RPC client: how a reply body is
//! unwrapped, how a reply is judged, and when a failed call is retried.
use vstd::prelude::*;
use crate::error::MaleeError;
use crate::services::malee::connector::jsonrpc::McpResponse;
use crate::text::{chars_of, contains_seq, occurs_at, starts_with, str_contains, string_of, sub_chars};

verus! {

/// Attempts after the first one before the client gives up.
pub const MAX_RETRIES: u32 = 3;

/// The wait before the first retry, in milliseconds.
pub const INITIAL_RETRY_MS: u64 = 500;

/// The prefix of an SSE data line.
pub open spec fn data_prefix() -> Seq<char> {
    seq!['d', 'a', 't', 'a', ':', ' ']
}

/// The marker of an SSE-framed reply.
pub open spec fn event_marker() -> Seq<char> {
    "event: message"@
}

/// Whether a line of `s` starts at `p`.
pub open spec fn line_start(s: Seq<char>, p: int) -> bool {
    0 <= p < s.len() && (p == 0 || s[p - 1] == '\n')
}

/// Whether the line of `s` starting at `p` is an SSE data line.
pub open spec fn data_line_at(s: Seq<char>, p: int) -> bool {
    line_start(s, p) && starts_with(s.skip(p), data_prefix())
}

/// The index of the first `'\n'` at or after `p`, or the length of `s`.
pub open spec fn line_end(s: Seq<char>, p: int) -> int
    decreases s.len() - p,
{
    if p >= s.len() || p < 0 {
        s.len() as int
    } else if s[p] == '\n' {
        p
    } else {
        line_end(s, p + 1)
    }
}

/// The line of `s` starting at `p`, as `str::lines` yields it: without its
/// `\n`, and without a `\r` just before that `\n`.
pub open spec fn line_at(s: Seq<char>, p: int) -> Seq<char> {
    let e = line_end(s, p);
    if e < s.len() && e > p && s[e - 1] == '\r' {
        s.subrange(p, e - 1)
    } else {
        s.subrange(p, e)
    }
}

/// `s` with every leading copy of `pat` removed (`str::trim_start_matches`).
pub open spec fn strip_all(s: Seq<char>, pat: Seq<char>) -> Seq<char>
    decreases s.len(),
{
    if pat.len() > 0 && starts_with(s, pat) {
        strip_all(s.skip(pat.len() as int), pat)
    } else {
        s
    }
}

/// The JSON text carried by a reply body: the body itself, or, for an
/// SSE-framed body, its first data line without the `data: ` prefixes;
/// `None` for an SSE body without a data line.
pub open spec fn json_of_body(body: Seq<char>) -> Option<Seq<char>> {
    if !contains_seq(body, event_marker()) {
        Some(body)
    } else if exists|p: int| data_line_at(body, p) {
        let p = choose|p: int| data_line_at(body, p) && forall|q: int| 0 <= q < p ==> !data_line_at(body, q);
        Some(strip_all(line_at(body, p), data_prefix()))
    } else {
        None
    }
}

proof fn lemma_line_end_bounds(s: Seq<char>, p: int)
    requires
        0 <= p <= s.len(),
    ensures
        p <= line_end(s, p) <= s.len(),
        line_end(s, p) < s.len() ==> s[line_end(s, p)] == '\n',
    decreases s.len() - p,
{
    if p < s.len() && s[p] != '\n' {
        lemma_line_end_bounds(s, p + 1);
    }
}

/// The first data line at or after `from`, with the end of its line.
fn find_data_line(cs: &Vec<char>, pat: &Vec<char>) -> (r: Option<usize>)
    requires
        pat@ == data_prefix(),
    ensures
        match r {
            Some(p) => data_line_at(cs@, p as int) && forall|q: int|
                0 <= q < p ==> !data_line_at(cs@, q),
            None => forall|q: int| !data_line_at(cs@, q),
        },
{
    let n = cs.len();
    let mut p: usize = 0;
    while p < n
        invariant
            n == cs@.len(),
            pat@ == data_prefix(),
            p <= n,
            forall|q: int| 0 <= q < p ==> !data_line_at(cs@, q),
        decreases n - p,
    {
        let at_start = p == 0 || cs[p - 1] == '\n';
        if at_start && occurs_at(cs, pat, p) {
            proof {
                assert(cs@.skip(p as int).take(6) =~= cs@.subrange(p as int, p + 6));
            }
            return Some(p);
        }
        proof {
            if at_start && p + 6 <= n {
                assert(cs@.skip(p as int).take(6) =~= cs@.subrange(p as int, p + 6));
            }
        }
        p = p + 1;
    }
    None
}

/// Unwraps the JSON text of a connector reply body. A body that holds
/// `event: message` is SSE-framed: its first line that begins with `data: `
/// gives the text, with the leading `data: ` prefixes removed; without such a
/// line the body is malformed.
pub fn extract_sse_json(body: &str) -> (r: Result<String, MaleeError>)
    ensures
        match json_of_body(body@) {
            Some(t) => r matches Ok(s) && s@ == t,
            None => r matches Err(MaleeError::ConnectorError(m))
                && m@ == "Malformed SSE: missing data"@,
        },
{
    if !str_contains(body, "event: message") {
        return Ok(String::from_str(body));
    }
    let cs = chars_of(body);
    let pat: Vec<char> = vec!['d', 'a', 't', 'a', ':', ' '];
    proof {
        assert(pat@ =~= data_prefix());
    }
    match find_data_line(&cs, &pat) {
        None => Err(MaleeError::ConnectorError(String::from_str("Malformed SSE: missing data"))),
        Some(p) => {
            let n = cs.len();
            let mut e: usize = p;
            proof {
                lemma_line_end_bounds(cs@, p as int);
            }
            while e < n && cs[e] != '\n'
                invariant
                    n == cs@.len(),
                    p <= e <= n,
                    line_end(cs@, p as int) == line_end(cs@, e as int),
                decreases n - e,
            {
                e = e + 1;
            }
            let end = if e < n && e > p && cs[e - 1] == '\r' {
                e - 1
            } else {
                e
            };
            let line = sub_chars(&cs, p, end);
            proof {
                assert(line@ == line_at(cs@, p as int));
            }
            let mut i: usize = 0;
            proof {
                assert(line@.skip(0) =~= line@);
            }
            while i < line.len() && occurs_at(&line, &pat, i)
                invariant
                    i <= line@.len(),
                    pat@ == data_prefix(),
                    strip_all(line@, data_prefix()) == strip_all(line@.skip(i as int), data_prefix()),
                decreases line@.len() - i,
            {
                proof {
                    assert(line@.skip(i as int).take(6) =~= line@.subrange(i as int, i + 6));
                    assert(line@.skip(i as int).skip(6) =~= line@.skip(i + 6));
                }
                i = i + 6;
            }
            proof {
                if i < line@.len() {
                    if starts_with(line@.skip(i as int), data_prefix()) {
                        assert(line@.skip(i as int).take(6) =~= line@.subrange(i as int, i + 6));
                    }
                } else {
                    assert(line@.skip(i as int).len() == 0);
                }
            }
            let rest = sub_chars(&line, i, line.len());
            proof {
                assert(rest@ =~= line@.skip(i as int));
                let q = choose|q: int|
                    data_line_at(cs@, q) && forall|k: int| 0 <= k < q ==> !data_line_at(cs@, k);
                if q < p {
                } else if q > p {
                }
                assert(q == p);
            }
            Ok(string_of(rest.as_slice()))
        },
    }
}

/// What a JSON-RPC reply yields: the text of the first content item, or the
/// message of the failure.
pub open spec fn mcp_outcome(res: McpResponse) -> Result<Seq<char>, Seq<char>> {
    match res.error {
        Some(e) => Err(e.message@),
        None => match res.result {
            None => Err("No result in response"@),
            Some(r) => if r.is_error == Some(true) {
                Err(
                    if r.content@.len() > 0 {
                        r.content@[0].text@
                    } else {
                        Seq::empty()
                    },
                )
            } else if r.content@.len() == 0 {
                Err("No content in result"@)
            } else {
                Ok(r.content@[0].text@)
            },
        },
    }
}

/// Judges a parsed JSON-RPC reply: an error object, a missing result, a
/// result flagged as an error, or an empty content list fail with a
/// connector error; otherwise the text of the first content item is the
/// tool's payload.
pub fn interpret_mcp_response(res: McpResponse) -> (r: Result<String, MaleeError>)
    ensures
        match mcp_outcome(res) {
            Ok(t) => r matches Ok(s) && s@ == t,
            Err(m) => r matches Err(MaleeError::ConnectorError(e)) && e@ == m,
        },
{
    if let Some(err) = res.error {
        return Err(MaleeError::ConnectorError(err.message));
    }
    match res.result {
        None => Err(MaleeError::ConnectorError(String::from_str("No result in response"))),
        Some(result) => {
            let mut content = result.content;
            let flagged = match result.is_error {
                Some(b) => b,
                None => false,
            };
            if flagged {
                if content.len() > 0 {
                    let first = content.remove(0);
                    Err(MaleeError::ConnectorError(first.text))
                } else {
                    Err(MaleeError::ConnectorError(String::new()))
                }
            } else if content.len() == 0 {
                Err(MaleeError::ConnectorError(String::from_str("No content in result")))
            } else {
                let first = content.remove(0);
                Ok(first.text)
            }
        },
    }
}

/// The error for a tool payload that did not parse: a known plain-text
/// failure (`No products found`, or any text holding `Error`) is passed on
/// as it is; anything else is reported with the parser's message.
pub fn content_parse_error(text: &str, parse_message: &str) -> (r: MaleeError)
    ensures
        r matches MaleeError::ConnectorError(m) && m@ == (if contains_seq(text@, "No products found"@)
            || contains_seq(text@, "Error"@) {
            text@
        } else {
            "Failed to parse content JSON: "@ + parse_message@ + ". Text: "@ + text@
        }),
{
    if str_contains(text, "No products found") || str_contains(text, "Error") {
        MaleeError::ConnectorError(String::from_str(text))
    } else {
        let mut m = String::from_str("Failed to parse content JSON: ");
        m.append(parse_message);
        m.append(". Text: ");
        m.append(text);
        MaleeError::ConnectorError(m)
    }
}

/// Whether a failed reply says that the connector forgot the session, so
/// that the session must be opened again.
pub fn reports_lost_session(body: &str) -> (r: bool)
    ensures
        r == contains_seq(body@, "Session not found"@),
{
    str_contains(body, "Session not found")
}

/// After attempt number `attempt` (counting from 1) failed with back-off
/// `delay_ms`: the wait before the next attempt and the back-off after it,
/// or `None` once `MAX_RETRIES` retries are spent.
pub fn retry_after(attempt: u32, delay_ms: u64) -> (r: Option<(u64, u64)>)
    requires
        attempt <= MAX_RETRIES ==> delay_ms * 2 <= u64::MAX,
    ensures
        r == (if attempt > MAX_RETRIES {
            None
        } else {
            Some((delay_ms, (delay_ms * 2) as u64))
        }),
{
    if attempt > MAX_RETRIES {
        None
    } else {
        Some((delay_ms, delay_ms * 2))
    }
}

/// The back-off before the retry that follows failed attempt `k`.
pub open spec fn backoff(k: nat) -> nat
    decreases k,
{
    if k <= 1 {
        INITIAL_RETRY_MS as nat
    } else {
        2 * backoff((k - 1) as nat)
    }
}

/// Starting from `INITIAL_RETRY_MS`, the waits double after each failure:
/// failed attempt `k` (1 to `MAX_RETRIES`) is followed by a wait of
/// `backoff(k)`, and the attempt after the last retry is never retried, so a
/// call makes at most `MAX_RETRIES + 1` attempts.
pub proof fn law_retry_backoff_doubles(k: u32)
    requires
        1 <= k,
    ensures
        k <= MAX_RETRIES ==> backoff(k as nat) <= 2000 && backoff(k as nat) * 2 <= u64::MAX
            && (k + 1 <= MAX_RETRIES ==> backoff((k + 1) as nat) == backoff(k as nat) * 2),
        k > MAX_RETRIES ==> retry_after_spec(k, backoff(k as nat)) is None,
        k <= MAX_RETRIES ==> retry_after_spec(k, backoff(k as nat)) == Some(
            (backoff(k as nat) as u64, backoff((k + 1) as nat) as u64),
        ),
{
    reveal_with_fuel(backoff, 4);
}

/// What `retry_after` returns.
pub open spec fn retry_after_spec(attempt: u32, delay_ms: nat) -> Option<(u64, u64)> {
    if attempt > MAX_RETRIES {
        None
    } else {
        Some((delay_ms as u64, (delay_ms * 2) as u64))
    }
}

} // verus!
