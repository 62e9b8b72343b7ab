//! The decisions of the model clients' streaming: framing the byte stream
//! into lines, reading SSE data lines, assembling tool calls streamed in
//! fragments, and the errors of a failed request.
use vstd::prelude::*;
use crate::error::MaleeError;
use crate::models::malee::session::ToolCall;
use crate::services::malee::connector::client::line_end;
use crate::services::malee::sse::parser::{parse_sse_line, sse_data};
use crate::text::{chars_of, str_eq, string_of, sub_chars, trim, trim_chars, u64_decimal};

verus! {

/// Seconds to wait for the next chunk before the stream counts as stalled.
pub const STREAM_CHUNK_TIMEOUT_SECS: u64 = 45;

/// Whether `text` is a JSON document, as `serde_json::from_str::<Value>`
/// decides it.
pub uninterp spec fn json_valid(text: Seq<char>) -> bool;

/// Calls `serde_json::from_str::<serde_json::Value>`; the contract claims that
/// it succeeds exactly where the named JSON validity of `text` holds.
#[verifier::external_body]
pub(crate) fn json_parses(text: &str) -> (r: bool)
    ensures
        r == json_valid(text@),
{
    serde_json::from_str::<serde_json::Value>(text).is_ok()
}

/// The complete lines of a buffer, each trimmed, blank ones dropped, and
/// what is left after the last line break.
pub open spec fn drain_lines(b: Seq<char>) -> (Seq<Seq<char>>, Seq<char>)
    decreases b.len(),
{
    let e = line_end(b, 0);
    if e >= b.len() {
        (Seq::empty(), b)
    } else {
        proof {
            lemma_line_end_range(b, 0);
        }
        let rest = drain_lines(b.skip(e + 1));
        let line = trim(b.take(e));
        (if line.len() > 0 {
            seq![line] + rest.0
        } else {
            rest.0
        }, rest.1)
    }
}

proof fn lemma_line_end_shift(b: Seq<char>, s: int, p: int)
    requires
        0 <= s <= p <= b.len(),
    ensures
        line_end(b.skip(s), p - s) == line_end(b, p) - s,
    decreases b.len() - p,
{
    if p < b.len() && b[p] != '\n' {
        lemma_line_end_shift(b, s, p + 1);
    }
}

pub proof fn lemma_line_end_range(b: Seq<char>, p: int)
    requires
        0 <= p <= b.len(),
    ensures
        p <= line_end(b, p) <= b.len(),
        line_end(b, p) < b.len() ==> b[line_end(b, p)] == '\n',
        forall|j: int| p <= j < line_end(b, p) ==> b[j] != '\n',
    decreases b.len() - p,
{
    if p < b.len() && b[p] != '\n' {
        lemma_line_end_range(b, p + 1);
    }
}

/// Takes the complete lines out of `buffer` (trimmed, blank ones dropped)
/// and leaves the unfinished tail in it.
pub fn take_lines(buffer: &mut String) -> (lines: Vec<String>)
    ensures
        lines@.map_values(|l: String| l@) == drain_lines(old(buffer)@).0,
        final(buffer)@ == drain_lines(old(buffer)@).1,
{
    let cs = chars_of(buffer.as_str());
    let n = cs.len();
    let ghost b = cs@;
    let mut out: Vec<String> = Vec::new();
    let mut start: usize = 0;
    proof {
        assert(b.skip(0) =~= b);
    }
    loop
        invariant
            b == cs@,
            b == old(buffer)@,
            n == b.len(),
            start <= n,
            drain_lines(b) == (out@.map_values(|l: String| l@) + drain_lines(b.skip(start as int)).0,
                drain_lines(b.skip(start as int)).1),
        decreases n - start,
    {
        let mut e: usize = start;
        while e < n && cs[e] != '\n'
            invariant
                b == cs@,
                n == b.len(),
                start <= e <= n,
                line_end(b, start as int) == line_end(b, e as int),
            decreases n - e,
        {
            e = e + 1;
        }
        proof {
            lemma_line_end_range(b, start as int);
            lemma_line_end_shift(b, start as int, start as int);
            assert(line_end(b, e as int) == e);
        }
        let ghost s = b.skip(start as int);
        if e >= n {
            proof {
                assert(line_end(s, 0) >= s.len());
                assert(drain_lines(s) == (Seq::<Seq<char>>::empty(), s));
            }
            let rest = sub_chars(&cs, start, n);
            proof {
                assert(rest@ =~= s);
                assert(out@.map_values(|l: String| l@) + Seq::<Seq<char>>::empty() =~= out@.map_values(
                    |l: String| l@,
                ));
            }
            *buffer = string_of(rest.as_slice());
            return out;
        }
        let raw = sub_chars(&cs, start, e);
        let line = trim_chars(&raw);
        proof {
            assert(line_end(s, 0) == e - start);
            assert(raw@ =~= s.take(e - start));
            assert(s.skip(e - start + 1) =~= b.skip(e + 1));
        }
        let ghost before = out@;
        if line.len() > 0 {
            out.push(string_of(line.as_slice()));
            proof {
                assert(out@.map_values(|l: String| l@) =~= before.map_values(|l: String| l@).push(
                    line@,
                ));
                assert(before.map_values(|l: String| l@) + (seq![line@] + drain_lines(
                    b.skip(e + 1),
                ).0) =~= out@.map_values(|l: String| l@) + drain_lines(b.skip(e + 1)).0);
            }
        }
        start = e + 1;
    }
}

/// A line of an SSE stream.
#[derive(Debug, PartialEq, Eq)]
pub enum SseLine {
    /// Not a data line.
    Ignored,
    /// The end-of-stream marker `[DONE]`.
    Done,
    /// A JSON payload.
    Data(String),
}

/// Classifies an SSE line: `data: [DONE]` ends the stream, other data lines
/// carry a payload, anything else is ignored.
pub fn classify_sse_line(line: &str) -> (r: SseLine)
    ensures
        match sse_data(line@) {
            None => r == SseLine::Ignored,
            Some(d) => if d == "[DONE]"@ {
                r == SseLine::Done
            } else {
                r matches SseLine::Data(t) && t@ == d
            },
        },
{
    match parse_sse_line(line) {
        None => SseLine::Ignored,
        Some(d) => {
            if str_eq(d, "[DONE]") {
                SseLine::Done
            } else {
                SseLine::Data(String::from_str(d))
            }
        },
    }
}

/// A tool call being assembled from streamed fragments.
#[derive(Debug)]
pub struct ToolCallAccumulator {
    id: Option<String>,
    name: Option<String>,
    args: String,
}

/// An optional string as plain values.
pub open spec fn opt_text(o: Option<String>) -> Option<Seq<char>> {
    match o {
        Some(s) => Some(s@),
        None => None,
    }
}

/// The completed call held by an accumulator, if its arguments are JSON.
pub open spec fn ready_call(id: Option<Seq<char>>, name: Option<Seq<char>>, args: Seq<char>) -> Option<
    (Seq<char>, Seq<char>, Seq<char>),
> {
    match (id, name) {
        (Some(i), Some(n)) => if json_valid(args) {
            Some((i, n, args))
        } else {
            None
        },
        _ => None,
    }
}

/// A tool call as plain values.
pub open spec fn call_view(c: ToolCall) -> (Seq<char>, Seq<char>, Seq<char>) {
    (c.id@, c.name@, c.arguments@)
}

impl ToolCallAccumulator {
    /// The id, name and argument text gathered so far.
    pub closed spec fn view(&self) -> (Option<Seq<char>>, Option<Seq<char>>, Seq<char>) {
        (opt_text(self.id), opt_text(self.name), self.args@)
    }

    /// An accumulator holding no call.
    pub fn new() -> (r: Self)
        ensures
            r.view() == (None::<Seq<char>>, None::<Seq<char>>, Seq::<char>::empty()),
    {
        ToolCallAccumulator { id: None, name: None, args: String::new() }
    }

    /// Takes one streamed tool-call fragment. A fragment with an id starts a
    /// new call (named `name`), and gives back the previous call if it had a
    /// name and JSON arguments; an argument fragment is appended.
    pub fn process_delta(&mut self, id: Option<String>, name: Option<String>, fragment: Option<String>) -> (r:
        Option<ToolCall>)
        ensures
            ({
                let (i0, n0, a0) = old(self).view();
                let started = id is Some;
                &&& r matches Some(c) ==> started && Some(call_view(c)) == ready_call(i0, n0, a0)
                &&& r is None ==> !started || ready_call(i0, n0, a0) is None
                &&& final(self).view().0 == (if started {
                    opt_text(id)
                } else {
                    i0
                })
                &&& final(self).view().1 == (if started {
                    opt_text(name)
                } else {
                    n0
                })
                &&& final(self).view().2 == (if started {
                    Seq::empty()
                } else {
                    a0
                }) + match fragment {
                    Some(f) => f@,
                    None => Seq::empty(),
                }
            }),
    {
        let mut flushed: Option<ToolCall> = None;
        if let Some(new_id) = id {
            let prev = self.id.take();
            if let Some(prev_id) = prev {
                let prev_name = self.name.take();
                if let Some(n) = prev_name {
                    if json_parses(self.args.as_str()) {
                        flushed = Some(ToolCall { id: prev_id, name: n, arguments: self.args.clone() });
                    }
                }
            }
            self.id = Some(new_id);
            self.name = name;
            self.args = String::new();
        }
        if let Some(f) = fragment {
            self.args.append(f.as_str());
        }
        flushed
    }

    /// Gives back the pending call at the end of the stream, if it has an id,
    /// a name and JSON arguments.
    pub fn flush(&mut self) -> (r: Option<ToolCall>)
        ensures
            ({
                let (i0, n0, a0) = old(self).view();
                &&& r matches Some(c) ==> Some(call_view(c)) == ready_call(i0, n0, a0)
                &&& r is None ==> ready_call(i0, n0, a0) is None
                &&& final(self).view().0 is None
                &&& final(self).view().1 == (if i0 is Some {
                    None
                } else {
                    n0
                })
                &&& final(self).view().2 == (if r is Some {
                    Seq::empty()
                } else {
                    a0
                })
            }),
    {
        let prev_id = match self.id.take() {
            Some(i) => i,
            None => {
                return None;
            },
        };
        let name = match self.name.take() {
            Some(n) => n,
            None => {
                return None;
            },
        };
        if !json_parses(self.args.as_str()) {
            return None;
        }
        let arguments = self.args.clone();
        self.args = String::new();
        Some(ToolCall { id: prev_id, name, arguments })
    }
}

/// The error for a failed request to an OpenAI-compatible endpoint: a 429
/// is a rate limit of the model's provider; anything else carries the status
/// and body.
pub fn openai_http_error(status_code: u16, status_text: &str, model: &str, body: &str) -> (e:
    MaleeError)
    ensures
        status_code == 429 ==> (e matches MaleeError::LlmRateLimited { provider, retry_after_ms }
            && provider@ == model@ && retry_after_ms is None),
        status_code != 429 ==> (e matches MaleeError::LlmError(m) && m@ == "HTTP "@ + status_text@
            + " - "@ + body@),
{
    if status_code == 429 {
        MaleeError::LlmRateLimited { provider: String::from_str(model), retry_after_ms: None }
    } else {
        let mut m = String::from_str("HTTP ");
        m.append(status_text);
        m.append(" - ");
        m.append(body);
        MaleeError::LlmError(m)
    }
}

/// The error for a failed request to Ollama.
pub fn ollama_http_error(status_text: &str, body: &str) -> (e: MaleeError)
    ensures
        e matches MaleeError::LlmError(m) && m@ == "Ollama HTTP "@ + status_text@ + " - "@ + body@,
{
    let mut m = String::from_str("Ollama HTTP ");
    m.append(status_text);
    m.append(" - ");
    m.append(body);
    MaleeError::LlmError(m)
}

/// The error for a stream that sent nothing for `STREAM_CHUNK_TIMEOUT_SECS`.
pub fn stream_stalled() -> (e: MaleeError)
    ensures
        e == (MaleeError::LlmStreamTimeout { seconds: STREAM_CHUNK_TIMEOUT_SECS }),
{
    MaleeError::LlmStreamTimeout { seconds: STREAM_CHUNK_TIMEOUT_SECS }
}

/// Nothing is lost or duplicated by line framing: text that holds no line
/// break stays buffered whole, and a buffer ending in a line break keeps
/// nothing back.
pub proof fn law_framing_keeps_tail(b: Seq<char>)
    ensures
        (forall|j: int| 0 <= j < b.len() ==> b[j] != '\n') ==> drain_lines(b) == (
            Seq::<Seq<char>>::empty(),
            b,
        ),
        b.len() > 0 && b.last() == '\n' ==> drain_lines(b).1.len() == 0,
    decreases b.len(),
{
    lemma_line_end_range(b, 0);
    if (forall|j: int| 0 <= j < b.len() ==> b[j] != '\n') {
        if line_end(b, 0) < b.len() {
            assert(b[line_end(b, 0)] != '\n');
        }
    }
    if b.len() > 0 && b.last() == '\n' {
        let e = line_end(b, 0);
        assert(e < b.len());
        let t = b.skip(e + 1);
        if t.len() > 0 {
            assert(t.last() == b.last());
            law_framing_keeps_tail(t);
        } else {
            lemma_line_end_range(t, 0);
        }
    }
}

} // verus!
