//! What a decoded chunk of a model's stream means: the tokens, finished tool
//! calls and end of stream it carries, for the OpenAI chat-completions
//! protocol (whose tool calls arrive in fragments) and for Ollama's.
use vstd::prelude::*;
use crate::error::MaleeError;
use crate::models::malee::session::ToolCall;
use crate::services::malee::llm::stream::{call_view, opt_text, ready_call, ToolCallAccumulator};
use crate::text::clone_opt;

verus! {

/// One thing a stream chunk tells the agent.
#[derive(Debug)]
pub enum StreamEvent {
    /// Text of the reply.
    Token(String),
    /// A complete tool call.
    Call(ToolCall),
    /// The end of the reply.
    Done,
}

/// A stream event as plain values.
pub ghost enum StreamEventView {
    Token(Seq<char>),
    Call(Seq<char>, Seq<char>, Seq<char>),
    Done,
}

pub open spec fn event_view(e: StreamEvent) -> StreamEventView {
    match e {
        StreamEvent::Token(t) => StreamEventView::Token(t@),
        StreamEvent::Call(c) => StreamEventView::Call(c.id@, c.name@, c.arguments@),
        StreamEvent::Done => StreamEventView::Done,
    }
}

pub open spec fn events_view(es: Seq<StreamEvent>) -> Seq<StreamEventView> {
    es.map_values(|e: StreamEvent| event_view(e))
}

/// The token event for a piece of reply text: none for absent or empty text.
pub open spec fn token_events(content: Option<String>) -> Seq<StreamEventView> {
    match content {
        Some(t) => if t@.len() > 0 {
            seq![StreamEventView::Token(t@)]
        } else {
            Seq::empty()
        },
        None => Seq::empty(),
    }
}

// ───────────────────────── OpenAI chat completions ─────────────────────────

/// One tool-call fragment of a delta: `id` and `function.name` where the
/// fragment starts a call, `function.arguments` where it carries argument text.
#[derive(Debug, Clone)]
pub struct OpenAiToolDelta {
    pub id: Option<String>,
    pub name: Option<String>,
    pub arguments: Option<String>,
}

/// The `delta` of one choice: its text and its tool-call fragments.
#[derive(Debug, Clone)]
pub struct OpenAiDelta {
    pub content: Option<String>,
    pub tool_calls: Vec<OpenAiToolDelta>,
}

/// A decoded data line: the text of its `error` field where it has one, and
/// the delta of each choice, in order (`None` for a choice without one).
#[derive(Debug, Clone)]
pub struct OpenAiChunk {
    pub error: Option<String>,
    pub deltas: Vec<Option<OpenAiDelta>>,
}

/// An accumulator's state as plain values: id, name, argument text.
pub type AccView = (Option<Seq<char>>, Option<Seq<char>>, Seq<char>);

/// What `ToolCallAccumulator::process_delta` does with one fragment: the new
/// state and the call it gives back.
pub open spec fn delta_step(a: AccView, t: OpenAiToolDelta) -> (AccView, Option<(Seq<char>, Seq<char>, Seq<char>)>) {
    let started = t.id is Some;
    let frag = match t.arguments {
        Some(f) => f@,
        None => Seq::empty(),
    };
    (
        (
            if started { opt_text(t.id) } else { a.0 },
            if started { opt_text(t.name) } else { a.1 },
            (if started { Seq::empty() } else { a.2 }) + frag,
        ),
        if started { ready_call(a.0, a.1, a.2) } else { None },
    )
}

/// Feeds tool-call fragments to the accumulator, in order: its final state
/// and the calls completed along the way.
pub open spec fn feed_tool_deltas(a: AccView, ts: Seq<OpenAiToolDelta>) -> (AccView, Seq<StreamEventView>)
    decreases ts.len(),
{
    if ts.len() == 0 {
        (a, Seq::empty())
    } else {
        let (a1, e1) = feed_tool_deltas(a, ts.drop_last());
        let (a2, c) = delta_step(a1, ts.last());
        (
            a2,
            e1 + match c {
                Some(v) => seq![StreamEventView::Call(v.0, v.1, v.2)],
                None => Seq::empty(),
            },
        )
    }
}

/// One choice: its text first, then the calls its fragments complete.
pub open spec fn feed_choice(a: AccView, d: Option<OpenAiDelta>) -> (AccView, Seq<StreamEventView>) {
    match d {
        None => (a, Seq::empty()),
        Some(d) => {
            let (a1, e1) = feed_tool_deltas(a, d.tool_calls@);
            (a1, token_events(d.content) + e1)
        },
    }
}

/// Every choice of a chunk, in order.
pub open spec fn feed_choices(a: AccView, ds: Seq<Option<OpenAiDelta>>) -> (AccView, Seq<StreamEventView>)
    decreases ds.len(),
{
    if ds.len() == 0 {
        (a, Seq::empty())
    } else {
        let (a1, e1) = feed_choices(a, ds.drop_last());
        let (a2, e2) = feed_choice(a1, ds.last());
        (a2, e1 + e2)
    }
}

fn feed_tool_calls(acc: &mut ToolCallAccumulator, ts: &Vec<OpenAiToolDelta>, out: &mut Vec<StreamEvent>)
    ensures
        final(acc).view() == feed_tool_deltas(old(acc).view(), ts@).0,
        events_view(final(out)@) == events_view(old(out)@) + feed_tool_deltas(old(acc).view(), ts@).1,
{
    let ghost a0 = acc.view();
    let ghost o0 = events_view(out@);
    let mut i: usize = 0;
    proof {
        assert(ts@.take(0) =~= Seq::<OpenAiToolDelta>::empty());
        assert(o0 + Seq::<StreamEventView>::empty() =~= o0);
    }
    while i < ts.len()
        invariant
            i <= ts@.len(),
            acc.view() == feed_tool_deltas(a0, ts@.take(i as int)).0,
            events_view(out@) == o0 + feed_tool_deltas(a0, ts@.take(i as int)).1,
        decreases ts@.len() - i,
    {
        let t = &ts[i];
        let ghost before = acc.view();
        let ghost out_before = out@;
        let r = acc.process_delta(clone_opt(&t.id), clone_opt(&t.name), clone_opt(&t.arguments));
        proof {
            let s = ts@.take(i + 1);
            assert(s.drop_last() =~= ts@.take(i as int));
            assert(s.last() == ts@[i as int]);
            let (a2, c) = delta_step(before, ts@[i as int]);
            assert(acc.view() == a2);
            assert(r is Some <==> c is Some);
        }
        match r {
            Some(c) => {
                out.push(StreamEvent::Call(c));
                proof {
                    assert(events_view(out@) =~= events_view(out_before).push(event_view(out@.last())));
                }
            },
            None => {},
        }
        i = i + 1;
        proof {
            let s = ts@.take(i as int);
            let (a1, e1) = feed_tool_deltas(a0, s.drop_last());
            assert(s.drop_last() =~= ts@.take(i - 1));
            assert(events_view(out@) =~= o0 + feed_tool_deltas(a0, s).1);
        }
    }
    proof {
        assert(ts@.take(i as int) =~= ts@);
    }
}

/// What a decoded OpenAI data line means, given the accumulator of the
/// stream's tool calls: an `error` field fails the stream (the accumulator
/// is left as it is); otherwise each choice in turn gives its text (when not
/// empty) and then feeds its tool-call fragments to the accumulator, giving
/// the calls they complete.
pub fn openai_chunk_events(acc: &mut ToolCallAccumulator, c: OpenAiChunk) -> (r: Result<
    Vec<StreamEvent>,
    MaleeError,
>)
    ensures
        match c.error {
            Some(e) => (r matches Err(MaleeError::LlmError(m)) && m@ == e@) && final(acc).view()
                == old(acc).view(),
            None => (r matches Ok(v) && events_view(v@) == feed_choices(old(acc).view(), c.deltas@).1)
                && final(acc).view() == feed_choices(old(acc).view(), c.deltas@).0,
        },
{
    if let Some(e) = c.error {
        return Err(MaleeError::LlmError(e));
    }
    let ds = c.deltas;
    let ghost a0 = acc.view();
    let mut out: Vec<StreamEvent> = Vec::new();
    let mut i: usize = 0;
    proof {
        assert(ds@.take(0) =~= Seq::<Option<OpenAiDelta>>::empty());
        assert(events_view(out@) =~= Seq::<StreamEventView>::empty());
    }
    while i < ds.len()
        invariant
            i <= ds@.len(),
            acc.view() == feed_choices(a0, ds@.take(i as int)).0,
            events_view(out@) == feed_choices(a0, ds@.take(i as int)).1,
        decreases ds@.len() - i,
    {
        let ghost before = acc.view();
        let ghost out_before = events_view(out@);
        match &ds[i] {
            None => {},
            Some(d) => {
                match &d.content {
                    Some(t) => {
                        if !t.as_str().is_empty() {
                            out.push(StreamEvent::Token(t.clone()));
                            proof {
                                assert(events_view(out@) =~= out_before + token_events(d.content));
                            }
                        } else {
                            proof {
                                assert(events_view(out@) =~= out_before + token_events(d.content));
                            }
                        }
                    },
                    None => {
                        proof {
                            assert(events_view(out@) =~= out_before + token_events(d.content));
                        }
                    },
                }
                feed_tool_calls(acc, &d.tool_calls, &mut out);
            },
        }
        proof {
            let s = ds@.take(i + 1);
            assert(s.drop_last() =~= ds@.take(i as int));
            assert(s.last() == ds@[i as int]);
            assert(events_view(out@) =~= out_before + feed_choice(before, ds@[i as int]).1);
        }
        i = i + 1;
    }
    proof {
        assert(ds@.take(i as int) =~= ds@);
    }
    Ok(out)
}

// ───────────────────────── Ollama ─────────────────────────

/// A tool call of an Ollama message: `function.name` where it is text, and
/// `function.arguments` as JSON text where it is present.
#[derive(Debug, Clone)]
pub struct OllamaToolCall {
    pub name: Option<String>,
    pub arguments: Option<String>,
}

/// The `message` of an Ollama chunk: its text and its tool calls.
#[derive(Debug, Clone)]
pub struct OllamaMessage {
    pub content: Option<String>,
    pub tool_calls: Vec<OllamaToolCall>,
}

/// A decoded line of Ollama's stream: its `done` flag where it is a boolean,
/// and its message.
#[derive(Debug, Clone)]
pub struct OllamaChunk {
    pub done: Option<bool>,
    pub message: Option<OllamaMessage>,
}

/// The name of an Ollama tool call, empty where it has none.
pub open spec fn ollama_call_name(t: OllamaToolCall) -> Seq<char> {
    match t.name {
        Some(n) => n@,
        None => Seq::empty(),
    }
}

/// The arguments of an Ollama tool call, `{}` where it has none.
pub open spec fn ollama_call_arguments(t: OllamaToolCall) -> Seq<char> {
    match t.arguments {
        Some(a) => a@,
        None => "{}"@,
    }
}

/// The number of tool calls in a chunk.
pub open spec fn ollama_call_count(c: OllamaChunk) -> nat {
    match c.message {
        Some(m) => m.tool_calls@.len(),
        None => 0,
    }
}

/// What an Ollama chunk means: `done: true` ends the reply; otherwise its
/// message gives its text (when not empty), then each tool call, named by the
/// id given for it.
pub open spec fn ollama_events(c: OllamaChunk, ids: Seq<String>) -> Seq<StreamEventView> {
    if c.done == Some(true) {
        seq![StreamEventView::Done]
    } else {
        match c.message {
            None => Seq::empty(),
            Some(m) => token_events(m.content) + Seq::new(
                m.tool_calls@.len(),
                |i: int|
                    StreamEventView::Call(
                        ids[i]@,
                        ollama_call_name(m.tool_calls@[i]),
                        ollama_call_arguments(m.tool_calls@[i]),
                    ),
            ),
        }
    }
}

/// The events of an Ollama chunk (see `ollama_events`); Ollama gives its
/// tool calls no ids, so `ids` holds one fresh id per call.
pub fn ollama_chunk_events(c: OllamaChunk, ids: &Vec<String>) -> (r: Vec<StreamEvent>)
    requires
        ids@.len() == ollama_call_count(c),
    ensures
        events_view(r@) == ollama_events(c, ids@),
{
    let mut out: Vec<StreamEvent> = Vec::new();
    if let Some(true) = c.done {
        out.push(StreamEvent::Done);
        proof {
            assert(events_view(out@) =~= ollama_events(c, ids@));
        }
        return out;
    }
    match &c.message {
        None => {
            proof {
                assert(events_view(out@) =~= ollama_events(c, ids@));
            }
        },
        Some(m) => {
            match &m.content {
                Some(t) => {
                    if !t.as_str().is_empty() {
                        out.push(StreamEvent::Token(t.clone()));
                    }
                },
                None => {},
            }
            let ghost head = events_view(out@);
            proof {
                assert(head =~= token_events(m.content));
            }
            let mut i: usize = 0;
            while i < m.tool_calls.len()
                invariant
                    i <= m.tool_calls@.len(),
                    ids@.len() == m.tool_calls@.len(),
                    events_view(out@) == head + Seq::new(
                        i as nat,
                        |j: int|
                            StreamEventView::Call(
                                ids@[j]@,
                                ollama_call_name(m.tool_calls@[j]),
                                ollama_call_arguments(m.tool_calls@[j]),
                            ),
                    ),
                decreases m.tool_calls@.len() - i,
            {
                let t = &m.tool_calls[i];
                let name = match &t.name {
                    Some(n) => n.clone(),
                    None => String::new(),
                };
                let arguments = match &t.arguments {
                    Some(a) => a.clone(),
                    None => String::from_str("{}"),
                };
                let ghost prev = events_view(out@);
                out.push(StreamEvent::Call(ToolCall { id: ids[i].clone(), name, arguments }));
                proof {
                    assert(events_view(out@) =~= prev.push(event_view(out@.last())));
                }
                i = i + 1;
                proof {
                    assert(events_view(out@) =~= head + Seq::new(
                        i as nat,
                        |j: int|
                            StreamEventView::Call(
                                ids@[j]@,
                                ollama_call_name(m.tool_calls@[j]),
                                ollama_call_arguments(m.tool_calls@[j]),
                            ),
                    ));
                }
            }
            proof {
                assert(events_view(out@) =~= ollama_events(c, ids@));
            }
        },
    }
    out
}

} // verus!
