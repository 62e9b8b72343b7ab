//! The agent's turn-level state machine and the client events it emits.
use vstd::prelude::*;
use crate::models::malee::events::UiEvent;
use crate::text::{contains_seq, str_contains};

verus! {

/// A JSON value; the agent carries tool arguments through without reading them.
#[verifier::external_type_specification]
#[verifier::external_body]
pub struct ExJsonValue(serde_json::Value);

/// Represents the in-memory state of the agent.
#[derive(Debug, PartialEq)]
pub enum AgentState {
    /// The agent has been initialized and is ready.
    Initialized,
    /// The agent is thinking/processing.
    Thinking,
    /// The agent is currently streaming a text response.
    StreamingResponse {
        /// The accumulated text response.
        text: String,
    },
    /// The agent is executing a tool.
    ToolExecuting {
        /// The name of the tool being executed.
        tool_name: String,
        /// The arguments passed to the tool.
        arguments: serde_json::Value,
    },
    /// The tool has finished executing.
    ToolExecuted {
        /// The name of the executed tool.
        tool_name: String,
        /// The result returned by the tool.
        result: String,
    },
    /// The agent has successfully completed its turns.
    Completed {
        /// The final text response of the agent.
        final_text: String,
    },
    /// The agent execution failed.
    Failed(String),
}

/// Represents logical agent events that trigger state transitions.
#[derive(Debug)]
pub enum AgentEvent {
    /// Signals the start of a turn in the loop.
    StartTurn,
    /// Signals the receipt of a text token from the LLM.
    ReceiveToken(String),
    /// Signals a request to call a tool.
    CallTool { name: String, args: serde_json::Value },
    /// Signals the result from a tool execution.
    ReceiveToolResult { result: String },
    /// Signals the successful completion of the agent's turn.
    FinishTurn(String),
    /// Signals an error during execution.
    Error(String),
}

/// An agent state as plain values.
pub ghost enum StateView {
    Initialized,
    Thinking,
    Streaming(Seq<char>),
    ToolExecuting(Seq<char>, serde_json::Value),
    ToolExecuted(Seq<char>, Seq<char>),
    Completed(Seq<char>),
    Failed(Seq<char>),
}

/// An agent event as plain values.
pub ghost enum EventView {
    StartTurn,
    Token(Seq<char>),
    CallTool(Seq<char>, serde_json::Value),
    ToolResult(Seq<char>),
    Finish(Seq<char>),
    Error(Seq<char>),
}

impl AgentState {
    /// This state as plain values.
    pub open spec fn view(self) -> StateView {
        match self {
            AgentState::Initialized => StateView::Initialized,
            AgentState::Thinking => StateView::Thinking,
            AgentState::StreamingResponse { text } => StateView::Streaming(text@),
            AgentState::ToolExecuting { tool_name, arguments } => StateView::ToolExecuting(
                tool_name@,
                arguments,
            ),
            AgentState::ToolExecuted { tool_name, result } => StateView::ToolExecuted(
                tool_name@,
                result@,
            ),
            AgentState::Completed { final_text } => StateView::Completed(final_text@),
            AgentState::Failed(m) => StateView::Failed(m@),
        }
    }
}

impl AgentEvent {
    /// This event as plain values.
    pub open spec fn view(self) -> EventView {
        match self {
            AgentEvent::StartTurn => EventView::StartTurn,
            AgentEvent::ReceiveToken(t) => EventView::Token(t@),
            AgentEvent::CallTool { name, args } => EventView::CallTool(name@, args),
            AgentEvent::ReceiveToolResult { result } => EventView::ToolResult(result@),
            AgentEvent::FinishTurn(t) => EventView::Finish(t@),
            AgentEvent::Error(m) => EventView::Error(m@),
        }
    }
}

/// The state after `e`: a turn always starts by thinking; tokens accumulate
/// while streaming and start a new response otherwise; a tool result keeps
/// the name of the tool being executed (empty if none was).
pub open spec fn next_state(s: StateView, e: EventView) -> StateView {
    match e {
        EventView::StartTurn => StateView::Thinking,
        EventView::Token(t) => match s {
            StateView::Streaming(text) => StateView::Streaming(text + t),
            _ => StateView::Streaming(t),
        },
        EventView::CallTool(name, args) => StateView::ToolExecuting(name, args),
        EventView::ToolResult(result) => StateView::ToolExecuted(
            match s {
                StateView::ToolExecuting(name, _) => name,
                _ => Seq::empty(),
            },
            result,
        ),
        EventView::Finish(t) => StateView::Completed(t),
        EventView::Error(m) => StateView::Failed(m),
    }
}

/// The code of the client error for an agent failure: `LOOP_DEPTH` when the
/// message speaks of turns or depth, `AGENT_ERROR` otherwise.
pub open spec fn error_code(m: Seq<char>) -> Seq<char> {
    if contains_seq(m, "turns"@) || contains_seq(m, "depth"@) {
        "LOOP_DEPTH"@
    } else {
        "AGENT_ERROR"@
    }
}

/// Whether `out` are the client events emitted for `e`: the token itself, the
/// final text, or a recoverable error; nothing for the other events.
pub open spec fn emitted(e: EventView, out: Seq<UiEvent>) -> bool {
    match e {
        EventView::Token(t) => out.len() == 1 && (out[0] matches UiEvent::Token { text } && text@
            == t),
        EventView::Finish(t) => out.len() == 1 && (out[0] matches UiEvent::AssistantMessageDone {
            full_text,
        } && full_text@ == t),
        EventView::Error(m) => out.len() == 1 && (out[0] matches UiEvent::Error {
            code,
            message,
            recoverable,
        } && code@ == error_code(m) && message@ == m && recoverable),
        _ => out.len() == 0,
    }
}

/// The state machine orchestrator for the malee agent.
#[derive(Debug)]
pub struct AgentStateMachine {
    /// The current state of the agent.
    pub state: AgentState,
}

impl AgentStateMachine {
    /// Creates a new `AgentStateMachine` in the `Initialized` state.
    pub fn new() -> (r: Self)
        ensures
            r.state.view() == StateView::Initialized,
    {
        AgentStateMachine { state: AgentState::Initialized }
    }

    /// Applies `event` and returns the client events it emits.
    pub fn transition(&mut self, event: AgentEvent) -> (r: Vec<UiEvent>)
        ensures
            final(self).state.view() == next_state(old(self).state.view(), event.view()),
            emitted(event.view(), r@),
    {
        let mut ui_events: Vec<UiEvent> = Vec::new();
        match event {
            AgentEvent::StartTurn => {
                self.state = AgentState::Thinking;
            },
            AgentEvent::ReceiveToken(token) => {
                let next = match &self.state {
                    AgentState::StreamingResponse { text } => {
                        let mut t = text.clone();
                        t.append(token.as_str());
                        t
                    },
                    _ => token.clone(),
                };
                self.state = AgentState::StreamingResponse { text: next };
                ui_events.push(UiEvent::Token { text: token });
            },
            AgentEvent::CallTool { name, args } => {
                self.state = AgentState::ToolExecuting { tool_name: name, arguments: args };
            },
            AgentEvent::ReceiveToolResult { result } => {
                let tool_name = match &self.state {
                    AgentState::ToolExecuting { tool_name, .. } => tool_name.clone(),
                    _ => String::new(),
                };
                self.state = AgentState::ToolExecuted { tool_name, result };
            },
            AgentEvent::FinishTurn(final_text) => {
                self.state = AgentState::Completed { final_text: final_text.clone() };
                ui_events.push(UiEvent::AssistantMessageDone { full_text: final_text });
            },
            AgentEvent::Error(message) => {
                self.state = AgentState::Failed(message.clone());
                let code = if str_contains(message.as_str(), "turns") || str_contains(
                    message.as_str(),
                    "depth",
                ) {
                    String::from_str("LOOP_DEPTH")
                } else {
                    String::from_str("AGENT_ERROR")
                };
                ui_events.push(UiEvent::Error { code, message, recoverable: true });
            },
        }
        ui_events
    }
}

impl Default for AgentStateMachine {
    fn default() -> (r: Self)
        ensures
            r.state.view() == StateView::Initialized,
    {
        Self::new()
    }
}

/// The state after a run of events.
pub open spec fn run_events(s: StateView, es: Seq<EventView>) -> StateView
    decreases es.len(),
{
    if es.len() == 0 {
        s
    } else {
        run_events(next_state(s, es[0]), es.skip(1))
    }
}

/// The events for a run of tokens.
pub open spec fn token_events(ts: Seq<Seq<char>>) -> Seq<EventView> {
    ts.map_values(|t: Seq<char>| EventView::Token(t))
}

/// The tokens of a run, concatenated.
pub open spec fn concat_all(ts: Seq<Seq<char>>) -> Seq<char>
    decreases ts.len(),
{
    if ts.len() == 0 {
        Seq::empty()
    } else {
        ts[0] + concat_all(ts.skip(1))
    }
}

proof fn lemma_stream_tokens(text: Seq<char>, ts: Seq<Seq<char>>)
    ensures
        run_events(StateView::Streaming(text), token_events(ts)) == StateView::Streaming(
            text + concat_all(ts),
        ),
    decreases ts.len(),
{
    if ts.len() == 0 {
        assert(text + concat_all(ts) =~= text);
    } else {
        assert(token_events(ts).skip(1) =~= token_events(ts.skip(1)));
        lemma_stream_tokens(text + ts[0], ts.skip(1));
        assert(text + ts[0] + concat_all(ts.skip(1)) =~= text + concat_all(ts));
    }
}

/// Streaming is lossless: after a turn starts, the streamed response is the
/// concatenation of every token received, in order, whatever state the
/// machine was in before.
pub proof fn law_streamed_text_is_concatenation(s: StateView, ts: Seq<Seq<char>>)
    requires
        ts.len() > 0,
    ensures
        run_events(s, seq![EventView::StartTurn] + token_events(ts)) == StateView::Streaming(
            concat_all(ts),
        ),
{
    let es = seq![EventView::StartTurn] + token_events(ts);
    assert(es.skip(1) =~= token_events(ts));
    assert(es[0] == EventView::StartTurn);
    let rest = token_events(ts);
    assert(rest.skip(1) =~= token_events(ts.skip(1)));
    assert(rest[0] == EventView::Token(ts[0]));
    lemma_stream_tokens(ts[0], ts.skip(1));
    reveal_with_fuel(run_events, 2);
    assert(ts[0] + concat_all(ts.skip(1)) == concat_all(ts));
}

} // verus!
