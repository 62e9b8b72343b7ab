//! The decisions of the agent loop: what each turn records in the session,
//! what is sent to the model, how a failing backend is handled, and which
//! client events a tool's result produces. The service runs the loop itself,
//! streaming from the model and sending the events.
use vstd::prelude::*;
use crate::error::MaleeError;
use crate::models::malee::cart::prices_fit;
use crate::models::malee::checkout::CheckoutDraft;
use crate::models::malee::events::{CartView, CategoryView, CheckoutDraftView, TrackingEvent, UiEvent};
use crate::models::malee::session::{ConversationTurn, Role, SessionState, ToolCall};
use crate::services::malee::checkout::validate::{checkout_errors, validate_on};
use crate::services::malee::connector::types::Category;
use crate::services::malee::llm::client::{LlmFunctionCall, LlmMessage, LlmToolCall};
use crate::services::malee::llm::retry::ErrorClass;
use crate::services::malee::llm::state_machine::{
    emitted, next_state, AgentEvent, AgentStateMachine, EventView, StateView,
};
use crate::services::malee::llm::tools::ToolResult;
use crate::text::{chars_of, clone_opt, opt_chars, strs_view, trim, trim_chars};
use crate::time::Day;

verus! {

/// Model turns in one agent run before it gives up.
pub const MAX_TURN_DEPTH: usize = 6;

/// Minutes a guest checkout link stays valid.
pub const GUEST_CHECKOUT_EXPIRY_MINS: u32 = 60;

/// Retries of the same backend after malformed tool arguments.
pub const MAX_MALFORMED_RETRIES: u32 = 2;

/// Backend failovers in one agent turn.
pub const MAX_BACKEND_FAILOVERS: usize = 3;

/// The reply used when the model said nothing.
pub open spec fn fallback_reply() -> Seq<char> {
    "I'm sorry, I'm having trouble generating a response. Could you please try again?"@
}

/// The text a turn ends with: the model's text, or the fallback when it is
/// blank.
pub open spec fn reply_text(text: Seq<char>) -> Seq<char> {
    if trim(text).len() == 0 {
        fallback_reply()
    } else {
        text
    }
}

/// The session with only its conversation history changed.
pub open spec fn only_history_changed(old: SessionState, new: SessionState) -> bool {
    new == (SessionState { conversation_history: new.conversation_history, ..old })
}

/// A turn without tool data.
pub open spec fn plain_turn(t: ConversationTurn, role: Role, content: Seq<char>) -> bool {
    t.role == role && t.content@ == content && t.tool_call_id is None && t.tool_calls is None
}

/// Records the shopper's message.
pub fn push_user_turn(session: &mut SessionState, message: String)
    ensures
        only_history_changed(*old(session), *final(session)),
        final(session).conversation_history@.len() == old(session).conversation_history@.len() + 1,
        final(session).conversation_history@.drop_last() == old(session).conversation_history@,
        plain_turn(final(session).conversation_history@.last(), Role::User, message@),
{
    session.conversation_history.push(
        ConversationTurn { role: Role::User, content: message, tool_call_id: None, tool_calls: None },
    );
    proof {
        assert(final(session).conversation_history@.drop_last() =~= old(session).conversation_history@);
    }
}

/// Ends the turn with `text` (the fallback if blank): the machine completes,
/// the reply is recorded, and the events to send are returned. The reply is
/// recorded even if the client has gone.
pub fn finish_turn(session: &mut SessionState, machine: &mut AgentStateMachine, text: String) -> (r:
    Vec<UiEvent>)
    ensures
        final(machine).state.view() == StateView::Completed(reply_text(text@)),
        emitted(EventView::Finish(reply_text(text@)), r@),
        only_history_changed(*old(session), *final(session)),
        final(session).conversation_history@.len() == old(session).conversation_history@.len() + 1,
        final(session).conversation_history@.drop_last() == old(session).conversation_history@,
        plain_turn(final(session).conversation_history@.last(), Role::Assistant, reply_text(text@)),
{
    let cs = chars_of(text.as_str());
    let t = trim_chars(&cs);
    let final_text = if t.len() == 0 {
        String::from_str(
            "I'm sorry, I'm having trouble generating a response. Could you please try again?",
        )
    } else {
        text
    };
    let events = machine.transition(AgentEvent::FinishTurn(final_text.clone()));
    session.conversation_history.push(
        ConversationTurn {
            role: Role::Assistant,
            content: final_text,
            tool_call_id: None,
            tool_calls: None,
        },
    );
    proof {
        assert(final(session).conversation_history@.drop_last() =~= old(session).conversation_history@);
    }
    events
}

/// A copy of the tool calls.
fn copy_calls(calls: &Vec<ToolCall>) -> (r: Vec<ToolCall>)
    ensures
        r@ == calls@,
{
    let mut r: Vec<ToolCall> = Vec::new();
    let mut i: usize = 0;
    while i < calls.len()
        invariant
            i <= calls@.len(),
            r@ == calls@.take(i as int),
        decreases calls@.len() - i,
    {
        r.push(
            ToolCall {
                id: calls[i].id.clone(),
                name: calls[i].name.clone(),
                arguments: calls[i].arguments.clone(),
            },
        );
        i = i + 1;
        proof {
            assert(calls@.take(i as int) =~= calls@.take(i - 1).push(calls@[i - 1]));
        }
    }
    proof {
        assert(calls@.take(i as int) =~= calls@);
    }
    r
}

/// Records the model's turn that asked for `calls`, with the text it
/// streamed before them.
pub fn push_tool_request(session: &mut SessionState, text: &String, calls: &Vec<ToolCall>)
    ensures
        only_history_changed(*old(session), *final(session)),
        final(session).conversation_history@.drop_last() == old(session).conversation_history@,
        final(session).conversation_history@.len() == old(session).conversation_history@.len() + 1,
        final(session).conversation_history@.last().role == Role::Assistant,
        final(session).conversation_history@.last().content@ == text@,
        final(session).conversation_history@.last().tool_call_id is None,
        final(session).conversation_history@.last().tool_calls matches Some(v) && v@ == calls@,
{
    session.conversation_history.push(
        ConversationTurn {
            role: Role::Assistant,
            content: text.clone(),
            tool_call_id: None,
            tool_calls: Some(copy_calls(calls)),
        },
    );
    proof {
        assert(final(session).conversation_history@.drop_last() =~= old(session).conversation_history@);
    }
}

/// Records what the tool called `call_id` returned (or the error text).
pub fn push_tool_result(session: &mut SessionState, call_id: &String, content: String)
    ensures
        only_history_changed(*old(session), *final(session)),
        final(session).conversation_history@.drop_last() == old(session).conversation_history@,
        final(session).conversation_history@.len() == old(session).conversation_history@.len() + 1,
        final(session).conversation_history@.last().role == Role::Tool,
        final(session).conversation_history@.last().content@ == content@,
        final(session).conversation_history@.last().tool_call_id matches Some(i) && i@
            == call_id@,
        final(session).conversation_history@.last().tool_calls is None,
{
    session.conversation_history.push(
        ConversationTurn {
            role: Role::Tool,
            content,
            tool_call_id: Some(call_id.clone()),
            tool_calls: None,
        },
    );
    proof {
        assert(final(session).conversation_history@.drop_last() =~= old(session).conversation_history@);
    }
}

/// The name of a role in the model's protocol.
pub open spec fn role_name(r: Role) -> Seq<char> {
    match r {
        Role::User => "user"@,
        Role::Assistant => "assistant"@,
        Role::Tool => "tool"@,
    }
}

/// Whether `m` is the model message for the history turn `t`.
pub open spec fn message_of_turn(m: LlmMessage, t: ConversationTurn) -> bool {
    &&& m.role@ == role_name(t.role)
    &&& m.content@ == t.content@
    &&& opt_chars(m.tool_call_id) == opt_chars(t.tool_call_id)
    &&& match t.tool_calls {
        None => m.tool_calls is None,
        Some(cs) => m.tool_calls matches Some(ms) && ms@.len() == cs@.len() && forall|k: int|
            0 <= k < cs@.len() ==> {
                &&& (#[trigger] ms@[k]).id@ == cs@[k].id@
                &&& ms@[k].type_@ == "function"@
                &&& ms@[k].function.name@ == cs@[k].name@
                &&& ms@[k].function.arguments@ == cs@[k].arguments@
            },
    }
}

/// The model message for one history turn.
fn turn_message(t: &ConversationTurn) -> (m: LlmMessage)
    ensures
        message_of_turn(m, *t),
{
    let role = match t.role {
        Role::User => String::from_str("user"),
        Role::Assistant => String::from_str("assistant"),
        Role::Tool => String::from_str("tool"),
    };
    let tool_calls = match &t.tool_calls {
        None => None,
        Some(cs) => {
            let mut ms: Vec<LlmToolCall> = Vec::new();
            let mut k: usize = 0;
            while k < cs.len()
                invariant
                    k <= cs@.len(),
                    ms@.len() == k,
                    forall|j: int|
                        0 <= j < k ==> {
                            &&& (#[trigger] ms@[j]).id@ == cs@[j].id@
                            &&& ms@[j].type_@ == "function"@
                            &&& ms@[j].function.name@ == cs@[j].name@
                            &&& ms@[j].function.arguments@ == cs@[j].arguments@
                        },
                decreases cs@.len() - k,
            {
                ms.push(
                    LlmToolCall {
                        id: cs[k].id.clone(),
                        type_: String::from_str("function"),
                        function: LlmFunctionCall {
                            name: cs[k].name.clone(),
                            arguments: cs[k].arguments.clone(),
                        },
                    },
                );
                k = k + 1;
            }
            Some(ms)
        },
    };
    LlmMessage {
        role,
        content: t.content.clone(),
        tool_calls,
        tool_call_id: clone_opt(&t.tool_call_id),
    }
}

/// The messages sent to the model: the system prompt, the examples, then
/// the conversation so far, turn by turn.
pub fn build_llm_messages(session: &SessionState, system_prompt: String, few_shots: Vec<LlmMessage>) -> (r:
    Vec<LlmMessage>)
    ensures
        r@.len() == 1 + few_shots@.len() + session.conversation_history@.len(),
        r@[0].role@ == "system"@,
        r@[0].content@ == system_prompt@,
        r@[0].tool_calls is None,
        r@[0].tool_call_id is None,
        r@.subrange(1, 1 + few_shots@.len() as int) == few_shots@,
        forall|i: int|
            0 <= i < session.conversation_history@.len() ==> message_of_turn(
                #[trigger] r@[1 + few_shots@.len() + i],
                session.conversation_history@[i],
            ),
{
    let mut messages: Vec<LlmMessage> = Vec::new();
    messages.push(
        LlmMessage {
            role: String::from_str("system"),
            content: system_prompt,
            tool_calls: None,
            tool_call_id: None,
        },
    );
    let ghost first = messages@[0];
    let mut shots = few_shots;
    messages.append(&mut shots);
    let base = messages.len();
    let history = &session.conversation_history;
    let mut i: usize = 0;
    while i < history.len()
        invariant
            base == 1 + few_shots@.len(),
            i <= history@.len(),
            messages@.len() == base + i,
            messages@[0] == first,
            messages@.subrange(1, base as int) == few_shots@,
            forall|j: int|
                0 <= j < i ==> message_of_turn(#[trigger] messages@[base + j], history@[j]),
        decreases history@.len() - i,
    {
        let m = turn_message(&history[i]);
        let ghost before = messages@;
        messages.push(m);
        proof {
            assert(messages@.subrange(1, base as int) =~= before.subrange(1, base as int));
        }
        i = i + 1;
    }
    messages
}

/// What to do after a model call or stream failed.
#[derive(Debug, Clone, Copy, PartialEq, Eq, Structural)]
pub enum FailoverStep {
    /// Try again with these counters; `pause` asks for a delay first.
    Retry { failover_count: usize, active_llm_index: usize, pause: bool },
    /// Give up and return the error.
    GiveUp,
}

/// The backend after the active one.
pub open spec fn next_backend(active: usize, backend_count: usize) -> usize {
    ((active + 1) % (backend_count as int)) as usize
}

/// The step after a failure of class `class`: retryable failures are retried
/// until `MAX_BACKEND_FAILOVERS` failovers are spent, moving to the next
/// backend for rate limits and server errors, and pausing once every backend
/// has been tried.
pub open spec fn failover_step(
    class: ErrorClass,
    failover_count: usize,
    active: usize,
    backend_count: usize,
) -> FailoverStep {
    if class.spec_is_retryable() && failover_count < MAX_BACKEND_FAILOVERS {
        FailoverStep::Retry {
            failover_count: (failover_count + 1) as usize,
            active_llm_index: if class.spec_should_rotate_backend() {
                next_backend(active, backend_count)
            } else {
                active
            },
            pause: failover_count + 1 >= backend_count,
        }
    } else {
        FailoverStep::GiveUp
    }
}

/// Decides what follows a failed model call or stream.
pub fn on_backend_error(class: ErrorClass, failover_count: usize, active: usize, backend_count: usize) -> (r:
    FailoverStep)
    requires
        backend_count > 0,
        active < usize::MAX,
    ensures
        r == failover_step(class, failover_count, active, backend_count),
{
    if class.is_retryable() && failover_count < MAX_BACKEND_FAILOVERS {
        let count = failover_count + 1;
        let index = if class.should_rotate_backend() {
            (active + 1) % backend_count
        } else {
            active
        };
        FailoverStep::Retry { failover_count: count, active_llm_index: index, pause: count >= backend_count }
    } else {
        FailoverStep::GiveUp
    }
}

/// What to do after the model sent tool arguments that are not JSON.
#[derive(Debug, Clone, Copy, PartialEq, Eq, Structural)]
pub enum MalformedStep {
    /// Retry the same backend after `delay_secs` seconds.
    RetryAfter { retries: u32, delay_secs: u64 },
    /// Move to another backend.
    Failover { active_llm_index: usize },
    /// Give up with a malformed-output error.
    GiveUp,
}

/// The step after malformed tool arguments: up to `MAX_MALFORMED_RETRIES`
/// retries with waits of 2, then 4 seconds; then the next backend, if the
/// failing one was not the last; then giving up.
pub open spec fn malformed_step(retries: u32, backend_index: usize, active: usize, backend_count: usize) -> MalformedStep {
    if retries < MAX_MALFORMED_RETRIES {
        MalformedStep::RetryAfter {
            retries: (retries + 1) as u32,
            delay_secs: if retries == 0 {
                2
            } else {
                4
            },
        }
    } else if backend_index + 1 < backend_count {
        MalformedStep::Failover { active_llm_index: next_backend(active, backend_count) }
    } else {
        MalformedStep::GiveUp
    }
}

/// Decides what follows malformed tool arguments.
pub fn on_malformed_arguments(retries: u32, backend_index: usize, active: usize, backend_count: usize) -> (r:
    MalformedStep)
    requires
        backend_count > 0,
        active < usize::MAX,
    ensures
        r == malformed_step(retries, backend_index, active, backend_count),
{
    if retries < MAX_MALFORMED_RETRIES {
        let n = retries + 1;
        let delay: u64 = if n == 1 {
            2
        } else {
            4
        };
        MalformedStep::RetryAfter { retries: n, delay_secs: delay }
    } else if backend_index < backend_count - 1 {
        MalformedStep::Failover { active_llm_index: (active + 1) % backend_count }
    } else {
        MalformedStep::GiveUp
    }
}

/// After a stream ended without tool calls: a blank reply moves to the next
/// backend while failovers remain (the new failover count and backend are
/// returned); otherwise the turn finishes.
pub fn on_stream_end(text: &str, failover_count: usize, active: usize, backend_count: usize) -> (r:
    Option<(usize, usize)>)
    requires
        backend_count > 0,
        active < usize::MAX,
    ensures
        r == (if trim(text@).len() == 0 && failover_count < MAX_BACKEND_FAILOVERS {
            Some(((failover_count + 1) as usize, next_backend(active, backend_count)))
        } else {
            None
        }),
{
    let cs = chars_of(text);
    let t = trim_chars(&cs);
    if t.len() == 0 && failover_count < MAX_BACKEND_FAILOVERS {
        Some((failover_count + 1, (active + 1) % backend_count))
    } else {
        None
    }
}

/// Ends a run that used up its turns: the machine fails, and the events to
/// send and the error to return are given.
pub fn turns_exhausted(machine: &mut AgentStateMachine) -> (r: (Vec<UiEvent>, MaleeError))
    ensures
        final(machine).state.view() == StateView::Failed("Agent took too many turns"@),
        emitted(EventView::Error("Agent took too many turns"@), r.0@),
        r.1 == MaleeError::LoopDepthExceeded,
{
    let events = machine.transition(AgentEvent::Error(String::from_str("Agent took too many turns")));
    (events, MaleeError::LoopDepthExceeded)
}

/// Starts the next model turn of a run that has made `turns` turns: while
/// fewer than `MAX_TURN_DEPTH` turns were made, the count goes up by one and
/// the machine starts thinking; after that the run fails as
/// `turns_exhausted` says, with the events to send and the error to return.
pub fn begin_turn(turns: &mut usize, machine: &mut AgentStateMachine) -> (r: Option<(Vec<UiEvent>, MaleeError)>)
    ensures
        *old(turns) < MAX_TURN_DEPTH ==> r is None && *final(turns) == *old(turns) + 1
            && final(machine).state.view() == next_state(old(machine).state.view(), EventView::StartTurn),
        *old(turns) >= MAX_TURN_DEPTH ==> *final(turns) == *old(turns) && final(machine).state.view()
            == StateView::Failed("Agent took too many turns"@) && (r matches Some(x) && emitted(
            EventView::Error("Agent took too many turns"@),
            x.0@,
        ) && x.1 == MaleeError::LoopDepthExceeded),
{
    if *turns < MAX_TURN_DEPTH {
        *turns = *turns + 1;
        machine.transition(AgentEvent::StartTurn);
        None
    } else {
        Some(turns_exhausted(machine))
    }
}

/// Ends a tool call: the machine takes its result, and the session records
/// it as the reply to the call `call_id`.
pub fn end_tool_call(session: &mut SessionState, machine: &mut AgentStateMachine, call_id: &String, content: String)
    ensures
        final(machine).state.view() == next_state(old(machine).state.view(), EventView::ToolResult(content@)),
        only_history_changed(*old(session), *final(session)),
        final(session).conversation_history@.drop_last() == old(session).conversation_history@,
        final(session).conversation_history@.len() == old(session).conversation_history@.len() + 1,
        final(session).conversation_history@.last().role == Role::Tool,
        final(session).conversation_history@.last().content@ == content@,
        final(session).conversation_history@.last().tool_call_id matches Some(i) && i@
            == call_id@,
        final(session).conversation_history@.last().tool_calls is None,
{
    machine.transition(AgentEvent::ReceiveToolResult { result: content.clone() });
    push_tool_result(session, call_id, content);
}

/// The checkout step shown to the client and its name: 4 `Finalize` with a
/// sender, 3 `Sender Details` with a recipient, 2 `Recipient Details` with a
/// delivery, 1 `Delivery Details` otherwise.
pub open spec fn progress_step(d: CheckoutDraft) -> (u32, Seq<char>) {
    if d.sender is Some {
        (4, "Finalize"@)
    } else if d.recipient is Some {
        (3, "Sender Details"@)
    } else if d.delivery is Some {
        (2, "Recipient Details"@)
    } else {
        (1, "Delivery Details"@)
    }
}

/// The checkout step of a draft.
pub fn checkout_progress(d: &CheckoutDraft) -> (r: (u32, String))
    ensures
        r.0 == progress_step(*d).0,
        r.1@ == progress_step(*d).1,
{
    if d.sender.is_some() {
        (4, String::from_str("Finalize"))
    } else if d.recipient.is_some() {
        (3, String::from_str("Sender Details"))
    } else if d.delivery.is_some() {
        (2, String::from_str("Recipient Details"))
    } else {
        (1, String::from_str("Delivery Details"))
    }
}

/// A copy of a list of strings.
fn copy_strings(v: &Vec<String>) -> (r: Vec<String>)
    ensures
        r@ == v@,
{
    let mut r: Vec<String> = Vec::new();
    let mut i: usize = 0;
    while i < v.len()
        invariant
            i <= v@.len(),
            r@ == v@.take(i as int),
        decreases v@.len() - i,
    {
        r.push(v[i].clone());
        i = i + 1;
        proof {
            assert(v@.take(i as int) =~= v@.take(i - 1).push(v@[i - 1]));
        }
    }
    proof {
        assert(v@.take(i as int) =~= v@);
    }
    r
}

/// The tiles for a list of categories.
fn category_views(cs: &Vec<Category>) -> (r: Vec<CategoryView>)
    ensures
        r@.len() == cs@.len(),
        forall|i: int|
            0 <= i < cs@.len() ==> (#[trigger] r@[i]).id@ == cs@[i].id@ && r@[i].name@
                == cs@[i].name@ && r@[i].image_url is None,
{
    let mut r: Vec<CategoryView> = Vec::new();
    let mut i: usize = 0;
    while i < cs.len()
        invariant
            i <= cs@.len(),
            r@.len() == i,
            forall|j: int|
                0 <= j < i ==> (#[trigger] r@[j]).id@ == cs@[j].id@ && r@[j].name@ == cs@[j].name@
                    && r@[j].image_url is None,
        decreases cs@.len() - i,
    {
        r.push(CategoryView { id: cs[i].id.clone(), name: cs[i].name.clone(), image_url: None });
        i = i + 1;
    }
    r
}

/// Whether `v` shows the draft `d`, with the delivery date printed.
pub open spec fn draft_view_matches(v: CheckoutDraftView, d: CheckoutDraft) -> bool {
    &&& v.recipient == d.recipient
    &&& v.sender == d.sender
    &&& v.gift_message == d.gift_message
    &&& v.special_instructions == d.special_instructions
    &&& v.location_type == d.location_type
    &&& match d.delivery {
        Some(x) => (v.delivery_city matches Some(c) && c@ == x.city@) && (v.delivery_date matches Some(
            t,
        ) && t@ == crate::time::ymd_text(x.date.spec_days())),
        None => v.delivery_city is None && v.delivery_date is None,
    }
}

/// The problems that still block the order, as checkout codes.
pub open spec fn missing_fields(s: SessionState, today: int) -> Seq<Seq<char>> {
    checkout_errors(s.checkout_draft, s.cart, today)
}

/// Whether `out` are the client events for a tool result on day `today`:
/// the cart after a cart tool, the checkout progress and form after a
/// checkout tool, the questions, the categories, the city suggestions for
/// `query`, the tracking status; nothing after a profile tool.
pub open spec fn tool_events_match(s: SessionState, res: ToolResult, query: Seq<char>, today: int, out: Seq<UiEvent>) -> bool {
    match res {
        ToolResult::AddToCart { .. } | ToolResult::RemoveFromCart { .. }
        | ToolResult::SetQuantity { .. } | ToolResult::ClearCart => out.len() == 1 && (
        out[0] matches UiEvent::CartUpdated { cart } && cart.items@ == s.cart.items@
            && cart.item_count == s.cart.spec_item_count() && cart.subtotal_lkr
            == s.cart.spec_subtotal_lkr()),
        ToolResult::SetupDelivery | ToolResult::SetupRecipient | ToolResult::SetupSender
        | ToolResult::SetSpecialInstructions | ToolResult::StartCheckout => out.len() == 2 && (out[0] matches UiEvent::CheckoutProgress {
            current_step,
            total_steps,
            step_name,
            missing_fields: m,
        } && current_step == progress_step(s.checkout_draft).0 && total_steps == 4 && step_name@
            == progress_step(s.checkout_draft).1 && strs_view(m@) == missing_fields(s, today)) && (
        out[1] matches UiEvent::CheckoutForm { draft, missing_fields: m } && draft_view_matches(
            draft,
            s.checkout_draft,
        ) && strs_view(m@) == missing_fields(s, today)),
        ToolResult::AskQuestion { questions } => out.len() == 1 && out[0] == (UiEvent::QuestionPrompt {
            questions,
        }),
        ToolResult::ListCategories(cs) => out.len() == 1 && (out[0] matches UiEvent::CategoryGrid {
            categories,
        } && categories@.len() == cs@.len() && forall|i: int|
            0 <= i < cs@.len() ==> (#[trigger] categories@[i]).id@ == cs@[i].id@
                && categories@[i].name@ == cs@[i].name@ && categories@[i].image_url is None),
        ToolResult::ListCities(cities) => out.len() == 1 && out[0] == (UiEvent::CitySuggestions {
            query: out[0]->query,
            cities,
        }) && out[0]->query@ == query,
        ToolResult::TrackOrder { order_number, details } => out.len() == 1 && (
        out[0] matches UiEvent::TrackingResult { order_number: n, status, recipient, items, timeline }
            && n == order_number && status == details.status && recipient == details.recipient.name
            && items@.len() == details.items@.len() && (forall|i: int|
            0 <= i < items@.len() ==> (#[trigger] items@[i])@ == details.items@[i].name@)
            && timeline == details.progress),
        ToolResult::SaveUserFact | ToolResult::UpdateUserProfile => out.len() == 0,
    }
}

/// The client events for a tool result, on day `today`; `query` is the
/// city query the model asked with.
pub fn tool_events(session: &SessionState, res: ToolResult, query: String, today: Day) -> (r: Vec<
    UiEvent,
>)
    requires
        session.cart.spec_item_count() <= u32::MAX,
        prices_fit(session.cart.items@),
    ensures
        tool_events_match(*session, res, query@, today.spec_days(), r@),
{
    let mut out: Vec<UiEvent> = Vec::new();
    match res {
        ToolResult::AddToCart { .. } | ToolResult::RemoveFromCart { .. }
        | ToolResult::SetQuantity { .. } | ToolResult::ClearCart => {
            out.push(UiEvent::CartUpdated { cart: CartView::of_cart(&session.cart) });
        },
        ToolResult::SetupDelivery | ToolResult::SetupRecipient | ToolResult::SetupSender
        | ToolResult::SetSpecialInstructions | ToolResult::StartCheckout => {
            let missing = match validate_on(&session.checkout_draft, &session.cart, today) {
                Ok(_) => {
                    let v: Vec<String> = Vec::new();
                    proof {
                        assert(strs_view(v@) =~= missing_fields(*session, today.spec_days()));
                    }
                    v
                },
                Err(errs) => errs,
            };
            let (step, name) = checkout_progress(&session.checkout_draft);
            let copy = copy_strings(&missing);
            out.push(
                UiEvent::CheckoutProgress {
                    current_step: step,
                    total_steps: 4,
                    step_name: name,
                    missing_fields: copy,
                },
            );
            out.push(
                UiEvent::CheckoutForm {
                    draft: CheckoutDraftView::of_draft(&session.checkout_draft),
                    missing_fields: missing,
                },
            );
        },
        ToolResult::AskQuestion { questions } => {
            out.push(UiEvent::QuestionPrompt { questions });
        },
        ToolResult::ListCategories(cs) => {
            out.push(UiEvent::CategoryGrid { categories: category_views(&cs) });
        },
        ToolResult::ListCities(cities) => {
            out.push(UiEvent::CitySuggestions { query, cities });
        },
        ToolResult::TrackOrder { order_number, details } => {
            let mut items: Vec<String> = Vec::new();
            let mut i: usize = 0;
            while i < details.items.len()
                invariant
                    i <= details.items@.len(),
                    items@.len() == i,
                    forall|j: int| 0 <= j < i ==> (#[trigger] items@[j])@ == details.items@[j].name@,
                decreases details.items@.len() - i,
            {
                items.push(details.items[i].name.clone());
                i = i + 1;
            }
            out.push(
                UiEvent::TrackingResult {
                    order_number,
                    status: details.status,
                    recipient: details.recipient.name,
                    items,
                    timeline: details.progress,
                },
            );
        },
        ToolResult::SaveUserFact | ToolResult::UpdateUserProfile => {},
    }
    out
}

} // verus!
