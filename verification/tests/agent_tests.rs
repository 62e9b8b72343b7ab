use nadzu::error::MaleeError;
use nadzu::models::malee::cart::{CartItem, CartState};
use nadzu::models::malee::checkout::CheckoutDraft;
use nadzu::models::malee::events::UiEvent;
use nadzu::models::malee::profile::{SessionContext, UserProfile};
use nadzu::models::malee::session::{LanguageMode, Role, SessionState, ToolCall};
use nadzu::services::malee::connector::client::{
    content_parse_error, extract_sse_json, interpret_mcp_response, reports_lost_session, retry_after,
};
use nadzu::services::malee::connector::jsonrpc::{McpContent, McpError, McpResponse, McpResult};
use nadzu::services::malee::llm::chunks::{
    ollama_chunk_events, openai_chunk_events, OllamaChunk, OllamaMessage, OllamaToolCall, OpenAiChunk, OpenAiDelta,
    OpenAiToolDelta, StreamEvent,
};
use nadzu::services::malee::llm::client::{chat_request, LlmMessage};
use nadzu::services::malee::llm::loop_::{
    begin_turn, build_llm_messages, checkout_progress, end_tool_call, finish_turn, on_backend_error, on_malformed_arguments,
    on_stream_end, push_user_turn, tool_events, turns_exhausted, FailoverStep, MalformedStep,
};
use nadzu::services::malee::llm::prompt::build_system_prompt;
use nadzu::services::malee::llm::prompt::builder::prompt_context;
use nadzu::services::malee::llm::prompt::examples::get_few_shots;
use nadzu::services::malee::llm::retry::ErrorClass;
use nadzu::services::malee::llm::state_machine::{AgentState, AgentStateMachine};
use nadzu::services::malee::llm::stream::{
    classify_sse_line, ollama_http_error, openai_http_error, take_lines, SseLine, ToolCallAccumulator,
};
use nadzu::services::malee::llm::tool_schemas::all_tool_schemas;
use nadzu::services::malee::llm::tools::{tool_kind, ToolResult};
use nadzu::services::malee::session_store::{session_alive, stamp_for_upsert};
use nadzu::time::Day;

fn day(text: &str) -> Day {
    let date = chrono::NaiveDate::parse_from_str(text, "%Y-%m-%d").expect("a valid date");
    Day::from_days(chrono::Datelike::num_days_from_ce(&date)).expect("a date in range")
}

fn session() -> SessionState {
    SessionState {
        session_id: 1,
        created_at: 0,
        updated_at: 0,
        version: 0,
        language_mode: LanguageMode::Auto,
        conversation_history: vec![],
        user_profile: UserProfile::default(),
        session_context: SessionContext::default(),
        cart: CartState::default(),
        checkout_draft: CheckoutDraft::default(),
        last_products: vec![],
        order_last_created_at: None,
        active_llm_index: 0,
    }
}

fn response(error: Option<McpError>, result: Option<McpResult>) -> McpResponse {
    McpResponse { jsonrpc: "2.0".to_string(), id: Some(1), result, error }
}

#[test]
fn sse_framed_bodies_are_unwrapped() {
    let body = "event: message\r\ndata: data: {\"ok\":true}\r\n\r\n";
    assert_eq!(extract_sse_json(body).unwrap(), "{\"ok\":true}");
    assert_eq!(extract_sse_json("{\"plain\":1}").unwrap(), "{\"plain\":1}");
    assert_eq!(
        extract_sse_json("event: message\nid: 3\n"),
        Err(MaleeError::ConnectorError("Malformed SSE: missing data".to_string()))
    );
}

#[test]
fn mcp_replies_are_judged() {
    let text = McpContent { type_: "text".to_string(), text: "{\"a\":1}".to_string() };
    let ok = response(None, Some(McpResult { content: vec![text], is_error: None }));
    assert_eq!(interpret_mcp_response(ok).unwrap(), "{\"a\":1}");
    let err = response(Some(McpError { code: -32000, message: "boom".to_string() }), None);
    assert_eq!(interpret_mcp_response(err), Err(MaleeError::ConnectorError("boom".to_string())));
    let none = response(None, None);
    assert_eq!(interpret_mcp_response(none), Err(MaleeError::ConnectorError("No result in response".to_string())));
    let flagged = McpContent { type_: "text".to_string(), text: "bad city".to_string() };
    let flagged = response(None, Some(McpResult { content: vec![flagged], is_error: Some(true) }));
    assert_eq!(interpret_mcp_response(flagged), Err(MaleeError::ConnectorError("bad city".to_string())));
    let empty = response(None, Some(McpResult { content: vec![], is_error: Some(false) }));
    assert_eq!(interpret_mcp_response(empty), Err(MaleeError::ConnectorError("No content in result".to_string())));
}

#[test]
fn connector_errors_and_retries() {
    assert_eq!(content_parse_error("No products found", "x"), MaleeError::ConnectorError("No products found".to_string()));
    assert_eq!(
        content_parse_error("hello", "expected value"),
        MaleeError::ConnectorError("Failed to parse content JSON: expected value. Text: hello".to_string())
    );
    assert!(reports_lost_session("{\"error\":\"Session not found\"}"));
    assert_eq!(retry_after(1, 500), Some((500, 1000)));
    assert_eq!(retry_after(3, 2000), Some((2000, 4000)));
    assert_eq!(retry_after(4, 4000), None);
}

#[test]
fn line_framing_keeps_the_tail() {
    let mut buffer = "data: a\n\n  data: b  \r\ndata: c".to_string();
    let lines = take_lines(&mut buffer);
    assert_eq!(lines, vec!["data: a".to_string(), "data: b".to_string()]);
    assert_eq!(buffer, "data: c");
    assert_eq!(classify_sse_line("data: [DONE]"), SseLine::Done);
    assert_eq!(classify_sse_line("data: {}"), SseLine::Data("{}".to_string()));
    assert_eq!(classify_sse_line(": ping"), SseLine::Ignored);
}

#[test]
fn tool_call_fragments_are_assembled() {
    let mut acc = ToolCallAccumulator::new();
    assert!(acc.process_delta(Some("c1".to_string()), Some("add_to_cart".to_string()), Some("{\"a\":".to_string())).is_none());
    assert!(acc.process_delta(None, None, Some("1}".to_string())).is_none());
    let done = acc.process_delta(Some("c2".to_string()), Some("clear_cart".to_string()), None).unwrap();
    assert_eq!(done.id, "c1");
    assert_eq!(done.name, "add_to_cart");
    assert_eq!(done.arguments, "{\"a\":1}");
    assert!(acc.flush().is_none());
    let mut acc = ToolCallAccumulator::new();
    acc.process_delta(Some("c3".to_string()), Some("clear_cart".to_string()), Some("{}".to_string()));
    let last = acc.flush().unwrap();
    assert_eq!(last.id, "c3");
}

#[test]
fn http_errors_of_the_model_clients() {
    assert_eq!(
        openai_http_error(429, "429 Too Many Requests", "llama", ""),
        MaleeError::LlmRateLimited { provider: "llama".to_string(), retry_after_ms: None }
    );
    assert_eq!(
        openai_http_error(500, "500 Internal Server Error", "llama", "oops"),
        MaleeError::LlmError("HTTP 500 Internal Server Error - oops".to_string())
    );
    assert_eq!(ollama_http_error("404 Not Found", "no model"), MaleeError::LlmError("Ollama HTTP 404 Not Found - no model".to_string()));
}

#[test]
fn failover_policy() {
    assert_eq!(
        on_backend_error(ErrorClass::RateLimited, 0, 1, 3),
        FailoverStep::Retry { failover_count: 1, active_llm_index: 2, pause: false }
    );
    assert_eq!(
        on_backend_error(ErrorClass::NetworkError, 1, 1, 2),
        FailoverStep::Retry { failover_count: 2, active_llm_index: 1, pause: true }
    );
    assert_eq!(on_backend_error(ErrorClass::RateLimited, 3, 0, 3), FailoverStep::GiveUp);
    assert_eq!(
        on_backend_error(ErrorClass::MalformedOutput, 0, 0, 3),
        FailoverStep::Retry { failover_count: 1, active_llm_index: 0, pause: false }
    );
    assert_eq!(on_backend_error(ErrorClass::Fatal, 0, 0, 3), FailoverStep::GiveUp);
    assert_eq!(on_malformed_arguments(0, 0, 0, 2), MalformedStep::RetryAfter { retries: 1, delay_secs: 2 });
    assert_eq!(on_malformed_arguments(1, 0, 0, 2), MalformedStep::RetryAfter { retries: 2, delay_secs: 4 });
    assert_eq!(on_malformed_arguments(2, 0, 0, 2), MalformedStep::Failover { active_llm_index: 1 });
    assert_eq!(on_malformed_arguments(2, 1, 1, 2), MalformedStep::GiveUp);
    assert_eq!(on_stream_end("   ", 0, 2, 3), Some((1, 0)));
    assert_eq!(on_stream_end("hi", 0, 2, 3), None);
    assert_eq!(on_stream_end("", 3, 2, 3), None);
}

#[test]
fn turns_are_recorded_and_finished() {
    let mut s = session();
    push_user_turn(&mut s, "hello".to_string());
    let mut sm = AgentStateMachine::new();
    let events = finish_turn(&mut s, &mut sm, "  ".to_string());
    assert_eq!(s.conversation_history.len(), 2);
    assert_eq!(s.conversation_history[0].role, Role::User);
    assert_eq!(
        s.conversation_history[1].content,
        "I'm sorry, I'm having trouble generating a response. Could you please try again?"
    );
    assert!(matches!(&events[0], UiEvent::AssistantMessageDone { .. }));
    let (events, err) = turns_exhausted(&mut sm);
    assert_eq!(err, MaleeError::LoopDepthExceeded);
    assert!(matches!(&events[0], UiEvent::Error { code, .. } if code == "LOOP_DEPTH"));
    assert_eq!(sm.state, AgentState::Failed("Agent took too many turns".to_string()));
}

#[test]
fn messages_for_the_model() {
    let mut s = session();
    push_user_turn(&mut s, "hi".to_string());
    s.conversation_history.push(nadzu::models::malee::session::ConversationTurn {
        role: Role::Assistant,
        content: String::new(),
        tool_call_id: None,
        tool_calls: Some(vec![ToolCall { id: "c1".to_string(), name: "clear_cart".to_string(), arguments: "{}".to_string() }]),
    });
    let shots = get_few_shots();
    let n = shots.len();
    let msgs = build_llm_messages(&s, "SYSTEM".to_string(), shots);
    assert_eq!(msgs.len(), 1 + n + 2);
    assert_eq!(msgs[0].role, "system");
    assert_eq!(msgs[0].content, "SYSTEM");
    assert_eq!(msgs[1 + n].role, "user");
    let calls = msgs[2 + n].tool_calls.as_ref().unwrap();
    assert_eq!(calls[0].type_, "function");
    assert_eq!(calls[0].function.name, "clear_cart");
}

#[test]
fn few_shots_are_a_well_formed_dialogue() {
    let shots: Vec<LlmMessage> = get_few_shots();
    assert_eq!(shots.len(), 12);
    assert_eq!(shots[2].role, "tool");
    assert_eq!(shots[2].tool_call_id.as_deref(), Some("fs_search_1"));
    assert_eq!(shots[4].content, "Add the lily one");
    assert_eq!(shots[6].content, "Added Mixed Lily Arrangement to cart");
    let recipient = &shots[11].tool_calls.as_ref().unwrap()[0];
    assert_eq!(recipient.id, "call_def456");
    assert_eq!(
        recipient.function.arguments,
        "{\"name\": \"Nimali\", \"phone\": \"0771234567\", \"address\": \"No 23, Gemunupura, Kaduwela\"}"
    );
    for m in &shots {
        if let Some(calls) = &m.tool_calls {
            for c in calls {
                assert!(tool_kind(&c.function.name).is_some());
            }
        }
    }
}

#[test]
fn tool_schemas_advertised() {
    let schemas = all_tool_schemas();
    assert_eq!(schemas.len(), 18);
    assert_eq!(schemas[0].function.name, "kapruka_search_products");
    assert_eq!(schemas[2].function.parameters, "{\"type\":\"object\",\"properties\":{}}");
    assert!(schemas[4].function.description.starts_with("Check delivery feasibility"));
    for s in &schemas {
        assert_eq!(s.type_, "function");
        let v: serde_json::Value = serde_json::from_str(&s.function.parameters).expect("schema parameters are JSON");
        assert_eq!(v["type"], "object");
        assert!(tool_kind(&s.function.name).is_some());
    }
}

#[test]
fn system_prompt_lists_context() {
    let mut s = session();
    s.user_profile.recipient_relation = Some("mother".to_string());
    s.user_profile.budget_max_lkr = Some(5000);
    s.user_profile.preferred_delivery_date = Some(day("2026-12-25"));
    s.cart.items.push(CartItem {
        product_id: "FL205".to_string(),
        name: "Lilies".to_string(),
        price_lkr: 4800,
        quantity: 2,
        image_url: None,
        is_perishable: true,
    });
    let p = build_system_prompt(&s);
    assert!(p.starts_with("You are Malee (මලී)"));
    assert!(p.contains("Respond in clear, warm English."));
    assert!(p.contains("Current Session Context:\nRecipient: mother\nBudget Max (LKR): 5000\nPreferred Date: 2026-12-25\nCart Items: 2\nCart Subtotal: 9600 LKR\n\n"));
    assert!(p.ends_with("do not dump these as plain text.\n"));
    s.language_mode = LanguageMode::Mixed;
    assert!(build_system_prompt(&s).contains("Match the customer's warm Sinhala-English mix."));
}

#[test]
fn prompt_template_context() {
    let mut s = session();
    s.user_profile.first_name = Some("Nadun".to_string());
    s.user_profile.city = Some("Colombo".to_string());
    s.user_profile.memories = vec!["Likes orchids".to_string(), "Has a sister".to_string()];
    for i in 0..7 {
        s.cart.items.push(CartItem {
            product_id: format!("p{i}"),
            name: format!("Item{i}"),
            price_lkr: 100,
            quantity: 1,
            image_url: None,
            is_perishable: i == 3,
        });
    }
    let c = prompt_context(&s);
    assert_eq!(c.cart_item_count, 7);
    assert_eq!(c.cart_subtotal, 700);
    assert_eq!(c.cart_items_summary, "Item0, Item1, Item2, Item3, Item4 (+2 more)");
    assert!(c.has_perishable_items);
    assert_eq!(c.checkout_step, 0);
    assert_eq!(c.user_name, "Nadun");
    assert!(c.is_returning_user);
    assert_eq!(c.shipping_address, "Colombo");
    assert_eq!(c.memories, "Likes orchids\n- Has a sister");
    assert_eq!(c.orders, "None");
    assert_eq!(c.preferred_city, "None");
}

#[test]
fn checkout_events_after_tools() {
    let mut s = session();
    s.cart.items.push(CartItem {
        product_id: "p".to_string(),
        name: "Cake".to_string(),
        price_lkr: 1500,
        quantity: 2,
        image_url: None,
        is_perishable: false,
    });
    let today = day("2026-06-01");
    let ev = tool_events(&s, ToolResult::ClearCart, String::new(), today);
    match &ev[0] {
        UiEvent::CartUpdated { cart } => {
            assert_eq!(cart.item_count, 2);
            assert_eq!(cart.subtotal_lkr, 3000);
        }
        _ => panic!("Expected CartUpdated"),
    }
    let ev = tool_events(&s, ToolResult::SetupDelivery, String::new(), today);
    assert_eq!(ev.len(), 2);
    match &ev[0] {
        UiEvent::CheckoutProgress { current_step, total_steps, step_name, missing_fields } => {
            assert_eq!(*current_step, 1);
            assert_eq!(*total_steps, 4);
            assert_eq!(step_name, "Delivery Details");
            assert_eq!(missing_fields, &vec!["recipient.missing", "delivery.missing", "sender.missing"]);
        }
        _ => panic!("Expected CheckoutProgress"),
    }
    assert_eq!(checkout_progress(&s.checkout_draft), (1, "Delivery Details".to_string()));
    let ev = tool_events(&s, ToolResult::StartCheckout, String::new(), today);
    assert_eq!(ev.len(), 2);
    assert!(matches!(&ev[1], UiEvent::CheckoutForm { missing_fields, .. } if missing_fields.len() == 3));
    let ev = tool_events(&s, ToolResult::ListCities(vec!["Colombo".to_string()]), "Col".to_string(), today);
    assert!(matches!(&ev[0], UiEvent::CitySuggestions { query, .. } if query == "Col"));
    assert!(tool_events(&s, ToolResult::SaveUserFact, String::new(), today).is_empty());
}

#[test]
fn sessions_expire_after_two_hours() {
    let mut s = session();
    stamp_for_upsert(&mut s, 500);
    assert_eq!(s.updated_at, 500);
    assert_eq!(s.version, 1);
    s.version = u64::MAX;
    stamp_for_upsert(&mut s, 600);
    assert_eq!(s.version, u64::MAX);
    assert!(session_alive(0, 119 * 60 + 59));
    assert!(!session_alive(0, 120 * 60));
    assert!(session_alive(10_000, 0));
}

#[test]
fn openai_chunks_give_tokens_and_completed_calls() {
    let mut acc = ToolCallAccumulator::new();
    let first = OpenAiChunk {
        error: None,
        deltas: vec![
            Some(OpenAiDelta {
                content: Some("Hi".to_string()),
                tool_calls: vec![OpenAiToolDelta {
                    id: Some("c1".to_string()),
                    name: Some("clear_cart".to_string()),
                    arguments: Some("{".to_string()),
                }],
            }),
            None,
        ],
    };
    let ev = openai_chunk_events(&mut acc, first).unwrap();
    assert_eq!(ev.len(), 1);
    assert!(matches!(&ev[0], StreamEvent::Token(t) if t == "Hi"));
    let second = OpenAiChunk {
        error: None,
        deltas: vec![Some(OpenAiDelta {
            content: Some(String::new()),
            tool_calls: vec![
                OpenAiToolDelta { id: None, name: None, arguments: Some("}".to_string()) },
                OpenAiToolDelta { id: Some("c2".to_string()), name: Some("add_to_cart".to_string()), arguments: None },
            ],
        })],
    };
    let ev = openai_chunk_events(&mut acc, second).unwrap();
    assert_eq!(ev.len(), 1);
    match &ev[0] {
        StreamEvent::Call(c) => {
            assert_eq!(c.id, "c1");
            assert_eq!(c.name, "clear_cart");
            assert_eq!(c.arguments, "{}");
        }
        _ => panic!("Expected a call"),
    }
    let failed = OpenAiChunk { error: Some("{\"message\":\"bad\"}".to_string()), deltas: vec![] };
    assert_eq!(
        openai_chunk_events(&mut acc, failed).unwrap_err(),
        MaleeError::LlmError("{\"message\":\"bad\"}".to_string())
    );
}

#[test]
fn ollama_chunks_give_tokens_calls_and_done() {
    let chunk = OllamaChunk {
        done: Some(false),
        message: Some(OllamaMessage {
            content: Some("Ok".to_string()),
            tool_calls: vec![OllamaToolCall { name: None, arguments: None }],
        }),
    };
    let ev = ollama_chunk_events(chunk, &vec!["id-1".to_string()]);
    assert_eq!(ev.len(), 2);
    assert!(matches!(&ev[0], StreamEvent::Token(t) if t == "Ok"));
    match &ev[1] {
        StreamEvent::Call(c) => {
            assert_eq!(c.id, "id-1");
            assert_eq!(c.name, "");
            assert_eq!(c.arguments, "{}");
        }
        _ => panic!("Expected a call"),
    }
    let done = OllamaChunk { done: Some(true), message: None };
    let ev = ollama_chunk_events(done, &vec![]);
    assert_eq!(ev.len(), 1);
    assert!(matches!(ev[0], StreamEvent::Done));
}

#[test]
fn error_classes_follow_status_codes() {
    assert_eq!(ErrorClass::classify(&MaleeError::LlmError("HTTP 429 Too Many Requests - slow down".to_string())), ErrorClass::RateLimited);
    assert_eq!(ErrorClass::classify(&MaleeError::LlmError("HTTP 503 Service Unavailable - ".to_string())), ErrorClass::TransientServer);
    assert_eq!(ErrorClass::classify(&MaleeError::ConnectorError("Network error: connection refused".to_string())), ErrorClass::NetworkError);
    assert_eq!(ErrorClass::classify(&MaleeError::LlmError("HTTP 401 Unauthorized - bad key".to_string())), ErrorClass::Fatal);
    assert_eq!(ErrorClass::classify(&MaleeError::LlmError("HTTP 400 Bad Request - invalid model".to_string())), ErrorClass::Fatal);
}

#[test]
fn a_run_makes_at_most_six_turns() {
    let mut machine = AgentStateMachine::new();
    let mut turns: usize = 0;
    for _ in 0..6 {
        assert!(begin_turn(&mut turns, &mut machine).is_none());
    }
    assert_eq!(turns, 6);
    let (events, err) = begin_turn(&mut turns, &mut machine).unwrap();
    assert_eq!(err, MaleeError::LoopDepthExceeded);
    assert_eq!(events.len(), 1);
    assert_eq!(turns, 6);
}

#[test]
fn tool_results_are_recorded() {
    let mut s = session();
    let mut machine = AgentStateMachine::new();
    end_tool_call(&mut s, &mut machine, &"c1".to_string(), "Cleared cart".to_string());
    let last = s.conversation_history.last().unwrap();
    assert_eq!(last.role, Role::Tool);
    assert_eq!(last.content, "Cleared cart");
    assert_eq!(last.tool_call_id.as_deref(), Some("c1"));
}

#[test]
fn chat_requests() {
    let r = chat_request("m", vec![], all_tool_schemas(), true);
    assert_eq!(r.model, "m");
    assert!(r.stream);
    assert_eq!(r.tools.as_ref().map(|t| t.len()), Some(18));
    assert_eq!(r.tool_choice.as_deref(), Some("auto"));
    let r = chat_request("m", vec![], all_tool_schemas(), false);
    assert!(r.tool_choice.is_none());
    let r = chat_request("m", vec![], vec![], true);
    assert!(r.tools.is_none());
    assert!(r.tool_choice.is_none());
}
