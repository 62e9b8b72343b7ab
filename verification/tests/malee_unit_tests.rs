use nadzu::models::malee::cart::{CartItem, CartState};
use nadzu::models::malee::checkout::CheckoutDraft;
use nadzu::models::malee::events::UiEvent;
use nadzu::services::malee::cart::reducer::{reduce, CartAction};
use nadzu::services::malee::checkout::validate::validate;
use nadzu::services::malee::language::normalize::normalize;
use nadzu::services::malee::llm::pool::{LlmBackendConfig, LlmProvider};
use nadzu::services::malee::llm::state_machine::{AgentEvent, AgentState, AgentStateMachine};
use nadzu::services::malee::sse::parser::parse_sse_line;

#[test]
fn test_add_item() {
    let state = CartState::default();
    let action = CartAction::AddItem {
        product: CartItem {
            product_id: "p1".to_string(),
            name: "Test".to_string(),
            price_lkr: 1000,
            quantity: 1,
            image_url: None,
            is_perishable: false,
        },
    };
    let new_state = reduce(state, action, 10).unwrap();
    assert_eq!(new_state.items.len(), 1);
    assert_eq!(new_state.items[0].quantity, 1);
}

#[test]
fn test_validate_empty() {
    let draft = CheckoutDraft::default();
    let cart = CartState::default();
    let res = validate(&draft, &cart);
    assert!(res.is_err());
}

#[test]
fn malee_unit_tests_test_normalize_budget() {
    let hints = normalize("gift for amma under 5000 in colombo");
    assert_eq!(hints.inferred_recipient.as_deref(), Some("mother"));
    assert_eq!(hints.inferred_budget_max_lkr, Some(5000));
    assert_eq!(hints.inferred_city_hint.as_deref(), Some("colombo"));
}

#[test]
fn normalize_test_normalize_budget() {
    let hints = normalize("gift for amma under 5000 in colombo");
    assert_eq!(hints.inferred_recipient.as_deref(), Some("mother"));
    assert_eq!(hints.inferred_budget_max_lkr, Some(5000));
    assert_eq!(hints.inferred_city_hint.as_deref(), Some("colombo"));
}

#[test]
fn test_parse_pool_with_escaping() {
    let pool_str =
        "groq:llama-3.3-70b-versatile:key1; ollama:gemma::2b:key2:none@http://localhost:11434";
    let configs = LlmBackendConfig::parse_pool(pool_str).expect("pool parses");

    assert_eq!(configs.len(), 2);

    assert_eq!(configs[0].provider, LlmProvider::Groq);
    assert_eq!(configs[0].model, "llama-3.3-70b-versatile");
    assert_eq!(configs[0].api_key, "key1");
    assert_eq!(configs[0].prompt_profile, "default");
    assert!(configs[0].endpoint.is_none());

    assert_eq!(configs[1].provider, LlmProvider::Ollama);
    assert_eq!(configs[1].model, "gemma:2b");
    assert_eq!(configs[1].api_key, "key2");
    assert_eq!(configs[1].prompt_profile, "none");
    assert_eq!(
        configs[1].endpoint,
        Some("http://localhost:11434".to_string())
    );
}

#[test]
fn test_parse_pool_multiple_escapes() {
    let pool_str = "ollama:model::with::multiple::colons:key:profile@url";
    let configs = LlmBackendConfig::parse_pool(pool_str).expect("pool parses");

    assert_eq!(configs[0].model, "model:with:multiple:colons");
}

#[test]
fn test_initial_state() {
    let sm = AgentStateMachine::new();
    assert_eq!(sm.state, AgentState::Initialized);
}

#[test]
fn test_start_turn_transition() {
    let mut sm = AgentStateMachine::new();
    let events = sm.transition(AgentEvent::StartTurn);
    assert!(events.is_empty());
    assert_eq!(sm.state, AgentState::Thinking);
}

#[test]
fn test_streaming_tokens() {
    let mut sm = AgentStateMachine::new();
    sm.transition(AgentEvent::StartTurn);

    let events1 = sm.transition(AgentEvent::ReceiveToken("Hello".to_string()));
    assert_eq!(events1.len(), 1);
    if let UiEvent::Token { text } = &events1[0] {
        assert_eq!(text, "Hello");
    } else {
        panic!("Expected UiEvent::Token");
    }
    assert_eq!(
        sm.state,
        AgentState::StreamingResponse {
            text: "Hello".to_string()
        }
    );

    let events2 = sm.transition(AgentEvent::ReceiveToken(" World".to_string()));
    assert_eq!(events2.len(), 1);
    if let UiEvent::Token { text } = &events2[0] {
        assert_eq!(text, " World");
    } else {
        panic!("Expected UiEvent::Token");
    }
    assert_eq!(
        sm.state,
        AgentState::StreamingResponse {
            text: "Hello World".to_string()
        }
    );
}

#[test]
fn test_tool_calling_flow() {
    let mut sm = AgentStateMachine::new();
    sm.transition(AgentEvent::StartTurn);

    let args: serde_json::Value = serde_json::from_str(r#"{"item": "apple"}"#).unwrap();
    let events1 = sm.transition(AgentEvent::CallTool {
        name: "add_to_cart".to_string(),
        args: args.clone(),
    });
    assert!(events1.is_empty());
    assert_eq!(
        sm.state,
        AgentState::ToolExecuting {
            tool_name: "add_to_cart".to_string(),
            arguments: args,
        }
    );

    let events2 = sm.transition(AgentEvent::ReceiveToolResult {
        result: "Success".to_string(),
    });
    assert!(events2.is_empty());
    assert_eq!(
        sm.state,
        AgentState::ToolExecuted {
            tool_name: "add_to_cart".to_string(),
            result: "Success".to_string(),
        }
    );

    sm.transition(AgentEvent::StartTurn);
    assert_eq!(sm.state, AgentState::Thinking);
}

#[test]
fn test_finish_turn() {
    let mut sm = AgentStateMachine::new();
    sm.transition(AgentEvent::StartTurn);
    sm.transition(AgentEvent::ReceiveToken("Done".to_string()));
    let events = sm.transition(AgentEvent::FinishTurn("Done".to_string()));
    assert_eq!(events.len(), 1);
    if let UiEvent::AssistantMessageDone { full_text } = &events[0] {
        assert_eq!(full_text, "Done");
    } else {
        panic!("Expected UiEvent::AssistantMessageDone");
    }
    assert_eq!(
        sm.state,
        AgentState::Completed {
            final_text: "Done".to_string()
        }
    );
}

#[test]
fn test_error_transition() {
    let mut sm = AgentStateMachine::new();
    let events = sm.transition(AgentEvent::Error("Agent took too many turns".to_string()));
    assert_eq!(events.len(), 1);
    if let UiEvent::Error {
        code,
        message,
        recoverable,
    } = &events[0]
    {
        assert_eq!(code, "LOOP_DEPTH");
        assert_eq!(message, "Agent took too many turns");
        assert!(recoverable);
    } else {
        panic!("Expected UiEvent::Error");
    }
    assert_eq!(
        sm.state,
        AgentState::Failed("Agent took too many turns".to_string())
    );
}

#[test]
fn test_streaming_tokens_in_place_optimization() {
    let mut sm = AgentStateMachine::new();
    sm.transition(AgentEvent::StartTurn);

    sm.transition(AgentEvent::ReceiveToken("First".to_string()));
    if let AgentState::StreamingResponse { text } = &sm.state {
        assert_eq!(text, "First");
    } else {
        panic!("Expected StreamingResponse");
    }

    sm.transition(AgentEvent::ReceiveToken("Second".to_string()));
    if let AgentState::StreamingResponse { text } = &sm.state {
        assert_eq!(text, "FirstSecond");
    } else {
        panic!("Expected StreamingResponse");
    }
}

#[test]
fn test_parse_sse_line_standard() {
    assert_eq!(parse_sse_line("data: hello"), Some("hello"));
    assert_eq!(parse_sse_line("data:  trimmed "), Some("trimmed"));
}

#[test]
fn test_parse_sse_line_done() {
    assert_eq!(parse_sse_line("data: [DONE]"), Some("[DONE]"));
}

#[test]
fn test_parse_sse_line_invalid() {
    assert_eq!(parse_sse_line("event: message"), None);
    assert_eq!(parse_sse_line("data:[DONE]"), None);
}
