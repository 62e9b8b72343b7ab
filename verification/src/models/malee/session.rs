//! A Malee conversation session.
use vstd::prelude::*;
use crate::models::malee::cart::CartState;
use crate::models::malee::checkout::CheckoutDraft;
use crate::models::malee::events::ProductCardView;
use crate::models::malee::profile::{SessionContext, UserProfile};

verus! {

/// The language the agent answers in.
#[derive(Debug, Clone, Copy, PartialEq, Eq, Structural)]
pub enum LanguageMode {
    Auto,
    English,
    Sinhala,
    Mixed,
}

/// Who spoke a turn.
#[derive(Debug, Clone, Copy, PartialEq, Eq, Structural)]
pub enum Role {
    User,
    Assistant,
    Tool,
}

/// A tool call the model asked for; `arguments` is JSON text.
#[derive(Debug, Clone)]
pub struct ToolCall {
    pub id: String,
    pub name: String,
    pub arguments: String,
}

/// One turn of the conversation.
#[derive(Debug, Clone)]
pub struct ConversationTurn {
    pub role: Role,
    pub content: String,
    pub tool_call_id: Option<String>,
    pub tool_calls: Option<Vec<ToolCall>>,
}

/// Everything the agent keeps about one shopper's conversation.
///
/// Instants are seconds since the Unix epoch.
#[derive(Debug, Clone)]
pub struct SessionState {
    pub session_id: u128,
    pub created_at: i64,
    pub updated_at: i64,
    pub version: u64,
    pub language_mode: LanguageMode,
    pub conversation_history: Vec<ConversationTurn>,
    pub user_profile: UserProfile,
    pub session_context: SessionContext,
    pub cart: CartState,
    pub checkout_draft: CheckoutDraft,
    pub last_products: Vec<ProductCardView>,
    /// When the last order was placed, in nanoseconds since the Unix epoch.
    pub order_last_created_at: Option<i64>,
    pub active_llm_index: usize,
}

} // verus!
