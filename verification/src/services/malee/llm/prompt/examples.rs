//! Example dialogues shown to the model before the conversation.
use vstd::prelude::*;
use crate::services::malee::connector::tools::{TOOL_ADD_TO_CART, TOOL_SEARCH_PRODUCTS};
use crate::services::malee::llm::client::{LlmFunctionCall, LlmMessage, LlmToolCall};
use crate::services::malee::llm::tools::{tool_name, ToolKind, TOOL_ASK_QUESTION, TOOL_SETUP_RECIPIENT};

verus! {

/// The tool calls of a message.
pub open spec fn calls_of(m: LlmMessage) -> Seq<LlmToolCall> {
    match m.tool_calls {
        Some(v) => v@,
        None => Seq::empty(),
    }
}

/// Whether a message before position `i` made a tool call with id `id`.
pub open spec fn call_made_before(ms: Seq<LlmMessage>, i: int, id: Seq<char>) -> bool {
    exists|j: int, k: int|
        0 <= j < i && 0 <= k < calls_of(ms[j]).len() && (#[trigger] calls_of(ms[j])[k]).id@ == id
}

/// A dialogue the model can learn from: only the assistant calls tools,
/// every call is a `function` call of a tool the agent knows, and every tool
/// reply answers a call made earlier.
pub open spec fn dialogue_well_formed(ms: Seq<LlmMessage>) -> bool {
    forall|i: int|
        0 <= i < ms.len() ==> {
            &&& (#[trigger] ms[i]).tool_calls is Some ==> ms[i].role@ == "assistant"@
            &&& forall|k: int|
                0 <= k < calls_of(ms[i]).len() ==> (#[trigger] calls_of(ms[i])[k]).type_@
                    == "function"@ && exists|t: ToolKind|
                    tool_name(t) == calls_of(ms[i])[k].function.name@
            &&& ms[i].role@ == "tool"@ ==> ms[i].tool_call_id is Some && call_made_before(
                ms,
                i,
                ms[i].tool_call_id->0@,
            )
        }
}

/// The speakers of the examples, in order.
pub open spec fn few_shot_roles() -> Seq<Seq<char>> {
    seq!["user"@, "assistant"@, "tool"@, "assistant"@, "user"@, "assistant"@, "tool"@, "assistant"@, "user"@, "assistant"@, "user"@, "assistant"@]
}

fn plain(role: &str, content: &str) -> (m: LlmMessage)
    ensures
        m.role@ == role@,
        m.content@ == content@,
        m.tool_calls is None,
        m.tool_call_id is None,
{
    LlmMessage {
        role: String::from_str(role),
        content: String::from_str(content),
        tool_calls: None,
        tool_call_id: None,
    }
}

fn assistant_call(content: &str, id: &str, name: &str, arguments: &str) -> (m: LlmMessage)
    ensures
        m.role@ == "assistant"@,
        m.content@ == content@,
        m.tool_call_id is None,
        calls_of(m).len() == 1,
        m.tool_calls is Some,
        calls_of(m)[0].id@ == id@,
        calls_of(m)[0].type_@ == "function"@,
        calls_of(m)[0].function.name@ == name@,
        calls_of(m)[0].function.arguments@ == arguments@,
{
    let call = LlmToolCall {
        id: String::from_str(id),
        type_: String::from_str("function"),
        function: LlmFunctionCall {
            name: String::from_str(name),
            arguments: String::from_str(arguments),
        },
    };
    let mut calls: Vec<LlmToolCall> = Vec::new();
    calls.push(call);
    LlmMessage {
        role: String::from_str("assistant"),
        content: String::from_str(content),
        tool_calls: Some(calls),
        tool_call_id: None,
    }
}

fn tool_reply(content: &str, id: &str) -> (m: LlmMessage)
    ensures
        m.role@ == "tool"@,
        m.content@ == content@,
        m.tool_calls is None,
        m.tool_call_id matches Some(t) && t@ == id@,
{
    LlmMessage {
        role: String::from_str("tool"),
        content: String::from_str(content),
        tool_calls: None,
        tool_call_id: Some(String::from_str(id)),
    }
}

/// The shopper asks for a birthday gift.
pub const FEW_SHOT_GIFT_REQUEST: &'static str = "I need a birthday gift for my mom. She loves flowers. Budget around 5000 LKR.";

/// The search the assistant runs for it.
pub const FEW_SHOT_SEARCH_ARGS: &'static str = "{\"q\": \"flower bouquet birthday\", \"max_price\": 5000}";

/// What the search finds.
pub const FEW_SHOT_SEARCH_RESULT: &'static str = "[{\"id\":\"FL101\",\"name\":\"Pink Rose Bouquet\",\"price_info\":{\"amount\":3500,\"currency\":\"LKR\"},\"in_stock\":true,\"image_url\":\"https://img.example.com/fl101.jpg\"},{\"id\":\"FL205\",\"name\":\"Mixed Lily Arrangement\",\"price_info\":{\"amount\":4800,\"currency\":\"LKR\"},\"in_stock\":true,\"image_url\":\"https://img.example.com/fl205.jpg\"},{\"id\":\"FL310\",\"name\":\"Orchid Elegance Box\",\"price_info\":{\"amount\":4200,\"currency\":\"LKR\"},\"in_stock\":true,\"image_url\":\"https://img.example.com/fl310.jpg\"}]";

/// The assistant comments on the results.
pub const FEW_SHOT_SUGGESTION: &'static str = "Here are some lovely options for your mom's birthday! The Mixed Lily Arrangement (Rs. 4,800) is a beautiful choice — lilies symbolize devotion, which feels just right for amma. Would you like to take a closer look at any of these, or shall I add one to your cart?";

/// The shopper picks one.
pub const FEW_SHOT_ADD_REQUEST: &'static str = "Add the lily one";

/// The cart line, with the data the search returned.
pub const FEW_SHOT_CART_ARGS: &'static str = "{\"product_id\": \"FL205\", \"name\": \"Mixed Lily Arrangement\", \"price_lkr\": 4800, \"quantity\": 1, \"image_url\": \"https://img.example.com/fl205.jpg\", \"is_perishable\": true}";

/// What adding it answers.
pub const FEW_SHOT_CART_RESULT: &'static str = "Added Mixed Lily Arrangement to cart";

/// The assistant confirms and looks ahead to delivery.
pub const FEW_SHOT_CART_REPLY: &'static str = "Done! Mixed Lily Arrangement (Rs. 4,800) is in your cart. Since these are fresh flowers, I'll need to confirm the delivery city and date when you're ready. Want to add anything else, or shall we proceed to checkout?";

/// The shopper asks to check out.
pub const FEW_SHOT_CHECKOUT_REQUEST: &'static str = "Let's checkout";

/// The assistant introduces its questions.
pub const FEW_SHOT_ASK_INTRO: &'static str = "Let's get this beautiful gift on its way! First, I need the delivery details.";

/// The delivery questions put to the shopper.
pub const FEW_SHOT_ASK_ARGS: &'static str = "{\"questions\": [{\"field\": \"delivery_city\", \"label\": \"Which city should we deliver to?\", \"input_type\": \"text\", \"placeholder\": \"e.g., Colombo, Kandy, Galle\"}, {\"field\": \"delivery_date\", \"label\": \"When should it arrive?\", \"input_type\": \"date\"}]}";

/// The shopper gives the recipient.
pub const FEW_SHOT_RECIPIENT_MESSAGE: &'static str = "Recipient is Nimali, phone 0771234567, address is No 23, Gemunupura, Kaduwela";

/// The assistant confirms the recipient.
pub const FEW_SHOT_RECIPIENT_REPLY: &'static str = "Got it! I've saved Nimali's details for delivery to Gemunupura, Kaduwela.";

/// The recipient as recorded.
pub const FEW_SHOT_RECIPIENT_ARGS: &'static str = "{\"name\": \"Nimali\", \"phone\": \"0771234567\", \"address\": \"No 23, Gemunupura, Kaduwela\"}";

/// The texts of the examples, in order.
pub open spec fn few_shot_contents() -> Seq<Seq<char>> {
    seq![FEW_SHOT_GIFT_REQUEST@, ""@, FEW_SHOT_SEARCH_RESULT@, FEW_SHOT_SUGGESTION@, FEW_SHOT_ADD_REQUEST@, ""@, FEW_SHOT_CART_RESULT@, FEW_SHOT_CART_REPLY@, FEW_SHOT_CHECKOUT_REQUEST@, FEW_SHOT_ASK_INTRO@, FEW_SHOT_RECIPIENT_MESSAGE@, FEW_SHOT_RECIPIENT_REPLY@]
}

/// The tool call of example `i`, as id, tool name and arguments.
pub open spec fn few_shot_call(i: int) -> Option<(Seq<char>, Seq<char>, Seq<char>)> {
    if i == 1 {
        Some(("fs_search_1"@, TOOL_SEARCH_PRODUCTS@, FEW_SHOT_SEARCH_ARGS@))
    } else if i == 5 {
        Some(("fs_cart_1"@, TOOL_ADD_TO_CART@, FEW_SHOT_CART_ARGS@))
    } else if i == 9 {
        Some(("fs_ask_1"@, TOOL_ASK_QUESTION@, FEW_SHOT_ASK_ARGS@))
    } else if i == 11 {
        Some(("call_def456"@, TOOL_SETUP_RECIPIENT@, FEW_SHOT_RECIPIENT_ARGS@))
    } else {
        None
    }
}

/// The call that example `i` answers, for the tool replies.
pub open spec fn few_shot_reply_to(i: int) -> Option<Seq<char>> {
    if i == 2 {
        Some("fs_search_1"@)
    } else if i == 6 {
        Some("fs_cart_1"@)
    } else {
        None
    }
}

/// Whether message `m` is example `i`: its text, its tool call and the call
/// it answers.
pub open spec fn is_few_shot(m: LlmMessage, i: int) -> bool {
    &&& m.content@ == few_shot_contents()[i]
    &&& match few_shot_call(i) {
        Some(c) => m.tool_calls is Some && calls_of(m).len() == 1 && calls_of(m)[0].id@ == c.0
            && calls_of(m)[0].type_@ == "function"@ && calls_of(m)[0].function.name@ == c.1
            && calls_of(m)[0].function.arguments@ == c.2,
        None => m.tool_calls is None,
    }
    &&& match few_shot_reply_to(i) {
        Some(id) => m.tool_call_id matches Some(t) && t@ == id,
        None => m.tool_call_id is None,
    }
}

/// Returns few-shot examples that teach the model its habits: call a tool at
/// once and comment warmly on the result, add to the cart with the data the
/// search returned, collect checkout data with `ask_question`, and accept
/// ordinary addresses.
pub fn get_few_shots() -> (v: Vec<LlmMessage>)
    ensures
        v@.len() == 12,
        forall|i: int|
            0 <= i < v@.len() ==> (#[trigger] v@[i]).role@ == few_shot_roles()[i] && is_few_shot(v@[i], i),
        dialogue_well_formed(v@),
{
    let mut v: Vec<LlmMessage> = Vec::new();
    v.push(plain("user", FEW_SHOT_GIFT_REQUEST));
    v.push(assistant_call("", "fs_search_1", TOOL_SEARCH_PRODUCTS, FEW_SHOT_SEARCH_ARGS));
    v.push(tool_reply(FEW_SHOT_SEARCH_RESULT, "fs_search_1"));
    v.push(plain("assistant", FEW_SHOT_SUGGESTION));
    v.push(plain("user", FEW_SHOT_ADD_REQUEST));
    v.push(assistant_call("", "fs_cart_1", TOOL_ADD_TO_CART, FEW_SHOT_CART_ARGS));
    v.push(tool_reply(FEW_SHOT_CART_RESULT, "fs_cart_1"));
    v.push(plain("assistant", FEW_SHOT_CART_REPLY));
    v.push(plain("user", FEW_SHOT_CHECKOUT_REQUEST));
    v.push(assistant_call(FEW_SHOT_ASK_INTRO, "fs_ask_1", TOOL_ASK_QUESTION, FEW_SHOT_ASK_ARGS));
    v.push(plain("user", FEW_SHOT_RECIPIENT_MESSAGE));
    v.push(assistant_call(FEW_SHOT_RECIPIENT_REPLY, "call_def456", TOOL_SETUP_RECIPIENT, FEW_SHOT_RECIPIENT_ARGS));
    proof {
        reveal_strlit("user");
        reveal_strlit("assistant");
        reveal_strlit("tool");
        reveal_strlit("function");
        assert("tool"@[0] == 't');
        assert("user"@[0] == 'u');
        assert("assistant"@[0] == 'a');
        assert(v@[0].role@ != "tool"@);
        assert(v@[1].role@ != "tool"@);
        assert(v@[2].tool_call_id is Some);
        assert(v@[3].role@ != "tool"@);
        assert(v@[4].role@ != "tool"@);
        assert(v@[5].role@ != "tool"@);
        assert(v@[6].tool_call_id is Some);
        assert(v@[7].role@ != "tool"@);
        assert(v@[8].role@ != "tool"@);
        assert(v@[9].role@ != "tool"@);
        assert(v@[10].role@ != "tool"@);
        assert(v@[11].role@ != "tool"@);
        assert(tool_name(ToolKind::SearchProducts) == calls_of(v@[1])[0].function.name@);
        assert(tool_name(ToolKind::AddToCart) == calls_of(v@[5])[0].function.name@);
        assert(tool_name(ToolKind::AskQuestion) == calls_of(v@[9])[0].function.name@);
        assert(tool_name(ToolKind::SetupRecipient) == calls_of(v@[11])[0].function.name@);
        assert(calls_of(v@[1])[0].id@ == v@[2].tool_call_id->0@);
        assert(call_made_before(v@, 2, v@[2].tool_call_id->0@));
        assert(calls_of(v@[5])[0].id@ == v@[6].tool_call_id->0@);
        assert(call_made_before(v@, 6, v@[6].tool_call_id->0@));
    }
    v
}

} // verus!
