//! The tool schemas advertised to the model.
use vstd::prelude::*;
use crate::services::malee::connector::tools::{
    TOOL_ADD_TO_CART, TOOL_CHECK_DELIVERY, TOOL_CLEAR_CART, TOOL_CREATE_ORDER, TOOL_GET_PRODUCT,
    TOOL_LIST_CATEGORIES, TOOL_LIST_CITIES, TOOL_REMOVE_FROM_CART, TOOL_SAVE_USER_FACT,
    TOOL_SEARCH_PRODUCTS, TOOL_SETUP_DELIVERY, TOOL_SET_QUANTITY, TOOL_TRACK_ORDER,
    TOOL_UPDATE_USER_PROFILE,
};
use crate::services::malee::llm::client::{ToolFunctionSchema, ToolSchema};
use crate::services::malee::llm::tools::{
    tool_name, ToolKind, TOOL_ASK_QUESTION, TOOL_SETUP_RECIPIENT, TOOL_SETUP_SENDER, TOOL_SET_SPECIAL_INSTRUCTIONS,
    TOOL_START_CHECKOUT,
};

verus! {

/// The names of the advertised tools, in the order they are listed.
pub open spec fn advertised_tools() -> Seq<Seq<char>> {
    seq![TOOL_SEARCH_PRODUCTS@, TOOL_GET_PRODUCT@, TOOL_LIST_CATEGORIES@, TOOL_LIST_CITIES@, TOOL_CHECK_DELIVERY@, TOOL_ADD_TO_CART@, TOOL_REMOVE_FROM_CART@, TOOL_SET_QUANTITY@, TOOL_CLEAR_CART@, TOOL_SETUP_DELIVERY@, TOOL_SETUP_RECIPIENT@, TOOL_SETUP_SENDER@, TOOL_SET_SPECIAL_INSTRUCTIONS@, TOOL_CREATE_ORDER@, TOOL_START_CHECKOUT@, TOOL_SAVE_USER_FACT@, TOOL_UPDATE_USER_PROFILE@, TOOL_TRACK_ORDER@]
}

/// What the model is told `search_products` does.
pub const SEARCH_PRODUCTS_DESCRIPTION: &'static str = "Search the product catalog. Use descriptive English keywords. Combine with category or price filters when the user specifies budget or product type.";

/// The JSON Schema of `search_products`'s parameters.
pub const SEARCH_PRODUCTS_PARAMETERS: &'static str = "{\"type\":\"object\",\"properties\":{\"q\":{\"type\":\"string\",\"description\":\"Search query in English. Use descriptive terms (e.g., 'flower bouquet birthday' not 'gift for amma').\"},\"category\":{\"type\":\"string\",\"description\":\"Category slug from kapruka_list_categories results.\"},\"min_price\":{\"type\":\"number\",\"description\":\"Minimum price in LKR.\"},\"max_price\":{\"type\":\"number\",\"description\":\"Maximum price in LKR. Set from user's budget.\"},\"limit\":{\"type\":\"integer\",\"description\":\"Max results to return. Default 8, use 3-5 for focused recommendations.\"}}}";

/// What the model is told `get_product` does.
pub const GET_PRODUCT_DESCRIPTION: &'static str = "Fetch full details for a specific product. Use when the user asks about a particular item or you need to check perishable status before adding to cart.";

/// The JSON Schema of `get_product`'s parameters.
pub const GET_PRODUCT_PARAMETERS: &'static str = "{\"type\":\"object\",\"properties\":{\"product_id\":{\"type\":\"string\",\"description\":\"Product ID from a prior search result.\"}},\"required\":[\"product_id\"]}";

/// What the model is told `list_categories` does.
pub const LIST_CATEGORIES_DESCRIPTION: &'static str = "List all product categories. Use when the user browses without a specific idea or asks 'what do you have?'.";

/// The JSON Schema of `list_categories`'s parameters.
pub const LIST_CATEGORIES_PARAMETERS: &'static str = "{\"type\":\"object\",\"properties\":{}}";

/// What the model is told `list_cities` does.
pub const LIST_CITIES_DESCRIPTION: &'static str = "Search for deliverable Sri Lankan cities. Use to validate a city name before setup_delivery, or when user asks 'do you deliver to X?'.";

/// The JSON Schema of `list_cities`'s parameters.
pub const LIST_CITIES_PARAMETERS: &'static str = "{\"type\":\"object\",\"properties\":{\"query\":{\"type\":\"string\",\"description\":\"City name or partial match (e.g., 'Col' for Colombo).\"},\"limit\":{\"type\":\"integer\",\"description\":\"Max results. Default 10.\"}}}";

/// What the model is told `check_delivery` does.
pub const CHECK_DELIVERY_DESCRIPTION: &'static str = "Check delivery feasibility and shipping rate for a city+date combination. Both city and date are required — ask the user if either is missing. Do NOT guess.";

/// The JSON Schema of `check_delivery`'s parameters.
pub const CHECK_DELIVERY_PARAMETERS: &'static str = "{\"type\":\"object\",\"properties\":{\"city\":{\"type\":\"string\",\"description\":\"Canonical city name from kapruka_list_delivery_cities.\"},\"date\":{\"type\":\"string\",\"description\":\"Delivery date in YYYY-MM-DD format. Must be today or future.\"},\"product_id\":{\"type\":\"string\",\"description\":\"Product ID to check perishable delivery constraints. Optional.\"}},\"required\":[\"city\",\"date\"]}";

/// What the model is told `add_to_cart` does.
pub const ADD_TO_CART_DESCRIPTION: &'static str = "Add a product to the cart. PREREQUISITE: product_id and price_lkr MUST come from a prior kapruka_search_products or kapruka_get_product result. Never fabricate these values.";

/// The JSON Schema of `add_to_cart`'s parameters.
pub const ADD_TO_CART_PARAMETERS: &'static str = "{\"type\":\"object\",\"properties\":{\"product_id\":{\"type\":\"string\",\"description\":\"Exact product ID from search/get_product result.\"},\"name\":{\"type\":\"string\",\"description\":\"Product display name from search/get_product result.\"},\"price_lkr\":{\"type\":\"integer\",\"description\":\"Price in LKR from search/get_product result. Do NOT estimate.\"},\"quantity\":{\"type\":\"integer\",\"description\":\"Number of units. Defaults to 1.\",\"default\":1},\"image_url\":{\"type\":\"string\",\"description\":\"Product image URL from search result.\"},\"is_perishable\":{\"type\":\"boolean\",\"description\":\"True for flowers, cakes, fresh food. Check via get_product if unsure.\",\"default\":false}},\"required\":[\"product_id\",\"name\",\"price_lkr\"]}";

/// What the model is told `remove_from_cart` does.
pub const REMOVE_FROM_CART_DESCRIPTION: &'static str = "Remove a specific product from the cart by its product_id.";

/// The JSON Schema of `remove_from_cart`'s parameters.
pub const REMOVE_FROM_CART_PARAMETERS: &'static str = "{\"type\":\"object\",\"properties\":{\"product_id\":{\"type\":\"string\",\"description\":\"ID of the product to remove.\"}},\"required\":[\"product_id\"]}";

/// What the model is told `set_quantity` does.
pub const SET_QUANTITY_DESCRIPTION: &'static str = "Update the quantity of a cart item. Set to 0 to remove it.";

/// The JSON Schema of `set_quantity`'s parameters.
pub const SET_QUANTITY_PARAMETERS: &'static str = "{\"type\":\"object\",\"properties\":{\"product_id\":{\"type\":\"string\",\"description\":\"ID of the product in cart.\"},\"quantity\":{\"type\":\"integer\",\"description\":\"New quantity. 0 removes the item.\"}},\"required\":[\"product_id\",\"quantity\"]}";

/// What the model is told `clear_cart` does.
pub const CLEAR_CART_DESCRIPTION: &'static str = "Remove ALL items from the cart. Only use when user explicitly says 'empty cart' or 'start over'.";

/// The JSON Schema of `clear_cart`'s parameters.
pub const CLEAR_CART_PARAMETERS: &'static str = "{\"type\":\"object\",\"properties\":{}}";

/// What the model is told `setup_delivery` does.
pub const SETUP_DELIVERY_DESCRIPTION: &'static str = "Checkout Step 1: Save delivery city and date. Validate city via kapruka_list_delivery_cities first. Call this before setup_recipient. WARNING: Execute ONLY this step if you just received delivery form data, do not call other setup tools concurrently.";

/// The JSON Schema of `setup_delivery`'s parameters.
pub const SETUP_DELIVERY_PARAMETERS: &'static str = "{\"type\":\"object\",\"properties\":{\"city\":{\"type\":\"string\",\"description\":\"Validated city name from kapruka_list_delivery_cities.\"},\"date\":{\"type\":\"string\",\"description\":\"Delivery date in YYYY-MM-DD format.\"}}}";

/// What the model is told `setup_recipient` does.
pub const SETUP_RECIPIENT_DESCRIPTION: &'static str = "Checkout Step 2: Save recipient details. Address should be as complete as possible. PREREQUISITE: setup_delivery MUST be complete. WARNING: Execute ONLY this step if you just received recipient form data, do not call setup_sender concurrently.";

/// The JSON Schema of `setup_recipient`'s parameters.
pub const SETUP_RECIPIENT_PARAMETERS: &'static str = "{\"type\":\"object\",\"properties\":{\"name\":{\"type\":\"string\",\"description\":\"Recipient's full name (2-80 characters).\"},\"phone\":{\"type\":\"string\",\"description\":\"Sri Lankan phone number. Accept any format (077..., 07..., +94...) — backend normalizes.\"},\"address\":{\"type\":\"string\",\"description\":\"Delivery address. Include house/building number and street if available.\"},\"location_type\":{\"type\":\"string\",\"enum\":[\"house\",\"apartment\",\"office\",\"other\"],\"description\":\"Type of delivery location. Optional.\"}},\"required\":[\"name\",\"phone\",\"address\"]}";

/// What the model is told `setup_sender` does.
pub const SETUP_SENDER_DESCRIPTION: &'static str = "Checkout Step 3: Save sender (buyer) details. PREREQUISITE: setup_delivery and setup_recipient MUST be complete. WARNING: Do not call other setup tools concurrently.";

/// The JSON Schema of `setup_sender`'s parameters.
pub const SETUP_SENDER_PARAMETERS: &'static str = "{\"type\":\"object\",\"properties\":{\"name\":{\"type\":\"string\",\"description\":\"Sender's full name.\"},\"email\":{\"type\":\"string\",\"description\":\"Sender's email for order confirmation.\"},\"phone\":{\"type\":\"string\",\"description\":\"Sender's phone number.\"}},\"required\":[\"name\",\"email\",\"phone\"]}";

/// What the model is told `set_special_instructions` does.
pub const SET_SPECIAL_INSTRUCTIONS_DESCRIPTION: &'static str = "Optional: Add a gift message or special delivery instructions. Call after all checkout steps if the user wants to include a note.";

/// The JSON Schema of `set_special_instructions`'s parameters.
pub const SET_SPECIAL_INSTRUCTIONS_PARAMETERS: &'static str = "{\"type\":\"object\",\"properties\":{\"instructions\":{\"type\":\"string\",\"description\":\"Gift message or delivery instructions (max 240 characters).\"}},\"required\":[\"instructions\"]}";

/// What the model is told `create_order` does.
pub const CREATE_ORDER_DESCRIPTION: &'static str = "Finalize the order and get a payment link. PREREQUISITE: ALL checkout steps (delivery, recipient, sender) MUST be fully completed. Cart and checkout data are read from the session. WARNING: Do not call concurrently with setup tools.";

/// The JSON Schema of `create_order`'s parameters.
pub const CREATE_ORDER_PARAMETERS: &'static str = "{\"type\":\"object\",\"properties\":{\"gift_message\":{\"type\":\"string\",\"description\":\"Optional gift note to include with the order.\"}}}";

/// What the model is told `start_checkout` does.
pub const START_CHECKOUT_DESCRIPTION: &'static str = "Start the checkout process when the user is ready. This tells the system to automatically present the full checkout form to the user. Call this ONCE and STOP. Do NOT ask for details in plain text.";

/// The JSON Schema of `start_checkout`'s parameters.
pub const START_CHECKOUT_PARAMETERS: &'static str = "{\"type\":\"object\",\"properties\":{}}";

/// What the model is told `save_user_fact` does.
pub const SAVE_USER_FACT_DESCRIPTION: &'static str = "Save a personal fact about the user for future sessions (e.g., 'Sister Nimali loves orchids', 'Prefers dark chocolate', 'Lives in Colombo'). Save relationship info, preferences, and special dates. Do NOT duplicate facts already in memory.";

/// The JSON Schema of `save_user_fact`'s parameters.
pub const SAVE_USER_FACT_PARAMETERS: &'static str = "{\"type\":\"object\",\"properties\":{\"fact\":{\"type\":\"string\",\"description\":\"A concise, factual statement about the user or their preferences.\"}},\"required\":[\"fact\"]}";

/// What the model is told `update_user_profile` does.
pub const UPDATE_USER_PROFILE_DESCRIPTION: &'static str = "Update structured profile fields (name, email, phone, address). Use when the user explicitly provides or corrects their contact details. For personal preferences and facts, use save_user_fact instead.";

/// The JSON Schema of `update_user_profile`'s parameters.
pub const UPDATE_USER_PROFILE_PARAMETERS: &'static str = "{\"type\":\"object\",\"properties\":{\"first_name\":{\"type\":\"string\"},\"last_name\":{\"type\":\"string\"},\"email\":{\"type\":\"string\"},\"phone\":{\"type\":\"string\"},\"address_line1\":{\"type\":\"string\"},\"city\":{\"type\":\"string\"},\"zip_code\":{\"type\":\"string\"},\"favorite_categories\":{\"type\":\"array\",\"items\":{\"type\":\"string\"}}}}";

/// What the model is told `track_order` does.
pub const TRACK_ORDER_DESCRIPTION: &'static str = "Track an existing order by its reference number. Use when the user provides an order ID or asks about a past order.";

/// The JSON Schema of `track_order`'s parameters.
pub const TRACK_ORDER_PARAMETERS: &'static str = "{\"type\":\"object\",\"properties\":{\"order_number\":{\"type\":\"string\",\"description\":\"Order reference number (e.g., 'KAP-12345').\"}},\"required\":[\"order_number\"]}";

/// The descriptions of the advertised tools, in the order they are listed.
pub open spec fn advertised_descriptions() -> Seq<Seq<char>> {
    seq![SEARCH_PRODUCTS_DESCRIPTION@, GET_PRODUCT_DESCRIPTION@, LIST_CATEGORIES_DESCRIPTION@, LIST_CITIES_DESCRIPTION@, CHECK_DELIVERY_DESCRIPTION@, ADD_TO_CART_DESCRIPTION@, REMOVE_FROM_CART_DESCRIPTION@, SET_QUANTITY_DESCRIPTION@, CLEAR_CART_DESCRIPTION@, SETUP_DELIVERY_DESCRIPTION@, SETUP_RECIPIENT_DESCRIPTION@, SETUP_SENDER_DESCRIPTION@, SET_SPECIAL_INSTRUCTIONS_DESCRIPTION@, CREATE_ORDER_DESCRIPTION@, START_CHECKOUT_DESCRIPTION@, SAVE_USER_FACT_DESCRIPTION@, UPDATE_USER_PROFILE_DESCRIPTION@, TRACK_ORDER_DESCRIPTION@]
}

/// The parameter schemas of the advertised tools, in the order they are listed.
pub open spec fn advertised_parameters() -> Seq<Seq<char>> {
    seq![SEARCH_PRODUCTS_PARAMETERS@, GET_PRODUCT_PARAMETERS@, LIST_CATEGORIES_PARAMETERS@, LIST_CITIES_PARAMETERS@, CHECK_DELIVERY_PARAMETERS@, ADD_TO_CART_PARAMETERS@, REMOVE_FROM_CART_PARAMETERS@, SET_QUANTITY_PARAMETERS@, CLEAR_CART_PARAMETERS@, SETUP_DELIVERY_PARAMETERS@, SETUP_RECIPIENT_PARAMETERS@, SETUP_SENDER_PARAMETERS@, SET_SPECIAL_INSTRUCTIONS_PARAMETERS@, CREATE_ORDER_PARAMETERS@, START_CHECKOUT_PARAMETERS@, SAVE_USER_FACT_PARAMETERS@, UPDATE_USER_PROFILE_PARAMETERS@, TRACK_ORDER_PARAMETERS@]
}

fn schema(name: &str, description: &str, parameters: &str) -> (s: ToolSchema)
    ensures
        s.type_@ == "function"@,
        s.function.name@ == name@,
        s.function.description@ == description@,
        s.function.parameters@ == parameters@,
{
    ToolSchema {
        type_: String::from_str("function"),
        function: ToolFunctionSchema {
            name: String::from_str(name),
            description: String::from_str(description),
            parameters: String::from_str(parameters),
        },
    }
}

/// Returns every tool schema advertised to the model: a `function` schema
/// per tool, with a description of its purpose, prerequisites and limits,
/// and its parameters as a JSON Schema object.
pub fn all_tool_schemas() -> (v: Vec<ToolSchema>)
    ensures
        v@.len() == advertised_tools().len(),
        forall|i: int|
            0 <= i < v@.len() ==> (#[trigger] v@[i]).type_@ == "function"@
                && v@[i].function.name@ == advertised_tools()[i]
                && v@[i].function.description@ == advertised_descriptions()[i]
                && v@[i].function.parameters@ == advertised_parameters()[i],
{
    let mut v: Vec<ToolSchema> = Vec::new();
    v.push(schema(TOOL_SEARCH_PRODUCTS, SEARCH_PRODUCTS_DESCRIPTION, SEARCH_PRODUCTS_PARAMETERS));
    v.push(schema(TOOL_GET_PRODUCT, GET_PRODUCT_DESCRIPTION, GET_PRODUCT_PARAMETERS));
    v.push(schema(TOOL_LIST_CATEGORIES, LIST_CATEGORIES_DESCRIPTION, LIST_CATEGORIES_PARAMETERS));
    v.push(schema(TOOL_LIST_CITIES, LIST_CITIES_DESCRIPTION, LIST_CITIES_PARAMETERS));
    v.push(schema(TOOL_CHECK_DELIVERY, CHECK_DELIVERY_DESCRIPTION, CHECK_DELIVERY_PARAMETERS));
    v.push(schema(TOOL_ADD_TO_CART, ADD_TO_CART_DESCRIPTION, ADD_TO_CART_PARAMETERS));
    v.push(schema(TOOL_REMOVE_FROM_CART, REMOVE_FROM_CART_DESCRIPTION, REMOVE_FROM_CART_PARAMETERS));
    v.push(schema(TOOL_SET_QUANTITY, SET_QUANTITY_DESCRIPTION, SET_QUANTITY_PARAMETERS));
    v.push(schema(TOOL_CLEAR_CART, CLEAR_CART_DESCRIPTION, CLEAR_CART_PARAMETERS));
    v.push(schema(TOOL_SETUP_DELIVERY, SETUP_DELIVERY_DESCRIPTION, SETUP_DELIVERY_PARAMETERS));
    v.push(schema(TOOL_SETUP_RECIPIENT, SETUP_RECIPIENT_DESCRIPTION, SETUP_RECIPIENT_PARAMETERS));
    v.push(schema(TOOL_SETUP_SENDER, SETUP_SENDER_DESCRIPTION, SETUP_SENDER_PARAMETERS));
    v.push(schema(TOOL_SET_SPECIAL_INSTRUCTIONS, SET_SPECIAL_INSTRUCTIONS_DESCRIPTION, SET_SPECIAL_INSTRUCTIONS_PARAMETERS));
    v.push(schema(TOOL_CREATE_ORDER, CREATE_ORDER_DESCRIPTION, CREATE_ORDER_PARAMETERS));
    v.push(schema(TOOL_START_CHECKOUT, START_CHECKOUT_DESCRIPTION, START_CHECKOUT_PARAMETERS));
    v.push(schema(TOOL_SAVE_USER_FACT, SAVE_USER_FACT_DESCRIPTION, SAVE_USER_FACT_PARAMETERS));
    v.push(schema(TOOL_UPDATE_USER_PROFILE, UPDATE_USER_PROFILE_DESCRIPTION, UPDATE_USER_PROFILE_PARAMETERS));
    v.push(schema(TOOL_TRACK_ORDER, TRACK_ORDER_DESCRIPTION, TRACK_ORDER_PARAMETERS));
    v
}

/// Every advertised tool is one the agent can run, so no advertised call is
/// answered as unknown; `ask_question` is handled without being advertised.
pub proof fn law_advertised_tools_are_known()
    ensures
        forall|i: int|
            0 <= i < advertised_tools().len() ==> exists|k: ToolKind| tool_name(k)
                == #[trigger] advertised_tools()[i],
        forall|i: int|
            0 <= i < advertised_tools().len() ==> #[trigger] advertised_tools()[i] != tool_name(
                ToolKind::AskQuestion,
            ),
{
    reveal_strlit("kapruka_search_products");
    reveal_strlit("kapruka_get_product");
    reveal_strlit("kapruka_list_categories");
    reveal_strlit("kapruka_list_delivery_cities");
    reveal_strlit("kapruka_check_delivery");
    reveal_strlit("kapruka_create_order");
    reveal_strlit("kapruka_track_order");
    reveal_strlit("add_to_cart");
    reveal_strlit("remove_from_cart");
    reveal_strlit("set_quantity");
    reveal_strlit("clear_cart");
    reveal_strlit("setup_delivery");
    reveal_strlit("save_user_fact");
    reveal_strlit("update_user_profile");
    reveal_strlit("setup_recipient");
    reveal_strlit("setup_sender");
    reveal_strlit("set_special_instructions");
    reveal_strlit("ask_question");
    reveal_strlit("start_checkout");
    assert(advertised_tools()[0] == tool_name(ToolKind::SearchProducts));
    assert(advertised_tools()[1] == tool_name(ToolKind::GetProduct));
    assert(advertised_tools()[2] == tool_name(ToolKind::ListCategories));
    assert(advertised_tools()[3] == tool_name(ToolKind::ListCities));
    assert(advertised_tools()[4] == tool_name(ToolKind::CheckDelivery));
    assert(advertised_tools()[5] == tool_name(ToolKind::AddToCart));
    assert(advertised_tools()[6] == tool_name(ToolKind::RemoveFromCart));
    assert(advertised_tools()[7] == tool_name(ToolKind::SetQuantity));
    assert(advertised_tools()[8] == tool_name(ToolKind::ClearCart));
    assert(advertised_tools()[9] == tool_name(ToolKind::SetupDelivery));
    assert(advertised_tools()[10] == tool_name(ToolKind::SetupRecipient));
    assert(advertised_tools()[11] == tool_name(ToolKind::SetupSender));
    assert(advertised_tools()[12] == tool_name(ToolKind::SetSpecialInstructions));
    assert(advertised_tools()[13] == tool_name(ToolKind::CreateOrder));
    assert(advertised_tools()[14] == tool_name(ToolKind::StartCheckout));
    assert(advertised_tools()[15] == tool_name(ToolKind::SaveUserFact));
    assert(advertised_tools()[16] == tool_name(ToolKind::UpdateUserProfile));
    assert(advertised_tools()[17] == tool_name(ToolKind::TrackOrder));
    assert(TOOL_SEARCH_PRODUCTS@.len() != TOOL_ASK_QUESTION@.len());
    assert(TOOL_GET_PRODUCT@.len() != TOOL_ASK_QUESTION@.len());
    assert(TOOL_LIST_CATEGORIES@.len() != TOOL_ASK_QUESTION@.len());
    assert(TOOL_LIST_CITIES@.len() != TOOL_ASK_QUESTION@.len());
    assert(TOOL_CHECK_DELIVERY@.len() != TOOL_ASK_QUESTION@.len());
    assert(TOOL_ADD_TO_CART@.len() != TOOL_ASK_QUESTION@.len());
    assert(TOOL_REMOVE_FROM_CART@.len() != TOOL_ASK_QUESTION@.len());
    assert(TOOL_SET_QUANTITY@[0] != TOOL_ASK_QUESTION@[0]);
    assert(TOOL_CLEAR_CART@.len() != TOOL_ASK_QUESTION@.len());
    assert(TOOL_SETUP_DELIVERY@.len() != TOOL_ASK_QUESTION@.len());
    assert(TOOL_SETUP_RECIPIENT@.len() != TOOL_ASK_QUESTION@.len());
    assert(TOOL_SETUP_SENDER@[0] != TOOL_ASK_QUESTION@[0]);
    assert(TOOL_SET_SPECIAL_INSTRUCTIONS@.len() != TOOL_ASK_QUESTION@.len());
    assert(TOOL_CREATE_ORDER@.len() != TOOL_ASK_QUESTION@.len());
    assert(TOOL_START_CHECKOUT@.len() != TOOL_ASK_QUESTION@.len());
    assert(TOOL_SAVE_USER_FACT@.len() != TOOL_ASK_QUESTION@.len());
    assert(TOOL_UPDATE_USER_PROFILE@.len() != TOOL_ASK_QUESTION@.len());
    assert(TOOL_TRACK_ORDER@.len() != TOOL_ASK_QUESTION@.len());
}

} // verus!
