//! The agent's tools: their names, their arguments, their results, and how
//! each tool that works on the session changes it. The connector's own tools
//! are called by the service; their outcomes come back here as plain values.
use vstd::prelude::*;
use crate::error::MaleeError;
use crate::models::malee::cart::CartItem;
use crate::models::malee::checkout::{DeliveryInfo, QuoteStatus, RecipientInfo, SenderInfo};
use crate::models::malee::session::SessionState;
use crate::services::malee::cart::reducer::{reduce, reduce_defined, reduce_spec, CartAction};
use crate::services::malee::checkout::validate::{order_lines_match, or_empty};
use crate::services::malee::connector::tools::{
    TOOL_ADD_TO_CART, TOOL_CHECK_DELIVERY, TOOL_CLEAR_CART, TOOL_CREATE_ORDER, TOOL_GET_PRODUCT,
    TOOL_LIST_CATEGORIES, TOOL_LIST_CITIES, TOOL_REMOVE_FROM_CART, TOOL_SAVE_USER_FACT,
    TOOL_SEARCH_PRODUCTS, TOOL_SETUP_DELIVERY, TOOL_SET_QUANTITY, TOOL_TRACK_ORDER,
    TOOL_UPDATE_USER_PROFILE,
};
use crate::services::malee::connector::types::{
    Category, CreateOrderArgs, McpCartItem, McpDelivery, McpRecipient, McpSender, OrderTracking,
};
use crate::services::malee::llm::phone::{invalid_phone_message, normalize_sl_digits, sl_phone};
use crate::text::{
    clone_opt, decimal, join3, lowercase_of, opt_chars, str_eq, to_lowercase, u64_decimal,
    string_of,
};
use crate::time::{clock_unavailable, format_ymd, parse_ymd, parsed_ymd, today_utc, ymd_text, Day, FIRST_DAY};

verus! {

pub const TOOL_SETUP_RECIPIENT: &'static str = "setup_recipient";
pub const TOOL_SETUP_SENDER: &'static str = "setup_sender";
pub const TOOL_SET_SPECIAL_INSTRUCTIONS: &'static str = "set_special_instructions";
pub const TOOL_ASK_QUESTION: &'static str = "ask_question";
pub const TOOL_START_CHECKOUT: &'static str = "start_checkout";

/// The most units a cart may hold.
pub const DEFAULT_CART_LIMIT: usize = 20;

/// One question put to the shopper.
#[derive(Debug, Clone)]
pub struct QuestionField {
    pub field: String,
    pub label: String,
    /// One of `text`, `tel`, `date`, `email`, `textarea`.
    pub input_type: String,
    pub placeholder: Option<String>,
}

/// Arguments of `ask_question`.
#[derive(Debug, Clone)]
pub struct AskQuestionArgs {
    pub questions: Vec<QuestionField>,
}

/// Arguments of `setup_recipient`.
#[derive(Debug, Clone)]
pub struct SetupRecipientArgs {
    pub name: String,
    pub phone: String,
    pub address: String,
    pub location_type: Option<String>,
}

/// Arguments of `setup_sender`.
#[derive(Debug, Clone)]
pub struct SetupSenderArgs {
    pub name: String,
    pub email: String,
    pub phone: String,
}

/// Arguments of `set_special_instructions`.
#[derive(Debug, Clone)]
pub struct SetSpecialInstructionsArgs {
    pub instructions: String,
}

/// Arguments of `remove_from_cart`.
#[derive(Debug, Clone)]
pub struct RemoveFromCartArgs {
    pub product_id: String,
}

/// Arguments of `set_quantity`.
#[derive(Debug, Clone)]
pub struct SetQuantityArgs {
    pub product_id: String,
    pub quantity: u32,
}

/// Arguments of `setup_delivery`; `date` is `YYYY-MM-DD`.
#[derive(Debug, Clone)]
pub struct SetupDeliveryArgs {
    pub city: Option<String>,
    pub date: Option<String>,
}

/// Arguments of `save_user_fact`.
#[derive(Debug, Clone)]
pub struct SaveUserFactArgs {
    pub fact: String,
}

/// Arguments of `update_user_profile`; each given field replaces the old one.
#[derive(Debug, Clone)]
pub struct UpdateUserProfileArgs {
    pub first_name: Option<String>,
    pub last_name: Option<String>,
    pub email: Option<String>,
    pub phone: Option<String>,
    pub address_line1: Option<String>,
    pub city: Option<String>,
    pub zip_code: Option<String>,
    pub favorite_categories: Option<Vec<String>>,
}

/// What a tool produced, for the events sent to the client. The connector's
/// catalogue, delivery-quote and order results carry prices and are held by
/// the service.
#[derive(Debug, Clone)]
#[allow(inconsistent_fields)]
pub enum ToolResult {
    ListCategories(Vec<Category>),
    ListCities(Vec<String>),
    TrackOrder { order_number: String, details: OrderTracking },
    AddToCart { item_name: String },
    RemoveFromCart { product_id: String },
    SetQuantity { product_id: String, quantity: u32 },
    ClearCart,
    SetupDelivery,
    SetupRecipient,
    SetupSender,
    SetSpecialInstructions,
    StartCheckout,
    AskQuestion { questions: Vec<QuestionField> },
    SaveUserFact,
    UpdateUserProfile,
}

/// The tools the agent knows.
#[derive(Debug, Clone, Copy, PartialEq, Eq, Structural)]
pub enum ToolKind {
    SearchProducts,
    GetProduct,
    ListCategories,
    ListCities,
    CheckDelivery,
    CreateOrder,
    TrackOrder,
    AddToCart,
    RemoveFromCart,
    SetQuantity,
    ClearCart,
    SetupDelivery,
    SetupRecipient,
    SetupSender,
    SetSpecialInstructions,
    StartCheckout,
    AskQuestion,
    SaveUserFact,
    UpdateUserProfile,
}

/// The name under which a tool is called.
pub open spec fn tool_name(k: ToolKind) -> Seq<char> {
    match k {
        ToolKind::SearchProducts => TOOL_SEARCH_PRODUCTS@,
        ToolKind::GetProduct => TOOL_GET_PRODUCT@,
        ToolKind::ListCategories => TOOL_LIST_CATEGORIES@,
        ToolKind::ListCities => TOOL_LIST_CITIES@,
        ToolKind::CheckDelivery => TOOL_CHECK_DELIVERY@,
        ToolKind::CreateOrder => TOOL_CREATE_ORDER@,
        ToolKind::TrackOrder => TOOL_TRACK_ORDER@,
        ToolKind::AddToCart => TOOL_ADD_TO_CART@,
        ToolKind::RemoveFromCart => TOOL_REMOVE_FROM_CART@,
        ToolKind::SetQuantity => TOOL_SET_QUANTITY@,
        ToolKind::ClearCart => TOOL_CLEAR_CART@,
        ToolKind::SetupDelivery => TOOL_SETUP_DELIVERY@,
        ToolKind::SetupRecipient => TOOL_SETUP_RECIPIENT@,
        ToolKind::SetupSender => TOOL_SETUP_SENDER@,
        ToolKind::SetSpecialInstructions => TOOL_SET_SPECIAL_INSTRUCTIONS@,
        ToolKind::StartCheckout => TOOL_START_CHECKOUT@,
        ToolKind::AskQuestion => TOOL_ASK_QUESTION@,
        ToolKind::SaveUserFact => TOOL_SAVE_USER_FACT@,
        ToolKind::UpdateUserProfile => TOOL_UPDATE_USER_PROFILE@,
    }
}

/// The tool called `name`, if the agent knows one.
pub fn tool_kind(name: &str) -> (r: Option<ToolKind>)
    ensures
        match r {
            Some(k) => name@ == tool_name(k),
            None => forall|k: ToolKind| name@ != #[trigger] tool_name(k),
        },
{
    if str_eq(name, TOOL_SEARCH_PRODUCTS) {
        Some(ToolKind::SearchProducts)
    } else if str_eq(name, TOOL_GET_PRODUCT) {
        Some(ToolKind::GetProduct)
    } else if str_eq(name, TOOL_LIST_CATEGORIES) {
        Some(ToolKind::ListCategories)
    } else if str_eq(name, TOOL_LIST_CITIES) {
        Some(ToolKind::ListCities)
    } else if str_eq(name, TOOL_CHECK_DELIVERY) {
        Some(ToolKind::CheckDelivery)
    } else if str_eq(name, TOOL_CREATE_ORDER) {
        Some(ToolKind::CreateOrder)
    } else if str_eq(name, TOOL_TRACK_ORDER) {
        Some(ToolKind::TrackOrder)
    } else if str_eq(name, TOOL_ADD_TO_CART) {
        Some(ToolKind::AddToCart)
    } else if str_eq(name, TOOL_REMOVE_FROM_CART) {
        Some(ToolKind::RemoveFromCart)
    } else if str_eq(name, TOOL_SET_QUANTITY) {
        Some(ToolKind::SetQuantity)
    } else if str_eq(name, TOOL_CLEAR_CART) {
        Some(ToolKind::ClearCart)
    } else if str_eq(name, TOOL_SETUP_DELIVERY) {
        Some(ToolKind::SetupDelivery)
    } else if str_eq(name, TOOL_SETUP_RECIPIENT) {
        Some(ToolKind::SetupRecipient)
    } else if str_eq(name, TOOL_SETUP_SENDER) {
        Some(ToolKind::SetupSender)
    } else if str_eq(name, TOOL_SET_SPECIAL_INSTRUCTIONS) {
        Some(ToolKind::SetSpecialInstructions)
    } else if str_eq(name, TOOL_START_CHECKOUT) {
        Some(ToolKind::StartCheckout)
    } else if str_eq(name, TOOL_ASK_QUESTION) {
        Some(ToolKind::AskQuestion)
    } else if str_eq(name, TOOL_SAVE_USER_FACT) {
        Some(ToolKind::SaveUserFact)
    } else if str_eq(name, TOOL_UPDATE_USER_PROFILE) {
        Some(ToolKind::UpdateUserProfile)
    } else {
        None
    }
}

/// The error for a tool the agent does not know.
pub fn unknown_tool(name: &str) -> (e: MaleeError)
    ensures
        e matches MaleeError::LlmError(m) && m@ == "Unknown tool: "@ + name@,
{
    let mut m = String::from_str("Unknown tool: ");
    m.append(name);
    MaleeError::LlmError(m)
}

/// The session with only its cart changed.
pub open spec fn only_cart_changed(old: SessionState, new: SessionState) -> bool {
    new == (SessionState { cart: new.cart, ..old })
}

/// The session with only its checkout draft changed.
pub open spec fn only_draft_changed(old: SessionState, new: SessionState) -> bool {
    new == (SessionState { checkout_draft: new.checkout_draft, ..old })
}

/// The session with only its user profile changed.
pub open spec fn only_profile_changed(old: SessionState, new: SessionState) -> bool {
    new == (SessionState { user_profile: new.user_profile, ..old })
}

/// Adds `item` to the cart (at most `DEFAULT_CART_LIMIT` units).
pub fn add_to_cart(session: &mut SessionState, item: CartItem) -> (r: Result<
    (ToolResult, String),
    MaleeError,
>)
    requires
        reduce_defined(
            old(session).cart.items@,
            CartAction::AddItem { product: item },
            DEFAULT_CART_LIMIT,
        ),
    ensures
        match reduce_spec(
            old(session).cart.items@,
            CartAction::AddItem { product: item },
            DEFAULT_CART_LIMIT,
        ) {
            Ok(items) => {
                &&& final(session).cart.items@ == items
                &&& only_cart_changed(*old(session), *final(session))
                &&& r matches Ok((ToolResult::AddToCart { item_name }, out))
                &&& item_name@ == item.name@
                &&& out@ == "Added "@ + item.name@ + " to cart"@
            },
            Err(e) => r == Err::<(ToolResult, String), MaleeError>(e) && *final(session)
                == *old(session),
        },
{
    let name = item.name.clone();
    let cart = session.cart.duplicate();
    match reduce(cart, CartAction::AddItem { product: item }, DEFAULT_CART_LIMIT) {
        Ok(c) => {
            session.cart = c;
            let out = join3("Added ", name.as_str(), " to cart");
            Ok((ToolResult::AddToCart { item_name: name }, out))
        },
        Err(e) => Err(e),
    }
}

/// Removes every line of the product from the cart.
pub fn remove_from_cart(session: &mut SessionState, args: RemoveFromCartArgs) -> (r: Result<
    (ToolResult, String),
    MaleeError,
>)
    requires
        reduce_defined(
            old(session).cart.items@,
            CartAction::RemoveItem { product_id: args.product_id },
            DEFAULT_CART_LIMIT,
        ),
    ensures
        reduce_spec(
            old(session).cart.items@,
            CartAction::RemoveItem { product_id: args.product_id },
            DEFAULT_CART_LIMIT,
        ) == Ok::<Seq<CartItem>, MaleeError>(final(session).cart.items@),
        only_cart_changed(*old(session), *final(session)),
        r matches Ok((ToolResult::RemoveFromCart { product_id }, out)) && product_id@
            == args.product_id@ && out@ == "Removed "@ + args.product_id@ + " from cart"@,
{
    let pid = args.product_id.clone();
    let cart = session.cart.duplicate();
    match reduce(cart, CartAction::RemoveItem { product_id: args.product_id }, DEFAULT_CART_LIMIT) {
        Ok(c) => {
            session.cart = c;
            let out = join3("Removed ", pid.as_str(), " from cart");
            Ok((ToolResult::RemoveFromCart { product_id: pid }, out))
        },
        Err(e) => Err(e),
    }
}

/// Sets the quantity of the product's line (zero removes it).
pub fn set_quantity(session: &mut SessionState, args: SetQuantityArgs) -> (r: Result<
    (ToolResult, String),
    MaleeError,
>)
    requires
        reduce_defined(
            old(session).cart.items@,
            CartAction::SetQuantity { product_id: args.product_id, quantity: args.quantity },
            DEFAULT_CART_LIMIT,
        ),
    ensures
        match reduce_spec(
            old(session).cart.items@,
            CartAction::SetQuantity { product_id: args.product_id, quantity: args.quantity },
            DEFAULT_CART_LIMIT,
        ) {
            Ok(items) => {
                &&& final(session).cart.items@ == items
                &&& only_cart_changed(*old(session), *final(session))
                &&& r matches Ok((ToolResult::SetQuantity { product_id, quantity }, out))
                &&& product_id@ == args.product_id@
                &&& quantity == args.quantity
                &&& out@ == "Set quantity of "@ + args.product_id@ + " to "@ + decimal(
                    args.quantity as nat,
                )
            },
            Err(e) => r == Err::<(ToolResult, String), MaleeError>(e) && *final(session)
                == *old(session),
        },
{
    let pid = args.product_id.clone();
    let q = args.quantity;
    let cart = session.cart.duplicate();
    match reduce(
        cart,
        CartAction::SetQuantity { product_id: args.product_id, quantity: args.quantity },
        DEFAULT_CART_LIMIT,
    ) {
        Ok(c) => {
            session.cart = c;
            let digits = u64_decimal(q as u64);
            let mut out = join3("Set quantity of ", pid.as_str(), " to ");
            out.append(string_of(digits.as_slice()).as_str());
            Ok((ToolResult::SetQuantity { product_id: pid, quantity: q }, out))
        },
        Err(e) => Err(e),
    }
}

/// Empties the cart.
pub fn clear_cart(session: &mut SessionState) -> (r: Result<(ToolResult, String), MaleeError>)
    requires
        reduce_defined(old(session).cart.items@, CartAction::Clear, DEFAULT_CART_LIMIT),
    ensures
        final(session).cart.items@.len() == 0,
        only_cart_changed(*old(session), *final(session)),
        r matches Ok((ToolResult::ClearCart, out)) && out@ == "Cleared cart"@,
{
    let cart = session.cart.duplicate();
    match reduce(cart, CartAction::Clear, DEFAULT_CART_LIMIT) {
        Ok(c) => {
            session.cart = c;
            Ok((ToolResult::ClearCart, String::from_str("Cleared cart")))
        },
        Err(e) => Err(e),
    }
}

/// The error for a phone number without a Sri Lankan shape.
fn invalid_phone(raw: &str) -> (e: MaleeError)
    ensures
        e matches MaleeError::LlmError(m) && m@ == invalid_phone_message(raw@),
{
    let mut m = String::from_str("Invalid phone number: ");
    m.append(raw);
    m.append(". Must be a valid 10-digit Sri Lankan phone number (e.g., 0771234567).");
    MaleeError::LlmError(m)
}

/// The city of the draft's delivery, empty where there is none.
pub open spec fn delivery_city(d: Option<DeliveryInfo>) -> Seq<char> {
    match d {
        Some(d) => d.city@,
        None => Seq::empty(),
    }
}

/// Records the recipient; the phone must have a Sri Lankan shape and is
/// stored normalised, the city is taken from the delivery.
pub fn setup_recipient(session: &mut SessionState, args: SetupRecipientArgs) -> (r: Result<
    (ToolResult, String),
    MaleeError,
>)
    ensures
        match sl_phone(args.phone@) {
            None => {
                &&& r matches Err(MaleeError::LlmError(m)) && m@ == invalid_phone_message(
                    args.phone@,
                )
                &&& *final(session) == *old(session)
            },
            Some(p) => {
                &&& r matches Ok((ToolResult::SetupRecipient, out)) && out@
                    == "Recipient info updated"@
                &&& only_draft_changed(*old(session), *final(session))
                &&& final(session).checkout_draft.recipient matches Some(ri)
                &&& ri.name@ == args.name@
                &&& ri.phone@ == p
                &&& ri.address_line1@ == args.address@
                &&& ri.address_line2 is None
                &&& ri.city@ == delivery_city(old(session).checkout_draft.delivery)
                &&& final(session).checkout_draft.location_type == args.location_type
                &&& final(session).checkout_draft.delivery == old(session).checkout_draft.delivery
                &&& final(session).checkout_draft.sender == old(session).checkout_draft.sender
                &&& final(session).checkout_draft.gift_message
                    == old(session).checkout_draft.gift_message
                &&& final(session).checkout_draft.special_instructions
                    == old(session).checkout_draft.special_instructions
            },
        },
{
    let phone = match normalize_sl_digits(args.phone.as_str()) {
        Some(p) => p,
        None => {
            return Err(invalid_phone(args.phone.as_str()));
        },
    };
    let city = match &session.checkout_draft.delivery {
        Some(d) => d.city.clone(),
        None => String::new(),
    };
    session.checkout_draft.recipient = Some(
        RecipientInfo {
            name: args.name,
            phone,
            address_line1: args.address,
            address_line2: None,
            city,
        },
    );
    session.checkout_draft.location_type = args.location_type;
    Ok((ToolResult::SetupRecipient, String::from_str("Recipient info updated")))
}

/// Records the sender and copies name, e-mail and normalised phone into the
/// profile; the phone must have a Sri Lankan shape.
pub fn setup_sender(session: &mut SessionState, args: SetupSenderArgs) -> (r: Result<
    (ToolResult, String),
    MaleeError,
>)
    ensures
        match sl_phone(args.phone@) {
            None => {
                &&& r matches Err(MaleeError::LlmError(m)) && m@ == invalid_phone_message(
                    args.phone@,
                )
                &&& *final(session) == *old(session)
            },
            Some(p) => {
                &&& r matches Ok((ToolResult::SetupSender, out)) && out@ == "Sender info updated"@
                &&& *final(session) == (SessionState {
                    checkout_draft: final(session).checkout_draft,
                    user_profile: final(session).user_profile,
                    ..*old(session)
                })
                &&& final(session).checkout_draft.sender matches Some(s)
                &&& s.name@ == args.name@
                &&& s.email@ == args.email@
                &&& s.phone@ == p
                &&& final(session).checkout_draft.recipient == old(session).checkout_draft.recipient
                &&& final(session).checkout_draft.delivery == old(session).checkout_draft.delivery
                &&& final(session).checkout_draft.gift_message
                    == old(session).checkout_draft.gift_message
                &&& final(session).checkout_draft.special_instructions
                    == old(session).checkout_draft.special_instructions
                &&& final(session).checkout_draft.location_type
                    == old(session).checkout_draft.location_type
                &&& opt_chars(final(session).user_profile.first_name) == Some(args.name@)
                &&& opt_chars(final(session).user_profile.email) == Some(args.email@)
                &&& opt_chars(final(session).user_profile.phone) == Some(p)
                &&& final(session).user_profile == (crate::models::malee::profile::UserProfile {
                    first_name: final(session).user_profile.first_name,
                    email: final(session).user_profile.email,
                    phone: final(session).user_profile.phone,
                    ..old(session).user_profile
                })
            },
        },
{
    let phone = match normalize_sl_digits(args.phone.as_str()) {
        Some(p) => p,
        None => {
            return Err(invalid_phone(args.phone.as_str()));
        },
    };
    session.checkout_draft.sender = Some(
        SenderInfo { name: args.name.clone(), email: args.email.clone(), phone: phone.clone() },
    );
    session.user_profile.first_name = Some(args.name);
    session.user_profile.email = Some(args.email);
    session.user_profile.phone = Some(phone);
    Ok((ToolResult::SetupSender, String::from_str("Sender info updated")))
}

/// Records the delivery instructions.
pub fn set_special_instructions(session: &mut SessionState, args: SetSpecialInstructionsArgs) -> (r: (
    ToolResult,
    String,
))
    ensures
        only_draft_changed(*old(session), *final(session)),
        final(session).checkout_draft == (crate::models::malee::checkout::CheckoutDraft {
            special_instructions: Some(args.instructions),
            ..old(session).checkout_draft
        }),
        r.0 matches ToolResult::SetSpecialInstructions,
        r.1@ == "Special instructions updated"@,
{
    session.checkout_draft.special_instructions = Some(args.instructions);
    (ToolResult::SetSpecialInstructions, String::from_str("Special instructions updated"))
}

/// Opens the checkout: the client is shown the full checkout form (the
/// events for `ToolResult::StartCheckout`); the session is left as it is.
pub fn start_checkout() -> (r: (ToolResult, String))
    ensures
        r.0 == ToolResult::StartCheckout,
        r.1@ == "Checkout form presented to user"@,
{
    (ToolResult::StartCheckout, String::from_str("Checkout form presented to user"))
}

/// Passes the questions on to the client.
pub fn ask_question(args: AskQuestionArgs) -> (r: (ToolResult, String))
    ensures
        r.0 == (ToolResult::AskQuestion { questions: args.questions }),
        r.1@ == "Question prompts sent to user"@,
{
    (
        ToolResult::AskQuestion { questions: args.questions },
        String::from_str("Question prompts sent to user"),
    )
}

/// Remembers a fact about the shopper.
pub fn save_user_fact(session: &mut SessionState, args: SaveUserFactArgs) -> (r: (
    ToolResult,
    String,
))
    ensures
        only_profile_changed(*old(session), *final(session)),
        final(session).user_profile.memories@ == old(session).user_profile.memories@.push(
            args.fact,
        ),
        final(session).user_profile == (crate::models::malee::profile::UserProfile {
            memories: final(session).user_profile.memories,
            ..old(session).user_profile
        }),
        r.0 matches ToolResult::SaveUserFact,
        r.1@ == "Fact saved successfully"@,
{
    session.user_profile.memories.push(args.fact);
    (ToolResult::SaveUserFact, String::from_str("Fact saved successfully"))
}

/// `new` where given, `old` otherwise.
pub open spec fn replaced<T>(old: T, new: Option<T>) -> T {
    match new {
        Some(v) => v,
        None => old,
    }
}

/// Overwrites the profile fields that are given.
pub fn update_user_profile(session: &mut SessionState, args: UpdateUserProfileArgs) -> (r: (
    ToolResult,
    String,
))
    ensures
        only_profile_changed(*old(session), *final(session)),
        final(session).user_profile == (crate::models::malee::profile::UserProfile {
            first_name: replaced(
                old(session).user_profile.first_name,
                match args.first_name {
                    Some(v) => Some(Some(v)),
                    None => None,
                },
            ),
            last_name: replaced(
                old(session).user_profile.last_name,
                match args.last_name {
                    Some(v) => Some(Some(v)),
                    None => None,
                },
            ),
            email: replaced(
                old(session).user_profile.email,
                match args.email {
                    Some(v) => Some(Some(v)),
                    None => None,
                },
            ),
            phone: replaced(
                old(session).user_profile.phone,
                match args.phone {
                    Some(v) => Some(Some(v)),
                    None => None,
                },
            ),
            address_line1: replaced(
                old(session).user_profile.address_line1,
                match args.address_line1 {
                    Some(v) => Some(Some(v)),
                    None => None,
                },
            ),
            city: replaced(
                old(session).user_profile.city,
                match args.city {
                    Some(v) => Some(Some(v)),
                    None => None,
                },
            ),
            zip_code: replaced(
                old(session).user_profile.zip_code,
                match args.zip_code {
                    Some(v) => Some(Some(v)),
                    None => None,
                },
            ),
            favorite_categories: replaced(
                old(session).user_profile.favorite_categories,
                args.favorite_categories,
            ),
            ..old(session).user_profile
        }),
        r.0 matches ToolResult::UpdateUserProfile,
        r.1@ == "Profile updated successfully"@,
{
    if let Some(v) = args.first_name {
        session.user_profile.first_name = Some(v);
    }
    if let Some(v) = args.last_name {
        session.user_profile.last_name = Some(v);
    }
    if let Some(v) = args.email {
        session.user_profile.email = Some(v);
    }
    if let Some(v) = args.phone {
        session.user_profile.phone = Some(v);
    }
    if let Some(v) = args.address_line1 {
        session.user_profile.address_line1 = Some(v);
    }
    if let Some(v) = args.city {
        session.user_profile.city = Some(v);
    }
    if let Some(v) = args.zip_code {
        session.user_profile.zip_code = Some(v);
    }
    if let Some(v) = args.favorite_categories {
        session.user_profile.favorite_categories = v;
    }
    (ToolResult::UpdateUserProfile, String::from_str("Profile updated successfully"))
}

/// Whether `city` is among `cities`, ignoring case (both sides lower-cased as
/// `str::to_lowercase` does).
pub open spec fn city_listed_spec(cities: Seq<String>, city: Seq<char>) -> bool {
    exists|i: int| 0 <= i < cities.len() && lowercase_of(#[trigger] cities[i]@) == lowercase_of(city)
}

/// Whether the connector's city list holds `city`, ignoring case.
pub fn city_listed(cities: &Vec<String>, city: &str) -> (r: bool)
    ensures
        r == city_listed_spec(cities@, city@),
{
    let wanted = to_lowercase(city);
    let mut i: usize = 0;
    while i < cities.len()
        invariant
            i <= cities@.len(),
            wanted@ == lowercase_of(city@),
            forall|j: int| 0 <= j < i ==> lowercase_of(#[trigger] cities@[j]@) != lowercase_of(city@),
        decreases cities@.len() - i,
    {
        let c = to_lowercase(cities[i].as_str());
        if str_eq(c.as_str(), wanted.as_str()) {
            return true;
        }
        i = i + 1;
    }
    false
}

/// A delivery as plain values: city, day number, quote state.
pub open spec fn delivery_view(d: Option<DeliveryInfo>) -> Option<(Seq<char>, int, QuoteStatus)> {
    match d {
        Some(d) => Some((d.city@, d.date.spec_days(), d.quote_status)),
        None => None,
    }
}

/// The delivery after a city is chosen on day `today`.
pub open spec fn with_city(d: Option<(Seq<char>, int, QuoteStatus)>, city: Option<Seq<char>>, today: int) -> Option<
    (Seq<char>, int, QuoteStatus),
> {
    match city {
        Some(c) => Some(
            (
                c,
                match d {
                    Some(x) => x.1,
                    None => today,
                },
                QuoteStatus::Pending,
            ),
        ),
        None => d,
    }
}

/// The delivery after a date is chosen.
pub open spec fn with_date(d: Option<(Seq<char>, int, QuoteStatus)>, date: Option<int>) -> Option<
    (Seq<char>, int, QuoteStatus),
> {
    match date {
        Some(t) => Some(
            (
                match d {
                    Some(x) => x.0,
                    None => Seq::empty(),
                },
                t,
                QuoteStatus::Pending,
            ),
        ),
        None => d,
    }
}

/// The day number `setup_delivery` reads from its date argument.
pub open spec fn date_arg(date: Option<String>) -> Option<int> {
    match date {
        Some(s) => parsed_ymd(s@),
        None => None,
    }
}

/// What `setup_delivery` does on day `today`, given the connector's cities.
pub open spec fn setup_delivery_outcome(
    old: SessionState,
    new: SessionState,
    args: SetupDeliveryArgs,
    cities: Seq<String>,
    today: int,
    r: Result<(ToolResult, String), MaleeError>,
) -> bool {
    if args.city is Some && !city_listed_spec(cities, args.city->0@) {
        &&& r matches Err(MaleeError::LlmError(m)) && m@ == "Invalid delivery city: "@
            + args.city->0@
            + ". Please choose a valid Sri Lankan city from the available list."@
        &&& new == old
    } else {
        let after_city = with_city(delivery_view(old.checkout_draft.delivery), opt_chars(args.city), today);
        &&& r matches Ok((ToolResult::SetupDelivery, out)) && out@ == "Updated delivery info"@
        &&& delivery_view(new.checkout_draft.delivery) == with_date(after_city, date_arg(args.date))
        &&& opt_chars(new.session_context.preferred_city) == (match args.city {
            Some(c) => Some(c@),
            None => opt_chars(old.session_context.preferred_city),
        })
        &&& (match date_arg(args.date) {
            Some(t) => new.session_context.preferred_delivery_date matches Some(d) && d.spec_days() == t,
            None => new.session_context.preferred_delivery_date
                == old.session_context.preferred_delivery_date,
        })
        &&& new == (SessionState {
            checkout_draft: new.checkout_draft,
            session_context: new.session_context,
            ..old
        })
        &&& new.checkout_draft == (crate::models::malee::checkout::CheckoutDraft {
            delivery: new.checkout_draft.delivery,
            ..old.checkout_draft
        })
    }
}

/// Chooses the delivery city and/or date on day `today`. A city must be in
/// `cities`, the connector's list for it (ignoring case); a date that does not
/// read as `YYYY-MM-DD` is ignored. Choosing either resets the quote.
pub fn setup_delivery_on(
    session: &mut SessionState,
    args: SetupDeliveryArgs,
    cities: &Vec<String>,
    today: Day,
) -> (r: Result<(ToolResult, String), MaleeError>)
    ensures
        setup_delivery_outcome(*old(session), *final(session), args, cities@, today.spec_days(), r),
{
    let ghost args0 = args;
    if let Some(city) = &args.city {
        if !city_listed(cities, city.as_str()) {
            let mut m = String::from_str("Invalid delivery city: ");
            m.append(city.as_str());
            m.append(". Please choose a valid Sri Lankan city from the available list.");
            return Err(MaleeError::LlmError(m));
        }
        let date = match &session.checkout_draft.delivery {
            Some(d) => d.date,
            None => today,
        };
        session.checkout_draft.delivery = Some(
            DeliveryInfo { city: city.clone(), date, quote_status: QuoteStatus::Pending },
        );
        session.session_context.preferred_city = Some(city.clone());
    }
    if let Some(date_str) = &args.date {
        if let Some(date) = parse_ymd(date_str.as_str()) {
            let city = match &session.checkout_draft.delivery {
                Some(d) => d.city.clone(),
                None => String::new(),
            };
            session.checkout_draft.delivery = Some(
                DeliveryInfo { city, date, quote_status: QuoteStatus::Pending },
            );
            session.session_context.preferred_delivery_date = Some(date);
        }
    }
    Ok((ToolResult::SetupDelivery, String::from_str("Updated delivery info")))
}

/// Whether choosing the delivery reads today's date: only for a listed city
/// when the draft has no delivery yet (the new delivery is then for today).
pub open spec fn delivery_needs_today(old: SessionState, args: SetupDeliveryArgs, cities: Seq<String>) -> bool {
    &&& args.city is Some
    &&& city_listed_spec(cities, args.city->0@)
    &&& old.checkout_draft.delivery is None
}

/// `setup_delivery_on` on today's date (UTC). The clock is read only when
/// the date is needed (see `delivery_needs_today`); when it is needed and
/// cannot be read, the session is left as it is and the clock error is
/// returned.
pub fn setup_delivery(session: &mut SessionState, args: SetupDeliveryArgs, cities: &Vec<String>) -> (r:
    Result<(ToolResult, String), MaleeError>)
    ensures
        !delivery_needs_today(*old(session), args, cities@) ==> setup_delivery_outcome(
            *old(session),
            *final(session),
            args,
            cities@,
            FIRST_DAY as int,
            r,
        ),
        delivery_needs_today(*old(session), args, cities@) ==> ((exists|today: Day|
            setup_delivery_outcome(
                *old(session),
                *final(session),
                args,
                cities@,
                #[trigger] today.spec_days(),
                r,
            )) || (r matches Err(MaleeError::Validation(m)) && m@
            == "System clock is set before the Unix epoch"@ && *final(session) == *old(session))),
{
    let needs_today = match &args.city {
        Some(c) => city_listed(cities, c.as_str()) && session.checkout_draft.delivery.is_none(),
        None => false,
    };
    if needs_today {
        match today_utc() {
            Some(today) => setup_delivery_on(session, args, cities, today),
            None => Err(clock_unavailable()),
        }
    } else {
        match Day::from_days(FIRST_DAY) {
            Some(day) => setup_delivery_on(session, args, cities, day),
            None => Err(clock_unavailable()),
        }
    }
}

/// The address sent with an order built from the session: the first line,
/// then `, ` and the second line where there is one.
pub open spec fn order_address(r: RecipientInfo) -> Seq<char> {
    match r.address_line2 {
        Some(l) => r.address_line1@ + ", "@ + l@,
        None => r.address_line1@,
    }
}

/// Why an order cannot be built from the session, if it cannot.
pub open spec fn order_refusal(s: SessionState) -> Option<Seq<char>> {
    let d = s.checkout_draft;
    if d.delivery is None {
        Some("Cannot create order: delivery info missing. Complete setup_delivery first."@)
    } else if d.recipient is None {
        Some("Cannot create order: recipient info missing. Complete setup_recipient first."@)
    } else if d.sender is None {
        Some("Cannot create order: sender info missing. Complete setup_sender first."@)
    } else if s.cart.items@.len() == 0 {
        Some("Cannot create order: cart is empty."@)
    } else if sl_phone(d.recipient->0.phone@) is None {
        Some(invalid_phone_message(d.recipient->0.phone@))
    } else {
        None
    }
}

/// The order built from the session and the gift message the model gave.
pub open spec fn session_order_matches(a: CreateOrderArgs, s: SessionState, llm_gift: Option<
    String,
>) -> bool {
    let d = s.checkout_draft;
    let rc = d.recipient->0;
    let dl = d.delivery->0;
    &&& order_lines_match(a.cart@, s.cart.items@)
    &&& a.recipient.name@ == rc.name@
    &&& Some(a.recipient.phone@) == sl_phone(rc.phone@)
    &&& a.delivery.address@ == order_address(rc)
    &&& a.delivery.city@ == dl.city@
    &&& a.delivery.date@ == ymd_text(dl.date.spec_days())
    &&& opt_chars(a.delivery.instructions) == opt_chars(d.special_instructions)
    &&& opt_chars(a.delivery.location_type) == opt_chars(d.location_type)
    &&& a.sender.name@ == d.sender->0.name@
    &&& a.sender.email is None
    &&& !a.sender.anonymous
    &&& opt_chars(a.gift_message) == (match llm_gift {
        Some(g) => Some(g@),
        None => opt_chars(d.gift_message),
    })
    &&& a.currency@ == "LKR"@
    &&& a.response_format@ == "json"@
}

/// The order lines of the cart.
fn cart_lines(items: &Vec<CartItem>) -> (r: Vec<McpCartItem>)
    ensures
        order_lines_match(r@, items@),
{
    let mut r: Vec<McpCartItem> = Vec::new();
    let mut i: usize = 0;
    while i < items.len()
        invariant
            i <= items@.len(),
            r@.len() == i,
            forall|k: int|
                0 <= k < i ==> {
                    &&& #[trigger] r@[k].product_id@ == items@[k].product_id@
                    &&& r@[k].quantity == items@[k].quantity
                    &&& r@[k].icing_text is None
                },
        decreases items@.len() - i,
    {
        r.push(
            McpCartItem {
                product_id: items[i].product_id.clone(),
                quantity: items[i].quantity,
                icing_text: None,
            },
        );
        i = i + 1;
    }
    r
}

/// Builds `kapruka_create_order`'s arguments from the session, which is the
/// source of truth: delivery, recipient and sender must be set and the cart
/// must not be empty; the recipient's phone is normalised; the gift message
/// given by the model wins over the draft's.
pub fn order_args_from_session(session: &SessionState, llm_gift: Option<String>) -> (r: Result<
    CreateOrderArgs,
    MaleeError,
>)
    ensures
        match order_refusal(*session) {
            Some(m) => r matches Err(MaleeError::LlmError(e)) && e@ == m,
            None => r matches Ok(a) && session_order_matches(a, *session, llm_gift),
        },
{
    let draft = &session.checkout_draft;
    let delivery = match &draft.delivery {
        Some(d) => d,
        None => {
            return Err(
                MaleeError::LlmError(
                    String::from_str(
                        "Cannot create order: delivery info missing. Complete setup_delivery first.",
                    ),
                ),
            );
        },
    };
    let recipient = match &draft.recipient {
        Some(r) => r,
        None => {
            return Err(
                MaleeError::LlmError(
                    String::from_str(
                        "Cannot create order: recipient info missing. Complete setup_recipient first.",
                    ),
                ),
            );
        },
    };
    let sender = match &draft.sender {
        Some(s) => s,
        None => {
            return Err(
                MaleeError::LlmError(
                    String::from_str(
                        "Cannot create order: sender info missing. Complete setup_sender first.",
                    ),
                ),
            );
        },
    };
    if session.cart.items.len() == 0 {
        return Err(MaleeError::LlmError(String::from_str("Cannot create order: cart is empty.")));
    }
    let phone = match normalize_sl_digits(recipient.phone.as_str()) {
        Some(p) => p,
        None => {
            return Err(invalid_phone(recipient.phone.as_str()));
        },
    };
    let mut address = recipient.address_line1.clone();
    if let Some(l) = &recipient.address_line2 {
        address.append(", ");
        address.append(l.as_str());
    }
    let gift_message = match llm_gift {
        Some(g) => Some(g),
        None => clone_opt(&draft.gift_message),
    };
    Ok(
        CreateOrderArgs {
            cart: cart_lines(&session.cart.items),
            recipient: McpRecipient { name: recipient.name.clone(), phone },
            delivery: McpDelivery {
                address,
                city: delivery.city.clone(),
                date: format_ymd(delivery.date),
                instructions: clone_opt(&draft.special_instructions),
                location_type: clone_opt(&draft.location_type),
            },
            sender: McpSender { name: sender.name.clone(), email: None, anonymous: false },
            gift_message,
            currency: String::from_str("LKR"),
            response_format: String::from_str("json"),
        },
    )
}

/// The final registry check before an order is placed: the delivery city
/// must be among `cities`, the connector's list for it (ignoring case).
pub fn check_order_city(args: &CreateOrderArgs, cities: &Vec<String>) -> (r: Result<(), MaleeError>)
    ensures
        city_listed_spec(cities@, args.delivery.city@) ==> r is Ok,
        !city_listed_spec(cities@, args.delivery.city@) ==> (r matches Err(MaleeError::LlmError(m))
            && m@ == "Invalid delivery city: "@ + args.delivery.city@
            + ". Please validate via kapruka_list_delivery_cities."@),
{
    if city_listed(cities, args.delivery.city.as_str()) {
        Ok(())
    } else {
        let mut m = String::from_str("Invalid delivery city: ");
        m.append(args.delivery.city.as_str());
        m.append(". Please validate via kapruka_list_delivery_cities.");
        Err(MaleeError::LlmError(m))
    }
}

} // verus!
