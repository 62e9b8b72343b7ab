use nadzu::error::MaleeError;
use nadzu::models::malee::cart::{CartItem, CartState};
use nadzu::models::malee::checkout::{CheckoutDraft, DeliveryInfo, QuoteStatus, RecipientInfo, SenderInfo};
use nadzu::models::malee::profile::{SessionContext, UserProfile};
use nadzu::models::malee::session::{LanguageMode, SessionState};
use nadzu::services::malee::checkout::idempotency::{check_order_cooldown_at, mark_order_created_at};
use nadzu::services::malee::checkout::validate::validate_on;
use nadzu::services::malee::llm::tools::{
    add_to_cart, ask_question, check_order_city, clear_cart, order_args_from_session,
    remove_from_cart, save_user_fact, set_quantity, set_special_instructions, setup_delivery, setup_delivery_on,
    setup_recipient, setup_sender, start_checkout, tool_kind, unknown_tool, update_user_profile, AskQuestionArgs,
    QuestionField, RemoveFromCartArgs, SaveUserFactArgs, SetQuantityArgs,
    SetSpecialInstructionsArgs, SetupDeliveryArgs, SetupRecipientArgs, SetupSenderArgs, ToolKind,
    ToolResult, UpdateUserProfileArgs,
};
use nadzu::models::malee::events::CheckoutDraftView;
use nadzu::time::Day;

fn create_test_session() -> SessionState {
    SessionState {
        session_id: 7,
        created_at: 1_700_000_000,
        updated_at: 1_700_000_000,
        version: 0,
        language_mode: LanguageMode::Auto,
        conversation_history: vec![],
        user_profile: UserProfile::default(),
        session_context: SessionContext::default(),
        cart: CartState::default(),
        checkout_draft: CheckoutDraft::default(),
        last_products: vec![],
        order_last_created_at: None,
        active_llm_index: 0,
    }
}

fn cake() -> CartItem {
    CartItem {
        product_id: "prod-1".to_string(),
        name: "Cake".to_string(),
        price_lkr: 1500,
        quantity: 2,
        image_url: None,
        is_perishable: false,
    }
}

fn day(text: &str) -> Day {
    let date = chrono::NaiveDate::parse_from_str(text, "%Y-%m-%d").expect("a valid date");
    Day::from_days(chrono::Datelike::num_days_from_ce(&date)).expect("a date in range")
}

/// The delivery date as the checkout form prints it.
fn printed_date(session: &SessionState) -> String {
    CheckoutDraftView::of_draft(&session.checkout_draft).delivery_date.expect("a delivery date")
}

#[test]
fn test_execute_add_to_cart() {
    let mut session = create_test_session();
    let (res, out) = add_to_cart(&mut session, cake()).unwrap();
    match res {
        ToolResult::AddToCart { item_name } => assert_eq!(item_name, "Cake"),
        _ => panic!("Expected AddToCart"),
    }
    assert_eq!(out, "Added Cake to cart");
    assert_eq!(session.cart.items.len(), 1);
    assert_eq!(session.cart.items[0].product_id, "prod-1");
}

#[test]
fn test_execute_remove_from_cart() {
    let mut session = create_test_session();
    session.cart.items.push(cake());
    let args = RemoveFromCartArgs { product_id: "prod-1".to_string() };
    let (res, out) = remove_from_cart(&mut session, args).unwrap();
    match res {
        ToolResult::RemoveFromCart { product_id } => assert_eq!(product_id, "prod-1"),
        _ => panic!("Expected RemoveFromCart"),
    }
    assert_eq!(out, "Removed prod-1 from cart");
    assert!(session.cart.items.is_empty());
}

#[test]
fn test_execute_set_quantity() {
    let mut session = create_test_session();
    session.cart.items.push(cake());
    let args = SetQuantityArgs { product_id: "prod-1".to_string(), quantity: 5 };
    let (res, out) = set_quantity(&mut session, args).unwrap();
    match res {
        ToolResult::SetQuantity { product_id, quantity } => {
            assert_eq!(product_id, "prod-1");
            assert_eq!(quantity, 5);
        }
        _ => panic!("Expected SetQuantity"),
    }
    assert_eq!(out, "Set quantity of prod-1 to 5");
    assert_eq!(session.cart.items[0].quantity, 5);
}

#[test]
fn test_execute_clear_cart() {
    let mut session = create_test_session();
    session.cart.items.push(cake());
    let (res, out) = clear_cart(&mut session).unwrap();
    assert!(matches!(res, ToolResult::ClearCart));
    assert_eq!(out, "Cleared cart");
    assert!(session.cart.items.is_empty());
}

#[test]
fn test_execute_setup_delivery() {
    let mut session = create_test_session();
    let args = SetupDeliveryArgs {
        city: Some("Colombo".to_string()),
        date: Some("2026-12-25".to_string()),
    };
    let cities = vec!["Colombo".to_string()];
    let (res, out) = setup_delivery_on(&mut session, args, &cities, day("2026-06-01")).unwrap();
    assert!(matches!(res, ToolResult::SetupDelivery));
    assert_eq!(out, "Updated delivery info");
    let delivery = session.checkout_draft.delivery.as_ref().unwrap();
    assert_eq!(delivery.city, "Colombo");
    assert_eq!(delivery.date.days(), 739975);
    assert_eq!(printed_date(&session), "2026-12-25");
    assert_eq!(session.session_context.preferred_city.as_deref(), Some("Colombo"));
}

#[test]
fn setup_delivery_refuses_unlisted_city() {
    let mut session = create_test_session();
    let args = SetupDeliveryArgs { city: Some("Atlantis".to_string()), date: None };
    let cities = vec!["Colombo".to_string(), "Kandy".to_string()];
    let err = setup_delivery_on(&mut session, args, &cities, day("2026-06-01")).unwrap_err();
    assert_eq!(
        err,
        MaleeError::LlmError(
            "Invalid delivery city: Atlantis. Please choose a valid Sri Lankan city from the available list."
                .to_string()
        )
    );
    assert!(session.checkout_draft.delivery.is_none());
}

#[test]
fn setup_delivery_matches_city_ignoring_case_and_defaults_the_date() {
    let mut session = create_test_session();
    let args = SetupDeliveryArgs { city: Some("colombo".to_string()), date: Some("25/12/2026".to_string()) };
    let cities = vec!["COLOMBO".to_string()];
    setup_delivery_on(&mut session, args, &cities, day("2026-06-01")).unwrap();
    let delivery = session.checkout_draft.delivery.as_ref().unwrap();
    assert_eq!(delivery.city, "colombo");
    assert_eq!(delivery.date, day("2026-06-01"));
    assert_eq!(printed_date(&session), "2026-06-01");
    assert_eq!(delivery.quote_status, QuoteStatus::Pending);
    assert!(session.session_context.preferred_delivery_date.is_none());
}

#[test]
fn test_execute_save_user_fact() {
    let mut session = create_test_session();
    let (res, out) = save_user_fact(&mut session, SaveUserFactArgs { fact: "Loves chocolate cake".to_string() });
    assert!(matches!(res, ToolResult::SaveUserFact));
    assert_eq!(out, "Fact saved successfully");
    assert_eq!(session.user_profile.memories, vec!["Loves chocolate cake".to_string()]);
}

#[test]
fn test_execute_update_user_profile() {
    let mut session = create_test_session();
    let args = UpdateUserProfileArgs {
        first_name: Some("Nadun".to_string()),
        last_name: None,
        email: Some("nadun@example.com".to_string()),
        phone: None,
        address_line1: None,
        city: None,
        zip_code: None,
        favorite_categories: Some(vec!["Cakes".to_string(), "Flowers".to_string()]),
    };
    let (res, out) = update_user_profile(&mut session, args);
    assert!(matches!(res, ToolResult::UpdateUserProfile));
    assert_eq!(out, "Profile updated successfully");
    assert_eq!(session.user_profile.first_name.as_deref(), Some("Nadun"));
    assert_eq!(session.user_profile.email.as_deref(), Some("nadun@example.com"));
    assert_eq!(
        session.user_profile.favorite_categories,
        vec!["Cakes".to_string(), "Flowers".to_string()]
    );
    assert!(session.user_profile.last_name.is_none());
}

#[test]
fn setup_recipient_normalises_phone_and_takes_delivery_city() {
    let mut session = create_test_session();
    session.checkout_draft.delivery =
        Some(DeliveryInfo { date: day("2026-12-25"), city: "Kandy".to_string(), quote_status: QuoteStatus::Pending });
    let args = SetupRecipientArgs {
        name: "Nimali".to_string(),
        phone: "077 123 4567".to_string(),
        address: "No 23, Gemunupura".to_string(),
        location_type: Some("house".to_string()),
    };
    let (res, out) = setup_recipient(&mut session, args).unwrap();
    assert!(matches!(res, ToolResult::SetupRecipient));
    assert_eq!(out, "Recipient info updated");
    let r = session.checkout_draft.recipient.as_ref().unwrap();
    assert_eq!(r.phone, "94771234567");
    assert_eq!(r.city, "Kandy");
    assert_eq!(session.checkout_draft.location_type.as_deref(), Some("house"));
}

#[test]
fn setup_recipient_rejects_bad_phone() {
    let mut session = create_test_session();
    let args = SetupRecipientArgs {
        name: "Nimali".to_string(),
        phone: "12345".to_string(),
        address: "No 23".to_string(),
        location_type: None,
    };
    let err = setup_recipient(&mut session, args).unwrap_err();
    assert_eq!(
        err,
        MaleeError::LlmError(
            "Invalid phone number: 12345. Must be a valid 10-digit Sri Lankan phone number (e.g., 0771234567)."
                .to_string()
        )
    );
    assert!(session.checkout_draft.recipient.is_none());
}

#[test]
fn setup_sender_fills_profile() {
    let mut session = create_test_session();
    let args = SetupSenderArgs {
        name: "Nadun".to_string(),
        email: "nadun@example.com".to_string(),
        phone: "+94 77 123 4567".to_string(),
    };
    let (_, out) = setup_sender(&mut session, args).unwrap();
    assert_eq!(out, "Sender info updated");
    assert_eq!(session.checkout_draft.sender.as_ref().unwrap().phone, "94771234567");
    assert_eq!(session.user_profile.phone.as_deref(), Some("94771234567"));
    assert_eq!(session.user_profile.first_name.as_deref(), Some("Nadun"));
}

#[test]
fn special_instructions_and_questions() {
    let mut session = create_test_session();
    let (_, out) = set_special_instructions(
        &mut session,
        SetSpecialInstructionsArgs { instructions: "Call on arrival".to_string() },
    );
    assert_eq!(out, "Special instructions updated");
    assert_eq!(session.checkout_draft.special_instructions.as_deref(), Some("Call on arrival"));
    let q = QuestionField {
        field: "delivery_city".to_string(),
        label: "City?".to_string(),
        input_type: "text".to_string(),
        placeholder: None,
    };
    let (res, out) = ask_question(AskQuestionArgs { questions: vec![q] });
    assert_eq!(out, "Question prompts sent to user");
    match res {
        ToolResult::AskQuestion { questions } => assert_eq!(questions[0].field, "delivery_city"),
        _ => panic!("Expected AskQuestion"),
    }
}

#[test]
fn tool_names_dispatch() {
    assert_eq!(tool_kind("add_to_cart"), Some(ToolKind::AddToCart));
    assert_eq!(tool_kind("kapruka_search_products"), Some(ToolKind::SearchProducts));
    assert_eq!(tool_kind("ask_question"), Some(ToolKind::AskQuestion));
    assert_eq!(tool_kind("start_checkout"), Some(ToolKind::StartCheckout));
    assert_eq!(tool_kind("open_checkout"), None);
    assert_eq!(unknown_tool("open_checkout"), MaleeError::LlmError("Unknown tool: open_checkout".to_string()));
    let (res, out) = start_checkout();
    assert!(matches!(res, ToolResult::StartCheckout));
    assert_eq!(out, "Checkout form presented to user");
}

fn complete_session() -> SessionState {
    let mut session = create_test_session();
    session.cart.items.push(cake());
    session.checkout_draft.delivery =
        Some(DeliveryInfo { date: day("2026-12-25"), city: "Colombo".to_string(), quote_status: QuoteStatus::Pending });
    session.checkout_draft.recipient = Some(RecipientInfo {
        name: "Nimali".to_string(),
        phone: "0771234567".to_string(),
        address_line1: "No 23".to_string(),
        address_line2: Some("Gemunupura".to_string()),
        city: "Colombo".to_string(),
    });
    session.checkout_draft.sender = Some(SenderInfo {
        name: "Nadun".to_string(),
        email: "nadun@example.com".to_string(),
        phone: "0771234567".to_string(),
    });
    session
}

#[test]
fn create_order_built_from_session() {
    let mut session = complete_session();
    session.checkout_draft.gift_message = Some("From the draft".to_string());
    let args = order_args_from_session(&session, None).unwrap();
    assert_eq!(args.recipient.phone, "94771234567");
    assert_eq!(args.delivery.address, "No 23, Gemunupura");
    assert_eq!(args.delivery.date, "2026-12-25");
    assert_eq!(args.gift_message.as_deref(), Some("From the draft"));
    assert!(args.sender.email.is_none());
    assert_eq!(args.cart[0].quantity, 2);
    let with_llm_gift = order_args_from_session(&session, Some("Happy birthday".to_string())).unwrap();
    assert_eq!(with_llm_gift.gift_message.as_deref(), Some("Happy birthday"));
    assert!(check_order_city(&args, &vec!["colombo".to_string()]).is_ok());
    assert_eq!(
        check_order_city(&args, &vec!["Kandy".to_string()]),
        Err(MaleeError::LlmError(
            "Invalid delivery city: Colombo. Please validate via kapruka_list_delivery_cities.".to_string()
        ))
    );
}

#[test]
fn create_order_refusals_in_order() {
    let session = create_test_session();
    assert_eq!(
        order_args_from_session(&session, None).unwrap_err(),
        MaleeError::LlmError(
            "Cannot create order: delivery info missing. Complete setup_delivery first.".to_string()
        )
    );
    let mut empty_cart = complete_session();
    empty_cart.cart.items.clear();
    assert_eq!(
        order_args_from_session(&empty_cart, None).unwrap_err(),
        MaleeError::LlmError("Cannot create order: cart is empty.".to_string())
    );
}

#[test]
fn validate_reports_every_problem_in_order() {
    let mut draft = CheckoutDraft::default();
    draft.recipient = Some(RecipientInfo {
        name: "N".to_string(),
        phone: "123".to_string(),
        address_line1: "ab".to_string(),
        address_line2: None,
        city: "  ".to_string(),
    });
    draft.delivery = Some(DeliveryInfo { date: day("2026-01-01"), city: "".to_string(), quote_status: QuoteStatus::Pending });
    draft.sender = Some(SenderInfo { name: "Nadun".to_string(), email: "nadun".to_string(), phone: "0771234567".to_string() });
    let errs = validate_on(&draft, &CartState::default(), day("2026-02-01")).unwrap_err();
    assert_eq!(
        errs,
        vec![
            "cart.empty",
            "recipient.name.invalid",
            "recipient.phone.invalid_sl_format",
            "recipient.address.too_short",
            "recipient.city.missing",
            "delivery.date.past",
            "delivery.city.missing",
            "sender.email.invalid",
        ]
    );
    let far = CheckoutDraft {
        delivery: Some(DeliveryInfo { date: day("2026-06-01"), city: "Colombo".to_string(), quote_status: QuoteStatus::Pending }),
        ..CheckoutDraft::default()
    };
    let errs = validate_on(&far, &CartState::default(), day("2026-02-01")).unwrap_err();
    assert!(errs.contains(&"delivery.date.too_far".to_string()));
    assert!(errs.contains(&"recipient.missing".to_string()));
    assert!(errs.contains(&"sender.missing".to_string()));
}

#[test]
fn validate_builds_order() {
    let mut session = complete_session();
    session.checkout_draft.gift_message = Some("x".repeat(300));
    let args = validate_on(&session.checkout_draft, &session.cart, day("2026-12-01")).unwrap();
    assert_eq!(args.recipient.phone, "94771234567");
    assert_eq!(args.delivery.address, "No 23, Gemunupura");
    assert_eq!(args.delivery.location_type.as_deref(), Some("house"));
    assert_eq!(args.sender.email.as_deref(), Some("nadun@example.com"));
    assert_eq!(args.gift_message.as_ref().unwrap().chars().count(), 240);
    assert_eq!(args.currency, "LKR");
    session.checkout_draft.recipient.as_mut().unwrap().address_line2 = None;
    let args = validate_on(&session.checkout_draft, &session.cart, day("2026-12-01")).unwrap();
    assert_eq!(args.delivery.address, "No 23");
}

#[test]
fn order_cooldown_law() {
    const S: i64 = 1_000_000_000;
    let mut session = create_test_session();
    assert!(check_order_cooldown_at(&session, 60, 1_000 * S).is_ok());
    mark_order_created_at(&mut session, 1_000 * S);
    assert_eq!(check_order_cooldown_at(&session, 60, 1_000 * S), Err(MaleeError::OrderCooldown { seconds: 60 }));
    assert_eq!(check_order_cooldown_at(&session, 60, 1_045 * S), Err(MaleeError::OrderCooldown { seconds: 15 }));
    assert_eq!(
        check_order_cooldown_at(&session, 60, 1_059 * S + S / 2),
        Err(MaleeError::OrderCooldown { seconds: 1 })
    );
    assert!(check_order_cooldown_at(&session, 60, 1_060 * S).is_ok());
    assert_eq!(
        check_order_cooldown_at(&session, 60, 1_000 * S - S / 2),
        Err(MaleeError::OrderCooldown { seconds: 60 })
    );
    assert!(check_order_cooldown_at(&session, 60, 999 * S).is_ok());
}

#[test]
fn setup_delivery_without_needing_the_clock() {
    let mut session = create_test_session();
    let cities = vec!["Colombo".to_string()];
    let args = SetupDeliveryArgs { city: Some("Atlantis".to_string()), date: None };
    let err = setup_delivery(&mut session, args, &cities).unwrap_err();
    assert_eq!(
        err,
        MaleeError::LlmError(
            "Invalid delivery city: Atlantis. Please choose a valid Sri Lankan city from the available list."
                .to_string()
        )
    );
    let args = SetupDeliveryArgs { city: None, date: Some("2026-12-25".to_string()) };
    let (_, out) = setup_delivery(&mut session, args, &cities).unwrap();
    assert_eq!(out, "Updated delivery info");
    let delivery = session.checkout_draft.delivery.as_ref().unwrap();
    assert_eq!(delivery.city, "");
    assert_eq!(delivery.date.days(), 739975);
    let args = SetupDeliveryArgs { city: Some("Colombo".to_string()), date: None };
    setup_delivery(&mut session, args, &cities).unwrap();
    let delivery = session.checkout_draft.delivery.as_ref().unwrap();
    assert_eq!(delivery.city, "Colombo");
    assert_eq!(delivery.date.days(), 739975);
}
