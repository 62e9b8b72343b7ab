//! The system prompt built in code from the session.
use vstd::prelude::*;
use crate::models::malee::session::{LanguageMode, SessionState};
use crate::models::malee::cart::prices_fit;
use crate::text::{decimal, i64_decimal, signed_decimal, string_of, u64_decimal};
use crate::time::{format_ymd, ymd_text, Day};

pub mod builder;
pub mod examples;

verus! {

/// Who Malee is and the commerce rules she follows.
pub open spec fn prompt_core() -> Seq<char> {
    "You are Malee (මලී), a warm and knowledgeable Sri Lankan AI shopping guide.\nYour name means blue water lily — you are calm, elegant, and deeply local.\nYou help customers discover gifts, plan deliveries, and complete real guest checkout.\nYou speak naturally and guide users from vague intent to a confirmed order.\n\nNever invent availability, prices, or delivery feasibility — always use tools.\nSearch before recommending. Confirm stock and price first.\nFor perishable items, always confirm delivery date and city before adding to cart.\nSupport multi-item carts. Help the customer finalize their full cart before checkout.\nBe a closer — end every flow at a confirmed pay link, not just product suggestions.\nOnly call create_order when cart, recipient, delivery city+date, and sender are all confirmed.\n\n"@
}

/// The language instruction for a mode.
pub open spec fn language_line(m: LanguageMode) -> Seq<char> {
    match m {
        LanguageMode::Auto | LanguageMode::English => "Respond in clear, warm English. Use Sinhala phrases naturally when fitting.\n"@,
        LanguageMode::Sinhala => "ප්රතිචාර සිංහලෙන් ලියන්න. Product names සහ technical terms original ලෙස තබන්න.\n"@,
        LanguageMode::Mixed => "Match the customer's warm Sinhala-English mix. Respond in the same register.\n"@,
    }
}

/// The closing tool contract.
pub open spec fn prompt_tail() -> Seq<char> {
    "Use tools proactively. Do not guess facts that tools can provide.\n"@ + "The frontend renders product cards, delivery quotes, and checkout UI from your tool outputs — do not dump these as plain text.\n"@
}

/// `label` and the value on a line of its own, where there is a value.
pub open spec fn labelled(label: Seq<char>, v: Option<Seq<char>>) -> Seq<char> {
    match v {
        Some(x) => label + x + "\n"@,
        None => Seq::empty(),
    }
}

/// An optional string as plain values.
pub open spec fn text_of(o: Option<String>) -> Option<Seq<char>> {
    match o {
        Some(s) => Some(s@),
        None => None,
    }
}

/// An optional amount, printed.
pub open spec fn amount_of(o: Option<i64>) -> Option<Seq<char>> {
    match o {
        Some(v) => Some(signed_decimal(v as int)),
        None => None,
    }
}

/// An optional date, printed.
pub open spec fn date_of(o: Option<Day>) -> Option<Seq<char>> {
    match o {
        Some(d) => Some(ymd_text(d.spec_days())),
        None => None,
    }
}

/// The session facts the prompt lists.
pub open spec fn context_lines(s: SessionState) -> Seq<char> {
    let p = s.user_profile;
    labelled("Recipient: "@, text_of(p.recipient_relation)) + labelled("Occasion: "@, text_of(p.occasion))
        + labelled("Budget Min (LKR): "@, amount_of(p.budget_min_lkr)) + labelled(
        "Budget Max (LKR): "@,
        amount_of(p.budget_max_lkr),
    ) + labelled("Preferred City: "@, text_of(p.preferred_city)) + labelled(
        "Preferred Date: "@,
        date_of(p.preferred_delivery_date),
    ) + "Cart Items: "@ + decimal(s.cart.spec_item_count()) + "\n"@ + "Cart Subtotal: "@
        + signed_decimal(s.cart.spec_subtotal_lkr()) + " LKR\n"@ + labelled(
        "Gift Note: "@,
        text_of(s.checkout_draft.gift_message),
    )
}

/// The whole system prompt for a session.
pub open spec fn system_prompt_text(s: SessionState) -> Seq<char> {
    prompt_core() + language_line(s.language_mode) + "\n"@ + "Current Session Context:\n"@
        + context_lines(s) + "\n"@ + prompt_tail()
}

/// Appends `label`, the value and a line break, where there is a value.
fn push_labelled(p: &mut String, label: &str, v: &Option<String>)
    ensures
        final(p)@ == old(p)@ + labelled(label@, text_of(*v)),
{
    if let Some(x) = v {
        p.append(label);
        p.append(x.as_str());
        p.append("\n");
    }
}

/// Appends `label`, the amount and a line break, where there is an amount.
fn push_amount(p: &mut String, label: &str, v: Option<i64>)
    ensures
        final(p)@ == old(p)@ + labelled(label@, amount_of(v)),
{
    if let Some(x) = v {
        p.append(label);
        let d = i64_decimal(x);
        p.append(string_of(d.as_slice()).as_str());
        p.append("\n");
    }
}

/// Appends `label`, the date and a line break, where there is a date.
fn push_date(p: &mut String, label: &str, v: Option<Day>)
    ensures
        final(p)@ == old(p)@ + labelled(label@, date_of(v)),
{
    if let Some(x) = v {
        p.append(label);
        p.append(format_ymd(x).as_str());
        p.append("\n");
    }
}

/// Appends the session-context lines.
fn push_context(prompt: &mut String, session: &SessionState)
    requires
        session.cart.spec_item_count() <= u32::MAX,
        prices_fit(session.cart.items@),
    ensures
        final(prompt)@ == old(prompt)@ + context_lines(*session),
{
    let ghost before = prompt@;
    let p = &session.user_profile;
    push_labelled(prompt, "Recipient: ", &p.recipient_relation);
    push_labelled(prompt, "Occasion: ", &p.occasion);
    push_amount(prompt, "Budget Min (LKR): ", p.budget_min_lkr);
    push_amount(prompt, "Budget Max (LKR): ", p.budget_max_lkr);
    push_labelled(prompt, "Preferred City: ", &p.preferred_city);
    push_date(prompt, "Preferred Date: ", p.preferred_delivery_date);
    prompt.append("Cart Items: ");
    let count = u64_decimal(session.cart.item_count() as u64);
    prompt.append(string_of(count.as_slice()).as_str());
    prompt.append("\n");
    prompt.append("Cart Subtotal: ");
    let subtotal = i64_decimal(session.cart.subtotal_lkr());
    prompt.append(string_of(subtotal.as_slice()).as_str());
    prompt.append(" LKR\n");
    push_labelled(prompt, "Gift Note: ", &session.checkout_draft.gift_message);
    proof {
        assert(prompt@ =~= before + context_lines(*session));
    }
}

/// Builds the system prompt in code: who Malee is, the commerce rules, the
/// language instruction for the session's mode, the session context (the
/// profile facts that are known, the cart's unit count and subtotal, the
/// gift note) and the tool contract.
pub fn build_system_prompt(session: &SessionState) -> (r: String)
    requires
        session.cart.spec_item_count() <= u32::MAX,
        prices_fit(session.cart.items@),
    ensures
        r@ == system_prompt_text(*session),
{
    let mut prompt = String::new();
    prompt.append("You are Malee (මලී), a warm and knowledgeable Sri Lankan AI shopping guide.\nYour name means blue water lily — you are calm, elegant, and deeply local.\nYou help customers discover gifts, plan deliveries, and complete real guest checkout.\nYou speak naturally and guide users from vague intent to a confirmed order.\n\nNever invent availability, prices, or delivery feasibility — always use tools.\nSearch before recommending. Confirm stock and price first.\nFor perishable items, always confirm delivery date and city before adding to cart.\nSupport multi-item carts. Help the customer finalize their full cart before checkout.\nBe a closer — end every flow at a confirmed pay link, not just product suggestions.\nOnly call create_order when cart, recipient, delivery city+date, and sender are all confirmed.\n\n");
    match session.language_mode {
        LanguageMode::Auto | LanguageMode::English => {
            prompt.append("Respond in clear, warm English. Use Sinhala phrases naturally when fitting.\n");
        },
        LanguageMode::Sinhala => {
            prompt.append("ප්රතිචාර සිංහලෙන් ලියන්න. Product names සහ technical terms original ලෙස තබන්න.\n");
        },
        LanguageMode::Mixed => {
            prompt.append("Match the customer's warm Sinhala-English mix. Respond in the same register.\n");
        },
    }
    prompt.append("\n");
    prompt.append("Current Session Context:\n");
    push_context(&mut prompt, session);
    prompt.append("\n");
    prompt.append("Use tools proactively. Do not guess facts that tools can provide.\n");
    prompt.append("The frontend renders product cards, delivery quotes, and checkout UI from your tool outputs — do not dump these as plain text.\n");
    proof {
        assert(prompt@ =~= system_prompt_text(*session));
    }
    prompt
}

} // verus!
