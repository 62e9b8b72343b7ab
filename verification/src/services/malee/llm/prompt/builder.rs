//! The values the system-prompt templates are rendered with, derived from
//! the live session.
use vstd::prelude::*;
use crate::models::malee::cart::{prices_fit, CartItem};
use crate::models::malee::profile::OrderRecord;
use crate::models::malee::session::{LanguageMode, SessionState};
use crate::services::malee::checkout::validate::{trim_cs_end, trim_cs_start};
use crate::text::{
    chars_of, decimal, i64_decimal, join_prefix, join_strings, join_with, signed_decimal,
    string_of, strs_view, trim, trim_chars, u64_decimal,
};
use crate::time::{format_ymd, ymd_text};

verus! {

/// Cart lines named in the prompt's cart summary.
pub const SUMMARY_ITEMS: usize = 5;

/// The template variables of the system prompt.
#[derive(Debug)]
pub struct PromptContext {
    pub cart_item_count: u32,
    pub cart_subtotal: i64,
    pub cart_items_summary: String,
    pub has_perishable_items: bool,
    pub checkout_step: u32,
    pub preferred_city: String,
    pub preferred_date: String,
    pub recipient_relation: String,
    pub recipient_name: String,
    pub recipient_phone: String,
    pub recipient_address: String,
    pub occasion: String,
    pub gift_message: String,
    pub user_name: String,
    pub user_email: String,
    pub user_phone: String,
    pub is_returning_user: bool,
    pub shipping_address: String,
    pub memories: String,
    pub orders: String,
    pub fav_categories: String,
    pub language_instruction: String,
}

/// The language instruction of the templates for a mode.
pub open spec fn language_instruction(m: LanguageMode) -> Seq<char> {
    match m {
        LanguageMode::Auto | LanguageMode::English => "Respond in warm, clear English. Use Sinhala terms naturally when culturally fitting (e.g., \"Ayubowan\", \"amma\"). Keep product names and prices in English."@,
        LanguageMode::Sinhala => "ප්‍රතිචාර සිංහලෙන් ලියන්න. Product names, prices, සහ technical terms (cart, checkout) English වලින් තබන්න. Sinhala script භාවිතා කරන්න, romanized Sinhala නොවේ."@,
        LanguageMode::Mixed => "Match the user's Sinhala-English code-switching style. Mirror their register and warmth. Keep product names and prices in English. Use Sinhala script for Sinhala words."@,
    }
}

/// How far the checkout has come: 4 with all three parts, else 3 with a
/// sender, 2 with a recipient, 1 with a delivery, 0 with none.
pub open spec fn checkout_step(s: SessionState) -> u32 {
    let d = s.checkout_draft;
    if d.delivery is Some && d.recipient is Some && d.sender is Some {
        4
    } else if d.sender is Some {
        3
    } else if d.recipient is Some {
        2
    } else if d.delivery is Some {
        1
    } else {
        0
    }
}

/// A value, or `None` spelled out.
pub open spec fn or_none(v: Option<Seq<char>>) -> Seq<char> {
    match v {
        Some(x) => x,
        None => "None"@,
    }
}

/// An optional string as plain values.
pub open spec fn view_of(o: Option<String>) -> Option<Seq<char>> {
    match o {
        Some(s) => Some(s@),
        None => None,
    }
}

/// The text of an optional string, empty where there is none.
pub open spec fn or_blank(o: Option<String>) -> Seq<char> {
    match o {
        Some(s) => s@,
        None => Seq::empty(),
    }
}

/// The names of cart lines.
pub open spec fn item_names(items: Seq<CartItem>) -> Seq<Seq<char>> {
    items.map_values(|it: CartItem| it.name@)
}

/// The cart summary: the names of the first five lines, joined with `, `,
/// and ` (+n more)` for the `n` lines beyond them.
pub open spec fn cart_summary(items: Seq<CartItem>) -> Seq<char> {
    if items.len() == 0 {
        Seq::empty()
    } else if items.len() > SUMMARY_ITEMS {
        join_with(item_names(items.take(SUMMARY_ITEMS as int)), ", "@) + " (+"@ + decimal(
            (items.len() - SUMMARY_ITEMS) as nat,
        ) + " more)"@
    } else {
        join_with(item_names(items), ", "@)
    }
}

/// The line of the order history for one order.
pub open spec fn order_line(o: OrderRecord) -> Seq<char> {
    o.order_ref@ + " on "@ + ymd_text(o.date.spec_days()) + ": "@ + join_with(
        strs_view(o.items@),
        ", "@,
    ) + " ("@ + signed_decimal(o.total_lkr as int) + " LKR)"@
}

/// The order history, one order per line, or `None`.
pub open spec fn orders_text(os: Seq<OrderRecord>) -> Seq<char> {
    if os.len() == 0 {
        "None"@
    } else {
        join_with(os.map_values(|o: OrderRecord| order_line(o)), "\n- "@)
    }
}

/// The shopper's name: first and last name, trimmed.
pub open spec fn user_name(s: SessionState) -> Seq<char> {
    trim(or_blank(s.user_profile.first_name) + " "@ + or_blank(s.user_profile.last_name))
}

/// Whether every field of the context is what the templates are given for
/// the session.
pub open spec fn context_matches(c: PromptContext, s: SessionState) -> bool {
    let p = s.user_profile;
    let ctx = s.session_context;
    let d = s.checkout_draft;
    &&& c.cart_item_count == s.cart.spec_item_count()
    &&& c.cart_subtotal == s.cart.spec_subtotal_lkr()
    &&& c.cart_items_summary@ == cart_summary(s.cart.items@)
    &&& c.has_perishable_items == exists|i: int|
        0 <= i < s.cart.items@.len() && (#[trigger] s.cart.items@[i]).is_perishable
    &&& c.checkout_step == checkout_step(s)
    &&& c.preferred_city@ == or_none(view_of(ctx.preferred_city))
    &&& c.preferred_date@ == (match ctx.preferred_delivery_date {
        Some(day) => ymd_text(day.spec_days()),
        None => "None"@,
    })
    &&& c.recipient_relation@ == or_none(view_of(ctx.recipient_relation))
    &&& c.recipient_name@ == (match d.recipient {
        Some(r) => r.name@,
        None => "None"@,
    })
    &&& c.recipient_phone@ == (match d.recipient {
        Some(r) => r.phone@,
        None => "None"@,
    })
    &&& c.recipient_address@ == (match d.recipient {
        Some(r) => r.address_line1@,
        None => "None"@,
    })
    &&& c.occasion@ == or_none(view_of(ctx.occasion))
    &&& c.gift_message@ == or_none(view_of(d.gift_message))
    &&& c.user_name@ == user_name(s)
    &&& c.user_email@ == or_none(view_of(p.email))
    &&& c.user_phone@ == or_none(view_of(p.phone))
    &&& c.is_returning_user == (user_name(s).len() > 0 || p.memories@.len() > 0)
    &&& c.shipping_address@ == trim_cs_end(
        trim_cs_start(
            or_blank(p.address_line1) + ", "@ + or_blank(p.city) + ", "@ + or_blank(p.zip_code),
        ),
    )
    &&& c.memories@ == (if p.memories@.len() == 0 {
        "None"@
    } else {
        join_with(strs_view(p.memories@), "\n- "@)
    })
    &&& c.orders@ == orders_text(p.order_history@)
    &&& c.fav_categories@ == join_with(strs_view(p.favorite_categories@), ", "@)
    &&& c.language_instruction@ == language_instruction(s.language_mode)
}

/// A value, or `None` spelled out.
fn text_or_none(o: &Option<String>) -> (r: String)
    ensures
        r@ == or_none(view_of(*o)),
{
    match o {
        Some(s) => s.clone(),
        None => String::from_str("None"),
    }
}

/// The text of an optional string, empty where there is none.
fn text_or_blank(o: &Option<String>) -> (r: String)
    ensures
        r@ == or_blank(*o),
{
    match o {
        Some(s) => s.clone(),
        None => String::new(),
    }
}

/// The cart summary of `items`.
fn summarize_cart(items: &Vec<CartItem>) -> (r: String)
    ensures
        r@ == cart_summary(items@),
{
    let mut names: Vec<String> = Vec::new();
    let mut i: usize = 0;
    while i < items.len()
        invariant
            i <= items@.len(),
            names@.len() == i,
            forall|k: int| 0 <= k < i ==> (#[trigger] names@[k])@ == items@[k].name@,
        decreases items@.len() - i,
    {
        names.push(items[i].name.clone());
        i = i + 1;
    }
    proof {
        assert(strs_view(names@) =~= item_names(items@));
    }
    if items.len() == 0 {
        return String::new();
    }
    if items.len() > SUMMARY_ITEMS {
        let mut r = join_prefix(&names, SUMMARY_ITEMS, ", ");
        proof {
            assert(strs_view(names@.take(SUMMARY_ITEMS as int)) =~= item_names(
                items@.take(SUMMARY_ITEMS as int),
            ));
            assert(join_with(strs_view(names@.take(SUMMARY_ITEMS as int)), ", "@) == join_with(
                item_names(items@.take(SUMMARY_ITEMS as int)),
                ", "@,
            ));
        }
        r.append(" (+");
        let more = u64_decimal((items.len() - SUMMARY_ITEMS) as u64);
        r.append(string_of(more.as_slice()).as_str());
        r.append(" more)");
        r
    } else {
        join_strings(&names, ", ")
    }
}

/// Whether a cart line is perishable.
fn any_perishable(items: &Vec<CartItem>) -> (r: bool)
    ensures
        r == exists|i: int| 0 <= i < items@.len() && (#[trigger] items@[i]).is_perishable,
{
    let mut i: usize = 0;
    while i < items.len()
        invariant
            i <= items@.len(),
            forall|j: int| 0 <= j < i ==> !(#[trigger] items@[j]).is_perishable,
        decreases items@.len() - i,
    {
        if items[i].is_perishable {
            return true;
        }
        i = i + 1;
    }
    false
}

/// The history line of one order.
fn describe_order(o: &OrderRecord) -> (r: String)
    ensures
        r@ == order_line(*o),
{
    let mut r = o.order_ref.clone();
    r.append(" on ");
    r.append(format_ymd(o.date).as_str());
    r.append(": ");
    r.append(join_strings(&o.items, ", ").as_str());
    r.append(" (");
    let total = i64_decimal(o.total_lkr);
    r.append(string_of(total.as_slice()).as_str());
    r.append(" LKR)");
    r
}

/// The order history of the profile.
fn describe_orders(os: &Vec<OrderRecord>) -> (r: String)
    ensures
        r@ == orders_text(os@),
{
    if os.len() == 0 {
        return String::from_str("None");
    }
    let mut lines: Vec<String> = Vec::new();
    let mut i: usize = 0;
    while i < os.len()
        invariant
            i <= os@.len(),
            lines@.len() == i,
            forall|k: int| 0 <= k < i ==> (#[trigger] lines@[k])@ == order_line(os@[k]),
        decreases os@.len() - i,
    {
        lines.push(describe_order(&os[i]));
        i = i + 1;
    }
    proof {
        assert(strs_view(lines@) =~= os@.map_values(|o: OrderRecord| order_line(o)));
    }
    join_strings(&lines, "\n- ")
}

/// The shipping address from the profile: line, city and zip code joined
/// with `, `, without commas and spaces at either end.
fn shipping_address(s: &SessionState) -> (r: String)
    ensures
        r@ == trim_cs_end(
            trim_cs_start(
                or_blank(s.user_profile.address_line1) + ", "@ + or_blank(s.user_profile.city)
                    + ", "@ + or_blank(s.user_profile.zip_code),
            ),
        ),
{
    let mut whole = text_or_blank(&s.user_profile.address_line1);
    whole.append(", ");
    whole.append(text_or_blank(&s.user_profile.city).as_str());
    whole.append(", ");
    whole.append(text_or_blank(&s.user_profile.zip_code).as_str());
    crate::services::malee::checkout::validate::trim_address(whole.as_str())
}

/// Derives the template variables from the session: cart counts, a short
/// cart summary, whether anything perishable is in the cart, the checkout
/// step, the known preferences and checkout details (`None` where unknown),
/// the shopper's name and whether they are returning (a name or memories),
/// the shipping address, memories and order history, favourite categories,
/// and the language instruction for the session's mode.
pub fn prompt_context(session: &SessionState) -> (c: PromptContext)
    requires
        session.cart.spec_item_count() <= u32::MAX,
        prices_fit(session.cart.items@),
    ensures
        context_matches(c, *session),
{
    let p = &session.user_profile;
    let d = &session.checkout_draft;
    let step: u32 = if d.delivery.is_some() && d.recipient.is_some() && d.sender.is_some() {
        4
    } else if d.sender.is_some() {
        3
    } else if d.recipient.is_some() {
        2
    } else if d.delivery.is_some() {
        1
    } else {
        0
    };
    let mut name = text_or_blank(&p.first_name);
    name.append(" ");
    name.append(text_or_blank(&p.last_name).as_str());
    let name_chars = chars_of(name.as_str());
    let trimmed = trim_chars(&name_chars);
    let user = string_of(trimmed.as_slice());
    let returning = trimmed.len() > 0 || p.memories.len() > 0;
    let memories = if p.memories.len() == 0 {
        String::from_str("None")
    } else {
        join_strings(&p.memories, "\n- ")
    };
    let language = match session.language_mode {
        LanguageMode::Auto | LanguageMode::English => String::from_str(
            "Respond in warm, clear English. Use Sinhala terms naturally when culturally fitting (e.g., \"Ayubowan\", \"amma\"). Keep product names and prices in English.",
        ),
        LanguageMode::Sinhala => String::from_str(
            "ප්‍රතිචාර සිංහලෙන් ලියන්න. Product names, prices, සහ technical terms (cart, checkout) English වලින් තබන්න. Sinhala script භාවිතා කරන්න, romanized Sinhala නොවේ.",
        ),
        LanguageMode::Mixed => String::from_str(
            "Match the user's Sinhala-English code-switching style. Mirror their register and warmth. Keep product names and prices in English. Use Sinhala script for Sinhala words.",
        ),
    };
    let preferred_date = match session.session_context.preferred_delivery_date {
        Some(day) => format_ymd(day),
        None => String::from_str("None"),
    };
    let (recipient_name, recipient_phone, recipient_address) = match &d.recipient {
        Some(r) => (r.name.clone(), r.phone.clone(), r.address_line1.clone()),
        None => (String::from_str("None"), String::from_str("None"), String::from_str("None")),
    };
    PromptContext {
        cart_item_count: session.cart.item_count(),
        cart_subtotal: session.cart.subtotal_lkr(),
        cart_items_summary: summarize_cart(&session.cart.items),
        has_perishable_items: any_perishable(&session.cart.items),
        checkout_step: step,
        preferred_city: text_or_none(&session.session_context.preferred_city),
        preferred_date,
        recipient_relation: text_or_none(&session.session_context.recipient_relation),
        recipient_name,
        recipient_phone,
        recipient_address,
        occasion: text_or_none(&session.session_context.occasion),
        gift_message: text_or_none(&d.gift_message),
        user_name: user,
        user_email: text_or_none(&p.email),
        user_phone: text_or_none(&p.phone),
        is_returning_user: returning,
        shipping_address: shipping_address(session),
        memories,
        orders: describe_orders(&p.order_history),
        fav_categories: join_strings(&p.favorite_categories, ", "),
        language_instruction: language,
    }
}

} // verus!
