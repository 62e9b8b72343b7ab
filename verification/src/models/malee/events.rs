//! Events streamed to the web client, and the views they carry.
use vstd::prelude::*;
use crate::models::malee::cart::{prices_fit, CartItem, CartState};
use crate::models::malee::checkout::{CheckoutDraft, RecipientInfo, SenderInfo};
use crate::text::clone_opt;
use crate::time::{format_ymd, ymd_text};
use crate::services::malee::llm::tools::QuestionField;

verus! {

/// A product as a card in a carousel.
#[derive(Debug, Clone)]
pub struct ProductCardView {
    pub id: String,
    pub name: String,
    pub price_lkr: i64,
    pub image_url: Option<String>,
    pub in_stock: bool,
}

/// A product's detail page.
#[derive(Debug, Clone)]
pub struct ProductDetailView {
    pub id: String,
    pub name: String,
    pub description: Option<String>,
    pub price_lkr: i64,
    pub image_urls: Vec<String>,
    pub in_stock: bool,
    pub is_perishable: bool,
    pub vendor_name: Option<String>,
}

/// A category tile.
#[derive(Debug, Clone)]
pub struct CategoryView {
    pub id: String,
    pub name: String,
    pub image_url: Option<String>,
}

/// The cart as the client shows it.
#[derive(Debug, Clone)]
pub struct CartView {
    pub items: Vec<CartItem>,
    pub item_count: u32,
    pub subtotal_lkr: i64,
}

/// The checkout draft as the client shows it; the date is printed.
#[derive(Debug, Clone)]
pub struct CheckoutDraftView {
    pub recipient: Option<RecipientInfo>,
    pub delivery_city: Option<String>,
    pub delivery_date: Option<String>,
    pub sender: Option<SenderInfo>,
    pub gift_message: Option<String>,
    pub special_instructions: Option<String>,
    pub location_type: Option<String>,
}

/// One step of an order's delivery progress.
#[derive(Debug, Clone)]
pub struct TrackingEvent {
    pub status: String,
    pub timestamp: Option<String>,
    pub location: Option<String>,
}

/// An event for the client.
#[derive(Debug, Clone)]
#[allow(inconsistent_fields)]
pub enum UiEvent {
    /// A piece of the assistant's reply.
    Token { text: String },
    /// The assistant's reply is complete.
    AssistantMessageDone { full_text: String },
    /// Something went wrong.
    Error { code: String, message: String, recoverable: bool },
    /// The cart changed.
    CartUpdated { cart: CartView },
    /// How far the checkout has come.
    CheckoutProgress {
        current_step: u32,
        total_steps: u32,
        step_name: String,
        missing_fields: Vec<String>,
    },
    /// The checkout form to fill in.
    CheckoutForm { draft: CheckoutDraftView, missing_fields: Vec<String> },
    /// Questions for the shopper.
    QuestionPrompt { questions: Vec<QuestionField> },
    /// Search results.
    ProductCarousel { title: String, subtitle: Option<String>, items: Vec<ProductCardView> },
    /// One product in detail.
    ProductDetail { item: ProductDetailView },
    /// Categories to browse.
    CategoryGrid { categories: Vec<CategoryView> },
    /// Cities matching a query.
    CitySuggestions { query: String, cities: Vec<String> },
    /// A delivery quote.
    DeliveryQuote {
        city: String,
        date: String,
        rate_lkr: i64,
        deliverable: bool,
        perishable_warning: bool,
        next_available_date: Option<String>,
    },
    /// An order was created and awaits payment.
    CheckoutReady {
        pay_url: String,
        order_ref: String,
        expires_in_minutes: u32,
        cart_summary: Vec<CartItem>,
    },
    /// An order's tracking status.
    TrackingResult {
        order_number: String,
        status: String,
        recipient: String,
        items: Vec<String>,
        timeline: Vec<TrackingEvent>,
    },
}

impl CartView {
    /// The view of a cart: its lines, unit count and subtotal.
    pub fn of_cart(cart: &CartState) -> (r: CartView)
        requires
            cart.spec_item_count() <= u32::MAX,
            prices_fit(cart.items@),
        ensures
            r.items@ == cart.items@,
            r.item_count == cart.spec_item_count(),
            r.subtotal_lkr == cart.spec_subtotal_lkr(),
    {
        let copy = cart.duplicate();
        CartView {
            items: copy.items,
            item_count: cart.item_count(),
            subtotal_lkr: cart.subtotal_lkr(),
        }
    }
}

/// A copy of an optional recipient.
fn copy_recipient(r: &Option<RecipientInfo>) -> (c: Option<RecipientInfo>)
    ensures
        c == *r,
{
    match r {
        Some(x) => Some(
            RecipientInfo {
                name: x.name.clone(),
                phone: x.phone.clone(),
                address_line1: x.address_line1.clone(),
                address_line2: clone_opt(&x.address_line2),
                city: x.city.clone(),
            },
        ),
        None => None,
    }
}

/// A copy of an optional sender.
fn copy_sender(s: &Option<SenderInfo>) -> (c: Option<SenderInfo>)
    ensures
        c == *s,
{
    match s {
        Some(x) => Some(
            SenderInfo { name: x.name.clone(), email: x.email.clone(), phone: x.phone.clone() },
        ),
        None => None,
    }
}

impl CheckoutDraftView {
    /// The view of a draft: its parts, with the delivery date printed.
    pub fn of_draft(d: &CheckoutDraft) -> (r: CheckoutDraftView)
        ensures
            r.recipient == d.recipient,
            r.sender == d.sender,
            r.gift_message == d.gift_message,
            r.special_instructions == d.special_instructions,
            r.location_type == d.location_type,
            match d.delivery {
                Some(x) => (r.delivery_city matches Some(c) && c@ == x.city@) && (
                r.delivery_date matches Some(t) && t@ == ymd_text(x.date.spec_days())),
                None => r.delivery_city is None && r.delivery_date is None,
            },
    {
        let (city, date) = match &d.delivery {
            Some(x) => (Some(x.city.clone()), Some(format_ymd(x.date))),
            None => (None, None),
        };
        CheckoutDraftView {
            recipient: copy_recipient(&d.recipient),
            delivery_city: city,
            delivery_date: date,
            sender: copy_sender(&d.sender),
            gift_message: clone_opt(&d.gift_message),
            special_instructions: clone_opt(&d.special_instructions),
            location_type: clone_opt(&d.location_type),
        }
    }
}

} // verus!
