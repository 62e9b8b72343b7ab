//! The checkout draft filled in step by step before an order is placed.
use vstd::prelude::*;
use crate::time::Day;

verus! {

/// Who receives the gift.
#[derive(Debug, Clone)]
pub struct RecipientInfo {
    pub name: String,
    pub phone: String,
    pub address_line1: String,
    pub address_line2: Option<String>,
    pub city: String,
}

/// State of the delivery-fee quote.
#[derive(Debug, Clone, Copy, PartialEq, Eq, Structural)]
pub enum QuoteStatus {
    Pending,
    Quoted,
    Unavailable,
}

/// Where and when to deliver.
#[derive(Debug, Clone)]
pub struct DeliveryInfo {
    pub date: Day,
    pub city: String,
    pub quote_status: QuoteStatus,
}

/// Who sends the gift.
#[derive(Debug, Clone)]
pub struct SenderInfo {
    pub name: String,
    pub email: String,
    pub phone: String,
}

/// The checkout form, each part optional until filled.
#[derive(Debug, Clone)]
pub struct CheckoutDraft {
    pub recipient: Option<RecipientInfo>,
    pub delivery: Option<DeliveryInfo>,
    pub sender: Option<SenderInfo>,
    pub gift_message: Option<String>,
    pub special_instructions: Option<String>,
    pub location_type: Option<String>,
}

impl Default for CheckoutDraft {
    fn default() -> (r: Self)
        ensures
            r.recipient is None,
            r.delivery is None,
            r.sender is None,
            r.gift_message is None,
            r.special_instructions is None,
            r.location_type is None,
    {
        CheckoutDraft {
            recipient: None,
            delivery: None,
            sender: None,
            gift_message: None,
            special_instructions: None,
            location_type: None,
        }
    }
}

} // verus!
