//! What the agent has learned about the shopper.
use vstd::prelude::*;
use crate::time::Day;

verus! {

/// Facts about the shopper and the gift they are after.
#[derive(Debug, Clone)]
pub struct UserProfile {
    pub recipient_relation: Option<String>,
    pub occasion: Option<String>,
    pub budget_min_lkr: Option<i64>,
    pub budget_max_lkr: Option<i64>,
    pub preferred_city: Option<String>,
    pub preferred_delivery_date: Option<Day>,
    pub first_name: Option<String>,
    pub last_name: Option<String>,
    pub email: Option<String>,
    pub phone: Option<String>,
    pub address_line1: Option<String>,
    pub city: Option<String>,
    pub zip_code: Option<String>,
    pub favorite_categories: Vec<String>,
    pub memories: Vec<String>,
    pub order_history: Vec<OrderRecord>,
}

/// An order placed earlier; `date` is its UTC date.
#[derive(Debug, Clone)]
pub struct OrderRecord {
    pub order_ref: String,
    pub date: Day,
    pub items: Vec<String>,
    pub total_lkr: i64,
}

impl Default for UserProfile {
    fn default() -> (r: Self)
        ensures
            r.recipient_relation is None,
            r.occasion is None,
            r.budget_min_lkr is None,
            r.budget_max_lkr is None,
            r.preferred_city is None,
            r.preferred_delivery_date is None,
            r.first_name is None,
            r.last_name is None,
            r.email is None,
            r.phone is None,
            r.address_line1 is None,
            r.city is None,
            r.zip_code is None,
            r.favorite_categories@.len() == 0,
            r.memories@.len() == 0,
            r.order_history@.len() == 0,
    {
        UserProfile {
            recipient_relation: None,
            occasion: None,
            budget_min_lkr: None,
            budget_max_lkr: None,
            preferred_city: None,
            preferred_delivery_date: None,
            first_name: None,
            last_name: None,
            email: None,
            phone: None,
            address_line1: None,
            city: None,
            zip_code: None,
            favorite_categories: Vec::new(),
            memories: Vec::new(),
            order_history: Vec::new(),
        }
    }
}

/// Delivery preferences gathered during the conversation.
#[derive(Debug, Clone)]
pub struct SessionContext {
    pub recipient_relation: Option<String>,
    pub occasion: Option<String>,
    pub preferred_city: Option<String>,
    pub preferred_delivery_date: Option<Day>,
}

impl Default for SessionContext {
    fn default() -> (r: Self)
        ensures
            r.recipient_relation is None,
            r.occasion is None,
            r.preferred_city is None,
            r.preferred_delivery_date is None,
    {
        SessionContext {
            recipient_relation: None,
            occasion: None,
            preferred_city: None,
            preferred_delivery_date: None,
        }
    }
}

} // verus!
