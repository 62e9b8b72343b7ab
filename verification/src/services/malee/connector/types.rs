//! Arguments and replies of the commerce connector's tools.
use vstd::prelude::*;
use crate::models::malee::events::TrackingEvent;

verus! {

/// Arguments of `kapruka_get_product`.
#[derive(Debug, Clone)]
pub struct GetProductArgs {
    pub product_id: String,
    pub response_format: String,
}

/// A product's extra attributes.
#[derive(Debug, Clone)]
pub struct ProductAttributes {
    pub vendor: Option<String>,
}

/// Arguments of `kapruka_list_categories`.
#[derive(Debug, Clone)]
pub struct ListCategoriesArgs {
    pub response_format: String,
}

/// Reply of `kapruka_list_categories`.
#[derive(Debug, Clone)]
pub struct CategoryResponse {
    pub categories: Vec<Category>,
}

/// A product category.
#[derive(Debug, Clone)]
pub struct Category {
    pub id: String,
    pub name: String,
    pub url: Option<String>,
}

/// Arguments of `kapruka_list_delivery_cities`.
#[derive(Debug, Clone)]
pub struct ListCitiesArgs {
    pub query: Option<String>,
    pub limit: Option<u32>,
    pub response_format: String,
}

/// Reply of `kapruka_list_delivery_cities`.
#[derive(Debug, Clone)]
pub struct ListCitiesResponse {
    pub cities: Vec<CityInfo>,
}

/// A delivery city and its other names.
#[derive(Debug, Clone)]
pub struct CityInfo {
    pub name: String,
    pub aliases: Vec<String>,
}

/// Arguments of `kapruka_check_delivery`.
#[derive(Debug, Clone)]
pub struct CheckDeliveryArgs {
    pub city: String,
    pub date: String,
    pub product_id: Option<String>,
    pub response_format: String,
}

/// Arguments of `kapruka_create_order`.
#[derive(Debug, Clone)]
pub struct CreateOrderArgs {
    pub cart: Vec<McpCartItem>,
    pub recipient: McpRecipient,
    pub delivery: McpDelivery,
    pub sender: McpSender,
    pub gift_message: Option<String>,
    pub currency: String,
    pub response_format: String,
}

/// One ordered product.
#[derive(Debug, Clone)]
pub struct McpCartItem {
    pub product_id: String,
    pub quantity: u32,
    pub icing_text: Option<String>,
}

/// The order's recipient.
#[derive(Debug, Clone)]
pub struct McpRecipient {
    pub name: String,
    pub phone: String,
}

/// The order's delivery.
#[derive(Debug, Clone)]
pub struct McpDelivery {
    pub address: String,
    pub city: String,
    pub date: String,
    pub instructions: Option<String>,
    pub location_type: Option<String>,
}

/// The order's sender; the e-mail address is never sent.
#[derive(Debug, Clone)]
pub struct McpSender {
    pub name: String,
    pub email: Option<String>,
    pub anonymous: bool,
}

/// Arguments of `kapruka_track_order`.
#[derive(Debug, Clone)]
pub struct TrackOrderArgs {
    pub order_number: String,
    pub response_format: String,
}

/// Reply of `kapruka_track_order`.
#[derive(Debug, Clone)]
pub struct OrderTracking {
    pub status: String,
    pub recipient: RecipientSummary,
    pub items: Vec<OrderItemSummary>,
    pub progress: Vec<TrackingEvent>,
}

/// The recipient named in a tracking reply.
#[derive(Debug, Clone)]
pub struct RecipientSummary {
    pub name: String,
}

/// An item named in a tracking reply.
#[derive(Debug, Clone)]
pub struct OrderItemSummary {
    pub name: String,
}

} // verus!
