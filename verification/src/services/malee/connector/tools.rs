//! Names of the tools the commerce connector and the agent expose.
use vstd::prelude::*;

verus! {

pub const TOOL_SEARCH_PRODUCTS: &'static str = "kapruka_search_products";
pub const TOOL_GET_PRODUCT: &'static str = "kapruka_get_product";
pub const TOOL_LIST_CATEGORIES: &'static str = "kapruka_list_categories";
pub const TOOL_LIST_CITIES: &'static str = "kapruka_list_delivery_cities";
pub const TOOL_CHECK_DELIVERY: &'static str = "kapruka_check_delivery";
pub const TOOL_CREATE_ORDER: &'static str = "kapruka_create_order";
pub const TOOL_TRACK_ORDER: &'static str = "kapruka_track_order";
pub const TOOL_ADD_TO_CART: &'static str = "add_to_cart";
pub const TOOL_REMOVE_FROM_CART: &'static str = "remove_from_cart";
pub const TOOL_SET_QUANTITY: &'static str = "set_quantity";
pub const TOOL_CLEAR_CART: &'static str = "clear_cart";
pub const TOOL_SETUP_DELIVERY: &'static str = "setup_delivery";
pub const TOOL_SAVE_USER_FACT: &'static str = "save_user_fact";
pub const TOOL_UPDATE_USER_PROFILE: &'static str = "update_user_profile";

} // verus!
