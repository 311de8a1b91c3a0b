//! The transfer request carried by the message stream.
use vstd::prelude::*;
use crate::model::TokenCode;

verus! {

/// One transfer request; `tag_id` is its idempotency key.
#[derive(Clone, Debug)]
pub struct Msg {
    pub from_user_id: String,
    pub to_user_id: String,
    pub order_id: String,
    pub point: i64,
    pub coin_code: TokenCode,
    pub gen_time: i64,
    pub tag_id: String,
    pub ext_json: Option<String>,
    pub store_id: Option<String>,
}

} // verus!
