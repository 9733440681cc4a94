use vstd::prelude::*;
use crate::error::{ApiError, api_error, STATUS_INTERNAL_SERVER_ERROR};
use crate::json::{JsonMember, JsonNumber, JsonValue};

verus! {

pub open spec fn fallback_version() -> Seq<char> {
    "1.0.0-default"@
}

/// `config` is the configuration used while none is active:
/// `{"engine": {"tick_rate": 60}}`.
pub open spec fn is_fallback_config(config: JsonValue) -> bool {
    &&& config matches JsonValue::Object(top)
    &&& top@.len() == 1
    &&& top@[0].key@ == "engine"@
    &&& top@[0].value matches JsonValue::Object(engine)
    &&& engine@.len() == 1
    &&& engine@[0].key@ == "tick_rate"@
    &&& engine@[0].value == JsonValue::Number(JsonNumber::PosInt(60))
}

/// The version and configuration sent while no configuration is marked active.
pub fn fallback_config() -> (r: (String, JsonValue))
    ensures
        r.0@ == fallback_version(),
        is_fallback_config(r.1),
{
    let mut engine: Vec<JsonMember> = Vec::new();
    engine.push(JsonMember { key: "tick_rate".to_owned(), value: JsonValue::Number(JsonNumber::PosInt(60)) });
    let mut top: Vec<JsonMember> = Vec::new();
    top.push(JsonMember { key: "engine".to_owned(), value: JsonValue::Object(engine) });
    ("1.0.0-default".to_owned(), JsonValue::Object(top))
}

pub open spec fn config_failed_message() -> Seq<char> {
    "Eroare la citirea configurației."@
}

pub open spec fn store_failed_message() -> Seq<char> {
    "Eroare la citirea magazinului."@
}

/// The refusal when the active configuration cannot be read.
pub fn config_read_failed() -> (e: ApiError)
    ensures
        e@ == api_error(STATUS_INTERNAL_SERVER_ERROR, config_failed_message()),
{
    ApiError::new(STATUS_INTERNAL_SERVER_ERROR, "Eroare la citirea configurației.")
}

/// The refusal when the store's items cannot be read.
pub fn store_read_failed() -> (e: ApiError)
    ensures
        e@ == api_error(STATUS_INTERNAL_SERVER_ERROR, store_failed_message()),
{
    ApiError::new(STATUS_INTERNAL_SERVER_ERROR, "Eroare la citirea magazinului.")
}

/// A store row as the database returns it (its price is handled apart).
pub struct StoreRecord {
    pub item_sku: String,
    pub display_name: String,
    pub rarity: Option<String>,
    pub currency: Option<String>,
    pub reward_type: String,
    pub reward_amount: i32,
    pub stock: Option<i32>,
}

/// A store item as the client receives it (its price is handled apart).
pub struct StoreItem {
    pub item_sku: String,
    pub display_name: String,
    pub rarity: String,
    pub currency: String,
    pub reward_type: String,
    pub reward_amount: i32,
    pub stock: i32,
}

/// Stock of an item with no stock limit.
pub const UNLIMITED_STOCK: i32 = -1;

/// A store row read for the client: a missing rarity reads as common, a
/// missing currency as US dollars, a missing stock as unlimited.
pub fn store_item(record: StoreRecord) -> (item: StoreItem)
    ensures
        item.item_sku == record.item_sku,
        item.display_name == record.display_name,
        item.rarity@ == match record.rarity {
            Some(r) => r@,
            None => "COMMON"@,
        },
        item.currency@ == match record.currency {
            Some(c) => c@,
            None => "USD"@,
        },
        item.reward_type == record.reward_type,
        item.reward_amount == record.reward_amount,
        item.stock == match record.stock {
            Some(s) => s,
            None => UNLIMITED_STOCK,
        },
{
    StoreItem {
        item_sku: record.item_sku,
        display_name: record.display_name,
        rarity: match record.rarity {
            Some(r) => r,
            None => "COMMON".to_owned(),
        },
        currency: match record.currency {
            Some(c) => c,
            None => "USD".to_owned(),
        },
        reward_type: record.reward_type,
        reward_amount: record.reward_amount,
        stock: match record.stock {
            Some(s) => s,
            None => UNLIMITED_STOCK,
        },
    }
}

} // verus!
