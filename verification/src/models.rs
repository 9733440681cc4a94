use vstd::prelude::*;
use crate::json::JsonValue;

verus! {

/// A point in time, as seconds since the Unix epoch and the nanoseconds
/// within that second.
pub struct Timestamp {
    pub secs: i64,
    pub nanos: u32,
}

/// A recorded analytics event.
pub struct AnalyticsEvent {
    pub id: i64,
    pub player_id: u128,
    pub event_type: String,
    pub event_data: JsonValue,
    pub created_at: Timestamp,
}

/// An item in a player's inventory.
pub struct InventoryItem {
    pub id: u128,
    pub player_id: u128,
    pub item_type: String,
    pub rarity: i32,
    pub level: i32,
    pub is_equipped: bool,
    pub acquired_at: Timestamp,
}

impl InventoryItem {
    /// Equipping is not implemented yet: the item is left as it is.
    pub fn equip(&mut self)
        ensures
            *final(self) == *old(self),
    {
    }

    /// Merging is not implemented yet: no two items can be merged.
    pub fn can_be_merged_with(&self, other_item: &InventoryItem) -> (r: bool)
        ensures
            !r,
    {
        false
    }
}

/// A player profile with its balances.
pub struct Player {
    pub id: u128,
    pub user_id: u128,
    pub nickname: String,
    pub coins: i64,
    pub crypto_cores: i32,
    pub energy: i32,
    pub is_shadowbanned: bool,
    pub is_deleted: bool,
    pub created_at: Timestamp,
    pub updated_at: Timestamp,
}

impl Player {
    /// Adding coins is not implemented yet: the player is left as it is.
    pub fn add_coins(&mut self, amount: i64)
        ensures
            *final(self) == *old(self),
    {
    }

    /// The energy check is not implemented yet: every deduction is accepted
    /// and the player is left as it is.
    pub fn deduct_energy(&mut self, amount: i32) -> (r: Result<(), String>)
        ensures
            r is Ok,
            *final(self) == *old(self),
    {
        Ok(())
    }

    /// The reset is not implemented yet: the player is left as it is.
    pub fn trigger_hard_reset(&mut self)
        ensures
            *final(self) == *old(self),
    {
    }
}

/// A user account.
pub struct User {
    pub id: u128,
    pub email: Option<String>,
    pub password_hash: Option<String>,
    pub auth_provider: String,
    pub is_deleted: bool,
    pub created_at: Timestamp,
}

impl User {
    /// Password checks on this record are not implemented: no password is
    /// accepted.
    pub fn verify_password(&self, input_password: &str) -> (r: bool)
        ensures
            !r,
    {
        false
    }

    /// Deletion is not implemented yet: the user is left as it is.
    pub fn mark_as_deleted(&mut self)
        ensures
            *final(self) == *old(self),
    {
    }
}

} // verus!
