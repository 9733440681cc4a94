use vstd::prelude::*;
use vstd::arithmetic::power::pow;
use crate::error::{ApiError, api_error, STATUS_CONFLICT, STATUS_INTERNAL_SERVER_ERROR, STATUS_NOT_FOUND};

verus! {

/// A request to create the player profile of the signed-in user.
pub struct CreatePlayerPayload {
    pub nickname: String,
}

/// The profile row the database returns for a newly created player.
pub struct CreatedPlayer {
    pub id: u128,
    pub nickname: String,
    pub data_fragments: Option<i64>,
    pub energy: Option<i32>,
}

/// The reply to a profile creation: a welcome message and the new profile.
pub struct ProfileCreated {
    pub message: String,
    pub player: CreatedPlayer,
}

pub open spec fn welcome_message() -> Seq<char> {
    "Profil creat cu succes. Bun venit în NeonDefense!"@
}

pub open spec fn nickname_taken_message() -> Seq<char> {
    "Acest nickname este deja luat!"@
}

/// The reply to a profile creation that stored `player`.
pub fn profile_created(player: CreatedPlayer) -> (r: ProfileCreated)
    ensures
        r.message@ == welcome_message(),
        r.player == player,
{
    ProfileCreated { message: "Profil creat cu succes. Bun venit în NeonDefense!".to_owned(), player }
}

/// The refusal of a profile creation that the database rejected (the nickname
/// is taken, or the user has a profile already).
pub fn nickname_taken() -> (e: ApiError)
    ensures
        e@ == api_error(STATUS_CONFLICT, nickname_taken_message()),
{
    ApiError::new(STATUS_CONFLICT, "Acest nickname este deja luat!")
}

/// The lower-case hexadecimal digit for `n` (0 to 15).
pub open spec fn hex_digit(n: int) -> char {
    if n < 10 {
        (48 + n) as char
    } else {
        (87 + n) as char
    }
}

/// The `k`-th of the 32 hexadecimal digits of `id`, most significant first.
pub open spec fn uuid_digit(id: u128, k: int) -> int {
    (id as int / pow(16, (31 - k) as nat)) % 16
}

/// How many hyphens precede position `p` of a hyphenated UUID.
pub open spec fn hyphens_before(p: int) -> int {
    if p < 9 {
        0
    } else if p < 14 {
        1
    } else if p < 19 {
        2
    } else if p < 24 {
        3
    } else {
        4
    }
}

/// The hyphenated lower-case text of the UUID whose 128 bits, most significant
/// first, are `id`: 32 hexadecimal digits in groups of 8, 4, 4, 4 and 12.
pub open spec fn uuid_text(id: u128) -> Seq<char> {
    Seq::new(
        36,
        |p: int|
            if p == 8 || p == 13 || p == 18 || p == 23 {
                '-'
            } else {
                hex_digit(uuid_digit(id, p - hyphens_before(p)))
            },
    )
}

/// Calls `uuid::Uuid::from_u128` and renders the UUID with `to_string`, which
/// writes the hyphenated lower-case form of its big-endian bytes.
#[verifier::external_body]
fn uuid_to_text(id: u128) -> (s: String)
    ensures
        s@ == uuid_text(id),
{
    uuid::Uuid::from_u128(id).to_string()
}

/// An inventory row as the database returns it.
pub struct InventoryRecord {
    pub id: u128,
    pub item_type: String,
    pub rarity: Option<i32>,
    pub level: Option<i32>,
    pub is_equipped: Option<bool>,
}

/// One inventory item as the client receives it.
pub struct InventoryItemResponse {
    pub id: u128,
    pub item_type: String,
    pub rarity: i32,
    pub level: i32,
    pub is_equipped: bool,
}

/// The complete profile the client receives.
#[allow(non_snake_case)]
pub struct PlayerProfileResponse {
    pub nickname: String,
    pub accountId: String,
    pub data_fragments: i64,
    pub crypto_cores: i32,
    pub energy: i32,
    pub isOfflineMode: bool,
    pub inventory: Vec<InventoryItemResponse>,
}

/// A player row as the database returns it.
pub struct PlayerRecord {
    pub id: u128,
    pub nickname: String,
    pub data_fragments: Option<i64>,
    pub crypto_cores: Option<i32>,
    pub energy: Option<i32>,
}

/// An inventory row read for the client: a missing rarity reads as 0, a missing
/// level as 1, a missing equipped flag as not equipped.
pub open spec fn item_reads_as(record: InventoryRecord, item: InventoryItemResponse) -> bool {
    &&& item.id == record.id
    &&& item.item_type@ == record.item_type@
    &&& item.rarity == match record.rarity {
        Some(r) => r,
        None => 0,
    }
    &&& item.level == match record.level {
        Some(l) => l,
        None => 1,
    }
    &&& item.is_equipped == match record.is_equipped {
        Some(e) => e,
        None => false,
    }
}

/// The client's view of one inventory row.
pub fn inventory_item(record: &InventoryRecord) -> (item: InventoryItemResponse)
    ensures
        item_reads_as(*record, item),
{
    InventoryItemResponse {
        id: record.id,
        item_type: record.item_type.clone(),
        rarity: match record.rarity {
            Some(r) => r,
            None => 0,
        },
        level: match record.level {
            Some(l) => l,
            None => 1,
        },
        is_equipped: match record.is_equipped {
            Some(e) => e,
            None => false,
        },
    }
}

pub open spec fn profile_failed_message() -> Seq<char> {
    "Eroare DB la profil"@
}

pub open spec fn profile_missing_message() -> Seq<char> {
    "Profilul nu a fost găsit!"@
}

pub open spec fn inventory_failed_message() -> Seq<char> {
    "Eroare DB la inventar"@
}

/// What looking up the signed-in user's (not deleted) player came to.
pub enum PlayerLookup {
    Failed,
    NotFound,
    Found(PlayerRecord),
}

/// The player whose profile is shown, or the refusal: a database error is the
/// service's fault, a missing player is not found.
pub fn profile_player(lookup: PlayerLookup) -> (r: Result<PlayerRecord, ApiError>)
    ensures
        lookup is Failed ==> (r matches Err(e) && e@ == api_error(STATUS_INTERNAL_SERVER_ERROR, profile_failed_message())),
        lookup is NotFound ==> (r matches Err(e) && e@ == api_error(STATUS_NOT_FOUND, profile_missing_message())),
        lookup matches PlayerLookup::Found(p) ==> r == Ok::<PlayerRecord, ApiError>(p),
{
    match lookup {
        PlayerLookup::Failed => Err(ApiError::new(STATUS_INTERNAL_SERVER_ERROR, "Eroare DB la profil")),
        PlayerLookup::NotFound => Err(ApiError::new(STATUS_NOT_FOUND, "Profilul nu a fost găsit!")),
        PlayerLookup::Found(p) => Ok(p),
    }
}

/// The profile of `player` with its inventory (`None` where reading the
/// inventory failed, which is refused as the service's fault). Missing
/// balances read as zero; the account id is the player's UUID in text.
pub fn player_profile(player: PlayerRecord, inventory: Option<Vec<InventoryRecord>>) -> (r: Result<
    PlayerProfileResponse,
    ApiError,
>)
    ensures
        inventory is None ==> (r matches Err(e) && e@ == api_error(STATUS_INTERNAL_SERVER_ERROR, inventory_failed_message())),
        inventory matches Some(records) ==> (r matches Ok(p) && {
            &&& p.nickname@ == player.nickname@
            &&& p.accountId@ == uuid_text(player.id)
            &&& p.data_fragments == match player.data_fragments {
                Some(v) => v,
                None => 0,
            }
            &&& p.crypto_cores == match player.crypto_cores {
                Some(v) => v,
                None => 0,
            }
            &&& p.energy == match player.energy {
                Some(v) => v,
                None => 0,
            }
            &&& !p.isOfflineMode
            &&& p.inventory@.len() == records@.len()
            &&& forall|i: int| 0 <= i < records@.len() ==> item_reads_as(records@[i], #[trigger] p.inventory@[i])
        }),
{
    match inventory {
        None => Err(ApiError::new(STATUS_INTERNAL_SERVER_ERROR, "Eroare DB la inventar")),
        Some(records) => {
            let mut items: Vec<InventoryItemResponse> = Vec::new();
            let mut i: usize = 0;
            while i < records.len()
                invariant
                    i <= records@.len(),
                    items@.len() == i,
                    forall|j: int| 0 <= j < i ==> item_reads_as(records@[j], #[trigger] items@[j]),
                decreases records@.len() - i,
            {
                items.push(inventory_item(&records[i]));
                i = i + 1;
            }
            Ok(PlayerProfileResponse {
                nickname: player.nickname,
                accountId: uuid_to_text(player.id),
                data_fragments: match player.data_fragments {
                    Some(v) => v,
                    None => 0,
                },
                crypto_cores: match player.crypto_cores {
                    Some(v) => v,
                    None => 0,
                },
                energy: match player.energy {
                    Some(v) => v,
                    None => 0,
                },
                isOfflineMode: false,
                inventory: items,
            })
        },
    }
}

} // verus!
