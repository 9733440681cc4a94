use vstd::prelude::*;
use crate::error::{ApiError, api_error, STATUS_NOT_ACCEPTABLE};
use crate::json::{double_below, JsonNumber, JsonValue, DOUBLE_SIGN_BIT};

verus! {

/// Most data fragments a single match may report as earned.
pub const MAX_EARNED_DATA_FRAGMENTS: i64 = 50000;
/// Most crypto cores a single match may report as earned.
pub const MAX_EARNED_CRYPTO_CORES: i32 = 500;
/// Most data fragments a single kill may be worth.
pub const MAX_KILL_REWARD: i64 = 500;
/// A match that lasts fewer seconds than this is short.
pub const MIN_PLAUSIBLE_MATCH_SECONDS: u64 = 10;
/// [`MIN_PLAUSIBLE_MATCH_SECONDS`] as an IEEE-754 double (`10.0`), by its bit pattern.
pub const MIN_PLAUSIBLE_MATCH_SECONDS_BITS: u64 = 0x4024_0000_0000_0000;
/// Most kills a short match may report.
pub const MAX_KILLS_IN_SHORT_MATCH: i64 = 5;

/// An item the client found during the match.
pub struct NewItemPayload {
    pub id: u128,
    pub item_type: String,
    pub rarity: i32,
    pub level: i32,
}

/// One logged in-match action.
///
/// `event_data` is the action's data as a JSON document: where the client sent
/// a JSON string, it is the document that string holds (see [`unpack_event_data`]).
pub struct MatchActionPayload {
    pub event_type: String,
    pub event_data: JsonValue,
}

/// The upload the client sends when the player returns to the hub.
pub struct SyncRequest {
    pub earned_df: i64,
    pub earned_crypto_cores: i32,
    pub energy_used: i32,
    pub new_items: Vec<NewItemPayload>,
    pub actions: Vec<MatchActionPayload>,
}

/// The data of an action, unpacked: a JSON string is replaced by the document it
/// holds (`parsed_text`, the result of reading that string as JSON), or by an
/// empty object where it holds none; any other value is kept as it is.
pub fn unpack_event_data(raw: JsonValue, parsed_text: Option<JsonValue>) -> (data: JsonValue)
    ensures
        raw is Text && parsed_text is Some ==> data == parsed_text.unwrap(),
        raw is Text && parsed_text is None ==> data.is_empty_object(),
        !(raw is Text) ==> data == raw,
{
    match raw {
        JsonValue::Text(_) => match parsed_text {
            Some(doc) => doc,
            None => JsonValue::Object(Vec::new()),
        },
        _ => raw,
    }
}

/// Whether the amounts a match upload claims are out of bounds: too many data
/// fragments, too many crypto cores, or a negative energy cost.
pub open spec fn breaks_limits(earned_df: i64, earned_crypto_cores: i32, energy_used: i32) -> bool {
    ||| earned_df > MAX_EARNED_DATA_FRAGMENTS
    ||| earned_crypto_cores > MAX_EARNED_CRYPTO_CORES
    ||| energy_used < 0
}

pub open spec fn limits_message() -> Seq<char> {
    "Date invalide. Validare anti-cheat eșuată!"@
}

/// Refuses an upload whose claimed amounts are out of bounds.
pub fn check_limits(request: &SyncRequest) -> (r: Result<(), ApiError>)
    ensures
        r is Ok <==> !breaks_limits(request.earned_df, request.earned_crypto_cores, request.energy_used),
        r is Err <==> (request.earned_df > 50000 || request.earned_crypto_cores > 500 || request.energy_used < 0),
        r matches Err(e) ==> e@ == api_error(STATUS_NOT_ACCEPTABLE, limits_message()),
{
    if request.earned_df > MAX_EARNED_DATA_FRAGMENTS || request.earned_crypto_cores > MAX_EARNED_CRYPTO_CORES
        || request.energy_used < 0 {
        Err(ApiError::new(STATUS_NOT_ACCEPTABLE, "Date invalide. Validare anti-cheat eșuată!"))
    } else {
        Ok(())
    }
}

/// What the anti-cheat rules make of one action.
pub enum ActionVerdict {
    /// A kill worth at most [`MAX_KILL_REWARD`]; the reward counts toward the
    /// data fragments the server computes for the match.
    KillReward(i64),
    /// A kill claimed to be worth more than [`MAX_KILL_REWARD`].
    SuspiciousKill(i64),
    /// An ability use, with the ability's id.
    AbilityUsed(i64),
    /// A completed match whose kill count is plausible for its duration.
    MatchVerified(i64),
    /// A completed match with more than [`MAX_KILLS_IN_SHORT_MATCH`] kills in
    /// less than [`MIN_PLAUSIBLE_MATCH_SECONDS`] seconds.
    ImplausibleMatch(i64),
    /// Any other event: stored, not judged.
    Other,
}

impl ActionVerdict {
    /// The action counts against the match.
    pub open spec fn flagged(self) -> bool {
        self is SuspiciousKill || self is ImplausibleMatch
    }
}

/// The integer stored under `key`; zero where the member is missing or is not
/// an integer that fits in `i64`.
pub open spec fn integer_field(data: JsonValue, key: Seq<char>) -> i64 {
    match data.member(key) {
        Some(v) => match v.to_i64() {
            Some(n) => n,
            None => 0,
        },
        None => 0,
    }
}

/// Whether a duration in seconds is below [`MIN_PLAUSIBLE_MATCH_SECONDS`]; a
/// value that is not a number reads as zero seconds.
pub open spec fn duration_below_min(v: JsonValue) -> bool {
    match v {
        JsonValue::Number(JsonNumber::PosInt(u)) => u < MIN_PLAUSIBLE_MATCH_SECONDS,
        JsonValue::Number(JsonNumber::NegInt(_)) => true,
        JsonValue::Number(JsonNumber::Float(bits)) => double_below(bits, MIN_PLAUSIBLE_MATCH_SECONDS_BITS),
        _ => true,
    }
}

/// Whether the match lasted less than [`MIN_PLAUSIBLE_MATCH_SECONDS`]; a
/// missing duration reads as zero seconds.
pub open spec fn short_match(data: JsonValue) -> bool {
    match data.member("duration"@) {
        Some(v) => duration_below_min(v),
        None => true,
    }
}

fn is_duration_below_min(v: &JsonValue) -> (r: bool)
    ensures
        r == duration_below_min(*v),
{
    match v {
        JsonValue::Number(JsonNumber::PosInt(u)) => *u < MIN_PLAUSIBLE_MATCH_SECONDS,
        JsonValue::Number(JsonNumber::NegInt(_)) => true,
        JsonValue::Number(JsonNumber::Float(bits)) => *bits >= DOUBLE_SIGN_BIT || *bits < MIN_PLAUSIBLE_MATCH_SECONDS_BITS,
        _ => true,
    }
}

/// The verdict on an action of type `event_type` carrying `data`.
pub open spec fn verdict(event_type: Seq<char>, data: JsonValue) -> ActionVerdict {
    if event_type == "ENEMY_KILLED"@ {
        let value = integer_field(data, "value"@);
        if value > MAX_KILL_REWARD {
            ActionVerdict::SuspiciousKill(value)
        } else {
            ActionVerdict::KillReward(value)
        }
    } else if event_type == "ABILITY_USED"@ {
        ActionVerdict::AbilityUsed(integer_field(data, "value"@))
    } else if event_type == "MATCH_COMPLETED"@ {
        let kills = integer_field(data, "enemies_killed"@);
        if short_match(data) && kills > MAX_KILLS_IN_SHORT_MATCH {
            ActionVerdict::ImplausibleMatch(kills)
        } else {
            ActionVerdict::MatchVerified(kills)
        }
    } else {
        ActionVerdict::Other
    }
}

pub open spec fn verdict_of(action: MatchActionPayload) -> ActionVerdict {
    verdict(action.event_type@, action.event_data)
}

fn read_integer_field(data: &JsonValue, key: &str) -> (n: i64)
    ensures
        n == integer_field(*data, key@),
{
    let key = key.to_owned();
    match data.get(&key) {
        Some(v) => match v.as_i64() {
            Some(n) => n,
            None => 0,
        },
        None => 0,
    }
}

/// Judges one action.
pub fn classify_action(action: &MatchActionPayload) -> (v: ActionVerdict)
    ensures
        v == verdict_of(*action),
        action.event_type@ == "ENEMY_KILLED"@ ==> (v.flagged() <==> integer_field(action.event_data, "value"@) > 500),
{
    proof {
        law_kill_is_flagged_above_five_hundred(action.event_data);
    }
    let data = &action.event_data;
    if action.event_type == "ENEMY_KILLED".to_owned() {
        let value = read_integer_field(data, "value");
        if value > MAX_KILL_REWARD {
            ActionVerdict::SuspiciousKill(value)
        } else {
            ActionVerdict::KillReward(value)
        }
    } else if action.event_type == "ABILITY_USED".to_owned() {
        ActionVerdict::AbilityUsed(read_integer_field(data, "value"))
    } else if action.event_type == "MATCH_COMPLETED".to_owned() {
        let kills = read_integer_field(data, "enemies_killed");
        let duration_key = "duration".to_owned();
        let short = match data.get(&duration_key) {
            Some(v) => is_duration_below_min(v),
            None => true,
        };
        if short && kills > MAX_KILLS_IN_SHORT_MATCH {
            ActionVerdict::ImplausibleMatch(kills)
        } else {
            ActionVerdict::MatchVerified(kills)
        }
    } else {
        ActionVerdict::Other
    }
}

/// The limits on an upload are exactly these: at most 50000 data fragments,
/// at most 500 crypto cores, and no negative energy cost; anything past one
/// of them is out of bounds.
pub proof fn law_limits_are_the_three_bounds(earned_df: i64, earned_crypto_cores: i32, energy_used: i32)
    ensures
        breaks_limits(earned_df, earned_crypto_cores, energy_used) <==> (earned_df > 50000
            || earned_crypto_cores > 500 || energy_used < 0),
        earned_df > 50000 ==> breaks_limits(earned_df, earned_crypto_cores, energy_used),
{
}

/// A kill is flagged exactly when it claims more than 500 data fragments (its
/// `value`, zero where that is missing or not an `i64`); otherwise it counts
/// as a reward of exactly that value.
pub proof fn law_kill_is_flagged_above_five_hundred(data: JsonValue)
    ensures
        verdict("ENEMY_KILLED"@, data).flagged() <==> integer_field(data, "value"@) > 500,
        integer_field(data, "value"@) <= 500 ==> verdict("ENEMY_KILLED"@, data) == ActionVerdict::KillReward(
            integer_field(data, "value"@),
        ),
{
}

/// A completed match is flagged exactly when it is short and reports more
/// than 5 kills; a whole-second duration is short exactly when it is below
/// 10, and a missing duration counts as short.
pub proof fn law_match_is_flagged_when_short_with_many_kills(data: JsonValue)
    ensures
        verdict("MATCH_COMPLETED"@, data).flagged() <==> (short_match(data) && integer_field(
            data,
            "enemies_killed"@,
        ) > 5),
        data.member("duration"@) is None ==> short_match(data),
        forall|u: u64|
            data.member("duration"@) == Some(JsonValue::Number(JsonNumber::PosInt(u))) ==> (short_match(data)
                <==> u < 10),
{
    reveal_strlit("MATCH_COMPLETED");
    reveal_strlit("ENEMY_KILLED");
    reveal_strlit("ABILITY_USED");
    assert("MATCH_COMPLETED"@ != "ENEMY_KILLED"@) by {
        assert("MATCH_COMPLETED"@[0] != "ENEMY_KILLED"@[0]);
    }
    assert("MATCH_COMPLETED"@ != "ABILITY_USED"@) by {
        assert("MATCH_COMPLETED"@[0] != "ABILITY_USED"@[0]);
    }
}

/// Events other than kills and completed matches are never flagged and never
/// count as kill rewards.
pub proof fn law_other_events_are_not_judged(event_type: Seq<char>, data: JsonValue)
    requires
        event_type != "ENEMY_KILLED"@,
        event_type != "MATCH_COMPLETED"@,
    ensures
        !verdict(event_type, data).flagged(),
        !(verdict(event_type, data) is KillReward),
{
}

/// The reward of one action toward the server's data-fragment count: the
/// value of a kill worth at most 500, and nothing for any other action.
pub open spec fn kill_reward(action: MatchActionPayload) -> int {
    if action.event_type@ == "ENEMY_KILLED"@ && integer_field(action.event_data, "value"@) <= 500 {
        integer_field(action.event_data, "value"@) as int
    } else {
        0
    }
}

/// The sum of the rewards of kills worth at most 500 among `actions`.
pub open spec fn kill_reward_sum(actions: Seq<MatchActionPayload>) -> int
    decreases actions.len(),
{
    if actions.len() == 0 {
        0
    } else {
        kill_reward_sum(actions.drop_last()) + kill_reward(actions.last())
    }
}

proof fn lemma_kill_reward_of(action: MatchActionPayload)
    ensures
        match verdict_of(action) {
            ActionVerdict::KillReward(v) => v as int,
            _ => 0,
        } == kill_reward(action),
{
    reveal_strlit("MATCH_COMPLETED");
    reveal_strlit("ENEMY_KILLED");
    reveal_strlit("ABILITY_USED");
    if action.event_type@ == "ENEMY_KILLED"@ {
        law_kill_is_flagged_above_five_hundred(action.event_data);
    }
}

/// The data fragments the server computes for a match are the sum of the
/// values of its kills worth at most 500; no other action contributes.
pub proof fn law_calculated_df_sums_kill_rewards(actions: Seq<MatchActionPayload>)
    ensures
        calculated_df(actions) == kill_reward_sum(actions),
    decreases actions.len(),
{
    if actions.len() > 0 {
        law_calculated_df_sums_kill_rewards(actions.drop_last());
        lemma_kill_reward_of(actions.last());
    }
}

/// How many of `actions` the rules flag.
pub open spec fn flagged_count(actions: Seq<MatchActionPayload>) -> nat
    decreases actions.len(),
{
    if actions.len() == 0 {
        0
    } else {
        flagged_count(actions.drop_last()) + if verdict_of(actions.last()).flagged() {
            1nat
        } else {
            0nat
        }
    }
}

/// A match counts as flagged exactly when one of its actions is flagged.
pub proof fn law_flagged_iff_some_action_flagged(actions: Seq<MatchActionPayload>)
    ensures
        flagged_count(actions) > 0 <==> exists|i: int|
            0 <= i < actions.len() && #[trigger] verdict_of(actions[i]).flagged(),
    decreases actions.len(),
{
    if actions.len() > 0 {
        let init = actions.drop_last();
        law_flagged_iff_some_action_flagged(init);
        if flagged_count(init) > 0 {
            let i = choose|i: int| 0 <= i < init.len() && #[trigger] verdict_of(init[i]).flagged();
            assert(actions[i] == init[i]);
        }
        if verdict_of(actions.last()).flagged() {
            assert(verdict_of(actions[actions.len() - 1]).flagged());
        }
        if exists|i: int| 0 <= i < actions.len() && #[trigger] verdict_of(actions[i]).flagged() {
            let i = choose|i: int| 0 <= i < actions.len() && #[trigger] verdict_of(actions[i]).flagged();
            if i < actions.len() - 1 {
                assert(init[i] == actions[i]);
            }
        }
    }
}

/// The data fragments the server computes for a match: the sum of the rewards
/// of its kills that are not flagged.
pub open spec fn calculated_df(actions: Seq<MatchActionPayload>) -> int
    decreases actions.len(),
{
    if actions.len() == 0 {
        0
    } else {
        calculated_df(actions.drop_last()) + match verdict_of(actions.last()) {
            ActionVerdict::KillReward(v) => v as int,
            _ => 0,
        }
    }
}

/// What the anti-cheat rules make of a whole match.
pub struct RunSummary {
    /// The number of flagged actions.
    pub flagged: usize,
    /// The data fragments the server computes for the match.
    pub calculated_df: i128,
}

/// Judges every action of a match.
pub fn summarize_actions(actions: &Vec<MatchActionPayload>) -> (s: RunSummary)
    ensures
        s.flagged == flagged_count(actions@),
        s.calculated_df == calculated_df(actions@),
        s.calculated_df == kill_reward_sum(actions@),
{
    proof {
        law_calculated_df_sums_kill_rewards(actions@);
    }
    let mut flagged: usize = 0;
    let mut total: i128 = 0;
    let mut i: usize = 0;
    while i < actions.len()
        invariant
            i <= actions@.len(),
            flagged == flagged_count(actions@.take(i as int)),
            flagged <= i,
            total == calculated_df(actions@.take(i as int)),
            -(i as int) * 0x8000_0000_0000_0000 <= total <= (i as int) * 500,
        decreases actions@.len() - i,
    {
        assert(actions@.take(i + 1).drop_last() =~= actions@.take(i as int));
        assert(actions@.take(i + 1).last() == actions@[i as int]);
        let v = classify_action(&actions[i]);
        match v {
            ActionVerdict::KillReward(r) => {
                total = total + r as i128;
            },
            ActionVerdict::SuspiciousKill(_) | ActionVerdict::ImplausibleMatch(_) => {
                flagged = flagged + 1;
            },
            _ => {},
        }
        i = i + 1;
    }
    assert(actions@.take(actions@.len() as int) =~= actions@);
    RunSummary { flagged, calculated_df: total }
}

} // verus!
