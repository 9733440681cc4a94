use neon_api::game::{
    check_limits, classify_action, summarize_actions, unpack_event_data, ActionVerdict, MatchActionPayload,
    NewItemPayload, SyncRequest,
};
use neon_api::json::{JsonMember, JsonNumber, JsonValue};

fn object(members: Vec<(&str, JsonValue)>) -> JsonValue {
    JsonValue::Object(
        members
            .into_iter()
            .map(|(k, v)| JsonMember { key: k.to_string(), value: v })
            .collect(),
    )
}

fn num(n: i64) -> JsonValue {
    if n < 0 {
        JsonValue::Number(JsonNumber::NegInt(n))
    } else {
        JsonValue::Number(JsonNumber::PosInt(n as u64))
    }
}

fn action(event_type: &str, data: JsonValue) -> MatchActionPayload {
    MatchActionPayload { event_type: event_type.to_string(), event_data: data }
}

fn request(df: i64, cores: i32, energy: i32) -> SyncRequest {
    SyncRequest { earned_df: df, earned_crypto_cores: cores, energy_used: energy, new_items: vec![], actions: vec![] }
}

#[test]
fn limits_accept_boundary_amounts() {
    assert!(check_limits(&request(50000, 500, 0)).is_ok());
    assert!(check_limits(&request(-10, -3, 12)).is_ok());
}

#[test]
fn limits_refuse_each_out_of_bounds_amount() {
    for r in [request(50001, 0, 0), request(0, 501, 0), request(0, 0, -1)] {
        let e = check_limits(&r).unwrap_err();
        assert_eq!(e.status, 406);
        assert_eq!(e.message, "Date invalide. Validare anti-cheat eșuată!");
    }
}

#[test]
fn kill_rewards_up_to_the_cap_count() {
    assert!(matches!(classify_action(&action("ENEMY_KILLED", object(vec![("value", num(500))]))), ActionVerdict::KillReward(500)));
    assert!(matches!(classify_action(&action("ENEMY_KILLED", object(vec![("value", num(501))]))), ActionVerdict::SuspiciousKill(501)));
    assert!(matches!(classify_action(&action("ENEMY_KILLED", object(vec![]))), ActionVerdict::KillReward(0)));
    assert!(matches!(
        classify_action(&action("ENEMY_KILLED", object(vec![("value", JsonValue::Text("900".to_string()))]))),
        ActionVerdict::KillReward(0)
    ));
    assert!(matches!(
        classify_action(&action("ENEMY_KILLED", object(vec![("value", JsonValue::Number(JsonNumber::PosInt(u64::MAX)))]))),
        ActionVerdict::KillReward(0)
    ));
    assert!(matches!(
        classify_action(&action("ENEMY_KILLED", object(vec![("value", JsonValue::Number(JsonNumber::Float(700.5f64.to_bits())))]))),
        ActionVerdict::KillReward(0)
    ));
}

#[test]
fn first_member_with_a_key_wins() {
    let data = object(vec![("value", num(10)), ("value", num(9000))]);
    assert!(matches!(classify_action(&action("ENEMY_KILLED", data)), ActionVerdict::KillReward(10)));
}

#[test]
fn ability_use_reports_its_id() {
    assert!(matches!(classify_action(&action("ABILITY_USED", object(vec![("value", num(7))]))), ActionVerdict::AbilityUsed(7)));
}

#[test]
fn short_match_with_many_kills_is_implausible() {
    let data = object(vec![("duration", num(9)), ("enemies_killed", num(6))]);
    assert!(matches!(classify_action(&action("MATCH_COMPLETED", data)), ActionVerdict::ImplausibleMatch(6)));
    let data = object(vec![("duration", JsonValue::Number(JsonNumber::Float(9.99f64.to_bits()))), ("enemies_killed", num(9999))]);
    assert!(matches!(classify_action(&action("MATCH_COMPLETED", data)), ActionVerdict::ImplausibleMatch(9999)));
    let data = object(vec![("enemies_killed", num(6))]);
    assert!(matches!(classify_action(&action("MATCH_COMPLETED", data)), ActionVerdict::ImplausibleMatch(6)));
    let data = object(vec![("duration", JsonValue::Text("long".to_string())), ("enemies_killed", num(6))]);
    assert!(matches!(classify_action(&action("MATCH_COMPLETED", data)), ActionVerdict::ImplausibleMatch(6)));
    let data = object(vec![("duration", num(-4)), ("enemies_killed", num(6))]);
    assert!(matches!(classify_action(&action("MATCH_COMPLETED", data)), ActionVerdict::ImplausibleMatch(6)));
    let data = object(vec![("duration", JsonValue::Number(JsonNumber::Float((-0.0f64).to_bits()))), ("enemies_killed", num(6))]);
    assert!(matches!(classify_action(&action("MATCH_COMPLETED", data)), ActionVerdict::ImplausibleMatch(6)));
    let data = object(vec![("duration", JsonValue::Number(JsonNumber::Float((-250.5f64).to_bits()))), ("enemies_killed", num(6))]);
    assert!(matches!(classify_action(&action("MATCH_COMPLETED", data)), ActionVerdict::ImplausibleMatch(6)));
}

#[test]
fn duration_bound_agrees_with_float_comparison() {
    for d in [0.0f64, 0.5, 9.0, 9.999999, 10.0, 10.000001, 11.0, 1e9, -1e9, -0.0, 3.5e-300, f64::MAX, f64::MIN] {
        let data = object(vec![("duration", JsonValue::Number(JsonNumber::Float(d.to_bits()))), ("enemies_killed", num(6))]);
        let implausible = matches!(classify_action(&action("MATCH_COMPLETED", data)), ActionVerdict::ImplausibleMatch(_));
        assert_eq!(implausible, d < 10.0, "duration {}", d);
    }
}

#[test]
fn long_or_quiet_matches_are_verified() {
    let data = object(vec![("duration", num(10)), ("enemies_killed", num(50))]);
    assert!(matches!(classify_action(&action("MATCH_COMPLETED", data)), ActionVerdict::MatchVerified(50)));
    let data = object(vec![("duration", JsonValue::Number(JsonNumber::Float(10.0f64.to_bits()))), ("enemies_killed", num(50))]);
    assert!(matches!(classify_action(&action("MATCH_COMPLETED", data)), ActionVerdict::MatchVerified(50)));
    let data = object(vec![("duration", JsonValue::Number(JsonNumber::Float(1.0e300f64.to_bits()))), ("enemies_killed", num(50))]);
    assert!(matches!(classify_action(&action("MATCH_COMPLETED", data)), ActionVerdict::MatchVerified(50)));
    let data = object(vec![("duration", num(3)), ("enemies_killed", num(5))]);
    assert!(matches!(classify_action(&action("MATCH_COMPLETED", data)), ActionVerdict::MatchVerified(5)));
}

#[test]
fn other_events_are_not_judged() {
    assert!(matches!(classify_action(&action("LEVEL_UP", object(vec![("value", num(100000))]))), ActionVerdict::Other));
    assert!(matches!(classify_action(&action("enemy_killed", object(vec![("value", num(100000))]))), ActionVerdict::Other));
}

#[test]
fn summary_counts_flags_and_sums_counted_kills() {
    let actions = vec![
        action("ENEMY_KILLED", object(vec![("value", num(120))])),
        action("ENEMY_KILLED", object(vec![("value", num(700))])),
        action("ENEMY_KILLED", object(vec![("value", num(-20))])),
        action("MATCH_COMPLETED", object(vec![("duration", num(2)), ("enemies_killed", num(9))])),
        action("ABILITY_USED", object(vec![("value", num(3))])),
    ];
    let s = summarize_actions(&actions);
    assert_eq!(s.flagged, 2);
    assert_eq!(s.calculated_df, 100);
}

#[test]
fn summary_of_extreme_kill_values_does_not_overflow() {
    let actions = vec![
        action("ENEMY_KILLED", object(vec![("value", num(i64::MIN))])),
        action("ENEMY_KILLED", object(vec![("value", num(i64::MIN))])),
    ];
    let s = summarize_actions(&actions);
    assert_eq!(s.flagged, 0);
    assert_eq!(s.calculated_df, 2 * (i64::MIN as i128));
}

#[test]
fn flagged_run_has_a_flagged_action() {
    let clean = vec![action("ENEMY_KILLED", object(vec![("value", num(1))])), action("ABILITY_USED", object(vec![]))];
    assert_eq!(summarize_actions(&clean).flagged, 0);
    let dirty = vec![action("ENEMY_KILLED", object(vec![("value", num(1))])), action("ENEMY_KILLED", object(vec![("value", num(501))]))];
    assert!(summarize_actions(&dirty).flagged > 0);
}

#[test]
fn string_event_data_is_replaced_by_its_document() {
    let doc = object(vec![("value", num(3))]);
    let data = unpack_event_data(JsonValue::Text("{\"value\":3}".to_string()), Some(doc));
    assert!(matches!(classify_action(&action("ENEMY_KILLED", data)), ActionVerdict::KillReward(3)));
    let data = unpack_event_data(JsonValue::Text("not json".to_string()), None);
    assert!(matches!(data, JsonValue::Object(ref m) if m.is_empty()));
    let data = unpack_event_data(object(vec![("value", num(4))]), None);
    assert!(matches!(classify_action(&action("ENEMY_KILLED", data)), ActionVerdict::KillReward(4)));
}

#[test]
fn items_are_carried_unchanged() {
    let item = NewItemPayload { id: 5, item_type: "CHIP".to_string(), rarity: 2, level: 3 };
    let r = SyncRequest { new_items: vec![item], ..request(1, 1, 1) };
    assert!(check_limits(&r).is_ok());
    assert_eq!(r.new_items[0].item_type, "CHIP");
}
