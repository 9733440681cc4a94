use neon_api::game::{MatchActionPayload, NewItemPayload, SyncRequest};
use neon_api::json::{JsonMember, JsonNumber, JsonValue};
use neon_api::sync::{PlayerBalance, PlayerUpdate, SyncCommand, SyncSession};

fn kill(value: u64) -> MatchActionPayload {
    MatchActionPayload {
        event_type: "ENEMY_KILLED".to_string(),
        event_data: JsonValue::Object(vec![JsonMember {
            key: "value".to_string(),
            value: JsonValue::Number(JsonNumber::PosInt(value)),
        }]),
    }
}

fn item(kind: &str) -> NewItemPayload {
    NewItemPayload { id: 77, item_type: kind.to_string(), rarity: 1, level: 1 }
}

fn upload(items: Vec<NewItemPayload>, actions: Vec<MatchActionPayload>) -> SyncRequest {
    SyncRequest { earned_df: 300, earned_crypto_cores: 2, energy_used: 5, new_items: items, actions }
}

fn balance() -> PlayerBalance {
    PlayerBalance { id: 42, data_fragments: Some(1300), crypto_cores: None, energy: Some(15) }
}

fn reply_err(c: SyncCommand) -> (u16, String) {
    match c {
        SyncCommand::Reply(Err(e)) => (e.status, e.message),
        _ => panic!("expected an error reply"),
    }
}

#[test]
fn clean_upload_is_saved_in_order() {
    let (mut s, c) = SyncSession::start(9, upload(vec![item("CHIP"), item("CORE")], vec![kill(10)]));
    assert!(matches!(c, SyncCommand::BeginTransaction));
    let c = s.transaction_opened(true);
    assert!(matches!(
        c,
        SyncCommand::UpdatePlayer { user_id: 9, earned_df: 300, earned_crypto_cores: 2, energy_used: 5 }
    ));
    let c = s.player_updated(PlayerUpdate::Updated(balance()));
    assert!(matches!(c, SyncCommand::StoreItem { player_id: 42, index: 0 }));
    let c = s.item_stored(None);
    assert!(matches!(c, SyncCommand::StoreItem { player_id: 42, index: 1 }));
    let c = s.item_stored(None);
    assert!(matches!(c, SyncCommand::LogAction { player_id: 42, index: 0 }));
    let c = s.action_logged(true);
    assert!(matches!(c, SyncCommand::Commit));
    match s.committed(true) {
        SyncCommand::Reply(Ok(r)) => {
            assert_eq!(r.message, "Progres salvat cu succes în rețeaua Neurală.");
            assert_eq!(r.player_id, 42);
            assert_eq!(r.current_df, 1300);
            assert_eq!(r.current_crypto_cores, 0);
            assert_eq!(r.current_energy, 15);
            assert_eq!(r.synchronized_items_count, 2);
        },
        _ => panic!("expected the saved reply"),
    }
}

#[test]
fn empty_upload_commits_right_after_the_update() {
    let (mut s, _) = SyncSession::start(1, upload(vec![], vec![]));
    s.transaction_opened(true);
    assert!(matches!(s.player_updated(PlayerUpdate::Updated(balance())), SyncCommand::Commit));
}

#[test]
fn out_of_bounds_upload_is_refused_before_any_work() {
    let mut r = upload(vec![], vec![]);
    r.earned_df = 50001;
    let (_, c) = SyncSession::start(1, r);
    assert_eq!(reply_err(c), (406, "Date invalide. Validare anti-cheat eșuată!".to_string()));
}

#[test]
fn flagged_upload_is_refused_after_its_writes() {
    let (mut s, _) = SyncSession::start(1, upload(vec![], vec![kill(10), kill(501)]));
    s.transaction_opened(true);
    assert!(matches!(s.player_updated(PlayerUpdate::Updated(balance())), SyncCommand::LogAction { index: 0, .. }));
    assert!(matches!(s.action_logged(true), SyncCommand::LogAction { index: 1, .. }));
    assert_eq!(
        reply_err(s.action_logged(true)),
        (406, "Validare server eșuată: anomalii detectate în timpul meciului!".to_string())
    );
}

#[test]
fn database_failures_are_answered() {
    let (mut s, _) = SyncSession::start(1, upload(vec![], vec![]));
    assert_eq!(reply_err(s.transaction_opened(false)), (500, "Eroare la pornirea tranzacției".to_string()));

    let (mut s, _) = SyncSession::start(1, upload(vec![], vec![]));
    s.transaction_opened(true);
    assert_eq!(reply_err(s.player_updated(PlayerUpdate::Failed)), (500, "Eroare la actualizarea jucătorului".to_string()));

    let (mut s, _) = SyncSession::start(1, upload(vec![], vec![]));
    s.transaction_opened(true);
    assert_eq!(reply_err(s.player_updated(PlayerUpdate::Missing)), (404, "Jucătorul nu există!".to_string()));

    let (mut s, _) = SyncSession::start(1, upload(vec![], vec![kill(1)]));
    s.transaction_opened(true);
    s.player_updated(PlayerUpdate::Updated(balance()));
    assert_eq!(reply_err(s.action_logged(false)), (500, "Eroare la salvarea log-urilor de analytics".to_string()));

    let (mut s, _) = SyncSession::start(1, upload(vec![], vec![]));
    s.transaction_opened(true);
    s.player_updated(PlayerUpdate::Updated(balance()));
    assert_eq!(reply_err(s.committed(false)), (500, "Eroare la finalizarea tranzacției".to_string()));
}

#[test]
fn unknown_item_type_is_the_clients_fault() {
    let (mut s, _) = SyncSession::start(1, upload(vec![item("CHIP"), item("HACKED")], vec![]));
    s.transaction_opened(true);
    s.player_updated(PlayerUpdate::Updated(balance()));
    s.item_stored(None);
    let text = "insert or update on table \"inventory\" violates foreign key constraint \"fk_inventory_item_type\"";
    assert_eq!(reply_err(s.item_stored(Some(text.to_string()))), (400, "Item corupt sau invalid: HACKED".to_string()));
}

#[test]
fn other_item_failures_are_the_services_fault() {
    let (mut s, _) = SyncSession::start(1, upload(vec![item("CHIP")], vec![]));
    s.transaction_opened(true);
    s.player_updated(PlayerUpdate::Updated(balance()));
    assert_eq!(
        reply_err(s.item_stored(Some("duplicate key value violates unique constraint".to_string()))),
        (500, "Eroare la salvarea inventarului".to_string())
    );
}
