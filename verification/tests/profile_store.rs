use neon_api::health::health_check;
use neon_api::json::{JsonNumber, JsonValue};
use neon_api::player::{
    inventory_item, nickname_taken, player_profile, profile_created, profile_player, CreatePlayerPayload, CreatedPlayer,
    InventoryRecord, PlayerLookup, PlayerRecord,
};
use neon_api::store::{config_read_failed, fallback_config, store_item, store_read_failed, StoreRecord};

fn player() -> PlayerRecord {
    PlayerRecord {
        id: 0xa1a2a3a4b1b2c1c2d1d2d3d4d5d6d7d8,
        nickname: "Neo".to_string(),
        data_fragments: None,
        crypto_cores: Some(4),
        energy: Some(-2),
    }
}

#[test]
fn profile_reads_missing_values_as_defaults() {
    let records = vec![
        InventoryRecord { id: 1, item_type: "CHIP".to_string(), rarity: None, level: None, is_equipped: None },
        InventoryRecord { id: 2, item_type: "CORE".to_string(), rarity: Some(3), level: Some(7), is_equipped: Some(true) },
    ];
    let p = player_profile(player(), Some(records)).ok().unwrap();
    assert_eq!(p.nickname, "Neo");
    assert_eq!(p.accountId, "a1a2a3a4-b1b2-c1c2-d1d2-d3d4d5d6d7d8");
    assert_eq!((p.data_fragments, p.crypto_cores, p.energy, p.isOfflineMode), (0, 4, -2, false));
    assert_eq!(p.inventory.len(), 2);
    let a = &p.inventory[0];
    assert_eq!((a.id, a.item_type.as_str(), a.rarity, a.level, a.is_equipped), (1, "CHIP", 0, 1, false));
    let b = &p.inventory[1];
    assert_eq!((b.id, b.item_type.as_str(), b.rarity, b.level, b.is_equipped), (2, "CORE", 3, 7, true));
}

#[test]
fn account_id_is_the_hyphenated_uuid() {
    let mut p = player();
    p.id = 0;
    assert_eq!(player_profile(p, Some(vec![])).ok().unwrap().accountId, "00000000-0000-0000-0000-000000000000");
    let mut p = player();
    p.id = u128::MAX;
    assert_eq!(player_profile(p, Some(vec![])).ok().unwrap().accountId, "ffffffff-ffff-ffff-ffff-ffffffffffff");
}

#[test]
fn profile_refusals() {
    let e = player_profile(player(), None).err().unwrap();
    assert_eq!((e.status, e.message.as_str()), (500, "Eroare DB la inventar"));
    let e = profile_player(PlayerLookup::Failed).err().unwrap();
    assert_eq!((e.status, e.message.as_str()), (500, "Eroare DB la profil"));
    let e = profile_player(PlayerLookup::NotFound).err().unwrap();
    assert_eq!((e.status, e.message.as_str()), (404, "Profilul nu a fost găsit!"));
    assert_eq!(profile_player(PlayerLookup::Found(player())).ok().unwrap().nickname, "Neo");
}

#[test]
fn single_inventory_item() {
    let r = InventoryRecord { id: 9, item_type: "X".to_string(), rarity: Some(-1), level: None, is_equipped: Some(false) };
    let i = inventory_item(&r);
    assert_eq!((i.rarity, i.level, i.is_equipped), (-1, 1, false));
}

#[test]
fn profile_creation_replies() {
    let payload = CreatePlayerPayload { nickname: "Trinity".to_string() };
    let created = profile_created(CreatedPlayer { id: 3, nickname: payload.nickname, data_fragments: Some(0), energy: None });
    assert_eq!(created.message, "Profil creat cu succes. Bun venit în NeonDefense!");
    assert_eq!((created.player.id, created.player.nickname.as_str()), (3, "Trinity"));
    let e = nickname_taken();
    assert_eq!((e.status, e.message.as_str()), (409, "Acest nickname este deja luat!"));
}

#[test]
fn fallback_configuration() {
    let (version, config) = fallback_config();
    assert_eq!(version, "1.0.0-default");
    match config {
        JsonValue::Object(top) => {
            assert_eq!(top.len(), 1);
            assert_eq!(top[0].key, "engine");
            match &top[0].value {
                JsonValue::Object(engine) => {
                    assert_eq!(engine.len(), 1);
                    assert_eq!(engine[0].key, "tick_rate");
                    assert!(matches!(engine[0].value, JsonValue::Number(JsonNumber::PosInt(60))));
                },
                _ => panic!("engine must be an object"),
            }
        },
        _ => panic!("config must be an object"),
    }
}

#[test]
fn store_defaults() {
    let rec = StoreRecord {
        item_sku: "sku1".to_string(),
        display_name: "Pack".to_string(),
        rarity: None,
        currency: None,
        reward_type: "CORES".to_string(),
        reward_amount: 50,
        stock: None,
    };
    let i = store_item(rec);
    assert_eq!((i.rarity.as_str(), i.currency.as_str(), i.stock), ("COMMON", "USD", -1));
    assert_eq!((i.item_sku.as_str(), i.display_name.as_str(), i.reward_type.as_str(), i.reward_amount), ("sku1", "Pack", "CORES", 50));
    let rec = StoreRecord {
        item_sku: "sku2".to_string(),
        display_name: "Rare".to_string(),
        rarity: Some("EPIC".to_string()),
        currency: Some("EUR".to_string()),
        reward_type: "DF".to_string(),
        reward_amount: 1,
        stock: Some(0),
    };
    let i = store_item(rec);
    assert_eq!((i.rarity.as_str(), i.currency.as_str(), i.stock), ("EPIC", "EUR", 0));
    let e = config_read_failed();
    assert_eq!((e.status, e.message.as_str()), (500, "Eroare la citirea configurației."));
    let e = store_read_failed();
    assert_eq!((e.status, e.message.as_str()), (500, "Eroare la citirea magazinului."));
}

#[test]
fn health_reports_online() {
    let h = health_check();
    assert_eq!((h.status.as_str(), h.version.as_str()), ("online", "0.1.0"));
}
