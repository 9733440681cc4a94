use neon_api::auth::{
    check_login, email_taken, hash_new_password, issue_session_claims, logged_in, registered, session_claims_at,
    resets_test_account, session_claims_for, UserLookup, LATEST_SESSION_START, SESSION_SECONDS,
};

#[test]
fn registered_password_signs_in_and_others_do_not() {
    let hash = hash_new_password("hunter42").ok().unwrap();
    assert!(hash.starts_with("$argon2id$"));
    let found = UserLookup::Found { id: 11, password_hash: Some(hash) };
    assert_eq!(check_login(&found, "hunter42").ok(), Some(11));
    let e = check_login(&found, "hunter43").err().unwrap();
    assert_eq!((e.status, e.message.as_str()), (401, "Email sau parolă greșită!"));
}

#[test]
fn each_sign_up_gets_its_own_salt() {
    let a = hash_new_password("same").ok().unwrap();
    let b = hash_new_password("same").ok().unwrap();
    assert_ne!(a, b);
}

#[test]
fn sign_in_refusals() {
    let e = check_login(&UserLookup::Failed, "x").err().unwrap();
    assert_eq!((e.status, e.message.as_str()), (500, "Eroare DB"));
    let e = check_login(&UserLookup::NotFound, "x").err().unwrap();
    assert_eq!((e.status, e.message.as_str()), (401, "Email sau parolă greșită!"));
    let e = check_login(&UserLookup::Found { id: 1, password_hash: None }, "x").err().unwrap();
    assert_eq!((e.status, e.message.as_str()), (401, "Contul nu are o parolă setată!"));
    let e = check_login(&UserLookup::Found { id: 1, password_hash: Some("not a phc string".to_string()) }, "x")
        .err()
        .unwrap();
    assert_eq!((e.status, e.message.as_str()), (500, "Eroare parsare hash"));
}

#[test]
fn auth_replies() {
    let r = registered("tok".to_string(), 5);
    assert_eq!((r.token.as_str(), r.user_id, r.message.as_str()), ("tok", 5, "Cont creat cu succes. Setează-ți nickname-ul!"));
    let r = logged_in("tok2".to_string(), 6);
    assert_eq!((r.token.as_str(), r.user_id, r.message.as_str()), ("tok2", 6, "Login reușit!"));
    let e = email_taken();
    assert_eq!((e.status, e.message.as_str()), (409, "Email-ul este deja folosit!"));
}

#[test]
fn sessions_last_thirty_days() {
    let c = session_claims_at(8, 1_700_000_000);
    assert_eq!((c.sub, c.exp), (8, 1_702_592_000));
    assert_eq!(SESSION_SECONDS, 30 * 24 * 3600);
    let c = session_claims_at(8, LATEST_SESSION_START);
    assert_eq!(c.exp as i64, 8_210_266_876_799);
}

#[test]
fn sessions_before_the_epoch_wrap() {
    let c = session_claims_at(1, -2_592_001);
    assert_eq!(c.exp, usize::MAX);
}

#[test]
fn sessions_issued_now_belong_to_the_user() {
    let before = std::time::SystemTime::now().duration_since(std::time::UNIX_EPOCH).unwrap().as_secs() as usize;
    let c = issue_session_claims(77).unwrap();
    assert_eq!(c.sub, 77);
    assert!(c.exp >= before + 2_592_000 && c.exp <= before + 2_592_000 + 5);
}

#[test]
fn demo_mode_resets_only_the_configured_test_account() {
    let demo = "demo@neon.dev".to_string();
    assert!(resets_test_account(&demo, &"demo@neon.dev".to_string()));
    assert!(!resets_test_account(&demo, &"other@neon.dev".to_string()));
    assert!(!resets_test_account(&String::new(), &String::new()));
}

#[test]
fn session_claims_for_refuses_starts_past_the_last_one() {
    let c = session_claims_for(4, LATEST_SESSION_START).unwrap();
    assert_eq!((c.sub, c.exp as i64), (4, LATEST_SESSION_START + SESSION_SECONDS));
    assert!(session_claims_for(4, LATEST_SESSION_START + 1).is_none());
    let c = session_claims_for(5, 0).unwrap();
    assert_eq!((c.sub, c.exp), (5, 2_592_000));
}

#[test]
fn issued_hashes_are_argon2id_phc_strings() {
    let hash = hash_new_password("").ok().unwrap();
    assert!(hash.starts_with("$argon2id$v=19$"));
    let found = UserLookup::Found { id: 2, password_hash: Some(hash) };
    assert_eq!(check_login(&found, "").ok(), Some(2));
}
