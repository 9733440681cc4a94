use neon_api::auth::Claims;
use neon_api::security::{bearer_token, check_signature, session_claims, SignatureVerdict};

#[test]
fn missing_signature_headers_pass_in_development_mode() {
    assert!(matches!(check_signature("/v1/game/sync", None, Some("1"), None), SignatureVerdict::MissingHeaders));
    assert!(matches!(check_signature("/v1/game/sync", Some("abcdefghijkl"), None, None), SignatureVerdict::MissingHeaders));
}

#[test]
fn short_signatures_are_rejected() {
    assert!(matches!(check_signature("/v1/health", Some("0123456789"), Some("1"), None), SignatureVerdict::Rejected));
    assert!(matches!(check_signature("/v1/health", Some("01234567890"), Some("1"), None), SignatureVerdict::HealthTrusted));
}

#[test]
fn signed_routes_are_classified() {
    let sig = Some("0123456789abcdef");
    assert!(matches!(check_signature("/v1/auth/login", sig, Some("1"), Some("cert")), SignatureVerdict::AuthAttested));
    assert!(matches!(check_signature("/v1/auth/login", sig, Some("1"), None), SignatureVerdict::AuthUnattested));
    assert!(matches!(check_signature("/v1/player/profile", sig, Some("1"), None), SignatureVerdict::GameplayTrusted));
    assert!(matches!(check_signature("/v1/auth/health", sig, Some("1"), None), SignatureVerdict::HealthTrusted));
}

#[test]
fn signature_length_counts_bytes() {
    assert!(matches!(check_signature("/x", Some("ăăăăă"), Some("1"), None), SignatureVerdict::Rejected));
    assert!(matches!(check_signature("/x", Some("ăăăăăă"), Some("1"), None), SignatureVerdict::GameplayTrusted));
}

#[test]
fn bearer_header_gives_its_token() {
    assert_eq!(bearer_token(Some("Bearer abc.def.ghi")).ok(), Some("abc.def.ghi"));
    assert_eq!(bearer_token(Some("Bearer ")).ok(), Some(""));
    assert_eq!(bearer_token(Some("Bearer țoken")).ok(), Some("țoken"));
}

#[test]
fn bad_authorization_headers_are_refused() {
    let e = bearer_token(None).unwrap_err();
    assert_eq!((e.status, e.message.as_str()), (401, "Header de autorizare lipsă!"));
    for h in ["bearer abc", "Bearer", "Token abc", ""] {
        let e = bearer_token(Some(h)).unwrap_err();
        assert_eq!((e.status, e.message.as_str()), (401, "Format token invalid! Folosește 'Bearer <token>'"));
    }
}

#[test]
fn decoded_claims_pass_and_rejected_tokens_are_refused() {
    let c = session_claims(Some(Claims { sub: 3, exp: 99 })).ok().unwrap();
    assert_eq!((c.sub, c.exp), (3, 99));
    let e = session_claims(None).err().unwrap();
    assert_eq!((e.status, e.message.as_str()), (401, "Token invalid sau expirat!"));
}
