use vstd::prelude::*;
use vstd::string::StringSliceAdditionalSpecFns;
use vstd::utf8::{is_char_boundary, is_leading_byte_width_1, length_of_first_scalar, pop_first_scalar, valid_utf8};
use crate::auth::Claims;
use crate::error::{ApiError, api_error, STATUS_UNAUTHORIZED};
use crate::text::{
    contains_bytes, lemma_utf8_concat, lemma_utf8_injective, starts_with_bytes, text_contains, text_starts_with, utf8,
};

verus! {

/// Signatures this long or shorter are refused.
pub const MIN_SIGNATURE_BYTES_EXCLUSIVE: usize = 10;

/// What the request-signature check makes of a request. The check never
/// blocks a request: every verdict lets it through, and only the log differs.
pub enum SignatureVerdict {
    /// The signature or the timestamp header is missing.
    MissingHeaders,
    /// The signature is too short to be genuine.
    Rejected,
    /// A signed request for the public health check.
    HealthTrusted,
    /// A signed authentication request that carries a device attestation.
    AuthAttested,
    /// A signed authentication request without a device attestation.
    AuthUnattested,
    /// A signed request for any other route.
    GameplayTrusted,
}

pub open spec fn health_segment() -> Seq<char> {
    "/health"@
}

pub open spec fn auth_segment() -> Seq<char> {
    "/auth"@
}

/// The verdict on a request for `path` with the given signature, timestamp
/// and device-attestation headers (each absent where the header is missing or
/// is not visible ASCII).
pub open spec fn signature_verdict(
    path: Seq<char>,
    signature: Option<Seq<char>>,
    timestamp: Option<Seq<char>>,
    attestation: Option<Seq<char>>,
) -> SignatureVerdict {
    if signature is None || timestamp is None {
        SignatureVerdict::MissingHeaders
    } else if utf8(signature.unwrap()).len() <= MIN_SIGNATURE_BYTES_EXCLUSIVE {
        SignatureVerdict::Rejected
    } else if contains_bytes(utf8(path), utf8(health_segment())) {
        SignatureVerdict::HealthTrusted
    } else if contains_bytes(utf8(path), utf8(auth_segment())) {
        if attestation is Some {
            SignatureVerdict::AuthAttested
        } else {
            SignatureVerdict::AuthUnattested
        }
    } else {
        SignatureVerdict::GameplayTrusted
    }
}

/// A request without the signature or the timestamp header is let through
/// as unsigned; with both, it is rejected exactly when its signature is at
/// most 10 bytes long, whatever the route; a signed request with a longer
/// signature is classified by its route.
pub proof fn law_short_signatures_are_rejected(
    path: Seq<char>,
    signature: Option<Seq<char>>,
    timestamp: Option<Seq<char>>,
    attestation: Option<Seq<char>>,
)
    ensures
        signature is None || timestamp is None ==> signature_verdict(path, signature, timestamp, attestation)
            is MissingHeaders,
        signature is Some && timestamp is Some ==> (signature_verdict(path, signature, timestamp, attestation)
            is Rejected <==> utf8(signature.unwrap()).len() <= 10),
        signature is Some && timestamp is Some && utf8(signature.unwrap()).len() > 10 ==> !(signature_verdict(
            path,
            signature,
            timestamp,
            attestation,
        ) is MissingHeaders),
{
}

pub open spec fn opt_view(s: Option<&str>) -> Option<Seq<char>> {
    match s {
        Some(t) => Some(t@),
        None => None,
    }
}

/// Judges the signature headers of a request for `path`.
pub fn check_signature(
    path: &str,
    signature: Option<&str>,
    timestamp: Option<&str>,
    attestation: Option<&str>,
) -> (v: SignatureVerdict)
    ensures
        v == signature_verdict(path@, opt_view(signature), opt_view(timestamp), opt_view(attestation)),
        signature is None || timestamp is None ==> v is MissingHeaders,
        signature is Some && timestamp is Some ==> (v is Rejected <==> utf8(signature.unwrap()@).len() <= 10),
{
    proof {
        law_short_signatures_are_rejected(path@, opt_view(signature), opt_view(timestamp), opt_view(attestation));
    }
    match (signature, timestamp) {
        (Some(sig), Some(_)) => {
            if sig.as_bytes().len() <= MIN_SIGNATURE_BYTES_EXCLUSIVE {
                SignatureVerdict::Rejected
            } else if text_contains(path, "/health") {
                SignatureVerdict::HealthTrusted
            } else if text_contains(path, "/auth") {
                if attestation.is_some() {
                    SignatureVerdict::AuthAttested
                } else {
                    SignatureVerdict::AuthUnattested
                }
            } else {
                SignatureVerdict::GameplayTrusted
            }
        },
        _ => SignatureVerdict::MissingHeaders,
    }
}

pub open spec fn bearer_prefix() -> Seq<char> {
    "Bearer "@
}

pub open spec fn missing_header_message() -> Seq<char> {
    "Header de autorizare lipsă!"@
}

pub open spec fn bad_format_message() -> Seq<char> {
    "Format token invalid! Folosește 'Bearer <token>'"@
}

pub open spec fn invalid_token_message() -> Seq<char> {
    "Token invalid sau expirat!"@
}

/// A UTF-8 sequence whose first `k` bytes are ASCII has a character boundary at `k`.
proof fn ascii_prefix_ends_at_boundary(bytes: Seq<u8>, k: int)
    requires
        valid_utf8(bytes),
        0 <= k <= bytes.len(),
        forall|i: int| 0 <= i < k ==> #[trigger] bytes[i] < 0x80,
    ensures
        is_char_boundary(bytes, k),
    decreases k,
{
    if k > 0 {
        assert(is_leading_byte_width_1(bytes[0]));
        assert(length_of_first_scalar(bytes) == 1);
        let tail = pop_first_scalar(bytes);
        assert(valid_utf8(tail));
        assert forall|i: int| 0 <= i < k - 1 implies #[trigger] tail[i] < 0x80 by {
            assert(tail[i] == bytes[i + 1]);
        }
        ascii_prefix_ends_at_boundary(tail, k - 1);
    }
}

/// The token of an `Authorization` header of the form `Bearer <token>`: the
/// header's text after the prefix. A missing header and a header without the
/// prefix are refused as unauthorized.
pub fn bearer_token(header: Option<&str>) -> (r: Result<&str, ApiError>)
    ensures
        match header {
            None => (r matches Err(e) && e@ == api_error(STATUS_UNAUTHORIZED, missing_header_message())),
            Some(h) => if starts_with_bytes(utf8(h@), utf8(bearer_prefix())) {
                (r matches Ok(t) && utf8(t@) == utf8(h@).skip(utf8(bearer_prefix()).len() as int))
            } else {
                (r matches Err(e) && e@ == api_error(STATUS_UNAUTHORIZED, bad_format_message()))
            },
        },
{
    match header {
        None => Err(ApiError::new(STATUS_UNAUTHORIZED, "Header de autorizare lipsă!")),
        Some(h) => {
            if !text_starts_with(h, "Bearer ") {
                return Err(ApiError::new(STATUS_UNAUTHORIZED, "Format token invalid! Folosește 'Bearer <token>'"));
            }
            let prefix = "Bearer ";
            proof {
                reveal_strlit("Bearer ");
                let bytes = h.spec_bytes();
                vstd::utf8::encode_utf8_valid_utf8(h@);
                vstd::utf8::is_ascii_chars_encode_utf8(prefix@);
                assert forall|i: int| 0 <= i < 7 implies #[trigger] bytes[i] < 0x80 by {
                    assert(bytes.subrange(0, 7)[i] == bytes[i]);
                }
                ascii_prefix_ends_at_boundary(bytes, 7);
            }
            let (_, token) = h.split_at(7);
            proof {
                vstd::utf8::encode_utf8_valid_utf8(token@);
            }
            Ok(token)
        },
    }
}

/// A header made of the bearer prefix and a token gives back exactly that
/// token: it has the prefix, and the text after the prefix is the token (any
/// text whose encoding is what follows the prefix is the token itself).
pub proof fn law_bearer_header_gives_back_its_token(token: Seq<char>)
    ensures
        starts_with_bytes(utf8(bearer_prefix() + token), utf8(bearer_prefix())),
        utf8(bearer_prefix() + token).skip(utf8(bearer_prefix()).len() as int) == utf8(token),
        forall|t: Seq<char>|
            #[trigger] utf8(t) == utf8(bearer_prefix() + token).skip(utf8(bearer_prefix()).len() as int)
                ==> t == token,
{
    lemma_utf8_concat(bearer_prefix(), token);
    let p = utf8(bearer_prefix());
    let whole = utf8(bearer_prefix() + token);
    assert(whole.subrange(0, p.len() as int) =~= p);
    assert(whole.skip(p.len() as int) =~= utf8(token));
    assert forall|t: Seq<char>| #[trigger] utf8(t) == whole.skip(p.len() as int) implies t == token by {
        lemma_utf8_injective(t, token);
    }
}

/// The claims of a session token that the token decoder accepted (`Some`), or
/// the refusal of one it did not (`None`: a forged, malformed or expired token).
pub fn session_claims(decoded: Option<Claims>) -> (r: Result<Claims, ApiError>)
    ensures
        decoded matches Some(c) ==> r == Ok::<Claims, ApiError>(c),
        decoded is None ==> (r matches Err(e) && e@ == api_error(STATUS_UNAUTHORIZED, invalid_token_message())),
{
    match decoded {
        Some(c) => Ok(c),
        None => Err(ApiError::new(STATUS_UNAUTHORIZED, "Token invalid sau expirat!")),
    }
}

} // verus!
