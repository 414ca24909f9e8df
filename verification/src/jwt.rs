//! Claims of JSON web tokens, read without checking the signature.
use crate::json::{json_document, parse, Json, JsonView};
use crate::text::{pieces, split, texts};
use vstd::prelude::*;

verus! {

/// The bytes that `base64`'s `URL_SAFE_NO_PAD` engine decodes from a text,
/// where the text is such an encoding.
pub uninterp spec fn base64_url_decoded(text: Seq<char>) -> Option<Seq<u8>>;

/// `base64::Engine::decode` of the engine `URL_SAFE_NO_PAD`: the decoded bytes
/// of a text in the URL-safe alphabet without padding, and nothing for any
/// other text. Why it fails is not kept.
#[verifier::external_body]
fn base64_url_decode(text: &str) -> (bytes: Option<Vec<u8>>)
    ensures
        match bytes {
            Some(b) => base64_url_decoded(text@) == Some(b@),
            None => base64_url_decoded(text@) is None,
        },
{
    base64::Engine::decode(&base64::engine::general_purpose::URL_SAFE_NO_PAD, text).ok()
}

/// The part of a token that holds its claims: the middle one of exactly three
/// parts between dots.
pub open spec fn payload_part(token: Seq<char>) -> Option<Seq<char>> {
    let parts = pieces(token, '.');
    if parts.len() == 3 {
        Some(parts[1])
    } else {
        None
    }
}

/// The claims of a token.
pub open spec fn claims(token: Seq<char>) -> Option<JsonView> {
    match payload_part(token) {
        Some(part) => match base64_url_decoded(part) {
            Some(bytes) => match json_document(bytes) {
                Ok(document) => Some(document),
                Err(_) => None,
            },
            None => None,
        },
        None => None,
    }
}

/// The text of the claim `claim`.
pub open spec fn claim_text(claims: JsonView, claim: Seq<char>) -> Option<Seq<char>> {
    match claims.get(claim) {
        Some(value) => value.as_text(),
        None => None,
    }
}

/// The text of the claim `claim` inside the claim `path`.
pub open spec fn nested_claim_text(claims: JsonView, path: Seq<char>, claim: Seq<char>) -> Option<
    Seq<char>,
> {
    match claims.get(path) {
        Some(inner) => claim_text(inner, claim),
        None => None,
    }
}

/// The part of a token that holds its claims.
pub fn payload_of(token: &str) -> (part: Option<String>)
    ensures
        match part {
            Some(p) => payload_part(token@) == Some(p@),
            None => payload_part(token@) is None,
        },
{
    let parts = split(token, '.');
    assert(texts(parts@).len() == parts@.len());
    if parts.len() != 3 {
        return None;
    }
    assert(texts(parts@)[1] == parts@[1]@);
    Some(parts[1].clone())
}

/// Reads the claims of a token.
pub fn read_claims(token: &str) -> (found: Option<Json>)
    ensures
        match found {
            Some(json) => claims(token@) == Some(json@),
            None => claims(token@) is None,
        },
{
    match payload_of(token) {
        Some(part) => match base64_url_decode(part.as_str()) {
            Some(bytes) => match parse(bytes.as_slice()) {
                Ok(json) => Some(json),
                Err(_) => None,
            },
            None => None,
        },
        None => None,
    }
}

/// The text of a top-level claim.
pub fn claim_of(claims: &Json, claim: &str) -> (text: Option<String>)
    ensures
        match text {
            Some(t) => claim_text(claims@, claim@) == Some(t@),
            None => claim_text(claims@, claim@) is None,
        },
{
    match claims.get(claim) {
        Some(value) => match value.as_str() {
            Some(text) => Some(text.to_owned()),
            None => None,
        },
        None => None,
    }
}

/// The text of a claim one level down.
pub fn nested_claim_of(claims: &Json, path: &str, claim: &str) -> (text: Option<String>)
    ensures
        match text {
            Some(t) => nested_claim_text(claims@, path@, claim@) == Some(t@),
            None => nested_claim_text(claims@, path@, claim@) is None,
        },
{
    match claims.get(path) {
        Some(inner) => claim_of(inner, claim),
        None => None,
    }
}

/// Extracts a top-level string claim from a token.
pub fn extract_jwt_claim(token: &str, claim: &str) -> (text: Option<String>)
    ensures
        match text {
            Some(t) => claims(token@) matches Some(c) && claim_text(c, claim@) == Some(t@),
            None => claims(token@) matches Some(c) ==> claim_text(c, claim@) is None,
        },
{
    match read_claims(token) {
        Some(json) => claim_of(&json, claim),
        None => None,
    }
}

/// Extracts a string claim one level down from a token.
pub fn extract_nested_jwt_claim(token: &str, path: &str, claim: &str) -> (text: Option<String>)
    ensures
        match text {
            Some(t) => claims(token@) matches Some(c) && nested_claim_text(c, path@, claim@)
                == Some(t@),
            None => claims(token@) matches Some(c) ==> nested_claim_text(c, path@, claim@) is None,
        },
{
    match read_claims(token) {
        Some(json) => nested_claim_of(&json, path, claim),
        None => None,
    }
}

/// The header and the signature of a token have no bearing on its claims.
pub proof fn claims_rest_on_the_payload_alone(a: Seq<char>, b: Seq<char>)
    requires
        payload_part(a) == payload_part(b),
    ensures
        claims(a) == claims(b),
{
}

} // verus!
