//! The calls into `jwt_simple`, which holds the HMAC-SHA256, base64url and
//! JSON framing of a token, into `serde_json` and into the system clock of
//! std.  Nothing in this file is proved: each item states what the library
//! relies on.

use jwt_simple::algorithms::{HS256Key, MACLike};
use jwt_simple::claims::JWTClaims;
use jwt_simple::common::VerificationOptions;
use jwt_simple::prelude::Duration;
use jwt_simple::JWTError;
use serde_json::Value;
use vstd::prelude::*;
use vstd::utf8::encode_utf8;

use crate::error::VerifyFailure;
use crate::framing::spec_token_shape;

verus! {

/// A JSON value (`serde_json::Value`), carried through as it is.
#[verifier::external_type_specification]
#[verifier::external_body]
pub struct ExValue(serde_json::Value);

/// The error of `jwt_simple`'s signing and verifying calls
/// (`jwt_simple::Error`), carried through as it is.
#[verifier::external_type_specification]
#[verifier::external_body]
pub struct ExSigningError(jwt_simple::Error);

/// An instant of the system clock (`std::time::SystemTime`), carried
/// through as it is.
#[verifier::external_type_specification]
#[verifier::external_body]
pub struct ExSystemTime(std::time::SystemTime);

/// The claims of a token whose framing and authentication tag were accepted.
pub struct CheckedClaims {
    /// The claim set that the issuer supplied.
    pub custom: Value,
    /// The expiry instant in seconds since the epoch, if the token has one.
    pub expires_at: Option<u64>,
}

/// The token that `HS256Key::authenticate` builds for a claim set, a secret
/// and the two instants, or `None` where it reports an error.
pub uninterp spec fn signed_token(
    payload: Value,
    secret: Seq<char>,
    issued_at: u64,
    expires_at: u64,
) -> Option<Seq<char>>;

/// What `HS256Key::verify_token` finds in a token under a secret, at an
/// instant and with a tolerance, both in seconds: the claims, or the class
/// of the error it reports.
pub uninterp spec fn token_check(
    secret: Seq<char>,
    token: Seq<char>,
    now: u64,
    tolerance: u64,
) -> Result<CheckedClaims, VerifyFailure>;

/// Whether a JSON value is an object: the result of `Value::is_object`.
pub uninterp spec fn json_is_object(value: Value) -> bool;

/// The member of a JSON object under a key, as `Value::get` finds it:
/// `None` where the value is no object or has no such member.
pub uninterp spec fn json_member(value: Value, key: Seq<char>) -> Option<Value>;

/// The number of members of a JSON object, as `Map::len` gives it, and 0
/// for a value that is no object.
pub uninterp spec fn json_member_count(value: Value) -> nat;

/// The JSON object that holds one member: the value, under the key.
pub uninterp spec fn json_wrapped(key: Seq<char>, value: Value) -> Value;

/// The class of an error of `HS256Key::verify_token`.
pub uninterp spec fn failure_of(err: jwt_simple::Error) -> VerifyFailure;

/// `SystemTime::now` of std.  Nothing is claimed of the instant it reads.
#[verifier::external_body]
pub(crate) fn system_now() -> (instant: std::time::SystemTime) {
    std::time::SystemTime::now()
}

/// `SystemTime::duration_since` of std, against `UNIX_EPOCH`, in whole
/// seconds; `None` where std reports that the instant lies before the
/// epoch.  Nothing is claimed of the number.
#[verifier::external_body]
pub(crate) fn secs_since_epoch(instant: &std::time::SystemTime) -> (secs: Option<u64>) {
    match instant.duration_since(std::time::UNIX_EPOCH) {
        Ok(elapsed) => Some(elapsed.as_secs()),
        Err(_) => None,
    }
}

/// `Value::is_object` of `serde_json`.
#[verifier::external_body]
pub(crate) fn is_json_object(value: &Value) -> (object: bool)
    ensures
        object == json_is_object(*value),
{
    value.is_object()
}

/// `Value::get` of `serde_json` with a key, and a clone of the member found.
#[verifier::external_body]
pub(crate) fn json_get_member(value: &Value, key: &str) -> (member: Option<Value>)
    ensures
        member == json_member(*value, key@),
{
    match value.get(key) {
        Some(found) => Some(found.clone()),
        None => None,
    }
}

/// `Value::as_object` and `Map::len` of `serde_json`.
#[verifier::external_body]
pub(crate) fn json_count_members(value: &Value) -> (count: usize)
    ensures
        count == json_member_count(*value),
{
    match value.as_object() {
        Some(members) => members.len(),
        None => 0,
    }
}

/// `Map::new` and `Map::insert` of `serde_json`: the object with the one
/// member.  It is an object, it has one member, and `Value::get` finds the
/// value under the key.
#[verifier::external_body]
pub(crate) fn json_wrap(key: &str, value: Value) -> (wrapped: Value)
    ensures
        wrapped == json_wrapped(key@, value),
        json_is_object(wrapped),
        json_member_count(wrapped) == 1,
        json_member(wrapped, key@) == Some(value),
{
    let mut members = serde_json::Map::new();
    members.insert(key.to_owned(), value);
    Value::Object(members)
}

/// `HS256Key::from_bytes` and `MACLike::authenticate` of `jwt_simple`, on
/// claims that hold `payload` as the custom claim set, `issued_at` as the
/// instants of issue and of first validity and `expires_at` as the expiry.
/// Three things are claimed.  The call reads no clock and draws no random
/// number, so its outcome is a function of the four arguments.  A claim
/// set that is a JSON object is always signed: its members are written
/// beside the instants, and neither the encoder nor the HMAC can fail.
/// A token is the unpadded base64url of the header, a dot, that of the
/// claims, a dot, and that of the 32 bytes of the tag, which are 43
/// characters: three segments of base64url, none of them empty.
#[verifier::external_body]
pub(crate) fn hs256_sign(payload: Value, secret: &str, issued_at: u64, expires_at: u64) -> (signed:
    Result<String, jwt_simple::Error>)
    ensures
        match signed {
            Ok(token) => signed_token(payload, secret@, issued_at, expires_at) == Some(token@)
                && spec_token_shape(encode_utf8(token@)),
            Err(_) => signed_token(payload, secret@, issued_at, expires_at) is None,
        },
        json_is_object(payload) ==> signed is Ok,
{
    let claims = JWTClaims {
        issued_at: Some(Duration::from_secs(issued_at)),
        expires_at: Some(Duration::from_secs(expires_at)),
        invalid_before: Some(Duration::from_secs(issued_at)),
        issuer: None,
        subject: None,
        audiences: None,
        jwt_id: None,
        nonce: None,
        custom: payload,
    };
    HS256Key::from_bytes(secret.as_bytes()).authenticate(claims)
}

/// `HS256Key::from_bytes` and `MACLike::verify_token` of `jwt_simple`, with
/// the instant of verification fixed at `now` seconds and the tolerance at
/// `tolerance` seconds.  With the instant given the call reads no clock, so
/// its outcome is a function of the four arguments: the claims it accepts
/// are those of `token_check`, and an error falls in the class that
/// `token_check` names.  The call subtracts the tolerance from the instant
/// and adds it to it, in 32 bits of seconds: the bounds keep both in range.
#[verifier::external_body]
pub(crate) fn hs256_verify(secret: &str, token: &str, now: u64, tolerance: u64) -> (checked:
    Result<CheckedClaims, jwt_simple::Error>)
    requires
        tolerance <= now,
        now + tolerance <= 0xFFFF_FFFF,
    ensures
        match checked {
            Ok(claims) => token_check(secret@, token@, now, tolerance) == Ok::<
                CheckedClaims,
                VerifyFailure,
            >(claims),
            Err(err) => token_check(secret@, token@, now, tolerance) == Err::<
                CheckedClaims,
                VerifyFailure,
            >(failure_of(err)),
        },
{
    let mut options = VerificationOptions::default();
    options.artificial_time = Some(Duration::from_secs(now));
    options.time_tolerance = Some(Duration::from_secs(tolerance));
    let claims = HS256Key::from_bytes(secret.as_bytes()).verify_token::<Value>(token, Some(options))?;
    let expires_at = match claims.expires_at {
        Some(instant) => Some(instant.as_secs()),
        None => None,
    };
    Ok(CheckedClaims { custom: claims.custom, expires_at })
}

/// Tells the variants of `jwt_simple::JWTError` apart, through
/// `Error::downcast_ref`, one class for each variant that a verification
/// can end in; an error of another type, as the base64url and JSON
/// decoders report them, is `Other`.
#[verifier::external_body]
pub(crate) fn failure_kind(err: &jwt_simple::Error) -> (kind: VerifyFailure)
    ensures
        kind == failure_of(*err),
{
    match err.downcast_ref::<JWTError>() {
        Some(JWTError::InvalidAuthenticationTag) => VerifyFailure::BadSignature,
        Some(JWTError::AlgorithmMismatch) => VerifyFailure::WrongAlgorithm,
        Some(JWTError::TokenHasExpired) => VerifyFailure::Expired,
        Some(JWTError::ClockDrift) => VerifyFailure::ClockDrift,
        Some(JWTError::TokenNotValidYet) => VerifyFailure::NotYetValid,
        Some(JWTError::TokenTooLong) => VerifyFailure::TooLong,
        Some(JWTError::CompactEncodingError) => VerifyFailure::Malformed,
        Some(JWTError::HeaderTooLarge) => VerifyFailure::Malformed,
        Some(JWTError::NotJWT) => VerifyFailure::Malformed,
        _ => VerifyFailure::Other,
    }
}

} // verus!
