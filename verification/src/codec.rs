//! Issuing and verifying tokens.
//!
//! A token carries the caller's claim set, the instant of issue and the
//! instant of expiry.  Lifetimes count in whole hours: what `JwtOptions`
//! holds beyond a whole number of hours does not prolong a token.
//! Verification knows no leeway for the expiry: a token is refused from
//! the second of its expiry on.  The instant of issue may lie up to
//! `CLOCK_TOLERANCE_SECS` past the instant of verification, for clocks that
//! do not agree.

use serde_json::Value;
use vstd::prelude::*;
use vstd::string::StringSliceAdditionalSpecFns;
use vstd::utf8::encode_utf8;

use crate::error::{JwtError, VerifyFailure};
use crate::framing::{
    has_base64url_segments, spec_framed, spec_segment_lengths, spec_segments_base64url,
    spec_token_alphabet, spec_token_shape,
};
use crate::options::{JwtOptions, MS_PER_HOUR};
use crate::signing::{
    failure_kind, hs256_sign, hs256_verify, is_json_object, json_count_members, json_get_member,
    json_is_object, json_member, json_member_count, json_wrap, json_wrapped, secs_since_epoch,
    signed_token, system_now, token_check, CheckedClaims,
};

verus! {

/// Seconds in one hour.
pub const SECONDS_PER_HOUR: u64 = 3_600;

/// The last instant, in seconds since the epoch, that a token can carry.
pub const MAX_TIMESTAMP: u64 = 0xFFFF_FFFF;

/// How far, in seconds, the instant of a token's issue may lie past the
/// instant of its verification.
pub const CLOCK_TOLERANCE_SECS: u64 = 900;

/// The instant that a reading of the clock stands for: the reading, held
/// to the last timestamp.  A clock that cannot be read stands at the last
/// timestamp, where every token with an expiry has expired.
pub open spec fn spec_clock_instant(reading: Option<u64>) -> u64 {
    match reading {
        Some(secs) if secs <= MAX_TIMESTAMP => secs,
        _ => MAX_TIMESTAMP,
    }
}

/// The tolerance that applies at `now`: `CLOCK_TOLERANCE_SECS`, shortened
/// where the epoch or the last timestamp is nearer than that.
pub open spec fn spec_tolerance(now: u64) -> u64 {
    if now < CLOCK_TOLERANCE_SECS {
        now
    } else if now <= MAX_TIMESTAMP - CLOCK_TOLERANCE_SECS {
        CLOCK_TOLERANCE_SECS
    } else if now <= MAX_TIMESTAMP {
        (MAX_TIMESTAMP - now) as u64
    } else {
        0
    }
}

/// The expiry instant of a token issued at `now` seconds for `hours` whole
/// hours, where it fits a timestamp.
pub open spec fn spec_expiry(now: u64, hours: u64) -> Option<u64> {
    if now + hours * SECONDS_PER_HOUR <= MAX_TIMESTAMP {
        Some((now + hours * SECONDS_PER_HOUR) as u64)
    } else {
        None
    }
}

/// The key under which a payload is carried that cannot stand among the
/// claims itself.
pub open spec fn spec_envelope_key() -> Seq<char> {
    "_payload"@
}

/// Whether a payload has a member that the claims of a token keep for
/// themselves: one of the registered claims, or the envelope's own key.
pub open spec fn spec_reserved(payload: Value) -> bool {
    ||| json_member(payload, spec_envelope_key()) is Some
    ||| json_member(payload, "iat"@) is Some
    ||| json_member(payload, "exp"@) is Some
    ||| json_member(payload, "nbf"@) is Some
    ||| json_member(payload, "iss"@) is Some
    ||| json_member(payload, "sub"@) is Some
    ||| json_member(payload, "aud"@) is Some
    ||| json_member(payload, "jti"@) is Some
    ||| json_member(payload, "nonce"@) is Some
}

/// The claim set that carries a payload: a JSON object without reserved
/// members is its own claim set, and every other value is the one member
/// of an object, under the envelope's key.
pub open spec fn spec_envelope(payload: Value) -> Value {
    if json_is_object(payload) && !spec_reserved(payload) {
        payload
    } else {
        json_wrapped(spec_envelope_key(), payload)
    }
}

/// The payload that a claim set carries: the one member of an object that
/// has the envelope's key and no other, and else the claim set itself.
pub open spec fn spec_payload(claims: Value) -> Value {
    if json_member_count(claims) == 1 && json_member(claims, spec_envelope_key()) is Some {
        json_member(claims, spec_envelope_key())->Some_0
    } else {
        claims
    }
}

/// What the caller of `create_jwt` gets for each outcome of the signer.
pub open spec fn spec_issue_outcome(signed: Result<String, jwt_simple::Error>) -> Result<
    String,
    JwtError,
> {
    match signed {
        Ok(token) => Ok(token),
        Err(_) => Err(JwtError::Encoding),
    }
}

/// Whether `result` is what issuing `payload` under `options` at `now`
/// seconds gives: the signed token of the payload's claim set where the
/// expiry fits a timestamp, and `JwtError::Encoding` where it does not.
pub open spec fn spec_issued_at(
    result: Result<String, JwtError>,
    payload: Value,
    options: JwtOptions,
    now: u64,
) -> bool {
    match spec_expiry(now, options.spec_hours()) {
        Some(expires_at) => {
            &&& result is Ok
            &&& signed_token(spec_envelope(payload), options.spec_secret(), now, expires_at)
                == Some(result->Ok_0@)
            &&& spec_token_shape(encode_utf8(result->Ok_0@))
        },
        None => result == Err::<String, JwtError>(JwtError::Encoding),
    }
}

/// What the caller of `verify_jwt` gets for each outcome of the signature
/// check, at `now` seconds.
pub open spec fn spec_verify_outcome(checked: Result<CheckedClaims, VerifyFailure>, now: u64)
    -> Result<Value, JwtError> {
    match checked {
        Err(failure) => Err(failure.spec_error()),
        Ok(claims) => match claims.expires_at {
            Some(expires_at) if expires_at <= now => Err(JwtError::ExpiredToken),
            _ => Ok(spec_payload(claims.custom)),
        },
    }
}

/// What verifying `token` with `secret` at `now` seconds gives: an empty
/// secret is refused first, then a token that is not three segments of
/// base64url, and what is left goes by the signature check and the expiry.
pub open spec fn spec_verify_at(token: &str, secret: Seq<char>, now: u64) -> Result<
    Value,
    JwtError,
> {
    if secret.len() == 0 {
        Err(JwtError::EmptySecret)
    } else if !spec_segments_base64url(token.spec_bytes()) {
        Err(JwtError::MalformedToken)
    } else {
        spec_verify_outcome(
            token_check(secret, token@, spec_clock_instant(Some(now)), spec_tolerance(now)),
            now,
        )
    }
}

/// Whether a payload has a member that the claims keep for themselves.
pub fn has_reserved_member(payload: &Value) -> (reserved: bool)
    ensures
        reserved == spec_reserved(*payload),
{
    json_get_member(payload, "_payload").is_some() || json_get_member(payload, "iat").is_some()
        || json_get_member(payload, "exp").is_some() || json_get_member(payload, "nbf").is_some()
        || json_get_member(payload, "iss").is_some() || json_get_member(payload, "sub").is_some()
        || json_get_member(payload, "aud").is_some() || json_get_member(payload, "jti").is_some()
        || json_get_member(payload, "nonce").is_some()
}

/// The claim set that carries `payload`.  It is always a JSON object, and
/// the payload it carries is `payload`.
pub fn envelope(payload: Value) -> (claims: Value)
    ensures
        claims == spec_envelope(payload),
        json_is_object(claims),
        spec_payload(claims) == payload,
{
    if is_json_object(&payload) && !has_reserved_member(&payload) {
        payload
    } else {
        json_wrap("_payload", payload)
    }
}

/// The payload that a claim set carries.
pub fn open_envelope(claims: Value) -> (payload: Value)
    ensures
        payload == spec_payload(claims),
{
    if json_count_members(&claims) == 1 {
        match json_get_member(&claims, "_payload") {
            Some(member) => member,
            None => claims,
        }
    } else {
        claims
    }
}

/// The instant that a reading of the clock stands for.
pub fn clock_instant(reading: Option<u64>) -> (now: u64)
    ensures
        now == spec_clock_instant(reading),
        now <= MAX_TIMESTAMP,
{
    match reading {
        Some(secs) => if secs <= MAX_TIMESTAMP {
            secs
        } else {
            MAX_TIMESTAMP
        },
        None => MAX_TIMESTAMP,
    }
}

/// The tolerance that applies at `now`.
pub fn tolerance_at(now: u64) -> (tolerance: u64)
    ensures
        tolerance == spec_tolerance(now),
        tolerance <= spec_clock_instant(Some(now)),
        spec_clock_instant(Some(now)) + tolerance <= MAX_TIMESTAMP,
{
    if now < CLOCK_TOLERANCE_SECS {
        now
    } else if now <= MAX_TIMESTAMP - CLOCK_TOLERANCE_SECS {
        CLOCK_TOLERANCE_SECS
    } else if now <= MAX_TIMESTAMP {
        MAX_TIMESTAMP - now
    } else {
        0
    }
}

/// The expiry instant of a token issued at `now` seconds for `hours` whole
/// hours, or `None` where it lies past the last timestamp.
pub fn expiry_secs(now: u64, hours: u64) -> (expiry: Option<u64>)
    ensures
        expiry == spec_expiry(now, hours),
{
    if hours > MAX_TIMESTAMP / SECONDS_PER_HOUR {
        return None;
    }
    let span: u64 = hours * SECONDS_PER_HOUR;
    if now > MAX_TIMESTAMP - span {
        None
    } else {
        Some(now + span)
    }
}

/// Turns the signer's outcome into the caller's: the token, or
/// `JwtError::Encoding` whatever the signer's error was.
pub fn issue_outcome(signed: Result<String, jwt_simple::Error>) -> (result: Result<
    String,
    JwtError,
>)
    ensures
        result == spec_issue_outcome(signed),
{
    match signed {
        Ok(token) => Ok(token),
        Err(_) => Err(JwtError::Encoding),
    }
}

/// Issues a token for `payload` as if the clock stood at `now` seconds.
///
/// The token expires `options.get_hours()` whole hours after `now`.  The
/// call succeeds for every JSON value, unless the expiry lies past
/// `MAX_TIMESTAMP`.  The members of a JSON object stand beside the expiry
/// as they are; a value of another kind, and an object with a member of a
/// reserved name, is carried as the one member `_payload`.
pub fn create_jwt_at(payload: Value, options: &JwtOptions, now: u64) -> (result: Result<
    String,
    JwtError,
>)
    ensures
        spec_issued_at(result, payload, *options, now),
        result is Ok <==> spec_expiry(now, options.spec_hours()) is Some,
        result is Ok ==> spec_token_shape(encode_utf8(result->Ok_0@)),
{
    match expiry_secs(now, options.get_hours()) {
        None => Err(JwtError::Encoding),
        Some(expires_at) => {
            let claims = envelope(payload);
            issue_outcome(hs256_sign(claims, options.secret(), now, expires_at))
        },
    }
}

/// Issues a token for `payload`, signed with the secret of `options` and
/// valid from now for `options.get_hours()` whole hours.
///
/// An empty secret is not refused here.  A system clock that cannot be
/// read counts as standing at `MAX_TIMESTAMP`, from which only a lifetime
/// under one hour fits.
pub fn create_jwt(payload: Value, options: &JwtOptions) -> (result: Result<String, JwtError>)
    ensures
        exists|now: u64|
            now <= MAX_TIMESTAMP && #[trigger] spec_issued_at(result, payload, *options, now),
        result is Err ==> result == Err::<String, JwtError>(JwtError::Encoding),
        options.spec_hours() == 0 ==> result is Ok,
        result is Ok ==> spec_token_shape(encode_utf8(result->Ok_0@)),
{
    let instant = system_now();
    let now: u64 = clock_instant(secs_since_epoch(&instant));
    create_jwt_at(payload, options, now)
}

/// Decides what a verification at `now` seconds returns, given what the
/// signature check found: a failed check becomes its error, accepted
/// claims are refused from their expiry instant on, and otherwise the
/// issuer's payload is handed back without the framing.
pub fn verify_outcome(checked: Result<CheckedClaims, VerifyFailure>, now: u64) -> (result: Result<
    Value,
    JwtError,
>)
    ensures
        result == spec_verify_outcome(checked, now),
{
    match checked {
        Err(failure) => Err(failure.error()),
        Ok(claims) => {
            match claims.expires_at {
                Some(expires_at) => {
                    if expires_at <= now {
                        Err(JwtError::ExpiredToken)
                    } else {
                        Ok(open_envelope(claims.custom))
                    }
                },
                None => Ok(open_envelope(claims.custom)),
            }
        },
    }
}

/// Verifies `token` with `secret` as if the clock stood at `now` seconds.
///
/// An empty secret is refused first, then a text that is not three
/// segments of valid base64url.  A token issued more than the tolerance
/// after `now` is refused as malformed.
pub fn verify_jwt_at(token: &str, secret: &str, now: u64) -> (result: Result<Value, JwtError>)
    ensures
        result == spec_verify_at(token, secret@, now),
        secret@.len() == 0 <==> result == Err::<Value, JwtError>(JwtError::EmptySecret),
        secret@.len() > 0 && !spec_segments_base64url(token.spec_bytes()) ==> result == Err::<
            Value,
            JwtError,
        >(JwtError::MalformedToken),
        result != Err::<Value, JwtError>(JwtError::Encoding),
{
    if secret.is_empty() {
        return Err(JwtError::EmptySecret);
    }
    if !has_base64url_segments(token) {
        return Err(JwtError::MalformedToken);
    }
    let held: u64 = clock_instant(Some(now));
    let checked = match hs256_verify(secret, token, held, tolerance_at(now)) {
        Ok(claims) => Ok(claims),
        Err(err) => Err(failure_kind(&err)),
    };
    verify_outcome(checked, now)
}

/// Verifies `token` with `secret` against the clock and returns the claim
/// set that the issuer supplied.
///
/// An empty secret is refused before the token is looked at.  A system
/// clock that cannot be read counts as standing at `MAX_TIMESTAMP`, where
/// every token with an expiry has expired.
pub fn verify_jwt(token: &str, secret: &str) -> (result: Result<Value, JwtError>)
    ensures
        secret@.len() == 0 <==> result == Err::<Value, JwtError>(JwtError::EmptySecret),
        secret@.len() > 0 && !spec_segments_base64url(token.spec_bytes()) ==> result == Err::<
            Value,
            JwtError,
        >(JwtError::MalformedToken),
        exists|now: u64|
            now <= MAX_TIMESTAMP && result == #[trigger] spec_verify_at(token, secret@, now),
        result != Err::<Value, JwtError>(JwtError::Encoding),
{
    if secret.is_empty() {
        assert(spec_verify_at(token, secret@, 0) == Err::<Value, JwtError>(JwtError::EmptySecret));
        return Err(JwtError::EmptySecret);
    }
    let instant = system_now();
    let now: u64 = clock_instant(secs_since_epoch(&instant));
    verify_jwt_at(token, secret, now)
}

/// Verification with an empty secret fails with `JwtError::EmptySecret`
/// for every token and at every instant, and with no other secret does it
/// fail so.
pub proof fn lemma_empty_secret_rejected(token: &str, secret: Seq<char>, now: u64)
    ensures
        secret.len() == 0 <==> spec_verify_at(token, secret, now) == Err::<Value, JwtError>(
            JwtError::EmptySecret,
        ),
{
}

/// A text that is not exactly three segments, that holds a byte outside
/// the base64url alphabet, or that has a segment of a length that base64
/// cannot have, is refused as malformed under every secret that is not
/// empty, and at every instant.
pub proof fn lemma_unframed_is_malformed(token: &str, secret: Seq<char>, now: u64)
    requires
        secret.len() > 0,
        !spec_framed(token.spec_bytes()) || !spec_token_alphabet(token.spec_bytes())
            || !spec_segment_lengths(token.spec_bytes()),
    ensures
        spec_verify_at(token, secret, now) == Err::<Value, JwtError>(JwtError::MalformedToken),
{
}

/// A lifetime under one hour counts as no lifetime: the expiry instant is
/// the instant of issue, and claims that carry it are refused with
/// `JwtError::ExpiredToken` at that instant and at every later one.
pub proof fn lemma_sub_hour_lifetime_expired(
    options: JwtOptions,
    issued_at: u64,
    claims: CheckedClaims,
    at: u64,
)
    requires
        options.spec_lifetime_ms() < MS_PER_HOUR,
        issued_at <= MAX_TIMESTAMP,
        claims.expires_at == spec_expiry(issued_at, options.spec_hours()),
        issued_at <= at,
    ensures
        spec_expiry(issued_at, options.spec_hours()) == Some(issued_at),
        spec_verify_outcome(Ok(claims), at) == Err::<Value, JwtError>(JwtError::ExpiredToken),
{
}

/// Claims that carry the expiry instant of their issue are handed back
/// unchanged at every instant before it, and refused from it on.
pub proof fn lemma_accepted_until_expiry(
    options: JwtOptions,
    issued_at: u64,
    claims: CheckedClaims,
    at: u64,
)
    requires
        spec_expiry(issued_at, options.spec_hours()) is Some,
        claims.expires_at == spec_expiry(issued_at, options.spec_hours()),
    ensures
        at < issued_at + options.spec_hours() * SECONDS_PER_HOUR ==> spec_verify_outcome(
            Ok(claims),
            at,
        ) == Ok::<Value, JwtError>(spec_payload(claims.custom)),
        at >= issued_at + options.spec_hours() * SECONDS_PER_HOUR ==> spec_verify_outcome(
            Ok(claims),
            at,
        ) == Err::<Value, JwtError>(JwtError::ExpiredToken),
{
}

/// Only the whole hours of a lifetime count: two options with the same
/// secret and the same number of whole hours issue the same token for the
/// same payload at the same instant.
pub proof fn lemma_lifetime_counts_in_hours(
    first: JwtOptions,
    second: JwtOptions,
    payload: Value,
    now: u64,
    result: Result<String, JwtError>,
)
    requires
        first.spec_secret() == second.spec_secret(),
        first.spec_lifetime_ms() / MS_PER_HOUR == second.spec_lifetime_ms() / MS_PER_HOUR,
    ensures
        spec_issued_at(result, payload, first, now) == spec_issued_at(
            result,
            payload,
            second,
            now,
        ),
{
}

/// A token that the signature check does not accept is refused at every
/// instant, with the error of the check: a verification never succeeds
/// on, and never reports the expiry of, claims that were not authenticated.
pub proof fn lemma_failed_check_refused(failure: VerifyFailure, now: u64)
    ensures
        spec_verify_outcome(Err(failure), now) == Err::<Value, JwtError>(failure.spec_error()),
        failure.spec_error() != JwtError::EmptySecret,
        failure.spec_error() != JwtError::Encoding,
        failure == VerifyFailure::BadSignature <==> failure.spec_error()
            == JwtError::SignatureMismatch,
{
}

/// Issuing succeeds for every JSON value and under every secret, at every
/// instant from which the expiry fits a timestamp, and at no other.
pub proof fn lemma_issue_succeeds(
    result: Result<String, JwtError>,
    payload: Value,
    options: JwtOptions,
    now: u64,
)
    requires
        spec_issued_at(result, payload, options, now),
    ensures
        result is Ok <==> now + options.spec_hours() * SECONDS_PER_HOUR <= MAX_TIMESTAMP,
        result is Err ==> result == Err::<String, JwtError>(JwtError::Encoding),
{
}

} // verus!
