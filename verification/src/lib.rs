//! Signed session tokens: compact JSON Web Tokens authenticated with
//! HMAC-SHA256.
//!
//! [`create_jwt`] frames a JSON claim set with an expiry instant and signs
//! it; [`verify_jwt`] checks a token against a secret and the clock and
//! hands the claim set back.  [`JwtOptions`] carries the signing secret and
//! the lifetime of the tokens to issue.
//!
//! The HMAC, base64url and JSON primitives come from `jwt_simple` and
//! `serde_json`; every decision taken around them is verified.

pub mod codec;
pub mod error;
pub mod framing;
pub mod options;
pub mod signing;

pub use error::{JwtError, VerifyFailure};
pub use framing::{
    count_separators, has_base64url_segments, has_segment_lengths, has_token_alphabet,
    is_base64url_byte, is_framed,
};
pub use options::{Constructible, JwtOptions};
pub use signing::CheckedClaims;
pub use codec::{
    clock_instant, create_jwt, create_jwt_at, envelope, expiry_secs, has_reserved_member,
    issue_outcome, open_envelope, tolerance_at, verify_jwt, verify_jwt_at, verify_outcome,
};
