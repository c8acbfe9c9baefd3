//! The failures that issuing and verifying a token can end in.

use vstd::prelude::*;

verus! {

/// Why a token could not be issued or was not accepted.
#[derive(Clone, Copy, Debug, PartialEq, Eq, Structural)]
pub enum JwtError {
    /// The claim set has no JSON form that can be framed, the expiry
    /// instant does not fit a timestamp, or the signer failed.
    Encoding,
    /// Verification was attempted with an empty secret.
    EmptySecret,
    /// The token is not three base64url segments holding well-formed JSON.
    MalformedToken,
    /// The authentication tag does not belong to this token under this secret.
    SignatureMismatch,
    /// The header names an algorithm other than HS256.
    UnsupportedAlgorithm,
    /// The clock stands at or past the token's expiry instant.
    ExpiredToken,
}

/// What the signature check of a token reported when it did not pass.
#[derive(Clone, Copy, Debug, PartialEq, Eq, Structural)]
pub enum VerifyFailure {
    /// The recomputed authentication tag differs from the one in the token.
    BadSignature,
    /// The header's algorithm is not the one the key is for.
    WrongAlgorithm,
    /// The expiry instant lies before the instant of verification.
    Expired,
    /// The instant of issue lies further ahead than the tolerance allows.
    ClockDrift,
    /// The instant of first validity lies further ahead than the
    /// tolerance allows.
    NotYetValid,
    /// The token is longer than the signer reads.
    TooLong,
    /// The compact form is broken: the segment count, the size of the
    /// header, or a type that is not a JWT.
    Malformed,
    /// Anything else, the errors of the base64url and JSON decoders among
    /// them.
    Other,
}

impl JwtError {
    /// The text of the message that `message` returns.
    pub open spec fn spec_message(self) -> Seq<char> {
        match self {
            JwtError::Encoding => "Failed to create JWT"@,
            JwtError::EmptySecret => "Secret key cannot be empty"@,
            JwtError::MalformedToken => "Failed to verify token: JWT compact encoding error"@,
            JwtError::SignatureMismatch => "Failed to verify token: Authentication tag didn't verify"@,
            JwtError::UnsupportedAlgorithm => "Failed to verify token: JWT algorithm mismatch"@,
            JwtError::ExpiredToken => "Failed to verify token: Token has expired"@,
        }
    }

    /// A human-readable description of the failure: for a token that was
    /// refused, the text begins `Failed to verify token: ` and goes on
    /// with the signer's own words for that class of failure.
    pub fn message(&self) -> (text: String)
        ensures
            text@ == self.spec_message(),
    {
        match self {
            JwtError::Encoding => "Failed to create JWT".to_owned(),
            JwtError::EmptySecret => "Secret key cannot be empty".to_owned(),
            JwtError::MalformedToken => "Failed to verify token: JWT compact encoding error".to_owned(),
            JwtError::SignatureMismatch => {
                "Failed to verify token: Authentication tag didn't verify".to_owned()
            },
            JwtError::UnsupportedAlgorithm => {
                "Failed to verify token: JWT algorithm mismatch".to_owned()
            },
            JwtError::ExpiredToken => "Failed to verify token: Token has expired".to_owned(),
        }
    }
}

impl VerifyFailure {
    /// The error that a failed check is reported as.
    pub open spec fn spec_error(self) -> JwtError {
        match self {
            VerifyFailure::BadSignature => JwtError::SignatureMismatch,
            VerifyFailure::WrongAlgorithm => JwtError::UnsupportedAlgorithm,
            VerifyFailure::Expired => JwtError::ExpiredToken,
            VerifyFailure::ClockDrift => JwtError::MalformedToken,
            VerifyFailure::NotYetValid => JwtError::MalformedToken,
            VerifyFailure::TooLong => JwtError::MalformedToken,
            VerifyFailure::Malformed => JwtError::MalformedToken,
            VerifyFailure::Other => JwtError::MalformedToken,
        }
    }

    /// Maps a failed check to the error the caller sees.
    pub fn error(self) -> (e: JwtError)
        ensures
            e == self.spec_error(),
    {
        match self {
            VerifyFailure::BadSignature => JwtError::SignatureMismatch,
            VerifyFailure::WrongAlgorithm => JwtError::UnsupportedAlgorithm,
            VerifyFailure::Expired => JwtError::ExpiredToken,
            VerifyFailure::ClockDrift => JwtError::MalformedToken,
            VerifyFailure::NotYetValid => JwtError::MalformedToken,
            VerifyFailure::TooLong => JwtError::MalformedToken,
            VerifyFailure::Malformed => JwtError::MalformedToken,
            VerifyFailure::Other => JwtError::MalformedToken,
        }
    }
}

} // verus!
