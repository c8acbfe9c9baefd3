use jwt_codec::{Constructible, JwtError, JwtOptions, VerifyFailure};

#[test]
fn new_keeps_secret_and_lifetime() {
    let options = JwtOptions::new("s3cr3t".to_string(), 3_600_000);
    assert_eq!(options.secret(), "s3cr3t");
    assert_eq!(options.lifetime_ms(), 3_600_000);
    assert_eq!(options.get_seconds(), 3_600);
}

#[test]
fn new_accepts_an_empty_secret() {
    let options = JwtOptions::new(String::new(), 1);
    assert_eq!(options.secret(), "");
    assert_eq!(options.get_seconds(), 0);
}

#[test]
fn default_is_the_quick_start_secret_for_one_hour() {
    let options = JwtOptions::default();
    assert_eq!(options.secret(), "$3creT");
    assert_eq!(options.get_days(), 0);
    assert_eq!(options.get_hours(), 1);
    assert_eq!(options.get_minutes(), 60);
    assert_eq!(options.get_seconds(), 3_600);
}

#[test]
fn constructible_builds_from_a_pair() {
    let options = <JwtOptions as Constructible<(String, u64)>>::new(("key".to_string(), 120_000));
    assert_eq!(options.secret(), "key");
    assert_eq!(options.lifetime_ms(), 120_000);
    assert_eq!(options.get_minutes(), 2);
}

#[test]
fn accessors_floor_the_lifetime() {
    let options = JwtOptions::new("k".to_string(), 90_061_001);
    assert_eq!(options.get_days(), 1);
    assert_eq!(options.get_hours(), 25);
    assert_eq!(options.get_minutes(), 1_501);
    assert_eq!(options.get_seconds(), 90_061);
}

#[test]
fn accessors_just_below_a_unit_round_down() {
    let options = JwtOptions::new("k".to_string(), 86_399_999);
    assert_eq!(options.get_days(), 0);
    assert_eq!(options.get_hours(), 23);
    assert_eq!(options.get_minutes(), 1_439);
    assert_eq!(options.get_seconds(), 86_399);
}

#[test]
fn accessors_at_zero_and_at_the_largest_lifetime() {
    let zero = JwtOptions::new("k".to_string(), 0);
    assert_eq!(zero.get_days(), 0);
    assert_eq!(zero.get_hours(), 0);
    assert_eq!(zero.get_minutes(), 0);
    assert_eq!(zero.get_seconds(), 0);
    let most = JwtOptions::new("k".to_string(), u64::MAX);
    assert_eq!(most.get_days(), 213_503_982_334);
    assert_eq!(most.get_hours(), 5_124_095_576_030);
    assert_eq!(most.get_minutes(), 307_445_734_561_825);
    assert_eq!(most.get_seconds(), 18_446_744_073_709_551);
}

#[test]
fn units_are_floors_of_one_another() {
    let options = JwtOptions::new("k".to_string(), 987_654_321_012);
    assert_eq!(options.get_days(), options.get_hours() / 24);
    assert_eq!(options.get_hours(), options.get_minutes() / 60);
    assert_eq!(options.get_minutes(), options.get_seconds() / 60);
}

#[test]
fn clone_keeps_the_options() {
    let options = JwtOptions::new("abc".to_string(), 7_200_000);
    let copy = options.clone();
    assert_eq!(copy.secret(), "abc");
    assert_eq!(copy.get_hours(), 2);
}

#[test]
fn each_error_has_its_message() {
    assert_eq!(JwtError::Encoding.message(), "Failed to create JWT");
    assert_eq!(JwtError::EmptySecret.message(), "Secret key cannot be empty");
    assert_eq!(
        JwtError::MalformedToken.message(),
        "Failed to verify token: JWT compact encoding error"
    );
    assert_eq!(
        JwtError::SignatureMismatch.message(),
        "Failed to verify token: Authentication tag didn't verify"
    );
    assert_eq!(
        JwtError::UnsupportedAlgorithm.message(),
        "Failed to verify token: JWT algorithm mismatch"
    );
    assert_eq!(JwtError::ExpiredToken.message(), "Failed to verify token: Token has expired");
}

#[test]
fn messages_use_the_signers_words() {
    assert_eq!(
        JwtError::SignatureMismatch.message(),
        format!(
            "Failed to verify token: {}",
            jwt_simple::JWTError::InvalidAuthenticationTag
        )
    );
    assert_eq!(
        JwtError::UnsupportedAlgorithm.message(),
        format!("Failed to verify token: {}", jwt_simple::JWTError::AlgorithmMismatch)
    );
    assert_eq!(
        JwtError::ExpiredToken.message(),
        format!("Failed to verify token: {}", jwt_simple::JWTError::TokenHasExpired)
    );
    assert_eq!(
        JwtError::MalformedToken.message(),
        format!("Failed to verify token: {}", jwt_simple::JWTError::CompactEncodingError)
    );
}

#[test]
fn each_failed_check_has_its_error() {
    assert_eq!(VerifyFailure::BadSignature.error(), JwtError::SignatureMismatch);
    assert_eq!(VerifyFailure::WrongAlgorithm.error(), JwtError::UnsupportedAlgorithm);
    assert_eq!(VerifyFailure::Expired.error(), JwtError::ExpiredToken);
    assert_eq!(VerifyFailure::Malformed.error(), JwtError::MalformedToken);
    assert_eq!(VerifyFailure::ClockDrift.error(), JwtError::MalformedToken);
    assert_eq!(VerifyFailure::NotYetValid.error(), JwtError::MalformedToken);
    assert_eq!(VerifyFailure::TooLong.error(), JwtError::MalformedToken);
    assert_eq!(VerifyFailure::Other.error(), JwtError::MalformedToken);
}
