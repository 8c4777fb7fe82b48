use deepwell::error::ServiceError;
use deepwell::mfa::{MfaService, TIME_SKEW, TIME_STEP, TOTP_CEILING};

const SECRET: &str = "BASE32SECRET3232";

#[test]
fn check_totp_accepts_the_computed_code() {
    assert_eq!(MfaService::check_totp(Ok(260182), 260182), Ok(()));
    assert_eq!(MfaService::check_totp(Ok(0), 0), Ok(()));
}

#[test]
fn check_totp_rejects_another_code() {
    assert_eq!(
        MfaService::check_totp(Ok(260182), 260183),
        Err(ServiceError::InvalidAuthentication)
    );
    assert_eq!(
        MfaService::check_totp(Ok(1), 0x8000_0001),
        Err(ServiceError::InvalidAuthentication)
    );
}

#[test]
fn check_totp_reports_a_code_that_could_not_be_computed() {
    let failure = rust_otp::Error::InvalidDigest(Vec::new());
    assert_eq!(MfaService::check_totp(Err(failure), 0), Err(ServiceError::Otp));
}

#[test]
fn verify_without_secret_fails() {
    assert_eq!(
        MfaService::verify(&None, 123456),
        Err(ServiceError::InvalidAuthentication)
    );
}

#[test]
fn verify_with_invalid_secret_fails() {
    let secret = Some("not base32!".to_string());
    assert_eq!(MfaService::verify(&secret, 123456), Err(ServiceError::Otp));
}

#[test]
fn verify_rejects_codes_of_more_than_six_digits() {
    let secret = Some(SECRET.to_string());
    assert_eq!(
        MfaService::verify(&secret, TOTP_CEILING),
        Err(ServiceError::InvalidAuthentication)
    );
    assert_eq!(
        MfaService::verify(&secret, u32::MAX),
        Err(ServiceError::InvalidAuthentication)
    );
}

#[test]
fn verify_accepts_the_current_code() {
    let secret = Some(SECRET.to_string());
    // The code changes every thirty seconds: try again if the clock ticked
    // over between computing the code and verifying it.
    let mut accepted = false;
    for _ in 0..3 {
        let code = rust_otp::make_totp(SECRET, TIME_STEP, TIME_SKEW).unwrap();
        assert!(code < TOTP_CEILING);
        if MfaService::verify(&secret, code) == Ok(()) {
            accepted = true;
            break;
        }
    }
    assert!(accepted);
}

#[test]
fn verify_rejects_a_wrong_code() {
    let secret = Some(SECRET.to_string());
    let mut rejected = false;
    for _ in 0..3 {
        let code = rust_otp::make_totp(SECRET, TIME_STEP, TIME_SKEW).unwrap();
        let wrong = (code + 1) % TOTP_CEILING;
        if MfaService::verify(&secret, wrong) == Err(ServiceError::InvalidAuthentication) {
            rejected = true;
            break;
        }
    }
    assert!(rejected);
}

#[test]
fn recovery_without_codes_fails() {
    assert_eq!(
        MfaService::verify_recovery(&None),
        Err(ServiceError::InvalidAuthentication)
    );
    assert_eq!(
        MfaService::verify_recovery(&Some(Vec::new())),
        Err(ServiceError::InvalidAuthentication)
    );
}

#[test]
fn recovery_needs_one_match() {
    assert_eq!(
        MfaService::verify_recovery(&Some(vec![false, false, false])),
        Err(ServiceError::InvalidAuthentication)
    );
    assert_eq!(MfaService::verify_recovery(&Some(vec![false, true, false])), Ok(()));
    assert_eq!(MfaService::verify_recovery(&Some(vec![true])), Ok(()));
    assert_eq!(MfaService::verify_recovery(&Some(vec![false, false, true])), Ok(()));
}
