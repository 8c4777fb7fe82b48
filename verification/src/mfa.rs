use vstd::prelude::*;
use crate::error::ServiceError;
use subtle::ConstantTimeEq;

verus! {

/// The amount of time to give for each one-time password, in seconds.
///
/// Thirty seconds is what the common authenticator applications use. It
/// gives the user enough time to enter a code, and is short enough to make
/// guessing impractical.
pub const TIME_STEP: u64 = 30;

/// The offset, in seconds, by which the clock is shifted before a one-time
/// password is computed, to allow for clock skew.
pub const TIME_SKEW: i64 = 1;

/// One more than the largest one-time password.
pub const TOTP_CEILING: u32 = 1_000_000;

/// Declares `rust_otp::Error`, the error of `rust_otp::make_totp`, so that
/// it can be carried through verified code. Nothing is claimed about what
/// a value of it holds.
#[verifier::external_type_specification]
#[verifier::external_body]
pub struct ExOtpError(rust_otp::Error);

/// Calls `rust_otp::make_totp`, which computes the time-based one-time
/// password for a base32 secret from the system clock.
///
/// The result depends on the time of the call, so nothing is said of which
/// code comes back: only that a code has at most six digits, since the
/// function reduces it modulo one million. It fails when the secret is not
/// valid base32 or the clock reads a time before 1970. The time step must
/// not be zero, because the function divides by it, and the skew is kept
/// within thirty-odd years either way, so that adding it to the seconds
/// that the clock reads cannot overflow.
#[verifier::external_body]
fn make_totp(secret: &str, time_step: u64, skew: i64) -> (r: Result<u32, rust_otp::Error>)
    requires
        time_step > 0,
        -0x4000_0000 <= skew <= 0x4000_0000,
    ensures
        r matches Ok(code) ==> code < TOTP_CEILING,
{
    rust_otp::make_totp(secret, time_step, skew)
}

/// Calls `subtle::ConstantTimeEq::ct_eq` on two `u32` values and turns
/// the `Choice` into a `bool`.
///
/// The comparison takes the same time whatever the values are; its result
/// is that of `==`.
#[verifier::external_body]
fn constant_time_eq(a: u32, b: u32) -> (r: bool)
    ensures
        r == (a == b),
{
    a.ct_eq(&b).into()
}

/// What checking an entered one-time password against the computed one
/// comes to.
pub open spec fn totp_outcome(actual: Result<u32, rust_otp::Error>, entered_totp: u32) -> Result<(), ServiceError> {
    match actual {
        Ok(code) => if code == entered_totp {
            Ok(())
        } else {
            Err(ServiceError::InvalidAuthentication)
        },
        Err(_) => Err(ServiceError::Otp),
    }
}

/// Whether any of the verdicts is a match.
pub open spec fn any_match(verdicts: Seq<bool>) -> bool {
    exists|i: int| 0 <= i < verdicts.len() && #[trigger] verdicts[i]
}

/// Verification of second factors.
#[derive(Debug)]
pub struct MfaService;

impl MfaService {
    /// Compares an entered one-time password with the computed one.
    ///
    /// Succeeds exactly when a code was computed and the entered one equals
    /// it. A code that could not be computed is an `Otp` error, a code that
    /// differs is `InvalidAuthentication`. The comparison is made in
    /// constant time.
    pub fn check_totp(actual: Result<u32, rust_otp::Error>, entered_totp: u32) -> (r: Result<(), ServiceError>)
        ensures
            r == totp_outcome(actual, entered_totp),
    {
        match actual {
            Ok(code) => {
                if constant_time_eq(code, entered_totp) {
                    Ok(())
                } else {
                    Err(ServiceError::InvalidAuthentication)
                }
            },
            Err(_) => Err(ServiceError::Otp),
        }
    }

    /// Verifies the one-time password entered for a user.
    ///
    /// A user without a secret cannot be verified. Otherwise the current
    /// code is computed from the secret and the clock, and the answer is
    /// that of `check_totp` for whatever was computed; an entered value of
    /// more than six digits never matches.
    pub fn verify(secret: &Option<String>, entered_totp: u32) -> (r: Result<(), ServiceError>)
        ensures
            secret is None ==> r == Err::<(), ServiceError>(ServiceError::InvalidAuthentication),
            entered_totp >= TOTP_CEILING ==> r is Err,
            exists|actual: Result<u32, rust_otp::Error>|
                secret is Some ==> r == #[trigger] totp_outcome(actual, entered_totp),
    {
        let secret = match secret {
            Some(secret) => secret,
            None => {
                assert(secret is Some ==> Err::<(), ServiceError>(ServiceError::InvalidAuthentication) == totp_outcome(
                    Ok(0),
                    entered_totp,
                ));
                return Err(ServiceError::InvalidAuthentication);
            },
        };
        let actual = make_totp(secret.as_str(), TIME_STEP, TIME_SKEW);
        let ghost witness = actual;
        let r = Self::check_totp(actual, entered_totp);
        assert(r == totp_outcome(witness, entered_totp));
        r
    }

    /// Decides on a recovery code from the verdicts on each stored hash.
    ///
    /// `verdicts` holds, for each recovery code hash of the user, whether
    /// the entered code matched it; it is `None` for a user without
    /// recovery codes. The code is accepted exactly when at least one hash
    /// matched. Every verdict is looked at, also after a match.
    pub fn verify_recovery(verdicts: &Option<Vec<bool>>) -> (r: Result<(), ServiceError>)
        ensures
            r == (match *verdicts {
                Some(list) if any_match(list@) => Ok::<(), ServiceError>(()),
                _ => Err::<(), ServiceError>(ServiceError::InvalidAuthentication),
            }),
    {
        let list = match verdicts {
            Some(list) => list,
            None => {
                return Err(ServiceError::InvalidAuthentication);
            },
        };
        let mut matched = false;
        let mut i: usize = 0;
        while i < list.len()
            invariant
                i <= list.len(),
                matched == any_match(list@.take(i as int)),
            decreases list.len() - i,
        {
            let ghost seen = list@.take(i as int);
            let ghost next = list@.take(i + 1);
            assert(next =~= seen.push(list@[i as int]));
            proof {
                if any_match(seen) {
                    let k = choose|k: int| 0 <= k < seen.len() && #[trigger] seen[k];
                    assert(next[k]);
                }
                if list@[i as int] {
                    assert(next[i as int]);
                }
                if any_match(next) {
                    let k = choose|k: int| 0 <= k < next.len() && #[trigger] next[k];
                    if k < i {
                        assert(seen[k]);
                    }
                }
            }
            if list[i] {
                matched = true;
            }
            i += 1;
        }
        assert(list@.take(list.len() as int) =~= list@);
        if matched {
            Ok(())
        } else {
            Err(ServiceError::InvalidAuthentication)
        }
    }
}

} // verus!
