//! What holds of every passcode store, proved from [`started`], [`verdict`]
//! and [`after_attempt`].

use crate::decimal::{decimal, is_digit, lemma_decimal_is_digits, lemma_six_digits};
use crate::otp::{
    after_attempt, is_otp_code, otp_expiry, started, verdict, Challenges, OtpError, OTP_MAX, OTP_MIN,
};
use vstd::prelude::*;

verus! {

/// A challenge is good for one login. An attempt with the right codes, made
/// no later than the expiry, succeeds and removes the challenge; whatever is
/// tried for the same principal afterwards, with the same codes or others,
/// at any time, finds nothing.
pub proof fn lemma_success_is_once(
    challenges: Challenges,
    id: int,
    now: int,
    next_email_code: Seq<char>,
    next_phone_code: Seq<char>,
    later: int,
)
    requires
        challenges.contains_key(id),
        now <= challenges[id].expires_at,
    ensures
        ({
            let email_code = challenges[id].email_code;
            let phone_code = challenges[id].phone_code;
            let left = after_attempt(challenges, id, email_code, phone_code, now);
            &&& verdict(challenges, id, email_code, phone_code, now) == Ok::<(), OtpError>(())
            &&& left == challenges.remove(id)
            &&& verdict(left, id, email_code, phone_code, later) == Err::<(), OtpError>(
                OtpError::NotFound,
            )
            &&& verdict(left, id, next_email_code, next_phone_code, later) == Err::<(), OtpError>(
                OtpError::NotFound,
            )
        }),
{
}

/// A challenge answered too late is refused as `Expired`, whatever the
/// codes, and is gone after that: the next attempt finds nothing.
pub proof fn lemma_expiry_removes_challenge(
    challenges: Challenges,
    id: int,
    email_code: Seq<char>,
    phone_code: Seq<char>,
    now: int,
    next_email_code: Seq<char>,
    next_phone_code: Seq<char>,
    later: int,
)
    requires
        challenges.contains_key(id),
        now > challenges[id].expires_at,
    ensures
        ({
            let left = after_attempt(challenges, id, email_code, phone_code, now);
            &&& verdict(challenges, id, email_code, phone_code, now) == Err::<(), OtpError>(
                OtpError::Expired,
            )
            &&& left == challenges.remove(id)
            &&& verdict(left, id, next_email_code, next_phone_code, later) == Err::<(), OtpError>(
                OtpError::NotFound,
            )
        }),
{
}

/// A wrong attempt in time is refused as `Mismatch` and changes nothing, so
/// the right codes still complete the login as long as the challenge has
/// not expired.
pub proof fn lemma_mismatch_keeps_challenge(
    challenges: Challenges,
    id: int,
    email_code: Seq<char>,
    phone_code: Seq<char>,
    now: int,
    later: int,
)
    requires
        challenges.contains_key(id),
        now <= challenges[id].expires_at,
        email_code != challenges[id].email_code || phone_code != challenges[id].phone_code,
        later <= challenges[id].expires_at,
    ensures
        ({
            let left = after_attempt(challenges, id, email_code, phone_code, now);
            &&& verdict(challenges, id, email_code, phone_code, now) == Err::<(), OtpError>(
                OtpError::Mismatch,
            )
            &&& left == challenges
            &&& verdict(
                left,
                id,
                challenges[id].email_code,
                challenges[id].phone_code,
                later,
            ) == Ok::<(), OtpError>(())
        }),
{
}

/// A login that was started can be completed with the codes it was started
/// with, from the start to the expiry, both included, and not after.
pub proof fn lemma_started_login_completes(
    challenges: Challenges,
    id: int,
    email_code: Seq<char>,
    phone_code: Seq<char>,
    start: int,
    now: int,
)
    ensures
        ({
            let pending = started(challenges, id, email_code, phone_code, start);
            &&& now <= otp_expiry(start) ==> verdict(pending, id, email_code, phone_code, now)
                == Ok::<(), OtpError>(())
            &&& now > otp_expiry(start) ==> verdict(pending, id, email_code, phone_code, now)
                == Err::<(), OtpError>(OtpError::Expired)
        }),
{
}

/// Starting a login again replaces the challenge: the store is as if the
/// earlier login had never been started, and the earlier codes are refused
/// unless they happen to be the new ones.
pub proof fn lemma_restart_replaces_challenge(
    challenges: Challenges,
    id: int,
    first_email_code: Seq<char>,
    first_phone_code: Seq<char>,
    first_start: int,
    email_code: Seq<char>,
    phone_code: Seq<char>,
    start: int,
    now: int,
)
    ensures
        ({
            let once = started(challenges, id, first_email_code, first_phone_code, first_start);
            let twice = started(once, id, email_code, phone_code, start);
            &&& twice == started(challenges, id, email_code, phone_code, start)
            &&& (first_email_code != email_code || first_phone_code != phone_code) ==> verdict(
                twice,
                id,
                first_email_code,
                first_phone_code,
                now,
            ) is Err
        }),
{
    let once = started(challenges, id, first_email_code, first_phone_code, first_start);
    let twice = started(once, id, email_code, phone_code, start);
    assert(twice =~= started(challenges, id, email_code, phone_code, start));
}

/// What happens to one principal's challenge leaves every other principal's
/// alone: neither starting nor attempting a login changes whether another
/// principal has a challenge, or which.
pub proof fn lemma_principals_are_independent(
    challenges: Challenges,
    id: int,
    other: int,
    email_code: Seq<char>,
    phone_code: Seq<char>,
    now: int,
)
    requires
        other != id,
    ensures
        ({
            let pending = started(challenges, id, email_code, phone_code, now);
            let left = after_attempt(challenges, id, email_code, phone_code, now);
            &&& pending.contains_key(other) == challenges.contains_key(other)
            &&& left.contains_key(other) == challenges.contains_key(other)
            &&& challenges.contains_key(other) ==> pending[other] == challenges[other] && left[other]
                == challenges[other]
        }),
{
}

/// A passcode is six decimal digits, the first of which is not a zero.
pub proof fn lemma_passcode_is_six_digits(code: Seq<char>)
    requires
        is_otp_code(code),
    ensures
        code.len() == 6,
        forall|i: int| 0 <= i < 6 ==> is_digit(#[trigger] code[i]),
        code[0] != '0',
{
    let n = choose|n: nat| OTP_MIN <= n <= OTP_MAX && code == #[trigger] decimal(n);
    lemma_six_digits(n);
    lemma_decimal_is_digits(n);
}

} // verus!
