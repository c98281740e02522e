//! One-time passcodes: the second step of every login.
//!
//! Starting a login leaves a challenge for the principal: two six-digit
//! codes, delivered by different routes, and the instant after which they
//! are worthless. A principal has at most one challenge outstanding, and a
//! challenge is used up by the first attempt that succeeds or that comes too
//! late. A wrong attempt in time leaves it in place.
//!
//! An [`OtpStore`] is plain data. Each pool of principals has one of its own,
//! and whoever shares one between threads guards it with a lock of its own.

use crate::clock::unix_now;
use crate::decimal::{decimal, to_decimal};
use rand::Rng;
use std::collections::HashMap;
use vstd::prelude::*;

verus! {

broadcast use vstd::std_specs::hash::group_hash_axioms;

/// How long a challenge can be answered, in seconds.
pub const OTP_LIFESPAN_SECONDS: i64 = 300;

/// The smallest passcode.
pub const OTP_MIN: u32 = 100000;

/// The largest passcode.
pub const OTP_MAX: u32 = 999999;

/// Why a login was not completed.
#[derive(Debug, Clone, Copy, PartialEq, Eq, Structural)]
pub enum OtpError {
    /// No challenge is outstanding for the principal.
    NotFound,
    /// The challenge was answered too late. It is gone now.
    Expired,
    /// A code was wrong. The challenge stays.
    Mismatch,
}

/// An outstanding challenge.
#[derive(Debug)]
pub struct OtpChallenge {
    pub email_code: String,
    pub phone_code: String,
    pub expires_at: i64,
}

/// Mathematical value of an [`OtpChallenge`].
pub struct OtpChallengeView {
    pub email_code: Seq<char>,
    pub phone_code: Seq<char>,
    pub expires_at: int,
}

impl View for OtpChallenge {
    type V = OtpChallengeView;

    open spec fn view(&self) -> OtpChallengeView {
        OtpChallengeView {
            email_code: self.email_code@,
            phone_code: self.phone_code@,
            expires_at: self.expires_at as int,
        }
    }
}

/// The outstanding challenges of a pool, by principal id.
pub type Challenges = Map<int, OtpChallengeView>;

/// Whether `code` is a passcode: the decimal text of a number of six digits.
pub open spec fn is_otp_code(code: Seq<char>) -> bool {
    exists|n: nat| OTP_MIN <= n <= OTP_MAX && code == #[trigger] decimal(n)
}

/// The instant at which a challenge started at `now` expires: a lifespan
/// later, or at the last instant there is if that comes first.
pub open spec fn otp_expiry(now: int) -> int {
    if now + OTP_LIFESPAN_SECONDS > i64::MAX {
        i64::MAX as int
    } else {
        now + OTP_LIFESPAN_SECONDS
    }
}

/// The challenges after a login was started for `id` at `now`. Whatever
/// challenge `id` had is replaced; nobody else's is touched.
pub open spec fn started(
    challenges: Challenges,
    id: int,
    email_code: Seq<char>,
    phone_code: Seq<char>,
    now: int,
) -> Challenges {
    challenges.insert(id, OtpChallengeView { email_code, phone_code, expires_at: otp_expiry(now) })
}

/// How an attempt to complete the login of `id` at `now` ends.
pub open spec fn verdict(
    challenges: Challenges,
    id: int,
    email_code: Seq<char>,
    phone_code: Seq<char>,
    now: int,
) -> Result<(), OtpError> {
    if !challenges.contains_key(id) {
        Err(OtpError::NotFound)
    } else if now > challenges[id].expires_at {
        Err(OtpError::Expired)
    } else if challenges[id].email_code == email_code && challenges[id].phone_code == phone_code {
        Ok(())
    } else {
        Err(OtpError::Mismatch)
    }
}

/// The challenges after the attempt: the challenge of `id` is gone after
/// success and after expiry, and nothing changes otherwise.
pub open spec fn after_attempt(
    challenges: Challenges,
    id: int,
    email_code: Seq<char>,
    phone_code: Seq<char>,
    now: int,
) -> Challenges {
    match verdict(challenges, id, email_code, phone_code, now) {
        Ok(_) => challenges.remove(id),
        Err(OtpError::Expired) => challenges.remove(id),
        Err(_) => challenges,
    }
}

/// Draws a number from `low..=high` with the thread's generator, through
/// `rand::Rng::gen_range` on `rand::thread_rng()`. Only the range is claimed
/// of the result, and `gen_range` panics on an empty range, which `requires`
/// rules out. The generator is seeded from the operating system when a
/// thread first uses it and panics if that fails.
#[verifier::external_body]
fn random_in_range(low: u32, high: u32) -> (n: u32)
    requires
        low <= high,
    ensures
        low <= n <= high,
{
    rand::thread_rng().gen_range(low..=high)
}

/// Draws a fresh passcode.
pub fn generate_otp() -> (code: String)
    ensures
        is_otp_code(code@),
{
    let n = random_in_range(OTP_MIN, OTP_MAX);
    to_decimal(n as u64)
}

/// The instant at which a challenge started at `now` expires.
pub fn expiry_after(now: i64) -> (expires_at: i64)
    ensures
        expires_at == otp_expiry(now as int),
{
    if now > i64::MAX - OTP_LIFESPAN_SECONDS {
        i64::MAX
    } else {
        now + OTP_LIFESPAN_SECONDS
    }
}

/// The outstanding challenges of one pool of principals.
pub struct OtpStore {
    challenges: HashMap<i32, OtpChallenge>,
}

impl View for OtpStore {
    type V = Challenges;

    closed spec fn view(&self) -> Challenges {
        Map::new(
            |id: int| i32::MIN <= id <= i32::MAX && self.challenges@.contains_key(id as i32),
            |id: int| self.challenges@[id as i32]@,
        )
    }
}

impl OtpStore {
    /// A store without challenges.
    pub fn new() -> (store: OtpStore)
        ensures
            store@ == Map::<int, OtpChallengeView>::empty(),
    {
        let store = OtpStore { challenges: HashMap::new() };
        assert(store@ =~= Map::<int, OtpChallengeView>::empty());
        store
    }

    /// Whether a challenge is outstanding for `principal_id`.
    pub fn is_pending(&self, principal_id: i32) -> (pending: bool)
        ensures
            pending == self@.contains_key(principal_id as int),
    {
        self.challenges.contains_key(&principal_id)
    }

    /// Starts a login for `principal_id` at `now` with the given codes: the
    /// challenge expires a lifespan after `now` and replaces whatever
    /// challenge the principal had.
    pub fn start_with(
        &mut self,
        principal_id: i32,
        email_code: String,
        phone_code: String,
        now: i64,
    )
        ensures
            final(self)@ == started(
                old(self)@,
                principal_id as int,
                email_code@,
                phone_code@,
                now as int,
            ),
    {
        let challenge = OtpChallenge { email_code, phone_code, expires_at: expiry_after(now) };
        self.challenges.insert(principal_id, challenge);
        assert(self@ =~= started(
            old(self)@,
            principal_id as int,
            email_code@,
            phone_code@,
            now as int,
        ));
    }

    /// Starts a login for `principal_id` now: draws two fresh passcodes,
    /// leaves them as the principal's challenge, and returns them (the code
    /// sent by email first, the one sent by phone second) for delivery.
    pub fn start(&mut self, principal_id: i32) -> (codes: (String, String))
        ensures
            is_otp_code(codes.0@),
            is_otp_code(codes.1@),
            exists|now: int|
                i64::MIN <= now <= i64::MAX && final(self)@ == #[trigger] started(
                    old(self)@,
                    principal_id as int,
                    codes.0@,
                    codes.1@,
                    now,
                ),
    {
        let email_code = generate_otp();
        let phone_code = generate_otp();
        let now = unix_now();
        self.start_with(principal_id, email_code.clone(), phone_code.clone(), now);
        let codes = (email_code, phone_code);
        assert(self@ == started(old(self)@, principal_id as int, codes.0@, codes.1@, now as int));
        codes
    }

    /// Tries to complete the login of `principal_id` at `now` with the two
    /// codes. The attempt fails with `NotFound` if the principal has no
    /// challenge, with `Expired` if `now` is past the challenge's expiry, and
    /// with `Mismatch` unless both codes are exactly the challenge's. The
    /// challenge is removed on success and on expiry, and only then.
    pub fn verify(
        &mut self,
        principal_id: i32,
        email_code: &str,
        phone_code: &str,
        now: i64,
    ) -> (outcome: Result<(), OtpError>)
        ensures
            outcome == verdict(
                old(self)@,
                principal_id as int,
                email_code@,
                phone_code@,
                now as int,
            ),
            final(self)@ == after_attempt(
                old(self)@,
                principal_id as int,
                email_code@,
                phone_code@,
                now as int,
            ),
    {
        let found = match self.challenges.get(&principal_id) {
            None => None,
            Some(challenge) => {
                if now > challenge.expires_at {
                    Some(Err(OtpError::Expired))
                } else if challenge.email_code == email_code.to_owned() && challenge.phone_code
                    == phone_code.to_owned() {
                    Some(Ok(()))
                } else {
                    Some(Err(OtpError::Mismatch))
                }
            },
        };
        match found {
            None => Err(OtpError::NotFound),
            Some(Err(OtpError::Mismatch)) => Err(OtpError::Mismatch),
            Some(decided) => {
                self.challenges.remove(&principal_id);
                assert(self@ =~= old(self)@.remove(principal_id as int));
                decided
            },
        }
    }

    /// Tries to complete the login of `principal_id` now: as
    /// [`OtpStore::verify`], at the instant the clock shows.
    pub fn verify_now(
        &mut self,
        principal_id: i32,
        email_code: &str,
        phone_code: &str,
    ) -> (outcome: Result<(), OtpError>)
        ensures
            exists|now: int|
                i64::MIN <= now <= i64::MAX && outcome == #[trigger] verdict(
                    old(self)@,
                    principal_id as int,
                    email_code@,
                    phone_code@,
                    now,
                ) && final(self)@ == after_attempt(
                    old(self)@,
                    principal_id as int,
                    email_code@,
                    phone_code@,
                    now,
                ),
    {
        let now = unix_now();
        let outcome = self.verify(principal_id, email_code, phone_code, now);
        assert(outcome == verdict(
            old(self)@,
            principal_id as int,
            email_code@,
            phone_code@,
            now as int,
        ));
        outcome
    }
}

} // verus!
