//! How failures are classed when they are reported to a client.

use crate::ceremony::{CeremonyError, KeyAccessError};
use crate::client::EngineOp;
use crate::otp::OtpError;
use crate::token::TokenError;
use vstd::prelude::*;
use vstd::string::StringSliceAdditionalSpecFns;

verus! {

/// The classes of failure.
#[derive(Debug, Clone, Copy, PartialEq, Eq, Structural)]
pub enum FailureKind {
    /// What was asked about is not there.
    NotFound,
    /// A ceremony step, or a registration, has been done already.
    Conflict,
    /// The caller did not prove who it is.
    Unauthorized,
    /// The request cannot be served as it stands: the caller got the order
    /// of things wrong, or sent a record that cannot be read.
    InvalidInput,
    /// The cryptographic engine failed. Such a failure is never retried
    /// here: a caller retries once it knows that nothing was recorded.
    EngineFailure,
    /// The store failed.
    Internal,
}

impl FailureKind {
    /// The status that a failure of this class is reported with.
    pub open spec fn status(self) -> int {
        match self {
            FailureKind::NotFound => 404,
            FailureKind::Conflict => 409,
            FailureKind::Unauthorized => 401,
            FailureKind::InvalidInput => 400,
            FailureKind::EngineFailure => 500,
            FailureKind::Internal => 500,
        }
    }

    /// The status that a failure of this class is reported with.
    pub fn status_code(&self) -> (code: u16)
        ensures
            code == self.status(),
    {
        match self {
            FailureKind::NotFound => 404,
            FailureKind::Conflict => 409,
            FailureKind::Unauthorized => 401,
            FailureKind::InvalidInput => 400,
            FailureKind::EngineFailure => 500,
            FailureKind::Internal => 500,
        }
    }
}

/// The class of a refused login: always `Unauthorized`, whatever went wrong
/// with the passcodes.
pub fn otp_failure(error: OtpError) -> (kind: FailureKind)
    ensures
        kind == FailureKind::Unauthorized,
{
    match error {
        OtpError::NotFound => FailureKind::Unauthorized,
        OtpError::Expired => FailureKind::Unauthorized,
        OtpError::Mismatch => FailureKind::Unauthorized,
    }
}

/// The class of a refused token: always `Unauthorized`.
pub fn token_failure(error: TokenError) -> (kind: FailureKind)
    ensures
        kind == FailureKind::Unauthorized,
{
    match error {
        TokenError::Invalid => FailureKind::Unauthorized,
        TokenError::Expired => FailureKind::Unauthorized,
    }
}

/// The class of a refused ceremony step.
pub open spec fn ceremony_failure_kind(error: CeremonyError) -> FailureKind {
    match error {
        CeremonyError::AlreadyDone => FailureKind::Conflict,
        CeremonyError::SetupRequired => FailureKind::InvalidInput,
        CeremonyError::NoAuthorities => FailureKind::InvalidInput,
    }
}

/// The class of a refused ceremony step: a step that was done already is a
/// conflict, a step out of order is the caller's mistake.
pub fn ceremony_failure(error: CeremonyError) -> (kind: FailureKind)
    ensures
        kind == ceremony_failure_kind(error),
{
    match error {
        CeremonyError::AlreadyDone => FailureKind::Conflict,
        CeremonyError::SetupRequired => FailureKind::InvalidInput,
        CeremonyError::NoAuthorities => FailureKind::InvalidInput,
    }
}

/// The class of a refused request for keys: `NotFound`, whether the
/// authority is not enrolled or has no keys yet.
pub fn key_access_failure(error: KeyAccessError) -> (kind: FailureKind)
    ensures
        kind == FailureKind::NotFound,
{
    match error {
        KeyAccessError::NotEnrolled => FailureKind::NotFound,
        KeyAccessError::NotGenerated => FailureKind::NotFound,
    }
}

/// What a client is told about a refused login. A missing challenge and a
/// wrong code are told in the same words, so that an answer does not say
/// whether a login was started.
pub open spec fn otp_failure_words(error: OtpError) -> Seq<char> {
    match error {
        OtpError::Expired => "OTP has expired"@,
        OtpError::NotFound => "Invalid OTP codes"@,
        OtpError::Mismatch => "Invalid OTP codes"@,
    }
}

/// What a client is told about a refused login.
pub fn otp_failure_message(error: OtpError) -> (words: &'static str)
    ensures
        words@ == otp_failure_words(error),
{
    match error {
        OtpError::Expired => "OTP has expired",
        OtpError::NotFound => "Invalid OTP codes",
        OtpError::Mismatch => "Invalid OTP codes",
    }
}

/// What a client is told about a refused ceremony step `step`.
pub open spec fn ceremony_failure_words(step: EngineOp, error: CeremonyError) -> Seq<char> {
    match error {
        CeremonyError::AlreadyDone => match step {
            EngineOp::Setup => "Setup already completed for this poll"@,
            EngineOp::KeyGen => "Keygen already completed for this poll"@,
        },
        CeremonyError::SetupRequired => "Setup must be completed before keygen"@,
        CeremonyError::NoAuthorities => "No authorities assigned to this poll"@,
    }
}

/// What a client is told about a refused ceremony step `step`.
pub fn ceremony_failure_message(step: EngineOp, error: CeremonyError) -> (words: &'static str)
    ensures
        words@ == ceremony_failure_words(step, error),
{
    match error {
        CeremonyError::AlreadyDone => match step {
            EngineOp::Setup => "Setup already completed for this poll",
            EngineOp::KeyGen => "Keygen already completed for this poll",
        },
        CeremonyError::SetupRequired => "Setup must be completed before keygen",
        CeremonyError::NoAuthorities => "No authorities assigned to this poll",
    }
}

/// What an authority is told when it is not handed keys.
pub open spec fn key_access_words(error: KeyAccessError) -> Seq<char> {
    match error {
        KeyAccessError::NotEnrolled => "You are not an authority for this poll"@,
        KeyAccessError::NotGenerated => "Keys not generated yet"@,
    }
}

/// What an authority is told when it is not handed keys.
pub fn key_access_message(error: KeyAccessError) -> (words: &'static str)
    ensures
        words@ == key_access_words(error),
{
    match error {
        KeyAccessError::NotEnrolled => "You are not an authority for this poll",
        KeyAccessError::NotGenerated => "Keys not generated yet",
    }
}

/// Whether `needle` occurs in `haystack` at position `at`.
pub open spec fn occurs_at(needle: Seq<u8>, haystack: Seq<u8>, at: int) -> bool {
    &&& 0 <= at
    &&& at + needle.len() <= haystack.len()
    &&& haystack.subrange(at, at + needle.len()) == needle
}

/// Whether `needle` occurs in `haystack`.
pub open spec fn occurs_in(needle: Seq<u8>, haystack: Seq<u8>) -> bool {
    exists|at: int| occurs_at(needle, haystack, at)
}

/// Whether `needle` stands in `haystack` at position `at`.
pub fn matches_at(needle: &[u8], haystack: &[u8], at: usize) -> (found: bool)
    ensures
        found == occurs_at(needle@, haystack@, at as int),
{
    if needle.len() > haystack.len() || at > haystack.len() - needle.len() {
        return false;
    }
    let mut k: usize = 0;
    while k < needle.len()
        invariant
            k <= needle.len(),
            at + needle.len() <= haystack.len(),
            forall|j: int| 0 <= j < k ==> haystack[at + j] == needle[j],
        decreases needle.len() - k,
    {
        if haystack[at + k] != needle[k] {
            assert(haystack@.subrange(at as int, at + needle.len())[k as int] != needle@[k as int]);
            return false;
        }
        k += 1;
    }
    assert(haystack@.subrange(at as int, at + needle.len()) =~= needle@);
    true
}

/// Whether `needle` occurs in `haystack`.
pub fn contains_bytes(needle: &[u8], haystack: &[u8]) -> (found: bool)
    ensures
        found == occurs_in(needle@, haystack@),
{
    if needle.len() > haystack.len() {
        return false;
    }
    let last = haystack.len() - needle.len();
    let mut at: usize = 0;
    loop
        invariant
            at <= last,
            last == haystack.len() - needle.len(),
            needle.len() <= haystack.len(),
            forall|j: int| 0 <= j < at ==> !occurs_at(needle@, haystack@, j),
        decreases last - at,
    {
        if matches_at(needle, haystack, at) {
            return true;
        }
        if at == last {
            return false;
        }
        at += 1;
    }
}

/// The words by which the store says that a record exists already.
pub open spec fn duplicate_marker() -> Seq<u8> {
    "duplicate key value".spec_bytes()
}

/// The class of a registration that the store refused with `message`: a
/// conflict if the store says that the principal exists already, and a
/// failure of the store otherwise.
pub open spec fn registration_failure_kind(message: Seq<u8>) -> FailureKind {
    if occurs_in(duplicate_marker(), message) {
        FailureKind::Conflict
    } else {
        FailureKind::Internal
    }
}

/// The class of a registration that the store refused with `message`.
pub fn registration_failure(message: &str) -> (kind: FailureKind)
    ensures
        kind == registration_failure_kind(message.spec_bytes()),
{
    if contains_bytes("duplicate key value".as_bytes(), message.as_bytes()) {
        FailureKind::Conflict
    } else {
        FailureKind::Internal
    }
}

} // verus!
