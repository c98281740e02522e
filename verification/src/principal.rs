//! Principals: the administrators, voters and authorities that log in.
//!
//! A principal is known by a stable id and by its email address, which no
//! other principal of its kind shares. Its national identifier and phone
//! number are held as digests only.

use crate::digest::{credential_digest, hash_data};
use vstd::prelude::*;

verus! {

/// The three kinds of principal. Each kind has its own pool: an id means
/// something only together with the role.
#[derive(Debug, Clone, Copy, PartialEq, Eq, Structural)]
pub enum Role {
    Admin,
    Voter,
    Authority,
}

/// An administrator.
#[derive(Debug)]
pub struct Admin {
    pub id: i32,
    pub email: String,
    pub tc_hash: String,
    pub phone_hash: String,
}

/// A voter.
#[derive(Debug)]
pub struct Voter {
    pub id: i32,
    pub email: String,
    pub tc_hash: String,
    pub phone_hash: String,
}

/// An authority: a holder of a key share.
#[derive(Debug)]
pub struct Authority {
    pub id: i32,
    pub email: String,
    pub name: String,
    pub tc_hash: String,
    pub phone_hash: String,
}

/// Mathematical value of an [`Admin`] or a [`Voter`].
pub struct PrincipalView {
    pub id: int,
    pub email: Seq<char>,
    pub tc_hash: Seq<char>,
    pub phone_hash: Seq<char>,
}

/// Mathematical value of an [`Authority`].
pub struct AuthorityView {
    pub id: int,
    pub email: Seq<char>,
    pub name: Seq<char>,
    pub tc_hash: Seq<char>,
    pub phone_hash: Seq<char>,
}

impl PrincipalView {
    /// The principal that registering with these credentials gives.
    pub open spec fn registered(id: int, tc: Seq<char>, email: Seq<char>, phone: Seq<char>) -> PrincipalView {
        PrincipalView {
            id,
            email,
            tc_hash: credential_digest(tc),
            phone_hash: credential_digest(phone),
        }
    }

    /// Whether a login with this national identifier and email address is a
    /// login of this principal.
    pub open spec fn matches_login(self, tc: Seq<char>, email: Seq<char>) -> bool {
        self.tc_hash == credential_digest(tc) && self.email == email
    }
}

impl AuthorityView {
    /// The authority that registering with these credentials gives.
    pub open spec fn registered(
        id: int,
        tc: Seq<char>,
        email: Seq<char>,
        phone: Seq<char>,
        name: Seq<char>,
    ) -> AuthorityView {
        AuthorityView {
            id,
            email,
            name,
            tc_hash: credential_digest(tc),
            phone_hash: credential_digest(phone),
        }
    }

    /// Whether a login with this national identifier and email address is a
    /// login of this authority.
    pub open spec fn matches_login(self, tc: Seq<char>, email: Seq<char>) -> bool {
        self.tc_hash == credential_digest(tc) && self.email == email
    }
}

impl View for Admin {
    type V = PrincipalView;

    open spec fn view(&self) -> PrincipalView {
        PrincipalView {
            id: self.id as int,
            email: self.email@,
            tc_hash: self.tc_hash@,
            phone_hash: self.phone_hash@,
        }
    }
}

impl View for Voter {
    type V = PrincipalView;

    open spec fn view(&self) -> PrincipalView {
        PrincipalView {
            id: self.id as int,
            email: self.email@,
            tc_hash: self.tc_hash@,
            phone_hash: self.phone_hash@,
        }
    }
}

impl View for Authority {
    type V = AuthorityView;

    open spec fn view(&self) -> AuthorityView {
        AuthorityView {
            id: self.id as int,
            email: self.email@,
            name: self.name@,
            tc_hash: self.tc_hash@,
            phone_hash: self.phone_hash@,
        }
    }
}

/// Whether the stored digest is the digest of `credential`.
pub fn digest_matches(stored: &String, credential: &str) -> (matches: bool)
    ensures
        matches == (stored@ == credential_digest(credential@)),
{
    *stored == hash_data(credential)
}

/// Whether the two texts are the same.
pub fn same_text(stored: &String, given: &str) -> (same: bool)
    ensures
        same == (stored@ == given@),
{
    *stored == given.to_owned()
}

impl Admin {
    /// Registers an administrator under `id`: the identifier and the phone
    /// number are digested, the email address is kept.
    pub fn register(id: i32, tc: &str, email: String, phone: &str) -> (admin: Admin)
        ensures
            admin@ == PrincipalView::registered(id as int, tc@, email@, phone@),
    {
        Admin { id, email, tc_hash: hash_data(tc), phone_hash: hash_data(phone) }
    }

    /// Whether a login with this identifier and email address is a login of
    /// this administrator.
    pub fn matches_login(&self, tc: &str, email: &str) -> (matches: bool)
        ensures
            matches == self@.matches_login(tc@, email@),
    {
        digest_matches(&self.tc_hash, tc) && same_text(&self.email, email)
    }
}

impl Voter {
    /// Registers a voter under `id`: the identifier and the phone number are
    /// digested, the email address is kept.
    pub fn register(id: i32, tc: &str, email: String, phone: &str) -> (voter: Voter)
        ensures
            voter@ == PrincipalView::registered(id as int, tc@, email@, phone@),
    {
        Voter { id, email, tc_hash: hash_data(tc), phone_hash: hash_data(phone) }
    }

    /// Whether a login with this identifier and email address is a login of
    /// this voter.
    pub fn matches_login(&self, tc: &str, email: &str) -> (matches: bool)
        ensures
            matches == self@.matches_login(tc@, email@),
    {
        digest_matches(&self.tc_hash, tc) && same_text(&self.email, email)
    }
}

impl Authority {
    /// Registers an authority under `id`: the identifier and the phone
    /// number are digested, the email address and the name are kept.
    pub fn register(id: i32, tc: &str, email: String, phone: &str, name: String) -> (authority:
        Authority)
        ensures
            authority@ == AuthorityView::registered(id as int, tc@, email@, phone@, name@),
    {
        Authority { id, email, name, tc_hash: hash_data(tc), phone_hash: hash_data(phone) }
    }

    /// Whether a login with this identifier and email address is a login of
    /// this authority.
    pub fn matches_login(&self, tc: &str, email: &str) -> (matches: bool)
        ensures
            matches == self@.matches_login(tc@, email@),
    {
        digest_matches(&self.tc_hash, tc) && same_text(&self.email, email)
    }
}

/// A principal logs in with what it registered with: the identifier and
/// email address given at registration match the registered principal.
pub proof fn lemma_registered_principal_logs_in(
    id: int,
    tc: Seq<char>,
    email: Seq<char>,
    phone: Seq<char>,
    name: Seq<char>,
)
    ensures
        PrincipalView::registered(id, tc, email, phone).matches_login(tc, email),
        AuthorityView::registered(id, tc, email, phone, name).matches_login(tc, email),
{
}

} // verus!
