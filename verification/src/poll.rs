//! Polls and the records that hang off them: the Setup parameters, the master
//! verification key and each enrolled authority's key share.
//!
//! Instants are Unix timestamps in seconds.

use crate::engine::{AuthorityKey, AuthorityKeyView, MasterVerKey, SetupParams, SetupParamsView};
use vstd::prelude::*;

verus! {

/// Where a poll stands in its life.
#[derive(Debug, Clone, Copy, PartialEq, Eq, Structural)]
pub enum PollStatus {
    Draft,
    Active,
    Closed,
}

impl PollStatus {
    /// The stored name of the status.
    pub open spec fn name(self) -> Seq<char> {
        match self {
            PollStatus::Draft => "draft"@,
            PollStatus::Active => "active"@,
            PollStatus::Closed => "closed"@,
        }
    }

    /// The stored name of the status.
    pub fn as_str(&self) -> (text: &'static str)
        ensures
            text@ == self.name(),
    {
        match self {
            PollStatus::Draft => "draft",
            PollStatus::Active => "active",
            PollStatus::Closed => "closed",
        }
    }

    /// Reads a stored status name; anything but the three names is refused.
    pub fn parse(text: &str) -> (status: Option<PollStatus>)
        ensures
            match status {
                Some(s) => text@ == s.name(),
                None => forall|s: PollStatus| text@ != s.name(),
            },
    {
        let owned = text.to_owned();
        if owned == "draft".to_owned() {
            Some(PollStatus::Draft)
        } else if owned == "active".to_owned() {
            Some(PollStatus::Active)
        } else if owned == "closed".to_owned() {
            Some(PollStatus::Closed)
        } else {
            None
        }
    }
}

/// The three status names are pairwise different, so a stored name stands
/// for one status only.
pub proof fn lemma_status_names_differ(a: PollStatus, b: PollStatus)
    requires
        a.name() == b.name(),
    ensures
        a == b,
{
    reveal_strlit("draft");
    reveal_strlit("active");
    reveal_strlit("closed");
    assert("draft"@.len() == 5);
    assert("active"@.len() == 6);
    assert("closed"@.len() == 6);
    assert("active"@[0] == 'a');
    assert("closed"@[0] == 'c');
}

/// An optional instant, as a mathematical integer.
pub open spec fn instant(at: Option<i64>) -> Option<int> {
    match at {
        Some(t) => Some(t as int),
        None => None,
    }
}

/// Copies an optional text.
pub fn copy_text(text: &Option<String>) -> (copy: Option<String>)
    ensures
        copy.deep_view() == text.deep_view(),
{
    match text {
        Some(t) => Some(t.clone()),
        None => None,
    }
}

/// A poll.
#[derive(Debug)]
pub struct Poll {
    pub id: i32,
    pub title: String,
    pub description: Option<String>,
    pub created_by: i32,
    pub status: PollStatus,
    pub created_at: i64,
    pub started_at: Option<i64>,
    pub ended_at: Option<i64>,
}

/// Mathematical value of a [`Poll`].
pub struct PollView {
    pub id: int,
    pub title: Seq<char>,
    pub description: Option<Seq<char>>,
    pub created_by: int,
    pub status: PollStatus,
    pub created_at: int,
    pub started_at: Option<int>,
    pub ended_at: Option<int>,
}

impl View for Poll {
    type V = PollView;

    open spec fn view(&self) -> PollView {
        PollView {
            id: self.id as int,
            title: self.title@,
            description: self.description.deep_view(),
            created_by: self.created_by as int,
            status: self.status,
            created_at: self.created_at as int,
            started_at: instant(self.started_at),
            ended_at: instant(self.ended_at),
        }
    }
}

impl Poll {
    /// A new poll, created by administrator `created_by` at `now`. Every poll
    /// starts as a draft that has neither started nor ended.
    pub fn draft(
        id: i32,
        title: String,
        description: Option<String>,
        created_by: i32,
        now: i64,
    ) -> (poll: Poll)
        ensures
            poll@ == (PollView {
                id: id as int,
                title: title@,
                description: description.deep_view(),
                created_by: created_by as int,
                status: PollStatus::Draft,
                created_at: now as int,
                started_at: None,
                ended_at: None,
            }),
    {
        Poll {
            id,
            title,
            description,
            created_by,
            status: PollStatus::Draft,
            created_at: now,
            started_at: None,
            ended_at: None,
        }
    }
}

impl Clone for Poll {
    fn clone(&self) -> (copy: Self)
        ensures
            copy@ == self@,
    {
        Poll {
            id: self.id,
            title: self.title.clone(),
            description: copy_text(&self.description),
            created_by: self.created_by,
            status: self.status,
            created_at: self.created_at,
            started_at: self.started_at,
            ended_at: self.ended_at,
        }
    }
}

/// The Setup parameters of a poll. A poll has at most one; that it exists
/// is what marks Setup as done.
#[derive(Debug)]
pub struct PollSetup {
    pub poll_id: i32,
    pub pairing_param: String,
    pub prime_order: String,
    pub g1: String,
    pub g2: String,
    pub h1: String,
    pub security_level: i32,
    pub setup_completed_at: i64,
    pub setup_by: i32,
}

/// Mathematical value of a [`PollSetup`].
pub struct PollSetupView {
    pub poll_id: int,
    pub pairing_param: Seq<char>,
    pub prime_order: Seq<char>,
    pub g1: Seq<char>,
    pub g2: Seq<char>,
    pub h1: Seq<char>,
    pub security_level: int,
    pub setup_completed_at: int,
    pub setup_by: int,
}

impl PollSetupView {
    /// The engine parameters that the record holds.
    pub open spec fn params(self) -> SetupParamsView {
        SetupParamsView {
            pairing_param: self.pairing_param,
            prime_order: self.prime_order,
            g1: self.g1,
            g2: self.g2,
            h1: self.h1,
            security_level: self.security_level,
        }
    }
}

impl View for PollSetup {
    type V = PollSetupView;

    open spec fn view(&self) -> PollSetupView {
        PollSetupView {
            poll_id: self.poll_id as int,
            pairing_param: self.pairing_param@,
            prime_order: self.prime_order@,
            g1: self.g1@,
            g2: self.g2@,
            h1: self.h1@,
            security_level: self.security_level as int,
            setup_completed_at: self.setup_completed_at as int,
            setup_by: self.setup_by as int,
        }
    }
}

impl PollSetup {
    /// The engine parameters that the record holds, for handing to KeyGen.
    pub fn params(&self) -> (params: SetupParams)
        ensures
            params@ == self@.params(),
    {
        SetupParams {
            pairing_param: self.pairing_param.clone(),
            prime_order: self.prime_order.clone(),
            g1: self.g1.clone(),
            g2: self.g2.clone(),
            h1: self.h1.clone(),
            security_level: self.security_level,
        }
    }
}

impl Clone for PollSetup {
    fn clone(&self) -> (copy: Self)
        ensures
            copy@ == self@,
    {
        PollSetup {
            poll_id: self.poll_id,
            pairing_param: self.pairing_param.clone(),
            prime_order: self.prime_order.clone(),
            g1: self.g1.clone(),
            g2: self.g2.clone(),
            h1: self.h1.clone(),
            security_level: self.security_level,
            setup_completed_at: self.setup_completed_at,
            setup_by: self.setup_by,
        }
    }
}

/// The master verification key of a poll, with the threshold and roster size
/// it was generated for. A poll has at most one; that it exists is what
/// marks KeyGen as done.
#[derive(Debug)]
pub struct PollMvk {
    pub poll_id: i32,
    pub alpha2: String,
    pub beta2: String,
    pub beta1: String,
    pub threshold: i32,
    pub total_authorities: i32,
    pub generated_at: i64,
    pub generated_by: i32,
}

/// Mathematical value of a [`PollMvk`].
pub struct PollMvkView {
    pub poll_id: int,
    pub alpha2: Seq<char>,
    pub beta2: Seq<char>,
    pub beta1: Seq<char>,
    pub threshold: int,
    pub total_authorities: int,
    pub generated_at: int,
    pub generated_by: int,
}

impl View for PollMvk {
    type V = PollMvkView;

    open spec fn view(&self) -> PollMvkView {
        PollMvkView {
            poll_id: self.poll_id as int,
            alpha2: self.alpha2@,
            beta2: self.beta2@,
            beta1: self.beta1@,
            threshold: self.threshold as int,
            total_authorities: self.total_authorities as int,
            generated_at: self.generated_at as int,
            generated_by: self.generated_by as int,
        }
    }
}

impl PollMvk {
    /// The key itself, without the bookkeeping around it.
    pub fn key(&self) -> (key: MasterVerKey)
        ensures
            key@.alpha2 == self@.alpha2,
            key@.beta2 == self@.beta2,
            key@.beta1 == self@.beta1,
    {
        MasterVerKey {
            alpha2: self.alpha2.clone(),
            beta2: self.beta2.clone(),
            beta1: self.beta1.clone(),
        }
    }
}

impl Clone for PollMvk {
    fn clone(&self) -> (copy: Self)
        ensures
            copy@ == self@,
    {
        PollMvk {
            poll_id: self.poll_id,
            alpha2: self.alpha2.clone(),
            beta2: self.beta2.clone(),
            beta1: self.beta1.clone(),
            threshold: self.threshold,
            total_authorities: self.total_authorities,
            generated_at: self.generated_at,
            generated_by: self.generated_by,
        }
    }
}

/// One authority's place on a poll's roster, with its key share once KeyGen
/// has dealt one out.
#[derive(Debug)]
pub struct PollAuthorityKey {
    pub poll_id: i32,
    pub authority_id: i32,
    pub sgk1: Option<String>,
    pub sgk2: Option<String>,
    pub vkm1: Option<String>,
    pub vkm2: Option<String>,
    pub vkm3: Option<String>,
    pub keys_received_at: Option<i64>,
}

/// Mathematical value of a [`PollAuthorityKey`].
pub struct PollAuthorityKeyView {
    pub poll_id: int,
    pub authority_id: int,
    pub sgk1: Option<Seq<char>>,
    pub sgk2: Option<Seq<char>>,
    pub vkm1: Option<Seq<char>>,
    pub vkm2: Option<Seq<char>>,
    pub vkm3: Option<Seq<char>>,
    pub keys_received_at: Option<int>,
}

impl PollAuthorityKeyView {
    /// A roster entry that has not received a share.
    pub open spec fn enrolled(poll_id: int, authority_id: int) -> PollAuthorityKeyView {
        PollAuthorityKeyView {
            poll_id,
            authority_id,
            sgk1: None,
            sgk2: None,
            vkm1: None,
            vkm2: None,
            vkm3: None,
            keys_received_at: None,
        }
    }

    /// The entry after it received `share` at `now`.
    pub open spec fn with_share(self, share: AuthorityKeyView, now: int) -> PollAuthorityKeyView {
        PollAuthorityKeyView {
            poll_id: self.poll_id,
            authority_id: self.authority_id,
            sgk1: Some(share.sgk1),
            sgk2: Some(share.sgk2),
            vkm1: Some(share.vkm1),
            vkm2: Some(share.vkm2),
            vkm3: Some(share.vkm3),
            keys_received_at: Some(now),
        }
    }

    /// No part of a share is there.
    pub open spec fn is_bare(self) -> bool {
        &&& self.sgk1 is None
        &&& self.sgk2 is None
        &&& self.vkm1 is None
        &&& self.vkm2 is None
        &&& self.vkm3 is None
        &&& self.keys_received_at is None
    }
}

impl View for PollAuthorityKey {
    type V = PollAuthorityKeyView;

    open spec fn view(&self) -> PollAuthorityKeyView {
        PollAuthorityKeyView {
            poll_id: self.poll_id as int,
            authority_id: self.authority_id as int,
            sgk1: self.sgk1.deep_view(),
            sgk2: self.sgk2.deep_view(),
            vkm1: self.vkm1.deep_view(),
            vkm2: self.vkm2.deep_view(),
            vkm3: self.vkm3.deep_view(),
            keys_received_at: instant(self.keys_received_at),
        }
    }
}

impl PollAuthorityKey {
    /// A fresh roster entry: enrolled, no share yet.
    pub fn enrolled(poll_id: i32, authority_id: i32) -> (entry: PollAuthorityKey)
        ensures
            entry@ == PollAuthorityKeyView::enrolled(poll_id as int, authority_id as int),
    {
        PollAuthorityKey {
            poll_id,
            authority_id,
            sgk1: None,
            sgk2: None,
            vkm1: None,
            vkm2: None,
            vkm3: None,
            keys_received_at: None,
        }
    }

    /// Stores `share` in the entry, stamped `now`. Whatever share the entry
    /// held is replaced.
    pub fn receive(&mut self, share: &AuthorityKey, now: i64)
        ensures
            final(self)@ == old(self)@.with_share(share@, now as int),
    {
        self.sgk1 = Some(share.sgk1.clone());
        self.sgk2 = Some(share.sgk2.clone());
        self.vkm1 = Some(share.vkm1.clone());
        self.vkm2 = Some(share.vkm2.clone());
        self.vkm3 = Some(share.vkm3.clone());
        self.keys_received_at = Some(now);
    }
}

impl Clone for PollAuthorityKey {
    fn clone(&self) -> (copy: Self)
        ensures
            copy@ == self@,
    {
        PollAuthorityKey {
            poll_id: self.poll_id,
            authority_id: self.authority_id,
            sgk1: copy_text(&self.sgk1),
            sgk2: copy_text(&self.sgk2),
            vkm1: copy_text(&self.vkm1),
            vkm2: copy_text(&self.vkm2),
            vkm3: copy_text(&self.vkm3),
            keys_received_at: self.keys_received_at,
        }
    }
}

} // verus!
