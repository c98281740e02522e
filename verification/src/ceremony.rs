//! The key ceremony of a poll: Setup, then KeyGen, each at most once, and the
//! dealing of key shares to the enrolled authorities.
//!
//! A [`Ceremony`] holds what is recorded about one poll. It decides; it does
//! not call the engine. A caller asks for a plan (`plan_setup`,
//! `plan_keygen`), runs the engine with it, and hands the engine's answer
//! back (`record_setup`, `record_keygen`). Every step checks its guard against
//! what is recorded, so an answer that arrives twice is refused the second
//! time and changes nothing.

use crate::engine::{
    shares_view, AuthorityKey, AuthorityKeyView, KeyGenResult, KeyGenResultView, SetupParams,
    SetupParamsView,
};
use crate::order::{
    as_ints, ascending_ids, count_below, is_ascending_order_of, lemma_slot_is_ascending_position,
    share_slot,
};
use crate::poll::{
    Poll, PollAuthorityKey, PollAuthorityKeyView, PollMvk, PollMvkView, PollSetup, PollSetupView,
    PollStatus, PollView,
};
use crate::threshold::{calculate_threshold, threshold_for};
use vstd::prelude::*;

verus! {

/// The security level that every Setup is run at and recorded with.
pub const SETUP_SECURITY_LEVEL: i32 = 256;

/// The largest roster a poll can hold: the engine counts authorities in 32
/// bits.
pub const MAX_AUTHORITIES: usize = 0x7fff_ffff;

/// How far the ceremony of a poll has come.
#[derive(Debug, Clone, Copy, PartialEq, Eq, Structural)]
pub enum CeremonyStage {
    NoSetup,
    SetupDone,
    KeyGenDone,
}

/// Why a ceremony step was refused. These are misuse of the ordering by the
/// caller, not faults.
#[derive(Debug, Clone, Copy, PartialEq, Eq, Structural)]
pub enum CeremonyError {
    /// KeyGen was asked for before Setup was recorded.
    SetupRequired,
    /// The step has been recorded for this poll already.
    AlreadyDone,
    /// KeyGen was asked for with nobody on the roster.
    NoAuthorities,
}

/// What KeyGen is to be run with.
#[derive(Debug)]
pub struct KeygenRequest {
    pub setup_params: SetupParams,
    pub threshold: i32,
    pub authority_count: i32,
}

/// Mathematical value of a [`KeygenRequest`].
pub struct KeygenRequestView {
    pub setup_params: SetupParamsView,
    pub threshold: int,
    pub authority_count: int,
}

impl View for KeygenRequest {
    type V = KeygenRequestView;

    open spec fn view(&self) -> KeygenRequestView {
        KeygenRequestView {
            setup_params: self.setup_params@,
            threshold: self.threshold as int,
            authority_count: self.authority_count as int,
        }
    }
}

/// What a recorded KeyGen amounted to.
#[derive(Debug, Clone, Copy, PartialEq, Eq, Structural)]
pub struct KeygenSummary {
    pub threshold: i32,
    pub total_authorities: i32,
    /// How many authorities received a share: all of them, unless the
    /// engine produced fewer shares than that.
    pub shares_dealt: usize,
}

/// Why an authority was not given keys.
#[derive(Debug, Clone, Copy, PartialEq, Eq, Structural)]
pub enum KeyAccessError {
    /// The authority is not on the poll's roster.
    NotEnrolled,
    /// The authority is enrolled but holds no share yet.
    NotGenerated,
}

/// What one authority may see of a poll's keys.
#[derive(Debug)]
pub struct AuthorityKeys {
    /// The authority's own roster entry, with its share.
    pub share: PollAuthorityKey,
    /// The poll's master verification key, if it is recorded.
    pub mvk: Option<PollMvk>,
}

/// Mathematical value of an [`AuthorityKeys`].
pub struct AuthorityKeysView {
    pub share: PollAuthorityKeyView,
    pub mvk: Option<PollMvkView>,
}

impl View for AuthorityKeys {
    type V = AuthorityKeysView;

    open spec fn view(&self) -> AuthorityKeysView {
        AuthorityKeysView { share: self.share@, mvk: mvk_view(self.mvk) }
    }
}

/// The figures of a poll: how many are enrolled, the threshold that follows,
/// and which ceremony steps are recorded.
#[derive(Debug, Clone, Copy, PartialEq, Eq, Structural)]
pub struct PollDetails {
    pub voter_count: usize,
    pub authority_count: usize,
    pub threshold: i32,
    pub setup_completed: bool,
    pub keygen_completed: bool,
}

/// The views of a roster's entries.
pub open spec fn roster_view(roster: Seq<PollAuthorityKey>) -> Seq<PollAuthorityKeyView> {
    Seq::new(roster.len(), |p: int| roster[p]@)
}

/// The authority ids of a roster, in roster order.
pub open spec fn roster_ids(roster: Seq<PollAuthorityKeyView>) -> Seq<int> {
    Seq::new(roster.len(), |p: int| roster[p].authority_id)
}

/// The roster after `shares` were dealt at `now`: the authority with `i`
/// roster ids below its own receives share `i`, and keeps what it had where
/// there is no share `i`.
pub open spec fn dealt(
    roster: Seq<PollAuthorityKeyView>,
    shares: Seq<AuthorityKeyView>,
    now: int,
) -> Seq<PollAuthorityKeyView> {
    Seq::new(
        roster.len(),
        |p: int|
            {
                let slot = count_below(roster_ids(roster), roster[p].authority_id);
                if slot < shares.len() {
                    roster[p].with_share(shares[slot as int], now)
                } else {
                    roster[p]
                }
            },
    )
}

/// Mathematical value of a [`Ceremony`]: what is recorded about one poll.
pub struct CeremonyView {
    pub poll: PollView,
    pub setup: Option<PollSetupView>,
    pub mvk: Option<PollMvkView>,
    pub voters: Seq<int>,
    pub roster: Seq<PollAuthorityKeyView>,
}

impl CeremonyView {
    /// The ids of the enrolled authorities, in the order of enrolment.
    pub open spec fn authority_ids(self) -> Seq<int> {
        roster_ids(self.roster)
    }

    /// What holds of every recorded state: nobody is enrolled twice, every
    /// record belongs to this poll, KeyGen is recorded only after Setup, and
    /// no authority holds a share before KeyGen is recorded.
    pub open spec fn well_formed(self) -> bool {
        &&& self.authority_ids().no_duplicates()
        &&& self.voters.no_duplicates()
        &&& self.roster.len() <= MAX_AUTHORITIES
        &&& forall|p: int|
            0 <= p < self.roster.len() ==> (#[trigger] self.roster[p]).poll_id == self.poll.id
        &&& self.setup matches Some(s) ==> s.poll_id == self.poll.id
        &&& self.mvk matches Some(m) ==> m.poll_id == self.poll.id && self.setup is Some
        &&& self.mvk is None ==> forall|p: int|
            0 <= p < self.roster.len() ==> (#[trigger] self.roster[p]).is_bare()
    }

    /// How far the ceremony has come.
    pub open spec fn stage(self) -> CeremonyStage {
        if self.mvk is Some {
            CeremonyStage::KeyGenDone
        } else if self.setup is Some {
            CeremonyStage::SetupDone
        } else {
            CeremonyStage::NoSetup
        }
    }

    /// A ceremony that has recorded nothing yet.
    pub open spec fn fresh(poll: PollView) -> CeremonyView {
        CeremonyView { poll, setup: None, mvk: None, voters: Seq::empty(), roster: Seq::empty() }
    }

    /// The state after voter `v` was enrolled: unchanged if `v` was enrolled
    /// already.
    pub open spec fn enroll_voter(self, v: int) -> CeremonyView {
        if self.voters.contains(v) {
            self
        } else {
            CeremonyView { voters: self.voters.push(v), ..self }
        }
    }

    /// Authority `a` can be added: it is not on the roster, and the roster
    /// is not full.
    pub open spec fn can_enroll_authority(self, a: int) -> bool {
        !self.authority_ids().contains(a) && self.roster.len() < MAX_AUTHORITIES
    }

    /// The state after authority `a` was enrolled: a bare entry at the end of
    /// the roster, or no change where `a` cannot be added.
    pub open spec fn enroll_authority(self, a: int) -> CeremonyView {
        if self.can_enroll_authority(a) {
            CeremonyView {
                roster: self.roster.push(PollAuthorityKeyView::enrolled(self.poll.id, a)),
                ..self
            }
        } else {
            self
        }
    }

    /// Whether Setup may run: only if none is recorded.
    pub open spec fn setup_guard(self) -> Result<int, CeremonyError> {
        if self.setup is Some {
            Err(CeremonyError::AlreadyDone)
        } else {
            Ok(SETUP_SECURITY_LEVEL as int)
        }
    }

    /// The Setup record that `record_setup` writes.
    pub open spec fn setup_record(
        self,
        params: SetupParamsView,
        admin_id: int,
        now: int,
    ) -> PollSetupView {
        PollSetupView {
            poll_id: self.poll.id,
            pairing_param: params.pairing_param,
            prime_order: params.prime_order,
            g1: params.g1,
            g2: params.g2,
            h1: params.h1,
            security_level: SETUP_SECURITY_LEVEL as int,
            setup_completed_at: now,
            setup_by: admin_id,
        }
    }

    /// The state after the engine's Setup answer was handed in: the record
    /// is written if the guard lets it, and nothing changes if not.
    pub open spec fn record_setup(
        self,
        params: SetupParamsView,
        admin_id: int,
        now: int,
    ) -> CeremonyView {
        if self.setup_guard() is Ok {
            CeremonyView { setup: Some(self.setup_record(params, admin_id, now)), ..self }
        } else {
            self
        }
    }

    /// Whether KeyGen may run, and with what. The guards are tried in this
    /// order: Setup must be recorded, KeyGen must not be, and somebody must
    /// be on the roster.
    pub open spec fn keygen_guard(self) -> Result<KeygenRequestView, CeremonyError> {
        if self.setup is None {
            Err(CeremonyError::SetupRequired)
        } else if self.mvk is Some {
            Err(CeremonyError::AlreadyDone)
        } else if self.roster.len() == 0 {
            Err(CeremonyError::NoAuthorities)
        } else {
            Ok(
                KeygenRequestView {
                    setup_params: self.setup->0.params(),
                    threshold: threshold_for(self.roster.len() as int),
                    authority_count: self.roster.len() as int,
                },
            )
        }
    }

    /// The master-key record that `record_keygen` writes.
    pub open spec fn mvk_record(
        self,
        result: KeyGenResultView,
        admin_id: int,
        now: int,
    ) -> PollMvkView {
        PollMvkView {
            poll_id: self.poll.id,
            alpha2: result.mvk.alpha2,
            beta2: result.mvk.beta2,
            beta1: result.mvk.beta1,
            threshold: threshold_for(self.roster.len() as int),
            total_authorities: self.roster.len() as int,
            generated_at: now,
            generated_by: admin_id,
        }
    }

    /// The state after the engine's KeyGen answer was handed in. If the guard
    /// lets it, the master key is recorded, the shares are dealt by ascending
    /// authority id, and the poll becomes active. If not, nothing changes.
    pub open spec fn record_keygen(
        self,
        result: KeyGenResultView,
        admin_id: int,
        now: int,
    ) -> CeremonyView {
        if self.keygen_guard() is Ok {
            CeremonyView {
                poll: PollView { status: PollStatus::Active, ..self.poll },
                setup: self.setup,
                mvk: Some(self.mvk_record(result, admin_id, now)),
                voters: self.voters,
                roster: dealt(self.roster, result.authority_keys, now),
            }
        } else {
            self
        }
    }

    /// The roster entry of authority `a`, if it is enrolled.
    pub open spec fn entry_of(self, a: int) -> Option<PollAuthorityKeyView> {
        if self.authority_ids().contains(a) {
            Some(self.roster[self.authority_ids().index_of(a)])
        } else {
            None
        }
    }

    /// What authority `a` may see of the poll's keys: its own share and the
    /// master key, and nothing of anybody else's.
    pub open spec fn keys_of(self, a: int) -> Result<AuthorityKeysView, KeyAccessError> {
        match self.entry_of(a) {
            None => Err(KeyAccessError::NotEnrolled),
            Some(entry) => if entry.sgk1 is None {
                Err(KeyAccessError::NotGenerated)
            } else {
                Ok(AuthorityKeysView { share: entry, mvk: self.mvk })
            },
        }
    }
}

/// The view of an optional Setup record.
pub open spec fn setup_view(setup: Option<PollSetup>) -> Option<PollSetupView> {
    match setup {
        Some(s) => Some(s@),
        None => None,
    }
}

/// The view of an optional master-key record.
pub open spec fn mvk_view(mvk: Option<PollMvk>) -> Option<PollMvkView> {
    match mvk {
        Some(m) => Some(m@),
        None => None,
    }
}

/// What is recorded about one poll: the poll itself, its Setup and master-key
/// records once they exist, and the voters and authorities enrolled on it.
pub struct Ceremony {
    poll: Poll,
    setup: Option<PollSetup>,
    mvk: Option<PollMvk>,
    voters: Vec<i32>,
    roster: Vec<PollAuthorityKey>,
}

impl View for Ceremony {
    type V = CeremonyView;

    closed spec fn view(&self) -> CeremonyView {
        CeremonyView {
            poll: self.poll@,
            setup: setup_view(self.setup),
            mvk: mvk_view(self.mvk),
            voters: as_ints(self.voters@),
            roster: roster_view(self.roster@),
        }
    }
}

impl Ceremony {
    /// The ceremony of a poll about which nothing is recorded yet.
    pub fn new(poll: Poll) -> (ceremony: Ceremony)
        ensures
            ceremony@ == CeremonyView::fresh(poll@),
            ceremony@.well_formed(),
    {
        let ceremony =
            Ceremony { poll, setup: None, mvk: None, voters: Vec::new(), roster: Vec::new() };
        assert(ceremony@.voters =~= Seq::empty());
        assert(ceremony@.roster =~= Seq::empty());
        ceremony
    }

    /// The poll.
    pub fn poll(&self) -> (poll: &Poll)
        ensures
            poll@ == self@.poll,
    {
        &self.poll
    }

    /// The Setup record, once Setup is recorded.
    pub fn setup(&self) -> (setup: &Option<PollSetup>)
        ensures
            setup_view(*setup) == self@.setup,
    {
        &self.setup
    }

    /// The master-key record, once KeyGen is recorded.
    pub fn mvk(&self) -> (mvk: &Option<PollMvk>)
        ensures
            mvk_view(*mvk) == self@.mvk,
    {
        &self.mvk
    }

    /// The enrolled authorities with their shares, in the order of enrolment.
    pub fn roster(&self) -> (roster: &Vec<PollAuthorityKey>)
        ensures
            roster_view(roster@) == self@.roster,
    {
        &self.roster
    }

    /// The enrolled voters, in the order of enrolment.
    pub fn voters(&self) -> (voters: &Vec<i32>)
        ensures
            as_ints(voters@) == self@.voters,
    {
        &self.voters
    }

    /// How far the ceremony has come.
    pub fn stage(&self) -> (stage: CeremonyStage)
        ensures
            stage == self@.stage(),
    {
        if self.mvk.is_some() {
            CeremonyStage::KeyGenDone
        } else if self.setup.is_some() {
            CeremonyStage::SetupDone
        } else {
            CeremonyStage::NoSetup
        }
    }

    /// Where on the roster authority `authority_id` stands, if it is enrolled.
    pub fn roster_position(&self, authority_id: i32) -> (position: Option<usize>)
        ensures
            match position {
                Some(p) => p < self@.roster.len() && self@.roster[p as int].authority_id == authority_id,
                None => !self@.authority_ids().contains(authority_id as int),
            },
    {
        let mut p: usize = 0;
        while p < self.roster.len()
            invariant
                p <= self.roster.len(),
                forall|q: int| 0 <= q < p ==> self.roster[q].authority_id != authority_id,
            decreases self.roster.len() - p,
        {
            if self.roster[p].authority_id == authority_id {
                return Some(p);
            }
            p += 1;
        }
        None
    }

    /// Enrols a voter on the poll. Enrolling one who is enrolled already
    /// changes nothing. Returns whether the voter was added.
    pub fn enroll_voter(&mut self, voter_id: i32) -> (added: bool)
        requires
            old(self)@.well_formed(),
        ensures
            final(self)@ == old(self)@.enroll_voter(voter_id as int),
            added == !old(self)@.voters.contains(voter_id as int),
            final(self)@.well_formed(),
    {
        let mut p: usize = 0;
        while p < self.voters.len()
            invariant
                p <= self.voters.len(),
                *self == *old(self),
                old(self)@.well_formed(),
                forall|q: int| 0 <= q < p ==> self.voters[q] != voter_id,
            decreases self.voters.len() - p,
        {
            if self.voters[p] == voter_id {
                assert(as_ints(self.voters@)[p as int] == voter_id as int);
                return false;
            }
            p += 1;
        }
        self.voters.push(voter_id);
        proof {
            assert(as_ints(self.voters@) =~= as_ints(old(self).voters@).push(voter_id as int));
        }
        true
    }

    /// Enrols an authority on the poll, without a share. Enrolling one that
    /// is enrolled already changes nothing, and nothing is added to a full
    /// roster. Returns whether the authority was added.
    pub fn enroll_authority(&mut self, authority_id: i32) -> (added: bool)
        requires
            old(self)@.well_formed(),
        ensures
            final(self)@ == old(self)@.enroll_authority(authority_id as int),
            added == old(self)@.can_enroll_authority(authority_id as int),
            final(self)@.well_formed(),
    {
        if self.roster.len() >= MAX_AUTHORITIES {
            return false;
        }
        match self.roster_position(authority_id) {
            Some(p) => {
                assert(self@.authority_ids()[p as int] == authority_id as int);
                false
            },
            None => {
                self.roster.push(PollAuthorityKey::enrolled(self.poll.id, authority_id));
                proof {
                    assert(roster_view(self.roster@) =~= roster_view(old(self).roster@).push(
                        PollAuthorityKeyView::enrolled(self.poll.id as int, authority_id as int),
                    ));
                    let before = old(self)@.authority_ids();
                    let after = self@.authority_ids();
                    assert(after =~= before.push(authority_id as int));
                    assert forall|i: int, j: int|
                        0 <= i < after.len() && 0 <= j < after.len() && i != j implies after[i]
                        != after[j] by {
                        if i == before.len() {
                            assert(before[j] == after[j]);
                            assert(before.contains(after[j]));
                        } else if j == before.len() {
                            assert(before[i] == after[i]);
                            assert(before.contains(after[i]));
                        } else {
                            assert(before[i] == after[i] && before[j] == after[j]);
                        }
                    }
                }
                true
            },
        }
    }

    /// Decides whether Setup may run, and at which security level. It may
    /// not if a Setup is recorded already.
    pub fn plan_setup(&self) -> (plan: Result<i32, CeremonyError>)
        ensures
            match plan {
                Ok(level) => self@.setup_guard() == Ok::<int, CeremonyError>(level as int),
                Err(e) => self@.setup_guard() == Err::<int, CeremonyError>(e),
            },
    {
        if self.setup.is_some() {
            Err(CeremonyError::AlreadyDone)
        } else {
            Ok(SETUP_SECURITY_LEVEL)
        }
    }

    /// Records the parameters that the engine's Setup produced, as run by
    /// administrator `admin_id` at `now`. Refused, with nothing changed, if a
    /// Setup is recorded already.
    pub fn record_setup(&mut self, params: SetupParams, admin_id: i32, now: i64) -> (outcome: Result<
        (),
        CeremonyError,
    >)
        requires
            old(self)@.well_formed(),
        ensures
            final(self)@ == old(self)@.record_setup(params@, admin_id as int, now as int),
            match outcome {
                Ok(_) => old(self)@.setup_guard() is Ok,
                Err(e) => old(self)@.setup_guard() == Err::<int, CeremonyError>(e),
            },
            final(self)@.well_formed(),
    {
        if self.setup.is_some() {
            return Err(CeremonyError::AlreadyDone);
        }
        self.setup = Some(
            PollSetup {
                poll_id: self.poll.id,
                pairing_param: params.pairing_param,
                prime_order: params.prime_order,
                g1: params.g1,
                g2: params.g2,
                h1: params.h1,
                security_level: SETUP_SECURITY_LEVEL,
                setup_completed_at: now,
                setup_by: admin_id,
            },
        );
        Ok(())
    }

    /// Decides whether KeyGen may run, and with what: the recorded Setup
    /// parameters, the threshold for the roster as it stands, and the number
    /// of authorities on it.
    pub fn plan_keygen(&self) -> (plan: Result<KeygenRequest, CeremonyError>)
        requires
            self@.well_formed(),
        ensures
            match plan {
                Ok(request) => self@.keygen_guard() == Ok::<KeygenRequestView, CeremonyError>(
                    request@,
                ),
                Err(e) => self@.keygen_guard() == Err::<KeygenRequestView, CeremonyError>(e),
            },
    {
        match &self.setup {
            None => Err(CeremonyError::SetupRequired),
            Some(setup) => {
                if self.mvk.is_some() {
                    Err(CeremonyError::AlreadyDone)
                } else if self.roster.len() == 0 {
                    Err(CeremonyError::NoAuthorities)
                } else {
                    let authority_count = self.roster.len() as i32;
                    Ok(
                        KeygenRequest {
                            setup_params: setup.params(),
                            threshold: calculate_threshold(authority_count),
                            authority_count,
                        },
                    )
                }
            },
        }
    }

    /// Records what the engine's KeyGen produced, as run by administrator
    /// `admin_id` at `now`: the master key with the threshold and roster size,
    /// each authority's share, and the poll's activation. The authority with
    /// the lowest id receives the first share, the next lowest the second, and
    /// so on; where the engine produced fewer shares than there are
    /// authorities, those with the highest ids stay without. Refused, with
    /// nothing changed, where `plan_keygen` would refuse.
    pub fn record_keygen(&mut self, result: KeyGenResult, admin_id: i32, now: i64) -> (outcome:
        Result<KeygenSummary, CeremonyError>)
        requires
            old(self)@.well_formed(),
        ensures
            final(self)@ == old(self)@.record_keygen(result@, admin_id as int, now as int),
            match outcome {
                Ok(summary) => {
                    &&& old(self)@.keygen_guard() is Ok
                    &&& summary.threshold == threshold_for(old(self)@.roster.len() as int)
                    &&& summary.total_authorities == old(self)@.roster.len()
                    &&& summary.shares_dealt == if result@.authority_keys.len() < old(
                        self,
                    )@.roster.len() {
                        result@.authority_keys.len()
                    } else {
                        old(self)@.roster.len()
                    }
                },
                Err(e) => old(self)@.keygen_guard() == Err::<KeygenRequestView, CeremonyError>(e),
            },
            final(self)@.well_formed(),
    {
        if self.setup.is_none() {
            return Err(CeremonyError::SetupRequired);
        }
        if self.mvk.is_some() {
            return Err(CeremonyError::AlreadyDone);
        }
        if self.roster.len() == 0 {
            return Err(CeremonyError::NoAuthorities);
        }
        let total_authorities = self.roster.len() as i32;
        let threshold = calculate_threshold(total_authorities);
        let shares_dealt = if result.authority_keys.len() < self.roster.len() {
            result.authority_keys.len()
        } else {
            self.roster.len()
        };
        self.mvk = Some(
            PollMvk {
                poll_id: self.poll.id,
                alpha2: result.mvk.alpha2,
                beta2: result.mvk.beta2,
                beta1: result.mvk.beta1,
                threshold,
                total_authorities,
                generated_at: now,
                generated_by: admin_id,
            },
        );
        deal_shares(&mut self.roster, &result.authority_keys, now);
        self.poll.status = PollStatus::Active;
        proof {
            let before = old(self)@.roster;
            let after = self@.roster;
            assert(roster_ids(after) =~= roster_ids(before));
            assert forall|p: int| 0 <= p < after.len() implies (#[trigger] after[p]).poll_id
                == self@.poll.id by {
                assert(before[p].poll_id == old(self)@.poll.id);
            }
        }
        Ok(KeygenSummary { threshold, total_authorities, shares_dealt })
    }

    /// The enrolled authorities' ids in the order in which shares are dealt:
    /// ascending. The authority at position `i` receives share `i`.
    pub fn authorities_in_share_order(&self) -> (order: Vec<i32>)
        requires
            self@.well_formed(),
        ensures
            is_ascending_order_of(as_ints(order@), self@.authority_ids()),
            order.len() == self@.roster.len(),
            forall|i: int|
                0 <= i < order.len() ==> count_below(self@.authority_ids(), #[trigger] order[i] as int)
                    == i,
    {
        let ids = authority_ids_of(&self.roster);
        let order = ascending_ids(&ids);
        proof {
            if order.len() > 0 {
                lemma_slot_is_ascending_position(self@.authority_ids(), as_ints(order@), 0);
            } else {
                if self@.roster.len() > 0 {
                    assert(self@.authority_ids().contains(self@.authority_ids()[0]));
                    assert(as_ints(order@).contains(self@.authority_ids()[0]));
                }
            }
            assert forall|i: int| 0 <= i < order.len() implies count_below(
                self@.authority_ids(),
                #[trigger] order[i] as int,
            ) == i by {
                lemma_slot_is_ascending_position(self@.authority_ids(), as_ints(order@), i);
            }
        }
        order
    }

    /// Hands authority `authority_id` its own share and the master key.
    /// Refused if the authority is not on the roster, or holds no share yet.
    /// An authority is never handed another authority's entry.
    pub fn authority_keys(&self, authority_id: i32) -> (keys: Result<AuthorityKeys, KeyAccessError>)
        requires
            self@.well_formed(),
        ensures
            match keys {
                Ok(k) => self@.keys_of(authority_id as int) == Ok::<
                    AuthorityKeysView,
                    KeyAccessError,
                >(k@),
                Err(e) => self@.keys_of(authority_id as int) == Err::<
                    AuthorityKeysView,
                    KeyAccessError,
                >(e),
            },
    {
        match self.roster_position(authority_id) {
            None => Err(KeyAccessError::NotEnrolled),
            Some(p) => {
                proof {
                    let ids = self@.authority_ids();
                    assert(ids[p as int] == authority_id as int);
                    assert(ids.contains(authority_id as int));
                    assert(ids.index_of(authority_id as int) == p);
                }
                if self.roster[p].sgk1.is_none() {
                    Err(KeyAccessError::NotGenerated)
                } else {
                    Ok(
                        AuthorityKeys {
                            share: self.roster[p].clone(),
                            mvk: match &self.mvk {
                                Some(m) => Some(m.clone()),
                                None => None,
                            },
                        },
                    )
                }
            },
        }
    }

    /// The poll's figures: enrolment counts, the threshold for the roster as
    /// it stands, and which ceremony steps are recorded.
    pub fn details(&self) -> (details: PollDetails)
        requires
            self@.well_formed(),
        ensures
            details.voter_count == self@.voters.len(),
            details.authority_count == self@.roster.len(),
            details.threshold == threshold_for(self@.roster.len() as int),
            details.setup_completed == (self@.setup is Some),
            details.keygen_completed == (self@.mvk is Some),
    {
        PollDetails {
            voter_count: self.voters.len(),
            authority_count: self.roster.len(),
            threshold: calculate_threshold(self.roster.len() as i32),
            setup_completed: self.setup.is_some(),
            keygen_completed: self.mvk.is_some(),
        }
    }

    /// Puts a ceremony together from stored records. Refused unless the
    /// records fit together: see [`CeremonyView::well_formed`].
    pub fn restore(
        poll: Poll,
        setup: Option<PollSetup>,
        mvk: Option<PollMvk>,
        voters: Vec<i32>,
        roster: Vec<PollAuthorityKey>,
    ) -> (ceremony: Option<Ceremony>)
        ensures
            ceremony is Some <==> stored_view(poll, setup, mvk, voters, roster).well_formed(),
            ceremony matches Some(c) ==> c@ == stored_view(poll, setup, mvk, voters, roster),
    {
        let ghost stored = stored_view(poll, setup, mvk, voters, roster);
        let ids = authority_ids_of(&roster);
        if !all_distinct(&ids) || !all_distinct(&voters) || roster.len() > MAX_AUTHORITIES {
            return None;
        }
        match &setup {
            Some(s) => {
                if s.poll_id != poll.id {
                    return None;
                }
            },
            None => {
                if mvk.is_some() {
                    return None;
                }
            },
        }
        match &mvk {
            Some(m) => {
                if m.poll_id != poll.id {
                    return None;
                }
            },
            None => {},
        }
        let mut p: usize = 0;
        while p < roster.len()
            invariant
                p <= roster.len(),
                stored == stored_view(poll, setup, mvk, voters, roster),
                forall|q: int| 0 <= q < p ==> (#[trigger] stored.roster[q]).poll_id == stored.poll.id,
                stored.mvk is None ==> forall|q: int|
                    0 <= q < p ==> (#[trigger] stored.roster[q]).is_bare(),
            decreases roster.len() - p,
        {
            let entry = &roster[p];
            assert(stored.roster[p as int] == entry@);
            if entry.poll_id != poll.id {
                return None;
            }
            if mvk.is_none() && !(entry.sgk1.is_none() && entry.sgk2.is_none()
                && entry.vkm1.is_none() && entry.vkm2.is_none() && entry.vkm3.is_none()
                && entry.keys_received_at.is_none()) {
                return None;
            }
            p += 1;
        }
        Some(Ceremony { poll, setup, mvk, voters, roster })
    }
}

/// What a set of stored records amounts to, taken together.
pub open spec fn stored_view(
    poll: Poll,
    setup: Option<PollSetup>,
    mvk: Option<PollMvk>,
    voters: Vec<i32>,
    roster: Vec<PollAuthorityKey>,
) -> CeremonyView {
    CeremonyView {
        poll: poll@,
        setup: setup_view(setup),
        mvk: mvk_view(mvk),
        voters: as_ints(voters@),
        roster: roster_view(roster@),
    }
}

/// Whether no id occurs twice.
pub fn all_distinct(ids: &Vec<i32>) -> (distinct: bool)
    ensures
        distinct == as_ints(ids@).no_duplicates(),
{
    let mut j: usize = 0;
    while j < ids.len()
        invariant
            j <= ids.len(),
            forall|a: int, b: int| 0 <= a < b < j ==> ids[a] != ids[b],
        decreases ids.len() - j,
    {
        let mut i: usize = 0;
        while i < j
            invariant
                i <= j,
                j < ids.len(),
                forall|a: int| 0 <= a < i ==> ids[a] != ids[j as int],
            decreases j - i,
        {
            if ids[i] == ids[j] {
                assert(as_ints(ids@)[i as int] == as_ints(ids@)[j as int]);
                return false;
            }
            i += 1;
        }
        j += 1;
    }
    assert forall|a: int, b: int|
        0 <= a < ids.len() && 0 <= b < ids.len() && a != b implies as_ints(ids@)[a] != as_ints(
        ids@,
    )[b] by {
        if a < b {
            assert(ids[a] != ids[b]);
        } else {
            assert(ids[b] != ids[a]);
        }
    }
    true
}

/// The authority ids of a roster, in roster order.
pub fn authority_ids_of(roster: &Vec<PollAuthorityKey>) -> (ids: Vec<i32>)
    ensures
        as_ints(ids@) == roster_ids(roster_view(roster@)),
{
    let mut ids: Vec<i32> = Vec::new();
    let mut p: usize = 0;
    while p < roster.len()
        invariant
            p <= roster.len(),
            ids.len() == p,
            forall|q: int| 0 <= q < p ==> ids[q] == roster[q].authority_id,
        decreases roster.len() - p,
    {
        ids.push(roster[p].authority_id);
        p += 1;
    }
    assert(as_ints(ids@) =~= roster_ids(roster_view(roster@)));
    ids
}

/// Deals `shares` to the roster at `now`, by ascending authority id: the
/// authority with `i` roster ids below its own receives share `i`. An
/// authority for which there is no share keeps what it had.
pub fn deal_shares(roster: &mut Vec<PollAuthorityKey>, shares: &Vec<AuthorityKey>, now: i64)
    ensures
        roster_view(final(roster)@) == dealt(
            roster_view(old(roster)@),
            shares_view(shares@),
            now as int,
        ),
{
    let ids = authority_ids_of(roster);
    let ghost before = roster_view(roster@);
    let ghost target = dealt(before, shares_view(shares@), now as int);
    let mut p: usize = 0;
    while p < roster.len()
        invariant
            p <= roster.len(),
            roster.len() == ids.len(),
            roster.len() == before.len(),
            as_ints(ids@) == roster_ids(before),
            target == dealt(before, shares_view(shares@), now as int),
            forall|q: int| 0 <= q < p ==> (#[trigger] roster[q])@ == target[q],
            forall|q: int| p <= q < roster.len() ==> (#[trigger] roster[q])@ == before[q],
        decreases roster.len() - p,
    {
        let slot = share_slot(&ids, ids[p]);
        assert(as_ints(ids@)[p as int] == before[p as int].authority_id);
        if slot < shares.len() {
            roster[p].receive(&shares[slot], now);
        }
        p += 1;
    }
    assert(roster_view(roster@) =~= target);
}

} // verus!
