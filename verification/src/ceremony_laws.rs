//! What holds of every ceremony, proved from the transitions of
//! [`CeremonyView`].

use crate::ceremony::{
    dealt, roster_ids, AuthorityKeysView, CeremonyError, CeremonyStage, CeremonyView,
    KeyAccessError, KeygenRequestView,
};
use crate::engine::{KeyGenResultView, SetupParamsView};
use crate::order::{count_below, is_ascending_order_of, lemma_slot_is_ascending_position};
use crate::poll::PollStatus;
use crate::threshold::lemma_threshold_within_roster;
use vstd::prelude::*;

verus! {

/// Enrolling, recording Setup and recording KeyGen all lead from well-formed
/// states to well-formed states, whatever they are handed.
pub proof fn lemma_steps_keep_well_formed(
    c: CeremonyView,
    voter: int,
    authority: int,
    params: SetupParamsView,
    result: KeyGenResultView,
    admin_id: int,
    now: int,
)
    requires
        c.well_formed(),
    ensures
        c.enroll_voter(voter).well_formed(),
        c.enroll_authority(authority).well_formed(),
        c.record_setup(params, admin_id, now).well_formed(),
        c.record_keygen(result, admin_id, now).well_formed(),
{
    let v = c.enroll_voter(voter);
    if !c.voters.contains(voter) {
        assert forall|i: int, j: int|
            0 <= i < v.voters.len() && 0 <= j < v.voters.len() && i != j implies v.voters[i]
            != v.voters[j] by {
            if i == c.voters.len() {
                assert(c.voters.contains(c.voters[j]));
            } else if j == c.voters.len() {
                assert(c.voters.contains(c.voters[i]));
            }
        }
    }
    let a = c.enroll_authority(authority);
    if c.can_enroll_authority(authority) {
        let before = c.authority_ids();
        let after = a.authority_ids();
        assert(after =~= before.push(authority));
        assert forall|i: int, j: int|
            0 <= i < after.len() && 0 <= j < after.len() && i != j implies after[i] != after[j] by {
            if i == before.len() {
                assert(before.contains(before[j]));
            } else if j == before.len() {
                assert(before.contains(before[i]));
            }
        }
    }
    let k = c.record_keygen(result, admin_id, now);
    assert(roster_ids(k.roster) =~= roster_ids(c.roster));
}

/// Setup runs at most once per poll. Once a Setup is recorded, asking again
/// is answered `AlreadyDone`, and a second answer from the engine changes
/// nothing: the record that was written first is the one that stays.
pub proof fn lemma_setup_at_most_once(
    c: CeremonyView,
    first: SetupParamsView,
    first_admin: int,
    first_now: int,
    second: SetupParamsView,
    second_admin: int,
    second_now: int,
)
    ensures
        ({
            let once = c.record_setup(first, first_admin, first_now);
            let twice = once.record_setup(second, second_admin, second_now);
            &&& once.setup is Some
            &&& c.setup is None ==> once.setup == Some(c.setup_record(first, first_admin, first_now))
            &&& c.setup is Some ==> once == c
            &&& once.setup_guard() == Err::<int, CeremonyError>(CeremonyError::AlreadyDone)
            &&& twice == once
        }),
{
}

/// KeyGen runs at most once per poll. Once it is recorded, asking again is
/// answered `AlreadyDone`, and a second answer from the engine changes
/// nothing: neither the master key nor any share.
pub proof fn lemma_keygen_at_most_once(
    c: CeremonyView,
    first: KeyGenResultView,
    first_admin: int,
    first_now: int,
    second: KeyGenResultView,
    second_admin: int,
    second_now: int,
)
    requires
        c.keygen_guard() is Ok,
    ensures
        ({
            let once = c.record_keygen(first, first_admin, first_now);
            let twice = once.record_keygen(second, second_admin, second_now);
            &&& once.mvk == Some(c.mvk_record(first, first_admin, first_now))
            &&& once.keygen_guard() == Err::<KeygenRequestView, CeremonyError>(
                CeremonyError::AlreadyDone,
            )
            &&& twice == once
        }),
{
}

/// KeyGen is refused before Setup, whatever else is recorded, and it is
/// refused on an empty roster once Setup is recorded. In both cases an
/// answer handed in all the same changes nothing.
pub proof fn lemma_keygen_needs_setup_and_authorities(
    c: CeremonyView,
    result: KeyGenResultView,
    admin_id: int,
    now: int,
)
    ensures
        c.setup is None ==> c.keygen_guard() == Err::<KeygenRequestView, CeremonyError>(
            CeremonyError::SetupRequired,
        ),
        c.setup is Some && c.mvk is None && c.roster.len() == 0 ==> c.keygen_guard() == Err::<
            KeygenRequestView,
            CeremonyError,
        >(CeremonyError::NoAuthorities),
        c.keygen_guard() is Err ==> c.record_keygen(result, admin_id, now) == c,
{
}

/// The ceremony only moves forward: no step takes a poll back to an earlier
/// stage, Setup moves a poll without one to `SetupDone`, and an accepted
/// KeyGen moves it from `SetupDone` to `KeyGenDone` and makes it active.
pub proof fn lemma_stages_in_order(
    c: CeremonyView,
    params: SetupParamsView,
    result: KeyGenResultView,
    admin_id: int,
    now: int,
)
    requires
        c.well_formed(),
    ensures
        c.stage() == CeremonyStage::NoSetup ==> c.record_setup(params, admin_id, now).stage()
            == CeremonyStage::SetupDone,
        c.stage() != CeremonyStage::NoSetup ==> c.record_setup(params, admin_id, now).stage()
            == c.stage(),
        c.stage() == CeremonyStage::NoSetup ==> c.record_keygen(result, admin_id, now).stage()
            == CeremonyStage::NoSetup,
        c.keygen_guard() is Ok ==> {
            &&& c.stage() == CeremonyStage::SetupDone
            &&& c.record_keygen(result, admin_id, now).stage() == CeremonyStage::KeyGenDone
            &&& c.record_keygen(result, admin_id, now).poll.status == PollStatus::Active
        },
        c.stage() == CeremonyStage::KeyGenDone ==> c.record_keygen(result, admin_id, now) == c,
{
}

/// Shares are dealt by ascending authority id, not by the order of
/// enrolment: with the roster's ids put in ascending order, the authority
/// at position `i` of that order holds share `i` after KeyGen, or what it
/// held before where the engine produced no share `i`.
pub proof fn lemma_shares_follow_ascending_ids(
    c: CeremonyView,
    result: KeyGenResultView,
    admin_id: int,
    now: int,
    order: Seq<int>,
    i: int,
    p: int,
)
    requires
        c.well_formed(),
        c.keygen_guard() is Ok,
        is_ascending_order_of(order, c.authority_ids()),
        0 <= i < order.len(),
        0 <= p < c.roster.len(),
        c.roster[p].authority_id == order[i],
    ensures
        c.record_keygen(result, admin_id, now).roster[p] == if i < result.authority_keys.len() {
            c.roster[p].with_share(result.authority_keys[i], now)
        } else {
            c.roster[p]
        },
{
    lemma_slot_is_ascending_position(c.authority_ids(), order, i);
}

/// A smaller id has fewer ids below it: `count_below` grows by at least one
/// from a member of the sequence to any larger bound.
proof fn lemma_count_below_grows(ids: Seq<int>, k: int, b: int)
    requires
        0 <= k < ids.len(),
        ids[k] < b,
    ensures
        count_below(ids, ids[k]) < count_below(ids, b),
    decreases ids.len(),
{
    let rest = ids.drop_last();
    if k == ids.len() - 1 {
        lemma_count_below_monotone(rest, ids[k], b);
    } else {
        assert(rest[k] == ids[k]);
        lemma_count_below_grows(rest, k, b);
    }
}

/// A larger bound has at least as many ids below it.
proof fn lemma_count_below_monotone(ids: Seq<int>, a: int, b: int)
    requires
        a <= b,
    ensures
        count_below(ids, a) <= count_below(ids, b),
    decreases ids.len(),
{
    if ids.len() > 0 {
        lemma_count_below_monotone(ids.drop_last(), a, b);
    }
}

/// No share is dealt twice: two different authorities on a roster never
/// stand for the same share index.
pub proof fn lemma_no_share_dealt_twice(c: CeremonyView, p: int, q: int)
    requires
        c.well_formed(),
        0 <= p < c.roster.len(),
        0 <= q < c.roster.len(),
        p != q,
    ensures
        count_below(c.authority_ids(), c.roster[p].authority_id) != count_below(
            c.authority_ids(),
            c.roster[q].authority_id,
        ),
{
    let ids = c.authority_ids();
    assert(ids[p] != ids[q]);
    if ids[p] < ids[q] {
        lemma_count_below_grows(ids, p, ids[q]);
    } else {
        lemma_count_below_grows(ids, q, ids[p]);
    }
}

/// What KeyGen leaves alone: who is enrolled, and in what order. Only the
/// share fields of roster entries change.
pub proof fn lemma_keygen_keeps_roster(
    c: CeremonyView,
    result: KeyGenResultView,
    admin_id: int,
    now: int,
)
    ensures
        c.record_keygen(result, admin_id, now).authority_ids() == c.authority_ids(),
        c.record_keygen(result, admin_id, now).voters == c.voters,
        c.record_keygen(result, admin_id, now).setup == c.setup,
        dealt(c.roster, result.authority_keys, now).len() == c.roster.len(),
{
    let k = c.record_keygen(result, admin_id, now);
    assert(roster_ids(k.roster) =~= roster_ids(c.roster));
}

/// Records are written once. No step changes a Setup record or a master-key
/// record that exists: not enrolling, not a second Setup, not KeyGen.
pub proof fn lemma_records_are_immutable(
    c: CeremonyView,
    voter: int,
    authority: int,
    params: SetupParamsView,
    result: KeyGenResultView,
    admin_id: int,
    now: int,
)
    requires
        c.well_formed(),
    ensures
        c.setup is Some ==> {
            &&& c.enroll_voter(voter).setup == c.setup
            &&& c.enroll_authority(authority).setup == c.setup
            &&& c.record_setup(params, admin_id, now).setup == c.setup
            &&& c.record_keygen(result, admin_id, now).setup == c.setup
        },
        c.mvk is Some ==> {
            &&& c.enroll_voter(voter).mvk == c.mvk
            &&& c.enroll_authority(authority).mvk == c.mvk
            &&& c.record_setup(params, admin_id, now).mvk == c.mvk
            &&& c.record_keygen(result, admin_id, now).mvk == c.mvk
        },
{
}

/// An authority is handed its own keys and nobody else's: what
/// `keys_of(a)` gives is the roster entry of `a`, with a share in it, and
/// an authority that is not enrolled is given nothing.
pub proof fn lemma_keys_are_the_authoritys_own(c: CeremonyView, a: int)
    requires
        c.well_formed(),
    ensures
        c.keys_of(a) matches Ok(keys) ==> {
            &&& keys.share.authority_id == a
            &&& keys.share.poll_id == c.poll.id
            &&& keys.share.sgk1 is Some
            &&& c.roster.contains(keys.share)
            &&& keys.mvk == c.mvk
        },
        !c.authority_ids().contains(a) ==> c.keys_of(a) == Err::<
            AuthorityKeysView,
            KeyAccessError,
        >(KeyAccessError::NotEnrolled),
{
    let ids = c.authority_ids();
    if ids.contains(a) {
        let p = ids.index_of(a);
        assert(c.roster[p].authority_id == a);
        assert(c.roster.contains(c.roster[p]));
    }
}

/// Before KeyGen is recorded nobody is handed keys, and after it every
/// authority that was given a share is.
pub proof fn lemma_keys_follow_keygen(
    c: CeremonyView,
    result: KeyGenResultView,
    admin_id: int,
    now: int,
    p: int,
)
    requires
        c.well_formed(),
        c.keygen_guard() is Ok,
        0 <= p < c.roster.len(),
    ensures
        c.keys_of(c.roster[p].authority_id) == Err::<AuthorityKeysView, KeyAccessError>(
            KeyAccessError::NotGenerated,
        ),
        count_below(c.authority_ids(), c.roster[p].authority_id) < result.authority_keys.len()
            ==> c.record_keygen(result, admin_id, now).keys_of(c.roster[p].authority_id) is Ok,
{
    let ids = c.authority_ids();
    let a = c.roster[p].authority_id;
    assert(ids[p] == a);
    assert(ids.index_of(a) == p);
    assert(c.roster[p].is_bare());
    let after = c.record_keygen(result, admin_id, now);
    assert(roster_ids(after.roster) =~= ids);
}

/// KeyGen is only ever planned with a threshold that can be met: at least
/// one authority, and no more than there are on the roster.
pub proof fn lemma_planned_threshold_can_be_met(c: CeremonyView)
    ensures
        c.keygen_guard() matches Ok(request) ==> {
            &&& request.authority_count == c.roster.len()
            &&& 1 <= request.threshold <= request.authority_count
        },
{
    if c.keygen_guard() is Ok {
        lemma_threshold_within_roster(c.roster.len() as int);
    }
}

} // verus!
