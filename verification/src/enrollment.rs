//! Bulk enrolment: a file of records, each of which names a principal to be
//! stored, if it is not stored yet, and put on a poll's roster.
//!
//! Rows stand or fall alone. A row that cannot be read, or whose principal
//! the store refuses, is skipped; the rows after it are processed all the
//! same, and the report says how many rows there were and how many made it.

use crate::ceremony::{Ceremony, CeremonyView};
use crate::principal::{Authority, AuthorityView, PrincipalView, Voter};
use crate::threshold::threshold_for;
use vstd::prelude::*;

verus! {

/// One row of a voters file.
#[derive(Debug)]
pub struct VoterRecord {
    pub tc: String,
    pub email: String,
    pub phone: String,
}

/// One row of an authorities file.
#[derive(Debug)]
pub struct AuthorityRecord {
    pub tc: String,
    pub email: String,
    pub phone: String,
    pub name: String,
}

impl Voter {
    /// The voter that a row stands for. The email address is the key: if
    /// a voter with the row's address is stored already (`existing`), that
    /// voter stands as it is, and else the row is registered under `new_id`.
    pub fn upsert(existing: Option<Voter>, new_id: i32, record: &VoterRecord) -> (voter: Voter)
        ensures
            voter@ == match existing {
                Some(v) => v@,
                None => PrincipalView::registered(
                    new_id as int,
                    record.tc@,
                    record.email@,
                    record.phone@,
                ),
            },
    {
        match existing {
            Some(v) => v,
            None => Voter::register(
                new_id,
                record.tc.as_str(),
                record.email.clone(),
                record.phone.as_str(),
            ),
        }
    }
}

impl Authority {
    /// The authority that a row stands for. The email address is the key:
    /// if an authority with the row's address is stored already
    /// (`existing`), it takes the row's name and is otherwise left as it is,
    /// and else the row is registered under `new_id`.
    pub fn upsert(existing: Option<Authority>, new_id: i32, record: &AuthorityRecord) -> (authority:
        Authority)
        ensures
            authority@ == match existing {
                Some(a) => AuthorityView { name: record.name@, ..a@ },
                None => AuthorityView::registered(
                    new_id as int,
                    record.tc@,
                    record.email@,
                    record.phone@,
                    record.name@,
                ),
            },
    {
        match existing {
            Some(a) => Authority {
                id: a.id,
                email: a.email,
                name: record.name.clone(),
                tc_hash: a.tc_hash,
                phone_hash: a.phone_hash,
            },
            None => Authority::register(
                new_id,
                record.tc.as_str(),
                record.email.clone(),
                record.phone.as_str(),
                record.name.clone(),
            ),
        }
    }
}

/// What came of a batch of voter rows.
#[derive(Debug, Clone, Copy, PartialEq, Eq, Structural)]
pub struct EnrollmentReport {
    /// How many rows the file held.
    pub total_in_file: usize,
    /// How many of them ended with their principal on the roster.
    pub added_to_poll: usize,
}

/// What came of a batch of authority rows.
#[derive(Debug, Clone, Copy, PartialEq, Eq, Structural)]
pub struct AuthorityEnrollmentReport {
    /// How many rows the file held.
    pub total_in_file: usize,
    /// How many of them ended with their authority on the roster.
    pub added_to_poll: usize,
    /// How many authorities the roster holds now.
    pub total_authorities: usize,
    /// The threshold that follows from that.
    pub threshold: i32,
}

/// The ids of a batch of rows, as mathematical integers: `None` stands for
/// a row that was skipped.
pub open spec fn rows_view(rows: Seq<Option<i32>>) -> Seq<Option<int>> {
    Seq::new(
        rows.len(),
        |i: int|
            match rows[i] {
                Some(id) => Some(id as int),
                None => None,
            },
    )
}

/// How many rows were not skipped.
pub open spec fn count_stored(rows: Seq<Option<int>>) -> nat
    decreases rows.len(),
{
    if rows.len() == 0 {
        0
    } else {
        count_stored(rows.drop_last()) + if rows.last() is Some {
            1nat
        } else {
            0nat
        }
    }
}

/// The poll after the voters of a batch were enrolled, row by row.
pub open spec fn voters_enrolled(c: CeremonyView, rows: Seq<Option<int>>) -> CeremonyView
    decreases rows.len(),
{
    if rows.len() == 0 {
        c
    } else {
        let before = voters_enrolled(c, rows.drop_last());
        match rows.last() {
            Some(id) => before.enroll_voter(id),
            None => before,
        }
    }
}

/// The poll after the authorities of a batch were enrolled, row by row.
pub open spec fn authorities_enrolled(c: CeremonyView, rows: Seq<Option<int>>) -> CeremonyView
    decreases rows.len(),
{
    if rows.len() == 0 {
        c
    } else {
        let before = authorities_enrolled(c, rows.drop_last());
        match rows.last() {
            Some(id) => before.enroll_authority(id),
            None => before,
        }
    }
}

/// How many rows of a batch ended with their authority on the roster: the
/// rows that were not skipped, but for those that found the roster full.
pub open spec fn count_on_roster(c: CeremonyView, rows: Seq<Option<int>>) -> nat
    decreases rows.len(),
{
    if rows.len() == 0 {
        0
    } else {
        count_on_roster(c, rows.drop_last()) + match rows.last() {
            Some(id) => if authorities_enrolled(c, rows).authority_ids().contains(id) {
                1nat
            } else {
                0nat
            },
            None => 0nat,
        }
    }
}

/// Enrols the voters of a batch on the poll. `rows` holds, for each row of
/// the file in order, the id under which the row's voter is stored, or
/// `None` if the row could not be read or stored. Enrolling is idempotent:
/// a voter named twice, or enrolled before, is on the roster once.
pub fn enroll_voters(ceremony: &mut Ceremony, rows: &Vec<Option<i32>>) -> (report: EnrollmentReport)
    requires
        old(ceremony)@.well_formed(),
    ensures
        final(ceremony)@ == voters_enrolled(old(ceremony)@, rows_view(rows@)),
        final(ceremony)@.well_formed(),
        report.total_in_file == rows.len(),
        report.added_to_poll == count_stored(rows_view(rows@)),
{
    let mut added: usize = 0;
    let mut i: usize = 0;
    while i < rows.len()
        invariant
            i <= rows.len(),
            added <= i,
            ceremony@.well_formed(),
            ceremony@ == voters_enrolled(old(ceremony)@, rows_view(rows@).take(i as int)),
            added == count_stored(rows_view(rows@).take(i as int)),
        decreases rows.len() - i,
    {
        assert(rows_view(rows@).take(i + 1).drop_last() =~= rows_view(rows@).take(i as int));
        match rows[i] {
            Some(id) => {
                ceremony.enroll_voter(id);
                added += 1;
            },
            None => {},
        }
        i += 1;
    }
    assert(rows_view(rows@).take(i as int) =~= rows_view(rows@));
    EnrollmentReport { total_in_file: rows.len(), added_to_poll: added }
}

/// Enrols the authorities of a batch on the poll, and says how large the
/// roster is now and what threshold follows. `rows` holds, for each row of
/// the file in order, the id under which the row's authority is stored, or
/// `None` if the row could not be read or stored. Enrolling is idempotent:
/// an authority named twice, or enrolled before, is on the roster once.
pub fn enroll_authorities(ceremony: &mut Ceremony, rows: &Vec<Option<i32>>) -> (report:
    AuthorityEnrollmentReport)
    requires
        old(ceremony)@.well_formed(),
    ensures
        final(ceremony)@ == authorities_enrolled(old(ceremony)@, rows_view(rows@)),
        final(ceremony)@.well_formed(),
        report.total_in_file == rows.len(),
        report.added_to_poll == count_on_roster(old(ceremony)@, rows_view(rows@)),
        report.total_authorities == final(ceremony)@.roster.len(),
        report.threshold == threshold_for(final(ceremony)@.roster.len() as int),
{
    let mut added: usize = 0;
    let mut i: usize = 0;
    while i < rows.len()
        invariant
            i <= rows.len(),
            added <= i,
            ceremony@.well_formed(),
            ceremony@ == authorities_enrolled(old(ceremony)@, rows_view(rows@).take(i as int)),
            added == count_on_roster(old(ceremony)@, rows_view(rows@).take(i as int)),
        decreases rows.len() - i,
    {
        assert(rows_view(rows@).take(i + 1).drop_last() =~= rows_view(rows@).take(i as int));
        match rows[i] {
            Some(id) => {
                ceremony.enroll_authority(id);
                match ceremony.roster_position(id) {
                    Some(p) => {
                        assert(ceremony@.authority_ids()[p as int] == id as int);
                        added += 1;
                    },
                    None => {},
                }
            },
            None => {},
        }
        i += 1;
    }
    assert(rows_view(rows@).take(i as int) =~= rows_view(rows@));
    let details = ceremony.details();
    AuthorityEnrollmentReport {
        total_in_file: rows.len(),
        added_to_poll: added,
        total_authorities: details.authority_count,
        threshold: details.threshold,
    }
}

/// Enrolling a voter twice is enrolling it once, and an enrolled voter is
/// on the roster.
pub proof fn lemma_enrolled_voter_stays(c: CeremonyView, v: int)
    ensures
        c.enroll_voter(v).voters.contains(v),
        c.enroll_voter(v).enroll_voter(v) == c.enroll_voter(v),
{
    let once = c.enroll_voter(v);
    if !c.voters.contains(v) {
        assert(once.voters[once.voters.len() - 1] == v);
    }
}

/// Enrolling an authority twice is enrolling it once, and an authority that
/// was added is on the roster, without a share.
pub proof fn lemma_enrolled_authority_stays(c: CeremonyView, a: int)
    ensures
        c.enroll_authority(a).enroll_authority(a) == c.enroll_authority(a),
        c.can_enroll_authority(a) ==> c.enroll_authority(a).entry_of(a) is Some,
{
    let once = c.enroll_authority(a);
    if c.can_enroll_authority(a) {
        assert(once.authority_ids()[once.roster.len() - 1] == a);
    }
}

/// Who is enrolled stays enrolled through a batch, and every voter that a
/// batch names is enrolled after it.
proof fn lemma_voters_after_batch(c: CeremonyView, rows: Seq<Option<int>>)
    ensures
        forall|v: int| c.voters.contains(v) ==> voters_enrolled(c, rows).voters.contains(v),
        forall|i: int|
            0 <= i < rows.len() && rows[i] is Some ==> voters_enrolled(c, rows).voters.contains(
                (#[trigger] rows[i])->0,
            ),
    decreases rows.len(),
{
    if rows.len() > 0 {
        let init = rows.drop_last();
        let before = voters_enrolled(c, init);
        let after = voters_enrolled(c, rows);
        lemma_voters_after_batch(c, init);
        assert forall|v: int| before.voters.contains(v) implies after.voters.contains(v) by {
            let k = choose|k: int| 0 <= k < before.voters.len() && before.voters[k] == v;
            assert(after.voters[k] == v);
        }
        if let Some(last) = rows.last() {
            lemma_enrolled_voter_stays(before, last);
        }
        assert forall|i: int| 0 <= i < rows.len() && rows[i] is Some implies after.voters.contains(
            (#[trigger] rows[i])->0,
        ) by {
            if i < init.len() {
                assert(init[i] == rows[i]);
            }
        }
    }
}

/// A batch that names enrolled voters only changes nothing.
proof fn lemma_batch_of_enrolled_voters(c: CeremonyView, rows: Seq<Option<int>>)
    requires
        forall|i: int|
            0 <= i < rows.len() && rows[i] is Some ==> c.voters.contains((#[trigger] rows[i])->0),
    ensures
        voters_enrolled(c, rows) == c,
    decreases rows.len(),
{
    if rows.len() > 0 {
        let init = rows.drop_last();
        assert forall|i: int| 0 <= i < init.len() && init[i] is Some implies c.voters.contains(
            (#[trigger] init[i])->0,
        ) by {
            assert(init[i] == rows[i]);
        }
        lemma_batch_of_enrolled_voters(c, init);
        assert(rows[rows.len() - 1] == rows.last());
    }
}

/// Bulk enrolment of voters is idempotent: a batch that is run a second
/// time changes nothing.
pub proof fn lemma_voter_batch_is_idempotent(c: CeremonyView, rows: Seq<Option<int>>)
    ensures
        voters_enrolled(voters_enrolled(c, rows), rows) == voters_enrolled(c, rows),
{
    lemma_voters_after_batch(c, rows);
    lemma_batch_of_enrolled_voters(voters_enrolled(c, rows), rows);
}

/// Who is on the roster stays on it through a batch, the roster never
/// shrinks, and every authority that a batch names is on the roster after
/// it unless the roster is full.
proof fn lemma_authorities_after_batch(c: CeremonyView, rows: Seq<Option<int>>)
    ensures
        forall|a: int|
            c.authority_ids().contains(a) ==> authorities_enrolled(
                c,
                rows,
            ).authority_ids().contains(a),
        c.roster.len() <= authorities_enrolled(c, rows).roster.len(),
        forall|i: int|
            0 <= i < rows.len() && rows[i] is Some ==> !authorities_enrolled(
                c,
                rows,
            ).can_enroll_authority((#[trigger] rows[i])->0),
    decreases rows.len(),
{
    if rows.len() > 0 {
        let init = rows.drop_last();
        let before = authorities_enrolled(c, init);
        let after = authorities_enrolled(c, rows);
        lemma_authorities_after_batch(c, init);
        assert forall|a: int| before.authority_ids().contains(a) implies after.authority_ids(
        ).contains(a) by {
            let k = choose|k: int|
                0 <= k < before.authority_ids().len() && before.authority_ids()[k] == a;
            assert(after.authority_ids()[k] == a);
        }
        if let Some(last) = rows.last() {
            if before.can_enroll_authority(last) {
                assert(after.authority_ids()[after.roster.len() - 1] == last);
            }
        }
        assert forall|i: int| 0 <= i < rows.len() && rows[i] is Some implies !after.can_enroll_authority(
            (#[trigger] rows[i])->0,
        ) by {
            if i < init.len() {
                assert(init[i] == rows[i]);
            }
        }
    }
}

/// A batch that names only authorities that cannot be added changes
/// nothing.
proof fn lemma_batch_of_enrolled_authorities(c: CeremonyView, rows: Seq<Option<int>>)
    requires
        forall|i: int|
            0 <= i < rows.len() && rows[i] is Some ==> !c.can_enroll_authority(
                (#[trigger] rows[i])->0,
            ),
    ensures
        authorities_enrolled(c, rows) == c,
    decreases rows.len(),
{
    if rows.len() > 0 {
        let init = rows.drop_last();
        assert forall|i: int| 0 <= i < init.len() && init[i] is Some implies !c.can_enroll_authority(
            (#[trigger] init[i])->0,
        ) by {
            assert(init[i] == rows[i]);
        }
        lemma_batch_of_enrolled_authorities(c, init);
        assert(rows[rows.len() - 1] == rows.last());
    }
}

/// Bulk enrolment of authorities is idempotent: a batch that is run a
/// second time changes nothing.
pub proof fn lemma_authority_batch_is_idempotent(c: CeremonyView, rows: Seq<Option<int>>)
    ensures
        authorities_enrolled(authorities_enrolled(c, rows), rows) == authorities_enrolled(c, rows),
{
    lemma_authorities_after_batch(c, rows);
    lemma_batch_of_enrolled_authorities(authorities_enrolled(c, rows), rows);
}

} // verus!
