//! Ordering and selection rules over the changelog.
//!
//! Every lifecycle operation works from the full set of changelog
//! records: `up` applies them oldest-name first, `status` lists them
//! newest-name first, `down` targets the most recently applied record,
//! and `drop` targets the pending record with the highest name.

use vstd::prelude::*;
use vstd::multiset::Multiset;
use crate::ds::{Migration, MigrationStatus, record_wf};
use crate::order::{
    lex_le, lex_lt, lemma_lex_le_lt_transitive, lemma_lex_lt_irreflexive,
    lemma_lex_lt_le_transitive, lemma_lex_total, str_lt,
};

verus! {

pub open spec fn sorted_by_name_asc(s: Seq<Migration>) -> bool {
    forall|i: int, j: int|
        0 <= i < j < s.len() ==> lex_le(#[trigger] s[i].name@, #[trigger] s[j].name@)
}

pub open spec fn sorted_by_name_desc(s: Seq<Migration>) -> bool {
    forall|i: int, j: int|
        0 <= i < j < s.len() ==> lex_le(#[trigger] s[j].name@, #[trigger] s[i].name@)
}

/// Every record meets the state invariant.
pub open spec fn changelog_wf(s: Seq<Migration>) -> bool {
    forall|i: int| 0 <= i < s.len() ==> record_wf(#[trigger] s[i])
}

/// What a valid choice of `drop` looks like: a pending record whose name
/// is at least the name of every other pending record.
pub open spec fn drop_choice(s: Seq<Migration>, i: int) -> bool {
    &&& 0 <= i < s.len()
    &&& s[i].status == MigrationStatus::Pending
    &&& forall|j: int|
        0 <= j < s.len() && (#[trigger] s[j]).status == MigrationStatus::Pending ==> lex_le(
            s[j].name@,
            s[i].name@,
        )
}

/// What a valid choice of `down` looks like: an applied record whose
/// apply time is at least the apply time of every other applied record.
pub open spec fn down_choice(s: Seq<Migration>, i: int) -> bool {
    &&& 0 <= i < s.len()
    &&& s[i].status == MigrationStatus::Applied
    &&& forall|j: int|
        0 <= j < s.len() && (#[trigger] s[j]).status == MigrationStatus::Applied
            ==> s[j].applied_at->Some_0 <= s[i].applied_at->Some_0
}

proof fn lemma_insert_to_multiset(s: Seq<Migration>, i: int, m: Migration)
    requires
        0 <= i <= s.len(),
    ensures
        s.insert(i, m).to_multiset() == s.to_multiset().insert(m),
{
    broadcast use vstd::seq_lib::group_to_multiset_ensures;

    let t = s.insert(i, m);
    assert(t.remove(i) =~= s);
    assert(t[i] == m);
    assert(t.to_multiset().remove(m) =~= s.to_multiset());
    assert(t.contains(m));
    assert(t.to_multiset().count(m) > 0);
    assert(t.to_multiset() =~= s.to_multiset().insert(m));
}

/// The index at which `m` belongs in a name-sorted vector.
fn insert_position(v: &Vec<Migration>, m: &Migration) -> (i: usize)
    requires
        sorted_by_name_asc(v@),
    ensures
        i <= v@.len(),
        forall|j: int| 0 <= j < i ==> lex_le(#[trigger] v@[j].name@, m.name@),
        i < v@.len() ==> lex_lt(m.name@, v@[i as int].name@),
{
    let mut i: usize = 0;
    while i < v.len()
        invariant
            sorted_by_name_asc(v@),
            i <= v@.len(),
            forall|j: int| 0 <= j < i ==> lex_le(#[trigger] v@[j].name@, m.name@),
        decreases v@.len() - i,
    {
        if str_lt(m.name.as_str(), v[i].name.as_str()) {
            return i;
        }
        proof {
            lemma_lex_total(v@[i as int].name@, m.name@);
        }
        i = i + 1;
    }
    i
}

/// Inserts a record into a name-sorted vector, keeping it sorted.
fn insert_by_name(v: &mut Vec<Migration>, m: Migration)
    requires
        sorted_by_name_asc(old(v)@),
    ensures
        sorted_by_name_asc(final(v)@),
        final(v)@.to_multiset() == old(v)@.to_multiset().insert(m),
        final(v)@.len() == old(v)@.len() + 1,
{
    let ghost s = old(v)@;
    let ghost gm = m;
    let i = insert_position(v, &m);
    v.insert(i, m);
    proof {
        lemma_insert_to_multiset(s, i as int, gm);
        assert forall|p: int, q: int| 0 <= p < q < v@.len() implies lex_le(
            v@[p].name@,
            v@[q].name@,
        ) by {
            if q < i {
                assert(v@[p] == s[p] && v@[q] == s[q]);
            } else if p < i && q == i {
                assert(v@[p] == s[p] && v@[q] == gm);
            } else if p < i && q > i {
                assert(v@[p] == s[p] && v@[q] == s[q - 1]);
                if p == q - 1 {
                } else {
                    assert(lex_le(s[p].name@, s[q - 1].name@));
                }
            } else if p == i {
                assert(v@[p] == gm && v@[q] == s[q - 1]);
                assert(lex_lt(gm.name@, s[i as int].name@));
                if q - 1 == i {
                } else {
                    assert(lex_le(s[i as int].name@, s[q - 1].name@));
                    lemma_lex_lt_le_transitive(gm.name@, s[i as int].name@, s[q - 1].name@);
                }
            } else {
                assert(v@[p] == s[p - 1] && v@[q] == s[q - 1]);
                assert(lex_le(s[p - 1].name@, s[q - 1].name@));
            }
        }
    }
}

/// The order in which `up` walks the changelog: every record, sorted by
/// name ascending, so that units are applied oldest first.
pub fn up_order(records: Vec<Migration>) -> (r: Vec<Migration>)
    ensures
        sorted_by_name_asc(r@),
        r@.to_multiset() == records@.to_multiset(),
        r@.len() == records@.len(),
{
    let ghost all = records@.to_multiset();
    let mut v = records;
    let mut r: Vec<Migration> = Vec::new();
    proof {
        broadcast use vstd::seq_lib::group_to_multiset_ensures;
        broadcast use vstd::multiset::group_multiset_axioms;

        assert(r@.to_multiset().add(v@.to_multiset()) =~= all);
    }
    while v.len() > 0
        invariant
            sorted_by_name_asc(r@),
            r@.to_multiset().add(v@.to_multiset()) == all,
            r@.len() + v@.len() == all.len(),
        decreases v@.len(),
    {
        let ghost oldv = v@;
        let ghost oldr = r@;
        let m = v.pop().unwrap();
        proof {
            broadcast use vstd::seq_lib::group_to_multiset_ensures;
            broadcast use vstd::multiset::group_multiset_axioms;

            assert(oldv =~= v@.push(m));
            assert(v@.push(m).to_multiset() =~= v@.to_multiset().insert(m));
            assert(oldv.to_multiset() == v@.to_multiset().insert(m));
        }
        insert_by_name(&mut r, m);
        proof {
            broadcast use vstd::seq_lib::group_to_multiset_ensures;
            broadcast use vstd::multiset::group_multiset_axioms;

            assert(r@.to_multiset().add(v@.to_multiset()) =~= all);
        }
    }
    proof {
        broadcast use vstd::seq_lib::group_to_multiset_ensures;
        broadcast use vstd::multiset::group_multiset_axioms;

        assert(v@.to_multiset().len() == 0);
        assert(v@.to_multiset() =~= Multiset::<Migration>::empty());
        assert(r@.to_multiset().add(Multiset::<Migration>::empty()) =~= r@.to_multiset());
    }
    r
}

/// The order in which `status` lists the changelog: every record, sorted
/// by name descending, newest first.
pub fn status_order(records: Vec<Migration>) -> (r: Vec<Migration>)
    ensures
        sorted_by_name_desc(r@),
        r@.to_multiset() == records@.to_multiset(),
        r@.len() == records@.len(),
{
    let ghost all = records@.to_multiset();
    let mut asc = up_order(records);
    let mut r: Vec<Migration> = Vec::new();
    proof {
        broadcast use vstd::seq_lib::group_to_multiset_ensures;
        broadcast use vstd::multiset::group_multiset_axioms;

        assert(r@.to_multiset().add(asc@.to_multiset()) =~= all);
    }
    while asc.len() > 0
        invariant
            sorted_by_name_asc(asc@),
            sorted_by_name_desc(r@),
            forall|p: int, q: int|
                0 <= p < asc@.len() && 0 <= q < r@.len() ==> lex_le(
                    #[trigger] asc@[p].name@,
                    #[trigger] r@[q].name@,
                ),
            r@.to_multiset().add(asc@.to_multiset()) == all,
            r@.len() + asc@.len() == all.len(),
        decreases asc@.len(),
    {
        let ghost oldasc = asc@;
        let ghost oldr = r@;
        let m = asc.pop().unwrap();
        proof {
            broadcast use vstd::seq_lib::group_to_multiset_ensures;
            broadcast use vstd::multiset::group_multiset_axioms;

            assert(oldasc =~= asc@.push(m));
            assert(asc@.push(m).to_multiset() =~= asc@.to_multiset().insert(m));
            assert(oldasc.to_multiset() == asc@.to_multiset().insert(m));
        }
        r.push(m);
        proof {
            broadcast use vstd::seq_lib::group_to_multiset_ensures;
            broadcast use vstd::multiset::group_multiset_axioms;

            assert(r@ =~= oldr.push(m));
            assert forall|p: int, q: int|
                0 <= p < q < r@.len() implies lex_le(r@[q].name@, r@[p].name@) by {
                if q < r@.len() - 1 {
                    assert(lex_le(oldr[q].name@, oldr[p].name@));
                } else {
                    assert(r@[q] == m);
                    assert(lex_le(oldasc[oldasc.len() - 1].name@, oldr[p].name@));
                }
            }
            assert forall|p: int, q: int|
                0 <= p < asc@.len() && 0 <= q < r@.len() implies lex_le(
                    asc@[p].name@,
                    r@[q].name@,
                ) by {
                if q < r@.len() - 1 {
                    assert(lex_le(oldasc[p].name@, oldr[q].name@));
                } else {
                    assert(r@[q] == m);
                    assert(lex_le(oldasc[p].name@, oldasc[oldasc.len() - 1].name@));
                }
            }
            assert(oldr.push(m).to_multiset() =~= oldr.to_multiset().insert(m));
            assert(r@.to_multiset() == oldr.to_multiset().insert(m));
            assert(r@.to_multiset().add(asc@.to_multiset()) =~= all);
        }
    }
    proof {
        broadcast use vstd::seq_lib::group_to_multiset_ensures;
        broadcast use vstd::multiset::group_multiset_axioms;

        assert(asc@.to_multiset().len() == 0);
        assert(asc@.to_multiset() =~= Multiset::<Migration>::empty());
        assert(r@.to_multiset().add(Multiset::<Migration>::empty()) =~= r@.to_multiset());
    }
    r
}

/// The record that `down` reverts: the most recently applied one.
/// Returns its index, or `None` when no record is applied — then `down`
/// is a no-op that reports success and mutates nothing.
pub fn down_target(records: &Vec<Migration>) -> (r: Option<usize>)
    requires
        changelog_wf(records@),
    ensures
        match r {
            Some(i) => down_choice(records@, i as int),
            None => forall|j: int|
                0 <= j < records@.len() ==> (#[trigger] records@[j]).status
                    != MigrationStatus::Applied,
        },
{
    let mut best: Option<usize> = None;
    let mut i: usize = 0;
    while i < records.len()
        invariant
            changelog_wf(records@),
            i <= records@.len(),
            match best {
                Some(b) => b < i && records@[b as int].status == MigrationStatus::Applied
                    && forall|j: int|
                    0 <= j < i && (#[trigger] records@[j]).status == MigrationStatus::Applied
                        ==> records@[j].applied_at->Some_0 <= records@[
                        b as int
                    ].applied_at->Some_0,
                None => forall|j: int|
                    0 <= j < i ==> (#[trigger] records@[j]).status != MigrationStatus::Applied,
            },
        decreases records@.len() - i,
    {
        if records[i].status == MigrationStatus::Applied {
            let t = records[i].applied_at.unwrap();
            match best {
                None => {
                    best = Some(i);
                },
                Some(b) => {
                    let tb = records[b].applied_at.unwrap();
                    if t > tb {
                        best = Some(i);
                    }
                },
            }
        }
        i = i + 1;
    }
    best
}

/// The record that `drop` removes: the pending one with the highest
/// name. Returns its index, or `None` when no record is pending — then
/// `drop` is a no-op that reports success and mutates nothing.
pub fn drop_target(records: &Vec<Migration>) -> (r: Option<usize>)
    ensures
        match r {
            Some(i) => drop_choice(records@, i as int),
            None => forall|j: int|
                0 <= j < records@.len() ==> (#[trigger] records@[j]).status
                    != MigrationStatus::Pending,
        },
{
    let mut best: Option<usize> = None;
    let mut i: usize = 0;
    while i < records.len()
        invariant
            i <= records@.len(),
            match best {
                Some(b) => b < i && records@[b as int].status == MigrationStatus::Pending
                    && forall|j: int|
                    0 <= j < i && (#[trigger] records@[j]).status == MigrationStatus::Pending
                        ==> lex_le(records@[j].name@, records@[b as int].name@),
                None => forall|j: int|
                    0 <= j < i ==> (#[trigger] records@[j]).status != MigrationStatus::Pending,
            },
        decreases records@.len() - i,
    {
        if records[i].status == MigrationStatus::Pending {
            match best {
                None => {
                    best = Some(i);
                },
                Some(b) => {
                    let ghost pb = b as int;
                    if str_lt(records[b].name.as_str(), records[i].name.as_str()) {
                        best = Some(i);
                        proof {
                            assert forall|j: int|
                                0 <= j < i + 1 && (#[trigger] records@[j]).status
                                    == MigrationStatus::Pending implies lex_le(
                                records@[j].name@,
                                records@[i as int].name@,
                            ) by {
                                if j < i {
                                    lemma_lex_le_lt_transitive(
                                        records@[j].name@,
                                        records@[pb].name@,
                                        records@[i as int].name@,
                                    );
                                }
                            }
                        }
                    } else {
                        proof {
                            lemma_lex_total(records@[i as int].name@, records@[pb].name@);
                        }
                    }
                },
            }
        }
        i = i + 1;
    }
    best
}

/// Law: the record state invariant — applied exactly when the apply
/// timestamp is set — holds of every record in a changelog that gains a
/// well-formed record.
pub proof fn lemma_push_preserves_wf(s: Seq<Migration>, m: Migration)
    requires
        changelog_wf(s),
        record_wf(m),
    ensures
        changelog_wf(s.push(m)),
{
    assert forall|i: int| 0 <= i < s.push(m).len() implies record_wf(#[trigger] s.push(m)[i]) by {
        if i < s.len() {
            assert(s.push(m)[i] == s[i]);
        }
    }
}

/// Law: the record state invariant holds of every record in a changelog
/// whose update writes back a well-formed record.
pub proof fn lemma_update_preserves_wf(s: Seq<Migration>, i: int, m: Migration)
    requires
        changelog_wf(s),
        record_wf(m),
        0 <= i < s.len(),
    ensures
        changelog_wf(s.update(i, m)),
{
    assert forall|j: int| 0 <= j < s.update(i, m).len() implies record_wf(
        #[trigger] s.update(i, m)[j],
    ) by {
        if j != i {
            assert(s.update(i, m)[j] == s[j]);
        }
    }
}

/// Law: units are applied oldest first. In the apply order, the record
/// with the earlier (smaller) name stands strictly before the later one.
pub proof fn lemma_up_order_earlier_first(r: Seq<Migration>, i: int, j: int)
    requires
        sorted_by_name_asc(r),
        0 <= i < r.len(),
        0 <= j < r.len(),
        lex_lt(r[i].name@, r[j].name@),
    ensures
        i < j,
{
    if i == j {
        lemma_lex_lt_irreflexive(r[i].name@);
    } else if j < i {
        assert(lex_le(r[j].name@, r[i].name@));
        lemma_lex_lt_le_transitive(r[i].name@, r[j].name@, r[i].name@);
        lemma_lex_lt_irreflexive(r[i].name@);
    }
}

/// Law: a record created after every existing one and dropped at once is
/// exactly the record that `drop` selects; removing it returns the
/// changelog to its prior state, its count unchanged.
pub proof fn lemma_create_then_drop(s: Seq<Migration>, m: Migration, i: int)
    requires
        m.status == MigrationStatus::Pending,
        forall|k: int| 0 <= k < s.len() ==> lex_lt((#[trigger] s[k]).name@, m.name@),
        drop_choice(s.push(m), i),
    ensures
        i == s.len(),
        s.push(m)[i] == m,
        s.push(m).remove(i) =~= s,
        s.push(m).remove(i).len() == s.len(),
{
    if i < s.len() {
        assert(s.push(m)[s.len() as int] == m);
        assert(s.push(m)[i] == s[i]);
        assert(lex_le(m.name@, s[i].name@));
        assert(lex_lt(s[i].name@, m.name@));
        lemma_lex_lt_le_transitive(s[i].name@, m.name@, s[i].name@);
        lemma_lex_lt_irreflexive(s[i].name@);
    }
    assert(s.push(m).remove(s.len() as int) =~= s);
}

} // verus!
