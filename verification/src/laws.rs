use vstd::prelude::*;

use crate::model::{applied_after, current_of, is_max_of};

verus! {

/// Membership in the version set left by a run of applications: a version is
/// present afterward exactly when it was present initially or was applied
/// during the run.
pub proof fn lemma_applied_after_membership(init: Set<i64>, vs: Seq<i64>, v: i64)
    ensures
        applied_after(init, vs).contains(v) <==> (init.contains(v) || vs.contains(v)),
    decreases vs.len(),
{
    if vs.len() == 0 {
    } else {
        lemma_applied_after_membership(init, vs.drop_last(), v);
        if vs.contains(v) {
            let i = choose|i: int| 0 <= i < vs.len() && vs[i] == v;
            if i < vs.len() - 1 {
                assert(vs.drop_last()[i] == v);
                assert(vs.drop_last().contains(v));
            }
        }
        if vs.drop_last().contains(v) {
            let i = choose|i: int| 0 <= i < vs.drop_last().len() && vs.drop_last()[i] == v;
            assert(vs[i] == v);
        }
        if vs.last() == v {
            assert(vs[vs.len() - 1] == v);
        }
    }
}

/// After a run of successful applications of distinct versions, starting
/// from an empty store, the recorded version set is exactly the set of
/// versions applied, and the current version is their maximum.
pub proof fn lemma_apply_run_records_exactly(vs: Seq<i64>)
    requires
        forall|i: int, j: int| 0 <= i < j < vs.len() ==> vs[i] != vs[j],
    ensures
        applied_after(Set::empty(), vs) == vs.to_set(),
        forall|c: i64| #![auto]
            is_max_of(applied_after(Set::empty(), vs), c) <==> (vs.contains(c) && forall|i: int|
                0 <= i < vs.len() ==> vs[i] <= c),
{
    let s = applied_after(Set::<i64>::empty(), vs);
    assert forall|v: i64| s.contains(v) <==> vs.to_set().contains(v) by {
        lemma_applied_after_membership(Set::empty(), vs, v);
    }
    assert(s =~= vs.to_set());
    assert forall|c: i64| #![auto]
        is_max_of(s, c) <==> (vs.contains(c) && forall|i: int|
            0 <= i < vs.len() ==> vs[i] <= c) by {
        if is_max_of(s, c) {
            assert forall|i: int| 0 <= i < vs.len() implies vs[i] <= c by {
                assert(vs.contains(vs[i]));
                assert(s.contains(vs[i]));
            }
        }
        if vs.contains(c) && (forall|i: int| 0 <= i < vs.len() ==> vs[i] <= c) {
            assert(s.contains(c));
            assert forall|w: i64| s.contains(w) implies w <= c by {
                assert(vs.contains(w));
                let i = choose|i: int| 0 <= i < vs.len() && vs[i] == w;
                assert(vs[i] <= c);
            }
        }
    }
}

/// The current version of a store is determined: any two reports that both
/// describe the same version set agree, so the adapter's contract pins what
/// `current_version` returns.
pub proof fn lemma_current_version_unique(s: Set<i64>, c1: Option<i64>, c2: Option<i64>)
    requires
        current_of(s, c1),
        current_of(s, c2),
    ensures
        c1 == c2,
{
    match (c1, c2) {
        (Some(a), Some(b)) => {
            assert(a <= b && b <= a);
        }
        (Some(a), None) => {
            assert(s.contains(a));
        }
        (None, Some(b)) => {
            assert(s.contains(b));
        }
        (None, None) => {}
    }
}

/// Round trip: applying a version not yet recorded and then reverting it
/// returns the version set, and with it the current version, to its state
/// before the application.
pub proof fn lemma_apply_then_revert_round_trip(s: Set<i64>, v: i64)
    requires
        !s.contains(v),
    ensures
        s.insert(v).remove(v) == s,
        forall|c: Option<i64>| #![auto] current_of(s.insert(v).remove(v), c) <==> current_of(s, c),
{
    assert(s.insert(v).remove(v) =~= s);
}

} // verus!
