use vstd::prelude::*;

verus! {

/// The abstract state of one adapter's bookkeeping store.
///
/// `rows` is the committed content of the bookkeeping table: the set of
/// migration versions whose `up` transaction has committed and has not since
/// been reverted. `pending` is the content as seen from inside an open
/// transaction; whenever no transaction is open it coincides with `rows`.
pub struct StoreState {
    /// The bookkeeping table exists: schema setup has succeeded.
    pub ready: bool,
    /// A transaction is open on the connection.
    pub open: bool,
    /// The committed set of applied versions.
    pub rows: Set<i64>,
    /// The set of applied versions as seen inside the open transaction.
    pub pending: Set<i64>,
}

/// `v` is the greatest element of `s`.
pub open spec fn is_max_of(s: Set<i64>, v: i64) -> bool {
    s.contains(v) && forall|w: i64| s.contains(w) ==> w <= v
}

/// `c` reports the current version of the store `s`: the greatest applied
/// version, or `None` when no version has been applied.
pub open spec fn current_of(s: Set<i64>, c: Option<i64>) -> bool {
    match c {
        Some(v) => is_max_of(s, v),
        None => s == Set::<i64>::empty(),
    }
}

/// The version set after a run of successful applications of the versions
/// `vs`, in order, starting from the set `init`.
pub open spec fn applied_after(init: Set<i64>, vs: Seq<i64>) -> Set<i64>
    decreases vs.len(),
{
    if vs.len() == 0 {
        init
    } else {
        applied_after(init, vs.drop_last()).insert(vs.last())
    }
}

} // verus!
