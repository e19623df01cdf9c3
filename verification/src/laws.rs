//! What holds of every use of a guard, proved from the steps of the model.
//!
//! The opening of a guard, a commit and a rollback are single steps; what
//! happens between them is a trace of states (see [`edit_trace`] and
//! [`commit_free_trace`]). Where a law speaks of a value that went through
//! two duplications, it names both, and adds that the two ends are equal for
//! a type whose duplicates are exact.

use crate::model::{clone_is_exact, commit_free_trace, edit_trace, TxState};
use vstd::prelude::*;

verus! {

/// However many edits are made, each state of the run differs from the first
/// by an edit at most.
pub proof fn edits_compose<T>(trace: Seq<TxState<T>>, i: int)
    requires
        edit_trace(trace),
        0 <= i < trace.len(),
    ensures
        trace[0].edits_to(trace[i]),
    decreases i,
{
    if i > 0 {
        edits_compose(trace, i - 1);
        assert(trace[i - 1].edits_to(trace[i]));
    }
}

/// Only a commit moves the baseline, and only a commit sets the flag: in a
/// run without one, each state has the baseline of the first, and is
/// committed only if the first was.
pub proof fn baseline_stays_without_commit<T: Clone>(trace: Seq<TxState<T>>, i: int)
    requires
        commit_free_trace(trace),
        0 <= i < trace.len(),
    ensures
        trace[i].baseline == trace[0].baseline,
        trace[i].committed ==> trace[0].committed,
    decreases i,
{
    if i > 0 {
        baseline_stays_without_commit(trace, i - 1);
        assert(trace[i - 1].edits_to(trace[i]) || trace[i - 1].rolls_back_to(trace[i]));
    }
}

/// A guard that is never committed reverts. Opened on `value` and ended
/// after any run of edits and rollbacks, it leaves the borrowed place with
/// the baseline it took at the opening: a duplicate of `value`.
pub proof fn drop_without_commit_reverts<T: Clone>(value: T, trace: Seq<TxState<T>>)
    requires
        trace.len() > 0,
        trace[0].opens_on(value),
        commit_free_trace(trace),
    ensures
        trace.last().outcome() == trace[0].baseline,
        cloned(value, trace.last().outcome()),
        clone_is_exact::<T>() ==> trace.last().outcome() == value,
{
    baseline_stays_without_commit(trace, trace.len() - 1);
}

/// A guard that ends right after a commit leaves the borrowed place with
/// the working value as it stood at the commit, whatever led up to it.
pub proof fn commit_then_drop_keeps<T: Clone>(before: TxState<T>, after: TxState<T>)
    requires
        before.commits_to(after),
    ensures
        after.outcome() == before.scratch,
{
}

/// Edits made after a commit are kept as well. A guard that is committed,
/// then edited any number of times, and then ends, leaves the borrowed place
/// with the working value as it stands at the end.
pub proof fn edits_after_commit_survive_drop<T: Clone>(before: TxState<T>, trace: Seq<TxState<T>>)
    requires
        trace.len() > 0,
        before.commits_to(trace[0]),
        edit_trace(trace),
    ensures
        trace.last().outcome() == trace.last().scratch,
{
    edits_compose(trace, trace.len() - 1);
}

/// A rollback discards what was done since the last commit, and nothing
/// that was done before it. After a commit, any run without another commit,
/// and a rollback, the working value is a duplicate of the baseline, which is
/// a duplicate of the working value at the commit.
pub proof fn rollback_discards_edits_since_commit<T: Clone>(
    before: TxState<T>,
    trace: Seq<TxState<T>>,
    after: TxState<T>,
)
    requires
        trace.len() > 0,
        before.commits_to(trace[0]),
        commit_free_trace(trace),
        trace.last().rolls_back_to(after),
    ensures
        cloned(before.scratch, after.baseline),
        cloned(after.baseline, after.scratch),
        clone_is_exact::<T>() ==> after.scratch == before.scratch,
        !after.committed,
{
    baseline_stays_without_commit(trace, trace.len() - 1);
}

/// Without a commit, a rollback goes back to the opening. After any run
/// without a commit and a rollback, the working value is a duplicate of the
/// baseline, which is a duplicate of the value the guard was opened on.
pub proof fn rollback_without_commit_restores_initial<T: Clone>(
    value: T,
    trace: Seq<TxState<T>>,
    after: TxState<T>,
)
    requires
        trace.len() > 0,
        trace[0].opens_on(value),
        commit_free_trace(trace),
        trace.last().rolls_back_to(after),
    ensures
        cloned(value, after.baseline),
        cloned(after.baseline, after.scratch),
        clone_is_exact::<T>() ==> after.scratch == value,
        !after.committed,
{
    baseline_stays_without_commit(trace, trace.len() - 1);
}

/// A rollback right after a commit changes nothing that can be seen: the
/// working value is a duplicate of the baseline, which is a duplicate of the
/// working value before the two calls.
pub proof fn rollback_after_commit_is_noop<T: Clone>(
    before: TxState<T>,
    committed: TxState<T>,
    after: TxState<T>,
)
    requires
        before.commits_to(committed),
        committed.rolls_back_to(after),
    ensures
        cloned(before.scratch, after.baseline),
        cloned(after.baseline, after.scratch),
        clone_is_exact::<T>() ==> after.scratch == before.scratch,
{
}

} // verus!
