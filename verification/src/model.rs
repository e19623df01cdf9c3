//! The state of a guard as plain values, and the steps that change it.
//!
//! Duplicating a value is `Clone::clone`, of which nothing is known for an
//! arbitrary type but that it relates a value to its duplicate. The steps are
//! therefore relations between a state and the next one, stated with
//! `cloned`, rather than functions.

use vstd::prelude::*;

verus! {

/// What a guard holds at one moment.
pub struct TxState<T> {
    /// The working value: what every read and write through the guard sees.
    pub scratch: T,
    /// The value that a rollback goes back to: a duplicate of the working
    /// value as it stood at the last commit, or when the guard was opened.
    pub baseline: T,
    /// Whether the working value is kept when the guard ends.
    pub committed: bool,
}

impl<T> TxState<T> {
    /// The value that the borrowed place holds once a guard in this state
    /// has ended: the working value if committed, the baseline if not.
    pub open spec fn outcome(self) -> T {
        if self.committed {
            self.scratch
        } else {
            self.baseline
        }
    }

    /// `next` differs from this state by an edit of the working value at
    /// most: baseline and flag are untouched.
    pub open spec fn edits_to(self, next: Self) -> bool {
        &&& next.baseline == self.baseline
        &&& next.committed == self.committed
    }
}

impl<T: Clone> TxState<T> {
    /// This is the state of a guard just opened on `value`: the working value
    /// is `value` itself, the baseline a duplicate of it, nothing committed.
    pub open spec fn opens_on(self, value: T) -> bool {
        &&& self.scratch == value
        &&& cloned(value, self.baseline)
        &&& !self.committed
    }

    /// `next` follows from this state by a commit: the baseline becomes a
    /// duplicate of the working value, which stays, and the flag is set.
    pub open spec fn commits_to(self, next: Self) -> bool {
        &&& next.scratch == self.scratch
        &&& cloned(self.scratch, next.baseline)
        &&& next.committed
    }

    /// `next` follows from this state by a rollback: the working value
    /// becomes a duplicate of the baseline, which stays, and the flag is
    /// cleared.
    pub open spec fn rolls_back_to(self, next: Self) -> bool {
        &&& cloned(self.baseline, next.scratch)
        &&& next.baseline == self.baseline
        &&& !next.committed
    }
}

/// A run of edits: each state of `trace` follows from the one before it by
/// an edit of the working value. A trace of one state is a run of no step.
pub open spec fn edit_trace<T>(trace: Seq<TxState<T>>) -> bool {
    forall|i: int| 0 <= i < trace.len() - 1 ==> (#[trigger] trace[i]).edits_to(trace[i + 1])
}

/// A run without a commit: each state of `trace` follows from the one before
/// it by an edit or by a rollback. Every run of edits is such a run.
pub open spec fn commit_free_trace<T: Clone>(trace: Seq<TxState<T>>) -> bool {
    forall|i: int|
        0 <= i < trace.len() - 1 ==> {
            ||| (#[trigger] trace[i]).edits_to(trace[i + 1])
            ||| trace[i].rolls_back_to(trace[i + 1])
        }
}

/// Duplicating a `T` always gives a value equal to the one duplicated.
pub open spec fn clone_is_exact<T: Clone>() -> bool {
    forall|a: T, b: T| #[trigger] cloned(a, b) ==> a == b
}

} // verus!
