//! A transaction guard around a mutable value.
//!
//! [`Tx`] borrows a value exclusively. While the guard lives, the value is
//! read and edited through it, as if the guard were the value. When the
//! guard ends, the edits are undone unless [`Tx::commit`] was called.
//! [`Tx::rollback`] undoes the edits made since the last commit, or since
//! the guard was opened, and goes on from there.
//!
//! The working value is kept in the borrowed place itself, so that opening a
//! guard duplicates the value once and ending it duplicates nothing. What a
//! guard holds is described by [`TxState`], the contracts are stated over it,
//! and [`laws`] proves what follows for every use of a guard.
//!
//! The contracts also follow the borrowed place to the end of the borrow.
//! [`Tx::new`] says that what the lender finally finds is what the place
//! finally holds; each method that changes the guard says that it leaves
//! that final value as it was to be; and `drop` says what it puts in the
//! place. After `drop` the reference is gone and nothing writes there again.

use vstd::prelude::*;

pub mod laws;
pub mod model;

pub use model::TxState;

verus! {

/// A transaction guard: the borrowed place, which holds the working value;
/// the baseline; and the commit flag.
pub struct Tx<'a, T>(&'a mut T, T, bool);

impl<'a, T> Tx<'a, T> {
    /// The borrowed place, as the guard holds it. Its value now is the
    /// working value; its value at the end of the borrow is what the lender
    /// finds there once the guard is gone.
    pub closed spec fn place(&self) -> &mut T {
        self.0
    }

    /// The value that a rollback goes back to.
    pub closed spec fn baseline(&self) -> T {
        self.1
    }

    /// Whether the working value is kept when the guard ends.
    pub closed spec fn committed(&self) -> bool {
        self.2
    }
}

impl<'a, T> View for Tx<'a, T> {
    type V = TxState<T>;

    open spec fn view(&self) -> TxState<T> {
        TxState {
            scratch: *self.place(),
            baseline: self.baseline(),
            committed: self.committed(),
        }
    }
}

impl<'a, T: Clone> Tx<'a, T> {
    /// Opens a guard on `d`, with a duplicate of its value as the baseline.
    pub fn new(d: &'a mut T) -> (tx: Self)
        ensures
            tx@.opens_on(*old(d)),
            *final(d) == *final(tx.place()),
    {
        let clone = d.clone();
        Tx(d, clone, false)
    }

    /// Makes a duplicate of the working value the new baseline, and marks
    /// the working value as one to keep when the guard ends.
    pub fn commit(&mut self)
        ensures
            old(self)@.commits_to(final(self)@),
            *final(final(self).place()) == *final(old(self).place()),
    {
        self.1 = self.0.clone();
        self.2 = true;
    }

    /// Replaces the working value by a duplicate of the baseline, and so
    /// discards the edits made since the last commit, or since the guard was
    /// opened if there was none. Nothing counts as committed afterwards:
    /// the guard goes on like one just opened on the baseline.
    pub fn rollback(&mut self)
        ensures
            old(self)@.rolls_back_to(final(self)@),
            *final(final(self).place()) == *final(old(self).place()),
    {
        *self.0 = self.1.clone();
        self.2 = false;
    }
}

impl<'a, T> Tx<'a, T> {
    /// Lends the working value for editing.
    ///
    /// `BorrowMut` has a type parameter, so a method call `borrow_mut()` on a
    /// guard would fit more than one impl. With this method in place the call
    /// means this one, and the trait's method below can name its result.
    fn borrow_mut(&mut self) -> (r: &mut T)
        ensures
            *r == old(self)@.scratch,
            final(self)@.scratch == *final(r),
            old(self)@.edits_to(final(self)@),
            *final(final(self).place()) == *final(old(self).place()),
    {
        &mut *self.0
    }
}

impl<'a, T> Drop for Tx<'a, T> {
    /// Ends the guard. The borrowed place is left with the outcome: the
    /// working value if it was committed, the baseline if not.
    fn drop(&mut self)
        ensures
            *final(self).place() == old(self)@.outcome(),
            *final(final(self).place()) == *final(old(self).place()),
        opens_invariants none
        no_unwind
    {
        if !self.2 {
            std::mem::swap(&mut self.1, self.0);
        }
    }
}

impl<'a, T> std::ops::Deref for Tx<'a, T> {
    type Target = T;

    /// Reads through the guard: the working value.
    fn deref(&self) -> &T
        returns
            self@.scratch,
    {
        &*self.0
    }
}

impl<'a, T> std::ops::DerefMut for Tx<'a, T> {
    /// Writes through the guard: whatever is done to the result is done to
    /// the working value, and to nothing else.
    fn deref_mut(&mut self) -> (r: &mut T)
        ensures
            *r == old(self)@.scratch,
            final(self)@.scratch == *final(r),
            old(self)@.edits_to(final(self)@),
            *final(final(self).place()) == *final(old(self).place()),
    {
        &mut *self.0
    }
}

impl<'a, T> AsRef<T> for Tx<'a, T> {
    /// The working value.
    fn as_ref(&self) -> &T
        returns
            self@.scratch,
    {
        &*self
    }
}

impl<'a, T> std::borrow::Borrow<T> for Tx<'a, T> {
    /// The working value.
    fn borrow(&self) -> &T
        returns
            self@.scratch,
    {
        &*self
    }
}

impl<'a, T> std::borrow::BorrowMut<T> for Tx<'a, T> {
    /// The working value, for editing, as `deref_mut` gives it.
    fn borrow_mut(&mut self) -> (r: &mut T)
        ensures
            *r == old(self)@.scratch,
            final(self)@.scratch == *final(r),
            old(self)@.edits_to(final(self)@),
            *final(final(self).place()) == *final(old(self).place()),
    {
        Tx::borrow_mut(self)
    }
}

} // verus!
