//! The mutation guard: a private working copy that is written back once.
use crate::handle::CloneReplace;
use vstd::prelude::*;

verus! {

/// Moves the value out of `slot` and leaves the slot empty.
fn take_owed<T>(slot: &mut Option<T>) -> (owed: Option<T>)
    ensures
        owed == *old(slot),
        *final(slot) is None,
    opens_invariants none
    no_unwind
{
    let mut owed: Option<T> = None;
    core::mem::swap(slot, &mut owed);
    owed
}

/// Exclusive access to the value in a slot that holds one.
fn working_copy<T>(slot: &mut Option<T>) -> (value: &mut T)
    requires
        *old(slot) is Some,
    ensures
        *value == old(slot)->0,
        *final(slot) == Some(*final(value)),
    no_unwind
{
    match slot {
        Some(value) => value,
        None => vstd::pervasive::unreached(),
    }
}

/// A write that has not reached its cell yet.
///
/// `data` is the value to install. It is `None` once the write has been
/// carried out or called off. Dropping a `Writeback` settles it, on every
/// path out of the scope that owns it.
#[verifier::reject_recursive_types(T)]
struct Writeback<T> {
    origin: CloneReplace<T>,
    data: Option<T>,
}

impl<T> Writeback<T> {
    /// Calls the write off: the value is dropped and nothing is owed.
    fn cancel(&mut self)
        ensures
            final(self).data is None,
            final(self).origin == old(self).origin,
    {
        self.data = None;
    }

    /// Installs the value in the cell of `origin` if one is still owed, and
    /// leaves nothing owed: settling again installs nothing.
    fn settle(&mut self)
        ensures
            final(self).data is None,
            final(self).origin == old(self).origin,
        opens_invariants none
        no_unwind
    {
        match take_owed(&mut self.data) {
            Some(value) => self.origin.set_value(value),
            None => {},
        }
    }
}

impl<T> Drop for Writeback<T> {
    fn drop(&mut self)
        opens_invariants none
        no_unwind
    {
        self.settle();
    }
}

/// A handle to a writeable version of the data.
///
/// A guard is created by [`CloneReplace::mutate`]. It owns its working copy,
/// which is reached by dereferencing the guard and which nobody else can
/// see. When the guard goes out of scope, the working copy becomes the
/// current version of the cell; versions installed since the guard was
/// created are overwritten. [`discard`](MutateGuard::discard) gives the
/// write up instead.
#[verifier::reject_recursive_types(T)]
pub struct MutateGuard<T> {
    pending: Writeback<T>,
}

impl<T> MutateGuard<T> {
    /// A guard that anyone holds still owes its write, so its working copy
    /// is there. Resolving a guard consumes it.
    #[verifier::type_invariant]
    spec fn active(&self) -> bool {
        self.pending.data is Some
    }

    /// The working copy.
    pub closed spec fn view(&self) -> T {
        self.pending.data->0
    }

    /// The handle to the cell that receives the working copy.
    pub closed spec fn origin(&self) -> CloneReplace<T> {
        self.pending.origin
    }

    /// A guard bound to `origin` whose working copy is a clone of
    /// `snapshot`.
    pub fn begin(origin: CloneReplace<T>, snapshot: &T) -> (guard: Self) where T: Clone
        ensures
            cloned(*snapshot, guard@),
            guard.origin() == origin,
    {
        MutateGuard { pending: Writeback { origin, data: Some(snapshot.clone()) } }
    }

    /// Discards the changes made through this guard.
    ///
    /// The working copy is dropped at once and is not written back. Without
    /// this call the changes are always committed when the guard goes out of
    /// scope.
    pub fn discard(self) {
        let MutateGuard { pending } = self;
        let mut pending = pending;
        pending.cancel();
    }
}

impl<T> core::ops::Deref for MutateGuard<T> {
    type Target = T;

    fn deref(&self) -> (value: &T)
        ensures
            *value == self@,
    {
        proof {
            use_type_invariant(self);
        }
        match &self.pending.data {
            Some(value) => value,
            None => vstd::pervasive::unreached(),
        }
    }
}

impl<T> core::ops::DerefMut for MutateGuard<T> {
    /// Writing through the reference changes the working copy and nothing
    /// else: the guard stays bound to the same cell, and the cell is not
    /// touched.
    fn deref_mut(&mut self) -> (value: &mut T)
        ensures
            *value == old(self)@,
            final(self)@ == *final(value),
            final(self).origin() == old(self).origin(),
    {
        proof {
            use_type_invariant(&*self);
        }
        working_copy(&mut self.pending.data)
    }
}

} // verus!
