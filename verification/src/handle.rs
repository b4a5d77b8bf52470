//! The user-facing handle to a shared cell.
use crate::cell::SharedCell;
use crate::guard::MutateGuard;
use std::sync::Arc;
use vstd::prelude::*;

verus! {

/// A shareable store for data which provides owned references.
///
/// A `CloneReplace` keeps a reference version of the enclosed data.
/// [`access`](CloneReplace::access) gives an owned snapshot of the version
/// that is current at that moment, and the snapshot keeps that version
/// alive until it is dropped. [`mutate`](CloneReplace::mutate) gives a
/// mutable copy of it, and when that copy goes out of scope it replaces
/// whatever version is current by then.
///
/// Two handles are equal exactly when they refer to the same cell. What the
/// cell holds is no part of a handle's value: it changes under shared
/// references, and [`crate::protocol`] says how.
#[derive(Debug)]
#[verifier::reject_recursive_types(T)]
pub struct CloneReplace<T> {
    data: Arc<SharedCell<T>>,
}

impl<T> Clone for CloneReplace<T> {
    /// Another handle to the same cell. The data is not copied, so whatever
    /// is written or read through one of the two handles is written to or
    /// read from the cell of the other.
    fn clone(&self) -> (other: Self)
        ensures
            other == *self,
    {
        CloneReplace { data: self.data.clone() }
    }
}

impl<T: Default> Default for CloneReplace<T> {
    /// A new cell whose first version is the default value of `T`.
    fn default() -> (handle: Self) {
        CloneReplace::new(T::default())
    }
}

impl<T> CloneReplace<T> {
    /// Creates a new cell with `data` as its first version.
    ///
    /// The call cannot fail. What the cell holds is no part of the handle's
    /// value and may be replaced through any handle from the first moment
    /// on, so the contract promises nothing of it.
    pub fn new(data: T) -> (handle: Self) {
        CloneReplace { data: Arc::new(SharedCell::new(Arc::new(data))) }
    }

    /// Retrieves a snapshot of the current version of the data.
    ///
    /// The snapshot is owned and never changes. Holding it does not stop the
    /// cell from moving on to later versions, and readers that load the same
    /// version share one snapshot. Which version is current depends on every
    /// holder of the cell, so the contract promises nothing of the value.
    pub fn access(&self) -> (snapshot: Arc<T>) {
        self.data.load_full()
    }

    /// Installs `value` as the current version, whatever the cell holds.
    /// The version it displaces lives on in the snapshots that readers hold.
    pub(crate) fn set_value(&self, value: T)
        opens_invariants none
        no_unwind
    {
        let _displaced = self.data.swap(value);
    }
}

impl<T: Clone> CloneReplace<T> {
    /// Creates a mutable replacement for the current version.
    ///
    /// The guard holds a clone of the version that is current at the moment
    /// of the call and is bound to this handle's cell. Any number of guards
    /// may be active at once; nothing keeps a guard released later from
    /// overwriting what an earlier one installed.
    pub fn mutate(&self) -> (guard: MutateGuard<T>)
        ensures
            guard.origin() == *self,
    {
        let snapshot = self.access();
        MutateGuard::begin(self.clone(), &snapshot)
    }
}

} // verus!
