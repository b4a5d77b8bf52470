//! The atomically replaceable slot behind every handle.
//!
//! The slot is an `arc_swap::ArcSwap`. It is changed through shared
//! references, possibly by other threads, so no contract in this module says
//! what a slot holds: that part of the behaviour is taken on trust from
//! `arc_swap`.
use arc_swap::ArcSwap;
use std::sync::Arc;
use vstd::prelude::*;

verus! {

/// One shared slot holding the current version of a `T`.
///
/// Verus does not look inside. `ArcSwap<T>` names the default protection
/// strategy of `arc_swap`, which is built from types that the crate keeps
/// private, so the slot is held in this opaque struct.
#[derive(Debug)]
#[verifier::external_body]
#[verifier::reject_recursive_types(T)]
pub struct SharedCell<T> {
    slot: ArcSwap<T>,
}

impl<T> SharedCell<T> {
    /// `ArcSwapAny::new`: a fresh slot with `first` as its first version.
    #[verifier::external_body]
    pub(crate) fn new(first: Arc<T>) -> (cell: Self) {
        SharedCell { slot: ArcSwap::new(first) }
    }

    /// `ArcSwapAny::load_full`: one atomic load of the version that is
    /// current at the moment of the call. Any holder of the slot may have
    /// replaced the version since an earlier call, so nothing is promised of
    /// the result.
    #[verifier::external_body]
    pub(crate) fn load_full(&self) -> (current: Arc<T>) {
        self.slot.load_full()
    }

    /// `ArcSwapAny::swap`: one atomic exchange that installs `next` and hands
    /// back the version it displaced, whichever that was. The contract
    /// claims only that the exchange does not unwind: `arc_swap` documents
    /// no panic for it, and the displaced version is passed on to the
    /// caller untouched.
    #[verifier::external_body]
    pub(crate) fn swap(&self, next: T) -> (previous: Arc<T>)
        opens_invariants none
        no_unwind
    {
        self.slot.swap(Arc::new(next))
    }
}

} // verus!
