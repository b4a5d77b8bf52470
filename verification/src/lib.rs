//! A synchronisation primitive that hands out owned views of shared data.
//!
//! A [`CloneReplace`] keeps one current version of a value. Readers take
//! immutable snapshots of it that stay valid for as long as they are held.
//! A writer clones the current version into a [`MutateGuard`], edits the copy
//! in private, and the copy replaces the current version when the guard goes
//! out of scope. Writers are not serialised: the guard released last wins,
//! and an update made in between is lost without notice.
//!
//! Three things are proved here. A guard that a caller holds always has its
//! working copy, so reading and writing through it cannot panic. The
//! contracts of the handle and of the guard say which handle a guard is
//! bound to and what its working copy is. And [`protocol`] proves, for the
//! steps taken one after another, what readers see after each of them.
mod cell;
pub mod guard;
pub mod handle;
pub mod protocol;

pub use guard::MutateGuard;
pub use handle::CloneReplace;
