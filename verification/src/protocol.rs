//! The protocol between guards and their cell, step by step.
//!
//! The cell is changed through shared references, which Verus does not
//! follow, so the contracts in `handle` and `guard` speak only of the handle
//! and of the working copy. This module states on plain values what the
//! steps of the protocol do to the current version when they are taken one
//! after another, and proves the properties that users of the primitive rely
//! on. A guard is named by an integer; its working copy is the value that
//! the guard's view gives.
use vstd::prelude::*;

verus! {

/// One cell and the guards taken from it.
pub struct Store<T> {
    /// Every version installed so far, oldest first.
    pub versions: Seq<T>,
    /// The working copy of each guard that is still active.
    pub working: Map<int, T>,
}

/// One step of the protocol.
pub enum Step<T> {
    /// `mutate`: a new guard starts from the current version.
    Begin { guard: int },
    /// A write through the guard's exclusive access.
    Edit { guard: int, value: T },
    /// The guard goes out of scope.
    Commit { guard: int },
    /// `discard`.
    Discard { guard: int },
}

impl<T> Step<T> {
    /// Whether the step may install a version.
    pub open spec fn writes_back(self) -> bool {
        self is Commit
    }
}

impl<T> Store<T> {
    /// A cell always holds a version.
    pub open spec fn wf(self) -> bool {
        self.versions.len() > 0
    }

    /// `new`: a cell whose first version is `initial`, with no guards.
    pub open spec fn fresh(initial: T) -> Self {
        Store { versions: seq![initial], working: Map::empty() }
    }

    /// `access`: the version installed last.
    pub open spec fn current(self) -> T {
        self.versions.last()
    }

    pub open spec fn is_active(self, guard: int) -> bool {
        self.working.contains_key(guard)
    }

    pub open spec fn begin(self, guard: int) -> Self {
        Store { working: self.working.insert(guard, self.current()), ..self }
    }

    /// Only an active guard can be written through.
    pub open spec fn edit(self, guard: int, value: T) -> Self {
        if self.is_active(guard) {
            Store { working: self.working.insert(guard, value), ..self }
        } else {
            self
        }
    }

    /// The working copy becomes the current version, whatever was installed
    /// since the guard began. A guard is resolved once: afterwards it is no
    /// longer active.
    pub open spec fn commit(self, guard: int) -> Self {
        if self.is_active(guard) {
            Store {
                versions: self.versions.push(self.working[guard]),
                working: self.working.remove(guard),
            }
        } else {
            self
        }
    }

    /// The working copy is dropped and no version is installed.
    pub open spec fn discard(self, guard: int) -> Self {
        Store { working: self.working.remove(guard), ..self }
    }

    pub open spec fn apply(self, step: Step<T>) -> Self {
        match step {
            Step::Begin { guard } => self.begin(guard),
            Step::Edit { guard, value } => self.edit(guard, value),
            Step::Commit { guard } => self.commit(guard),
            Step::Discard { guard } => self.discard(guard),
        }
    }

    /// The store after `steps`, taken in order.
    pub open spec fn run(self, steps: Seq<Step<T>>) -> Self
        decreases steps.len(),
    {
        if steps.len() == 0 {
            self
        } else {
            self.run(steps.drop_last()).apply(steps.last())
        }
    }
}

/// A cell never runs empty: from its creation on, whatever steps are taken,
/// there is a current version for a reader to load.
pub proof fn lemma_always_holds_a_version<T>(initial: T, steps: Seq<Step<T>>)
    ensures
        Store::fresh(initial).current() == initial,
        Store::fresh(initial).run(steps).wf(),
{
    lemma_snapshot_stable(Store::fresh(initial), steps, 0);
}

/// Snapshot stability: whatever steps follow, a version that has been
/// installed stays what it was. A snapshot is such a version, so the value
/// that a reader holds never changes.
pub proof fn lemma_snapshot_stable<T>(store: Store<T>, steps: Seq<Step<T>>, i: int)
    requires
        0 <= i < store.versions.len(),
    ensures
        store.versions.len() <= store.run(steps).versions.len(),
        store.run(steps).versions[i] == store.versions[i],
    decreases steps.len(),
{
    if steps.len() > 0 {
        lemma_snapshot_stable(store, steps.drop_last(), i);
    }
}

/// Read isolation: as long as no guard is committed, a reader sees the
/// version from before, whatever the active guards hold.
pub proof fn lemma_read_isolated<T>(store: Store<T>, steps: Seq<Step<T>>)
    requires
        forall|k: int| 0 <= k < steps.len() ==> !(#[trigger] steps[k]).writes_back(),
    ensures
        store.run(steps).versions == store.versions,
        store.run(steps).current() == store.current(),
    decreases steps.len(),
{
    if steps.len() > 0 {
        lemma_read_isolated(store, steps.drop_last());
    }
}

/// Commit visibility: once an active guard is committed, a reader sees the
/// guard's last working copy.
pub proof fn lemma_commit_visible<T>(store: Store<T>, guard: int)
    requires
        store.is_active(guard),
    ensures
        store.commit(guard).current() == store.working[guard],
        !store.commit(guard).is_active(guard),
{
}

/// Discard is a no-op: a guard that begins, is written through in any way
/// and is then discarded leaves the versions as they were before it began,
/// provided no other guard was committed meanwhile.
pub proof fn lemma_discard_restores<T>(store: Store<T>, guard: int, steps: Seq<Step<T>>)
    requires
        forall|k: int| 0 <= k < steps.len() ==> !(#[trigger] steps[k]).writes_back(),
    ensures
        store.begin(guard).run(steps).discard(guard).versions == store.versions,
        store.begin(guard).run(steps).discard(guard).current() == store.current(),
        !store.begin(guard).run(steps).discard(guard).is_active(guard),
{
    lemma_read_isolated(store.begin(guard), steps);
}

/// Writes through guards neither resolve a guard nor install a version.
pub proof fn lemma_edits_keep_guards<T>(store: Store<T>, steps: Seq<Step<T>>)
    requires
        forall|k: int| 0 <= k < steps.len() ==> (#[trigger] steps[k]) is Edit,
    ensures
        store.run(steps).versions == store.versions,
        store.run(steps).working.dom() == store.working.dom(),
    decreases steps.len(),
{
    if steps.len() > 0 {
        lemma_edits_keep_guards(store, steps.drop_last());
        let before = store.run(steps.drop_last());
        assert(before.apply(steps.last()).working.dom() =~= before.working.dom());
    }
}

/// Last writer wins: with guard `a` begun before guard `b`, and `a`
/// committed before `b`, a reader sees the working copy of `a` after the
/// first commit and that of `b` after the second. The commit of `a` leaves
/// the working copy of `b` as it was, so what `b` installs owes nothing to
/// `a`: the update of `a` is lost, not merged.
pub proof fn lemma_last_writer_wins<T>(
    store: Store<T>,
    a: int,
    b: int,
    early: Seq<Step<T>>,
    late: Seq<Step<T>>,
)
    requires
        a != b,
        forall|k: int| 0 <= k < early.len() ==> (#[trigger] early[k]) is Edit,
        forall|k: int| 0 <= k < late.len() ==> (#[trigger] late[k]) is Edit,
    ensures
        ({
            let edited = store.begin(a).begin(b).run(early);
            let first = edited.commit(a);
            let second = first.run(late).commit(b);
            &&& first.current() == edited.working[a]
            &&& first.working[b] == edited.working[b]
            &&& first.run(late).is_active(b)
            &&& second.current() == first.run(late).working[b]
            &&& !second.is_active(a)
            &&& !second.is_active(b)
        }),
{
    let begun = store.begin(a).begin(b);
    lemma_edits_keep_guards(begun, early);
    let edited = begun.run(early);
    assert(begun.working.dom().contains(a));
    assert(begun.working.dom().contains(b));
    assert(edited.working.dom().contains(a));
    assert(edited.working.dom().contains(b));
    let first = edited.commit(a);
    lemma_edits_keep_guards(first, late);
    assert(first.working.dom().contains(b));
    assert(!first.working.dom().contains(a));
    assert(first.run(late).working.dom().contains(b));
    assert(!first.run(late).working.dom().contains(a));
}

} // verus!
