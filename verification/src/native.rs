use vstd::prelude::*;

verus! {

/// A model of the native layer's reference-count bookkeeping.
///
/// Each published object is named by a raw handle — its slot in the table —
/// and carries the number of outstanding references. A count of zero means
/// the object has been freed; a slot is never reused, so a freed handle stays
/// dead.
pub struct NativeLayer {
    counts: Vec<u64>,
}

impl View for NativeLayer {
    type V = Seq<nat>;

    closed spec fn view(&self) -> Seq<nat> {
        self.counts@.map(|i: int, c: u64| c as nat)
    }
}

/// The reference-count table after one acquire on `handle`.
pub open spec fn after_acquire(r: Seq<nat>, handle: int) -> Seq<nat> {
    r.update(handle, (r[handle] + 1) as nat)
}

/// The reference-count table after one release on `handle`.
pub open spec fn after_release(r: Seq<nat>, handle: int) -> Seq<nat> {
    r.update(handle, (r[handle] - 1) as nat)
}

/// A release frees its object exactly when it drops the last reference.
pub open spec fn release_frees(r: Seq<nat>, handle: int) -> bool {
    r[handle] == 1
}

impl NativeLayer {
    /// Whether `handle` names a published object that has not been freed.
    pub open spec fn spec_live(self, handle: int) -> bool {
        0 <= handle < self@.len() && self@[handle] > 0
    }

    /// The reference count the table holds for `handle`.
    pub open spec fn spec_count(self, handle: int) -> nat
        recommends
            0 <= handle < self@.len(),
    {
        self@[handle]
    }

    /// A layer with no objects published yet.
    pub fn new() -> (layer: NativeLayer)
        ensures
            layer@ == Seq::<nat>::empty(),
    {
        let layer = NativeLayer { counts: Vec::new() };
        proof {
            assert(layer@ =~= Seq::<nat>::empty());
        }
        layer
    }

    /// Publish a new object with one outstanding reference, handing that
    /// reference — as the returned raw handle — to the caller.
    pub fn publish(&mut self) -> (handle: usize)
        ensures
            final(self)@ == old(self)@.push(1nat),
            handle == old(self)@.len(),
            final(self).spec_live(handle as int),
    {
        let handle: usize = self.counts.len();
        self.counts.push(1);
        proof {
            assert(self@ =~= old(self)@.push(1nat));
        }
        handle
    }

    /// Acquire one further reference to a live object.
    pub fn acquire(&mut self, handle: usize)
        requires
            old(self).spec_live(handle as int),
            old(self).spec_count(handle as int) < u64::MAX,
        ensures
            final(self)@ == after_acquire(old(self)@, handle as int),
    {
        let c: u64 = self.counts[handle];
        self.counts.set(handle, c + 1);
        proof {
            assert(self@ =~= after_acquire(old(self)@, handle as int));
        }
    }

    /// Release one reference to a live object; returns whether that was the
    /// last one, so that the object is now freed.
    pub fn release(&mut self, handle: usize) -> (freed: bool)
        requires
            old(self).spec_live(handle as int),
        ensures
            final(self)@ == after_release(old(self)@, handle as int),
            freed == release_frees(old(self)@, handle as int),
    {
        let c: u64 = self.counts[handle];
        self.counts.set(handle, c - 1);
        proof {
            assert(self@ =~= after_release(old(self)@, handle as int));
        }
        c == 1
    }

    /// Read the current reference count of a published handle.
    pub fn ref_count(&self, handle: usize) -> (count: u64)
        requires
            handle < self@.len(),
        ensures
            count as nat == self.spec_count(handle as int),
    {
        self.counts[handle]
    }

    /// Whether a handle names a live (published and not yet freed) object.
    pub fn is_live(&self, handle: usize) -> (live: bool)
        ensures
            live == self.spec_live(handle as int),
    {
        handle < self.counts.len() && self.counts[handle] > 0
    }
}

/// The table after `n` acquires in a row on `handle`.
pub open spec fn after_acquires(r: Seq<nat>, handle: int, n: nat) -> Seq<nat>
    decreases n,
{
    if n == 0 {
        r
    } else {
        after_acquire(after_acquires(r, handle, (n - 1) as nat), handle)
    }
}

/// The table after `k` releases in a row on `handle`.
pub open spec fn after_releases(r: Seq<nat>, handle: int, k: nat) -> Seq<nat>
    decreases k,
{
    if k == 0 {
        r
    } else {
        after_release(after_releases(r, handle, (k - 1) as nat), handle)
    }
}

/// Acquires raise the count of their handle one by one and touch no other slot.
pub proof fn lemma_after_acquires_count(r: Seq<nat>, handle: int, n: nat)
    requires
        0 <= handle < r.len(),
    ensures
        after_acquires(r, handle, n).len() == r.len(),
        after_acquires(r, handle, n)[handle] == r[handle] + n,
        forall|j: int| 0 <= j < r.len() && j != handle ==> after_acquires(r, handle, n)[j] == r[j],
    decreases n,
{
    if n > 0 {
        lemma_after_acquires_count(r, handle, (n - 1) as nat);
    }
}

/// Releases lower the count of their handle one by one — as long as that many
/// references are outstanding — and touch no other slot.
pub proof fn lemma_after_releases_count(r: Seq<nat>, handle: int, k: nat)
    requires
        0 <= handle < r.len(),
        k <= r[handle],
    ensures
        after_releases(r, handle, k).len() == r.len(),
        after_releases(r, handle, k)[handle] == r[handle] - k,
        forall|j: int| 0 <= j < r.len() && j != handle ==> after_releases(r, handle, k)[j] == r[j],
    decreases k,
{
    if k > 0 {
        lemma_after_releases_count(r, handle, (k - 1) as nat);
    }
}

/// Reference-count balance: an object published with one outstanding
/// reference and cloned `n` times carries a count of `n + 1`; of the `n + 1`
/// releases that then give every reference back, none before the last frees
/// the object, the last one does, and afterwards the count stands at zero —
/// exactly one free, only after the final release.
pub proof fn lemma_clone_release_balance(r: Seq<nat>, handle: int, n: nat)
    requires
        0 <= handle < r.len(),
        r[handle] == 1,
    ensures
        after_acquires(r, handle, n)[handle] == n + 1,
        forall|k: nat|
            k < n ==> !release_frees(
                after_releases(after_acquires(r, handle, n), handle, k),
                handle,
            ),
        release_frees(after_releases(after_acquires(r, handle, n), handle, n), handle),
        after_releases(after_acquires(r, handle, n), handle, (n + 1) as nat)[handle] == 0,
{
    lemma_after_acquires_count(r, handle, n);
    let raised = after_acquires(r, handle, n);
    assert forall|k: nat|
        k < n implies !release_frees(after_releases(raised, handle, k), handle) by {
        lemma_after_releases_count(raised, handle, k);
    }
    lemma_after_releases_count(raised, handle, n);
    lemma_after_releases_count(raised, handle, (n + 1) as nat);
}

} // verus!
