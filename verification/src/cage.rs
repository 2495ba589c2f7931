//! Cage bookkeeping: the live-cage counter, per-cage thread accounting,
//! and the shared cage-identity allocator.

use vstd::prelude::*;

verus! {

/// The identity reserved for the first cage of a launch.
pub const CAGE_START_ID: u64 = 1;

/// The identity reserved for the first (main) thread of a cage.
pub const THREAD_START_ID: u64 = 1;

/// Process-wide counter of live cages.
///
/// One instance is shared by every cage descended from one launch.  It is
/// incremented when a cage is created and decremented exactly once, when the
/// last thread of a cage exits.
pub struct CageManager {
    live: u64,
}

impl CageManager {
    pub closed spec fn live_cages(self) -> nat {
        self.live as nat
    }

    pub fn new(initial: u64) -> (r: CageManager)
        ensures
            r.live_cages() == initial as nat,
    {
        CageManager { live: initial }
    }

    pub fn live(&self) -> (r: u64)
        ensures
            r as nat == self.live_cages(),
    {
        self.live
    }

    pub fn increment(&mut self)
        requires
            old(self).live_cages() < u64::MAX as nat,
        ensures
            final(self).live_cages() == old(self).live_cages() + 1,
    {
        self.live = self.live + 1;
    }

    pub fn decrement(&mut self)
        requires
            old(self).live_cages() >= 1,
        ensures
            final(self).live_cages() == old(self).live_cages() - 1,
    {
        self.live = self.live - 1;
    }
}

/// Per-cage count of native threads that are still running.
///
/// Mirrors the runtime's thread-exit bookkeeping: every thread of a cage
/// reports its exit exactly once, and the report says whether it was the
/// cage's last thread.
pub struct ThreadRegistry {
    live: u64,
}

impl ThreadRegistry {
    pub closed spec fn live_threads(self) -> nat {
        self.live as nat
    }

    pub fn new(initial: u64) -> (r: ThreadRegistry)
        ensures
            r.live_threads() == initial as nat,
    {
        ThreadRegistry { live: initial }
    }

    pub fn live(&self) -> (r: u64)
        ensures
            r as nat == self.live_threads(),
    {
        self.live
    }

    pub fn spawn(&mut self)
        requires
            old(self).live_threads() < u64::MAX as nat,
        ensures
            final(self).live_threads() == old(self).live_threads() + 1,
    {
        self.live = self.live + 1;
    }

    /// One thread of the cage exits; the result says whether it was the last.
    pub fn exit_thread(&mut self) -> (last: bool)
        requires
            old(self).live_threads() >= 1,
        ensures
            final(self).live_threads() == old(self).live_threads() - 1,
            last == (final(self).live_threads() == 0),
    {
        self.live = self.live - 1;
        self.live == 0
    }
}

/// One step of the exit protocol for a cage with `threads` live threads,
/// while `cages` cages are live overall: the exiting thread decrements the
/// thread count, and only the last thread of the cage decrements the
/// live-cage counter.  Returns the new counts and whether this step
/// observed the last thread.
pub open spec fn exit_step(threads: nat, cages: nat) -> (nat, nat, bool)
    recommends
        threads >= 1,
        cages >= 1,
{
    if threads == 1 {
        (0, (cages - 1) as nat, true)
    } else {
        ((threads - 1) as nat, cages, false)
    }
}

/// `k` successive exit-protocol steps; the third component counts how many
/// of them decremented the live-cage counter.
pub open spec fn exit_steps(threads: nat, cages: nat, k: nat) -> (nat, nat, nat)
    decreases k,
{
    if k == 0 {
        (threads, cages, 0)
    } else {
        let (t, c, d) = exit_steps(threads, cages, (k - 1) as nat);
        let (t2, c2, last) = exit_step(t, c);
        (t2, c2, d + if last { 1nat } else { 0nat })
    }
}

/// Last-thread cage exit: in a cage holding `threads` threads, running the
/// exit protocol `k` times decrements the live-cage counter exactly once if
/// and only if all `threads` threads have exited, and the decrement happens
/// at the last exit alone.
pub proof fn lemma_last_thread_exit(threads: nat, cages: nat, k: nat)
    requires
        1 <= k <= threads,
        cages >= 1,
    ensures
        exit_steps(threads, cages, k).0 == threads - k,
        exit_steps(threads, cages, k).1 == if k == threads {
            (cages - 1) as nat
        } else {
            cages
        },
        exit_steps(threads, cages, k).2 == if k == threads {
            1nat
        } else {
            0nat
        },
    decreases k,
{
    if k == 1 {
        assert(exit_steps(threads, cages, 0) == (threads, cages, 0nat));
    } else {
        lemma_last_thread_exit(threads, cages, (k - 1) as nat);
    }
}

/// Allocator of cage identities: a shared counter whose value is the last
/// identity handed out.  Every host context descended from one launch holds
/// a handle to the same allocator, so identities are unique across the whole
/// fork/exec tree.
pub struct CageIdAllocator {
    last: u64,
    start: Ghost<u64>,
    issued: Ghost<Seq<u64>>,
}

impl CageIdAllocator {
    /// The value the counter was created with (the initial cage's identity).
    pub closed spec fn start_id(self) -> u64 {
        self.start@
    }

    /// The last identity handed out, or the start value if none was.
    pub closed spec fn last_id(self) -> u64 {
        self.last
    }

    /// Every identity this allocator has handed out, in order.
    pub closed spec fn issued_ids(self) -> Seq<u64> {
        self.issued@
    }

    pub closed spec fn wf(self) -> bool {
        &&& self.start@ <= self.last
        &&& forall|i: int|
            0 <= i < self.issued@.len() ==> self.start@ < #[trigger] self.issued@[i] <= self.last
        &&& forall|i: int, j: int|
            0 <= i < j < self.issued@.len() ==> self.issued@[i] < self.issued@[j]
    }

    pub fn new(start: u64) -> (r: CageIdAllocator)
        ensures
            r.wf(),
            r.start_id() == start,
            r.last_id() == start,
            r.issued_ids() == Seq::<u64>::empty(),
    {
        CageIdAllocator { last: start, start: Ghost(start), issued: Ghost(Seq::empty()) }
    }

    /// Hand out the next identity: one atomic fetch-add on the shared counter.
    pub fn allocate(&mut self) -> (id: u64)
        requires
            old(self).wf(),
            old(self).last_id() < u64::MAX,
        ensures
            final(self).wf(),
            id == old(self).last_id() + 1,
            final(self).last_id() == id,
            final(self).start_id() == old(self).start_id(),
            final(self).issued_ids() == old(self).issued_ids().push(id),
    {
        self.last = self.last + 1;
        let id = self.last;
        proof {
            let prior = self.issued@;
            self.issued@ = self.issued@.push(id);
            assert forall|i: int| 0 <= i < self.issued@.len() implies self.start@
                < #[trigger] self.issued@[i] <= self.last by {
                if i < prior.len() {
                    assert(self.issued@[i] == prior[i]);
                }
            }
            assert forall|i: int, j: int| 0 <= i < j < self.issued@.len() implies self.issued@[i]
                < self.issued@[j] by {
                if j < prior.len() {
                    assert(self.issued@[i] == prior[i]);
                    assert(self.issued@[j] == prior[j]);
                } else {
                    assert(self.issued@[j] == id);
                    assert(self.issued@[i] == prior[i]);
                }
            }
        }
        id
    }
}

/// Cage-identity uniqueness: whatever sequence of fork and exec operations
/// drew from one shared allocator, no two of the identities it handed out
/// are equal, and none equals the starting identity.
pub proof fn lemma_cage_identity_uniqueness(a: CageIdAllocator)
    requires
        a.wf(),
    ensures
        forall|i: int, j: int|
            0 <= i < j < a.issued_ids().len() ==> a.issued_ids()[i] != a.issued_ids()[j],
        forall|i: int| 0 <= i < a.issued_ids().len() ==> #[trigger] a.issued_ids()[i] != a.start_id(),
{
}

} // verus!
