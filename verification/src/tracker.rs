//! Batch confirmation tracking: resolve a working set of in-flight
//! transaction identifiers to terminal outcomes, querying each still
//! pending identifier once per poll round.  An identifier that has
//! been resolved is never queried again, and the final outcome set
//! preserves original submission order.

use vstd::prelude::*;
use crate::records::ConfirmationOutcome;
use crate::runner::reversed_vec;

verus! {

/// Working set of a pipelined batch's confirmations: the identifiers
/// in submission order, each either still pending or resolved to its
/// terminal outcome.
pub struct ConfirmationTracker {
    ids: Vec<Vec<u8>>,
    resolved: Vec<Option<ConfirmationOutcome>>,
}

impl ConfirmationTracker {
    /// The tracked identifiers, in submission order.
    pub closed spec fn ids_spec(self) -> Seq<Vec<u8>> {
        self.ids@
    }

    /// Per identifier, the terminal outcome if it has been resolved.
    pub closed spec fn resolved_spec(self) -> Seq<Option<ConfirmationOutcome>> {
        self.resolved@
    }

    /// One resolution slot per identifier.
    pub closed spec fn wf(self) -> bool {
        self.resolved@.len() == self.ids@.len()
    }

    /// Whether the identifier at `i` still awaits its outcome.
    pub open spec fn is_pending(self, i: int) -> bool {
        self.resolved_spec()[i] is None
    }

    /// Starts tracking a batch of identifiers, all pending.
    pub fn new(ids: Vec<Vec<u8>>) -> (t: ConfirmationTracker)
        ensures
            t.wf(),
            t.ids_spec() == ids@,
            t.resolved_spec().len() == ids@.len(),
            forall|i: int| 0 <= i < ids@.len() ==> t.is_pending(i),
    {
        let n = ids.len();
        let mut resolved: Vec<Option<ConfirmationOutcome>> = Vec::new();
        let mut i: usize = 0;
        while i < n
            invariant
                i <= n,
                resolved@.len() == i,
                forall|j: int| 0 <= j < i ==> resolved@[j] is None,
            decreases n - i,
        {
            resolved.push(None);
            i = i + 1;
        }
        ConfirmationTracker { ids, resolved }
    }

    /// Number of tracked identifiers.
    pub fn len(&self) -> (n: usize)
        requires
            self.wf(),
        ensures
            n == self.ids_spec().len(),
    {
        self.ids.len()
    }

    /// The indices to query in the next poll round: exactly the still
    /// pending identifiers, in submission order.  An identifier
    /// already resolved in a prior round is never among them, so it is
    /// never queried again.
    pub fn pending_indices(&self) -> (q: Vec<usize>)
        requires
            self.wf(),
        ensures
            forall|j: int|
                0 <= j < q@.len() ==> q@[j] < self.ids_spec().len() && self.is_pending(
                    q@[j] as int,
                ),
            forall|j1: int, j2: int| 0 <= j1 < j2 < q@.len() ==> q@[j1] < q@[j2],
            forall|i: int|
                0 <= i < self.ids_spec().len() && self.is_pending(i) ==> q@.contains(i as usize),
    {
        let n = self.ids.len();
        let mut q: Vec<usize> = Vec::new();
        let mut i: usize = 0;
        while i < n
            invariant
                i <= n,
                n == self.ids@.len(),
                self.wf(),
                forall|j: int|
                    0 <= j < q@.len() ==> q@[j] < i && self.is_pending(q@[j] as int),
                forall|j1: int, j2: int| 0 <= j1 < j2 < q@.len() ==> q@[j1] < q@[j2],
                forall|k: int| 0 <= k < i && self.is_pending(k) ==> q@.contains(k as usize),
            decreases n - i,
        {
            let pend = self.resolved[i].is_none();
            let ghost q_old = q@;
            if pend {
                q.push(i);
            }
            proof {
                if pend {
                    assert(q@ == q_old.push(i));
                    assert forall|k: int| 0 <= k < i + 1 && self.is_pending(k) implies q@.contains(
                        k as usize,
                    ) by {
                        if k < i {
                            assert(q_old.contains(k as usize));
                            let j = choose|j: int| 0 <= j < q_old.len() && q_old[j] == k as usize;
                            assert(q@[j] == k as usize);
                        } else {
                            assert(q@[q@.len() - 1] == k as usize);
                        }
                    }
                } else {
                    assert forall|k: int| 0 <= k < i + 1 && self.is_pending(k) implies q@.contains(
                        k as usize,
                    ) by {
                        assert(k != i);
                    }
                }
            }
            i = i + 1;
        }
        q
    }

    /// The identifier at a given index.
    pub fn id_at(&self, i: usize) -> (id: &Vec<u8>)
        requires
            self.wf(),
            i < self.ids_spec().len(),
        ensures
            id == self.ids_spec()[i as int],
    {
        &self.ids[i]
    }

    /// Resolves the pending identifier at `i` to its terminal outcome,
    /// removing it from the working set.
    pub fn resolve(&mut self, i: usize, outcome: ConfirmationOutcome)
        requires
            old(self).wf(),
            i < old(self).ids_spec().len(),
            old(self).is_pending(i as int),
        ensures
            final(self).wf(),
            final(self).ids_spec() == old(self).ids_spec(),
            final(self).resolved_spec() == old(self).resolved_spec().update(
                i as int,
                Some(outcome),
            ),
            !final(self).is_pending(i as int),
    {
        self.resolved.set(i, Some(outcome));
    }

    /// Whether the working set is empty: every identifier resolved.
    /// This, not an iteration count, is the batch round's termination
    /// condition.
    pub fn is_done(&self) -> (b: bool)
        requires
            self.wf(),
        ensures
            b <==> forall|i: int| 0 <= i < self.ids_spec().len() ==> !self.is_pending(i),
    {
        let n = self.resolved.len();
        let mut i: usize = 0;
        while i < n
            invariant
                i <= n,
                n == self.resolved@.len(),
                self.wf(),
                forall|j: int| 0 <= j < i ==> !self.is_pending(j),
            decreases n - i,
        {
            if self.resolved[i].is_none() {
                proof {
                    assert(self.is_pending(i as int));
                }
                return false;
            }
            i = i + 1;
        }
        true
    }

    /// Hands the terminal outcomes out, in original submission order.
    pub fn into_outcomes(self) -> (r: Vec<ConfirmationOutcome>)
        requires
            self.wf(),
            forall|i: int| 0 <= i < self.ids_spec().len() ==> !self.is_pending(i),
        ensures
            r@.len() == self.ids_spec().len(),
            forall|i: int| 0 <= i < r@.len() ==> r@[i] == self.resolved_spec()[i]->0,
    {
        let ghost r0 = self.resolved@;
        proof {
            assert forall|i: int| 0 <= i < r0.len() implies r0[i] is Some by {
                assert(!self.is_pending(i));
            }
        }
        let mut src = self.resolved;
        let mut rev: Vec<ConfirmationOutcome> = Vec::new();
        proof {
            assert(r0.take(r0.len() as int) =~= r0);
        }
        while src.len() > 0
            invariant
                src@.len() <= r0.len(),
                src@ == r0.take(src@.len() as int),
                rev@.len() + src@.len() == r0.len(),
                forall|i: int| 0 <= i < r0.len() ==> r0[i] is Some,
                forall|k: int| 0 <= k < rev@.len() ==> rev@[k] == r0[r0.len() - 1 - k]->0,
            decreases src@.len(),
        {
            let ghost n = src@.len() as int;
            let x = src.pop().unwrap();
            proof {
                assert(r0.take(n).subrange(0, n - 1) =~= r0.take(n - 1));
            }
            rev.push(x.unwrap());
        }
        let r = reversed_vec(rev);
        r
    }
}

} // verus!
