//! Batch orchestration: drive N transactions through a strategy and
//! collect one latency record per successful transaction, in original
//! submission order.  Per-transaction failures are recorded and
//! excluded from the final record sequence; they never abort the batch.

use vstd::prelude::*;
use crate::records::{joined_record, ConfirmationOutcome, ConfirmationStatus, LatencyRecord,
    SubmissionResult, TxError};
use crate::stats::{summarize, BatchSummary};
use crate::strategy::RunConfig;

verus! {

/// The values of the `Some` entries of a sequence of optional
/// outcomes, in order: what a batch keeps of its per-transaction
/// attempts once the failures are dropped.
pub open spec fn present<T>(s: Seq<Option<T>>) -> Seq<T>
    decreases s.len(),
{
    if s.len() == 0 {
        Seq::empty()
    } else {
        match s[0] {
            Some(x) => seq![x] + present(s.drop_first()),
            None => present(s.drop_first()),
        }
    }
}

/// Dropping failures distributes over concatenation.
pub proof fn lemma_present_concat<T>(a: Seq<Option<T>>, b: Seq<Option<T>>)
    ensures
        present(a + b) == present(a) + present(b),
    decreases a.len(),
{
    if a.len() == 0 {
        assert(a + b =~= b);
        assert(present(a) + present(b) =~= present(b));
    } else {
        assert((a + b).drop_first() =~= a.drop_first() + b);
        lemma_present_concat(a.drop_first(), b);
        match a[0] {
            Some(x) => {
                assert(seq![x] + (present(a.drop_first()) + present(b)) =~= (seq![x] + present(
                    a.drop_first(),
                )) + present(b));
            },
            None => {},
        }
    }
}

/// Appending one more attempt appends its record when it succeeded and
/// changes nothing when it failed.
pub proof fn lemma_present_push<T>(s: Seq<Option<T>>, x: Option<T>)
    ensures
        present(s.push(x)) == match x {
            Some(v) => present(s).push(v),
            None => present(s),
        },
{
    assert(s.push(x) =~= s + seq![x]);
    lemma_present_concat(s, seq![x]);
    reveal_with_fuel(present, 2);
    match x {
        Some(v) => {
            assert(present(seq![x]) =~= seq![v]);
            assert(present(s) + seq![v] =~= present(s).push(v));
        },
        None => {
            assert(present(seq![x]) =~= Seq::<T>::empty());
            assert(present(s) + Seq::<T>::empty() =~= present(s));
        },
    }
}

/// When every attempt of a batch succeeds, the record sequence has
/// exactly one entry per attempt, in original submission order.
pub proof fn lemma_present_all_some<T>(h: Seq<Option<T>>)
    requires
        forall|i: int| 0 <= i < h.len() ==> h[i] is Some,
    ensures
        present(h).len() == h.len(),
        forall|i: int| 0 <= i < h.len() ==> present(h)[i] == h[i]->0,
    decreases h.len(),
{
    if h.len() == 0 {
    } else {
        assert(h[0] is Some);
        assert(forall|i: int| 0 <= i < h.drop_first().len() ==> h.drop_first()[i] is Some);
        lemma_present_all_some(h.drop_first());
        assert(forall|i: int| 0 < i < h.len() ==> present(h)[i] == present(h.drop_first())[i - 1]
            && h.drop_first()[i - 1] == h[i]);
    }
}

/// When exactly one attempt of a batch fails, the record sequence has
/// one entry per remaining attempt and preserves their relative order:
/// the records before the failed index are unchanged and those after
/// it shift down by one.
pub proof fn lemma_present_one_failure<T>(h: Seq<Option<T>>, k: int)
    requires
        0 <= k < h.len(),
        h[k] is None,
        forall|i: int| 0 <= i < h.len() && i != k ==> h[i] is Some,
    ensures
        present(h).len() == h.len() - 1,
        forall|i: int| 0 <= i < k ==> present(h)[i] == h[i]->0,
        forall|i: int| k < i < h.len() ==> present(h)[i - 1] == h[i]->0,
{
    let a = h.take(k);
    let b = h.skip(k + 1);
    assert(h =~= a + (seq![h[k]] + b));
    lemma_present_concat(a, seq![h[k]] + b);
    lemma_present_concat(seq![h[k]], b);
    reveal_with_fuel(present, 2);
    assert(present(seq![h[k]]) =~= Seq::<T>::empty());
    assert(present(seq![h[k]]) + present(b) =~= present(b));
    assert(forall|i: int| 0 <= i < a.len() ==> a[i] == h[i] && a[i] is Some);
    lemma_present_all_some(a);
    assert(forall|i: int| 0 <= i < b.len() ==> b[i] == h[k + 1 + i] && b[i] is Some);
    lemma_present_all_some(b);
    assert(present(h) =~= present(a) + present(b));
    assert forall|i: int| k < i < h.len() implies present(h)[i - 1] == h[i]->0 by {
        assert(present(h)[i - 1] == present(b)[i - 1 - k]);
        assert(present(b)[i - 1 - k] == b[i - 1 - k]->0);
        assert(b[i - 1 - k] == h[i]);
    }
}

/// Orchestrates one batch: hands out deterministic nonces, collects
/// the per-transaction results, and reduces them to a summary.  The
/// ghost history records every attempt, successful or not; the record
/// sequence is always exactly the successful attempts in submission
/// order.
pub struct BatchRunner {
    config: RunConfig,
    starting_nonce: u64,
    attempts: u64,
    records: Vec<LatencyRecord>,
    history: Ghost<Seq<Option<LatencyRecord>>>,
}

impl BatchRunner {
    /// The run configuration the batch was started with.
    pub closed spec fn config_spec(self) -> RunConfig {
        self.config
    }

    /// The nonce of the first transaction.
    pub closed spec fn starting_nonce_spec(self) -> u64 {
        self.starting_nonce
    }

    /// One entry per attempted transaction, in submission order:
    /// `Some` with its record where the attempt succeeded, `None`
    /// where it failed.
    pub closed spec fn history(self) -> Seq<Option<LatencyRecord>> {
        self.history@
    }

    /// The runner's invariant: the kept records are exactly the
    /// successful attempts in order, no more attempts were made than
    /// configured, and the nonce range fits the nonce type.
    pub closed spec fn wf(self) -> bool {
        self.records@ == present(self.history@) && self.attempts == self.history@.len()
            && self.history@.len() <= self.config.transaction_count && self.config.valid()
            && self.starting_nonce + self.config.transaction_count <= u64::MAX
    }

    /// Starts a batch run.  A configuration asking for zero
    /// transactions is rejected before any submission.
    pub fn new(config: RunConfig, starting_nonce: u64) -> (r: Result<BatchRunner, TxError>)
        requires
            starting_nonce + config.transaction_count <= u64::MAX,
        ensures
            r is Ok <==> config.valid(),
            config.valid() ==> {
                let b = r->Ok_0;
                b.wf() && b.config_spec() == config && b.starting_nonce_spec() == starting_nonce
                    && b.history() == Seq::<Option<LatencyRecord>>::empty()
            },
            !config.valid() ==> r == Err::<BatchRunner, TxError>(TxError::InvalidConfiguration),
    {
        match config.validate() {
            Ok(_) => Ok(
                BatchRunner {
                    config,
                    starting_nonce,
                    attempts: 0,
                    records: Vec::new(),
                    history: Ghost(Seq::empty()),
                },
            ),
            Err(e) => Err(e),
        }
    }

    /// How many transactions have been attempted so far.
    pub fn attempted(&self) -> (n: u64)
        requires
            self.wf(),
        ensures
            n == self.history().len(),
    {
        self.attempts
    }

    /// Whether all configured transactions have been attempted.
    pub fn is_complete(&self) -> (b: bool)
        requires
            self.wf(),
        ensures
            b <==> self.history().len() == self.config_spec().transaction_count,
    {
        self.attempts == self.config.transaction_count
    }

    /// The nonce for the next transaction: nonces are assigned
    /// deterministically as starting nonce plus attempt index, and a
    /// failed attempt leaves a gap that is never reused.
    pub fn next_nonce(&self) -> (n: u64)
        requires
            self.wf(),
            self.history().len() < self.config_spec().transaction_count,
        ensures
            n == self.starting_nonce_spec() + self.history().len(),
    {
        self.starting_nonce + self.attempts
    }

    /// Records a successful transaction's latency record.
    pub fn record_success(&mut self, rec: LatencyRecord)
        requires
            old(self).wf(),
            old(self).history().len() < old(self).config_spec().transaction_count,
        ensures
            final(self).wf(),
            final(self).history() == old(self).history().push(Some(rec)),
            final(self).config_spec() == old(self).config_spec(),
            final(self).starting_nonce_spec() == old(self).starting_nonce_spec(),
    {
        proof {
            lemma_present_push(self.history@, Some(rec));
        }
        self.records.push(rec);
        self.attempts = self.attempts + 1;
        self.history = Ghost(self.history@.push(Some(rec)));
    }

    /// Records a failed transaction attempt: the failure is counted
    /// but contributes no latency record.
    pub fn record_failure(&mut self)
        requires
            old(self).wf(),
            old(self).history().len() < old(self).config_spec().transaction_count,
        ensures
            final(self).wf(),
            final(self).history() == old(self).history().push(None::<LatencyRecord>),
            final(self).config_spec() == old(self).config_spec(),
            final(self).starting_nonce_spec() == old(self).starting_nonce_spec(),
    {
        proof {
            lemma_present_push(self.history@, None::<LatencyRecord>);
        }
        self.attempts = self.attempts + 1;
        self.history = Ghost(self.history@.push(None));
    }

    /// Reduces the batch to its summary.  A summary is produced even
    /// when every transaction failed: it then carries no records and
    /// zero-filled statistics.
    pub fn into_summary(self) -> (s: BatchSummary)
        requires
            self.wf(),
        ensures
            s.records@ == present(self.history()),
            s.wf(),
    {
        summarize(self.records)
    }
}

/// Reverses a vector.
pub(crate) fn reversed_vec<T>(v: Vec<T>) -> (r: Vec<T>)
    ensures
        r@.len() == v@.len(),
        forall|i: int| 0 <= i < r@.len() ==> r@[i] == v@[v@.len() - 1 - i],
{
    let ghost v0 = v@;
    let mut src = v;
    let mut out: Vec<T> = Vec::new();
    while src.len() > 0
        invariant
            src@ == v0.take(src@.len() as int),
            out@.len() + src@.len() == v0.len(),
            forall|i: int| 0 <= i < out@.len() ==> out@[i] == v0[v0.len() - 1 - i],
        decreases src@.len(),
    {
        let x = src.pop().unwrap();
        proof {
            assert(v0.take(src@.len() as int + 1).subrange(0, src@.len() as int) =~= v0.take(
                src@.len() as int,
            ));
        }
        out.push(x);
    }
    out
}

/// Joins the submission results of a pipelined batch with the terminal
/// confirmation outcomes the tracker produced for them, one outcome
/// per successful submission in submission order.  Failed submissions
/// are skipped; the records keep the relative order of the successful
/// submissions.
pub fn assemble_pipelined(
    subs: Vec<Option<SubmissionResult>>,
    outs: Vec<ConfirmationOutcome>,
) -> (r: Vec<LatencyRecord>)
    requires
        outs@.len() == present(subs@).len(),
        forall|j: int|
            0 <= j < outs@.len() ==> outs@[j].status != ConfirmationStatus::Pending,
    ensures
        r@.len() == outs@.len(),
        forall|j: int|
            0 <= j < r@.len() ==> r@[j] == joined_record(present(subs@)[j], outs@[j]),
{
    let ghost s0 = subs@;
    let ghost o0 = outs@;
    let mut subs = subs;
    let mut outs = outs;
    let mut rev: Vec<LatencyRecord> = Vec::new();
    proof {
        assert(s0.take(s0.len() as int) =~= s0);
        assert(o0.take(o0.len() as int) =~= o0);
    }
    while subs.len() > 0
        invariant
            subs@.len() <= s0.len(),
            subs@ == s0.take(subs@.len() as int),
            outs@.len() <= o0.len(),
            outs@.len() == present(subs@).len(),
            outs@ == o0.take(outs@.len() as int),
            o0.len() == present(s0).len(),
            rev@.len() == o0.len() - outs@.len(),
            forall|j: int| 0 <= j < o0.len() ==> o0[j].status != ConfirmationStatus::Pending,
            forall|k: int|
                0 <= k < rev@.len() ==> rev@[k] == joined_record(
                    present(s0)[o0.len() - 1 - k],
                    o0[o0.len() - 1 - k],
                ),
        decreases subs@.len(),
    {
        let ghost n = subs@.len() as int;
        let sub_opt = subs.pop().unwrap();
        proof {
            assert(s0.take(n).subrange(0, n - 1) =~= s0.take(n - 1));
            assert(s0.take(n) =~= s0.take(n - 1) + seq![s0[n - 1]]);
            lemma_present_concat(s0.take(n - 1), seq![s0[n - 1]]);
            reveal_with_fuel(present, 2);
            assert(s0 =~= s0.take(n) + s0.skip(n));
            lemma_present_concat(s0.take(n), s0.skip(n));
        }
        match sub_opt {
            Some(sub) => {
                proof {
                    reveal_with_fuel(present, 2);
                    assert(present(seq![s0[n - 1]]) =~= seq![sub]);
                    assert(present(s0.take(n)) =~= present(s0.take(n - 1)).push(sub));
                    assert(o0.take(present(s0.take(n)).len() as int).subrange(
                        0,
                        present(s0.take(n - 1)).len() as int,
                    ) =~= o0.take(present(s0.take(n - 1)).len() as int));
                }
                let out = outs.pop().unwrap();
                proof {
                    let m = present(s0.take(n - 1)).len() as int;
                    assert(present(s0).take(present(s0.take(n)).len() as int) =~= present(
                        s0.take(n),
                    ));
                    assert(present(s0)[m] == present(s0.take(n))[m]);
                }
                let rec = crate::records::join_record(sub, out);
                rev.push(rec);
            },
            None => {
                proof {
                    reveal_with_fuel(present, 2);
                    assert(present(seq![s0[n - 1]]) =~= Seq::<SubmissionResult>::empty());
                    assert(present(s0.take(n)) =~= present(s0.take(n - 1)));
                }
            },
        }
    }
    proof {
        assert(present(subs@) =~= Seq::<SubmissionResult>::empty());
        assert(present(s0).take(o0.len() as int) =~= present(s0));
        assert(o0.take(o0.len() as int) =~= o0);
    }
    let r = reversed_vec(rev);
    proof {
        assert forall|j: int| 0 <= j < r@.len() implies r@[j] == joined_record(
            present(s0)[j],
            o0[j],
        ) by {
            assert(r@[j] == rev@[o0.len() - 1 - j]);
        }
    }
    r
}

} // verus!
