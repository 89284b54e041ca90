//! Pure reduction of a latency-record sequence to summary statistics:
//! min / max / average per phase, the average being the truncating
//! integer mean in milliseconds.

use vstd::prelude::*;
use vstd::arithmetic::div_mod::lemma_multiply_divide_le;
use crate::records::LatencyRecord;

verus! {

/// Sum of a sequence of millisecond durations.
pub open spec fn seq_sum(s: Seq<u64>) -> int
    decreases s.len(),
{
    if s.len() == 0 {
        0
    } else {
        s[0] + seq_sum(s.drop_first())
    }
}

/// Minimum of a sequence of millisecond durations; 0 for the empty
/// sequence.
pub open spec fn seq_min(s: Seq<u64>) -> int
    decreases s.len(),
{
    if s.len() == 0 {
        0
    } else if s.len() == 1 {
        s[0] as int
    } else {
        let m = seq_min(s.drop_first());
        if s[0] <= m {
            s[0] as int
        } else {
            m
        }
    }
}

/// Maximum of a sequence of millisecond durations; 0 for the empty
/// sequence.
pub open spec fn seq_max(s: Seq<u64>) -> int
    decreases s.len(),
{
    if s.len() == 0 {
        0
    } else {
        let m = seq_max(s.drop_first());
        if s[0] >= m {
            s[0] as int
        } else {
            m
        }
    }
}

pub proof fn lemma_seq_sum_push(s: Seq<u64>, x: u64)
    ensures
        seq_sum(s.push(x)) == seq_sum(s) + x,
    decreases s.len(),
{
    if s.len() == 0 {
        reveal_with_fuel(seq_sum, 2);
        assert(s.push(x).drop_first() =~= Seq::<u64>::empty());
    } else {
        assert(s.push(x).drop_first() =~= s.drop_first().push(x));
        lemma_seq_sum_push(s.drop_first(), x);
    }
}

pub proof fn lemma_seq_min_push(s: Seq<u64>, x: u64)
    ensures
        seq_min(s.push(x)) == if s.len() == 0 {
            x as int
        } else if x < seq_min(s) {
            x as int
        } else {
            seq_min(s)
        },
    decreases s.len(),
{
    if s.len() == 0 {
    } else {
        assert(s.push(x).drop_first() =~= s.drop_first().push(x));
        lemma_seq_min_push(s.drop_first(), x);
    }
}

pub proof fn lemma_seq_max_push(s: Seq<u64>, x: u64)
    ensures
        seq_max(s.push(x)) == if s.len() == 0 {
            x as int
        } else if x > seq_max(s) {
            x as int
        } else {
            seq_max(s)
        },
    decreases s.len(),
{
    if s.len() == 0 {
        reveal_with_fuel(seq_max, 2);
        assert(s.push(x).drop_first() =~= Seq::<u64>::empty());
    } else {
        assert(s.push(x).drop_first() =~= s.drop_first().push(x));
        lemma_seq_max_push(s.drop_first(), x);
    }
}

/// The sum of millisecond durations is non-negative and bounded by the
/// length times the largest duration value.
pub proof fn lemma_seq_sum_bound(s: Seq<u64>)
    ensures
        0 <= seq_sum(s) <= s.len() * (u64::MAX as int),
    decreases s.len(),
{
    if s.len() == 0 {
    } else {
        lemma_seq_sum_bound(s.drop_first());
    }
}

/// Per-phase summary statistics in milliseconds.
#[derive(Clone, Copy, PartialEq, Eq, Debug, Structural)]
pub struct PhaseStats {
    /// Smallest duration; 0 for an empty batch.
    pub min_ms: u64,
    /// Largest duration; 0 for an empty batch.
    pub max_ms: u64,
    /// Truncating integer mean of the durations; 0 for an empty batch.
    pub avg_ms: u64,
}

impl PhaseStats {
    /// The all-zero statistics of an empty batch.
    pub open spec fn zero() -> PhaseStats {
        PhaseStats { min_ms: 0, max_ms: 0, avg_ms: 0 }
    }
}

/// What the statistics of a duration sequence must be: all zero for an
/// empty sequence (an all-failed batch is an expected outcome, not an
/// error), otherwise exact min and max and the truncating integer mean
/// `sum / len`.
pub open spec fn stats_ok(st: PhaseStats, s: Seq<u64>) -> bool {
    if s.len() == 0 {
        st == PhaseStats::zero()
    } else {
        st.min_ms == seq_min(s) && st.max_ms == seq_max(s) && st.avg_ms == seq_sum(s) / (
        s.len() as int)
    }
}

/// Reduces one phase's durations to min / max / truncating average.
pub fn phase_stats(xs: &Vec<u64>) -> (st: PhaseStats)
    ensures
        stats_ok(st, xs@),
{
    let n = xs.len();
    if n == 0 {
        return PhaseStats { min_ms: 0, max_ms: 0, avg_ms: 0 };
    }
    let mut mn: u64 = xs[0];
    let mut mx: u64 = xs[0];
    let mut sum: u128 = xs[0] as u128;
    let mut i: usize = 1;
    proof {
        reveal_with_fuel(seq_sum, 2);
        reveal_with_fuel(seq_max, 2);
        assert(xs@.take(1) =~= seq![xs@[0]]);
        assert(seq![xs@[0]].drop_first() =~= Seq::<u64>::empty());
    }
    while i < n
        invariant
            1 <= i <= n,
            n == xs@.len(),
            mn == seq_min(xs@.take(i as int)),
            mx == seq_max(xs@.take(i as int)),
            sum == seq_sum(xs@.take(i as int)),
            sum <= i * (u64::MAX as int),
        decreases n - i,
    {
        let x = xs[i];
        proof {
            assert(xs@.take(i + 1) =~= xs@.take(i as int).push(xs@[i as int]));
            lemma_seq_min_push(xs@.take(i as int), x);
            lemma_seq_max_push(xs@.take(i as int), x);
            lemma_seq_sum_push(xs@.take(i as int), x);
        }
        if x < mn {
            mn = x;
        }
        if x > mx {
            mx = x;
        }
        sum = sum + x as u128;
        i = i + 1;
    }
    proof {
        assert(xs@.take(n as int) =~= xs@);
        lemma_seq_sum_bound(xs@);
        lemma_multiply_divide_le(sum as int, n as int, u64::MAX as int);
    }
    let avg: u64 = (sum / (n as u128)) as u64;
    PhaseStats { min_ms: mn, max_ms: mx, avg_ms: avg }
}

/// The send-phase durations of a record sequence, in order.
pub open spec fn sends_of(rs: Seq<LatencyRecord>) -> Seq<u64> {
    rs.map(|i: int, r: LatencyRecord| r.send_ms)
}

/// The confirm-phase durations of a record sequence, in order.
pub open spec fn confirms_of(rs: Seq<LatencyRecord>) -> Seq<u64> {
    rs.map(|i: int, r: LatencyRecord| r.confirm_ms)
}

/// The total durations of a record sequence, in order.
pub open spec fn totals_of(rs: Seq<LatencyRecord>) -> Seq<u64> {
    rs.map(|i: int, r: LatencyRecord| r.total_ms)
}

/// The result set of a batch: the records in submission order and the
/// derived statistics per phase, always recomputed from the full record
/// set.
#[derive(Clone, PartialEq, Eq, Debug)]
pub struct BatchSummary {
    /// The latency records, in original submission order.
    pub records: Vec<LatencyRecord>,
    /// Send-phase statistics.
    pub send: PhaseStats,
    /// Confirm-phase statistics.
    pub confirm: PhaseStats,
    /// Total-duration statistics.
    pub total: PhaseStats,
}

impl BatchSummary {
    /// The statistics agree with the record set.
    pub open spec fn wf(self) -> bool {
        stats_ok(self.send, sends_of(self.records@)) && stats_ok(
            self.confirm,
            confirms_of(self.records@),
        ) && stats_ok(self.total, totals_of(self.records@))
    }
}

/// Extracts the send-phase durations from the records.
fn collect_send(records: &Vec<LatencyRecord>) -> (r: Vec<u64>)
    ensures
        r@ == sends_of(records@),
{
    let mut out: Vec<u64> = Vec::new();
    let mut i: usize = 0;
    while i < records.len()
        invariant
            i <= records@.len(),
            out@ == sends_of(records@.take(i as int)),
        decreases records@.len() - i,
    {
        out.push(records[i].send_ms);
        proof {
            assert(sends_of(records@.take(i + 1)) =~= sends_of(records@.take(i as int)).push(
                records@[i as int].send_ms,
            ));
        }
        i = i + 1;
    }
    proof {
        assert(records@.take(records@.len() as int) =~= records@);
    }
    out
}

/// Extracts the confirm-phase durations from the records.
fn collect_confirm(records: &Vec<LatencyRecord>) -> (r: Vec<u64>)
    ensures
        r@ == confirms_of(records@),
{
    let mut out: Vec<u64> = Vec::new();
    let mut i: usize = 0;
    while i < records.len()
        invariant
            i <= records@.len(),
            out@ == confirms_of(records@.take(i as int)),
        decreases records@.len() - i,
    {
        out.push(records[i].confirm_ms);
        proof {
            assert(confirms_of(records@.take(i + 1)) =~= confirms_of(records@.take(i as int)).push(
                records@[i as int].confirm_ms,
            ));
        }
        i = i + 1;
    }
    proof {
        assert(records@.take(records@.len() as int) =~= records@);
    }
    out
}

/// Extracts the total durations from the records.
fn collect_total(records: &Vec<LatencyRecord>) -> (r: Vec<u64>)
    ensures
        r@ == totals_of(records@),
{
    let mut out: Vec<u64> = Vec::new();
    let mut i: usize = 0;
    while i < records.len()
        invariant
            i <= records@.len(),
            out@ == totals_of(records@.take(i as int)),
        decreases records@.len() - i,
    {
        out.push(records[i].total_ms);
        proof {
            assert(totals_of(records@.take(i + 1)) =~= totals_of(records@.take(i as int)).push(
                records@[i as int].total_ms,
            ));
        }
        i = i + 1;
    }
    proof {
        assert(records@.take(records@.len() as int) =~= records@);
    }
    out
}

/// Reduces a latency-record sequence to a batch summary.  An empty
/// sequence yields the zero-filled statistics, not an error.
pub fn summarize(records: Vec<LatencyRecord>) -> (s: BatchSummary)
    ensures
        s.records == records,
        s.wf(),
{
    let send = phase_stats(&collect_send(&records));
    let confirm = phase_stats(&collect_confirm(&records));
    let total = phase_stats(&collect_total(&records));
    BatchSummary { records, send, confirm, total }
}

} // verus!
