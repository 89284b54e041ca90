//! Phase timing: clock samples in milliseconds and the three-phase
//! latency clock (send phase, confirm phase, total).

use vstd::prelude::*;
use crate::records::{FinalStatus, LatencyRecord};

verus! {

/// Milliseconds elapsed from `start` to `now`, two clock samples in
/// milliseconds since an epoch.  A backwards clock reads as zero; an
/// elapsed time beyond `u64::MAX` saturates.
pub open spec fn elapsed_spec(start: u128, now: u128) -> u64 {
    if now <= start {
        0u64
    } else if now - start > u64::MAX {
        u64::MAX
    } else {
        (now - start) as u64
    }
}

/// Elapsed milliseconds between two clock samples.
pub fn elapsed_ms(start: u128, now: u128) -> (r: u64)
    ensures
        r == elapsed_spec(start, now),
{
    if now <= start {
        0
    } else {
        let d: u128 = now - start;
        if d > u64::MAX as u128 {
            u64::MAX
        } else {
            d as u64
        }
    }
}

/// Relies on `std::time::SystemTime::now` and
/// `SystemTime::duration_since(UNIX_EPOCH)`: the elapsed time since the
/// epoch, in milliseconds.  Nothing is promised of the value: the
/// system clock is outside the model.
#[verifier::external_body]
fn system_millis() -> u128 {
    std::time::SystemTime::now().duration_since(std::time::UNIX_EPOCH).unwrap().as_millis()
}

/// Milliseconds since the Unix epoch, by the system clock.  Every
/// phase boundary is stamped with this sample; what the library
/// proves holds for every value the clock may return.
pub fn get_timestamp_ms() -> u128 {
    system_millis()
}

/// Three clock samples that delimit the two phases of one measured
/// transaction: the send phase runs from `send_start` to `send_end`,
/// the confirm phase from `send_end` to `confirm_end`.
#[derive(Clone, Copy, PartialEq, Eq, Debug, Structural)]
pub struct LatencyClock {
    /// Sample taken when the submission call started.
    pub send_start: u128,
    /// Sample taken when the provisional identifier was obtained.
    pub send_end: u128,
    /// Sample taken when the terminal receipt was observed.
    pub confirm_end: u128,
}

impl LatencyClock {
    /// The samples are in phase order.
    pub open spec fn wf(self) -> bool {
        self.send_start <= self.send_end <= self.confirm_end
    }

    /// Starts a clock: all marks at the given sample.
    pub fn start(now: u128) -> (c: LatencyClock)
        ensures
            c == (LatencyClock { send_start: now, send_end: now, confirm_end: now }),
            c.wf(),
    {
        LatencyClock { send_start: now, send_end: now, confirm_end: now }
    }

    /// Marks the end of the send phase.  A sample older than the start
    /// of the phase (a backwards clock) is clamped to it.
    pub fn mark_sent(&mut self, now: u128)
        requires
            old(self).wf(),
        ensures
            final(self).send_start == old(self).send_start,
            final(self).send_end == if now < old(self).send_start {
                old(self).send_start
            } else {
                now
            },
            final(self).confirm_end == final(self).send_end,
            final(self).wf(),
    {
        let end: u128 = if now < self.send_start {
            self.send_start
        } else {
            now
        };
        self.send_end = end;
        self.confirm_end = end;
    }

    /// Marks the end of the confirm phase.  A sample older than the
    /// end of the send phase is clamped to it.
    pub fn mark_confirmed(&mut self, now: u128)
        requires
            old(self).wf(),
        ensures
            final(self).send_start == old(self).send_start,
            final(self).send_end == old(self).send_end,
            final(self).confirm_end == if now < old(self).send_end {
                old(self).send_end
            } else {
                now
            },
            final(self).wf(),
    {
        self.confirm_end = if now < self.send_end {
            self.send_end
        } else {
            now
        };
    }

    /// Send-phase duration in milliseconds.
    pub fn send_ms(&self) -> (r: u64)
        ensures
            r == elapsed_spec(self.send_start, self.send_end),
    {
        elapsed_ms(self.send_start, self.send_end)
    }

    /// Confirm-phase duration in milliseconds.
    pub fn confirm_ms(&self) -> (r: u64)
        ensures
            r == elapsed_spec(self.send_end, self.confirm_end),
    {
        elapsed_ms(self.send_end, self.confirm_end)
    }

    /// Total duration in milliseconds, measured over both phases as one
    /// interval (not as the sum of the per-phase durations).
    pub fn total_ms(&self) -> (r: u64)
        ensures
            r == elapsed_spec(self.send_start, self.confirm_end),
    {
        elapsed_ms(self.send_start, self.confirm_end)
    }

    /// Folds the clock and a terminal status into a latency record.
    pub fn into_record(self, id: Vec<u8>, status: FinalStatus) -> (r: LatencyRecord)
        ensures
            r.id == id,
            r.send_ms == elapsed_spec(self.send_start, self.send_end),
            r.confirm_ms == elapsed_spec(self.send_end, self.confirm_end),
            r.total_ms == elapsed_spec(self.send_start, self.confirm_end),
            r.status == status,
    {
        LatencyRecord {
            id,
            send_ms: self.send_ms(),
            confirm_ms: self.confirm_ms(),
            total_ms: self.total_ms(),
            status,
        }
    }
}

} // verus!
