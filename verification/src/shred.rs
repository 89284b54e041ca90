//! Shred-stream monitoring: given the text of a subscription message,
//! read the block number and shred index out of it and measure the
//! interval since the previous shred.  The websocket itself is the
//! embedding application's; the message handling is verified against
//! the named result of the JSON field extraction.

use vstd::prelude::*;
use crate::clock::elapsed_spec;

verus! {

/// The block number and shred index a subscription message carries
/// under `params.result`, if it carries both.
pub uninterp spec fn shred_fields_of(s: Seq<char>) -> Option<(u64, u64)>;

/// Relies on `serde_json::from_str`, `serde_json::Value::get` and
/// `serde_json::Value::as_u64`: parses the message text and reads the
/// `block_number` and `shred_idx` fields of `params.result`.  The
/// result depends on the text alone.
#[verifier::external_body]
fn extract_shred_fields(text: &str) -> (r: Option<(u64, u64)>)
    ensures
        r == shred_fields_of(text@),
{
    let v: serde_json::Value = serde_json::from_str(text).ok()?;
    let result = v.get("params")?.get("result")?;
    Some((result.get("block_number")?.as_u64()?, result.get("shred_idx")?.as_u64()?))
}

/// One observed shred: its block number, its index, and the time
/// since the previous shred.
#[derive(Clone, Copy, PartialEq, Eq, Debug, Structural)]
pub struct ShredObservation {
    /// Block number the shred belongs to.
    pub block_number: u64,
    /// Index of the shred.
    pub shred_idx: u64,
    /// Milliseconds since the previous shred (or since the monitor
    /// started).
    pub interval_ms: u64,
}

/// Tracks the time of the last observed shred.
pub struct ShredMonitor {
    last_shred_ms: u128,
}

impl ShredMonitor {
    /// Clock sample of the last observed shred.
    pub closed spec fn last_ms(self) -> u128 {
        self.last_shred_ms
    }

    /// Starts monitoring at the given clock sample.
    pub fn new(now_ms: u128) -> (m: ShredMonitor)
        ensures
            m.last_ms() == now_ms,
    {
        ShredMonitor { last_shred_ms: now_ms }
    }

    /// Handles one subscription message: when it carries a shred,
    /// yields the observation with the interval since the previous
    /// one and advances the monitor's clock mark; any other message
    /// changes nothing.
    pub fn handle_message(&mut self, text: &str, now_ms: u128) -> (r: Option<ShredObservation>)
        ensures
            shred_fields_of(text@) is None ==> r is None && final(self).last_ms() == old(
                self,
            ).last_ms(),
            shred_fields_of(text@) is Some ==> r == Some(
                ShredObservation {
                    block_number: (shred_fields_of(text@)->0).0,
                    shred_idx: (shred_fields_of(text@)->0).1,
                    interval_ms: elapsed_spec(old(self).last_ms(), now_ms),
                },
            ) && final(self).last_ms() == now_ms,
    {
        match extract_shred_fields(text) {
            Some((block_number, shred_idx)) => {
                let interval_ms = crate::clock::elapsed_ms(self.last_shred_ms, now_ms);
                self.last_shred_ms = now_ms;
                Some(ShredObservation { block_number, shred_idx, interval_ms })
            },
            None => None,
        }
    }
}

} // verus!
