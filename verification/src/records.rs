//! Core data model: transaction descriptors, submission results,
//! confirmation outcomes, latency records, and the error taxonomy.

use vstd::prelude::*;

verus! {

/// Terminal status of a transaction, as derived from its receipt.
#[derive(Clone, Copy, PartialEq, Eq, Debug, Structural)]
pub enum FinalStatus {
    /// The receipt reports successful execution.
    Success,
    /// The receipt reports failed execution.
    Failed,
    /// No usable status: malformed receipt or confirmation timeout.
    Unknown,
}

/// Confirmation status of an in-flight transaction.
#[derive(Clone, Copy, PartialEq, Eq, Debug, Structural)]
pub enum ConfirmationStatus {
    /// No receipt observed yet.
    Pending,
    /// A receipt with a status was observed; `block` is the inclusion
    /// block when the receipt reported one.
    Confirmed { block: Option<u64>, success: bool },
    /// A receipt was observed but its status could not be determined,
    /// or confirmation timed out.
    Unknown,
}

/// Errors surfaced by the measurement core.
#[derive(Clone, Copy, PartialEq, Eq, Debug, Structural)]
pub enum TxError {
    /// Network or RPC failure, surfaced per transaction.
    Transport,
    /// A transaction's confirmation wait exceeded its bound.
    ConfirmationTimeout,
    /// Invalid run configuration; fatal before any submission.
    InvalidConfiguration,
}

/// What the core reads out of a node's transaction receipt,
/// as plain values.
#[derive(Clone, PartialEq, Eq, Debug)]
pub struct ReceiptInfo {
    /// Transaction hash or signature bytes reported by the receipt.
    pub tx_hash: Vec<u8>,
    /// Raw execution status code, if the receipt carried one
    /// (`1` means success).
    pub status: Option<u64>,
    /// Inclusion block number, if the receipt carried one.
    pub block_number: Option<u64>,
    /// Gas used, if the receipt carried it.
    pub gas_used: Option<u128>,
}

/// Result of one successful submission call: the provisional identifier
/// and the send-phase duration.  A failed submission produces no
/// `SubmissionResult`, only an error.
#[derive(Clone, PartialEq, Eq, Debug)]
pub struct SubmissionResult {
    /// Transaction identifier (hash or signature bytes).
    pub id: Vec<u8>,
    /// Send-phase duration in milliseconds.
    pub send_ms: u64,
}

/// Terminal result of confirmation tracking for one transaction.
#[derive(Clone, PartialEq, Eq, Debug)]
pub struct ConfirmationOutcome {
    /// Transaction identifier the outcome belongs to.
    pub id: Vec<u8>,
    /// Confirmation status observed.
    pub status: ConfirmationStatus,
    /// Confirm-phase duration in milliseconds.
    pub confirm_ms: u64,
    /// Confirmation block minus the block observed at submission time,
    /// when both are known.
    pub block_distance: Option<u64>,
}

/// One timing sample: the identifier, the per-phase durations and the
/// final status.  Immutable after creation.
#[derive(Clone, PartialEq, Eq, Debug)]
pub struct LatencyRecord {
    /// Transaction identifier (hash or signature bytes).
    pub id: Vec<u8>,
    /// Send-phase duration in milliseconds.
    pub send_ms: u64,
    /// Confirm-phase duration in milliseconds.
    pub confirm_ms: u64,
    /// Total duration in milliseconds.
    pub total_ms: u64,
    /// Terminal status.
    pub status: FinalStatus,
}

/// Status derived from a raw receipt status code: `1` is success, any
/// other code is failure, a missing code is unknown (a malformed
/// receipt is not a fatal error).
pub open spec fn status_of_code(code: Option<u64>) -> FinalStatus {
    match code {
        Some(c) => if c == 1 {
            FinalStatus::Success
        } else {
            FinalStatus::Failed
        },
        None => FinalStatus::Unknown,
    }
}

/// Terminal status that a confirmation status maps to.
pub open spec fn status_of_confirmation(cs: ConfirmationStatus) -> FinalStatus {
    match cs {
        ConfirmationStatus::Confirmed { block: _, success } => if success {
            FinalStatus::Success
        } else {
            FinalStatus::Failed
        },
        _ => FinalStatus::Unknown,
    }
}

/// Confirmation status read from an observed receipt.
pub open spec fn confirmation_of_receipt(r: ReceiptInfo) -> ConfirmationStatus {
    match r.status {
        Some(c) => ConfirmationStatus::Confirmed { block: r.block_number, success: c == 1 },
        None => ConfirmationStatus::Unknown,
    }
}

/// Terminal status of a receipt.
pub fn receipt_status(r: &ReceiptInfo) -> (s: FinalStatus)
    ensures
        s == status_of_code(r.status),
{
    match r.status {
        Some(c) => if c == 1 {
            FinalStatus::Success
        } else {
            FinalStatus::Failed
        },
        None => FinalStatus::Unknown,
    }
}

/// Blocks between submission-time block and confirmation block, when
/// both are known and the chain did not reorder them backwards.
pub open spec fn block_distance_spec(submit_block: Option<u64>, confirm_block: Option<u64>) -> Option<
    u64,
> {
    match (submit_block, confirm_block) {
        (Some(s), Some(c)) => if c >= s {
            Some((c - s) as u64)
        } else {
            None
        },
        _ => None,
    }
}

/// Block inclusion distance of a confirmation.
pub fn block_distance(submit_block: Option<u64>, confirm_block: Option<u64>) -> (r: Option<u64>)
    ensures
        r == block_distance_spec(submit_block, confirm_block),
{
    match (submit_block, confirm_block) {
        (Some(s), Some(c)) => if c >= s {
            Some(c - s)
        } else {
            None
        },
        _ => None,
    }
}

/// The record that joining a submission result with its terminal
/// confirmation outcome yields: phase durations are kept separately and
/// the total is their sum (saturating at the duration type's bound).
pub open spec fn joined_record(sub: SubmissionResult, out: ConfirmationOutcome) -> LatencyRecord {
    LatencyRecord {
        id: sub.id,
        send_ms: sub.send_ms,
        confirm_ms: out.confirm_ms,
        total_ms: if sub.send_ms + out.confirm_ms > u64::MAX {
            u64::MAX
        } else {
            (sub.send_ms + out.confirm_ms) as u64
        },
        status: status_of_confirmation(out.status),
    }
}

/// Joins a submission result with its terminal confirmation outcome
/// into a latency record.
pub fn join_record(sub: SubmissionResult, out: ConfirmationOutcome) -> (r: LatencyRecord)
    requires
        out.status != ConfirmationStatus::Pending,
    ensures
        r == joined_record(sub, out),
{
    let total: u64 = if sub.send_ms <= u64::MAX - out.confirm_ms {
        sub.send_ms + out.confirm_ms
    } else {
        u64::MAX
    };
    LatencyRecord {
        id: sub.id,
        send_ms: sub.send_ms,
        confirm_ms: out.confirm_ms,
        total_ms: total,
        status: match out.status {
            ConfirmationStatus::Confirmed { block: _, success } => if success {
                FinalStatus::Success
            } else {
                FinalStatus::Failed
            },
            _ => FinalStatus::Unknown,
        },
    }
}

/// The timing shape of a strategy whose single call both submits and
/// confirms: the confirm phase is not independently observable, so it
/// is reported as exactly zero and the send phase equals the total.
pub open spec fn single_call_record_spec(
    id: Vec<u8>,
    total_ms: u64,
    status: FinalStatus,
) -> LatencyRecord {
    LatencyRecord { id, send_ms: total_ms, confirm_ms: 0, total_ms, status }
}

/// Builds the latency record for a single-call (submit-and-wait)
/// strategy: confirm-phase duration is exactly zero and the total
/// equals the send duration.
pub fn single_call_record(id: Vec<u8>, total_ms: u64, status: FinalStatus) -> (r: LatencyRecord)
    ensures
        r == single_call_record_spec(id, total_ms, status),
        r.confirm_ms == 0,
        r.total_ms == r.send_ms,
{
    LatencyRecord { id, send_ms: total_ms, confirm_ms: 0, total_ms, status }
}

} // verus!
