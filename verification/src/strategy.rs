//! Submission strategies and the run configuration.
//!
//! A strategy decides how a signed transaction becomes a confirmed
//! receipt: by submitting and then polling (`AsyncPoll`), or by a
//! single call that only returns once the transaction is confirmed
//! (`SyncSingleCall`, `RealtimePush`).  The polling decision logic is a
//! pure function from the observed state to the next action; the RPC
//! calls and delays themselves are the embedding application's.

use vstd::prelude::*;
use crate::clock::{elapsed_spec, LatencyClock};
use crate::records::{
    block_distance_spec,
    confirmation_of_receipt,
    single_call_record_spec,
    ConfirmationOutcome,
    ConfirmationStatus,
    FinalStatus,
    LatencyRecord,
    ReceiptInfo,
    TxError,
};

verus! {

/// How a signed transaction is submitted and confirmed.
#[derive(Clone, Copy, PartialEq, Eq, Debug, Structural)]
pub enum StrategyKind {
    /// Submit, obtain an identifier, then poll for the receipt.
    AsyncPoll,
    /// One synchronous call that returns only after confirmation.
    SyncSingleCall,
    /// Submit via a method whose reply is pushed at confirmation time.
    RealtimePush,
}

/// Whether the strategy's one submission call already waits for
/// confirmation, so that the confirm phase is not independently
/// observable.
pub open spec fn is_single_call(k: StrategyKind) -> bool {
    k != StrategyKind::AsyncPoll
}

/// Order in which a batch's submissions and confirmations interleave.
#[derive(Clone, Copy, PartialEq, Eq, Debug, Structural)]
pub enum Sequencing {
    /// Fully resolve transaction `i` before submitting `i + 1`.
    Sequential,
    /// Submit all transactions, then drain the confirmations.
    Pipelined,
}

/// A run configuration: which strategy, how many transactions, in what
/// sequencing, and the polling parameters.
#[derive(Clone, Copy, PartialEq, Eq, Debug, Structural)]
pub struct RunConfig {
    /// The submission strategy.
    pub strategy: StrategyKind,
    /// Number of transactions to submit; must be positive.
    pub transaction_count: u64,
    /// The sequencing policy.
    pub sequencing: Sequencing,
    /// Delay between confirmation polls; `None` means busy-polling
    /// with no inter-poll delay.
    pub poll_interval_ms: Option<u64>,
    /// Upper bound on one transaction's confirmation wait; `None`
    /// means unbounded waiting.
    pub confirmation_timeout_ms: Option<u64>,
}

impl RunConfig {
    /// A configuration is valid exactly when it asks for at least one
    /// transaction.
    pub open spec fn valid(self) -> bool {
        self.transaction_count > 0
    }

    /// Checks the configuration before any submission begins.
    pub fn validate(&self) -> (r: Result<(), TxError>)
        ensures
            r is Ok <==> self.valid(),
            !self.valid() ==> r == Err::<(), TxError>(TxError::InvalidConfiguration),
    {
        if self.transaction_count == 0 {
            Err(TxError::InvalidConfiguration)
        } else {
            Ok(())
        }
    }

    /// The inter-poll delay the configuration asks for: the configured
    /// interval, or zero (busy-poll) when none is configured.
    pub open spec fn poll_delay_spec(self) -> u64 {
        match self.poll_interval_ms {
            Some(d) => d,
            None => 0u64,
        }
    }

    /// Inter-poll delay in milliseconds.
    pub fn poll_delay_ms(&self) -> (d: u64)
        ensures
            d == self.poll_delay_spec(),
    {
        match self.poll_interval_ms {
            Some(d) => d,
            None => 0,
        }
    }
}

/// The next action after one receipt query in the polling loop.
#[derive(Clone, PartialEq, Eq, Debug)]
pub enum PollStep {
    /// A receipt was observed; confirmation is terminal.
    Finished(ConfirmationOutcome),
    /// No receipt, and the confirmation wait bound is exhausted; the
    /// outcome is terminal with status `Unknown`.
    TimedOut(ConfirmationOutcome),
    /// No receipt yet; query again after the given delay.
    Poll {
        /// Delay before the next query, in milliseconds.
        delay_ms: u64,
    },
}

/// What one step of the confirmation-polling loop decides, given the
/// queried identifier, the configured bounds, the confirm-phase time
/// elapsed so far, the block height observed at submission time, and
/// the receipt the query returned (if any).
pub open spec fn poll_action(
    id: Vec<u8>,
    timeout_ms: Option<u64>,
    poll_interval_ms: Option<u64>,
    elapsed: u64,
    submit_block: Option<u64>,
    receipt: Option<ReceiptInfo>,
) -> PollStep {
    match receipt {
        Some(r) => PollStep::Finished(
            ConfirmationOutcome {
                id,
                status: confirmation_of_receipt(r),
                confirm_ms: elapsed,
                block_distance: block_distance_spec(submit_block, r.block_number),
            },
        ),
        None => if timeout_ms is Some && elapsed >= timeout_ms->0 {
            PollStep::TimedOut(
                ConfirmationOutcome {
                    id,
                    status: ConfirmationStatus::Unknown,
                    confirm_ms: elapsed,
                    block_distance: None,
                },
            )
        } else {
            PollStep::Poll {
                delay_ms: match poll_interval_ms {
                    Some(d) => d,
                    None => 0u64,
                },
            }
        },
    }
}

/// One step of the confirmation-polling loop for a single transaction.
pub fn poll_step(
    id: Vec<u8>,
    timeout_ms: Option<u64>,
    poll_interval_ms: Option<u64>,
    elapsed: u64,
    submit_block: Option<u64>,
    receipt: Option<ReceiptInfo>,
) -> (step: PollStep)
    ensures
        step == poll_action(id, timeout_ms, poll_interval_ms, elapsed, submit_block, receipt),
{
    match receipt {
        Some(r) => {
            let status = match r.status {
                Some(c) => ConfirmationStatus::Confirmed { block: r.block_number, success: c == 1 },
                None => ConfirmationStatus::Unknown,
            };
            let distance = crate::records::block_distance(submit_block, r.block_number);
            PollStep::Finished(
                ConfirmationOutcome { id, status, confirm_ms: elapsed, block_distance: distance },
            )
        },
        None => {
            let timed_out = match timeout_ms {
                Some(t) => elapsed >= t,
                None => false,
            };
            if timed_out {
                PollStep::TimedOut(
                    ConfirmationOutcome {
                        id,
                        status: ConfirmationStatus::Unknown,
                        confirm_ms: elapsed,
                        block_distance: None,
                    },
                )
            } else {
                PollStep::Poll {
                    delay_ms: match poll_interval_ms {
                        Some(d) => d,
                        None => 0,
                    },
                }
            }
        },
    }
}

/// With an immediate (zero) confirmation timeout and no receipt, the
/// polling loop never asks to poll again: the very first step is a
/// terminal outcome with status `Unknown`.
pub proof fn lemma_zero_timeout_is_terminal(
    id: Vec<u8>,
    poll_interval_ms: Option<u64>,
    elapsed: u64,
    submit_block: Option<u64>,
)
    ensures
        poll_action(id, Some(0), poll_interval_ms, elapsed, submit_block, None) is TimedOut,
        poll_action(id, Some(0), poll_interval_ms, elapsed, submit_block, None)->TimedOut_0.status
            == ConfirmationStatus::Unknown,
{
}

/// Every record a single-call strategy produces has a confirm-phase
/// duration of exactly zero and a total equal to the send duration.
pub proof fn lemma_single_call_shape(id: Vec<u8>, total_ms: u64, status: FinalStatus)
    ensures
        single_call_record_spec(id, total_ms, status).confirm_ms == 0,
        single_call_record_spec(id, total_ms, status).total_ms == single_call_record_spec(
            id,
            total_ms,
            status,
        ).send_ms,
{
}

/// Builds the latency record one strategy run yields from its clock,
/// identifier and terminal status, honouring the strategy's timing
/// shape: single-call strategies report a zero confirm phase and a
/// send phase equal to the total; the polling strategy reports the
/// three measured intervals.
pub fn strategy_record(
    kind: StrategyKind,
    clock: &LatencyClock,
    id: Vec<u8>,
    status: FinalStatus,
) -> (r: LatencyRecord)
    ensures
        is_single_call(kind) ==> r == single_call_record_spec(
            id,
            elapsed_spec(clock.send_start, clock.confirm_end),
            status,
        ),
        !is_single_call(kind) ==> r.id == id && r.send_ms == elapsed_spec(
            clock.send_start,
            clock.send_end,
        ) && r.confirm_ms == elapsed_spec(clock.send_end, clock.confirm_end) && r.total_ms
            == elapsed_spec(clock.send_start, clock.confirm_end) && r.status == status,
{
    match kind {
        StrategyKind::AsyncPoll => (*clock).into_record(id, status),
        _ => crate::records::single_call_record(id, clock.total_ms(), status),
    }
}

} // verus!
