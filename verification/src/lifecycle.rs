//! The transaction lifecycle: submit, wait once, classify, stop.
//!
//! One decided action runs through one pass of this state machine:
//! `Decided` → `Submitting` → (`Done` on a rejected submission, else
//! `Submitted`) → `AwaitingReceipt` → `Done`. The `Done` phase is
//! terminal in every case: no outcome — not even a timeout — triggers
//! an internal retry. Retry responsibility belongs entirely to the next
//! poll cycle's fresh evaluation of the idempotent decision rules,
//! which avoids duplicate submissions racing an in-flight transaction.
//!
//! The effectful steps (sending the transaction, waiting with a
//! timeout) happen outside the library; what each of them yielded is
//! handed back in as a plain value and classified here.

use crate::ids::TxId;
use vstd::prelude::*;

verus! {

/// What the transport reported for a submitted transaction.
#[derive(Clone, Debug)]
pub struct ReceiptData {
    /// Whether the transaction succeeded on chain. An on-chain failure
    /// is reported, not treated as a process error.
    pub success: bool,
    /// The block that included the transaction.
    pub block: u64,
}

/// How one bounded receipt wait ended.
#[derive(Clone, Debug)]
pub enum ReceiptWait {
    /// The wait resolved with a receipt.
    Receipt(ReceiptData),
    /// The wait resolved, but without a receipt.
    NoReceipt,
    /// The wait itself failed.
    WaitError(String),
    /// The configured timeout elapsed first.
    TimedOut,
}

/// The terminal result of one submitted action.
#[derive(Clone, Debug)]
pub enum ActionOutcome {
    /// Submission was accepted; no receipt has been classified yet.
    Sent { tx_id: TxId },
    /// A receipt arrived within the bound.
    Confirmed { tx_id: TxId, success: bool, block: u64 },
    /// The wait resolved but yielded no receipt: an anomaly, not a
    /// crash.
    ReceiptMissing { tx_id: TxId },
    /// The wait failed.
    ReceiptError { tx_id: TxId, cause: String },
    /// The timeout elapsed before a receipt arrived.
    ReceiptTimeout { tx_id: TxId },
    /// The submission itself was rejected; nothing was waited for.
    SubmitFailed { cause: String },
}

/// The phase one action is in.
#[derive(Clone, Debug)]
pub enum TxPhase {
    /// A rule fired; nothing has been sent.
    Decided,
    /// The submission call is in flight.
    Submitting,
    /// The submission was accepted under this transaction id.
    Submitted { tx_id: TxId },
    /// The bounded receipt wait is in flight.
    AwaitingReceipt { tx_id: TxId },
    /// The action is over; only the outcome remains.
    Done { outcome: ActionOutcome },
}

/// The transition relation of the lifecycle. `Done` has no successor.
pub open spec fn phase_step(pre: TxPhase, post: TxPhase) -> bool {
    match pre {
        TxPhase::Decided => post is Submitting,
        TxPhase::Submitting => ({
            ||| post is Submitted
            ||| post matches TxPhase::Done { outcome: ActionOutcome::SubmitFailed { .. } }
        }),
        TxPhase::Submitted { tx_id } => post == (TxPhase::AwaitingReceipt { tx_id }),
        TxPhase::AwaitingReceipt { tx_id } => ({
            &&& post matches TxPhase::Done { outcome }
            &&& match outcome {
                ActionOutcome::Confirmed { tx_id: t, .. } => t == tx_id,
                ActionOutcome::ReceiptMissing { tx_id: t } => t == tx_id,
                ActionOutcome::ReceiptError { tx_id: t, .. } => t == tx_id,
                ActionOutcome::ReceiptTimeout { tx_id: t } => t == tx_id,
                _ => false,
            }
        }),
        TxPhase::Done { .. } => false,
    }
}

/// Enters the submission call.
pub fn begin_submit(phase: TxPhase) -> (next: TxPhase)
    requires
        phase is Decided,
    ensures
        next is Submitting,
        phase_step(phase, next),
{
    TxPhase::Submitting
}

/// Classifies what the submission call returned: an accepted
/// submission carries its transaction id forward, a rejected one ends
/// the lifecycle at `SubmitFailed` and no wait is attempted.
pub fn on_submit_result(phase: TxPhase, result: Result<TxId, String>) -> (next: TxPhase)
    requires
        phase is Submitting,
    ensures
        phase_step(phase, next),
        result matches Ok(tx_id) ==> next == (TxPhase::Submitted { tx_id }),
        result matches Err(cause) ==> next == (TxPhase::Done {
            outcome: ActionOutcome::SubmitFailed { cause },
        }),
{
    match result {
        Ok(tx_id) => TxPhase::Submitted { tx_id },
        Err(cause) => TxPhase::Done { outcome: ActionOutcome::SubmitFailed { cause } },
    }
}

/// Enters the bounded receipt wait for an accepted submission.
pub fn begin_receipt_wait(phase: TxPhase) -> (next: TxPhase)
    requires
        phase is Submitted,
    ensures
        phase_step(phase, next),
        next == (TxPhase::AwaitingReceipt { tx_id: phase->Submitted_tx_id }),
{
    match phase {
        TxPhase::Submitted { tx_id } => TxPhase::AwaitingReceipt { tx_id },
        _ => phase,
    }
}

/// Classifies how the bounded receipt wait ended. Each of the four
/// sub-outcomes maps to exactly one terminal outcome; a wait that hit
/// the timeout yields `ReceiptTimeout` and nothing further happens to
/// the action this cycle.
pub fn on_receipt_result(phase: TxPhase, wait: ReceiptWait) -> (next: TxPhase)
    requires
        phase is AwaitingReceipt,
    ensures
        phase_step(phase, next),
        wait matches ReceiptWait::Receipt(r) ==> next == (TxPhase::Done {
            outcome: ActionOutcome::Confirmed {
                tx_id: phase->AwaitingReceipt_tx_id,
                success: r.success,
                block: r.block,
            },
        }),
        wait is NoReceipt ==> next == (TxPhase::Done {
            outcome: ActionOutcome::ReceiptMissing { tx_id: phase->AwaitingReceipt_tx_id },
        }),
        wait matches ReceiptWait::WaitError(cause) ==> next == (TxPhase::Done {
            outcome: ActionOutcome::ReceiptError { tx_id: phase->AwaitingReceipt_tx_id, cause },
        }),
        wait is TimedOut ==> next == (TxPhase::Done {
            outcome: ActionOutcome::ReceiptTimeout { tx_id: phase->AwaitingReceipt_tx_id },
        }),
{
    match phase {
        TxPhase::AwaitingReceipt { tx_id } => match wait {
            ReceiptWait::Receipt(r) => TxPhase::Done {
                outcome: ActionOutcome::Confirmed { tx_id, success: r.success, block: r.block },
            },
            ReceiptWait::NoReceipt => TxPhase::Done {
                outcome: ActionOutcome::ReceiptMissing { tx_id },
            },
            ReceiptWait::WaitError(cause) => TxPhase::Done {
                outcome: ActionOutcome::ReceiptError { tx_id, cause },
            },
            ReceiptWait::TimedOut => TxPhase::Done {
                outcome: ActionOutcome::ReceiptTimeout { tx_id },
            },
        },
        _ => phase,
    }
}

/// No outcome triggers an internal retry: the `Done` phase has no
/// successor in the transition relation, whatever the outcome was.
pub proof fn lemma_done_is_terminal(outcome: ActionOutcome, post: TxPhase)
    ensures
        !phase_step(TxPhase::Done { outcome }, post),
{
}

} // verus!
