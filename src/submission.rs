//! What follows a broadcast: reporting it pending, or waiting for inclusion.

use vstd::prelude::*;

use crate::outcome::{classified, result_from_error, RevertSelectors, TransactionOutcome};

verus! {

/// Whether the caller waits for inclusion: yes unless it asked not to.
pub open spec fn waits(wait: Option<bool>) -> bool {
    wait != Some(false)
}

/// What the chain connection reported for a broadcast.
#[derive(Clone, Debug)]
pub enum BroadcastReport {
    /// The transaction was accepted into the pool under this hash.
    Sent { hash: [u8; 32] },
    /// The broadcast failed, with the contract's revert payload if it reverted.
    Rejected { revert: Option<Vec<u8>>, message: String },
}

/// What to do next with a submission.
#[derive(Clone, Debug)]
pub enum SubmitStep {
    /// Wait for the receipt of the transaction with this hash.
    AwaitReceipt { hash: [u8; 32] },
    /// The submission is over.
    Finished { outcome: TransactionOutcome },
}

/// Why a submission whose inclusion was awaited has no outcome.
#[derive(Clone, Copy, Debug, PartialEq, Eq, Structural)]
pub enum SubmitError {
    /// Waiting ended without a receipt.
    MissingReceipt,
}

/// The step that follows a successful broadcast.
pub open spec fn sent_step(wait: Option<bool>, hash: [u8; 32]) -> SubmitStep {
    if waits(wait) {
        SubmitStep::AwaitReceipt { hash }
    } else {
        SubmitStep::Finished { outcome: TransactionOutcome::Pending { hash } }
    }
}

/// The result once waiting for a receipt has ended.
pub open spec fn receipt_result(hash: [u8; 32], receipt_found: bool) -> Result<
    TransactionOutcome,
    SubmitError,
> {
    if receipt_found {
        Ok(TransactionOutcome::Success { hash })
    } else {
        Err(SubmitError::MissingReceipt)
    }
}

/// The optional revert payload of a report, as a sequence.
pub open spec fn revert_of(revert: Option<Vec<u8>>) -> Option<Seq<u8>> {
    match revert {
        Some(v) => Some(v@),
        None => None,
    }
}

/// Whether the caller waits for inclusion (the default is to wait).
pub fn wait_or_default(wait: Option<bool>) -> (r: bool)
    ensures
        r == waits(wait),
{
    match wait {
        Some(w) => w,
        None => true,
    }
}

/// Decides what follows a broadcast: a sent transaction is awaited or reported
/// pending, as the caller asked; a failed one is classified.
pub fn after_broadcast(wait: Option<bool>, report: BroadcastReport, selectors: &RevertSelectors) -> (r:
    SubmitStep)
    ensures
        report matches BroadcastReport::Sent { hash } ==> r == sent_step(wait, hash),
        report matches BroadcastReport::Rejected { revert, message } ==> r matches SubmitStep::Finished {
            outcome,
        } && classified(outcome, revert_of(revert), message@, *selectors),
{
    match report {
        BroadcastReport::Sent { hash } => {
            if wait_or_default(wait) {
                SubmitStep::AwaitReceipt { hash }
            } else {
                SubmitStep::Finished { outcome: TransactionOutcome::Pending { hash } }
            }
        },
        BroadcastReport::Rejected { revert, message } => {
            let outcome = match &revert {
                Some(data) => result_from_error(Some(data.as_slice()), message, selectors),
                None => result_from_error(None, message, selectors),
            };
            SubmitStep::Finished { outcome }
        },
    }
}

/// Ends an awaited submission: success with the broadcast hash when a receipt
/// was observed.
pub fn after_receipt(hash: [u8; 32], receipt_found: bool) -> (r: Result<
    TransactionOutcome,
    SubmitError,
>)
    ensures
        r == receipt_result(hash, receipt_found),
{
    if receipt_found {
        Ok(TransactionOutcome::Success { hash })
    } else {
        Err(SubmitError::MissingReceipt)
    }
}

/// Wait semantics: a caller that asked not to wait gets `Pending` with the
/// broadcast hash at once; any other caller waits for the receipt and then
/// gets `Success` with the same hash.
pub proof fn lemma_wait_semantics(wait: Option<bool>, hash: [u8; 32])
    ensures
        wait == Some(false) ==> sent_step(wait, hash) == (SubmitStep::Finished {
            outcome: TransactionOutcome::Pending { hash },
        }),
        wait != Some(false) ==> sent_step(wait, hash) == (SubmitStep::AwaitReceipt { hash })
            && receipt_result(hash, true) == Ok::<TransactionOutcome, SubmitError>(
            TransactionOutcome::Success { hash },
        ),
{
}

} // verus!
