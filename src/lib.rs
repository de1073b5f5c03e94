//! Core of an account-bootstrap faucet: fee estimation for dynamic-fee
//! transactions, serialization of the broadcast step for one signing key, and
//! classification of broadcast outcomes.

pub mod fees;
pub mod outcome;
pub mod serializer;
pub mod submission;
pub mod requests;

pub use fees::{
    base_fee_surged, estimate_priority_fee, lemma_first_max_index_is_first_max,
    lemma_spike_takes_tail_median, percentage_change, premium_estimation, FeeError,
    FeeRecommendation,
};
pub use outcome::{error_selector, result_from_error, RevertSelectors, TransactionOutcome};
pub use serializer::{
    lemma_mutual_exclusion, SectionOp, SerializingMiddleware, SerializingMiddlewareError, TxnSection,
};
pub use submission::{
    after_broadcast, after_receipt, lemma_wait_semantics, wait_or_default, BroadcastReport,
    SubmitError, SubmitStep,
};
pub use requests::{
    error_reply, outcome_reply, BadRequest, DripRequest, ErrorMessage, FaucetEmpty,
    RegisterRequest, RejectionKind, TooManyRequests,
};
