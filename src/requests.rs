//! Requests, their descriptions, and the replies sent for rejections and outcomes.

use vstd::prelude::*;
use vstd::string::StringExecFns;

use crate::outcome::TransactionOutcome;
use crate::submission::{wait_or_default, waits};

verus! {

/// A request to drip funds to an address.
#[derive(Clone, Debug)]
pub struct DripRequest {
    /// The address to send the drip to.
    pub address: String,
    /// The captcha response to validate.
    pub ts_response: String,
    /// Whether to wait for the transaction to complete (default: yes).
    pub wait: Option<bool>,
}

/// A request to register an address on the chain.
#[derive(Clone, Debug)]
pub struct RegisterRequest {
    /// The address to register.
    pub address: String,
    /// Whether to wait for the transaction to complete (default: yes).
    pub wait: Option<bool>,
}

/// A malformed or refused request, with the reason.
#[derive(Clone, Debug)]
pub struct BadRequest {
    pub message: String,
}

/// The recipient asked too often.
#[derive(Clone, Copy, Debug)]
pub struct TooManyRequests {}

/// The faucet has nothing left to give.
#[derive(Clone, Copy, Debug)]
pub struct FaucetEmpty {}

/// The text of a flag in a request description.
pub open spec fn bool_text(b: bool) -> Seq<char> {
    if b {
        "true"@
    } else {
        "false"@
    }
}

fn bool_string(b: bool) -> (r: String)
    ensures
        r@ == bool_text(b),
{
    if b {
        String::from_str("true")
    } else {
        String::from_str("false")
    }
}

impl DripRequest {
    /// Whether the caller waits for inclusion.
    pub fn wait_for_receipt(&self) -> (r: bool)
        ensures
            r == waits(self.wait),
    {
        wait_or_default(self.wait)
    }

    /// One-line description of the request, for the request log.
    pub fn describe(&self) -> (r: String)
        ensures
            r@ == "address: "@ + self.address@ + ", ts_response: "@ + self.ts_response@
                + ", wait: "@ + bool_text(waits(self.wait)),
    {
        let r = String::from_str("address: ");
        let r = r.concat(self.address.as_str());
        let r = r.concat(", ts_response: ");
        let r = r.concat(self.ts_response.as_str());
        let r = r.concat(", wait: ");
        let w = bool_string(self.wait_for_receipt());
        r.concat(w.as_str())
    }
}

impl RegisterRequest {
    /// Whether the caller waits for inclusion.
    pub fn wait_for_receipt(&self) -> (r: bool)
        ensures
            r == waits(self.wait),
    {
        wait_or_default(self.wait)
    }

    /// One-line description of the request, for the request log.
    pub fn describe(&self) -> (r: String)
        ensures
            r@ == "address: "@ + self.address@ + ", wait: "@ + bool_text(waits(self.wait)),
    {
        let r = String::from_str("address: ");
        let r = r.concat(self.address.as_str());
        let r = r.concat(", wait: ");
        let w = bool_string(self.wait_for_receipt());
        r.concat(w.as_str())
    }
}

/// Why a request was turned down.
#[derive(Clone, Debug)]
pub enum RejectionKind {
    /// No route matched.
    NotFound,
    /// The request was refused, with the reason.
    BadRequest(BadRequest),
    /// The recipient asked too often.
    TooManyRequests(TooManyRequests),
    /// The faucet has nothing left to give.
    FaucetEmpty(FaucetEmpty),
    /// The body could not be decoded, with the decoder's reason.
    InvalidBody { detail: String },
    /// A header had an unexpected value.
    InvalidHeader,
    /// The route exists but not for this method.
    MethodNotAllowed,
    /// Anything else.
    Other,
}

/// The status code and message returned to the client.
#[derive(Clone, Debug)]
pub struct ErrorMessage {
    pub code: u16,
    pub message: String,
}

/// The status code of a rejection.
pub open spec fn status_of(kind: RejectionKind) -> u16 {
    match kind {
        RejectionKind::NotFound => 404,
        RejectionKind::BadRequest(_) => 400,
        RejectionKind::TooManyRequests(_) => 429,
        RejectionKind::FaucetEmpty(_) => 503,
        RejectionKind::InvalidBody { .. } => 400,
        RejectionKind::InvalidHeader => 400,
        RejectionKind::MethodNotAllowed => 405,
        RejectionKind::Other => 500,
    }
}

/// The message of a rejection.
pub open spec fn message_of(kind: RejectionKind) -> Seq<char> {
    match kind {
        RejectionKind::NotFound => "not found"@,
        RejectionKind::BadRequest(e) => e.message@,
        RejectionKind::TooManyRequests(_) => "too many requests"@,
        RejectionKind::FaucetEmpty(_) => "faucet empty"@,
        RejectionKind::InvalidBody { detail } => "invalid request body: "@ + detail@,
        RejectionKind::InvalidHeader => "invalid header value"@,
        RejectionKind::MethodNotAllowed => "method not allowed"@,
        RejectionKind::Other => "internal server error"@,
    }
}

/// Turns a rejection into the status code and message sent to the client.
pub fn error_reply(kind: RejectionKind) -> (r: ErrorMessage)
    ensures
        r.code == status_of(kind),
        r.message@ == message_of(kind),
{
    match kind {
        RejectionKind::NotFound => ErrorMessage { code: 404, message: String::from_str("not found") },
        RejectionKind::BadRequest(e) => ErrorMessage { code: 400, message: e.message },
        RejectionKind::TooManyRequests(_) => ErrorMessage {
            code: 429,
            message: String::from_str("too many requests"),
        },
        RejectionKind::FaucetEmpty(_) => ErrorMessage {
            code: 503,
            message: String::from_str("faucet empty"),
        },
        RejectionKind::InvalidBody { detail } => {
            let message = String::from_str("invalid request body: ").concat(detail.as_str());
            ErrorMessage { code: 400, message }
        },
        RejectionKind::InvalidHeader => ErrorMessage {
            code: 400,
            message: String::from_str("invalid header value"),
        },
        RejectionKind::MethodNotAllowed => ErrorMessage {
            code: 405,
            message: String::from_str("method not allowed"),
        },
        RejectionKind::Other => ErrorMessage {
            code: 500,
            message: String::from_str("internal server error"),
        },
    }
}

/// The reply to a submission: the transaction hash when it went out, else the
/// rejection that the outcome calls for.
pub fn outcome_reply(outcome: TransactionOutcome) -> (r: Result<[u8; 32], RejectionKind>)
    ensures
        match outcome {
            TransactionOutcome::Success { hash } => r == Ok::<[u8; 32], RejectionKind>(hash),
            TransactionOutcome::Pending { hash } => r == Ok::<[u8; 32], RejectionKind>(hash),
            TransactionOutcome::RateLimited => r matches Err(RejectionKind::TooManyRequests(_)),
            TransactionOutcome::ResourceExhausted => r matches Err(RejectionKind::FaucetEmpty(_)),
            TransactionOutcome::Failure { message } => r matches Err(RejectionKind::BadRequest(e))
                && e.message@ == message@,
        },
{
    match outcome {
        TransactionOutcome::Success { hash } => Ok(hash),
        TransactionOutcome::Pending { hash } => Ok(hash),
        TransactionOutcome::RateLimited => Err(RejectionKind::TooManyRequests(TooManyRequests {})),
        TransactionOutcome::ResourceExhausted => Err(RejectionKind::FaucetEmpty(FaucetEmpty {})),
        TransactionOutcome::Failure { message } => Err(
            RejectionKind::BadRequest(BadRequest { message }),
        ),
    }
}

} // verus!
