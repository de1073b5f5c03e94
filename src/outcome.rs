//! Classification of failed broadcasts by the selector of the contract error.

use vstd::prelude::*;
use vstd::string::StringSliceAdditionalSpecFns;

verus! {

/// The Keccak-256 digest of a byte string.
pub uninterp spec fn keccak256_of(bytes: Seq<u8>) -> Seq<u8>;

/// Relies on `ethers::utils::keccak256`: the 32-byte Keccak-256 digest of `bytes`.
#[verifier::external_body]
fn keccak256(bytes: &[u8]) -> (r: [u8; 32])
    ensures
        r@ == keccak256_of(bytes@),
{
    ethers::utils::keccak256(bytes)
}

/// The selector of an error signature: the first four bytes of its digest.
pub open spec fn selector_spec(signature: Seq<u8>) -> Seq<u8> {
    keccak256_of(signature).take(4)
}

/// Computes the selector of the error signature `signature` (such as `"TryLater()"`).
pub fn error_selector(signature: &str) -> (r: [u8; 4])
    ensures
        r@ == selector_spec(signature.spec_bytes()),
{
    let digest = keccak256(signature.as_bytes());
    let r = [digest[0], digest[1], digest[2], digest[3]];
    assert(r@ =~= digest@.take(4));
    r
}

/// The selectors of the contract errors that carry a meaning of their own.
#[derive(Clone, Copy, Debug)]
pub struct RevertSelectors {
    /// Selector of `TryLater()`: the recipient asked too often.
    pub try_later: [u8; 4],
    /// Selector of `FaucetEmpty()`: the faucet has nothing left to give.
    pub faucet_empty: [u8; 4],
}

impl RevertSelectors {
    /// Computes both selectors from their error signatures.
    pub fn new() -> (r: RevertSelectors)
        ensures
            r.try_later@ == selector_spec("TryLater()".spec_bytes()),
            r.faucet_empty@ == selector_spec("FaucetEmpty()".spec_bytes()),
    {
        RevertSelectors {
            try_later: error_selector("TryLater()"),
            faucet_empty: error_selector("FaucetEmpty()"),
        }
    }
}

/// What became of one submission attempt.
#[derive(Clone, Debug)]
pub enum TransactionOutcome {
    /// Broadcast, and its receipt was observed.
    Success { hash: [u8; 32] },
    /// Broadcast; inclusion was not awaited.
    Pending { hash: [u8; 32] },
    /// The contract asked the caller to try later.
    RateLimited,
    /// The contract has nothing left to hand out.
    ResourceExhausted,
    /// Any other failure, with the underlying error text.
    Failure { message: String },
}

/// Whether a revert payload starts with `selector`.
pub open spec fn starts_with(data: Seq<u8>, selector: Seq<u8>) -> bool {
    data.len() >= 4 && data.take(4) == selector
}

/// The revert payload names the "try later" error.
pub open spec fn is_rate_limited(revert: Option<Seq<u8>>, sel: RevertSelectors) -> bool {
    revert matches Some(data) && starts_with(data, sel.try_later@)
}

/// The revert payload names the "faucet empty" error (and not the "try later" one).
pub open spec fn is_exhausted(revert: Option<Seq<u8>>, sel: RevertSelectors) -> bool {
    revert matches Some(data) && !starts_with(data, sel.try_later@) && starts_with(
        data,
        sel.faucet_empty@,
    )
}

/// The view of an optional revert payload.
pub open spec fn revert_view(revert: Option<&[u8]>) -> Option<Seq<u8>> {
    match revert {
        Some(d) => Some(d@),
        None => None,
    }
}

/// The outcome a failed broadcast is classified as, given the underlying error text.
pub open spec fn classified(
    r: TransactionOutcome,
    revert: Option<Seq<u8>>,
    message: Seq<char>,
    sel: RevertSelectors,
) -> bool {
    if is_rate_limited(revert, sel) {
        r is RateLimited
    } else if is_exhausted(revert, sel) {
        r is ResourceExhausted
    } else {
        r matches TransactionOutcome::Failure { message: m } && m@ == message
    }
}

fn starts_with_selector(data: &[u8], selector: &[u8; 4]) -> (r: bool)
    requires
        data@.len() >= 4,
    ensures
        r == (data@.take(4) == selector@),
{
    let r = data[0] == selector[0] && data[1] == selector[1] && data[2] == selector[2] && data[3]
        == selector[3];
    proof {
        let t = data@.take(4);
        if r {
            assert(t =~= selector@);
        } else {
            assert(t[0] != selector@[0] || t[1] != selector@[1] || t[2] != selector@[2] || t[3]
                != selector@[3]);
        }
    }
    r
}

/// Classifies a failed broadcast from its revert payload, if any, and the
/// error text: a payload that starts with a known selector is a business
/// outcome; anything else is a failure that keeps the text.
pub fn result_from_error(revert: Option<&[u8]>, message: String, selectors: &RevertSelectors) -> (r:
    TransactionOutcome)
    ensures
        classified(r, revert_view(revert), message@, *selectors),
{
    match revert {
        Some(data) => {
            if data.len() < 4 {
                return TransactionOutcome::Failure { message };
            }
            if starts_with_selector(data, &selectors.try_later) {
                TransactionOutcome::RateLimited
            } else if starts_with_selector(data, &selectors.faucet_empty) {
                TransactionOutcome::ResourceExhausted
            } else {
                TransactionOutcome::Failure { message }
            }
        },
        None => TransactionOutcome::Failure { message },
    }
}

} // verus!
