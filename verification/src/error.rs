//! The failure taxonomy of the pipeline.  Every stage returns a typed error
//! naming the stage that failed, so a caller can tell "never got on-chain"
//! apart from "got on-chain and reverted".
use vstd::prelude::*;

use crate::tx::TxClass;

verus! {

/// Why an unsigned transaction could not be built from a request.
#[derive(Clone, Copy, Debug, PartialEq, Eq, Structural)]
pub enum BuildFault {
    MissingTo,
    MissingNonce,
    MissingChainId,
    MissingGasLimit,
    MissingGasPrice,
    MissingFeePair,
    ConflictingFeeFields,
}

/// A typed failure of one pipeline stage.  String payloads carry the
/// underlying backend's own message; they never influence control flow.
#[derive(Clone, Debug, PartialEq, Eq)]
pub enum Error {
    /// Key or message-signing failure; never retried.
    Sign(String),
    /// A chain-service query (nonce, fee, gas estimate, broadcast) failed.
    Rpc(String),
    /// The broadcast was accepted but waiting for the receipt failed.
    PendingTx(String),
    /// Included on-chain and reverted: the nonce is consumed.
    TransactionFailed,
    /// Reading an on-chain value (such as an allowance) failed.
    Contract(String),
    /// A transaction class outside the two supported encodings.
    UnexpectedTxType(TxClass),
    /// The request was missing or mixing mandatory fields.
    UnbuiltTx(BuildFault),
    /// A proof string held something besides even-length hex bytes.
    FromHex,
    /// A proof string was not a JSON list of strings.
    ProofParse,
    /// An HTTP exchange with the airdrop service failed.
    Request(String),
    /// The airdrop service answered without data for the asked token.
    NoClaimDataAvailable,
    /// The system clock stands before the Unix epoch.
    Timestamp,
}

} // verus!
