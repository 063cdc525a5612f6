//! Receipt classification, the last pipeline stage.  Broadcasting and
//! waiting belong to the driver; what the receipt means — success carrying
//! the transaction hash, or the distinct transaction-failed error for an
//! included-but-reverted transaction — is decided here.
use vstd::prelude::*;

use vstd::string::StringExecFns;

use crate::error::Error;
use crate::textfmt::hex_of;
use crate::textfmt::push_hex;

verus! {

/// The chain-confirmed outcome of a broadcast envelope: the inclusion
/// hash and the binary execution status.  It does not exist before the
/// chain includes the transaction, and is terminal once observed.
pub struct Receipt {
    pub transaction_hash: Vec<u8>,
    pub status: bool,
}

impl Receipt {
    pub open spec fn wf(self) -> bool {
        self.transaction_hash@.len() == 32
    }
}

/// Maps the receipt's status bit: `true` is the success outcome carrying
/// the transaction hash for display and audit, `false` the explicit
/// transaction-failed error — the transaction was included on-chain and
/// reverted, its nonce is consumed, and it is never a success.
pub fn outcome_of(receipt: &Receipt) -> (r: Result<Vec<u8>, Error>)
    ensures
        receipt.status ==> (r matches Ok(h) && h@ == receipt.transaction_hash@),
        !receipt.status ==> r == Err::<Vec<u8>, Error>(Error::TransactionFailed),
{
    if receipt.status {
        Ok(receipt.transaction_hash.clone())
    } else {
        Err(Error::TransactionFailed)
    }
}

/// By name: the explorer base URL that the chain registry lists for a
/// chain id, a fixed table lookup.
pub uninterp spec fn explorer_url_of(chain_id: u64) -> Option<Seq<char>>;

/// Relies on `alloy_chains::Chain::etherscan_urls` (the id being converted
/// by `Chain::from_id`): the block explorer's base URL for the chain, from
/// the registry's fixed table.
#[verifier::external_body]
pub fn explorer_url(chain_id: u64) -> (r: Option<String>)
    ensures
        r is Some <==> explorer_url_of(chain_id) is Some,
        r matches Some(s) ==> explorer_url_of(chain_id) matches Some(t) && s@ == t,
{
    alloy_chains::Chain::from_id(chain_id).etherscan_urls().map(|(_, url)| url.to_owned())
}

/// The line reported for a classified receipt: outcome, explorer link to
/// the transaction hash.
pub open spec fn spec_receipt_line(
    url: Option<Seq<char>>,
    hash: Seq<u8>,
    status: bool,
) -> Seq<char> {
    (if status {
        "Transaction successful: "@
    } else {
        "Transaction failed: "@
    }) + (match url {
        Some(u) => u,
        None => Seq::empty(),
    }) + "/tx/0x"@ + hex_of(hash)
}

/// Spells the receipt's outcome with the chain explorer's link for its
/// transaction hash; a chain without a listed explorer gets a bare path.
pub fn receipt_line(chain_id: u64, receipt: &Receipt) -> (s: String)
    ensures
        s@ == spec_receipt_line(explorer_url_of(chain_id), receipt.transaction_hash@,
            receipt.status,
        ),
{
    let mut s = if receipt.status {
        String::from_str("Transaction successful: ")
    } else {
        String::from_str("Transaction failed: ")
    };
    match explorer_url(chain_id) {
        Some(url) => {
            s.append(url.as_str());
        },
        None => {},
    }
    s.append("/tx/0x");
    push_hex(&mut s, &receipt.transaction_hash);
    assert(s@ =~= spec_receipt_line(explorer_url_of(chain_id), receipt.transaction_hash@,
        receipt.status,
    ));
    s
}

} // verus!
