//! The transaction preparer.  Preparation is a fixed four-step sequence —
//! nonce, stamping, fee fields, gas limit — and each step is its own type,
//! so a gas limit cannot be set before the fee fields exist and no prepared
//! transaction can be re-prepared.  The chain answers (confirmed count, fee
//! quotes, gas estimate) are supplied by the driver performing the queries.
//!
//! Known limitation, inherited from the strict nonce policy: nothing
//! coordinates two concurrent preparations for one account, and an external
//! transaction landing between the count query and the broadcast can take
//! the nonce.  Accounts must be processed one pipeline at a time.
use vstd::prelude::*;

use crate::error::Error;
use crate::primitives::Address;
use crate::tx::Intent;
use crate::tx::TxClass;
use crate::tx::TxRequest;

verus! {

/// The strict nonce policy: the next nonce for an account is exactly the
/// chain's confirmed transaction count, read fresh on every preparation —
/// no local caching, no gap-filling, no pending-transaction lookahead.
#[derive(Clone, Copy, Debug, Default, PartialEq, Eq, Structural)]
pub struct StrictNonceManager;

impl StrictNonceManager {
    pub fn get_next_nonce(&self, confirmed_count: u64) -> (n: u64)
        ensures
            n == confirmed_count,
    {
        confirmed_count
    }
}

/// Which fee quote the chain must be asked for.
#[derive(Clone, Copy, Debug, PartialEq, Eq, Structural)]
pub enum FeeQuery {
    /// The current network gas price, for a legacy transaction.
    GasPrice,
    /// The suggested (max fee, max priority fee) pair, for a priority-fee
    /// transaction.
    FeePair,
}

/// The requested class when the intent names none: priority-fee, the modern
/// default.
pub fn resolve_class(requested: Option<TxClass>) -> (c: TxClass)
    ensures
        c == match requested {
            Some(r) => r,
            None => TxClass::Eip1559,
        },
{
    match requested {
        Some(r) => r,
        None => TxClass::Eip1559,
    }
}

/// First stage: the intent is wrapped, and the account's confirmed
/// transaction count must be fetched.
pub struct NeedNonce {
    pub tx: TxRequest,
    pub class: TxClass,
    pub sender: Address,
    pub chain_id: u64,
}

/// Second stage: sender, nonce and chain id are stamped; the fee fields for
/// the resolved class must be fetched.
pub struct NeedFees {
    pub tx: TxRequest,
    pub class: TxClass,
}

/// Third stage: fee fields are set; gas consumption must be estimated for
/// the now-fee-complete request.
pub struct NeedGas {
    pub tx: TxRequest,
    pub class: TxClass,
}

/// A complete, signable transaction request.  Never re-prepared: the only
/// way to one is a fresh pass through the three stages above, and each pass
/// consumes one fresh nonce.
pub struct Prepared {
    pub tx: TxRequest,
    pub class: TxClass,
}

/// What every stage keeps untouched: the caller's intent fields.
pub open spec fn intent_fields(tx: TxRequest, intent: Intent) -> bool {
    &&& tx.to == Some(intent.to)
    &&& tx.input@ == intent.input@
    &&& tx.value == intent.value
}

/// No fee field is set yet.
pub open spec fn fees_unset(tx: TxRequest) -> bool {
    &&& tx.gas_price is None
    &&& tx.max_fee_per_gas is None
    &&& tx.max_priority_fee_per_gas is None
}

/// The fee fields match the class, mutually exclusive: a priority-fee
/// transaction never has the legacy single-gas-price field set, and the
/// other way round.
pub open spec fn fees_set_for(tx: TxRequest, class: TxClass) -> bool {
    &&& class is Legacy ==> tx.gas_price is Some && tx.max_fee_per_gas is None
        && tx.max_priority_fee_per_gas is None
    &&& class is Eip1559 ==> tx.gas_price is None && tx.max_fee_per_gas is Some
        && tx.max_priority_fee_per_gas is Some
}

impl NeedNonce {
    pub open spec fn wf(self) -> bool {
        &&& self.tx.wf()
        &&& self.sender.wf()
        &&& self.tx.to is Some
        &&& self.tx.from is None
        &&& self.tx.nonce is None
        &&& self.tx.chain_id is None
        &&& self.tx.gas_limit is None
        &&& self.tx.transaction_type is None
        &&& fees_unset(self.tx)
    }

    /// The address whose confirmed transaction count the driver must read,
    /// fresh from the chain.
    pub fn count_owner(&self) -> (a: Address)
        requires
            self.wf(),
        ensures
            a.wf(),
            a.bytes@ == self.sender.bytes@,
    {
        Address { bytes: self.sender.bytes.clone() }
    }

    /// Stamps sender address, nonce and chain id onto the request.  Under
    /// the strict policy the nonce is the confirmed count itself.
    pub fn with_nonce(self, confirmed_count: u64) -> (p: NeedFees)
        requires
            self.wf(),
        ensures
            p.wf(),
            p.class == self.class,
            p.tx.nonce == Some(confirmed_count),
            p.tx.from matches Some(a) && a.bytes@ == self.sender.bytes@,
            p.tx.chain_id == Some(self.chain_id),
            p.tx.to == self.tx.to,
            p.tx.input@ == self.tx.input@,
            p.tx.value == self.tx.value,
            p.tx.gas_limit is None,
            fees_unset(p.tx),
    {
        let nonce = StrictNonceManager.get_next_nonce(confirmed_count);
        let mut tx = self.tx;
        tx.from = Some(self.sender);
        tx.nonce = Some(nonce);
        tx.chain_id = Some(self.chain_id);
        NeedFees { tx, class: self.class }
    }
}

impl NeedFees {
    pub open spec fn wf(self) -> bool {
        &&& self.tx.wf()
        &&& self.tx.to is Some
        &&& self.tx.from is Some
        &&& self.tx.nonce is Some
        &&& self.tx.chain_id is Some
        &&& self.tx.gas_limit is None
        &&& self.tx.transaction_type is None
        &&& fees_unset(self.tx)
    }

    /// Which fee quote the driver must fetch.  Any class outside the two
    /// supported encodings fails here, before any fee field is touched: no
    /// partial mutation.
    pub fn fee_query(&self) -> (r: Result<FeeQuery, Error>)
        ensures
            self.class is Legacy ==> r == Ok::<FeeQuery, Error>(FeeQuery::GasPrice),
            self.class is Eip1559 ==> r == Ok::<FeeQuery, Error>(FeeQuery::FeePair),
            !self.class.spec_supported() ==> r == Err::<FeeQuery, Error>(
                Error::UnexpectedTxType(self.class),
            ),
    {
        match self.class {
            TxClass::Legacy => Ok(FeeQuery::GasPrice),
            TxClass::Eip1559 => Ok(FeeQuery::FeePair),
            _ => Err(Error::UnexpectedTxType(self.class)),
        }
    }

    /// Sets the single gas price of a legacy transaction.
    pub fn with_gas_price(self, gas_price: u128) -> (p: NeedGas)
        requires
            self.wf(),
            self.class is Legacy,
        ensures
            p.wf(),
            p.class == self.class,
            p.tx.gas_price == Some(gas_price),
            p.tx.max_fee_per_gas is None,
            p.tx.max_priority_fee_per_gas is None,
            fees_set_for(p.tx, p.class),
            p.tx.gas_limit is None,
            p.tx.to == self.tx.to,
            p.tx.from == self.tx.from,
            p.tx.nonce == self.tx.nonce,
            p.tx.chain_id == self.tx.chain_id,
            p.tx.input@ == self.tx.input@,
            p.tx.value == self.tx.value,
    {
        let mut tx = self.tx;
        tx.gas_price = Some(gas_price);
        NeedGas { tx, class: self.class }
    }

    /// Sets the (max fee, max priority fee) pair of a priority-fee
    /// transaction.
    pub fn with_fee_pair(self, max_fee_per_gas: u128, max_priority_fee_per_gas: u128) -> (p:
        NeedGas)
        requires
            self.wf(),
            self.class is Eip1559,
        ensures
            p.wf(),
            p.class == self.class,
            p.tx.max_fee_per_gas == Some(max_fee_per_gas),
            p.tx.max_priority_fee_per_gas == Some(max_priority_fee_per_gas),
            p.tx.gas_price is None,
            fees_set_for(p.tx, p.class),
            p.tx.gas_limit is None,
            p.tx.to == self.tx.to,
            p.tx.from == self.tx.from,
            p.tx.nonce == self.tx.nonce,
            p.tx.chain_id == self.tx.chain_id,
            p.tx.input@ == self.tx.input@,
            p.tx.value == self.tx.value,
    {
        let mut tx = self.tx;
        tx.max_fee_per_gas = Some(max_fee_per_gas);
        tx.max_priority_fee_per_gas = Some(max_priority_fee_per_gas);
        NeedGas { tx, class: self.class }
    }
}

impl NeedGas {
    pub open spec fn wf(self) -> bool {
        &&& self.tx.wf()
        &&& self.class.spec_supported()
        &&& self.tx.to is Some
        &&& self.tx.from is Some
        &&& self.tx.nonce is Some
        &&& self.tx.chain_id is Some
        &&& self.tx.gas_limit is None
        &&& self.tx.transaction_type is None
        &&& fees_set_for(self.tx, self.class)
    }

    /// The fee-complete request the driver must submit for gas estimation.
    /// Estimation sees the final fee fields: some chain services price the
    /// estimate by transaction shape, fee fields included.
    pub fn estimate_payload(&self) -> (r: &TxRequest)
        ensures
            *r == self.tx,
    {
        &self.tx
    }

    /// Sets the estimated gas as the gas limit, completing preparation.
    pub fn with_gas_limit(self, gas: u64) -> (p: Prepared)
        requires
            self.wf(),
        ensures
            p.wf(),
            p.class == self.class,
            p.tx.gas_limit == Some(gas),
            p.tx.gas_price == self.tx.gas_price,
            p.tx.max_fee_per_gas == self.tx.max_fee_per_gas,
            p.tx.max_priority_fee_per_gas == self.tx.max_priority_fee_per_gas,
            p.tx.to == self.tx.to,
            p.tx.from == self.tx.from,
            p.tx.nonce == self.tx.nonce,
            p.tx.chain_id == self.tx.chain_id,
            p.tx.input@ == self.tx.input@,
            p.tx.value == self.tx.value,
    {
        let mut tx = self.tx;
        tx.gas_limit = Some(gas);
        Prepared { tx, class: self.class }
    }
}

impl Prepared {
    pub open spec fn wf(self) -> bool {
        &&& self.tx.wf()
        &&& self.class.spec_supported()
        &&& self.tx.to is Some
        &&& self.tx.from is Some
        &&& self.tx.nonce is Some
        &&& self.tx.chain_id is Some
        &&& self.tx.gas_limit is Some
        &&& self.tx.transaction_type is None
        &&& fees_set_for(self.tx, self.class)
    }
}

/// Law: under the strict policy a preparation's nonce is exactly the
/// confirmed count its own call read (`with_nonce` passes it through
/// unchanged), so of two sequential preparations — the second reading a
/// count grown past the first — the nonces are strictly increasing, and
/// each preparation consumed its own fresh count.
pub proof fn lemma_strictly_increasing_nonces(
    first: NeedFees,
    second: NeedFees,
    count_then: u64,
    count_now: u64,
)
    requires
        first.tx.nonce == Some(count_then),
        second.tx.nonce == Some(count_now),
        count_then < count_now,
    ensures
        first.tx.nonce->0 < second.tx.nonce->0,
{
}

/// Law: the fee fields of a prepared transaction are mutually exclusive —
/// a priority-fee transaction never has the legacy single-gas-price field
/// set, and a legacy transaction never has the priority-fee pair.
pub proof fn lemma_fee_exclusivity(p: Prepared)
    requires
        p.wf(),
    ensures
        p.class is Eip1559 ==> p.tx.gas_price is None && p.tx.max_fee_per_gas is Some
            && p.tx.max_priority_fee_per_gas is Some,
        p.class is Legacy ==> p.tx.gas_price is Some && p.tx.max_fee_per_gas is None
            && p.tx.max_priority_fee_per_gas is None,
{
}

/// Law: the gas limit is set strictly after the fee fields — every
/// gas-estimation stage already carries the fee fields of its class while
/// its gas limit is still unset, and only a completed preparation carries
/// both.
pub proof fn lemma_gas_after_fees(g: NeedGas, p: Prepared)
    requires
        g.wf(),
        p.wf(),
    ensures
        fees_set_for(g.tx, g.class) && g.tx.gas_limit is None,
        fees_set_for(p.tx, p.class) && p.tx.gas_limit is Some,
{
}

/// Law: a completed preparation always builds — its request prefers
/// exactly its own class and lacks nothing, so the signer's dispatch can
/// only fail at the signature itself, never on the request's shape.
pub proof fn lemma_prepared_always_builds(p: Prepared)
    requires
        p.wf(),
    ensures
        p.tx.spec_preferred_class() == p.class,
        p.tx.spec_build_fault() is None,
{
}

/// Wraps an intent for preparation on behalf of `sender` on chain
/// `chain_id`.  The class defaults to priority-fee when the intent names
/// none.
pub fn begin_prepare(intent: Intent, sender: Address, chain_id: u64) -> (p: NeedNonce)
    requires
        intent.wf(),
        sender.wf(),
    ensures
        p.wf(),
        p.class == match intent.class {
            Some(c) => c,
            None => TxClass::Eip1559,
        },
        p.sender.bytes@ == sender.bytes@,
        p.chain_id == chain_id,
        intent_fields(p.tx, intent),
{
    let class = resolve_class(intent.class);
    let tx = TxRequest {
        from: None,
        to: Some(intent.to),
        value: intent.value,
        input: intent.input,
        nonce: None,
        chain_id: None,
        gas_price: None,
        max_fee_per_gas: None,
        max_priority_fee_per_gas: None,
        gas_limit: None,
        transaction_type: None,
    };
    NeedNonce { tx, class, sender, chain_id }
}

} // verus!
