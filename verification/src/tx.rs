//! Transaction classes, intents and the mutable transaction request that the
//! preparer fills in.
use vstd::prelude::*;

use crate::error::BuildFault;
use crate::error::Error;
use crate::primitives::padded_be_bytes;
use crate::primitives::Address;
use crate::primitives::Uint256;

verus! {

/// The closed set of on-chain transaction encodings.  Only `Legacy` (single
/// gas price) and `Eip1559` (max fee + priority fee) are supported by this
/// client; every other class is rejected, never silently coerced.
#[derive(Clone, Copy, Debug, PartialEq, Eq, Structural)]
pub enum TxClass {
    Legacy,
    Eip2930,
    Eip1559,
    Eip4844,
    Eip7702,
}

impl TxClass {
    /// A class this client can fee-fill and sign.
    pub open spec fn spec_supported(self) -> bool {
        self is Legacy || self is Eip1559
    }

    pub fn supported(&self) -> (r: bool)
        ensures
            r == self.spec_supported(),
    {
        match self {
            TxClass::Legacy => true,
            TxClass::Eip1559 => true,
            _ => false,
        }
    }
}

/// A caller-supplied partial transaction: recipient, encoded call payload,
/// optional native-value amount, optional explicit class.
pub struct Intent {
    pub to: Address,
    pub input: Vec<u8>,
    pub value: Option<Uint256>,
    pub class: Option<TxClass>,
}

impl Intent {
    pub open spec fn wf(self) -> bool {
        &&& self.to.wf()
        &&& (self.value matches Some(v) ==> v.wf())
    }
}

/// A transaction request under construction.  The preparer fills in sender,
/// nonce, chain id, fee fields and gas limit; the signer turns the completed
/// request into a typed unsigned transaction.
pub struct TxRequest {
    pub from: Option<Address>,
    pub to: Option<Address>,
    pub value: Option<Uint256>,
    pub input: Vec<u8>,
    pub nonce: Option<u64>,
    pub chain_id: Option<u64>,
    pub gas_price: Option<u128>,
    pub max_fee_per_gas: Option<u128>,
    pub max_priority_fee_per_gas: Option<u128>,
    pub gas_limit: Option<u64>,
    /// An explicitly requested encoding; left unset, the encoding is read
    /// off the fee fields.
    pub transaction_type: Option<TxClass>,
}

impl TxRequest {
    pub open spec fn wf(self) -> bool {
        &&& (self.from matches Some(a) ==> a.wf())
        &&& (self.to matches Some(a) ==> a.wf())
        &&& (self.value matches Some(v) ==> v.wf())
    }

    /// The encoding this request asks for: the explicit one if given, else
    /// legacy when a single gas price is set, else the modern default.
    pub open spec fn spec_preferred_class(self) -> TxClass {
        match self.transaction_type {
            Some(c) => c,
            None => if self.gas_price is Some {
                TxClass::Legacy
            } else {
                TxClass::Eip1559
            },
        }
    }

    pub fn preferred_class(&self) -> (c: TxClass)
        ensures
            c == self.spec_preferred_class(),
    {
        match self.transaction_type {
            Some(c) => c,
            None => {
                if self.gas_price.is_some() {
                    TxClass::Legacy
                } else {
                    TxClass::Eip1559
                }
            },
        }
    }

    /// The first thing missing or inconsistent on the way to a complete
    /// unsigned transaction of the preferred (supported) class.
    pub open spec fn spec_build_fault(self) -> Option<BuildFault> {
        let c = self.spec_preferred_class();
        if c is Legacy && (self.max_fee_per_gas is Some || self.max_priority_fee_per_gas is Some) {
            Some(BuildFault::ConflictingFeeFields)
        } else if c is Eip1559 && self.gas_price is Some {
            Some(BuildFault::ConflictingFeeFields)
        } else if self.to is None {
            Some(BuildFault::MissingTo)
        } else if self.nonce is None {
            Some(BuildFault::MissingNonce)
        } else if self.chain_id is None {
            Some(BuildFault::MissingChainId)
        } else if self.gas_limit is None {
            Some(BuildFault::MissingGasLimit)
        } else if c is Legacy && self.gas_price is None {
            Some(BuildFault::MissingGasPrice)
        } else if c is Eip1559 && (self.max_fee_per_gas is None
            || self.max_priority_fee_per_gas is None) {
            Some(BuildFault::MissingFeePair)
        } else {
            None
        }
    }
}

/// The 32 value bytes a request carries: its stated amount's, or an
/// all-zero word.
pub open spec fn spec_value_bytes(req: TxRequest) -> Seq<u8> {
    match req.value {
        Some(v) => v.be_bytes@,
        None => padded_be_bytes(0),
    }
}

/// An unsigned legacy transaction: the single-gas-price encoding.
pub struct LegacyTx {
    pub chain_id: u64,
    pub nonce: u64,
    pub gas_price: u128,
    pub gas_limit: u64,
    pub to: Address,
    pub value: Uint256,
    pub input: Vec<u8>,
}

impl LegacyTx {
    pub open spec fn wf(self) -> bool {
        self.to.wf() && self.value.wf()
    }
}

/// An unsigned priority-fee transaction: capped max fee plus priority tip.
pub struct DynamicFeeTx {
    pub chain_id: u64,
    pub nonce: u64,
    pub max_priority_fee_per_gas: u128,
    pub max_fee_per_gas: u128,
    pub gas_limit: u64,
    pub to: Address,
    pub value: Uint256,
    pub input: Vec<u8>,
}

impl DynamicFeeTx {
    pub open spec fn wf(self) -> bool {
        self.to.wf() && self.value.wf()
    }
}

/// The typed unsigned transaction a request builds into.  `Other` carries an
/// encoding this client recognises but does not sign.
pub enum TypedTx {
    Legacy(LegacyTx),
    Eip1559(DynamicFeeTx),
    Other(TxClass),
}

/// Builds the unsigned, chain-specific transaction from a filled request.
///
/// An unsupported preferred class builds into `TypedTx::Other`, for the
/// signer's dispatch to reject; for a supported class, missing or mixed
/// mandatory fields fail with the exact fault `spec_build_fault` names.
pub fn build_unsigned(req: TxRequest) -> (r: Result<TypedTx, Error>)
    requires
        req.wf(),
    ensures
        ({
            let c = req.spec_preferred_class();
            &&& !c.spec_supported() ==> r == Ok::<TypedTx, Error>(TypedTx::Other(c))
            &&& c.spec_supported() ==> (req.spec_build_fault() matches Some(f) ==> r == Err::<
                TypedTx,
                Error,
            >(Error::UnbuiltTx(f)))
            &&& c is Legacy && req.spec_build_fault() is None ==> (r matches Ok(
                TypedTx::Legacy(t),
            ) && t.wf() && t.chain_id == req.chain_id->0 && t.nonce == req.nonce->0
                && t.gas_price == req.gas_price->0 && t.gas_limit == req.gas_limit->0
                && t.to == req.to->0 && t.input@ == req.input@ && t.value.be_bytes@
                == spec_value_bytes(req))
            &&& c is Eip1559 && req.spec_build_fault() is None ==> (r matches Ok(
                TypedTx::Eip1559(t),
            ) && t.wf() && t.chain_id == req.chain_id->0 && t.nonce == req.nonce->0
                && t.max_fee_per_gas == req.max_fee_per_gas->0 && t.max_priority_fee_per_gas
                == req.max_priority_fee_per_gas->0 && t.gas_limit == req.gas_limit->0 && t.to
                == req.to->0 && t.input@ == req.input@ && t.value.be_bytes@
                == spec_value_bytes(req))
        }),
{
    let class = req.preferred_class();
    if !class.supported() {
        return Ok(TypedTx::Other(class));
    }
    let legacy = matches!(class, TxClass::Legacy);
    if legacy && (req.max_fee_per_gas.is_some() || req.max_priority_fee_per_gas.is_some()) {
        return Err(Error::UnbuiltTx(BuildFault::ConflictingFeeFields));
    }
    if !legacy && req.gas_price.is_some() {
        return Err(Error::UnbuiltTx(BuildFault::ConflictingFeeFields));
    }
    let to = match req.to {
        Some(a) => a,
        None => {
            return Err(Error::UnbuiltTx(BuildFault::MissingTo));
        },
    };
    let nonce = match req.nonce {
        Some(n) => n,
        None => {
            return Err(Error::UnbuiltTx(BuildFault::MissingNonce));
        },
    };
    let chain_id = match req.chain_id {
        Some(c) => c,
        None => {
            return Err(Error::UnbuiltTx(BuildFault::MissingChainId));
        },
    };
    let gas_limit = match req.gas_limit {
        Some(g) => g,
        None => {
            return Err(Error::UnbuiltTx(BuildFault::MissingGasLimit));
        },
    };
    let value = match req.value {
        Some(v) => v,
        None => Uint256::zero(),
    };
    if legacy {
        let gas_price = match req.gas_price {
            Some(p) => p,
            None => {
                return Err(Error::UnbuiltTx(BuildFault::MissingGasPrice));
            },
        };
        Ok(
            TypedTx::Legacy(
                LegacyTx { chain_id, nonce, gas_price, gas_limit, to, value, input: req.input },
            ),
        )
    } else {
        let (max_fee, max_prio) = match (req.max_fee_per_gas, req.max_priority_fee_per_gas) {
            (Some(f), Some(p)) => (f, p),
            _ => {
                return Err(Error::UnbuiltTx(BuildFault::MissingFeePair));
            },
        };
        Ok(
            TypedTx::Eip1559(
                DynamicFeeTx {
                    chain_id,
                    nonce,
                    max_priority_fee_per_gas: max_prio,
                    max_fee_per_gas: max_fee,
                    gas_limit,
                    to,
                    value,
                    input: req.input,
                },
            ),
        )
    }
}

} // verus!
