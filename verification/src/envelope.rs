//! Signed envelopes and their wire encodings.  For each of the two
//! supported encodings this gives the signing preimage (what the key
//! actually signs) and the raw signed bytes a chain accepts for broadcast.
use vstd::prelude::*;

use crate::primitives::Address;
use crate::rlp::append_rlp_bytes;
use crate::rlp::append_rlp_uint;
use crate::rlp::rlp_bytes;
use crate::rlp::rlp_list;
use crate::rlp::rlp_uint;
use crate::rlp::spec_trim_zeros;
use crate::rlp::trim_zeros;
use crate::rlp::wrap_rlp_list;
use crate::tx::spec_value_bytes;
use crate::tx::DynamicFeeTx;
use crate::tx::LegacyTx;
use crate::tx::TxClass;
use crate::tx::TxRequest;

verus! {

/// A recoverable secp256k1 signature: the `r` and `s` scalars as 32
/// big-endian bytes each, and the recovery bit.
pub struct RecoverableSig {
    pub r: Vec<u8>,
    pub s: Vec<u8>,
    pub y_parity: bool,
}

impl RecoverableSig {
    pub open spec fn wf(self) -> bool {
        self.r@.len() == 32 && self.s@.len() == 32
    }

    /// The signature as 65 bytes: `r`, `s`, then the recovery bit as one
    /// byte.
    pub open spec fn spec_compact(self) -> Seq<u8> {
        self.r@ + self.s@ + seq![
            if self.y_parity {
                1u8
            } else {
                0u8
            },
        ]
    }
}

/// The common items of a legacy transaction's lists: nonce, gas price, gas
/// limit, recipient, value, payload.
pub open spec fn legacy_items(t: LegacyTx) -> Seq<u8> {
    rlp_uint(t.nonce as nat) + rlp_uint(t.gas_price as nat) + rlp_uint(t.gas_limit as nat)
        + rlp_bytes(t.to.bytes@) + rlp_bytes(spec_trim_zeros(t.value.be_bytes@)) + rlp_bytes(
        t.input@,
    )
}

/// What the key signs for a legacy transaction: the item list closed with
/// the chain id and two empty fields, per the replay-protected scheme.
pub open spec fn legacy_preimage(t: LegacyTx) -> Seq<u8> {
    rlp_list(legacy_items(t) + rlp_uint(t.chain_id as nat) + rlp_uint(0) + rlp_uint(0))
}

/// The replay-protected recovery value of a legacy signature.
pub open spec fn legacy_v(t: LegacyTx, y_parity: bool) -> nat {
    (35 + 2 * t.chain_id + (if y_parity {
        1nat
    } else {
        0nat
    })) as nat
}

/// The broadcast bytes of a signed legacy transaction.
pub open spec fn legacy_raw(t: LegacyTx, sig: RecoverableSig) -> Seq<u8> {
    rlp_list(
        legacy_items(t) + rlp_uint(legacy_v(t, sig.y_parity)) + rlp_bytes(spec_trim_zeros(sig.r@))
            + rlp_bytes(spec_trim_zeros(sig.s@)),
    )
}

/// The items of a priority-fee transaction's list, with an empty access
/// list.
pub open spec fn dynamic_fee_items(t: DynamicFeeTx) -> Seq<u8> {
    rlp_uint(t.chain_id as nat) + rlp_uint(t.nonce as nat) + rlp_uint(
        t.max_priority_fee_per_gas as nat,
    ) + rlp_uint(t.max_fee_per_gas as nat) + rlp_uint(t.gas_limit as nat) + rlp_bytes(t.to.bytes@)
        + rlp_bytes(spec_trim_zeros(t.value.be_bytes@)) + rlp_bytes(t.input@) + rlp_list(
        Seq::empty(),
    )
}

/// What the key signs for a priority-fee transaction: the type byte, then
/// the item list.
pub open spec fn dynamic_fee_preimage(t: DynamicFeeTx) -> Seq<u8> {
    seq![2u8] + rlp_list(dynamic_fee_items(t))
}

/// The broadcast bytes of a signed priority-fee transaction.
pub open spec fn dynamic_fee_raw(t: DynamicFeeTx, sig: RecoverableSig) -> Seq<u8> {
    seq![2u8] + rlp_list(
        dynamic_fee_items(t) + rlp_uint(
            if sig.y_parity {
                1nat
            } else {
                0nat
            },
        ) + rlp_bytes(spec_trim_zeros(sig.r@)) + rlp_bytes(spec_trim_zeros(sig.s@)),
    )
}

/// The legacy signing preimage a fault-free legacy request leads to,
/// spelled over the request's own fields.
pub open spec fn legacy_preimage_for(req: TxRequest) -> Seq<u8> {
    rlp_list(
        rlp_uint(req.nonce->0 as nat) + rlp_uint(req.gas_price->0 as nat) + rlp_uint(
            req.gas_limit->0 as nat,
        ) + rlp_bytes(req.to->0.bytes@) + rlp_bytes(spec_trim_zeros(spec_value_bytes(req)))
            + rlp_bytes(req.input@) + rlp_uint(req.chain_id->0 as nat) + rlp_uint(0) + rlp_uint(0),
    )
}

/// The priority-fee signing preimage a fault-free priority-fee request
/// leads to, spelled over the request's own fields.
pub open spec fn dynamic_fee_preimage_for(req: TxRequest) -> Seq<u8> {
    seq![2u8] + rlp_list(
        rlp_uint(req.chain_id->0 as nat) + rlp_uint(req.nonce->0 as nat) + rlp_uint(
            req.max_priority_fee_per_gas->0 as nat,
        ) + rlp_uint(req.max_fee_per_gas->0 as nat) + rlp_uint(req.gas_limit->0 as nat)
            + rlp_bytes(req.to->0.bytes@) + rlp_bytes(spec_trim_zeros(spec_value_bytes(req)))
            + rlp_bytes(req.input@) + rlp_list(Seq::empty()),
    )
}

/// An immutable, fully signed transaction in one of the two supported
/// encodings, produced once per prepared transaction.
pub enum Envelope {
    Legacy { tx: LegacyTx, sig: RecoverableSig },
    Eip1559 { tx: DynamicFeeTx, sig: RecoverableSig },
}

impl Envelope {
    pub open spec fn wf(self) -> bool {
        match self {
            Envelope::Legacy { tx, sig } => tx.wf() && sig.wf(),
            Envelope::Eip1559 { tx, sig } => tx.wf() && sig.wf(),
        }
    }

    /// The encoding this envelope is tagged with.
    pub open spec fn spec_class(self) -> TxClass {
        match self {
            Envelope::Legacy { .. } => TxClass::Legacy,
            Envelope::Eip1559 { .. } => TxClass::Eip1559,
        }
    }

    pub fn class(&self) -> (c: TxClass)
        ensures
            c == self.spec_class(),
    {
        match self {
            Envelope::Legacy { .. } => TxClass::Legacy,
            Envelope::Eip1559 { .. } => TxClass::Eip1559,
        }
    }

    /// The envelope's broadcast bytes in its own encoding.
    pub open spec fn spec_raw(self) -> Seq<u8> {
        match self {
            Envelope::Legacy { tx, sig } => legacy_raw(tx, sig),
            Envelope::Eip1559 { tx, sig } => dynamic_fee_raw(tx, sig),
        }
    }

    pub fn raw_bytes(&self) -> (v: Vec<u8>)
        ensures
            v@ == self.spec_raw(),
    {
        match self {
            Envelope::Legacy { tx, sig } => encode_legacy_raw(tx, sig),
            Envelope::Eip1559 { tx, sig } => encode_dynamic_fee_raw(tx, sig),
        }
    }
}

/// Appends the common legacy items to a list payload in construction.
fn append_legacy_items(payload: &mut Vec<u8>, t: &LegacyTx)
    ensures
        final(payload)@ == old(payload)@ + legacy_items(*t),
{
    append_rlp_uint(payload, t.nonce as u128);
    append_rlp_uint(payload, t.gas_price);
    append_rlp_uint(payload, t.gas_limit as u128);
    append_rlp_bytes(payload, &t.to.bytes);
    let value_min = trim_zeros(&t.value.be_bytes);
    append_rlp_bytes(payload, &value_min);
    append_rlp_bytes(payload, &t.input);
    assert(payload@ =~= old(payload)@ + legacy_items(*t));
}

/// The signing preimage of an unsigned legacy transaction.
pub fn encode_legacy_preimage(t: &LegacyTx) -> (v: Vec<u8>)
    ensures
        v@ == legacy_preimage(*t),
{
    let mut payload: Vec<u8> = Vec::new();
    append_legacy_items(&mut payload, t);
    append_rlp_uint(&mut payload, t.chain_id as u128);
    append_rlp_uint(&mut payload, 0);
    append_rlp_uint(&mut payload, 0);
    assert(payload@ =~= legacy_items(*t) + rlp_uint(t.chain_id as nat) + rlp_uint(0) + rlp_uint(
        0,
    ));
    wrap_rlp_list(payload)
}

/// The broadcast bytes of a signed legacy transaction.
pub fn encode_legacy_raw(t: &LegacyTx, sig: &RecoverableSig) -> (v: Vec<u8>)
    ensures
        v@ == legacy_raw(*t, *sig),
{
    let mut payload: Vec<u8> = Vec::new();
    append_legacy_items(&mut payload, t);
    let v_value: u128 = 35 + 2 * (t.chain_id as u128) + (if sig.y_parity {
        1
    } else {
        0
    });
    append_rlp_uint(&mut payload, v_value);
    let r_min = trim_zeros(&sig.r);
    append_rlp_bytes(&mut payload, &r_min);
    let s_min = trim_zeros(&sig.s);
    append_rlp_bytes(&mut payload, &s_min);
    assert(payload@ =~= legacy_items(*t) + rlp_uint(legacy_v(*t, sig.y_parity)) + rlp_bytes(
        spec_trim_zeros(sig.r@),
    ) + rlp_bytes(spec_trim_zeros(sig.s@)));
    wrap_rlp_list(payload)
}

/// Appends the priority-fee items to a list payload in construction.
#[verifier::rlimit(60)]
fn append_dynamic_fee_items(payload: &mut Vec<u8>, t: &DynamicFeeTx)
    ensures
        final(payload)@ == old(payload)@ + dynamic_fee_items(*t),
{
    append_rlp_uint(payload, t.chain_id as u128);
    append_rlp_uint(payload, t.nonce as u128);
    append_rlp_uint(payload, t.max_priority_fee_per_gas);
    append_rlp_uint(payload, t.max_fee_per_gas);
    append_rlp_uint(payload, t.gas_limit as u128);
    append_rlp_bytes(payload, &t.to.bytes);
    let value_min = trim_zeros(&t.value.be_bytes);
    append_rlp_bytes(payload, &value_min);
    append_rlp_bytes(payload, &t.input);
    let empty_list = wrap_rlp_list(Vec::new());
    payload.extend_from_slice(empty_list.as_slice());
    assert(payload@ =~= old(payload)@ + dynamic_fee_items(*t));
}

/// The signing preimage of an unsigned priority-fee transaction.
pub fn encode_dynamic_fee_preimage(t: &DynamicFeeTx) -> (v: Vec<u8>)
    ensures
        v@ == dynamic_fee_preimage(*t),
{
    let mut payload: Vec<u8> = Vec::new();
    append_dynamic_fee_items(&mut payload, t);
    assert(payload@ =~= dynamic_fee_items(*t));
    let list = wrap_rlp_list(payload);
    let mut out: Vec<u8> = Vec::new();
    out.push(2u8);
    out.extend_from_slice(list.as_slice());
    assert(out@ =~= dynamic_fee_preimage(*t));
    out
}

/// The broadcast bytes of a signed priority-fee transaction.
pub fn encode_dynamic_fee_raw(t: &DynamicFeeTx, sig: &RecoverableSig) -> (v: Vec<u8>)
    ensures
        v@ == dynamic_fee_raw(*t, *sig),
{
    let mut payload: Vec<u8> = Vec::new();
    append_dynamic_fee_items(&mut payload, t);
    append_rlp_uint(&mut payload, if sig.y_parity {
        1
    } else {
        0
    });
    let r_min = trim_zeros(&sig.r);
    append_rlp_bytes(&mut payload, &r_min);
    let s_min = trim_zeros(&sig.s);
    append_rlp_bytes(&mut payload, &s_min);
    assert(payload@ =~= dynamic_fee_items(*t) + rlp_uint(
        if sig.y_parity {
            1nat
        } else {
            0nat
        },
    ) + rlp_bytes(spec_trim_zeros(sig.r@)) + rlp_bytes(spec_trim_zeros(sig.s@)));
    let list = wrap_rlp_list(payload);
    let mut out: Vec<u8> = Vec::new();
    out.push(2u8);
    out.extend_from_slice(list.as_slice());
    assert(out@ =~= dynamic_fee_raw(*t, *sig));
    out
}

} // verus!
