//! The account-scoped client: a single already-decoded private key, the
//! stable address derived from it, and the chain identity.  Signing is
//! synchronous local computation through the outside signer; everything
//! around it — building the unsigned transaction, choosing the preimage,
//! wrapping the envelope — is verified here.
//!
//! The outside signer is deterministic: the derived address is a function
//! of the key alone, and both signing procedures use deterministic nonces,
//! so their results are functions of the key and the signed bytes alone.
//! Each result therefore carries a name, and the public contracts say
//! exactly which signature an envelope holds and when success is owed.
use vstd::prelude::*;

use vstd::string::StringSliceAdditionalSpecFns;

use alloy::signers::local::PrivateKeySigner;
use alloy::signers::SignerSync;

use crate::approve::approve_start;
use crate::approve::ApproveStep;
use crate::envelope::dynamic_fee_preimage_for;
use crate::envelope::encode_dynamic_fee_preimage;
use crate::envelope::encode_legacy_preimage;
use crate::envelope::legacy_preimage_for;
use crate::envelope::Envelope;
use crate::envelope::RecoverableSig;
use crate::error::Error;
use crate::primitives::Address;
use crate::primitives::Uint256;
use crate::textfmt::hex_of;
use crate::textfmt::hex_prefixed;
use crate::token::Token;
use crate::tx::build_unsigned;
use crate::tx::spec_value_bytes;
use crate::tx::TxRequest;
use crate::tx::TypedTx;

verus! {

/// What a keccak-256 digest is, by name only: the digest of given bytes is
/// the same in every process and on every machine.
pub uninterp spec fn keccak256_of(b: Seq<u8>) -> Seq<u8>;

/// What the 20-byte address derived from a private key is, by name only —
/// or nothing, when the bytes are no valid non-zero scalar of the curve.
/// The derivation is a fixed function of the key bytes alone.
pub uninterp spec fn key_address_of(key: Seq<u8>) -> Option<Seq<u8>>;

/// What the recoverable secp256k1 signature of a key over a 32-byte digest
/// is, by name only: 65 bytes — `r`, `s`, then the recovery bit — or
/// nothing, when the key is invalid or the signer refuses.  The signer
/// draws its nonce deterministically, so the outcome is a function of the
/// key and the digest alone.
pub uninterp spec fn ecdsa_sign_of(key: Seq<u8>, digest: Seq<u8>) -> Option<Seq<u8>>;

/// What the recoverable signature of a key over a message's prefixed hash
/// is, by name only: 65 bytes as in `ecdsa_sign_of`, or nothing.  The
/// prefixing and the signing are deterministic, so the outcome is a
/// function of the key and the message bytes alone.
pub uninterp spec fn eip191_sign_of(key: Seq<u8>, message: Seq<u8>) -> Option<Seq<u8>>;

/// Relies on `alloy::primitives::keccak256`: the 32-byte keccak-256 digest
/// of the input, a function of the input alone.
#[verifier::external_body]
pub fn keccak256_bytes(b: &[u8]) -> (r: Vec<u8>)
    ensures
        r@ == keccak256_of(b@),
        r@.len() == 32,
{
    alloy::primitives::keccak256(b).to_vec()
}

/// Relies on `PrivateKeySigner::from_slice` and `LocalSigner::address`:
/// the 20-byte address belonging to the key, derived from the key bytes
/// alone; a byte string that is no valid non-zero scalar of the curve is
/// a signing error.
#[verifier::external_body]
fn address_of_key(key: &Vec<u8>) -> (r: Result<Vec<u8>, Error>)
    ensures
        r is Ok <==> key_address_of(key@) is Some,
        r matches Ok(a) ==> a@.len() == 20 && key_address_of(key@) == Some(a@),
        r matches Err(e) ==> e is Sign,
{
    match PrivateKeySigner::from_slice(key.as_slice()) {
        Ok(signer) => Ok(signer.address().to_vec()),
        Err(e) => Err(Error::Sign(e.to_string())),
    }
}

/// Relies on `SignerSync::sign_hash_sync` for the local signer (the key
/// bytes being converted by `PrivateKeySigner::from_slice`): signs a
/// 32-byte digest with the secp256k1 key, deterministically — the
/// scalars and recovery bit are exactly the named ones, and success
/// depends on the key and digest alone.
#[verifier::external_body]
fn sign_hash(key: &Vec<u8>, hash: &Vec<u8>) -> (r: Result<RecoverableSig, Error>)
    requires
        hash@.len() == 32,
    ensures
        r is Ok <==> ecdsa_sign_of(key@, hash@) is Some,
        r matches Ok(sig) ==> sig.wf() && ecdsa_sign_of(key@, hash@) == Some(sig.spec_compact()),
        r matches Err(e) ==> e is Sign,
{
    let signer = match PrivateKeySigner::from_slice(key.as_slice()) {
        Ok(s) => s,
        Err(e) => return Err(Error::Sign(e.to_string())),
    };
    let h = alloy::primitives::B256::from_slice(hash.as_slice());
    match signer.sign_hash_sync(&h) {
        Ok(sig) => Ok(
            RecoverableSig {
                r: sig.r().to_be_bytes::<32>().to_vec(),
                s: sig.s().to_be_bytes::<32>().to_vec(),
                y_parity: sig.v(),
            },
        ),
        Err(e) => Err(Error::Sign(e.to_string())),
    }
}

/// Relies on `SignerSync::sign_message_sync` for the local signer (the key
/// bytes being converted by `PrivateKeySigner::from_slice`): signs the
/// EIP-191 prefixed hash of the message, deterministically — the result
/// is exactly the named one, a function of the key and message alone.
#[verifier::external_body]
fn sign_message_raw(key: &Vec<u8>, message: &str) -> (r: Result<RecoverableSig, Error>)
    ensures
        r is Ok <==> eip191_sign_of(key@, message.spec_bytes()) is Some,
        r matches Ok(sig) ==> sig.wf() && eip191_sign_of(key@, message.spec_bytes()) == Some(
            sig.spec_compact(),
        ),
        r matches Err(e) ==> e is Sign,
{
    let signer = match PrivateKeySigner::from_slice(key.as_slice()) {
        Ok(s) => s,
        Err(e) => return Err(Error::Sign(e.to_string())),
    };
    match signer.sign_message_sync(message.as_bytes()) {
        Ok(sig) => Ok(
            RecoverableSig {
                r: sig.r().to_be_bytes::<32>().to_vec(),
                s: sig.s().to_be_bytes::<32>().to_vec(),
                y_parity: sig.v(),
            },
        ),
        Err(e) => Err(Error::Sign(e.to_string())),
    }
}

/// A named 65-byte signature in its display form: the 64 scalar bytes,
/// then the recovery bit in its 27/28 notation.
pub open spec fn electrum_form(sig: Seq<u8>) -> Seq<u8>
    recommends
        sig.len() == 65,
{
    sig.take(64).push((27 + sig[64]) as u8)
}

/// An account's client: one already-decoded private key, the stable
/// address derived from its public key, and the chain identity shared by
/// every transaction of the session.  Owned by the process for its entire
/// run; never persisted.
pub struct EvmClient {
    key: Vec<u8>,
    address: Address,
    chain: u64,
}

impl EvmClient {
    pub closed spec fn wf(self) -> bool {
        &&& self.address.wf()
        &&& key_address_of(self.key@) == Some(self.address.bytes@)
    }

    /// The account's key bytes, visible to contracts only.
    pub closed spec fn spec_key(self) -> Seq<u8> {
        self.key@
    }

    pub closed spec fn spec_address(self) -> Seq<u8> {
        self.address.bytes@
    }

    pub closed spec fn spec_chain_id(self) -> u64 {
        self.chain
    }

    /// The chain's numeric identifier, shared read-only by the session.
    pub fn chain_id(&self) -> (id: u64)
        ensures
            id == self.spec_chain_id(),
    {
        self.chain
    }

    /// Builds the client for one decoded private key, deriving its
    /// address once: it succeeds exactly when the bytes are a valid key,
    /// and the stored address is the key's own.
    pub fn new(key: Vec<u8>, chain_id: u64) -> (r: Result<EvmClient, Error>)
        ensures
            r is Ok <==> key_address_of(key@) is Some,
            r matches Ok(c) ==> c.wf() && c.spec_key() == key@ && c.spec_chain_id() == chain_id
                && key_address_of(key@) == Some(c.spec_address()) && c.spec_address().len() == 20,
            r matches Err(e) ==> e is Sign,
    {
        let addr_bytes = match address_of_key(&key) {
            Ok(b) => b,
            Err(e) => {
                return Err(e);
            },
        };
        let address = match Address::from_bytes(addr_bytes) {
            Some(a) => a,
            None => {
                proof {
                    assert(false);  // the wrapper ensured 20 bytes
                }
                return Err(Error::Sign(String::new()));
            },
        };
        Ok(EvmClient { key, address, chain: chain_id })
    }

    /// The stable address derived from the account's public key.
    pub fn address(&self) -> (a: Address)
        requires
            self.wf(),
        ensures
            a.wf(),
            a.bytes@ == self.spec_address(),
            key_address_of(self.spec_key()) == Some(a.bytes@),
    {
        Address { bytes: self.address.bytes.clone() }
    }

    /// Signs an arbitrary message: exactly when the signer yields the
    /// named EIP-191 signature, the result spells those 65 bytes — `r`,
    /// `s`, then the recovery byte in its 27/28 form — as 0x-prefixed
    /// lowercase hex, 132 characters in all; a refusing signer is a
    /// signing error, never retried.
    pub fn sign_message(&self, message: &str) -> (r: Result<String, Error>)
        ensures
            r is Ok <==> eip191_sign_of(self.spec_key(), message.spec_bytes()) is Some,
            r matches Ok(s) ==> (eip191_sign_of(self.spec_key(), message.spec_bytes())
                matches Some(sg) && s@ == seq!['0', 'x'] + hex_of(electrum_form(sg)) && s@.len()
                == 132),
            r matches Err(e) ==> e is Sign,
    {
        let sig = match sign_message_raw(&self.key, message) {
            Ok(sig) => sig,
            Err(e) => {
                return Err(e);
            },
        };
        let ghost compact = sig.spec_compact();
        let mut tail = sig.s;
        let mut bytes = sig.r;
        bytes.append(&mut tail);
        bytes.push(27 + (if sig.y_parity {
            1u8
        } else {
            0u8
        }));
        proof {
            assert(compact.take(64) =~= bytes@.take(64));
            assert(bytes@ =~= electrum_form(compact));
        }
        let hex = hex_prefixed(&bytes);
        proof {
            lemma_hex_of_len(bytes@);
        }
        Ok(hex)
    }

    /// Opens an approval of `amount` for `spender` on `token`, with this
    /// account as the owner: a native asset or a covering allowance means
    /// no chain mutation; otherwise the allowance is read first — unless
    /// skipped — and at most one approval transaction is submitted.
    pub fn approve(
        &self,
        token: Token,
        spender: &Address,
        amount: &Uint256,
        ignore_allowance: bool,
    ) -> (r: ApproveStep)
        requires
            self.wf(),
            spender.wf(),
            amount.wf(),
        ensures
            r.spec_submissions() <= 1,
            token.spec_is_native() ==> r is Done,
            !token.spec_is_native() && !ignore_allowance ==> (r matches ApproveStep::NeedAllowance {
                token: t,
                owner: o,
                spender: s,
            } && t.bytes@ == token.spec_address() && o.bytes@ == self.spec_address() && s.bytes@
                == spender.bytes@),
            !token.spec_is_native() && ignore_allowance && amount.as_nat() == 0 ==> r is Done,
            !token.spec_is_native() && ignore_allowance && amount.as_nat() != 0 ==> (r matches
                ApproveStep::Submit(i) && i.wf() && crate::approve::is_approval_intent(
                i,
                token,
                spender.bytes@,
                amount.be_bytes@,
            )),
    {
        let owner = self.address();
        approve_start(token, &owner, spender, amount, ignore_allowance)
    }

    /// Converts a prepared request into a signed, broadcastable envelope,
    /// dispatching on the encoding the request builds into.  A legacy or
    /// priority-fee request is signed over its own preimage: it succeeds
    /// exactly when the signer yields the named signature over that
    /// preimage's digest, and the envelope wraps the built transaction
    /// with exactly that signature.  Any other encoding is refused
    /// outright and yields no envelope.
    pub fn sign_tx_request(&self, req: TxRequest) -> (r: Result<Envelope, Error>)
        requires
            req.wf(),
        ensures
            ({
                let c = req.spec_preferred_class();
                let key = self.spec_key();
                &&& !c.spec_supported() ==> r == Err::<Envelope, Error>(Error::UnexpectedTxType(c))
                &&& c.spec_supported() ==> (req.spec_build_fault() matches Some(f) ==> r == Err::<
                    Envelope,
                    Error,
                >(Error::UnbuiltTx(f)))
                &&& (c is Legacy && req.spec_build_fault() is None) ==> {
                    let named = ecdsa_sign_of(key, keccak256_of(legacy_preimage_for(req)));
                    &&& (r is Ok <==> named is Some)
                    &&& match r {
                        Ok(env) => env matches Envelope::Legacy { tx, sig } && env.wf() && named
                            == Some(sig.spec_compact()) && tx.nonce == req.nonce->0 && tx.chain_id
                            == req.chain_id->0 && tx.gas_price == req.gas_price->0 && tx.gas_limit
                            == req.gas_limit->0 && tx.to == req.to->0 && tx.input@ == req.input@
                            && tx.value.be_bytes@ == spec_value_bytes(req),
                        Err(e) => e is Sign,
                    }
                }
                &&& (c is Eip1559 && req.spec_build_fault() is None) ==> {
                    let named = ecdsa_sign_of(key, keccak256_of(dynamic_fee_preimage_for(req)));
                    &&& (r is Ok <==> named is Some)
                    &&& match r {
                        Ok(env) => env matches Envelope::Eip1559 { tx, sig } && env.wf() && named
                            == Some(sig.spec_compact()) && tx.nonce == req.nonce->0 && tx.chain_id
                            == req.chain_id->0 && tx.max_fee_per_gas == req.max_fee_per_gas->0
                            && tx.max_priority_fee_per_gas == req.max_priority_fee_per_gas->0
                            && tx.gas_limit == req.gas_limit->0 && tx.to == req.to->0 && tx.input@
                            == req.input@ && tx.value.be_bytes@ == spec_value_bytes(req),
                        Err(e) => e is Sign,
                    }
                }
            }),
    {
        let ghost spec_req = req;
        let typed = match build_unsigned(req) {
            Ok(t) => t,
            Err(e) => {
                return Err(e);
            },
        };
        match typed {
            TypedTx::Legacy(t) => {
                let preimage = encode_legacy_preimage(&t);
                assert(preimage@ == legacy_preimage_for(spec_req));
                let hash = keccak256_bytes(preimage.as_slice());
                match sign_hash(&self.key, &hash) {
                    Ok(sig) => Ok(Envelope::Legacy { tx: t, sig }),
                    Err(e) => Err(e),
                }
            },
            TypedTx::Eip1559(t) => {
                let preimage = encode_dynamic_fee_preimage(&t);
                assert(preimage@ == dynamic_fee_preimage_for(spec_req));
                let hash = keccak256_bytes(preimage.as_slice());
                match sign_hash(&self.key, &hash) {
                    Ok(sig) => Ok(Envelope::Eip1559 { tx: t, sig }),
                    Err(e) => Err(e),
                }
            },
            TypedTx::Other(c) => Err(Error::UnexpectedTxType(c)),
        }
    }
}

/// Hex spells two characters a byte.
proof fn lemma_hex_of_len(b: Seq<u8>)
    ensures
        hex_of(b).len() == 2 * b.len(),
    decreases b.len(),
{
    if b.len() > 0 {
        lemma_hex_of_len(b.drop_last());
    }
}

} // verus!
