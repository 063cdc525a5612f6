//! Solidity call-data encoding for the two ERC-20 calls the client makes:
//! reading an allowance and granting one.  A call is its four-byte
//! selector — the head of the keccak-256 digest of the function's
//! signature — followed by the arguments, each left-padded to a 32-byte
//! word.
use vstd::prelude::*;

use vstd::string::StringSliceAdditionalSpecFns;

use crate::client::keccak256_bytes;
use crate::client::keccak256_of;
use crate::primitives::Address;
use crate::primitives::Uint256;

verus! {

/// The four-byte selector of a solidity function signature.
pub open spec fn spec_selector(signature_bytes: Seq<u8>) -> Seq<u8> {
    keccak256_of(signature_bytes).take(4)
}

/// Computes the four-byte selector of a solidity function signature.
pub fn solidity_selector(signature: &str) -> (v: Vec<u8>)
    ensures
        v@ == spec_selector(signature.spec_bytes()),
        v@.len() == 4,
{
    let mut digest = keccak256_bytes(signature.as_bytes());
    digest.truncate(4);
    digest
}

/// An address argument as a 32-byte word: twelve zero bytes, then the
/// twenty address bytes.
pub open spec fn abi_address_word(a: Seq<u8>) -> Seq<u8> {
    Seq::new(12, |i: int| 0u8) + a
}

/// Appends an address as its padded 32-byte word.
pub fn append_address_word(out: &mut Vec<u8>, a: &Address)
    requires
        a.wf(),
    ensures
        final(out)@ == old(out)@ + abi_address_word(a.bytes@),
{
    let mut i: usize = 0;
    while i < 12
        invariant
            i <= 12,
            out@ == old(out)@ + Seq::new(i as nat, |j: int| 0u8),
        decreases 12 - i,
    {
        out.push(0u8);
        assert(out@ =~= old(out)@ + Seq::new((i + 1) as nat, |j: int| 0u8));
        i += 1;
    }
    out.extend_from_slice(a.bytes.as_slice());
    assert(out@ =~= old(out)@ + abi_address_word(a.bytes@));
}

/// The call data of `approve(address,uint256)`.
pub open spec fn approve_calldata(spender: Seq<u8>, amount: Seq<u8>) -> Seq<u8> {
    spec_selector("approve(address,uint256)".spec_bytes()) + abi_address_word(spender) + amount
}

/// Encodes the call granting `spender` an allowance of `amount`.
pub fn encode_approve(spender: &Address, amount: &Uint256) -> (v: Vec<u8>)
    requires
        spender.wf(),
        amount.wf(),
    ensures
        v@ == approve_calldata(spender.bytes@, amount.be_bytes@),
        v@.len() == 68,
{
    let mut v = solidity_selector("approve(address,uint256)");
    append_address_word(&mut v, spender);
    v.extend_from_slice(amount.be_bytes.as_slice());
    assert(v@ =~= approve_calldata(spender.bytes@, amount.be_bytes@));
    v
}

/// The call data of `allowance(address,address)`.
pub open spec fn allowance_calldata(owner: Seq<u8>, spender: Seq<u8>) -> Seq<u8> {
    spec_selector("allowance(address,address)".spec_bytes()) + abi_address_word(owner)
        + abi_address_word(spender)
}

/// Encodes the call reading the allowance `owner` has granted `spender`.
pub fn encode_allowance(owner: &Address, spender: &Address) -> (v: Vec<u8>)
    requires
        owner.wf(),
        spender.wf(),
    ensures
        v@ == allowance_calldata(owner.bytes@, spender.bytes@),
        v@.len() == 68,
{
    let mut v = solidity_selector("allowance(address,address)");
    append_address_word(&mut v, owner);
    append_address_word(&mut v, spender);
    assert(v@ =~= allowance_calldata(owner.bytes@, spender.bytes@));
    v
}

/// Reads a contract call's single 32-byte word answer as an amount;
/// anything but exactly one word is no amount.
pub fn uint256_from_word(word: Vec<u8>) -> (r: Option<Uint256>)
    ensures
        word@.len() == 32 ==> (r matches Some(u) && u.wf() && u.be_bytes@ == word@),
        word@.len() != 32 ==> r is None,
{
    if word.len() == 32 {
        Some(Uint256 { be_bytes: word })
    } else {
        None
    }
}

} // verus!
