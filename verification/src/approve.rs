//! The token approval helper.  Before an ERC-20 style token can be spent,
//! the spender may need an allowance; this module decides — from plain
//! values — whether any chain interaction is needed at all, and builds the
//! one approval intent when it is.
use vstd::prelude::*;

use crate::abi::approve_calldata;
use crate::abi::encode_approve;
use crate::primitives::Address;
use crate::primitives::Uint256;
use crate::token::Token;
use crate::tx::Intent;

verus! {

/// The next move of an approval: nothing, one read, or one transaction.
pub enum ApproveStep {
    /// No chain interaction of any kind is needed.
    Done,
    /// The current allowance must be read before deciding.
    NeedAllowance { token: Address, owner: Address, spender: Address },
    /// Exactly this approval must go through the pipeline.
    Submit(Intent),
}

impl ApproveStep {
    /// How many chain-state-mutating transactions the step submits.
    pub open spec fn spec_submissions(self) -> nat {
        match self {
            ApproveStep::Submit(_) => 1,
            _ => 0,
        }
    }

    /// How many chain interactions of any kind — reads included — the
    /// step asks for.
    pub open spec fn spec_chain_calls(self) -> nat {
        match self {
            ApproveStep::Done => 0,
            ApproveStep::NeedAllowance { .. } => 1,
            ApproveStep::Submit(_) => 1,
        }
    }
}

/// Law: an approval never mutates chain state more than once, and a step
/// that is done touches the chain in no way at all — so a native asset
/// (always `Done`) causes zero calls of any kind, and a covering
/// allowance (always `Done`) causes zero chain-state-mutating calls.
pub proof fn lemma_approval_policy(step: ApproveStep)
    ensures
        step.spec_submissions() <= 1,
        step is Done ==> step.spec_chain_calls() == 0 && step.spec_submissions() == 0,
        step.spec_submissions() <= step.spec_chain_calls(),
{
}

/// The intent that grants `spender` an allowance of `amount` on the
/// token's contract.
pub open spec fn is_approval_intent(i: Intent, token: Token, spender: Seq<u8>, amount: Seq<
    u8,
>) -> bool {
    &&& i.to.bytes@ == token.spec_address()
    &&& i.input@ == approve_calldata(spender, amount)
    &&& i.value is None
    &&& i.class is None
}

/// Builds the approval intent itself.
fn approval_intent(token: Token, spender: &Address, amount: &Uint256) -> (i: Intent)
    requires
        spender.wf(),
        amount.wf(),
    ensures
        i.wf(),
        is_approval_intent(i, token, spender.bytes@, amount.be_bytes@),
{
    Intent { to: token.address(), input: encode_approve(spender, amount), value: None, class: None }
}

/// Opens an approval of `amount` for `spender`.  A native asset needs no
/// allowance: nothing happens.  Otherwise the current allowance is read
/// first — unless the check is explicitly skipped, in which case the
/// allowance counts as zero and only a zero request avoids the
/// transaction.
pub fn approve_start(
    token: Token,
    owner: &Address,
    spender: &Address,
    amount: &Uint256,
    ignore_allowance: bool,
) -> (r: ApproveStep)
    requires
        owner.wf(),
        spender.wf(),
        amount.wf(),
    ensures
        r.spec_submissions() <= 1,
        token.spec_is_native() ==> r is Done && r.spec_chain_calls() == 0,
        !token.spec_is_native() && !ignore_allowance ==> (r matches ApproveStep::NeedAllowance {
            token: t,
            owner: o,
            spender: s,
        } && t.bytes@ == token.spec_address() && o.bytes@ == owner.bytes@ && s.bytes@
            == spender.bytes@),
        !token.spec_is_native() && ignore_allowance && amount.as_nat() == 0 ==> r is Done,
        !token.spec_is_native() && ignore_allowance && amount.as_nat() != 0 ==> (r matches
            ApproveStep::Submit(i) && i.wf() && is_approval_intent(
            i,
            token,
            spender.bytes@,
            amount.be_bytes@,
        )),
{
    if token.is_native() {
        return ApproveStep::Done;
    }
    if ignore_allowance {
        let zero = Uint256::zero();
        approve_given_allowance(token, spender, amount, &zero)
    } else {
        ApproveStep::NeedAllowance {
            token: token.address(),
            owner: Address { bytes: owner.bytes.clone() },
            spender: Address { bytes: spender.bytes.clone() },
        }
    }
}

/// Decides with the allowance in hand: an allowance covering the request
/// means no chain-state-mutating call at all; anything short of it means
/// exactly one approval transaction.
pub fn approve_given_allowance(
    token: Token,
    spender: &Address,
    amount: &Uint256,
    allowance: &Uint256,
) -> (r: ApproveStep)
    requires
        spender.wf(),
        amount.wf(),
        allowance.wf(),
    ensures
        r.spec_submissions() == (if allowance.as_nat() < amount.as_nat() {
            1nat
        } else {
            0nat
        }),
        allowance.as_nat() >= amount.as_nat() ==> r is Done && r.spec_chain_calls() == 0,
        allowance.as_nat() < amount.as_nat() ==> (r matches ApproveStep::Submit(i) && i.wf()
            && is_approval_intent(i, token, spender.bytes@, amount.be_bytes@)),
{
    if allowance.ge(amount) {
        ApproveStep::Done
    } else {
        ApproveStep::Submit(approval_intent(token, spender, amount))
    }
}

} // verus!
