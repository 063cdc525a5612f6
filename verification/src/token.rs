//! The two ERC-20 style tokens this client can touch, with their fixed
//! on-chain addresses and display metadata.
use vstd::prelude::*;

use crate::primitives::Address;

verus! {

#[allow(non_camel_case_types)]
#[derive(Clone, Copy, Debug, PartialEq, Eq, PartialOrd, Ord, Hash, Structural)]
pub enum Token {
    KILO,
    XKILO,
}

impl Token {
    pub open spec fn spec_decimals(self) -> u8 {
        18
    }

    pub fn decimals(&self) -> (d: u8)
        ensures
            d == self.spec_decimals(),
    {
        match self {
            Token::KILO => 18,
            Token::XKILO => 18,
        }
    }

    pub open spec fn spec_address(self) -> Seq<u8> {
        match self {
            Token::KILO => seq![
                0x50u8, 0x3F, 0xa2, 0x4B, 0x79, 0x72, 0x67, 0x7F, 0x00, 0xC4, 0x61, 0x8e, 0x5F,
                0xbe, 0x23, 0x77, 0x80, 0xC1, 0xdf, 0x53,
            ],
            Token::XKILO => seq![
                0xA5u8, 0x86, 0x43, 0x8a, 0x64, 0x1b, 0xF1, 0xD4, 0x49, 0x38, 0xDa, 0xbe, 0x81,
                0x92, 0x49, 0xD5, 0x5E, 0x88, 0xC0, 0x40,
            ],
        }
    }

    /// The token's contract address.
    pub fn address(&self) -> (a: Address)
        ensures
            a.wf(),
            a.bytes@ == self.spec_address(),
    {
        let bytes: Vec<u8> = match self {
            Token::KILO => vec![
                0x50u8, 0x3F, 0xa2, 0x4B, 0x79, 0x72, 0x67, 0x7F, 0x00, 0xC4, 0x61, 0x8e, 0x5F,
                0xbe, 0x23, 0x77, 0x80, 0xC1, 0xdf, 0x53,
            ],
            Token::XKILO => vec![
                0xA5u8, 0x86, 0x43, 0x8a, 0x64, 0x1b, 0xF1, 0xD4, 0x49, 0x38, 0xDa, 0xbe, 0x81,
                0x92, 0x49, 0xD5, 0x5E, 0x88, 0xC0, 0x40,
            ],
        };
        assert(bytes@ =~= self.spec_address());
        Address { bytes }
    }

    pub open spec fn spec_is_native(self) -> bool {
        false
    }

    /// Whether the token is the chain's native asset, which needs no
    /// allowance.  Neither of the two is.
    pub fn is_native(&self) -> (r: bool)
        ensures
            r == self.spec_is_native(),
    {
        match self {
            Token::KILO => false,
            Token::XKILO => false,
        }
    }

    pub open spec fn spec_ticker(self) -> Seq<char> {
        match self {
            Token::KILO => "KILO"@,
            Token::XKILO => "xKILO"@,
        }
    }

    pub fn ticker(&self) -> (t: &'static str)
        ensures
            t@ == self.spec_ticker(),
    {
        match self {
            Token::KILO => "KILO",
            Token::XKILO => "xKILO",
        }
    }
}

} // verus!
