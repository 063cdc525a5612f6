//! Plain-value models of the chain's primitive quantities: 20-byte account
//! addresses and 256-bit unsigned amounts kept as big-endian bytes.
use vstd::prelude::*;

use vstd::arithmetic::power::pow;

use crate::rlp::be_min_bytes;
use crate::rlp::be_min_bytes_u128;

verus! {

/// A 20-byte account address.
#[derive(Clone, Debug, PartialEq, Eq)]
pub struct Address {
    pub bytes: Vec<u8>,
}

impl Address {
    pub open spec fn wf(self) -> bool {
        self.bytes@.len() == 20
    }

    /// Accepts exactly 20 bytes; anything else is not an address.
    pub fn from_bytes(bytes: Vec<u8>) -> (r: Option<Address>)
        ensures
            bytes@.len() == 20 ==> (r matches Some(a) && a.bytes@ == bytes@ && a.wf()),
            bytes@.len() != 20 ==> r is None,
    {
        if bytes.len() == 20 {
            Some(Address { bytes })
        } else {
            None
        }
    }

    pub fn clone_bytes(&self) -> (r: Vec<u8>)
        ensures
            r@ == self.bytes@,
    {
        self.bytes.clone()
    }
}

/// The numeric value of a big-endian byte string.
pub open spec fn be_nat(s: Seq<u8>) -> nat
    decreases s.len(),
{
    if s.len() == 0 {
        0
    } else {
        (be_nat(s.drop_last()) * 256 + s.last()) as nat
    }
}

/// A big-endian byte string is bounded by 256 to its length.
pub proof fn lemma_be_nat_bound(s: Seq<u8>)
    ensures
        be_nat(s) < pow(256, s.len()),
    decreases s.len(),
{
    if s.len() == 0 {
        assert(pow(256, 0) == 1) by {
            vstd::arithmetic::power::lemma_pow0(256);
        }
    } else {
        lemma_be_nat_bound(s.drop_last());
        assert(pow(256, s.len()) == 256 * pow(256, (s.len() - 1) as nat)) by {
            reveal_with_fuel(pow, 2);
        }
        assert(be_nat(s.drop_last()) * 256 + s.last() < 256 * pow(
            256,
            (s.len() - 1) as nat,
        )) by (nonlinear_arith)
            requires
                be_nat(s.drop_last()) < pow(256, (s.len() - 1) as nat),
                s.last() < 256,
        ;
    }
}

/// Splitting a big-endian byte string splits its value positionally.
pub proof fn lemma_be_nat_split(s: Seq<u8>, i: int)
    requires
        0 <= i <= s.len(),
    ensures
        be_nat(s) == be_nat(s.take(i)) * pow(256, (s.len() - i) as nat) + be_nat(s.skip(i)),
    decreases s.len() - i,
{
    if i == s.len() {
        assert(s.take(i) == s);
        assert(s.skip(i) =~= Seq::<u8>::empty());
        assert(pow(256, 0) == 1) by {
            vstd::arithmetic::power::lemma_pow0(256);
        }
    } else {
        lemma_be_nat_split(s.drop_last(), i);
        assert(s.drop_last().take(i) =~= s.take(i));
        assert(s.drop_last().skip(i) =~= s.skip(i).drop_last());
        let m = (s.len() - i) as nat;
        assert(pow(256, m) == 256 * pow(256, (m - 1) as nat)) by {
            reveal_with_fuel(pow, 2);
        }
        let t = be_nat(s.take(i));
        let h = be_nat(s.skip(i).drop_last());
        let p = pow(256, (m - 1) as nat);
        assert(s.skip(i).len() > 0);
        assert(s.skip(i).last() == s.last());
        assert(be_nat(s.skip(i)) == h * 256 + s.last());
        assert(be_nat(s.drop_last()) == t * p + h);
        assert((t * p + h) * 256 + s.last() == t * (256 * p) + (h * 256 + s.last()))
            by (nonlinear_arith);
    }
}

/// A string of zero bytes spells zero.
pub proof fn lemma_be_nat_zeros(s: Seq<u8>)
    requires
        forall|j: int| 0 <= j < s.len() ==> s[j] == 0,
    ensures
        be_nat(s) == 0,
    decreases s.len(),
{
    if s.len() > 0 {
        lemma_be_nat_zeros(s.drop_last());
    }
}

/// The minimal big-endian bytes of a number spell that number back.
pub proof fn lemma_be_nat_of_be_min(n: nat)
    ensures
        be_nat(be_min_bytes(n)) == n,
    decreases n,
{
    if n == 0 {
    } else {
        lemma_be_nat_of_be_min(n / 256);
        assert(be_min_bytes(n).drop_last() =~= be_min_bytes(n / 256));
    }
}

/// A number as a 32-byte big-endian word: zero padding, then its minimal
/// bytes.
pub open spec fn padded_be_bytes(n: nat) -> Seq<u8> {
    Seq::new((32 - be_min_bytes(n).len()) as nat, |i: int| 0u8) + be_min_bytes(n)
}

/// A 256-bit unsigned amount, kept as its 32 big-endian bytes.
#[derive(Clone, Debug, PartialEq, Eq)]
pub struct Uint256 {
    pub be_bytes: Vec<u8>,
}

impl Uint256 {
    pub open spec fn wf(self) -> bool {
        self.be_bytes@.len() == 32
    }

    /// The amount as a mathematical integer.
    pub open spec fn as_nat(self) -> nat {
        be_nat(self.be_bytes@)
    }

    pub fn zero() -> (r: Uint256)
        ensures
            r.wf(),
            r.as_nat() == 0,
            r.be_bytes@ == padded_be_bytes(0),
    {
        let mut v: Vec<u8> = Vec::new();
        let mut i: usize = 0;
        while i < 32
            invariant
                i <= 32,
                v@.len() == i,
                forall|j: int| 0 <= j < i ==> v@[j] == 0,
            decreases 32 - i,
        {
            v.push(0u8);
            i += 1;
        }
        proof {
            lemma_be_nat_zeros(v@);
            assert(v@ =~= padded_be_bytes(0));
        }
        Uint256 { be_bytes: v }
    }

    /// The amount holding a 128-bit number: zero padding, then the
    /// number's minimal big-endian bytes.
    pub fn from_u128(n: u128) -> (r: Uint256)
        ensures
            r.wf(),
            r.as_nat() == n,
            r.be_bytes@ == padded_be_bytes(n as nat),
    {
        let min = be_min_bytes_u128(n);
        let mut v: Vec<u8> = Vec::new();
        let pad = 32 - min.len();
        let mut i: usize = 0;
        while i < pad
            invariant
                i <= pad,
                v@.len() == i,
                forall|j: int| 0 <= j < i ==> v@[j] == 0,
            decreases pad - i,
        {
            v.push(0u8);
            i += 1;
        }
        let ghost zeros = v@;
        v.extend_from_slice(min.as_slice());
        proof {
            lemma_be_nat_split(v@, zeros.len() as int);
            assert(v@.take(zeros.len() as int) =~= zeros);
            assert(v@.skip(zeros.len() as int) =~= min@);
            lemma_be_nat_zeros(zeros);
            lemma_be_nat_of_be_min(n as nat);
            assert(v@ =~= padded_be_bytes(n as nat));
        }
        Uint256 { be_bytes: v }
    }

    /// Whether this amount is at least `other`, decided on the bytes from
    /// the most significant end.
    pub fn ge(&self, other: &Uint256) -> (r: bool)
        requires
            self.wf(),
            other.wf(),
        ensures
            r == (self.as_nat() >= other.as_nat()),
    {
        let mut i: usize = 0;
        while i < 32
            invariant
                self.wf(),
                other.wf(),
                i <= 32,
                self.be_bytes@.take(i as int) == other.be_bytes@.take(i as int),
            decreases 32 - i,
        {
            let a = self.be_bytes[i];
            let b = other.be_bytes[i];
            if a != b {
                proof {
                    lemma_be_nat_split(self.be_bytes@, i + 1);
                    lemma_be_nat_split(other.be_bytes@, i + 1);
                    lemma_be_nat_split(self.be_bytes@.take(i + 1), i as int);
                    lemma_be_nat_split(other.be_bytes@.take(i + 1), i as int);
                    assert(self.be_bytes@.take(i + 1).take(i as int) =~= self.be_bytes@.take(
                        i as int,
                    ));
                    assert(other.be_bytes@.take(i + 1).take(i as int) =~= other.be_bytes@.take(
                        i as int,
                    ));
                    assert(self.be_bytes@.take(i + 1).skip(i as int) =~= seq![
                        self.be_bytes@[i as int],
                    ]);
                    assert(other.be_bytes@.take(i + 1).skip(i as int) =~= seq![
                        other.be_bytes@[i as int],
                    ]);
                    assert(be_nat(Seq::<u8>::empty()) == 0);
                    assert(be_nat(seq![a]) == a) by {
                        assert(seq![a].drop_last() =~= Seq::<u8>::empty());
                        assert(seq![a].last() == a);
                        assert(be_nat(Seq::<u8>::empty()) == 0);
                    }
                    assert(be_nat(seq![b]) == b) by {
                        assert(seq![b].drop_last() =~= Seq::<u8>::empty());
                        assert(seq![b].last() == b);
                        assert(be_nat(Seq::<u8>::empty()) == 0);
                    }
                    lemma_be_nat_bound(self.be_bytes@.skip(i + 1));
                    lemma_be_nat_bound(other.be_bytes@.skip(i + 1));
                    let p = pow(256, (32 - i - 1) as nat);
                    let q = be_nat(self.be_bytes@.take(i as int));
                    assert(pow(256, (32 - i) as nat) == 256 * p) by {
                        reveal_with_fuel(pow, 2);
                    }
                    vstd::arithmetic::power::lemma_pow_positive(256, (32 - i - 1) as nat);
                    // each side is (q * 256 + digit) * p + rest, rest < p
                    assert((q * 256 + a) * p == q * (256 * p) + a * p) by (nonlinear_arith);
                    assert((q * 256 + b) * p == q * (256 * p) + b * p) by (nonlinear_arith);
                    if a > b {
                        assert((b as nat) * p + p <= (a as nat) * p) by (nonlinear_arith)
                            requires
                                b < a,
                                p > 0,
                        ;
                    } else {
                        assert((a as nat) * p + p <= (b as nat) * p) by (nonlinear_arith)
                            requires
                                a < b,
                                p > 0,
                        ;
                    }
                }
                return a > b;
            }
            proof {
                assert(self.be_bytes@.take(i + 1) =~= other.be_bytes@.take(i + 1));
            }
            i += 1;
        }
        proof {
            assert(self.be_bytes@.take(32) =~= self.be_bytes@);
            assert(other.be_bytes@.take(32) =~= other.be_bytes@);
        }
        true
    }
}

} // verus!
