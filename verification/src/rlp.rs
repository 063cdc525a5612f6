//! RLP, the recursive length prefix encoding: byte strings and lists carry
//! a length prefix, integers are their minimal big-endian bytes.  This is
//! the wire form both of a transaction's signing preimage and of the raw
//! envelope a chain accepts for broadcast.
use vstd::prelude::*;

use vstd::arithmetic::power::pow;

verus! {

/// The minimal big-endian byte string of `n`: empty for zero, no leading
/// zero byte otherwise.
pub open spec fn be_min_bytes(n: nat) -> Seq<u8>
    decreases n,
{
    if n == 0 {
        Seq::empty()
    } else {
        be_min_bytes(n / 256).push((n % 256) as u8)
    }
}

/// `b` with leading zero bytes removed.
pub open spec fn spec_trim_zeros(b: Seq<u8>) -> Seq<u8>
    decreases b.len(),
{
    if b.len() == 0 || b[0] != 0 {
        b
    } else {
        spec_trim_zeros(b.drop_first())
    }
}

/// The length prefix of a byte string (`tag` 0x80) or list (`tag` 0xc0)
/// whose payload has `len` bytes.
pub open spec fn rlp_len_prefix(tag: u8, len: nat) -> Seq<u8> {
    if len <= 55 {
        seq![(tag + len) as u8]
    } else {
        seq![(tag + 55 + be_min_bytes(len).len()) as u8] + be_min_bytes(len)
    }
}

/// The encoding of a byte string: itself when a single byte below 0x80,
/// else a length prefix followed by the bytes.
pub open spec fn rlp_bytes(b: Seq<u8>) -> Seq<u8> {
    if b.len() == 1 && b[0] < 0x80 {
        b
    } else {
        rlp_len_prefix(0x80, b.len()) + b
    }
}

/// The encoding of an unsigned integer: its minimal big-endian bytes as a
/// byte string.
pub open spec fn rlp_uint(n: nat) -> Seq<u8> {
    rlp_bytes(be_min_bytes(n))
}

/// The encoding of a list whose concatenated item encodings are `payload`.
pub open spec fn rlp_list(payload: Seq<u8>) -> Seq<u8> {
    rlp_len_prefix(0xc0, payload.len()) + payload
}

/// A number below 256^k has at most k minimal bytes.
proof fn lemma_be_min_bytes_len(n: nat, k: nat)
    requires
        n < pow(256, k),
    ensures
        be_min_bytes(n).len() <= k,
    decreases n,
{
    if n == 0 {
    } else {
        assert(k > 0) by {
            if k == 0 {
                assert(pow(256, 0) == 1) by {
                    vstd::arithmetic::power::lemma_pow0(256);
                }
            }
        }
        assert(pow(256, k) == 256 * pow(256, (k - 1) as nat)) by {
            reveal_with_fuel(pow, 2);
        }
        assert(pow(256, (k - 1) as nat) > 0) by {
            vstd::arithmetic::power::lemma_pow_positive(256, (k - 1) as nat);
        }
        assert(n / 256 < pow(256, (k - 1) as nat)) by (nonlinear_arith)
            requires
                n < 256 * pow(256, (k - 1) as nat),
                pow(256, (k - 1) as nat) > 0,
        ;
        assert(n / 256 < n) by (nonlinear_arith)
            requires
                n > 0,
        ;
        lemma_be_min_bytes_len(n / 256, (k - 1) as nat);
    }
}

/// At most 16 minimal bytes fit any 128-bit number, eight any 64-bit one.
pub proof fn lemma_be_min_bytes_len_u128(n: u128)
    ensures
        be_min_bytes(n as nat).len() <= 16,
        n <= u64::MAX ==> be_min_bytes(n as nat).len() <= 8,
{
    assert(pow(256, 16) == 0x100000000000000000000000000000000) by {
        reveal_with_fuel(pow, 17);
    }
    lemma_be_min_bytes_len(n as nat, 16);
    if n <= u64::MAX {
        assert(pow(256, 8) == 0x10000000000000000) by {
            reveal_with_fuel(pow, 9);
        }
        lemma_be_min_bytes_len(n as nat, 8);
    }
}

/// The minimal big-endian bytes of a 128-bit number.
pub fn be_min_bytes_u128(n: u128) -> (v: Vec<u8>)
    ensures
        v@ == be_min_bytes(n as nat),
        v@.len() <= 16,
    decreases n,
{
    proof {
        lemma_be_min_bytes_len_u128(n);
    }
    if n == 0 {
        Vec::new()
    } else {
        let mut v = be_min_bytes_u128(n / 256);
        v.push((n % 256) as u8);
        v
    }
}

/// Trimming stops at the first non-zero byte: the tail from there on.
proof fn lemma_trim_zeros_skip(b: Seq<u8>, i: int)
    requires
        0 <= i <= b.len(),
        forall|j: int| 0 <= j < i ==> b[j] == 0,
        i < b.len() ==> b[i] != 0,
    ensures
        spec_trim_zeros(b) == b.skip(i),
    decreases i,
{
    if i == 0 {
        assert(b.skip(0) == b);
    } else {
        assert(b.len() > 0 && b[0] == 0);
        lemma_trim_zeros_skip(b.drop_first(), i - 1);
        assert(b.drop_first().skip(i - 1) == b.skip(i));
    }
}

/// `b` without its leading zero bytes — the minimal form of the number the
/// bytes spell.
pub fn trim_zeros(b: &Vec<u8>) -> (v: Vec<u8>)
    ensures
        v@ == spec_trim_zeros(b@),
{
    let mut i: usize = 0;
    while i < b.len() && b[i] == 0
        invariant
            i <= b@.len(),
            forall|j: int| 0 <= j < i ==> b@[j] == 0,
        decreases b@.len() - i,
    {
        i += 1;
    }
    proof {
        lemma_trim_zeros_skip(b@, i as int);
    }
    let mut v: Vec<u8> = Vec::new();
    let mut k: usize = i;
    while k < b.len()
        invariant
            i <= k <= b@.len(),
            v@ == b@.subrange(i as int, k as int),
        decreases b@.len() - k,
    {
        v.push(b[k]);
        assert(v@ == b@.subrange(i as int, k + 1 as int));
        k += 1;
    }
    assert(b@.subrange(i as int, b@.len() as int) == b@.skip(i as int));
    v
}

/// Appends the length prefix for a `tag`-kind item of `len` payload bytes.
pub fn append_len_prefix(out: &mut Vec<u8>, tag: u8, len: usize)
    requires
        tag == 0x80 || tag == 0xc0,
    ensures
        final(out)@ == old(out)@ + rlp_len_prefix(tag, len as nat),
{
    if len <= 55 {
        out.push(tag + len as u8);
    } else {
        proof {
            lemma_be_min_bytes_len_u128(len as u128);
        }
        let be = be_min_bytes_u128(len as u128);
        out.push(tag + 55 + be.len() as u8);
        let ghost mid = out@;
        out.extend_from_slice(be.as_slice());
        assert(out@ == old(out)@ + rlp_len_prefix(tag, len as nat));
    }
}

/// Appends the encoding of the byte string `b`.
pub fn append_rlp_bytes(out: &mut Vec<u8>, b: &Vec<u8>)
    ensures
        final(out)@ == old(out)@ + rlp_bytes(b@),
{
    if b.len() == 1 && b[0] < 0x80 {
        out.push(b[0]);
        assert(out@ == old(out)@ + rlp_bytes(b@));
    } else {
        append_len_prefix(out, 0x80, b.len());
        out.extend_from_slice(b.as_slice());
        assert(out@ == old(out)@ + rlp_bytes(b@));
    }
}

/// Appends the encoding of the integer `n`.
pub fn append_rlp_uint(out: &mut Vec<u8>, n: u128)
    ensures
        final(out)@ == old(out)@ + rlp_uint(n as nat),
{
    let be = be_min_bytes_u128(n);
    append_rlp_bytes(out, &be);
}

/// Wraps a finished payload as a list: prefix, then the payload itself.
pub fn wrap_rlp_list(payload: Vec<u8>) -> (v: Vec<u8>)
    ensures
        v@ == rlp_list(payload@),
{
    let mut v: Vec<u8> = Vec::new();
    append_len_prefix(&mut v, 0xc0, payload.len());
    v.extend_from_slice(payload.as_slice());
    assert(v@ == rlp_list(payload@));
    v
}

} // verus!
