//! Text the client hands outward: lowercase hex (addresses, signatures,
//! raw transactions) and decimal numbers, built character by character.
use vstd::prelude::*;

use vstd::string::StringExecFns;

verus! {

/// The lowercase hex character of a nibble.
pub open spec fn hex_char(n: u8) -> char
    recommends
        n < 16,
{
    if n < 10 {
        (n + 0x30) as char
    } else {
        (n + 87) as char
    }
}

/// The lowercase hex spelling of a byte string, two characters a byte.
pub open spec fn hex_of(b: Seq<u8>) -> Seq<char>
    decreases b.len(),
{
    if b.len() == 0 {
        Seq::empty()
    } else {
        hex_of(b.drop_last()) + seq![
            hex_char(b.last() / 16),
            hex_char(b.last() % 16),
        ]
    }
}

/// The decimal spelling of a number.
pub open spec fn dec_of(n: nat) -> Seq<char>
    decreases n,
{
    if n < 10 {
        seq![hex_char(n as u8)]
    } else {
        dec_of(n / 10).push(hex_char((n % 10) as u8))
    }
}

/// Relies on `String::push`: appends the given character to the end of the
/// string.
#[verifier::external_body]
pub fn push_char(s: &mut String, c: char)
    ensures
        final(s)@ == old(s)@.push(c),
{
    s.push(c);
}

/// Appends the two hex characters of one byte.
pub fn push_hex_byte(s: &mut String, b: u8)
    ensures
        final(s)@ == old(s)@ + seq![hex_char(b / 16), hex_char(b % 16)],
{
    push_char(s, hex_nibble(b / 16));
    push_char(s, hex_nibble(b % 16));
    assert(s@ =~= old(s)@ + seq![hex_char(b / 16), hex_char(b % 16)]);
}

/// The lowercase hex character of a nibble, executably.
pub fn hex_nibble(n: u8) -> (c: char)
    requires
        n < 16,
    ensures
        c == hex_char(n),
{
    if n < 10 {
        (n + 0x30) as char
    } else {
        (n + 87) as char
    }
}

/// Appends the lowercase hex spelling of `b`.
pub fn push_hex(s: &mut String, b: &Vec<u8>)
    ensures
        final(s)@ == old(s)@ + hex_of(b@),
{
    let mut i: usize = 0;
    assert(b@.take(0) =~= Seq::<u8>::empty());
    assert(s@ =~= old(s)@ + hex_of(b@.take(0)));
    while i < b.len()
        invariant
            i <= b@.len(),
            s@ == old(s)@ + hex_of(b@.take(i as int)),
        decreases b@.len() - i,
    {
        let byte = b[i];
        push_hex_byte(s, byte);
        proof {
            let t = b@.take(i + 1);
            assert(t.drop_last() =~= b@.take(i as int));
            assert(t.last() == b@[i as int]);
            assert(s@ =~= old(s)@ + hex_of(b@.take(i + 1)));
        }
        i += 1;
    }
    assert(b@.take(b@.len() as int) =~= b@);
}

/// The `0x`-prefixed lowercase hex spelling of a byte string.
pub fn hex_prefixed(b: &Vec<u8>) -> (s: String)
    ensures
        s@ == seq!['0', 'x'] + hex_of(b@),
{
    let mut s = String::new();
    push_char(&mut s, '0');
    push_char(&mut s, 'x');
    assert(s@ =~= seq!['0', 'x']);
    push_hex(&mut s, b);
    s
}

/// Appends the decimal spelling of `n`.
pub fn push_dec(s: &mut String, n: u64)
    ensures
        final(s)@ == old(s)@ + dec_of(n as nat),
    decreases n,
{
    if n < 10 {
        push_char(s, hex_nibble(n as u8));
        assert(s@ =~= old(s)@ + dec_of(n as nat));
    } else {
        push_dec(s, n / 10);
        push_char(s, hex_nibble((n % 10) as u8));
        assert(s@ =~= old(s)@ + dec_of(n as nat));
    }
}

/// The decimal spelling of `n` as a string.
pub fn dec_string(n: u64) -> (s: String)
    ensures
        s@ == dec_of(n as nat),
{
    let mut s = String::new();
    push_dec(&mut s, n);
    assert(s@ =~= dec_of(n as nat));
    s
}

} // verus!
