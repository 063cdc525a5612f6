//! Small helpers around the pipeline: the wall clock, a random pause
//! length, and the cleaning of line-based input.
use vstd::prelude::*;

use crate::error::Error;

verus! {

/// Relies on std's `SystemTime::now` and `duration_since`: whole seconds
/// since the Unix epoch, read from the system clock; a clock before the
/// epoch is the timestamp error.
#[verifier::external_body]
pub fn get_timestamp_utc_now() -> (r: Result<u64, Error>)
    ensures
        r matches Err(e) ==> e is Timestamp,
{
    match std::time::SystemTime::now().duration_since(std::time::UNIX_EPOCH) {
        Ok(d) => Ok(d.as_secs()),
        Err(_) => Err(Error::Timestamp),
    }
}

/// Relies on rand's thread generator and `Rng::random_range`: a number
/// drawn from the inclusive, non-empty range.
#[verifier::external_body]
fn random_u64_inclusive(lo: u64, hi: u64) -> (r: u64)
    requires
        lo <= hi,
    ensures
        lo <= r <= hi,
{
    rand::Rng::random_range(&mut rand::rng(), lo..=hi)
}

/// A number drawn from the range, whichever way round its ends are
/// given.
pub fn random_in_range(range: [u64; 2]) -> (r: u64)
    ensures
        range@[0] <= range@[1] ==> range@[0] <= r <= range@[1],
        range@[1] <= range@[0] ==> range@[1] <= r <= range@[0],
{
    let start = range[0];
    let end = range[1];
    if start <= end {
        random_u64_inclusive(start, end)
    } else {
        random_u64_inclusive(end, start)
    }
}

/// The ASCII whitespace a credentials line is trimmed of.
pub open spec fn is_ascii_space(b: u8) -> bool {
    b == 32 || b == 9 || b == 13 || b == 10
}

/// `s` without leading whitespace.
pub open spec fn trim_front(s: Seq<u8>) -> Seq<u8>
    decreases s.len(),
{
    if s.len() > 0 && is_ascii_space(s[0]) {
        trim_front(s.drop_first())
    } else {
        s
    }
}

/// `s` without trailing whitespace.
pub open spec fn trim_back(s: Seq<u8>) -> Seq<u8>
    decreases s.len(),
{
    if s.len() > 0 && is_ascii_space(s.last()) {
        trim_back(s.drop_last())
    } else {
        s
    }
}

/// `s` without leading and trailing whitespace.
pub open spec fn spec_trim(s: Seq<u8>) -> Seq<u8> {
    trim_back(trim_front(s))
}

/// Trimming from the front stops at the first non-space.
proof fn lemma_trim_front_skip(s: Seq<u8>, i: int)
    requires
        0 <= i <= s.len(),
        forall|j: int| 0 <= j < i ==> is_ascii_space(s[j]),
        i < s.len() ==> !is_ascii_space(s[i]),
    ensures
        trim_front(s) == s.skip(i),
    decreases i,
{
    if i == 0 {
        assert(s.skip(0) == s);
    } else {
        lemma_trim_front_skip(s.drop_first(), i - 1);
        assert(s.drop_first().skip(i - 1) == s.skip(i));
    }
}

/// Trimming from the back stops at the last non-space.
proof fn lemma_trim_back_take(s: Seq<u8>, i: int)
    requires
        0 <= i <= s.len(),
        forall|j: int| i <= j < s.len() ==> is_ascii_space(s[j]),
        i > 0 ==> !is_ascii_space(s[i - 1]),
    ensures
        trim_back(s) == s.take(i),
    decreases s.len() - i,
{
    if i == s.len() {
        assert(s.take(i) == s);
    } else {
        lemma_trim_back_take(s.drop_last(), i);
        assert(s.drop_last().take(i) == s.take(i));
    }
}

/// One line with surrounding ASCII whitespace removed.
pub fn trim_bytes(line: &Vec<u8>) -> (r: Vec<u8>)
    ensures
        r@ == spec_trim(line@),
{
    let n = line.len();
    let mut start: usize = 0;
    while start < n && (line[start] == 32 || line[start] == 9 || line[start] == 13
        || line[start] == 10)
        invariant
            n == line@.len(),
            start <= n,
            forall|j: int| 0 <= j < start ==> is_ascii_space(line@[j]),
        decreases n - start,
    {
        start += 1;
    }
    proof {
        lemma_trim_front_skip(line@, start as int);
    }
    let mut stop: usize = n;
    while stop > start && (line[stop - 1] == 32 || line[stop - 1] == 9 || line[stop - 1] == 13
        || line[stop - 1] == 10)
        invariant
            n == line@.len(),
            start <= stop <= n,
            forall|j: int| 0 <= j < start ==> is_ascii_space(line@[j]),
            forall|j: int| stop <= j < n ==> is_ascii_space(line@[j]),
        decreases stop,
    {
        stop -= 1;
    }
    proof {
        let f = line@.skip(start as int);
        lemma_trim_back_take(f, stop - start);
        assert(forall|j: int| stop - start <= j < f.len() ==> is_ascii_space(#[trigger] f[j]));
    }
    let mut r: Vec<u8> = Vec::new();
    let mut k: usize = start;
    while k < stop
        invariant
            start <= k <= stop <= n,
            n == line@.len(),
            r@ == line@.subrange(start as int, k as int),
        decreases stop - k,
    {
        r.push(line[k]);
        assert(r@ == line@.subrange(start as int, k + 1 as int));
        k += 1;
    }
    proof {
        assert(line@.skip(start as int).take(stop - start) =~= line@.subrange(
            start as int,
            stop as int,
        ));
    }
    r
}

/// The cleaned form of line-based input: each line trimmed, empty lines
/// dropped, order kept.
pub open spec fn spec_clean_lines(lines: Seq<Seq<u8>>) -> Seq<Seq<u8>>
    decreases lines.len(),
{
    if lines.len() == 0 {
        Seq::empty()
    } else {
        let rest = spec_clean_lines(lines.drop_last());
        let t = spec_trim(lines.last());
        if t.len() == 0 {
            rest
        } else {
            rest.push(t)
        }
    }
}

/// Trims every line and drops the empty ones, keeping the order.
pub fn clean_lines(lines: &Vec<Vec<u8>>) -> (r: Vec<Vec<u8>>)
    ensures
        r@.map_values(|v: Vec<u8>| v@) == spec_clean_lines(lines@.map_values(|v: Vec<u8>| v@)),
{
    let ghost m = lines@.map_values(|v: Vec<u8>| v@);
    let mut r: Vec<Vec<u8>> = Vec::new();
    let mut i: usize = 0;
    assert(m.take(0) =~= Seq::<Seq<u8>>::empty());
    while i < lines.len()
        invariant
            i <= lines@.len(),
            m == lines@.map_values(|v: Vec<u8>| v@),
            r@.map_values(|v: Vec<u8>| v@) == spec_clean_lines(m.take(i as int)),
        decreases lines@.len() - i,
    {
        let ghost r0 = r@.map_values(|v: Vec<u8>| v@);
        let t = trim_bytes(&lines[i]);
        if t.len() > 0 {
            let ghost tv = t@;
            r.push(t);
            assert(r@.map_values(|v: Vec<u8>| v@) =~= r0.push(tv));
        }
        proof {
            assert(m.take(i + 1).drop_last() =~= m.take(i as int));
            assert(m.take(i + 1).last() == m[i as int]);
        }
        i += 1;
    }
    assert(m.take(m.len() as int) =~= m);
    r
}

} // verus!
