//! The airdrop-claim flow around the pipeline: mapping the eligibility
//! service's answer, decoding merkle proofs, and building the one claim
//! transaction per token.  The HTTP exchanges themselves belong to the
//! driver; everything computed from their plain answers is verified here.
use vstd::prelude::*;

use vstd::string::StringExecFns;
use vstd::string::StringSliceAdditionalSpecFns;
use vstd::utf8::encode_utf8;

use crate::abi::solidity_selector;
use crate::abi::spec_selector;
use crate::error::Error;
use crate::primitives::padded_be_bytes;
use crate::primitives::Address;
use crate::primitives::Uint256;
use crate::textfmt::dec_of;
use crate::textfmt::hex_of;
use crate::textfmt::push_dec;
use crate::textfmt::push_hex;
use crate::token::Token;
use crate::tx::Intent;
use crate::tx::TxClass;

verus! {

/// One row of the eligibility service's answer: a token amount and its
/// merkle proof, the latter as an embedded JSON list of hex strings.
pub struct ResponseData {
    pub amount: u128,
    pub proof: String,
}

/// By name: what a JSON list-of-strings text parses to, a function of the
/// text alone — or nothing, when the text is no such list.
pub uninterp spec fn json_string_list(s: Seq<char>) -> Option<Seq<Seq<char>>>;

/// Relies on `serde_json::from_str::<Vec<String>>`: parses a JSON list of
/// strings, a function of the text alone.
#[verifier::external_body]
fn parse_string_list(s: &str) -> (r: Result<Vec<String>, Error>)
    ensures
        r is Ok <==> json_string_list(s@) is Some,
        r matches Ok(v) ==> (json_string_list(s@) matches Some(l) && v@.map_values(
            |t: String| t@,
        ) == l),
        r matches Err(e) ==> e is ProofParse,
{
    serde_json::from_str::<Vec<String>>(s).map_err(|_| Error::ProofParse)
}

impl ResponseData {
    /// The proof rows as strings, or the proof-parse error when the
    /// embedded text is no JSON list of strings.
    pub fn parsed_proof(&self) -> (r: Result<Vec<String>, Error>)
        ensures
            r is Ok <==> json_string_list(self.proof@) is Some,
            r matches Ok(v) ==> (json_string_list(self.proof@) matches Some(l)
                && v@.map_values(|t: String| t@) == l),
            r matches Err(e) ==> e is ProofParse,
    {
        parse_string_list(self.proof.as_str())
    }
}

/// Whether the account is in the airdrop at all.
#[derive(Clone, Copy, Debug, PartialEq, Eq, Structural)]
pub enum AirdropStatus {
    Eligible,
    NotEligible,
}

/// A token's claim: the amount owed and its decoded-ready merkle proof
/// strings.
#[derive(Debug)]
pub struct TokenClaimData {
    pub amount: u128,
    pub proof: Vec<String>,
}

/// The whole answer for one account: eligibility, and one claim per
/// token when eligible.
#[derive(Debug)]
pub struct KiloexClaimData {
    pub status: AirdropStatus,
    pub kilo: Option<TokenClaimData>,
    pub xkilo: Option<TokenClaimData>,
}

/// Folds the service's rows into claim data: exactly two rows mean
/// eligible — the first for the base token, the second for the escrowed
/// one — and any other shape means not eligible.  A malformed embedded
/// proof is the proof-parse error.
pub fn claim_data_from_entries(entries: Vec<ResponseData>) -> (r: Result<KiloexClaimData, Error>)
    ensures
        entries@.len() != 2 ==> (r matches Ok(d) && d.status is NotEligible && d.kilo is None
            && d.xkilo is None),
        entries@.len() == 2 ==> match r {
            Ok(d) => {
                &&& d.status is Eligible
                &&& d.kilo matches Some(t) && t.amount == entries@[0].amount && (json_string_list(
                    entries@[0].proof@,
                ) matches Some(l) && t.proof@.map_values(|s: String| s@) == l)
                &&& d.xkilo matches Some(t) && t.amount == entries@[1].amount && (json_string_list(
                    entries@[1].proof@,
                ) matches Some(l) && t.proof@.map_values(|s: String| s@) == l)
            },
            Err(e) => e is ProofParse && (json_string_list(entries@[0].proof@) is None
                || json_string_list(entries@[1].proof@) is None),
        },
{
    if entries.len() == 2 {
        let kilo_proof = match entries[0].parsed_proof() {
            Ok(p) => p,
            Err(e) => {
                return Err(e);
            },
        };
        let xkilo_proof = match entries[1].parsed_proof() {
            Ok(p) => p,
            Err(e) => {
                return Err(e);
            },
        };
        Ok(
            KiloexClaimData {
                status: AirdropStatus::Eligible,
                kilo: Some(TokenClaimData { amount: entries[0].amount, proof: kilo_proof }),
                xkilo: Some(TokenClaimData { amount: entries[1].amount, proof: xkilo_proof }),
            },
        )
    } else {
        Ok(KiloexClaimData { status: AirdropStatus::NotEligible, kilo: None, xkilo: None })
    }
}

/// The hex value of one ASCII character, if it has one.
pub open spec fn hex_val(b: u8) -> Option<u8> {
    if 0x30 <= b <= 0x39 {
        Some((b - 0x30) as u8)
    } else if 0x61 <= b <= 0x66 {
        Some((b - 0x61 + 10) as u8)
    } else if 0x41 <= b <= 0x46 {
        Some((b - 0x41 + 10) as u8)
    } else {
        None
    }
}

/// The bytes an even-length hex text spells, or nothing on a stray
/// character or an odd length.
pub open spec fn spec_hex_decode(b: Seq<u8>) -> Option<Seq<u8>>
    decreases b.len(),
{
    if b.len() == 0 {
        Some(Seq::empty())
    } else if b.len() == 1 {
        None
    } else {
        match (spec_hex_decode(b.take(b.len() - 2)), hex_val(b[b.len() - 2]), hex_val(
            b[b.len() - 1],
        )) {
            (Some(rest), Some(h), Some(l)) => Some(rest.push((h * 16 + l) as u8)),
            _ => None,
        }
    }
}

/// `b` with a leading `0x` removed, when it has one.
pub open spec fn strip_hex_prefix(b: Seq<u8>) -> Seq<u8> {
    if b.len() >= 2 && b[0] == 0x30 && b[1] == 0x78 {
        b.skip(2)
    } else {
        b
    }
}

/// The 32-byte word a proof row spells: its hex text, prefixed or not,
/// decoded — or nothing when it is no 32-byte hex text.
pub open spec fn proof_word(utf8: Seq<u8>) -> Option<Seq<u8>> {
    match spec_hex_decode(strip_hex_prefix(utf8)) {
        Some(w) => if w.len() == 32 {
            Some(w)
        } else {
            None
        },
        None => None,
    }
}

fn hex_val_exec(b: u8) -> (r: Option<u8>)
    ensures
        r == hex_val(b),
{
    if 0x30 <= b && b <= 0x39 {
        Some(b - 0x30)
    } else if 0x61 <= b && b <= 0x66 {
        Some(b - 0x61 + 10)
    } else if 0x41 <= b && b <= 0x46 {
        Some(b - 0x41 + 10)
    } else {
        None
    }
}

/// Decodes one proof row into its 32-byte word; anything else is the
/// from-hex error.
pub fn decode_proof_word(s: &str) -> (r: Result<Vec<u8>, Error>)
    ensures
        proof_word(s.spec_bytes()) matches Some(w) ==> (r matches Ok(v) && v@ == w && v@.len()
            == 32),
        proof_word(s.spec_bytes()) is None ==> r == Err::<Vec<u8>, Error>(Error::FromHex),
{
    let all = s.as_bytes();
    let b: &[u8] = if all.len() >= 2 && all[0] == 0x30 && all[1] == 0x78 {
        slice_skip_two(all)
    } else {
        all
    };
    assert(b@ == strip_hex_prefix(s.spec_bytes()));
    if b.len() % 2 != 0 {
        proof {
            lemma_hex_decode_odd(b@);
        }
        return Err(Error::FromHex);
    }
    let half = b.len() / 2;
    assert(b@.len() <= usize::MAX);
    assert(b@.len() == 2 * half);
    let mut out: Vec<u8> = Vec::new();
    let mut j: usize = 0;
    assert(b@.take(0) =~= Seq::<u8>::empty());
    while j < half
        invariant
            j <= half,
            b@.len() == 2 * half,
            b@.len() <= usize::MAX,
            b@ == strip_hex_prefix(s.spec_bytes()),
            spec_hex_decode(b@.take(2 * j as int)) == Some(out@),
        decreases half - j,
    {
        assert(2 * j + 2 <= b@.len());
        let h = match hex_val_exec(b[2 * j]) {
            Some(h) => h,
            None => {
                proof {
                    lemma_hex_decode_bad(b@, 2 * j as int);
                }
                return Err(Error::FromHex);
            },
        };
        let l = match hex_val_exec(b[2 * j + 1]) {
            Some(l) => l,
            None => {
                proof {
                    lemma_hex_decode_bad(b@, 2 * j as int);
                }
                return Err(Error::FromHex);
            },
        };
        out.push(h * 16 + l);
        proof {
            let t = b@.take(2 * (j + 1) as int);
            assert(t.take(t.len() - 2) =~= b@.take(2 * j as int));
            assert(t[t.len() - 2] == b@[2 * j as int]);
            assert(t[t.len() - 1] == b@[2 * j + 1]);
        }
        j += 1;
    }
    assert(b@.take(2 * half as int) =~= b@);
    if out.len() == 32 {
        Ok(out)
    } else {
        Err(Error::FromHex)
    }
}

/// A slice without its first two elements.
fn slice_skip_two(s: &[u8]) -> (r: &[u8])
    requires
        s@.len() >= 2,
    ensures
        r@ == s@.skip(2),
{
    let (_, rest) = s.split_at(2);
    rest
}

/// The decoded words of a list of proof rows, or nothing when any row is
/// no 32-byte hex text.
pub open spec fn decoded_proofs(ps: Seq<Seq<char>>) -> Option<Seq<Seq<u8>>>
    decreases ps.len(),
{
    if ps.len() == 0 {
        Some(Seq::empty())
    } else {
        match (decoded_proofs(ps.drop_last()), proof_word(encode_utf8(ps.last()))) {
            (Some(rest), Some(w)) => Some(rest.push(w)),
            _ => None,
        }
    }
}

/// One bad row spoils the whole proof list.
proof fn lemma_decoded_proofs_bad(ps: Seq<Seq<char>>, k: int)
    requires
        0 <= k < ps.len(),
        proof_word(encode_utf8(ps[k])) is None,
    ensures
        decoded_proofs(ps) is None,
    decreases ps.len(),
{
    if k < ps.len() - 1 {
        lemma_decoded_proofs_bad(ps.drop_last(), k);
    }
}

/// The concatenation of 32-byte words, in order.
pub open spec fn concat_words(ws: Seq<Seq<u8>>) -> Seq<u8>
    decreases ws.len(),
{
    if ws.len() == 0 {
        Seq::empty()
    } else {
        concat_words(ws.drop_last()) + ws.last()
    }
}

/// The dex contract the claims go to.
pub open spec fn spec_dex_address() -> Seq<u8> {
    seq![
        0x1Cu8, 0xC4, 0x0B, 0x6e, 0x8a, 0x0b, 0x85, 0xbD, 0x88, 0x02, 0x87, 0xf1, 0xd5, 0x0D,
        0xA1, 0xfb, 0x24, 0x55, 0x86, 0x99,
    ]
}

/// The dex contract the claims go to.
pub fn dex_contract() -> (a: Address)
    ensures
        a.wf(),
        a.bytes@ == spec_dex_address(),
{
    let bytes: Vec<u8> = vec![
        0x1Cu8, 0xC4, 0x0B, 0x6e, 0x8a, 0x0b, 0x85, 0xbD, 0x88, 0x02, 0x87, 0xf1, 0xd5, 0x0D,
        0xA1, 0xfb, 0x24, 0x55, 0x86, 0x99,
    ];
    assert(bytes@ =~= spec_dex_address());
    Address { bytes }
}

/// The rebate argument each token claims with.
pub open spec fn spec_rebate(token: Token) -> nat {
    match token {
        Token::KILO => 0,
        Token::XKILO => 1,
    }
}

/// The call data of `claim(uint256,uint256,bytes32[])`: the rebate, the
/// claim amount, then the proof words as a dynamic array — its 96-byte
/// head offset, its length, its words.
pub open spec fn claim_calldata(rebate: nat, amount: nat, words: Seq<Seq<u8>>) -> Seq<u8> {
    spec_selector("claim(uint256,uint256,bytes32[])".spec_bytes()) + padded_be_bytes(rebate)
        + padded_be_bytes(amount) + padded_be_bytes(96) + padded_be_bytes(words.len())
        + concat_words(words)
}

/// Assembles the claim call data for decoded proof words.
#[verifier::rlimit(60)]
pub fn encode_claim_calldata(rebate: u128, amount: u128, words: &Vec<Vec<u8>>) -> (v: Vec<u8>)
    ensures
        v@ == claim_calldata(rebate as nat, amount as nat, words@.map_values(|w: Vec<u8>| w@)),
{
    let ghost m = words@.map_values(|w: Vec<u8>| w@);
    let mut v = solidity_selector("claim(uint256,uint256,bytes32[])");
    let rebate_word = Uint256::from_u128(rebate);
    v.extend_from_slice(rebate_word.be_bytes.as_slice());
    let amount_word = Uint256::from_u128(amount);
    v.extend_from_slice(amount_word.be_bytes.as_slice());
    let offset_word = Uint256::from_u128(96);
    v.extend_from_slice(offset_word.be_bytes.as_slice());
    let count_word = Uint256::from_u128(words.len() as u128);
    v.extend_from_slice(count_word.be_bytes.as_slice());
    let ghost head = v@;
    assert(m.take(0) =~= Seq::<Seq<u8>>::empty());
    assert(v@ == head + concat_words(m.take(0)));
    let mut j: usize = 0;
    while j < words.len()
        invariant
            j <= words@.len(),
            m == words@.map_values(|w: Vec<u8>| w@),
            v@ == head + concat_words(m.take(j as int)),
        decreases words@.len() - j,
    {
        v.extend_from_slice(words[j].as_slice());
        proof {
            assert(m.take(j + 1).drop_last() =~= m.take(j as int));
            assert(m.take(j + 1).last() == m[j as int]);
        }
        j += 1;
    }
    proof {
        assert(m.take(m.len() as int) =~= m);
        assert(v@ =~= claim_calldata(rebate as nat, amount as nat, m));
    }
    v
}

/// Builds the one claim transaction for `token` out of the service's
/// data: no data for the token is the no-claim-data error, a malformed
/// proof row the from-hex error, and otherwise the intent calls the dex
/// contract with the claim call data, explicitly as a legacy transaction.
pub fn build_claim_intent(data: KiloexClaimData, token: Token) -> (r: Result<Intent, Error>)
    ensures
        ({
            let slot = match token {
                Token::KILO => data.kilo,
                Token::XKILO => data.xkilo,
            };
            match slot {
                None => r == Err::<Intent, Error>(Error::NoClaimDataAvailable),
                Some(td) => match decoded_proofs(td.proof@.map_values(|s: String| s@)) {
                    None => r == Err::<Intent, Error>(Error::FromHex),
                    Some(ws) => r matches Ok(i) && i.wf() && i.to.bytes@ == spec_dex_address()
                        && i.value is None && i.class == Some(TxClass::Legacy) && i.input@
                        == claim_calldata(spec_rebate(token), td.amount as nat, ws),
                },
            }
        }),
{
    let td = match token {
        Token::KILO => match data.kilo {
            Some(td) => td,
            None => {
                return Err(Error::NoClaimDataAvailable);
            },
        },
        Token::XKILO => match data.xkilo {
            Some(td) => td,
            None => {
                return Err(Error::NoClaimDataAvailable);
            },
        },
    };
    let words = match decode_proof_words(&td.proof) {
        Ok(ws) => ws,
        Err(e) => {
            return Err(e);
        },
    };
    let rebate: u128 = match token {
        Token::KILO => 0,
        Token::XKILO => 1,
    };
    let input = encode_claim_calldata(rebate, td.amount, &words);
    Ok(Intent { to: dex_contract(), input, value: None, class: Some(TxClass::Legacy) })
}

/// Decodes every proof row, or fails on the first row that is no
/// 32-byte hex text.
fn decode_proof_words(proof: &Vec<String>) -> (r: Result<Vec<Vec<u8>>, Error>)
    ensures
        ({
            let chars = proof@.map_values(|s: String| s@);
            match decoded_proofs(chars) {
                Some(ws) => r matches Ok(v) && v@.map_values(|w: Vec<u8>| w@) == ws,
                None => r == Err::<Vec<Vec<u8>>, Error>(Error::FromHex),
            }
        }),
{
    let ghost chars = proof@.map_values(|s: String| s@);
    let mut words: Vec<Vec<u8>> = Vec::new();
    let mut i: usize = 0;
    assert(chars.take(0) =~= Seq::<Seq<char>>::empty());
    while i < proof.len()
        invariant
            i <= proof@.len(),
            chars == proof@.map_values(|s: String| s@),
            decoded_proofs(chars.take(i as int)) == Some(words@.map_values(|v: Vec<u8>| v@)),
        decreases proof@.len() - i,
    {
        let ghost m0 = words@.map_values(|v: Vec<u8>| v@);
        let w = match decode_proof_word(proof[i].as_str()) {
            Ok(w) => w,
            Err(e) => {
                proof {
                    lemma_decoded_proofs_bad(chars, i as int);
                }
                return Err(e);
            },
        };
        words.push(w);
        proof {
            assert(words@.map_values(|v: Vec<u8>| v@) =~= m0.push(w@));
            assert(chars.take(i + 1).drop_last() =~= chars.take(i as int));
            assert(chars.take(i + 1).last() == chars[i as int]);
        }
        i += 1;
    }
    assert(chars.take(chars.len() as int) =~= chars);
    Ok(words)
}

/// Which tokens the claim data asks to claim, in order.
pub fn claim_plan(data: &KiloexClaimData) -> (r: Vec<Token>)
    ensures
        r@ == (if data.kilo is Some {
            seq![Token::KILO]
        } else {
            Seq::empty()
        }) + (if data.xkilo is Some {
            seq![Token::XKILO]
        } else {
            Seq::empty()
        }),
{
    let mut r: Vec<Token> = Vec::new();
    if data.kilo.is_some() {
        r.push(Token::KILO);
    }
    if data.xkilo.is_some() {
        r.push(Token::XKILO);
    }
    proof {
        assert(r@ =~= (if data.kilo is Some {
            seq![Token::KILO]
        } else {
            Seq::<Token>::empty()
        }) + (if data.xkilo is Some {
            seq![Token::XKILO]
        } else {
            Seq::<Token>::empty()
        }));
    }
    r
}

/// The sign-in message the eligibility service asks the account to sign:
/// fixed text around the lowercase 0x address and the service's nonce.
pub open spec fn spec_auth_message(addr: Seq<u8>, nonce: Seq<char>) -> Seq<char> {
    "Welcome to KiloEx!\n\nClick to sign in.\nThis request will not trigger a blockchain transaction or cost any gas fees.\n\nURI: https://www.kiloex.io\nWallet address: 0x"@
        + hex_of(addr) + "\nNonce: "@ + nonce + "\n"@
}

/// Builds the sign-in message for an address and a service nonce.
pub fn auth_message(address: &Address, nonce: &str) -> (s: String)
    requires
        address.wf(),
    ensures
        s@ == spec_auth_message(address.bytes@, nonce@),
{
    let mut s = String::from_str(
        "Welcome to KiloEx!\n\nClick to sign in.\nThis request will not trigger a blockchain transaction or cost any gas fees.\n\nURI: https://www.kiloex.io\nWallet address: 0x",
    );
    push_hex(&mut s, &address.bytes);
    s.append("\nNonce: ");
    s.append(nonce);
    s.append("\n");
    assert(s@ =~= spec_auth_message(address.bytes@, nonce@));
    s
}

/// The URL asking the service for a sign-in nonce: the lowercase 0x
/// account and the current timestamp.
pub open spec fn spec_nonce_request_url(addr: Seq<u8>, timestamp: nat) -> Seq<char> {
    "https://api.kiloex.io/user/nonce?account=0x"@ + hex_of(addr) + "&t="@ + dec_of(timestamp)
}

/// Builds the sign-in nonce URL for an address at a timestamp.
pub fn nonce_request_url(address: &Address, timestamp: u64) -> (s: String)
    requires
        address.wf(),
    ensures
        s@ == spec_nonce_request_url(address.bytes@, timestamp as nat),
{
    let mut s = String::from_str("https://api.kiloex.io/user/nonce?account=0x");
    push_hex(&mut s, &address.bytes);
    s.append("&t=");
    push_dec(&mut s, timestamp);
    assert(s@ =~= spec_nonce_request_url(address.bytes@, timestamp as nat));
    s
}

/// The URL asking the service for the account's airdrop rows: the
/// lowercase 0x account and the current timestamp.
pub open spec fn spec_airdrop_query_url(addr: Seq<u8>, timestamp: nat) -> Seq<char> {
    "https://opapi.kiloex.io/point/queryAirdropLeaf?account=0x"@ + hex_of(addr) + "&t="@ + dec_of(
        timestamp,
    )
}

/// Builds the airdrop-rows URL for an address at a timestamp.
pub fn airdrop_query_url(address: &Address, timestamp: u64) -> (s: String)
    requires
        address.wf(),
    ensures
        s@ == spec_airdrop_query_url(address.bytes@, timestamp as nat),
{
    let mut s = String::from_str("https://opapi.kiloex.io/point/queryAirdropLeaf?account=0x");
    push_hex(&mut s, &address.bytes);
    s.append("&t=");
    push_dec(&mut s, timestamp);
    assert(s@ =~= spec_airdrop_query_url(address.bytes@, timestamp as nat));
    s
}

/// The form body of the sign-in call: the signature, then the lowercase
/// 0x account.
pub open spec fn spec_auth_body(signature: Seq<char>, addr: Seq<u8>) -> Seq<char> {
    "signedMessage="@ + signature + "&account=0x"@ + hex_of(addr)
}

/// Builds the sign-in form body for a signature and an address.
pub fn auth_body(signature: &str, address: &Address) -> (s: String)
    requires
        address.wf(),
    ensures
        s@ == spec_auth_body(signature@, address.bytes@),
{
    let mut s = String::from_str("signedMessage=");
    s.append(signature);
    s.append("&account=0x");
    push_hex(&mut s, &address.bytes);
    assert(s@ =~= spec_auth_body(signature@, address.bytes@));
    s
}

/// An odd-length hex text decodes to nothing.
proof fn lemma_hex_decode_odd(b: Seq<u8>)
    requires
        b.len() % 2 == 1,
    ensures
        spec_hex_decode(b) is None,
    decreases b.len(),
{
    if b.len() > 1 {
        lemma_hex_decode_odd(b.take(b.len() - 2));
    }
}

/// A stray character at an even position spoils the whole decode.
proof fn lemma_hex_decode_bad(b: Seq<u8>, i: int)
    requires
        0 <= i,
        i + 2 <= b.len(),
        b.len() % 2 == 0,
        i % 2 == 0,
        hex_val(b[i]) is None || hex_val(b[i + 1]) is None,
    ensures
        spec_hex_decode(b) is None,
    decreases b.len(),
{
    if b.len() == i + 2 {
        assert(b.take(b.len() - 2).len() == i);
        assert(b[b.len() - 2] == b[i] && b[b.len() - 1] == b[i + 1]);
    } else {
        lemma_hex_decode_bad(b.take(b.len() - 2), i);
    }
}

} // verus!
