use alloy::primitives::keccak256;

use evm_client::error::Error;
use evm_client::kiloex::{
    auth_body, auth_message, build_claim_intent, claim_data_from_entries, claim_plan,
    decode_proof_word, dex_contract, AirdropStatus, KiloexClaimData, ResponseData, TokenClaimData,
};
use evm_client::primitives::{Address, Uint256};
use evm_client::token::Token;
use evm_client::tx::TxClass;

fn proof_hex(b: u8) -> String {
    format!("0x{}", format!("{:02x}", b).repeat(32))
}

fn two_entries() -> Vec<ResponseData> {
    vec![
        ResponseData {
            amount: 1_000_000_000_000_000_000,
            proof: format!("[\"{}\",\"{}\"]", proof_hex(0x11), proof_hex(0x22)),
        },
        ResponseData {
            amount: 2_000_000_000_000_000_000,
            proof: format!("[\"{}\"]", proof_hex(0x33)),
        },
    ]
}

#[test]
fn two_rows_mean_eligible_with_parsed_proofs() {
    let data = claim_data_from_entries(two_entries()).unwrap();
    assert_eq!(data.status, AirdropStatus::Eligible);
    let kilo = data.kilo.unwrap();
    assert_eq!(kilo.amount, 1_000_000_000_000_000_000);
    assert_eq!(kilo.proof, vec![proof_hex(0x11), proof_hex(0x22)]);
    let xkilo = data.xkilo.unwrap();
    assert_eq!(xkilo.amount, 2_000_000_000_000_000_000);
    assert_eq!(xkilo.proof, vec![proof_hex(0x33)]);
}

#[test]
fn any_other_shape_means_not_eligible() {
    let data = claim_data_from_entries(vec![]).unwrap();
    assert_eq!(data.status, AirdropStatus::NotEligible);
    assert!(data.kilo.is_none());
    assert!(data.xkilo.is_none());
}

#[test]
fn a_malformed_proof_is_the_proof_parse_error() {
    let mut entries = two_entries();
    entries[0].proof = "not json".to_string();
    assert!(matches!(claim_data_from_entries(entries), Err(Error::ProofParse)));
}

#[test]
fn proof_rows_decode_to_their_32_byte_words() {
    let w = decode_proof_word(&proof_hex(0xab)).unwrap();
    assert_eq!(w, vec![0xab; 32]);
    // without the prefix too
    let w = decode_proof_word(&"cd".repeat(32)).unwrap();
    assert_eq!(w, vec![0xcd; 32]);
    assert!(matches!(decode_proof_word("0x1234"), Err(Error::FromHex)));
    assert!(matches!(decode_proof_word("0x123"), Err(Error::FromHex)));
    assert!(matches!(
        decode_proof_word(&format!("0x{}", "zz".repeat(32))),
        Err(Error::FromHex)
    ));
}

#[test]
fn the_claim_intent_calls_the_dex_with_the_claim_call_data() {
    let data = claim_data_from_entries(two_entries()).unwrap();
    let intent = build_claim_intent(data, Token::KILO).unwrap();
    assert_eq!(intent.to.bytes, dex_contract().bytes);
    assert_eq!(intent.class, Some(TxClass::Legacy));
    assert_eq!(intent.value, None);

    let input = intent.input;
    let expected_selector = &keccak256(b"claim(uint256,uint256,bytes32[])")[..4];
    assert_eq!(&input[..4], expected_selector);
    // rebate 0, the amount, the array offset, the word count, two words
    assert_eq!(&input[4..36], Uint256::from_u128(0).be_bytes.as_slice());
    assert_eq!(
        &input[36..68],
        Uint256::from_u128(1_000_000_000_000_000_000).be_bytes.as_slice()
    );
    assert_eq!(&input[68..100], Uint256::from_u128(96).be_bytes.as_slice());
    assert_eq!(&input[100..132], Uint256::from_u128(2).be_bytes.as_slice());
    assert_eq!(&input[132..164], vec![0x11; 32].as_slice());
    assert_eq!(&input[164..196], vec![0x22; 32].as_slice());
    assert_eq!(input.len(), 196);
}

#[test]
fn the_escrowed_token_claims_with_rebate_one() {
    let data = claim_data_from_entries(two_entries()).unwrap();
    let intent = build_claim_intent(data, Token::XKILO).unwrap();
    assert_eq!(&intent.input[4..36], Uint256::from_u128(1).be_bytes.as_slice());
}

#[test]
fn a_missing_claim_slot_is_the_no_claim_data_error() {
    let data = KiloexClaimData { status: AirdropStatus::Eligible, kilo: None, xkilo: None };
    assert!(matches!(
        build_claim_intent(data, Token::KILO),
        Err(Error::NoClaimDataAvailable)
    ));
}

#[test]
fn an_undecodable_proof_row_is_the_from_hex_error() {
    let data = KiloexClaimData {
        status: AirdropStatus::Eligible,
        kilo: Some(TokenClaimData { amount: 5, proof: vec!["0x12".to_string()] }),
        xkilo: None,
    };
    assert!(matches!(build_claim_intent(data, Token::KILO), Err(Error::FromHex)));
}

#[test]
fn the_plan_claims_whatever_slots_are_filled() {
    let data = claim_data_from_entries(two_entries()).unwrap();
    assert_eq!(claim_plan(&data), vec![Token::KILO, Token::XKILO]);
    let none = claim_data_from_entries(vec![]).unwrap();
    assert_eq!(claim_plan(&none), Vec::<Token>::new());
}

#[test]
fn the_sign_in_message_spells_the_lowercase_address_and_nonce() {
    let address = Address::from_bytes(vec![0xAB; 20]).unwrap();
    let message = auth_message(&address, "n-42");
    let expected = format!(
        "Welcome to KiloEx!\n\nClick to sign in.\nThis request will not trigger a blockchain transaction or cost any gas fees.\n\nURI: https://www.kiloex.io\nWallet address: 0x{}\nNonce: n-42\n",
        "ab".repeat(20)
    );
    assert_eq!(message, expected);
    let body = auth_body("0xsig", &address);
    assert_eq!(body, format!("signedMessage=0xsig&account=0x{}", "ab".repeat(20)));
}

#[test]
fn the_service_urls_spell_the_account_and_timestamp() {
    let address = Address::from_bytes(vec![0xAB; 20]).unwrap();
    assert_eq!(
        evm_client::kiloex::nonce_request_url(&address, 1700000000),
        format!(
            "https://api.kiloex.io/user/nonce?account=0x{}&t=1700000000",
            "ab".repeat(20)
        )
    );
    assert_eq!(
        evm_client::kiloex::airdrop_query_url(&address, 7),
        format!(
            "https://opapi.kiloex.io/point/queryAirdropLeaf?account=0x{}&t=7",
            "ab".repeat(20)
        )
    );
}

#[test]
fn token_metadata_is_fixed() {
    assert_eq!(Token::KILO.decimals(), 18);
    assert_eq!(Token::XKILO.decimals(), 18);
    assert!(!Token::KILO.is_native());
    assert!(!Token::XKILO.is_native());
    assert_eq!(Token::KILO.ticker(), "KILO");
    assert_eq!(Token::XKILO.ticker(), "xKILO");
    assert_eq!(
        Token::KILO.address().bytes,
        alloy::primitives::hex::decode("503Fa24B7972677F00C4618e5FBe237780C1df53").unwrap()
    );
    assert_eq!(
        Token::XKILO.address().bytes,
        alloy::primitives::hex::decode("A586438a641bF1D44938Dabe819249D55E88C040").unwrap()
    );
    assert_eq!(
        dex_contract().bytes,
        alloy::primitives::hex::decode("1CC40B6e8a0b85bD880287f1d50DA1fb24558699").unwrap()
    );
}
