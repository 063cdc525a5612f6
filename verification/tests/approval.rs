use alloy::primitives::keccak256;

use evm_client::abi::{encode_allowance, encode_approve, uint256_from_word};
use evm_client::approve::{approve_given_allowance, approve_start, ApproveStep};
use evm_client::primitives::{Address, Uint256};
use evm_client::token::Token;
use evm_client::tx::TxClass;

fn addr(b: u8) -> Address {
    Address::from_bytes(vec![b; 20]).unwrap()
}

#[test]
fn a_sufficient_allowance_means_no_chain_mutating_call() {
    let step = approve_given_allowance(
        Token::KILO,
        &addr(0x22),
        &Uint256::from_u128(500),
        &Uint256::from_u128(500),
    );
    assert!(matches!(step, ApproveStep::Done));
    let step = approve_given_allowance(
        Token::KILO,
        &addr(0x22),
        &Uint256::from_u128(500),
        &Uint256::from_u128(501),
    );
    assert!(matches!(step, ApproveStep::Done));
}

#[test]
fn an_insufficient_allowance_submits_exactly_one_approval() {
    let amount = Uint256::from_u128(500);
    let step = approve_given_allowance(Token::KILO, &addr(0x22), &amount, &Uint256::from_u128(499));
    match step {
        ApproveStep::Submit(intent) => {
            assert_eq!(intent.to.bytes, Token::KILO.address().bytes);
            assert_eq!(intent.class, None);
            assert_eq!(intent.value, None);
            let expected_selector = &keccak256(b"approve(address,uint256)")[..4];
            assert_eq!(&intent.input[..4], expected_selector);
            assert_eq!(&intent.input[..4], [0x09, 0x5e, 0xa7, 0xb3]);
            // the padded spender, then the 32-byte amount
            assert_eq!(&intent.input[4..16], [0u8; 12]);
            assert_eq!(&intent.input[16..36], vec![0x22; 20].as_slice());
            assert_eq!(&intent.input[36..68], Uint256::from_u128(500).be_bytes.as_slice());
            assert_eq!(intent.input.len(), 68);
        }
        _ => panic!("expected a submission"),
    }
}

#[test]
fn checking_first_asks_for_the_allowance() {
    let step = approve_start(Token::XKILO, &addr(0x11), &addr(0x22), &Uint256::from_u128(5), false);
    match step {
        ApproveStep::NeedAllowance { token, owner, spender } => {
            assert_eq!(token.bytes, Token::XKILO.address().bytes);
            assert_eq!(owner.bytes, vec![0x11; 20]);
            assert_eq!(spender.bytes, vec![0x22; 20]);
        }
        _ => panic!("expected an allowance query"),
    }
}

#[test]
fn skipping_the_check_submits_unless_nothing_is_asked() {
    let step = approve_start(Token::KILO, &addr(0x11), &addr(0x22), &Uint256::from_u128(5), true);
    assert!(matches!(step, ApproveStep::Submit(_)));
    let step = approve_start(Token::KILO, &addr(0x11), &addr(0x22), &Uint256::zero(), true);
    assert!(matches!(step, ApproveStep::Done));
}

#[test]
fn the_allowance_call_data_is_the_selector_and_two_padded_addresses() {
    let data = encode_allowance(&addr(0x11), &addr(0x22));
    let expected_selector = &keccak256(b"allowance(address,address)")[..4];
    assert_eq!(&data[..4], expected_selector);
    assert_eq!(&data[4..16], [0u8; 12]);
    assert_eq!(&data[16..36], vec![0x11; 20].as_slice());
    assert_eq!(&data[36..48], [0u8; 12]);
    assert_eq!(&data[48..68], vec![0x22; 20].as_slice());
}

#[test]
fn an_allowance_answer_is_one_32_byte_word() {
    let mut word = vec![0u8; 32];
    word[31] = 0x2c;
    word[30] = 0x01;
    let u = uint256_from_word(word).unwrap();
    assert_eq!(u, Uint256::from_u128(300));
    assert!(uint256_from_word(vec![0u8; 31]).is_none());
}

#[test]
fn the_client_approves_with_its_own_address_as_owner() {
    let key = alloy::primitives::hex::decode(
        "ac0974bec39a17e36ba4a6b4d238ff944bacb478cbed5efcae784d7bf4f2ff80",
    )
    .unwrap();
    let client = evm_client::client::EvmClient::new(key, 56).unwrap();
    let step = client.approve(Token::KILO, &addr(0x22), &Uint256::from_u128(5), false);
    match step {
        ApproveStep::NeedAllowance { owner, .. } => {
            assert_eq!(owner.bytes, client.address().bytes);
        }
        _ => panic!("expected an allowance query"),
    }
}

#[test]
fn amounts_compare_by_value() {
    let a = Uint256::from_u128(u128::MAX);
    let b = Uint256::from_u128(u128::MAX - 1);
    assert!(a.ge(&b));
    assert!(!b.ge(&a));
    assert!(a.ge(&a));
    assert!(a.ge(&Uint256::zero()));
    assert_eq!(Uint256::from_u128(300).be_bytes[30..], [0x01, 0x2c]);
    assert_eq!(encode_approve(&addr(1), &Uint256::zero()).len(), 68);
}
