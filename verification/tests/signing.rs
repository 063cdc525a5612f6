use alloy::consensus::{SignableTransaction, TxEip1559, TxEnvelope, TxLegacy};
use alloy::eips::eip2718::Encodable2718;
use alloy::primitives::{hex, Address as AlloyAddress, Bytes, TxKind, U256};
use alloy::signers::local::PrivateKeySigner;
use alloy::signers::SignerSync;

use evm_client::client::EvmClient;
use evm_client::envelope::Envelope;
use evm_client::error::{BuildFault, Error};
use evm_client::primitives::{Address, Uint256};
use evm_client::tx::{TxClass, TxRequest};

fn test_key() -> Vec<u8> {
    hex::decode("ac0974bec39a17e36ba4a6b4d238ff944bacb478cbed5efcae784d7bf4f2ff80").unwrap()
}

fn client() -> EvmClient {
    EvmClient::new(test_key(), 56).unwrap()
}

fn base_request() -> TxRequest {
    TxRequest {
        from: Some(Address::from_bytes(vec![0x11; 20]).unwrap()),
        to: Some(Address::from_bytes(vec![0xAA; 20]).unwrap()),
        value: Some(Uint256::from_u128(1_000_000_000)),
        input: vec![0xde, 0xad, 0xbe, 0xef],
        nonce: Some(5),
        chain_id: Some(56),
        gas_price: None,
        max_fee_per_gas: Some(100),
        max_priority_fee_per_gas: Some(2),
        gas_limit: Some(21000),
        transaction_type: None,
    }
}

fn legacy_request() -> TxRequest {
    let mut r = base_request();
    r.max_fee_per_gas = None;
    r.max_priority_fee_per_gas = None;
    r.gas_price = Some(7);
    r
}

#[test]
fn the_client_address_is_the_one_the_signer_derives() {
    let ours = client().address();
    let signer = PrivateKeySigner::from_slice(&test_key()).unwrap();
    assert_eq!(ours.bytes.as_slice(), signer.address().as_slice());
}

#[test]
fn a_byte_string_that_is_no_key_is_a_signing_error() {
    let r = EvmClient::new(vec![0u8; 32], 56);
    assert!(matches!(r, Err(Error::Sign(_))));
}

#[test]
fn signing_a_priority_fee_request_tags_the_envelope_priority_fee() {
    let env = client().sign_tx_request(base_request()).unwrap();
    assert_eq!(env.class(), TxClass::Eip1559);
}

#[test]
fn signing_a_legacy_request_tags_the_envelope_legacy() {
    let env = client().sign_tx_request(legacy_request()).unwrap();
    assert_eq!(env.class(), TxClass::Legacy);
}

#[test]
fn signing_an_unrecognized_class_fails_and_yields_no_envelope() {
    let mut req = base_request();
    req.transaction_type = Some(TxClass::Eip4844);
    let r = client().sign_tx_request(req);
    assert!(matches!(r, Err(Error::UnexpectedTxType(TxClass::Eip4844))));
}

#[test]
fn a_request_missing_its_nonce_is_a_build_error() {
    let mut req = base_request();
    req.nonce = None;
    let r = client().sign_tx_request(req);
    assert!(matches!(r, Err(Error::UnbuiltTx(BuildFault::MissingNonce))));
}

#[test]
fn a_request_mixing_fee_kinds_is_a_build_error() {
    let mut req = base_request();
    req.gas_price = Some(7);
    req.transaction_type = Some(TxClass::Legacy);
    let r = client().sign_tx_request(req);
    assert!(matches!(r, Err(Error::UnbuiltTx(BuildFault::ConflictingFeeFields))));
}

#[test]
fn the_legacy_raw_bytes_match_the_reference_encoder() {
    let env = client().sign_tx_request(legacy_request()).unwrap();
    assert!(matches!(env, Envelope::Legacy { .. }));
    let ours = env.raw_bytes();

    let signer = PrivateKeySigner::from_slice(&test_key()).unwrap();
    let tx = TxLegacy {
        chain_id: Some(56),
        nonce: 5,
        gas_price: 7,
        gas_limit: 21000,
        to: TxKind::Call(AlloyAddress::from([0xAA; 20])),
        value: U256::from(1_000_000_000u64),
        input: Bytes::from(vec![0xde, 0xad, 0xbe, 0xef]),
    };
    let sig = signer.sign_hash_sync(&tx.signature_hash()).unwrap();
    let reference: TxEnvelope = tx.into_signed(sig).into();
    let mut expected = Vec::new();
    reference.encode_2718(&mut expected);
    assert_eq!(ours, expected);
}

#[test]
fn the_priority_fee_raw_bytes_match_the_reference_encoder() {
    let env = client().sign_tx_request(base_request()).unwrap();
    let ours = env.raw_bytes();

    let signer = PrivateKeySigner::from_slice(&test_key()).unwrap();
    let tx = TxEip1559 {
        chain_id: 56,
        nonce: 5,
        gas_limit: 21000,
        max_fee_per_gas: 100,
        max_priority_fee_per_gas: 2,
        to: TxKind::Call(AlloyAddress::from([0xAA; 20])),
        value: U256::from(1_000_000_000u64),
        access_list: Default::default(),
        input: Bytes::from(vec![0xde, 0xad, 0xbe, 0xef]),
    };
    let sig = signer.sign_hash_sync(&tx.signature_hash()).unwrap();
    let reference: TxEnvelope = tx.into_signed(sig).into();
    let mut expected = Vec::new();
    reference.encode_2718(&mut expected);
    assert_eq!(ours, expected);
}

#[test]
fn signing_the_same_request_twice_yields_the_same_envelope() {
    let first = client().sign_tx_request(base_request()).unwrap().raw_bytes();
    let second = client().sign_tx_request(base_request()).unwrap().raw_bytes();
    assert_eq!(first, second);
    let first = client().sign_tx_request(legacy_request()).unwrap().raw_bytes();
    let second = client().sign_tx_request(legacy_request()).unwrap().raw_bytes();
    assert_eq!(first, second);
}

#[test]
fn sign_message_spells_the_signature_the_way_the_signer_does() {
    let message = "Welcome to KiloEx!";
    let ours = client().sign_message(message).unwrap();

    let signer = PrivateKeySigner::from_slice(&test_key()).unwrap();
    let sig = signer.sign_message_sync(message.as_bytes()).unwrap();
    let expected = hex::encode_prefixed(sig.as_bytes());
    assert_eq!(ours, expected);
}
