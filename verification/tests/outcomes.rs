use evm_client::client::EvmClient;
use evm_client::envelope::Envelope;
use evm_client::error::Error;
use evm_client::prepare::{begin_prepare, FeeQuery};
use evm_client::primitives::{Address, Uint256};
use evm_client::submit::{outcome_of, receipt_line, Receipt};
use evm_client::tx::{Intent, TxClass};

use alloy::primitives::hex;

fn addr(b: u8) -> Address {
    Address::from_bytes(vec![b; 20]).unwrap()
}

#[test]
fn a_true_status_maps_to_success_with_the_receipts_hash() {
    let receipt = Receipt { transaction_hash: vec![0xab; 32], status: true };
    assert_eq!(outcome_of(&receipt).unwrap(), vec![0xab; 32]);
}

#[test]
fn a_false_status_maps_to_the_transaction_failed_error_never_success() {
    let receipt = Receipt { transaction_hash: vec![0xab; 32], status: false };
    assert!(matches!(outcome_of(&receipt), Err(Error::TransactionFailed)));
}

#[test]
fn the_receipt_line_links_the_chain_explorer() {
    let receipt = Receipt { transaction_hash: vec![0xab; 32], status: true };
    let line = receipt_line(56, &receipt);
    assert_eq!(
        line,
        format!("Transaction successful: https://bscscan.com/tx/0x{}", "ab".repeat(32))
    );
    let failed = Receipt { transaction_hash: vec![0xab; 32], status: false };
    let line = receipt_line(56, &failed);
    assert!(line.starts_with("Transaction failed: "));
}

#[test]
fn a_chain_without_a_listed_explorer_gets_a_bare_path() {
    let receipt = Receipt { transaction_hash: vec![0x01; 32], status: true };
    let line = receipt_line(31337, &receipt);
    assert_eq!(
        line,
        format!("Transaction successful: /tx/0x{}", "01".repeat(32))
    );
}

/// The whole pipeline against a mock chain: class unspecified defaults to
/// priority-fee, nonce 5, fee pair (100, 2), gas estimate 21000; the
/// envelope is tagged priority-fee, and a status-true receipt is the
/// success outcome with the receipt's hash.
#[test]
fn end_to_end_success_scenario() {
    let key = hex::decode("ac0974bec39a17e36ba4a6b4d238ff944bacb478cbed5efcae784d7bf4f2ff80")
        .unwrap();
    let client = EvmClient::new(key, 56).unwrap();
    let intent = Intent { to: addr(0xAA), input: vec![], value: Some(Uint256::from_u128(1)), class: None };

    let stage = begin_prepare(intent, client.address(), client.chain_id());
    let mock_nonce: u64 = 5;
    let stage = stage.with_nonce(mock_nonce);
    let stage = match stage.fee_query().unwrap() {
        FeeQuery::FeePair => stage.with_fee_pair(100, 2),
        FeeQuery::GasPrice => unreachable!(),
    };
    let mock_gas: u64 = 21000;
    let prepared = stage.with_gas_limit(mock_gas);

    assert_eq!(prepared.tx.nonce, Some(5));
    assert_eq!(prepared.tx.max_fee_per_gas, Some(100));
    assert_eq!(prepared.tx.max_priority_fee_per_gas, Some(2));
    assert_eq!(prepared.tx.gas_limit, Some(21000));

    let envelope = client.sign_tx_request(prepared.tx).unwrap();
    assert!(matches!(envelope, Envelope::Eip1559 { .. }));
    assert_eq!(envelope.class(), TxClass::Eip1559);
    assert!(!envelope.raw_bytes().is_empty());

    // the mock chain accepts the broadcast and reports success
    let mock_hash = vec![0x77; 32];
    let receipt = Receipt { transaction_hash: mock_hash.clone(), status: true };
    assert_eq!(outcome_of(&receipt).unwrap(), mock_hash);
}

/// The same pipeline, but the included transaction reverted: the outcome
/// is the transaction-failed error even though the broadcast succeeded.
#[test]
fn end_to_end_reverted_scenario() {
    let key = hex::decode("ac0974bec39a17e36ba4a6b4d238ff944bacb478cbed5efcae784d7bf4f2ff80")
        .unwrap();
    let client = EvmClient::new(key, 56).unwrap();
    let intent = Intent { to: addr(0xAA), input: vec![], value: Some(Uint256::from_u128(1)), class: None };

    let stage = begin_prepare(intent, client.address(), client.chain_id());
    let stage = stage.with_nonce(5);
    let stage = match stage.fee_query().unwrap() {
        FeeQuery::FeePair => stage.with_fee_pair(100, 2),
        FeeQuery::GasPrice => unreachable!(),
    };
    let prepared = stage.with_gas_limit(21000);
    let envelope = client.sign_tx_request(prepared.tx).unwrap();
    assert_eq!(envelope.class(), TxClass::Eip1559);

    let receipt = Receipt { transaction_hash: vec![0x77; 32], status: false };
    assert!(matches!(outcome_of(&receipt), Err(Error::TransactionFailed)));
}
