use evm_client::prepare::{begin_prepare, FeeQuery, NeedFees, NeedGas, Prepared, StrictNonceManager};
use evm_client::primitives::{Address, Uint256};
use evm_client::error::Error;
use evm_client::tx::{Intent, TxClass};

fn addr(b: u8) -> Address {
    Address::from_bytes(vec![b; 20]).unwrap()
}

fn transfer_intent(class: Option<TxClass>) -> Intent {
    Intent { to: addr(0xAA), input: vec![], value: Some(Uint256::from_u128(1)), class }
}

/// A fake chain service that records the order of the calls made on it.
struct MockChain {
    calls: Vec<&'static str>,
    count: u64,
    gas_price: u128,
    max_fee: u128,
    max_priority: u128,
    gas: u64,
}

impl MockChain {
    fn transaction_count(&mut self) -> u64 {
        self.calls.push("transaction_count");
        self.count
    }

    fn current_gas_price(&mut self) -> u128 {
        self.calls.push("gas_price");
        self.gas_price
    }

    fn fee_pair(&mut self) -> (u128, u128) {
        self.calls.push("fee_pair");
        (self.max_fee, self.max_priority)
    }

    fn estimate_gas(&mut self) -> u64 {
        self.calls.push("gas_estimate");
        self.gas
    }
}

fn run_prepare(chain: &mut MockChain, intent: Intent) -> Result<Prepared, Error> {
    let stage = begin_prepare(intent, addr(0x11), 56);
    let stage: NeedFees = stage.with_nonce(chain.transaction_count());
    let stage: NeedGas = match stage.fee_query()? {
        FeeQuery::GasPrice => stage.with_gas_price(chain.current_gas_price()),
        FeeQuery::FeePair => {
            let (max_fee, max_priority) = chain.fee_pair();
            stage.with_fee_pair(max_fee, max_priority)
        }
    };
    let _shape = stage.estimate_payload();
    let gas = chain.estimate_gas();
    Ok(stage.with_gas_limit(gas))
}

fn mock() -> MockChain {
    MockChain { calls: vec![], count: 5, gas_price: 7, max_fee: 100, max_priority: 2, gas: 21000 }
}

#[test]
fn preparing_twice_takes_fresh_strictly_increasing_nonces() {
    let mut chain = mock();
    let first = run_prepare(&mut chain, transfer_intent(None)).unwrap();
    chain.count = 6;
    let second = run_prepare(&mut chain, transfer_intent(None)).unwrap();
    assert_eq!(first.tx.nonce, Some(5));
    assert_eq!(second.tx.nonce, Some(6));
    assert!(first.tx.nonce.unwrap() < second.tx.nonce.unwrap());
}

#[test]
fn strict_nonce_manager_passes_the_confirmed_count_through() {
    assert_eq!(StrictNonceManager.get_next_nonce(0), 0);
    assert_eq!(StrictNonceManager.get_next_nonce(41), 41);
}

#[test]
fn priority_fee_preparation_never_sets_the_legacy_field() {
    let mut chain = mock();
    let p = run_prepare(&mut chain, transfer_intent(Some(TxClass::Eip1559))).unwrap();
    assert_eq!(p.tx.gas_price, None);
    assert_eq!(p.tx.max_fee_per_gas, Some(100));
    assert_eq!(p.tx.max_priority_fee_per_gas, Some(2));
}

#[test]
fn legacy_preparation_never_sets_the_priority_fields() {
    let mut chain = mock();
    let p = run_prepare(&mut chain, transfer_intent(Some(TxClass::Legacy))).unwrap();
    assert_eq!(p.tx.gas_price, Some(7));
    assert_eq!(p.tx.max_fee_per_gas, None);
    assert_eq!(p.tx.max_priority_fee_per_gas, None);
}

#[test]
fn gas_estimation_comes_after_fee_setting_and_sees_the_fee_fields() {
    let mut chain = mock();
    let stage = begin_prepare(transfer_intent(None), addr(0x11), 56);
    let stage = stage.with_nonce(chain.transaction_count());
    let stage = match stage.fee_query().unwrap() {
        FeeQuery::FeePair => {
            let (max_fee, max_priority) = chain.fee_pair();
            stage.with_fee_pair(max_fee, max_priority)
        }
        FeeQuery::GasPrice => unreachable!(),
    };
    // the estimation payload already carries the final fee fields, and no
    // gas limit yet
    let shape = stage.estimate_payload();
    assert_eq!(shape.max_fee_per_gas, Some(100));
    assert_eq!(shape.max_priority_fee_per_gas, Some(2));
    assert_eq!(shape.gas_limit, None);
    let gas = chain.estimate_gas();
    let p = stage.with_gas_limit(gas);
    assert_eq!(p.tx.gas_limit, Some(21000));
    assert_eq!(chain.calls, vec!["transaction_count", "fee_pair", "gas_estimate"]);
}

#[test]
fn the_class_defaults_to_priority_fee() {
    let stage = begin_prepare(transfer_intent(None), addr(0x11), 56).with_nonce(5);
    assert_eq!(stage.fee_query().unwrap(), FeeQuery::FeePair);
}

#[test]
fn an_unsupported_class_fails_at_the_fee_stage_without_mutation() {
    let mut chain = mock();
    let err = match run_prepare(&mut chain, transfer_intent(Some(TxClass::Eip4844))) {
        Err(e) => e,
        Ok(_) => panic!("expected the unsupported-class error"),
    };
    assert_eq!(err, Error::UnexpectedTxType(TxClass::Eip4844));
    // the nonce was fetched, but no fee call was ever made
    assert_eq!(chain.calls, vec!["transaction_count"]);
}

#[test]
fn preparation_stamps_sender_nonce_and_chain_id() {
    let mut chain = mock();
    let p = run_prepare(&mut chain, transfer_intent(None)).unwrap();
    assert_eq!(p.tx.from.as_ref().unwrap().bytes, vec![0x11; 20]);
    assert_eq!(p.tx.nonce, Some(5));
    assert_eq!(p.tx.chain_id, Some(56));
    assert_eq!(p.tx.to.as_ref().unwrap().bytes, vec![0xAA; 20]);
}
