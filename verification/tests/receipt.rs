use alloy_consensus::ReceiptWithBloom;
use alloy_primitives::{Bloom, B256};
use alloy_rpc_types_eth::{Log, TransactionReceipt};
use conduit_op_node::receipt::{deposit_nonce_of, l1_fee_of, OpReceiptFields, OpReceiptKind};
use op_alloy_consensus::{OpDepositReceipt, OpReceipt};
use op_alloy_rpc_types::{L1BlockInfo, OpTransactionReceipt};

fn make_receipt(op_receipt: OpReceipt<Log>, l1_fee: Option<u128>) -> OpTransactionReceipt {
    let receipt_with_bloom = ReceiptWithBloom { receipt: op_receipt, logs_bloom: Bloom::default() };
    let inner = TransactionReceipt {
        inner: receipt_with_bloom,
        transaction_hash: B256::ZERO,
        transaction_index: Some(0),
        block_hash: Some(B256::ZERO),
        block_number: Some(0),
        gas_used: 0,
        effective_gas_price: 0,
        blob_gas_used: None,
        blob_gas_price: None,
        from: Default::default(),
        to: None,
        contract_address: None,
    };
    OpTransactionReceipt { inner, l1_block_info: L1BlockInfo { l1_fee, ..Default::default() } }
}

fn plain_receipt() -> alloy_consensus::Receipt<Log> {
    alloy_consensus::Receipt::<Log> {
        status: alloy_consensus::Eip658Value::Eip658(true),
        cumulative_gas_used: 0,
        logs: vec![],
    }
}

#[test]
fn deposit_nonce_present_for_deposit() {
    let deposit = OpDepositReceipt::<Log> {
        inner: alloy_consensus::Receipt {
            status: alloy_consensus::Eip658Value::Eip658(true),
            cumulative_gas_used: 0,
            logs: vec![],
        },
        deposit_nonce: Some(42),
        deposit_receipt_version: Some(1),
    };
    let receipt = make_receipt(OpReceipt::Deposit(deposit), None);
    assert_eq!(deposit_nonce_of(&receipt), Some(42));
}

#[test]
fn deposit_nonce_none_for_non_deposit() {
    let legacy = alloy_consensus::Receipt::<Log> {
        status: alloy_consensus::Eip658Value::Eip658(true),
        cumulative_gas_used: 0,
        logs: vec![],
    };
    let receipt = make_receipt(OpReceipt::Legacy(legacy), None);
    assert_eq!(deposit_nonce_of(&receipt), None);
}

#[test]
fn l1_fee_round_trips_from_block_info() {
    let legacy = alloy_consensus::Receipt::<Log> {
        status: alloy_consensus::Eip658Value::Eip658(true),
        cumulative_gas_used: 0,
        logs: vec![],
    };
    let receipt = make_receipt(OpReceipt::Legacy(legacy), Some(123_456));
    assert_eq!(l1_fee_of(&receipt), Some(123_456));
}

#[test]
fn deposit_nonce_none_for_every_typed_non_deposit_receipt() {
    for op_receipt in [
        OpReceipt::Eip2930(plain_receipt()),
        OpReceipt::Eip1559(plain_receipt()),
        OpReceipt::Eip7702(plain_receipt()),
    ] {
        let receipt = make_receipt(op_receipt, Some(7));
        assert_eq!(deposit_nonce_of(&receipt), None);
        assert_eq!(l1_fee_of(&receipt), Some(7));
    }
}

#[test]
fn deposit_without_nonce_has_none() {
    let deposit = OpDepositReceipt::<Log> {
        inner: plain_receipt(),
        deposit_nonce: None,
        deposit_receipt_version: None,
    };
    let receipt = make_receipt(OpReceipt::Deposit(deposit), None);
    assert_eq!(deposit_nonce_of(&receipt), None);
    assert_eq!(l1_fee_of(&receipt), None);
}

#[test]
fn deposit_receipt_l1_fee_is_read_too() {
    let deposit = OpDepositReceipt::<Log> {
        inner: plain_receipt(),
        deposit_nonce: Some(u64::MAX),
        deposit_receipt_version: Some(1),
    };
    let receipt = make_receipt(OpReceipt::Deposit(deposit), Some(u128::MAX));
    assert_eq!(deposit_nonce_of(&receipt), Some(u64::MAX));
    assert_eq!(l1_fee_of(&receipt), Some(u128::MAX));
}

#[test]
fn fields_model_deposit_nonce_and_l1_fee() {
    let deposit = OpReceiptFields {
        kind: OpReceiptKind::Deposit { deposit_nonce: Some(9), deposit_receipt_version: None },
        l1_fee: Some(3),
    };
    assert_eq!(deposit.deposit_nonce(), Some(9));
    assert_eq!(deposit.l1_fee(), Some(3));
    for kind in [
        OpReceiptKind::Legacy,
        OpReceiptKind::Eip2930,
        OpReceiptKind::Eip1559,
        OpReceiptKind::Eip7702,
    ] {
        let fields = OpReceiptFields { kind, l1_fee: None };
        assert_eq!(fields.deposit_nonce(), None);
        assert_eq!(fields.l1_fee(), None);
    }
}
