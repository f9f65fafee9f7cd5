use extractor_transformer::err::ExtractTransformErr;
use extractor_transformer::events::erc::ErcEventCatalog;
use extractor_transformer::events::null::NullEventCatalog;
use extractor_transformer::extracted::{
    EvmExtracted, EvmExtraction, RawAccessListItem, RawBlock, RawHeader, RawLog, RawReceipt,
    RawSignature, RawTransaction, RawTransactions, RawWithdrawal,
};
use extractor_transformer::records::{Block, Withdrawal};
use extractor_transformer::traces::{
    CallType, DebugExtraction, DebugTraces, RewardType, TraceType, TxTrace, TxTraceActionCall,
    TxTraceActionCreate, TxTraceActionReward, TxTraceActionSuicide, TxTraceCall, TxTraceCreate,
    TxTraceEmpty, TxTraceResult, TxTraceResultCreate, TxTraceResultEmpty, TxTraceReward,
    TxTraceSuicide,
};
use extractor_transformer::transformation::block::{
    extract_tarnsform_epoch, set_event_count, transform_block,
};
use extractor_transformer::transformation::logs::{
    transform_event, transform_log, transform_logs_and_events,
};
use extractor_transformer::transformation::receipts::{transform_receipt, transform_receipts};
use extractor_transformer::transformation::traces::{transform_trace, transform_traces};
use extractor_transformer::transformation::transactions::{
    opt_u128_integer, transform_transaction, transform_transactions,
};
use extractor_transformer::events::generic::EventCatalog;
use extractor_transformer::word::U256;

const CAP: &str = "99999999999999999999999999999999999999";
const TRANSFER_TOPIC: &str = "ddf252ad1be2c89b69c2b068fc378daa952ba7f163c4a11628f55a4df523b3ef";
const FROM: &str = "d8da6bf26964af9d7eed9e03e53415d37aa96045";
const FROM_CHECKSUM: &str = "0xd8dA6BF26964aF9D7eEd9e03E53415D37aA96045";
const TO: &str = "52908400098527886e0f7030069857d2e4169ee7";
const TO_CHECKSUM: &str = "0x52908400098527886E0F7030069857D2E4169EE7";

fn word(hex_digits: &str) -> [u8; 32] {
    let bytes = hex::decode(hex_digits).unwrap();
    let mut out = [0u8; 32];
    out[32 - bytes.len()..].copy_from_slice(&bytes);
    out
}

fn word_text(hex_digits: &str) -> String {
    format!("0x{}", hex::encode(word(hex_digits)))
}

fn address(hex_digits: &str) -> [u8; 20] {
    let bytes = hex::decode(hex_digits).unwrap();
    let mut out = [0u8; 20];
    out.copy_from_slice(&bytes);
    out
}

fn header() -> RawHeader {
    RawHeader {
        hash: Some(word("b10c")),
        parent_hash: word("01"),
        uncles_hash: word("02"),
        miner: address(FROM),
        state_root: word("03"),
        transactions_root: word("04"),
        receipts_root: word("05"),
        logs_bloom: [0u8; 256],
        difficulty: U256::from_u64(7),
        gas_limit: 30000000,
        gas_used: 21000,
        timestamp: 1700000000,
        total_difficulty: Some(U256 { limbs: [0, 0, 0, 256] }),
        extra_data: vec![0xca, 0xfe],
        mix_hash: Some(word("06")),
        nonce: Some([0, 0, 0, 0, 0, 0, 0, 9]),
        base_fee_per_gas: Some(1000000000),
        withdrawals_root: None,
        parent_beacon_block_root: None,
    }
}

fn transaction() -> RawTransaction {
    RawTransaction {
        hash: word("aa"),
        transaction_index: Some(0),
        nonce: 5,
        from: address(FROM),
        to: Some(address(TO)),
        value: U256 { limbs: [0, 0, 0, 256] },
        gas_price: Some(2000000000),
        gas: 21000,
        max_fee_per_gas: Some(3000000000),
        max_priority_fee_per_gas: None,
        input: vec![0x12, 0x34],
        transaction_type: Some(2),
        chain_id: Some(146),
        access_list: Some(vec![RawAccessListItem {
            address: address(TO),
            storage_keys: vec![word("01"), word("02")],
        }]),
        signature: Some(RawSignature {
            r: U256::from_u64(1),
            s: U256::from_u64(2),
            v: U256::from_u64(27),
            y_parity: None,
        }),
    }
}

fn block() -> RawBlock {
    RawBlock {
        header: header(),
        uncles: vec![word("0a"), word("0b")],
        transactions: RawTransactions::Full(vec![transaction()]),
        size: Some(U256::from_u64(1234)),
        withdrawals: Some(vec![RawWithdrawal {
            index: 1,
            validator_index: 2,
            address: address(TO),
            amount: 32000000000,
        }]),
        epoch: Some("0x1f".to_string()),
    }
}

fn transfer_log() -> RawLog {
    RawLog {
        address: address(TO),
        topics: vec![word(TRANSFER_TOPIC), word(FROM), word(TO)],
        data: word("0100").to_vec(),
        block_hash: None,
        block_number: Some(100),
        block_timestamp: Some(1700000005),
        transaction_hash: Some(word("aa")),
        transaction_index: Some(0),
        log_index: Some(4),
        removed: false,
    }
}

fn unknown_log() -> RawLog {
    RawLog { topics: vec![word("01")], data: vec![9], log_index: Some(5), ..transfer_log() }
}

fn receipt() -> RawReceipt {
    RawReceipt {
        block_hash: Some(word("b10c")),
        transaction_hash: word("aa"),
        transaction_index: Some(0),
        from: address(FROM),
        to: Some(address(TO)),
        contract_address: None,
        cumulative_gas_used: 21000,
        gas_used: 21000,
        effective_gas_price: 2000000000,
        logs_bloom: [0u8; 256],
        state_root: None,
        status: true,
    }
}

fn extracted() -> EvmExtracted {
    EvmExtracted {
        block_number: 100,
        block_hash: word("b10c"),
        block_timestamp: 1700000000,
        block: Some(block()),
        logs: Some(vec![transfer_log(), unknown_log()]),
        receipts: Some(vec![receipt()]),
    }
}

fn transformation_parts(err: ExtractTransformErr) -> (String, Option<String>) {
    match err {
        ExtractTransformErr::Transformation(e) => (e.err().clone(), e.field().clone()),
        other => panic!("no transformation error: {:?}", other),
    }
}

fn call_trace() -> TxTraceCall {
    TxTraceCall {
        action: TxTraceActionCall {
            from: address(FROM),
            call_type: "call".to_string(),
            gas: 50000,
            input: "0x1234".to_string(),
            to: address(TO),
            value: "0x100".to_string(),
        },
        block_hash: word("b10c"),
        block_number: 100,
        error: None,
        result: Some(TxTraceResult { gas_used: 21000, output: "0x".to_string() }),
        subtraces: 1,
        trace_address: vec![0, 2],
        transaction_hash: word("aa"),
        transaction_position: 0,
    }
}

fn reward_trace() -> TxTraceReward {
    TxTraceReward {
        action: TxTraceActionReward {
            author: address(FROM),
            reward_type: "block".to_string(),
            value: 2000000000000000000,
        },
        block_hash: word("b10c"),
        block_number: 100,
        error: None,
        result: None,
        subtraces: 0,
        trace_address: vec![],
        transaction_hash: None,
        transaction_position: None,
    }
}

fn create_trace() -> TxTraceCreate {
    TxTraceCreate {
        block_hash: word("b10c"),
        block_number: 100,
        action: TxTraceActionCreate {
            from: address(FROM),
            value: u128::MAX,
            gas: 70000,
            init: "0x6080".to_string(),
        },
        result: Some(TxTraceResultCreate {
            gas_used: 60000,
            address: address(TO),
            code: "0x60".to_string(),
        }),
        error: Some("Reverted".to_string()),
        subtraces: 0,
        transaction_position: 1,
        transaction_hash: word("bb"),
    }
}

fn suicide_trace() -> TxTraceSuicide {
    TxTraceSuicide {
        action: TxTraceActionSuicide {
            refund_address: Some(address(FROM)),
            balance: 5,
            self_destructed_address: address(TO),
        },
        block_hash: word("b10c"),
        block_number: 100,
        error: None,
        subtraces: 0,
        trace_address: vec![1],
        transaction_hash: word("aa"),
        transaction_position: 0,
    }
}

fn empty_trace() -> TxTraceEmpty {
    TxTraceEmpty {
        block_hash: word("b10c"),
        block_number: 100,
        action: TxTraceActionCreate { from: address(FROM), value: 0, gas: 1, init: "0x".to_string() },
        result: Some(TxTraceResultEmpty { gas_used: 3 }),
        error: None,
        subtraces: 0,
        transaction_position: 1,
        transaction_hash: word("bb"),
    }
}

fn debug() -> DebugTraces {
    DebugTraces {
        block_number: 100,
        block_hash: Some(word("b10c")),
        block_timestamp: 1700000000,
        traces: vec![
            TxTrace::Call(call_trace()),
            TxTrace::Reward(reward_trace()),
            TxTrace::Create(create_trace()),
            TxTrace::Suicide(suicide_trace()),
            TxTrace::Empty(empty_trace()),
        ],
    }
}

#[test]
fn extraction_accessors() {
    let ex = extracted();
    assert_eq!(ex.block_number(), 100);
    assert_eq!(ex.block_hash(), word("b10c"));
    assert_eq!(ex.block_timestamp(), 1700000000);
    assert_eq!(ex.block(), Some(&block()));
    assert_eq!(ex.logs().unwrap().len(), 2);
    assert_eq!(ex.receipts().unwrap().len(), 1);
    assert_eq!(block().transactions.len(), 1);
    assert_eq!(RawTransactions::Hashes(vec![word("01"), word("02")]).len(), 2);
    assert_eq!(RawTransactions::Uncle.len(), 0);
}

#[test]
fn block_record_fields() {
    let record = transform_block(&extracted()).unwrap();
    assert_eq!(record.block_hash, word_text("b10c"));
    assert_eq!(record.block_number, 100);
    assert_eq!(record.block_timestamp, 1700000000);
    assert_eq!(record.parent_hash, word_text("01"));
    assert_eq!(record.sha3_uncles, word_text("02"));
    assert_eq!(record.miner, format!("0x{}", FROM));
    assert_eq!(record.state_root, word_text("03"));
    assert_eq!(record.transaction_root, word_text("04"));
    assert_eq!(record.receipts_root, word_text("05"));
    assert_eq!(record.logs_bloom, format!("0x{}", "00".repeat(256)));
    assert_eq!(record.difficulty, "7");
    assert_eq!(record.gas_limit, "30000000");
    assert_eq!(record.gas_used, "21000");
    assert_eq!(record.uncles, vec![word_text("0a"), word_text("0b")]);
    assert_eq!(
        record.total_difficulty,
        Some("1606938044258990275541962092341162602522202993782792835301376".to_string())
    );
    assert_eq!(record.mix_hash, Some(word_text("06")));
    assert_eq!(record.nonce, Some("0x0000000000000009".to_string()));
    assert_eq!(record.base_fee_per_gas, Some("1000000000".to_string()));
    assert_eq!(record.withdrawals_root, None);
    assert_eq!(record.parent_beacon_block_root, None);
    assert_eq!(record.transactions_count, 1);
    assert_eq!(record.size, 1234);
    assert_eq!(
        record.withdrawals,
        vec![Withdrawal {
            index: 1,
            validator_index: 2,
            address: format!("0x{}", TO),
            amount: "32000000000".to_string(),
            amount_lossless: "32000000000".to_string(),
        }]
    );
    assert_eq!(record.extra_data, "0xcafe");
    assert_eq!(record.log_count, 2);
    assert_eq!(record.trace_count, 0);
    assert_eq!(record.decoded_event_count, 0);
    assert_eq!(record.epoch, 31);
}

#[test]
fn block_record_needs_the_block() {
    let ex = EvmExtracted { block: None, ..extracted() };
    let (err, field) = transformation_parts(transform_block(&ex).unwrap_err());
    assert_eq!(err, "Missing critical extractions for this transformation");
    assert_eq!(field, Some("block".to_string()));
}

#[test]
fn block_record_needs_the_size() {
    let ex = EvmExtracted { block: Some(RawBlock { size: None, ..block() }), ..extracted() };
    let (err, field) = transformation_parts(transform_block(&ex).unwrap_err());
    assert_eq!(err, "Missing size");
    assert_eq!(field, Some("size".to_string()));
    let huge = EvmExtracted {
        block: Some(RawBlock { size: Some(U256 { limbs: [0, 1, 0, 0] }), ..block() }),
        ..extracted()
    };
    let (err, field) = transformation_parts(transform_block(&huge).unwrap_err());
    assert_eq!(err, "Failed to convert into Integer (i64): AboveMax(18446744073709551616)");
    assert_eq!(field, Some("size".to_string()));
}

#[test]
fn block_record_needs_the_logs() {
    let ex = EvmExtracted { logs: None, ..extracted() };
    let (err, field) = transformation_parts(transform_block(&ex).unwrap_err());
    assert_eq!(err, "Missing logs from extracted");
    assert_eq!(field, Some("Logs".to_string()));
}

#[test]
fn block_record_needs_the_epoch() {
    let missing = EvmExtracted { block: Some(RawBlock { epoch: None, ..block() }), ..extracted() };
    let (err, field) = transformation_parts(transform_block(&missing).unwrap_err());
    assert_eq!(err, "Missing epoch in block response");
    assert_eq!(field, Some("epoch".to_string()));
    let bad = EvmExtracted {
        block: Some(RawBlock { epoch: Some("0xzz".to_string()), ..block() }),
        ..extracted()
    };
    let (err, field) = transformation_parts(transform_block(&bad).unwrap_err());
    assert_eq!(err, "Failed to parse epoch");
    assert_eq!(field, Some("epoch".to_string()));
}

#[test]
fn block_record_reports_a_bad_withdrawal() {
    let withdrawals = vec![
        RawWithdrawal { index: 1, validator_index: 2, address: address(TO), amount: 1 },
        RawWithdrawal { index: 3, validator_index: u64::MAX, address: address(TO), amount: 1 },
        RawWithdrawal { index: u64::MAX, validator_index: 4, address: address(TO), amount: 1 },
    ];
    let ex = EvmExtracted {
        block: Some(RawBlock { withdrawals: Some(withdrawals), ..block() }),
        ..extracted()
    };
    let (err, field) = transformation_parts(transform_block(&ex).unwrap_err());
    assert_eq!(err, "Failed to convert into Integer (i64): AboveMax(18446744073709551615)");
    assert_eq!(field, Some("validator_index".to_string()));
}

#[test]
fn withdrawal_record() {
    let ok = Withdrawal::try_from(&RawWithdrawal {
        index: 9,
        validator_index: 8,
        address: address(FROM),
        amount: u64::MAX,
    })
    .unwrap();
    assert_eq!(ok.index, 9);
    assert_eq!(ok.validator_index, 8);
    assert_eq!(ok.address, format!("0x{}", FROM));
    assert_eq!(ok.amount, "18446744073709551615");
    assert_eq!(ok.amount_lossless, "18446744073709551615");
    let err = Withdrawal::try_from(&RawWithdrawal {
        index: 1 << 63,
        validator_index: 8,
        address: address(FROM),
        amount: 0,
    })
    .unwrap_err();
    assert_eq!(err.field(), &Some("index".to_string()));
    assert_eq!(
        err.message(),
        "Error during transformation with field `index`: Failed to convert into Integer (i64): AboveMax(9223372036854775808)"
    );
}

#[test]
fn epoch_is_read_from_hex() {
    assert!(matches!(extract_tarnsform_epoch(&block()), Ok(Some(31))));
    assert!(matches!(extract_tarnsform_epoch(&RawBlock { epoch: None, ..block() }), Ok(None)));
    let plain = RawBlock { epoch: Some("ff".to_string()), ..block() };
    assert!(matches!(extract_tarnsform_epoch(&plain), Ok(Some(255))));
    let bad = RawBlock { epoch: Some("0x".to_string()), ..block() };
    assert!(extract_tarnsform_epoch(&bad).is_err());
}

#[test]
fn epoch_is_a_signed_hex_number() {
    let read = |text: &str| extract_tarnsform_epoch(&RawBlock { epoch: Some(text.to_string()), ..block() });
    assert!(matches!(read("0x0"), Ok(Some(0))));
    assert!(matches!(read("1F"), Ok(Some(31))));
    assert!(matches!(read("0x+1f"), Ok(Some(31))));
    assert!(matches!(read("-ff"), Ok(Some(-255))));
    assert!(matches!(read("0x7fffffffffffffff"), Ok(Some(i64::MAX))));
    assert!(matches!(read("-8000000000000000"), Ok(Some(i64::MIN))));
    assert!(read("8000000000000000").is_err());
    assert!(read("-8000000000000001").is_err());
    assert!(read("").is_err());
    assert!(read("-").is_err());
    assert!(read("+").is_err());
    assert!(read("0x0x1").is_err());
    assert!(read("1_f").is_err());
    assert!(read(" 1f").is_err());
    assert!(read("1g").is_err());
}

#[test]
fn set_event_count_changes_only_the_count() {
    let before = transform_block(&extracted()).unwrap();
    let after = set_event_count(before.clone(), 12);
    assert_eq!(after, Block { decoded_event_count: 12, ..before });
}

#[test]
fn transaction_record_fields() {
    let records = transform_transactions(&extracted()).unwrap();
    assert_eq!(records.len(), 1);
    let record = &records[0];
    assert_eq!(record.block_hash, word_text("b10c"));
    assert_eq!(record.block_number, 100);
    assert_eq!(record.block_timestamp, 1700000000);
    assert_eq!(record.transaction_hash, word_text("aa"));
    assert_eq!(record.transaction_index, 0);
    assert_eq!(record.nonce, 5);
    assert_eq!(record.from_address, FROM_CHECKSUM);
    assert_eq!(record.to_address, Some(TO_CHECKSUM.to_string()));
    assert_eq!(record.value, CAP);
    assert_eq!(record.value_lossless, "1606938044258990275541962092341162602522202993782792835301376");
    assert_eq!(record.gas_price, Some(2000000000));
    assert_eq!(record.gas, 21000);
    assert_eq!(record.max_fee_per_gas, Some(3000000000));
    assert_eq!(record.max_priority_fee_per_gas, None);
    assert_eq!(record.input, "0x1234");
    assert_eq!(record.transaction_type, 2);
    assert_eq!(record.chain_id, Some(146));
    assert_eq!(record.access_list.len(), 1);
    assert_eq!(record.access_list[0].address, Some(TO_CHECKSUM.to_string()));
    assert_eq!(record.access_list[0].storage_keys, vec![word_text("01"), word_text("02")]);
    assert_eq!(record.r, Some(word_text("01")));
    assert_eq!(record.s, Some(word_text("02")));
    assert_eq!(record.v, Some(word_text("1b")));
    assert_eq!(record.y_parity, Some("0x1".to_string()));
    assert_eq!(record.trace_count, 0);
}

#[test]
fn transaction_value_in_range_is_not_capped() {
    let tx = RawTransaction { value: U256::from_u64(1000000000000000000), ..transaction() };
    let record = transform_transaction(&extracted(), &tx, 0).unwrap();
    assert_eq!(record.value, "1000000000000000000");
    assert_eq!(record.value_lossless, "1000000000000000000");
}

#[test]
fn transaction_parity() {
    let sig = |v: u64, y_parity: Option<bool>| {
        Some(RawSignature { r: U256::from_u64(1), s: U256::from_u64(2), v: U256::from_u64(v), y_parity })
    };
    let parity = |signature| {
        let tx = RawTransaction { signature, ..transaction() };
        transform_transaction(&extracted(), &tx, 0).unwrap().y_parity
    };
    assert_eq!(parity(sig(28, None)), Some("0x0".to_string()));
    assert_eq!(parity(sig(27, None)), Some("0x1".to_string()));
    assert_eq!(parity(sig(28, Some(true))), Some("0x1".to_string()));
    assert_eq!(parity(sig(27, Some(false))), Some("0x0".to_string()));
    assert_eq!(parity(None), None);
    let unsigned = RawTransaction { signature: None, ..transaction() };
    let record = transform_transaction(&extracted(), &unsigned, 0).unwrap();
    assert_eq!((record.r, record.s, record.v), (None, None, None));
}

#[test]
fn transaction_index_falls_back_to_the_position() {
    let tx = RawTransaction { transaction_index: None, access_list: None, ..transaction() };
    let record = transform_transaction(&extracted(), &tx, 6).unwrap();
    assert_eq!(record.transaction_index, 6);
    assert!(record.access_list.is_empty());
    let with_index = RawTransaction { transaction_index: Some(2), ..transaction() };
    assert_eq!(transform_transaction(&extracted(), &with_index, 6).unwrap().transaction_index, 2);
}

#[test]
fn transaction_errors_name_the_field() {
    let failing = |tx: RawTransaction| {
        let err = transform_transaction(&extracted(), &tx, 0).unwrap_err();
        (err.err().clone(), err.field().clone().unwrap())
    };
    let above = "Failed to convert into Integer (i64): AboveMax(18446744073709551615)".to_string();
    assert_eq!(
        failing(RawTransaction { nonce: u64::MAX, ..transaction() }),
        (above.clone(), "nonce".to_string())
    );
    assert_eq!(
        failing(RawTransaction { gas_price: Some(u64::MAX as u128), ..transaction() }),
        (above.clone(), "gas_price".to_string())
    );
    assert_eq!(
        failing(RawTransaction { gas: u64::MAX as u128, ..transaction() }),
        (above.clone(), "gas".to_string())
    );
    assert_eq!(
        failing(RawTransaction { gas: u128::MAX, max_fee_per_gas: Some(u128::MAX), ..transaction() }),
        (
            "Failed to convert into Integer (i64): AboveMax(340282366920938463463374607431768211455)"
                .to_string(),
            "gas".to_string()
        )
    );
    assert_eq!(
        failing(RawTransaction { max_fee_per_gas: Some(u64::MAX as u128), ..transaction() }),
        (above.clone(), "max_fee_per_gas".to_string())
    );
    assert_eq!(
        failing(RawTransaction { max_priority_fee_per_gas: Some(u64::MAX as u128), ..transaction() }),
        (above.clone(), "max_priority_fee_per_gas".to_string())
    );
    assert_eq!(
        failing(RawTransaction { transaction_type: None, ..transaction() }),
        ("Missing tx.transaction_type".to_string(), "transaction_type".to_string())
    );
    assert_eq!(
        failing(RawTransaction { chain_id: Some(u64::MAX), ..transaction() }),
        (above, "chain_id".to_string())
    );
    assert!(matches!(opt_u128_integer(None, "x"), Ok(None)));
    assert!(matches!(opt_u128_integer(Some(4), "x"), Ok(Some(4))));
}

#[test]
fn transactions_need_the_block_in_full() {
    let no_block = EvmExtracted { block: None, ..extracted() };
    let (err, field) = transformation_parts(transform_transactions(&no_block).unwrap_err());
    assert_eq!(err, "Missing critical extractions for this transformation");
    assert_eq!(field, Some("block".to_string()));
    let hashes = EvmExtracted {
        block: Some(RawBlock { transactions: RawTransactions::Hashes(vec![word("aa")]), ..block() }),
        ..extracted()
    };
    let (err, field) = transformation_parts(transform_transactions(&hashes).unwrap_err());
    assert_eq!(err, "Expected extracted.block.transactions.is_full() to be returned as true");
    assert_eq!(field, Some("block.transactions".to_string()));
}

#[test]
fn transactions_stop_at_the_first_failure() {
    let txs = vec![
        transaction(),
        RawTransaction { transaction_type: None, ..transaction() },
        RawTransaction { nonce: u64::MAX, ..transaction() },
    ];
    let ex = EvmExtracted {
        block: Some(RawBlock { transactions: RawTransactions::Full(txs), ..block() }),
        ..extracted()
    };
    let (_, field) = transformation_parts(transform_transactions(&ex).unwrap_err());
    assert_eq!(field, Some("transaction_type".to_string()));
}

#[test]
fn log_record_fields() {
    let record = transform_log(&extracted(), &transfer_log()).unwrap();
    assert_eq!(record.block_hash, word_text("b10c"));
    assert_eq!(record.block_number, 100);
    assert_eq!(record.block_timestamp, 1700000000);
    assert_eq!(record.transaction_hash, word_text("aa"));
    assert_eq!(record.transaction_index, 0);
    assert_eq!(record.log_index, 4);
    assert_eq!(record.address, Some(format!("0x{}", TO)));
    assert_eq!(record.data, Some(word_text("0100")));
    assert_eq!(record.topics, vec![word_text(TRANSFER_TOPIC), word_text(FROM), word_text(TO)]);
    assert_eq!(record.removed, Some(false));
    let own_hash = RawLog { block_hash: Some(word("cc")), transaction_hash: None, ..transfer_log() };
    let record = transform_log(&extracted(), &own_hash).unwrap();
    assert_eq!(record.block_hash, word_text("cc"));
    assert_eq!(record.transaction_hash, word_text("b10c"));
}

#[test]
fn log_record_needs_its_indexes() {
    let failing = |log: RawLog| {
        let err = transform_log(&extracted(), &log).unwrap_err();
        (err.err().clone(), err.field().clone().unwrap())
    };
    assert_eq!(
        failing(RawLog { transaction_index: None, ..transfer_log() }),
        ("Missing transaction_index".to_string(), "transaction_index".to_string())
    );
    assert_eq!(
        failing(RawLog { log_index: None, ..transfer_log() }),
        ("Missing log_index".to_string(), "log_index".to_string())
    );
    assert_eq!(
        failing(RawLog { log_index: Some(u64::MAX), ..transfer_log() }),
        (
            "Failed to convert into Integer (i64): AboveMax(18446744073709551615)".to_string(),
            "log_index".to_string()
        )
    );
}

#[test]
fn event_record_fields() {
    let catalog = ErcEventCatalog::default();
    let decoded = catalog.attempt_decode_log(&transfer_log()).unwrap();
    let record = transform_event(&extracted(), &transfer_log(), &decoded).unwrap();
    assert_eq!(record.block_hash, word_text("b10c"));
    assert_eq!(record.block_number, 100);
    assert_eq!(record.block_timestamp, 1700000005);
    assert_eq!(record.transaction_hash, word_text("aa"));
    assert_eq!(record.transaction_index, 0);
    assert_eq!(record.log_index, 4);
    assert_eq!(record.address, Some(TO_CHECKSUM.to_string()));
    assert_eq!(record.event_hash, Some(word_text(TRANSFER_TOPIC)));
    assert_eq!(record.event_signature, Some("Transfer(address,address,uint256)".to_string()));
    assert_eq!(record.topics, vec![word_text(TRANSFER_TOPIC), word_text(FROM), word_text(TO)]);
    assert_eq!(
        record.args,
        Some(format!("[\"{}\",\"{}\",\"256\"]", FROM_CHECKSUM, TO_CHECKSUM))
    );
    assert_eq!(record.removed, Some(false));
    let no_time = RawLog { block_timestamp: None, ..transfer_log() };
    assert_eq!(transform_event(&extracted(), &no_time, &decoded).unwrap().block_timestamp, 1700000000);
}

#[test]
fn event_record_needs_the_transaction() {
    let catalog = ErcEventCatalog::default();
    let decoded = catalog.attempt_decode_log(&transfer_log()).unwrap();
    let failing = |log: RawLog| {
        let err = transform_event(&extracted(), &log, &decoded).unwrap_err();
        (err.err().clone(), err.field().clone().unwrap())
    };
    let missing = "Missing critical extractions for this transformation".to_string();
    assert_eq!(
        failing(RawLog { transaction_hash: None, ..transfer_log() }),
        (missing.clone(), "transaction_hash".to_string())
    );
    assert_eq!(
        failing(RawLog { transaction_index: None, ..transfer_log() }),
        (missing.clone(), "transaction_index".to_string())
    );
    assert_eq!(
        failing(RawLog { log_index: None, ..transfer_log() }),
        (missing, "log_index".to_string())
    );
}

#[test]
fn logs_and_events_in_one_pass() {
    let (logs, events, count) =
        transform_logs_and_events(&extracted(), true, true, Some(ErcEventCatalog::default())).unwrap();
    assert_eq!(logs.unwrap().len(), 2);
    let events = events.unwrap();
    assert_eq!(events.len(), 1);
    assert_eq!(events[0].log_index, 4);
    assert_eq!(count, 1);
}

#[test]
fn logs_and_events_are_selected_independently() {
    let (logs, events, count) =
        transform_logs_and_events(&extracted(), false, false, Some(ErcEventCatalog::default())).unwrap();
    assert!(logs.is_none());
    assert!(events.is_none());
    assert_eq!(count, 1);
    let (logs, events, count) =
        transform_logs_and_events(&extracted(), true, false, None::<NullEventCatalog>).unwrap();
    assert_eq!(logs.unwrap().len(), 2);
    assert!(events.is_none());
    assert_eq!(count, 0);
    let (logs, events, count) =
        transform_logs_and_events(&extracted(), false, true, Some(NullEventCatalog())).unwrap();
    assert!(logs.is_none());
    assert_eq!(events.unwrap().len(), 0);
    assert_eq!(count, 0);
}

#[test]
fn logs_pass_needs_the_logs() {
    let ex = EvmExtracted { logs: None, ..extracted() };
    let err = transform_logs_and_events(&ex, true, false, None::<NullEventCatalog>).unwrap_err();
    let (err, field) = transformation_parts(err);
    assert_eq!(err, "Missing logs from extraction");
    assert_eq!(field, Some("logs".to_string()));
}

#[test]
fn logs_pass_aborts_on_a_log_that_does_not_fit_its_event() {
    let bad = RawLog { data: vec![1, 2, 3], ..transfer_log() };
    let ex = EvmExtracted { logs: Some(vec![unknown_log(), bad]), ..extracted() };
    let err =
        transform_logs_and_events(&ex, true, true, Some(ErcEventCatalog::default())).unwrap_err();
    let (err, field) = transformation_parts(err);
    assert!(!err.is_empty());
    assert_eq!(field, None);
    let (logs, _, count) =
        transform_logs_and_events(&ex, true, false, None::<NullEventCatalog>).unwrap();
    assert_eq!(logs.unwrap().len(), 2);
    assert_eq!(count, 0);
}

#[test]
fn logs_pass_reports_the_log_record_first() {
    let bad = RawLog { transaction_index: None, ..transfer_log() };
    let ex = EvmExtracted { logs: Some(vec![bad]), ..extracted() };
    let err =
        transform_logs_and_events(&ex, true, true, Some(ErcEventCatalog::default())).unwrap_err();
    let (err, _) = transformation_parts(err);
    assert_eq!(err, "Missing transaction_index");
    let err =
        transform_logs_and_events(&ex, false, true, Some(ErcEventCatalog::default())).unwrap_err();
    let (err, _) = transformation_parts(err);
    assert_eq!(err, "Missing critical extractions for this transformation");
}

#[test]
fn receipt_record_fields() {
    let records = transform_receipts(&extracted()).unwrap();
    assert_eq!(records.len(), 1);
    let record = &records[0];
    assert_eq!(record.block_hash, word_text("b10c"));
    assert_eq!(record.block_number, 100);
    assert_eq!(record.block_timestamp, 1700000000);
    assert_eq!(record.transaction_hash, word_text("aa"));
    assert_eq!(record.transaction_index, 0);
    assert_eq!(record.from_address, FROM_CHECKSUM);
    assert_eq!(record.to_address, Some(TO_CHECKSUM.to_string()));
    assert_eq!(record.contract_address, None);
    assert_eq!(record.cumulative_gas_used, 21000);
    assert_eq!(record.gas_used, 21000);
    assert_eq!(record.effective_gas_price, 2000000000);
    assert_eq!(record.logs_bloom, format!("0x{}", "00".repeat(256)));
    assert_eq!(record.root, None);
    assert_eq!(record.status, Some(1));
    let failed = RawReceipt {
        status: false,
        state_root: Some(word("0c")),
        contract_address: Some(address(FROM)),
        ..receipt()
    };
    let record = transform_receipt(&extracted(), &failed).unwrap();
    assert_eq!(record.status, Some(0));
    assert_eq!(record.root, Some(word_text("0c")));
    assert_eq!(record.contract_address, Some(FROM_CHECKSUM.to_string()));
}

#[test]
fn receipt_errors_name_the_field() {
    let failing = |r: RawReceipt| {
        let err = transform_receipt(&extracted(), &r).unwrap_err();
        (err.err().clone(), err.field().clone().unwrap())
    };
    let above = "Failed to convert into Integer (i64): AboveMax(9223372036854775808)".to_string();
    assert_eq!(
        failing(RawReceipt { block_hash: None, ..receipt() }),
        ("Missing critical extractions for this transformation".to_string(), "block_hash".to_string())
    );
    assert_eq!(
        failing(RawReceipt { transaction_index: None, ..receipt() }),
        ("No transaction index in receipt".to_string(), "transaction_index".to_string())
    );
    assert_eq!(
        failing(RawReceipt { transaction_index: Some(1 << 63), ..receipt() }),
        (above.clone(), "transaction_index".to_string())
    );
    assert_eq!(
        failing(RawReceipt { cumulative_gas_used: 1 << 63, ..receipt() }),
        (above.clone(), "cumulative_gas_used".to_string())
    );
    assert_eq!(
        failing(RawReceipt { gas_used: 1 << 63, ..receipt() }),
        (above.clone(), "gas_used".to_string())
    );
    assert_eq!(
        failing(RawReceipt { effective_gas_price: 1 << 63, ..receipt() }),
        (above, "effective_gas_price".to_string())
    );
}

#[test]
fn receipts_need_the_receipts() {
    let ex = EvmExtracted { receipts: None, ..extracted() };
    let (err, field) = transformation_parts(transform_receipts(&ex).unwrap_err());
    assert_eq!(err, "Missing receipts from extraction");
    assert_eq!(field, None);
}

#[test]
fn trace_kinds_and_names() {
    assert_eq!(CallType::Call.as_str(), "call");
    assert_eq!(CallType::DelegateCall.as_str(), "delegatecall");
    assert_eq!(CallType::StaticCall.as_str(), "staticcall");
    assert_eq!(CallType::CallCode.as_str(), "callcode");
    assert_eq!(TraceType::Call.as_str(), "call");
    assert_eq!(TraceType::Create.as_str(), "create");
    assert_eq!(TraceType::Reward.as_str(), "reward");
    assert_eq!(TraceType::Suicide.as_str(), "suicide");
    assert_eq!(TraceType::Empty.as_str(), "empty");
    assert_eq!(RewardType::Block.as_str(), "block");
    assert_eq!(RewardType::Uncle.as_str(), "uncle");
    let traces = debug().traces;
    assert!(traces[0].is_call() && !traces[0].is_reward());
    assert!(traces[1].is_reward() && !traces[1].is_call());
    assert!(traces[2].is_create() && !traces[2].is_suicide());
    assert!(traces[3].is_suicide() && !traces[3].is_create());
    assert_eq!(traces[4].trace_type(), TraceType::Empty);
    assert_eq!(traces[0].clone().unwrap_call(), call_trace());
    assert_eq!(traces[1].clone().unwrap_reward(), reward_trace());
}

#[test]
fn trace_transaction_info() {
    let traces = debug().traces;
    assert_eq!(traces[0].get_tx_info(), (Some(word("aa")), Some(0)));
    assert_eq!(traces[1].get_tx_info(), (None, None));
    assert_eq!(traces[2].get_tx_info(), (Some(word("bb")), Some(1)));
    assert_eq!(traces[3].get_tx_info(), (Some(word("aa")), Some(0)));
    assert_eq!(traces[4].get_tx_info(), (Some(word("bb")), Some(1)));
}

#[test]
fn debug_extraction_accessors() {
    let d = debug();
    assert_eq!(d.block_number(), 100);
    assert_eq!(d.block_hash(), Some(word("b10c")));
    assert_eq!(d.block_timestamp(), 1700000000);
    assert_eq!(d.traces().len(), 5);
    assert_eq!(d.iter(0), Some(&TxTrace::Call(call_trace())));
    assert_eq!(d.iter(5), None);
    assert_eq!(d.unwrap().len(), 5);
}

#[test]
fn call_trace_record() {
    let record = transform_trace(&debug(), &TxTrace::Call(call_trace()), 0).unwrap();
    assert_eq!(record.block_hash, word_text("b10c"));
    assert_eq!(record.block_number, 100);
    assert_eq!(record.block_timestamp, 1700000000);
    assert_eq!(record.transaction_hash, Some(word_text("aa")));
    assert_eq!(record.transaction_index, Some(0));
    assert_eq!(record.trace_type, "call");
    assert_eq!(record.trace_address, vec![0, 2]);
    assert_eq!(record.subtrace_count, 1);
    assert_eq!(record.action.from_address, Some(FROM_CHECKSUM.to_string()));
    assert_eq!(record.action.to_address, Some(TO_CHECKSUM.to_string()));
    assert_eq!(record.action.call_type, Some("call".to_string()));
    assert_eq!(record.action.gas, Some(50000));
    assert_eq!(record.action.input, Some("0x1234".to_string()));
    assert_eq!(record.action.value, Some("256".to_string()));
    assert_eq!(record.action.value_lossless, Some("256".to_string()));
    assert_eq!(record.action.init, None);
    assert_eq!(record.action.author, None);
    assert_eq!(record.action.reward_type, None);
    assert_eq!(record.action.refund_address, None);
    assert_eq!(record.action.refund_balance, None);
    assert_eq!(record.action.refund_balance_lossless, None);
    assert_eq!(record.action.self_destructed_address, None);
    let result = record.result.unwrap();
    assert_eq!(result.gas_used, Some(21000));
    assert_eq!(result.output, Some("0x".to_string()));
    assert_eq!(result.address, None);
    assert_eq!(result.code, None);
    assert_eq!(record.error, None);
    assert_eq!(record.trace_index, 0);
}

#[test]
fn call_trace_value_is_capped() {
    let mut call = call_trace();
    call.action.value = "0x100000000000000000000000000000000000000000000000000".to_string();
    let record = transform_trace(&debug(), &TxTrace::Call(call), 3).unwrap();
    assert_eq!(record.action.value, Some(CAP.to_string()));
    assert_eq!(
        record.action.value_lossless,
        Some("1606938044258990275541962092341162602522202993782792835301376".to_string())
    );
    assert_eq!(record.trace_index, 3);
    let mut plain = call_trace();
    plain.action.value = "ff".to_string();
    plain.result = None;
    let record = transform_trace(&debug(), &TxTrace::Call(plain), 0).unwrap();
    assert_eq!(record.action.value, Some("255".to_string()));
    assert!(record.result.is_none());
}

#[test]
fn call_trace_errors() {
    let mut bad_value = call_trace();
    bad_value.action.value = "0xnope".to_string();
    let err = transform_trace(&debug(), &TxTrace::Call(bad_value), 0).unwrap_err();
    assert_eq!(err.err(), "Failed to parse number");
    assert_eq!(err.field(), &Some("value".to_string()));
    let mut bad_gas = call_trace();
    bad_gas.result = Some(TxTraceResult { gas_used: 1 << 63, output: "0x".to_string() });
    let err = transform_trace(&debug(), &TxTrace::Call(bad_gas), 0).unwrap_err();
    assert_eq!(err.err(), "Failed to convert into Integer (i64): AboveMax(9223372036854775808)");
    assert_eq!(err.field(), &Some("gas_used".to_string()));
}

#[test]
fn trace_gas_must_fit_the_integer_column() {
    let failing = |trace: TxTrace| {
        let err = transform_trace(&debug(), &trace, 0).unwrap_err();
        (err.err().clone(), err.field().clone().unwrap())
    };
    let max = "Failed to convert into Integer (i64): AboveMax(340282366920938463463374607431768211455)"
        .to_string();
    let mut call = call_trace();
    call.action.gas = u128::MAX;
    call.action.value = "0xnope".to_string();
    assert_eq!(failing(TxTrace::Call(call)), (max.clone(), "gas".to_string()));
    let mut reward = reward_trace();
    reward.result = Some(TxTraceResult { gas_used: u128::MAX, output: "0x".to_string() });
    assert_eq!(failing(TxTrace::Reward(reward)), (max.clone(), "gas_used".to_string()));
    let mut create = create_trace();
    create.action.gas = u128::MAX;
    assert_eq!(failing(TxTrace::Create(create)), (max.clone(), "gas".to_string()));
    let mut create = create_trace();
    create.result.as_mut().unwrap().gas_used = u128::MAX;
    assert_eq!(failing(TxTrace::Create(create)), (max.clone(), "gas_used".to_string()));
    let mut empty = empty_trace();
    empty.action.gas = 1 << 63;
    empty.result = Some(TxTraceResultEmpty { gas_used: u128::MAX });
    assert_eq!(
        failing(TxTrace::Empty(empty)),
        (
            "Failed to convert into Integer (i64): AboveMax(9223372036854775808)".to_string(),
            "gas".to_string()
        )
    );
    let mut empty = empty_trace();
    empty.result = Some(TxTraceResultEmpty { gas_used: u128::MAX });
    assert_eq!(failing(TxTrace::Empty(empty)), (max, "gas_used".to_string()));
    let mut largest = create_trace();
    largest.action.gas = i64::MAX as u128;
    largest.result.as_mut().unwrap().gas_used = i64::MAX as u128;
    let record = transform_trace(&debug(), &TxTrace::Create(largest), 0).unwrap();
    assert_eq!(record.action.gas, Some(i64::MAX));
    assert_eq!(record.result.unwrap().gas_used, Some(i64::MAX));
}

#[test]
fn reward_trace_record() {
    let record = transform_trace(&debug(), &TxTrace::Reward(reward_trace()), 1).unwrap();
    assert_eq!(record.transaction_hash, None);
    assert_eq!(record.transaction_index, None);
    assert_eq!(record.trace_type, "reward");
    assert_eq!(record.trace_address, Vec::<i64>::new());
    assert_eq!(record.action.author, Some(FROM_CHECKSUM.to_string()));
    assert_eq!(record.action.reward_type, Some("block".to_string()));
    assert_eq!(record.action.value, Some("2000000000000000000".to_string()));
    assert_eq!(record.action.value_lossless, Some("2000000000000000000".to_string()));
    assert_eq!(record.action.from_address, None);
    assert!(record.result.is_none());
    assert_eq!(record.trace_index, 1);
    let mut with_result = reward_trace();
    with_result.result = Some(TxTraceResult { gas_used: 4, output: "0x01".to_string() });
    with_result.transaction_hash = Some(word("aa"));
    with_result.transaction_position = Some(0);
    let record = transform_trace(&debug(), &TxTrace::Reward(with_result), 1).unwrap();
    let result = record.result.unwrap();
    assert_eq!(result.gas_used, Some(4));
    assert_eq!(result.output, Some("0x01".to_string()));
    assert_eq!(record.transaction_hash, None);
    assert_eq!(record.transaction_index, None);
}

#[test]
fn create_trace_record() {
    let record = transform_trace(&debug(), &TxTrace::Create(create_trace()), 2).unwrap();
    assert_eq!(record.transaction_hash, Some(word_text("bb")));
    assert_eq!(record.transaction_index, Some(1));
    assert_eq!(record.trace_type, "create");
    assert_eq!(record.trace_address, Vec::<i64>::new());
    assert_eq!(record.action.from_address, Some(FROM_CHECKSUM.to_string()));
    assert_eq!(record.action.gas, Some(70000));
    assert_eq!(record.action.value, Some(CAP.to_string()));
    assert_eq!(
        record.action.value_lossless,
        Some("340282366920938463463374607431768211455".to_string())
    );
    assert_eq!(record.action.init, Some("0x6080".to_string()));
    assert_eq!(record.action.to_address, None);
    let result = record.result.unwrap();
    assert_eq!(result.gas_used, Some(60000));
    assert_eq!(result.output, None);
    assert_eq!(result.address, Some(TO_CHECKSUM.to_string()));
    assert_eq!(result.code, Some("0x60".to_string()));
    assert_eq!(record.error, Some("Reverted".to_string()));
    assert_eq!(record.trace_index, 2);
}

#[test]
fn suicide_trace_record() {
    let record = transform_trace(&debug(), &TxTrace::Suicide(suicide_trace()), 3).unwrap();
    assert_eq!(record.trace_type, "suicide");
    assert_eq!(record.trace_address, vec![1]);
    assert_eq!(record.action.refund_address, Some(FROM_CHECKSUM.to_string()));
    assert_eq!(record.action.refund_balance, Some("5".to_string()));
    assert_eq!(record.action.refund_balance_lossless, Some("5".to_string()));
    assert_eq!(record.action.self_destructed_address, Some(TO_CHECKSUM.to_string()));
    assert_eq!(record.action.value, None);
    assert!(record.result.is_none());
    let mut no_refund = suicide_trace();
    no_refund.action.refund_address = None;
    let record = transform_trace(&debug(), &TxTrace::Suicide(no_refund), 3).unwrap();
    assert_eq!(record.action.refund_address, None);
}

#[test]
fn empty_trace_record() {
    let record = transform_trace(&debug(), &TxTrace::Empty(empty_trace()), 4).unwrap();
    assert_eq!(record.trace_type, "empty");
    assert_eq!(record.action.from_address, Some(FROM_CHECKSUM.to_string()));
    assert_eq!(record.action.gas, Some(1));
    assert_eq!(record.action.value, Some("0".to_string()));
    assert_eq!(record.action.init, Some("0x".to_string()));
    let result = record.result.unwrap();
    assert_eq!(result.gas_used, Some(3));
    assert_eq!((result.output, result.address, result.code), (None, None, None));
}

#[test]
fn traces_with_counts() {
    let (records, count, per_tx) = transform_traces(&debug(), true, true, true).unwrap();
    let records = records.unwrap();
    assert_eq!(records.len(), 5);
    for (i, record) in records.iter().enumerate() {
        assert_eq!(record.trace_index, i as u64);
    }
    assert_eq!(count, Some(5));
    let per_tx = per_tx.unwrap();
    assert_eq!(per_tx.get(Some(0)), 2);
    assert_eq!(per_tx.get(Some(1)), 2);
    assert_eq!(per_tx.get(None), 1);
    assert_eq!(per_tx.get(Some(2)), 0);
    assert_eq!(per_tx.unattached, 1);
    assert_eq!(per_tx.by_position.len(), 2);
}

#[test]
fn trace_outputs_are_selected_independently() {
    let (records, count, per_tx) = transform_traces(&debug(), false, false, false).unwrap();
    assert!(records.is_none() && count.is_none() && per_tx.is_none());
    let (records, count, per_tx) = transform_traces(&debug(), false, true, false).unwrap();
    assert!(records.is_none() && per_tx.is_none());
    assert_eq!(count, Some(5));
    let (records, count, per_tx) = transform_traces(&debug(), true, false, false).unwrap();
    assert_eq!(records.unwrap().len(), 5);
    assert!(count.is_none() && per_tx.is_none());
}

#[test]
fn traces_fail_only_where_records_are_made() {
    let mut bad = call_trace();
    bad.action.value = "zz".to_string();
    let d = DebugTraces { traces: vec![TxTrace::Reward(reward_trace()), TxTrace::Call(bad)], ..debug() };
    let (err, field) = transformation_parts(transform_traces(&d, true, true, true).unwrap_err());
    assert_eq!(err, "Failed to parse number");
    assert_eq!(field, Some("value".to_string()));
    let (records, count, per_tx) = transform_traces(&d, false, true, true).unwrap();
    assert!(records.is_none());
    assert_eq!(count, Some(2));
    assert_eq!(per_tx.unwrap().get(Some(0)), 1);
}
