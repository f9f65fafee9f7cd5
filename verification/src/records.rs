//! The six kinds of output records, and the bundle of them for one block.

use vstd::prelude::*;

verus! {

/// A validator withdrawal within a block record.
#[derive(Debug, Clone, PartialEq)]
pub struct Withdrawal {
    pub index: i64,
    pub validator_index: i64,
    pub address: String,
    pub amount: String,
    pub amount_lossless: String,
}

/// A block record. The three counts of other tables are filled in by the
/// passes over those tables.
#[derive(Debug, Clone, PartialEq)]
pub struct Block {
    pub block_hash: String,
    pub block_number: i64,
    pub block_timestamp: i64,
    pub parent_hash: String,
    pub sha3_uncles: String,
    pub miner: String,
    pub state_root: String,
    pub transaction_root: String,
    pub receipts_root: String,
    pub logs_bloom: String,
    pub difficulty: String,
    pub gas_limit: String,
    pub gas_used: String,
    pub uncles: Vec<String>,
    pub total_difficulty: Option<String>,
    pub mix_hash: Option<String>,
    pub nonce: Option<String>,
    pub base_fee_per_gas: Option<String>,
    pub withdrawals_root: Option<String>,
    pub parent_beacon_block_root: Option<String>,
    pub transactions_count: i64,
    pub size: i64,
    pub withdrawals: Vec<Withdrawal>,
    pub extra_data: String,
    pub log_count: i64,
    pub trace_count: i64,
    pub decoded_event_count: i64,
    pub epoch: i64,
}

/// One entry of a transaction's access list.
#[derive(Debug, Clone, PartialEq)]
pub struct AddressStorageKeyPair {
    pub address: Option<String>,
    pub storage_keys: Vec<String>,
}

/// A transaction record.
#[derive(Debug, Clone, PartialEq)]
pub struct Transaction {
    pub block_hash: String,
    pub block_number: i64,
    pub block_timestamp: i64,
    pub transaction_hash: String,
    pub transaction_index: i64,
    pub nonce: i64,
    pub from_address: String,
    pub to_address: Option<String>,
    pub value: String,
    pub value_lossless: String,
    pub gas_price: Option<i64>,
    pub gas: i64,
    pub max_fee_per_gas: Option<i64>,
    pub max_priority_fee_per_gas: Option<i64>,
    pub input: String,
    pub transaction_type: u32,
    pub chain_id: Option<i64>,
    pub access_list: Vec<AddressStorageKeyPair>,
    pub r: Option<String>,
    pub s: Option<String>,
    pub v: Option<String>,
    pub y_parity: Option<String>,
    pub trace_count: i64,
}

/// A log record.
#[derive(Debug, Clone, PartialEq)]
pub struct Log {
    pub block_hash: String,
    pub block_number: i64,
    pub block_timestamp: i64,
    pub transaction_hash: String,
    pub transaction_index: i64,
    pub log_index: i64,
    pub address: Option<String>,
    pub data: Option<String>,
    pub topics: Vec<String>,
    pub removed: Option<bool>,
}

/// A decoded event record: a log that the catalog knew, with its arguments as
/// a JSON array in text form.
#[derive(Debug, Clone, PartialEq)]
pub struct DecodedEvent {
    pub block_hash: String,
    pub block_number: i64,
    pub block_timestamp: i64,
    pub transaction_hash: String,
    pub transaction_index: i64,
    pub log_index: i64,
    pub address: Option<String>,
    pub event_hash: Option<String>,
    pub event_signature: Option<String>,
    pub topics: Vec<String>,
    pub args: Option<String>,
    pub removed: Option<bool>,
}

/// A receipt record.
#[derive(Debug, Clone, PartialEq)]
pub struct Receipt {
    pub block_hash: String,
    pub block_number: i64,
    pub block_timestamp: i64,
    pub transaction_hash: String,
    pub transaction_index: i64,
    pub from_address: String,
    pub to_address: Option<String>,
    pub contract_address: Option<String>,
    pub cumulative_gas_used: i64,
    pub gas_used: i64,
    pub effective_gas_price: i64,
    pub logs_bloom: String,
    pub root: Option<String>,
    pub status: Option<u32>,
}

/// The action of a trace: the union of what the five kinds of trace carry.
#[derive(Debug, Clone, PartialEq)]
pub struct TraceAction {
    pub from_address: Option<String>,
    pub to_address: Option<String>,
    pub call_type: Option<String>,
    pub gas: Option<i64>,
    pub input: Option<String>,
    pub value: Option<String>,
    pub value_lossless: Option<String>,
    pub init: Option<String>,
    pub author: Option<String>,
    pub reward_type: Option<String>,
    pub refund_address: Option<String>,
    pub refund_balance: Option<String>,
    pub refund_balance_lossless: Option<String>,
    pub self_destructed_address: Option<String>,
}

/// The result of a trace: the union of what the kinds of trace report.
#[derive(Debug, Clone, PartialEq)]
pub struct TraceResult {
    pub gas_used: Option<i64>,
    pub output: Option<String>,
    pub address: Option<String>,
    pub code: Option<String>,
}

/// A trace record.
#[derive(Debug, Clone, PartialEq)]
pub struct Trace {
    pub block_hash: String,
    pub block_number: u64,
    pub block_timestamp: u64,
    pub transaction_hash: Option<String>,
    pub transaction_index: Option<i64>,
    pub trace_type: String,
    pub trace_address: Vec<i64>,
    pub subtrace_count: i64,
    pub action: TraceAction,
    pub result: Option<TraceResult>,
    pub error: Option<String>,
    pub trace_index: u64,
}

/// The records of one block: each kind is there exactly when it was asked for.
#[derive(Debug, Clone, PartialEq)]
pub struct PerBlockRecords {
    pub block_number: u64,
    pub block: Option<Block>,
    pub logs: Option<Vec<Log>>,
    pub receipts: Option<Vec<Receipt>>,
    pub transactions: Option<Vec<Transaction>>,
    pub events: Option<Vec<DecodedEvent>>,
    pub traces: Option<Vec<Trace>>,
}

impl Default for PerBlockRecords {
    fn default() -> (out: Self)
        ensures
            out == PerBlockRecords::empty(0),
    {
        PerBlockRecords::new(0)
    }
}

impl PerBlockRecords {
    /// The bundle of a block with no record kind in it.
    pub open spec fn empty(block_number: u64) -> PerBlockRecords {
        PerBlockRecords {
            block_number,
            block: None,
            logs: None,
            receipts: None,
            transactions: None,
            events: None,
            traces: None,
        }
    }

    /// The bundle of a block with no record kind in it.
    pub fn new(block_number: u64) -> (out: Self)
        ensures
            out == PerBlockRecords::empty(block_number),
    {
        PerBlockRecords {
            block_number,
            block: None,
            logs: None,
            receipts: None,
            transactions: None,
            events: None,
            traces: None,
        }
    }
}

/// Whether an optional string is absent, or present with the given text,
/// exactly as `expected` says.
pub open spec fn opt_text_is(actual: Option<String>, expected: Option<Seq<char>>) -> bool {
    match expected {
        Some(text) => actual is Some && actual->0@ == text,
        None => actual is None,
    }
}

/// The texts of a list of strings, in order.
pub open spec fn texts(strings: Seq<String>) -> Seq<Seq<char>> {
    Seq::new(strings.len(), |i: int| strings[i]@)
}

} // verus!
