//! Raw chain data of one block, as plain values: byte arrays for hashes and
//! addresses, limbs for 256-bit numbers. This is what the transformer reads.

use vstd::prelude::*;
use crate::word::U256;

verus! {

/// The header fields of a block that the records use.
#[derive(Debug, Clone, PartialEq)]
pub struct RawHeader {
    pub hash: Option<[u8; 32]>,
    pub parent_hash: [u8; 32],
    pub uncles_hash: [u8; 32],
    pub miner: [u8; 20],
    pub state_root: [u8; 32],
    pub transactions_root: [u8; 32],
    pub receipts_root: [u8; 32],
    pub logs_bloom: [u8; 256],
    pub difficulty: U256,
    pub gas_limit: u128,
    pub gas_used: u128,
    pub timestamp: u64,
    pub total_difficulty: Option<U256>,
    pub extra_data: Vec<u8>,
    pub mix_hash: Option<[u8; 32]>,
    pub nonce: Option<[u8; 8]>,
    pub base_fee_per_gas: Option<u128>,
    pub withdrawals_root: Option<[u8; 32]>,
    pub parent_beacon_block_root: Option<[u8; 32]>,
}

/// A validator withdrawal.
#[derive(Debug, Clone, Copy, PartialEq)]
pub struct RawWithdrawal {
    pub index: u64,
    pub validator_index: u64,
    pub address: [u8; 20],
    pub amount: u64,
}

/// One entry of a transaction's access list.
#[derive(Debug, Clone, PartialEq)]
pub struct RawAccessListItem {
    pub address: [u8; 20],
    pub storage_keys: Vec<[u8; 32]>,
}

/// The signature of a transaction. `y_parity` is absent on legacy signatures.
#[derive(Debug, Clone, Copy, PartialEq)]
pub struct RawSignature {
    pub r: U256,
    pub s: U256,
    pub v: U256,
    pub y_parity: Option<bool>,
}

/// A transaction as the chain reports it.
#[derive(Debug, Clone, PartialEq)]
pub struct RawTransaction {
    pub hash: [u8; 32],
    pub transaction_index: Option<u64>,
    pub nonce: u64,
    pub from: [u8; 20],
    pub to: Option<[u8; 20]>,
    pub value: U256,
    pub gas_price: Option<u128>,
    pub gas: u128,
    pub max_fee_per_gas: Option<u128>,
    pub max_priority_fee_per_gas: Option<u128>,
    pub input: Vec<u8>,
    pub transaction_type: Option<u8>,
    pub chain_id: Option<u64>,
    pub access_list: Option<Vec<RawAccessListItem>>,
    pub signature: Option<RawSignature>,
}

/// The transactions of a block: in full, as hashes only, or none for an uncle.
#[derive(Debug, Clone, PartialEq)]
pub enum RawTransactions {
    Full(Vec<RawTransaction>),
    Hashes(Vec<[u8; 32]>),
    Uncle,
}

impl RawTransactions {
    /// How many transactions the block has.
    pub open spec fn count(&self) -> nat {
        match self {
            RawTransactions::Full(txs) => txs@.len(),
            RawTransactions::Hashes(hashes) => hashes@.len(),
            RawTransactions::Uncle => 0,
        }
    }

    /// How many transactions the block has.
    pub fn len(&self) -> (out: usize)
        ensures
            out == self.count(),
    {
        match self {
            RawTransactions::Full(txs) => txs.len(),
            RawTransactions::Hashes(hashes) => hashes.len(),
            RawTransactions::Uncle => 0,
        }
    }
}

/// A block as the chain reports it. `epoch` is the chain-specific epoch field,
/// a hex text, where the response has one.
#[derive(Debug, Clone, PartialEq)]
pub struct RawBlock {
    pub header: RawHeader,
    pub uncles: Vec<[u8; 32]>,
    pub transactions: RawTransactions,
    pub size: Option<U256>,
    pub withdrawals: Option<Vec<RawWithdrawal>>,
    pub epoch: Option<String>,
}

/// A log as the chain reports it.
#[derive(Debug, Clone, PartialEq)]
pub struct RawLog {
    pub address: [u8; 20],
    pub topics: Vec<[u8; 32]>,
    pub data: Vec<u8>,
    pub block_hash: Option<[u8; 32]>,
    pub block_number: Option<u64>,
    pub block_timestamp: Option<u64>,
    pub transaction_hash: Option<[u8; 32]>,
    pub transaction_index: Option<u64>,
    pub log_index: Option<u64>,
    pub removed: bool,
}

/// A transaction receipt as the chain reports it.
#[derive(Debug, Clone, PartialEq)]
pub struct RawReceipt {
    pub block_hash: Option<[u8; 32]>,
    pub transaction_hash: [u8; 32],
    pub transaction_index: Option<u64>,
    pub from: [u8; 20],
    pub to: Option<[u8; 20]>,
    pub contract_address: Option<[u8; 20]>,
    pub cumulative_gas_used: u128,
    pub gas_used: u128,
    pub effective_gas_price: u128,
    pub logs_bloom: [u8; 256],
    pub state_root: Option<[u8; 32]>,
    pub status: bool,
}

/// What the basic extraction of one block holds.
pub trait EvmExtraction {
    spec fn number(&self) -> u64;

    spec fn hash(&self) -> [u8; 32];

    spec fn timestamp(&self) -> i64;

    spec fn raw_block(&self) -> Option<RawBlock>;

    spec fn raw_logs(&self) -> Option<Vec<RawLog>>;

    spec fn raw_receipts(&self) -> Option<Vec<RawReceipt>>;

    fn block_number(&self) -> (out: u64)
        ensures
            out == self.number(),
    ;

    fn block_hash(&self) -> (out: [u8; 32])
        ensures
            out == self.hash(),
    ;

    fn block_timestamp(&self) -> (out: i64)
        ensures
            out == self.timestamp(),
    ;

    fn block(&self) -> (out: Option<&RawBlock>)
        ensures
            out == match self.raw_block() {
                Some(b) => Some(&b),
                None => None,
            },
    ;

    fn logs(&self) -> (out: Option<&Vec<RawLog>>)
        ensures
            out == match self.raw_logs() {
                Some(l) => Some(&l),
                None => None,
            },
    ;

    fn receipts(&self) -> (out: Option<&Vec<RawReceipt>>)
        ensures
            out == match self.raw_receipts() {
                Some(r) => Some(&r),
                None => None,
            },
    ;
}

/// All pieces of a block that can be indexed, but for the traces. Which of the
/// three optional parts are there follows from the request.
#[derive(Debug, Clone, PartialEq)]
pub struct EvmExtracted {
    pub block_number: u64,
    pub block_hash: [u8; 32],
    pub block_timestamp: i64,
    pub block: Option<RawBlock>,
    pub logs: Option<Vec<RawLog>>,
    pub receipts: Option<Vec<RawReceipt>>,
}

impl EvmExtraction for EvmExtracted {
    open spec fn number(&self) -> u64 {
        self.block_number
    }

    open spec fn hash(&self) -> [u8; 32] {
        self.block_hash
    }

    open spec fn timestamp(&self) -> i64 {
        self.block_timestamp
    }

    open spec fn raw_block(&self) -> Option<RawBlock> {
        self.block
    }

    open spec fn raw_logs(&self) -> Option<Vec<RawLog>> {
        self.logs
    }

    open spec fn raw_receipts(&self) -> Option<Vec<RawReceipt>> {
        self.receipts
    }

    fn block_number(&self) -> (out: u64) {
        self.block_number
    }

    fn block_hash(&self) -> (out: [u8; 32]) {
        self.block_hash
    }

    fn block_timestamp(&self) -> (out: i64) {
        self.block_timestamp
    }

    fn block(&self) -> (out: Option<&RawBlock>) {
        self.block.as_ref()
    }

    fn logs(&self) -> (out: Option<&Vec<RawLog>>) {
        self.logs.as_ref()
    }

    fn receipts(&self) -> (out: Option<&Vec<RawReceipt>>) {
        self.receipts.as_ref()
    }
}

} // verus!
