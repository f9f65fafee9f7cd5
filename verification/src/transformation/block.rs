//! The block record.

use vstd::prelude::*;
use vstd::string::*;
use crate::err::{
    failure, first_failure, lemma_first_failure, lemma_no_failure, lemma_some_failure,
    ExtractTransformErr, TransformationErr, TransformationErrView,
};
use crate::extracted::{EvmExtraction, RawBlock, RawWithdrawal};
use crate::integer::{TryIntoInteger, TryIntoIntegerError};
use crate::records::{texts, Block, Withdrawal};
use crate::text::{
    bytes_text, decimal, fixed_bytes_text, hex_i64, hex_prefixed, i64_from_hex, opt_fixed_bytes_text,
    trim_0x, u128_text, without_0x,
};
use crate::word::{cap_bignumeric, capped_text, U256};

verus! {

/// Formats fixed-size bytes as `0x` and their lower-case hex.
pub fn format_fixed_bytes<const N: usize>(fixedbytes: &[u8; N]) -> (out: String)
    ensures
        out@ == hex_prefixed(fixedbytes@),
{
    fixed_bytes_text(fixedbytes)
}

/// Why a withdrawal has no record: an index that does not fit the Integer
/// column. None where it has one.
pub open spec fn withdrawal_failure(w: RawWithdrawal) -> Option<TransformationErrView> {
    if w.index > i64::MAX {
        Some(failure(TryIntoIntegerError::AboveMax(w.index).message_text(), Some("index"@)))
    } else if w.validator_index > i64::MAX {
        Some(
            failure(
                TryIntoIntegerError::AboveMax(w.validator_index).message_text(),
                Some("validator_index"@),
            ),
        )
    } else {
        None
    }
}

/// Whether `rec` is the record of the withdrawal `w`.
pub open spec fn is_withdrawal_record(w: RawWithdrawal, rec: Withdrawal) -> bool {
    &&& rec.index == w.index
    &&& rec.validator_index == w.validator_index
    &&& rec.address@ == hex_prefixed(w.address@)
    &&& rec.amount@ == capped_text(w.amount as nat)
    &&& rec.amount_lossless@ == decimal(w.amount as nat)
}

impl Withdrawal {
    /// The record of a withdrawal.
    pub fn try_from(value: &RawWithdrawal) -> (out: Result<Withdrawal, TransformationErr>)
        ensures
            match withdrawal_failure(*value) {
                Some(e) => out is Err && out->Err_0@ == e,
                None => out is Ok && is_withdrawal_record(*value, out->Ok_0),
            },
    {
        let index = match value.index.try_into_integer() {
            Ok(num) => num,
            Err(err) => {
                return Err(TransformationErr::tagged(err.message(), "index"));
            },
        };
        let validator_index = match value.validator_index.try_into_integer() {
            Ok(num) => num,
            Err(err) => {
                return Err(TransformationErr::tagged(err.message(), "validator_index"));
            },
        };
        Ok(
            Withdrawal {
                index,
                validator_index,
                address: fixed_bytes_text(&value.address),
                amount: cap_bignumeric(&U256::from_u64(value.amount)),
                amount_lossless: u128_text(value.amount as u128),
            },
        )
    }
}

/// The epoch that a hex text stands for, with or without `0x` in front.
pub open spec fn epoch_of(text: Seq<char>) -> Option<i64> {
    hex_i64(without_0x(text))
}

/// Reads the chain-specific epoch of a block: nothing where the block has
/// none, an error where the text is no hex number.
pub fn extract_tarnsform_epoch(extracted_block: &RawBlock) -> (out: Result<
    Option<i64>,
    std::num::ParseIntError,
>)
    ensures
        match extracted_block.epoch {
            None => out == Ok::<Option<i64>, std::num::ParseIntError>(None),
            Some(text) => match epoch_of(text@) {
                Some(epoch) => out == Ok::<Option<i64>, std::num::ParseIntError>(Some(epoch)),
                None => out is Err,
            },
        },
{
    match &extracted_block.epoch {
        Some(string) => {
            let trimmed = trim_0x(string.as_str());
            match i64_from_hex(trimmed) {
                Ok(epoch_num) => Ok(Some(epoch_num)),
                Err(err) => Err(err),
            }
        },
        None => Ok(None),
    }
}

/// The failures of the withdrawals of a block, one entry per withdrawal.
pub open spec fn withdrawal_failures(block: RawBlock) -> Seq<Option<TransformationErrView>> {
    match block.withdrawals {
        Some(ws) => Seq::new(ws@.len(), |i: int| withdrawal_failure(ws@[i])),
        None => Seq::empty(),
    }
}

/// Why the extraction has no block record; none where it has one. The checks
/// stand in the order in which they are made.
pub open spec fn block_failure<T: EvmExtraction>(extracted: &T) -> Option<TransformationErrView> {
    match extracted.raw_block() {
        None => Some(
            failure("Missing critical extractions for this transformation"@, Some("block"@)),
        ),
        Some(block) => if block.transactions.count() > i64::MAX {
            Some(
                failure(
                    TryIntoIntegerError::AboveMax(block.transactions.count() as usize).message_text(),
                    Some("transactions_count"@),
                ),
            )
        } else if block.size is None {
            Some(failure("Missing size"@, Some("size"@)))
        } else if block.size->0.value() > i64::MAX {
            Some(
                failure(
                    TryIntoIntegerError::AboveMax(block.size->0).message_text(),
                    Some("size"@),
                ),
            )
        } else if first_failure(withdrawal_failures(block)) is Some {
            first_failure(withdrawal_failures(block))
        } else if extracted.raw_logs() is None {
            Some(failure("Missing logs from extracted"@, Some("Logs"@)))
        } else if block.epoch is None {
            Some(failure("Missing epoch in block response"@, Some("epoch"@)))
        } else if epoch_of(block.epoch->0@) is None {
            Some(failure("Failed to parse epoch"@, Some("epoch"@)))
        } else {
            None
        },
    }
}

/// Whether an optional text is the `0x` hex of optional bytes.
pub open spec fn opt_hex_is<const N: usize>(actual: Option<String>, bytes: Option<[u8; N]>)
    -> bool {
    &&& actual is Some <==> bytes is Some
    &&& actual is Some ==> actual->0@ == hex_prefixed(bytes->0@)
}

/// Whether `rec` is the block record of the extraction as the block pass
/// leaves it: every field of `block_fields_match`, and the two counts that
/// later passes fill in still at zero.
pub open spec fn is_block_record<T: EvmExtraction>(extracted: &T, rec: Block) -> bool {
    &&& block_fields_match(extracted, rec)
    &&& rec.trace_count == 0
    &&& rec.decoded_event_count == 0
}

/// Whether `rec` holds what the block pass derives from the extraction: every
/// header field in its text form, and the counts of transactions and logs.
pub open spec fn block_fields_match<T: EvmExtraction>(extracted: &T, rec: Block) -> bool {
    let block = extracted.raw_block()->0;
    let header = block.header;
    &&& rec.block_hash@ == hex_prefixed(extracted.hash()@)
    &&& rec.block_number == extracted.number() as i64
    &&& rec.block_timestamp == extracted.timestamp()
    &&& rec.parent_hash@ == hex_prefixed(header.parent_hash@)
    &&& rec.sha3_uncles@ == hex_prefixed(header.uncles_hash@)
    &&& rec.miner@ == hex_prefixed(header.miner@)
    &&& rec.state_root@ == hex_prefixed(header.state_root@)
    &&& rec.transaction_root@ == hex_prefixed(header.transactions_root@)
    &&& rec.receipts_root@ == hex_prefixed(header.receipts_root@)
    &&& rec.logs_bloom@ == hex_prefixed(header.logs_bloom@)
    &&& rec.difficulty@ == decimal(header.difficulty.value())
    &&& rec.gas_limit@ == decimal(header.gas_limit as nat)
    &&& rec.gas_used@ == decimal(header.gas_used as nat)
    &&& texts(rec.uncles@) == Seq::new(block.uncles@.len(), |i: int| hex_prefixed(block.uncles@[i]@))
    &&& rec.total_difficulty is Some <==> header.total_difficulty is Some
    &&& rec.total_difficulty is Some ==> rec.total_difficulty->0@ == decimal(
        header.total_difficulty->0.value(),
    )
    &&& opt_hex_is(rec.mix_hash, header.mix_hash)
    &&& opt_hex_is(rec.nonce, header.nonce)
    &&& rec.base_fee_per_gas is Some <==> header.base_fee_per_gas is Some
    &&& rec.base_fee_per_gas is Some ==> rec.base_fee_per_gas->0@ == decimal(
        header.base_fee_per_gas->0 as nat,
    )
    &&& opt_hex_is(rec.withdrawals_root, header.withdrawals_root)
    &&& opt_hex_is(rec.parent_beacon_block_root, header.parent_beacon_block_root)
    &&& rec.transactions_count == block.transactions.count()
    &&& rec.size == block.size->0.value()
    &&& rec.withdrawals@.len() == withdrawal_failures(block).len()
    &&& forall|i: int|
        0 <= i < rec.withdrawals@.len() ==> is_withdrawal_record(
            block.withdrawals->0@[i],
            #[trigger] rec.withdrawals@[i],
        )
    &&& rec.extra_data@ == hex_prefixed(header.extra_data@)
    &&& rec.log_count == extracted.raw_logs()->0@.len() as i64
    &&& Some(rec.epoch) == epoch_of(block.epoch->0@)
}

/// Whether the block pass has all it needs: the block with its size and its
/// epoch as a hex number, the logs, and no number beyond the Integer column
/// (the size, the number of transactions, the indexes of the withdrawals).
pub open spec fn block_passes<T: EvmExtraction>(extracted: &T) -> bool {
    let block = extracted.raw_block()->0;
    &&& extracted.raw_block() is Some
    &&& block.transactions.count() <= i64::MAX
    &&& block.size is Some
    &&& block.size->0.value() <= i64::MAX
    &&& forall|i: int|
        0 <= i < withdrawal_failures(block).len() ==> (#[trigger] withdrawal_failures(
            block,
        )[i]) is None
    &&& extracted.raw_logs() is Some
    &&& block.epoch is Some
    &&& epoch_of(block.epoch->0@) is Some
}

/// The block pass succeeds exactly where it has all it needs.
pub proof fn lemma_block_pass_succeeds<T: EvmExtraction>(extracted: &T)
    ensures
        block_failure(extracted) is None <==> block_passes(extracted),
{
    if extracted.raw_block() is Some {
        let failures = withdrawal_failures(extracted.raw_block()->0);
        if forall|i: int| 0 <= i < failures.len() ==> (#[trigger] failures[i]) is None {
            lemma_no_failure(failures);
        } else {
            let i = choose|i: int| 0 <= i < failures.len() && !((#[trigger] failures[i]) is None);
            lemma_some_failure(failures, i);
        }
    }
}

/// The record that the block pass makes counts the transactions and the logs
/// as many as were extracted, and leaves the counts of traces and of decoded
/// events at zero for the later passes. The number of logs is taken to fit a
/// signed 64-bit number.
pub proof fn lemma_block_record_counts<T: EvmExtraction>(extracted: &T, rec: Block)
    requires
        block_failure(extracted) is None,
        is_block_record(extracted, rec),
        extracted.raw_logs()->0@.len() <= i64::MAX,
    ensures
        rec.transactions_count == extracted.raw_block()->0.transactions.count(),
        rec.log_count == extracted.raw_logs()->0@.len(),
        rec.trace_count == 0,
        rec.decoded_event_count == 0,
{
}

/// The records of the withdrawals of a block, or the first failure.
fn transform_withdrawals(block: &RawBlock) -> (out: Result<Vec<Withdrawal>, TransformationErr>)
    ensures
        match first_failure(withdrawal_failures(*block)) {
            Some(e) => out is Err && out->Err_0@ == e,
            None => out is Ok && out->Ok_0@.len() == withdrawal_failures(*block).len()
                && forall|i: int|
                0 <= i < out->Ok_0@.len() ==> is_withdrawal_record(
                    block.withdrawals->0@[i],
                    #[trigger] out->Ok_0@[i],
                ),
        },
{
    let mut records: Vec<Withdrawal> = Vec::new();
    match &block.withdrawals {
        Some(withdrawals) => {
            let ghost failures = withdrawal_failures(*block);
            let mut i: usize = 0;
            while i < withdrawals.len()
                invariant
                    i <= withdrawals.len(),
                    block.withdrawals == Some(*withdrawals),
                    failures == withdrawal_failures(*block),
                    failures.len() == withdrawals@.len(),
                    records@.len() == i,
                    forall|j: int| 0 <= j < i ==> failures[j] is None,
                    forall|j: int|
                        0 <= j < i ==> is_withdrawal_record(withdrawals@[j], #[trigger] records@[j]),
                decreases withdrawals.len() - i,
            {
                match Withdrawal::try_from(&withdrawals[i]) {
                    Ok(record) => {
                        records.push(record);
                    },
                    Err(err) => {
                        proof {
                            lemma_first_failure(failures, i as int);
                        }
                        return Err(err);
                    },
                }
                i += 1;
            }
            proof {
                lemma_no_failure(failures);
            }
        },
        None => {},
    }
    Ok(records)
}

/// The block record of an extraction. The block and the logs must have been
/// extracted; the block must report its size and its epoch.
pub fn transform_block<T: EvmExtraction>(extracted: &T) -> (out: Result<
    Block,
    ExtractTransformErr,
>)
    ensures
        match block_failure(extracted) {
            Some(e) => out is Err && out->Err_0.transformation() == Some(e),
            None => out is Ok && is_block_record(extracted, out->Ok_0),
        },
{
    let extracted_block = match extracted.block() {
        Some(block) => block,
        None => {
            return Err(
                ExtractTransformErr::Transformation(
                    TransformationErr::missing(
                        "Missing critical extractions for this transformation",
                        "block",
                    ),
                ),
            );
        },
    };
    let header = &extracted_block.header;
    let transactions_count = match extracted_block.transactions.len().try_into_integer() {
        Ok(item) => item,
        Err(err) => {
            return Err(
                ExtractTransformErr::Transformation(
                    TransformationErr::tagged(err.message(), "transactions_count"),
                ),
            );
        },
    };
    let size = match &extracted_block.size {
        Some(size) => match size.try_into_integer() {
            Ok(size_integer) => size_integer,
            Err(err) => {
                return Err(
                    ExtractTransformErr::Transformation(
                        TransformationErr::tagged(err.message(), "size"),
                    ),
                );
            },
        },
        None => {
            return Err(
                ExtractTransformErr::Transformation(
                    TransformationErr::missing("Missing size", "size"),
                ),
            );
        },
    };
    let withdrawals = match transform_withdrawals(extracted_block) {
        Ok(records) => records,
        Err(err) => {
            return Err(ExtractTransformErr::Transformation(err));
        },
    };
    let log_count = match extracted.logs() {
        Some(logs) => logs.len() as i64,
        None => {
            return Err(
                ExtractTransformErr::Transformation(
                    TransformationErr::missing("Missing logs from extracted", "Logs"),
                ),
            );
        },
    };
    let epoch = match extract_tarnsform_epoch(extracted_block) {
        Ok(Some(epoch)) => epoch,
        Ok(None) => {
            return Err(
                ExtractTransformErr::Transformation(
                    TransformationErr::missing("Missing epoch in block response", "epoch"),
                ),
            );
        },
        Err(_) => {
            return Err(
                ExtractTransformErr::Transformation(
                    TransformationErr::missing("Failed to parse epoch", "epoch"),
                ),
            );
        },
    };
    let mut uncles: Vec<String> = Vec::new();
    let mut i: usize = 0;
    while i < extracted_block.uncles.len()
        invariant
            i <= extracted_block.uncles.len(),
            uncles@.len() == i,
            forall|j: int|
                0 <= j < i ==> (#[trigger] uncles@[j])@ == hex_prefixed(
                    extracted_block.uncles@[j]@,
                ),
        decreases extracted_block.uncles.len() - i,
    {
        uncles.push(fixed_bytes_text(&extracted_block.uncles[i]));
        i += 1;
    }
    assert(texts(uncles@) =~= Seq::new(
        extracted_block.uncles@.len(),
        |i: int| hex_prefixed(extracted_block.uncles@[i]@),
    ));
    let record = Block {
        block_hash: fixed_bytes_text(&extracted.block_hash()),
        block_number: extracted.block_number() as i64,
        block_timestamp: extracted.block_timestamp(),
        parent_hash: fixed_bytes_text(&header.parent_hash),
        sha3_uncles: fixed_bytes_text(&header.uncles_hash),
        miner: fixed_bytes_text(&header.miner),
        state_root: fixed_bytes_text(&header.state_root),
        transaction_root: fixed_bytes_text(&header.transactions_root),
        receipts_root: fixed_bytes_text(&header.receipts_root),
        logs_bloom: fixed_bytes_text(&header.logs_bloom),
        difficulty: header.difficulty.to_decimal(),
        gas_limit: u128_text(header.gas_limit),
        gas_used: u128_text(header.gas_used),
        uncles,
        total_difficulty: match &header.total_difficulty {
            Some(diff) => Some(diff.to_decimal()),
            None => None,
        },
        mix_hash: opt_fixed_bytes_text(&header.mix_hash),
        nonce: opt_fixed_bytes_text(&header.nonce),
        base_fee_per_gas: match header.base_fee_per_gas {
            Some(fee) => Some(u128_text(fee)),
            None => None,
        },
        withdrawals_root: opt_fixed_bytes_text(&header.withdrawals_root),
        parent_beacon_block_root: opt_fixed_bytes_text(&header.parent_beacon_block_root),
        transactions_count,
        size,
        withdrawals,
        extra_data: bytes_text(&header.extra_data),
        log_count,
        trace_count: 0,
        decoded_event_count: 0,
        epoch,
    };
    Ok(record)
}

/// The block with its count of decoded events set.
pub fn set_event_count(block: Block, event_count: usize) -> (out: Block)
    ensures
        out == (Block { decoded_event_count: event_count as i64, ..block }),
{
    Block { decoded_event_count: event_count as i64, ..block }
}

} // verus!
