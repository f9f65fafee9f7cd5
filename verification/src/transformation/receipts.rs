//! The receipt records of a block.

use vstd::prelude::*;
use vstd::string::*;
use crate::err::{
    failure, first_failure, lemma_first_failure, lemma_no_failure, ExtractTransformErr,
    TransformationErr, TransformationErrView,
};
use crate::extracted::{EvmExtraction, RawReceipt};
use crate::integer::{TryIntoInteger, TryIntoIntegerError};
use crate::records::Receipt;
use crate::text::{
    address_checksum, address_text, fixed_bytes_text, hex_prefixed, opt_address_text,
    opt_fixed_bytes_text,
};
use crate::transformation::block::opt_hex_is;

verus! {

/// Why a 128-bit number does not fit the Integer column, tagged with the name
/// of its field; none where it fits.
pub open spec fn u128_failure(value: u128, field: Seq<char>) -> Option<TransformationErrView> {
    if value > i64::MAX {
        Some(failure(TryIntoIntegerError::AboveMax(value).message_text(), Some(field)))
    } else {
        None
    }
}

/// A 128-bit number as an Integer.
pub fn u128_integer(value: u128, field: &str) -> (out: Result<i64, TransformationErr>)
    ensures
        match u128_failure(value, field@) {
            Some(e) => out is Err && out->Err_0@ == e,
            None => out is Ok && out->Ok_0 == value,
        },
{
    match value.try_into_integer() {
        Ok(n) => Ok(n),
        Err(err) => Err(TransformationErr::tagged(err.message(), field)),
    }
}

/// Why a receipt has no record: a missing block hash or index, or a number
/// that does not fit the Integer column. None where it has one. The checks
/// stand in the order in which they are made.
pub open spec fn receipt_failure(receipt: RawReceipt) -> Option<TransformationErrView> {
    if receipt.block_hash is None {
        Some(
            failure(
                "Missing critical extractions for this transformation"@,
                Some("block_hash"@),
            ),
        )
    } else if receipt.transaction_index is None {
        Some(failure("No transaction index in receipt"@, Some("transaction_index"@)))
    } else if receipt.transaction_index->0 > i64::MAX {
        Some(
            failure(
                TryIntoIntegerError::AboveMax(receipt.transaction_index->0).message_text(),
                Some("transaction_index"@),
            ),
        )
    } else if u128_failure(receipt.cumulative_gas_used, "cumulative_gas_used"@) is Some {
        u128_failure(receipt.cumulative_gas_used, "cumulative_gas_used"@)
    } else if u128_failure(receipt.gas_used, "gas_used"@) is Some {
        u128_failure(receipt.gas_used, "gas_used"@)
    } else {
        u128_failure(receipt.effective_gas_price, "effective_gas_price"@)
    }
}

/// Whether `rec` is the record of the receipt in the block of the extraction.
pub open spec fn is_receipt_record<T: EvmExtraction>(
    extracted: &T,
    receipt: RawReceipt,
    rec: Receipt,
) -> bool {
    &&& rec.block_hash@ == hex_prefixed(receipt.block_hash->0@)
    &&& rec.block_number == extracted.number() as i64
    &&& rec.block_timestamp == extracted.timestamp()
    &&& rec.transaction_hash@ == hex_prefixed(receipt.transaction_hash@)
    &&& rec.transaction_index == receipt.transaction_index->0
    &&& rec.from_address@ == address_checksum(receipt.from@)
    &&& rec.to_address is Some <==> receipt.to is Some
    &&& rec.to_address is Some ==> rec.to_address->0@ == address_checksum(receipt.to->0@)
    &&& rec.contract_address is Some <==> receipt.contract_address is Some
    &&& rec.contract_address is Some ==> rec.contract_address->0@ == address_checksum(
        receipt.contract_address->0@,
    )
    &&& rec.cumulative_gas_used == receipt.cumulative_gas_used
    &&& rec.gas_used == receipt.gas_used
    &&& rec.effective_gas_price == receipt.effective_gas_price
    &&& rec.logs_bloom@ == hex_prefixed(receipt.logs_bloom@)
    &&& opt_hex_is(rec.root, receipt.state_root)
    &&& rec.status == Some(
        if receipt.status {
            1u32
        } else {
            0u32
        },
    )
}

/// The failures of the receipts of a block, one entry per receipt.
pub open spec fn receipt_failures(receipts: Seq<RawReceipt>) -> Seq<Option<TransformationErrView>> {
    Seq::new(receipts.len(), |i: int| receipt_failure(receipts[i]))
}

/// Why the extraction has no receipt records; none where it has them.
pub open spec fn receipts_failure<T: EvmExtraction>(extracted: &T) -> Option<
    TransformationErrView,
> {
    match extracted.raw_receipts() {
        None => Some(failure("Missing receipts from extraction"@, None)),
        Some(receipts) => first_failure(receipt_failures(receipts@)),
    }
}

/// The record of one receipt.
pub fn transform_receipt<T: EvmExtraction>(extracted: &T, receipt: &RawReceipt) -> (out: Result<
    Receipt,
    TransformationErr,
>)
    ensures
        match receipt_failure(*receipt) {
            Some(e) => out is Err && out->Err_0@ == e,
            None => out is Ok && is_receipt_record(extracted, *receipt, out->Ok_0),
        },
{
    let block_hash = match &receipt.block_hash {
        Some(hash) => fixed_bytes_text(hash),
        None => {
            return Err(
                TransformationErr::missing(
                    "Missing critical extractions for this transformation",
                    "block_hash",
                ),
            );
        },
    };
    let transaction_index = match receipt.transaction_index {
        Some(index) => match index.try_into_integer() {
            Ok(fixed_idx) => fixed_idx,
            Err(err) => {
                return Err(TransformationErr::tagged(err.message(), "transaction_index"));
            },
        },
        None => {
            return Err(
                TransformationErr::missing("No transaction index in receipt", "transaction_index"),
            );
        },
    };
    let cumulative_gas_used = match u128_integer(
        receipt.cumulative_gas_used,
        "cumulative_gas_used",
    ) {
        Ok(gas) => gas,
        Err(err) => {
            return Err(err);
        },
    };
    let gas_used = match u128_integer(receipt.gas_used, "gas_used") {
        Ok(gas) => gas,
        Err(err) => {
            return Err(err);
        },
    };
    let effective_gas_price = match u128_integer(
        receipt.effective_gas_price,
        "effective_gas_price",
    ) {
        Ok(price) => price,
        Err(err) => {
            return Err(err);
        },
    };
    Ok(
        Receipt {
            block_hash,
            block_number: extracted.block_number() as i64,
            block_timestamp: extracted.block_timestamp(),
            transaction_hash: fixed_bytes_text(&receipt.transaction_hash),
            transaction_index,
            from_address: address_text(&receipt.from),
            to_address: opt_address_text(&receipt.to),
            contract_address: opt_address_text(&receipt.contract_address),
            cumulative_gas_used,
            gas_used,
            effective_gas_price,
            logs_bloom: fixed_bytes_text(&receipt.logs_bloom),
            root: opt_fixed_bytes_text(&receipt.state_root),
            status: Some(
                if receipt.status {
                    1
                } else {
                    0
                },
            ),
        },
    )
}

/// The receipt records of an extraction, in the order of the block. The
/// receipts must have been extracted.
pub fn transform_receipts<T: EvmExtraction>(extracted: &T) -> (out: Result<
    Vec<Receipt>,
    ExtractTransformErr,
>)
    ensures
        match receipts_failure(extracted) {
            Some(e) => out is Err && out->Err_0.transformation() == Some(e),
            None => out is Ok && out->Ok_0@.len() == extracted.raw_receipts()->0@.len()
                && forall|i: int|
                0 <= i < out->Ok_0@.len() ==> is_receipt_record(
                    extracted,
                    extracted.raw_receipts()->0@[i],
                    #[trigger] out->Ok_0@[i],
                ),
        },
{
    let extracted_receipts = match extracted.receipts() {
        Some(receipts) => receipts,
        None => {
            return Err(
                ExtractTransformErr::Transformation(
                    TransformationErr::untagged(
                        String::from_str("Missing receipts from extraction"),
                    ),
                ),
            );
        },
    };
    let ghost failures = receipt_failures(extracted_receipts@);
    let mut records: Vec<Receipt> = Vec::new();
    let mut i: usize = 0;
    while i < extracted_receipts.len()
        invariant
            i <= extracted_receipts.len(),
            extracted.raw_receipts() == Some(*extracted_receipts),
            failures == receipt_failures(extracted_receipts@),
            records@.len() == i,
            forall|j: int| 0 <= j < i ==> failures[j] is None,
            forall|j: int|
                0 <= j < i ==> is_receipt_record(
                    extracted,
                    extracted_receipts@[j],
                    #[trigger] records@[j],
                ),
        decreases extracted_receipts.len() - i,
    {
        match transform_receipt(extracted, &extracted_receipts[i]) {
            Ok(record) => {
                records.push(record);
            },
            Err(err) => {
                proof {
                    assert(failures[i as int] == receipt_failure(extracted_receipts@[i as int]));
                    lemma_first_failure(failures, i as int);
                }
                return Err(ExtractTransformErr::Transformation(err));
            },
        }
        i += 1;
    }
    proof {
        lemma_no_failure(failures);
    }
    Ok(records)
}

} // verus!
