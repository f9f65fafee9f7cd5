//! The transaction records of a block.

use vstd::prelude::*;
use vstd::string::*;
use crate::err::{
    failure, first_failure, lemma_first_failure, lemma_no_failure, ExtractTransformErr,
    TransformationErr, TransformationErrView,
};
use crate::extracted::{
    EvmExtraction, RawAccessListItem, RawSignature, RawTransaction, RawTransactions,
};
use crate::integer::{TryIntoInteger, TryIntoIntegerError};
use crate::records::{texts, AddressStorageKeyPair, Transaction};
use crate::text::{
    address_checksum, address_text, bytes_text, decimal, fixed_bytes_text, hex_prefixed,
    hex_with_prefix, opt_address_text,
};
use crate::transformation::receipts::{u128_failure, u128_integer};
use crate::word::{cap_bignumeric, capped_text, U256};

verus! {

/// Why an optional 128-bit number does not fit the Integer column, tagged with
/// the name of its field; none where it is absent or fits.
pub open spec fn opt_u128_failure(value: Option<u128>, field: Seq<char>) -> Option<
    TransformationErrView,
> {
    match value {
        Some(v) => if v > i64::MAX {
            Some(failure(TryIntoIntegerError::AboveMax(v).message_text(), Some(field)))
        } else {
            None
        },
        None => None,
    }
}

/// An optional 128-bit number as an optional Integer.
pub fn opt_u128_integer(value: Option<u128>, field: &str) -> (out: Result<
    Option<i64>,
    TransformationErr,
>)
    ensures
        match opt_u128_failure(value, field@) {
            Some(e) => out is Err && out->Err_0@ == e,
            None => out is Ok && match value {
                Some(v) => out->Ok_0 == Some(v as i64),
                None => out->Ok_0 is None,
            },
        },
{
    match value {
        Some(v) => match v.try_into_integer() {
            Ok(n) => Ok(Some(n)),
            Err(err) => Err(TransformationErr::tagged(err.message(), field)),
        },
        None => Ok(None),
    }
}

/// Why a transaction has no record: a number (the gas among them) that does
/// not fit the Integer column, or no transaction type. None where it has one. The checks stand in
/// the order in which they are made.
pub open spec fn transaction_failure(tx: RawTransaction) -> Option<TransformationErrView> {
    if tx.nonce > i64::MAX {
        Some(failure(TryIntoIntegerError::AboveMax(tx.nonce).message_text(), Some("nonce"@)))
    } else if opt_u128_failure(tx.gas_price, "gas_price"@) is Some {
        opt_u128_failure(tx.gas_price, "gas_price"@)
    } else if u128_failure(tx.gas, "gas"@) is Some {
        u128_failure(tx.gas, "gas"@)
    } else if opt_u128_failure(tx.max_fee_per_gas, "max_fee_per_gas"@) is Some {
        opt_u128_failure(tx.max_fee_per_gas, "max_fee_per_gas"@)
    } else if opt_u128_failure(tx.max_priority_fee_per_gas, "max_priority_fee_per_gas"@) is Some {
        opt_u128_failure(tx.max_priority_fee_per_gas, "max_priority_fee_per_gas"@)
    } else if tx.transaction_type is None {
        Some(failure("Missing tx.transaction_type"@, Some("transaction_type"@)))
    } else if tx.chain_id is Some && tx.chain_id->0 > i64::MAX {
        Some(
            failure(
                TryIntoIntegerError::AboveMax(tx.chain_id->0).message_text(),
                Some("chain_id"@),
            ),
        )
    } else {
        None
    }
}

/// Whether `rec` is the record of one entry of an access list.
pub open spec fn is_access_record(item: RawAccessListItem, rec: AddressStorageKeyPair) -> bool {
    &&& rec.address is Some
    &&& rec.address->0@ == address_checksum(item.address@)
    &&& texts(rec.storage_keys@) == Seq::new(
        item.storage_keys@.len(),
        |i: int| hex_prefixed(item.storage_keys@[i]@),
    )
}

/// The parity bit of a signature: the explicit one, or that of `v`.
pub open spec fn parity_of(sig: RawSignature) -> bool {
    match sig.y_parity {
        Some(parity) => parity,
        None => sig.v.value() % 2 == 1,
    }
}

/// `0x` and the hex of the 32 big-endian bytes of a number.
pub open spec fn word_hex(n: U256) -> Seq<char> {
    hex_prefixed(n.be_bytes())
}

/// Whether the four signature fields of `rec` are those of the signature.
pub open spec fn is_signature_of(signature: Option<RawSignature>, rec: Transaction) -> bool {
    match signature {
        Some(sig) => {
            &&& rec.r is Some && rec.r->0@ == word_hex(sig.r)
            &&& rec.s is Some && rec.s->0@ == word_hex(sig.s)
            &&& rec.v is Some && rec.v->0@ == word_hex(sig.v)
            &&& rec.y_parity is Some && rec.y_parity->0@ == if parity_of(sig) {
                "0x1"@
            } else {
                "0x0"@
            }
        },
        None => rec.r is None && rec.s is None && rec.v is None && rec.y_parity is None,
    }
}

/// Whether `rec` is the record of the transaction `tx`, which stands at
/// `position` in the block of the extraction, as the transaction pass leaves
/// it: the count of its traces still at zero.
pub open spec fn is_transaction_record<T: EvmExtraction>(
    extracted: &T,
    tx: RawTransaction,
    position: int,
    rec: Transaction,
) -> bool {
    &&& transaction_fields_match(extracted, tx, position, rec)
    &&& rec.trace_count == 0
}

/// Whether `rec` holds what the transaction pass derives from `tx`.
pub open spec fn transaction_fields_match<T: EvmExtraction>(
    extracted: &T,
    tx: RawTransaction,
    position: int,
    rec: Transaction,
) -> bool {
    &&& rec.block_hash@ == hex_prefixed(extracted.hash()@)
    &&& rec.block_number == extracted.number() as i64
    &&& rec.block_timestamp == extracted.timestamp()
    &&& rec.transaction_hash@ == hex_prefixed(tx.hash@)
    &&& rec.transaction_index == match tx.transaction_index {
        Some(index) => index as i64,
        None => position as usize as i64,
    }
    &&& rec.nonce == tx.nonce
    &&& rec.from_address@ == address_checksum(tx.from@)
    &&& rec.to_address is Some <==> tx.to is Some
    &&& rec.to_address is Some ==> rec.to_address->0@ == address_checksum(tx.to->0@)
    &&& rec.value@ == capped_text(tx.value.value())
    &&& rec.value_lossless@ == decimal(tx.value.value())
    &&& rec.gas_price is Some <==> tx.gas_price is Some
    &&& rec.gas_price is Some ==> rec.gas_price->0 == tx.gas_price->0
    &&& rec.gas == tx.gas
    &&& rec.max_fee_per_gas is Some <==> tx.max_fee_per_gas is Some
    &&& rec.max_fee_per_gas is Some ==> rec.max_fee_per_gas->0 == tx.max_fee_per_gas->0
    &&& rec.max_priority_fee_per_gas is Some <==> tx.max_priority_fee_per_gas is Some
    &&& rec.max_priority_fee_per_gas is Some ==> rec.max_priority_fee_per_gas->0
        == tx.max_priority_fee_per_gas->0
    &&& rec.input@ == hex_prefixed(tx.input@)
    &&& rec.transaction_type == tx.transaction_type->0
    &&& rec.chain_id is Some <==> tx.chain_id is Some
    &&& rec.chain_id is Some ==> rec.chain_id->0 == tx.chain_id->0
    &&& rec.access_list@.len() == match tx.access_list {
        Some(list) => list@.len(),
        None => 0,
    }
    &&& forall|i: int|
        0 <= i < rec.access_list@.len() ==> is_access_record(
            tx.access_list->0@[i],
            #[trigger] rec.access_list@[i],
        )
    &&& is_signature_of(tx.signature, rec)
}

/// The failures of the transactions of a block, one entry per transaction.
pub open spec fn transaction_failures(txs: Seq<RawTransaction>) -> Seq<
    Option<TransformationErrView>,
> {
    Seq::new(txs.len(), |i: int| transaction_failure(txs[i]))
}

/// Why the extraction has no transaction records; none where it has them.
pub open spec fn transactions_failure<T: EvmExtraction>(extracted: &T) -> Option<
    TransformationErrView,
> {
    match extracted.raw_block() {
        None => Some(
            failure("Missing critical extractions for this transformation"@, Some("block"@)),
        ),
        Some(block) => match block.transactions {
            RawTransactions::Full(txs) => first_failure(transaction_failures(txs@)),
            _ => Some(
                failure(
                    "Expected extracted.block.transactions.is_full() to be returned as true"@,
                    Some("block.transactions"@),
                ),
            ),
        },
    }
}

/// The record of one entry of an access list.
fn transform_access_item(item: &RawAccessListItem) -> (out: AddressStorageKeyPair)
    ensures
        is_access_record(*item, out),
{
    let mut storage_keys: Vec<String> = Vec::new();
    let mut i: usize = 0;
    while i < item.storage_keys.len()
        invariant
            i <= item.storage_keys.len(),
            storage_keys@.len() == i,
            forall|j: int|
                0 <= j < i ==> (#[trigger] storage_keys@[j])@ == hex_prefixed(
                    item.storage_keys@[j]@,
                ),
        decreases item.storage_keys.len() - i,
    {
        storage_keys.push(fixed_bytes_text(&item.storage_keys[i]));
        i += 1;
    }
    assert(texts(storage_keys@) =~= Seq::new(
        item.storage_keys@.len(),
        |i: int| hex_prefixed(item.storage_keys@[i]@),
    ));
    AddressStorageKeyPair { address: Some(address_text(&item.address)), storage_keys }
}

/// The records of an access list; none for a transaction without one.
fn transform_access_list(list: &Option<Vec<RawAccessListItem>>) -> (out: Vec<
    AddressStorageKeyPair,
>)
    ensures
        out@.len() == match list {
            Some(l) => l@.len(),
            None => 0,
        },
        forall|i: int| 0 <= i < out@.len() ==> is_access_record(list->0@[i], #[trigger] out@[i]),
{
    let mut records: Vec<AddressStorageKeyPair> = Vec::new();
    match list {
        Some(items) => {
            let mut i: usize = 0;
            while i < items.len()
                invariant
                    i <= items.len(),
                    records@.len() == i,
                    forall|j: int|
                        0 <= j < i ==> is_access_record(items@[j], #[trigger] records@[j]),
                decreases items.len() - i,
            {
                records.push(transform_access_item(&items[i]));
                i += 1;
            }
        },
        None => {},
    }
    records
}

/// `0x` and the hex of the 32 big-endian bytes of a number.
fn word_text(n: &U256) -> (out: String)
    ensures
        out@ == word_hex(*n),
{
    let bytes = n.to_be_bytes_vec();
    hex_with_prefix(&bytes)
}

/// The record of the transaction that stands at `position` in the block.
pub fn transform_transaction<T: EvmExtraction>(extracted: &T, tx: &RawTransaction, position: usize)
    -> (out: Result<Transaction, TransformationErr>)
    ensures
        match transaction_failure(*tx) {
            Some(e) => out is Err && out->Err_0@ == e,
            None => out is Ok && is_transaction_record(extracted, *tx, position as int, out->Ok_0),
        },
{
    let nonce = match tx.nonce.try_into_integer() {
        Ok(nonce) => nonce,
        Err(err) => {
            return Err(TransformationErr::tagged(err.message(), "nonce"));
        },
    };
    let gas_price = match opt_u128_integer(tx.gas_price, "gas_price") {
        Ok(price) => price,
        Err(err) => {
            return Err(err);
        },
    };
    let gas = match u128_integer(tx.gas, "gas") {
        Ok(gas) => gas,
        Err(err) => {
            return Err(err);
        },
    };
    let max_fee_per_gas = match opt_u128_integer(tx.max_fee_per_gas, "max_fee_per_gas") {
        Ok(fee) => fee,
        Err(err) => {
            return Err(err);
        },
    };
    let max_priority_fee_per_gas = match opt_u128_integer(
        tx.max_priority_fee_per_gas,
        "max_priority_fee_per_gas",
    ) {
        Ok(fee) => fee,
        Err(err) => {
            return Err(err);
        },
    };
    let transaction_type: u32 = match tx.transaction_type {
        Some(txtype) => txtype as u32,
        None => {
            return Err(
                TransformationErr::missing("Missing tx.transaction_type", "transaction_type"),
            );
        },
    };
    let chain_id = match tx.chain_id {
        Some(id) => match id.try_into_integer() {
            Ok(n) => Some(n),
            Err(err) => {
                return Err(TransformationErr::tagged(err.message(), "chain_id"));
            },
        },
        None => None,
    };
    let (r, s, v, y_parity) = match &tx.signature {
        Some(sig) => {
            let parity = match sig.y_parity {
                Some(y) => y,
                None => sig.v.is_odd(),
            };
            let parity_text = if parity {
                String::from_str("0x1")
            } else {
                String::from_str("0x0")
            };
            (
                Some(word_text(&sig.r)),
                Some(word_text(&sig.s)),
                Some(word_text(&sig.v)),
                Some(parity_text),
            )
        },
        None => (None, None, None, None),
    };
    Ok(
        Transaction {
            block_hash: fixed_bytes_text(&extracted.block_hash()),
            block_number: extracted.block_number() as i64,
            block_timestamp: extracted.block_timestamp(),
            transaction_hash: fixed_bytes_text(&tx.hash),
            transaction_index: match tx.transaction_index {
                Some(index) => index as i64,
                None => position as i64,
            },
            nonce,
            from_address: address_text(&tx.from),
            to_address: opt_address_text(&tx.to),
            value: cap_bignumeric(&tx.value),
            value_lossless: tx.value.to_decimal(),
            gas_price,
            gas,
            max_fee_per_gas,
            max_priority_fee_per_gas,
            input: bytes_text(&tx.input),
            transaction_type,
            chain_id,
            access_list: transform_access_list(&tx.access_list),
            r,
            s,
            v,
            y_parity,
            trace_count: 0,
        },
    )
}

/// The transaction records of an extraction, in the order of the block. The
/// block must have been extracted with its transactions in full.
pub fn transform_transactions<T: EvmExtraction>(extracted: &T) -> (out: Result<
    Vec<Transaction>,
    ExtractTransformErr,
>)
    ensures
        match transactions_failure(extracted) {
            Some(e) => out is Err && out->Err_0.transformation() == Some(e),
            None => out is Ok && out->Ok_0@.len() == extracted.raw_block()->0.transactions.count()
                && forall|i: int|
                0 <= i < out->Ok_0@.len() ==> is_transaction_record(
                    extracted,
                    extracted.raw_block()->0.transactions->Full_0@[i],
                    i,
                    #[trigger] out->Ok_0@[i],
                ),
        },
{
    let extracted_block = match extracted.block() {
        Some(block) => block,
        None => {
            return Err(
                ExtractTransformErr::Transformation(
                    TransformationErr::missing(
                        "Missing critical extractions for this transformation",
                        "block",
                    ),
                ),
            );
        },
    };
    let txs = match &extracted_block.transactions {
        RawTransactions::Full(txs) => txs,
        _ => {
            return Err(
                ExtractTransformErr::Transformation(
                    TransformationErr::missing(
                        "Expected extracted.block.transactions.is_full() to be returned as true",
                        "block.transactions",
                    ),
                ),
            );
        },
    };
    let ghost failures = transaction_failures(txs@);
    let mut transactions: Vec<Transaction> = Vec::new();
    let mut index: usize = 0;
    while index < txs.len()
        invariant
            index <= txs.len(),
            extracted.raw_block() == Some(*extracted_block),
            extracted_block.transactions == RawTransactions::Full(*txs),
            failures == transaction_failures(txs@),
            transactions@.len() == index,
            forall|j: int| 0 <= j < index ==> failures[j] is None,
            forall|j: int|
                0 <= j < index ==> is_transaction_record(
                    extracted,
                    txs@[j],
                    j,
                    #[trigger] transactions@[j],
                ),
        decreases txs.len() - index,
    {
        match transform_transaction(extracted, &txs[index], index) {
            Ok(record) => {
                transactions.push(record);
            },
            Err(err) => {
                proof {
                    assert(failures[index as int] == transaction_failure(txs@[index as int]));
                    lemma_first_failure(failures, index as int);
                }
                return Err(ExtractTransformErr::Transformation(err));
            },
        }
        index += 1;
    }
    proof {
        lemma_no_failure(failures);
    }
    Ok(transactions)
}

} // verus!
