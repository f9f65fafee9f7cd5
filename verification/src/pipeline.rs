//! The pipeline for one block: what to extract for a request, and how the
//! records of the block are put together from what was extracted.

use vstd::prelude::*;
use vstd::string::*;
use crate::err::{ExtractTransformErr, StepFailure, TransformationErr, failure};
use crate::events::event::SchemaView;
use crate::events::generic::EventCatalog;
use crate::extracted::{EvmExtracted, EvmExtraction, RawBlock, RawLog, RawReceipt};
use crate::integer::{TryIntoInteger, TryIntoIntegerError};
use crate::records::{Block, PerBlockRecords, Transaction};
use crate::request::IndexingRequest;
use crate::traces::{DebugExtraction, DebugTraces, TxTrace};
use crate::transformation::block::{
    block_failure, block_fields_match, set_event_count, transform_block,
};
use crate::transformation::logs::{
    catalog_events, decoded_count, events_match, is_log_record, logs_failure,
    transform_logs_and_events,
};
use crate::transformation::receipts::{is_receipt_record, receipts_failure, transform_receipts};
use crate::transformation::traces::{
    count_at, is_trace_record, lemma_count_at_bound, traces_failure, transform_traces, TraceCounts,
};
use crate::transformation::transactions::{
    transaction_fields_match, transactions_failure, transform_transactions,
};

verus! {

/// What has to be fetched for a block. The block itself is always fetched:
/// its hash and time go into every record.
#[derive(Debug, Clone, Copy, PartialEq, Eq, Structural)]
pub struct ExtractionPlan {
    /// Keep the block with its transactions in full.
    pub keep_block: bool,
    /// Fetch the logs of the block.
    pub logs: bool,
    /// Fetch the receipts of the block.
    pub receipts: bool,
    /// Fetch the traces of the block.
    pub traces: bool,
}

impl IndexingRequest {
    /// Whether the traces of a block are passed over: for the trace records,
    /// or for the trace counts of the block and of its transactions.
    pub open spec fn wants_traces(&self) -> bool {
        self.traces || self.blocks || self.transactions
    }

    /// Whether the logs of a block are passed over: for the log records, the
    /// event records, or the counts of the block.
    pub open spec fn wants_logs(&self) -> bool {
        self.decoded_events || self.logs || self.blocks
    }

    /// What has to be fetched for this request.
    pub open spec fn plan(&self) -> ExtractionPlan {
        ExtractionPlan {
            keep_block: self.blocks || self.transactions,
            logs: self.wants_logs(),
            receipts: self.receipts,
            traces: self.wants_traces(),
        }
    }

    /// What has to be fetched for this request.
    pub fn extraction_plan(&self) -> (out: ExtractionPlan)
        ensures
            out == self.plan(),
    {
        ExtractionPlan {
            keep_block: self.blocks || self.transactions,
            logs: self.decoded_events || self.logs || self.blocks,
            receipts: self.receipts,
            traces: self.traces || self.blocks || self.transactions,
        }
    }
}

impl ExtractionPlan {
    /// How many calls to the chain the basic extraction makes: the block, and
    /// the logs and receipts where they are fetched.
    pub open spec fn basic_calls(&self) -> nat {
        1 + if self.logs {
            1nat
        } else {
            0nat
        } + if self.receipts {
            1nat
        } else {
            0nat
        }
    }
}

/// The text of the error for a block that the chain reports without a hash.
pub open spec fn no_hash_text() -> Seq<char> {
    "Received block with no hash"@
}

/// Puts together the basic extraction of a block from what was fetched for it.
/// The block is kept only where the plan says so; a block without a hash
/// aborts the extraction.
pub fn basic_extraction(
    block_number: u64,
    request: &IndexingRequest,
    block: RawBlock,
    logs: Option<Vec<RawLog>>,
    receipts: Option<Vec<RawReceipt>>,
) -> (out: Result<EvmExtracted, ExtractTransformErr>)
    ensures
        match block.header.hash {
            None => out is Err && out->Err_0 is Rpc && out->Err_0->Rpc_0@ == no_hash_text(),
            Some(hash) => out == Ok::<EvmExtracted, ExtractTransformErr>(
                EvmExtracted {
                    block_number,
                    block_hash: hash,
                    block_timestamp: block.header.timestamp as i64,
                    block: if request.plan().keep_block {
                        Some(block)
                    } else {
                        None
                    },
                    logs,
                    receipts,
                },
            ),
        },
{
    let block_hash = match block.header.hash {
        Some(hash) => hash,
        None => {
            return Err(ExtractTransformErr::Rpc(String::from_str("Received block with no hash")));
        },
    };
    let block_timestamp = block.header.timestamp as i64;
    let kept = if request.blocks || request.transactions {
        Some(block)
    } else {
        None
    };
    Ok(EvmExtracted { block_number, block_hash, block_timestamp, block: kept, logs, receipts })
}

/// The trace extraction of a block from the hash and time that the basic
/// extraction read, and the traces that were fetched. Block 0 has no traces.
pub fn debug_extraction(basic: &EvmExtracted, traces: Vec<TxTrace>) -> (out: DebugTraces)
    ensures
        out.block_number == basic.block_number,
        out.block_hash == Some(basic.block_hash),
        out.block_timestamp == basic.block_timestamp,
        out.traces@ == if basic.block_number == 0 {
            Seq::<TxTrace>::empty()
        } else {
            traces@
        },
{
    DebugTraces {
        block_number: basic.block_number,
        block_hash: Some(basic.block_hash),
        block_timestamp: basic.block_timestamp,
        traces: if basic.block_number == 0 {
            Vec::new()
        } else {
            traces
        },
    }
}

/// The parameter of the call that fetches the traces of a block: the number
/// of the block as `0x` and its hex digits.
pub fn trace_block_param(block_number: u64) -> (out: String)
    ensures
        out@ == "0x"@ + crate::text::hex_short(block_number as nat),
{
    let mut out = String::from_str("0x");
    out.append(crate::text::u64_hex_text(block_number).as_str());
    out
}

/// Why the number of traces of a block does not fit its Integer column.
pub open spec fn trace_count_failure(count: nat) -> Option<StepFailure> {
    if count > i64::MAX {
        Some(
            StepFailure::Exact(
                failure(TryIntoIntegerError::AboveMax(count as usize).message_text(), None),
            ),
        )
    } else {
        None
    }
}

/// An optional transformation failure as a step failure.
pub open spec fn exact(e: Option<crate::err::TransformationErrView>) -> Option<StepFailure> {
    match e {
        Some(e) => Some(StepFailure::Exact(e)),
        None => None,
    }
}

/// Why no records come out of what was extracted; none where they do. The
/// steps stand in the order in which they are taken: block, transactions,
/// traces, logs and events, receipts; a step is taken only where the request
/// asks for it.
pub open spec fn assemble_failure(
    request: IndexingRequest,
    basic: &EvmExtracted,
    debug: &DebugTraces,
    events: Map<(Seq<u8>, u8), SchemaView>,
) -> Option<StepFailure> {
    if request.blocks && block_failure(basic) is Some {
        exact(block_failure(basic))
    } else if request.transactions && transactions_failure(basic) is Some {
        exact(transactions_failure(basic))
    } else if request.wants_traces() && traces_failure(debug, request.traces) is Some {
        exact(traces_failure(debug, request.traces))
    } else if request.blocks && trace_count_failure(debug.traces@.len()) is Some {
        trace_count_failure(debug.traces@.len())
    } else if request.wants_logs() && logs_failure(
        basic,
        Some(events),
        request.logs,
        request.decoded_events,
    ) is Some {
        logs_failure(basic, Some(events), request.logs, request.decoded_events)
    } else if request.receipts {
        exact(receipts_failure(basic))
    } else {
        None
    }
}

/// Whether `rec` is the block record of the bundle: the fields of the block
/// pass, and the counts of traces and of decoded events filled in.
pub open spec fn is_bundle_block(
    basic: &EvmExtracted,
    debug: &DebugTraces,
    events: Map<(Seq<u8>, u8), SchemaView>,
    rec: Block,
) -> bool {
    &&& block_fields_match(basic, rec)
    &&& rec.trace_count == debug.traces@.len()
    &&& rec.decoded_event_count == decoded_count(Some(events), basic.logs->0@) as usize as i64
}

/// The number of traces of the transaction that a record is of, as the record
/// carries it.
pub open spec fn trace_count_of(debug: &DebugTraces, rec: Transaction) -> i64 {
    count_at(debug.traces@, Some(rec.transaction_index as u64)) as u64 as i64
}

/// Whether `recs` are the transaction records of the bundle: the fields of the
/// transaction pass, and in each the count of its traces filled in.
pub open spec fn is_bundle_transactions(
    basic: &EvmExtracted,
    debug: &DebugTraces,
    recs: Seq<Transaction>,
) -> bool {
    &&& recs.len() == basic.block->0.transactions.count()
    &&& forall|i: int|
        0 <= i < recs.len() ==> transaction_fields_match(
            basic,
            basic.block->0.transactions->Full_0@[i],
            i,
            #[trigger] recs[i],
        ) && recs[i].trace_count == trace_count_of(debug, recs[i])
}

/// Whether `records` is the bundle of the block for the request: each kind of
/// record is there exactly when its flag is set, and holds what its pass
/// derives from the extraction.
pub open spec fn is_bundle(
    request: IndexingRequest,
    basic: &EvmExtracted,
    debug: &DebugTraces,
    events: Map<(Seq<u8>, u8), SchemaView>,
    records: PerBlockRecords,
) -> bool {
    &&& records.block is Some <==> request.blocks
    &&& request.blocks ==> is_bundle_block(basic, debug, events, records.block->0)
    &&& records.transactions is Some <==> request.transactions
    &&& request.transactions ==> is_bundle_transactions(basic, debug, records.transactions->0@)
    &&& records.traces is Some <==> request.traces
    &&& request.traces ==> records.traces->0@.len() == debug.traces@.len() && forall|i: int|
        0 <= i < debug.traces@.len() ==> is_trace_record(
            debug,
            debug.traces@[i],
            i,
            #[trigger] records.traces->0@[i],
        )
    &&& records.logs is Some <==> request.logs
    &&& request.logs ==> records.logs->0@.len() == basic.logs->0@.len() && forall|i: int|
        0 <= i < basic.logs->0@.len() ==> is_log_record(
            basic,
            basic.logs->0@[i],
            #[trigger] records.logs->0@[i],
        )
    &&& records.events is Some <==> request.decoded_events
    &&& request.decoded_events ==> events_match(
        basic,
        events,
        basic.logs->0@,
        records.events->0@,
    )
    &&& records.receipts is Some <==> request.receipts
    &&& request.receipts ==> records.receipts->0@.len() == basic.receipts->0@.len()
        && forall|i: int|
        0 <= i < basic.receipts->0@.len() ==> is_receipt_record(
            basic,
            basic.receipts->0@[i],
            #[trigger] records.receipts->0@[i],
        )
}

/// Fills in, in each transaction record, the number of traces that belong to
/// the transaction.
fn backfill_trace_counts(
    basic: &EvmExtracted,
    debug: &DebugTraces,
    txs: Vec<Transaction>,
    counts: &TraceCounts,
) -> (out: Vec<Transaction>)
    requires
        counts.counts(debug.traces@),
        basic.block is Some,
        txs@.len() == basic.block->0.transactions.count(),
        forall|i: int|
            0 <= i < txs@.len() ==> transaction_fields_match(
                basic,
                basic.block->0.transactions->Full_0@[i],
                i,
                #[trigger] txs@[i],
            ),
    ensures
        is_bundle_transactions(basic, debug, out@),
{
    let mut txs = txs;
    let ghost raw = basic.block->0.transactions->Full_0@;
    let mut i: usize = 0;
    while i < txs.len()
        invariant
            i <= txs.len(),
            counts.counts(debug.traces@),
            raw == basic.block->0.transactions->Full_0@,
            txs@.len() == basic.block->0.transactions.count(),
            forall|j: int|
                0 <= j < txs@.len() ==> transaction_fields_match(basic, raw[j], j, #[trigger] txs@[j]),
            forall|j: int| 0 <= j < i ==> (#[trigger] txs@[j]).trace_count == trace_count_of(debug, txs@[j]),
        decreases txs.len() - i,
    {
        let position = txs[i].transaction_index as u64;
        let trace_count = counts.get(Some(position));
        let ghost before = txs@;
        txs[i].trace_count = trace_count as i64;
        proof {
            assert(txs@[i as int].transaction_index == before[i as int].transaction_index);
            assert(transaction_fields_match(basic, raw[i as int], i as int, before[i as int]));
            assert forall|j: int| 0 <= j < txs@.len() implies transaction_fields_match(
                basic,
                raw[j],
                j,
                #[trigger] txs@[j],
            ) by {
                if j != i {
                    assert(txs@[j] == before[j]);
                }
            }
            assert forall|j: int| 0 <= j < i + 1 implies (#[trigger] txs@[j]).trace_count
                == trace_count_of(debug, txs@[j]) by {
                if j != i {
                    assert(txs@[j] == before[j]);
                }
            }
        }
        i += 1;
    }
    txs
}

/// Puts the records of one block together from what was extracted for it.
/// The passes run in the order that the counts need: block, transactions,
/// traces (which fill in the trace counts of the block and of its
/// transactions), logs and events (which fill in the event count of the
/// block), receipts. A pass is skipped where the request does not ask for it.
pub fn assemble_records<C: EventCatalog>(
    block_number: u64,
    request: &IndexingRequest,
    basic: &EvmExtracted,
    debug: &DebugTraces,
    catalog: C,
) -> (out: Result<PerBlockRecords, ExtractTransformErr>)
    ensures
        match assemble_failure(*request, basic, debug, catalog.events()) {
            Some(f) => out is Err && f.is_error(out->Err_0),
            None => out is Ok && out->Ok_0.block_number == block_number && is_bundle(
                *request,
                basic,
                debug,
                catalog.events(),
                out->Ok_0,
            ),
        },
{
    let ghost events = catalog.events();
    let mut block: Option<Block> = None;
    let mut transactions: Option<Vec<Transaction>> = None;
    if request.blocks {
        block = Some(transform_block(basic)?);
    }
    if request.transactions {
        transactions = Some(transform_transactions(basic)?);
    }
    let mut traces = None;
    if request.traces || request.blocks || request.transactions {
        let (trace_records, block_trace_cnt, per_tx_trace_cnt) = transform_traces(
            debug,
            request.traces,
            request.blocks,
            request.transactions,
        )?;
        traces = trace_records;
        if request.blocks {
            let trace_count = match debug.traces.len().try_into_integer() {
                Ok(casted) => casted,
                Err(err) => {
                    return Err(
                        ExtractTransformErr::Transformation(
                            TransformationErr::untagged(err.message()),
                        ),
                    );
                },
            };
            let mut b = block.unwrap();
            b.trace_count = trace_count;
            block = Some(b);
        }
        if request.transactions {
            let counts = per_tx_trace_cnt.unwrap();
            transactions = Some(
                backfill_trace_counts(basic, debug, transactions.unwrap(), &counts),
            );
        }
    }
    let mut logs = None;
    let mut event_records = None;
    if request.decoded_events || request.logs || request.blocks {
        let (maybe_log_records, maybe_event_records, decode_count) = transform_logs_and_events(
            basic,
            request.logs,
            request.decoded_events,
            Some(catalog),
        )?;
        logs = maybe_log_records;
        event_records = maybe_event_records;
        if request.blocks {
            block = Some(set_event_count(block.unwrap(), decode_count));
        }
    }
    let mut receipts = None;
    if request.receipts {
        receipts = Some(transform_receipts(basic)?);
    }
    Ok(
        PerBlockRecords {
            block_number,
            block,
            logs,
            receipts,
            transactions,
            events: event_records,
            traces,
        },
    )
}

/// What an extraction came to: the transport failed, the chain has no such
/// block, or the data is there.
pub open spec fn extraction_failure<X>(extraction: Result<Option<X>, String>) -> Option<
    ExtractTransformErr,
> {
    match extraction {
        Err(text) => Some(ExtractTransformErr::Rpc(text)),
        Ok(None) => Some(ExtractTransformErr::ExtractorReturnedNone),
        Ok(Some(_)) => None,
    }
}

/// Whether `used` is the trace extraction that the records are assembled
/// with: the one that was handed in where the request needs traces, else an
/// empty one for the same block.
pub open spec fn is_trace_input(
    request: IndexingRequest,
    basic: EvmExtracted,
    debug: Result<Option<DebugTraces>, String>,
    used: DebugTraces,
) -> bool {
    if request.wants_traces() {
        debug == Ok::<Option<DebugTraces>, String>(Some(used))
    } else {
        &&& used.block_number == basic.block_number
        &&& used.block_timestamp == basic.block_timestamp
        &&& used.traces@.len() == 0
    }
}

/// Whether `out` is what assembling the records comes to.
pub open spec fn is_assembled(
    block_number: u64,
    request: IndexingRequest,
    basic: EvmExtracted,
    debug: DebugTraces,
    events: Map<(Seq<u8>, u8), SchemaView>,
    out: Result<PerBlockRecords, ExtractTransformErr>,
) -> bool {
    match assemble_failure(request, &basic, &debug, events) {
        Some(f) => out is Err && f.is_error(out->Err_0),
        None => out is Ok && out->Ok_0.block_number == block_number && is_bundle(
            request,
            &basic,
            &debug,
            events,
            out->Ok_0,
        ),
    }
}

/// The request that an absent one stands for: nothing is selected.
pub open spec fn request_or_default(request: Option<IndexingRequest>) -> IndexingRequest {
    match request {
        Some(r) => r,
        None => IndexingRequest::empty_selector(0, 0),
    }
}

/// The records of one block from the outcomes of its two extractions. A failed
/// basic extraction ends the block before the trace extraction is looked at;
/// the trace extraction is looked at only where the request needs traces.
pub fn extract_transform<C: EventCatalog>(
    block_number: u64,
    request: Option<IndexingRequest>,
    basic: Result<Option<EvmExtracted>, String>,
    debug: Result<Option<DebugTraces>, String>,
    catalog: C,
) -> (out: Result<PerBlockRecords, ExtractTransformErr>)
    ensures
        extraction_failure(basic) is Some ==> out == Err::<PerBlockRecords, ExtractTransformErr>(
            extraction_failure(basic)->0,
        ),
        extraction_failure(basic) is None && request_or_default(request).wants_traces()
            && extraction_failure(debug) is Some ==> out == Err::<
            PerBlockRecords,
            ExtractTransformErr,
        >(extraction_failure(debug)->0),
        extraction_failure(basic) is None && !(request_or_default(request).wants_traces()
            && extraction_failure(debug) is Some) ==> exists|used: DebugTraces|
            #[trigger] is_trace_input(request_or_default(request), basic->Ok_0->0, debug, used)
                && is_assembled(
                block_number,
                request_or_default(request),
                basic->Ok_0->0,
                used,
                catalog.events(),
                out,
            ),
{
    let ghost asked = request_or_default(request);
    let ghost handed = debug;
    let request = match request {
        Some(r) => r,
        None => IndexingRequest::default(),
    };
    assert(request == asked);
    let basic_extraction = match basic {
        Ok(Some(extraction)) => extraction,
        Ok(None) => {
            return Err(ExtractTransformErr::ExtractorReturnedNone);
        },
        Err(text) => {
            return Err(ExtractTransformErr::Rpc(text));
        },
    };
    let ghost events = catalog.events();
    if !(request.traces || request.blocks || request.transactions) {
        let empty = debug_extraction(&basic_extraction, Vec::new());
        let out = assemble_records(block_number, &request, &basic_extraction, &empty, catalog);
        proof {
            assert(is_trace_input(asked, basic_extraction, handed, empty));
            assert(is_assembled(block_number, asked, basic_extraction, empty, events, out));
        }
        return out;
    }
    let debug_extraction = match debug {
        Ok(Some(extraction)) => extraction,
        Ok(None) => {
            return Err(ExtractTransformErr::ExtractorReturnedNone);
        },
        Err(text) => {
            return Err(ExtractTransformErr::Rpc(text));
        },
    };
    let out = assemble_records(
        block_number,
        &request,
        &basic_extraction,
        &debug_extraction,
        catalog,
    );
    proof {
        assert(handed == Ok::<Option<DebugTraces>, String>(Some(debug_extraction)));
        assert(is_trace_input(asked, basic_extraction, handed, debug_extraction));
        assert(is_assembled(
            block_number,
            asked,
            basic_extraction,
            debug_extraction,
            events,
            out,
        ));
    }
    out
}

/// Each kind of record is in the bundle exactly when the request has its flag
/// set.
pub proof fn lemma_selector_honesty(
    request: IndexingRequest,
    basic: &EvmExtracted,
    debug: &DebugTraces,
    events: Map<(Seq<u8>, u8), SchemaView>,
    records: PerBlockRecords,
)
    requires
        is_bundle(request, basic, debug, events, records),
    ensures
        records.block is Some <==> request.blocks,
        records.transactions is Some <==> request.transactions,
        records.logs is Some <==> request.logs,
        records.events is Some <==> request.decoded_events,
        records.receipts is Some <==> request.receipts,
        records.traces is Some <==> request.traces,
{
}

/// The trace counts of the first `count` transaction records, added up.
pub open spec fn trace_count_sum(recs: Seq<Transaction>, count: nat) -> int
    decreases count,
{
    if count == 0 {
        0
    } else {
        trace_count_sum(recs, (count - 1) as nat) + recs[count - 1].trace_count
    }
}

/// Whether no two of the records are of transactions at the same position.
pub open spec fn positions_distinct(recs: Seq<Transaction>) -> bool {
    forall|i: int, j: int|
        0 <= i < j < recs.len() ==> (#[trigger] recs[i]).transaction_index != (
        #[trigger] recs[j]).transaction_index
}

/// How many of the first `count` records are of the transaction at `position`.
spec fn hits(recs: Seq<Transaction>, count: nat, position: Option<u64>) -> nat
    decreases count,
{
    if count == 0 {
        0
    } else {
        hits(recs, (count - 1) as nat, position) + if Some(
            recs[count - 1].transaction_index as u64,
        ) == position {
            1nat
        } else {
            0nat
        }
    }
}

/// The traces of the first `count` records' transactions, added up.
spec fn total_at(traces: Seq<TxTrace>, recs: Seq<Transaction>, count: nat) -> nat
    decreases count,
{
    if count == 0 {
        0
    } else {
        total_at(traces, recs, (count - 1) as nat) + count_at(
            traces,
            Some(recs[count - 1].transaction_index as u64),
        )
    }
}

proof fn lemma_no_hits(recs: Seq<Transaction>, count: nat, position: Option<u64>)
    requires
        count <= recs.len(),
        forall|i: int|
            0 <= i < count ==> Some((#[trigger] recs[i]).transaction_index as u64) != position,
    ensures
        hits(recs, count, position) == 0,
    decreases count,
{
    if count > 0 {
        lemma_no_hits(recs, (count - 1) as nat, position);
    }
}

proof fn lemma_index_cast(a: i64, b: i64)
    requires
        a != b,
    ensures
        a as u64 != b as u64,
{
    assert(a != b ==> a as u64 != b as u64) by (bit_vector);
}

proof fn lemma_one_hit(recs: Seq<Transaction>, count: nat, position: Option<u64>)
    requires
        count <= recs.len(),
        positions_distinct(recs),
    ensures
        hits(recs, count, position) <= 1,
    decreases count,
{
    if count > 0 {
        if Some(recs[count - 1].transaction_index as u64) == position {
            assert forall|i: int| 0 <= i < count - 1 implies Some(
                (#[trigger] recs[i]).transaction_index as u64,
            ) != position by {
                lemma_index_cast(recs[i].transaction_index, recs[count - 1].transaction_index);
            }
            lemma_no_hits(recs, (count - 1) as nat, position);
        } else {
            lemma_one_hit(recs, (count - 1) as nat, position);
        }
    }
}

proof fn lemma_total_step(traces: Seq<TxTrace>, trace: TxTrace, recs: Seq<Transaction>, count: nat)
    ensures
        total_at(traces.push(trace), recs, count) == total_at(traces, recs, count) + hits(
            recs,
            count,
            trace.tx_position(),
        ),
    decreases count,
{
    if count > 0 {
        lemma_total_step(traces, trace, recs, (count - 1) as nat);
        assert(traces.push(trace).drop_last() =~= traces);
    }
}

proof fn lemma_total_bound(traces: Seq<TxTrace>, recs: Seq<Transaction>)
    requires
        positions_distinct(recs),
    ensures
        total_at(traces, recs, recs.len()) <= traces.len(),
    decreases traces.len(),
{
    if traces.len() == 0 {
        lemma_total_empty(traces, recs, recs.len());
    } else {
        let rest = traces.drop_last();
        lemma_total_bound(rest, recs);
        assert(rest.push(traces.last()) =~= traces);
        lemma_total_step(rest, traces.last(), recs, recs.len());
        lemma_one_hit(recs, recs.len(), traces.last().tx_position());
    }
}

proof fn lemma_total_empty(traces: Seq<TxTrace>, recs: Seq<Transaction>, count: nat)
    requires
        traces.len() == 0,
    ensures
        total_at(traces, recs, count) == 0,
    decreases count,
{
    if count > 0 {
        lemma_total_empty(traces, recs, (count - 1) as nat);
    }
}

proof fn lemma_sum_is_total(debug: &DebugTraces, recs: Seq<Transaction>, count: nat)
    requires
        count <= recs.len(),
        debug.traces@.len() <= i64::MAX,
        forall|i: int|
            0 <= i < recs.len() ==> (#[trigger] recs[i]).trace_count == trace_count_of(
                debug,
                recs[i],
            ),
    ensures
        trace_count_sum(recs, count) == total_at(debug.traces@, recs, count),
    decreases count,
{
    if count > 0 {
        lemma_sum_is_total(debug, recs, (count - 1) as nat);
        lemma_count_at_bound(debug.traces@, Some(recs[count - 1].transaction_index as u64));
    }
}

/// The counts that the block record and the transaction records carry agree
/// with the other tables of the bundle: the block counts its transactions,
/// logs, traces and decoded events as many as there are records of each, and
/// the trace counts of the transactions add up to no more than there are
/// traces (a trace that belongs to no transaction is counted nowhere). The last
/// holds where no two transactions stand at the same position. The logs are
/// taken to have been extracted where the request needs them, and the numbers
/// of logs and of traces to fit a signed 64-bit number.
pub proof fn lemma_count_consistency(
    request: IndexingRequest,
    basic: &EvmExtracted,
    debug: &DebugTraces,
    events: Map<(Seq<u8>, u8), SchemaView>,
    records: PerBlockRecords,
)
    requires
        is_bundle(request, basic, debug, events, records),
        debug.traces@.len() <= i64::MAX,
        request.wants_logs() ==> basic.logs is Some && basic.logs->0@.len() <= i64::MAX,
    ensures
        request.blocks && request.transactions ==> records.block->0.transactions_count
            == records.transactions->0@.len(),
        request.blocks && request.logs ==> records.block->0.log_count == records.logs->0@.len(),
        request.blocks && request.traces ==> records.block->0.trace_count
            == records.traces->0@.len(),
        request.blocks && request.decoded_events ==> records.block->0.decoded_event_count
            == records.events->0@.len(),
        request.transactions && positions_distinct(records.transactions->0@) ==> trace_count_sum(
            records.transactions->0@,
            records.transactions->0@.len(),
        ) <= debug.traces@.len(),
{
    if request.blocks && request.decoded_events {
        crate::transformation::logs::lemma_events_match_count(
            basic,
            events,
            basic.logs->0@,
            records.events->0@,
        );
        crate::transformation::logs::lemma_decoded_count_bound(Some(events), basic.logs->0@);
        assert(basic.logs->0.len() == basic.logs->0@.len());
    }
    if request.transactions && positions_distinct(records.transactions->0@) {
        let recs = records.transactions->0@;
        lemma_sum_is_total(debug, recs, recs.len());
        lemma_total_bound(debug.traces@, recs);
    }
}

} // verus!
