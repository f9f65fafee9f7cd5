//! The log records of a block and, where a catalog knows the log's event, the
//! decoded event records; both in one pass over the extracted logs.

use vstd::prelude::*;
use vstd::string::*;
use crate::err::{
    failure, first_failure, lemma_first_failure, lemma_no_failure, ExtractTransformErr,
    StepFailure, TransformationErr, TransformationErrView,
};
use crate::events::event::{event_selector, signature_text, SchemaView};
use crate::events::generic::{
    args_json, decode_outcome, DecodeOutcome, DecodedEventExt, EventCatalog, LogDecodeErr,
};
use crate::events::json::json_text;
use crate::events::value::DecodedValuesView;
use crate::extracted::{EvmExtraction, RawLog};
use crate::integer::{TryIntoInteger, TryIntoIntegerError};
use crate::records::{texts, DecodedEvent, Log};
use crate::text::{
    address_checksum, address_text, bytes_text, fixed_bytes_text, fixed_bytes_texts, hex_list,
    hex_prefixed,
};

verus! {

/// Why an optional index has no Integer: it is missing, or too large.
pub open spec fn index_failure(index: Option<u64>, missing: Seq<char>, field: Seq<char>) -> Option<
    TransformationErrView,
> {
    match index {
        None => Some(failure(missing, Some(field))),
        Some(v) => if v > i64::MAX {
            Some(failure(TryIntoIntegerError::AboveMax(v).message_text(), Some(field)))
        } else {
            None
        },
    }
}

/// Why a log has no log record; none where it has one.
pub open spec fn log_record_failure(log: RawLog) -> Option<TransformationErrView> {
    if index_failure(log.transaction_index, "Missing transaction_index"@, "transaction_index"@)
        is Some {
        index_failure(log.transaction_index, "Missing transaction_index"@, "transaction_index"@)
    } else {
        index_failure(log.log_index, "Missing log_index"@, "log_index"@)
    }
}

/// The block hash of a log: its own, or that of the extraction.
pub open spec fn log_block_hash<T: EvmExtraction>(extracted: &T, log: RawLog) -> Seq<u8> {
    match log.block_hash {
        Some(hash) => hash@,
        None => extracted.hash()@,
    }
}

/// Whether `rec` is the log record of `log` in the block of the extraction.
pub open spec fn is_log_record<T: EvmExtraction>(extracted: &T, log: RawLog, rec: Log) -> bool {
    &&& rec.block_hash@ == hex_prefixed(log_block_hash(extracted, log))
    &&& rec.block_number == extracted.number() as i64
    &&& rec.block_timestamp == extracted.timestamp()
    &&& rec.transaction_hash@ == hex_prefixed(
        match log.transaction_hash {
            Some(hash) => hash@,
            None => extracted.hash()@,
        },
    )
    &&& rec.transaction_index == log.transaction_index->0
    &&& rec.log_index == log.log_index->0
    &&& rec.address is Some && rec.address->0@ == hex_prefixed(log.address@)
    &&& rec.data is Some && rec.data->0@ == hex_prefixed(log.data@)
    &&& texts(rec.topics@) == hex_list(log.topics@)
    &&& rec.removed == Some(log.removed)
}

/// The text of the error for arguments that have no JSON form.
pub open spec fn args_failure_text() -> Seq<char> {
    "Failed to convert decoded arguments into json"@
}

/// Why a decoded log has no event record; none where it has one.
pub open spec fn event_record_failure(log: RawLog, event: SchemaView, values: DecodedValuesView)
    -> Option<TransformationErrView> {
    if log.transaction_hash is None {
        Some(
            failure(
                "Missing critical extractions for this transformation"@,
                Some("transaction_hash"@),
            ),
        )
    } else if log.transaction_index is None {
        Some(
            failure(
                "Missing critical extractions for this transformation"@,
                Some("transaction_index"@),
            ),
        )
    } else if log.log_index is None {
        Some(
            failure("Missing critical extractions for this transformation"@, Some("log_index"@)),
        )
    } else if args_json(event, values) is Err {
        Some(failure(args_failure_text(), None))
    } else {
        None
    }
}

/// Whether `rec` is the event record of `log`, decoded as `event` to `values`.
pub open spec fn is_event_record<T: EvmExtraction>(
    extracted: &T,
    log: RawLog,
    event: SchemaView,
    values: DecodedValuesView,
    rec: DecodedEvent,
) -> bool {
    &&& rec.block_hash@ == hex_prefixed(log_block_hash(extracted, log))
    &&& rec.block_number == extracted.number() as i64
    &&& rec.block_timestamp == match log.block_timestamp {
        Some(timestamp) => timestamp as i64,
        None => extracted.timestamp(),
    }
    &&& rec.transaction_hash@ == hex_prefixed(log.transaction_hash->0@)
    &&& rec.transaction_index == log.transaction_index->0 as i64
    &&& rec.log_index == log.log_index->0 as i64
    &&& rec.address is Some && rec.address->0@ == address_checksum(log.address@)
    &&& rec.event_hash is Some && rec.event_hash->0@ == hex_prefixed(event_selector(event))
    &&& rec.event_signature is Some && rec.event_signature->0@ == signature_text(event)
    &&& texts(rec.topics@) == hex_list(log.topics@)
    &&& rec.args is Some && rec.args->0@ == json_text(args_json(event, values)->Ok_0)
    &&& rec.removed == Some(log.removed)
}

/// Whether the catalog, if there is one, decodes the log.
pub open spec fn decodes(events: Option<Map<(Seq<u8>, u8), SchemaView>>, log: RawLog) -> bool {
    events is Some && decode_outcome(events->0, &log) is Decoded
}

/// Why a log makes the pass fail; none where the pass goes on. The log record
/// is made first, where logs are asked for; then the log is decoded, where
/// there is a catalog; then the event record is made, where events are asked
/// for. A log without topics, or whose event the catalog does not know, is
/// passed over.
pub open spec fn log_failure(
    events: Option<Map<(Seq<u8>, u8), SchemaView>>,
    log: RawLog,
    incl_logs: bool,
    incl_events: bool,
) -> Option<StepFailure> {
    if incl_logs && log_record_failure(log) is Some {
        Some(StepFailure::Exact(log_record_failure(log)->0))
    } else if events is None {
        None
    } else {
        match decode_outcome(events->0, &log) {
            DecodeOutcome::Refused => Some(StepFailure::Decode),
            DecodeOutcome::Decoded(event, values) => if incl_events && event_record_failure(
                log,
                event,
                values,
            ) is Some {
                Some(StepFailure::Exact(event_record_failure(log, event, values)->0))
            } else {
                None
            },
            _ => None,
        }
    }
}

/// The failures of the logs of a block, one entry per log.
pub open spec fn log_failures(
    events: Option<Map<(Seq<u8>, u8), SchemaView>>,
    logs: Seq<RawLog>,
    incl_logs: bool,
    incl_events: bool,
) -> Seq<Option<StepFailure>> {
    Seq::new(logs.len(), |i: int| log_failure(events, logs[i], incl_logs, incl_events))
}

/// How many of the logs the catalog decodes.
pub open spec fn decoded_count(events: Option<Map<(Seq<u8>, u8), SchemaView>>, logs: Seq<RawLog>)
    -> nat
    decreases logs.len(),
{
    if logs.len() == 0 {
        0
    } else {
        decoded_count(events, logs.drop_last()) + if decodes(events, logs.last()) {
            1nat
        } else {
            0nat
        }
    }
}

/// Whether `recs` are the event records of the logs that the catalog decodes,
/// one per such log and in the order of the logs.
pub open spec fn events_match<T: EvmExtraction>(
    extracted: &T,
    events: Map<(Seq<u8>, u8), SchemaView>,
    logs: Seq<RawLog>,
    recs: Seq<DecodedEvent>,
) -> bool
    decreases logs.len(),
{
    if logs.len() == 0 {
        recs.len() == 0
    } else {
        match decode_outcome(events, &logs.last()) {
            DecodeOutcome::Decoded(event, values) => {
                &&& recs.len() > 0
                &&& is_event_record(extracted, logs.last(), event, values, recs.last())
                &&& events_match(extracted, events, logs.drop_last(), recs.drop_last())
            },
            _ => events_match(extracted, events, logs.drop_last(), recs),
        }
    }
}

/// No more logs are decoded than there are.
pub proof fn lemma_decoded_count_bound(
    events: Option<Map<(Seq<u8>, u8), SchemaView>>,
    logs: Seq<RawLog>,
)
    ensures
        decoded_count(events, logs) <= logs.len(),
    decreases logs.len(),
{
    if logs.len() > 0 {
        lemma_decoded_count_bound(events, logs.drop_last());
    }
}

/// There is one event record per decoded log.
pub proof fn lemma_events_match_count<T: EvmExtraction>(
    extracted: &T,
    events: Map<(Seq<u8>, u8), SchemaView>,
    logs: Seq<RawLog>,
    recs: Seq<DecodedEvent>,
)
    requires
        events_match(extracted, events, logs, recs),
    ensures
        recs.len() == decoded_count(Some(events), logs),
    decreases logs.len(),
{
    if logs.len() > 0 {
        if decode_outcome(events, &logs.last()) is Decoded {
            lemma_events_match_count(extracted, events, logs.drop_last(), recs.drop_last());
        } else {
            lemma_events_match_count(extracted, events, logs.drop_last(), recs);
        }
    }
}

/// The events of an optional catalog.
pub open spec fn catalog_events<C: EventCatalog>(catalog: Option<C>) -> Option<
    Map<(Seq<u8>, u8), SchemaView>,
> {
    match catalog {
        Some(c) => Some(c.events()),
        None => None,
    }
}

/// An optional index as an Integer.
fn index_integer(index: Option<u64>, missing: &str, field: &str) -> (out: Result<
    i64,
    TransformationErr,
>)
    ensures
        match index_failure(index, missing@, field@) {
            Some(e) => out is Err && out->Err_0@ == e,
            None => out is Ok && out->Ok_0 == index->0,
        },
{
    match index {
        Some(v) => match v.try_into_integer() {
            Ok(n) => Ok(n),
            Err(err) => Err(TransformationErr::tagged(err.message(), field)),
        },
        None => Err(TransformationErr::missing(missing, field)),
    }
}

/// The log record of one log.
pub fn transform_log<T: EvmExtraction>(extracted: &T, log: &RawLog) -> (out: Result<
    Log,
    TransformationErr,
>)
    ensures
        match log_record_failure(*log) {
            Some(e) => out is Err && out->Err_0@ == e,
            None => out is Ok && is_log_record(extracted, *log, out->Ok_0),
        },
{
    let transaction_index = match index_integer(
        log.transaction_index,
        "Missing transaction_index",
        "transaction_index",
    ) {
        Ok(index) => index,
        Err(err) => {
            return Err(err);
        },
    };
    let log_index = match index_integer(log.log_index, "Missing log_index", "log_index") {
        Ok(index) => index,
        Err(err) => {
            return Err(err);
        },
    };
    let topics = fixed_bytes_texts(&log.topics);
    assert(texts(topics@) =~= hex_list(log.topics@));
    Ok(
        Log {
            block_hash: match &log.block_hash {
                Some(block_hash) => fixed_bytes_text(block_hash),
                None => fixed_bytes_text(&extracted.block_hash()),
            },
            block_number: extracted.block_number() as i64,
            block_timestamp: extracted.block_timestamp(),
            transaction_hash: match &log.transaction_hash {
                Some(hash) => fixed_bytes_text(hash),
                None => fixed_bytes_text(&extracted.block_hash()),
            },
            transaction_index,
            log_index,
            address: Some(fixed_bytes_text(&log.address)),
            data: Some(bytes_text(&log.data)),
            topics,
            removed: Some(log.removed),
        },
    )
}

/// The event record of a log that was decoded.
pub fn transform_event<T: EvmExtraction>(extracted: &T, log: &RawLog, event: &DecodedEventExt)
    -> (out: Result<DecodedEvent, TransformationErr>)
    ensures
        match event_record_failure(*log, event.event@, event.decoded@) {
            Some(e) => out is Err && out->Err_0@ == e,
            None => out is Ok && is_event_record(
                extracted,
                *log,
                event.event@,
                event.decoded@,
                out->Ok_0,
            ),
        },
{
    let transaction_hash = match &log.transaction_hash {
        Some(tx_hash) => fixed_bytes_text(tx_hash),
        None => {
            return Err(
                TransformationErr::missing(
                    "Missing critical extractions for this transformation",
                    "transaction_hash",
                ),
            );
        },
    };
    let transaction_index = match log.transaction_index {
        Some(tx_index) => tx_index as i64,
        None => {
            return Err(
                TransformationErr::missing(
                    "Missing critical extractions for this transformation",
                    "transaction_index",
                ),
            );
        },
    };
    let log_index = match log.log_index {
        Some(log_index) => log_index as i64,
        None => {
            return Err(
                TransformationErr::missing(
                    "Missing critical extractions for this transformation",
                    "log_index",
                ),
            );
        },
    };
    let args = match event.args_to_json() {
        Ok(json) => json.to_text(),
        Err(_) => {
            return Err(
                TransformationErr::untagged(
                    String::from_str("Failed to convert decoded arguments into json"),
                ),
            );
        },
    };
    let topics = fixed_bytes_texts(&log.topics);
    assert(texts(topics@) =~= hex_list(log.topics@));
    Ok(
        DecodedEvent {
            block_hash: match &log.block_hash {
                Some(block_hash) => fixed_bytes_text(block_hash),
                None => fixed_bytes_text(&extracted.block_hash()),
            },
            block_number: extracted.block_number() as i64,
            block_timestamp: match log.block_timestamp {
                Some(block_timestamp) => block_timestamp as i64,
                None => extracted.block_timestamp(),
            },
            transaction_hash,
            transaction_index,
            log_index,
            address: Some(address_text(&log.address)),
            event_hash: Some(fixed_bytes_text(&event.event.selector())),
            event_signature: Some(event.event.signature()),
            topics,
            args: Some(args),
            removed: Some(log.removed),
        },
    )
}

/// Why the pass over the logs fails: no logs were extracted, or the first log
/// that fails. None where the pass succeeds.
pub open spec fn logs_failure<T: EvmExtraction>(
    extracted: &T,
    events: Option<Map<(Seq<u8>, u8), SchemaView>>,
    incl_logs: bool,
    incl_events: bool,
) -> Option<StepFailure> {
    match extracted.raw_logs() {
        None => Some(
            StepFailure::Exact(
                failure("Missing logs from extraction"@, Some("logs"@)),
            ),
        ),
        Some(logs) => first_failure(log_failures(events, logs@, incl_logs, incl_events)),
    }
}

/// Whether the pass goes on after a log: the log has what its log record
/// needs, where logs are asked for; it is no log of a known event that does
/// not fit the event; and, where it decodes and events are asked for, it has
/// what its event record needs.
pub open spec fn log_passes(
    events: Option<Map<(Seq<u8>, u8), SchemaView>>,
    log: RawLog,
    incl_logs: bool,
    incl_events: bool,
) -> bool {
    &&& incl_logs ==> log_record_failure(log) is None
    &&& events is Some ==> match decode_outcome(events->0, &log) {
        DecodeOutcome::Refused => false,
        DecodeOutcome::Decoded(event, values) => incl_events ==> event_record_failure(
            log,
            event,
            values,
        ) is None,
        _ => true,
    }
}

/// The pass over the logs succeeds exactly where the logs were extracted and
/// the pass goes on after each of them.
pub proof fn lemma_logs_pass_succeeds<T: EvmExtraction>(
    extracted: &T,
    events: Option<Map<(Seq<u8>, u8), SchemaView>>,
    incl_logs: bool,
    incl_events: bool,
)
    ensures
        logs_failure(extracted, events, incl_logs, incl_events) is None <==> extracted.raw_logs()
            is Some && forall|i: int|
            0 <= i < extracted.raw_logs()->0@.len() ==> log_passes(
                events,
                #[trigger] extracted.raw_logs()->0@[i],
                incl_logs,
                incl_events,
            ),
{
    if extracted.raw_logs() is Some {
        let logs = extracted.raw_logs()->0@;
        let failures = log_failures(events, logs, incl_logs, incl_events);
        assert forall|i: int| 0 <= i < logs.len() implies ((#[trigger] failures[i]) is None
            <==> log_passes(events, logs[i], incl_logs, incl_events)) by {}
        if forall|i: int| 0 <= i < failures.len() ==> (#[trigger] failures[i]) is None {
            lemma_no_failure(failures);
            assert forall|i: int| 0 <= i < logs.len() implies log_passes(
                events,
                #[trigger] logs[i],
                incl_logs,
                incl_events,
            ) by {
                assert(failures[i] is None);
            }
        } else {
            let i = choose|i: int| 0 <= i < failures.len() && !((#[trigger] failures[i]) is None);
            crate::err::lemma_some_failure(failures, i);
            assert(!log_passes(events, logs[i], incl_logs, incl_events));
        }
    }
}

/// Where the pass over the logs succeeds, the log records are there exactly
/// when they are asked for, and so are the event records; and the number of
/// decoded logs is the number of event records, where these are there.
pub proof fn lemma_logs_pass_selection<T: EvmExtraction>(
    extracted: &T,
    events: Option<Map<(Seq<u8>, u8), SchemaView>>,
    incl_logs: bool,
    incl_events: bool,
    out: Result<(Option<Vec<Log>>, Option<Vec<DecodedEvent>>, usize), ExtractTransformErr>,
)
    requires
        incl_events ==> events is Some,
        logs_failure(extracted, events, incl_logs, incl_events) is None,
        is_logs_outcome(extracted, events, incl_logs, incl_events, out),
    ensures
        out is Ok,
        out->Ok_0.0 is Some <==> incl_logs,
        incl_logs ==> out->Ok_0.0->0@.len() == extracted.raw_logs()->0@.len(),
        out->Ok_0.1 is Some <==> incl_events,
        incl_events ==> out->Ok_0.2 == out->Ok_0.1->0@.len(),
{
    if incl_events {
        lemma_events_match_count(
            extracted,
            events->0,
            extracted.raw_logs()->0@,
            out->Ok_0.1->0@,
        );
    }
}

/// Whether the outcome of the pass over the logs is what the inputs ask for.
pub open spec fn is_logs_outcome<T: EvmExtraction>(
    extracted: &T,
    events: Option<Map<(Seq<u8>, u8), SchemaView>>,
    incl_logs: bool,
    incl_events: bool,
    out: Result<(Option<Vec<Log>>, Option<Vec<DecodedEvent>>, usize), ExtractTransformErr>,
) -> bool {
    let logs = extracted.raw_logs()->0;
    match logs_failure(extracted, events, incl_logs, incl_events) {
        Some(f) => out is Err && f.is_error(out->Err_0),
        None => {
            &&& out is Ok
            &&& out->Ok_0.0 is Some <==> incl_logs
            &&& incl_logs ==> out->Ok_0.0->0@.len() == logs@.len() && forall|i: int|
                0 <= i < logs@.len() ==> is_log_record(
                    extracted,
                    logs@[i],
                    #[trigger] out->Ok_0.0->0@[i],
                )
            &&& out->Ok_0.1 is Some <==> incl_events
            &&& incl_events ==> events_match(extracted, events->0, logs@, out->Ok_0.1->0@)
            &&& out->Ok_0.2 == decoded_count(events, logs@)
        },
    }
}

/// One pass over the extracted logs, producing up to three outputs: the log
/// records (if asked for), the event records (if asked for), and the number of
/// logs that the catalog decoded. Events can only be asked for with a catalog.
pub fn transform_logs_and_events<T: EvmExtraction, C: EventCatalog>(
    extracted: &T,
    incl_logs: bool,
    incl_events: bool,
    catalog: Option<C>,
) -> (out: Result<(Option<Vec<Log>>, Option<Vec<DecodedEvent>>, usize), ExtractTransformErr>)
    requires
        incl_events ==> catalog is Some,
    ensures
        is_logs_outcome(extracted, catalog_events(catalog), incl_logs, incl_events, out),
{
    let extracted_logs = match extracted.logs() {
        Some(logs) => logs,
        None => {
            return Err(
                ExtractTransformErr::Transformation(
                    TransformationErr::missing("Missing logs from extraction", "logs"),
                ),
            );
        },
    };
    let ghost events = catalog_events(catalog);
    let ghost failures = log_failures(events, extracted_logs@, incl_logs, incl_events);
    let mut logs: Vec<Log> = Vec::new();
    let mut records: Vec<DecodedEvent> = Vec::new();
    let mut event_count: usize = 0;
    let mut i: usize = 0;
    while i < extracted_logs.len()
        invariant
            i <= extracted_logs.len(),
            extracted.raw_logs() == Some(*extracted_logs),
            events == catalog_events(catalog),
            incl_events ==> catalog is Some,
            failures == log_failures(events, extracted_logs@, incl_logs, incl_events),
            forall|j: int| 0 <= j < i ==> failures[j] is None,
            incl_logs ==> logs@.len() == i,
            forall|j: int|
                0 <= j < logs@.len() ==> is_log_record(
                    extracted,
                    extracted_logs@[j],
                    #[trigger] logs@[j],
                ),
            incl_events ==> events_match(
                extracted,
                events->0,
                extracted_logs@.take(i as int),
                records@,
            ),
            event_count == decoded_count(events, extracted_logs@.take(i as int)),
            event_count <= i,
        decreases extracted_logs.len() - i,
    {
        let log = &extracted_logs[i];
        proof {
            let next = extracted_logs@.take(i + 1);
            assert(next.drop_last() =~= extracted_logs@.take(i as int));
            assert(next.last() == *log);
            assert(failures[i as int] == log_failure(events, *log, incl_logs, incl_events));
        }
        if incl_logs {
            match transform_log(extracted, log) {
                Ok(record) => {
                    logs.push(record);
                },
                Err(err) => {
                    proof {
                        lemma_first_failure(failures, i as int);
                    }
                    return Err(ExtractTransformErr::Transformation(err));
                },
            }
        }
        match &catalog {
            Some(catalog) => {
                match catalog.attempt_decode_log(log) {
                    Ok(event) => {
                        event_count += 1;
                        if incl_events {
                            match transform_event(extracted, log, &event) {
                                Ok(record) => {
                                    let ghost before = records@;
                                    records.push(record);
                                    assert(records@.drop_last() =~= before);
                                },
                                Err(err) => {
                                    proof {
                                        lemma_first_failure(failures, i as int);
                                    }
                                    return Err(ExtractTransformErr::Transformation(err));
                                },
                            }
                        }
                    },
                    Err(LogDecodeErr::EventRetrievalErr(_)) => {},
                    Err(LogDecodeErr::LogHasNoTopics) => {},
                    Err(err) => {
                        proof {
                            lemma_first_failure(failures, i as int);
                        }
                        return Err(
                            ExtractTransformErr::Transformation(
                                TransformationErr::untagged(err.message()),
                            ),
                        );
                    },
                }
            },
            None => {},
        }
        i += 1;
    }
    proof {
        assert(extracted_logs@.take(i as int) =~= extracted_logs@);
        lemma_no_failure(failures);
    }
    let logs_out = if incl_logs {
        Some(logs)
    } else {
        None
    };
    let events_out = if incl_events {
        Some(records)
    } else {
        None
    };
    Ok((logs_out, events_out, event_count))
}

} // verus!
