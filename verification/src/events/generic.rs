//! What every event catalog offers, and the turning of decoded values into the
//! positional JSON array that an event record carries.

use vstd::prelude::*;
use vstd::string::*;
use vstd::std_specs::convert::FromSpecImpl;
use crate::events::event::{EventSchema, SchemaView, ParamView, indexed_count};
use crate::events::json::{Json, JsonView, jsons_view, lemma_array_view};
use crate::events::value::{
    SolValue, SolValueView, DecodedValues, DecodedValuesView, values_view, decoded_log, topic_seqs,
    decode_log_values, abi_error_text, i256_text, lemma_sequence_view,
};
use crate::extracted::RawLog;
use crate::text::{address_checksum, address_text, decimal, signed_decimal};

verus! {

/// The catalog has no event under the key.
#[derive(Debug, Clone, Copy, PartialEq, Eq)]
pub enum GetEventBySigErr {
    NotFound,
}

impl GetEventBySigErr {
    /// The error as text.
    pub fn message(&self) -> (out: String)
        ensures
            out@ == "Event not found"@,
    {
        String::from_str("Event not found")
    }
}

/// Why a log was not decoded. The first two are benign: the log is simply no
/// event that the catalog knows.
#[derive(Debug)]
pub enum LogDecodeErr {
    EventRetrievalErr(GetEventBySigErr),
    LogHasNoTopics,
    DecodeErr(alloy::dyn_abi::Error),
}

impl LogDecodeErr {
    /// The error as text. For a decode error the text is the decoder's own.
    pub fn message(&self) -> (out: String)
        ensures
            self is EventRetrievalErr ==> out@ == "Event not found"@,
            self is LogHasNoTopics ==> out@ == "Log has no topics to decode"@,
    {
        match self {
            LogDecodeErr::EventRetrievalErr(err) => err.message(),
            LogDecodeErr::LogHasNoTopics => String::from_str("Log has no topics to decode"),
            LogDecodeErr::DecodeErr(err) => abi_error_text(err),
        }
    }
}

/// A decoded log: the event that it was decoded as, and the values.
#[derive(Debug)]
pub struct DecodedEventExt {
    pub event: EventSchema,
    pub decoded: DecodedValues,
}

/// What decoding a log against a catalog comes to.
pub enum DecodeOutcome {
    /// The log has no topics.
    NoTopics,
    /// The catalog has no event under the log's first topic and topic count.
    NotFound,
    /// The event was found but the log does not fit its layout.
    Refused,
    /// The log was decoded as this event, to these values.
    Decoded(SchemaView, DecodedValuesView),
}

/// The key under which a log looks for its event: the first topic and the
/// number of topics as a byte.
pub open spec fn log_key(log: &RawLog) -> (Seq<u8>, u8) {
    (log.topics@[0]@, (log.topics@.len() % 256) as u8)
}

/// The outcome of decoding `log` against the events of a catalog.
pub open spec fn decode_outcome(events: Map<(Seq<u8>, u8), SchemaView>, log: &RawLog)
    -> DecodeOutcome {
    if log.topics@.len() == 0 {
        DecodeOutcome::NoTopics
    } else if !events.contains_key(log_key(log)) {
        DecodeOutcome::NotFound
    } else {
        match decoded_log(events[log_key(log)], topic_seqs(log.topics@), log.data@) {
            Some(values) => DecodeOutcome::Decoded(events[log_key(log)], values),
            None => DecodeOutcome::Refused,
        }
    }
}

/// Whether the result of a decoding attempt is the given outcome.
pub open spec fn is_outcome(out: Result<DecodedEventExt, LogDecodeErr>, expected: DecodeOutcome)
    -> bool {
    match expected {
        DecodeOutcome::NoTopics => out is Err && out->Err_0 is LogHasNoTopics,
        DecodeOutcome::NotFound => out is Err && out->Err_0 is EventRetrievalErr,
        DecodeOutcome::Refused => out is Err && out->Err_0 is DecodeErr,
        DecodeOutcome::Decoded(event, values) => out is Ok && out->Ok_0.event@ == event
            && out->Ok_0.decoded@ == values,
    }
}

/// A registry from selector and topic count to event schema.
pub trait EventCatalog {
    /// The events of the catalog, by key.
    spec fn events(&self) -> Map<(Seq<u8>, u8), SchemaView>;

    /// Returns the event registered under the signature (often the first topic
    /// of a log) and the number of topics.
    fn get_event_by_signature_and_ntopics(&self, signature: &[u8; 32], n_topics: u8) -> (out:
        Result<&EventSchema, GetEventBySigErr>)
        ensures
            out is Ok <==> self.events().contains_key((signature@, n_topics)),
            out is Ok ==> out->Ok_0@ == self.events()[(signature@, n_topics)],
    ;

    /// Attempts to decode the log by the event that the catalog holds for it.
    fn attempt_decode_log(&self, log: &RawLog) -> (out: Result<DecodedEventExt, LogDecodeErr>)
        ensures
            is_outcome(out, decode_outcome(self.events(), log)),
    {
        if log.topics.len() == 0 {
            return Err(LogDecodeErr::LogHasNoTopics);
        }
        let n_topics: u8 = (log.topics.len() % 256) as u8;
        match self.get_event_by_signature_and_ntopics(&log.topics[0], n_topics) {
            Ok(event) => match decode_log_values(event, &log.topics, &log.data) {
                Ok(decoded) => Ok(DecodedEventExt { event: event.clone(), decoded }),
                Err(err) => Err(LogDecodeErr::DecodeErr(err)),
            },
            Err(err) => Err(LogDecodeErr::EventRetrievalErr(err)),
        }
    }
}

/// Why a decoded value has no JSON form.
#[derive(Debug, Clone, Copy, PartialEq, Eq)]
pub enum SolvalToSerdevalErr {
    /// The kind of value is not written as JSON.
    NotImpl,
    /// Fixed bytes that claim more than the 32 bytes of a word.
    SizeExceeded32(usize),
}

/// The JSON array of the numbers of a byte string.
pub open spec fn bytes_json(bytes: Seq<u8>) -> JsonView {
    JsonView::Array(Seq::new(bytes.len(), |i: int| JsonView::Number(bytes[i] as u64)))
}

/// The JSON form of a decoded value: text for addresses (checksummed), strings
/// and integers (decimal); a boolean as it is; an array for every sequence kind
/// and, byte by byte, for bytes; no form for anything else.
pub open spec fn json_of(value: SolValueView) -> Result<JsonView, SolvalToSerdevalErr>
    decreases value, 0nat,
{
    match value {
        SolValueView::Address(a) => Ok(JsonView::Text(address_checksum(a))),
        SolValueView::Bool(b) => Ok(JsonView::Bool(b)),
        SolValueView::Text(s) => Ok(JsonView::Text(s)),
        SolValueView::Array(items) => match json_of_all(items) {
            Ok(jsons) => Ok(JsonView::Array(jsons)),
            Err(e) => Err(e),
        },
        SolValueView::FixedArray(items) => match json_of_all(items) {
            Ok(jsons) => Ok(JsonView::Array(jsons)),
            Err(e) => Err(e),
        },
        SolValueView::Tuple(items) => match json_of_all(items) {
            Ok(jsons) => Ok(JsonView::Array(jsons)),
            Err(e) => Err(e),
        },
        SolValueView::Bytes(b) => Ok(bytes_json(b)),
        SolValueView::FixedBytes(word, size) => if size <= word.len() {
            Ok(bytes_json(word.take(size as int)))
        } else {
            Err(SolvalToSerdevalErr::SizeExceeded32(size))
        },
        SolValueView::Int(n, _) => Ok(JsonView::Text(signed_decimal(n))),
        SolValueView::Uint(n, _) => Ok(JsonView::Text(decimal(n))),
        SolValueView::Other => Err(SolvalToSerdevalErr::NotImpl),
    }
}

/// The JSON forms of a sequence of values, in order; the error of the first
/// value that has none.
pub open spec fn json_of_all(items: Seq<SolValueView>) -> Result<
    Seq<JsonView>,
    SolvalToSerdevalErr,
>
    decreases items, 1nat,
{
    if items.len() == 0 {
        Ok(Seq::empty())
    } else {
        match json_of_all(items.drop_last()) {
            Err(e) => Err(e),
            Ok(jsons) => match json_of(items.last()) {
                Ok(json) => Ok(jsons.push(json)),
                Err(e) => Err(e),
            },
        }
    }
}

/// The JSON array of the numbers of the first `count` bytes.
fn bytes_to_json(bytes: &[u8], count: usize) -> (out: Json)
    requires
        count <= bytes@.len(),
    ensures
        out@ == bytes_json(bytes@.take(count as int)),
{
    let mut items: Vec<Json> = Vec::new();
    let mut i: usize = 0;
    while i < count
        invariant
            i <= count <= bytes@.len(),
            items@.len() == i,
            forall|j: int| 0 <= j < i ==> items@[j]@ == JsonView::Number(bytes@[j] as u64),
        decreases count - i,
    {
        items.push(Json::Number(bytes[i] as u64));
        i += 1;
    }
    proof {
        lemma_array_view(items);
        assert(jsons_view(items@) =~= bytes_json(bytes@.take(count as int))->Array_0);
    }
    Json::Array(items)
}

/// Turns a decoded value into its JSON form.
pub fn solval_to_serdeval(value: &SolValue) -> (out: Result<Json, SolvalToSerdevalErr>)
    ensures
        out is Ok <==> json_of(value@) is Ok,
        out is Ok ==> out->Ok_0@ == json_of(value@)->Ok_0,
        out is Err ==> out->Err_0 == json_of(value@)->Err_0,
    decreases value, 0nat,
{
    match value {
        SolValue::Address(addr) => Ok(Json::Text(address_text(addr))),
        SolValue::Bool(b) => Ok(Json::Bool(*b)),
        SolValue::Text(string) => Ok(Json::Text(string.clone())),
        SolValue::Array(items) => {
            proof {
                lemma_sequence_view(value);
            }
            match solvals_to_json(items) {
                Ok(jsons) => {
                    proof {
                        lemma_array_view(jsons);
                    }
                    Ok(Json::Array(jsons))
                },
                Err(e) => Err(e),
            }
        },
        SolValue::FixedArray(items) => {
            proof {
                lemma_sequence_view(value);
            }
            match solvals_to_json(items) {
                Ok(jsons) => {
                    proof {
                        lemma_array_view(jsons);
                    }
                    Ok(Json::Array(jsons))
                },
                Err(e) => Err(e),
            }
        },
        SolValue::Tuple(items) => {
            proof {
                lemma_sequence_view(value);
            }
            match solvals_to_json(items) {
                Ok(jsons) => {
                    proof {
                        lemma_array_view(jsons);
                    }
                    Ok(Json::Array(jsons))
                },
                Err(e) => Err(e),
            }
        },
        SolValue::Bytes(bytes) => {
            assert(bytes@.take(bytes@.len() as int) =~= bytes@);
            Ok(bytes_to_json(bytes.as_slice(), bytes.len()))
        },
        SolValue::FixedBytes(word, size) => {
            if *size <= 32 {
                Ok(bytes_to_json(word.as_slice(), *size))
            } else {
                Err(SolvalToSerdevalErr::SizeExceeded32(*size))
            }
        },
        SolValue::Int(num, _) => Ok(Json::Text(i256_text(num))),
        SolValue::Uint(num, _) => Ok(Json::Text(num.to_decimal())),
        SolValue::Other => Err(SolvalToSerdevalErr::NotImpl),
    }
}

/// Turns each value into its JSON form, stopping at the first that has none.
fn solvals_to_json(items: &Vec<SolValue>) -> (out: Result<Vec<Json>, SolvalToSerdevalErr>)
    ensures
        out is Ok <==> json_of_all(values_view(items@)) is Ok,
        out is Ok ==> jsons_view(out->Ok_0@) == json_of_all(values_view(items@))->Ok_0,
        out is Err ==> out->Err_0 == json_of_all(values_view(items@))->Err_0,
    decreases items, 1nat,
{
    let ghost views = values_view(items@);
    let mut jsons: Vec<Json> = Vec::new();
    let mut i: usize = 0;
    while i < items.len()
        invariant
            i <= items.len(),
            views == values_view(items@),
            json_of_all(views.take(i as int)) is Ok,
            jsons_view(jsons@) == json_of_all(views.take(i as int))->Ok_0,
        decreases items.len() - i,
    {
        proof {
            assert(views.take(i + 1).drop_last() =~= views.take(i as int));
            assert(views.take(i + 1).last() == items@[i as int]@);
        }
        match solval_to_serdeval(&items[i]) {
            Ok(json) => {
                let ghost before = jsons_view(jsons@);
                jsons.push(json);
                assert(jsons_view(jsons@) =~= before.push(json@));
            },
            Err(e) => {
                proof {
                    lemma_json_of_all_error(views, i + 1);
                }
                return Err(e);
            },
        }
        i += 1;
    }
    proof {
        assert(views.take(i as int) =~= views);
    }
    Ok(jsons)
}

/// Once a prefix of the values has no JSON form, the whole sequence has none,
/// for the same reason.
proof fn lemma_json_of_all_error(items: Seq<SolValueView>, k: int)
    requires
        0 <= k <= items.len(),
        json_of_all(items.take(k)) is Err,
    ensures
        json_of_all(items) == json_of_all(items.take(k)),
    decreases items.len() - k,
{
    if k < items.len() {
        assert(items.take(k + 1).drop_last() =~= items.take(k));
        lemma_json_of_all_error(items, k + 1);
    } else {
        assert(items.take(k) =~= items);
    }
}

/// Why the arguments of a decoded event could not be written as JSON.
#[derive(Debug, Clone, Copy, PartialEq, Eq)]
pub enum ArgsToJsonErr {
    FromSolvalErr(SolvalToSerdevalErr),
    MissingValue,
}

impl From<SolvalToSerdevalErr> for ArgsToJsonErr {
    fn from(value: SolvalToSerdevalErr) -> (out: Self) {
        ArgsToJsonErr::FromSolvalErr(value)
    }
}

impl FromSpecImpl<SolvalToSerdevalErr> for ArgsToJsonErr {
    open spec fn obeys_from_spec() -> bool {
        true
    }

    open spec fn from_spec(value: SolvalToSerdevalErr) -> Self {
        ArgsToJsonErr::FromSolvalErr(value)
    }
}

/// The decoded value of the parameter at `position`: an indexed parameter takes
/// the next indexed value, any other the next body value; nothing where the
/// values run out.
pub open spec fn arg_value(event: SchemaView, decoded: DecodedValuesView, position: int) -> Option<
    SolValueView,
> {
    let before = indexed_count(event.inputs.take(position));
    if event.inputs[position].indexed {
        if before < decoded.indexed.len() {
            Some(decoded.indexed[before as int])
        } else {
            None
        }
    } else {
        if position - before < decoded.body.len() {
            Some(decoded.body[position - before])
        } else {
            None
        }
    }
}

/// The JSON form of the parameter at `position`.
pub open spec fn arg_json(event: SchemaView, decoded: DecodedValuesView, position: int) -> Result<
    JsonView,
    ArgsToJsonErr,
> {
    match arg_value(event, decoded, position) {
        None => Err(ArgsToJsonErr::MissingValue),
        Some(value) => match json_of(value) {
            Ok(json) => Ok(json),
            Err(e) => Err(ArgsToJsonErr::FromSolvalErr(e)),
        },
    }
}

/// The JSON forms of the first `count` parameters, in declaration order; the
/// error of the first parameter that has none.
pub open spec fn args_prefix(event: SchemaView, decoded: DecodedValuesView, count: nat) -> Result<
    Seq<JsonView>,
    ArgsToJsonErr,
>
    decreases count,
{
    if count == 0 {
        Ok(Seq::empty())
    } else {
        match args_prefix(event, decoded, (count - 1) as nat) {
            Err(e) => Err(e),
            Ok(jsons) => match arg_json(event, decoded, count - 1) {
                Ok(json) => Ok(jsons.push(json)),
                Err(e) => Err(e),
            },
        }
    }
}

/// The positional JSON array of all arguments of a decoded event.
pub open spec fn args_json(event: SchemaView, decoded: DecodedValuesView) -> Result<
    JsonView,
    ArgsToJsonErr,
> {
    match args_prefix(event, decoded, event.inputs.len()) {
        Ok(jsons) => Ok(JsonView::Array(jsons)),
        Err(e) => Err(e),
    }
}

impl DecodedEventExt {
    /// Writes the arguments as one JSON array, in the order of the event's
    /// parameters.
    pub fn args_to_json(&self) -> (out: Result<Json, ArgsToJsonErr>)
        ensures
            out is Ok <==> args_json(self.event@, self.decoded@) is Ok,
            out is Ok ==> out->Ok_0@ == args_json(self.event@, self.decoded@)->Ok_0,
            out is Err ==> out->Err_0 == args_json(self.event@, self.decoded@)->Err_0,
    {
        let ghost event = self.event@;
        let ghost decoded = self.decoded@;
        let mut solvals: Vec<Json> = Vec::new();
        let mut n_indexed: usize = 0;
        let mut n_other: usize = 0;
        let mut i: usize = 0;
        while i < self.event.inputs.len()
            invariant
                i <= self.event.inputs.len(),
                event == self.event@,
                decoded == self.decoded@,
                event.inputs.len() == self.event.inputs@.len(),
                n_indexed == indexed_count(event.inputs.take(i as int)),
                n_indexed + n_other == i,
                args_prefix(event, decoded, i as nat) is Ok,
                jsons_view(solvals@) == args_prefix(event, decoded, i as nat)->Ok_0,
            decreases self.event.inputs.len() - i,
        {
            proof {
                assert(event.inputs.take(i + 1).drop_last() =~= event.inputs.take(i as int));
                assert(event.inputs.take(i + 1).last() == event.inputs[i as int]);
                assert(event.inputs[i as int] == self.event.inputs@[i as int]@);
            }
            let ghost before = jsons_view(solvals@);
            if self.event.inputs[i].indexed {
                if n_indexed < self.decoded.indexed.len() {
                    match solval_to_serdeval(&self.decoded.indexed[n_indexed]) {
                        Ok(json) => {
                            solvals.push(json);
                        },
                        Err(e) => {
                            proof {
                                lemma_args_prefix_error(event, decoded, (i + 1) as nat);
                            }
                            return Err(ArgsToJsonErr::FromSolvalErr(e));
                        },
                    }
                } else {
                    proof {
                        lemma_args_prefix_error(event, decoded, (i + 1) as nat);
                    }
                    return Err(ArgsToJsonErr::MissingValue);
                }
                n_indexed += 1;
            } else {
                if n_other < self.decoded.body.len() {
                    match solval_to_serdeval(&self.decoded.body[n_other]) {
                        Ok(json) => {
                            solvals.push(json);
                        },
                        Err(e) => {
                            proof {
                                lemma_args_prefix_error(event, decoded, (i + 1) as nat);
                            }
                            return Err(ArgsToJsonErr::FromSolvalErr(e));
                        },
                    }
                } else {
                    proof {
                        lemma_args_prefix_error(event, decoded, (i + 1) as nat);
                    }
                    return Err(ArgsToJsonErr::MissingValue);
                }
                n_other += 1;
            }
            assert(jsons_view(solvals@) =~= before.push(solvals@.last()@));
            i += 1;
        }
        proof {
            lemma_array_view(solvals);
        }
        Ok(Json::Array(solvals))
    }
}

/// Once the first `k` parameters fail, all of them fail, with the same error.
proof fn lemma_args_prefix_error(event: SchemaView, decoded: DecodedValuesView, k: nat)
    requires
        k <= event.inputs.len(),
        args_prefix(event, decoded, k) is Err,
    ensures
        args_prefix(event, decoded, event.inputs.len()) == args_prefix(event, decoded, k),
    decreases event.inputs.len() - k,
{
    if k < event.inputs.len() {
        lemma_args_prefix_error(event, decoded, k + 1);
    }
}

/// Where the first `count` parameters all have a JSON form, there are `count`
/// forms, and the one at each position is that of the parameter there.
pub proof fn lemma_args_prefix_positions(event: SchemaView, decoded: DecodedValuesView, count: nat)
    requires
        args_prefix(event, decoded, count) is Ok,
    ensures
        args_prefix(event, decoded, count)->Ok_0.len() == count,
        forall|i: int|
            0 <= i < count ==> arg_json(event, decoded, i) == Ok::<JsonView, ArgsToJsonErr>(
                #[trigger] args_prefix(event, decoded, count)->Ok_0[i],
            ),
    decreases count,
{
    if count > 0 {
        lemma_args_prefix_positions(event, decoded, (count - 1) as nat);
    }
}

/// The JSON array of a decoded event has one element per parameter of the
/// event, and the element at each position is the JSON form of the value of
/// the parameter at that position.
pub proof fn lemma_args_json_round_trip(event: SchemaView, decoded: DecodedValuesView)
    requires
        args_json(event, decoded) is Ok,
    ensures
        args_json(event, decoded)->Ok_0 is Array,
        args_json(event, decoded)->Ok_0->Array_0.len() == event.inputs.len(),
        forall|i: int|
            0 <= i < event.inputs.len() ==> arg_json(event, decoded, i) == Ok::<
                JsonView,
                ArgsToJsonErr,
            >(#[trigger] args_json(event, decoded)->Ok_0->Array_0[i]),
{
    lemma_args_prefix_positions(event, decoded, event.inputs.len());
}

/// A catalog that events can be added to and taken from.
pub trait DynEventCatalog: EventCatalog {
    /// Registers the event under its key, unless the key is taken: the event
    /// that was registered first stays.
    fn add_event(&mut self, event: &EventSchema) -> (out: Result<(), AddEventErr>)
        ensures
            out is Ok,
            final(self).events() == added(old(self).events(), event@),
    ;

    /// Takes the event under the key out of the catalog.
    fn pop_event(&mut self, signature: &[u8; 32], n_topics: u8) -> (out: Result<
        EventSchema,
        PopEventErr,
    >)
        ensures
            out is Ok <==> old(self).events().contains_key((signature@, n_topics)),
            out is Ok ==> out->Ok_0@ == old(self).events()[(signature@, n_topics)],
            final(self).events() == old(self).events().remove((signature@, n_topics)),
    ;

    /// Removes the event under the key.
    fn remove_event(&mut self, signature: &[u8; 32], n_topics: u8) -> (out: Result<
        (),
        PopEventErr,
    >)
        ensures
            out is Ok <==> old(self).events().contains_key((signature@, n_topics)),
            final(self).events() == old(self).events().remove((signature@, n_topics)),
    {
        match self.pop_event(signature, n_topics) {
            Ok(_) => Ok(()),
            Err(e) => Err(e),
        }
    }
}

/// The events of a catalog after `event` was added: the event stands under its
/// key where the key was free, and nothing changes where it was taken.
pub open spec fn added(events: Map<(Seq<u8>, u8), SchemaView>, event: SchemaView) -> Map<
    (Seq<u8>, u8),
    SchemaView,
> {
    if events.contains_key(crate::events::event::catalog_key(event)) {
        events
    } else {
        events.insert(crate::events::event::catalog_key(event), event)
    }
}

/// Kept for callers that match on it; `add_event` never returns it.
#[derive(Debug, Clone, Copy, PartialEq, Eq)]
pub enum AddEventErr {
    AlreadyAdded,
}

/// The catalog has no event under the key.
#[derive(Debug, Clone, Copy, PartialEq, Eq)]
pub enum PopEventErr {
    DoesNotExist,
}

/// Where two lists of parameters decode alike from a position on, they agree
/// from there on in type and in indexing.
proof fn lemma_same_decoding_params(a: Seq<ParamView>, b: Seq<ParamView>, from: int, names: bool)
    requires
        a.len() == b.len(),
        0 <= from,
        crate::events::compare::compare_params(a, b, from, names).decodes_same_spec(),
    ensures
        forall|i: int| from <= i < a.len() ==> a[i].ty == b[i].ty && a[i].indexed == b[i].indexed,
    decreases a.len() - from,
{
    if from < a.len() {
        lemma_same_decoding_params(a, b, from + 1, names && a[from].name == b[from].name);
    }
}

/// Lists of parameters that agree in type and in indexing have the same type
/// list and as many indexed parameters.
proof fn lemma_same_signature_parts(a: Seq<ParamView>, b: Seq<ParamView>)
    requires
        a.len() == b.len(),
        forall|i: int| 0 <= i < a.len() ==> a[i].ty == b[i].ty && a[i].indexed == b[i].indexed,
    ensures
        crate::events::event::type_list(a) == crate::events::event::type_list(b),
        indexed_count(a) == indexed_count(b),
    decreases a.len(),
{
    if a.len() > 0 {
        lemma_same_signature_parts(a.drop_last(), b.drop_last());
    }
}

/// Two events that decode alike and are both anonymous or both not stand under
/// the same key.
pub proof fn lemma_same_decoding_same_key(a: SchemaView, b: SchemaView)
    requires
        crate::events::compare::compare_spec(a, b).decodes_same_spec(),
        a.anonymous == b.anonymous,
    ensures
        crate::events::event::catalog_key(a) == crate::events::event::catalog_key(b),
{
    lemma_same_decoding_params(a.inputs, b.inputs, 0, true);
    lemma_same_signature_parts(a.inputs, b.inputs);
}

/// Adding an event a second time, or adding one that decodes alike, leaves the
/// catalog as it was after the first time; and where the key was free before,
/// the event found under it afterwards is the one that was added first.
pub proof fn lemma_add_idempotent(
    events: Map<(Seq<u8>, u8), SchemaView>,
    first: SchemaView,
    equivalent: SchemaView,
)
    requires
        crate::events::compare::compare_spec(first, equivalent).decodes_same_spec(),
        first.anonymous == equivalent.anonymous,
    ensures
        added(added(events, first), first) == added(events, first),
        added(added(events, first), equivalent) == added(events, first),
        !events.contains_key(crate::events::event::catalog_key(first)) ==> added(
            added(events, first),
            equivalent,
        )[crate::events::event::catalog_key(equivalent)] == first,
{
    lemma_same_decoding_same_key(first, equivalent);
}

} // verus!
