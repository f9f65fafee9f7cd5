//! Decoded ABI values, and the decoding of a log's topics and data against an
//! event schema. The decoding itself is alloy's.

use vstd::prelude::*;
use crate::events::event::{EventSchema, SchemaParam, SchemaView};
use crate::word::U256;
use alloy::dyn_abi::{DynSolValue, EventExt};
use alloy::primitives::{B256, LogData};

verus! {

/// 2^255: from here on a 256-bit pattern stands for a negative number.
pub open spec fn sign_bound() -> nat {
    0x8000_0000_0000_0000_0000_0000_0000_0000_0000_0000_0000_0000_0000_0000_0000_0000nat
}

/// The signed number that a 256-bit two's-complement pattern stands for.
pub open spec fn signed_value(pattern: nat) -> int {
    if pattern >= sign_bound() {
        pattern - 2 * sign_bound()
    } else {
        pattern as int
    }
}

/// A decoded ABI value. A signed integer is held as its 256-bit
/// two's-complement pattern; the `usize` beside an integer is its width in
/// bits, the one beside fixed bytes their number. `Other` stands for every
/// kind that has no JSON form (function pointers, named structs).
#[derive(Debug)]
pub enum SolValue {
    Address([u8; 20]),
    Bool(bool),
    Text(String),
    Array(Vec<SolValue>),
    FixedArray(Vec<SolValue>),
    Tuple(Vec<SolValue>),
    Bytes(Vec<u8>),
    FixedBytes([u8; 32], usize),
    Int(U256, usize),
    Uint(U256, usize),
    Other,
}

/// The mathematical form of a `SolValue`.
pub enum SolValueView {
    Address(Seq<u8>),
    Bool(bool),
    Text(Seq<char>),
    Array(Seq<SolValueView>),
    FixedArray(Seq<SolValueView>),
    Tuple(Seq<SolValueView>),
    Bytes(Seq<u8>),
    FixedBytes(Seq<u8>, usize),
    Int(int, usize),
    Uint(nat, usize),
    Other,
}

impl View for SolValue {
    type V = SolValueView;

    open spec fn view(&self) -> SolValueView
        decreases self,
    {
        match self {
            SolValue::Address(a) => SolValueView::Address(a@),
            SolValue::Bool(b) => SolValueView::Bool(*b),
            SolValue::Text(s) => SolValueView::Text(s@),
            SolValue::Array(items) => SolValueView::Array(
                Seq::new(
                    items@.len(),
                    |i: int|
                        if 0 <= i < items@.len() {
                            items@[i].view()
                        } else {
                            SolValueView::Other
                        },
                ),
            ),
            SolValue::FixedArray(items) => SolValueView::FixedArray(
                Seq::new(
                    items@.len(),
                    |i: int|
                        if 0 <= i < items@.len() {
                            items@[i].view()
                        } else {
                            SolValueView::Other
                        },
                ),
            ),
            SolValue::Tuple(items) => SolValueView::Tuple(
                Seq::new(
                    items@.len(),
                    |i: int|
                        if 0 <= i < items@.len() {
                            items@[i].view()
                        } else {
                            SolValueView::Other
                        },
                ),
            ),
            SolValue::Bytes(b) => SolValueView::Bytes(b@),
            SolValue::FixedBytes(word, size) => SolValueView::FixedBytes(word@, *size),
            SolValue::Int(n, bits) => SolValueView::Int(signed_value(n.value()), *bits),
            SolValue::Uint(n, bits) => SolValueView::Uint(n.value(), *bits),
            SolValue::Other => SolValueView::Other,
        }
    }
}

/// The views of a sequence of values, in order.
pub open spec fn values_view(items: Seq<SolValue>) -> Seq<SolValueView> {
    Seq::new(items.len(), |i: int| items[i]@)
}

/// The view of a sequence kind is that kind of the views of its items.
pub proof fn lemma_sequence_view(value: &SolValue)
    ensures
        value matches SolValue::Array(items) ==> value@ == SolValueView::Array(values_view(items@)),
        value matches SolValue::FixedArray(items) ==> value@ == SolValueView::FixedArray(
            values_view(items@),
        ),
        value matches SolValue::Tuple(items) ==> value@ == SolValueView::Tuple(
            values_view(items@),
        ),
{
    reveal_with_fuel(<SolValue as View>::view, 2);
    match value {
        SolValue::Array(items) => {
            assert(value@->Array_0 =~= values_view(items@));
        },
        SolValue::FixedArray(items) => {
            assert(value@->FixedArray_0 =~= values_view(items@));
        },
        SolValue::Tuple(items) => {
            assert(value@->Tuple_0 =~= values_view(items@));
        },
        _ => {},
    }
}

/// The values decoded from one log: those of the indexed parameters, read from
/// the topics, and those of the others, read from the data; each in the order
/// of the schema.
#[derive(Debug)]
pub struct DecodedValues {
    pub indexed: Vec<SolValue>,
    pub body: Vec<SolValue>,
}

/// The mathematical form of `DecodedValues`.
pub struct DecodedValuesView {
    pub indexed: Seq<SolValueView>,
    pub body: Seq<SolValueView>,
}

impl View for DecodedValues {
    type V = DecodedValuesView;

    open spec fn view(&self) -> DecodedValuesView {
        DecodedValuesView { indexed: values_view(self.indexed@), body: values_view(self.body@) }
    }
}

/// What alloy's `decode_log`, with validation, makes of topics and data under
/// an event schema: the decoded values, or nothing where it refuses the log.
pub uninterp spec fn decoded_log(event: SchemaView, topics: Seq<Seq<u8>>, data: Seq<u8>) -> Option<
    DecodedValuesView,
>;

/// The byte strings of a list of topics.
pub open spec fn topic_seqs(topics: Seq<[u8; 32]>) -> Seq<Seq<u8>> {
    Seq::new(topics.len(), |i: int| topics[i]@)
}

/// alloy's error for a log that does not fit the schema.
#[verifier::external_type_specification]
#[verifier::external_body]
pub struct ExAbiError(alloy::dyn_abi::Error);

/// alloy's event schema; only carried from `to_abi_event` to the decoder.
#[verifier::external_type_specification]
#[verifier::external_body]
pub struct ExAbiEvent(alloy::json_abi::Event);

/// alloy's decoded value; only carried from the decoder to `from_abi_value`.
#[verifier::external_type_specification]
#[verifier::external_body]
pub struct ExAbiValue(DynSolValue);

/// Builds alloy's `Event` with the same name, parameters and flags.
#[verifier::external_body]
fn to_abi_event(event: &EventSchema) -> alloy::json_abi::Event {
    alloy::json_abi::Event {
        name: event.name.clone(),
        inputs: event.inputs.iter().map(to_abi_param).collect(),
        anonymous: event.anonymous,
    }
}

/// alloy's event parameter; only carried from `to_abi_param` to `to_abi_event`.
#[verifier::external_type_specification]
#[verifier::external_body]
pub struct ExAbiParam(alloy::json_abi::EventParam);

/// Builds alloy's `EventParam` of the same type, name and indexing. The type
/// is a canonical one, so the parameter has no components of its own.
#[verifier::external_body]
fn to_abi_param(param: &SchemaParam) -> alloy::json_abi::EventParam {
    alloy::json_abi::EventParam {
        ty: param.ty.clone(),
        name: param.name.clone(),
        indexed: param.indexed,
        components: Vec::new(),
        internal_type: None,
    }
}

/// Turns alloy's `DynSolValue` into a `SolValue`: a sequence kind here, any
/// other kind in `from_abi_leaf`.
#[verifier::external_body]
fn from_abi_value(value: &DynSolValue) -> SolValue {
    match value {
        DynSolValue::Array(xs) => SolValue::Array(from_abi_values(xs)),
        DynSolValue::FixedArray(xs) => SolValue::FixedArray(from_abi_values(xs)),
        DynSolValue::Tuple(xs) => SolValue::Tuple(from_abi_values(xs)),
        leaf => from_abi_leaf(leaf),
    }
}

/// Turns each of alloy's values into a `SolValue`, in order.
#[verifier::external_body]
fn from_abi_values(values: &Vec<DynSolValue>) -> Vec<SolValue> {
    values.iter().map(from_abi_value).collect()
}

/// Turns one of alloy's values that holds no other values into a `SolValue`,
/// variant by variant; a kind without a counterpart becomes `Other`.
#[verifier::external_body]
fn from_abi_leaf(value: &DynSolValue) -> SolValue {
    match value {
        DynSolValue::Address(a) => SolValue::Address(a.0.0),
        DynSolValue::Bool(b) => SolValue::Bool(*b),
        DynSolValue::String(s) => SolValue::Text(s.clone()),
        DynSolValue::Bytes(b) => SolValue::Bytes(b.clone()),
        DynSolValue::FixedBytes(w, n) => SolValue::FixedBytes(w.0, *n),
        DynSolValue::Int(i, n) => SolValue::Int(U256 { limbs: i.into_raw().into_limbs() }, *n),
        DynSolValue::Uint(u, n) => SolValue::Uint(U256 { limbs: u.into_limbs() }, *n),
        _ => SolValue::Other,
    }
}

/// Calls `decode_log` of alloy's `EventExt` with validation on. The values it
/// hands back are named `decoded_log`; it fails exactly where that is nothing.
#[verifier::external_body]
pub(crate) fn decode_log_values(event: &EventSchema, topics: &Vec<[u8; 32]>, data: &Vec<u8>) -> (out:
    Result<DecodedValues, alloy::dyn_abi::Error>)
    ensures
        out is Ok <==> decoded_log(event@, topic_seqs(topics@), data@) is Some,
        out is Ok ==> out->Ok_0@ == decoded_log(event@, topic_seqs(topics@), data@)->0,
{
    let words = topics.iter().map(|t| B256::from(*t)).collect();
    let log = LogData::new_unchecked(words, data.clone().into());
    let decoded = to_abi_event(event).decode_log(&log, true)?;
    Ok(
        DecodedValues {
            indexed: from_abi_values(&decoded.indexed),
            body: from_abi_values(&decoded.body),
        },
    )
}

/// Formats alloy's decode error with `Display`. Nothing is assumed of the text.
#[verifier::external_body]
pub(crate) fn abi_error_text(err: &alloy::dyn_abi::Error) -> String {
    err.to_string()
}

/// Formats alloy's `I256` with `Display`. Assumed: the decimal digits of the
/// signed number that the 256-bit pattern stands for, after a minus sign when
/// it is negative.
#[verifier::external_body]
pub(crate) fn i256_text(pattern: &U256) -> (out: String)
    ensures
        out@ == crate::text::signed_decimal(signed_value(pattern.value())),
{
    alloy::primitives::I256::from_raw(alloy::primitives::U256::from_limbs(pattern.limbs)).to_string()
}

} // verus!
