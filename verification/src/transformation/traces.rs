//! The trace records of a block, their number, and their number per
//! transaction.

use vstd::prelude::*;
use vstd::string::*;
use std::collections::HashMap;
use crate::err::{
    failure, first_failure, lemma_first_failure, lemma_no_failure, ExtractTransformErr,
    TransformationErr, TransformationErrView,
};
use crate::transformation::receipts::{u128_failure, u128_integer};
use crate::records::{opt_text_is, Trace, TraceAction, TraceResult};
use crate::text::{
    address_checksum, address_text, decimal, fixed_bytes_text, hex_prefixed, opt_address_text,
    opt_text_copy, trim_0x, without_0x,
};
use crate::traces::{
    DebugExtraction, TxTrace, TxTraceActionCreate, TxTraceCall, TxTraceCreate, TxTraceEmpty,
    TxTraceReward, TxTraceSuicide,
};
use crate::word::{cap_bignumeric, capped_text, hex_number, U256};

verus! {

broadcast use vstd::std_specs::hash::group_hash_axioms;

/// How many traces of a block belong to each transaction, by the position of
/// the transaction; and how many belong to none.
#[derive(Debug, Clone, PartialEq)]
pub struct TraceCounts {
    pub unattached: u64,
    pub by_position: HashMap<u64, u64>,
}

/// How many of the traces belong to the transaction at `position` (to none,
/// for no position).
pub open spec fn count_at(traces: Seq<TxTrace>, position: Option<u64>) -> nat
    decreases traces.len(),
{
    if traces.len() == 0 {
        0
    } else {
        count_at(traces.drop_last(), position) + if traces.last().tx_position() == position {
            1nat
        } else {
            0nat
        }
    }
}

/// No position has more traces than there are.
pub proof fn lemma_count_at_bound(traces: Seq<TxTrace>, position: Option<u64>)
    ensures
        count_at(traces, position) <= traces.len(),
    decreases traces.len(),
{
    if traces.len() > 0 {
        lemma_count_at_bound(traces.drop_last(), position);
    }
}

impl TraceCounts {
    /// Whether these are the counts of the traces: a position is in the map
    /// exactly when a trace belongs to it, with the number of such traces.
    pub open spec fn counts(&self, traces: Seq<TxTrace>) -> bool {
        &&& self.unattached == count_at(traces, None)
        &&& forall|k: u64| #[trigger]
            self.by_position@.contains_key(k) <==> count_at(traces, Some(k)) > 0
        &&& forall|k: u64| #[trigger]
            self.by_position@.contains_key(k) ==> self.by_position@[k] == count_at(
                traces,
                Some(k),
            )
    }

    /// The number of traces at a position, as the counts have it.
    pub open spec fn at(&self, position: Option<u64>) -> u64 {
        match position {
            None => self.unattached,
            Some(k) => if self.by_position@.contains_key(k) {
                self.by_position@[k]
            } else {
                0
            },
        }
    }

    /// The number of traces that belong to the transaction at `position`.
    pub fn get(&self, position: Option<u64>) -> (out: u64)
        ensures
            out == self.at(position),
    {
        match position {
            None => self.unattached,
            Some(k) => match self.by_position.get(&k) {
                Some(count) => *count,
                None => 0,
            },
        }
    }
}

/// What the action of a trace record is expected to hold.
pub struct ActionView {
    pub from_address: Option<Seq<char>>,
    pub to_address: Option<Seq<char>>,
    pub call_type: Option<Seq<char>>,
    pub gas: Option<i64>,
    pub input: Option<Seq<char>>,
    pub value: Option<Seq<char>>,
    pub value_lossless: Option<Seq<char>>,
    pub init: Option<Seq<char>>,
    pub author: Option<Seq<char>>,
    pub reward_type: Option<Seq<char>>,
    pub refund_address: Option<Seq<char>>,
    pub refund_balance: Option<Seq<char>>,
    pub refund_balance_lossless: Option<Seq<char>>,
    pub self_destructed_address: Option<Seq<char>>,
}

/// The action that holds nothing.
pub open spec fn no_action() -> ActionView {
    ActionView {
        from_address: None,
        to_address: None,
        call_type: None,
        gas: None,
        input: None,
        value: None,
        value_lossless: None,
        init: None,
        author: None,
        reward_type: None,
        refund_address: None,
        refund_balance: None,
        refund_balance_lossless: None,
        self_destructed_address: None,
    }
}

/// Whether the action of a record holds exactly what is expected.
pub open spec fn action_is(rec: TraceAction, expected: ActionView) -> bool {
    &&& opt_text_is(rec.from_address, expected.from_address)
    &&& opt_text_is(rec.to_address, expected.to_address)
    &&& opt_text_is(rec.call_type, expected.call_type)
    &&& rec.gas == expected.gas
    &&& opt_text_is(rec.input, expected.input)
    &&& opt_text_is(rec.value, expected.value)
    &&& opt_text_is(rec.value_lossless, expected.value_lossless)
    &&& opt_text_is(rec.init, expected.init)
    &&& opt_text_is(rec.author, expected.author)
    &&& opt_text_is(rec.reward_type, expected.reward_type)
    &&& opt_text_is(rec.refund_address, expected.refund_address)
    &&& opt_text_is(rec.refund_balance, expected.refund_balance)
    &&& opt_text_is(rec.refund_balance_lossless, expected.refund_balance_lossless)
    &&& opt_text_is(rec.self_destructed_address, expected.self_destructed_address)
}

/// What the result of a trace record is expected to hold.
pub struct ResultView {
    pub gas_used: Option<i64>,
    pub output: Option<Seq<char>>,
    pub address: Option<Seq<char>>,
    pub code: Option<Seq<char>>,
}

/// Whether the result of a record is what is expected.
pub open spec fn result_is(rec: Option<TraceResult>, expected: Option<ResultView>) -> bool {
    match expected {
        None => rec is None,
        Some(e) => {
            &&& rec is Some
            &&& rec->0.gas_used == e.gas_used
            &&& opt_text_is(rec->0.output, e.output)
            &&& opt_text_is(rec->0.address, e.address)
            &&& opt_text_is(rec->0.code, e.code)
        },
    }
}

/// The text of an optional string.
pub open spec fn opt_text(text: Option<String>) -> Option<Seq<char>> {
    match text {
        Some(t) => Some(t@),
        None => None,
    }
}

/// The number that the value text of a call stands for: hex digits, with or
/// without `0x` in front.
pub open spec fn call_value(text: Seq<char>) -> Option<nat> {
    hex_number(without_0x(text))
}

/// Why the used gas of an optional result does not fit the Integer column;
/// none where there is no result or it fits.
pub open spec fn gas_used_failure(gas_used: Option<u128>) -> Option<TransformationErrView> {
    match gas_used {
        Some(gas) => u128_failure(gas, "gas_used"@),
        None => None,
    }
}

/// The used gas of the result of a trace, where it has one.
pub open spec fn result_gas_used(trace: TxTrace) -> Option<u128> {
    match trace {
        TxTrace::Call(t) => match t.result {
            Some(res) => Some(res.gas_used),
            None => None,
        },
        TxTrace::Reward(t) => match t.result {
            Some(res) => Some(res.gas_used),
            None => None,
        },
        TxTrace::Create(t) => match t.result {
            Some(res) => Some(res.gas_used),
            None => None,
        },
        TxTrace::Empty(t) => match t.result {
            Some(res) => Some(res.gas_used),
            None => None,
        },
        TxTrace::Suicide(_) => None,
    }
}

/// Why the action of a trace has no record: gas that does not fit the Integer
/// column, or the value of a call that is no hex number. None where it has one.
pub open spec fn action_failure(trace: TxTrace) -> Option<TransformationErrView> {
    match trace {
        TxTrace::Call(call) => if u128_failure(call.action.gas, "gas"@) is Some {
            u128_failure(call.action.gas, "gas"@)
        } else if call_value(call.action.value@) is None {
            Some(failure("Failed to parse number"@, Some("value"@)))
        } else {
            None
        },
        TxTrace::Create(create) => u128_failure(create.action.gas, "gas"@),
        TxTrace::Empty(empty) => u128_failure(empty.action.gas, "gas"@),
        _ => None,
    }
}

/// Why a trace has no record: its action fails, or the used gas of its result
/// does not fit the Integer column. None where it has one. The action is
/// looked at first.
pub open spec fn trace_failure(trace: TxTrace) -> Option<TransformationErrView> {
    if action_failure(trace) is Some {
        action_failure(trace)
    } else {
        gas_used_failure(result_gas_used(trace))
    }
}

/// The action that the record of a trace is expected to hold. Each value is
/// there twice: capped to the BigNumeric range, and exact.
pub open spec fn expected_action(trace: TxTrace) -> ActionView {
    match trace {
        TxTrace::Call(call) => ActionView {
            from_address: Some(address_checksum(call.action.from@)),
            to_address: Some(address_checksum(call.action.to@)),
            call_type: Some(call.action.call_type@),
            gas: Some(call.action.gas as i64),
            input: Some(call.action.input@),
            value: Some(capped_text(call_value(call.action.value@)->0)),
            value_lossless: Some(decimal(call_value(call.action.value@)->0)),
            ..no_action()
        },
        TxTrace::Reward(reward) => ActionView {
            value: Some(capped_text(reward.action.value as nat)),
            value_lossless: Some(decimal(reward.action.value as nat)),
            reward_type: Some(reward.action.reward_type@),
            author: Some(address_checksum(reward.action.author@)),
            ..no_action()
        },
        TxTrace::Suicide(suicide) => ActionView {
            refund_address: match suicide.action.refund_address {
                Some(a) => Some(address_checksum(a@)),
                None => None,
            },
            refund_balance: Some(capped_text(suicide.action.balance as nat)),
            refund_balance_lossless: Some(decimal(suicide.action.balance as nat)),
            self_destructed_address: Some(
                address_checksum(suicide.action.self_destructed_address@),
            ),
            ..no_action()
        },
        TxTrace::Create(create) => creation_action(create.action),
        TxTrace::Empty(empty) => creation_action(empty.action),
    }
}

/// The action of a creation, which an empty trace carries too.
pub open spec fn creation_action(action: TxTraceActionCreate) -> ActionView {
    ActionView {
        from_address: Some(address_checksum(action.from@)),
        gas: Some(action.gas as i64),
        value: Some(capped_text(action.value as nat)),
        value_lossless: Some(decimal(action.value as nat)),
        init: Some(action.init@),
        ..no_action()
    }
}

/// The result that the record of a trace is expected to hold.
pub open spec fn expected_result(trace: TxTrace) -> Option<ResultView> {
    match trace {
        TxTrace::Call(call) => match call.result {
            Some(res) => Some(
                ResultView {
                    gas_used: Some(res.gas_used as i64),
                    output: Some(res.output@),
                    address: None,
                    code: None,
                },
            ),
            None => None,
        },
        TxTrace::Reward(reward) => match reward.result {
            Some(res) => Some(
                ResultView {
                    gas_used: Some(res.gas_used as i64),
                    output: Some(res.output@),
                    address: None,
                    code: None,
                },
            ),
            None => None,
        },
        TxTrace::Suicide(_) => None,
        TxTrace::Create(create) => match create.result {
            Some(res) => Some(
                ResultView {
                    gas_used: Some(res.gas_used as i64),
                    output: None,
                    address: Some(address_checksum(res.address@)),
                    code: Some(res.code@),
                },
            ),
            None => None,
        },
        TxTrace::Empty(empty) => match empty.result {
            Some(res) => Some(
                ResultView {
                    gas_used: Some(res.gas_used as i64),
                    output: None,
                    address: None,
                    code: None,
                },
            ),
            None => None,
        },
    }
}

/// The header fields of a trace that every kind has.
pub struct TraceHeader {
    pub block_hash: [u8; 32],
    pub error: Option<String>,
    pub subtraces: u64,
    pub trace_address: Seq<u64>,
}

/// The header of a trace. A creation and an empty trace have no address in
/// the execution tree.
pub open spec fn header_of(trace: TxTrace) -> TraceHeader {
    match trace {
        TxTrace::Call(t) => TraceHeader {
            block_hash: t.block_hash,
            error: t.error,
            subtraces: t.subtraces,
            trace_address: t.trace_address@,
        },
        TxTrace::Reward(t) => TraceHeader {
            block_hash: t.block_hash,
            error: t.error,
            subtraces: t.subtraces,
            trace_address: t.trace_address@,
        },
        TxTrace::Suicide(t) => TraceHeader {
            block_hash: t.block_hash,
            error: t.error,
            subtraces: t.subtraces,
            trace_address: t.trace_address@,
        },
        TxTrace::Create(t) => TraceHeader {
            block_hash: t.block_hash,
            error: t.error,
            subtraces: t.subtraces,
            trace_address: Seq::empty(),
        },
        TxTrace::Empty(t) => TraceHeader {
            block_hash: t.block_hash,
            error: t.error,
            subtraces: t.subtraces,
            trace_address: Seq::empty(),
        },
    }
}

/// The transaction of a trace as its record names it: hash and position, but
/// never for a reward.
pub open spec fn record_transaction(trace: TxTrace) -> (Option<Seq<char>>, Option<i64>) {
    match trace {
        TxTrace::Reward(_) => (None, None),
        _ => (Some(hex_prefixed(trace.tx_hash()->0@)), Some(trace.tx_position()->0 as i64)),
    }
}

/// Whether `rec` is the record of `trace`, which stands at `index` among the
/// traces of the extraction.
pub open spec fn is_trace_record<T: DebugExtraction>(
    extracted: &T,
    trace: TxTrace,
    index: int,
    rec: Trace,
) -> bool {
    let header = header_of(trace);
    &&& rec.block_hash@ == hex_prefixed(header.block_hash@)
    &&& rec.block_number == extracted.number()
    &&& rec.block_timestamp == extracted.timestamp() as u64
    &&& opt_text_is(rec.transaction_hash, record_transaction(trace).0)
    &&& rec.transaction_index == record_transaction(trace).1
    &&& rec.trace_type@ == trace.kind().name()
    &&& rec.trace_address@ == Seq::new(
        header.trace_address.len(),
        |i: int| header.trace_address[i] as i64,
    )
    &&& rec.subtrace_count == header.subtraces as i64
    &&& action_is(rec.action, expected_action(trace))
    &&& result_is(rec.result, expected_result(trace))
    &&& opt_text_is(rec.error, opt_text(header.error))
    &&& rec.trace_index == index as usize as u64
}

/// The failures of the traces of a block, one entry per trace.
pub open spec fn trace_failures(traces: Seq<TxTrace>) -> Seq<Option<TransformationErrView>> {
    Seq::new(traces.len(), |i: int| trace_failure(traces[i]))
}

/// An action with nothing in it.
fn empty_action() -> (out: TraceAction)
    ensures
        action_is(out, no_action()),
{
    TraceAction {
        from_address: None,
        to_address: None,
        call_type: None,
        gas: None,
        input: None,
        value: None,
        value_lossless: None,
        init: None,
        author: None,
        reward_type: None,
        refund_address: None,
        refund_balance: None,
        refund_balance_lossless: None,
        self_destructed_address: None,
    }
}

/// The positions of an execution-tree address as Integers.
fn address_path(path: &Vec<u64>) -> (out: Vec<i64>)
    ensures
        out@ == Seq::new(path@.len(), |i: int| path@[i] as i64),
{
    let mut out: Vec<i64> = Vec::new();
    let mut i: usize = 0;
    while i < path.len()
        invariant
            i <= path.len(),
            out@.len() == i,
            forall|j: int| 0 <= j < i ==> out@[j] == path@[j] as i64,
        decreases path.len() - i,
    {
        out.push(path[i] as i64);
        i += 1;
    }
    assert(out@ =~= Seq::new(path@.len(), |i: int| path@[i] as i64));
    out
}

/// The used gas of an optional result as an Integer.
fn gas_used_integer(gas_used: Option<u128>) -> (out: Result<Option<i64>, TransformationErr>)
    ensures
        match gas_used_failure(gas_used) {
            Some(e) => out is Err && out->Err_0@ == e,
            None => out is Ok && match gas_used {
                Some(gas) => out->Ok_0 == Some(gas as i64),
                None => out->Ok_0 is None,
            },
        },
{
    match gas_used {
        Some(gas) => match u128_integer(gas, "gas_used") {
            Ok(n) => Ok(Some(n)),
            Err(err) => Err(err),
        },
        None => Ok(None),
    }
}

/// The action of a creation.
fn transform_creation(action: &TxTraceActionCreate) -> (out: Result<TraceAction, TransformationErr>)
    ensures
        match u128_failure(action.gas, "gas"@) {
            Some(e) => out is Err && out->Err_0@ == e,
            None => out is Ok && action_is(out->Ok_0, creation_action(*action)),
        },
{
    let gas = match u128_integer(action.gas, "gas") {
        Ok(gas) => gas,
        Err(err) => {
            return Err(err);
        },
    };
    let value = U256::from_u128(action.value);
    let mut out = empty_action();
    out.from_address = Some(address_text(&action.from));
    out.gas = Some(gas);
    out.value = Some(cap_bignumeric(&value));
    out.value_lossless = Some(value.to_decimal());
    out.init = Some(action.init.clone());
    Ok(out)
}

fn transform_call<T: DebugExtraction>(extracted: &T, call: &TxTraceCall, index: usize) -> (out:
    Result<Trace, TransformationErr>)
    ensures
        match trace_failure(TxTrace::Call(*call)) {
            Some(e) => out is Err && out->Err_0@ == e,
            None => out is Ok && is_trace_record(
                extracted,
                TxTrace::Call(*call),
                index as int,
                out->Ok_0,
            ),
        },
{
    let gas = match u128_integer(call.action.gas, "gas") {
        Ok(gas) => gas,
        Err(err) => {
            return Err(err);
        },
    };
    let value = match U256::from_hex(trim_0x(call.action.value.as_str())) {
        Some(num) => num,
        None => {
            return Err(TransformationErr::missing("Failed to parse number", "value"));
        },
    };
    let gas_used = match gas_used_integer(
        match &call.result {
            Some(res) => Some(res.gas_used),
            None => None,
        },
    ) {
        Ok(gas_used) => gas_used,
        Err(err) => {
            return Err(err);
        },
    };
    let result = match &call.result {
        Some(res) => Some(
            TraceResult { gas_used, output: Some(res.output.clone()), address: None, code: None },
        ),
        None => None,
    };
    let mut action = empty_action();
    action.from_address = Some(address_text(&call.action.from));
    action.to_address = Some(address_text(&call.action.to));
    action.call_type = Some(call.action.call_type.clone());
    action.gas = Some(gas);
    action.input = Some(call.action.input.clone());
    action.value = Some(cap_bignumeric(&value));
    action.value_lossless = Some(value.to_decimal());
    Ok(
        Trace {
            block_hash: fixed_bytes_text(&call.block_hash),
            block_number: extracted.block_number(),
            block_timestamp: extracted.block_timestamp() as u64,
            transaction_hash: Some(fixed_bytes_text(&call.transaction_hash)),
            transaction_index: Some(call.transaction_position as i64),
            trace_type: String::from_str("call"),
            trace_address: address_path(&call.trace_address),
            subtrace_count: call.subtraces as i64,
            action,
            result,
            error: opt_text_copy(&call.error),
            trace_index: index as u64,
        },
    )
}

fn transform_reward<T: DebugExtraction>(extracted: &T, rwd: &TxTraceReward, index: usize) -> (out:
    Result<Trace, TransformationErr>)
    ensures
        match trace_failure(TxTrace::Reward(*rwd)) {
            Some(e) => out is Err && out->Err_0@ == e,
            None => out is Ok && is_trace_record(
                extracted,
                TxTrace::Reward(*rwd),
                index as int,
                out->Ok_0,
            ),
        },
{
    let gas_used = match gas_used_integer(
        match &rwd.result {
            Some(res) => Some(res.gas_used),
            None => None,
        },
    ) {
        Ok(gas_used) => gas_used,
        Err(err) => {
            return Err(err);
        },
    };
    let value = U256::from_u128(rwd.action.value);
    let mut action = empty_action();
    action.value = Some(cap_bignumeric(&value));
    action.value_lossless = Some(value.to_decimal());
    action.reward_type = Some(rwd.action.reward_type.clone());
    action.author = Some(address_text(&rwd.action.author));
    Ok(
        Trace {
            block_hash: fixed_bytes_text(&rwd.block_hash),
            block_number: extracted.block_number(),
            block_timestamp: extracted.block_timestamp() as u64,
            transaction_hash: None,
            transaction_index: None,
            trace_type: String::from_str("reward"),
            trace_address: address_path(&rwd.trace_address),
            subtrace_count: rwd.subtraces as i64,
            action,
            result: match &rwd.result {
                Some(res) => Some(
                    TraceResult {
                        gas_used,
                        output: Some(res.output.clone()),
                        address: None,
                        code: None,
                    },
                ),
                None => None,
            },
            error: opt_text_copy(&rwd.error),
            trace_index: index as u64,
        },
    )
}

fn transform_suicide<T: DebugExtraction>(extracted: &T, suicide: &TxTraceSuicide, index: usize)
    -> (out: Trace)
    ensures
        is_trace_record(extracted, TxTrace::Suicide(*suicide), index as int, out),
{
    let balance = U256::from_u128(suicide.action.balance);
    let mut action = empty_action();
    action.refund_address = opt_address_text(&suicide.action.refund_address);
    action.refund_balance = Some(cap_bignumeric(&balance));
    action.refund_balance_lossless = Some(balance.to_decimal());
    action.self_destructed_address = Some(address_text(&suicide.action.self_destructed_address));
    Trace {
        block_hash: fixed_bytes_text(&suicide.block_hash),
        block_number: extracted.block_number(),
        block_timestamp: extracted.block_timestamp() as u64,
        transaction_hash: Some(fixed_bytes_text(&suicide.transaction_hash)),
        transaction_index: Some(suicide.transaction_position as i64),
        trace_type: String::from_str("suicide"),
        trace_address: address_path(&suicide.trace_address),
        subtrace_count: suicide.subtraces as i64,
        action,
        result: None,
        error: opt_text_copy(&suicide.error),
        trace_index: index as u64,
    }
}

fn transform_create<T: DebugExtraction>(extracted: &T, create: &TxTraceCreate, index: usize) -> (out:
    Result<Trace, TransformationErr>)
    ensures
        match trace_failure(TxTrace::Create(*create)) {
            Some(e) => out is Err && out->Err_0@ == e,
            None => out is Ok && is_trace_record(
                extracted,
                TxTrace::Create(*create),
                index as int,
                out->Ok_0,
            ),
        },
{
    let action = match transform_creation(&create.action) {
        Ok(action) => action,
        Err(err) => {
            return Err(err);
        },
    };
    let gas_used = match gas_used_integer(
        match &create.result {
            Some(res) => Some(res.gas_used),
            None => None,
        },
    ) {
        Ok(gas_used) => gas_used,
        Err(err) => {
            return Err(err);
        },
    };
    let trace_address: Vec<i64> = Vec::new();
    assert(trace_address@ =~= Seq::new(0, |i: int| Seq::<u64>::empty()[i] as i64));
    Ok(
        Trace {
            block_hash: fixed_bytes_text(&create.block_hash),
            block_number: extracted.block_number(),
            block_timestamp: extracted.block_timestamp() as u64,
            transaction_hash: Some(fixed_bytes_text(&create.transaction_hash)),
            transaction_index: Some(create.transaction_position as i64),
            trace_type: String::from_str("create"),
            trace_address,
            subtrace_count: create.subtraces as i64,
            action,
            result: match &create.result {
                Some(res) => Some(
                    TraceResult {
                        gas_used,
                        output: None,
                        address: Some(address_text(&res.address)),
                        code: Some(res.code.clone()),
                    },
                ),
                None => None,
            },
            error: opt_text_copy(&create.error),
            trace_index: index as u64,
        },
    )
}

fn transform_empty<T: DebugExtraction>(extracted: &T, empty: &TxTraceEmpty, index: usize) -> (out:
    Result<Trace, TransformationErr>)
    ensures
        match trace_failure(TxTrace::Empty(*empty)) {
            Some(e) => out is Err && out->Err_0@ == e,
            None => out is Ok && is_trace_record(
                extracted,
                TxTrace::Empty(*empty),
                index as int,
                out->Ok_0,
            ),
        },
{
    let action = match transform_creation(&empty.action) {
        Ok(action) => action,
        Err(err) => {
            return Err(err);
        },
    };
    let gas_used = match gas_used_integer(
        match &empty.result {
            Some(res) => Some(res.gas_used),
            None => None,
        },
    ) {
        Ok(gas_used) => gas_used,
        Err(err) => {
            return Err(err);
        },
    };
    let trace_address: Vec<i64> = Vec::new();
    assert(trace_address@ =~= Seq::new(0, |i: int| Seq::<u64>::empty()[i] as i64));
    Ok(
        Trace {
            block_hash: fixed_bytes_text(&empty.block_hash),
            block_number: extracted.block_number(),
            block_timestamp: extracted.block_timestamp() as u64,
            transaction_hash: Some(fixed_bytes_text(&empty.transaction_hash)),
            transaction_index: Some(empty.transaction_position as i64),
            trace_type: String::from_str("empty"),
            trace_address,
            subtrace_count: empty.subtraces as i64,
            action,
            result: match &empty.result {
                Some(res) => Some(
                    TraceResult { gas_used, output: None, address: None, code: None },
                ),
                None => None,
            },
            error: opt_text_copy(&empty.error),
            trace_index: index as u64,
        },
    )
}

/// The record of the trace that stands at `index` among the traces.
pub fn transform_trace<T: DebugExtraction>(extracted: &T, trace: &TxTrace, index: usize) -> (out:
    Result<Trace, TransformationErr>)
    ensures
        match trace_failure(*trace) {
            Some(e) => out is Err && out->Err_0@ == e,
            None => out is Ok && is_trace_record(extracted, *trace, index as int, out->Ok_0),
        },
{
    match trace {
        TxTrace::Call(call) => transform_call(extracted, call, index),
        TxTrace::Reward(rwd) => transform_reward(extracted, rwd, index),
        TxTrace::Suicide(suicide) => Ok(transform_suicide(extracted, suicide, index)),
        TxTrace::Create(create) => transform_create(extracted, create, index),
        TxTrace::Empty(empty) => transform_empty(extracted, empty, index),
    }
}

/// Counts one more trace at a position.
fn count_trace(counts: &mut TraceCounts, position: Option<u64>, Ghost(before): Ghost<Seq<TxTrace>>, Ghost(trace): Ghost<TxTrace>)
    requires
        old(counts).counts(before),
        trace.tx_position() == position,
        before.len() < usize::MAX,
    ensures
        final(counts).counts(before.push(trace)),
{
    let ghost after = before.push(trace);
    proof {
        assert(after.drop_last() =~= before);
        lemma_count_at_bound(before, position);
    }
    match position {
        None => {
            counts.unattached = counts.unattached + 1;
        },
        Some(k) => {
            let current: u64 = match counts.by_position.get(&k) {
                Some(value) => *value,
                None => 0,
            };
            counts.by_position.insert(k, current + 1);
        },
    }
    proof {
        assert forall|k: u64| #[trigger]
            counts.by_position@.contains_key(k) <==> count_at(after, Some(k)) > 0 by {
            assert(old(counts).by_position@.contains_key(k) <==> count_at(before, Some(k)) > 0);
        }
        assert forall|k: u64| #[trigger] counts.by_position@.contains_key(k) implies
            counts.by_position@[k] == count_at(after, Some(k)) by {
            assert(old(counts).by_position@.contains_key(k) <==> count_at(before, Some(k)) > 0);
        }
    }
}

/// Why the pass over the traces fails: the first trace that has no record,
/// where records are asked for. None where the pass succeeds.
pub open spec fn traces_failure<T: DebugExtraction>(extracted: &T, incl_traces: bool) -> Option<
    TransformationErrView,
> {
    if incl_traces {
        first_failure(trace_failures(extracted.trace_seq()))
    } else {
        None
    }
}

/// Whether the outcome of the pass over the traces is what the inputs ask for.
pub open spec fn is_traces_outcome<T: DebugExtraction>(
    extracted: &T,
    incl_traces: bool,
    incl_count: bool,
    incl_pertx_count: bool,
    out: Result<(Option<Vec<Trace>>, Option<usize>, Option<TraceCounts>), ExtractTransformErr>,
) -> bool {
    let traces = extracted.trace_seq();
    match traces_failure(extracted, incl_traces) {
        Some(e) => out is Err && out->Err_0.transformation() == Some(e),
        None => {
            &&& out is Ok
            &&& out->Ok_0.0 is Some <==> incl_traces
            &&& incl_traces ==> out->Ok_0.0->0@.len() == traces.len() && forall|i: int|
                0 <= i < traces.len() ==> is_trace_record(
                    extracted,
                    traces[i],
                    i,
                    #[trigger] out->Ok_0.0->0@[i],
                )
            &&& out->Ok_0.1 == if incl_count {
                Some(traces.len() as usize)
            } else {
                None
            }
            &&& out->Ok_0.2 is Some <==> incl_pertx_count
            &&& incl_pertx_count ==> out->Ok_0.2->0.counts(traces)
        },
    }
}

/// One pass over the traces of a block, with three outputs that are asked for
/// independently: the trace records, the number of traces, and the number of
/// traces per transaction.
pub fn transform_traces<T: DebugExtraction>(
    extracted: &T,
    incl_traces: bool,
    incl_count: bool,
    incl_pertx_count: bool,
) -> (out: Result<(Option<Vec<Trace>>, Option<usize>, Option<TraceCounts>), ExtractTransformErr>)
    ensures
        is_traces_outcome(extracted, incl_traces, incl_count, incl_pertx_count, out),
{
    let traces = extracted.traces();
    let count: Option<usize> = if incl_count {
        Some(traces.len())
    } else {
        None
    };
    let ghost failures = trace_failures(traces@);
    let mut pertx = TraceCounts { unattached: 0, by_position: HashMap::new() };
    let mut records: Vec<Trace> = Vec::new();
    let mut trace_index: usize = 0;
    while trace_index < traces.len()
        invariant
            trace_index <= traces.len(),
            traces@ == extracted.trace_seq(),
            failures == trace_failures(traces@),
            incl_pertx_count ==> pertx.counts(traces@.take(trace_index as int)),
            incl_traces ==> records@.len() == trace_index,
            incl_traces ==> forall|j: int| 0 <= j < trace_index ==> failures[j] is None,
            forall|j: int|
                0 <= j < records@.len() ==> is_trace_record(
                    extracted,
                    traces@[j],
                    j,
                    #[trigger] records@[j],
                ),
        decreases traces.len() - trace_index,
    {
        let trace = &traces[trace_index];
        proof {
            assert(traces@.take(trace_index + 1) =~= traces@.take(trace_index as int).push(*trace));
            assert(failures[trace_index as int] == trace_failure(*trace));
        }
        if incl_pertx_count {
            let (_, txpos) = trace.get_tx_info();
            count_trace(
                &mut pertx,
                txpos,
                Ghost(traces@.take(trace_index as int)),
                Ghost(*trace),
            );
        }
        if incl_traces {
            match transform_trace(extracted, trace, trace_index) {
                Ok(record) => {
                    records.push(record);
                },
                Err(err) => {
                    proof {
                        lemma_first_failure(failures, trace_index as int);
                    }
                    return Err(ExtractTransformErr::Transformation(err));
                },
            }
        }
        trace_index += 1;
    }
    proof {
        assert(traces@.take(trace_index as int) =~= traces@);
        if incl_traces {
            lemma_no_failure(failures);
        }
    }
    let records_out = if incl_traces {
        Some(records)
    } else {
        None
    };
    let pertx_out = if incl_pertx_count {
        Some(pertx)
    } else {
        None
    };
    Ok((records_out, count, pertx_out))
}

} // verus!
