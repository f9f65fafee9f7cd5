//! The traces of one block as the chain's trace API reports them: one tagged
//! variant per kind of trace.

use vstd::prelude::*;

verus! {

/// How a call was made.
#[derive(Debug, Clone, Copy, PartialEq, Eq, Structural)]
pub enum CallType {
    Call,
    DelegateCall,
    StaticCall,
    CallCode,
}

impl CallType {
    /// The lower-case name of the call type.
    pub open spec fn name(&self) -> Seq<char> {
        match self {
            CallType::Call => "call"@,
            CallType::DelegateCall => "delegatecall"@,
            CallType::StaticCall => "staticcall"@,
            CallType::CallCode => "callcode"@,
        }
    }

    /// The lower-case name of the call type.
    pub fn as_str(&self) -> (out: &'static str)
        ensures
            out@ == self.name(),
    {
        match self {
            CallType::Call => "call",
            CallType::DelegateCall => "delegatecall",
            CallType::StaticCall => "staticcall",
            CallType::CallCode => "callcode",
        }
    }
}

/// The kind of a trace.
#[derive(Debug, Clone, Copy, PartialEq, Eq, Structural)]
pub enum TraceType {
    Call,
    Create,
    Reward,
    Suicide,
    Empty,
}

impl TraceType {
    /// The lower-case name of the kind, as it stands in a trace record.
    pub open spec fn name(&self) -> Seq<char> {
        match self {
            TraceType::Call => "call"@,
            TraceType::Create => "create"@,
            TraceType::Reward => "reward"@,
            TraceType::Suicide => "suicide"@,
            TraceType::Empty => "empty"@,
        }
    }

    /// The lower-case name of the kind.
    pub fn as_str(&self) -> (out: &'static str)
        ensures
            out@ == self.name(),
    {
        match self {
            TraceType::Call => "call",
            TraceType::Create => "create",
            TraceType::Reward => "reward",
            TraceType::Suicide => "suicide",
            TraceType::Empty => "empty",
        }
    }
}

/// Whom a reward went to.
#[derive(Debug, Clone, Copy, PartialEq, Eq, Structural)]
pub enum RewardType {
    Block,
    Uncle,
}

impl RewardType {
    /// The lower-case name of the reward type.
    pub open spec fn name(&self) -> Seq<char> {
        match self {
            RewardType::Block => "block"@,
            RewardType::Uncle => "uncle"@,
        }
    }

    /// The lower-case name of the reward type.
    pub fn as_str(&self) -> (out: &'static str)
        ensures
            out@ == self.name(),
    {
        match self {
            RewardType::Block => "block",
            RewardType::Uncle => "uncle",
        }
    }
}

/// The action of a call. `value` is hex text, with or without `0x`.
#[derive(Debug, Clone, PartialEq)]
pub struct TxTraceActionCall {
    pub from: [u8; 20],
    pub call_type: String,
    pub gas: u128,
    pub input: String,
    pub to: [u8; 20],
    pub value: String,
}

/// The action of a reward.
#[derive(Debug, Clone, PartialEq)]
pub struct TxTraceActionReward {
    pub author: [u8; 20],
    pub reward_type: String,
    pub value: u128,
}

/// The action of a contract creation.
#[derive(Debug, Clone, PartialEq)]
pub struct TxTraceActionCreate {
    pub from: [u8; 20],
    pub value: u128,
    pub gas: u128,
    pub init: String,
}

/// The action of a self-destruct.
#[derive(Debug, Clone, PartialEq)]
pub struct TxTraceActionSuicide {
    pub refund_address: Option<[u8; 20]>,
    pub balance: u128,
    pub self_destructed_address: [u8; 20],
}

/// The result of a call or of a reward.
#[derive(Debug, Clone, PartialEq)]
pub struct TxTraceResult {
    pub gas_used: u128,
    pub output: String,
}

/// The result of a contract creation.
#[derive(Debug, Clone, PartialEq)]
pub struct TxTraceResultCreate {
    pub gas_used: u128,
    pub address: [u8; 20],
    pub code: String,
}

/// The result of an empty trace.
#[derive(Debug, Clone, Copy, PartialEq)]
pub struct TxTraceResultEmpty {
    pub gas_used: u128,
}

#[derive(Debug, Clone, PartialEq)]
pub struct TxTraceCall {
    pub action: TxTraceActionCall,
    pub block_hash: [u8; 32],
    pub block_number: u64,
    pub error: Option<String>,
    pub result: Option<TxTraceResult>,
    pub subtraces: u64,
    pub trace_address: Vec<u64>,
    pub transaction_hash: [u8; 32],
    pub transaction_position: u64,
}

/// A reward trace. One that belongs to the block and to no transaction has
/// neither a transaction hash nor a position.
#[derive(Debug, Clone, PartialEq)]
pub struct TxTraceReward {
    pub action: TxTraceActionReward,
    pub block_hash: [u8; 32],
    pub block_number: u64,
    pub error: Option<String>,
    pub result: Option<TxTraceResult>,
    pub subtraces: u64,
    pub trace_address: Vec<u64>,
    pub transaction_hash: Option<[u8; 32]>,
    pub transaction_position: Option<u64>,
}

#[derive(Debug, Clone, PartialEq)]
pub struct TxTraceSuicide {
    pub action: TxTraceActionSuicide,
    pub block_hash: [u8; 32],
    pub block_number: u64,
    pub error: Option<String>,
    pub subtraces: u64,
    pub trace_address: Vec<u64>,
    pub transaction_hash: [u8; 32],
    pub transaction_position: u64,
}

#[derive(Debug, Clone, PartialEq)]
pub struct TxTraceCreate {
    pub block_hash: [u8; 32],
    pub block_number: u64,
    pub action: TxTraceActionCreate,
    pub result: Option<TxTraceResultCreate>,
    pub error: Option<String>,
    pub subtraces: u64,
    pub transaction_position: u64,
    pub transaction_hash: [u8; 32],
}

#[derive(Debug, Clone, PartialEq)]
pub struct TxTraceEmpty {
    pub block_hash: [u8; 32],
    pub block_number: u64,
    pub action: TxTraceActionCreate,
    pub result: Option<TxTraceResultEmpty>,
    pub error: Option<String>,
    pub subtraces: u64,
    pub transaction_position: u64,
    pub transaction_hash: [u8; 32],
}

/// One node of the execution tree of a block.
#[derive(Debug, Clone, PartialEq)]
pub enum TxTrace {
    Call(TxTraceCall),
    Reward(TxTraceReward),
    Create(TxTraceCreate),
    Suicide(TxTraceSuicide),
    Empty(TxTraceEmpty),
}

impl TxTrace {
    /// The kind of the trace.
    pub open spec fn kind(&self) -> TraceType {
        match self {
            TxTrace::Call(_) => TraceType::Call,
            TxTrace::Reward(_) => TraceType::Reward,
            TxTrace::Create(_) => TraceType::Create,
            TxTrace::Suicide(_) => TraceType::Suicide,
            TxTrace::Empty(_) => TraceType::Empty,
        }
    }

    /// The hash of the transaction that the trace belongs to, if any.
    pub open spec fn tx_hash(&self) -> Option<[u8; 32]> {
        match self {
            TxTrace::Call(call) => Some(call.transaction_hash),
            TxTrace::Create(create) => Some(create.transaction_hash),
            TxTrace::Reward(reward) => reward.transaction_hash,
            TxTrace::Suicide(suicide) => Some(suicide.transaction_hash),
            TxTrace::Empty(empty) => Some(empty.transaction_hash),
        }
    }

    /// The position in the block of the transaction that the trace belongs to,
    /// if any.
    pub open spec fn tx_position(&self) -> Option<u64> {
        match self {
            TxTrace::Call(call) => Some(call.transaction_position),
            TxTrace::Create(create) => Some(create.transaction_position),
            TxTrace::Reward(reward) => reward.transaction_position,
            TxTrace::Suicide(suicide) => Some(suicide.transaction_position),
            TxTrace::Empty(empty) => Some(empty.transaction_position),
        }
    }

    /// The kind of the trace.
    pub fn trace_type(&self) -> (out: TraceType)
        ensures
            out == self.kind(),
    {
        match self {
            TxTrace::Call(_) => TraceType::Call,
            TxTrace::Reward(_) => TraceType::Reward,
            TxTrace::Create(_) => TraceType::Create,
            TxTrace::Suicide(_) => TraceType::Suicide,
            TxTrace::Empty(_) => TraceType::Empty,
        }
    }

    pub fn is_call(&self) -> (out: bool)
        ensures
            out == (self.kind() == TraceType::Call),
    {
        match self {
            TxTrace::Call(_) => true,
            _ => false,
        }
    }

    pub fn is_reward(&self) -> (out: bool)
        ensures
            out == (self.kind() == TraceType::Reward),
    {
        match self {
            TxTrace::Reward(_) => true,
            _ => false,
        }
    }

    pub fn is_create(&self) -> (out: bool)
        ensures
            out == (self.kind() == TraceType::Create),
    {
        match self {
            TxTrace::Create(_) => true,
            _ => false,
        }
    }

    pub fn is_suicide(&self) -> (out: bool)
        ensures
            out == (self.kind() == TraceType::Suicide),
    {
        match self {
            TxTrace::Suicide(_) => true,
            _ => false,
        }
    }

    /// The call inside a call trace.
    pub fn unwrap_call(self) -> (out: TxTraceCall)
        requires
            self is Call,
        ensures
            out == self->Call_0,
    {
        match self {
            TxTrace::Call(call) => call,
            _ => vstd::pervasive::unreached(),
        }
    }

    /// The reward inside a reward trace.
    pub fn unwrap_reward(self) -> (out: TxTraceReward)
        requires
            self is Reward,
        ensures
            out == self->Reward_0,
    {
        match self {
            TxTrace::Reward(reward) => reward,
            _ => vstd::pervasive::unreached(),
        }
    }

    /// The transaction that the trace belongs to: its hash and its position in
    /// the block, each where the trace has one.
    pub fn get_tx_info(&self) -> (out: (Option<[u8; 32]>, Option<u64>))
        ensures
            out == (self.tx_hash(), self.tx_position()),
    {
        match self {
            TxTrace::Call(call) => (Some(call.transaction_hash), Some(call.transaction_position)),
            TxTrace::Create(create) => (
                Some(create.transaction_hash),
                Some(create.transaction_position),
            ),
            TxTrace::Reward(reward) => (reward.transaction_hash, reward.transaction_position),
            TxTrace::Suicide(suicide) => (
                Some(suicide.transaction_hash),
                Some(suicide.transaction_position),
            ),
            TxTrace::Empty(empty) => (Some(empty.transaction_hash), Some(empty.transaction_position)),
        }
    }
}

/// What the trace extraction of one block holds.
pub trait DebugExtraction {
    spec fn number(&self) -> u64;

    spec fn hash(&self) -> Option<[u8; 32]>;

    spec fn timestamp(&self) -> i64;

    spec fn trace_seq(&self) -> Seq<TxTrace>;

    fn block_number(&self) -> (out: u64)
        ensures
            out == self.number(),
    ;

    fn block_hash(&self) -> (out: Option<[u8; 32]>)
        ensures
            out == self.hash(),
    ;

    fn block_timestamp(&self) -> (out: i64)
        ensures
            out == self.timestamp(),
    ;

    fn traces(&self) -> (out: &Vec<TxTrace>)
        ensures
            out@ == self.trace_seq(),
    ;
}

/// The traces of one block, in the order of the chain's answer. The traces of
/// block 0 are empty by definition.
#[derive(Debug, Clone, PartialEq)]
pub struct DebugTraces {
    pub block_number: u64,
    pub block_hash: Option<[u8; 32]>,
    pub block_timestamp: i64,
    pub traces: Vec<TxTrace>,
}

impl DebugExtraction for DebugTraces {
    open spec fn number(&self) -> u64 {
        self.block_number
    }

    open spec fn hash(&self) -> Option<[u8; 32]> {
        self.block_hash
    }

    open spec fn timestamp(&self) -> i64 {
        self.block_timestamp
    }

    open spec fn trace_seq(&self) -> Seq<TxTrace> {
        self.traces@
    }

    fn block_number(&self) -> (out: u64) {
        self.block_number
    }

    fn block_hash(&self) -> (out: Option<[u8; 32]>) {
        self.block_hash
    }

    fn block_timestamp(&self) -> (out: i64) {
        self.block_timestamp
    }

    fn traces(&self) -> (out: &Vec<TxTrace>) {
        &self.traces
    }
}

impl DebugTraces {
    /// The traces themselves.
    pub fn unwrap(self) -> (out: Vec<TxTrace>)
        ensures
            out == self.traces,
    {
        self.traces
    }

    /// The trace at a position, or nothing past the end.
    pub fn iter(&self, position: usize) -> (out: Option<&TxTrace>)
        ensures
            out == if position < self.traces@.len() {
                Some(&self.traces@[position as int])
            } else {
                None
            },
    {
        if position < self.traces.len() {
            Some(&self.traces[position])
        } else {
            None
        }
    }
}

} // verus!
