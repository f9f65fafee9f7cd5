//! Publishing the records of a block: the order of the six tables, the label
//! and the times of each batch, and the rules that a message-bus sink follows
//! (chunks of bounded size, a growing pause after each failure). The sinks
//! themselves are the caller's.

use vstd::prelude::*;
use crate::records::PerBlockRecords;
use crate::text::{decimal, u128_text};

verus! {

/// The six tables that records are published to.
#[derive(Debug, Clone, Copy, PartialEq, Eq, Structural)]
pub enum Table {
    Blocks,
    DecodedEvents,
    Logs,
    Receipts,
    Transactions,
    Traces,
}

impl Table {
    /// The key of the setting that names the sink of the table.
    pub open spec fn env_key(&self) -> Seq<char> {
        match self {
            Table::Blocks => "QUEUE_NAME_BLOCKS"@,
            Table::DecodedEvents => "QUEUE_NAME_DECODED_EVENTS"@,
            Table::Logs => "QUEUE_NAME_LOGS"@,
            Table::Receipts => "QUEUE_NAME_RECEIPTS"@,
            Table::Transactions => "QUEUE_NAME_TRANSACTIONS"@,
            Table::Traces => "QUEUE_NAME_TRACES"@,
        }
    }

    /// The key of the setting that names the sink of the table.
    pub fn queue_env_key(&self) -> (out: &'static str)
        ensures
            out@ == self.env_key(),
    {
        match self {
            Table::Blocks => "QUEUE_NAME_BLOCKS",
            Table::DecodedEvents => "QUEUE_NAME_DECODED_EVENTS",
            Table::Logs => "QUEUE_NAME_LOGS",
            Table::Receipts => "QUEUE_NAME_RECEIPTS",
            Table::Transactions => "QUEUE_NAME_TRANSACTIONS",
            Table::Traces => "QUEUE_NAME_TRACES",
        }
    }
}

/// One publisher per table.
#[derive(Debug, Clone)]
pub struct StreamPublisher<P> {
    pub blocks: P,
    pub decoded_events: P,
    pub logs: P,
    pub receipts: P,
    pub transactions: P,
    pub traces: P,
}

impl<P> StreamPublisher<P> {
    /// The publisher of a table.
    pub open spec fn of(&self, table: Table) -> P {
        match table {
            Table::Blocks => self.blocks,
            Table::DecodedEvents => self.decoded_events,
            Table::Logs => self.logs,
            Table::Receipts => self.receipts,
            Table::Transactions => self.transactions,
            Table::Traces => self.traces,
        }
    }

    /// The publisher of a table.
    pub fn connection(&self, table: Table) -> (out: &P)
        ensures
            *out == self.of(table),
    {
        match table {
            Table::Blocks => &self.blocks,
            Table::DecodedEvents => &self.decoded_events,
            Table::Logs => &self.logs,
            Table::Receipts => &self.receipts,
            Table::Transactions => &self.transactions,
            Table::Traces => &self.traces,
        }
    }
}

/// One batch to publish: the table, the label of the batch, and the block
/// time of each record of the batch. The records are those of the table in
/// the bundle.
#[derive(Debug, Clone, PartialEq)]
pub struct PublishStep {
    pub table: Table,
    pub name: String,
    pub timestamps: Vec<i64>,
}

/// The mathematical form of a `PublishStep`.
pub struct PublishStepView {
    pub table: Table,
    pub name: Seq<char>,
    pub timestamps: Seq<i64>,
}

impl View for PublishStep {
    type V = PublishStepView;

    open spec fn view(&self) -> PublishStepView {
        PublishStepView { table: self.table, name: self.name@, timestamps: self.timestamps@ }
    }
}

/// The batch of a table, where the bundle has the table; no batch else.
pub open spec fn batch(present: bool, table: Table, block_number: u64, timestamps: Seq<i64>)
    -> Seq<PublishStepView> {
    if present {
        seq![PublishStepView { table, name: decimal(block_number as nat), timestamps }]
    } else {
        Seq::empty()
    }
}

/// The batches of a bundle in the order in which they are published: block,
/// decoded events, logs, receipts, transactions, traces. Each is labelled with
/// the number of the block.
pub open spec fn fan_out(records: PerBlockRecords) -> Seq<PublishStepView> {
    let n = records.block_number;
    batch(records.block is Some, Table::Blocks, n, seq![records.block->0.block_timestamp]) + batch(
        records.events is Some,
        Table::DecodedEvents,
        n,
        Seq::new(records.events->0@.len(), |i: int| records.events->0@[i].block_timestamp),
    ) + batch(
        records.logs is Some,
        Table::Logs,
        n,
        Seq::new(records.logs->0@.len(), |i: int| records.logs->0@[i].block_timestamp),
    ) + batch(
        records.receipts is Some,
        Table::Receipts,
        n,
        Seq::new(records.receipts->0@.len(), |i: int| records.receipts->0@[i].block_timestamp),
    ) + batch(
        records.transactions is Some,
        Table::Transactions,
        n,
        Seq::new(
            records.transactions->0@.len(),
            |i: int| records.transactions->0@[i].block_timestamp,
        ),
    ) + batch(
        records.traces is Some,
        Table::Traces,
        n,
        Seq::new(records.traces->0@.len(), |i: int| records.traces->0@[i].block_timestamp as i64),
    )
}

/// The views of a list of steps, in order.
pub open spec fn steps_view(steps: Seq<PublishStep>) -> Seq<PublishStepView> {
    Seq::new(steps.len(), |i: int| steps[i]@)
}

/// Adds the batch of a table to the steps.
fn push_step(steps: &mut Vec<PublishStep>, table: Table, block_number: u64, timestamps: Vec<i64>)
    ensures
        steps_view(final(steps)@) == steps_view(old(steps)@) + batch(
            true,
            table,
            block_number,
            timestamps@,
        ),
{
    let step = PublishStep { table, name: u128_text(block_number as u128), timestamps };
    steps.push(step);
    assert(steps_view(steps@) =~= steps_view(old(steps)@) + batch(
        true,
        table,
        block_number,
        timestamps@,
    ));
}

/// The batches to publish for the records of one block, in order.
pub fn publish_perblock_records(perblock: &PerBlockRecords) -> (out: Vec<PublishStep>)
    ensures
        steps_view(out@) == fan_out(*perblock),
{
    let n = perblock.block_number;
    let mut steps: Vec<PublishStep> = Vec::new();
    assert(steps_view(steps@) =~= Seq::empty());
    match &perblock.block {
        Some(block) => {
            let mut timestamps: Vec<i64> = Vec::new();
            timestamps.push(block.block_timestamp);
            assert(timestamps@ =~= seq![block.block_timestamp]);
            push_step(&mut steps, Table::Blocks, n, timestamps);
        },
        None => {},
    }
    let ghost s1 = steps_view(steps@);
    assert(s1 =~= batch(
        perblock.block is Some,
        Table::Blocks,
        n,
        seq![perblock.block->0.block_timestamp],
    ));
    match &perblock.events {
        Some(events) => {
            let mut timestamps: Vec<i64> = Vec::new();
            let mut i: usize = 0;
            while i < events.len()
                invariant
                    i <= events.len(),
                    timestamps@.len() == i,
                    forall|j: int| 0 <= j < i ==> timestamps@[j] == events@[j].block_timestamp,
                decreases events.len() - i,
            {
                timestamps.push(events[i].block_timestamp);
                i += 1;
            }
            assert(timestamps@ =~= Seq::new(events@.len(), |i: int| events@[i].block_timestamp));
            push_step(&mut steps, Table::DecodedEvents, n, timestamps);
        },
        None => {},
    }
    let ghost s2 = steps_view(steps@);
    assert(s2 =~= s1 + batch(
        perblock.events is Some,
        Table::DecodedEvents,
        n,
        Seq::new(perblock.events->0@.len(), |i: int| perblock.events->0@[i].block_timestamp),
    ));
    match &perblock.logs {
        Some(logs) => {
            let mut timestamps: Vec<i64> = Vec::new();
            let mut i: usize = 0;
            while i < logs.len()
                invariant
                    i <= logs.len(),
                    timestamps@.len() == i,
                    forall|j: int| 0 <= j < i ==> timestamps@[j] == logs@[j].block_timestamp,
                decreases logs.len() - i,
            {
                timestamps.push(logs[i].block_timestamp);
                i += 1;
            }
            assert(timestamps@ =~= Seq::new(logs@.len(), |i: int| logs@[i].block_timestamp));
            push_step(&mut steps, Table::Logs, n, timestamps);
        },
        None => {},
    }
    let ghost s3 = steps_view(steps@);
    assert(s3 =~= s2 + batch(
        perblock.logs is Some,
        Table::Logs,
        n,
        Seq::new(perblock.logs->0@.len(), |i: int| perblock.logs->0@[i].block_timestamp),
    ));
    match &perblock.receipts {
        Some(receipts) => {
            let mut timestamps: Vec<i64> = Vec::new();
            let mut i: usize = 0;
            while i < receipts.len()
                invariant
                    i <= receipts.len(),
                    timestamps@.len() == i,
                    forall|j: int| 0 <= j < i ==> timestamps@[j] == receipts@[j].block_timestamp,
                decreases receipts.len() - i,
            {
                timestamps.push(receipts[i].block_timestamp);
                i += 1;
            }
            assert(timestamps@ =~= Seq::new(
                receipts@.len(),
                |i: int| receipts@[i].block_timestamp,
            ));
            push_step(&mut steps, Table::Receipts, n, timestamps);
        },
        None => {},
    }
    let ghost s4 = steps_view(steps@);
    assert(s4 =~= s3 + batch(
        perblock.receipts is Some,
        Table::Receipts,
        n,
        Seq::new(perblock.receipts->0@.len(), |i: int| perblock.receipts->0@[i].block_timestamp),
    ));
    match &perblock.transactions {
        Some(txs) => {
            let mut timestamps: Vec<i64> = Vec::new();
            let mut i: usize = 0;
            while i < txs.len()
                invariant
                    i <= txs.len(),
                    timestamps@.len() == i,
                    forall|j: int| 0 <= j < i ==> timestamps@[j] == txs@[j].block_timestamp,
                decreases txs.len() - i,
            {
                timestamps.push(txs[i].block_timestamp);
                i += 1;
            }
            assert(timestamps@ =~= Seq::new(txs@.len(), |i: int| txs@[i].block_timestamp));
            push_step(&mut steps, Table::Transactions, n, timestamps);
        },
        None => {},
    }
    let ghost s5 = steps_view(steps@);
    assert(s5 =~= s4 + batch(
        perblock.transactions is Some,
        Table::Transactions,
        n,
        Seq::new(
            perblock.transactions->0@.len(),
            |i: int| perblock.transactions->0@[i].block_timestamp,
        ),
    ));
    match &perblock.traces {
        Some(traces) => {
            let mut timestamps: Vec<i64> = Vec::new();
            let mut i: usize = 0;
            while i < traces.len()
                invariant
                    i <= traces.len(),
                    timestamps@.len() == i,
                    forall|j: int|
                        0 <= j < i ==> timestamps@[j] == traces@[j].block_timestamp as i64,
                decreases traces.len() - i,
            {
                timestamps.push(traces[i].block_timestamp as i64);
                i += 1;
            }
            assert(timestamps@ =~= Seq::new(
                traces@.len(),
                |i: int| traces@[i].block_timestamp as i64,
            ));
            push_step(&mut steps, Table::Traces, n, timestamps);
        },
        None => {},
    }
    assert(steps_view(steps@) =~= s5 + batch(
        perblock.traces is Some,
        Table::Traces,
        n,
        Seq::new(perblock.traces->0@.len(), |i: int| perblock.traces->0@[i].block_timestamp as i64),
    ));
    steps
}

/// The most messages that go to a message bus in one batch.
pub const MAX_BATCH: usize = 900;

/// Where chunk `i` of `len` items starts and ends, the chunks being of `size`
/// items but for the last: from `i * size` up to `(i + 1) * size`, or to the
/// end of the items.
pub open spec fn chunk_of(len: usize, size: usize, i: int) -> (usize, usize) {
    (
        (i * size) as usize,
        if (i + 1) * size <= len {
            ((i + 1) * size) as usize
        } else {
            len
        },
    )
}

/// Cuts `len` items into chunks of at most `size`: each chunk is a pair of
/// where it starts and where it ends. The chunks follow one another and cover
/// all items; none is empty.
pub fn chunk_bounds(len: usize, size: usize) -> (out: Vec<(usize, usize)>)
    requires
        size > 0,
    ensures
        out@.len() * size >= len,
        out@.len() > 0 ==> (out@.len() - 1) * size < len,
        forall|i: int| 0 <= i < out@.len() ==> out@[i] == chunk_of(len, size, i),
{
    let mut out: Vec<(usize, usize)> = Vec::new();
    let mut start: usize = 0;
    assert(out@.len() * size == 0) by (nonlinear_arith)
        requires
            out@.len() == 0,
    ;
    while start < len
        invariant
            size > 0,
            start <= len,
            start < len ==> start == out@.len() * size,
            start == len ==> out@.len() * size >= len && (out@.len() > 0 ==> (out@.len() - 1)
                * size < len),
            forall|i: int| 0 <= i < out@.len() ==> out@[i] == chunk_of(len, size, i),
        decreases len - start,
    {
        let ghost k = out@.len() as int;
        let end = if len - start > size {
            start + size
        } else {
            len
        };
        proof {
            assert((k + 1) * size == k * size + size) by (nonlinear_arith);
            assert((k + 1 - 1) * size == k * size);
        }
        out.push((start, end));
        start = end;
    }
    out
}

/// Which messages of a batch to publish again one by one: those whose
/// publication failed, in the order of the batch. `published[i]` tells whether
/// message `i` went through.
pub fn failed_messages(published: &Vec<bool>) -> (out: Vec<usize>)
    ensures
        out@ == failed_positions(published@),
{
    let mut out: Vec<usize> = Vec::new();
    let mut i: usize = 0;
    while i < published.len()
        invariant
            i <= published.len(),
            out@ == failed_positions(published@.take(i as int)),
        decreases published.len() - i,
    {
        proof {
            assert(published@.take(i + 1).drop_last() =~= published@.take(i as int));
        }
        if !published[i] {
            out.push(i);
        }
        i += 1;
    }
    proof {
        assert(published@.take(i as int) =~= published@);
    }
    out
}

/// The positions of the messages that did not go through, in order.
pub open spec fn failed_positions(published: Seq<bool>) -> Seq<usize>
    decreases published.len(),
{
    if published.len() == 0 {
        Seq::empty()
    } else if published.last() {
        failed_positions(published.drop_last())
    } else {
        failed_positions(published.drop_last()).push((published.len() - 1) as usize)
    }
}

/// The pauses of a publisher that tries one message until it goes through.
#[derive(Debug, Clone, Copy, PartialEq, Eq, Structural)]
pub struct Backoff {
    pub failures: u64,
}

impl Backoff {
    /// Before the first try.
    pub fn new() -> (out: Self)
        ensures
            out.failures == 0,
    {
        Backoff { failures: 0 }
    }

    /// Counts one more failure and says how many seconds to pause before the
    /// next try: as many as there were failures, this one included.
    pub fn after_failure(&mut self) -> (seconds: u64)
        ensures
            final(self).failures == if old(self).failures < u64::MAX {
                (old(self).failures + 1) as u64
            } else {
                old(self).failures
            },
            seconds == final(self).failures,
    {
        if self.failures < u64::MAX {
            self.failures = self.failures + 1;
        }
        self.failures
    }
}

} // verus!
