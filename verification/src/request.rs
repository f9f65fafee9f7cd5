//! What to index: a block range and a selector of record kinds.

use vstd::prelude::*;
use vstd::std_specs::convert::FromSpecImpl;
use vstd::std_specs::convert::FromSpec;

verus! {

/// A range of blocks, both ends included, and one flag per record kind. Only
/// the kinds whose flag is set are produced.
#[derive(Debug, Clone, Copy, PartialEq, Eq)]
pub struct IndexingRequest {
    pub start: u64,
    pub end: u64,
    pub blocks: bool,
    pub transactions: bool,
    pub logs: bool,
    pub decoded_events: bool,
    pub receipts: bool,
    pub traces: bool,
}

/// A range of blocks, both ends included, where the selector is implied.
#[derive(Debug, Clone, Copy, PartialEq, Eq)]
pub struct SimpleIndexingRequest {
    pub start: u64,
    pub end: u64,
}

impl Default for IndexingRequest {
    fn default() -> (out: Self)
        ensures
            out == IndexingRequest::empty_selector(0, 0),
    {
        IndexingRequest {
            start: 0,
            end: 0,
            blocks: false,
            transactions: false,
            logs: false,
            decoded_events: false,
            receipts: false,
            traces: false,
        }
    }
}

impl IndexingRequest {
    /// The request for a range with no record kind selected.
    pub open spec fn empty_selector(start: u64, end: u64) -> IndexingRequest {
        IndexingRequest {
            start,
            end,
            blocks: false,
            transactions: false,
            logs: false,
            decoded_events: false,
            receipts: false,
            traces: false,
        }
    }

    /// Whether any record kind is selected.
    pub open spec fn selects_any(&self) -> bool {
        self.blocks || self.transactions || self.logs || self.decoded_events || self.receipts
            || self.traces
    }
}

impl From<IndexingRequest> for SimpleIndexingRequest {
    fn from(value: IndexingRequest) -> (out: Self) {
        SimpleIndexingRequest { start: value.start, end: value.end }
    }
}

impl FromSpecImpl<IndexingRequest> for SimpleIndexingRequest {
    open spec fn obeys_from_spec() -> bool {
        true
    }

    open spec fn from_spec(value: IndexingRequest) -> Self {
        SimpleIndexingRequest { start: value.start, end: value.end }
    }
}

impl From<SimpleIndexingRequest> for IndexingRequest {
    fn from(value: SimpleIndexingRequest) -> (out: Self) {
        IndexingRequest {
            start: value.start,
            end: value.end,
            blocks: false,
            transactions: false,
            logs: false,
            decoded_events: false,
            receipts: false,
            traces: false,
        }
    }
}

impl FromSpecImpl<SimpleIndexingRequest> for IndexingRequest {
    open spec fn obeys_from_spec() -> bool {
        true
    }

    open spec fn from_spec(value: SimpleIndexingRequest) -> Self {
        IndexingRequest::empty_selector(value.start, value.end)
    }
}

/// Going from a simple request to a full one and back gives the same range.
pub proof fn lemma_simple_request_round_trip(simple: SimpleIndexingRequest)
    ensures
        <SimpleIndexingRequest as FromSpec<IndexingRequest>>::from_spec(
            <IndexingRequest as FromSpec<SimpleIndexingRequest>>::from_spec(simple),
        ) == simple,
        !<IndexingRequest as FromSpec<SimpleIndexingRequest>>::from_spec(simple).selects_any(),
{
}

} // verus!
