//! Driving a range of blocks through the pipeline, and the handling of the
//! messages that ask for ranges. The caller extracts, publishes, pulls and
//! acknowledges; what follows from each outcome is decided here.

use vstd::prelude::*;
use crate::err::ExtractTransformErr;
use crate::request::IndexingRequest;

verus! {

/// The progress of one request: the block that comes next, and the blocks
/// that failed so far with their errors.
#[derive(Debug)]
pub struct RangeRun {
    next: Option<u64>,
    end: u64,
    errors: Vec<(u64, ExtractTransformErr)>,
}

impl RangeRun {
    /// The block that comes next; none once the range is through.
    pub closed spec fn upcoming(&self) -> Option<u64> {
        self.next
    }

    /// The last block of the range.
    pub closed spec fn last(&self) -> u64 {
        self.end
    }

    /// The blocks that failed so far, in the order of the range, each with
    /// its error.
    pub closed spec fn failures(&self) -> Seq<(u64, ExtractTransformErr)> {
        self.errors@
    }

    /// The block that comes next; none once the range is through.
    pub fn next_block(&self) -> (out: Option<u64>)
        ensures
            out == self.upcoming(),
    {
        self.next
    }

    /// Takes note of how the block that was next came out, and moves on to
    /// the block after it. A failed block does not end the range.
    pub fn record(&mut self, outcome: Result<(), ExtractTransformErr>)
        requires
            old(self).upcoming() is Some,
        ensures
            final(self).last() == old(self).last(),
            final(self).upcoming() == if old(self).upcoming()->0 < old(self).last() {
                Some((old(self).upcoming()->0 + 1) as u64)
            } else {
                None
            },
            final(self).failures() == match outcome {
                Ok(_) => old(self).failures(),
                Err(e) => old(self).failures().push((old(self).upcoming()->0, e)),
            },
    {
        let block_number = self.next.unwrap();
        match outcome {
            Ok(_) => {},
            Err(err) => {
                self.errors.push((block_number, err));
            },
        }
        self.next = if block_number < self.end {
            Some(block_number + 1)
        } else {
            None
        };
    }

    /// The outcome of the request: success exactly when no block failed, else
    /// all failed blocks.
    pub fn finish(self) -> (out: Result<(), Vec<(u64, ExtractTransformErr)>>)
        ensures
            out is Ok <==> self.failures().len() == 0,
            out is Err ==> out->Err_0@ == self.failures(),
    {
        if self.errors.len() == 0 {
            Ok(())
        } else {
            Err(self.errors)
        }
    }
}

/// Starts on a request: the blocks from `start` to `end`, both included, one
/// at a time and in this order. A request whose start lies behind its end has
/// no block.
pub fn extract_transform_range(request: &IndexingRequest) -> (out: RangeRun)
    ensures
        out.last() == request.end,
        out.failures().len() == 0,
        out.upcoming() == if request.start <= request.end {
            Some(request.start)
        } else {
            None
        },
{
    RangeRun {
        next: if request.start <= request.end {
            Some(request.start)
        } else {
            None
        },
        end: request.end,
        errors: Vec::new(),
    }
}

/// How pulling a message from the source came out.
#[derive(Debug, Clone, Copy, PartialEq, Eq, Structural)]
pub enum PullOutcome {
    /// A message was delivered.
    Message,
    /// The source had no message.
    Empty,
    /// The source could not be reached.
    Failed,
}

/// What to do with a message after its range was run.
#[derive(Debug, Clone, Copy, PartialEq, Eq, Structural)]
pub struct MessageVerdict {
    /// Acknowledge the message: it is done.
    pub ack: bool,
    /// Refuse the message, so that it is delivered again.
    pub nack: bool,
    /// Probe the endpoints again and take the one that answers.
    pub rebuild_provider: bool,
}

/// Whether the loop over the messages goes on: until shutdown was asked for.
/// The flag is looked at between messages only.
pub fn keep_running(terminated: bool) -> (out: bool)
    ensures
        out == !terminated,
{
    !terminated
}

/// Whether a pull delivered a message to work on; else the loop pulls again.
pub fn has_work(pulled: PullOutcome) -> (out: bool)
    ensures
        out == (pulled == PullOutcome::Message),
{
    match pulled {
        PullOutcome::Message => true,
        _ => false,
    }
}

/// What to do with a message whose range came out as `range`: acknowledge it
/// where no block failed; else refuse it and rebuild the provider.
pub fn subscribe_and_extract<E>(range: &Result<(), Vec<(u64, E)>>) -> (out: MessageVerdict)
    ensures
        out == (MessageVerdict {
            ack: range is Ok,
            nack: range is Err,
            rebuild_provider: range is Err,
        }),
{
    match range {
        Ok(_) => MessageVerdict { ack: true, nack: false, rebuild_provider: false },
        Err(_) => MessageVerdict { ack: false, nack: true, rebuild_provider: true },
    }
}

} // verus!
