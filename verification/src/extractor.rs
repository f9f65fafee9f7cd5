//! The extractor: a provider of chain data with the counters of its requests.

use vstd::prelude::*;
use crate::retry::RetryStep;

verus! {

/// The counters of an extractor.
#[derive(Debug, Clone, Copy, PartialEq, Eq, Structural)]
pub struct Metrics {
    /// Total number of requests (successful and failed).
    pub request_count: u64,
    /// Total number of failed requests.
    pub failed_request_count: u64,
}

/// One more than a counter, or the counter itself at its end.
pub open spec fn bumped(counter: u64) -> u64 {
    if counter < u64::MAX {
        (counter + 1) as u64
    } else {
        counter
    }
}

/// Something that extracts through a provider.
pub trait Extractor<P> {
    /// The provider behind the extractor.
    spec fn provider_of(&self) -> P;

    /// Return the underlying provider used for data extraction.
    fn provider(&self) -> (out: &P)
        ensures
            *out == self.provider_of(),
    ;
}

/// An extractor for EVM-compatible chains.
pub struct EthExtractor<P> {
    provider: P,
    metrics: Option<Metrics>,
}

impl<P> EthExtractor<P> {
    /// The counters, where the extractor keeps any.
    pub closed spec fn counters(&self) -> Option<Metrics> {
        self.metrics
    }

    /// An extractor that keeps no counters.
    pub fn new(provider: P) -> (out: Self)
        ensures
            out.provider_of() == provider,
            out.counters() is None,
    {
        EthExtractor { provider, metrics: None }
    }

    /// An extractor that goes on from the given counters.
    pub fn new_with_metrics(provider: P, metrics: Option<Metrics>) -> (out: Self)
        ensures
            out.provider_of() == provider,
            out.counters() == metrics,
    {
        EthExtractor { provider, metrics }
    }

    /// The counters, where the extractor keeps any.
    pub fn metrics(&self) -> (out: Option<Metrics>)
        ensures
            out == self.counters(),
    {
        self.metrics
    }

    /// Counts one request.
    pub fn incr_request(&mut self)
        ensures
            final(self).provider_of() == old(self).provider_of(),
            final(self).counters() == match old(self).counters() {
                Some(m) => Some(Metrics { request_count: bumped(m.request_count), ..m }),
                None => None,
            },
    {
        match self.metrics {
            Some(m) => {
                let request_count = if m.request_count < u64::MAX {
                    m.request_count + 1
                } else {
                    m.request_count
                };
                self.metrics = Some(
                    Metrics { request_count, failed_request_count: m.failed_request_count },
                );
            },
            None => {},
        }
    }

    /// Counts one failed request.
    pub fn incr_fails(&mut self)
        ensures
            final(self).provider_of() == old(self).provider_of(),
            final(self).counters() == match old(self).counters() {
                Some(m) => Some(
                    Metrics { failed_request_count: bumped(m.failed_request_count), ..m },
                ),
                None => None,
            },
    {
        match self.metrics {
            Some(m) => {
                let failed_request_count = if m.failed_request_count < u64::MAX {
                    m.failed_request_count + 1
                } else {
                    m.failed_request_count
                };
                self.metrics = Some(
                    Metrics { request_count: m.request_count, failed_request_count },
                );
            },
            None => {},
        }
    }

    /// Counts one try of a call: always as a request, and as a failed one
    /// where the step after it says so.
    pub fn count_attempt(&mut self, step: &RetryStep)
        ensures
            final(self).provider_of() == old(self).provider_of(),
            final(self).counters() == match old(self).counters() {
                Some(m) => Some(
                    Metrics {
                        request_count: bumped(m.request_count),
                        failed_request_count: if step.failed {
                            bumped(m.failed_request_count)
                        } else {
                            m.failed_request_count
                        },
                    },
                ),
                None => None,
            },
    {
        self.incr_request();
        if step.failed {
            self.incr_fails();
        }
    }
}

impl<P> Extractor<P> for EthExtractor<P> {
    closed spec fn provider_of(&self) -> P {
        self.provider
    }

    fn provider(&self) -> (out: &P) {
        &self.provider
    }
}

} // verus!
