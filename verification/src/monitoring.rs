//! Counters of what the system did.

use vstd::prelude::*;
use crate::clock::{now, Timestamp};

verus! {

/// Counts requests, errors and provider calls. Each counter starts again
/// from zero once it has passed the largest 64-bit number.
#[derive(Debug)]
pub struct MetricsCollector {
    pub request_count: u64,
    pub error_count: u64,
    pub processing_time_total: u64,
    pub embedding_calls: u64,
    pub rerank_calls: u64,
    pub llm_calls: u64,
    pub vector_searches: u64,
}

/// The counters at one moment.
#[derive(Debug, Clone)]
pub struct SystemMetrics {
    pub request_count: u64,
    pub error_count: u64,
    /// The milliseconds that all requests took together; divided by
    /// `request_count` it is the average time of a request.
    pub processing_time_total_ms: u64,
    pub embedding_calls: u64,
    pub rerank_calls: u64,
    pub llm_calls: u64,
    pub vector_searches: u64,
    pub timestamp: Timestamp,
}

/// `a + b`, starting again from zero past the largest 64-bit number.
pub open spec fn wrapped_sum(a: u64, b: u64) -> u64 {
    if a + b > u64::MAX {
        (a + b - u64::MAX - 1) as u64
    } else {
        (a + b) as u64
    }
}

impl MetricsCollector {
    /// A collector with every counter at zero.
    pub fn new() -> (collector: Self)
        ensures
            collector == (MetricsCollector {
                request_count: 0,
                error_count: 0,
                processing_time_total: 0,
                embedding_calls: 0,
                rerank_calls: 0,
                llm_calls: 0,
                vector_searches: 0,
            }),
    {
        MetricsCollector {
            request_count: 0,
            error_count: 0,
            processing_time_total: 0,
            embedding_calls: 0,
            rerank_calls: 0,
            llm_calls: 0,
            vector_searches: 0,
        }
    }

    /// Counts one request that took `processing_time_ms`.
    pub fn record_request(&mut self, processing_time_ms: u64)
        ensures
            *final(self) == (MetricsCollector {
                request_count: wrapped_sum(old(self).request_count, 1),
                processing_time_total: wrapped_sum(
                    old(self).processing_time_total,
                    processing_time_ms,
                ),
                ..*old(self)
            }),
    {
        self.request_count = self.request_count.wrapping_add(1);
        self.processing_time_total = self.processing_time_total.wrapping_add(processing_time_ms);
    }

    /// Counts one error.
    pub fn record_error(&mut self)
        ensures
            *final(self) == (MetricsCollector {
                error_count: wrapped_sum(old(self).error_count, 1),
                ..*old(self)
            }),
    {
        self.error_count = self.error_count.wrapping_add(1);
    }

    /// Counts one call of the embedding provider.
    pub fn record_embedding_call(&mut self)
        ensures
            *final(self) == (MetricsCollector {
                embedding_calls: wrapped_sum(old(self).embedding_calls, 1),
                ..*old(self)
            }),
    {
        self.embedding_calls = self.embedding_calls.wrapping_add(1);
    }

    /// Counts one call of the rerank provider.
    pub fn record_rerank_call(&mut self)
        ensures
            *final(self) == (MetricsCollector {
                rerank_calls: wrapped_sum(old(self).rerank_calls, 1),
                ..*old(self)
            }),
    {
        self.rerank_calls = self.rerank_calls.wrapping_add(1);
    }

    /// Counts one call of the generation provider.
    pub fn record_llm_call(&mut self)
        ensures
            *final(self) == (MetricsCollector {
                llm_calls: wrapped_sum(old(self).llm_calls, 1),
                ..*old(self)
            }),
    {
        self.llm_calls = self.llm_calls.wrapping_add(1);
    }

    /// Counts one search of the vector store.
    pub fn record_vector_search(&mut self)
        ensures
            *final(self) == (MetricsCollector {
                vector_searches: wrapped_sum(old(self).vector_searches, 1),
                ..*old(self)
            }),
    {
        self.vector_searches = self.vector_searches.wrapping_add(1);
    }

    /// The counters, as of the moment `at`.
    pub open spec fn snapshot(&self, at: Timestamp) -> SystemMetrics {
        SystemMetrics {
            request_count: self.request_count,
            error_count: self.error_count,
            processing_time_total_ms: self.processing_time_total,
            embedding_calls: self.embedding_calls,
            rerank_calls: self.rerank_calls,
            llm_calls: self.llm_calls,
            vector_searches: self.vector_searches,
            timestamp: at,
        }
    }

    /// The counters as of the moment `at`.
    pub fn metrics_at(&self, at: Timestamp) -> (metrics: SystemMetrics)
        ensures
            metrics == self.snapshot(at),
    {
        SystemMetrics {
            request_count: self.request_count,
            error_count: self.error_count,
            processing_time_total_ms: self.processing_time_total,
            embedding_calls: self.embedding_calls,
            rerank_calls: self.rerank_calls,
            llm_calls: self.llm_calls,
            vector_searches: self.vector_searches,
            timestamp: at,
        }
    }

    /// The counters as of the present moment.
    pub fn get_metrics(&self) -> (metrics: SystemMetrics)
        ensures
            metrics == self.snapshot(metrics.timestamp),
    {
        self.metrics_at(now())
    }

    /// Sets every counter back to zero.
    pub fn reset(&mut self)
        ensures
            *final(self) == (MetricsCollector {
                request_count: 0,
                error_count: 0,
                processing_time_total: 0,
                embedding_calls: 0,
                rerank_calls: 0,
                llm_calls: 0,
                vector_searches: 0,
            }),
    {
        self.request_count = 0;
        self.error_count = 0;
        self.processing_time_total = 0;
        self.embedding_calls = 0;
        self.rerank_calls = 0;
        self.llm_calls = 0;
        self.vector_searches = 0;
    }
}

impl Default for MetricsCollector {
    fn default() -> (collector: Self)
        ensures
            collector.request_count == 0,
            collector.error_count == 0,
            collector.processing_time_total == 0,
            collector.embedding_calls == 0,
            collector.rerank_calls == 0,
            collector.llm_calls == 0,
            collector.vector_searches == 0,
    {
        MetricsCollector::new()
    }
}

} // verus!
