//! Batches: observations gathered from several calls and sent together.
use vstd::prelude::*;

use crate::counter::{BatchCounter, Counter};
use crate::gauge::{BatchGauge, Gauge};
use crate::histogram::{BatchHistogram, Histogram};
use crate::error::Result;
use crate::metric::Metric;
use crate::summary::{BatchSummary, Summary};

verus! {

/// Collects metrics from multiple operations without sending them to the socket.
/// All accumulated metrics are sent in a single write when the batch is handed over.
pub struct Batch {
    pub metrics: Vec<Metric>,
}

impl Batch {
    pub fn new() -> (b: Batch)
        ensures
            b.metrics@ == Seq::<Metric>::empty(),
    {
        Batch { metrics: Vec::new() }
    }

    /// Access a counter within the batch context.
    pub fn counter<'a>(&'a mut self, counter: &'a Counter) -> (r: BatchCounter<'a>)
        ensures
            r.0 == counter,
            *r.1 == old(self).metrics,
            final(self).metrics == *final(r.1),
    {
        BatchCounter(counter, &mut self.metrics)
    }

    /// Access a gauge within the batch context.
    pub fn gauge<'a>(&'a mut self, gauge: &'a Gauge) -> (r: BatchGauge<'a>)
        ensures
            r.0 == gauge,
            *r.1 == old(self).metrics,
            final(self).metrics == *final(r.1),
    {
        BatchGauge(gauge, &mut self.metrics)
    }

    /// Access a histogram within the batch context.
    pub fn histogram<'a>(&'a mut self, histogram: &'a Histogram) -> (r: BatchHistogram<'a>)
        ensures
            r.0 == histogram,
            *r.1 == old(self).metrics,
            final(self).metrics == *final(r.1),
    {
        BatchHistogram(histogram, &mut self.metrics)
    }

    /// Access a summary within the batch context.
    pub fn summary<'a>(&'a mut self, summary: &'a Summary) -> (r: BatchSummary<'a>)
        ensures
            r.0 == summary,
            *r.1 == old(self).metrics,
            final(self).metrics == *final(r.1),
    {
        BatchSummary(summary, &mut self.metrics)
    }

    /// Push a raw pre-built metric.
    pub fn push(&mut self, metric: Metric)
        ensures
            final(self).metrics@ == old(self).metrics@.push(metric),
    {
        self.metrics.push(metric);
    }
}

/// Runs `f` on a fresh batch and hands back everything it gathered, together with its result.
pub fn batch_result<F: FnOnce(&mut Batch) -> Result<()>>(f: F) -> (r: (Vec<Metric>, Result<()>))
    requires
        forall|b: &mut Batch| b.metrics@.len() == 0 ==> f.requires((b,)),
    ensures
        exists|b: &mut Batch|
            b.metrics@.len() == 0 && f.ensures((b,), r.1) && r.0 == final(b).metrics,
{
    let mut b = Batch::new();
    let result = f(&mut b);
    (b.metrics, result)
}

} // verus!
