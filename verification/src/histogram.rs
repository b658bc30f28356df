//! Histograms: observations counted into buckets by the aggregator.
use std::sync::Arc;
use vstd::prelude::*;

use crate::collector::{appends, records, CollectorInner, CollectorView};
use crate::error::Result;
use crate::metric::Metric;

verus! {

/// A Prometheus histogram metric.
#[derive(Debug, Clone)]
pub struct Histogram(pub Arc<CollectorInner>);

impl View for Histogram {
    type V = CollectorView;

    open spec fn view(&self) -> CollectorView {
        (*self.0)@
    }
}

impl Histogram {
    pub fn name(&self) -> (r: &str)
        ensures
            r@ == self@.name,
    {
        self.0.name()
    }

    pub fn label_keys(&self) -> (r: &[String])
        ensures
            r.deep_view() == self@.label_keys,
    {
        self.0.label_keys()
    }

    /// The observation of `value_bits` (a binary64 encoding).
    pub fn observe(&self, value_bits: u64, label_values: Vec<String>) -> (r: Result<Metric>)
        ensures
            records(&r, self@, "observe"@, value_bits, &label_values),
    {
        self.0.build_metric("observe", value_bits, label_values)
    }
}

/// A histogram seen through a batch: its observations are appended to the batch.
pub struct BatchHistogram<'a>(pub &'a Histogram, pub &'a mut Vec<Metric>);

impl<'a> BatchHistogram<'a> {
    /// Appends the observation of `value_bits` (a binary64 encoding).
    pub fn observe(&mut self, value_bits: u64, label_values: Vec<String>) -> (r: Result<()>)
        ensures
            final(self).0 == old(self).0,
            *final(final(self).1) == *final(old(self).1),
            appends(&r, old(self).1@, final(self).1@, old(self).0@, "observe"@, value_bits, &label_values),
    {
        self.0.0.push_metric(self.1, "observe", value_bits, label_values)
    }
}

} // verus!
