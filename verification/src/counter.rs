//! Counters: metrics that only go up.
use std::sync::Arc;
use vstd::prelude::*;

use crate::collector::{appends, records, CollectorInner, CollectorView};
use crate::error::Result;
use crate::metric::{Metric, ONE};

verus! {

/// A Prometheus counter metric. Counters only go up.
#[derive(Debug, Clone)]
pub struct Counter(pub Arc<CollectorInner>);

impl View for Counter {
    type V = CollectorView;

    open spec fn view(&self) -> CollectorView {
        (*self.0)@
    }
}

impl Counter {
    pub fn name(&self) -> (r: &str)
        ensures
            r@ == self@.name,
    {
        self.0.name()
    }

    pub fn label_keys(&self) -> (r: &[String])
        ensures
            r.deep_view() == self@.label_keys,
    {
        self.0.label_keys()
    }

    /// The observation that increments the counter by one.
    pub fn inc(&self, label_values: Vec<String>) -> (r: Result<Metric>)
        ensures
            records(&r, self@, "inc"@, ONE, &label_values),
    {
        self.0.build_metric("inc", ONE, label_values)
    }

    /// The observation that adds `value_bits` (a binary64 encoding) to the counter.
    pub fn add(&self, value_bits: u64, label_values: Vec<String>) -> (r: Result<Metric>)
        ensures
            records(&r, self@, "add"@, value_bits, &label_values),
    {
        self.0.build_metric("add", value_bits, label_values)
    }
}

/// A counter seen through a batch: its observations are appended to the batch.
pub struct BatchCounter<'a>(pub &'a Counter, pub &'a mut Vec<Metric>);

impl<'a> BatchCounter<'a> {
    /// Appends the observation that increments the counter by one.
    pub fn inc(&mut self, label_values: Vec<String>) -> (r: Result<()>)
        ensures
            final(self).0 == old(self).0,
            *final(final(self).1) == *final(old(self).1),
            appends(&r, old(self).1@, final(self).1@, old(self).0@, "inc"@, ONE, &label_values),
    {
        self.0.0.push_metric(self.1, "inc", ONE, label_values)
    }

    /// Appends the observation that adds `value_bits` (a binary64 encoding) to the counter.
    pub fn add(&mut self, value_bits: u64, label_values: Vec<String>) -> (r: Result<()>)
        ensures
            final(self).0 == old(self).0,
            *final(final(self).1) == *final(old(self).1),
            appends(
                &r,
                old(self).1@,
                final(self).1@,
                old(self).0@,
                "add"@,
                value_bits,
                &label_values,
            ),
    {
        self.0.0.push_metric(self.1, "add", value_bits, label_values)
    }
}

} // verus!
