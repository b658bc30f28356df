//! Gauges: metrics that go up and down.
use std::sync::Arc;
use vstd::prelude::*;

use crate::collector::{appends, records, CollectorInner, CollectorView};
use crate::error::Result;
use crate::metric::{Metric, ONE};

verus! {

/// A Prometheus gauge metric. Can go up and down.
#[derive(Debug, Clone)]
pub struct Gauge(pub Arc<CollectorInner>);

impl View for Gauge {
    type V = CollectorView;

    open spec fn view(&self) -> CollectorView {
        (*self.0)@
    }
}

impl Gauge {
    pub fn name(&self) -> (r: &str)
        ensures
            r@ == self@.name,
    {
        self.0.name()
    }

    pub fn label_keys(&self) -> (r: &[String])
        ensures
            r.deep_view() == self@.label_keys,
    {
        self.0.label_keys()
    }

    /// The observation that sets the gauge to `value_bits` (a binary64 encoding).
    pub fn set(&self, value_bits: u64, label_values: Vec<String>) -> (r: Result<Metric>)
        ensures
            records(&r, self@, "set"@, value_bits, &label_values),
    {
        self.0.build_metric("set", value_bits, label_values)
    }

    /// The observation that increments the gauge by one.
    pub fn inc(&self, label_values: Vec<String>) -> (r: Result<Metric>)
        ensures
            records(&r, self@, "inc"@, ONE, &label_values),
    {
        self.0.build_metric("inc", ONE, label_values)
    }

    /// The observation that decrements the gauge by one.
    pub fn dec(&self, label_values: Vec<String>) -> (r: Result<Metric>)
        ensures
            records(&r, self@, "dec"@, ONE, &label_values),
    {
        self.0.build_metric("dec", ONE, label_values)
    }

    /// The observation that adds `value_bits` (a binary64 encoding) to the gauge.
    pub fn add(&self, value_bits: u64, label_values: Vec<String>) -> (r: Result<Metric>)
        ensures
            records(&r, self@, "add"@, value_bits, &label_values),
    {
        self.0.build_metric("add", value_bits, label_values)
    }

    /// The observation that subtracts `value_bits` (a binary64 encoding) from the gauge.
    pub fn sub(&self, value_bits: u64, label_values: Vec<String>) -> (r: Result<Metric>)
        ensures
            records(&r, self@, "sub"@, value_bits, &label_values),
    {
        self.0.build_metric("sub", value_bits, label_values)
    }

    /// The observation that sets the gauge to the current Unix time: `now_bits` is the number
    /// of seconds since the Unix epoch as a binary64 encoding, read from the clock by the caller.
    pub fn set_to_current_time(&self, now_bits: u64, label_values: Vec<String>) -> (r: Result<
        Metric,
    >)
        ensures
            records(&r, self@, "set_to_current_time"@, now_bits, &label_values),
    {
        self.0.build_metric("set_to_current_time", now_bits, label_values)
    }
}

/// A gauge seen through a batch: its observations are appended to the batch.
pub struct BatchGauge<'a>(pub &'a Gauge, pub &'a mut Vec<Metric>);

impl<'a> BatchGauge<'a> {
    /// Appends the observation that sets the gauge to `value_bits` (a binary64 encoding).
    pub fn set(&mut self, value_bits: u64, label_values: Vec<String>) -> (r: Result<()>)
        ensures
            final(self).0 == old(self).0,
            *final(final(self).1) == *final(old(self).1),
            appends(&r, old(self).1@, final(self).1@, old(self).0@, "set"@, value_bits, &label_values),
    {
        self.0.0.push_metric(self.1, "set", value_bits, label_values)
    }

    /// Appends the observation that increments the gauge by one.
    pub fn inc(&mut self, label_values: Vec<String>) -> (r: Result<()>)
        ensures
            final(self).0 == old(self).0,
            *final(final(self).1) == *final(old(self).1),
            appends(&r, old(self).1@, final(self).1@, old(self).0@, "inc"@, ONE, &label_values),
    {
        self.0.0.push_metric(self.1, "inc", ONE, label_values)
    }

    /// Appends the observation that decrements the gauge by one.
    pub fn dec(&mut self, label_values: Vec<String>) -> (r: Result<()>)
        ensures
            final(self).0 == old(self).0,
            *final(final(self).1) == *final(old(self).1),
            appends(&r, old(self).1@, final(self).1@, old(self).0@, "dec"@, ONE, &label_values),
    {
        self.0.0.push_metric(self.1, "dec", ONE, label_values)
    }

    /// Appends the observation that adds `value_bits` (a binary64 encoding) to the gauge.
    pub fn add(&mut self, value_bits: u64, label_values: Vec<String>) -> (r: Result<()>)
        ensures
            final(self).0 == old(self).0,
            *final(final(self).1) == *final(old(self).1),
            appends(&r, old(self).1@, final(self).1@, old(self).0@, "add"@, value_bits, &label_values),
    {
        self.0.0.push_metric(self.1, "add", value_bits, label_values)
    }

    /// Appends the observation that subtracts `value_bits` (a binary64 encoding) from the gauge.
    pub fn sub(&mut self, value_bits: u64, label_values: Vec<String>) -> (r: Result<()>)
        ensures
            final(self).0 == old(self).0,
            *final(final(self).1) == *final(old(self).1),
            appends(&r, old(self).1@, final(self).1@, old(self).0@, "sub"@, value_bits, &label_values),
    {
        self.0.0.push_metric(self.1, "sub", value_bits, label_values)
    }

    /// Appends the observation that sets the gauge to the current Unix time, given as
    /// `now_bits` (seconds since the Unix epoch, binary64 encoding).
    pub fn set_to_current_time(&mut self, now_bits: u64, label_values: Vec<String>) -> (r: Result<
        (),
    >)
        ensures
            final(self).0 == old(self).0,
            *final(final(self).1) == *final(old(self).1),
            appends(
                &r,
                old(self).1@,
                final(self).1@,
                old(self).0@,
                "set_to_current_time"@,
                now_bits,
                &label_values,
            ),
    {
        self.0.0.push_metric(self.1, "set_to_current_time", now_bits, label_values)
    }
}

} // verus!
