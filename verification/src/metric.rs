//! One observation as it travels to the aggregator.
use vstd::prelude::*;

use crate::text::to_owned_text;

verus! {

/// The binary64 encoding of the number one, the amount added by `inc` and taken by `dec`.
pub const ONE: u64 = 0x3ff0_0000_0000_0000;

/// One observation: the metric's name as sent, the operation, the operand, and one value per
/// label of the metric. The operand is kept as the bit pattern of a binary64 number
/// (`f64::to_bits`); this crate moves it along and never computes with it.
#[derive(Debug, Clone, PartialEq)]
pub struct Metric {
    pub name: String,
    pub method: String,
    pub value_bits: u64,
    pub label_values: Vec<String>,
}

/// The content of a [`Metric`], with each text seen as its characters.
pub struct MetricView {
    pub name: Seq<char>,
    pub method: Seq<char>,
    pub value_bits: u64,
    pub label_values: Seq<Seq<char>>,
}

impl View for Metric {
    type V = MetricView;

    open spec fn view(&self) -> MetricView {
        MetricView {
            name: self.name@,
            method: self.method@,
            value_bits: self.value_bits,
            label_values: self.label_values.deep_view(),
        }
    }
}

impl Metric {
    pub fn new(name: &str, method: &str, value_bits: u64, label_values: Vec<String>) -> (m: Metric)
        ensures
            m.name@ == name@,
            m.method@ == method@,
            m.value_bits == value_bits,
            m.label_values == label_values,
    {
        Metric { name: to_owned_text(name), method: to_owned_text(method), value_bits, label_values }
    }
}

} // verus!
