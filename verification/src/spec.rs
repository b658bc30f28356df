//! The definition of one metric, as read from the shared metrics file.
use vstd::prelude::*;

verus! {

/// One entry of the metrics definition file.
#[derive(Debug, Clone)]
pub struct MetricSpec {
    pub name: String,
    pub metric_type: String,
    pub help: String,
    pub labels: Vec<String>,
}

/// The content of a [`MetricSpec`], with each text seen as its characters.
pub struct MetricSpecView {
    pub name: Seq<char>,
    pub metric_type: Seq<char>,
    pub help: Seq<char>,
    pub labels: Seq<Seq<char>>,
}

impl View for MetricSpec {
    type V = MetricSpecView;

    open spec fn view(&self) -> MetricSpecView {
        MetricSpecView {
            name: self.name@,
            metric_type: self.metric_type@,
            help: self.help@,
            labels: self.labels.deep_view(),
        }
    }
}

} // verus!
