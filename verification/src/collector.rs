//! What every metric handle shares: the name it is sent under and its label names.
use vstd::prelude::*;

use crate::error::{Error, ErrorView, Result};
use crate::metric::{Metric, MetricView};
use crate::text::to_owned_text;
use crate::writer::{handed_over, write_many_step, Writer};

verus! {

/// The name a metric is sent under, and the names of its labels in order.
#[derive(Debug, Clone)]
pub struct CollectorInner {
    pub(crate) name: String,
    pub(crate) label_keys: Vec<String>,
}

/// The content of a [`CollectorInner`].
pub struct CollectorView {
    pub name: Seq<char>,
    pub label_keys: Seq<Seq<char>>,
}

impl View for CollectorInner {
    type V = CollectorView;

    closed spec fn view(&self) -> CollectorView {
        CollectorView { name: self.name@, label_keys: self.label_keys.deep_view() }
    }
}

/// The observation that recording `method` with operand `value_bits` and the given label
/// values on collector `c` yields: refused when the number of label values differs from the
/// number of labels, and otherwise the metric under `c`'s name with exactly those values.
pub open spec fn observation(
    c: CollectorView,
    method: Seq<char>,
    value_bits: u64,
    label_values: Seq<Seq<char>>,
) -> std::result::Result<MetricView, ErrorView> {
    if label_values.len() != c.label_keys.len() {
        Err(
            ErrorView::LabelCountMismatch {
                expected: c.label_keys.len() as usize,
                got: label_values.len() as usize,
            },
        )
    } else {
        Ok(MetricView { name: c.name, method, value_bits, label_values })
    }
}

/// A call is refused exactly when it gives another number of label values than the collector
/// has labels, and the refusal names the expected and the given count; an accepted call yields
/// the observation under the collector's name with the method, operand and label values given.
pub proof fn lemma_observation_label_count(
    c: CollectorView,
    method: Seq<char>,
    value_bits: u64,
    label_values: Seq<Seq<char>>,
)
    ensures
        observation(c, method, value_bits, label_values) is Err <==> label_values.len()
            != c.label_keys.len(),
        label_values.len() != c.label_keys.len() ==> observation(
            c,
            method,
            value_bits,
            label_values,
        )->Err_0 == (ErrorView::LabelCountMismatch {
            expected: c.label_keys.len() as usize,
            got: label_values.len() as usize,
        }),
        label_values.len() == c.label_keys.len() ==> {
            &&& observation(c, method, value_bits, label_values)->Ok_0.name == c.name
            &&& observation(c, method, value_bits, label_values)->Ok_0.method == method
            &&& observation(c, method, value_bits, label_values)->Ok_0.value_bits == value_bits
            &&& observation(c, method, value_bits, label_values)->Ok_0.label_values
                == label_values
        },
{
}

/// `r` is what [`observation`] prescribes for these arguments, and an accepted call hands
/// back the very label values it was given.
pub open spec fn records(
    r: &Result<Metric>,
    c: CollectorView,
    method: Seq<char>,
    value_bits: u64,
    label_values: &Vec<String>,
) -> bool {
    match r {
        Ok(m) => {
            &&& observation(c, method, value_bits, label_values.deep_view()) == Ok::<
                MetricView,
                ErrorView,
            >(m@)
            &&& m.label_values == *label_values
        },
        Err(e) => observation(c, method, value_bits, label_values.deep_view()) == Err::<
            MetricView,
            ErrorView,
        >(e@),
    }
}

/// A batch operation's outcome: when [`observation`] accepts the call, `after` is `before`
/// with the observation appended and `r` is `Ok`; otherwise `after` is `before` and `r` is the
/// refusal.
pub open spec fn appends(
    r: &Result<()>,
    before: Seq<Metric>,
    after: Seq<Metric>,
    c: CollectorView,
    method: Seq<char>,
    value_bits: u64,
    label_values: &Vec<String>,
) -> bool {
    match observation(c, method, value_bits, label_values.deep_view()) {
        Ok(mv) => {
            &&& r is Ok
            &&& after.len() == before.len() + 1
            &&& after.drop_last() == before
            &&& after.last()@ == mv
            &&& after.last().label_values == *label_values
        },
        Err(e) => {
            &&& r matches Err(x) && x@ == e
            &&& after == before
        },
    }
}

impl CollectorInner {
    pub fn new(name: &str, label_keys: Vec<String>) -> (c: CollectorInner)
        ensures
            c@.name == name@,
            c@.label_keys == label_keys.deep_view(),
    {
        CollectorInner { name: to_owned_text(name), label_keys }
    }

    pub fn name(&self) -> (r: &str)
        ensures
            r@ == self@.name,
    {
        self.name.as_str()
    }

    pub fn label_keys(&self) -> (r: &[String])
        ensures
            r.deep_view() == self@.label_keys,
    {
        self.label_keys.as_slice()
    }

    /// The observation for `method` with operand `value_bits`, or the label count mismatch.
    pub fn build_metric(&self, method: &str, value_bits: u64, label_values: Vec<String>) -> (r:
        Result<Metric>)
        ensures
            records(&r, self@, method@, value_bits, &label_values),
    {
        if label_values.len() != self.label_keys.len() {
            return Err(
                Error::LabelCountMismatch {
                    expected: self.label_keys.len(),
                    got: label_values.len(),
                },
            );
        }
        let ghost given = label_values;
        let m = Metric::new(self.name.as_str(), method, value_bits, label_values);
        assert(m@.label_values == given.deep_view());
        Ok(m)
    }

    /// Writes the observation for `method` with operand `value_bits` to `writer`; the second
    /// result is the batch the writer hands over, if any. A refused observation leaves the
    /// writer unchanged and hands nothing over; an accepted one is written exactly once.
    pub fn write(&self, writer: &mut Writer, method: &str, value_bits: u64, label_values: Vec<
        String,
    >) -> (r: (Result<()>, Option<Vec<Metric>>))
        ensures
            match observation(self@, method@, value_bits, label_values.deep_view()) {
                Ok(mv) => {
                    &&& r.0 is Ok
                    &&& exists|m: Metric|
                        {
                            &&& m@ == mv
                            &&& m.label_values == label_values
                            &&& (final(writer)@, handed_over(&r.1)) == write_many_step(
                                old(writer)@,
                                seq![m],
                            )
                        }
                },
                Err(e) => {
                    &&& r.0 matches Err(x) && x@ == e
                    &&& r.1 is None
                    &&& final(writer)@ == old(writer)@
                },
            },
    {
        let ghost given = label_values;
        match self.build_metric(method, value_bits, label_values) {
            Ok(m) => {
                let ghost written = m;
                let out = writer.write(m);
                assert(written@ == observation(self@, method@, value_bits, given.deep_view())->Ok_0);
                (Ok(()), out)
            },
            Err(e) => (Err(e), None),
        }
    }

    /// Records the observation for `method` into `sink`, or leaves `sink` unchanged and
    /// reports the label count mismatch.
    pub(crate) fn push_metric(
        &self,
        sink: &mut Vec<Metric>,
        method: &str,
        value_bits: u64,
        label_values: Vec<String>,
    ) -> (r: Result<()>)
        ensures
            appends(&r, old(sink)@, final(sink)@, self@, method@, value_bits, &label_values),
    {
        let ghost given = label_values;
        match self.build_metric(method, value_bits, label_values) {
            Ok(m) => {
                sink.push(m);
                assert(final(sink)@.drop_last() =~= old(sink)@);
                Ok(())
            },
            Err(e) => Err(e),
        }
    }
}

} // verus!
