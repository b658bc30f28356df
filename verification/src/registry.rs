//! What the metrics definitions yield: the checks each definition must pass, the short name
//! and the sent name of each metric, and the facts every registry satisfies.
use vstd::prelude::*;

use crate::client::{mode_conflict, ConfigView};
use crate::collector::CollectorView;
use crate::error::ErrorView;
use crate::spec::MetricSpecView;
use crate::text::blank;
use crate::validate::{
    is_name_char, lemma_trim_shape, normalized_prefix, prefixed_name, trim_underscores, valid_name,
    valid_prefix,
};

verus! {

/// The four kinds of metric.
pub enum MetricKind {
    Counter,
    Gauge,
    Histogram,
    Summary,
}

/// The kind a metric type name denotes, if any.
pub open spec fn kind_named(t: Seq<char>) -> Option<MetricKind> {
    if t == "counter"@ {
        Some(MetricKind::Counter)
    } else if t == "gauge"@ {
        Some(MetricKind::Gauge)
    } else if t == "histogram"@ {
        Some(MetricKind::Histogram)
    } else if t == "summary"@ {
        Some(MetricKind::Summary)
    } else {
        None
    }
}

/// The content of a metric handle: its kind and its collector.
pub struct HandleView {
    pub kind: MetricKind,
    pub collector: CollectorView,
}

/// The short name under which a metric is looked up: the spec name with the prefix taken off
/// its front when the prefix is non-empty and begins it, and the spec name otherwise.
pub open spec fn key_for(name: Seq<char>, prefix: Seq<char>) -> Seq<char> {
    if prefix.len() == 0 {
        name
    } else if prefix.is_prefix_of(name) {
        name.skip(prefix.len() as int)
    } else {
        name
    }
}

/// The first label name that is not a valid name, if any.
pub open spec fn first_invalid_label(labels: Seq<Seq<char>>) -> Option<Seq<char>>
    decreases labels.len(),
{
    if labels.len() == 0 {
        None
    } else if !valid_name(labels[0]) {
        Some(labels[0])
    } else {
        first_invalid_label(labels.drop_first())
    }
}

/// The handle a metric definition yields under `prefix`, or the first problem found, in this
/// order: an invalid name, an invalid label, a blank help text, an unknown type.
pub open spec fn handle_for(spec: MetricSpecView, prefix: Seq<char>) -> std::result::Result<
    HandleView,
    ErrorView,
> {
    if !valid_name(spec.name) {
        Err(ErrorView::InvalidName(spec.name))
    } else if first_invalid_label(spec.labels) is Some {
        Err(ErrorView::InvalidLabel(first_invalid_label(spec.labels)->0))
    } else if blank(spec.help) {
        Err(ErrorView::MissingHelp(spec.name))
    } else {
        match kind_named(spec.metric_type) {
            Some(kind) => Ok(
                HandleView {
                    kind,
                    collector: CollectorView {
                        name: prefixed_name(spec.name, prefix),
                        label_keys: spec.labels,
                    },
                },
            ),
            None => Err(ErrorView::UnknownType(spec.metric_type)),
        }
    }
}

/// Whether some entry is registered under `key`.
pub open spec fn has_key(entries: Seq<(Seq<char>, HandleView)>, key: Seq<char>) -> bool {
    exists|i: int| 0 <= i < entries.len() && (#[trigger] entries[i]).0 == key
}

/// The registry that the definitions yield, in definition order, or the first problem found:
/// a definition's own problem, or a short name that is already taken.
pub open spec fn registry_for(specs: Seq<MetricSpecView>, prefix: Seq<char>) -> std::result::Result<
    Seq<(Seq<char>, HandleView)>,
    ErrorView,
>
    decreases specs.len(),
{
    if specs.len() == 0 {
        Ok(Seq::empty())
    } else {
        match registry_for(specs.drop_last(), prefix) {
            Err(e) => Err(e),
            Ok(entries) => match handle_for(specs.last(), prefix) {
                Err(e) => Err(e),
                Ok(h) => {
                    let key = key_for(specs.last().name, prefix);
                    if has_key(entries, key) {
                        Err(ErrorView::DuplicateMetric(key))
                    } else {
                        Ok(entries.push((key, h)))
                    }
                },
            },
        }
    }
}

/// The registry a client holds: each metric under its short name, in definition order,
/// with the prefix and the mode it was configured with.
pub struct ClientView {
    pub entries: Seq<(Seq<char>, HandleView)>,
    pub prefix: Seq<char>,
    pub sync: bool,
}

/// The client a configuration and the definitions yield, or the first problem found.
pub open spec fn client_for(cfg: ConfigView, specs: Seq<MetricSpecView>) -> std::result::Result<
    ClientView,
    ErrorView,
> {
    if mode_conflict(cfg) {
        Err(ErrorView::SyncModeConflict)
    } else {
        match registry_for(specs, cfg.prefix) {
            Ok(entries) => Ok(ClientView { entries, prefix: cfg.prefix, sync: cfg.sync }),
            Err(e) => Err(e),
        }
    }
}

/// What every registry satisfies: short names are distinct; each metric is sent under the
/// prefix followed by its short name; and every name sent and every label name is valid.
pub open spec fn registry_well_formed(entries: Seq<(Seq<char>, HandleView)>, prefix: Seq<char>) -> bool {
    &&& forall|i: int, j: int|
        0 <= i < j < entries.len() ==> (#[trigger] entries[i]).0 != (#[trigger] entries[j]).0
    &&& forall|i: int|
        0 <= i < entries.len() ==> (#[trigger] entries[i]).1.collector.name == prefix + entries[i].0
    &&& forall|i: int| 0 <= i < entries.len() ==> valid_name((#[trigger] entries[i]).1.collector.name)
    &&& forall|i: int, j: int|
        0 <= i < entries.len() && 0 <= j < entries[i].1.collector.label_keys.len() ==> valid_name(
            #[trigger] entries[i].1.collector.label_keys[j],
        )
}

/// The metric registered under `key`, if any.
pub open spec fn lookup(entries: Seq<(Seq<char>, HandleView)>, key: Seq<char>) -> Option<HandleView> {
    if has_key(entries, key) {
        Some(entries[choose|i: int| 0 <= i < entries.len() && (#[trigger] entries[i]).0 == key].1)
    } else {
        None
    }
}

/// The name a metric is sent under is always the prefix followed by its short name.
pub proof fn lemma_sent_name_is_prefix_and_key(name: Seq<char>, prefix: Seq<char>)
    ensures
        prefixed_name(name, prefix) == prefix + key_for(name, prefix),
{
    if prefix.len() == 0 {
        assert(prefix + name =~= name);
    } else if prefix.is_prefix_of(name) {
        assert(prefix + name.skip(prefix.len() as int) =~= name);
    }
}

/// The short name does not depend on whether the definition already carried the prefix: the
/// short name of the sent name is that of the definition's name, and is the definition's name
/// itself when the prefix is empty or did not begin it.
pub proof fn lemma_key_of_sent_name(name: Seq<char>, prefix: Seq<char>)
    ensures
        key_for(prefixed_name(name, prefix), prefix) == key_for(name, prefix),
        prefix.len() == 0 || !prefix.is_prefix_of(name) ==> key_for(
            prefixed_name(name, prefix),
            prefix,
        ) == name,
{
    if !(prefix.len() == 0 || prefix.is_prefix_of(name)) {
        let whole = prefix + name;
        assert(whole.subrange(0, prefix.len() as int) =~= prefix);
        assert(prefix.is_prefix_of(whole));
        assert(whole.skip(prefix.len() as int) =~= name);
    }
}

/// Applying the prefix to a name that already carries it changes nothing.
pub proof fn lemma_prefixed_name_idempotent(name: Seq<char>, prefix: Seq<char>)
    ensures
        prefixed_name(prefixed_name(name, prefix), prefix) == prefixed_name(name, prefix),
{
    if !(prefix.len() == 0 || prefix.is_prefix_of(name)) {
        assert(prefix.is_prefix_of(prefix + name)) by {
            assert((prefix + name).subrange(0, prefix.len() as int) =~= prefix);
        }
    }
}

/// Under an accepted prefix that carries its separator, every valid name is sent under a
/// valid name.
pub proof fn lemma_prefixed_name_valid(name: Seq<char>, prefix: Seq<char>)
    requires
        valid_name(name),
        valid_prefix(prefix),
    ensures
        valid_name(prefixed_name(name, prefix)),
{
    if !(prefix.len() == 0 || prefix.is_prefix_of(name)) {
        lemma_trim_shape(prefix);
        let t = trim_underscores(prefix);
        let whole = prefix + name;
        assert(t[0] == prefix[0]);
        assert forall|i: int| 1 <= i < whole.len() implies is_name_char(#[trigger] whole[i]) by {
            if i < t.len() {
                assert(whole[i] == t[i]);
            } else if i < prefix.len() {
                assert(whole[i] == prefix[i]);
            } else {
                assert(whole[i] == name[i - prefix.len()]);
            }
        }
    }
}

/// No invalid label is found exactly when every label is a valid name.
proof fn lemma_first_invalid_label(labels: Seq<Seq<char>>)
    ensures
        first_invalid_label(labels) is None <==> forall|j: int|
            0 <= j < labels.len() ==> valid_name(#[trigger] labels[j]),
        first_invalid_label(labels) matches Some(l) ==> !valid_name(l),
    decreases labels.len(),
{
    if labels.len() > 0 {
        lemma_first_invalid_label(labels.drop_first());
        if valid_name(labels[0]) {
            assert forall|j: int|
                0 <= j < labels.len() && (forall|k: int|
                    0 <= k < labels.drop_first().len() ==> valid_name(
                        #[trigger] labels.drop_first()[k],
                    )) implies valid_name(#[trigger] labels[j]) by {
                if j > 0 {
                    assert(labels[j] == labels.drop_first()[j - 1]);
                }
            }
            if first_invalid_label(labels.drop_first()) is Some {
                let k = choose|k: int|
                    0 <= k < labels.drop_first().len() && !valid_name(
                        #[trigger] labels.drop_first()[k],
                    );
                assert(labels[k + 1] == labels.drop_first()[k]);
            }
        }
    }
}

/// Every registry built under an accepted prefix is well formed.
pub proof fn lemma_registry_well_formed(specs: Seq<MetricSpecView>, prefix: Seq<char>)
    requires
        valid_prefix(prefix),
    ensures
        registry_for(specs, prefix) matches Ok(entries) ==> registry_well_formed(entries, prefix),
    decreases specs.len(),
{
    if specs.len() > 0 {
        lemma_registry_well_formed(specs.drop_last(), prefix);
        if let Ok(entries) = registry_for(specs, prefix) {
            let before = registry_for(specs.drop_last(), prefix)->Ok_0;
            let spec = specs.last();
            let h = handle_for(spec, prefix)->Ok_0;
            let key = key_for(spec.name, prefix);
            assert(entries == before.push((key, h)));
            lemma_sent_name_is_prefix_and_key(spec.name, prefix);
            lemma_prefixed_name_valid(spec.name, prefix);
            lemma_first_invalid_label(spec.labels);
            assert forall|i: int, j: int|
                0 <= i < j < entries.len() implies (#[trigger] entries[i]).0 != (
                #[trigger] entries[j]).0 by {
                if j == entries.len() - 1 {
                    assert(entries[i] == before[i]);
                    if entries[i].0 == key {
                        assert(has_key(before, key));
                    }
                } else {
                    assert(entries[i] == before[i]);
                    assert(entries[j] == before[j]);
                }
            }
            assert forall|i: int| 0 <= i < entries.len() implies (
            #[trigger] entries[i]).1.collector.name == prefix + entries[i].0 && valid_name(
                entries[i].1.collector.name,
            ) by {
                if i < entries.len() - 1 {
                    assert(entries[i] == before[i]);
                }
            }
            assert forall|i: int, j: int|
                0 <= i < entries.len() && 0 <= j < entries[i].1.collector.label_keys.len()
                    implies valid_name(#[trigger] entries[i].1.collector.label_keys[j]) by {
                if i < entries.len() - 1 {
                    assert(entries[i] == before[i]);
                }
            }
        }
    }
}

/// Each of the four type names denotes its kind, and nothing else does.
pub proof fn lemma_kind_names()
    ensures
        kind_named("counter"@) == Some(MetricKind::Counter),
        kind_named("gauge"@) == Some(MetricKind::Gauge),
        kind_named("histogram"@) == Some(MetricKind::Histogram),
        kind_named("summary"@) == Some(MetricKind::Summary),
        forall|t: Seq<char>|
            t != "counter"@ && t != "gauge"@ && t != "histogram"@ && t != "summary"@
                ==> #[trigger] kind_named(t) is None,
{
    reveal_strlit("counter");
    reveal_strlit("gauge");
    reveal_strlit("histogram");
    reveal_strlit("summary");
    assert("gauge"@[0] != "counter"@[0]);
    assert("histogram"@[0] != "counter"@[0] && "histogram"@[0] != "gauge"@[0]);
    assert("summary"@[0] != "counter"@[0] && "summary"@[0] != "gauge"@[0] && "summary"@[0]
        != "histogram"@[0]);
}

/// The sent name, character by character: the definition's name as it is when the prefix is
/// empty or the name already begins with every character of the prefix; otherwise the
/// prefix's characters followed by the name's.
pub proof fn lemma_prefixed_name_chars(name: Seq<char>, prefix: Seq<char>)
    ensures
        prefix.len() == 0 ==> prefixed_name(name, prefix) == name,
        prefix.len() <= name.len() && (forall|i: int|
            0 <= i < prefix.len() ==> #[trigger] name[i] == prefix[i]) ==> prefixed_name(
            name,
            prefix,
        ) == name,
        prefix.len() > 0 && (prefix.len() > name.len() || exists|i: int|
            0 <= i < prefix.len() && #[trigger] name[i] != prefix[i]) ==> {
            &&& prefixed_name(name, prefix).len() == prefix.len() + name.len()
            &&& forall|i: int|
                0 <= i < prefix.len() ==> #[trigger] prefixed_name(name, prefix)[i] == prefix[i]
            &&& forall|j: int|
                0 <= j < name.len() ==> #[trigger] prefixed_name(name, prefix)[prefix.len() + j]
                    == name[j]
        },
{
    if prefix.len() <= name.len() && (forall|i: int|
        0 <= i < prefix.len() ==> #[trigger] name[i] == prefix[i]) {
        assert(name.subrange(0, prefix.len() as int) =~= prefix);
    }
    if prefix.len() > 0 && prefix.len() <= name.len() && prefix.is_prefix_of(name) {
        assert forall|i: int| 0 <= i < prefix.len() implies #[trigger] name[i] == prefix[i] by {
            assert(name.subrange(0, prefix.len() as int)[i] == name[i]);
        }
    }
}

/// The short name, character by character: with a non-empty prefix that begins the
/// definition's name, the characters of the name after the prefix; otherwise the name itself.
pub proof fn lemma_key_chars(name: Seq<char>, prefix: Seq<char>)
    ensures
        prefix.len() > 0 && prefix.len() <= name.len() && (forall|i: int|
            0 <= i < prefix.len() ==> #[trigger] name[i] == prefix[i]) ==> {
            &&& key_for(name, prefix).len() == name.len() - prefix.len()
            &&& forall|j: int|
                0 <= j < name.len() - prefix.len() ==> #[trigger] key_for(name, prefix)[j]
                    == name[prefix.len() + j]
        },
        prefix.len() == 0 || prefix.len() > name.len() || (exists|i: int|
            0 <= i < prefix.len() && #[trigger] name[i] != prefix[i]) ==> key_for(name, prefix)
            == name,
{
    if prefix.len() <= name.len() && (forall|i: int|
        0 <= i < prefix.len() ==> #[trigger] name[i] == prefix[i]) {
        assert(name.subrange(0, prefix.len() as int) =~= prefix);
    }
    if prefix.len() > 0 && prefix.len() <= name.len() && prefix.is_prefix_of(name) {
        assert forall|i: int| 0 <= i < prefix.len() implies #[trigger] name[i] == prefix[i] by {
            assert(name.subrange(0, prefix.len() as int)[i] == name[i]);
        }
    }
}

/// The metric a definition yields has exactly the definition's label names, in the
/// definition's order, element for element.
pub proof fn lemma_handle_keeps_labels(spec: MetricSpecView, prefix: Seq<char>)
    ensures
        handle_for(spec, prefix) matches Ok(h) ==> {
            &&& h.collector.label_keys.len() == spec.labels.len()
            &&& forall|j: int|
                0 <= j < spec.labels.len() ==> #[trigger] h.collector.label_keys[j]
                    == spec.labels[j]
        },
{
}

/// An accepted list of definitions yields one metric per definition, in definition order:
/// the i-th is registered under the short name of the i-th definition, is sent under its
/// prefixed name, has the kind its type names, and has exactly its label names in their order.
pub proof fn lemma_registry_follows_specs(specs: Seq<MetricSpecView>, prefix: Seq<char>)
    ensures
        registry_for(specs, prefix) matches Ok(entries) ==> {
            &&& entries.len() == specs.len()
            &&& forall|i: int|
                0 <= i < specs.len() ==> {
                    &&& (#[trigger] entries[i]).0 == key_for(specs[i].name, prefix)
                    &&& entries[i].1.collector.name == prefixed_name(specs[i].name, prefix)
                    &&& kind_named(specs[i].metric_type) == Some(entries[i].1.kind)
                    &&& entries[i].1.collector.label_keys.len() == specs[i].labels.len()
                    &&& forall|j: int|
                        0 <= j < specs[i].labels.len() ==> #[trigger] entries[i].1.collector.label_keys[j]
                            == specs[i].labels[j]
                }
        },
    decreases specs.len(),
{
    if specs.len() > 0 {
        lemma_registry_follows_specs(specs.drop_last(), prefix);
        if let Ok(entries) = registry_for(specs, prefix) {
            let before = registry_for(specs.drop_last(), prefix)->Ok_0;
            let spec = specs.last();
            let h = handle_for(spec, prefix)->Ok_0;
            assert(entries == before.push((key_for(spec.name, prefix), h)));
            assert forall|i: int| 0 <= i < specs.len() implies {
                &&& (#[trigger] entries[i]).0 == key_for(specs[i].name, prefix)
                &&& entries[i].1.collector.name == prefixed_name(specs[i].name, prefix)
                &&& kind_named(specs[i].metric_type) == Some(entries[i].1.kind)
                &&& entries[i].1.collector.label_keys.len() == specs[i].labels.len()
                &&& forall|j: int|
                    0 <= j < specs[i].labels.len() ==> #[trigger] entries[i].1.collector.label_keys[j]
                        == specs[i].labels[j]
            } by {
                if i < specs.len() - 1 {
                    assert(entries[i] == before[i]);
                    assert(specs[i] == specs.drop_last()[i]);
                }
            }
        }
    }
}

/// Once the definitions read so far are refused, all of them are refused for the same reason.
pub(crate) proof fn lemma_registry_error_persists(specs: Seq<MetricSpecView>, k: int, prefix: Seq<char>)
    requires
        0 <= k <= specs.len(),
        registry_for(specs.take(k), prefix) is Err,
    ensures
        registry_for(specs, prefix) == registry_for(specs.take(k), prefix),
    decreases specs.len(),
{
    if k == specs.len() {
        assert(specs.take(k) =~= specs);
    } else {
        assert(specs.drop_last().take(k) =~= specs.take(k));
        lemma_registry_error_persists(specs.drop_last(), k, prefix);
    }
}

/// In a registry with distinct short names, looking up the name of an entry finds it.
pub proof fn lemma_lookup_at(entries: Seq<(Seq<char>, HandleView)>, key: Seq<char>, i: int)
    requires
        forall|a: int, b: int|
            0 <= a < b < entries.len() ==> (#[trigger] entries[a]).0 != (#[trigger] entries[b]).0,
        0 <= i < entries.len(),
        entries[i].0 == key,
    ensures
        lookup(entries, key) == Some(entries[i].1),
{
    assert(has_key(entries, key));
    let j = choose|j: int| 0 <= j < entries.len() && (#[trigger] entries[j]).0 == key;
    if j < i {
        assert(entries[j].0 != entries[i].0);
    } else if i < j {
        assert(entries[i].0 != entries[j].0);
    }
}

/// Completing a prefix twice changes nothing.
pub proof fn lemma_normalized_prefix_idempotent(p: Seq<char>)
    ensures
        normalized_prefix(normalized_prefix(p)) == normalized_prefix(p),
{
}

} // verus!
