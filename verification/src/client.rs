//! Configuration, and the registry of metrics built from the metrics definition file.
use std::sync::Arc;
use vstd::prelude::*;

use crate::collector::CollectorInner;
use crate::batch::Batch;
use crate::counter::Counter;
use crate::error::{Error, ErrorView, Result};
use crate::gauge::Gauge;
use crate::histogram::Histogram;
use crate::metric::Metric;
use crate::registry::{
    client_for, first_invalid_label, handle_for, has_key, key_for,
    lemma_lookup_at, lemma_normalized_prefix_idempotent, lemma_registry_error_persists,
    lemma_registry_well_formed, lookup, registry_for, registry_well_formed, ClientView,
    HandleView, MetricKind,
};
use crate::spec::{MetricSpec, MetricSpecView};
use crate::summary::Summary;
use crate::text::{is_blank, same_text, starts_with, to_owned_text};
use crate::validate::{
    apply_prefix, normalize_prefix, normalized_prefix, valid_name, valid_prefix, validate_label,
    validate_name, validate_prefix,
};
use crate::writer::{Timeout, Writer, WriterState};

verus! {

/// Metric handle, one variant per type.
#[derive(Debug, Clone)]
pub enum MetricHandle {
    Counter(Counter),
    Gauge(Gauge),
    Histogram(Histogram),
    Summary(Summary),
}

impl View for MetricHandle {
    type V = HandleView;

    open spec fn view(&self) -> HandleView {
        match self {
            MetricHandle::Counter(c) => HandleView { kind: MetricKind::Counter, collector: c@ },
            MetricHandle::Gauge(g) => HandleView { kind: MetricKind::Gauge, collector: g@ },
            MetricHandle::Histogram(h) => HandleView {
                kind: MetricKind::Histogram,
                collector: h@,
            },
            MetricHandle::Summary(s) => HandleView { kind: MetricKind::Summary, collector: s@ },
        }
    }
}

/// The settings a [`Config`] holds.
pub struct ConfigView {
    pub socket: Seq<char>,
    pub metrics: Seq<char>,
    pub batch_size: Option<usize>,
    pub batch_timeout: Option<Timeout>,
    pub prefix: Seq<char>,
    pub validate: bool,
    pub sync: bool,
}

/// What every configuration satisfies: a batch size, when set, is positive; a flush interval,
/// when set, is not zero; and the prefix is accepted and carries its `_` separator.
pub open spec fn config_well_formed(c: ConfigView) -> bool {
    &&& c.batch_size != Some(0usize)
    &&& c.batch_timeout matches Some(t) ==> !(t.secs == 0 && t.nanos == 0)
    &&& valid_prefix(c.prefix)
    &&& normalized_prefix(c.prefix) == c.prefix
}

/// Synchronous mode excludes an explicit batch size or flush interval.
pub open spec fn mode_conflict(c: ConfigView) -> bool {
    c.sync && (c.batch_size is Some || c.batch_timeout is Some)
}

/// The writer a configuration calls for: synchronous, or buffering with the batch size (one
/// when unset) and flush interval (three seconds when unset); refused on a mode conflict.
pub open spec fn writer_for(c: ConfigView) -> std::result::Result<WriterState, ErrorView> {
    if mode_conflict(c) {
        Err(ErrorView::SyncModeConflict)
    } else if c.sync {
        Ok(
            WriterState {
                sync: true,
                batch_size: 1,
                batch_timeout: None,
                pending: Seq::empty(),
                shut_down: false,
            },
        )
    } else {
        Ok(
            WriterState {
                sync: false,
                batch_size: match c.batch_size {
                    Some(n) => n,
                    None => 1,
                },
                batch_timeout: Some(
                    match c.batch_timeout {
                        Some(t) => t,
                        None => Timeout { secs: 3, nanos: 0 },
                    },
                ),
                pending: Seq::empty(),
                shut_down: false,
            },
        )
    }
}

/// The writer a configuration yields: with synchronous mode and an explicit batch size or
/// flush interval it is refused with a mode conflict; in synchronous mode otherwise it hands
/// each observation over alone and has no timer; in buffering mode its batch size is the one
/// set, or one when none is set, and its flush interval is the one set, or three seconds when
/// none is set. Every new writer starts empty and running.
pub proof fn lemma_writer_settings(c: ConfigView)
    ensures
        c.sync && (c.batch_size is Some || c.batch_timeout is Some) ==> writer_for(c) == Err::<
            WriterState,
            ErrorView,
        >(ErrorView::SyncModeConflict),
        c.sync && c.batch_size is None && c.batch_timeout is None ==> {
            &&& writer_for(c) is Ok
            &&& writer_for(c)->Ok_0.sync
            &&& writer_for(c)->Ok_0.batch_size == 1
            &&& writer_for(c)->Ok_0.batch_timeout is None
        },
        !c.sync ==> writer_for(c) is Ok && !writer_for(c)->Ok_0.sync,
        !c.sync && c.batch_size is None ==> writer_for(c)->Ok_0.batch_size == 1,
        !c.sync && c.batch_size is Some ==> writer_for(c)->Ok_0.batch_size == c.batch_size->0,
        !c.sync && c.batch_timeout is None ==> writer_for(c)->Ok_0.batch_timeout == Some(
            Timeout { secs: 3, nanos: 0 },
        ),
        !c.sync && c.batch_timeout is Some ==> writer_for(c)->Ok_0.batch_timeout
            == c.batch_timeout,
        writer_for(c) is Ok ==> writer_for(c)->Ok_0.pending.len() == 0 && !writer_for(c)->Ok_0.shut_down,
{
}

/// Outside synchronous mode, the writer's batch size depends on the batch size setting alone:
/// setting another flush interval, or none, leaves it unchanged.
pub proof fn lemma_writer_batch_size_ignores_interval(c: ConfigView, interval: Option<Timeout>)
    requires
        !c.sync,
    ensures
        writer_for(c)->Ok_0.batch_size == writer_for(
            ConfigView { batch_timeout: interval, ..c },
        )->Ok_0.batch_size,
{
}

/// Configuration for a `Client`.
pub struct Config {
    socket: String,
    metrics: String,
    batch_size: Option<usize>,
    batch_timeout: Option<Timeout>,
    prefix: String,
    validate: bool,
    sync: bool,
}

impl View for Config {
    type V = ConfigView;

    closed spec fn view(&self) -> ConfigView {
        ConfigView {
            socket: self.socket@,
            metrics: self.metrics@,
            batch_size: self.batch_size,
            batch_timeout: self.batch_timeout,
            prefix: self.prefix@,
            validate: self.validate,
            sync: self.sync,
        }
    }
}

impl Config {
    #[verifier::type_invariant]
    closed spec fn inv(self) -> bool {
        config_well_formed(self@)
    }

    /// A configuration with the socket path and the metrics definition file path, and every
    /// other setting at its default.
    pub fn new(socket: &str, metrics: &str) -> (c: Config)
        ensures
            c@ == (ConfigView {
                socket: socket@,
                metrics: metrics@,
                batch_size: None,
                batch_timeout: None,
                prefix: Seq::empty(),
                validate: false,
                sync: false,
            }),
    {
        let c = Config {
            socket: to_owned_text(socket),
            metrics: to_owned_text(metrics),
            batch_size: None,
            batch_timeout: None,
            prefix: String::new(),
            validate: false,
            sync: false,
        };
        c
    }

    /// Sets the batch size; zero is refused.
    pub fn batch_size(self, n: usize) -> (r: Result<Config>)
        ensures
            if n == 0 {
                r matches Err(e) && e@ == ErrorView::InvalidBatchSize(0)
            } else {
                r matches Ok(c) && c@ == (ConfigView { batch_size: Some(n), ..self@ })
            },
    {
        if n == 0 {
            return Err(Error::InvalidBatchSize(n));
        }
        proof {
            use_type_invariant(&self);
        }
        let mut c = self;
        c.batch_size = Some(n);
        Ok(c)
    }

    /// Sets the flush interval; zero is refused, and the error carries its whole seconds.
    pub fn batch_timeout(self, d: Timeout) -> (r: Result<Config>)
        ensures
            if d.secs == 0 && d.nanos == 0 {
                r matches Err(e) && e@ == ErrorView::InvalidBatchTimeout(d.secs)
            } else {
                r matches Ok(c) && c@ == (ConfigView { batch_timeout: Some(d), ..self@ })
            },
    {
        if d.is_zero() {
            return Err(Error::InvalidBatchTimeout(d.as_secs()));
        }
        proof {
            use_type_invariant(&self);
        }
        let mut c = self;
        c.batch_timeout = Some(d);
        Ok(c)
    }

    /// Set the metric name prefix. A `_` separator is appended automatically if missing; the
    /// prefix so completed must be accepted, and the error carries it.
    pub fn prefix(self, p: &str) -> (r: Result<Config>)
        ensures
            if valid_prefix(normalized_prefix(p@)) {
                r matches Ok(c) && c@ == (ConfigView { prefix: normalized_prefix(p@), ..self@ })
            } else {
                r matches Err(e) && e@ == ErrorView::InvalidPrefix(normalized_prefix(p@))
            },
    {
        let normalized = normalize_prefix(p);
        match validate_prefix(normalized.as_str()) {
            Ok(()) => {},
            Err(e) => return Err(e),
        }
        proof {
            lemma_normalized_prefix_idempotent(p@);
        }
        proof {
            use_type_invariant(&self);
        }
        let mut c = self;
        c.prefix = normalized;
        Ok(c)
    }

    /// Records the `validate` setting. The flag is kept in the configuration and changes
    /// nothing else: a label count mismatch is refused whatever it says.
    pub fn validate(self, v: bool) -> (c: Config)
        ensures
            c@ == (ConfigView { validate: v, ..self@ }),
    {
        proof {
            use_type_invariant(&self);
        }
        let mut c = self;
        c.validate = v;
        c
    }

    /// Enable synchronous mode: each write goes directly to the socket with no buffering or
    /// background thread. Mutually exclusive with `batch_size` and `batch_timeout`.
    pub fn sync(self, s: bool) -> (c: Config)
        ensures
            c@ == (ConfigView { sync: s, ..self@ }),
    {
        proof {
            use_type_invariant(&self);
        }
        let mut c = self;
        c.sync = s;
        c
    }

    /// The path of the aggregator's socket.
    pub fn socket(&self) -> (r: &str)
        ensures
            r@ == self@.socket,
    {
        self.socket.as_str()
    }

    /// The path of the metrics definition file.
    pub fn metrics(&self) -> (r: &str)
        ensures
            r@ == self@.metrics,
    {
        self.metrics.as_str()
    }

    /// The writer this configuration calls for, or the mode conflict.
    pub fn writer(&self) -> (r: Result<Writer>)
        ensures
            match writer_for(self@) {
                Ok(s) => r matches Ok(w) && w@ == s,
                Err(e) => r matches Err(x) && x@ == e,
            },
    {
        if self.sync && (self.batch_size.is_some() || self.batch_timeout.is_some()) {
            return Err(Error::SyncModeConflict);
        }
        if self.sync {
            Ok(Writer::new_sync())
        } else {
            let batch_size = match self.batch_size {
                Some(n) => n,
                None => 1,
            };
            let batch_timeout = match self.batch_timeout {
                Some(t) => t,
                None => Timeout::from_secs(3),
            };
            Ok(Writer::new(batch_size, batch_timeout))
        }
    }
}

/// The views of metric definitions, in order.
pub open spec fn specs_view(specs: Seq<MetricSpec>) -> Seq<MetricSpecView> {
    specs.map_values(|s: MetricSpec| s@)
}

/// The view of one registry entry.
pub open spec fn entry_view(e: (String, MetricHandle)) -> (Seq<char>, HandleView) {
    (e.0@, e.1@)
}

/// The views of registry entries, in order.
pub open spec fn entries_view(v: Seq<(String, MetricHandle)>) -> Seq<(Seq<char>, HandleView)> {
    v.map_values(|e: (String, MetricHandle)| entry_view(e))
}

/// Thread-safe Prometheus metrics client for multi-process applications: the registry of
/// metrics, looked up by short name.
pub struct Client {
    metrics: Vec<(String, MetricHandle)>,
    prefix: String,
    sync: bool,
}

impl View for Client {
    type V = ClientView;

    closed spec fn view(&self) -> ClientView {
        ClientView { entries: entries_view(self.metrics@), prefix: self.prefix@, sync: self.sync }
    }
}

/// The short name under which a metric defined as `full_name` is registered.
pub fn stripped_key(full_name: &str, prefix: &str) -> (r: String)
    ensures
        r@ == key_for(full_name@, prefix@),
{
    if prefix.is_empty() {
        to_owned_text(full_name)
    } else if starts_with(full_name, prefix) {
        let plen = prefix.unicode_len();
        let flen = full_name.unicode_len();
        let rest = full_name.substring_char(plen, flen);
        assert(rest@ =~= full_name@.skip(prefix@.len() as int));
        to_owned_text(rest)
    } else {
        to_owned_text(full_name)
    }
}

/// The handle a metric definition yields under `prefix`, or the first problem with it.
fn build_handle(spec: &MetricSpec, prefix: &str) -> (r: Result<MetricHandle>)
    ensures
        match handle_for(spec@, prefix@) {
            Ok(h) => r matches Ok(x) && x@ == h,
            Err(e) => r matches Err(x) && x@ == e,
        },
{
    match validate_name(spec.name.as_str()) {
        Ok(()) => {},
        Err(e) => return Err(e),
    }
    let n = spec.labels.len();
    let mut i: usize = 0;
    assert(spec@.labels.skip(0) =~= spec@.labels);
    while i < n
        invariant
            n == spec.labels@.len(),
            i <= n,
            valid_name(spec@.name),
            forall|j: int| 0 <= j < i ==> valid_name(#[trigger] spec.labels@[j]@),
            first_invalid_label(spec@.labels) == first_invalid_label(spec@.labels.skip(i as int)),
        decreases n - i,
    {
        let ghost rest = spec@.labels.skip(i as int);
        assert(rest[0] == spec@.labels[i as int]);
        assert(spec@.labels[i as int] == spec.labels@[i as int]@);
        match validate_label(spec.labels[i].as_str()) {
            Ok(()) => {},
            Err(e) => {
                assert(rest.len() > 0);
                assert(first_invalid_label(rest) == Some(rest[0]));
                return Err(e);
            },
        }
        assert(rest.drop_first() =~= spec@.labels.skip(i + 1));
        i = i + 1;
    }
    assert(spec@.labels.skip(n as int).len() == 0);
    if is_blank(spec.help.as_str()) {
        return Err(Error::MissingHelp(spec.name.clone()));
    }
    let wire_name = apply_prefix(spec.name.as_str(), prefix);
    let mut label_keys: Vec<String> = Vec::new();
    let mut k: usize = 0;
    while k < n
        invariant
            n == spec.labels@.len(),
            k <= n,
            label_keys@ == spec.labels@.take(k as int),
        decreases n - k,
    {
        label_keys.push(spec.labels[k].clone());
        assert(label_keys@ =~= spec.labels@.take(k + 1));
        k = k + 1;
    }
    assert(spec.labels@.take(n as int) =~= spec.labels@);
    let t = spec.metric_type.as_str();
    let inner = Arc::new(CollectorInner::new(wire_name.as_str(), label_keys));
    if same_text(t, "counter") {
        Ok(MetricHandle::Counter(Counter(inner)))
    } else if same_text(t, "gauge") {
        Ok(MetricHandle::Gauge(Gauge(inner)))
    } else if same_text(t, "histogram") {
        Ok(MetricHandle::Histogram(Histogram(inner)))
    } else if same_text(t, "summary") {
        Ok(MetricHandle::Summary(Summary(inner)))
    } else {
        Err(Error::UnknownType(spec.metric_type.clone()))
    }
}

/// Whether some entry of `metrics` is registered under `key`.
fn contains_key(metrics: &Vec<(String, MetricHandle)>, key: &str) -> (r: bool)
    ensures
        r == has_key(entries_view(metrics@), key@),
{
    let n = metrics.len();
    let mut i: usize = 0;
    while i < n
        invariant
            n == metrics@.len(),
            i <= n,
            forall|j: int| 0 <= j < i ==> (#[trigger] metrics@[j]).0@ != key@,
        decreases n - i,
    {
        if same_text(metrics[i].0.as_str(), key) {
            assert(entries_view(metrics@)[i as int].0 == key@);
            return true;
        }
        i = i + 1;
    }
    assert forall|j: int| 0 <= j < entries_view(metrics@).len() implies (
    #[trigger] entries_view(metrics@)[j]).0 != key@ by {
        assert(metrics@[j].0@ != key@);
    }
    false
}

impl Client {
    #[verifier::type_invariant]
    closed spec fn inv(self) -> bool {
        registry_well_formed(self@.entries, self@.prefix)
    }

    /// Builds the registry from the configuration and the metric definitions: refused on a
    /// mode conflict, and otherwise each definition in turn is checked, its metric named with
    /// the prefix, and registered under its short name, which must not be taken already.
    pub fn from_config(cfg: Config, specs: Vec<MetricSpec>) -> (r: Result<Client>)
        ensures
            match client_for(cfg@, specs_view(specs@)) {
                Ok(v) => r matches Ok(c) && c@ == v,
                Err(e) => r matches Err(x) && x@ == e,
            },
            r matches Ok(c) ==> registry_well_formed(c@.entries, c@.prefix),
    {
        proof {
            use_type_invariant(&cfg);
        }
        let ghost all = specs_view(specs@);
        if cfg.sync && (cfg.batch_size.is_some() || cfg.batch_timeout.is_some()) {
            return Err(Error::SyncModeConflict);
        }
        let prefix = cfg.prefix.as_str();
        let mut metrics: Vec<(String, MetricHandle)> = Vec::new();
        let n = specs.len();
        let mut i: usize = 0;
        assert(all.take(0) =~= Seq::<MetricSpecView>::empty());
        assert(entries_view(metrics@) =~= Seq::<(Seq<char>, HandleView)>::empty());
        while i < n
            invariant
                n == specs@.len(),
                all == specs_view(specs@),
                i <= n,
                prefix@ == cfg@.prefix,
                !mode_conflict(cfg@),
                registry_for(all.take(i as int), prefix@) == Ok::<
                    Seq<(Seq<char>, HandleView)>,
                    ErrorView,
                >(entries_view(metrics@)),
            decreases n - i,
        {
            let spec = &specs[i];
            assert(all.take(i + 1).drop_last() =~= all.take(i as int));
            assert(all.take(i + 1).last() == spec@);
            let handle = match build_handle(spec, prefix) {
                Ok(h) => h,
                Err(e) => {
                    proof {
                        lemma_registry_error_persists(all, i + 1, prefix@);
                    }
                    return Err(e);
                },
            };
            let key = stripped_key(spec.name.as_str(), prefix);
            if contains_key(&metrics, key.as_str()) {
                proof {
                    lemma_registry_error_persists(all, i + 1, prefix@);
                }
                return Err(Error::DuplicateMetric(key));
            }
            let ghost before = metrics@;
            metrics.push((key, handle));
            assert(entries_view(metrics@) =~= entries_view(before).push(
                entry_view(metrics@.last()),
            ));
            i = i + 1;
        }
        assert(all.take(n as int) =~= all);
        proof {
            lemma_registry_well_formed(all, cfg@.prefix);
        }
        Ok(Client { metrics, prefix: cfg.prefix, sync: cfg.sync })
    }

    /// Index of the entry registered under `name`, if any.
    fn position(&self, name: &str) -> (r: Option<usize>)
        ensures
            match r {
                Some(i) => i < self@.entries.len() && self@.entries[i as int].0 == name@
                    && lookup(self@.entries, name@) == Some(self@.entries[i as int].1),
                None => lookup(self@.entries, name@) is None,
            },
    {
        let n = self.metrics.len();
        let mut i: usize = 0;
        while i < n
            invariant
                n == self.metrics@.len(),
                i <= n,
                forall|j: int| 0 <= j < i ==> (#[trigger] self.metrics@[j]).0@ != name@,
            decreases n - i,
        {
            if same_text(self.metrics[i].0.as_str(), name) {
                proof {
                    use_type_invariant(self);
                    lemma_lookup_at(self@.entries, name@, i as int);
                }
                return Some(i);
            }
            i = i + 1;
        }
        assert forall|j: int| 0 <= j < self@.entries.len() implies (
        #[trigger] self@.entries[j]).0 != name@ by {
            assert(self.metrics@[j].0@ != name@);
        }
        None
    }

    /// Retrieve a metric handle by its short name (without prefix).
    pub fn metric(&self, name: &str) -> (r: Option<&MetricHandle>)
        ensures
            match lookup(self@.entries, name@) {
                Some(h) => r matches Some(x) && x@ == h,
                None => r is None,
            },
            r matches Some(h) ==> h@.collector.name == self@.prefix + name@ && valid_name(
                h@.collector.name,
            ),
    {
        proof {
            use_type_invariant(self);
        }
        match self.position(name) {
            Some(i) => Some(&self.metrics[i].1),
            None => None,
        }
    }

    /// Returns true if a metric with the given short name exists.
    pub fn has_metric(&self, name: &str) -> (r: bool)
        ensures
            r == lookup(self@.entries, name@) is Some,
    {
        self.position(name).is_some()
    }

    /// Returns all registered metric short names, in definition order.
    pub fn metric_names(&self) -> (r: Vec<&str>)
        ensures
            r@.len() == self@.entries.len(),
            forall|i: int| 0 <= i < r@.len() ==> (#[trigger] r@[i])@ == self@.entries[i].0,
    {
        let n = self.metrics.len();
        let mut names: Vec<&str> = Vec::new();
        let mut i: usize = 0;
        while i < n
            invariant
                n == self.metrics@.len(),
                i <= n,
                names@.len() == i,
                forall|j: int| 0 <= j < i ==> (#[trigger] names@[j])@ == self.metrics@[j].0@,
            decreases n - i,
        {
            names.push(self.metrics[i].0.as_str());
            i = i + 1;
        }
        names
    }

    /// Retrieve a counter by short name; none when no metric has that name or it is not a
    /// counter.
    pub fn counter(&self, name: &str) -> (r: Option<&Counter>)
        ensures
            match lookup(self@.entries, name@) {
                Some(h) => if h.kind is Counter {
                    r matches Some(c) && c@ == h.collector
                } else {
                    r is None
                },
                None => r is None,
            },
            r matches Some(c) ==> c@.name == self@.prefix + name@ && valid_name(c@.name),
    {
        match self.metric(name) {
            Some(MetricHandle::Counter(c)) => Some(c),
            _ => None,
        }
    }

    /// Retrieve a gauge by short name; none when no metric has that name or it is not a
    /// gauge.
    pub fn gauge(&self, name: &str) -> (r: Option<&Gauge>)
        ensures
            match lookup(self@.entries, name@) {
                Some(h) => if h.kind is Gauge {
                    r matches Some(g) && g@ == h.collector
                } else {
                    r is None
                },
                None => r is None,
            },
            r matches Some(g) ==> g@.name == self@.prefix + name@ && valid_name(g@.name),
    {
        match self.metric(name) {
            Some(MetricHandle::Gauge(g)) => Some(g),
            _ => None,
        }
    }

    /// Retrieve a histogram by short name; none when no metric has that name or it is not a
    /// histogram.
    pub fn histogram(&self, name: &str) -> (r: Option<&Histogram>)
        ensures
            match lookup(self@.entries, name@) {
                Some(h) => if h.kind is Histogram {
                    r matches Some(x) && x@ == h.collector
                } else {
                    r is None
                },
                None => r is None,
            },
            r matches Some(x) ==> x@.name == self@.prefix + name@ && valid_name(x@.name),
    {
        match self.metric(name) {
            Some(MetricHandle::Histogram(h)) => Some(h),
            _ => None,
        }
    }

    /// Retrieve a summary by short name; none when no metric has that name or it is not a
    /// summary.
    pub fn summary(&self, name: &str) -> (r: Option<&Summary>)
        ensures
            match lookup(self@.entries, name@) {
                Some(h) => if h.kind is Summary {
                    r matches Some(x) && x@ == h.collector
                } else {
                    r is None
                },
                None => r is None,
            },
            r matches Some(x) ==> x@.name == self@.prefix + name@ && valid_name(x@.name),
    {
        match self.metric(name) {
            Some(MetricHandle::Summary(s)) => Some(s),
            _ => None,
        }
    }

    /// Runs `f` on a fresh batch; what it gathered is to be written to the writer in one
    /// piece, and an empty batch is not written at all.
    pub fn multi<F: FnOnce(&mut Batch)>(&self, f: F) -> (r: Option<Vec<Metric>>)
        requires
            forall|b: &mut Batch| b.metrics@.len() == 0 ==> f.requires((b,)),
        ensures
            exists|b: &mut Batch|
                {
                    &&& b.metrics@.len() == 0
                    &&& f.ensures((b,), ())
                    &&& if final(b).metrics@.len() == 0 {
                        r is None
                    } else {
                        r == Some(final(b).metrics)
                    }
                },
    {
        let mut batch = Batch::new();
        f(&mut batch);
        if batch.metrics.len() == 0 {
            None
        } else {
            Some(batch.metrics)
        }
    }

    /// The prefix the metrics are sent under (with its `_` separator, or empty).
    pub fn prefix(&self) -> (r: &str)
        ensures
            r@ == self@.prefix,
    {
        self.prefix.as_str()
    }

    /// Whether the client was configured in synchronous mode.
    pub fn is_sync(&self) -> (r: bool)
        ensures
            r == self@.sync,
    {
        self.sync
    }
}

} // verus!
