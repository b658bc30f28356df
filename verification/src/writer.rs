//! The batching policy of the writer: which observations wait, and which are handed over to
//! be sent, at each write, flush, timer tick and shutdown.
use vstd::prelude::*;

use crate::metric::Metric;

verus! {

/// A span of time: whole seconds plus nanoseconds.
#[derive(Debug, Clone, Copy, PartialEq, Eq)]
pub struct Timeout {
    pub secs: u64,
    pub nanos: u32,
}

impl Timeout {
    pub fn from_secs(secs: u64) -> (t: Timeout)
        ensures
            t == (Timeout { secs, nanos: 0 }),
    {
        Timeout { secs, nanos: 0 }
    }

    pub fn is_zero(&self) -> (r: bool)
        ensures
            r == (self.secs == 0 && self.nanos == 0),
    {
        self.secs == 0 && self.nanos == 0
    }

    pub fn as_secs(&self) -> (r: u64)
        ensures
            r == self.secs,
    {
        self.secs
    }
}

/// The state of a [`Writer`]: its mode, batch size and flush interval, the observations that
/// wait to be sent, and whether it has been shut down.
pub struct WriterState {
    pub sync: bool,
    pub batch_size: usize,
    pub batch_timeout: Option<Timeout>,
    pub pending: Seq<Metric>,
    pub shut_down: bool,
}

/// What holds of every reachable writer state: a synchronous writer never holds observations,
/// and a buffering writer never holds a full batch.
pub open spec fn well_formed(s: WriterState) -> bool {
    &&& s.sync ==> s.pending.len() == 0
    &&& s.pending.len() == 0 || s.pending.len() < s.batch_size
}

/// Hand over all pending observations when `force` is set and some wait, or when at least
/// `batch_size` wait; otherwise keep them.
pub open spec fn flushed(s: WriterState, force: bool) -> (WriterState, Option<Seq<Metric>>) {
    if (force && s.pending.len() > 0) || s.pending.len() >= s.batch_size {
        (WriterState { pending: Seq::empty(), ..s }, Some(s.pending))
    } else {
        (s, None)
    }
}

/// Writing `metrics`: a synchronous writer hands them over at once (when there are any); a
/// buffering writer adds them to the pending ones and hands all over once a batch is full.
pub open spec fn write_many_step(s: WriterState, metrics: Seq<Metric>) -> (
    WriterState,
    Option<Seq<Metric>>,
) {
    if s.sync {
        (s, if metrics.len() == 0 {
            None
        } else {
            Some(metrics)
        })
    } else {
        flushed(WriterState { pending: s.pending + metrics, ..s }, false)
    }
}

/// Flushing: a buffering writer hands over whatever waits; a synchronous writer does nothing.
pub open spec fn flush_step(s: WriterState) -> (WriterState, Option<Seq<Metric>>) {
    if s.sync {
        (s, None)
    } else {
        flushed(s, true)
    }
}

/// Shutting down: a buffering writer hands over whatever waits and records that it is shut
/// down; a synchronous writer does nothing.
pub open spec fn shutdown_step(s: WriterState) -> (WriterState, Option<Seq<Metric>>) {
    if s.sync {
        (s, None)
    } else {
        let (t, out) = flushed(s, true);
        (WriterState { shut_down: true, ..t }, out)
    }
}

/// The periodic timer: whatever waits is handed over, and the timer stops once the writer
/// has been shut down.
pub open spec fn tick_step(s: WriterState) -> (WriterState, Option<Seq<Metric>>, bool) {
    let (t, out) = flushed(s, true);
    (t, out, s.shut_down)
}

/// The observations handed over by a call, as a sequence.
pub open spec fn handed_over(r: &Option<Vec<Metric>>) -> Option<Seq<Metric>> {
    match r {
        Some(v) => Some(v@),
        None => None,
    }
}

/// One operation on a writer, for stating what holds across a run of operations.
pub enum WriterEvent {
    WriteMany(Seq<Metric>),
    Flush,
    Tick,
    Shutdown,
}

/// The state after one operation and the observations it hands over.
pub open spec fn step(s: WriterState, e: WriterEvent) -> (WriterState, Option<Seq<Metric>>) {
    match e {
        WriterEvent::WriteMany(m) => write_many_step(s, m),
        WriterEvent::Flush => flush_step(s),
        WriterEvent::Tick => {
            let (t, out, _) = tick_step(s);
            (t, out)
        },
        WriterEvent::Shutdown => shutdown_step(s),
    }
}

/// The observations of an optional batch, none when there is no batch.
pub open spec fn batch_items(o: Option<Seq<Metric>>) -> Seq<Metric> {
    match o {
        Some(b) => b,
        None => Seq::empty(),
    }
}

/// The state after a run of operations, and everything handed over during it, in order.
pub open spec fn run(s: WriterState, events: Seq<WriterEvent>) -> (WriterState, Seq<Metric>)
    decreases events.len(),
{
    if events.len() == 0 {
        (s, Seq::empty())
    } else {
        let (t, sent) = run(s, events.drop_last());
        let (u, out) = step(t, events.last());
        (u, sent + batch_items(out))
    }
}

/// Everything written during a run of operations, in order.
pub open spec fn written(events: Seq<WriterEvent>) -> Seq<Metric>
    decreases events.len(),
{
    if events.len() == 0 {
        Seq::empty()
    } else {
        written(events.drop_last()) + match events.last() {
            WriterEvent::WriteMany(m) => m,
            _ => Seq::empty(),
        }
    }
}

/// What one write does: a buffering writer hands over everything that waits followed by the
/// new observations, in order, exactly when together they reach the batch size, and keeps them
/// all otherwise; a synchronous writer hands the new observations over at once, when there are
/// any, and keeps nothing. A flush of a buffering writer hands over exactly what waits, when
/// anything does.
pub proof fn lemma_write_hands_over_full_batches(s: WriterState, m: Seq<Metric>)
    ensures
        !s.sync && s.pending.len() + m.len() >= s.batch_size ==> {
            &&& write_many_step(s, m).1 == Some(s.pending + m)
            &&& write_many_step(s, m).0.pending.len() == 0
        },
        !s.sync && s.pending.len() + m.len() < s.batch_size ==> {
            &&& write_many_step(s, m).1 is None
            &&& write_many_step(s, m).0.pending == s.pending + m
        },
        s.sync && m.len() > 0 ==> write_many_step(s, m).1 == Some(m) && write_many_step(s, m).0
            == s,
        s.sync && m.len() == 0 ==> write_many_step(s, m).1 is None && write_many_step(s, m).0
            == s,
        !s.sync && s.pending.len() > 0 ==> {
            &&& flush_step(s).1 == Some(s.pending)
            &&& flush_step(s).0.pending.len() == 0
        },
        !s.sync && s.pending.len() == 0 && s.batch_size > 0 ==> flush_step(s).1 is None,
{
}

/// Every operation keeps a writer state well formed, and a flush, a timer tick or a shutdown
/// leaves nothing pending.
pub proof fn lemma_step_well_formed(s: WriterState, e: WriterEvent)
    requires
        well_formed(s),
    ensures
        well_formed(step(s, e).0),
        step(s, e).0.sync == s.sync,
        step(s, e).0.batch_size == s.batch_size,
        !(e is WriteMany) ==> step(s, e).0.pending.len() == 0,
{
}

/// Across any run of writes, flushes, timer ticks and shutdowns, the observations handed over,
/// followed by those still pending, are those pending at the start followed by everything
/// written, in the order written: nothing is lost, repeated or reordered; and the writer stays
/// well formed throughout.
pub proof fn lemma_run_delivers_in_order(s: WriterState, events: Seq<WriterEvent>)
    requires
        well_formed(s),
    ensures
        well_formed(run(s, events).0),
        run(s, events).1 + run(s, events).0.pending == s.pending + written(events),
    decreases events.len(),
{
    if events.len() > 0 {
        let (t, sent) = run(s, events.drop_last());
        lemma_run_delivers_in_order(s, events.drop_last());
        lemma_step_well_formed(t, events.last());
        let (u, out) = step(t, events.last());
        match events.last() {
            WriterEvent::WriteMany(m) => {
                assert(sent + batch_items(out) + u.pending =~= s.pending + written(
                    events.drop_last(),
                ) + m);
            },
            _ => {
                assert(sent + batch_items(out) + u.pending =~= s.pending + written(
                    events.drop_last(),
                ));
            },
        }
    }
}

/// Buffers observations and decides when a batch is handed over to be sent.
///
/// A buffering writer keeps observations until `batch_size` of them wait, or until a flush,
/// a timer tick or shutdown; a synchronous writer hands every write over at once.
pub struct Writer {
    sync: bool,
    batch_size: usize,
    batch_timeout: Option<Timeout>,
    messages: Vec<Metric>,
    shut_down: bool,
}

impl View for Writer {
    type V = WriterState;

    closed spec fn view(&self) -> WriterState {
        WriterState {
            sync: self.sync,
            batch_size: self.batch_size,
            batch_timeout: self.batch_timeout,
            pending: self.messages@,
            shut_down: self.shut_down,
        }
    }
}

impl Writer {
    #[verifier::type_invariant]
    closed spec fn inv(self) -> bool {
        well_formed(self@)
    }

    /// A buffering writer that hands over batches of `batch_size` observations and is flushed
    /// every `batch_timeout` by the caller's timer.
    pub fn new(batch_size: usize, batch_timeout: Timeout) -> (w: Writer)
        ensures
            w@ == (WriterState {
                sync: false,
                batch_size,
                batch_timeout: Some(batch_timeout),
                pending: Seq::empty(),
                shut_down: false,
            }),
    {
        Writer {
            sync: false,
            batch_size,
            batch_timeout: Some(batch_timeout),
            messages: Vec::new(),
            shut_down: false,
        }
    }

    /// A synchronous writer: every write is handed over at once, and nothing is buffered.
    pub fn new_sync() -> (w: Writer)
        ensures
            w@ == (WriterState {
                sync: true,
                batch_size: 1,
                batch_timeout: None,
                pending: Seq::empty(),
                shut_down: false,
            }),
    {
        Writer {
            sync: true,
            batch_size: 1,
            batch_timeout: None,
            messages: Vec::new(),
            shut_down: false,
        }
    }

    pub fn is_sync(&self) -> (r: bool)
        ensures
            r == self@.sync,
    {
        self.sync
    }

    /// The interval of the flush timer; none for a synchronous writer.
    pub fn batch_timeout(&self) -> (r: Option<Timeout>)
        ensures
            r == self@.batch_timeout,
    {
        self.batch_timeout
    }

    /// Hands over the pending observations when `force` is set and some wait, or when a full
    /// batch waits.
    fn flush_locked(&mut self, force: bool) -> (r: Option<Vec<Metric>>)
        ensures
            (final(self)@, handed_over(&r)) == flushed(old(self)@, force),
    {
        proof {
            use_type_invariant(&*self);
        }
        if (force && self.messages.len() > 0) || self.messages.len() >= self.batch_size {
            let mut out: Vec<Metric> = Vec::new();
            std::mem::swap(&mut out, &mut self.messages);
            Some(out)
        } else {
            None
        }
    }

    /// Writes one observation; the result is the batch to send, if any.
    pub fn write(&mut self, metric: Metric) -> (r: Option<Vec<Metric>>)
        ensures
            (final(self)@, handed_over(&r)) == write_many_step(old(self)@, seq![metric]),
    {
        let mut one: Vec<Metric> = Vec::new();
        one.push(metric);
        self.write_many(one)
    }

    /// Writes several observations together; the result is the batch to send, if any.
    pub fn write_many(&mut self, metrics: Vec<Metric>) -> (r: Option<Vec<Metric>>)
        ensures
            (final(self)@, handed_over(&r)) == write_many_step(old(self)@, metrics@),
    {
        proof {
            use_type_invariant(&*self);
        }
        if self.sync {
            if metrics.len() == 0 {
                return None;
            }
            return Some(metrics);
        }
        let mut all: Vec<Metric> = Vec::new();
        std::mem::swap(&mut all, &mut self.messages);
        let mut incoming = metrics;
        all.append(&mut incoming);
        if all.len() >= self.batch_size {
            Some(all)
        } else {
            self.messages = all;
            None
        }
    }

    /// Hands over whatever waits; does nothing in synchronous mode.
    pub fn flush(&mut self) -> (r: Option<Vec<Metric>>)
        ensures
            (final(self)@, handed_over(&r)) == flush_step(old(self)@),
    {
        if self.sync {
            return None;
        }
        self.flush_locked(true)
    }

    /// Hands over whatever waits and marks the writer shut down, which stops the timer at its
    /// next tick; does nothing in synchronous mode.
    pub fn shutdown(&mut self) -> (r: Option<Vec<Metric>>)
        ensures
            (final(self)@, handed_over(&r)) == shutdown_step(old(self)@),
    {
        if self.sync {
            return None;
        }
        let out = self.flush();
        self.shut_down = true;
        out
    }

    /// One tick of the flush timer: hands over whatever waits, and tells whether the timer
    /// is to stop because the writer has been shut down.
    pub fn tick(&mut self) -> (r: (Option<Vec<Metric>>, bool))
        ensures
            (final(self)@, handed_over(&r.0), r.1) == tick_step(old(self)@),
    {
        let stop = self.shut_down;
        let out = self.flush_locked(true);
        (out, stop)
    }
}

} // verus!
