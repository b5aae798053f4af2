//! The decisions behind a run's Server-Sent Events stream. The stream polls the run and its
//! newly recorded samples in rounds; each round's outcome is handed to [`RunStream`], which
//! says which events to send and what to do next: poll the samples, sleep, or close.
//!
//! Two kinds of stream share this machine. The full API's stream tolerates a run row that has
//! vanished and skips what cannot be encoded; the public Demo's stream is bounded by a
//! lifetime and closes, with a fixed message, on anything unexpected.

use vstd::prelude::*;

verus! {

/// Which surface a stream serves.
#[derive(Debug, Clone, Copy, PartialEq, Eq, Structural)]
pub enum StreamKind {
    Full,
    Demo,
}

/// What a stream does next.
#[derive(Debug, Clone, Copy, PartialEq, Eq, Structural)]
pub enum StreamPhase {
    /// Poll the run row.
    PollRun,
    /// Poll the samples recorded after the last one sent. `terminal` says whether the run
    /// had reached a final outcome when it was polled, `done_encodes` whether that outcome
    /// can be sent.
    PollSamples { terminal: bool, done_encodes: bool },
    /// Wait one poll interval.
    Sleep,
    /// The stream has ended.
    Closed,
}

/// A stream's state between rounds.
#[derive(Debug, Clone, Copy, PartialEq, Eq, Structural)]
pub struct RunStream {
    pub kind: StreamKind,
    pub phase: StreamPhase,
    /// The tick of the last sample sent; `-1` before any.
    pub last_tick: i64,
    /// Whether the run's initial readings have been sent.
    pub sent_initial: bool,
}

/// Why a stream ended in error.
#[derive(Debug)]
pub enum StreamError {
    /// The Demo stream's lifetime ran out.
    LifetimeExceeded,
    /// The Demo run is no longer stored for its owner.
    RunUnavailable,
    /// The Demo stream met a storage or encoding failure.
    Unavailable,
    /// The full stream met a storage failure, described by the text.
    Failed(String),
}

/// An event to send.
#[derive(Debug)]
pub enum StreamEvent {
    /// The run's initial readings.
    Initial,
    /// The sample at this index of the batch just polled.
    Sample(usize),
    /// The run's final outcome; always the last event.
    Done,
    /// The reason the stream ends; always the last event.
    Error(StreamError),
}

/// What polling the run row gave.
#[derive(Debug)]
pub enum RunPoll {
    /// The run was found. `initial` is `None` when it has no initial readings yet, else
    /// whether they can be encoded; `terminal` whether its outcome is final, and
    /// `done_encodes` whether that outcome can be encoded.
    Found { initial: Option<bool>, terminal: bool, done_encodes: bool },
    /// No such run (for a Demo stream: none owned by this visitor).
    Missing,
    /// The storage failed, with this description.
    Failed(String),
    /// The Demo stream's deadline passed during the poll.
    TimedOut,
}

/// One newly recorded sample: its tick and whether it can be encoded.
#[derive(Debug, Clone, Copy, PartialEq, Eq, Structural)]
pub struct FetchedSample {
    pub tick: i64,
    pub encodes: bool,
}

/// What polling for new samples gave.
#[derive(Debug)]
pub enum SamplePoll {
    /// The samples recorded after the last one sent, in tick order.
    Fetched(Vec<FetchedSample>),
    /// The storage failed, with this description.
    Failed(String),
    /// The Demo stream's deadline passed during the poll.
    TimedOut,
}

/// Whether `e` ends a stream.
pub open spec fn is_final_event(e: StreamEvent) -> bool {
    e is Done || e is Error
}

/// The stream `s`, closed.
pub open spec fn closed(s: RunStream) -> RunStream {
    RunStream { kind: s.kind, phase: StreamPhase::Closed, last_tick: s.last_tick, sent_initial: s.sent_initial }
}

/// The stream `s`, next in `phase`.
pub open spec fn in_phase(s: RunStream, phase: StreamPhase) -> RunStream {
    RunStream { kind: s.kind, phase, last_tick: s.last_tick, sent_initial: s.sent_initial }
}

/// The error event ending a stream of kind `kind` on a storage failure described by `text`.
pub open spec fn storage_failure(kind: StreamKind, text: String) -> StreamEvent {
    match kind {
        StreamKind::Full => StreamEvent::Error(StreamError::Failed(text)),
        StreamKind::Demo => StreamEvent::Error(StreamError::Unavailable),
    }
}

/// A stream as it starts: a Demo stream whose lifetime is zero ends at once; any other polls
/// the run first, with nothing sent yet.
pub open spec fn opened(kind: StreamKind, lifetime_secs: u64) -> (RunStream, Seq<StreamEvent>) {
    let fresh = RunStream { kind, phase: StreamPhase::PollRun, last_tick: -1i64, sent_initial: false };
    if kind == StreamKind::Demo && lifetime_secs == 0 {
        (closed(fresh), seq![StreamEvent::Error(StreamError::LifetimeExceeded)])
    } else {
        (fresh, Seq::empty())
    }
}

/// One run poll. A found run's initial readings are sent once, the first time they are
/// there and encode; the samples are polled next, remembering whether the run is over. A
/// Demo stream ends on a missing run, a failure, a passed deadline or initial readings that
/// do not encode; a full stream goes on to the samples when the run is missing and skips
/// initial readings that do not encode.
pub open spec fn after_run_poll(s: RunStream, poll: RunPoll) -> (RunStream, Seq<StreamEvent>) {
    match poll {
        RunPoll::Failed(text) => (closed(s), seq![storage_failure(s.kind, text)]),
        RunPoll::TimedOut => (closed(s), seq![StreamEvent::Error(StreamError::LifetimeExceeded)]),
        RunPoll::Missing => match s.kind {
            StreamKind::Full => (
                in_phase(s, StreamPhase::PollSamples { terminal: false, done_encodes: false }),
                Seq::empty(),
            ),
            StreamKind::Demo => (closed(s), seq![StreamEvent::Error(StreamError::RunUnavailable)]),
        },
        RunPoll::Found { initial, terminal, done_encodes } => {
            let next = in_phase(s, StreamPhase::PollSamples { terminal, done_encodes });
            if !s.sent_initial && initial == Some(true) {
                (
                    RunStream {
                        kind: s.kind,
                        phase: next.phase,
                        last_tick: s.last_tick,
                        sent_initial: true,
                    },
                    seq![StreamEvent::Initial],
                )
            } else if !s.sent_initial && initial == Some(false) && s.kind == StreamKind::Demo {
                (closed(s), seq![StreamEvent::Error(StreamError::Unavailable)])
            } else {
                (next, Seq::empty())
            }
        },
    }
}

/// The sample events of the first `n` samples of `batch` that encode, in order.
pub open spec fn encodable_samples(batch: Seq<FetchedSample>, n: nat) -> Seq<StreamEvent>
    decreases n,
{
    if n == 0 {
        Seq::empty()
    } else {
        let k = (n - 1) as nat;
        encodable_samples(batch, k) + if batch[k as int].encodes {
            seq![StreamEvent::Sample(k as usize)]
        } else {
            Seq::empty()
        }
    }
}

/// The sample events of the first `n` samples of `batch`, in order.
pub open spec fn sample_events(n: nat) -> Seq<StreamEvent> {
    Seq::new(n, |i: int| StreamEvent::Sample(i as usize))
}

/// Whether every one of the first `n` samples of `batch` encodes.
pub open spec fn all_encode(batch: Seq<FetchedSample>, n: int) -> bool {
    forall|i: int| 0 <= i < n ==> (#[trigger] batch[i]).encodes
}

/// The events that follow a round's samples: the outcome when the run was over (or, on a
/// Demo stream, an error when the outcome cannot be encoded), else none.
pub open spec fn round_end(kind: StreamKind, terminal: bool, done_encodes: bool) -> Seq<StreamEvent> {
    if !terminal {
        Seq::empty()
    } else if done_encodes {
        seq![StreamEvent::Done]
    } else if kind == StreamKind::Demo {
        seq![StreamEvent::Error(StreamError::Unavailable)]
    } else {
        Seq::empty()
    }
}

/// One samples poll, in phase `PollSamples { terminal, done_encodes }`. Every fetched sample
/// is sent in order and its tick remembered; a full stream skips those that do not encode,
/// a Demo stream ends with an error at the first of them. Then a run that was over ends the
/// stream; else the stream sleeps. A failure or a passed deadline ends the stream.
pub open spec fn after_samples_poll(s: RunStream, poll: SamplePoll) -> (RunStream, Seq<StreamEvent>) {
    let (terminal, done_encodes) = match s.phase {
        StreamPhase::PollSamples { terminal, done_encodes } => (terminal, done_encodes),
        _ => (false, false),
    };
    match poll {
        SamplePoll::Failed(text) => (closed(s), seq![storage_failure(s.kind, text)]),
        SamplePoll::TimedOut => (closed(s), seq![StreamEvent::Error(StreamError::LifetimeExceeded)]),
        SamplePoll::Fetched(batch) => {
            let b = batch@;
            let tick = if b.len() == 0 {
                s.last_tick
            } else {
                b.last().tick
            };
            let moved = RunStream {
                kind: s.kind,
                phase: s.phase,
                last_tick: tick,
                sent_initial: s.sent_initial,
            };
            let next_phase = if terminal {
                StreamPhase::Closed
            } else {
                StreamPhase::Sleep
            };
            match s.kind {
                StreamKind::Full => (
                    in_phase(moved, next_phase),
                    encodable_samples(b, b.len()) + round_end(s.kind, terminal, done_encodes),
                ),
                StreamKind::Demo => if all_encode(b, b.len() as int) {
                    (
                        in_phase(moved, next_phase),
                        sample_events(b.len()) + round_end(s.kind, terminal, done_encodes),
                    )
                } else {
                    let f = choose|f: int|
                        0 <= f < b.len() && !b[f].encodes && all_encode(b, f);
                    (
                        RunStream {
                            kind: s.kind,
                            phase: StreamPhase::Closed,
                            last_tick: b[f].tick,
                            sent_initial: s.sent_initial,
                        },
                        sample_events(f as nat) + seq![StreamEvent::Error(StreamError::Unavailable)],
                    )
                },
            }
        },
    }
}

/// One sleep: a Demo stream whose deadline passed meanwhile ends; otherwise the run is
/// polled again.
pub open spec fn after_sleep(s: RunStream, timed_out: bool) -> (RunStream, Seq<StreamEvent>) {
    if timed_out {
        (closed(s), seq![StreamEvent::Error(StreamError::LifetimeExceeded)])
    } else {
        (in_phase(s, StreamPhase::PollRun), Seq::empty())
    }
}

/// The first sample of `batch`, from `from` on, that does not encode.
proof fn lemma_first_unencodable(batch: Seq<FetchedSample>, f: int)
    requires
        0 <= f < batch.len(),
        !batch[f].encodes,
        all_encode(batch, f),
    ensures
        (choose|g: int| 0 <= g < batch.len() && !batch[g].encodes && all_encode(batch, g)) == f,
{
    let g = choose|g: int| 0 <= g < batch.len() && !batch[g].encodes && all_encode(batch, g);
    assert(0 <= g < batch.len() && !batch[g].encodes && all_encode(batch, g));
    if g < f {
        assert(batch[g].encodes);
    }
    if f < g {
        assert(batch[f].encodes);
    }
}

/// A batch in which some sample does not encode has a first such sample.
proof fn lemma_some_unencodable(batch: Seq<FetchedSample>, n: int)
    requires
        0 <= n <= batch.len(),
        !all_encode(batch, n),
    ensures
        exists|f: int| 0 <= f < n && !batch[f].encodes && all_encode(batch, f),
    decreases n,
{
    if all_encode(batch, n - 1) {
        assert(!batch[n - 1].encodes);
        assert(0 <= n - 1 < n && !batch[n - 1].encodes && all_encode(batch, n - 1));
    } else {
        lemma_some_unencodable(batch, n - 1);
    }
}

impl StreamError {
    /// The text sent with the error event.
    pub fn text(&self) -> (r: String)
        ensures
            r@ == match self {
                StreamError::LifetimeExceeded => "demo stream lifetime exceeded"@,
                StreamError::RunUnavailable => "demo run is no longer available"@,
                StreamError::Unavailable => "demo stream unavailable"@,
                StreamError::Failed(text) => text@,
            },
    {
        match self {
            StreamError::LifetimeExceeded => String::from_str("demo stream lifetime exceeded"),
            StreamError::RunUnavailable => String::from_str("demo run is no longer available"),
            StreamError::Unavailable => String::from_str("demo stream unavailable"),
            StreamError::Failed(text) => text.clone(),
        }
    }
}

impl RunStream {
    /// A new stream of kind `kind`; `lifetime_secs` bounds a Demo stream.
    pub fn open(kind: StreamKind, lifetime_secs: u64) -> (r: (RunStream, Vec<StreamEvent>))
        ensures
            (r.0, r.1@) == opened(kind, lifetime_secs),
    {
        let fresh = RunStream {
            kind,
            phase: StreamPhase::PollRun,
            last_tick: -1,
            sent_initial: false,
        };
        if kind == StreamKind::Demo && lifetime_secs == 0 {
            let mut events = Vec::new();
            events.push(StreamEvent::Error(StreamError::LifetimeExceeded));
            proof {
                assert(events@ =~= seq![StreamEvent::Error(StreamError::LifetimeExceeded)]);
            }
            (RunStream { phase: StreamPhase::Closed, ..fresh }, events)
        } else {
            let events = Vec::new();
            proof {
                assert(events@ =~= Seq::<StreamEvent>::empty());
            }
            (fresh, events)
        }
    }

    fn close(&mut self, error: StreamError) -> (r: Vec<StreamEvent>)
        ensures
            *final(self) == closed(*old(self)),
            r@ == seq![StreamEvent::Error(error)],
    {
        self.phase = StreamPhase::Closed;
        let mut events = Vec::new();
        events.push(StreamEvent::Error(error));
        proof {
            assert(events@ =~= seq![StreamEvent::Error(error)]);
        }
        events
    }

    fn fail(&mut self, text: String) -> (r: Vec<StreamEvent>)
        ensures
            *final(self) == closed(*old(self)),
            r@ == seq![storage_failure(old(self).kind, text)],
    {
        match self.kind {
            StreamKind::Full => self.close(StreamError::Failed(text)),
            StreamKind::Demo => self.close(StreamError::Unavailable),
        }
    }

    /// Takes in what polling the run row gave.
    pub fn run_polled(&mut self, poll: RunPoll) -> (r: Vec<StreamEvent>)
        requires
            old(self).phase == StreamPhase::PollRun,
            old(self).kind == StreamKind::Full ==> !(poll is TimedOut),
        ensures
            (*final(self), r@) == after_run_poll(*old(self), poll),
    {
        let ghost s = *self;
        match poll {
            RunPoll::Failed(text) => self.fail(text),
            RunPoll::TimedOut => self.close(StreamError::LifetimeExceeded),
            RunPoll::Missing => match self.kind {
                StreamKind::Full => {
                    self.phase = StreamPhase::PollSamples { terminal: false, done_encodes: false };
                    let events = Vec::new();
                    proof {
                        assert(events@ =~= Seq::<StreamEvent>::empty());
                    }
                    events
                },
                StreamKind::Demo => self.close(StreamError::RunUnavailable),
            },
            RunPoll::Found { initial, terminal, done_encodes } => {
                let encodes = match initial {
                    Some(ok) => Some(ok),
                    None => None,
                };
                if !self.sent_initial && encodes == Some(false) && self.kind == StreamKind::Demo {
                    return self.close(StreamError::Unavailable);
                }
                self.phase = StreamPhase::PollSamples { terminal, done_encodes };
                let mut events = Vec::new();
                if !self.sent_initial && encodes == Some(true) {
                    self.sent_initial = true;
                    events.push(StreamEvent::Initial);
                    proof {
                        assert(events@ =~= seq![StreamEvent::Initial]);
                    }
                } else {
                    proof {
                        assert(events@ =~= Seq::<StreamEvent>::empty());
                    }
                }
                events
            },
        }
    }

    /// Takes in what polling for new samples gave.
    pub fn samples_polled(&mut self, poll: SamplePoll) -> (r: Vec<StreamEvent>)
        requires
            old(self).phase is PollSamples,
            old(self).kind == StreamKind::Full ==> !(poll is TimedOut),
        ensures
            (*final(self), r@) == after_samples_poll(*old(self), poll),
    {
        let (terminal, done_encodes) = match self.phase {
            StreamPhase::PollSamples { terminal, done_encodes } => (terminal, done_encodes),
            _ => (false, false),
        };
        match poll {
            SamplePoll::Failed(text) => self.fail(text),
            SamplePoll::TimedOut => self.close(StreamError::LifetimeExceeded),
            SamplePoll::Fetched(batch) => {
                let ghost s = *self;
                let ghost b = batch@;
                let mut events: Vec<StreamEvent> = Vec::new();
                let mut i: usize = 0;
                while i < batch.len()
                    invariant
                        b == batch@,
                        s == *old(self),
                        poll == SamplePoll::Fetched(batch),
                        s.phase == (StreamPhase::PollSamples { terminal, done_encodes }),
                        i <= b.len(),
                        self.kind == s.kind,
                        self.phase == s.phase,
                        self.sent_initial == s.sent_initial,
                        self.last_tick == if i == 0 {
                            s.last_tick
                        } else {
                            b[i - 1].tick
                        },
                        s.kind == StreamKind::Full ==> events@ == encodable_samples(b, i as nat),
                        s.kind == StreamKind::Demo ==> events@ == sample_events(i as nat)
                            && all_encode(b, i as int),
                    decreases b.len() - i,
                {
                    let sample = batch[i];
                    self.last_tick = sample.tick;
                    if sample.encodes {
                        events.push(StreamEvent::Sample(i));
                        proof {
                            if s.kind == StreamKind::Full {
                                assert(events@ =~= encodable_samples(b, (i + 1) as nat));
                            } else {
                                assert(events@ =~= sample_events((i + 1) as nat));
                            }
                        }
                    } else {
                        match self.kind {
                            StreamKind::Demo => {
                                self.phase = StreamPhase::Closed;
                                events.push(StreamEvent::Error(StreamError::Unavailable));
                                proof {
                                    lemma_first_unencodable(b, i as int);
                                    assert(!all_encode(b, b.len() as int));
                                    assert(events@ =~= sample_events(i as nat) + seq![
                                        StreamEvent::Error(StreamError::Unavailable),
                                    ]);
                                }
                                return events;
                            },
                            StreamKind::Full => {
                                proof {
                                    assert(encodable_samples(b, (i + 1) as nat) =~= encodable_samples(b, i as nat));
                                }
                            },
                        }
                    }
                    i = i + 1;
                }
                if terminal {
                    self.phase = StreamPhase::Closed;
                    if done_encodes {
                        events.push(StreamEvent::Done);
                    } else if self.kind == StreamKind::Demo {
                        events.push(StreamEvent::Error(StreamError::Unavailable));
                    }
                } else {
                    self.phase = StreamPhase::Sleep;
                }
                proof {
                    let end = round_end(s.kind, terminal, done_encodes);
                    if s.kind == StreamKind::Full {
                        assert(events@ =~= encodable_samples(b, b.len()) + end);
                    } else {
                        assert(events@ =~= sample_events(b.len()) + end);
                    }
                    if b.len() > 0 {
                        assert(b.last() == b[b.len() - 1]);
                    }
                }
                events
            },
        }
    }

    /// Takes in how the sleep between rounds ended.
    pub fn slept(&mut self, timed_out: bool) -> (r: Vec<StreamEvent>)
        requires
            old(self).phase == StreamPhase::Sleep,
            old(self).kind == StreamKind::Full ==> !timed_out,
        ensures
            (*final(self), r@) == after_sleep(*old(self), timed_out),
    {
        if timed_out {
            self.close(StreamError::LifetimeExceeded)
        } else {
            self.phase = StreamPhase::PollRun;
            let events = Vec::new();
            proof {
                assert(events@ =~= Seq::<StreamEvent>::empty());
            }
            events
        }
    }
}

/// Whether `events` is a round's output that ends the stream only at its last event: a
/// `Done` or `Error` appears nowhere but last, and appears there exactly when `next` is
/// closed.
pub open spec fn ends_cleanly(next: RunStream, events: Seq<StreamEvent>) -> bool {
    &&& forall|k: int| 0 <= k < events.len() - 1 ==> !is_final_event(#[trigger] events[k])
    &&& (next.phase == StreamPhase::Closed) == (events.len() > 0 && is_final_event(events.last()))
}

proof fn lemma_encodable_samples_are_samples(batch: Seq<FetchedSample>, n: nat)
    requires
        n <= batch.len(),
    ensures
        forall|k: int| 0 <= k < encodable_samples(batch, n).len() ==> (#[trigger] encodable_samples(batch, n)[k]) is Sample,
    decreases n,
{
    if n > 0 {
        lemma_encodable_samples_are_samples(batch, (n - 1) as nat);
    }
}

/// Law: a stream ends exactly when it sends a `Done` or an `Error`, which is then the last
/// event it sends; it never sends anything after its final event (no step is defined on a
/// closed stream). The one silent close is left out: a full stream whose run is over but
/// whose outcome cannot be encoded ends without a final event.
pub proof fn law_stream_ends_with_its_final_event(
    kind: StreamKind,
    lifetime_secs: u64,
    s: RunStream,
    run: RunPoll,
    samples: SamplePoll,
    timed_out: bool,
)
    ensures
        ends_cleanly(opened(kind, lifetime_secs).0, opened(kind, lifetime_secs).1),
        s.phase == StreamPhase::PollRun ==> ends_cleanly(after_run_poll(s, run).0, after_run_poll(s, run).1),
        s.phase is PollSamples && !(s.kind == StreamKind::Full && s.phase == (StreamPhase::PollSamples {
            terminal: true,
            done_encodes: false,
        })) ==> ends_cleanly(after_samples_poll(s, samples).0, after_samples_poll(s, samples).1),
        s.phase == StreamPhase::Sleep ==> ends_cleanly(after_sleep(s, timed_out).0, after_sleep(s, timed_out).1),
{
    if s.phase is PollSamples {
        match samples {
            SamplePoll::Fetched(batch) => {
                let b = batch@;
                lemma_encodable_samples_are_samples(b, b.len());
                let (next, events) = after_samples_poll(s, samples);
                let (terminal, done_encodes) = match s.phase {
                    StreamPhase::PollSamples { terminal, done_encodes } => (terminal, done_encodes),
                    _ => (false, false),
                };
                let end = round_end(s.kind, terminal, done_encodes);
                if s.kind == StreamKind::Full {
                    let body = encodable_samples(b, b.len());
                    assert(events == body + end);
                    assert forall|k: int| 0 <= k < events.len() - 1 implies !is_final_event(#[trigger] events[k]) by {
                        if k < body.len() {
                            assert(body[k] is Sample);
                        }
                    }
                    if next.phase == StreamPhase::Closed {
                        assert(terminal);
                    }
                } else if all_encode(b, b.len() as int) {
                    let body = sample_events(b.len());
                    assert(events == body + end);
                    assert forall|k: int| 0 <= k < events.len() - 1 implies !is_final_event(#[trigger] events[k]) by {
                        if k < body.len() {
                            assert(body[k] is Sample);
                        }
                    }
                } else {
                    lemma_some_unencodable(b, b.len() as int);
                    let f = choose|f: int| 0 <= f < b.len() && !b[f].encodes && all_encode(b, f);
                    let body = sample_events(f as nat);
                    assert(events == body + seq![StreamEvent::Error(StreamError::Unavailable)]);
                    assert forall|k: int| 0 <= k < events.len() - 1 implies !is_final_event(#[trigger] events[k]) by {
                        assert(body[k] is Sample);
                    }
                }
            },
            _ => {},
        }
    }
}

/// Law: a stream sends the run's initial readings at most once: only while they have not been
/// sent, after which it remembers that they were; and no step forgets it.
pub proof fn law_initial_readings_sent_once(s: RunStream, run: RunPoll, samples: SamplePoll, timed_out: bool)
    ensures
        after_run_poll(s, run).1.contains(StreamEvent::Initial) ==> !s.sent_initial
            && after_run_poll(s, run).0.sent_initial,
        s.sent_initial ==> after_run_poll(s, run).0.sent_initial,
        s.sent_initial ==> after_samples_poll(s, samples).0.sent_initial,
        s.sent_initial ==> after_sleep(s, timed_out).0.sent_initial,
{
    let events = after_run_poll(s, run).1;
    if events.contains(StreamEvent::Initial) {
        let k = choose|k: int| 0 <= k < events.len() && events[k] == StreamEvent::Initial;
        assert(events[k] == StreamEvent::Initial);
    }
}

proof fn lemma_all_encodable_samples(batch: Seq<FetchedSample>, n: nat)
    requires
        n <= batch.len(),
        all_encode(batch, n as int),
    ensures
        encodable_samples(batch, n) == sample_events(n),
    decreases n,
{
    if n > 0 {
        let k = (n - 1) as nat;
        lemma_all_encodable_samples(batch, k);
        assert(batch[k as int].encodes);
        assert(sample_events(k) + seq![StreamEvent::Sample(k as usize)] =~= sample_events(n));
    }
}

/// Law: a stream whose run is over, with an outcome that encodes, replays the batch it fetched
/// and then ends with the outcome. Whatever its kind, when every fetched sample encodes it
/// sends each of them in order, then exactly one `Done` as its last event and no error, and
/// it closes.
pub proof fn law_finished_run_ends_with_done(s: RunStream, batch: Vec<FetchedSample>)
    requires
        s.phase == (StreamPhase::PollSamples { terminal: true, done_encodes: true }),
        all_encode(batch@, batch@.len() as int),
    ensures
        ({
            let (next, events) = after_samples_poll(s, SamplePoll::Fetched(batch));
            &&& next.phase == StreamPhase::Closed
            &&& events.len() == batch@.len() + 1
            &&& forall|i: int| 0 <= i < batch@.len() ==> #[trigger] events[i] == StreamEvent::Sample(i as usize)
            &&& events.last() == StreamEvent::Done
            &&& forall|i: int| 0 <= i < events.len() - 1 ==> !(#[trigger] events[i] is Done)
            &&& forall|i: int| 0 <= i < events.len() ==> !(#[trigger] events[i] is Error)
        }),
{
    let b = batch@;
    lemma_all_encodable_samples(b, b.len());
    let (next, events) = after_samples_poll(s, SamplePoll::Fetched(batch));
    assert(events =~= sample_events(b.len()) + seq![StreamEvent::Done]);
}

} // verus!
