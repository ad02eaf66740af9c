//! Running-maxima aggregation and rate-limited emission decisions.
//!
//! The aggregator consumes one traffic sample at a time, keeps the largest
//! upload and download rates seen so far, and decides whether an emission is
//! due: the first sample after startup emits immediately, every later one
//! emits only when at least the configured interval (in whole seconds) has
//! elapsed since the previous emission.

use vstd::prelude::*;

verus! {

/// One instantaneous throughput measurement, in bytes per second.
#[derive(Clone, Copy, PartialEq, Eq, Structural, Debug)]
pub struct TrafficSample {
    pub up: u64,
    pub down: u64,
}

/// Process-lifetime aggregation state: the running maxima and the monotonic
/// timestamp (milliseconds) of the last emission, `None` until the first one.
#[derive(Clone, Copy, PartialEq, Eq, Structural, Debug)]
pub struct AggregateState {
    pub max_upload: u64,
    pub max_download: u64,
    pub last_emitted_at: Option<u64>,
}

/// The larger of two rates.
pub open spec fn max64(a: u64, b: u64) -> u64 {
    if a >= b {
        a
    } else {
        b
    }
}

impl AggregateState {
    /// The clock reading handed to `observe` never precedes the last emission.
    pub open spec fn wf(self, now_ms: u64) -> bool {
        match self.last_emitted_at {
            Some(t) => t <= now_ms,
            None => true,
        }
    }

    /// An emission is due: either nothing was ever emitted, or at least
    /// `interval_secs` whole seconds have passed since the last emission.
    pub open spec fn due(self, now_ms: u64, interval_secs: u64) -> bool {
        match self.last_emitted_at {
            Some(t) => (now_ms - t) / 1000 >= interval_secs,
            None => true,
        }
    }

    pub fn new() -> (r: Self)
        ensures
            r == (AggregateState { max_upload: 0u64, max_download: 0u64, last_emitted_at: None::<u64> }),
    {
        AggregateState { max_upload: 0, max_download: 0, last_emitted_at: None }
    }

    /// Feed one sample: the maxima always absorb the sample, and the result
    /// says whether to emit now; on emission the state remembers this instant.
    pub fn observe(&mut self, sample: TrafficSample, now_ms: u64, interval_secs: u64) -> (emit:
        bool)
        requires
            old(self).wf(now_ms),
        ensures
            (*final(self), emit) == observe_spec(*old(self), sample, now_ms, interval_secs),
            final(self).wf(now_ms),
    {
        if sample.up > self.max_upload {
            self.max_upload = sample.up;
        }
        if sample.down > self.max_download {
            self.max_download = sample.down;
        }
        let due = match self.last_emitted_at {
            Some(t) => (now_ms - t) / 1000 >= interval_secs,
            None => true,
        };
        if due {
            self.last_emitted_at = Some(now_ms);
        }
        due
    }
}

/// What one `observe` step does: maxima absorb the sample; if an emission is
/// due the emission clock advances to `now_ms`, otherwise nothing else moves.
pub open spec fn observe_spec(s: AggregateState, sample: TrafficSample, now_ms: u64, interval_secs: u64) -> (
    AggregateState,
    bool,
) {
    let bumped = AggregateState {
        max_upload: max64(s.max_upload, sample.up),
        max_download: max64(s.max_download, sample.down),
        last_emitted_at: s.last_emitted_at,
    };
    if s.due(now_ms, interval_secs) {
        (AggregateState { last_emitted_at: Some(now_ms), ..bumped }, true)
    } else {
        (bumped, false)
    }
}

/// The running maximum of a sequence of rates, starting from `init`.
pub open spec fn run_max(init: u64, xs: Seq<u64>) -> u64
    decreases xs.len(),
{
    if xs.len() == 0 {
        init
    } else {
        max64(run_max(init, xs.drop_last()), xs.last())
    }
}

/// The running maximum is correct: it dominates the start value and every
/// element of the sequence, and it is one of them. In particular, starting
/// from zero it is exactly the true maximum of the sequence.
pub proof fn lemma_run_max_correct(init: u64, xs: Seq<u64>)
    ensures
        init <= run_max(init, xs),
        forall|i: int| 0 <= i < xs.len() ==> xs[i] <= run_max(init, xs),
        run_max(init, xs) == init || exists|i: int| 0 <= i < xs.len() && xs[i] == run_max(init, xs),
    decreases xs.len(),
{
    if xs.len() > 0 {
        lemma_run_max_correct(init, xs.drop_last());
        assert(forall|i: int|
            0 <= i < xs.len() - 1 ==> xs[i] == xs.drop_last()[i] && xs[i] <= run_max(
                init,
                xs.drop_last(),
            ));
        if run_max(init, xs) != xs.last() {
            assert(run_max(init, xs) == run_max(init, xs.drop_last()));
            if run_max(init, xs) != init {
                let j = choose|j: int|
                    0 <= j < xs.drop_last().len() && xs.drop_last()[j] == run_max(
                        init,
                        xs.drop_last(),
                    );
                assert(xs[j] == run_max(init, xs));
            }
        } else {
            assert(xs[xs.len() - 1] == run_max(init, xs));
        }
    }
}

/// The running maximum never decreases as further samples arrive.
pub proof fn lemma_run_max_monotonic(init: u64, xs: Seq<u64>, n: int)
    requires
        0 <= n <= xs.len(),
    ensures
        run_max(init, xs.take(n)) <= run_max(init, xs),
    decreases xs.len() - n,
{
    if n < xs.len() {
        lemma_run_max_monotonic(init, xs, n + 1);
        assert(xs.take(n + 1).drop_last() =~= xs.take(n));
        assert(run_max(init, xs.take(n)) <= run_max(init, xs.take(n + 1)));
    } else {
        assert(xs.take(n) =~= xs);
    }
}

/// The final aggregate state and the emission instants produced by feeding a
/// whole trace of (sample, clock) events through `observe`, in order.
pub open spec fn run_trace(
    s: AggregateState,
    events: Seq<(TrafficSample, u64)>,
    interval_secs: u64,
) -> (AggregateState, Seq<u64>)
    decreases events.len(),
{
    if events.len() == 0 {
        (s, Seq::empty())
    } else {
        let (s1, emit) = observe_spec(s, events[0].0, events[0].1, interval_secs);
        let (sf, rest) = run_trace(s1, events.drop_first(), interval_secs);
        (sf, if emit {
            seq![events[0].1] + rest
        } else {
            rest
        })
    }
}

/// The running maximum can also be peeled from the front.
proof fn lemma_run_max_front(init: u64, xs: Seq<u64>)
    requires
        xs.len() > 0,
    ensures
        run_max(init, xs) == run_max(max64(init, xs[0]), xs.drop_first()),
    decreases xs.len(),
{
    if xs.len() == 1 {
        reveal_with_fuel(run_max, 2);
        assert(xs.drop_last() =~= Seq::<u64>::empty());
        assert(xs.drop_first() =~= Seq::<u64>::empty());
    } else {
        let x0 = xs[0];
        let rest = xs.drop_first();
        lemma_run_max_front(init, xs.drop_last());
        assert(xs.drop_last()[0] == x0);
        assert(xs.drop_last().drop_first() =~= rest.drop_last());
        assert(rest.last() == xs.last());
        assert(run_max(max64(init, x0), rest) == max64(
            run_max(max64(init, x0), rest.drop_last()),
            rest.last(),
        ));
        assert(run_max(init, xs) == max64(run_max(init, xs.drop_last()), xs.last()));
    }
}

/// The upload rates of a trace, in order.
pub open spec fn trace_ups(events: Seq<(TrafficSample, u64)>) -> Seq<u64> {
    events.map_values(|e: (TrafficSample, u64)| e.0.up)
}

/// The download rates of a trace, in order.
pub open spec fn trace_downs(events: Seq<(TrafficSample, u64)>) -> Seq<u64> {
    events.map_values(|e: (TrafficSample, u64)| e.0.down)
}

/// After a whole trace of observations the state's maxima are exactly the
/// running maxima of the observed rates — by `lemma_run_max_correct`, the
/// true maximum of every rate the trace carried (and the start value).
#[verifier::rlimit(50)]
pub proof fn lemma_trace_maxima(
    s: AggregateState,
    events: Seq<(TrafficSample, u64)>,
    interval_secs: u64,
)
    ensures
        run_trace(s, events, interval_secs).0.max_upload == run_max(s.max_upload, trace_ups(events)),
        run_trace(s, events, interval_secs).0.max_download == run_max(
            s.max_download,
            trace_downs(events),
        ),
    decreases events.len(),
{
    if events.len() == 0 {
        assert(trace_ups(events) =~= Seq::<u64>::empty());
        assert(trace_downs(events) =~= Seq::<u64>::empty());
    } else {
        let (s1, _) = observe_spec(s, events[0].0, events[0].1, interval_secs);
        lemma_trace_maxima(s1, events.drop_first(), interval_secs);
        lemma_run_max_front(s.max_upload, trace_ups(events));
        lemma_run_max_front(s.max_download, trace_downs(events));
        assert(trace_ups(events).drop_first() =~= trace_ups(events.drop_first()));
        assert(trace_downs(events).drop_first() =~= trace_downs(events.drop_first()));
        assert(trace_ups(events)[0] == events[0].0.up);
        assert(trace_downs(events)[0] == events[0].0.down);
    }
}

/// The trace's clock readings never go backwards, and none precedes the
/// last emission already recorded in the starting state.
pub open spec fn trace_wf(s: AggregateState, events: Seq<(TrafficSample, u64)>) -> bool {
    &&& forall|i: int, j: int| 0 <= i <= j < events.len() ==> events[i].1 <= events[j].1
    &&& (events.len() > 0 ==> s.wf(events[0].1))
}

/// Rate limiting over a whole trace: the instants at which `observe` emits
/// are in order, consecutive ones lie at least `interval_secs` whole seconds
/// apart, the first one is likewise spaced from any emission recorded in the
/// starting state (while a fresh state emits on the very first sample), and
/// the final state remembers the last emission instant.
pub proof fn lemma_emission_spacing(
    s: AggregateState,
    events: Seq<(TrafficSample, u64)>,
    interval_secs: u64,
)
    requires
        trace_wf(s, events),
    ensures
        ({
            let (sf, em) = run_trace(s, events, interval_secs);
            &&& forall|k: int| 0 <= k < em.len() - 1 ==> #[trigger] em[k] <= em[k + 1]
            &&& forall|k: int|
                0 <= k < em.len() - 1 ==> (em[k + 1] - #[trigger] em[k]) / 1000 >= interval_secs
            &&& (em.len() > 0 && s.last_emitted_at is Some ==> {
                let t0 = s.last_emitted_at.unwrap();
                t0 <= em[0] && (em[0] - t0) / 1000 >= interval_secs
            })
            &&& sf.last_emitted_at == if em.len() > 0 {
                Some(em.last())
            } else {
                s.last_emitted_at
            }
            &&& (em.len() > 0 ==> events[0].1 <= em[0])
            &&& (s.last_emitted_at is None && events.len() > 0 ==> em.len() > 0 && em[0]
                == events[0].1)
        }),
    decreases events.len(),
{
    if events.len() > 0 {
        let (s1, emit) = observe_spec(s, events[0].0, events[0].1, interval_secs);
        let tail = events.drop_first();
        assert(forall|i: int, j: int| 0 <= i <= j < tail.len() ==> tail[i].1 <= tail[j].1) by {
            assert(forall|i: int| 0 <= i < tail.len() ==> tail[i] == events[i + 1]);
        }
        assert(tail.len() > 0 ==> s1.wf(tail[0].1)) by {
            if tail.len() > 0 {
                assert(events[0].1 <= events[1].1);
                assert(tail[0] == events[1]);
            }
        }
        lemma_emission_spacing(s1, tail, interval_secs);
        let (sf, rest) = run_trace(s1, tail, interval_secs);
        if emit {
            let em = seq![events[0].1] + rest;
            assert(em[0] == events[0].1);
            assert(s1.last_emitted_at == Some(events[0].1));
            assert(forall|k: int| 0 <= k < rest.len() ==> em[k + 1] == rest[k]);
            if rest.len() > 0 {
                assert(em.last() == rest.last());
            }
        }
    }
}

} // verus!
