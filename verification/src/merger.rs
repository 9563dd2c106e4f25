use vstd::prelude::*;
use crate::sample::{ActivitySample, SampleModel};

verus! {

/// One outbound heartbeat: a sample, the instant it was observed (in
/// milliseconds), and a zero duration. The backend merges consecutive
/// heartbeats that carry the same data within a merge window into intervals,
/// so an emitted heartbeat marks an instant, never a span.
pub struct HeartbeatEvent {
    pub sample: ActivitySample,
    pub timestamp_ms: i64,
    pub duration_ms: i64,
}

/// The mathematical value of a [`HeartbeatEvent`].
pub ghost struct HeartbeatModel {
    pub sample: SampleModel,
    pub timestamp_ms: int,
    pub duration_ms: int,
}

impl View for HeartbeatEvent {
    type V = HeartbeatModel;

    open spec fn view(&self) -> HeartbeatModel {
        HeartbeatModel {
            sample: self.sample@,
            timestamp_ms: self.timestamp_ms as int,
            duration_ms: self.duration_ms as int,
        }
    }
}

/// A heartbeat for sample `s` at instant `t`, with the zero duration every
/// emitted heartbeat carries.
pub open spec fn heartbeat(s: SampleModel, t: int) -> HeartbeatModel {
    HeartbeatModel { sample: s, timestamp_ms: t, duration_ms: 0 }
}

/// The heartbeats one merger step emits, in order. With no previous sample
/// (cold start) or with an unchanged sample (continuation), exactly one
/// heartbeat at `now`. On a change, two: one that closes the previous
/// activity at `now - 1`, strictly before the one that opens the new
/// activity at `now`, so the backend never overlaps the two intervals.
pub open spec fn step_emits(prev: Option<SampleModel>, s: SampleModel, now: int) -> Seq<
    HeartbeatModel,
> {
    match prev {
        Option::None => seq![heartbeat(s, now)],
        Option::Some(p) => if p == s {
            seq![heartbeat(s, now)]
        } else {
            seq![heartbeat(p, now - 1), heartbeat(s, now)]
        },
    }
}

/// The tracked sample after a merger step: always the sample just observed,
/// whatever was tracked before and whether or not any send succeeds.
pub open spec fn step_next(prev: Option<SampleModel>, s: SampleModel) -> Option<SampleModel> {
    Option::Some(s)
}

/// The sequence of mathematical values of a sequence of heartbeat events.
pub open spec fn events_model(out: Seq<HeartbeatEvent>) -> Seq<HeartbeatModel> {
    out.map_values(|e: HeartbeatEvent| e@)
}

/// The heartbeat merger's whole state: the most recent sample, if any tick
/// has delivered one yet. Owned exclusively by the merger; updated only by
/// [`MergerState::step`].
pub struct MergerState {
    previous: Option<ActivitySample>,
}

impl View for MergerState {
    type V = Option<SampleModel>;

    closed spec fn view(&self) -> Option<SampleModel> {
        match self.previous {
            Option::None => Option::None,
            Option::Some(s) => Option::Some(s@),
        }
    }
}

impl MergerState {
    /// A freshly initialized merger: no previous sample.
    pub fn new() -> (m: Self)
        ensures
            m@ is None,
    {
        MergerState { previous: Option::None }
    }

    /// One transition of the state machine: classify the new sample against
    /// the tracked one and emit the heartbeats of [`step_emits`], in that
    /// order. The tracked state becomes the new sample regardless of what
    /// any caller later does with the events.
    pub fn step(&mut self, sample: ActivitySample, now_ms: i64) -> (out: Vec<HeartbeatEvent>)
        requires
            now_ms > i64::MIN,
        ensures
            final(self)@ == step_next(old(self)@, sample@),
            events_model(out@) == step_emits(old(self)@, sample@, now_ms as int),
    {
        let mut out: Vec<HeartbeatEvent> = Vec::new();
        match &self.previous {
            Option::None => {
                out.push(
                    HeartbeatEvent {
                        sample: sample.duplicate(),
                        timestamp_ms: now_ms,
                        duration_ms: 0,
                    },
                );
            },
            Option::Some(prev) => {
                if prev.same_as(&sample) {
                    out.push(
                        HeartbeatEvent {
                            sample: sample.duplicate(),
                            timestamp_ms: now_ms,
                            duration_ms: 0,
                        },
                    );
                } else {
                    out.push(
                        HeartbeatEvent {
                            sample: prev.duplicate(),
                            timestamp_ms: now_ms - 1,
                            duration_ms: 0,
                        },
                    );
                    out.push(
                        HeartbeatEvent {
                            sample: sample.duplicate(),
                            timestamp_ms: now_ms,
                            duration_ms: 0,
                        },
                    );
                }
            },
        }
        self.previous = Option::Some(sample);
        proof {
            assert(events_model(out@) =~= step_emits(old(self)@, sample@, now_ms as int));
        }
        out
    }
}

/// Every heartbeat a merger step emits carries the zero duration: an
/// emitted heartbeat marks an instant, and only the backend turns instants
/// into intervals.
pub proof fn lemma_zero_duration(prev: Option<SampleModel>, s: SampleModel, now: int)
    ensures
        forall|i: int|
            0 <= i < step_emits(prev, s, now).len() ==> step_emits(prev, s, now)[i].duration_ms
                == 0,
{
}

/// Cold start: the very first sample fed into a freshly initialized merger
/// yields exactly one heartbeat, never a close of a nonexistent predecessor.
pub proof fn lemma_cold_start(s: SampleModel, now: int)
    ensures
        step_emits(Option::None, s, now) == seq![heartbeat(s, now)],
        step_emits(Option::None, s, now).len() == 1,
{
}

/// Continuation: feeding the same sample twice in a row yields exactly one
/// heartbeat per step, both carrying that same sample, and the second step's
/// heartbeat is later than the first's whenever its tick is later.
pub proof fn lemma_continuation(s: SampleModel, t1: int, t2: int)
    requires
        t1 < t2,
    ensures
        step_emits(Option::Some(s), s, t1) == seq![heartbeat(s, t1)],
        step_emits(Option::Some(s), s, t2) == seq![heartbeat(s, t2)],
        step_emits(Option::Some(s), s, t1)[0].sample == s,
        step_emits(Option::Some(s), s, t2)[0].sample == s,
        step_emits(Option::Some(s), s, t1)[0].timestamp_ms < step_emits(
            Option::Some(s),
            s,
            t2,
        )[0].timestamp_ms,
        step_next(Option::Some(s), s) == Option::Some(s),
{
}

/// Transition: a sample that differs from the tracked one yields two
/// heartbeats, the close of the old activity at `now - 1` strictly before
/// the open of the new one at `now`, and the tracked state becomes the new
/// sample.
pub proof fn lemma_transition(p: SampleModel, s: SampleModel, now: int)
    requires
        p != s,
    ensures
        step_emits(Option::Some(p), s, now) == seq![heartbeat(p, now - 1), heartbeat(s, now)],
        step_emits(Option::Some(p), s, now)[0].timestamp_ms < step_emits(
            Option::Some(p),
            s,
            now,
        )[1].timestamp_ms,
        step_next(Option::Some(p), s) == Option::Some(s),
{
}

} // verus!
