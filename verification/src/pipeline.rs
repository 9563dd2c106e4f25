use vstd::prelude::*;
use crate::merger::{events_model, step_emits, step_next, HeartbeatEvent, MergerState};
use crate::rules::{redacted_title, RuleSet};
use crate::sample::SampleModel;

verus! {

/// The sample one raw observation normalizes to under `rules`.
pub open spec fn normalized_model(
    process: Seq<char>,
    raw_title: Seq<char>,
    rules: crate::rules::RuleSetModel,
) -> SampleModel {
    SampleModel { app: process, title: redacted_title(process, raw_title, rules) }
}

/// One poll tick of the pipeline. With no observation (no window has
/// focus) the tick is skipped: the merger is left untouched and nothing is
/// emitted. With an observation `(process name, raw title)`, the
/// observation is normalized under `rules` and fed to the merger, and the
/// merger's heartbeats are returned in order.
pub fn tick(
    merger: &mut MergerState,
    observation: Option<(String, String)>,
    rules: &RuleSet,
    now_ms: i64,
) -> (out: Vec<HeartbeatEvent>)
    requires
        now_ms > i64::MIN,
    ensures
        match observation {
            Option::None => final(merger)@ == old(merger)@ && out@.len() == 0,
            Option::Some(obs) => {
                let s = normalized_model(obs.0@, obs.1@, rules@);
                &&& final(merger)@ == step_next(old(merger)@, s)
                &&& events_model(out@) == step_emits(old(merger)@, s, now_ms as int)
            },
        },
{
    match observation {
        Option::None => Vec::new(),
        Option::Some((process_name, raw_title)) => {
            let sample = rules.normalize(process_name.as_str(), raw_title.as_str());
            merger.step(sample, now_ms)
        },
    }
}

} // verus!
