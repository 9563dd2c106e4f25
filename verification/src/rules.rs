use vstd::prelude::*;
use crate::pattern::{compiled_model, pattern_matches, CompiledPattern, PatternModel};
use crate::sample::ActivitySample;

verus! {

/// The mathematical value of a [`RuleSet`].
pub ghost struct RuleSetModel {
    pub global_exclude: bool,
    pub exclude: Seq<PatternModel>,
    pub overrides: Seq<PatternModel>,
}

/// The redaction configuration: a global switch that suppresses every
/// title, a list of process-name patterns whose titles are suppressed, and
/// a list of override patterns that take precedence over both and keep the title.
/// Loaded once at startup; read-only afterwards.
pub struct RuleSet {
    pub global_exclude: bool,
    pub exclude_patterns: Vec<CompiledPattern>,
    pub override_patterns: Vec<CompiledPattern>,
}

impl View for RuleSet {
    type V = RuleSetModel;

    open spec fn view(&self) -> RuleSetModel {
        RuleSetModel {
            global_exclude: self.global_exclude,
            exclude: self.exclude_patterns@.map_values(|p: CompiledPattern| p@),
            overrides: self.override_patterns@.map_values(|p: CompiledPattern| p@),
        }
    }
}

/// Some pattern in `pats` matches `text`.
pub open spec fn any_matches(pats: Seq<PatternModel>, text: Seq<char>) -> bool {
    exists|i: int| 0 <= i < pats.len() && pattern_matches(pats[i], text)
}

/// The title of `process` is suppressed: the global switch is on or some
/// exclude pattern matches the process name, and no override pattern
/// overrides that.
pub open spec fn title_suppressed(process: Seq<char>, rules: RuleSetModel) -> bool {
    (rules.global_exclude || any_matches(rules.exclude, process)) && !any_matches(
        rules.overrides,
        process,
    )
}

/// What the redactor reports for a window: the raw title, or the bare
/// process name when the title is suppressed, so downstream consumers
/// still see that an application was focused but never what it displayed.
pub open spec fn redacted_title(
    process: Seq<char>,
    raw_title: Seq<char>,
    rules: RuleSetModel,
) -> Seq<char> {
    if title_suppressed(process, rules) {
        process
    } else {
        raw_title
    }
}

/// Whether some pattern in `pats` matches `text`.
fn any_match(pats: &Vec<CompiledPattern>, text: &str) -> (r: bool)
    ensures
        r == any_matches(pats@.map_values(|p: CompiledPattern| p@), text@),
{
    let ghost models = pats@.map_values(|p: CompiledPattern| p@);
    let mut i: usize = 0;
    while i < pats.len()
        invariant
            models == pats@.map_values(|p: CompiledPattern| p@),
            models.len() == pats@.len(),
            i <= pats@.len(),
            forall|k: int| 0 <= k < i ==> !pattern_matches(models[k], text@),
        decreases pats@.len() - i,
    {
        if pats[i].matches(text) {
            proof {
                assert(pattern_matches(models[i as int], text@));
            }
            return true;
        }
        i = i + 1;
    }
    false
}

impl RuleSet {
    /// Compile the configured pattern texts into a rule set. Every pattern
    /// is kept: one that does not parse as a regular expression becomes the
    /// literal pattern on the same text.
    pub fn new(global_exclude: bool, exclude: Vec<String>, overrides: Vec<String>) -> (r: Self)
        ensures
            r@.global_exclude == global_exclude,
            r@.exclude.len() == exclude@.len(),
            forall|i: int|
                0 <= i < exclude@.len() ==> r@.exclude[i] == compiled_model(exclude@[i]@),
            r@.overrides.len() == overrides@.len(),
            forall|i: int|
                0 <= i < overrides@.len() ==> r@.overrides[i] == compiled_model(overrides@[i]@),
    {
        let exclude_patterns = compile_all(&exclude);
        let override_patterns = compile_all(&overrides);
        RuleSet { global_exclude, exclude_patterns, override_patterns }
    }

    /// The reported title for `process_name` showing `raw_title`: the raw
    /// title, unless this rule set suppresses it, in which case the bare
    /// process name. Pure and deterministic.
    pub fn redact(&self, process_name: &str, raw_title: &str) -> (r: String)
        ensures
            r@ == redacted_title(process_name@, raw_title@, self@),
    {
        let excluded = self.global_exclude || any_match(&self.exclude_patterns, process_name);
        let included = any_match(&self.override_patterns, process_name);
        if excluded && !included {
            process_name.to_owned()
        } else {
            raw_title.to_owned()
        }
    }

    /// Package one raw observation as the sample that will be reported:
    /// the process name as the application, the redacted title beside it.
    /// An empty process name is permitted, so an unknown application can
    /// still be represented.
    pub fn normalize(&self, process_name: &str, raw_title: &str) -> (s: ActivitySample)
        ensures
            s@.app == process_name@,
            s@.title == redacted_title(process_name@, raw_title@, self@),
    {
        let title = self.redact(process_name, raw_title);
        ActivitySample::new(process_name.to_owned(), title)
    }
}

/// Compile every configured pattern text, in order.
fn compile_all(texts: &Vec<String>) -> (r: Vec<CompiledPattern>)
    ensures
        r@.len() == texts@.len(),
        forall|i: int|
            0 <= i < texts@.len() ==> r@.map_values(|p: CompiledPattern| p@)[i] == compiled_model(
                texts@[i]@,
            ),
{
    let mut r: Vec<CompiledPattern> = Vec::new();
    let mut i: usize = 0;
    while i < texts.len()
        invariant
            i <= texts@.len(),
            r@.len() == i,
            forall|k: int|
                0 <= k < i ==> r@.map_values(|p: CompiledPattern| p@)[k] == compiled_model(
                    texts@[k]@,
                ),
        decreases texts@.len() - i,
    {
        r.push(CompiledPattern::compile(texts[i].as_str()));
        i = i + 1;
    }
    r
}

/// Idempotence: the redactor is a pure function, so two calls on identical
/// inputs return identical output.
pub proof fn lemma_redact_idempotent(
    process: Seq<char>,
    raw_title: Seq<char>,
    rules: RuleSetModel,
    r1: Seq<char>,
    r2: Seq<char>,
)
    requires
        r1 == redacted_title(process, raw_title, rules),
        r2 == redacted_title(process, raw_title, rules),
    ensures
        r1 == r2,
{
}

/// Override precedence: whenever some override pattern matches the process
/// name, the raw title is reported, even when the global switch is on or
/// an exclude pattern also matches.
pub proof fn lemma_override_precedence(
    process: Seq<char>,
    raw_title: Seq<char>,
    rules: RuleSetModel,
)
    requires
        any_matches(rules.overrides, process),
    ensures
        redacted_title(process, raw_title, rules) == raw_title,
{
}

} // verus!
