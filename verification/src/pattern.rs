use vstd::prelude::*;
use vstd::string::StrSliceExecFns;

verus! {

/// Whether `regex::Regex::new` accepts `pattern` as a regular expression.
pub uninterp spec fn regex_compiles(pattern: Seq<char>) -> bool;

/// Whether the regular expression compiled from `pattern` finds a match
/// anywhere in `text`.
pub uninterp spec fn regex_accepts(pattern: Seq<char>, text: Seq<char>) -> bool;

#[verifier::external_type_specification]
#[verifier::external_body]
pub struct ExRegex(regex::Regex);

/// A compiled regular expression, kept beside the pattern text it was
/// compiled from so that contracts can speak of that text.
pub struct RegexPattern {
    regex: regex::Regex,
    source: String,
}

/// Relies on `regex::Regex::new`: whether a pattern compiles is a function
/// of the pattern text alone. On success the returned value pairs the
/// compiled expression with exactly that text; nothing else constructs a
/// `RegexPattern`, so [`regex_run`] may speak of its `source` field.
#[verifier::external_body]
fn regex_build(pattern: &str) -> (r: Option<RegexPattern>)
    ensures
        (r is Some) == regex_compiles(pattern@),
        r matches Some(p) ==> p.source@ == pattern@,
{
    match regex::Regex::new(pattern) {
        Ok(re) => Some(RegexPattern { regex: re, source: pattern.to_owned() }),
        Err(_) => None,
    }
}

/// Relies on `regex::Regex::is_match`: whether the expression matches
/// somewhere in `text` is a function of the compiled pattern text and of
/// `text` alone.
#[verifier::external_body]
fn regex_run(p: &RegexPattern, text: &str) -> (r: bool)
    ensures
        r == regex_accepts(p.source@, text@),
{
    p.regex.is_match(text)
}

/// `pat` occurs in `text` starting at position `i`.
pub open spec fn matches_at(text: Seq<char>, pat: Seq<char>, i: int) -> bool {
    0 <= i && i + pat.len() <= text.len() && text.subrange(i, i + pat.len()) == pat
}

/// `pat` occurs somewhere in `text`; the empty pattern occurs everywhere.
pub open spec fn contains_literal(text: Seq<char>, pat: Seq<char>) -> bool {
    exists|i: int| matches_at(text, pat, i)
}

/// The characters of `s`, in order.
pub fn chars_vec(s: &str) -> (r: Vec<char>)
    ensures
        r@ == s@,
{
    let n = s.unicode_len();
    let mut r: Vec<char> = Vec::new();
    let mut i: usize = 0;
    while i < n
        invariant
            n == s@.len(),
            i <= n,
            r@ == s@.subrange(0, i as int),
        decreases n - i,
    {
        let c = s.get_char(i);
        r.push(c);
        proof {
            assert(r@ =~= s@.subrange(0, i + 1));
        }
        i = i + 1;
    }
    proof {
        assert(r@ =~= s@);
    }
    r
}

/// Whether `pat` occurs in `text` at exactly position `i`.
fn occurs_at(text: &Vec<char>, pat: &Vec<char>, i: usize) -> (r: bool)
    requires
        i + pat@.len() <= text@.len(),
    ensures
        r == matches_at(text@, pat@, i as int),
{
    let n = text.len();
    let m = pat.len();
    let mut j: usize = 0;
    while j < m
        invariant
            n == text@.len(),
            i + m <= n,
            m == pat@.len(),
            j <= m,
            forall|t: int| 0 <= t < j ==> text@[i + t] == pat@[t],
        decreases m - j,
    {
        if text[i + j] != pat[j] {
            proof {
                assert(text@.subrange(i as int, i + m as int)[j as int] == text@[i + j]);
            }
            return false;
        }
        j = j + 1;
    }
    proof {
        assert(text@.subrange(i as int, i + m as int) =~= pat@);
    }
    true
}

/// Whether `pat` occurs as a contiguous run of characters anywhere in
/// `text`.
pub fn literal_matches(text: &Vec<char>, pat: &Vec<char>) -> (r: bool)
    ensures
        r == contains_literal(text@, pat@),
{
    let n = text.len();
    let m = pat.len();
    if m > n {
        return false;
    }
    if m == 0 {
        proof {
            assert(text@.subrange(0, 0) =~= pat@);
            assert(matches_at(text@, pat@, 0));
        }
        return true;
    }
    let mut i: usize = 0;
    while i <= n - m
        invariant
            1 <= m <= n,
            n == text@.len(),
            m == pat@.len(),
            i <= n - m + 1,
            forall|k: int| 0 <= k < i ==> !matches_at(text@, pat@, k),
        decreases n - m + 1 - i,
    {
        if occurs_at(text, pat, i) {
            proof {
                assert(matches_at(text@, pat@, i as int));
            }
            return true;
        }
        i = i + 1;
    }
    false
}

/// The mathematical value of a compiled pattern: a regular expression by
/// its pattern text, or the literal fallback by its text.
pub ghost enum PatternModel {
    Re(Seq<char>),
    Lit(Seq<char>),
}

/// What a pattern model matches: a regular expression matches what the
/// regex engine accepts; a literal matches exactly the texts that contain
/// its text verbatim.
pub open spec fn pattern_matches(p: PatternModel, text: Seq<char>) -> bool {
    match p {
        PatternModel::Re(src) => regex_accepts(src, text),
        PatternModel::Lit(lit) => contains_literal(text, lit),
    }
}

/// The pattern a configured text compiles to: its regular expression when
/// it parses as one, else the literal fallback on the same text.
pub open spec fn compiled_model(s: Seq<char>) -> PatternModel {
    if regex_compiles(s) {
        PatternModel::Re(s)
    } else {
        PatternModel::Lit(s)
    }
}

/// One configured process-name pattern, compiled once at configuration
/// load. A text that fails to parse as a regular expression falls back to
/// a pattern that matches only that text verbatim: never dropped, never a
/// hard failure.
pub enum CompiledPattern {
    Re(RegexPattern),
    Lit(Vec<char>),
}

impl View for CompiledPattern {
    type V = PatternModel;

    closed spec fn view(&self) -> PatternModel {
        match self {
            CompiledPattern::Re(rp) => PatternModel::Re(rp.source@),
            CompiledPattern::Lit(lit) => PatternModel::Lit(lit@),
        }
    }
}

impl CompiledPattern {
    /// Compile a configured pattern, falling back to its literal text when
    /// it does not parse as a regular expression.
    pub fn compile(s: &str) -> (p: Self)
        ensures
            p@ == compiled_model(s@),
    {
        match regex_build(s) {
            Option::Some(rp) => CompiledPattern::Re(rp),
            Option::None => CompiledPattern::Lit(chars_vec(s)),
        }
    }

    /// Whether this pattern matches anywhere in `text`.
    pub fn matches(&self, text: &str) -> (r: bool)
        ensures
            r == pattern_matches(self@, text@),
    {
        match self {
            CompiledPattern::Re(rp) => regex_run(rp, text),
            CompiledPattern::Lit(lit) => {
                let tv = chars_vec(text);
                literal_matches(&tv, lit)
            },
        }
    }
}

} // verus!
