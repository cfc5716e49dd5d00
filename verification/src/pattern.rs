//! Pattern matching for the classifier: thin trusted bindings to the regex
//! engine, and the `Matcher` type that compiles each configured pattern once
//! and applies the global case-sensitivity toggle uniformly.

use vstd::prelude::*;

verus! {

/// Whether the regex engine accepts `pattern`: `regex::Regex::new` succeeds
/// exactly on valid patterns that fit the default size limit, and that is a
/// function of the pattern alone.
pub uninterp spec fn regex_accepts(pattern: Seq<char>) -> bool;

/// What `regex::Regex::is_match` returns for a regex built from `pattern`
/// when run on `subject`: a function of the two strings alone.
pub uninterp spec fn regex_match(pattern: Seq<char>, subject: Seq<char>) -> bool;

/// The pattern that drives a compiled regex's matching. For a regex from
/// `regex::Regex::new` — the only way this module builds one — it is the
/// pattern the regex was compiled from, which `regex::Regex::as_str`
/// returns.
pub uninterp spec fn pattern_of(re: regex::Regex) -> Seq<char>;

/// The Unicode lowercase form of a string (what `str::to_lowercase` returns):
/// a function of the characters alone.
pub uninterp spec fn lower_of(s: Seq<char>) -> Seq<char>;

#[verifier::external_type_specification]
#[verifier::external_body]
pub struct ExRegex(regex::Regex);

/// Relies on `regex::Regex::new`: compiles `pattern` exactly when it is a
/// valid pattern within the default size limit, and the compiled regex keeps
/// the pattern it was built from.
#[verifier::external_body]
fn compile_regex(pattern: &str) -> (r: Option<regex::Regex>)
    ensures
        r is Some <==> regex_accepts(pattern@),
        r matches Some(re) ==> pattern_of(re) == pattern@,
{
    regex::Regex::new(pattern).ok()
}

/// Relies on `regex::Regex::is_match`: true exactly when the regex matches
/// somewhere in `subject`, which is determined by the regex's pattern and the
/// subject.
#[verifier::external_body]
fn regex_is_match(re: &regex::Regex, subject: &str) -> (r: bool)
    ensures
        r == regex_match(pattern_of(*re), subject@),
{
    re.is_match(subject)
}

/// Relies on `str::to_lowercase`: the result depends on the characters alone.
#[verifier::external_body]
pub(crate) fn lowercase(s: &str) -> (r: String)
    ensures
        r@ == lower_of(s@),
{
    s.to_lowercase()
}

/// Relies on `str`'s `PartialEq`: two string slices compare equal exactly
/// when their character sequences are equal.
#[verifier::external_body]
pub(crate) fn str_eq(a: &str, b: &str) -> (r: bool)
    ensures
        r == (a@ == b@),
{
    a == b
}

/// The pattern that is actually handed to the regex engine: as given when
/// matching case-sensitively, lowercased otherwise.
pub open spec fn effective_pattern(case_sensitive: bool, pattern: Seq<char>) -> Seq<char> {
    if case_sensitive {
        pattern
    } else {
        lower_of(pattern)
    }
}

/// How a configured pattern is matched against a subject. Case-sensitively
/// the pattern is used as given; case-insensitively the lowercased pattern is
/// tried against the subject as given and against its lowercase form.
pub open spec fn case_match(case_sensitive: bool, pattern: Seq<char>, subject: Seq<char>) -> bool {
    if case_sensitive {
        regex_match(pattern, subject)
    } else {
        regex_match(lower_of(pattern), subject) || regex_match(
            lower_of(pattern),
            lower_of(subject),
        )
    }
}

/// A configured pattern compiled once, at definitions-load time, and reused
/// for every event of the run.
pub struct Matcher {
    pub re: regex::Regex,
    pub case_sensitive: bool,
    pub pattern_src: Ghost<Seq<char>>,
}

impl Matcher {
    /// The configured pattern this matcher stands for, before lowercasing.
    pub open spec fn pattern(self) -> Seq<char> {
        self.pattern_src@
    }

    pub open spec fn wf(self) -> bool {
        pattern_of(self.re) == effective_pattern(self.case_sensitive, self.pattern_src@)
    }

    /// Compile `pattern`, lowercased first when matching case-insensitively.
    pub fn new(pattern: &str, case_sensitive: bool) -> (r: Option<Matcher>)
        ensures
            r is Some <==> regex_accepts(effective_pattern(case_sensitive, pattern@)),
            r matches Some(m) ==> m.wf() && m.pattern() == pattern@ && m.case_sensitive
                == case_sensitive,
    {
        let compiled: Option<regex::Regex> = if case_sensitive {
            compile_regex(pattern)
        } else {
            let low = lowercase(pattern);
            compile_regex(low.as_str())
        };
        match compiled {
            Some(re) => Some(Matcher { re, case_sensitive, pattern_src: Ghost(pattern@) }),
            None => None,
        }
    }

    pub fn is_match(&self, subject: &str) -> (r: bool)
        requires
            self.wf(),
        ensures
            r == case_match(self.case_sensitive, self.pattern(), subject@),
    {
        if self.case_sensitive {
            regex_is_match(&self.re, subject)
        } else if regex_is_match(&self.re, subject) {
            true
        } else {
            let low = lowercase(subject);
            regex_is_match(&self.re, low.as_str())
        }
    }
}

} // verus!
