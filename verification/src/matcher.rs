//! The matching predicate: decides whether a window's title and application
//! id qualify it as the window to follow. The two rules are regular
//! expressions, compiled and evaluated by the `regex` crate; which window
//! qualifies is stated over names for that crate's results.

use vstd::prelude::*;

use regex::Regex;

use crate::WindowDescriptor;

verus! {

#[verifier::external_type_specification]
#[verifier::external_body]
pub struct ExRegex(Regex);

/// The pattern a compiled regex was built from, kept verbatim inside the
/// regex and reported by `regex::Regex::as_str`.
pub uninterp spec fn regex_pattern(re: Regex) -> Seq<char>;

/// Whether `regex::Regex::new` accepts `pattern` as a regular expression.
pub uninterp spec fn regex_valid(pattern: Seq<char>) -> bool;

/// Whether the regular expression compiled from `pattern` matches anywhere
/// in `text`; `regex::Regex::is_match` computes it from the two strings
/// alone.
pub uninterp spec fn regex_match(pattern: Seq<char>, text: Seq<char>) -> bool;

/// Relies on regex::Regex::new: compilation fails exactly on invalid
/// patterns, and the compiled regex keeps the pattern it was built from.
#[verifier::external_body]
fn regex_compile(pattern: &str) -> (r: Option<Regex>)
    ensures
        r is Some <==> regex_valid(pattern@),
        r matches Some(re) ==> regex_pattern(re) == pattern@,
{
    Regex::new(pattern).ok()
}

/// Relies on regex::Regex::is_match: a match test anywhere in `text`,
/// decided by the compiled pattern and `text` alone.
#[verifier::external_body]
fn regex_is_match(re: &Regex, text: &str) -> (r: bool)
    ensures
        r == regex_match(regex_pattern(*re), text@),
{
    re.is_match(text)
}

/// What it means for a window to qualify under a title pattern and an app-id
/// pattern: the title must be present and satisfy the title rule, and the
/// application id, when present, must satisfy the app-id rule. A missing
/// title rejects the window; a missing application id does not.
pub open spec fn descriptor_matches(
    title_pat: Seq<char>,
    app_id_pat: Seq<char>,
    w: WindowDescriptor,
) -> bool {
    match w.title {
        Option::None => false,
        Option::Some(t) => regex_match(title_pat, t@) && (match w.app_id {
            Option::None => true,
            Option::Some(a) => regex_match(app_id_pat, a@),
        }),
    }
}

/// The matching predicate, holding one compiled rule for the title and one
/// for the application id.
pub struct Matcher {
    title_rule: Regex,
    app_id_rule: Regex,
}

impl Matcher {
    /// The pattern the title rule was built from.
    pub closed spec fn title_pat(&self) -> Seq<char> {
        regex_pattern(self.title_rule)
    }

    /// The pattern the app-id rule was built from.
    pub closed spec fn app_id_pat(&self) -> Seq<char> {
        regex_pattern(self.app_id_rule)
    }

    /// Compiles the two rules; fails exactly when either pattern is not a
    /// valid regular expression.
    pub fn new(title_pattern: &str, app_id_pattern: &str) -> (r: Option<Matcher>)
        ensures
            r is Some <==> regex_valid(title_pattern@) && regex_valid(app_id_pattern@),
            r matches Some(m) ==> m.title_pat() == title_pattern@ && m.app_id_pat()
                == app_id_pattern@,
    {
        let title_rule = match regex_compile(title_pattern) {
            Option::Some(re) => re,
            Option::None => {
                return Option::None;
            },
        };
        let app_id_rule = match regex_compile(app_id_pattern) {
            Option::Some(re) => re,
            Option::None => {
                return Option::None;
            },
        };
        Option::Some(Matcher { title_rule, app_id_rule })
    }

    /// Whether `w` qualifies as the window to follow.
    pub fn matches(&self, w: &WindowDescriptor) -> (r: bool)
        ensures
            r == descriptor_matches(self.title_pat(), self.app_id_pat(), *w),
    {
        match &w.title {
            Option::None => false,
            Option::Some(title) => {
                let title_ok = regex_is_match(&self.title_rule, title.as_str());
                let app_id_ok = match &w.app_id {
                    Option::None => true,
                    Option::Some(app_id) => regex_is_match(&self.app_id_rule, app_id.as_str()),
                };
                title_ok && app_id_ok
            },
        }
    }
}

/// A window without a title never qualifies, whatever its application id.
pub proof fn lemma_no_title_never_matches(
    title_pat: Seq<char>,
    app_id_pat: Seq<char>,
    w: WindowDescriptor,
)
    requires
        w.title is None,
    ensures
        !descriptor_matches(title_pat, app_id_pat, w),
{
}

/// A window whose title satisfies the title rule and which carries no
/// application id qualifies: a missing application id is not disqualifying.
pub proof fn lemma_missing_app_id_still_matches(
    title_pat: Seq<char>,
    app_id_pat: Seq<char>,
    w: WindowDescriptor,
)
    requires
        w.title matches Some(t) && regex_match(title_pat, t@),
        w.app_id is None,
    ensures
        descriptor_matches(title_pat, app_id_pat, w),
{
}

} // verus!
