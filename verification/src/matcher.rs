//! Keyword matchers: one compiled multi-pattern search per keyword list.
//!
//! The search itself is the work of the `aho-corasick` crate. Which keyword
//! it reports first is not re-derived here: that is given a name, and the
//! rules are stated over the name. What is taken on trust beside the name is
//! that a keyword reported stands in the text, and that none is reported
//! only where none does.

use vstd::prelude::*;
use aho_corasick::{AhoCorasick, AhoCorasickBuilder, BuildError};
use crate::text::text_seq;

verus! {

/// `aho_corasick::AhoCorasick`, carried as an opaque value.
#[verifier::external_type_specification]
#[verifier::external_body]
pub struct ExAhoCorasick(AhoCorasick);

/// `aho_corasick::BuildError`, carried as an opaque value.
#[verifier::external_type_specification]
#[verifier::external_body]
pub struct ExBuildError(BuildError);

/// The keywords an automaton was compiled from, in the order given.
pub uninterp spec fn automaton_keywords(automaton: AhoCorasick) -> Seq<Seq<char>>;

/// Whether an automaton was built to ignore the case of ASCII letters, with
/// every other option of the builder at its default.
pub uninterp spec fn ignores_ascii_case(automaton: AhoCorasick) -> bool;

/// Whether a keyword list compiles into an automaton that ignores the case
/// of ASCII letters.
pub uninterp spec fn compilable(keywords: Seq<Seq<char>>) -> bool;

/// The position, in the list, of the keyword that an automaton compiled from
/// `keywords` reports for its first match in `text`, ignoring the case of
/// ASCII letters; `None` when no keyword occurs.
pub uninterp spec fn first_keyword(keywords: Seq<Seq<char>>, text: Seq<char>) -> Option<usize>;

/// Whether two characters are the same, the case of ASCII letters set
/// aside.
pub open spec fn same_ignoring_ascii_case(a: char, b: char) -> bool {
    ||| a == b
    ||| ('A' <= a && a <= 'Z' && b as u32 == a as u32 + 32)
    ||| ('A' <= b && b <= 'Z' && a as u32 == b as u32 + 32)
}

/// Whether a keyword stands in a text at a position, the case of ASCII
/// letters set aside.
pub open spec fn occurs_at(keyword: Seq<char>, text: Seq<char>, at: int) -> bool {
    &&& 0 <= at
    &&& at + keyword.len() <= text.len()
    &&& forall|k: int|
        0 <= k < keyword.len() ==> same_ignoring_ascii_case(text[at + k], #[trigger] keyword[k])
}

/// Whether a keyword stands somewhere in a text.
pub open spec fn occurs_in(keyword: Seq<char>, text: Seq<char>) -> bool {
    exists|at: int| occurs_at(keyword, text, at)
}

/// Whether no keyword of a list stands anywhere in a text.
pub open spec fn none_occurs(keywords: Seq<Seq<char>>, text: Seq<char>) -> bool {
    forall|i: int| 0 <= i < keywords.len() ==> !occurs_in(#[trigger] keywords[i], text)
}

/// Whether the report of a search is true to the text: a keyword reported
/// is one of the list and stands in the text, and nothing is reported only
/// where no keyword of the list does.
pub open spec fn true_to_text(keywords: Seq<Seq<char>>, text: Seq<char>, hit: Option<usize>) -> bool {
    match hit {
        Some(i) => i < keywords.len() && occurs_in(keywords[i as int], text),
        None => none_occurs(keywords, text),
    }
}

/// Calls `AhoCorasickBuilder::build` with `ascii_case_insensitive(true)` and
/// every other option at its default. Whether the build succeeds is a named
/// property of the keyword list; an automaton that comes back holds exactly
/// the keywords given and ignores the case of ASCII letters.
#[verifier::external_body]
fn compile(keywords: &Vec<String>) -> (r: Result<AhoCorasick, BuildError>)
    ensures
        r is Ok == compilable(text_seq(keywords@)),
        r matches Ok(automaton) ==> automaton_keywords(automaton) == text_seq(keywords@)
            && ignores_ascii_case(automaton),
{
    AhoCorasickBuilder::new().ascii_case_insensitive(true).build(keywords)
}

/// Calls `AhoCorasick::find` on an automaton built as [`compile`] does, and
/// keeps the identifier of the pattern that matched. The identifier is the
/// pattern's position in the list the automaton was built from. A match is
/// reported exactly when some keyword stands in the text, the case of ASCII
/// letters set aside, and the keyword reported is one that does; which of
/// several is reported is named, not described.
#[verifier::external_body]
fn search(automaton: &AhoCorasick, text: &str) -> (r: Option<usize>)
    requires
        ignores_ascii_case(*automaton),
    ensures
        r == first_keyword(automaton_keywords(*automaton), text@),
        true_to_text(automaton_keywords(*automaton), text@, r),
{
    automaton.find(text).map(|found| found.pattern().as_usize())
}

/// Calls the `Display` impl of `BuildError`. Nothing is claimed of the text.
#[verifier::external_body]
fn describe(error: &BuildError) -> (r: String) {
    error.to_string()
}

/// What a search over a keyword list reports: nothing for an empty list,
/// else the position of the keyword matched first.
pub open spec fn keyword_hit(keywords: Seq<Seq<char>>, text: Seq<char>) -> Option<usize> {
    if keywords.len() == 0 {
        None
    } else {
        first_keyword(keywords, text)
    }
}

/// Whether a matcher can be had for a keyword list. An empty list always
/// can: no automaton is compiled for it.
pub open spec fn matchable(keywords: Seq<Seq<char>>) -> bool {
    keywords.len() == 0 || compilable(keywords)
}

/// A keyword list that did not compile.
#[derive(Clone, Debug)]
pub struct BuildFailure {
    /// What the pattern compiler said.
    pub message: String,
}

/// A compiled keyword list. Read-only once built.
pub struct Matcher {
    automaton: Option<AhoCorasick>,
}

impl Matcher {
    #[verifier::type_invariant]
    spec fn built_to_ignore_case(self) -> bool {
        self.automaton matches Some(automaton) ==> ignores_ascii_case(automaton)
    }

    /// The keywords this matcher searches for.
    pub closed spec fn keywords(&self) -> Seq<Seq<char>> {
        match self.automaton {
            Some(automaton) => automaton_keywords(automaton),
            None => Seq::empty(),
        }
    }

    /// Compiles a keyword list. An empty list gives a matcher that matches
    /// nothing and cannot fail.
    pub fn new(keywords: &Vec<String>) -> (r: Result<Matcher, BuildFailure>)
        ensures
            r is Ok == matchable(text_seq(keywords@)),
            r matches Ok(matcher) ==> matcher.keywords() == text_seq(keywords@),
    {
        if keywords.len() == 0 {
            let matcher = Matcher { automaton: None };
            assert(matcher.keywords() =~= text_seq(keywords@));
            return Ok(matcher);
        }
        match compile(keywords) {
            Ok(automaton) => Ok(Matcher { automaton: Some(automaton) }),
            Err(error) => Err(BuildFailure { message: describe(&error) }),
        }
    }

    /// Searches a text for the keywords, ignoring the case of ASCII letters,
    /// and returns the position of the keyword matched first.
    pub fn find(&self, text: &str) -> (r: Option<usize>)
        ensures
            r == keyword_hit(self.keywords(), text@),
            true_to_text(self.keywords(), text@, r),
    {
        proof {
            use_type_invariant(self);
        }
        match &self.automaton {
            Some(automaton) => search(automaton, text),
            None => None,
        }
    }
}

} // verus!
