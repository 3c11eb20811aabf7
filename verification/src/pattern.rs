//! Regular expressions, compiled and applied by the `regex` crate.

use vstd::prelude::*;

verus! {

/// A compiled regular expression of the `regex` crate.
#[verifier::external_type_specification]
#[verifier::external_body]
pub struct ExRegex(::regex::Regex);

/// The error with which the `regex` crate turns a pattern down.
#[verifier::external_type_specification]
#[verifier::external_body]
pub struct ExRegexError(::regex::Error);

/// The set of texts in which a compiled regular expression finds a match.
pub uninterp spec fn regex_language(regex: ::regex::Regex) -> Set<Seq<char>>;

/// What the `regex` crate makes of a pattern: `None` where it turns the
/// pattern down (it cannot be parsed, or its compiled form would be larger
/// than the crate allows by default), and otherwise the set of texts in
/// which the pattern matches somewhere.
pub uninterp spec fn pattern_language(pattern: Seq<char>) -> Option<Set<Seq<char>>>;

/// `Regex::new` compiles a pattern with the crate's default settings. It
/// succeeds on the patterns for which `pattern_language` is `Some`, and the
/// expression it gives then finds a match in exactly those texts.
pub assume_specification[ ::regex::Regex::new ](re: &str) -> (compiled: Result<
    ::regex::Regex,
    ::regex::Error,
>)
    ensures
        match compiled {
            Ok(regex) => pattern_language(re@) == Some(regex_language(regex)),
            Err(_) => pattern_language(re@) is None,
        },
;

/// `Regex::is_match` says whether the expression matches anywhere in the
/// text: a search, not a match of the whole text.
pub assume_specification[ ::regex::Regex::is_match ](
    regex: &::regex::Regex,
    haystack: &str,
) -> (found: bool)
    ensures
        found == regex_language(*regex).contains(haystack@),
;

/// Whether a pattern is a regular expression that can be compiled.
pub open spec fn compiles(pattern: Seq<char>) -> bool {
    pattern_language(pattern) is Some
}

/// Whether a pattern compiles and matches somewhere in `text`.
pub open spec fn finds(pattern: Seq<char>, text: Seq<char>) -> bool {
    pattern_language(pattern) matches Some(language) && language.contains(text)
}

/// A regular expression, kept with the pattern it was compiled from.
#[derive(Debug)]
pub struct Pattern {
    source: String,
    compiled: ::regex::Regex,
}

impl Pattern {
    #[verifier::type_invariant]
    spec fn compiled_from_source(self) -> bool {
        pattern_language(self.source@) == Some(regex_language(self.compiled))
    }

    /// Compiles `source`. The result is `None` exactly where `source` does
    /// not compile.
    pub fn compile(source: &str) -> (pattern: Option<Pattern>)
        ensures
            match pattern {
                Some(p) => p@ == source@ && compiles(source@),
                None => !compiles(source@),
            },
    {
        match ::regex::Regex::new(source) {
            Ok(compiled) => Some(Pattern { source: source.to_string(), compiled }),
            Err(_) => None,
        }
    }

    /// Whether the pattern matches anywhere in `text`.
    pub fn is_match(&self, text: &str) -> (found: bool)
        ensures
            compiles(self@),
            found == finds(self@, text@),
    {
        proof {
            use_type_invariant(self);
        }
        self.compiled.is_match(text)
    }

    /// The pattern as it was written.
    pub fn source(&self) -> (source: &String)
        ensures
            source@ == self@,
    {
        &self.source
    }
}

impl View for Pattern {
    type V = Seq<char>;

    /// The pattern as it was written.
    closed spec fn view(&self) -> Seq<char> {
        self.source@
    }
}

} // verus!
