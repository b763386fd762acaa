//! Title filtering: a pair of user-supplied regex fragments is compiled into
//! anchored, case-insensitive whole-string patterns, and a title passes iff
//! the include pattern matches it and the exclude pattern does not. The
//! regex engine itself is trusted; what each compiled value matches is named
//! over the pattern text it was built from, so every contract here is exact
//! in terms of those names.

use vstd::prelude::*;

verus! {

#[verifier::external_type_specification]
#[verifier::external_body]
pub struct ExRegex(regex::Regex);

#[verifier::external_type_specification]
#[verifier::external_body]
pub struct ExRegexError(regex::Error);

/// The pattern text a compiled `regex::Regex` was built from.
pub uninterp spec fn regex_pattern(re: regex::Regex) -> Seq<char>;

/// Whether `regex::Regex::new` accepts a pattern text.
pub uninterp spec fn regex_compiles(pat: Seq<char>) -> bool;

/// What `regex::Regex::is_match` returns for the regex built from `pat`
/// applied to `text`. A function of the two texts alone.
pub uninterp spec fn regex_matches(pat: Seq<char>, text: Seq<char>) -> bool;

/// Relies on `regex::Regex::new`: it returns `Ok` exactly on syntactically
/// valid patterns (within the default size limit), and the compiled value
/// carries no state beyond the pattern it was built from.
#[verifier::external_body]
fn regex_new(pat: &str) -> (r: Result<regex::Regex, regex::Error>)
    ensures
        r is Ok <==> regex_compiles(pat@),
        r matches Ok(re) ==> regex_pattern(re) == pat@,
{
    regex::Regex::new(pat)
}

/// Relies on `regex::Regex::is_match`: true iff the regex matches somewhere
/// in the text, a function of the pattern and the text alone.
#[verifier::external_body]
fn regex_is_match(re: &regex::Regex, text: &str) -> (r: bool)
    ensures
        r == regex_matches(regex_pattern(*re), text@),
{
    re.is_match(text)
}

/// Why a filter could not be built from its two pattern fragments.
#[derive(Clone, Copy, Debug, PartialEq, Eq, Structural)]
pub enum FilterError {
    /// The include fragment does not compile once anchored.
    InvalidInclude,
    /// The exclude fragment does not compile once anchored.
    InvalidExclude,
}

/// The fragment a whole-string pattern is anchored around: an empty include
/// fragment means "match everything".
pub open spec fn spec_include_core(fragment: Seq<char>) -> Seq<char> {
    if fragment.len() == 0 {
        ".*"@
    } else {
        fragment
    }
}

/// A fragment wrapped into a case-insensitive whole-string pattern.
pub open spec fn spec_anchored(fragment: Seq<char>) -> Seq<char> {
    "(?i)^"@ + fragment + "$"@
}

/// A compiled include/exclude pair, anchored and case-insensitive.
#[derive(Debug)]
pub struct FilterRule {
    /// Matches the titles the user asked for.
    pub include_re: regex::Regex,
    /// Matches the titles the user ruled out.
    pub exclude_re: regex::Regex,
}

impl FilterRule {
    /// The pattern text the include side was compiled from.
    pub open spec fn include_pat(self) -> Seq<char> {
        regex_pattern(self.include_re)
    }

    /// The pattern text the exclude side was compiled from.
    pub open spec fn exclude_pat(self) -> Seq<char> {
        regex_pattern(self.exclude_re)
    }

    /// The rule built from the two given fragments.
    pub open spec fn spec_built_from(self, include_fragment: Seq<char>, exclude_fragment: Seq<char>) -> bool {
        &&& self.include_pat() == spec_anchored(spec_include_core(include_fragment))
        &&& self.exclude_pat() == spec_anchored(exclude_fragment)
    }

    /// The error `compile` reports for the given fragments: the include
    /// side is checked first.
    pub open spec fn compile_fails_with(
        include_fragment: Seq<char>,
        exclude_fragment: Seq<char>,
        e: FilterError,
    ) -> bool {
        match e {
            FilterError::InvalidInclude => !regex_compiles(
                spec_anchored(spec_include_core(include_fragment)),
            ),
            FilterError::InvalidExclude => regex_compiles(
                spec_anchored(spec_include_core(include_fragment)),
            ) && !regex_compiles(spec_anchored(exclude_fragment)),
        }
    }

    /// Whether a title passes: the include pattern matches it and the
    /// exclude pattern does not.
    pub open spec fn spec_matches(self, title: Seq<char>) -> bool {
        regex_matches(self.include_pat(), title) && !regex_matches(self.exclude_pat(), title)
    }

    /// Compile the two fragments into anchored, case-insensitive whole-string
    /// patterns. An empty include fragment matches everything. The exclude
    /// fragment is anchored as given, so an empty one matches — and thus
    /// excludes — only the empty title.
    pub fn compile(include_fragment: &str, exclude_fragment: &str) -> (r: Result<
        FilterRule,
        FilterError,
    >)
        ensures
            r matches Ok(f) ==> f.spec_built_from(include_fragment@, exclude_fragment@),
            r is Ok <==> regex_compiles(spec_anchored(spec_include_core(include_fragment@)))
                && regex_compiles(spec_anchored(exclude_fragment@)),
            r == Err::<FilterRule, FilterError>(FilterError::InvalidInclude) <==> !regex_compiles(
                spec_anchored(spec_include_core(include_fragment@)),
            ),
            r == Err::<FilterRule, FilterError>(FilterError::InvalidExclude) <==> regex_compiles(
                spec_anchored(spec_include_core(include_fragment@)),
            ) && !regex_compiles(spec_anchored(exclude_fragment@)),
    {
        let mut include_text = String::from_str("(?i)^");
        if include_fragment.is_empty() {
            include_text.append(".*");
        } else {
            include_text.append(include_fragment);
        }
        include_text.append("$");
        proof {
            assert(include_text@ =~= spec_anchored(spec_include_core(include_fragment@)));
        }

        let mut exclude_text = String::from_str("(?i)^");
        exclude_text.append(exclude_fragment);
        exclude_text.append("$");
        proof {
            assert(exclude_text@ =~= spec_anchored(exclude_fragment@));
        }

        let include_re = match regex_new(include_text.as_str()) {
            Ok(re) => re,
            Err(_) => {
                return Err(FilterError::InvalidInclude);
            },
        };
        let exclude_re = match regex_new(exclude_text.as_str()) {
            Ok(re) => re,
            Err(_) => {
                return Err(FilterError::InvalidExclude);
            },
        };
        Ok(FilterRule { include_re, exclude_re })
    }

    /// True iff the title passes this rule.
    pub fn matches(&self, title: &str) -> (r: bool)
        ensures
            r == self.spec_matches(title@),
    {
        regex_is_match(&self.include_re, title) && !regex_is_match(&self.exclude_re, title)
    }
}

} // verus!
