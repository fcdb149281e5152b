use vstd::prelude::*;
use crate::error::SetupError;

verus! {

/// `regex::Regex`: a compiled expression. Nothing inside it is read here.
#[verifier::external_type_specification]
#[verifier::external_body]
pub struct ExRegex(regex::Regex);

/// `regex::Error`: why a pattern did not compile.
#[verifier::external_type_specification]
#[verifier::external_body]
pub struct ExRegexError(regex::Error);

/// The expression that a pattern compiles to; `None` where it does not
/// compile.
pub uninterp spec fn compiled(pattern: Seq<char>) -> Option<regex::Regex>;

/// The groups of the leftmost match of an expression in `text`, the whole
/// match first, each group with the characters it matched if it took part;
/// `None` where the expression matches nowhere in `text`.
pub uninterp spec fn groups_of(re: regex::Regex, text: Seq<char>) -> Option<
    Seq<Option<Seq<char>>>,
>;

/// The groups of the leftmost match of `pattern` in `text`; `None` where
/// `pattern` matches nowhere in `text`, or does not compile.
pub open spec fn captures_of(pattern: Seq<char>, text: Seq<char>) -> Option<
    Seq<Option<Seq<char>>>,
> {
    match compiled(pattern) {
        Some(re) => groups_of(re, text),
        None => None,
    }
}

/// The characters of each group.
pub open spec fn group_texts(groups: Seq<Option<String>>) -> Seq<Option<Seq<char>>> {
    groups.map_values(
        |g: Option<String>|
            match g {
                Some(s) => Some(s@),
                None => None,
            },
    )
}

/// The characters of each group of a match, if there is a match.
pub open spec fn match_texts(found: Option<Vec<Option<String>>>) -> Option<
    Seq<Option<Seq<char>>>,
> {
    match found {
        Some(groups) => Some(group_texts(groups@)),
        None => None,
    }
}

/// `regex::Regex::new`: compiles a pattern with the default options.
#[verifier::external_body]
pub(crate) fn compile(pattern: &str) -> (r: Result<regex::Regex, regex::Error>)
    ensures
        r is Ok <==> compiled(pattern@) is Some,
        r matches Ok(re) ==> compiled(pattern@) == Some(re),
{
    regex::Regex::new(pattern)
}

/// `regex::Regex::captures`: the groups of the leftmost match in `text`,
/// handed out as owned strings in the order of `Captures::iter`.
#[verifier::external_body]
pub(crate) fn captures(re: &regex::Regex, text: &str) -> (r: Option<Vec<Option<String>>>)
    ensures
        match_texts(r) == groups_of(*re, text@),
{
    re.captures(text).map(
        |found| found.iter().map(|group| group.map(|m| m.as_str().to_string())).collect(),
    )
}

/// What `prepare` gives for each outcome of compiling `pattern`.
pub open spec fn prepared(
    pattern: Seq<char>,
    outcome: Result<regex::Regex, regex::Error>,
    r: Result<regex::Regex, SetupError>,
) -> bool {
    match outcome {
        Ok(re) => r == Ok::<regex::Regex, SetupError>(re),
        Err(_) => r matches Err(e) && e.bad_pattern() == Some(pattern),
    }
}

/// Turns the outcome of compiling `pattern` into the library's own terms.
pub fn prepared_from(pattern: &str, outcome: Result<regex::Regex, regex::Error>) -> (r: Result<
    regex::Regex,
    SetupError,
>)
    ensures
        prepared(pattern@, outcome, r),
{
    match outcome {
        Ok(re) => Ok(re),
        Err(_) => Err(SetupError::BadPattern(pattern.to_owned())),
    }
}

/// Compiles `pattern`. A failure names it.
pub fn prepare(pattern: &str) -> (r: Result<regex::Regex, SetupError>)
    ensures
        r is Ok <==> compiled(pattern@) is Some,
        r matches Ok(re) ==> compiled(pattern@) == Some(re),
        r matches Err(e) ==> e.bad_pattern() == Some(pattern@),
{
    prepared_from(pattern, compile(pattern))
}

} // verus!
