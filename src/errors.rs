//! Errors that Nix reports on its standard error, picked out of the text.
use vstd::prelude::*;
use vstd::string::*;

verus! {

/// An error that Nix reported.
pub enum NixError {
    /// A download or fixed-output build whose hash differs from the one given.
    HashMismatch { current: String, expected: String, source: String },
}

/// The three texts of a hash mismatch: specified, got, and where.
pub open spec fn mismatch_view(e: NixError) -> (Seq<char>, Seq<char>, Seq<char>) {
    match e {
        NixError::HashMismatch { current, expected, source } => (current@, expected@, source@),
    }
}

/// Whether pattern `pattern` finds a match in `text`, or `None` where the
/// `regex` crate refuses the pattern.
pub uninterp spec fn regex_match_result(pattern: Seq<char>, text: Seq<char>) -> Option<bool>;

/// The first match of pattern `pattern` in `text`, where there is one;
/// `None` where the `regex` crate refuses the pattern.
pub uninterp spec fn regex_first_match(pattern: Seq<char>, text: Seq<char>) -> Option<
    Option<Seq<char>>,
>;

/// Relies on `regex::Regex::new` to compile `pattern` and on
/// `regex::Regex::is_match` to search `text` with it.
#[verifier::external_body]
fn pattern_matches(pattern: &str, text: &str) -> (r: Option<bool>)
    ensures
        r == regex_match_result(pattern@, text@),
{
    regex::Regex::new(pattern).ok().map(|re| re.is_match(text))
}

/// Relies on `regex::Regex::new` to compile `pattern` and on
/// `regex::Regex::captures` for the text of its first match in `text`
/// (group 0, the whole match).
#[verifier::external_body]
fn pattern_first_match(pattern: &str, text: &str) -> (r: Option<Option<String>>)
    ensures
        match r {
            Some(Some(m)) => regex_first_match(pattern@, text@) == Some(Some(m@)),
            Some(None) => regex_first_match(pattern@, text@) == Some(None::<Seq<char>>),
            None => regex_first_match(pattern@, text@) == None::<Option<Seq<char>>>,
        },
{
    regex::Regex::new(pattern).ok().map(
        |re| re.captures(text).and_then(|c| c.get(0)).map(|m| m.as_str().to_string()),
    )
}

pub open spec fn specified_pattern() -> Seq<char> {
    "specified:\\s+([^\\n]+)"@
}

pub open spec fn got_pattern() -> Seq<char> {
    "got:\\s+([^\\n]+)"@
}

pub open spec fn download_pattern() -> Seq<char> {
    "error: hash mismatch in file downloaded from '([^']+)':"@
}

pub open spec fn fixed_output_pattern() -> Seq<char> {
    "error: hash mismatch in fixed-output derivation '([^']+)':"@
}

/// The first match of `pattern` in `text`; empty where there is none.
pub open spec fn match_or_empty(pattern: Seq<char>, text: Seq<char>) -> Seq<char> {
    match regex_first_match(pattern, text) {
        Some(Some(m)) => m,
        _ => Seq::empty(),
    }
}

/// A hash mismatch found through `where_pattern`: the `specified:` line, the
/// `got:` line and the line that says where, each as matched.
pub open spec fn found_mismatch(where_pattern: Seq<char>, text: Seq<char>) -> (
    Seq<char>,
    Seq<char>,
    Seq<char>,
) {
    (
        match_or_empty(specified_pattern(), text),
        match_or_empty(got_pattern(), text),
        match_or_empty(where_pattern, text),
    )
}

/// The hash mismatches that `stderr` reports: one for a download, then one
/// for a fixed-output derivation, each where its line is found. A part that
/// cannot be found is left empty.
pub open spec fn reported_errors(stderr: Seq<char>) -> Seq<(Seq<char>, Seq<char>, Seq<char>)> {
    (if regex_match_result(download_pattern(), stderr) == Some(true) {
        seq![found_mismatch(download_pattern(), stderr)]
    } else {
        Seq::empty()
    }) + (if regex_match_result(fixed_output_pattern(), stderr) == Some(true) {
        seq![found_mismatch(fixed_output_pattern(), stderr)]
    } else {
        Seq::empty()
    })
}

fn first_match_or_empty(pattern: &str, text: &str) -> (r: String)
    ensures
        r@ == match_or_empty(pattern@, text@),
{
    match pattern_first_match(pattern, text) {
        Some(Some(m)) => m,
        _ => String::new(),
    }
}

fn mismatch(where_pattern: &str, stderr: &str) -> (r: NixError)
    ensures
        mismatch_view(r) == found_mismatch(where_pattern@, stderr@),
{
    NixError::HashMismatch {
        current: first_match_or_empty("specified:\\s+([^\\n]+)", stderr),
        expected: first_match_or_empty("got:\\s+([^\\n]+)", stderr),
        source: first_match_or_empty(where_pattern, stderr),
    }
}

/// The hash mismatches that the standard error text of a Nix command reports.
pub fn handle_error(stderr: &str) -> (r: Vec<NixError>)
    ensures
        r@.map_values(|e: NixError| mismatch_view(e)) == reported_errors(stderr@),
{
    let mut errors: Vec<NixError> = Vec::new();
    let download = "error: hash mismatch in file downloaded from '([^']+)':";
    let fixed = "error: hash mismatch in fixed-output derivation '([^']+)':";
    if pattern_matches(download, stderr) == Some(true) {
        errors.push(mismatch(download, stderr));
    }
    if pattern_matches(fixed, stderr) == Some(true) {
        errors.push(mismatch(fixed, stderr));
    }
    assert(errors@.map_values(|e: NixError| mismatch_view(e)) =~= reported_errors(stderr@));
    errors
}

} // verus!
