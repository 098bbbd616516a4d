//! Fetching a classified source: the expressions handed to the evaluator
//! and the checks on what comes back.
use vstd::prelude::*;
use vstd::string::*;
use crate::nix::{expect_string, AnswerError, EvalResult, JsonValue};
use crate::source::{GitInfo, GitInfoView};
use crate::text::joined;

verus! {

/// Why a fetch gave no usable store path.
#[derive(PartialEq, Eq, Structural, Clone, Copy, Debug)]
pub enum FetchError {
    /// The evaluator's answer was not the JSON string asked for.
    Answer(AnswerError),
    /// Realising the fetched path gave no path.
    NoRoot,
    /// Realising the fetched path gave more than one path.
    SeveralRoots,
}

/// A hexadecimal digit, in lower case.
pub open spec fn hex_digit(n: int) -> char {
    seq!['0', '1', '2', '3', '4', '5', '6', '7', '8', '9', 'a', 'b', 'c', 'd', 'e', 'f'][n]
}

/// How `serde_json` writes one character inside a string literal: `"` and
/// `\` after a backslash; backspace, tab, line feed, form feed and carriage
/// return as `\b \t \n \f \r`; the other characters below U+0020 as `\u00`
/// and two hexadecimal digits; every other character as it is.
pub open spec fn json_char(c: char) -> Seq<char> {
    if c == '"' {
        seq!['\\', '"']
    } else if c == '\\' {
        seq!['\\', '\\']
    } else if c == '\u{8}' {
        seq!['\\', 'b']
    } else if c == '\t' {
        seq!['\\', 't']
    } else if c == '\n' {
        seq!['\\', 'n']
    } else if c == '\u{c}' {
        seq!['\\', 'f']
    } else if c == '\r' {
        seq!['\\', 'r']
    } else if (c as u32) < 0x20 {
        seq!['\\', 'u', '0', '0', hex_digit((c as u32) as int / 16), hex_digit((c as u32) as int % 16)]
    } else {
        seq![c]
    }
}

/// The characters of `s`, each written as in a JSON string literal.
pub open spec fn json_escaped(s: Seq<char>) -> Seq<char>
    decreases s.len(),
{
    if s.len() == 0 {
        Seq::empty()
    } else {
        json_escaped(s.drop_last()) + json_char(s.last())
    }
}

/// The JSON literal of a string, as `serde_json` writes it: the escaped
/// characters between double quotes.
pub open spec fn json_string_of(s: Seq<char>) -> Seq<char> {
    seq!['"'] + json_escaped(s) + seq!['"']
}

/// Relies on `serde_json::to_string` on a `str`, which writes the string as
/// a JSON literal (`format_escaped_str`) into a `Vec` and so cannot fail.
#[verifier::external_body]
fn json_string(s: &str) -> (r: String)
    ensures
        r@ == json_string_of(s@),
{
    match serde_json::to_string(s) {
        Ok(j) => j,
        Err(_) => String::new(),
    }
}

/// An optional string as JSON: its literal, or `null`.
pub open spec fn opt_json_of(o: Option<Seq<char>>) -> Seq<char> {
    match o {
        Some(s) => json_string_of(s),
        None => "null"@,
    }
}

/// The JSON object of a Git request: its fields in order, the reference
/// under the key `ref`, nothing between the tokens.
pub open spec fn git_info_json_of(v: GitInfoView) -> Seq<char> {
    "{\"url\":"@ + json_string_of(v.url) + ",\"rev\":"@ + opt_json_of(v.rev) + ",\"ref\":"@
        + opt_json_of(v.git_ref) + ",\"dir\":"@ + opt_json_of(v.dir) + ",\"submodules\":"@ + (if v.submodules {
        "true"@
    } else {
        "false"@
    }) + "}"@
}

fn opt_json(o: &Option<String>) -> (r: String)
    ensures
        r@ == opt_json_of(
            match o {
                Some(s) => Some(s@),
                None => None,
            },
        ),
{
    match o {
        Some(s) => json_string(s.as_str()),
        None => String::from_str("null"),
    }
}

/// The JSON object of a Git request.
pub fn git_info_json(info: &GitInfo) -> (r: String)
    ensures
        r@ == git_info_json_of(info@),
{
    let url = json_string(info.url.as_str());
    let rev = opt_json(&info.rev);
    let git_ref = opt_json(&info.git_ref);
    let dir = opt_json(&info.dir);
    let a = joined("{\"url\":", url.as_str());
    let a = joined(a.as_str(), ",\"rev\":");
    let a = joined(a.as_str(), rev.as_str());
    let a = joined(a.as_str(), ",\"ref\":");
    let a = joined(a.as_str(), git_ref.as_str());
    let a = joined(a.as_str(), ",\"dir\":");
    let a = joined(a.as_str(), dir.as_str());
    let a = joined(a.as_str(), ",\"submodules\":");
    let a = joined(
        a.as_str(),
        if info.submodules {
            "true"
        } else {
            "false"
        },
    );
    let r = joined(a.as_str(), "}");
    assert(r@ =~= git_info_json_of(info@));
    r
}

/// The expression that fetches the Git repository described by `info_json`,
/// the JSON form of a `GitInfo` (with its reference under the key `ref`).
/// Revision, reference and submodule flag are passed on only where set, so
/// that Nix's own defaults hold for the others.
pub open spec fn git_fetch_expr_of(info_json: Seq<char>) -> Seq<char> {
    "let info = builtins.fromJSON ''"@ + info_json
        + "''; in builtins.fetchGit ({ url = info.url; } // (if info.rev != null then { rev = info.rev; } else {}) // (if info.ref != null then { ref = info.ref; } else {}) // (if info.submodules != null then { submodules = info.submodules; } else {}))"@
}

/// The expression that fetches the Git repository described by `info_json`.
pub fn git_fetch_expr(info_json: &str) -> (r: String)
    ensures
        r@ == git_fetch_expr_of(info_json@),
{
    let a = joined("let info = builtins.fromJSON ''", info_json);
    joined(
        a.as_str(),
        "''; in builtins.fetchGit ({ url = info.url; } // (if info.rev != null then { rev = info.rev; } else {}) // (if info.ref != null then { ref = info.ref; } else {}) // (if info.submodules != null then { submodules = info.submodules; } else {}))",
    )
}

/// The expression that fetches the tracked content of the Git working tree
/// at `path`.
pub open spec fn git_path_fetch_expr_of(path: Seq<char>) -> Seq<char> {
    "builtins.fetchGit (builtins.toPath \""@ + path + "\")"@
}

/// The expression that fetches the Git working tree at `path`.
pub fn git_path_fetch_expr(path: &str) -> (r: String)
    ensures
        r@ == git_path_fetch_expr_of(path@),
{
    let a = joined("builtins.fetchGit (builtins.toPath \"", path);
    joined(a.as_str(), "\")")
}

/// The expression that fetches and unpacks the tarball at `url`.
pub open spec fn tarball_fetch_expr_of(url: Seq<char>) -> Seq<char> {
    "builtins.fetchTarball { url = \""@ + url + "\"; }"@
}

/// The expression that fetches and unpacks the tarball at `url`.
pub fn tarball_fetch_expr(url: &str) -> (r: String)
    ensures
        r@ == tarball_fetch_expr_of(url@),
{
    let a = joined("builtins.fetchTarball { url = \"", url);
    joined(a.as_str(), "\"; }")
}

/// The store path that a fetch expression evaluated to: the evaluator must
/// answer with a JSON string.
pub fn fetched_root(result: EvalResult) -> (r: Result<String, FetchError>)
    ensures
        match result {
            EvalResult::Json(JsonValue::Str(s)) => r == Ok::<String, FetchError>(s),
            EvalResult::Json(_) => r == Err::<String, FetchError>(
                FetchError::Answer(AnswerError::WrongType),
            ),
            EvalResult::Raw(_) => r == Err::<String, FetchError>(
                FetchError::Answer(AnswerError::RawAnswer),
            ),
        },
{
    match expect_string(result) {
        Ok(s) => Ok(s),
        Err(e) => Err(FetchError::Answer(e)),
    }
}

/// The one path that realising a fetched source gave. None is an error, and
/// so are several: a fetch has one root.
pub fn single_root(paths: Vec<String>) -> (r: Result<String, FetchError>)
    ensures
        paths@.len() == 0 ==> r == Err::<String, FetchError>(FetchError::NoRoot),
        paths@.len() > 1 ==> r == Err::<String, FetchError>(FetchError::SeveralRoots),
        paths@.len() == 1 ==> r == Ok::<String, FetchError>(paths@[0]),
{
    let mut paths = paths;
    if paths.len() == 0 {
        Err(FetchError::NoRoot)
    } else if paths.len() > 1 {
        Err(FetchError::SeveralRoots)
    } else {
        Ok(paths.remove(0))
    }
}

/// `rel` appended to `base` as a path: `rel` itself where it is absolute or
/// `base` is empty, else the two with one `/` between them.
pub open spec fn path_join(base: Seq<char>, rel: Seq<char>) -> Seq<char> {
    if rel.len() > 0 && rel[0] == '/' {
        rel
    } else if base.len() == 0 {
        rel
    } else if base.last() == '/' {
        base + rel
    } else {
        base + seq!['/'] + rel
    }
}

/// `rel` appended to `base` as a path.
pub fn join_path(base: &str, rel: &str) -> (r: String)
    ensures
        r@ == path_join(base@, rel@),
{
    proof {
        reveal_strlit("/");
    }
    let n = base.unicode_len();
    if rel.unicode_len() > 0 && rel.get_char(0) == '/' {
        String::from_str(rel)
    } else if n == 0 {
        String::from_str(rel)
    } else if base.get_char(n - 1) == '/' {
        joined(base, rel)
    } else {
        let a = joined(base, "/");
        joined(a.as_str(), rel)
    }
}

/// The path of a fetched source: its root, or the directory `dir` in it.
pub fn source_path(root: &str, dir: &Option<String>) -> (r: String)
    ensures
        r@ == match dir {
            Some(d) => path_join(root@, d@),
            None => root@,
        },
{
    match dir {
        Some(d) => join_path(root, d.as_str()),
        None => String::from_str(root),
    }
}

} // verus!
