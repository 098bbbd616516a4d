//! Requests to the Nix evaluator and the reading of its answers.
use vstd::prelude::*;
use vstd::string::*;
use crate::source::FixedOutputStoreEntry;
use crate::store::{get_store_path_name, store_name_of, StoreNameError};
use crate::text::{find_last_before, joined, text_between, text_from, texts_view, trim, trimmed};

verus! {

/// Options of one evaluation.
#[derive(PartialEq, Eq, Structural, Clone, Copy, Debug)]
pub struct EvalOpts {
    /// Ask for the answer as JSON.
    pub json: bool,
    /// Allow impure evaluation.
    pub impure: bool,
}

impl Default for EvalOpts {
    /// Raw text, impure.
    fn default() -> (r: EvalOpts)
        ensures
            r.json == false,
            r.impure == true,
    {
        EvalOpts { json: false, impure: true }
    }
}

/// The arguments of `nix` for evaluating `code`: a trace is always asked
/// for, `--json` and `--impure` as the options say.
pub open spec fn eval_args_of(code: Seq<char>, json: bool, impure: bool) -> Seq<Seq<char>> {
    seq!["eval"@, "--show-trace"@] + (if json {
        seq!["--json"@]
    } else {
        Seq::empty()
    }) + (if impure {
        seq!["--impure"@]
    } else {
        Seq::empty()
    }) + seq!["--expr"@, code]
}

/// The arguments of `nix` for evaluating `code` with `opts`.
pub fn eval_args(code: &str, opts: &EvalOpts) -> (r: Vec<String>)
    ensures
        texts_view(r@) == eval_args_of(code@, opts.json, opts.impure),
{
    let mut r: Vec<String> = Vec::new();
    r.push(String::from_str("eval"));
    r.push(String::from_str("--show-trace"));
    if opts.json {
        r.push(String::from_str("--json"));
    }
    if opts.impure {
        r.push(String::from_str("--impure"));
    }
    r.push(String::from_str("--expr"));
    r.push(String::from_str(code));
    assert(texts_view(r@) =~= eval_args_of(code@, opts.json, opts.impure));
    r
}

/// A JSON value as the evaluator printed it. Numbers keep their text.
#[derive(Debug)]
pub enum JsonValue {
    Null,
    Bool(bool),
    Number(String),
    Str(String),
    Array(Vec<JsonValue>),
    Object(Vec<(String, JsonValue)>),
}

/// The answer of one evaluation.
#[derive(Debug)]
pub enum EvalResult {
    /// The answer read as JSON, where JSON was asked for.
    Json(JsonValue),
    /// The trimmed text of the answer, where it was not.
    Raw(String),
}

/// The value that `serde_json` reads from `text`, or `None` where `text` is
/// not JSON.
pub uninterp spec fn parsed_json(text: Seq<char>) -> Option<JsonValue>;

#[verifier::external_type_specification]
#[verifier::external_body]
pub struct ExJsonValue(serde_json::Value);

/// Converts a value that `serde_json` read, variant by variant; numbers keep
/// the text that `serde_json::Number` prints.
#[verifier::external_body]
fn json_value(v: serde_json::Value) -> JsonValue {
    match v {
        serde_json::Value::Null => JsonValue::Null,
        serde_json::Value::Bool(b) => JsonValue::Bool(b),
        serde_json::Value::Number(n) => JsonValue::Number(n.to_string()),
        serde_json::Value::String(s) => JsonValue::Str(s),
        serde_json::Value::Array(a) => JsonValue::Array(a.into_iter().map(json_value).collect()),
        serde_json::Value::Object(o) => JsonValue::Object(o.into_iter().map(|(k, v)| (k, json_value(v))).collect()),
    }
}

/// Relies on `serde_json::from_str` to read `text` as one JSON value.
#[verifier::external_body]
fn parse_json(text: &str) -> (r: Option<JsonValue>)
    ensures
        r == parsed_json(text@),
{
    serde_json::from_str::<serde_json::Value>(text).ok().map(json_value)
}

/// The answer of an evaluation that printed `stdout`: its trimmed text read
/// as JSON where JSON was asked for (`None` where it is not JSON), else the
/// trimmed text itself.
pub fn eval_result(stdout: &str, json: bool) -> (r: Option<EvalResult>)
    ensures
        json ==> match parsed_json(trim(stdout@)) {
            Some(v) => r == Some(EvalResult::Json(v)),
            None => r is None,
        },
        !json ==> (r matches Some(EvalResult::Raw(t)) && t@ == trim(stdout@)),
{
    let text = trimmed(stdout);
    if json {
        match parse_json(text.as_str()) {
            Some(v) => Some(EvalResult::Json(v)),
            None => None,
        }
    } else {
        Some(EvalResult::Raw(text))
    }
}

/// An answer that is not of the kind asked for.
#[derive(PartialEq, Eq, Structural, Clone, Copy, Debug)]
pub enum AnswerError {
    /// Raw text came back where JSON was asked for.
    RawAnswer,
    /// JSON of another type came back.
    WrongType,
}

/// The string that a JSON answer holds.
pub fn expect_string(result: EvalResult) -> (r: Result<String, AnswerError>)
    ensures
        match result {
            EvalResult::Json(JsonValue::Str(s)) => r == Ok::<String, AnswerError>(s),
            EvalResult::Json(_) => r == Err::<String, AnswerError>(AnswerError::WrongType),
            EvalResult::Raw(_) => r == Err::<String, AnswerError>(AnswerError::RawAnswer),
        },
{
    match result {
        EvalResult::Json(JsonValue::Str(s)) => Ok(s),
        EvalResult::Json(_) => Err(AnswerError::WrongType),
        EvalResult::Raw(_) => Err(AnswerError::RawAnswer),
    }
}

/// The boolean that a JSON answer holds.
pub fn expect_bool(result: EvalResult) -> (r: Result<bool, AnswerError>)
    ensures
        match result {
            EvalResult::Json(JsonValue::Bool(b)) => r == Ok::<bool, AnswerError>(b),
            EvalResult::Json(_) => r == Err::<bool, AnswerError>(AnswerError::WrongType),
            EvalResult::Raw(_) => r == Err::<bool, AnswerError>(AnswerError::RawAnswer),
        },
{
    match result {
        EvalResult::Json(JsonValue::Bool(b)) => Ok(b),
        EvalResult::Json(_) => Err(AnswerError::WrongType),
        EvalResult::Raw(_) => Err(AnswerError::RawAnswer),
    }
}

/// The options of a fetch: the answer, a store path, as JSON; impure, since
/// a fetch reaches outside the store.
pub fn fetch_opts() -> (r: EvalOpts)
    ensures
        r.json,
        r.impure,
{
    EvalOpts { json: true, impure: true }
}

/// The options of a query on a project (an attribute test, a main
/// program): the answer as JSON; pure, since the project is pinned by its
/// hash.
pub fn project_query_opts() -> (r: EvalOpts)
    ensures
        r.json,
        !r.impure,
{
    EvalOpts { json: true, impure: false }
}

/// The options of the platform query: the answer as JSON; impure, since
/// only an impure evaluation knows the platform.
pub fn system_query_opts() -> (r: EvalOpts)
    ensures
        r.json,
        r.impure,
{
    EvalOpts { json: true, impure: true }
}

/// The expression whose value is the platform the evaluator runs on.
pub open spec fn system_expr() -> Seq<char> {
    "builtins.currentSystem"@
}

/// The expression whose value is the platform the evaluator runs on.
pub fn get_system_expr() -> (r: String)
    ensures
        r@ == system_expr(),
{
    String::from_str("builtins.currentSystem")
}

/// The opening of an expression that imports `file` of a project whose
/// store entry is `path` with `hash` and store name `name`; bindings and the
/// body follow it.
pub open spec fn project_prelude(
    path: Seq<char>,
    hash: Seq<char>,
    name: Seq<char>,
    file: Seq<char>,
) -> Seq<char> {
    "let source = builtins.path { path = \""@ + path + "\"; sha256 = \""@ + hash + "\"; name = \""@
        + name + "\"; }; project = import \"${source}/"@ + file + "\"; "@
}

fn prelude(path: &str, hash: &str, name: &str, file: &str) -> (r: String)
    ensures
        r@ == project_prelude(path@, hash@, name@, file@),
{
    let a = joined("let source = builtins.path { path = \"", path);
    let b = joined(a.as_str(), "\"; sha256 = \"");
    let c = joined(b.as_str(), hash);
    let d = joined(c.as_str(), "\"; name = \"");
    let e = joined(d.as_str(), name);
    let f = joined(e.as_str(), "\"; }; project = import \"${source}/");
    let g = joined(f.as_str(), file);
    joined(g.as_str(), "\"; ")
}

/// The test of whether the project has attribute `name`. For a dotted name
/// the last part is looked for in the attribute set that the rest names, and
/// a missing set counts as empty, so the answer is `false` rather than an
/// evaluation error.
pub open spec fn exists_body(name: Seq<char>) -> Seq<char> {
    let k = find_last_before(name, '.', name.len() as int);
    if k < 0 {
        "in project ? "@ + name
    } else {
        "in (project."@ + name.subrange(0, k) + " or {}) ? "@ + name.subrange(k + 1, name.len() as int)
    }
}

/// The expression that tests whether `file` of the project in `entry` has
/// attribute `name`.
pub open spec fn exists_expr_of(file: Seq<char>, entry: FixedOutputStoreEntry, name: Seq<char>) -> Result<
    Seq<char>,
    StoreNameError,
> {
    match store_name_of(entry.path@) {
        Ok(n) => Ok(project_prelude(entry.path@, entry.hash@, n, file) + exists_body(name)),
        Err(e) => Err(e),
    }
}

/// The expression that tests whether `file` of the project in `entry` has
/// attribute `name`; an error where the entry's path has no store name.
pub fn exists_in_project_expr(file: &str, entry: &FixedOutputStoreEntry, name: &str) -> (r: Result<
    String,
    StoreNameError,
>)
    ensures
        r.is_ok() == exists_expr_of(file@, *entry, name@).is_ok(),
        r matches Ok(x) ==> exists_expr_of(file@, *entry, name@) == Ok::<Seq<char>, StoreNameError>(
            x@,
        ),
        r matches Err(e) ==> exists_expr_of(file@, *entry, name@) == Err::<Seq<char>, StoreNameError>(
            e,
        ),
{
    let store_name = match get_store_path_name(entry.path.as_str()) {
        Ok(n) => n,
        Err(e) => return Err(e),
    };
    let head = prelude(entry.path.as_str(), entry.hash.as_str(), store_name.as_str(), file);
    let n = name.unicode_len();
    let mut k: usize = n;
    while k > 0 && name.get_char(k - 1) != '.'
        invariant
            k <= n,
            n == name@.len(),
            find_last_before(name@, '.', n as int) == find_last_before(name@, '.', k as int),
        decreases k,
    {
        k -= 1;
    }
    let body = if k == 0 {
        joined("in project ? ", name)
    } else {
        let init = text_between(name, 0, k - 1);
        let last = text_from(name, k);
        let a = joined("in (project.", init.as_str());
        let b = joined(a.as_str(), " or {}) ? ");
        joined(b.as_str(), last.as_str())
    };
    assert(body@ =~= exists_body(name@));
    Ok(joined(head.as_str(), body.as_str()))
}

/// The program that package `name` of the project runs, for `system`; the
/// package's name where it declares none.
pub open spec fn main_program_body(name: Seq<char>, system: Seq<char>) -> Seq<char> {
    "system = \""@ + system + "\"; name = \""@ + name
        + "\"; in project.packages.${name}.result.${system}.meta.mainProgram or name"@
}

/// The expression that asks for the main program of package `name`.
pub open spec fn main_program_expr_of(
    file: Seq<char>,
    entry: FixedOutputStoreEntry,
    name: Seq<char>,
    system: Seq<char>,
) -> Result<Seq<char>, StoreNameError> {
    match store_name_of(entry.path@) {
        Ok(n) => Ok(project_prelude(entry.path@, entry.hash@, n, file) + main_program_body(name, system)),
        Err(e) => Err(e),
    }
}

/// The expression that asks for the main program of package `name` of
/// `file` in `entry`, built for `system`.
pub fn main_program_expr(
    file: &str,
    entry: &FixedOutputStoreEntry,
    name: &str,
    system: &str,
) -> (r: Result<String, StoreNameError>)
    ensures
        r.is_ok() == main_program_expr_of(file@, *entry, name@, system@).is_ok(),
        r matches Ok(x) ==> main_program_expr_of(file@, *entry, name@, system@) == Ok::<
            Seq<char>,
            StoreNameError,
        >(x@),
        r matches Err(e) ==> main_program_expr_of(file@, *entry, name@, system@) == Err::<
            Seq<char>,
            StoreNameError,
        >(e),
{
    let store_name = match get_store_path_name(entry.path.as_str()) {
        Ok(n) => n,
        Err(e) => return Err(e),
    };
    let head = prelude(entry.path.as_str(), entry.hash.as_str(), store_name.as_str(), file);
    let a = joined("system = \"", system);
    let b = joined(a.as_str(), "\"; name = \"");
    let c = joined(b.as_str(), name);
    let body = joined(
        c.as_str(),
        "\"; in project.packages.${name}.result.${system}.meta.mainProgram or name",
    );
    Ok(joined(head.as_str(), body.as_str()))
}

/// Options of `nix build`.
pub struct BuildOpts<'a> {
    /// Leave a `result` link.
    pub link: bool,
    /// Print the paths that were built.
    pub report: bool,
    /// The platform to build for; the evaluator's own where absent.
    pub system: Option<&'a str>,
}

/// The arguments of `nix` for building attribute `name` of `file`.
pub open spec fn build_args_of(
    file: Seq<char>,
    name: Seq<char>,
    link: bool,
    report: bool,
    system: Option<Seq<char>>,
) -> Seq<Seq<char>> {
    seq!["build"@] + (if link {
        Seq::empty()
    } else {
        seq!["--no-link"@]
    }) + (if report {
        seq!["--print-out-paths"@]
    } else {
        Seq::empty()
    }) + seq!["-f"@, file] + (match system {
        Some(s) => seq!["--system"@, s],
        None => Seq::empty(),
    }) + seq![name]
}

/// The arguments of `nix` for building attribute `name` of `file`.
pub fn build_args(file: &str, name: &str, opts: &BuildOpts) -> (r: Vec<String>)
    ensures
        texts_view(r@) == build_args_of(
            file@,
            name@,
            opts.link,
            opts.report,
            match opts.system {
                Some(s) => Some(s@),
                None => None,
            },
        ),
{
    let mut r: Vec<String> = Vec::new();
    r.push(String::from_str("build"));
    if !opts.link {
        r.push(String::from_str("--no-link"));
    }
    if opts.report {
        r.push(String::from_str("--print-out-paths"));
    }
    r.push(String::from_str("-f"));
    r.push(String::from_str(file));
    match opts.system {
        Some(s) => {
            r.push(String::from_str("--system"));
            r.push(String::from_str(s));
        },
        None => {},
    }
    r.push(String::from_str(name));
    assert(texts_view(r@) =~= build_args_of(
        file@,
        name@,
        opts.link,
        opts.report,
        match opts.system {
            Some(s) => Some(s@),
            None => None,
        },
    ));
    r
}

/// Options of `nix-shell`.
pub struct ShellOpts<'a> {
    /// The platform to use; the evaluator's own where empty.
    pub system: &'a str,
}

/// The arguments of `nix-shell` for attribute `name` of `file`.
pub open spec fn shell_args_of(file: Seq<char>, name: Seq<char>, system: Seq<char>) -> Seq<Seq<char>> {
    seq![file] + (if system.len() == 0 {
        Seq::empty()
    } else {
        seq!["--system"@, system]
    }) + seq!["-A"@, name]
}

/// The arguments of `nix-shell` for attribute `name` of `file`.
pub fn shell_args(file: &str, name: &str, opts: &ShellOpts) -> (r: Vec<String>)
    ensures
        texts_view(r@) == shell_args_of(file@, name@, opts.system@),
{
    let mut r: Vec<String> = Vec::new();
    r.push(String::from_str(file));
    if opts.system.unicode_len() != 0 {
        r.push(String::from_str("--system"));
        r.push(String::from_str(opts.system));
    }
    r.push(String::from_str("-A"));
    r.push(String::from_str(name));
    assert(texts_view(r@) =~= shell_args_of(file@, name@, opts.system@));
    r
}

/// Options of a main-program query.
pub struct GetMainProgramOpts<'a> {
    /// The platform to ask for; the evaluator's own where empty.
    pub system: &'a str,
}

/// Whether the platform must first be asked of the evaluator.
pub fn needs_system_query(opts: &GetMainProgramOpts) -> (r: bool)
    ensures
        r == (opts.system@.len() == 0),
{
    opts.system.unicode_len() == 0
}

} // verus!
