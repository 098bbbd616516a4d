//! Resolution of a source reference, as a machine that decides each next
//! step from what the last one brought back. The caller performs each
//! action (a filesystem check, a command) and hands its outcome back as an
//! event; resolution ends with `Done` or `Fail`.
use vstd::prelude::*;
use vstd::string::*;
use crate::fetch::{
    fetched_root, git_fetch_expr, git_fetch_expr_of, git_info_json, git_info_json_of, git_path_fetch_expr,
    git_path_fetch_expr_of, join_path, path_join, single_root, source_path, tarball_fetch_expr,
    tarball_fetch_expr_of, FetchError,
};
use crate::git::{untracked_files, untracked_warning, untracked_warning_of};
use crate::nix::{fetch_opts, EvalOpts, EvalResult, JsonValue};
use crate::search::{candidates_of, first_present, parent_of, remove_filename_from_path, search_candidates};
use crate::source::{forge_to_git, opt_text, FixedOutputStoreEntry, GitInfo, Source};
use crate::store::{store_hash_from_output, store_hash_of_output};
use crate::text::{lines_of, split_lines, texts_view, trim, trimmed};
use crate::uri::{plan_fetch, plan_of, FetchPlan, PlanView, UriError};

verus! {

/// What a fetch through the evaluator is for.
#[derive(Clone, Debug)]
pub enum Target {
    /// A local project, fetched as a Git working tree.
    Path,
    /// A remote Git repository.
    Git { info: GitInfo },
    /// A tarball at a URL.
    Tarball { url: String },
}

/// Where a resolution stands: what it waits for.
#[derive(Clone, Debug)]
pub enum ResolveState {
    /// The canonical form of a local path.
    Canonicalizing,
    /// Whether the canonical path names a file.
    CheckingFile { path: String },
    /// Which of the candidate marker paths are files.
    Searching { candidates: Vec<String> },
    /// Whether the project directory holds a `.git` directory.
    CheckingGit { dir: String },
    /// The list of untracked files of the working tree.
    ListingUntracked { dir: String },
    /// What adding the project directory to the store printed.
    Adding,
    /// The evaluator's answer to the fetch expression.
    Evaluating { target: Target },
    /// What realising the fetched path printed.
    Realising { target: Target },
    /// What the store printed for the hash of `path`.
    Hashing { target: Target, path: String },
    /// Nothing: resolution is over.
    Finished,
}

/// The outcome of an action.
#[derive(Debug)]
pub enum Event {
    /// The canonical path, or `None` where the path does not exist.
    Canonical(Option<String>),
    /// Whether a path names a file.
    IsFile(bool),
    /// For each path checked, whether it is a file.
    Present(Vec<bool>),
    /// Whether a path names a directory.
    IsDir(bool),
    /// The standard output of a command that succeeded.
    Output(String),
    /// The evaluator's answer.
    Answer(EvalResult),
}

/// Why a resolution failed.
#[derive(PartialEq, Eq, Structural, Clone, Copy, Debug)]
pub enum ResolveError {
    /// The reference could not be classified.
    Uri(UriError),
    /// The local path does not exist.
    PathNotFound,
    /// No `nilla.nix` in the directory or any directory above it.
    MarkerNotFound,
    /// The fetch gave no usable store path.
    Fetch(FetchError),
    /// An event that the state does not wait for.
    UnexpectedEvent,
}

/// What the caller is to do next.
#[derive(Debug)]
pub enum Action {
    /// Find the canonical form of `path`.
    Canonicalize { path: String },
    /// Tell whether `path` names a file.
    CheckFile { path: String },
    /// Tell, for each of `paths`, whether it names a file.
    CheckFiles { paths: Vec<String> },
    /// Tell whether `path` names a directory.
    CheckDir { path: String },
    /// List the untracked files of the working tree `dir`.
    ListUntracked { dir: String },
    /// Add the directory `dir` to the store.
    AddToStore { dir: String },
    /// Show `warning` where there is one, then evaluate `expr` with `opts`.
    Evaluate { expr: String, opts: EvalOpts, warning: Option<String> },
    /// Realise the store path `root`.
    Realise { root: String },
    /// Ask the store for the hash of `path`.
    QueryHash { path: String },
    /// Resolution succeeded.
    Done { source: Source },
    /// Resolution failed.
    Fail { error: ResolveError },
}

/// The marker file of a project.
pub open spec fn marker() -> Seq<char> {
    "nilla.nix"@
}

/// The directory of Git metadata.
pub open spec fn git_dir() -> Seq<char> {
    ".git"@
}

/// `r` fails with `e` and ends the resolution.
pub open spec fn fails_with(r: (ResolveState, Action), e: ResolveError) -> bool {
    r.0 is Finished && (r.1 matches Action::Fail { error } && error == e)
}

/// `r` starts the evaluation of `expr` as a fetch (JSON, impure), with no
/// warning.
pub open spec fn evaluates(r: (ResolveState, Action), expr: Seq<char>) -> bool {
    r.0 is Evaluating && (r.1 matches Action::Evaluate { expr: x, opts, warning } && x@ == expr
        && opts.json && opts.impure && warning is None)
}

fn start_git(info: GitInfo) -> (r: (ResolveState, Action))
    ensures
        evaluates(r, git_fetch_expr_of(git_info_json_of(info@))),
        r.0 matches ResolveState::Evaluating { target: Target::Git { info: i } } && i@ == info@,
{
    let json = git_info_json(&info);
    let expr = git_fetch_expr(json.as_str());
    (ResolveState::Evaluating { target: Target::Git { info } }, Action::Evaluate { expr, opts: fetch_opts(), warning: None })
}

/// The first step of resolving `uri`: classify it, then look for a local
/// path or evaluate the fetch expression of its scheme.
pub fn start(uri: &str) -> (r: (ResolveState, Action))
    ensures
        match plan_of(uri@) {
            Err(e) => fails_with(r, ResolveError::Uri(e)),
            Ok(PlanView::LocalPath(p)) => r.0 is Canonicalizing && (r.1 matches Action::Canonicalize {
                path,
            } && path@ == p),
            Ok(PlanView::Git(g)) => evaluates(r, git_fetch_expr_of(git_info_json_of(g))) && (
            r.0 matches ResolveState::Evaluating { target: Target::Git { info } } && info@ == g),
            Ok(PlanView::Forge(x)) => evaluates(r, git_fetch_expr_of(git_info_json_of(forge_to_git(x))))
                && (r.0 matches ResolveState::Evaluating { target: Target::Git { info } } && info@
                == forge_to_git(x)),
            Ok(PlanView::Tarball(u)) => evaluates(r, tarball_fetch_expr_of(u)) && (
            r.0 matches ResolveState::Evaluating { target: Target::Tarball { url } } && url@ == u),
        },
{
    match plan_fetch(uri) {
        Err(e) => (ResolveState::Finished, Action::Fail { error: ResolveError::Uri(e) }),
        Ok(FetchPlan::LocalPath { path }) => (ResolveState::Canonicalizing, Action::Canonicalize { path }),
        Ok(FetchPlan::Git { info }) => start_git(info),
        Ok(FetchPlan::Forge { info }) => start_git(info.to_git_info()),
        Ok(FetchPlan::Tarball { url }) => {
            let expr = tarball_fetch_expr(url.as_str());
            (ResolveState::Evaluating { target: Target::Tarball { url } }, Action::Evaluate { expr, opts: fetch_opts(), warning: None })
        },
    }
}

/// `path` without its last part where `is_file`; unchanged otherwise.
pub open spec fn dir_of(path: Seq<char>, is_file: bool) -> Seq<char> {
    if is_file {
        match parent_of(path) {
            Some(q) => q,
            None => path,
        }
    } else {
        path
    }
}

/// `i` is the first position of `v` that holds `true`.
pub open spec fn first_true(v: Seq<bool>, i: int) -> bool {
    0 <= i < v.len() && v[i] && forall|j: int| 0 <= j < i ==> !v[j]
}

/// The path of the fetched source for `target`, given the realised root:
/// the requested directory inside it for a Git request that names one.
pub open spec fn fetched_path_of(target: Target, root: Seq<char>) -> Seq<char> {
    match target {
        Target::Git { info } => match info.dir {
            Some(d) => path_join(root, d@),
            None => root,
        },
        _ => root,
    }
}

/// The source that a resolution for `target` ends with.
pub open spec fn source_for(target: Target, source: Source) -> bool {
    match target {
        Target::Path => source is Path,
        Target::Git { info } => source matches Source::Git { info: i, .. } && i == info,
        Target::Tarball { url } => source matches Source::Tarball { url: u, .. } && u == url,
    }
}

/// What `step` does: the next state and action for `event` in `state`.
pub open spec fn step_spec(state: ResolveState, event: Event, r: (ResolveState, Action)) -> bool {
    match (state, event) {
        (ResolveState::Canonicalizing, Event::Canonical(None)) => fails_with(
            r,
            ResolveError::PathNotFound,
        ),
        (ResolveState::Canonicalizing, Event::Canonical(Some(p))) => (r.0 matches ResolveState::CheckingFile {
            path,
        } && path@ == p@) && (r.1 matches Action::CheckFile { path } && path@ == p@),
        (ResolveState::CheckingFile { path }, Event::IsFile(b)) => (r.0 matches ResolveState::Searching {
            candidates,
        } && texts_view(candidates@) == candidates_of(dir_of(path@, b), marker())) && (
        r.1 matches Action::CheckFiles { paths } && texts_view(paths@) == candidates_of(
            dir_of(path@, b),
            marker(),
        )),
        (ResolveState::Searching { candidates }, Event::Present(v)) => if v@.len()
            != candidates@.len() {
            fails_with(r, ResolveError::UnexpectedEvent)
        } else if forall|i: int| 0 <= i < v@.len() ==> !v@[i] {
            fails_with(r, ResolveError::MarkerNotFound)
        } else {
            exists|i: int|
                first_true(v@, i) && (r.0 matches ResolveState::CheckingGit { dir } && dir@ == dir_of(
                    candidates@[i]@,
                    true,
                )) && (r.1 matches Action::CheckDir { path } && path@ == path_join(
                    dir_of(candidates@[i]@, true),
                    git_dir(),
                ))
        },
        (ResolveState::CheckingGit { dir }, Event::IsDir(true)) => (
        r.0 matches ResolveState::ListingUntracked { dir: d } && d@ == dir@) && (
        r.1 matches Action::ListUntracked { dir: d } && d@ == dir@),
        (ResolveState::CheckingGit { dir }, Event::IsDir(false)) => r.0 is Adding && (
        r.1 matches Action::AddToStore { dir: d } && d@ == dir@),
        (ResolveState::ListingUntracked { dir }, Event::Output(out)) => (
        r.0 matches ResolveState::Evaluating { target } && target is Path) && (
        r.1 matches Action::Evaluate { expr, opts, warning } && expr@ == git_path_fetch_expr_of(dir@)
            && opts.json && opts.impure && opt_text(warning) == untracked_warning_of(
            dir@,
            lines_of(trim(out@)),
        )),
        (ResolveState::Adding, Event::Output(out)) => (r.0 matches ResolveState::Hashing {
            target,
            path,
        } && target is Path && path@ == trim(out@)) && (r.1 matches Action::QueryHash { path }
            && path@ == trim(out@)),
        (ResolveState::Evaluating { target }, Event::Answer(a)) => match a {
            EvalResult::Json(JsonValue::Str(s)) => (r.0 matches ResolveState::Realising {
                target: t,
            } && t == target) && (r.1 matches Action::Realise { root } && root == s),
            EvalResult::Json(_) => fails_with(
                r,
                ResolveError::Fetch(FetchError::Answer(crate::nix::AnswerError::WrongType)),
            ),
            EvalResult::Raw(_) => fails_with(
                r,
                ResolveError::Fetch(FetchError::Answer(crate::nix::AnswerError::RawAnswer)),
            ),
        },
        (ResolveState::Realising { target }, Event::Output(out)) => if lines_of(out@).len()
            == 0 {
            fails_with(r, ResolveError::Fetch(FetchError::NoRoot))
        } else if lines_of(out@).len() > 1 {
            fails_with(r, ResolveError::Fetch(FetchError::SeveralRoots))
        } else {
            (r.0 matches ResolveState::Hashing { target: t, path } && t == target && path@
                == fetched_path_of(target, lines_of(out@)[0])) && (r.1 matches Action::QueryHash {
                path,
            } && path@ == fetched_path_of(target, lines_of(out@)[0]))
        },
        (ResolveState::Hashing { target, path }, Event::Output(out)) => r.0 is Finished && (
        r.1 matches Action::Done { source } && source_for(target, source) && source.entry_of().path
            == path && source.entry_of().hash@ == store_hash_of_output(out@)),
        _ => fails_with(r, ResolveError::UnexpectedEvent),
    }
}

/// The step that follows `event` in `state`.
pub fn step(state: ResolveState, event: Event) -> (r: (ResolveState, Action))
    ensures
        step_spec(state, event, r),
{
    proof {
        reveal_strlit("nilla.nix");
        reveal_strlit(".git");
    }
    match (state, event) {
        (ResolveState::Canonicalizing, Event::Canonical(None)) => (
            ResolveState::Finished,
            Action::Fail { error: ResolveError::PathNotFound },
        ),
        (ResolveState::Canonicalizing, Event::Canonical(Some(p))) => {
            let q = p.clone();
            (ResolveState::CheckingFile { path: p }, Action::CheckFile { path: q })
        },
        (ResolveState::CheckingFile { path }, Event::IsFile(b)) => {
            let dir = remove_filename_from_path(path.as_str(), b);
            let candidates = search_candidates(dir.as_str(), "nilla.nix");
            let paths = candidates.clone();
            proof {
                assert(texts_view(paths@) =~= texts_view(candidates@));
            }
            (ResolveState::Searching { candidates }, Action::CheckFiles { paths })
        },
        (ResolveState::Searching { candidates }, Event::Present(v)) => {
            if v.len() != candidates.len() {
                return (ResolveState::Finished, Action::Fail { error: ResolveError::UnexpectedEvent });
            }
            match first_present(&v) {
                None => (ResolveState::Finished, Action::Fail { error: ResolveError::MarkerNotFound }),
                Some(i) => {
                    let dir = remove_filename_from_path(candidates[i].as_str(), true);
                    let path = join_path(dir.as_str(), ".git");
                    assert(first_true(v@, i as int));
                    (ResolveState::CheckingGit { dir }, Action::CheckDir { path })
                },
            }
        },
        (ResolveState::CheckingGit { dir }, Event::IsDir(true)) => {
            let d = dir.clone();
            (ResolveState::ListingUntracked { dir }, Action::ListUntracked { dir: d })
        },
        (ResolveState::CheckingGit { dir }, Event::IsDir(false)) => (
            ResolveState::Adding,
            Action::AddToStore { dir },
        ),
        (ResolveState::ListingUntracked { dir }, Event::Output(out)) => {
            let files = untracked_files(out.as_str());
            let warning = untracked_warning(dir.as_str(), &files);
            let expr = git_path_fetch_expr(dir.as_str());
            (
                ResolveState::Evaluating { target: Target::Path },
                Action::Evaluate { expr, opts: fetch_opts(), warning },
            )
        },
        (ResolveState::Adding, Event::Output(out)) => {
            let path = trimmed(out.as_str());
            let p = path.clone();
            (ResolveState::Hashing { target: Target::Path, path }, Action::QueryHash { path: p })
        },
        (ResolveState::Evaluating { target }, Event::Answer(a)) => match fetched_root(a) {
            Ok(root) => (ResolveState::Realising { target }, Action::Realise { root }),
            Err(e) => (ResolveState::Finished, Action::Fail { error: ResolveError::Fetch(e) }),
        },
        (ResolveState::Realising { target }, Event::Output(out)) => {
            let lines = split_lines(out.as_str());
            proof {
                assert(lines@.len() == texts_view(lines@).len());
            }
            match single_root(lines) {
                Err(e) => (ResolveState::Finished, Action::Fail { error: ResolveError::Fetch(e) }),
                Ok(root) => {
                    let path = match &target {
                        Target::Git { info } => source_path(root.as_str(), &info.dir),
                        _ => root,
                    };
                    let p = path.clone();
                    (ResolveState::Hashing { target, path }, Action::QueryHash { path: p })
                },
            }
        },
        (ResolveState::Hashing { target, path }, Event::Output(out)) => {
            let hash = store_hash_from_output(out.as_str());
            let entry = FixedOutputStoreEntry { path, hash };
            let source = match target {
                Target::Path => Source::Path { entry },
                Target::Git { info } => Source::Git { info, entry },
                Target::Tarball { url } => Source::Tarball { url, entry },
            };
            (ResolveState::Finished, Action::Done { source })
        },
        _ => (ResolveState::Finished, Action::Fail { error: ResolveError::UnexpectedEvent }),
    }
}

/// A store entry's hash is what the store answered for the entry's own path:
/// where a step asks for the hash of a path, the next step on the store's
/// answer makes an entry with that very path and the hash read from that
/// answer.
pub proof fn lemma_entry_hash_is_queried(
    s1: ResolveState,
    e1: Event,
    r1: (ResolveState, Action),
    out: String,
    r2: (ResolveState, Action),
)
    requires
        step_spec(s1, e1, r1),
        r1.1 is QueryHash,
        step_spec(r1.0, Event::Output(out), r2),
    ensures
        r2.1 matches Action::Done { source } && source.entry_of().path@ == r1.1->QueryHash_path@
            && source.entry_of().hash@ == store_hash_of_output(out@),
{
}

} // verus!
