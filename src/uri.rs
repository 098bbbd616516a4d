//! Classification of source references and extraction of their parameters.
use vstd::prelude::*;
use vstd::string::*;
use crate::source::{forge_to_git, forge_url, opt_text, GitInfo, GitInfoView, GitXInfo, GitXInfoView};
use crate::text::{find_char, find_from, has_prefix, joined, same_text, starts_with, text_between, text_from};

verus! {

/// The kind of reference, by its leading text.
#[derive(PartialEq, Eq, Structural, Clone, Copy, Debug)]
pub enum Scheme {
    /// Starts with `.`, `/` or `~`.
    LocalPath,
    /// `path:<p>`.
    PathTag,
    /// `git:<url>`.
    Git,
    /// `github:<owner>/<repo>`.
    GitHub,
    /// `gitlab:<owner>/<repo>`.
    GitLab,
    /// `tarball:<url>`.
    Tarball,
    /// A bare `http://` or `https://` URL.
    Http,
    /// None of the above.
    Unknown,
}

pub open spec fn path_tag() -> Seq<char> {
    seq!['p', 'a', 't', 'h', ':']
}

pub open spec fn git_tag() -> Seq<char> {
    seq!['g', 'i', 't', ':']
}

pub open spec fn github_tag() -> Seq<char> {
    seq!['g', 'i', 't', 'h', 'u', 'b', ':']
}

pub open spec fn gitlab_tag() -> Seq<char> {
    seq!['g', 'i', 't', 'l', 'a', 'b', ':']
}

pub open spec fn tarball_tag() -> Seq<char> {
    seq!['t', 'a', 'r', 'b', 'a', 'l', 'l', ':']
}

pub open spec fn http_tag() -> Seq<char> {
    seq!['h', 't', 't', 'p', ':', '/', '/']
}

pub open spec fn https_tag() -> Seq<char> {
    seq!['h', 't', 't', 'p', 's', ':', '/', '/']
}

/// The reference is a filesystem path written directly.
pub open spec fn is_local_start(uri: Seq<char>) -> bool {
    uri.len() > 0 && (uri[0] == '.' || uri[0] == '/' || uri[0] == '~')
}

/// The reference carries the leading text of scheme `s`, looked at alone.
pub open spec fn has_tag(uri: Seq<char>, s: Scheme) -> bool {
    match s {
        Scheme::LocalPath => is_local_start(uri),
        Scheme::PathTag => starts_with(uri, path_tag()),
        Scheme::Git => starts_with(uri, git_tag()),
        Scheme::GitHub => starts_with(uri, github_tag()),
        Scheme::GitLab => starts_with(uri, gitlab_tag()),
        Scheme::Tarball => starts_with(uri, tarball_tag()),
        Scheme::Http => starts_with(uri, http_tag()) || starts_with(uri, https_tag()),
        Scheme::Unknown => false,
    }
}

/// The scheme a reference is handled by: the first whose leading text it has.
pub open spec fn scheme_of(uri: Seq<char>) -> Scheme {
    if has_tag(uri, Scheme::LocalPath) {
        Scheme::LocalPath
    } else if has_tag(uri, Scheme::PathTag) {
        Scheme::PathTag
    } else if has_tag(uri, Scheme::Git) {
        Scheme::Git
    } else if has_tag(uri, Scheme::GitHub) {
        Scheme::GitHub
    } else if has_tag(uri, Scheme::GitLab) {
        Scheme::GitLab
    } else if has_tag(uri, Scheme::Tarball) {
        Scheme::Tarball
    } else if has_tag(uri, Scheme::Http) {
        Scheme::Http
    } else {
        Scheme::Unknown
    }
}

proof fn lemma_prefix_char(s: Seq<char>, p: Seq<char>, k: int)
    requires
        starts_with(s, p),
        0 <= k < p.len(),
    ensures
        s[k] == p[k],
{
    assert(s.subrange(0, p.len() as int)[k] == s[k]);
}

/// Classification is total and exclusive: no reference carries the leading
/// text of two schemes, so the scheme chosen is the one whose text it has,
/// whatever the order of the checks, and a reference is unrecognised exactly
/// when it has none.
pub proof fn lemma_scheme_exclusive(uri: Seq<char>)
    ensures
        forall|s: Scheme, t: Scheme| has_tag(uri, s) && has_tag(uri, t) ==> s == t,
        forall|s: Scheme| s != Scheme::Unknown ==> (scheme_of(uri) == s <==> has_tag(uri, s)),
        scheme_of(uri) == Scheme::Unknown <==> (forall|s: Scheme| !has_tag(uri, s)),
{
    if starts_with(uri, path_tag()) {
        lemma_prefix_char(uri, path_tag(), 0);
    }
    if starts_with(uri, git_tag()) {
        lemma_prefix_char(uri, git_tag(), 0);
        lemma_prefix_char(uri, git_tag(), 3);
    }
    if starts_with(uri, github_tag()) {
        lemma_prefix_char(uri, github_tag(), 0);
        lemma_prefix_char(uri, github_tag(), 3);
    }
    if starts_with(uri, gitlab_tag()) {
        lemma_prefix_char(uri, gitlab_tag(), 0);
        lemma_prefix_char(uri, gitlab_tag(), 3);
    }
    if starts_with(uri, tarball_tag()) {
        lemma_prefix_char(uri, tarball_tag(), 0);
    }
    if starts_with(uri, http_tag()) {
        lemma_prefix_char(uri, http_tag(), 0);
        lemma_prefix_char(uri, http_tag(), 4);
    }
    if starts_with(uri, https_tag()) {
        lemma_prefix_char(uri, https_tag(), 0);
        lemma_prefix_char(uri, https_tag(), 4);
    }
    assert forall|s: Scheme, t: Scheme| has_tag(uri, s) && has_tag(uri, t) implies s == t by {
    }
}

/// The scheme that handles `uri`.
pub fn scheme_for(uri: &str) -> (r: Scheme)
    ensures
        r == scheme_of(uri@),
{
    proof {
        reveal_strlit("path:");
        reveal_strlit("git:");
        reveal_strlit("github:");
        reveal_strlit("gitlab:");
        reveal_strlit("tarball:");
        reveal_strlit("http://");
        reveal_strlit("https://");
    }
    assert("path:"@ =~= path_tag());
    assert("git:"@ =~= git_tag());
    assert("github:"@ =~= github_tag());
    assert("gitlab:"@ =~= gitlab_tag());
    assert("tarball:"@ =~= tarball_tag());
    assert("http://"@ =~= http_tag());
    assert("https://"@ =~= https_tag());
    if uri.unicode_len() > 0 {
        let c = uri.get_char(0);
        if c == '.' || c == '/' || c == '~' {
            return Scheme::LocalPath;
        }
    }
    if has_prefix(uri, "path:") {
        Scheme::PathTag
    } else if has_prefix(uri, "git:") {
        Scheme::Git
    } else if has_prefix(uri, "github:") {
        Scheme::GitHub
    } else if has_prefix(uri, "gitlab:") {
        Scheme::GitLab
    } else if has_prefix(uri, "tarball:") {
        Scheme::Tarball
    } else if has_prefix(uri, "http://") || has_prefix(uri, "https://") {
        Scheme::Http
    } else {
        Scheme::Unknown
    }
}

/// A URL as the `url` crate reads it: its host, its path and its decoded
/// query pairs in order.
pub struct UrlParts {
    pub host: Option<String>,
    pub path: String,
    pub query: Vec<(String, String)>,
}

/// What a `UrlParts` holds, as characters.
pub struct UrlView {
    pub host: Option<Seq<char>>,
    pub path: Seq<char>,
    pub query: Seq<(Seq<char>, Seq<char>)>,
}

/// Query pairs, as characters.
pub open spec fn pairs_view(q: Seq<(String, String)>) -> Seq<(Seq<char>, Seq<char>)> {
    q.map_values(|p: (String, String)| (p.0@, p.1@))
}

impl View for UrlParts {
    type V = UrlView;

    open spec fn view(&self) -> UrlView {
        UrlView { host: opt_text(self.host), path: self.path@, query: pairs_view(self.query@) }
    }
}

/// How the `url` crate reads `text`, or `None` where it refuses it.
pub uninterp spec fn parsed_url(text: Seq<char>) -> Option<UrlView>;

/// Relies on `url::Url::parse` to read a URL, and on its `host_str`, `path`
/// and `query_pairs` to hand back the parts that were read.
#[verifier::external_body]
fn parse_url(text: &str) -> (r: Option<UrlParts>)
    ensures
        r.is_some() == parsed_url(text@).is_some(),
        r.is_some() ==> parsed_url(text@) == Some(r.unwrap()@),
{
    url::Url::parse(text).ok().map(|u| UrlParts {
        host: u.host_str().map(|h| h.to_string()),
        path: u.path().to_string(),
        query: u.query_pairs().map(|(k, v)| (k.into_owned(), v.into_owned())).collect(),
    })
}

/// The value of the first pair from position `i` on whose key is `key`.
pub open spec fn value_from(ps: Seq<(Seq<char>, Seq<char>)>, key: Seq<char>, i: int) -> Option<
    Seq<char>,
>
    decreases ps.len() - i,
{
    if 0 <= i < ps.len() {
        if ps[i].0 == key {
            Some(ps[i].1)
        } else {
            value_from(ps, key, i + 1)
        }
    } else {
        None
    }
}

/// The value of the first query pair whose key is `key`.
pub open spec fn query_value(ps: Seq<(Seq<char>, Seq<char>)>, key: Seq<char>) -> Option<Seq<char>> {
    value_from(ps, key, 0)
}

/// A flag parameter is set when its first value is exactly `true`.
pub open spec fn query_flag(ps: Seq<(Seq<char>, Seq<char>)>, key: Seq<char>) -> bool {
    query_value(ps, key) == Some(seq!['t', 'r', 'u', 'e'])
}

pub open spec fn rev_key() -> Seq<char> {
    seq!['r', 'e', 'v']
}

pub open spec fn ref_key() -> Seq<char> {
    seq!['r', 'e', 'f']
}

pub open spec fn dir_key() -> Seq<char> {
    seq!['d', 'i', 'r']
}

pub open spec fn submodules_key() -> Seq<char> {
    seq!['s', 'u', 'b', 'm', 'o', 'd', 'u', 'l', 'e', 's']
}

pub open spec fn host_key() -> Seq<char> {
    seq!['h', 'o', 's', 't']
}

/// The value of the first pair whose key is `key`.
pub fn query_lookup(pairs: &Vec<(String, String)>, key: &str) -> (r: Option<String>)
    ensures
        opt_text(r) == query_value(pairs_view(pairs@), key@),
{
    let ghost pv = pairs_view(pairs@);
    let mut i: usize = 0;
    while i < pairs.len()
        invariant
            i <= pairs@.len(),
            pv == pairs_view(pairs@),
            query_value(pv, key@) == value_from(pv, key@, i as int),
        decreases pairs@.len() - i,
    {
        if same_text(pairs[i].0.as_str(), key) {
            return Some(pairs[i].1.clone());
        }
        i += 1;
    }
    None
}

/// Whether the first value of `key` is `true`; unset means `false`.
pub fn query_flag_set(pairs: &Vec<(String, String)>, key: &str) -> (r: bool)
    ensures
        r == query_flag(pairs_view(pairs@), key@),
{
    proof {
        reveal_strlit("true");
    }
    assert("true"@ =~= seq!['t', 'r', 'u', 'e']);
    match query_lookup(pairs, key) {
        Some(v) => same_text(v.as_str(), "true"),
        None => false,
    }
}

/// The Git request that a `git:` reference with this path and these query
/// pairs describes.
pub open spec fn git_info_of(url: Seq<char>, ps: Seq<(Seq<char>, Seq<char>)>) -> GitInfoView {
    GitInfoView {
        url,
        rev: query_value(ps, rev_key()),
        git_ref: query_value(ps, ref_key()),
        dir: query_value(ps, dir_key()),
        submodules: query_flag(ps, submodules_key()),
    }
}

/// The forge request for `owner`/`repo` with these query pairs; the host is
/// the `host` parameter where given, else `default_host`.
pub open spec fn forge_info_of(
    owner: Seq<char>,
    repo: Seq<char>,
    ps: Seq<(Seq<char>, Seq<char>)>,
    default_host: Seq<char>,
) -> GitXInfoView {
    GitXInfoView {
        owner,
        repo,
        rev: query_value(ps, rev_key()),
        git_ref: query_value(ps, ref_key()),
        dir: query_value(ps, dir_key()),
        host: match query_value(ps, host_key()) {
            Some(h) => h,
            None => default_host,
        },
        submodules: query_flag(ps, submodules_key()),
    }
}

/// The Git request for a `git:` reference read as this URL path and these
/// query pairs.
pub fn git_info_from_parts(url: &str, pairs: &Vec<(String, String)>) -> (r: GitInfo)
    ensures
        r@ == git_info_of(url@, pairs_view(pairs@)),
{
    proof {
        reveal_strlit("rev");
        reveal_strlit("ref");
        reveal_strlit("dir");
        reveal_strlit("submodules");
    }
    assert("rev"@ =~= rev_key());
    assert("ref"@ =~= ref_key());
    assert("dir"@ =~= dir_key());
    assert("submodules"@ =~= submodules_key());
    GitInfo {
        url: String::from_str(url),
        rev: query_lookup(pairs, "rev"),
        git_ref: query_lookup(pairs, "ref"),
        dir: query_lookup(pairs, "dir"),
        submodules: query_flag_set(pairs, "submodules"),
    }
}

/// The forge request for `owner`/`repo` with these query pairs.
pub fn forge_info_from_parts(
    owner: &str,
    repo: &str,
    pairs: &Vec<(String, String)>,
    default_host: &str,
) -> (r: GitXInfo)
    ensures
        r@ == forge_info_of(owner@, repo@, pairs_view(pairs@), default_host@),
{
    proof {
        reveal_strlit("rev");
        reveal_strlit("ref");
        reveal_strlit("dir");
        reveal_strlit("host");
        reveal_strlit("submodules");
    }
    assert("rev"@ =~= rev_key());
    assert("ref"@ =~= ref_key());
    assert("dir"@ =~= dir_key());
    assert("host"@ =~= host_key());
    assert("submodules"@ =~= submodules_key());
    let host = match query_lookup(pairs, "host") {
        Some(h) => h,
        None => String::from_str(default_host),
    };
    GitXInfo {
        owner: String::from_str(owner),
        repo: String::from_str(repo),
        rev: query_lookup(pairs, "rev"),
        git_ref: query_lookup(pairs, "ref"),
        dir: query_lookup(pairs, "dir"),
        host,
        submodules: query_flag_set(pairs, "submodules"),
    }
}

/// The first segment of a URL path, as `url::Url::path_segments` gives it:
/// `None` where the path does not start with `/`.
pub open spec fn first_segment(path: Seq<char>) -> Option<Seq<char>> {
    if path.len() > 0 && path[0] == '/' {
        Some(path.subrange(1, find_from(path, '/', 1)))
    } else {
        None
    }
}

/// The first segment of a URL path.
pub fn first_path_segment(path: &str) -> (r: Option<String>)
    ensures
        opt_text(r) == first_segment(path@),
{
    let n = path.unicode_len();
    if n == 0 || path.get_char(0) != '/' {
        return None;
    }
    let i = find_char(path, '/', 1);
    Some(text_between(path, 1, i))
}

/// Why a reference could not be classified.
#[derive(PartialEq, Eq, Structural, Clone, Copy, Debug)]
pub enum UriError {
    /// No known scheme prefix.
    UnknownScheme,
    /// The `url` crate refused the reference.
    InvalidUrl,
    /// A forge shorthand whose URL has no path segments.
    CannotBeBase,
    /// A forge shorthand without an owner.
    MissingOwner,
}

/// What fetching a reference takes.
#[derive(Clone, Debug)]
pub enum FetchPlan {
    /// A filesystem path to look for the project in.
    LocalPath { path: String },
    /// A remote Git repository.
    Git { info: GitInfo },
    /// A repository on a forge.
    Forge { info: GitXInfo },
    /// A tarball at a URL.
    Tarball { url: String },
}

/// What a `FetchPlan` says, as characters.
pub enum PlanView {
    LocalPath(Seq<char>),
    Git(GitInfoView),
    Forge(GitXInfoView),
    Tarball(Seq<char>),
}

impl View for FetchPlan {
    type V = PlanView;

    open spec fn view(&self) -> PlanView {
        match self {
            FetchPlan::LocalPath { path } => PlanView::LocalPath(path@),
            FetchPlan::Git { info } => PlanView::Git(info@),
            FetchPlan::Forge { info } => PlanView::Forge(info@),
            FetchPlan::Tarball { url } => PlanView::Tarball(url@),
        }
    }
}

pub open spec fn github_host() -> Seq<char> {
    seq!['g', 'i', 't', 'h', 'u', 'b', '.', 'c', 'o', 'm']
}

pub open spec fn gitlab_host() -> Seq<char> {
    seq!['g', 'i', 't', 'l', 'a', 'b', '.', 'c', 'o', 'm']
}

/// The URL of a tarball reference: given as is where it has an `http://` or
/// `https://` scheme, else with `http://` put in front.
pub open spec fn tarball_url(rest: Seq<char>) -> Seq<char> {
    if starts_with(rest, http_tag()) || starts_with(rest, https_tag()) {
        rest
    } else {
        http_tag() + rest
    }
}

/// The URL that a forge shorthand is read as: `<scheme>://<rest>`.
pub open spec fn forge_text(uri: Seq<char>) -> Seq<char> {
    uri.subrange(0, 7) + seq!['/', '/'] + uri.subrange(7, uri.len() as int)
}

/// The plan for a forge shorthand read as URL `u`: the owner is its host and
/// the repository its first path segment.
pub open spec fn forge_plan(u: Option<UrlView>, default_host: Seq<char>) -> Result<PlanView, UriError> {
    match u {
        None => Err(UriError::InvalidUrl),
        Some(v) => match first_segment(v.path) {
            None => Err(UriError::CannotBeBase),
            Some(repo) => match v.host {
                None => Err(UriError::MissingOwner),
                Some(owner) => Ok(PlanView::Forge(forge_info_of(owner, repo, v.query, default_host))),
            },
        },
    }
}

/// What fetching `uri` takes.
pub open spec fn plan_of(uri: Seq<char>) -> Result<PlanView, UriError> {
    match scheme_of(uri) {
        Scheme::LocalPath => Ok(PlanView::LocalPath(uri)),
        Scheme::PathTag => Ok(PlanView::LocalPath(uri.subrange(5, uri.len() as int))),
        Scheme::Git => match parsed_url(uri) {
            None => Err(UriError::InvalidUrl),
            Some(v) => Ok(PlanView::Git(git_info_of(v.path, v.query))),
        },
        Scheme::GitHub => forge_plan(parsed_url(forge_text(uri)), github_host()),
        Scheme::GitLab => forge_plan(parsed_url(forge_text(uri)), gitlab_host()),
        Scheme::Tarball => Ok(PlanView::Tarball(tarball_url(uri.subrange(8, uri.len() as int)))),
        Scheme::Http => Ok(PlanView::Tarball(uri)),
        Scheme::Unknown => Err(UriError::UnknownScheme),
    }
}

/// The tarball URL for the text after `tarball:`.
pub fn tarball_address(rest: &str) -> (r: String)
    ensures
        r@ == tarball_url(rest@),
{
    proof {
        reveal_strlit("http://");
        reveal_strlit("https://");
    }
    assert("http://"@ =~= http_tag());
    assert("https://"@ =~= https_tag());
    if has_prefix(rest, "http://") || has_prefix(rest, "https://") {
        String::from_str(rest)
    } else {
        joined("http://", rest)
    }
}

fn forge_fetch_plan(uri: &str, default_host: &str) -> (r: Result<FetchPlan, UriError>)
    requires
        uri@.len() >= 7,
    ensures
        r.is_ok() == forge_plan(parsed_url(forge_text(uri@)), default_host@).is_ok(),
        r matches Ok(p) ==> forge_plan(parsed_url(forge_text(uri@)), default_host@) == Ok::<
            PlanView,
            UriError,
        >(p@),
        r matches Err(e) ==> forge_plan(parsed_url(forge_text(uri@)), default_host@) == Err::<
            PlanView,
            UriError,
        >(e),
{
    proof {
        reveal_strlit("//");
    }
    let head = text_between(uri, 0, 7);
    let with_slashes = joined(head.as_str(), "//");
    let text = joined(with_slashes.as_str(), text_from(uri, 7).as_str());
    assert(text@ =~= forge_text(uri@));
    match parse_url(text.as_str()) {
        None => Err(UriError::InvalidUrl),
        Some(u) => match first_path_segment(u.path.as_str()) {
            None => Err(UriError::CannotBeBase),
            Some(repo) => match u.host {
                None => Err(UriError::MissingOwner),
                Some(owner) => Ok(
                    FetchPlan::Forge {
                        info: forge_info_from_parts(
                            owner.as_str(),
                            repo.as_str(),
                            &u.query,
                            default_host,
                        ),
                    },
                ),
            },
        },
    }
}

/// Classifies `uri` and extracts what its scheme needs to fetch it.
pub fn plan_fetch(uri: &str) -> (r: Result<FetchPlan, UriError>)
    ensures
        r.is_ok() == plan_of(uri@).is_ok(),
        r matches Ok(p) ==> plan_of(uri@) == Ok::<PlanView, UriError>(p@),
        r matches Err(e) ==> plan_of(uri@) == Err::<PlanView, UriError>(e),
{
    proof {
        reveal_strlit("github.com");
        reveal_strlit("gitlab.com");
    }
    assert("github.com"@ =~= github_host());
    assert("gitlab.com"@ =~= gitlab_host());
    match scheme_for(uri) {
        Scheme::LocalPath => Ok(FetchPlan::LocalPath { path: String::from_str(uri) }),
        Scheme::PathTag => Ok(FetchPlan::LocalPath { path: text_from(uri, 5) }),
        Scheme::Git => match parse_url(uri) {
            None => Err(UriError::InvalidUrl),
            Some(u) => Ok(FetchPlan::Git { info: git_info_from_parts(u.path.as_str(), &u.query) }),
        },
        Scheme::GitHub => forge_fetch_plan(uri, "github.com"),
        Scheme::GitLab => forge_fetch_plan(uri, "gitlab.com"),
        Scheme::Tarball => {
            let rest = text_from(uri, 8);
            Ok(FetchPlan::Tarball { url: tarball_address(rest.as_str()) })
        },
        Scheme::Http => Ok(FetchPlan::Tarball { url: String::from_str(uri) }),
        Scheme::Unknown => Err(UriError::UnknownScheme),
    }
}

/// A forge shorthand asks for the same Git fetch as a `git:` reference to
/// the forge's SSH address (`git@<host>:<owner>/<repo>.git`) with the same
/// query parameters: same URL, same revision, reference, directory and
/// submodule flag.
pub proof fn lemma_forge_same_as_git(
    owner: Seq<char>,
    repo: Seq<char>,
    ps: Seq<(Seq<char>, Seq<char>)>,
    default_host: Seq<char>,
)
    ensures
        ({
            let x = forge_info_of(owner, repo, ps, default_host);
            forge_to_git(x) == git_info_of(forge_url(x.host, owner, repo), ps)
        }),
{
}

/// A tarball reference without an `http://` or `https://` scheme is read as
/// if `http://` had been written, and fetches what the bare `http://` URL
/// fetches.
pub proof fn lemma_tarball_default_scheme(rest: Seq<char>)
    requires
        !starts_with(rest, http_tag()),
        !starts_with(rest, https_tag()),
    ensures
        plan_of(tarball_tag() + rest) == plan_of(tarball_tag() + (http_tag() + rest)),
        plan_of(tarball_tag() + rest) == plan_of(http_tag() + rest),
        plan_of(tarball_tag() + rest) == Ok::<PlanView, UriError>(PlanView::Tarball(http_tag() + rest)),
{
    let u1 = tarball_tag() + rest;
    let u2 = tarball_tag() + (http_tag() + rest);
    let u3 = http_tag() + rest;
    assert(u1.subrange(0, 8) =~= tarball_tag());
    assert(u2.subrange(0, 8) =~= tarball_tag());
    assert(u3.subrange(0, 7) =~= http_tag());
    assert((http_tag() + rest).subrange(0, 7) =~= http_tag());
    lemma_scheme_exclusive(u1);
    lemma_scheme_exclusive(u2);
    lemma_scheme_exclusive(u3);
    assert(has_tag(u1, Scheme::Tarball));
    assert(has_tag(u2, Scheme::Tarball));
    assert(has_tag(u3, Scheme::Http));
    assert(u1.subrange(8, u1.len() as int) =~= rest);
    assert(u2.subrange(8, u2.len() as int) =~= http_tag() + rest);
}

} // verus!
