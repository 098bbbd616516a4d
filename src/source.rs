//! The resolved source of a project and the Git requests that lead to it.
use vstd::prelude::*;
use vstd::string::*;
use crate::text::joined;

verus! {

/// Optional text, seen as optional characters.
pub open spec fn opt_text(o: Option<String>) -> Option<Seq<char>> {
    match o {
        Some(s) => Some(s@),
        None => None,
    }
}

/// A path in the Nix store together with the hash that the store recorded
/// for it when the entry was made.
#[derive(Clone, Debug)]
pub struct FixedOutputStoreEntry {
    pub path: String,
    pub hash: String,
}

/// A normalised request to fetch a Git repository.
#[derive(Clone, Debug)]
pub struct GitInfo {
    pub url: String,
    pub rev: Option<String>,
    pub git_ref: Option<String>,
    pub dir: Option<String>,
    pub submodules: bool,
}

/// What a `GitInfo` says, as characters.
pub struct GitInfoView {
    pub url: Seq<char>,
    pub rev: Option<Seq<char>>,
    pub git_ref: Option<Seq<char>>,
    pub dir: Option<Seq<char>>,
    pub submodules: bool,
}

impl View for GitInfo {
    type V = GitInfoView;

    open spec fn view(&self) -> GitInfoView {
        GitInfoView {
            url: self.url@,
            rev: opt_text(self.rev),
            git_ref: opt_text(self.git_ref),
            dir: opt_text(self.dir),
            submodules: self.submodules,
        }
    }
}

/// A repository on a forge, named by owner and repository.
#[derive(Clone, Debug)]
pub struct GitXInfo {
    pub owner: String,
    pub repo: String,
    pub rev: Option<String>,
    pub git_ref: Option<String>,
    pub dir: Option<String>,
    pub host: String,
    pub submodules: bool,
}

/// What a `GitXInfo` says, as characters.
pub struct GitXInfoView {
    pub owner: Seq<char>,
    pub repo: Seq<char>,
    pub rev: Option<Seq<char>>,
    pub git_ref: Option<Seq<char>>,
    pub dir: Option<Seq<char>>,
    pub host: Seq<char>,
    pub submodules: bool,
}

impl View for GitXInfo {
    type V = GitXInfoView;

    open spec fn view(&self) -> GitXInfoView {
        GitXInfoView {
            owner: self.owner@,
            repo: self.repo@,
            rev: opt_text(self.rev),
            git_ref: opt_text(self.git_ref),
            dir: opt_text(self.dir),
            host: self.host@,
            submodules: self.submodules,
        }
    }
}

/// The SSH address of a repository on a forge: `git@<host>:<owner>/<repo>.git`.
pub open spec fn forge_url(host: Seq<char>, owner: Seq<char>, repo: Seq<char>) -> Seq<char> {
    seq!['g', 'i', 't', '@'] + host + seq![':'] + owner + seq!['/'] + repo + seq![
        '.',
        'g',
        'i',
        't',
    ]
}

/// The Git request for a forge repository: same options, SSH address.
pub open spec fn forge_to_git(x: GitXInfoView) -> GitInfoView {
    GitInfoView {
        url: forge_url(x.host, x.owner, x.repo),
        rev: x.rev,
        git_ref: x.git_ref,
        dir: x.dir,
        submodules: x.submodules,
    }
}

impl GitXInfo {
    /// The plain Git request for this forge repository.
    pub fn to_git_info(self) -> (r: GitInfo)
        ensures
            r@ == forge_to_git(self@),
    {
        let value = self;
        proof {
            reveal_strlit("git@");
            reveal_strlit(":");
            reveal_strlit("/");
            reveal_strlit(".git");
        }
        let a = joined("git@", value.host.as_str());
        let b = joined(a.as_str(), ":");
        let c = joined(b.as_str(), value.owner.as_str());
        let d = joined(c.as_str(), "/");
        let e = joined(d.as_str(), value.repo.as_str());
        let url = joined(e.as_str(), ".git");
        assert(url@ =~= forge_url(value.host@, value.owner@, value.repo@));
        GitInfo {
            url,
            rev: value.rev,
            git_ref: value.git_ref,
            dir: value.dir,
            submodules: value.submodules,
        }
    }
}

impl From<GitXInfo> for GitInfo {
    fn from(value: GitXInfo) -> (r: GitInfo)
        ensures
            r@ == forge_to_git(value@),
    {
        value.to_git_info()
    }
}

impl vstd::std_specs::convert::FromSpecImpl<GitXInfo> for GitInfo {
    open spec fn obeys_from_spec() -> bool {
        false
    }

    open spec fn from_spec(v: GitXInfo) -> GitInfo {
        arbitrary()
    }
}

/// A project source, fetched and registered in the store. Every variant
/// carries the store entry that the fetch produced.
#[derive(Clone, Debug)]
pub enum Source {
    Path { entry: FixedOutputStoreEntry },
    Git { info: GitInfo, entry: FixedOutputStoreEntry },
    Sourcehut { info: GitXInfo, entry: FixedOutputStoreEntry },
    Tarball { url: String, entry: FixedOutputStoreEntry },
}

impl Source {
    /// The store entry of whichever variant this is.
    pub open spec fn entry_of(self) -> FixedOutputStoreEntry {
        match self {
            Source::Path { entry } => entry,
            Source::Git { entry, .. } => entry,
            Source::Sourcehut { entry, .. } => entry,
            Source::Tarball { entry, .. } => entry,
        }
    }

    /// The store path of the source.
    pub fn get_path(self) -> (r: String)
        ensures
            r == self.entry_of().path,
    {
        self.get_entry().path
    }

    /// The hash that the store recorded for the source.
    pub fn get_hash(self) -> (r: String)
        ensures
            r == self.entry_of().hash,
    {
        self.get_entry().hash
    }

    /// The whole store entry of the source.
    pub fn get_entry(self) -> (r: FixedOutputStoreEntry)
        ensures
            r == self.entry_of(),
    {
        match self {
            Source::Path { entry } => entry,
            Source::Git { info: _, entry } => entry,
            Source::Sourcehut { info: _, entry } => entry,
            Source::Tarball { url: _, entry } => entry,
        }
    }
}

} // verus!
