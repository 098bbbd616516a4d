//! What the Nix store answers, read into values.
use vstd::prelude::*;
use vstd::string::*;
use crate::text::{
    after_last, find_char, find_from, has_prefix, lemma_find_from_at, starts_with, text_after_last,
    text_between, texts_view, trim, trimmed,
};

verus! {

/// The directory that store paths live in.
pub open spec fn store_prefix() -> Seq<char> {
    "/nix/store/"@
}

/// Why a path has no store name.
#[derive(PartialEq, Eq, Structural, Clone, Copy, Debug)]
pub enum StoreNameError {
    /// The path is not under `/nix/store/`.
    NotInStore,
    /// The store entry's segment holds no `-` after its hash.
    NoName,
}

/// The name of a store entry: what follows the first `-` in the path segment
/// right after `/nix/store/`.
pub open spec fn store_name_of(p: Seq<char>) -> Result<Seq<char>, StoreNameError> {
    if !starts_with(p, store_prefix()) {
        Err(StoreNameError::NotInStore)
    } else {
        let end = find_from(p, '/', store_prefix().len() as int);
        let dash = find_from(p, '-', store_prefix().len() as int);
        if dash >= end {
            Err(StoreNameError::NoName)
        } else {
            Ok(p.subrange(dash + 1, end))
        }
    }
}

/// The name of the store entry at `path`, as `builtins.path` wants it when a
/// path is imported again by its hash.
pub fn get_store_path_name(path: &str) -> (r: Result<String, StoreNameError>)
    ensures
        r.is_ok() == store_name_of(path@).is_ok(),
        r matches Ok(n) ==> store_name_of(path@) == Ok::<Seq<char>, StoreNameError>(n@),
        r matches Err(e) ==> store_name_of(path@) == Err::<Seq<char>, StoreNameError>(e),
{
    proof {
        reveal_strlit("/nix/store/");
    }
    if !has_prefix(path, "/nix/store/") {
        return Err(StoreNameError::NotInStore);
    }
    let end = find_char(path, '/', 11);
    let dash = find_char(path, '-', 11);
    if dash >= end {
        Err(StoreNameError::NoName)
    } else {
        Ok(text_between(path, dash + 1, end))
    }
}

/// Store-entry naming: `/nix/store/<hash>-<name>` is named `<name>`, dashes
/// in the name included; an entry with no `-` after its hash has no name,
/// which is an error.
pub proof fn lemma_store_name(hash: Seq<char>, name: Seq<char>)
    requires
        forall|i: int| 0 <= i < hash.len() ==> hash[i] != '-' && hash[i] != '/',
        forall|i: int| 0 <= i < name.len() ==> name[i] != '/',
    ensures
        store_name_of(store_prefix() + hash + seq!['-'] + name) == Ok::<
            Seq<char>,
            StoreNameError,
        >(name),
        store_name_of(store_prefix() + hash) == Err::<Seq<char>, StoreNameError>(
            StoreNameError::NoName,
        ),
{
    reveal_strlit("/nix/store/");
    let pre = store_prefix();
    let p = pre + hash + seq!['-'] + name;
    let q = pre + hash;
    assert(p.subrange(0, 11) =~= pre);
    assert(q.subrange(0, 11) =~= pre);
    let d: int = 11 + hash.len() as int;
    lemma_find_from_at(p, '-', 11, d);
    lemma_find_from_at(p, '/', 11, p.len() as int);
    lemma_find_from_at(q, '-', 11, q.len() as int);
    lemma_find_from_at(q, '/', 11, q.len() as int);
    assert(p.subrange(d + 1, p.len() as int) =~= name);
}

/// The hash in what `nix-store --query --hash` printed: the trimmed output
/// after its last `:` (the algorithm's name goes before it).
pub open spec fn store_hash_of_output(out: Seq<char>) -> Seq<char> {
    after_last(trim(out), ':')
}

/// The hash in what `nix-store --query --hash` printed.
pub fn store_hash_from_output(out: &str) -> (r: String)
    ensures
        r@ == store_hash_of_output(out@),
{
    let t = trimmed(out);
    text_after_last(t.as_str(), ':')
}

/// The arguments of `nix` that hash the directory tree at `path` with SHA-256.
pub open spec fn path_hash_args_of(path: Seq<char>) -> Seq<Seq<char>> {
    seq!["hash"@, "path"@, path, "--type"@, "sha256"@]
}

/// The arguments of `nix` that hash the directory tree at `path`.
pub fn path_hash_args(path: &str) -> (r: Vec<String>)
    ensures
        texts_view(r@) == path_hash_args_of(path@),
{
    let r = vec![
        String::from_str("hash"),
        String::from_str("path"),
        String::from_str(path),
        String::from_str("--type"),
        String::from_str("sha256"),
    ];
    assert(texts_view(r@) =~= path_hash_args_of(path@));
    r
}

/// The arguments of `nix` that hash the file at `path` with SHA-256.
pub open spec fn file_hash_args_of(path: Seq<char>) -> Seq<Seq<char>> {
    seq!["hash"@, "file"@, path, "--type"@, "sha256"@]
}

/// The arguments of `nix` that hash the file at `path`.
pub fn file_hash_args(path: &str) -> (r: Vec<String>)
    ensures
        texts_view(r@) == file_hash_args_of(path@),
{
    let r = vec![
        String::from_str("hash"),
        String::from_str("file"),
        String::from_str(path),
        String::from_str("--type"),
        String::from_str("sha256"),
    ];
    assert(texts_view(r@) =~= file_hash_args_of(path@));
    r
}

/// The arguments of `nix-store` that ask for the recorded hash of `path`.
pub open spec fn store_query_args_of(path: Seq<char>) -> Seq<Seq<char>> {
    seq!["--query"@, path, "--hash"@]
}

/// The arguments of `nix-store` that ask for the recorded hash of `path`.
pub fn store_query_args(path: &str) -> (r: Vec<String>)
    ensures
        texts_view(r@) == store_query_args_of(path@),
{
    let r = vec![String::from_str("--query"), String::from_str(path), String::from_str("--hash")];
    assert(texts_view(r@) =~= store_query_args_of(path@));
    r
}

/// The arguments of `nix-store` that add the tree at `path` as a recursive
/// SHA-256 fixed output.
pub open spec fn store_add_args_of(path: Seq<char>) -> Seq<Seq<char>> {
    seq!["--recursive"@, "--add-fixed"@, "sha256"@, path]
}

/// The arguments of `nix-store` that add the tree at `path` as a fixed output.
pub fn store_add_args(path: &str) -> (r: Vec<String>)
    ensures
        texts_view(r@) == store_add_args_of(path@),
{
    let r = vec![
        String::from_str("--recursive"),
        String::from_str("--add-fixed"),
        String::from_str("sha256"),
        String::from_str(path),
    ];
    assert(texts_view(r@) =~= store_add_args_of(path@));
    r
}

/// The arguments of `nix-store` that realise `path`.
pub open spec fn realise_args_of(path: Seq<char>) -> Seq<Seq<char>> {
    seq!["--realise"@, path]
}

/// The arguments of `nix-store` that realise `path`.
pub fn realise_args(path: &str) -> (r: Vec<String>)
    ensures
        texts_view(r@) == realise_args_of(path@),
{
    let r = vec![String::from_str("--realise"), String::from_str(path)];
    assert(texts_view(r@) =~= realise_args_of(path@));
    r
}

} // verus!
