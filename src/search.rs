//! Upward search for a marker: which paths to look at, from a start
//! directory up to the root, and which of them counts as found.
use vstd::prelude::*;
use vstd::string::*;
use crate::fetch::{join_path, path_join};
use crate::source::opt_text;
use crate::text::{texts_view, find_last, find_last_before, lemma_find_last_bounds, text_between};

verus! {

/// The directory that holds `p`: what precedes its last `/` (the root `/`
/// where that is the first character; the empty path for a bare name).
/// `None` for the root itself and for the empty path. Paths are taken as
/// canonical: no trailing `/`, no `.` or `..` parts.
pub open spec fn parent_of(p: Seq<char>) -> Option<Seq<char>> {
    let k = find_last_before(p, '/', p.len() as int);
    if k < 0 {
        if p.len() > 0 {
            Some(Seq::empty())
        } else {
            None
        }
    } else if k == 0 {
        if p.len() > 1 {
            Some(seq!['/'])
        } else {
            None
        }
    } else {
        Some(p.subrange(0, k))
    }
}

/// A parent is shorter than the path it holds.
pub proof fn lemma_parent_shorter(p: Seq<char>)
    ensures
        parent_of(p) matches Some(q) ==> q.len() < p.len(),
{
    lemma_find_last_bounds(p, '/', p.len() as int);
}

/// `p` and each directory above it, nearest first, ending at the root.
pub open spec fn ancestors_of(p: Seq<char>) -> Seq<Seq<char>>
    decreases p.len(),
{
    match parent_of(p) {
        Some(q) => {
            proof {
                lemma_parent_shorter(p);
            }
            seq![p] + ancestors_of(q)
        },
        None => seq![p],
    }
}

/// The upward search covers the whole way up: it starts at `p`, each next
/// directory is the parent of the one before, and the last has no parent.
pub proof fn lemma_ancestors_reach_root(p: Seq<char>)
    ensures
        ancestors_of(p).len() >= 1,
        ancestors_of(p)[0] == p,
        forall|i: int|
            0 <= i < ancestors_of(p).len() - 1 ==> parent_of(#[trigger] ancestors_of(p)[i]) == Some(
                ancestors_of(p)[i + 1],
            ),
        parent_of(ancestors_of(p).last()) is None,
    decreases p.len(),
{
    match parent_of(p) {
        Some(q) => {
            lemma_parent_shorter(p);
            lemma_ancestors_reach_root(q);
            let a = ancestors_of(p);
            let b = ancestors_of(q);
            assert(a =~= seq![p] + b);
            assert forall|i: int| 0 <= i < a.len() - 1 implies parent_of(#[trigger] a[i]) == Some(
                a[i + 1],
            ) by {
                if i > 0 {
                    assert(a[i] == b[i - 1]);
                    assert(a[i + 1] == b[i]);
                }
            }
            assert(a.last() == b.last());
        },
        None => {},
    }
}

/// The paths where a marker named `name` is looked for from `start` up.
pub open spec fn candidates_of(start: Seq<char>, name: Seq<char>) -> Seq<Seq<char>> {
    ancestors_of(start).map_values(|d: Seq<char>| path_join(d, name))
}

/// The directory that holds `path`.
pub fn parent_path(path: &str) -> (r: Option<String>)
    ensures
        opt_text(r) == parent_of(path@),
{
    proof {
        reveal_strlit("/");
    }
    match find_last(path, '/') {
        None => {
            if path.unicode_len() > 0 {
                Some(String::new())
            } else {
                None
            }
        },
        Some(k) => {
            proof {
                lemma_find_last_bounds(path@, '/', path@.len() as int);
            }
            if k == 0 {
                if path.unicode_len() > 1 {
                    assert("/"@ =~= seq!['/']);
                    Some(String::from_str("/"))
                } else {
                    None
                }
            } else {
                Some(text_between(path, 0, k))
            }
        },
    }
}

/// `path` without its last part where `is_file` says it names a file;
/// unchanged otherwise, and where it has no parent.
pub fn remove_filename_from_path(path: &str, is_file: bool) -> (r: String)
    ensures
        r@ == if is_file {
            match parent_of(path@) {
                Some(q) => q,
                None => path@,
            }
        } else {
            path@
        },
{
    if is_file {
        match parent_path(path) {
            Some(q) => q,
            None => String::from_str(path),
        }
    } else {
        String::from_str(path)
    }
}

/// The paths where a marker named `name` is looked for, from `start` up to
/// the root, nearest first.
pub fn search_candidates(start: &str, name: &str) -> (r: Vec<String>)
    ensures
        texts_view(r@) == candidates_of(start@, name@),
{
    let mut r: Vec<String> = Vec::new();
    let mut current = String::from_str(start);
    loop
        invariant_except_break
            candidates_of(start@, name@) == texts_view(r@) + candidates_of(current@, name@),
        ensures
            texts_view(r@) == candidates_of(start@, name@),
        decreases current@.len(),
    {
        let here = join_path(current.as_str(), name);
        let ghost before = r@;
        let ghost hv = here@;
        r.push(here);
        assert(texts_view(r@) =~= texts_view(before) + seq![hv]);
        match parent_path(current.as_str()) {
            Some(q) => {
                proof {
                    lemma_parent_shorter(current@);
                    assert(candidates_of(current@, name@) =~= seq![path_join(current@, name@)]
                        + candidates_of(q@, name@));
                }
                current = q;
            },
            None => {
                proof {
                    assert(candidates_of(current@, name@) =~= seq![path_join(current@, name@)]);
                }
                break;
            },
        }
    }
    r
}

/// Which candidate counts as found, given for each whether the marker is
/// there: the first that has it. `None` exactly when no candidate has it, so
/// a search from a directory with no marker in it or above it finds nothing.
pub fn first_present(present: &Vec<bool>) -> (r: Option<usize>)
    ensures
        r.is_none() <==> (forall|i: int| 0 <= i < present@.len() ==> !present@[i]),
        r matches Some(k) ==> k < present@.len() && present@[k as int] && (forall|j: int|
            0 <= j < k ==> !present@[j]),
{
    let mut i: usize = 0;
    while i < present.len()
        invariant
            i <= present@.len(),
            forall|j: int| 0 <= j < i ==> !present@[j],
        decreases present@.len() - i,
    {
        if present[i] {
            return Some(i);
        }
        i += 1;
    }
    None
}

} // verus!
