//! Untracked files of a Git working tree, which a fetch of the tree leaves out.
use vstd::prelude::*;
use vstd::string::*;
use crate::text::{joined, lines_of, split_lines, texts_view, trim, trimmed};

verus! {

/// The files that `git ls-files --others --exclude-standard` printed: the
/// lines of its trimmed output.
pub fn untracked_files(output: &str) -> (r: Vec<String>)
    ensures
        texts_view(r@) == lines_of(trim(output@)),
{
    let t = trimmed(output);
    split_lines(t.as_str())
}

/// The first `n` files, each on a line of its own, indented.
pub open spec fn file_list(files: Seq<Seq<char>>, n: int) -> Seq<char>
    decreases n,
{
    if n <= 0 {
        Seq::empty()
    } else {
        file_list(files, n - 1) + "\n  "@ + files[n - 1]
    }
}

/// The warning for untracked files in the working tree `dir`: the files that
/// a fetch will not see, and what to do. None where there are none.
pub open spec fn untracked_warning_of(dir: Seq<char>, files: Seq<Seq<char>>) -> Option<Seq<char>> {
    if files.len() == 0 {
        None
    } else {
        Some(
            "Untracked files in "@ + dir + " will not be available within Nix"@ + file_list(
                files,
                files.len() as int,
            )
                + "\n\nIf you experience issues, try adding these files to your git repository with `git add`"@,
        )
    }
}

/// The warning for untracked `files` in the working tree `dir`, if any.
pub fn untracked_warning(dir: &str, files: &Vec<String>) -> (r: Option<String>)
    ensures
        match r {
            Some(w) => untracked_warning_of(dir@, texts_view(files@)) == Some(w@),
            None => untracked_warning_of(dir@, texts_view(files@)) == None::<Seq<char>>,
        },
{
    let ghost fv = texts_view(files@);
    if files.len() == 0 {
        return None;
    }
    let head = joined("Untracked files in ", dir);
    let mut w = joined(head.as_str(), " will not be available within Nix");
    let ghost w0 = w@;
    let mut i: usize = 0;
    while i < files.len()
        invariant
            i <= files@.len(),
            fv == texts_view(files@),
            w@ == w0 + file_list(fv, i as int),
        decreases files@.len() - i,
    {
        let a = joined(w.as_str(), "\n  ");
        w = joined(a.as_str(), files[i].as_str());
        i += 1;
    }
    let r = joined(
        w.as_str(),
        "\n\nIf you experience issues, try adding these files to your git repository with `git add`",
    );
    Some(r)
}

/// One untracked file gives one warning, which names that file; none gives
/// no warning.
pub proof fn lemma_untracked_warning(dir: Seq<char>, file: Seq<char>)
    ensures
        untracked_warning_of(dir, Seq::empty()) == None::<Seq<char>>,
        untracked_warning_of(dir, seq![file]) == Some(
            "Untracked files in "@ + dir + " will not be available within Nix"@ + "\n  "@ + file
                + "\n\nIf you experience issues, try adding these files to your git repository with `git add`"@,
        ),
{
    assert(file_list(seq![file], 1) =~= "\n  "@ + file) by {
        assert(file_list(seq![file], 0) =~= Seq::<char>::empty());
    }
}

} // verus!
