//! What the system commands hand to `nixos-rebuild`.
use vstd::prelude::*;
use vstd::string::*;
use crate::fetch::{join_path, path_join};
use crate::text::{texts_view, find_char, find_from, joined};

verus! {

/// The file that marks a project's root.
pub open spec fn project_file() -> Seq<char> {
    "nilla.nix"@
}

/// The project file inside the fetched project directory `dir`.
pub fn project_file_path(dir: &str) -> (r: String)
    ensures
        r@ == path_join(dir@, project_file()),
{
    join_path(dir, "nilla.nix")
}

/// A system name that holds a `.`.
#[derive(PartialEq, Eq, Structural, Clone, Copy, Debug)]
pub enum HostnameError {
    Dotted,
}

/// The attribute of the project that is the system called `host`.
pub open spec fn system_attribute_of(host: Seq<char>) -> Seq<char> {
    "systems.nixos.\""@ + host + "\".result"@
}

/// The attribute for system `host`, whatever its name holds.
pub fn host_attribute(host: &str) -> (r: String)
    ensures
        r@ == system_attribute_of(host@),
{
    let a = joined("systems.nixos.\"", host);
    joined(a.as_str(), "\".result")
}

/// The attribute for a system named by the user, `host`; an error where the name holds a `.`,
/// which would split the attribute path.
pub fn system_attribute(host: &str) -> (r: Result<String, HostnameError>)
    ensures
        (exists|i: int| 0 <= i < host@.len() && host@[i] == '.') ==> r == Err::<
            String,
            HostnameError,
        >(HostnameError::Dotted),
        r matches Ok(a) ==> a@ == system_attribute_of(host@),
        (forall|i: int| 0 <= i < host@.len() ==> host@[i] != '.') ==> r.is_ok(),
{
    let k = find_char(host, '.', 0);
    if k < host.unicode_len() {
        Err(HostnameError::Dotted)
    } else {
        proof {
            assert forall|i: int| 0 <= i < host@.len() implies host@[i] != '.' by {
                lemma_no_char_before(host@, '.', 0, i);
            }
        }
        Ok(host_attribute(host))
    }
}

proof fn lemma_no_char_before(s: Seq<char>, c: char, i: int, k: int)
    requires
        0 <= i <= k < s.len(),
        find_from(s, c, i) == s.len(),
    ensures
        s[k] != c,
    decreases k - i,
{
    if i < k {
        lemma_no_char_before(s, c, i + 1, k);
    }
}

/// The arguments of `nixos-rebuild` that run `action` on the system at
/// `attribute` of `file`.
pub open spec fn rebuild_args_of(action: Seq<char>, file: Seq<char>, attribute: Seq<char>) -> Seq<
    Seq<char>,
> {
    seq![action, "--file"@, file, "--attr"@, attribute]
}

/// The arguments of `nixos-rebuild` for `action` (`build`, `test`, `switch`).
pub fn rebuild_args(action: &str, file: &str, attribute: &str) -> (r: Vec<String>)
    ensures
        texts_view(r@) == rebuild_args_of(action@, file@, attribute@),
{
    let mut r: Vec<String> = Vec::new();
    r.push(String::from_str(action));
    r.push(String::from_str("--file"));
    r.push(String::from_str(file));
    r.push(String::from_str("--attr"));
    r.push(String::from_str(attribute));
    assert(texts_view(r@) =~= rebuild_args_of(action@, file@, attribute@));
    r
}

} // verus!
