use nilla_nixos::search::{first_present, parent_path, remove_filename_from_path, search_candidates};

#[test]
fn candidates_walk_up_to_root() {
    assert_eq!(
        search_candidates("/home/me/project", "nilla.nix"),
        vec!["/home/me/project/nilla.nix", "/home/me/nilla.nix", "/home/nilla.nix", "/nilla.nix"]
    );
    assert_eq!(search_candidates("/", ".git"), vec!["/.git"]);
}

#[test]
fn nothing_present_is_not_found() {
    assert_eq!(first_present(&vec![false, false, false]), None);
    assert_eq!(first_present(&vec![]), None);
}

#[test]
fn nearest_present_is_found() {
    assert_eq!(first_present(&vec![false, true, true]), Some(1));
    assert_eq!(first_present(&vec![true]), Some(0));
}

#[test]
fn parents_of_paths() {
    assert_eq!(parent_path("/a/b"), Some("/a".to_string()));
    assert_eq!(parent_path("/a"), Some("/".to_string()));
    assert_eq!(parent_path("/"), None);
    assert_eq!(parent_path("name"), Some("".to_string()));
    assert_eq!(parent_path(""), None);
}

#[test]
fn filename_removed_only_for_files() {
    assert_eq!(remove_filename_from_path("/srv/p/nilla.nix", true), "/srv/p");
    assert_eq!(remove_filename_from_path("/srv/p", false), "/srv/p");
}
