use nilla_nixos::source::{FixedOutputStoreEntry, GitInfo, GitXInfo, Source};
use nilla_nixos::store::{
    file_hash_args, get_store_path_name, path_hash_args, realise_args, store_add_args, store_hash_from_output,
    store_query_args, StoreNameError,
};

fn entry() -> FixedOutputStoreEntry {
    FixedOutputStoreEntry {
        path: "/nix/store/abc123-project".to_string(),
        hash: "0xyz".to_string(),
    }
}

#[test]
fn store_name_after_first_dash() {
    assert_eq!(get_store_path_name("/nix/store/lplzlyk8ldz821dl6pmlhk3md1ms69md-foo-bar"), Ok("foo-bar".to_string()));
    assert_eq!(get_store_path_name("/nix/store/abc-config"), Ok("config".to_string()));
    assert_eq!(get_store_path_name("/nix/store/abc-config/sub/dir"), Ok("config".to_string()));
}

#[test]
fn store_name_without_dash_is_an_error() {
    assert_eq!(get_store_path_name("/nix/store/abcdef"), Err(StoreNameError::NoName));
    assert_eq!(get_store_path_name("/nix/store/abcdef/x-y"), Err(StoreNameError::NoName));
}

#[test]
fn store_name_outside_store_is_an_error() {
    assert_eq!(get_store_path_name("/home/me/abc-foo"), Err(StoreNameError::NotInStore));
    assert_eq!(get_store_path_name(""), Err(StoreNameError::NotInStore));
}

#[test]
fn store_hash_after_algorithm() {
    assert_eq!(store_hash_from_output("sha256:1b8m03r63zqhnjf7l5wnldhh7c134ap5vpj0850ymkq1iyzicy5s\n"), "1b8m03r63zqhnjf7l5wnldhh7c134ap5vpj0850ymkq1iyzicy5s");
    assert_eq!(store_hash_from_output("  plain \n"), "plain");
}

#[test]
fn source_accessors_give_the_entry() {
    let info = GitInfo { url: "u".to_string(), rev: None, git_ref: None, dir: None, submodules: false };
    let xinfo = GitXInfo {
        owner: "o".to_string(),
        repo: "r".to_string(),
        rev: None,
        git_ref: None,
        dir: None,
        host: "h".to_string(),
        submodules: false,
    };
    let sources = vec![
        Source::Path { entry: entry() },
        Source::Git { info, entry: entry() },
        Source::Sourcehut { info: xinfo, entry: entry() },
        Source::Tarball { url: "http://x".to_string(), entry: entry() },
    ];
    for s in sources {
        assert_eq!(s.clone().get_path(), "/nix/store/abc123-project");
        assert_eq!(s.clone().get_hash(), "0xyz");
        let e = s.get_entry();
        assert_eq!(e.path, "/nix/store/abc123-project");
        assert_eq!(e.hash, "0xyz");
    }
}

#[test]
fn store_command_arguments() {
    assert_eq!(path_hash_args("/srv/p"), vec!["hash", "path", "/srv/p", "--type", "sha256"]);
    assert_eq!(file_hash_args("/srv/f"), vec!["hash", "file", "/srv/f", "--type", "sha256"]);
    assert_eq!(store_query_args("/nix/store/a-p"), vec!["--query", "/nix/store/a-p", "--hash"]);
    assert_eq!(store_add_args("/srv/p"), vec!["--recursive", "--add-fixed", "sha256", "/srv/p"]);
    assert_eq!(realise_args("/nix/store/a-p"), vec!["--realise", "/nix/store/a-p"]);
}
