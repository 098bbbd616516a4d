use nilla_nixos::fetch::{
    fetched_root, git_fetch_expr, git_path_fetch_expr, join_path, single_root, source_path, tarball_fetch_expr,
    FetchError,
};
use nilla_nixos::nix::{AnswerError, EvalResult, JsonValue};

#[test]
fn git_fetch_expression() {
    assert_eq!(
        git_fetch_expr("{\"url\":\"u\"}"),
        "let info = builtins.fromJSON ''{\"url\":\"u\"}''; in builtins.fetchGit ({ url = info.url; } // (if info.rev != null then { rev = info.rev; } else {}) // (if info.ref != null then { ref = info.ref; } else {}) // (if info.submodules != null then { submodules = info.submodules; } else {}))"
    );
}

#[test]
fn local_git_and_tarball_expressions() {
    assert_eq!(git_path_fetch_expr("/srv/p"), "builtins.fetchGit (builtins.toPath \"/srv/p\")");
    assert_eq!(tarball_fetch_expr("http://e.com/x.tgz"), "builtins.fetchTarball { url = \"http://e.com/x.tgz\"; }");
}

#[test]
fn fetched_root_needs_a_json_string() {
    assert_eq!(fetched_root(EvalResult::Json(JsonValue::Str("/nix/store/a-src".to_string()))), Ok("/nix/store/a-src".to_string()));
    assert_eq!(fetched_root(EvalResult::Raw("/nix/store/a-src".to_string())), Err(FetchError::Answer(AnswerError::RawAnswer)));
    assert_eq!(fetched_root(EvalResult::Json(JsonValue::Bool(true))), Err(FetchError::Answer(AnswerError::WrongType)));
}

#[test]
fn realised_paths_need_exactly_one() {
    assert_eq!(single_root(vec![]), Err(FetchError::NoRoot));
    assert_eq!(single_root(vec!["/a".to_string(), "/b".to_string()]), Err(FetchError::SeveralRoots));
    assert_eq!(single_root(vec!["/a".to_string()]), Ok("/a".to_string()));
}

#[test]
fn paths_join_like_pathbuf_push() {
    assert_eq!(join_path("/nix/store/x", "sub"), "/nix/store/x/sub");
    assert_eq!(join_path("/nix/store/x/", "sub"), "/nix/store/x/sub");
    assert_eq!(join_path("/nix/store/x", "/abs"), "/abs");
    assert_eq!(join_path("", "rel"), "rel");
    assert_eq!(source_path("/nix/store/x", &Some("nix".to_string())), "/nix/store/x/nix");
    assert_eq!(source_path("/nix/store/x", &None), "/nix/store/x");
}
