use nilla_nixos::fetch::git_info_json;
use nilla_nixos::nix::{EvalResult, JsonValue};
use nilla_nixos::resolve::{start, step, Action, Event, ResolveError, ResolveState};
use nilla_nixos::source::{GitInfo, Source};
use nilla_nixos::uri::UriError;

fn fail_of(a: Action) -> ResolveError {
    match a {
        Action::Fail { error } => error,
        other => panic!("expected a failure, got {:?}", other),
    }
}

#[test]
fn git_request_as_json() {
    let info = GitInfo {
        url: "git@github.com:acme/widget.git".to_string(),
        rev: Some("abc".to_string()),
        git_ref: None,
        dir: Some("sub \"dir\"".to_string()),
        submodules: true,
    };
    assert_eq!(
        git_info_json(&info),
        "{\"url\":\"git@github.com:acme/widget.git\",\"rev\":\"abc\",\"ref\":null,\"dir\":\"sub \\\"dir\\\"\",\"submodules\":true}"
    );
}

#[test]
fn git_request_escapes_control_characters() {
    let info = GitInfo {
        url: "a\tb\u{1}c\\d".to_string(),
        rev: None,
        git_ref: Some("x\ny".to_string()),
        dir: None,
        submodules: false,
    };
    assert_eq!(
        git_info_json(&info),
        "{\"url\":\"a\\tb\\u0001c\\\\d\",\"rev\":null,\"ref\":\"x\\ny\",\"dir\":null,\"submodules\":false}"
    );
}

#[test]
fn tarball_resolution_runs_to_done() {
    let (s, a) = start("tarball:example.com/x.tar.gz");
    match &a {
        Action::Evaluate { expr, opts, warning } => {
            assert!(opts.json && opts.impure);
            assert_eq!(expr, "builtins.fetchTarball { url = \"http://example.com/x.tar.gz\"; }");
            assert!(warning.is_none());
        }
        other => panic!("{:?}", other),
    }
    let (s, a) = step(s, Event::Answer(EvalResult::Json(JsonValue::Str("/nix/store/aaa-source".to_string()))));
    assert!(matches!(&a, Action::Realise { root } if root == "/nix/store/aaa-source"));
    let (s, a) = step(s, Event::Output("/nix/store/aaa-source\n".to_string()));
    assert!(matches!(&a, Action::QueryHash { path } if path == "/nix/store/aaa-source"));
    let (s, a) = step(s, Event::Output("sha256:0abc\n".to_string()));
    assert!(matches!(s, ResolveState::Finished));
    match a {
        Action::Done { source: Source::Tarball { url, entry } } => {
            assert_eq!(url, "http://example.com/x.tar.gz");
            assert_eq!(entry.path, "/nix/store/aaa-source");
            assert_eq!(entry.hash, "0abc");
        }
        other => panic!("{:?}", other),
    }
}

#[test]
fn git_resolution_descends_into_dir() {
    let (s, a) = start("github:acme/widget?dir=nix");
    match &a {
        Action::Evaluate { expr, opts, .. } => assert!(opts.json && opts.impure && expr.contains(
            "{\"url\":\"git@github.com:acme/widget.git\",\"rev\":null,\"ref\":null,\"dir\":\"nix\",\"submodules\":false}"
        )),
        other => panic!("{:?}", other),
    }
    let (s, _) = step(s, Event::Answer(EvalResult::Json(JsonValue::Str("/nix/store/bbb-source".to_string()))));
    let (s, a) = step(s, Event::Output("/nix/store/bbb-source\n".to_string()));
    assert!(matches!(&a, Action::QueryHash { path } if path == "/nix/store/bbb-source/nix"));
    let (_, a) = step(s, Event::Output("sha256:0def".to_string()));
    match a {
        Action::Done { source: Source::Git { info, entry } } => {
            assert_eq!(info.url, "git@github.com:acme/widget.git");
            assert_eq!(entry.path, "/nix/store/bbb-source/nix");
            assert_eq!(entry.hash, "0def");
        }
        other => panic!("{:?}", other),
    }
}

#[test]
fn local_git_tree_warns_about_untracked_file() {
    let (s, a) = start("./project");
    assert!(matches!(&a, Action::Canonicalize { path } if path == "./project"));
    let (s, a) = step(s, Event::Canonical(Some("/srv/project/flake.nix".to_string())));
    assert!(matches!(&a, Action::CheckFile { path } if path == "/srv/project/flake.nix"));
    let (s, a) = step(s, Event::IsFile(true));
    match &a {
        Action::CheckFiles { paths } => assert_eq!(paths, &vec!["/srv/project/nilla.nix", "/srv/nilla.nix", "/nilla.nix"]),
        other => panic!("{:?}", other),
    }
    let (s, a) = step(s, Event::Present(vec![false, true, false]));
    assert!(matches!(&a, Action::CheckDir { path } if path == "/srv/.git"));
    let (s, a) = step(s, Event::IsDir(true));
    assert!(matches!(&a, Action::ListUntracked { dir } if dir == "/srv"));
    let (_, a) = step(s, Event::Output("scratch.nix\n".to_string()));
    match a {
        Action::Evaluate { expr, opts, warning } => {
            assert!(opts.json && opts.impure);
            assert_eq!(expr, "builtins.fetchGit (builtins.toPath \"/srv\")");
            let w = warning.unwrap();
            assert!(w.contains("\n  scratch.nix"));
            assert_eq!(w.matches("scratch.nix").count(), 1);
        }
        other => panic!("{:?}", other),
    }
}

#[test]
fn local_tree_without_untracked_files_gives_no_warning() {
    let s = ResolveState::ListingUntracked { dir: "/srv".to_string() };
    match step(s, Event::Output("".to_string())).1 {
        Action::Evaluate { warning, .. } => assert!(warning.is_none()),
        other => panic!("{:?}", other),
    }
}

#[test]
fn plain_directory_is_added_to_store() {
    let s = ResolveState::CheckingGit { dir: "/srv/p".to_string() };
    let (s, a) = step(s, Event::IsDir(false));
    assert!(matches!(&a, Action::AddToStore { dir } if dir == "/srv/p"));
    let (s, a) = step(s, Event::Output("/nix/store/ccc-p\n".to_string()));
    assert!(matches!(&a, Action::QueryHash { path } if path == "/nix/store/ccc-p"));
    match step(s, Event::Output("sha256:0ghi\n".to_string())).1 {
        Action::Done { source: Source::Path { entry } } => {
            assert_eq!(entry.path, "/nix/store/ccc-p");
            assert_eq!(entry.hash, "0ghi");
        }
        other => panic!("{:?}", other),
    }
}

#[test]
fn resolution_failures() {
    assert_eq!(fail_of(start("ftp://x").1), ResolveError::Uri(UriError::UnknownScheme));
    let (s, _) = start("/no/such/place");
    assert_eq!(fail_of(step(s, Event::Canonical(None)).1), ResolveError::PathNotFound);
    let s = ResolveState::Searching { candidates: vec!["/a/nilla.nix".to_string(), "/nilla.nix".to_string()] };
    assert_eq!(fail_of(step(s, Event::Present(vec![false, false])).1), ResolveError::MarkerNotFound);
    let s = ResolveState::Evaluating { target: nilla_nixos::resolve::Target::Path };
    assert_eq!(
        fail_of(step(s, Event::Answer(EvalResult::Raw("x".to_string()))).1),
        ResolveError::Fetch(nilla_nixos::fetch::FetchError::Answer(nilla_nixos::nix::AnswerError::RawAnswer))
    );
    let s = ResolveState::Realising { target: nilla_nixos::resolve::Target::Path };
    assert_eq!(fail_of(step(s, Event::Output("".to_string())).1), ResolveError::Fetch(nilla_nixos::fetch::FetchError::NoRoot));
    assert_eq!(fail_of(step(ResolveState::Adding, Event::IsFile(true)).1), ResolveError::UnexpectedEvent);
}
