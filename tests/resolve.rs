use nilla_nixos::source::{GitInfo, GitXInfo};
use nilla_nixos::uri::{plan_fetch, scheme_for, tarball_address, FetchPlan, Scheme, UriError};

fn git_info(uri: &str) -> GitInfo {
    match plan_fetch(uri) {
        Ok(FetchPlan::Git { info }) => info,
        other => panic!("expected a Git plan, got {:?}", other),
    }
}

fn forge_info(uri: &str) -> GitXInfo {
    match plan_fetch(uri) {
        Ok(FetchPlan::Forge { info }) => info,
        other => panic!("expected a forge plan, got {:?}", other),
    }
}

fn tarball(uri: &str) -> String {
    match plan_fetch(uri) {
        Ok(FetchPlan::Tarball { url }) => url,
        other => panic!("expected a tarball plan, got {:?}", other),
    }
}

#[test]
fn each_prefix_selects_one_scheme() {
    assert_eq!(scheme_for("./project"), Scheme::LocalPath);
    assert_eq!(scheme_for("/srv/project"), Scheme::LocalPath);
    assert_eq!(scheme_for("~/project"), Scheme::LocalPath);
    assert_eq!(scheme_for("path:/srv/project"), Scheme::PathTag);
    assert_eq!(scheme_for("git:https://example.com/r.git"), Scheme::Git);
    assert_eq!(scheme_for("github:acme/widget"), Scheme::GitHub);
    assert_eq!(scheme_for("gitlab:acme/widget"), Scheme::GitLab);
    assert_eq!(scheme_for("tarball:example.com/x.tar.gz"), Scheme::Tarball);
    assert_eq!(scheme_for("http://example.com/x.tar.gz"), Scheme::Http);
    assert_eq!(scheme_for("https://example.com/x.tar.gz"), Scheme::Http);
    assert_eq!(scheme_for("ftp://example.com/x"), Scheme::Unknown);
    assert_eq!(scheme_for(""), Scheme::Unknown);
}

#[test]
fn unknown_scheme_is_an_error() {
    assert!(matches!(plan_fetch("ftp://example.com/x"), Err(UriError::UnknownScheme)));
    assert!(matches!(plan_fetch("project"), Err(UriError::UnknownScheme)));
}

#[test]
fn local_paths_keep_their_text() {
    match plan_fetch("./here") {
        Ok(FetchPlan::LocalPath { path }) => assert_eq!(path, "./here"),
        other => panic!("{:?}", other),
    }
    match plan_fetch("path:/srv/project") {
        Ok(FetchPlan::LocalPath { path }) => assert_eq!(path, "/srv/project"),
        other => panic!("{:?}", other),
    }
}

#[test]
fn git_reference_reads_query_parameters() {
    let info = git_info("git:git@github.com:acme/widget.git?rev=abc123&ref=main&dir=sub&submodules=true");
    assert_eq!(info.url, "git@github.com:acme/widget.git");
    assert_eq!(info.rev.as_deref(), Some("abc123"));
    assert_eq!(info.git_ref.as_deref(), Some("main"));
    assert_eq!(info.dir.as_deref(), Some("sub"));
    assert!(info.submodules);
}

#[test]
fn git_reference_defaults() {
    let info = git_info("git:https://example.com/repo.git");
    assert_eq!(info.url, "https://example.com/repo.git");
    assert_eq!(info.rev, None);
    assert_eq!(info.git_ref, None);
    assert_eq!(info.dir, None);
    assert!(!info.submodules);
    let info = git_info("git:git@example.com:r.git?submodules=yes");
    assert!(!info.submodules);
}

#[test]
fn first_query_value_wins() {
    let info = git_info("git:git@example.com:r.git?rev=one&rev=two");
    assert_eq!(info.rev.as_deref(), Some("one"));
}

#[test]
fn github_shorthand_matches_git_reference() {
    let x = forge_info("github:acme/widget?rev=abc&submodules=true");
    assert_eq!(x.owner, "acme");
    assert_eq!(x.repo, "widget");
    assert_eq!(x.host, "github.com");
    let converted = GitInfo::from(x);
    let direct = git_info("git:git@github.com:acme/widget.git?rev=abc&submodules=true");
    assert_eq!(converted.url, direct.url);
    assert_eq!(converted.rev, direct.rev);
    assert_eq!(converted.git_ref, direct.git_ref);
    assert_eq!(converted.dir, direct.dir);
    assert_eq!(converted.submodules, direct.submodules);
}

#[test]
fn gitlab_shorthand_defaults_to_gitlab() {
    let x = forge_info("gitlab:acme/widget");
    assert_eq!(x.host, "gitlab.com");
    assert_eq!(x.to_git_info().url, "git@gitlab.com:acme/widget.git");
}

#[test]
fn forge_host_parameter_overrides_default() {
    let x = forge_info("github:acme/widget?host=git.example.org&dir=nix");
    assert_eq!(x.host, "git.example.org");
    assert_eq!(x.dir.as_deref(), Some("nix"));
    assert_eq!(x.to_git_info().url, "git@git.example.org:acme/widget.git");
}

#[test]
fn tarball_without_scheme_defaults_to_http() {
    let bare = tarball("tarball:example.com/x.tar.gz");
    let explicit = tarball("tarball:http://example.com/x.tar.gz");
    let plain = tarball("http://example.com/x.tar.gz");
    assert_eq!(bare, "http://example.com/x.tar.gz");
    assert_eq!(bare, explicit);
    assert_eq!(bare, plain);
}

#[test]
fn tarball_https_is_kept() {
    assert_eq!(tarball("tarball:https://example.com/x.tar.gz"), "https://example.com/x.tar.gz");
    assert_eq!(tarball_address("example.com/y.tgz"), "http://example.com/y.tgz");
}

#[test]
fn forge_url_errors() {
    assert!(matches!(plan_fetch("github:acme:99999999/widget"), Err(UriError::InvalidUrl)));
    assert!(matches!(plan_fetch("github:acme"), Err(UriError::CannotBeBase)));
}
