use nilla_nixos::cli::make_examples;
use nilla_nixos::errors::{handle_error, NixError};
use nilla_nixos::rebuild::{host_attribute, project_file_path, rebuild_args, system_attribute, HostnameError};

#[test]
fn examples_text_with_styles() {
    let t = make_examples(&[("Build the host", "build"), ("Switch", "switch laptop")]);
    assert_eq!(
        t,
        "\x1b[1m\x1b[4mExamples:\x1b[0m\
         \n  \x1b[2m# Build the host\x1b[0m\n  \x1b[2m$\x1b[0m \x1b[1mnilla\x1b[0m build\n\
         \n  \x1b[2m# Switch\x1b[0m\n  \x1b[2m$\x1b[0m \x1b[1mnilla\x1b[0m switch laptop\n"
    );
    assert_eq!(make_examples(&[]), "\x1b[1m\x1b[4mExamples:\x1b[0m");
}

#[test]
fn system_attribute_for_host() {
    assert_eq!(system_attribute("laptop"), Ok("systems.nixos.\"laptop\".result".to_string()));
    assert_eq!(system_attribute("my.host"), Err(HostnameError::Dotted));
    assert_eq!(host_attribute("my.host"), "systems.nixos.\"my.host\".result");
}

#[test]
fn rebuild_arguments() {
    assert_eq!(
        rebuild_args("test", "/nix/store/a-p/nilla.nix", "systems.nixos.\"h\".result"),
        vec!["test", "--file", "/nix/store/a-p/nilla.nix", "--attr", "systems.nixos.\"h\".result"]
    );
    assert_eq!(project_file_path("/nix/store/a-p"), "/nix/store/a-p/nilla.nix");
}

#[test]
fn download_hash_mismatch_is_reported() {
    let stderr = "error: hash mismatch in file downloaded from 'https://e.com/x.tgz':\n         specified: sha256-AAAA\n            got:    sha256-BBBB\n";
    let errors = handle_error(stderr);
    assert_eq!(errors.len(), 1);
    let NixError::HashMismatch { current, expected, source } = &errors[0];
    assert_eq!(current, "specified: sha256-AAAA");
    assert_eq!(expected, "got:    sha256-BBBB");
    assert_eq!(source, "error: hash mismatch in file downloaded from 'https://e.com/x.tgz':");
}

#[test]
fn fixed_output_hash_mismatch_is_reported() {
    let stderr = "error: hash mismatch in fixed-output derivation '/nix/store/x.drv':\n  specified: sha256-A\n  got:    sha256-B\n";
    let errors = handle_error(stderr);
    assert_eq!(errors.len(), 1);
    let NixError::HashMismatch { source, .. } = &errors[0];
    assert_eq!(source, "error: hash mismatch in fixed-output derivation '/nix/store/x.drv':");
}

#[test]
fn other_errors_report_nothing() {
    assert!(handle_error("error: attribute 'x' missing").is_empty());
}
