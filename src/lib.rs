//! Resolution of project sources for a NixOS system manager: a source
//! reference (a local path, a Git remote, a forge shorthand or a tarball URL)
//! is classified, turned into fetch requests for the Nix evaluator and the
//! store, and the answers are checked and assembled into a `Source`.
pub mod cli;
pub mod errors;
pub mod fetch;
pub mod git;
pub mod nix;
pub mod rebuild;
pub mod resolve;
pub mod search;
pub mod source;
pub mod store;
pub mod text;
pub mod uri;
