//! Detects whether a filesystem path is already under version control, and
//! initializes a new repository there with one of five supported systems.
//!
//! The decision logic is verified: how a git discovery outcome and a
//! Mercurial probe combine into "already a repository", how paths compare,
//! and exactly which external command each backend runs. The calls into the
//! outside world (the git library, process spawning, directory creation,
//! URL conversion) stand behind small trusted wrappers in `sys`.

pub mod command;
pub mod detect;
pub mod errors;
pub mod init;
pub mod paths;
pub mod sys;

pub use command::Command;
pub use detect::{existing_vcs_repo, vcs_repo_decision, GitProbe};
pub use errors::InitError;
pub use init::{FossilRepo, GitRepo, HgRepo, PijulRepo, SvnRepo};
