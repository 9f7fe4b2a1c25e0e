//! The trusted boundary: every call into the outside world — the in-process
//! git library, process spawning, directory creation, path-to-URL
//! conversion — stands here behind a small wrapper whose contract Verus
//! believes. Each wrapper's result depends on the filesystem or the
//! environment, so the contracts state only what holds of every outcome;
//! the verified logic elsewhere takes these results as arguments.

use std::path::Path;

use vstd::prelude::*;

use crate::command::Command;
use crate::errors::InitError;
use crate::paths::is_absolute_path;

verus! {

#[verifier::external_type_specification]
#[verifier::external_body]
pub struct ExGitRepository(git2::Repository);

#[verifier::external_type_specification]
#[verifier::external_body]
pub struct ExGitError(git2::Error);

/// Relies on git2::Repository::workdir (`None` for a bare repository) and
/// str conversion: the working directory's root, when there is one and it
/// is valid UTF-8.
#[verifier::external_body]
pub(crate) fn repository_workdir(repo: &git2::Repository) -> Option<String> {
    repo.workdir().and_then(|p| p.to_str()).map(|s| s.to_owned())
}

/// Relies on git2::Repository::is_path_ignored: whether the repository's
/// ignore rules exclude `path`; `None` when the query itself fails.
#[verifier::external_body]
pub(crate) fn repository_path_ignored(repo: &git2::Repository, path: &str) -> Option<bool> {
    repo.is_path_ignored(Path::new(path)).ok()
}

/// Relies on git2::Repository::init: creates a repository at `path`, making
/// the directory if needed; any error the library reports comes back as the
/// one native failure.
#[verifier::external_body]
pub(crate) fn git_init_at(path: &str) -> (r: Result<(), InitError>)
    ensures
        r matches Err(e) ==> e == InitError::NativeFailure,
{
    match git2::Repository::init(Path::new(path)) {
        Ok(_) => Ok(()),
        Err(_) => Err(InitError::NativeFailure),
    }
}

/// Relies on cargo_util::ProcessBuilder::exec: launches the command's
/// program from its working directory and waits. A failure that carries an
/// exit code means the tool ran and failed; one without means it never ran
/// to completion (not found, not launchable, or killed by a signal).
#[verifier::external_body]
pub(crate) fn run_command(cmd: &Command) -> (r: Result<(), InitError>)
    ensures
        r matches Err(e) ==> (e == InitError::SpawnFailure || e == InitError::ToolExitFailure),
{
    let mut builder = cargo_util::ProcessBuilder::new(cmd.program.as_str());
    builder.cwd(cmd.cwd.as_str()).args(&cmd.args);
    match builder.exec() {
        Ok(()) => Ok(()),
        Err(e) => Err(match e.downcast_ref::<cargo_util::ProcessError>() {
            Some(pe) if pe.code.is_some() => InitError::ToolExitFailure,
            _ => InitError::SpawnFailure,
        }),
    }
}

/// Relies on cargo_util::ProcessBuilder::exec_with_output: as `run_command`,
/// but captures the tool's output, so success also means the tool produced
/// its answer rather than merely not crashing.
#[verifier::external_body]
pub(crate) fn run_command_checked(cmd: &Command) -> (r: Result<(), InitError>)
    ensures
        r matches Err(e) ==> (e == InitError::SpawnFailure || e == InitError::ToolExitFailure),
{
    let mut builder = cargo_util::ProcessBuilder::new(cmd.program.as_str());
    builder.cwd(cmd.cwd.as_str()).args(&cmd.args);
    match builder.exec_with_output() {
        Ok(_) => Ok(()),
        Err(e) => Err(match e.downcast_ref::<cargo_util::ProcessError>() {
            Some(pe) if pe.code.is_some() => InitError::ToolExitFailure,
            _ => InitError::SpawnFailure,
        }),
    }
}

/// Relies on cargo_util::paths::create_dir_all: creates the directory at
/// `path` together with any missing ancestors.
#[verifier::external_body]
pub(crate) fn create_dir(path: &str) -> (r: Result<(), InitError>)
    ensures
        r matches Err(e) ==> e == InitError::FilesystemFailure,
{
    match cargo_util::paths::create_dir_all(Path::new(path)) {
        Ok(()) => Ok(()),
        Err(_) => Err(InitError::FilesystemFailure),
    }
}

/// The `file://` URL that the url crate derives from an absolute path: a
/// function of the path's characters alone, too long-winded to restate here.
pub uninterp spec fn file_url_of(path: Seq<char>) -> Seq<char>;

/// Relies on url::Url::from_file_path, under Unix path semantics: the
/// conversion succeeds exactly when the path is absolute, and then yields
/// the `file://` URL of that path and nothing else.
#[verifier::external_body]
pub(crate) fn file_url_for(path: &str) -> (r: Option<String>)
    ensures
        r is Some <==> is_absolute_path(path@),
        r matches Some(u) ==> u@ == file_url_of(path@),
{
    url::Url::from_file_path(Path::new(path)).ok().map(String::from)
}

} // verus!
