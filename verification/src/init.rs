use vstd::prelude::*;

use crate::command::{
    fossil_init_command, fossil_open_command, hg_init_command, hg_root_command,
    pijul_init_command, svn_checkout_command, svnadmin_create_command,
};
use crate::errors::InitError;
use crate::paths::is_absolute_path;
use crate::sys;

verus! {

/// Success token of the git backend: a repository now exists at the path.
#[derive(Clone, Copy, Debug)]
pub struct GitRepo;

/// Success token of the Mercurial backend.
#[derive(Clone, Copy, Debug)]
pub struct HgRepo;

/// Success token of the Pijul backend.
#[derive(Clone, Copy, Debug)]
pub struct PijulRepo;

/// Success token of the Fossil backend.
#[derive(Clone, Copy, Debug)]
pub struct FossilRepo;

/// Success token of the Subversion backend.
#[derive(Clone, Copy, Debug)]
pub struct SvnRepo;

impl GitRepo {
    /// Creates a git repository at `path` through the in-process library,
    /// which makes the directory itself; `cwd` plays no part here.
    pub fn init(path: &str, _cwd: &str) -> (r: Result<GitRepo, InitError>)
        ensures
            r matches Err(e) ==> e == InitError::NativeFailure,
    {
        match sys::git_init_at(path) {
            Ok(()) => Ok(GitRepo),
            Err(e) => Err(e),
        }
    }

    /// Relies on git2::Repository::discover: walks up from `path` through
    /// its ancestors looking for a repository; what it finds depends on the
    /// filesystem alone, so nothing is promised of the result.
    #[verifier::external_body]
    pub fn discover(path: &str, _cwd: &str) -> Result<git2::Repository, git2::Error> {
        git2::Repository::discover(std::path::Path::new(path))
    }
}

impl HgRepo {
    /// Creates a Mercurial repository by running `hg init <path>` from
    /// `cwd`; the tool makes the directory itself.
    pub fn init(path: &str, cwd: &str) -> (r: Result<HgRepo, InitError>)
        ensures
            r matches Err(e) ==> (e == InitError::SpawnFailure || e == InitError::ToolExitFailure),
    {
        match sys::run_command(&hg_init_command(path, cwd)) {
            Ok(()) => Ok(HgRepo),
            Err(e) => Err(e),
        }
    }

    /// Probes for a Mercurial repository by running `hg --cwd <path> root`
    /// from `cwd`, with its output captured and checked: success means the
    /// tool actually named a root.
    pub fn discover(path: &str, cwd: &str) -> (r: Result<HgRepo, InitError>)
        ensures
            r matches Err(e) ==> (e == InitError::SpawnFailure || e == InitError::ToolExitFailure),
    {
        match sys::run_command_checked(&hg_root_command(path, cwd)) {
            Ok(()) => Ok(HgRepo),
            Err(e) => Err(e),
        }
    }
}

impl PijulRepo {
    /// Creates a Pijul repository by running `pijul init <path>` from
    /// `cwd`; the tool makes the directory itself.
    pub fn init(path: &str, cwd: &str) -> (r: Result<PijulRepo, InitError>)
        ensures
            r matches Err(e) ==> (e == InitError::SpawnFailure || e == InitError::ToolExitFailure),
    {
        match sys::run_command(&pijul_init_command(path, cwd)) {
            Ok(()) => Ok(PijulRepo),
            Err(e) => Err(e),
        }
    }
}

impl FossilRepo {
    /// Creates a Fossil repository in three steps: make `path` itself
    /// (Fossil will not), run `fossil init` from `cwd` to create the
    /// `.fossil` database inside it, then run `fossil open` from `path` to
    /// open that database in place. A failure partway leaves the earlier
    /// steps' work on disk; nothing is rolled back.
    pub fn init(path: &str, cwd: &str) -> (r: Result<FossilRepo, InitError>)
        ensures
            r matches Err(e) ==> (e == InitError::FilesystemFailure || e == InitError::SpawnFailure
                || e == InitError::ToolExitFailure),
    {
        match sys::create_dir(path) {
            Ok(()) => (),
            Err(e) => {
                return Err(e);
            },
        }
        match sys::run_command(&fossil_init_command(path, cwd)) {
            Ok(()) => (),
            Err(e) => {
                return Err(e);
            },
        }
        match sys::run_command(&fossil_open_command(path)) {
            Ok(()) => (),
            Err(e) => {
                return Err(e);
            },
        }
        Ok(FossilRepo)
    }
}

impl SvnRepo {
    /// Creates a Subversion repository in three steps: make `path` itself
    /// (Subversion will not), run `svnadmin create` from `cwd`, then check
    /// the result out by its `file://` URL with `svn checkout`, also from
    /// `cwd`. A relative path cannot become a `file://` URL, so it always
    /// fails — with the conversion error itself unless an earlier step
    /// failed first. A failure partway leaves the earlier steps' work on
    /// disk; nothing is rolled back.
    pub fn init(path: &str, cwd: &str) -> (r: Result<SvnRepo, InitError>)
        ensures
            r matches Err(e) ==> (e == InitError::FilesystemFailure || e == InitError::SpawnFailure
                || e == InitError::ToolExitFailure || e == InitError::UrlConversionFailure),
            !is_absolute_path(path@) ==> r is Err,
            r matches Err(e) && e == InitError::UrlConversionFailure ==> !is_absolute_path(path@),
    {
        match sys::create_dir(path) {
            Ok(()) => (),
            Err(e) => {
                return Err(e);
            },
        }
        match sys::run_command(&svnadmin_create_command(path, cwd)) {
            Ok(()) => (),
            Err(e) => {
                return Err(e);
            },
        }
        let url = match sys::file_url_for(path) {
            Some(u) => u,
            None => {
                return Err(InitError::UrlConversionFailure);
            },
        };
        match sys::run_command(&svn_checkout_command(url.as_str(), cwd)) {
            Ok(()) => (),
            Err(e) => {
                return Err(e);
            },
        }
        Ok(SvnRepo)
    }
}

} // verus!
