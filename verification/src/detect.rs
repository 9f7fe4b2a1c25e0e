use vstd::prelude::*;

use crate::init::{GitRepo, HgRepo};
use crate::paths::paths_equal;
use crate::sys;

verus! {

/// What probing the git backend at a path can learn. Discovery walks up
/// from the path; when it finds a repository, the path is either that
/// repository's own root or a subdirectory of it, and a subdirectory is
/// further classified by the repository's ignore rules.
#[derive(Clone, Copy, Debug)]
pub enum GitProbe {
    /// Discovery found no repository at or above the path.
    NoRepo,
    /// The path is itself the root of the discovered repository.
    RepoRoot,
    /// The path is a subdirectory that the repository's ignore rules exclude.
    SubdirIgnored,
    /// The path is a subdirectory that the repository tracks.
    SubdirTracked,
    /// The path is a subdirectory, and the ignore query failed.
    SubdirUnknown,
}

/// Whether a git probe outcome counts as "already inside a repository".
///
/// The repository's own root always counts, even when it matches its own
/// ignore rules. A subdirectory counts unless it is ignored: an ignored
/// location is effectively outside version control, and a new repository
/// there is the right default. An indeterminate ignore query counts as
/// tracked — only a definite "ignored" answer gives the location up.
pub open spec fn git_probe_found_repo(p: GitProbe) -> bool {
    match p {
        GitProbe::NoRepo => false,
        GitProbe::RepoRoot => true,
        GitProbe::SubdirIgnored => false,
        GitProbe::SubdirTracked => true,
        GitProbe::SubdirUnknown => true,
    }
}

/// The detection answer: a path is in an existing repository when the git
/// probe says so, or failing that, when the Mercurial root probe succeeded.
pub open spec fn spec_existing_vcs_repo(p: GitProbe, hg_root_found: bool) -> bool {
    git_probe_found_repo(p) || hg_root_found
}

pub fn git_probe_indicates_repo(p: GitProbe) -> (r: bool)
    ensures
        r == git_probe_found_repo(p),
{
    match p {
        GitProbe::NoRepo => false,
        GitProbe::RepoRoot => true,
        GitProbe::SubdirIgnored => false,
        GitProbe::SubdirTracked => true,
        GitProbe::SubdirUnknown => true,
    }
}

/// Combines the two probe outcomes into the detection answer.
pub fn vcs_repo_decision(p: GitProbe, hg_root_found: bool) -> (r: bool)
    ensures
        r == spec_existing_vcs_repo(p, hg_root_found),
{
    git_probe_indicates_repo(p) || hg_root_found
}

/// Runs git discovery at `path` and classifies what it found. The outcome
/// depends on the filesystem, so this carries no contract; what each
/// outcome means is `git_probe_found_repo`'s business.
fn probe_git(path: &str, cwd: &str) -> GitProbe {
    match GitRepo::discover(path, cwd) {
        Ok(repo) => {
            let root_is_path = match sys::repository_workdir(&repo) {
                Some(workdir) => paths_equal(workdir.as_str(), path),
                None => false,
            };
            if root_is_path {
                GitProbe::RepoRoot
            } else {
                match sys::repository_path_ignored(&repo, path) {
                    Some(true) => GitProbe::SubdirIgnored,
                    Some(false) => GitProbe::SubdirTracked,
                    None => GitProbe::SubdirUnknown,
                }
            }
        },
        Err(_) => GitProbe::NoRepo,
    }
}

/// Whether `path` already lies inside a version-controlled tree.
///
/// The git backend is probed first: discovery walks up from `path`, a found
/// repository whose root is `path` itself counts unconditionally, and a
/// subdirectory counts unless the repository's ignore rules exclude it.
/// Only when the git probe comes up empty is the Mercurial root probe run,
/// from `cwd`. Every failure along the way degrades to "not a repository":
/// this function never fails, and an unknown state is treated as safe to
/// initialize over.
///
/// The result combines the probes through `vcs_repo_decision`; what it
/// means is pinned there, over `spec_existing_vcs_repo`.
pub fn existing_vcs_repo(path: &str, cwd: &str) -> bool {
    let probe = probe_git(path, cwd);
    let hg_root_found = if git_probe_indicates_repo(probe) {
        false
    } else {
        HgRepo::discover(path, cwd).is_ok()
    };
    vcs_repo_decision(probe, hg_root_found)
}

} // verus!
