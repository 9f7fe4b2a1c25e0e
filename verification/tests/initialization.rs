//! Initialization against the real environment. The git backend works
//! in-process and needs no tool; the four tool-based backends' executables
//! are absent here, so each fails to spawn — which is exactly the failure
//! mode the contracts and the error taxonomy owe the caller.

use cargo_util::paths::remove_dir_all;
use vcs_bootstrap::{FossilRepo, GitRepo, HgRepo, InitError, PijulRepo, SvnRepo};

#[test]
fn git_init_creates_a_repository() {
    let path = "/tmp/vcsb_init_git/project";
    let _ = remove_dir_all("/tmp/vcsb_init_git");
    assert!(GitRepo::init(path, "/tmp").is_ok());
    assert!(git2::Repository::open(path).is_ok());
    let _ = remove_dir_all("/tmp/vcsb_init_git");
}

#[test]
fn git_discover_finds_a_fresh_repository() {
    let path = "/tmp/vcsb_init_git_disc";
    let _ = remove_dir_all(path);
    GitRepo::init(path, "/tmp").unwrap();
    assert!(GitRepo::discover(path, "/tmp").is_ok());
    let _ = remove_dir_all(path);
}

#[test]
fn hg_init_without_the_tool_fails_to_spawn() {
    let path = "/tmp/vcsb_init_hg";
    let _ = remove_dir_all(path);
    let r = HgRepo::init(path, "/tmp");
    assert_eq!(r.unwrap_err(), InitError::SpawnFailure);
}

#[test]
fn hg_discover_without_the_tool_fails_to_spawn() {
    let r = HgRepo::discover("/tmp", "/tmp");
    assert_eq!(r.unwrap_err(), InitError::SpawnFailure);
}

#[test]
fn pijul_init_without_the_tool_fails_to_spawn() {
    let path = "/tmp/vcsb_init_pijul";
    let _ = remove_dir_all(path);
    let r = PijulRepo::init(path, "/tmp");
    assert_eq!(r.unwrap_err(), InitError::SpawnFailure);
}

#[test]
fn fossil_init_without_the_tool_fails_to_spawn() {
    let path = "/tmp/vcsb_init_fossil";
    let _ = remove_dir_all(path);
    let r = FossilRepo::init(path, "/tmp");
    assert_eq!(r.unwrap_err(), InitError::SpawnFailure);
    let _ = remove_dir_all(path);
}

#[test]
fn svn_init_without_the_tool_fails_to_spawn() {
    let path = "/tmp/vcsb_init_svn";
    let _ = remove_dir_all(path);
    let r = SvnRepo::init(path, "/tmp");
    assert_eq!(r.unwrap_err(), InitError::SpawnFailure);
    let _ = remove_dir_all(path);
}
