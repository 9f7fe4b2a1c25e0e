//! Detection against real repositories on disk, created through the same
//! git library the detector itself relies on. The scratch area lies under
//! /tmp, which no repository encloses, and the Mercurial tool is absent
//! here, so its probe can only fail.

use cargo_util::paths::{create_dir_all, remove_dir_all};
use vcs_bootstrap::existing_vcs_repo;

fn fresh_dir(path: &str) {
    let _ = remove_dir_all(path);
    create_dir_all(path).unwrap();
}

#[test]
fn empty_directory_is_no_repo() {
    let dir = "/tmp/vcsb_detect_empty";
    fresh_dir(dir);
    assert!(!existing_vcs_repo(dir, dir));
    let _ = remove_dir_all(dir);
}

#[test]
fn repo_root_counts_even_when_self_ignored() {
    let root = "/tmp/vcsb_detect_root";
    fresh_dir(root);
    git2::Repository::init(root).unwrap();
    cargo_util::paths::write("/tmp/vcsb_detect_root/.gitignore", "*\n").unwrap();
    assert!(existing_vcs_repo(root, root));
    let _ = remove_dir_all(root);
}

#[test]
fn ignored_subdirectory_is_no_repo() {
    let root = "/tmp/vcsb_detect_ignored";
    let child = "/tmp/vcsb_detect_ignored/child";
    fresh_dir(root);
    git2::Repository::init(root).unwrap();
    cargo_util::paths::write("/tmp/vcsb_detect_ignored/.gitignore", "child\n").unwrap();
    create_dir_all(child).unwrap();
    assert!(!existing_vcs_repo(child, root));
    let _ = remove_dir_all(root);
}

#[test]
fn tracked_subdirectory_counts() {
    let root = "/tmp/vcsb_detect_tracked";
    let child = "/tmp/vcsb_detect_tracked/child";
    fresh_dir(root);
    git2::Repository::init(root).unwrap();
    cargo_util::paths::write("/tmp/vcsb_detect_tracked/.gitignore", "other\n").unwrap();
    create_dir_all(child).unwrap();
    assert!(existing_vcs_repo(child, root));
    let _ = remove_dir_all(root);
}

#[test]
fn repo_root_counts_without_ignore_rules() {
    let root = "/tmp/vcsb_detect_plain";
    fresh_dir(root);
    git2::Repository::init(root).unwrap();
    assert!(existing_vcs_repo(root, root));
    let _ = remove_dir_all(root);
}
