use vcs_bootstrap::command::{
    fossil_init_command, fossil_open_command, hg_init_command, hg_root_command,
    pijul_init_command, svn_checkout_command, svnadmin_create_command,
};

#[test]
fn hg_init_runs_init_with_path() {
    let c = hg_init_command("/work/proj", "/work");
    assert_eq!(c.program, "hg");
    assert_eq!(c.cwd, "/work");
    assert_eq!(c.args, vec!["init".to_string(), "/work/proj".to_string()]);
}

#[test]
fn hg_root_probes_from_the_target() {
    let c = hg_root_command("/work/proj", "/work");
    assert_eq!(c.program, "hg");
    assert_eq!(c.cwd, "/work");
    assert_eq!(
        c.args,
        vec!["--cwd".to_string(), "/work/proj".to_string(), "root".to_string()]
    );
}

#[test]
fn pijul_init_runs_init_with_path() {
    let c = pijul_init_command("/work/proj", "/work");
    assert_eq!(c.program, "pijul");
    assert_eq!(c.cwd, "/work");
    assert_eq!(c.args, vec!["init".to_string(), "/work/proj".to_string()]);
}

#[test]
fn fossil_init_targets_the_database_file() {
    let c = fossil_init_command("/work/proj", "/work");
    assert_eq!(c.program, "fossil");
    assert_eq!(c.cwd, "/work");
    assert_eq!(
        c.args,
        vec!["init".to_string(), "/work/proj/.fossil".to_string()]
    );
}

#[test]
fn fossil_open_runs_inside_the_new_directory() {
    let c = fossil_open_command("/work/proj");
    assert_eq!(c.program, "fossil");
    assert_eq!(c.cwd, "/work/proj");
    assert_eq!(c.args, vec!["open".to_string(), ".fossil".to_string()]);
}

#[test]
fn svnadmin_creates_at_the_path() {
    let c = svnadmin_create_command("/work/proj", "/work");
    assert_eq!(c.program, "svnadmin");
    assert_eq!(c.cwd, "/work");
    assert_eq!(c.args, vec!["create".to_string(), "/work/proj".to_string()]);
}

#[test]
fn svn_checks_out_by_url() {
    let c = svn_checkout_command("file:///work/proj", "/work");
    assert_eq!(c.program, "svn");
    assert_eq!(c.cwd, "/work");
    assert_eq!(
        c.args,
        vec!["checkout".to_string(), "file:///work/proj".to_string()]
    );
}
