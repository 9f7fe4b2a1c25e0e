use vstd::prelude::*;
use vstd::string::*;

use crate::paths::{join_entry, joined_path};

verus! {

/// One external tool invocation: the program to launch, the directory to
/// launch it from, and its arguments, in order. Building the right command
/// for each backend is this crate's logic; running one is left to a trusted
/// wrapper in `sys`.
pub struct Command {
    pub program: String,
    pub cwd: String,
    pub args: Vec<String>,
}

/// `hg init <path>`, run from `cwd`: creates a Mercurial repository at `path`.
pub fn hg_init_command(path: &str, cwd: &str) -> (c: Command)
    ensures
        c.program@ == "hg"@,
        c.cwd@ == cwd@,
        c.args.deep_view() == seq!["init"@, path@],
{
    let mut args: Vec<String> = Vec::new();
    args.push(String::from_str("init"));
    args.push(String::from_str(path));
    proof {
        assert(args.deep_view() =~= seq!["init"@, path@]);
    }
    Command { program: String::from_str("hg"), cwd: String::from_str(cwd), args }
}

/// `hg --cwd <path> root`, run from `cwd`: succeeds exactly when `path` lies
/// inside a Mercurial repository, so its exit status is the discovery probe.
pub fn hg_root_command(path: &str, cwd: &str) -> (c: Command)
    ensures
        c.program@ == "hg"@,
        c.cwd@ == cwd@,
        c.args.deep_view() == seq!["--cwd"@, path@, "root"@],
{
    let mut args: Vec<String> = Vec::new();
    args.push(String::from_str("--cwd"));
    args.push(String::from_str(path));
    args.push(String::from_str("root"));
    proof {
        assert(args.deep_view() =~= seq!["--cwd"@, path@, "root"@]);
    }
    Command { program: String::from_str("hg"), cwd: String::from_str(cwd), args }
}

/// `pijul init <path>`, run from `cwd`: creates a Pijul repository at `path`.
pub fn pijul_init_command(path: &str, cwd: &str) -> (c: Command)
    ensures
        c.program@ == "pijul"@,
        c.cwd@ == cwd@,
        c.args.deep_view() == seq!["init"@, path@],
{
    let mut args: Vec<String> = Vec::new();
    args.push(String::from_str("init"));
    args.push(String::from_str(path));
    proof {
        assert(args.deep_view() =~= seq!["init"@, path@]);
    }
    Command { program: String::from_str("pijul"), cwd: String::from_str(cwd), args }
}

/// `fossil init <path>/.fossil`, run from `cwd`: creates the repository
/// database file named `.fossil` inside `path`. Fossil does not create
/// `path` itself, so the caller makes the directory first.
pub fn fossil_init_command(path: &str, cwd: &str) -> (c: Command)
    ensures
        c.program@ == "fossil"@,
        c.cwd@ == cwd@,
        c.args.deep_view() == seq!["init"@, joined_path(path@, ".fossil"@)],
{
    let mut args: Vec<String> = Vec::new();
    args.push(String::from_str("init"));
    args.push(join_entry(path, ".fossil"));
    proof {
        assert(args.deep_view() =~= seq!["init"@, joined_path(path@, ".fossil"@)]);
    }
    Command { program: String::from_str("fossil"), cwd: String::from_str(cwd), args }
}

/// `fossil open .fossil`, run from `path` itself: opens the database that
/// `fossil init` just created, in place.
pub fn fossil_open_command(path: &str) -> (c: Command)
    ensures
        c.program@ == "fossil"@,
        c.cwd@ == path@,
        c.args.deep_view() == seq!["open"@, ".fossil"@],
{
    let mut args: Vec<String> = Vec::new();
    args.push(String::from_str("open"));
    args.push(String::from_str(".fossil"));
    proof {
        assert(args.deep_view() =~= seq!["open"@, ".fossil"@]);
    }
    Command { program: String::from_str("fossil"), cwd: String::from_str(path), args }
}

/// `svnadmin create <path>`, run from `cwd`: creates a Subversion repository
/// at `path`. Subversion does not create the directory, so the caller makes
/// it first.
pub fn svnadmin_create_command(path: &str, cwd: &str) -> (c: Command)
    ensures
        c.program@ == "svnadmin"@,
        c.cwd@ == cwd@,
        c.args.deep_view() == seq!["create"@, path@],
{
    let mut args: Vec<String> = Vec::new();
    args.push(String::from_str("create"));
    args.push(String::from_str(path));
    proof {
        assert(args.deep_view() =~= seq!["create"@, path@]);
    }
    Command { program: String::from_str("svnadmin"), cwd: String::from_str(cwd), args }
}

/// `svn checkout <url>`, run from `cwd`: checks the fresh repository out,
/// given its location as a `file://` URL.
pub fn svn_checkout_command(url: &str, cwd: &str) -> (c: Command)
    ensures
        c.program@ == "svn"@,
        c.cwd@ == cwd@,
        c.args.deep_view() == seq!["checkout"@, url@],
{
    let mut args: Vec<String> = Vec::new();
    args.push(String::from_str("checkout"));
    args.push(String::from_str(url));
    proof {
        assert(args.deep_view() =~= seq!["checkout"@, url@]);
    }
    Command { program: String::from_str("svn"), cwd: String::from_str(cwd), args }
}

} // verus!
