use dev_cli::error::DevError;
use dev_cli::git::branch::{
    branch_exists, branch_exists_locally, branch_exists_locally_command,
    branch_exists_on_remote, branch_exists_on_remote_command, chars_precede, create_branch,
    create_branch_command, get_current_branch, get_current_branch_command, list_branches,
    list_branches_command, remove_all,
};
use dev_cli::git::{
    clone_repository, clone_repository_command, expect_success, get_repository_root,
    git_command, init_repository, init_repository_command, is_git_repository,
    is_git_repository_command, repository_root_command, run_git_command,
};
use dev_cli::process::CommandOutput;
use dev_cli::text::to_chars;

fn output(success: bool, stdout: &str) -> CommandOutput {
    CommandOutput { success, stdout: stdout.to_string(), stderr: String::new() }
}

fn failure(stderr: &str) -> CommandOutput {
    CommandOutput { success: false, stdout: String::new(), stderr: stderr.to_string() }
}

#[test]
fn branch_listing_is_sorted_and_unique() {
    let listing = output(
        true,
        "  main\nfeature/x\norigin/HEAD\norigin/main\norigin/feature/x\n\norigin/only-remote\n  zeta  \nalpha\n",
    );
    assert_eq!(
        list_branches(&listing).unwrap(),
        vec!["alpha", "feature/x", "main", "only-remote", "zeta"]
    );
}

#[test]
fn branch_listing_agrees_with_sort_and_dedup() {
    let text = "b\na\nB\nab\na b\norigin/a\n\u{e9}t\u{e9}\nb\norigin/origin/c\nxorigin/y\n";
    let mut expected: Vec<String> = text
        .lines()
        .map(|l| l.trim().to_string())
        .filter(|b| !b.is_empty() && !b.starts_with("origin/HEAD"))
        .map(|b| b.replace("origin/", ""))
        .collect();
    expected.sort();
    expected.dedup();
    assert_eq!(list_branches(&output(true, text)).unwrap(), expected);
}

#[test]
fn branch_listing_fails_outside_a_repository() {
    assert_eq!(list_branches(&failure("fatal")).unwrap_err(), DevError::NotGitRepository);
    assert_eq!(list_branches(&output(true, "")).unwrap(), Vec::<String>::new());
}

#[test]
fn branch_listing_commands() {
    assert_eq!(list_branches_command(false).args, vec!["branch", "--format=%(refname:short)"]);
    assert_eq!(
        list_branches_command(true).args,
        vec!["branch", "-a", "--format=%(refname:short)"]
    );
    assert_eq!(list_branches_command(true).program, "git");
}

#[test]
fn branch_exists_looks_in_the_listing() {
    let listing = output(true, "main\norigin/feature\n");
    assert!(branch_exists("main", Some(&listing)));
    assert!(branch_exists("feature", Some(&listing)));
    assert!(!branch_exists("origin/feature", Some(&listing)));
    assert!(!branch_exists("mai", Some(&listing)));
    assert!(!branch_exists("main", None));
    assert!(!branch_exists("main", Some(&CommandOutput {
        success: false,
        stdout: "main\n".into(),
        stderr: String::new(),
    })));
}

#[test]
fn string_order_is_by_code_point() {
    let less = |a: &str, b: &str| chars_precede(&to_chars(a), &to_chars(b));
    assert!(less("a", "b"));
    assert!(!less("b", "a"));
    assert!(!less("a", "a"));
    assert!(less("", "a"));
    assert!(!less("a", ""));
    assert!(less("a", "ab"));
    assert!(less("B", "a"));
    assert!(less("z", "\u{e9}"));
    for a in ["", "a", "ab", "b", "B", "\u{e9}", "\u{1F600}", "\u{FFFF}"] {
        for b in ["", "a", "ab", "b", "B", "\u{e9}", "\u{1F600}", "\u{FFFF}"] {
            assert_eq!(less(a, b), a < b, "{:?} {:?}", a, b);
        }
    }
}

#[test]
fn remove_all_takes_out_every_occurrence() {
    let gone = |s: &str, p: &str| -> String { remove_all(&to_chars(s), &to_chars(p)).iter().collect() };
    assert_eq!(gone("origin/main", "origin/"), "main");
    assert_eq!(gone("origin/origin/x", "origin/"), "x");
    assert_eq!(gone("aXbXc", "X"), "abc");
    assert_eq!(gone("aaa", "aa"), "a");
    assert_eq!(gone("abc", ""), "abc");
    assert_eq!(gone("ororigin/igin/", "origin/"), "origin/");
    for (s, p) in [("origin/a/origin/b", "origin/"), ("xx", "x"), ("abab", "ab"), ("", "a")] {
        assert_eq!(gone(s, p), s.replace(p, ""));
    }
}

#[test]
fn existence_probes() {
    let c = branch_exists_locally_command("feature/x");
    assert_eq!(c.args, vec!["show-ref", "--verify", "--quiet", "refs/heads/feature/x"]);
    let c = branch_exists_on_remote_command("feature/x");
    assert_eq!(c.args, vec!["show-ref", "--verify", "--quiet", "refs/remotes/origin/feature/x"]);
    assert!(branch_exists_locally(Some(&output(true, ""))));
    assert!(!branch_exists_locally(Some(&failure(""))));
    assert!(!branch_exists_locally(None));
    assert!(branch_exists_on_remote(Some(&output(true, ""))));
    assert!(!branch_exists_on_remote(Some(&failure(""))));
    assert!(!branch_exists_on_remote(None));
}

#[test]
fn current_branch() {
    assert_eq!(get_current_branch_command().args, vec!["symbolic-ref", "--short", "HEAD"]);
    assert_eq!(get_current_branch(&output(true, "main\n")).as_deref(), Some("main"));
    assert_eq!(get_current_branch(&failure("fatal: ref HEAD is not a symbolic ref")), None);
}

#[test]
fn creating_a_branch() {
    assert_eq!(create_branch_command("f", None).args, vec!["branch", "f"]);
    assert_eq!(create_branch_command("f", Some("main")).args, vec!["branch", "f", "main"]);
    assert_eq!(create_branch(&output(true, "")), Ok(()));
    assert_eq!(
        create_branch(&failure("fatal: exists\n")).unwrap_err(),
        DevError::GitError("Failed to create branch: fatal: exists".into())
    );
}

#[test]
fn repository_probes() {
    let c = is_git_repository_command("/w");
    assert_eq!(c.args, vec!["rev-parse", "--git-dir"]);
    assert_eq!(c.dir.as_deref(), Some("/w"));
    assert!(is_git_repository(Some(&output(true, ".git\n"))));
    assert!(!is_git_repository(Some(&failure("fatal"))));
    assert!(!is_git_repository(None));
    let c = repository_root_command("/w");
    assert_eq!(c.args, vec!["rev-parse", "--show-toplevel"]);
    assert_eq!(c.dir.as_deref(), Some("/w"));
    assert_eq!(get_repository_root(&output(true, "/home/u/p\n")).unwrap(), "/home/u/p");
    assert_eq!(get_repository_root(&failure("x")).unwrap_err(), DevError::NotGitRepository);
}

#[test]
fn init_and_clone_pass_the_diagnostic_on_untrimmed() {
    let c = init_repository_command("/p");
    assert_eq!(c.args, vec!["init"]);
    assert_eq!(c.dir.as_deref(), Some("/p"));
    assert_eq!(init_repository(&output(true, "")), Ok(()));
    assert_eq!(
        init_repository(&failure("bad\n")).unwrap_err(),
        DevError::GitError("Failed to init repository: bad\n".into())
    );
    let c = clone_repository_command("https://x/y.git", "/p");
    assert_eq!(c.args, vec!["clone", "https://x/y.git", "/p"]);
    assert_eq!(c.dir, None);
    assert_eq!(clone_repository(&output(true, "")), Ok(()));
    assert_eq!(
        clone_repository(&failure(" bad ")).unwrap_err(),
        DevError::GitError("Failed to clone repository:  bad ".into())
    );
}

#[test]
fn plain_git_commands() {
    let c = git_command(vec!["add".to_string(), ".".to_string()], Some("/p".to_string()));
    assert_eq!(c.program, "git");
    assert_eq!(c.args, vec!["add", "."]);
    assert_eq!(c.dir.as_deref(), Some("/p"));
    assert_eq!(run_git_command(&output(true, " out \n")).unwrap(), " out \n");
    assert_eq!(
        run_git_command(&failure(" why \n")).unwrap_err(),
        DevError::GitError("why".into())
    );
    assert_eq!(expect_success(&output(true, ""), "x: "), Ok(()));
    assert_eq!(
        expect_success(&failure("\tno\n"), "x: ").unwrap_err(),
        DevError::GitError("x: no".into())
    );
}
