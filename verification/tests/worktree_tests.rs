use dev_cli::error::{DevError, ErrorKind};
use dev_cli::git::listing::parse_worktree_list;
use dev_cli::git::scan::{list_worktrees, list_worktrees_command};
use dev_cli::git::worktree::{
    create_worktree, find_worktree_by_branch, plan_worktree, prune_worktrees,
    prune_worktrees_command, remove_worktree, remove_worktree_command, sanitize_branch_name,
    worktree_created, WorktreeInfo, WorktreePlan, WorktreeStatus,
};
use dev_cli::process::CommandOutput;

fn output(success: bool, stdout: &str) -> CommandOutput {
    CommandOutput { success, stdout: stdout.to_string(), stderr: String::new() }
}

fn failure(stderr: &str) -> CommandOutput {
    CommandOutput { success: false, stdout: String::new(), stderr: stderr.to_string() }
}

fn record(path: &str, branch: Option<&str>) -> WorktreeInfo {
    WorktreeInfo {
        path: path.to_string(),
        branch: branch.map(|b| b.to_string()),
        commit: String::new(),
        is_current: false,
        is_bare: false,
        is_detached: false,
        status: WorktreeStatus::Unknown,
    }
}

#[test]
fn parses_bare_and_main_blocks() {
    let text = "worktree /repo/.bare\nbare\n\nworktree /repo/main\nHEAD abc1234def5678\nbranch refs/heads/main\n\n";
    let records = parse_worktree_list(text, Some("/repo/main/src"));
    assert_eq!(records.len(), 2);
    assert!(records[0].is_bare);
    assert_eq!(records[0].status, WorktreeStatus::Unknown);
    assert_eq!(records[0].path, "/repo/.bare");
    assert_eq!(records[0].branch, None);
    assert_eq!(records[0].commit, "");
    assert_eq!(records[1].branch.as_deref(), Some("main"));
    assert!(records[1].commit.starts_with("abc1234"));
    assert!(!records[1].is_detached);
    assert!(!records[1].is_bare);
    assert!(records[1].is_current);
    assert!(!records[0].is_current);
}

#[test]
fn one_record_for_each_header_line() {
    for text in [
        "",
        "worktree /a",
        "worktree /a\n",
        "worktree /a\nworktree /b\nworktree /c\n",
        "HEAD 123\nworktree /a\nHEAD 456\n\nworktree /b\nbare\n",
        "noise\n\n",
        "worktree \nworktree",
        " worktree /a\n",
    ] {
        let headers = text.lines().filter(|l| l.starts_with("worktree ")).count();
        assert_eq!(parse_worktree_list(text, None).len(), headers, "{:?}", text);
    }
}

#[test]
fn the_last_record_is_not_dropped() {
    let records = parse_worktree_list("worktree /a\nHEAD 1\nworktree /b\nHEAD 2", None);
    assert_eq!(records.len(), 2);
    assert_eq!(records[1].path, "/b");
    assert_eq!(records[1].commit, "2");
}

#[test]
fn unknown_lines_are_ignored() {
    let plain = parse_worktree_list("worktree /a\nHEAD 1\nbranch refs/heads/x\n", None);
    let noisy = parse_worktree_list(
        "worktree /a\nHEAD 1\nlocked reason\nbranch refs/heads/x\nprunable gitdir file points to non-existent location\n",
        None,
    );
    assert_eq!(plain, noisy);
}

#[test]
fn lines_before_the_first_header_are_ignored() {
    let records = parse_worktree_list("HEAD 9\nbare\nworktree /a\n", None);
    assert_eq!(records.len(), 1);
    assert_eq!(records[0].commit, "");
    assert!(!records[0].is_bare);
}

#[test]
fn branch_lines_lose_the_heads_prefix_only() {
    let records = parse_worktree_list(
        "worktree /a\nbranch refs/heads/feature/x\nworktree /b\nbranch refs/remotes/origin/y\nworktree /c\nbranch \n",
        None,
    );
    assert_eq!(records[0].branch.as_deref(), Some("feature/x"));
    assert_eq!(records[1].branch.as_deref(), Some("refs/remotes/origin/y"));
    assert_eq!(records[2].branch.as_deref(), Some(""));
}

#[test]
fn the_last_field_line_counts() {
    let records = parse_worktree_list("worktree /a\nHEAD 1\nHEAD 2\nbranch refs/heads/x\nbranch refs/heads/y\n", None);
    assert_eq!(records[0].commit, "2");
    assert_eq!(records[0].branch.as_deref(), Some("y"));
}

#[test]
fn marker_lines_must_match_exactly() {
    let records = parse_worktree_list("worktree /a\nbare \nworktree /b\ndetached\nworktree /c\nDetached\n", None);
    assert!(!records[0].is_bare);
    assert!(records[1].is_detached);
    assert!(!records[2].is_detached);
}

#[test]
fn carriage_returns_end_lines_too() {
    let records = parse_worktree_list("worktree /a\r\nHEAD 1\r\nbare\r\n", None);
    assert_eq!(records.len(), 1);
    assert_eq!(records[0].path, "/a");
    assert_eq!(records[0].commit, "1");
    assert!(records[0].is_bare);
}

#[test]
fn current_worktree_holds_the_working_directory() {
    let text = "worktree /r/main\nworktree /r/main2\nworktree /r\n";
    let records = parse_worktree_list(text, Some("/r/main/src"));
    assert!(records[0].is_current);
    assert!(!records[1].is_current);
    assert!(records[2].is_current);
    let unknown = parse_worktree_list(text, None);
    assert!(unknown.iter().all(|r| !r.is_current));
}

#[test]
fn listing_failure_is_not_a_repository() {
    let err = list_worktrees(Some(&failure("fatal: not a git repository")), None).unwrap_err();
    assert_eq!(list_worktrees(None, None).unwrap_err(), DevError::NotGitRepository);
    assert_eq!(err, DevError::NotGitRepository);
    let c = list_worktrees_command();
    assert_eq!(c.program, "git");
    assert_eq!(c.args, vec!["worktree", "list", "--porcelain"]);
    assert_eq!(c.dir, None);
}

#[test]
fn scan_classifies_tracked_worktrees() {
    let listing = output(
        true,
        "worktree /r/.bare\nbare\n\nworktree /r/main\nHEAD 1111111\nbranch refs/heads/main\n\nworktree /r/d\nHEAD 2222222\ndetached\n\nworktree /r/f\nHEAD 3333333\nbranch refs/heads/f\n",
    );
    let mut scan = list_worktrees(Some(&listing), None).unwrap();
    assert!(!scan.is_finished());
    let first = scan.next_command().unwrap();
    assert_eq!(first.args, vec!["status", "--porcelain"]);
    assert_eq!(first.dir.as_deref(), Some("/r/main"));
    scan.record(Some(&output(true, "")));
    let second = scan.next_command().unwrap();
    assert_eq!(second.args, vec!["rev-list", "--left-right", "--count", "origin/main...HEAD"]);
    assert_eq!(second.dir.as_deref(), Some("/r/main"));
    scan.record(Some(&output(true, "0\t3\n")));
    let third = scan.next_command().unwrap();
    assert_eq!(third.args, vec!["status", "--porcelain"]);
    assert_eq!(third.dir.as_deref(), Some("/r/f"));
    scan.record(Some(&output(true, "?? new\n")));
    assert!(scan.next_command().is_none());
    assert!(scan.is_finished());
    scan.record(Some(&output(true, "?? new\n")));
    let records = scan.finish();
    assert_eq!(records.len(), 4);
    assert_eq!(records[0].status, WorktreeStatus::Unknown);
    assert_eq!(records[1].status, WorktreeStatus::Ahead(3));
    assert_eq!(records[2].status, WorktreeStatus::Unknown);
    assert_eq!(records[3].status, WorktreeStatus::Modified);
}

#[test]
fn scan_degrades_when_probes_fail() {
    let listing = output(true, "worktree /r/a\nbranch refs/heads/a\nworktree /r/b\nbranch refs/heads/b\n");
    let mut scan = list_worktrees(Some(&listing), None).unwrap();
    scan.record(None);
    scan.record(None);
    scan.record(Some(&failure("x")));
    scan.record(Some(&failure("fatal: no upstream")));
    assert!(scan.is_finished());
    let records = scan.finish();
    assert_eq!(records[0].status, WorktreeStatus::Clean);
    assert_eq!(records[1].status, WorktreeStatus::Clean);
}

#[test]
fn scan_of_untracked_worktrees_asks_nothing() {
    let listing = output(true, "worktree /r/.bare\nbare\nworktree /r/d\ndetached\nworktree /r/n\n");
    let scan = list_worktrees(Some(&listing), None).unwrap();
    assert!(scan.is_finished());
    assert!(scan.next_command().is_none());
    let records = scan.finish();
    assert!(records.iter().all(|r| r.status == WorktreeStatus::Unknown));
}

#[test]
fn bare_and_detached_stay_unknown_whatever_else() {
    let listing = output(
        true,
        "worktree /r/x\nHEAD 1\nbranch refs/heads/x\nbare\nworktree /r/y\nbranch refs/heads/y\ndetached\nworktree /r/z\nbranch refs/heads/z\n",
    );
    let mut scan = list_worktrees(Some(&listing), None).unwrap();
    while let Some(_) = scan.next_command() {
        scan.record(Some(&output(true, "dirty")));
    }
    let records = scan.finish();
    assert_eq!(records[0].status, WorktreeStatus::Unknown);
    assert_eq!(records[1].status, WorktreeStatus::Unknown);
    assert_eq!(records[2].status, WorktreeStatus::Modified);
}

#[test]
fn sanitize_replaces_slashes() {
    assert_eq!(sanitize_branch_name("feature/x/y"), "feature-x-y");
    assert_eq!(sanitize_branch_name("feature-x-y"), "feature-x-y");
    assert_eq!(sanitize_branch_name(&sanitize_branch_name("a/b//c")), sanitize_branch_name("a/b//c"));
    assert_eq!(sanitize_branch_name("a/b//c"), "a-b--c");
    assert_eq!(sanitize_branch_name(""), "");
    assert_eq!(sanitize_branch_name("back\\slash"), "back\\slash");
}

#[test]
fn plan_puts_the_worktree_beside_the_root() {
    let plan = plan_worktree(&output(true, "/home/u/proj\n"), "feature/x").unwrap();
    assert_eq!(plan.repo_root, "/home/u/proj");
    assert_eq!(plan.path, "/home/u/feature-x");
}

#[test]
fn plan_fails_outside_a_repository_and_at_the_root() {
    assert_eq!(plan_worktree(&failure("fatal"), "x").unwrap_err(), DevError::NotGitRepository);
    assert_eq!(
        plan_worktree(&output(true, "/\n"), "x").unwrap_err(),
        DevError::GitError("Cannot determine parent directory".into())
    );
    assert_eq!(
        plan_worktree(&output(true, ""), "x").unwrap_err(),
        DevError::GitError("Cannot determine parent directory".into())
    );
}

#[test]
fn create_refuses_an_occupied_directory() {
    let plan = WorktreePlan { repo_root: "/r/main".into(), path: "/r/f".into() };
    let err = create_worktree(&plan, true, "f", true).unwrap_err();
    assert_eq!(err, DevError::WorktreeDirectoryExists("/r/f".into()));
    assert_eq!(err.kind(), ErrorKind::WorktreeDirectoryExists);
    assert!(create_worktree(&plan, true, "f", false).is_err());
}

#[test]
fn create_passes_the_branch_flag_only_when_asked() {
    let plan = WorktreePlan { repo_root: "/r/main".into(), path: "/r/f".into() };
    let with = create_worktree(&plan, false, "f", true).unwrap();
    assert_eq!(with.program, "git");
    assert_eq!(with.args, vec!["worktree", "add", "-b", "f", "/r/f"]);
    assert_eq!(with.dir.as_deref(), Some("/r/main"));
    let without = create_worktree(&plan, false, "f", false).unwrap();
    assert_eq!(without.args, vec!["worktree", "add", "/r/f", "f"]);
    assert_eq!(without.dir.as_deref(), Some("/r/main"));
}

#[test]
fn created_reports_path_or_diagnostic() {
    let plan = WorktreePlan { repo_root: "/r/main".into(), path: "/r/f".into() };
    assert_eq!(worktree_created(plan.clone(), &output(true, "")).unwrap(), "/r/f");
    assert_eq!(
        worktree_created(plan, &failure("  fatal: bad\n")).unwrap_err(),
        DevError::GitError("Failed to create worktree: fatal: bad".into())
    );
}

#[test]
fn remove_and_prune() {
    let c = remove_worktree_command("/r/f");
    assert_eq!(c.args, vec!["worktree", "remove", "/r/f"]);
    assert_eq!(c.dir, None);
    assert_eq!(remove_worktree(&output(true, "")), Ok(()));
    assert_eq!(
        remove_worktree(&failure("fatal: contains modified files\n")).unwrap_err(),
        DevError::GitError("fatal: contains modified files\n".into())
    );
    assert_eq!(
        remove_worktree(&failure("  warning: x\n\tfatal: y \n")).unwrap_err(),
        DevError::GitError("  warning: x\n\tfatal: y \n".into())
    );
    assert_eq!(remove_worktree(&failure("")).unwrap_err(), DevError::GitError("".into()));
    let c = prune_worktrees_command();
    assert_eq!(c.args, vec!["worktree", "prune"]);
    assert_eq!(prune_worktrees(&output(true, "")), Ok(()));
    assert_eq!(
        prune_worktrees(&failure(" nope ")).unwrap_err(),
        DevError::GitError("Failed to prune worktrees: nope".into())
    );
}

#[test]
fn find_by_branch_matches_exactly() {
    let records = vec![
        record("/r/a", Some("main")),
        record("/r/b", None),
        record("/r/c", Some("feature")),
        record("/r/d", Some("feature2")),
    ];
    assert_eq!(find_worktree_by_branch(&records, "feature").unwrap().path, "/r/c");
    assert_eq!(find_worktree_by_branch(&records, "main").unwrap().path, "/r/a");
    assert!(find_worktree_by_branch(&records, "feat").is_none());
    assert!(find_worktree_by_branch(&records, "Feature").is_none());
    assert!(find_worktree_by_branch(&records, "").is_none());
    assert!(find_worktree_by_branch(&Vec::new(), "main").is_none());
}

#[test]
fn find_by_branch_takes_the_first_match() {
    let records = vec![record("/r/a", Some("x")), record("/r/b", Some("x"))];
    assert_eq!(find_worktree_by_branch(&records, "x").unwrap().path, "/r/a");
}

#[test]
fn status_icons_and_labels() {
    assert_eq!(WorktreeStatus::Clean.icon(), "✓");
    assert_eq!(WorktreeStatus::Ahead(1).icon(), "↑");
    assert_eq!(WorktreeStatus::Behind(1).icon(), "↓");
    assert_eq!(WorktreeStatus::Diverged { ahead: 1, behind: 2 }.icon(), "⇅");
    assert_eq!(WorktreeStatus::Modified.icon(), "●");
    assert_eq!(WorktreeStatus::Unknown.icon(), "?");
    assert_eq!(WorktreeStatus::Clean.label(), "clean");
    assert_eq!(WorktreeStatus::Ahead(3).label(), "ahead 3");
    assert_eq!(WorktreeStatus::Behind(12).label(), "behind 12");
    assert_eq!(WorktreeStatus::Diverged { ahead: 2, behind: 40 }.label(), "diverged +2 -40");
    assert_eq!(WorktreeStatus::Modified.label(), "modified");
    assert_eq!(WorktreeStatus::Unknown.label(), "unknown");
}
