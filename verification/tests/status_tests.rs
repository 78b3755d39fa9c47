use dev_cli::git::status::{
    changes_command, classify, counts_command, get_ahead_behind_status, get_worktree_status,
    has_uncommitted_changes,
};
use dev_cli::git::worktree::WorktreeStatus;
use dev_cli::process::CommandOutput;

fn output(success: bool, stdout: &str) -> CommandOutput {
    CommandOutput { success, stdout: stdout.to_string(), stderr: String::new() }
}

#[test]
fn classify_maps_counts() {
    assert_eq!(classify(0, 0), WorktreeStatus::Clean);
    assert_eq!(classify(3, 0), WorktreeStatus::Ahead(3));
    assert_eq!(classify(0, 5), WorktreeStatus::Behind(5));
    assert_eq!(classify(2, 4), WorktreeStatus::Diverged { ahead: 2, behind: 4 });
}

#[test]
fn changes_dominate_counts() {
    let dirty = output(true, " M src/lib.rs\n");
    let counts = output(true, "4\t2\n");
    assert_eq!(get_worktree_status(Some(&dirty), Some(&counts)), WorktreeStatus::Modified);
    assert_eq!(get_worktree_status(Some(&dirty), None), WorktreeStatus::Modified);
    let clean = output(true, "\n");
    assert_eq!(
        get_worktree_status(Some(&clean), Some(&counts)),
        WorktreeStatus::Diverged { ahead: 2, behind: 4 }
    );
}

#[test]
fn uncommitted_changes_need_a_successful_probe() {
    assert!(has_uncommitted_changes(Some(&output(true, "?? new.txt\n"))));
    assert!(!has_uncommitted_changes(Some(&output(true, ""))));
    assert!(!has_uncommitted_changes(Some(&output(true, " \n\t"))));
    assert!(!has_uncommitted_changes(Some(&output(false, "?? new.txt\n"))));
    assert!(!has_uncommitted_changes(None));
}

#[test]
fn counts_text_is_behind_then_ahead() {
    assert_eq!(get_ahead_behind_status(Some(&output(true, "0\t0\n"))), WorktreeStatus::Clean);
    assert_eq!(get_ahead_behind_status(Some(&output(true, "0\t3\n"))), WorktreeStatus::Ahead(3));
    assert_eq!(get_ahead_behind_status(Some(&output(true, "5\t0\n"))), WorktreeStatus::Behind(5));
    assert_eq!(
        get_ahead_behind_status(Some(&output(true, "4\t2\n"))),
        WorktreeStatus::Diverged { ahead: 2, behind: 4 }
    );
}

#[test]
fn unreadable_counts_degrade_to_clean() {
    assert_eq!(get_ahead_behind_status(None), WorktreeStatus::Clean);
    assert_eq!(get_ahead_behind_status(Some(&output(false, "4\t2\n"))), WorktreeStatus::Clean);
    assert_eq!(get_ahead_behind_status(Some(&output(true, ""))), WorktreeStatus::Clean);
    assert_eq!(get_ahead_behind_status(Some(&output(true, "4 2"))), WorktreeStatus::Clean);
    assert_eq!(get_ahead_behind_status(Some(&output(true, "1\t2\t3"))), WorktreeStatus::Clean);
    assert_eq!(get_ahead_behind_status(Some(&output(true, "\t5"))), WorktreeStatus::Clean);
}

#[test]
fn a_field_that_is_no_number_degrades_to_clean() {
    assert_eq!(get_ahead_behind_status(Some(&output(true, "x\t3\n"))), WorktreeStatus::Clean);
    assert_eq!(get_ahead_behind_status(Some(&output(true, "2\ty"))), WorktreeStatus::Clean);
    assert_eq!(get_ahead_behind_status(Some(&output(true, "x\ty"))), WorktreeStatus::Clean);
    assert_eq!(get_ahead_behind_status(Some(&output(true, "-1\t3"))), WorktreeStatus::Clean);
    assert_eq!(get_ahead_behind_status(Some(&output(true, "1\t 3"))), WorktreeStatus::Clean);
    assert_eq!(get_ahead_behind_status(Some(&output(true, "1\t\t"))), WorktreeStatus::Clean);
    let too_large = format!("{}0\t3", usize::MAX);
    assert_eq!(get_ahead_behind_status(Some(&output(true, &too_large))), WorktreeStatus::Clean);
    let at_the_limit = format!("1\t{}", usize::MAX);
    assert_eq!(
        get_ahead_behind_status(Some(&output(true, &at_the_limit))),
        WorktreeStatus::Diverged { ahead: usize::MAX, behind: 1 }
    );
    assert_eq!(get_ahead_behind_status(Some(&output(true, "+2\t+0"))), WorktreeStatus::Behind(2));
}

#[test]
fn probe_commands() {
    let c = changes_command("/r/main");
    assert_eq!(c.program, "git");
    assert_eq!(c.args, vec!["status", "--porcelain"]);
    assert_eq!(c.dir.as_deref(), Some("/r/main"));
    let c = counts_command("/r/main", "feature/x");
    assert_eq!(c.program, "git");
    assert_eq!(c.args, vec!["rev-list", "--left-right", "--count", "origin/feature/x...HEAD"]);
    assert_eq!(c.dir.as_deref(), Some("/r/main"));
}
