//! Worktrees: the records of the inventory, their status, and the
//! operations that create, remove and find worktrees.
use crate::error::{DevError, ErrorKind};
use crate::git::{expect_success, get_repository_root, git_failure};
use crate::path::{join, joined, parent, parent_of};
use crate::process::{git, strings2, strings3, CommandLine, CommandOutput};
use crate::text::{
    decimal_text, push_decimal, push_str, same_text, texts, to_chars, to_text, trimmed,
};
use vstd::prelude::*;

verus! {

/// How a worktree stands against its remote branch.
#[derive(Debug, Clone, Copy, PartialEq, Eq, Structural)]
pub enum WorktreeStatus {
    /// No uncommitted changes, nothing ahead or behind.
    Clean,
    /// Commits ahead of the remote, none behind.
    Ahead(usize),
    /// Commits behind the remote, none ahead.
    Behind(usize),
    /// Commits on both sides.
    Diverged { ahead: usize, behind: usize },
    /// Uncommitted changes in the working tree.
    Modified,
    /// Not determined: a bare or detached worktree, or one without a branch.
    Unknown,
}

/// The one-character sign of a status.
pub open spec fn icon_of(status: WorktreeStatus) -> Seq<char> {
    match status {
        WorktreeStatus::Clean => "✓"@,
        WorktreeStatus::Ahead(_) => "↑"@,
        WorktreeStatus::Behind(_) => "↓"@,
        WorktreeStatus::Diverged { .. } => "⇅"@,
        WorktreeStatus::Modified => "●"@,
        WorktreeStatus::Unknown => "?"@,
    }
}

/// The words that describe a status, with its counts in decimal.
pub open spec fn label_of(status: WorktreeStatus) -> Seq<char> {
    match status {
        WorktreeStatus::Clean => "clean"@,
        WorktreeStatus::Ahead(n) => "ahead "@ + decimal_text(n as nat),
        WorktreeStatus::Behind(n) => "behind "@ + decimal_text(n as nat),
        WorktreeStatus::Diverged { ahead, behind } => "diverged +"@ + decimal_text(ahead as nat)
            + " -"@ + decimal_text(behind as nat),
        WorktreeStatus::Modified => "modified"@,
        WorktreeStatus::Unknown => "unknown"@,
    }
}

impl WorktreeStatus {
    /// The one-character sign of the status.
    pub fn icon(&self) -> (r: &'static str)
        ensures
            r@ == icon_of(*self),
    {
        match self {
            WorktreeStatus::Clean => "✓",
            WorktreeStatus::Ahead(_) => "↑",
            WorktreeStatus::Behind(_) => "↓",
            WorktreeStatus::Diverged { .. } => "⇅",
            WorktreeStatus::Modified => "●",
            WorktreeStatus::Unknown => "?",
        }
    }

    /// The words that describe the status.
    pub fn label(&self) -> (r: String)
        ensures
            r@ == label_of(*self),
    {
        let mut out: Vec<char> = Vec::new();
        match self {
            WorktreeStatus::Clean => {
                push_str(&mut out, "clean");
            },
            WorktreeStatus::Ahead(n) => {
                push_str(&mut out, "ahead ");
                push_decimal(&mut out, *n);
            },
            WorktreeStatus::Behind(n) => {
                push_str(&mut out, "behind ");
                push_decimal(&mut out, *n);
            },
            WorktreeStatus::Diverged { ahead, behind } => {
                push_str(&mut out, "diverged +");
                push_decimal(&mut out, *ahead);
                push_str(&mut out, " -");
                push_decimal(&mut out, *behind);
            },
            WorktreeStatus::Modified => {
                push_str(&mut out, "modified");
            },
            WorktreeStatus::Unknown => {
                push_str(&mut out, "unknown");
            },
        }
        assert(out@ =~= label_of(*self));
        to_text(out.as_slice())
    }
}

/// One worktree of the repository, as the listing reported it.
#[derive(Debug, Clone, PartialEq, Eq)]
pub struct WorktreeInfo {
    /// Where the worktree is checked out.
    pub path: String,
    /// The branch it tracks; none when detached or bare.
    pub branch: Option<String>,
    /// The commit that is checked out; empty if the listing named none.
    pub commit: String,
    /// Whether the caller's working directory lies in this worktree.
    pub is_current: bool,
    pub is_bare: bool,
    pub is_detached: bool,
    pub status: WorktreeStatus,
}

/// A worktree record as plain values.
pub struct WorktreeView {
    pub path: Seq<char>,
    pub branch: Option<Seq<char>>,
    pub commit: Seq<char>,
    pub is_current: bool,
    pub is_bare: bool,
    pub is_detached: bool,
    pub status: WorktreeStatus,
}

impl WorktreeView {
    /// Whether the record is of a kind whose status can be determined:
    /// neither bare nor detached, and on a branch.
    pub open spec fn tracks_branch(self) -> bool {
        !self.is_bare && !self.is_detached && self.branch is Some
    }

    /// The invariant of a record: where no status can be determined, the
    /// status is `Unknown`.
    pub open spec fn consistent(self) -> bool {
        !self.tracks_branch() ==> self.status == WorktreeStatus::Unknown
    }

    /// The record with another status.
    pub open spec fn with_status(self, status: WorktreeStatus) -> WorktreeView {
        WorktreeView { status, ..self }
    }
}

impl View for WorktreeInfo {
    type V = WorktreeView;

    open spec fn view(&self) -> WorktreeView {
        WorktreeView {
            path: self.path@,
            branch: match self.branch {
                Some(b) => Some(b@),
                None => None,
            },
            commit: self.commit@,
            is_current: self.is_current,
            is_bare: self.is_bare,
            is_detached: self.is_detached,
            status: self.status,
        }
    }
}

/// The records of a list, as plain values.
pub open spec fn worktree_views(v: Seq<WorktreeInfo>) -> Seq<WorktreeView> {
    Seq::new(v.len(), |i: int| v[i]@)
}

impl WorktreeInfo {
    /// Whether the status of this worktree can be determined.
    pub fn tracks_branch(&self) -> (r: bool)
        ensures
            r == self@.tracks_branch(),
    {
        !self.is_bare && !self.is_detached && self.branch.is_some()
    }
}

/// A branch name as a directory name: every `/` replaced by `-`, so that
/// the name stands for one directory and not for nested ones.
pub open spec fn sanitized(branch: Seq<char>) -> Seq<char> {
    Seq::new(
        branch.len(),
        |i: int|
            if branch[i] == '/' {
                '-'
            } else {
                branch[i]
            },
    )
}

/// A sanitized name holds no `/`, and sanitizing it again changes nothing.
pub proof fn lemma_sanitize_idempotent(branch: Seq<char>)
    ensures
        forall|i: int| 0 <= i < sanitized(branch).len() ==> sanitized(branch)[i] != '/',
        sanitized(sanitized(branch)) == sanitized(branch),
{
    assert(sanitized(sanitized(branch)) =~= sanitized(branch));
}

/// The directory name for a branch: the branch name with every `/`
/// replaced by `-`.
pub fn sanitize_branch_name(branch: &str) -> (r: String)
    ensures
        r@ == sanitized(branch@),
{
    let chars = to_chars(branch);
    let mut out: Vec<char> = Vec::new();
    let mut i: usize = 0;
    while i < chars.len()
        invariant
            i <= chars.len(),
            chars@ == branch@,
            out@ == sanitized(branch@).take(i as int),
        decreases chars.len() - i,
    {
        let c = chars[i];
        out.push(
            if c == '/' {
                '-'
            } else {
                c
            },
        );
        assert(out@ =~= sanitized(branch@).take(i + 1));
        i += 1;
    }
    assert(sanitized(branch@).take(chars.len() as int) =~= sanitized(branch@));
    to_text(out.as_slice())
}

/// Where a new worktree is to stand, and the repository that it belongs to.
#[derive(Debug, Clone, PartialEq, Eq)]
pub struct WorktreePlan {
    /// The root directory of the repository.
    pub repo_root: String,
    /// The directory of the new worktree: beside the repository root, named
    /// after the branch.
    pub path: String,
}

/// The directory for the worktree of `branch`, given the repository root:
/// the sanitized branch name beside the root. A root without a parent
/// directory has no place for it.
pub open spec fn worktree_path_for(repo_root: Seq<char>, branch: Seq<char>) -> Option<Seq<char>> {
    match parent_of(repo_root) {
        Some(dir) => Some(joined(dir, sanitized(branch))),
        None => None,
    }
}

/// Plans a new worktree for `branch` from what the command that names the
/// repository root reported.
///
/// Fails with `NotGitRepository` where that command failed, and with a git
/// error where the root has no parent directory.
pub fn plan_worktree(root: &CommandOutput, branch: &str) -> (r: Result<WorktreePlan, DevError>)
    ensures
        match r {
            Ok(plan) => {
                &&& root.success
                &&& plan.repo_root@ == trimmed(root.stdout@)
                &&& worktree_path_for(plan.repo_root@, branch@) == Some(plan.path@)
            },
            Err(e) => if !root.success {
                e@.0 == ErrorKind::NotGitRepository
            } else {
                &&& worktree_path_for(trimmed(root.stdout@), branch@) is None
                &&& e@ == (ErrorKind::GitError, "Cannot determine parent directory"@)
            },
        },
{
    let repo_root = match get_repository_root(root) {
        Ok(p) => p,
        Err(e) => {
            return Err(e);
        },
    };
    let dir = match parent(repo_root.as_str()) {
        Some(d) => d,
        None => {
            return Err(DevError::GitError("Cannot determine parent directory".to_owned()));
        },
    };
    let name = sanitize_branch_name(branch);
    let path = join(dir.as_str(), name.as_str());
    Ok(WorktreePlan { repo_root, path })
}

/// The arguments of the command that adds the worktree at `path`: with a
/// new branch, the flag and the branch's name come before the path;
/// without, the path comes before the branch to check out.
pub open spec fn add_arguments(path: Seq<char>, branch: Seq<char>, create_branch: bool) -> Seq<
    Seq<char>,
> {
    if create_branch {
        seq!["worktree"@, "add"@, "-b"@, branch, path]
    } else {
        seq!["worktree"@, "add"@, path, branch]
    }
}

/// Decides on the creation of the planned worktree, given whether its
/// directory already exists.
///
/// An occupied directory fails with `WorktreeDirectoryExists` and names the
/// path; no command is then to be run. Otherwise the result is the command
/// that adds the worktree, run in the repository root, with the flag that
/// creates the branch exactly where `create_branch` is set.
pub fn create_worktree(
    plan: &WorktreePlan,
    path_exists: bool,
    branch: &str,
    create_branch: bool,
) -> (r: Result<CommandLine, DevError>)
    ensures
        match r {
            Ok(c) => !path_exists && c@ == git(
                add_arguments(plan.path@, branch@, create_branch),
                Some(plan.repo_root@),
            ),
            Err(e) => path_exists && e@ == (ErrorKind::WorktreeDirectoryExists, plan.path@),
        },
{
    if path_exists {
        return Err(DevError::WorktreeDirectoryExists(plan.path.clone()));
    }
    let mut args: Vec<String> = Vec::new();
    args.push("worktree".to_owned());
    args.push("add".to_owned());
    if create_branch {
        args.push("-b".to_owned());
        args.push(branch.to_owned());
        args.push(plan.path.clone());
    } else {
        args.push(plan.path.clone());
        args.push(branch.to_owned());
    }
    assert(texts(args@) =~= add_arguments(plan.path@, branch@, create_branch));
    Ok(CommandLine::git(args, Some(plan.repo_root.clone())))
}

/// What adding the worktree amounted to: its path, or the failure with
/// git's diagnostic.
pub fn worktree_created(plan: WorktreePlan, output: &CommandOutput) -> (r: Result<
    String,
    DevError,
>)
    ensures
        match r {
            Ok(path) => output.success && path@ == plan.path@,
            Err(e) => !output.success && e@ == git_failure(
                "Failed to create worktree: "@,
                trimmed(output.stderr@),
            ),
        },
{
    match expect_success(output, "Failed to create worktree: ") {
        Ok(_) => Ok(plan.path),
        Err(e) => Err(e),
    }
}

/// The command that removes the worktree at `path`.
pub fn remove_worktree_command(path: &str) -> (c: CommandLine)
    ensures
        c@ == git(seq!["worktree"@, "remove"@, path@], None),
{
    CommandLine::git(strings3("worktree", "remove", path), None)
}

/// What removing the worktree amounted to; a failure carries git's
/// diagnostic as it was written.
pub fn remove_worktree(output: &CommandOutput) -> (r: Result<(), DevError>)
    ensures
        match r {
            Ok(_) => output.success,
            Err(e) => !output.success && e@ == (ErrorKind::GitError, output.stderr@),
        },
{
    if output.success {
        Ok(())
    } else {
        Err(DevError::GitError(output.stderr.clone()))
    }
}

/// The command that prunes stale worktree references.
pub fn prune_worktrees_command() -> (c: CommandLine)
    ensures
        c@ == git(seq!["worktree"@, "prune"@], None),
{
    CommandLine::git(strings2("worktree", "prune"), None)
}

/// What pruning amounted to; a failure carries git's diagnostic.
pub fn prune_worktrees(output: &CommandOutput) -> (r: Result<(), DevError>)
    ensures
        match r {
            Ok(_) => output.success,
            Err(e) => !output.success && e@ == git_failure(
                "Failed to prune worktrees: "@,
                trimmed(output.stderr@),
            ),
        },
{
    expect_success(output, "Failed to prune worktrees: ")
}

/// The position of the first record on `branch`, or the number of records
/// if there is none.
pub open spec fn position_on_branch(ws: Seq<WorktreeView>, branch: Seq<char>) -> int
    decreases ws.len(),
{
    if ws.len() == 0 || ws[0].branch == Some(branch) {
        0
    } else {
        1 + position_on_branch(ws.skip(1), branch)
    }
}

/// `position_on_branch` is where the first record on the branch stands.
pub proof fn lemma_position_on_branch(ws: Seq<WorktreeView>, branch: Seq<char>, k: int)
    requires
        0 <= k <= ws.len(),
        forall|j: int| 0 <= j < k ==> (#[trigger] ws[j]).branch != Some(branch),
        k == ws.len() || ws[k].branch == Some(branch),
    ensures
        position_on_branch(ws, branch) == k,
    decreases ws.len(),
{
    if ws.len() == 0 || ws[0].branch == Some(branch) {
    } else {
        let rest = ws.skip(1);
        assert forall|j: int| 0 <= j < k - 1 implies (#[trigger] rest[j]).branch != Some(
            branch,
        ) by {
            assert(rest[j] == ws[j + 1]);
        }
        lemma_position_on_branch(rest, branch, k - 1);
    }
}

/// In an inventory with exactly one record on the branch, that record is
/// the one found; in one with none, none is.
pub proof fn lemma_find_unique(ws: Seq<WorktreeView>, branch: Seq<char>, i: int)
    requires
        0 <= i <= ws.len(),
        i < ws.len() ==> ws[i].branch == Some(branch),
        forall|j: int| 0 <= j < ws.len() && j != i ==> (#[trigger] ws[j]).branch != Some(branch),
    ensures
        position_on_branch(ws, branch) == i,
{
    lemma_position_on_branch(ws, branch, i);
}

impl WorktreeInfo {
    /// Whether the worktree is on the given branch.
    pub fn on_branch(&self, branch: &str) -> (r: bool)
        ensures
            r == (self@.branch == Some(branch@)),
    {
        match &self.branch {
            Some(b) => same_text(b.as_str(), branch),
            None => false,
        }
    }
}

/// The position of the first record on `branch`, or the number of records.
pub fn find_position(worktrees: &Vec<WorktreeInfo>, branch: &str) -> (i: usize)
    ensures
        i == position_on_branch(worktree_views(worktrees@), branch@),
        i <= worktrees@.len(),
        i < worktrees@.len() ==> worktrees@[i as int]@.branch == Some(branch@),
        forall|j: int| 0 <= j < i ==> (#[trigger] worktrees@[j])@.branch != Some(branch@),
{
    let mut i: usize = 0;
    while i < worktrees.len() && !worktrees[i].on_branch(branch)
        invariant
            i <= worktrees@.len(),
            forall|j: int| 0 <= j < i ==> (#[trigger] worktrees@[j])@.branch != Some(branch@),
        decreases worktrees@.len() - i,
    {
        i += 1;
    }
    proof {
        let ws = worktree_views(worktrees@);
        assert forall|j: int| 0 <= j < i implies (#[trigger] ws[j]).branch != Some(branch@) by {
            assert(ws[j] == worktrees@[j]@);
        }
        lemma_position_on_branch(ws, branch@, i as int);
    }
    i
}

/// The worktree on the given branch: the first record of the inventory
/// whose branch is exactly `branch`, or none if no record is on it.
pub fn find_worktree_by_branch<'a>(worktrees: &'a Vec<WorktreeInfo>, branch: &str) -> (r: Option<
    &'a WorktreeInfo,
>)
    ensures
        match r {
            Some(w) => {
                let i = position_on_branch(worktree_views(worktrees@), branch@);
                &&& 0 <= i < worktrees@.len()
                &&& *w == worktrees@[i]
                &&& w@.branch == Some(branch@)
            },
            None => forall|j: int|
                0 <= j < worktrees@.len() ==> (#[trigger] worktrees@[j])@.branch != Some(branch@),
        },
{
    let i = find_position(worktrees, branch);
    if i < worktrees.len() {
        Some(&worktrees[i])
    } else {
        None
    }
}

} // verus!
