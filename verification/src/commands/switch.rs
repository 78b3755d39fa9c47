//! Switching to the worktree of a branch.
//!
//! The steps, in order: `run` checks the repository and the branch name;
//! `target` finds the worktree in the inventory; `plan` decides what to do
//! with it.
use crate::commands::checked_branch;
use crate::error::{DevError, ErrorKind};
use crate::git::worktree::{
    find_position, position_on_branch, worktree_views, WorktreeInfo, WorktreeStatus, WorktreeView,
};
use crate::package_manager::ProjectFiles;
use crate::process::{succeeded, CommandOutput};
use crate::text::trimmed;
use vstd::prelude::*;

verus! {

/// The branch to switch to: the given name without the white space around
/// it. Fails where there is no repository, or where the name is empty.
pub fn run(branch: &str, repository: Option<&CommandOutput>) -> (r: Result<String, DevError>)
    ensures
        match r {
            Ok(name) => succeeded(repository) && name@ == trimmed(branch@) && name@.len() > 0,
            Err(e) => if !succeeded(repository) {
                e@.0 == ErrorKind::NotGitRepository
            } else {
                trimmed(branch@).len() == 0 && e@ == (
                    ErrorKind::Other,
                    "Branch name is required"@,
                )
            },
        },
{
    checked_branch(branch, repository)
}

/// The worktree of `branch`: the first record on that branch. Where there
/// is none the command ends with `WorktreeNotFound`.
pub fn target<'a>(worktrees: &'a Vec<WorktreeInfo>, branch: &str) -> (r: Result<
    &'a WorktreeInfo,
    DevError,
>)
    ensures
        match r {
            Ok(w) => {
                let i = position_on_branch(worktree_views(worktrees@), branch@);
                0 <= i < worktrees@.len() && *w == worktrees@[i]
            },
            Err(e) => {
                &&& position_on_branch(worktree_views(worktrees@), branch@) == worktrees@.len()
                &&& e@ == (ErrorKind::WorktreeNotFound, branch@)
            },
        },
{
    let i = find_position(worktrees, branch);
    if i < worktrees.len() {
        Ok(&worktrees[i])
    } else {
        Err(DevError::WorktreeNotFound(branch.to_owned()))
    }
}

/// A branch that the user can switch to.
#[derive(Debug, Clone, PartialEq, Eq)]
pub struct BranchEntry {
    pub name: String,
    /// Whether its worktree holds the working directory.
    pub is_current: bool,
}

/// The branches that can be switched to, from the first `n` records: the
/// branch of every record that is neither bare nor detached, in order.
pub open spec fn switchable(ws: Seq<WorktreeView>, n: int) -> Seq<(Seq<char>, bool)>
    decreases n,
{
    if n <= 0 || n > ws.len() {
        Seq::empty()
    } else if ws[n - 1].tracks_branch() {
        switchable(ws, n - 1).push((ws[n - 1].branch->0, ws[n - 1].is_current))
    } else {
        switchable(ws, n - 1)
    }
}

/// The entries of a list as plain values.
pub open spec fn entry_views(v: Seq<BranchEntry>) -> Seq<(Seq<char>, bool)> {
    Seq::new(v.len(), |i: int| (v[i].name@, v[i].is_current))
}

/// The branches that the user can switch to, shown where the wanted one
/// has no worktree.
pub fn available_branches(worktrees: &Vec<WorktreeInfo>) -> (r: Vec<BranchEntry>)
    ensures
        entry_views(r@) == switchable(worktree_views(worktrees@), worktrees@.len() as int),
{
    let ghost ws = worktree_views(worktrees@);
    let mut r: Vec<BranchEntry> = Vec::new();
    let mut i: usize = 0;
    while i < worktrees.len()
        invariant
            i <= worktrees@.len(),
            ws == worktree_views(worktrees@),
            entry_views(r@) == switchable(ws, i as int),
        decreases worktrees@.len() - i,
    {
        let w = &worktrees[i];
        assert(ws[i as int] == w@);
        if !w.is_bare && !w.is_detached {
            match &w.branch {
                Some(b) => {
                    let entry = BranchEntry { name: b.clone(), is_current: w.is_current };
                    assert(entry_views(r@.push(entry)) =~= entry_views(r@).push(
                        (b@, w.is_current),
                    ));
                    r.push(entry);
                },
                None => {},
            }
        }
        i += 1;
    }
    r
}

/// What switching to a worktree comes to.
#[derive(Debug, Clone, Copy, PartialEq, Eq, Structural)]
pub enum SwitchPlan {
    /// The working directory is in that worktree already.
    AlreadyThere,
    /// The worktree is opened, after its dependencies were installed
    /// where they are missing.
    Open { install_dependencies: bool },
}

/// Decides what switching to `worktree` comes to, given whether its
/// directory exists and which files it holds. The current worktree needs
/// nothing; a worktree whose directory is gone ends the command with
/// `WorktreePathMissing`; any other is opened, and its dependencies are
/// installed first where it has no `node_modules`.
pub fn plan(worktree: &WorktreeInfo, path_exists: bool, files: &ProjectFiles) -> (r: Result<
    SwitchPlan,
    DevError,
>)
    ensures
        match r {
            Ok(p) => if worktree.is_current {
                p == SwitchPlan::AlreadyThere
            } else {
                path_exists && p == (SwitchPlan::Open {
                    install_dependencies: !files.node_modules,
                })
            },
            Err(e) => {
                &&& !worktree.is_current
                &&& !path_exists
                &&& e@ == (ErrorKind::WorktreePathMissing, worktree.path@)
            },
        },
{
    if worktree.is_current {
        return Ok(SwitchPlan::AlreadyThere);
    }
    if !path_exists {
        return Err(DevError::WorktreePathMissing(worktree.path.clone()));
    }
    Ok(SwitchPlan::Open { install_dependencies: !files.node_modules })
}

/// Whether the status is worth a line of its own after a switch: any
/// status but clean is.
pub fn shows_status(status: &WorktreeStatus) -> (r: bool)
    ensures
        r == (*status != WorktreeStatus::Clean),
{
    match status {
        WorktreeStatus::Clean => false,
        _ => true,
    }
}

} // verus!
