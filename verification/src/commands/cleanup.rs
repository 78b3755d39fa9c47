//! Removing worktrees that are of no use: those whose directory is gone
//! and those with a detached head.
use crate::commands::require_repository;
use crate::error::{DevError, ErrorKind};
use crate::git::worktree::{worktree_views, WorktreeInfo, WorktreeView};
use crate::package_manager::answered;
use crate::process::{succeeded, CommandOutput};
use vstd::prelude::*;

verus! {

/// Why a worktree is to be removed.
#[derive(Debug, Clone, Copy, PartialEq, Eq, Structural)]
pub enum Problem {
    /// Its directory does not exist.
    DirectoryMissing,
    /// Its head is detached.
    DetachedHead,
}

/// A worktree to be removed: its place in the inventory, and why.
#[derive(Debug, Clone, Copy, PartialEq, Eq, Structural)]
pub struct Finding {
    pub index: usize,
    pub problem: Problem,
}

/// What is wrong with a worktree, if anything. A missing directory is
/// named before a detached head.
pub open spec fn problem_of(w: WorktreeView, path_exists: bool) -> Option<Problem> {
    if !path_exists {
        Some(Problem::DirectoryMissing)
    } else if w.is_detached {
        Some(Problem::DetachedHead)
    } else {
        None
    }
}

/// The findings among the first `n` worktrees, in order. `exists` says
/// for each worktree whether its directory exists; a worktree without an
/// answer counts as missing.
pub open spec fn findings(ws: Seq<WorktreeView>, exists: Seq<bool>, n: int) -> Seq<Finding>
    decreases n,
{
    if n <= 0 || n > ws.len() {
        Seq::empty()
    } else {
        match problem_of(ws[n - 1], answered(exists, n - 1)) {
            Some(problem) => findings(ws, exists, n - 1).push(
                Finding { index: (n - 1) as usize, problem },
            ),
            None => findings(ws, exists, n - 1),
        }
    }
}

/// The first step: there must be a repository.
pub fn run(repository: Option<&CommandOutput>) -> (r: Result<(), DevError>)
    ensures
        match r {
            Ok(_) => succeeded(repository),
            Err(e) => !succeeded(repository) && e@.0 == ErrorKind::NotGitRepository,
        },
{
    require_repository(repository)
}

/// The worktrees to remove, in the order of the inventory, each with the
/// reason. `exists` says for each worktree whether its directory exists.
pub fn problematic(worktrees: &Vec<WorktreeInfo>, exists: &Vec<bool>) -> (r: Vec<Finding>)
    ensures
        r@ == findings(worktree_views(worktrees@), exists@, worktrees@.len() as int),
{
    let ghost ws = worktree_views(worktrees@);
    let mut r: Vec<Finding> = Vec::new();
    let mut i: usize = 0;
    while i < worktrees.len()
        invariant
            i <= worktrees@.len(),
            ws == worktree_views(worktrees@),
            r@ == findings(ws, exists@, i as int),
        decreases worktrees@.len() - i,
    {
        let w = &worktrees[i];
        assert(ws[i as int] == w@);
        let there = i < exists.len() && exists[i];
        if !there {
            r.push(Finding { index: i, problem: Problem::DirectoryMissing });
        } else if w.is_detached {
            r.push(Finding { index: i, problem: Problem::DetachedHead });
        }
        i += 1;
    }
    r
}

/// The name under which a worktree is listed for removal: its branch, or
/// `unknown` where it has none.
pub fn branch_label(worktree: &WorktreeInfo) -> (r: String)
    ensures
        r@ == match worktree@.branch {
            Some(b) => b,
            None => "unknown"@,
        },
{
    match &worktree.branch {
        Some(b) => b.clone(),
        None => "unknown".to_owned(),
    }
}

/// The number of `true` among the first `n` values.
pub open spec fn count_true(v: Seq<bool>, n: int) -> nat
    decreases n,
{
    if n <= 0 || n > v.len() {
        0
    } else {
        count_true(v, n - 1) + if v[n - 1] {
            1nat
        } else {
            0nat
        }
    }
}

/// How many removals worked and how many failed, given the outcome of
/// each.
pub fn tally(removed: &Vec<bool>) -> (r: (usize, usize))
    ensures
        r.0 == count_true(removed@, removed@.len() as int),
        r.0 + r.1 == removed@.len(),
{
    let mut cleaned: usize = 0;
    let mut failed: usize = 0;
    let mut i: usize = 0;
    while i < removed.len()
        invariant
            i <= removed@.len(),
            cleaned == count_true(removed@, i as int),
            cleaned + failed == i,
        decreases removed@.len() - i,
    {
        if removed[i] {
            cleaned += 1;
        } else {
            failed += 1;
        }
        i += 1;
    }
    (cleaned, failed)
}

} // verus!
