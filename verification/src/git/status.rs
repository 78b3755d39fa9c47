//! How a worktree stands against the branch of the same name on `origin`.
//!
//! Two probes feed the classification: the short status of the working tree,
//! and the count of commits on either side of `origin/<branch>...HEAD`, which
//! git writes as `<behind>`, a tab and `<ahead>`.
use crate::git::worktree::WorktreeStatus;
use crate::process::{strings2, strings4, succeeded, CommandLine, CommandOutput, git};
use crate::text::{concat3, parse_count, parsed_count, pieces, split, to_chars, trim, trimmed};
use vstd::prelude::*;

verus! {

/// Whether the status probe shows uncommitted changes: it succeeded and
/// wrote something other than white space.
pub open spec fn shows_changes(probe: Option<&CommandOutput>) -> bool {
    match probe {
        Some(out) => out.success && trimmed(out.stdout@).len() > 0,
        None => false,
    }
}

/// The status for given numbers of commits ahead of and behind the remote.
pub open spec fn status_for(ahead: usize, behind: usize) -> WorktreeStatus {
    if ahead == 0 && behind == 0 {
        WorktreeStatus::Clean
    } else if behind == 0 {
        WorktreeStatus::Ahead(ahead)
    } else if ahead == 0 {
        WorktreeStatus::Behind(behind)
    } else {
        WorktreeStatus::Diverged { ahead, behind }
    }
}

/// The status that a count text stands for: that of the two counts, where
/// the text, without the white space around it, is two tab-separated
/// fields and each is a number that fits a `usize`. Any other text reads as
/// clean.
pub open spec fn status_of_counts(text: Seq<char>) -> WorktreeStatus {
    let parts = pieces(trimmed(text), '\t');
    if parts.len() == 2 {
        match (parsed_count(parts[1]), parsed_count(parts[0])) {
            (Some(ahead), Some(behind)) => status_for(ahead as usize, behind as usize),
            _ => WorktreeStatus::Clean,
        }
    } else {
        WorktreeStatus::Clean
    }
}

/// The status that the count probe stands for. A probe that could not run
/// or failed (no such remote branch) reads as clean, and so does one whose
/// output is no pair of counts.
pub open spec fn ahead_behind(probe: Option<&CommandOutput>) -> WorktreeStatus {
    match probe {
        Some(out) => if out.success {
            status_of_counts(out.stdout@)
        } else {
            WorktreeStatus::Clean
        },
        None => WorktreeStatus::Clean,
    }
}

/// The status of a worktree given both probes: uncommitted changes come
/// first, whatever the counts say.
pub open spec fn worktree_status(
    changes: Option<&CommandOutput>,
    counts: Option<&CommandOutput>,
) -> WorktreeStatus {
    if shows_changes(changes) {
        WorktreeStatus::Modified
    } else {
        ahead_behind(counts)
    }
}

/// The revision range whose two sides are counted.
pub open spec fn upstream_range(branch: Seq<char>) -> Seq<char> {
    "origin/"@ + branch + "...HEAD"@
}

/// The probe for uncommitted changes in the worktree at `worktree_path`.
pub fn changes_command(worktree_path: &str) -> (c: CommandLine)
    ensures
        c@ == git(seq!["status"@, "--porcelain"@], Some(worktree_path@)),
{
    CommandLine::git(strings2("status", "--porcelain"), Some(worktree_path.to_owned()))
}

/// The probe that counts the commits on either side of the remote branch.
pub fn counts_command(worktree_path: &str, branch: &str) -> (c: CommandLine)
    ensures
        c@ == git(
            seq!["rev-list"@, "--left-right"@, "--count"@, upstream_range(branch@)],
            Some(worktree_path@),
        ),
{
    let range = concat3("origin/", branch, "...HEAD");
    CommandLine::git(
        strings4("rev-list", "--left-right", "--count", range.as_str()),
        Some(worktree_path.to_owned()),
    )
}

/// Whether the status probe shows uncommitted changes.
pub fn has_uncommitted_changes(probe: Option<&CommandOutput>) -> (r: bool)
    ensures
        r == shows_changes(probe),
{
    match probe {
        Some(out) => {
            if !out.success {
                return false;
            }
            let text = to_chars(out.stdout.as_str());
            trim(text.as_slice()).len() > 0
        },
        None => false,
    }
}

/// The status for given numbers of commits ahead of and behind the remote.
pub fn classify(ahead: usize, behind: usize) -> (s: WorktreeStatus)
    ensures
        s == status_for(ahead, behind),
{
    if ahead == 0 && behind == 0 {
        WorktreeStatus::Clean
    } else if behind == 0 {
        WorktreeStatus::Ahead(ahead)
    } else if ahead == 0 {
        WorktreeStatus::Behind(behind)
    } else {
        WorktreeStatus::Diverged { ahead, behind }
    }
}

/// The status that the count probe stands for.
pub fn get_ahead_behind_status(probe: Option<&CommandOutput>) -> (s: WorktreeStatus)
    ensures
        s == ahead_behind(probe),
{
    match probe {
        Some(out) => {
            if !out.success {
                return WorktreeStatus::Clean;
            }
            let text = to_chars(out.stdout.as_str());
            let parts = split(trim(text.as_slice()), '\t');
            if parts.len() != 2 {
                return WorktreeStatus::Clean;
            }
            match parse_count(parts[0].as_slice()) {
                Some(behind) => match parse_count(parts[1].as_slice()) {
                    Some(ahead) => classify(ahead, behind),
                    None => WorktreeStatus::Clean,
                },
                None => WorktreeStatus::Clean,
            }
        },
        None => WorktreeStatus::Clean,
    }
}

/// The status of a worktree given both probes. Uncommitted changes give
/// `Modified` whatever the counts say; otherwise the counts decide.
pub fn get_worktree_status(
    changes: Option<&CommandOutput>,
    counts: Option<&CommandOutput>,
) -> (s: WorktreeStatus)
    ensures
        s == worktree_status(changes, counts),
        shows_changes(changes) ==> s == WorktreeStatus::Modified,
{
    if has_uncommitted_changes(changes) {
        return WorktreeStatus::Modified;
    }
    get_ahead_behind_status(counts)
}

} // verus!
