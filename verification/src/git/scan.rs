//! The inventory: the listed worktrees, each with its status.
//!
//! The status of a worktree takes up to two probes. A scan holds the
//! listed worktrees and goes through those whose status can be determined,
//! one probe at a time: it names the probe to run, takes in what the probe
//! reported, and moves on.
use crate::error::{DevError, ErrorKind};
use crate::git::listing::{parse_worktree_list, parsed_worktrees};
use crate::git::status::{
    ahead_behind, changes_command, counts_command, get_ahead_behind_status,
    has_uncommitted_changes, shows_changes, upstream_range, worktree_status,
};
use crate::git::worktree::{worktree_views, WorktreeInfo, WorktreeStatus, WorktreeView};
use crate::process::{
    git, optional_str, strings3, succeeded, CommandLine, CommandLineView, CommandOutput,
};
use vstd::prelude::*;

verus! {

/// Sets the status of one record of a list.
fn set_status(list: &mut Vec<WorktreeInfo>, i: usize, status: WorktreeStatus)
    requires
        i < old(list)@.len(),
    ensures
        worktree_views(final(list)@) == worktree_views(old(list)@).update(
            i as int,
            old(list)@[i as int]@.with_status(status),
        ),
{
    list[i].status = status;
    assert(worktree_views(list@) =~= worktree_views(old(list)@).update(
        i as int,
        old(list)@[i as int]@.with_status(status),
    ));
}

/// The position of the first record at or after `from` whose status can be
/// determined, or the number of records if there is none.
pub open spec fn next_tracked(ws: Seq<WorktreeView>, from: int) -> int
    decreases ws.len() - from,
{
    if from < 0 || from >= ws.len() {
        ws.len() as int
    } else if ws[from].tracks_branch() {
        from
    } else {
        next_tracked(ws, from + 1)
    }
}

/// `next_tracked` lies between `from` and the end, at a record that tracks
/// a branch unless it is the end.
pub proof fn lemma_next_tracked(ws: Seq<WorktreeView>, from: int)
    requires
        0 <= from <= ws.len(),
    ensures
        from <= next_tracked(ws, from) <= ws.len(),
        next_tracked(ws, from) < ws.len() ==> ws[next_tracked(ws, from)].tracks_branch(),
        forall|k: int| from <= k < next_tracked(ws, from) ==> !(#[trigger] ws[k]).tracks_branch(),
    decreases ws.len() - from,
{
    if from < ws.len() && !ws[from].tracks_branch() {
        lemma_next_tracked(ws, from + 1);
    }
}

/// The list of the repository's worktrees while their statuses are being
/// determined, one worktree after another.
///
/// The records before `cursor` are final. The record at `cursor` is the
/// next one whose status can be determined; `changes_seen` says that its
/// working tree was already found free of uncommitted changes, so that
/// only the commit counts are still wanted.
#[derive(Debug, Clone, PartialEq, Eq)]
pub struct WorktreeScan {
    pub worktrees: Vec<WorktreeInfo>,
    pub cursor: usize,
    pub changes_seen: bool,
}

/// A scan as plain values.
pub struct ScanView {
    pub worktrees: Seq<WorktreeView>,
    pub cursor: int,
    pub changes_seen: bool,
}

impl View for WorktreeScan {
    type V = ScanView;

    open spec fn view(&self) -> ScanView {
        ScanView {
            worktrees: worktree_views(self.worktrees@),
            cursor: self.cursor as int,
            changes_seen: self.changes_seen,
        }
    }
}

impl ScanView {
    /// The invariant of a scan: every record is consistent, the cursor
    /// stands at a record that tracks a branch or at the end, and nothing
    /// from the cursor on has a status yet.
    pub open spec fn wf(self) -> bool {
        &&& 0 <= self.cursor <= self.worktrees.len()
        &&& forall|i: int|
            0 <= i < self.worktrees.len() ==> (#[trigger] self.worktrees[i]).consistent()
        &&& self.cursor < self.worktrees.len() ==> self.worktrees[self.cursor].tracks_branch()
        &&& forall|i: int|
            self.cursor <= i < self.worktrees.len() ==> (#[trigger] self.worktrees[i]).status
                == WorktreeStatus::Unknown
        &&& self.cursor == self.worktrees.len() ==> !self.changes_seen
    }

    /// Whether every status that can be determined has been.
    pub open spec fn finished(self) -> bool {
        self.cursor >= self.worktrees.len()
    }

    /// The probe that the scan waits for, if it is not finished: first the
    /// working tree's changes, then the commit counts against the remote.
    pub open spec fn pending(self) -> Option<CommandLineView> {
        if self.finished() {
            None
        } else {
            let w = self.worktrees[self.cursor];
            if !self.changes_seen {
                Some(git(seq!["status"@, "--porcelain"@], Some(w.path)))
            } else {
                Some(
                    git(
                        seq![
                            "rev-list"@,
                            "--left-right"@,
                            "--count"@,
                            upstream_range(w.branch->0),
                        ],
                        Some(w.path),
                    ),
                )
            }
        }
    }

    /// The scan with the record at the cursor given its status and the
    /// cursor moved on.
    pub open spec fn settle(self, status: WorktreeStatus) -> ScanView {
        ScanView {
            worktrees: self.worktrees.update(
                self.cursor,
                self.worktrees[self.cursor].with_status(status),
            ),
            cursor: next_tracked(self.worktrees, self.cursor + 1),
            changes_seen: false,
        }
    }

    /// The scan after the pending probe came back with `result` (`None`:
    /// the program could not be run). Uncommitted changes settle the record
    /// as `Modified` without a look at the counts; a clean working tree
    /// makes the counts the pending probe; the counts settle the record.
    /// A finished scan stays as it is.
    pub open spec fn after_probe(self, result: Option<&CommandOutput>) -> ScanView {
        if self.finished() {
            self
        } else if !self.changes_seen {
            if shows_changes(result) {
                self.settle(WorktreeStatus::Modified)
            } else {
                ScanView { changes_seen: true, ..self }
            }
        } else {
            self.settle(ahead_behind(result))
        }
    }
}

/// A probe keeps the invariant of the scan, the number of records and
/// everything about them but the status of the record at the cursor.
pub proof fn lemma_probe_keeps_scan(s: ScanView, result: Option<&CommandOutput>)
    requires
        s.wf(),
    ensures
        s.after_probe(result).wf(),
        s.after_probe(result).worktrees.len() == s.worktrees.len(),
        forall|i: int|
            0 <= i < s.worktrees.len() ==> (#[trigger] s.after_probe(result).worktrees[i])
                == s.worktrees[i].with_status(s.after_probe(result).worktrees[i].status),
        forall|i: int|
            0 <= i < s.worktrees.len() && i != s.cursor ==> (#[trigger] s.after_probe(
                result,
            ).worktrees[i]) == s.worktrees[i],
        s.after_probe(result).cursor >= s.cursor,
{
    if !s.finished() {
        lemma_next_tracked(s.worktrees, s.cursor + 1);
    }
}

/// Whatever probes a scan has taken in, a record that is bare or detached
/// has status `Unknown`.
pub proof fn lemma_untracked_stay_unknown(s: ScanView, i: int)
    requires
        s.wf(),
        0 <= i < s.worktrees.len(),
        s.worktrees[i].is_bare || s.worktrees[i].is_detached,
    ensures
        s.worktrees[i].status == WorktreeStatus::Unknown,
{
    assert(s.worktrees[i].consistent());
}

/// The two probes of one worktree, taken together, give it the status that
/// `worktree_status` states, and the counts are asked for only where the
/// working tree is clean.
pub proof fn lemma_scan_classifies(
    s: ScanView,
    changes: Option<&CommandOutput>,
    counts: Option<&CommandOutput>,
)
    requires
        s.wf(),
        !s.finished(),
        !s.changes_seen,
    ensures
        ({
            let first = s.after_probe(changes);
            let last = if first.changes_seen {
                first.after_probe(counts)
            } else {
                first
            };
            &&& first.changes_seen == !shows_changes(changes)
            &&& last.worktrees[s.cursor] == s.worktrees[s.cursor].with_status(
                worktree_status(changes, counts),
            )
            &&& last.cursor == next_tracked(s.worktrees, s.cursor + 1)
            &&& !last.changes_seen
        }),
{
    lemma_next_tracked(s.worktrees, s.cursor + 1);
}

/// A probe's report as the scan takes it in.
pub open spec fn reported(report: &Option<CommandOutput>) -> Option<&CommandOutput> {
    match report {
        Some(out) => Some(out),
        None => None,
    }
}

/// The scan carried to its end, where `changes(i)` and `counts(i)` are what
/// the two probes of the worktree at `i` report whenever they are run.
pub open spec fn completed(
    s: ScanView,
    changes: spec_fn(int) -> Option<CommandOutput>,
    counts: spec_fn(int) -> Option<CommandOutput>,
) -> ScanView
    decreases
            s.worktrees.len() - s.cursor,
            if s.changes_seen {
                0int
            } else {
                1int
            },
    when s.wf()
    via completed_decreases
{
    if s.finished() {
        s
    } else if !s.changes_seen {
        completed(s.after_probe(reported(&changes(s.cursor))), changes, counts)
    } else {
        completed(s.after_probe(reported(&counts(s.cursor))), changes, counts)
    }
}

#[via_fn]
proof fn completed_decreases(
    s: ScanView,
    changes: spec_fn(int) -> Option<CommandOutput>,
    counts: spec_fn(int) -> Option<CommandOutput>,
) {
    if !s.finished() {
        lemma_next_tracked(s.worktrees, s.cursor + 1);
    }
}

/// What a scan comes to: every worktree whose status can be determined
/// has the status that its two probes give, uncommitted changes first; all
/// else about the records is as the listing gave it. Records that the scan
/// had already passed stay as they were.
pub proof fn lemma_scan_completes(
    s: ScanView,
    changes: spec_fn(int) -> Option<CommandOutput>,
    counts: spec_fn(int) -> Option<CommandOutput>,
)
    requires
        s.wf(),
    ensures
        ({
            let end = completed(s, changes, counts);
            &&& end.wf()
            &&& end.finished()
            &&& end.worktrees.len() == s.worktrees.len()
            &&& forall|i: int|
                0 <= i < s.worktrees.len() ==> #[trigger] end.worktrees[i] == if i < s.cursor {
                    s.worktrees[i]
                } else if i == s.cursor && s.changes_seen {
                    s.worktrees[i].with_status(ahead_behind(reported(&counts(i))))
                } else if s.worktrees[i].tracks_branch() {
                    s.worktrees[i].with_status(
                        worktree_status(reported(&changes(i)), reported(&counts(i))),
                    )
                } else {
                    s.worktrees[i]
                }
        }),
    decreases
            s.worktrees.len() - s.cursor,
            if s.changes_seen {
                0int
            } else {
                1int
            },
{
    if !s.finished() {
        lemma_next_tracked(s.worktrees, s.cursor + 1);
        let answer = if !s.changes_seen {
            reported(&changes(s.cursor))
        } else {
            reported(&counts(s.cursor))
        };
        let next = s.after_probe(answer);
        lemma_probe_keeps_scan(s, answer);
        lemma_scan_completes(next, changes, counts);
        let end = completed(s, changes, counts);
        assert(end == completed(next, changes, counts));
        assert forall|i: int| 0 <= i < s.worktrees.len() implies #[trigger] end.worktrees[i]
            == if i < s.cursor {
            s.worktrees[i]
        } else if i == s.cursor && s.changes_seen {
            s.worktrees[i].with_status(ahead_behind(reported(&counts(i))))
        } else if s.worktrees[i].tracks_branch() {
            s.worktrees[i].with_status(worktree_status(reported(&changes(i)), reported(&counts(i))))
        } else {
            s.worktrees[i]
        } by {
            assert(next.worktrees[i] == if i == s.cursor {
                s.worktrees[i].with_status(next.worktrees[i].status)
            } else {
                s.worktrees[i]
            });
            if i > s.cursor && i < next.cursor {
                assert(!s.worktrees[i].tracks_branch());
            }
        }
    }
}

/// The inventory of a listing: the parsed records, where each worktree on
/// a branch that is neither bare nor detached has the status that its two
/// probes give, and every other record has status `Unknown`.
pub proof fn lemma_inventory(
    s: ScanView,
    changes: spec_fn(int) -> Option<CommandOutput>,
    counts: spec_fn(int) -> Option<CommandOutput>,
)
    requires
        s.wf(),
        s.cursor == next_tracked(s.worktrees, 0),
        !s.changes_seen,
        forall|i: int| 0 <= i < s.worktrees.len() ==> (#[trigger] s.worktrees[i]).status
            == WorktreeStatus::Unknown,
    ensures
        forall|i: int|
            0 <= i < s.worktrees.len() ==> #[trigger] completed(s, changes, counts).worktrees[i]
                == if s.worktrees[i].tracks_branch() {
                s.worktrees[i].with_status(
                    worktree_status(reported(&changes(i)), reported(&counts(i))),
                )
            } else {
                s.worktrees[i].with_status(WorktreeStatus::Unknown)
            },
{
    lemma_scan_completes(s, changes, counts);
    lemma_next_tracked(s.worktrees, 0);
}

/// The command that lists the repository's worktrees.
pub fn list_worktrees_command() -> (c: CommandLine)
    ensures
        c@ == git(seq!["worktree"@, "list"@, "--porcelain"@], None),
{
    CommandLine::git(strings3("worktree", "list", "--porcelain"), None)
}

/// The position of the first record at or after `from` whose status can be
/// determined.
fn find_tracked(list: &Vec<WorktreeInfo>, from: usize) -> (r: usize)
    requires
        from <= list@.len(),
    ensures
        r == next_tracked(worktree_views(list@), from as int),
        from <= r <= list@.len(),
{
    let mut i: usize = from;
    while i < list.len() && !list[i].tracks_branch()
        invariant
            from <= i <= list@.len(),
            next_tracked(worktree_views(list@), from as int) == next_tracked(
                worktree_views(list@),
                i as int,
            ),
        decreases list@.len() - i,
    {
        i += 1;
    }
    i
}

/// Starts the inventory from what the listing command reported; `None`
/// where the command could not be run.
///
/// A listing that could not be had, because the command could not be run
/// or because it failed, means that the caller is not inside a repository:
/// that is the one failure. Otherwise the listing is parsed and the scan
/// stands at the first worktree whose status can be determined.
pub fn list_worktrees(listing: Option<&CommandOutput>, current_dir: Option<&str>) -> (r: Result<
    WorktreeScan,
    DevError,
>)
    ensures
        match r {
            Ok(scan) => {
                &&& succeeded(listing)
                &&& scan@.wf()
                &&& scan@.worktrees == parsed_worktrees(
                    listing->0.stdout@,
                    optional_str(current_dir),
                )
                &&& scan@.cursor == next_tracked(scan@.worktrees, 0)
                &&& !scan@.changes_seen
            },
            Err(e) => !succeeded(listing) && e@.0 == ErrorKind::NotGitRepository,
        },
{
    let output = match listing {
        Some(output) => output,
        None => {
            return Err(DevError::NotGitRepository);
        },
    };
    if !output.success {
        return Err(DevError::NotGitRepository);
    }
    let worktrees = parse_worktree_list(output.stdout.as_str(), current_dir);
    let cursor = find_tracked(&worktrees, 0);
    proof {
        lemma_next_tracked(worktree_views(worktrees@), 0);
    }
    Ok(WorktreeScan { worktrees, cursor, changes_seen: false })
}

impl WorktreeScan {
    /// Whether every status that can be determined has been.
    pub fn is_finished(&self) -> (r: bool)
        ensures
            r == self@.finished(),
    {
        self.cursor >= self.worktrees.len()
    }

    /// The probe to run next, or `None` when the scan is finished.
    pub fn next_command(&self) -> (r: Option<CommandLine>)
        requires
            self@.wf(),
        ensures
            match r {
                Some(c) => self@.pending() == Some(c@),
                None => self@.pending() is None,
            },
    {
        if self.cursor >= self.worktrees.len() {
            return None;
        }
        let w = &self.worktrees[self.cursor];
        assert(w@ == self@.worktrees[self@.cursor]);
        if !self.changes_seen {
            Some(changes_command(w.path.as_str()))
        } else {
            match &w.branch {
                Some(branch) => Some(counts_command(w.path.as_str(), branch.as_str())),
                None => None,
            }
        }
    }

    /// Takes in what the pending probe reported; `None` where the program
    /// could not be run.
    pub fn record(&mut self, result: Option<&CommandOutput>)
        requires
            old(self)@.wf(),
        ensures
            final(self)@ == old(self)@.after_probe(result),
            final(self)@.wf(),
    {
        proof {
            lemma_probe_keeps_scan(self@, result);
        }
        if self.cursor >= self.worktrees.len() {
            return ;
        }
        let status = if !self.changes_seen {
            if has_uncommitted_changes(result) {
                WorktreeStatus::Modified
            } else {
                self.changes_seen = true;
                return ;
            }
        } else {
            get_ahead_behind_status(result)
        };
        let next = find_tracked(&self.worktrees, self.cursor + 1);
        set_status(&mut self.worktrees, self.cursor, status);
        self.cursor = next;
        self.changes_seen = false;
    }

    /// The inventory as it stands. Once the scan is finished every record
    /// has its final status.
    pub fn finish(self) -> (r: Vec<WorktreeInfo>)
        ensures
            worktree_views(r@) == self@.worktrees,
            self@.wf() ==> forall|i: int|
                0 <= i < r@.len() && ((#[trigger] r@[i]).is_bare || r@[i].is_detached)
                    ==> r@[i].status == WorktreeStatus::Unknown,
    {
        proof {
            if self@.wf() {
                assert forall|i: int|
                    0 <= i < self.worktrees@.len() && ((#[trigger] self.worktrees@[i]).is_bare
                        || self.worktrees@[i].is_detached) implies self.worktrees@[i].status
                    == WorktreeStatus::Unknown by {
                    lemma_untracked_stay_unknown(self@, i);
                }
            }
        }
        self.worktrees
    }
}

} // verus!
