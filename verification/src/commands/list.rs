//! Listing the worktrees: one row for each, in columns.
use crate::commands::{abbreviated, require_repository, short_commit};
use crate::error::{DevError, ErrorKind};
use crate::git::worktree::{icon_of, label_of, worktree_views, WorktreeInfo, WorktreeView};
use crate::process::{succeeded, CommandOutput};
use crate::text::{to_chars, to_text};
use crate::ui::output::{status_icon, status_label, tone_of, Styled};
use vstd::prelude::*;
use vstd::string::*;

verus! {

/// The first step: there must be a repository.
pub fn run(repository: Option<&CommandOutput>) -> (r: Result<(), DevError>)
    ensures
        match r {
            Ok(_) => succeeded(repository),
            Err(e) => !succeeded(repository) && e@.0 == ErrorKind::NotGitRepository,
        },
{
    require_repository(repository)
}

/// The name shown for a worktree: its branch, or what it is instead of
/// being on one.
pub open spec fn shown_branch(w: WorktreeView) -> Seq<char> {
    match w.branch {
        Some(b) => b,
        None => if w.is_detached {
            "detached"@
        } else if w.is_bare {
            "bare"@
        } else {
            "unknown"@
        },
    }
}

/// The name shown for a worktree.
pub fn branch_label(worktree: &WorktreeInfo) -> (r: String)
    ensures
        r@ == shown_branch(worktree@),
{
    match &worktree.branch {
        Some(b) => b.clone(),
        None => if worktree.is_detached {
            "detached".to_owned()
        } else if worktree.is_bare {
            "bare".to_owned()
        } else {
            "unknown".to_owned()
        },
    }
}

/// The length of a text in bytes, as UTF-8.
pub open spec fn byte_len(s: Seq<char>) -> usize {
    vstd::utf8::encode_utf8(s).len() as usize
}

/// The width that a worktree asks of the branch column: the length of its
/// branch in bytes, or eight where it has none.
pub open spec fn branch_width(w: WorktreeView) -> usize {
    match w.branch {
        Some(b) => byte_len(b),
        None => 8,
    }
}

/// Whether `width` is the greatest of the widths that the worktrees ask
/// of a column, or `default` for an empty list.
pub open spec fn is_column_width(
    ws: Seq<WorktreeView>,
    asked: spec_fn(WorktreeView) -> usize,
    default: usize,
    width: usize,
) -> bool {
    if ws.len() == 0 {
        width == default
    } else {
        &&& forall|i: int| 0 <= i < ws.len() ==> asked(#[trigger] ws[i]) <= width
        &&& exists|i: int| 0 <= i < ws.len() && asked(#[trigger] ws[i]) == width
    }
}

/// The widths of the branch column and of the path column: room for the
/// longest branch and the longest path, counted in bytes. A worktree
/// without a branch asks for eight. An empty list gives eight and twenty.
pub fn column_widths(worktrees: &Vec<WorktreeInfo>) -> (r: (usize, usize))
    ensures
        is_column_width(
            worktree_views(worktrees@),
            |w: WorktreeView| branch_width(w),
            8,
            r.0,
        ),
        is_column_width(worktree_views(worktrees@), |w: WorktreeView| byte_len(w.path), 20, r.1),
{
    let ghost ws = worktree_views(worktrees@);
    let ghost by_branch = |w: WorktreeView| branch_width(w);
    let ghost by_path = |w: WorktreeView| byte_len(w.path);
    if worktrees.len() == 0 {
        return (8, 20);
    }
    let mut branch: usize = 0;
    let mut path: usize = 0;
    let mut i: usize = 0;
    while i < worktrees.len()
        invariant
            i <= worktrees@.len(),
            worktrees@.len() > 0,
            ws == worktree_views(worktrees@),
            by_branch == |w: WorktreeView| branch_width(w),
            by_path == |w: WorktreeView| byte_len(w.path),
            forall|k: int| 0 <= k < i ==> by_branch(#[trigger] ws[k]) <= branch,
            forall|k: int| 0 <= k < i ==> by_path(#[trigger] ws[k]) <= path,
            i == 0 ==> branch == 0 && path == 0,
            i > 0 ==> exists|k: int| 0 <= k < i && by_branch(#[trigger] ws[k]) == branch,
            i > 0 ==> exists|k: int| 0 <= k < i && by_path(#[trigger] ws[k]) == path,
        decreases worktrees@.len() - i,
    {
        let w = &worktrees[i];
        assert(ws[i as int] == w@);
        let b: usize = match &w.branch {
            Some(name) => name.as_str().len(),
            None => 8,
        };
        let p: usize = w.path.as_str().len();
        assert(b == by_branch(ws[i as int]));
        assert(p == by_path(ws[i as int]));
        if i == 0 || b > branch {
            branch = b;
        } else {
            let ghost k = choose|k: int| 0 <= k < i && by_branch(#[trigger] ws[k]) == branch;
            assert(0 <= k < i + 1 && by_branch(ws[k]) == branch);
        }
        if i == 0 || p > path {
            path = p;
        } else {
            let ghost k = choose|k: int| 0 <= k < i && by_path(#[trigger] ws[k]) == path;
            assert(0 <= k < i + 1 && by_path(ws[k]) == path);
        }
        i += 1;
    }
    (branch, path)
}

/// A text filled with spaces on the right up to `width` characters; a
/// text that is as long or longer stays as it is.
pub open spec fn padded(text: Seq<char>, width: usize) -> Seq<char> {
    if text.len() >= width {
        text
    } else {
        text + Seq::new((width - text.len()) as nat, |i: int| ' ')
    }
}

/// Fills a text with spaces on the right up to `width` characters.
pub fn pad(text: &str, width: usize) -> (r: String)
    ensures
        r@ == padded(text@, width),
{
    let mut out = to_chars(text);
    let n = out.len();
    if n >= width {
        return to_text(out.as_slice());
    }
    let mut i: usize = n;
    while i < width
        invariant
            n <= i <= width,
            n == text@.len(),
            out@ == text@ + Seq::new((i - n) as nat, |k: int| ' '),
        decreases width - i,
    {
        out.push(' ');
        assert(out@ =~= text@ + Seq::new((i + 1 - n) as nat, |k: int| ' '));
        i += 1;
    }
    to_text(out.as_slice())
}

/// One row of the list.
#[derive(Debug, Clone, PartialEq, Eq)]
pub struct ListRow {
    /// Whether the row is marked as the current worktree.
    pub is_current: bool,
    /// The branch column.
    pub branch: String,
    /// The path column.
    pub path: String,
    pub icon: Styled,
    pub label: Styled,
    /// The commit, abbreviated.
    pub commit: String,
}

/// Whether `row` shows the worktree `w` in columns of the given widths.
pub open spec fn shows(row: ListRow, w: WorktreeView, widths: (usize, usize)) -> bool {
    &&& row.is_current == w.is_current
    &&& row.branch@ == padded(shown_branch(w), widths.0)
    &&& row.path@ == padded(w.path, widths.1)
    &&& row.icon.text@ == icon_of(w.status)
    &&& row.icon.tone == tone_of(w.status)
    &&& row.label.text@ == label_of(w.status)
    &&& row.label.tone == tone_of(w.status)
    &&& row.commit@ == abbreviated(w.commit)
}

/// The row that shows a worktree in columns of the given widths.
pub fn row(worktree: &WorktreeInfo, widths: (usize, usize)) -> (r: ListRow)
    ensures
        shows(r, worktree@, widths),
{
    let name = branch_label(worktree);
    ListRow {
        is_current: worktree.is_current,
        branch: pad(name.as_str(), widths.0),
        path: pad(worktree.path.as_str(), widths.1),
        icon: status_icon(&worktree.status),
        label: status_label(&worktree.status),
        commit: short_commit(worktree.commit.as_str()),
    }
}

/// The rows of the list: one for each worktree, in order, in columns wide
/// enough for all.
pub fn rows(worktrees: &Vec<WorktreeInfo>) -> (r: Vec<ListRow>)
    ensures
        r@.len() == worktrees@.len(),
        exists|widths: (usize, usize)|
            {
                &&& is_column_width(
                    worktree_views(worktrees@),
                    |w: WorktreeView| branch_width(w),
                    8,
                    widths.0,
                )
                &&& is_column_width(
                    worktree_views(worktrees@),
                    |w: WorktreeView| byte_len(w.path),
                    20,
                    widths.1,
                )
                &&& forall|i: int|
                    0 <= i < r@.len() ==> shows(#[trigger] r@[i], worktrees@[i]@, widths)
            },
{
    let widths = column_widths(worktrees);
    let mut r: Vec<ListRow> = Vec::new();
    let mut i: usize = 0;
    while i < worktrees.len()
        invariant
            i <= worktrees@.len(),
            r@.len() == i,
            forall|k: int| 0 <= k < i ==> shows(#[trigger] r@[k], worktrees@[k]@, widths),
        decreases worktrees@.len() - i,
    {
        r.push(row(&worktrees[i], widths));
        i += 1;
    }
    r
}

} // verus!
