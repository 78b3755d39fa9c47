//! Opening a registered project.
use crate::config::global::GlobalConfig;
use crate::config::project::ProjectConfig;
use crate::error::{DevError, ErrorKind};
use crate::git::worktree::{
    find_position, position_on_branch, worktree_views, WorktreeInfo, WorktreeView,
};
use crate::package_manager::{answered, ProjectFiles};
use crate::text::concat2;
use vstd::prelude::*;

verus! {

/// The error for a project that is not registered.
pub fn run(project_name: &str, registered: bool) -> (r: Result<(), DevError>)
    ensures
        match r {
            Ok(_) => registered,
            Err(e) => !registered && e@ == (ErrorKind::ProjectNotFound, project_name@),
        },
{
    if registered {
        Ok(())
    } else {
        Err(DevError::ProjectNotFound(project_name.to_owned()))
    }
}

/// The project's directory must exist.
pub fn require_directory(project: &ProjectConfig, path_exists: bool) -> (r: Result<(), DevError>)
    ensures
        match r {
            Ok(_) => path_exists,
            Err(e) => !path_exists && e@ == (
                ErrorKind::Other,
                "Project directory does not exist: "@ + project.path@,
            ),
        },
{
    if path_exists {
        Ok(())
    } else {
        Err(
            DevError::Other(
                concat2("Project directory does not exist: ", project.path.as_str()),
            ),
        )
    }
}

/// The position of the first record that is not bare, or the number of
/// records if all are.
pub open spec fn first_checkout(ws: Seq<WorktreeView>) -> int
    decreases ws.len(),
{
    if ws.len() == 0 || !ws[0].is_bare {
        0
    } else {
        1 + first_checkout(ws.skip(1))
    }
}

/// `first_checkout` is where the first record that is not bare stands.
pub proof fn lemma_first_checkout(ws: Seq<WorktreeView>, k: int)
    requires
        0 <= k <= ws.len(),
        forall|j: int| 0 <= j < k ==> (#[trigger] ws[j]).is_bare,
        k == ws.len() || !ws[k].is_bare,
    ensures
        first_checkout(ws) == k,
    decreases ws.len(),
{
    if ws.len() == 0 || !ws[0].is_bare {
    } else {
        let rest = ws.skip(1);
        assert forall|j: int| 0 <= j < k - 1 implies (#[trigger] rest[j]).is_bare by {
            assert(rest[j] == ws[j + 1]);
        }
        lemma_first_checkout(rest, k - 1);
    }
}

/// Whether the record at `i` can be opened: there is such a record and
/// its directory exists.
pub open spec fn usable(ws: Seq<WorktreeView>, exists: Seq<bool>, i: int) -> bool {
    0 <= i < ws.len() && answered(exists, i)
}

/// The directory to open for a project: the worktree on `main`, else the
/// one on `master`, else the first that is not bare, each only if its
/// directory exists; without any of these the project's root. `exists`
/// says for each record whether its directory exists; of the worktrees on
/// a branch only the first is looked at.
pub open spec fn main_worktree(ws: Seq<WorktreeView>, exists: Seq<bool>, root: Seq<char>) -> Seq<
    char,
> {
    let main = position_on_branch(ws, "main"@);
    let master = position_on_branch(ws, "master"@);
    let first = first_checkout(ws);
    if usable(ws, exists, main) {
        ws[main].path
    } else if usable(ws, exists, master) {
        ws[master].path
    } else if usable(ws, exists, first) {
        ws[first].path
    } else {
        root
    }
}

/// Where none of the worktrees exists on disk, the project's root is
/// opened.
pub proof fn lemma_main_worktree_fallback(
    ws: Seq<WorktreeView>,
    exists: Seq<bool>,
    root: Seq<char>,
)
    requires
        forall|i: int| 0 <= i < ws.len() ==> !answered(exists, i),
    ensures
        main_worktree(ws, exists, root) == root,
{
}

/// A worktree on `main` whose directory exists is opened whatever else
/// there is; without one, a worktree on `master` whose directory exists.
/// Of the worktrees on a branch the first counts.
pub proof fn lemma_main_worktree_preference(
    ws: Seq<WorktreeView>,
    exists: Seq<bool>,
    root: Seq<char>,
)
    ensures
        usable(ws, exists, position_on_branch(ws, "main"@)) ==> main_worktree(ws, exists, root)
            == ws[position_on_branch(ws, "main"@)].path,
        !usable(ws, exists, position_on_branch(ws, "main"@)) && usable(
            ws,
            exists,
            position_on_branch(ws, "master"@),
        ) ==> main_worktree(ws, exists, root) == ws[position_on_branch(ws, "master"@)].path,
        !usable(ws, exists, position_on_branch(ws, "main"@)) && !usable(
            ws,
            exists,
            position_on_branch(ws, "master"@),
        ) && usable(ws, exists, first_checkout(ws)) ==> main_worktree(ws, exists, root)
            == ws[first_checkout(ws)].path,
{
}

/// The position of the first record that is not bare.
fn find_checkout(worktrees: &Vec<WorktreeInfo>) -> (i: usize)
    ensures
        i == first_checkout(worktree_views(worktrees@)),
        i <= worktrees@.len(),
{
    let ghost ws = worktree_views(worktrees@);
    let mut i: usize = 0;
    while i < worktrees.len() && worktrees[i].is_bare
        invariant
            i <= worktrees@.len(),
            ws == worktree_views(worktrees@),
            forall|j: int| 0 <= j < i ==> (#[trigger] ws[j]).is_bare,
        decreases worktrees@.len() - i,
    {
        i += 1;
    }
    proof {
        lemma_first_checkout(ws, i as int);
    }
    i
}

/// The directory to open for a project, given the inventory of its
/// worktrees if there is one, and for each worktree whether its directory
/// exists. Without an inventory it is the project's root.
pub fn find_main_worktree(
    project: &ProjectConfig,
    worktrees: Option<&Vec<WorktreeInfo>>,
    exists: &Vec<bool>,
) -> (r: String)
    ensures
        r@ == match worktrees {
            Some(list) => main_worktree(worktree_views(list@), exists@, project.path@),
            None => project.path@,
        },
{
    let list = match worktrees {
        Some(list) => list,
        None => {
            return project.path.clone();
        },
    };
    let ghost ws = worktree_views(list@);
    let main = find_position(list, "main");
    if main < list.len() && main < exists.len() && exists[main] {
        assert(ws[main as int] == list@[main as int]@);
        return list[main].path.clone();
    }
    let master = find_position(list, "master");
    if master < list.len() && master < exists.len() && exists[master] {
        assert(ws[master as int] == list@[master as int]@);
        return list[master].path.clone();
    }
    let first = find_checkout(list);
    if first < list.len() && first < exists.len() && exists[first] {
        assert(ws[first as int] == list@[first as int]@);
        return list[first].path.clone();
    }
    project.path.clone()
}

/// Whether the user is pointed to the devbox shell after the project was
/// opened: the project uses devbox, the user wants the hint, and the
/// opened directory holds an environment file.
pub fn shows_devbox_hint(
    project: &ProjectConfig,
    config: &GlobalConfig,
    files: &ProjectFiles,
) -> (r: bool)
    ensures
        r == (project.uses_devbox && config.auto_devbox && files.devbox_json),
{
    project.uses_devbox && config.auto_devbox && files.devbox_json
}

} // verus!
