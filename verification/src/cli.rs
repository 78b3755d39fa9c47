//! The command line, once parsed, and what it asks for.
use crate::config::project::ProjectConfig;
use crate::path::{nested_under, starts_with};
use vstd::prelude::*;

verus! {

/// The parsed command line.
#[derive(Debug, Clone, PartialEq, Eq)]
pub struct Cli {
    pub command: Option<Commands>,
    /// The name of a project or of a branch.
    pub target: Option<String>,
    /// List all worktrees with their status.
    pub list: bool,
    /// Create a branch and a worktree for it.
    pub create: Option<String>,
    /// Remove unused worktrees.
    pub cleanup: bool,
    /// Write the shell completion script.
    pub completion: bool,
}

/// The subcommands.
#[derive(Debug, Clone, PartialEq, Eq)]
pub enum Commands {
    /// Initialise a new project.
    Init { name: Option<String>, clone: Option<String>, existing: Option<String>, no_devbox: bool },
    /// List the registered projects.
    Projects,
    /// Show or change the settings.
    Config { set: Option<String>, get: Option<String> },
}

/// What a command line asks the tool to do.
#[derive(Debug, Clone, PartialEq, Eq)]
pub enum Invocation {
    List,
    Create(String),
    Cleanup,
    Completion,
    Run(Commands),
    Target(String),
    Help,
}

/// What a command line asks for. The flags come first, in the order list,
/// create, clean up, completion; then a subcommand; then a target; a
/// command line with none of these asks for help.
pub open spec fn invocation_of(cli: Cli) -> Invocation {
    if cli.list {
        Invocation::List
    } else if cli.create is Some {
        Invocation::Create(cli.create->0)
    } else if cli.cleanup {
        Invocation::Cleanup
    } else if cli.completion {
        Invocation::Completion
    } else if cli.command is Some {
        Invocation::Run(cli.command->0)
    } else if cli.target is Some {
        Invocation::Target(cli.target->0)
    } else {
        Invocation::Help
    }
}

/// What the command line asks for.
pub fn run(cli: Cli) -> (r: Invocation)
    ensures
        r == invocation_of(cli),
{
    if cli.list {
        return Invocation::List;
    }
    if let Some(branch) = cli.create {
        return Invocation::Create(branch);
    }
    if cli.cleanup {
        return Invocation::Cleanup;
    }
    if cli.completion {
        return Invocation::Completion;
    }
    if let Some(command) = cli.command {
        return Invocation::Run(command);
    }
    if let Some(target) = cli.target {
        return Invocation::Target(target);
    }
    Invocation::Help
}

/// Where the tool was started.
#[derive(Debug, Clone, PartialEq, Eq)]
pub enum Context {
    /// In the directory of the registered project of that name.
    Project(String),
    /// In a repository that is no registered project.
    GitRepo,
    /// Anywhere else.
    Global,
}

/// What a target names.
#[derive(Debug, Clone, Copy, PartialEq, Eq, Structural)]
pub enum TargetKind {
    /// A branch to switch to.
    Branch,
    /// A project to open.
    Project,
}

/// The position of the first project in which `dir` lies, or the number
/// of projects if it lies in none.
pub open spec fn enclosing_project(projects: Seq<ProjectConfig>, dir: Seq<char>) -> int
    decreases projects.len(),
{
    if projects.len() == 0 || nested_under(dir, projects[0].path@) {
        0
    } else {
        1 + enclosing_project(projects.skip(1), dir)
    }
}

/// `enclosing_project` is where the first project that holds `dir` stands.
pub proof fn lemma_enclosing_project(projects: Seq<ProjectConfig>, dir: Seq<char>, k: int)
    requires
        0 <= k <= projects.len(),
        forall|j: int| 0 <= j < k ==> !nested_under(dir, (#[trigger] projects[j]).path@),
        k == projects.len() || nested_under(dir, projects[k].path@),
    ensures
        enclosing_project(projects, dir) == k,
    decreases projects.len(),
{
    if projects.len() == 0 || nested_under(dir, projects[0].path@) {
    } else {
        let rest = projects.skip(1);
        assert forall|j: int| 0 <= j < k - 1 implies !nested_under(
            dir,
            (#[trigger] rest[j]).path@,
        ) by {
            assert(rest[j] == projects[j + 1]);
        }
        lemma_enclosing_project(rest, dir, k - 1);
    }
}

/// Where the tool was started, given the working directory if it is
/// known, the registered projects and whether the directory lies in a
/// repository: in the first registered project that holds the directory;
/// else in a repository; else nowhere in particular. An unknown working
/// directory is nowhere in particular.
pub fn detect_context(
    current_dir: Option<&str>,
    projects: &Vec<ProjectConfig>,
    in_repository: bool,
) -> (r: Context)
    ensures
        match current_dir {
            None => r == Context::Global,
            Some(dir) => {
                let i = enclosing_project(projects@, dir@);
                if i < projects@.len() {
                    r matches Context::Project(name) && name@ == projects@[i].name@
                } else if in_repository {
                    r == Context::GitRepo
                } else {
                    r == Context::Global
                }
            },
        },
{
    let dir = match current_dir {
        Some(dir) => dir,
        None => {
            return Context::Global;
        },
    };
    let mut i: usize = 0;
    while i < projects.len()
        invariant
            i <= projects@.len(),
            current_dir == Some(dir),
            forall|j: int| 0 <= j < i ==> !nested_under(dir@, (#[trigger] projects@[j]).path@),
        decreases projects@.len() - i,
    {
        if starts_with(dir, projects[i].path.as_str()) {
            proof {
                lemma_enclosing_project(projects@, dir@, i as int);
            }
            return Context::Project(projects[i].name.clone());
        }
        i += 1;
    }
    proof {
        lemma_enclosing_project(projects@, dir@, i as int);
    }
    if in_repository {
        Context::GitRepo
    } else {
        Context::Global
    }
}

/// What a target names in the given context: a branch inside a project
/// or a repository, a project anywhere else.
pub fn handle_target(context: &Context) -> (r: TargetKind)
    ensures
        r == match context {
            Context::Project(_) => TargetKind::Branch,
            Context::GitRepo => TargetKind::Branch,
            Context::Global => TargetKind::Project,
        },
{
    match context {
        Context::Project(_) => TargetKind::Branch,
        Context::GitRepo => TargetKind::Branch,
        Context::Global => TargetKind::Project,
    }
}

} // verus!
