//! Registering a project: in a new repository, in a clone, or in a
//! directory that exists already.
use crate::config::global::GlobalConfig;
use crate::error::{DevError, ErrorKind};
use crate::git::{clone_repository_command, init_repository_command};
use crate::path::{join, joined};
use crate::process::{git, strings2, strings3, succeeded, CommandLine, CommandOutput};
use crate::text::{concat2, concat3, to_chars, trim, trimmed};
use crate::ui::prompts::InitType;
use vstd::prelude::*;

verus! {

/// Checks the name of the project to register: it must not be empty or
/// white space only, and no project of that name may be registered. The
/// name is looked at first.
pub fn run(project_name: &str, registered: bool) -> (r: Result<(), DevError>)
    ensures
        match r {
            Ok(_) => trimmed(project_name@).len() > 0 && !registered,
            Err(e) => if trimmed(project_name@).len() == 0 {
                e@ == (ErrorKind::Other, "Project name cannot be empty"@)
            } else {
                registered && e@ == (ErrorKind::ProjectExists, project_name@)
            },
        },
{
    let chars = to_chars(project_name);
    if trim(chars.as_slice()).len() == 0 {
        return Err(DevError::Other("Project name cannot be empty".to_owned()));
    }
    if registered {
        return Err(DevError::ProjectExists(project_name.to_owned()));
    }
    Ok(())
}

/// How the project comes to be: cloned where a URL is given, else in the
/// existing directory where one is given, else in a new repository.
pub fn init_type(clone_url: Option<String>, existing_path: Option<String>) -> (r: InitType)
    ensures
        r == match clone_url {
            Some(url) => InitType::CloneUrl(url),
            None => match existing_path {
                Some(path) => InitType::ExistingDir(path),
                None => InitType::NewRepo,
            },
        },
{
    match clone_url {
        Some(url) => InitType::CloneUrl(url),
        None => match existing_path {
            Some(path) => InitType::ExistingDir(path),
            None => InitType::NewRepo,
        },
    }
}

/// The error for a project directory that exists already.
pub open spec fn directory_taken(path: Seq<char>) -> (ErrorKind, Seq<char>) {
    (ErrorKind::Other, "Directory already exists: "@ + path)
}

/// The directory of a new project: its name under the directory for
/// projects.
pub fn project_path(name: &str, config: &GlobalConfig) -> (r: String)
    ensures
        r@ == joined(config.dev_path@, name@),
{
    join(config.dev_path.as_str(), name)
}

/// What making a new repository takes.
#[derive(Debug, Clone, PartialEq, Eq)]
pub struct NewRepository {
    /// The directory to create.
    pub path: String,
    /// The file that introduces the project.
    pub readme_path: String,
    /// What that file says.
    pub readme: String,
    /// The command that makes the directory a repository; run after the
    /// directory is created.
    pub init: CommandLine,
    /// The commands that make the first commit, in order; run after the
    /// file is written.
    pub stage: CommandLine,
    pub commit: CommandLine,
}

/// Plans a new repository for the project `name`, given whether its
/// directory exists already. An existing directory ends the command.
pub fn init_new_repo(name: &str, config: &GlobalConfig, path_exists: bool) -> (r: Result<
    NewRepository,
    DevError,
>)
    ensures
        match r {
            Ok(plan) => {
                let path = joined(config.dev_path@, name@);
                &&& !path_exists
                &&& plan.path@ == path
                &&& plan.readme_path@ == joined(path, "README.md"@)
                &&& plan.readme@ == "# "@ + name@ + "\n"@
                &&& plan.init@ == git(seq!["init"@], Some(path))
                &&& plan.stage@ == git(seq!["add"@, "."@], Some(path))
                &&& plan.commit@ == git(seq!["commit"@, "-m"@, "Initial commit"@], Some(path))
            },
            Err(e) => path_exists && e@ == directory_taken(joined(config.dev_path@, name@)),
        },
{
    let path = project_path(name, config);
    if path_exists {
        return Err(DevError::Other(concat2("Directory already exists: ", path.as_str())));
    }
    Ok(
        NewRepository {
            readme_path: join(path.as_str(), "README.md"),
            readme: concat3("# ", name, "\n"),
            init: init_repository_command(path.as_str()),
            stage: CommandLine::git(strings2("add", "."), Some(path.clone())),
            commit: CommandLine::git(
                strings3("commit", "-m", "Initial commit"),
                Some(path.clone()),
            ),
            path,
        },
    )
}

/// Plans the clone of `url` for the project `name`, given whether its
/// directory exists already: the directory and the command that clones
/// into it. An existing directory ends the command.
pub fn init_from_clone(name: &str, url: &str, config: &GlobalConfig, path_exists: bool) -> (r:
    Result<(String, CommandLine), DevError>)
    ensures
        match r {
            Ok(plan) => {
                let path = joined(config.dev_path@, name@);
                &&& !path_exists
                &&& plan.0@ == path
                &&& plan.1@ == git(seq!["clone"@, url@, path], None)
            },
            Err(e) => path_exists && e@ == directory_taken(joined(config.dev_path@, name@)),
        },
{
    let path = project_path(name, config);
    if path_exists {
        return Err(DevError::Other(concat2("Directory already exists: ", path.as_str())));
    }
    let command = clone_repository_command(url, path.as_str());
    Ok((path, command))
}

/// Checks the directory in which a project is to be registered: it must
/// exist.
pub fn init_from_existing(path: &str, path_exists: bool) -> (r: Result<(), DevError>)
    ensures
        match r {
            Ok(_) => path_exists,
            Err(e) => !path_exists && e@ == (
                ErrorKind::Other,
                "Directory does not exist: "@ + path@,
            ),
        },
{
    if path_exists {
        Ok(())
    } else {
        Err(DevError::Other(concat2("Directory does not exist: ", path)))
    }
}

/// Whether an existing directory must be made a repository before it is
/// registered: it must where the probe found none.
pub fn needs_repository(probe: Option<&CommandOutput>) -> (r: bool)
    ensures
        r == !succeeded(probe),
{
    !crate::git::is_git_repository(probe)
}

/// Whether the project uses devbox: it does where devbox was not ruled
/// out and the user, asked about it, agreed. `confirmed` is the user's
/// answer, or `None` where the user was not asked.
pub fn uses_devbox(no_devbox: bool, confirmed: Option<bool>) -> (r: bool)
    ensures
        r == (!no_devbox && confirmed == Some(true)),
{
    if no_devbox {
        false
    } else {
        match confirmed {
            Some(yes) => yes,
            None => false,
        }
    }
}

} // verus!
