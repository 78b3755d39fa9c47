//! Dependencies of JavaScript projects: which package manager a project
//! uses, going by the files in its directory, and how to install with it.
use crate::path::{join, joined};
use crate::process::{
    command_succeeded, strings1, succeeded, CommandLine, CommandLineView, CommandOutput,
};
use crate::text::texts;
use vstd::prelude::*;

verus! {

/// A package manager.
#[derive(Debug, Clone, Copy, PartialEq, Eq, Structural)]
pub enum PackageManager {
    Npm,
    Yarn,
    Pnpm,
}

/// The name of a package manager, which is also its command.
pub open spec fn manager_name(pm: PackageManager) -> Seq<char> {
    match pm {
        PackageManager::Npm => "npm"@,
        PackageManager::Yarn => "yarn"@,
        PackageManager::Pnpm => "pnpm"@,
    }
}

/// The command line that installs dependencies, as shown to the user.
pub open spec fn manager_install(pm: PackageManager) -> Seq<char> {
    match pm {
        PackageManager::Npm => "npm install"@,
        PackageManager::Yarn => "yarn install"@,
        PackageManager::Pnpm => "pnpm install"@,
    }
}

impl PackageManager {
    /// The command line that installs dependencies, as shown to the user.
    pub fn install_command(&self) -> (r: &'static str)
        ensures
            r@ == manager_install(*self),
    {
        match self {
            PackageManager::Npm => "npm install",
            PackageManager::Yarn => "yarn install",
            PackageManager::Pnpm => "pnpm install",
        }
    }

    /// The name of the package manager.
    pub fn name(&self) -> (r: &'static str)
        ensures
            r@ == manager_name(*self),
    {
        match self {
            PackageManager::Npm => "npm",
            PackageManager::Yarn => "yarn",
            PackageManager::Pnpm => "pnpm",
        }
    }
}

/// Which of the files that the tool looks for exist in a project
/// directory.
#[derive(Debug, Clone, Copy, PartialEq, Eq, Structural)]
pub struct ProjectFiles {
    /// `yarn.lock`
    pub yarn_lock: bool,
    /// `pnpm-lock.yaml`
    pub pnpm_lock: bool,
    /// `package-lock.json`
    pub package_lock: bool,
    /// `package.json`
    pub package_json: bool,
    /// `node_modules`
    pub node_modules: bool,
    /// `devbox.json`
    pub devbox_json: bool,
}

/// The paths whose existence `ProjectFiles` records for the directory
/// `dir`, in the order of its fields.
pub open spec fn marker_paths(dir: Seq<char>) -> Seq<Seq<char>> {
    seq![
        joined(dir, "yarn.lock"@),
        joined(dir, "pnpm-lock.yaml"@),
        joined(dir, "package-lock.json"@),
        joined(dir, "package.json"@),
        joined(dir, "node_modules"@),
        joined(dir, "devbox.json"@),
    ]
}

/// What a list of answers says of the path at `i`: a path without an
/// answer does not exist.
pub open spec fn answered(exists: Seq<bool>, i: int) -> bool {
    0 <= i < exists.len() && exists[i]
}

/// The package manager of a project: a lock file decides, yarn's before
/// pnpm's before npm's; `package.json` alone means npm; without any of
/// these there is none.
pub open spec fn manager_for(files: ProjectFiles) -> Option<PackageManager> {
    if files.yarn_lock {
        Some(PackageManager::Yarn)
    } else if files.pnpm_lock {
        Some(PackageManager::Pnpm)
    } else if files.package_lock {
        Some(PackageManager::Npm)
    } else if files.package_json {
        Some(PackageManager::Npm)
    } else {
        None
    }
}

/// The command that installs the dependencies of the project in `dir`.
pub open spec fn install_line(pm: PackageManager, dir: Seq<char>) -> CommandLineView {
    CommandLineView { program: manager_name(pm), args: seq!["install"@], dir: Some(dir) }
}

impl ProjectFiles {
    /// The paths to look for in the project directory `dir`, in the order
    /// of the fields.
    pub fn paths(dir: &str) -> (r: Vec<String>)
        ensures
            texts(r@) == marker_paths(dir@),
    {
        let mut r: Vec<String> = Vec::new();
        r.push(join(dir, "yarn.lock"));
        r.push(join(dir, "pnpm-lock.yaml"));
        r.push(join(dir, "package-lock.json"));
        r.push(join(dir, "package.json"));
        r.push(join(dir, "node_modules"));
        r.push(join(dir, "devbox.json"));
        assert(texts(r@) =~= marker_paths(dir@));
        r
    }

    /// The record for the answers to `paths`: whether each path exists,
    /// in the same order. A path without an answer does not exist.
    pub fn from_answers(exists: &Vec<bool>) -> (f: ProjectFiles)
        ensures
            f == (ProjectFiles {
                yarn_lock: answered(exists@, 0),
                pnpm_lock: answered(exists@, 1),
                package_lock: answered(exists@, 2),
                package_json: answered(exists@, 3),
                node_modules: answered(exists@, 4),
                devbox_json: answered(exists@, 5),
            }),
    {
        let n = exists.len();
        ProjectFiles {
            yarn_lock: n > 0 && exists[0],
            pnpm_lock: n > 1 && exists[1],
            package_lock: n > 2 && exists[2],
            package_json: n > 3 && exists[3],
            node_modules: n > 4 && exists[4],
            devbox_json: n > 5 && exists[5],
        }
    }
}

/// The package manager that the project uses, if any.
pub fn detect_package_manager(files: &ProjectFiles) -> (r: Option<PackageManager>)
    ensures
        r == manager_for(*files),
{
    if files.yarn_lock {
        Some(PackageManager::Yarn)
    } else if files.pnpm_lock {
        Some(PackageManager::Pnpm)
    } else if files.package_lock {
        Some(PackageManager::Npm)
    } else if files.package_json {
        Some(PackageManager::Npm)
    } else {
        None
    }
}

/// Whether the project has a `package.json`.
pub fn has_package_json(files: &ProjectFiles) -> (r: bool)
    ensures
        r == files.package_json,
{
    files.package_json
}

/// Whether the project has a `node_modules` directory.
pub fn has_node_modules(files: &ProjectFiles) -> (r: bool)
    ensures
        r == files.node_modules,
{
    files.node_modules
}

/// The command that installs the dependencies of the project in `dir`, or
/// none for a project without a package manager.
pub fn install_dependencies_command(files: &ProjectFiles, dir: &str) -> (r: Option<CommandLine>)
    ensures
        match r {
            Some(c) => manager_for(*files) is Some && c@ == install_line(
                manager_for(*files)->0,
                dir@,
            ),
            None => manager_for(*files) is None,
        },
{
    match detect_package_manager(files) {
        Some(pm) => Some(
            CommandLine {
                program: pm.name().to_owned(),
                args: strings1("install"),
                dir: Some(dir.to_owned()),
            },
        ),
        None => None,
    }
}

/// Whether dependencies were installed: the project has a package manager
/// and its install command succeeded.
pub fn install_dependencies(files: &ProjectFiles, outcome: Option<&CommandOutput>) -> (r: bool)
    ensures
        r == (manager_for(*files) is Some && succeeded(outcome)),
{
    match detect_package_manager(files) {
        Some(_) => command_succeeded(outcome),
        None => false,
    }
}

} // verus!
