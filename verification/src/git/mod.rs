//! Git as the tool uses it: which commands to run and how to read what
//! they report.
pub mod branch;
pub mod listing;
pub mod scan;
pub mod status;
pub mod worktree;

use crate::error::{DevError, ErrorKind};
use crate::process::{
    command_succeeded, git, optional_text, strings1, strings2, strings3, succeeded, CommandLine,
    CommandOutput,
};
use crate::text::{concat2, texts, trim_text, trimmed};
use vstd::prelude::*;

verus! {

/// The error for a git command that failed: the given words and then what
/// git wrote to standard error.
pub open spec fn git_failure(words: Seq<char>, diagnostic: Seq<char>) -> (ErrorKind, Seq<char>) {
    (ErrorKind::GitError, words + diagnostic)
}

/// What a git command that must succeed amounts to: nothing on success,
/// else the failure with git's diagnostic, white space trimmed.
pub fn expect_success(output: &CommandOutput, words: &str) -> (r: Result<(), DevError>)
    ensures
        match r {
            Ok(_) => output.success,
            Err(e) => !output.success && e@ == git_failure(words@, trimmed(output.stderr@)),
        },
{
    if output.success {
        Ok(())
    } else {
        let diagnostic = trim_text(output.stderr.as_str());
        Err(DevError::GitError(concat2(words, diagnostic.as_str())))
    }
}

/// The probe that tells whether `path` lies inside a repository.
pub fn is_git_repository_command(path: &str) -> (c: CommandLine)
    ensures
        c@ == git(seq!["rev-parse"@, "--git-dir"@], Some(path@)),
{
    CommandLine::git(strings2("rev-parse", "--git-dir"), Some(path.to_owned()))
}

/// Whether the probe found a repository. A probe that could not run found
/// none.
pub fn is_git_repository(probe: Option<&CommandOutput>) -> (r: bool)
    ensures
        r == succeeded(probe),
{
    command_succeeded(probe)
}

/// The command that names the root directory of the repository around
/// `path`.
pub fn repository_root_command(path: &str) -> (c: CommandLine)
    ensures
        c@ == git(seq!["rev-parse"@, "--show-toplevel"@], Some(path@)),
{
    CommandLine::git(strings2("rev-parse", "--show-toplevel"), Some(path.to_owned()))
}

/// The root directory that the command named: its output without the
/// white space around it. A failed command means there is no repository.
pub fn get_repository_root(output: &CommandOutput) -> (r: Result<String, DevError>)
    ensures
        match r {
            Ok(root) => output.success && root@ == trimmed(output.stdout@),
            Err(e) => !output.success && e@.0 == ErrorKind::NotGitRepository,
        },
{
    if !output.success {
        return Err(DevError::NotGitRepository);
    }
    Ok(trim_text(output.stdout.as_str()))
}

/// The command that makes `path` a new repository.
pub fn init_repository_command(path: &str) -> (c: CommandLine)
    ensures
        c@ == git(seq!["init"@], Some(path@)),
{
    CommandLine::git(strings1("init"), Some(path.to_owned()))
}

/// What initialising the repository amounted to; git's diagnostic is
/// passed on as it was written.
pub fn init_repository(output: &CommandOutput) -> (r: Result<(), DevError>)
    ensures
        match r {
            Ok(_) => output.success,
            Err(e) => !output.success && e@ == git_failure(
                "Failed to init repository: "@,
                output.stderr@,
            ),
        },
{
    if output.success {
        Ok(())
    } else {
        Err(DevError::GitError(concat2("Failed to init repository: ", output.stderr.as_str())))
    }
}

/// The command that clones the repository at `url` into `path`.
pub fn clone_repository_command(url: &str, path: &str) -> (c: CommandLine)
    ensures
        c@ == git(seq!["clone"@, url@, path@], None),
{
    CommandLine::git(strings3("clone", url, path), None)
}

/// What cloning amounted to; git's diagnostic is passed on as it was
/// written.
pub fn clone_repository(output: &CommandOutput) -> (r: Result<(), DevError>)
    ensures
        match r {
            Ok(_) => output.success,
            Err(e) => !output.success && e@ == git_failure(
                "Failed to clone repository: "@,
                output.stderr@,
            ),
        },
{
    if output.success {
        Ok(())
    } else {
        Err(DevError::GitError(concat2("Failed to clone repository: ", output.stderr.as_str())))
    }
}

/// A git command with the given arguments, run in `cwd` if one is given.
pub fn git_command(args: Vec<String>, cwd: Option<String>) -> (c: CommandLine)
    ensures
        c@ == git(texts(args@), optional_text(cwd)),
{
    CommandLine::git(args, cwd)
}

/// What a git command run for its output amounted to: the output as it
/// was written, or the failure with git's diagnostic, white space trimmed.
pub fn run_git_command(output: &CommandOutput) -> (r: Result<String, DevError>)
    ensures
        match r {
            Ok(text) => output.success && text@ == output.stdout@,
            Err(e) => !output.success && e@ == (ErrorKind::GitError, trimmed(output.stderr@)),
        },
{
    if output.success {
        Ok(output.stdout.clone())
    } else {
        Err(DevError::GitError(trim_text(output.stderr.as_str())))
    }
}

} // verus!
