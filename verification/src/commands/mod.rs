//! The decisions of the tool's commands. Each command is a sequence of
//! steps; a step takes what the caller found out and says how to go on.
pub mod cleanup;
pub mod config_cmd;
pub mod create;
pub mod init;
pub mod list;
pub mod project;
pub mod switch;

use crate::error::{DevError, ErrorKind};
use crate::process::{command_succeeded, succeeded, CommandOutput};
use crate::text::{to_chars, to_text, trim_text, trimmed};
use vstd::prelude::*;
use vstd::slice::*;

verus! {

/// The first step of every command that works on a repository: the probe
/// for the repository must have found one.
pub fn require_repository(probe: Option<&CommandOutput>) -> (r: Result<(), DevError>)
    ensures
        match r {
            Ok(_) => succeeded(probe),
            Err(e) => !succeeded(probe) && e@.0 == ErrorKind::NotGitRepository,
        },
{
    if command_succeeded(probe) {
        Ok(())
    } else {
        Err(DevError::NotGitRepository)
    }
}

/// The branch that a command is to work on: the given name without the
/// white space around it. There must be a repository, and the name must
/// not be empty; the repository is looked at first.
pub fn checked_branch(branch: &str, probe: Option<&CommandOutput>) -> (r: Result<
    String,
    DevError,
>)
    ensures
        match r {
            Ok(name) => succeeded(probe) && name@ == trimmed(branch@) && name@.len() > 0,
            Err(e) => if !succeeded(probe) {
                e@.0 == ErrorKind::NotGitRepository
            } else {
                trimmed(branch@).len() == 0 && e@ == (
                    ErrorKind::Other,
                    "Branch name is required"@,
                )
            },
        },
{
    match require_repository(probe) {
        Ok(_) => {},
        Err(e) => {
            return Err(e);
        },
    }
    let name = trim_text(branch);
    if name.as_str().unicode_len() == 0 {
        return Err(DevError::Other("Branch name is required".to_owned()));
    }
    Ok(name)
}

/// The first characters of a commit identifier, as shown in lists: seven,
/// or all of them where there are fewer.
pub open spec fn abbreviated(commit: Seq<char>) -> Seq<char> {
    if commit.len() >= 7 {
        commit.take(7)
    } else {
        commit
    }
}

/// The commit identifier as shown in lists.
pub fn short_commit(commit: &str) -> (r: String)
    ensures
        r@ == abbreviated(commit@),
{
    let chars = to_chars(commit);
    if chars.len() >= 7 {
        to_text(slice_subrange(chars.as_slice(), 0, 7))
    } else {
        to_text(chars.as_slice())
    }
}

} // verus!
