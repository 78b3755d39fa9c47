//! The failures that the tool reports, and the text shown for each.
use crate::text::{push_str, to_text};
use vstd::prelude::*;

verus! {

/// Which failure an error is, without its detail.
#[derive(Clone, Copy, Debug, PartialEq, Eq, Structural)]
pub enum ErrorKind {
    NotGitRepository,
    GitError,
    BranchExistsLocally,
    BranchNotFound,
    WorktreeNotFound,
    WorktreeDirectoryExists,
    WorktreePathMissing,
    ProjectNotFound,
    ProjectExists,
    ConfigError,
    IoError,
    JsonError,
    EditorNotFound,
    DevboxError,
    UserCancelled,
    Other,
}

/// A failure of the tool. Most carry a detail: the branch, path, project or
/// editor concerned, or the diagnostic text of the tool that failed.
#[derive(Clone, Debug, PartialEq, Eq)]
pub enum DevError {
    NotGitRepository,
    GitError(String),
    BranchExistsLocally(String),
    BranchNotFound(String),
    WorktreeNotFound(String),
    WorktreeDirectoryExists(String),
    WorktreePathMissing(String),
    ProjectNotFound(String),
    ProjectExists(String),
    ConfigError(String),
    IoError(String),
    JsonError(String),
    EditorNotFound(String),
    DevboxError(String),
    UserCancelled,
    Other(String),
}

impl View for DevError {
    type V = (ErrorKind, Seq<char>);

    /// The kind of the error and its detail; the detail of an error that
    /// carries none is empty.
    open spec fn view(&self) -> (ErrorKind, Seq<char>) {
        match self {
            DevError::NotGitRepository => (ErrorKind::NotGitRepository, Seq::empty()),
            DevError::GitError(d) => (ErrorKind::GitError, d@),
            DevError::BranchExistsLocally(d) => (ErrorKind::BranchExistsLocally, d@),
            DevError::BranchNotFound(d) => (ErrorKind::BranchNotFound, d@),
            DevError::WorktreeNotFound(d) => (ErrorKind::WorktreeNotFound, d@),
            DevError::WorktreeDirectoryExists(d) => (ErrorKind::WorktreeDirectoryExists, d@),
            DevError::WorktreePathMissing(d) => (ErrorKind::WorktreePathMissing, d@),
            DevError::ProjectNotFound(d) => (ErrorKind::ProjectNotFound, d@),
            DevError::ProjectExists(d) => (ErrorKind::ProjectExists, d@),
            DevError::ConfigError(d) => (ErrorKind::ConfigError, d@),
            DevError::IoError(d) => (ErrorKind::IoError, d@),
            DevError::JsonError(d) => (ErrorKind::JsonError, d@),
            DevError::EditorNotFound(d) => (ErrorKind::EditorNotFound, d@),
            DevError::DevboxError(d) => (ErrorKind::DevboxError, d@),
            DevError::UserCancelled => (ErrorKind::UserCancelled, Seq::empty()),
            DevError::Other(d) => (ErrorKind::Other, d@),
        }
    }
}

/// What the message of an error of this kind says before the detail.
pub open spec fn message_prefix(kind: ErrorKind) -> Seq<char> {
    match kind {
        ErrorKind::NotGitRepository => "Not in a git repository"@,
        ErrorKind::GitError => "Git operation failed: "@,
        ErrorKind::BranchExistsLocally => "Branch '"@,
        ErrorKind::BranchNotFound => "Branch '"@,
        ErrorKind::WorktreeNotFound => "Worktree not found for branch '"@,
        ErrorKind::WorktreeDirectoryExists => "Worktree directory already exists: "@,
        ErrorKind::WorktreePathMissing => "Worktree path does not exist: "@,
        ErrorKind::ProjectNotFound => "Project '"@,
        ErrorKind::ProjectExists => "Project '"@,
        ErrorKind::ConfigError => "Config error: "@,
        ErrorKind::IoError => "IO error: "@,
        ErrorKind::JsonError => "JSON error: "@,
        ErrorKind::EditorNotFound => "Editor '"@,
        ErrorKind::DevboxError => "Devbox error: "@,
        ErrorKind::UserCancelled => "Operation cancelled"@,
        ErrorKind::Other => ""@,
    }
}

/// What the message of an error of this kind says after the detail.
pub open spec fn message_suffix(kind: ErrorKind) -> Seq<char> {
    match kind {
        ErrorKind::BranchExistsLocally => "' already exists locally"@,
        ErrorKind::BranchNotFound => "' not found"@,
        ErrorKind::WorktreeNotFound => "'"@,
        ErrorKind::ProjectNotFound => "' not found"@,
        ErrorKind::ProjectExists => "' already exists"@,
        ErrorKind::EditorNotFound => "' not found. Is it installed?"@,
        _ => ""@,
    }
}

/// The message of an error: the detail between the words of its kind.
pub open spec fn message_text(e: (ErrorKind, Seq<char>)) -> Seq<char> {
    message_prefix(e.0) + e.1 + message_suffix(e.0)
}

impl DevError {
    /// Which failure this is.
    pub fn kind(&self) -> (k: ErrorKind)
        ensures
            k == self@.0,
    {
        match self {
            DevError::NotGitRepository => ErrorKind::NotGitRepository,
            DevError::GitError(_) => ErrorKind::GitError,
            DevError::BranchExistsLocally(_) => ErrorKind::BranchExistsLocally,
            DevError::BranchNotFound(_) => ErrorKind::BranchNotFound,
            DevError::WorktreeNotFound(_) => ErrorKind::WorktreeNotFound,
            DevError::WorktreeDirectoryExists(_) => ErrorKind::WorktreeDirectoryExists,
            DevError::WorktreePathMissing(_) => ErrorKind::WorktreePathMissing,
            DevError::ProjectNotFound(_) => ErrorKind::ProjectNotFound,
            DevError::ProjectExists(_) => ErrorKind::ProjectExists,
            DevError::ConfigError(_) => ErrorKind::ConfigError,
            DevError::IoError(_) => ErrorKind::IoError,
            DevError::JsonError(_) => ErrorKind::JsonError,
            DevError::EditorNotFound(_) => ErrorKind::EditorNotFound,
            DevError::DevboxError(_) => ErrorKind::DevboxError,
            DevError::UserCancelled => ErrorKind::UserCancelled,
            DevError::Other(_) => ErrorKind::Other,
        }
    }

    /// The detail that the error carries; empty where it carries none.
    pub fn detail(&self) -> (d: String)
        ensures
            d@ == self@.1,
    {
        match self {
            DevError::NotGitRepository => String::new(),
            DevError::UserCancelled => String::new(),
            DevError::GitError(d) => d.clone(),
            DevError::BranchExistsLocally(d) => d.clone(),
            DevError::BranchNotFound(d) => d.clone(),
            DevError::WorktreeNotFound(d) => d.clone(),
            DevError::WorktreeDirectoryExists(d) => d.clone(),
            DevError::WorktreePathMissing(d) => d.clone(),
            DevError::ProjectNotFound(d) => d.clone(),
            DevError::ProjectExists(d) => d.clone(),
            DevError::ConfigError(d) => d.clone(),
            DevError::IoError(d) => d.clone(),
            DevError::JsonError(d) => d.clone(),
            DevError::EditorNotFound(d) => d.clone(),
            DevError::DevboxError(d) => d.clone(),
            DevError::Other(d) => d.clone(),
        }
    }

    /// The message shown to the user for this error.
    pub fn message(&self) -> (m: String)
        ensures
            m@ == message_text(self@),
    {
        let kind = self.kind();
        let detail = self.detail();
        let prefix: &str = match kind {
            ErrorKind::NotGitRepository => "Not in a git repository",
            ErrorKind::GitError => "Git operation failed: ",
            ErrorKind::BranchExistsLocally => "Branch '",
            ErrorKind::BranchNotFound => "Branch '",
            ErrorKind::WorktreeNotFound => "Worktree not found for branch '",
            ErrorKind::WorktreeDirectoryExists => "Worktree directory already exists: ",
            ErrorKind::WorktreePathMissing => "Worktree path does not exist: ",
            ErrorKind::ProjectNotFound => "Project '",
            ErrorKind::ProjectExists => "Project '",
            ErrorKind::ConfigError => "Config error: ",
            ErrorKind::IoError => "IO error: ",
            ErrorKind::JsonError => "JSON error: ",
            ErrorKind::EditorNotFound => "Editor '",
            ErrorKind::DevboxError => "Devbox error: ",
            ErrorKind::UserCancelled => "Operation cancelled",
            ErrorKind::Other => "",
        };
        let suffix: &str = match kind {
            ErrorKind::BranchExistsLocally => "' already exists locally",
            ErrorKind::BranchNotFound => "' not found",
            ErrorKind::WorktreeNotFound => "'",
            ErrorKind::ProjectNotFound => "' not found",
            ErrorKind::ProjectExists => "' already exists",
            ErrorKind::EditorNotFound => "' not found. Is it installed?",
            _ => "",
        };
        let mut out: Vec<char> = Vec::new();
        push_str(&mut out, prefix);
        push_str(&mut out, detail.as_str());
        push_str(&mut out, suffix);
        assert(out@ =~= message_text(self@));
        to_text(out.as_slice())
    }
}

} // verus!
