use dev_cli::error::{DevError, ErrorKind};

#[test]
fn messages_of_all_errors() {
    let cases: Vec<(DevError, ErrorKind, &str)> = vec![
        (DevError::NotGitRepository, ErrorKind::NotGitRepository, "Not in a git repository"),
        (DevError::GitError("boom".into()), ErrorKind::GitError, "Git operation failed: boom"),
        (
            DevError::BranchExistsLocally("f".into()),
            ErrorKind::BranchExistsLocally,
            "Branch 'f' already exists locally",
        ),
        (DevError::BranchNotFound("f".into()), ErrorKind::BranchNotFound, "Branch 'f' not found"),
        (
            DevError::WorktreeNotFound("f".into()),
            ErrorKind::WorktreeNotFound,
            "Worktree not found for branch 'f'",
        ),
        (
            DevError::WorktreeDirectoryExists("/p".into()),
            ErrorKind::WorktreeDirectoryExists,
            "Worktree directory already exists: /p",
        ),
        (
            DevError::WorktreePathMissing("/p".into()),
            ErrorKind::WorktreePathMissing,
            "Worktree path does not exist: /p",
        ),
        (DevError::ProjectNotFound("p".into()), ErrorKind::ProjectNotFound, "Project 'p' not found"),
        (DevError::ProjectExists("p".into()), ErrorKind::ProjectExists, "Project 'p' already exists"),
        (DevError::ConfigError("bad".into()), ErrorKind::ConfigError, "Config error: bad"),
        (DevError::IoError("denied".into()), ErrorKind::IoError, "IO error: denied"),
        (DevError::JsonError("eof".into()), ErrorKind::JsonError, "JSON error: eof"),
        (
            DevError::EditorNotFound("Zed".into()),
            ErrorKind::EditorNotFound,
            "Editor 'Zed' not found. Is it installed?",
        ),
        (DevError::DevboxError("no".into()), ErrorKind::DevboxError, "Devbox error: no"),
        (DevError::UserCancelled, ErrorKind::UserCancelled, "Operation cancelled"),
        (DevError::Other("as is".into()), ErrorKind::Other, "as is"),
    ];
    for (error, kind, message) in cases {
        assert_eq!(error.kind(), kind);
        assert_eq!(error.message(), message);
    }
}

#[test]
fn detail_is_the_payload() {
    assert_eq!(DevError::GitError("x y".into()).detail(), "x y");
    assert_eq!(DevError::NotGitRepository.detail(), "");
    assert_eq!(DevError::UserCancelled.detail(), "");
    assert_eq!(DevError::Other("".into()).message(), "");
}
