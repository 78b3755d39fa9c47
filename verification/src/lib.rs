//! The logic of a command-line tool for git worktrees and project setup:
//! the worktree inventory and its status, the decisions of creating,
//! switching and cleaning up, target resolution, and the settings around
//! them.
//!
//! The library runs no program and touches no file. Where a decision
//! depends on the outside, the library says what to run or to look at, as
//! a `process::CommandLine` or a path, and the caller hands back what came
//! of it, as a `process::CommandOutput` or an answer. Two things the
//! library asks of the platform itself: the user's directories and the
//! time.
pub mod cli;
pub mod commands;
pub mod config;
pub mod editor;
pub mod error;
pub mod git;
pub mod package_manager;
pub mod path;
pub mod process;
pub mod shell;
pub mod text;
pub mod ui;
