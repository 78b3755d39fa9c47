//! Creating a worktree for a new branch.
//!
//! The command is a state machine. It starts by looking for the
//! repository; a branch that exists locally ends it; where the branch
//! exists on the remote the user chooses between checking it out, creating
//! a divergent branch and cancelling; then the repository root is
//! resolved, the directory beside it is looked at, and the worktree is
//! added. In every state `CreateFlow::request` says what the caller is to
//! do, and `CreateFlow::advance` takes the answer.
//!
//! The single decisions are functions of their own: `run` checks the
//! repository and the branch name, `require_new_branch` the local branch,
//! `needs_choice` the remote branch, and `create_new_branch` reads the
//! user's choice.
use crate::commands::checked_branch;
use crate::error::{DevError, ErrorKind};
use crate::git::branch::{
    branch_exists_locally, branch_exists_locally_command, branch_exists_on_remote,
    branch_exists_on_remote_command,
};
use crate::git::worktree::{
    add_arguments, create_worktree, plan_worktree, worktree_created, worktree_path_for,
    WorktreePlan,
};
use crate::git::{git_failure, is_git_repository_command, repository_root_command};
use crate::process::{git, succeeded, CommandLine, CommandLineView, CommandOutput};
use crate::text::trimmed;
use crate::ui::prompts::{remote_branch_question, RemoteBranchAction};
use vstd::prelude::*;

verus! {

/// The branch to create: the given name without the white space around
/// it. Fails where there is no repository, or where the name is empty.
pub fn run(branch: &str, repository: Option<&CommandOutput>) -> (r: Result<String, DevError>)
    ensures
        match r {
            Ok(name) => succeeded(repository) && name@ == trimmed(branch@) && name@.len() > 0,
            Err(e) => if !succeeded(repository) {
                e@.0 == ErrorKind::NotGitRepository
            } else {
                trimmed(branch@).len() == 0 && e@ == (
                    ErrorKind::Other,
                    "Branch name is required"@,
                )
            },
        },
{
    checked_branch(branch, repository)
}

/// The branch must be new: a branch that exists locally ends the command
/// with `BranchExistsLocally`. `local` is what the probe for the local
/// branch reported.
pub fn require_new_branch(branch: &str, local: Option<&CommandOutput>) -> (r: Result<
    (),
    DevError,
>)
    ensures
        match r {
            Ok(_) => !succeeded(local),
            Err(e) => succeeded(local) && e@ == (ErrorKind::BranchExistsLocally, branch@),
        },
{
    if branch_exists_locally(local) {
        return Err(DevError::BranchExistsLocally(branch.to_owned()));
    }
    Ok(())
}

/// Whether the user must be asked what to do: so where the branch exists
/// on the remote. `remote` is what the probe for the remote branch
/// reported.
pub fn needs_choice(remote: Option<&CommandOutput>) -> (r: bool)
    ensures
        r == succeeded(remote),
{
    branch_exists_on_remote(remote)
}

/// Whether the worktree is made with a new branch. `choice` is what the
/// user picked, or `None` where the user was not asked because the branch
/// is not on the remote. Checking out the remote branch makes no new
/// branch; a divergent branch and a branch unknown to the remote do;
/// `None` as the result means that the user cancelled and nothing is done.
pub open spec fn new_branch_wanted(choice: Option<RemoteBranchAction>) -> Option<bool> {
    match choice {
        None => Some(true),
        Some(RemoteBranchAction::Checkout) => Some(false),
        Some(RemoteBranchAction::CreateDivergent) => Some(true),
        Some(RemoteBranchAction::Cancel) => None,
    }
}

/// Whether the worktree is made with a new branch, or `None` where the
/// user cancelled.
pub fn create_new_branch(choice: Option<RemoteBranchAction>) -> (r: Option<bool>)
    ensures
        r == new_branch_wanted(choice),
{
    match choice {
        None => Some(true),
        Some(RemoteBranchAction::Checkout) => Some(false),
        Some(RemoteBranchAction::CreateDivergent) => Some(true),
        Some(RemoteBranchAction::Cancel) => None,
    }
}

/// Where the command stands.
#[derive(Debug, Clone, PartialEq, Eq)]
pub enum CreateFlow {
    /// The probe for the repository is out. `branch` is the name as the
    /// user gave it.
    CheckingRepository { branch: String, current_dir: String },
    /// The probe for the local branch is out.
    CheckingLocal { branch: String, current_dir: String },
    /// The probe for the branch on the remote is out.
    CheckingRemote { branch: String, current_dir: String },
    /// The user is choosing what to do about the remote branch.
    Choosing { branch: String, current_dir: String },
    /// The command that names the repository root is out.
    ResolvingRoot { branch: String, current_dir: String, create_branch: bool },
    /// The directory of the new worktree is being looked at.
    ProbingTarget { branch: String, create_branch: bool, plan: WorktreePlan },
    /// The command that adds the worktree is out.
    Adding { branch: String, create_branch: bool, plan: WorktreePlan },
    /// The worktree was created at this path.
    Created(String),
    /// The user cancelled; nothing was done.
    Cancelled,
    /// The command failed.
    Failed(DevError),
}

/// What the caller is to do next.
#[derive(Debug, Clone, PartialEq, Eq)]
pub enum CreateRequest {
    /// Run the program and answer with what it reported.
    Run(CommandLine),
    /// Answer whether the path exists.
    PathExists(String),
    /// Put the question to the user and answer with the choice.
    Choose(String),
    /// Nothing: the command has ended.
    Nothing,
}

/// What the caller found out.
#[derive(Debug, PartialEq, Eq)]
pub enum CreateAnswer {
    /// What the program reported, or why it could not be started.
    Output(Result<CommandOutput, String>),
    /// Whether the path exists.
    Exists(bool),
    /// What the user chose.
    Choice(RemoteBranchAction),
}

/// A state of the command as plain values.
pub enum CreateFlowView {
    CheckingRepository { branch: Seq<char>, current_dir: Seq<char> },
    CheckingLocal { branch: Seq<char>, current_dir: Seq<char> },
    CheckingRemote { branch: Seq<char>, current_dir: Seq<char> },
    Choosing { branch: Seq<char>, current_dir: Seq<char> },
    ResolvingRoot { branch: Seq<char>, current_dir: Seq<char>, create_branch: bool },
    ProbingTarget { branch: Seq<char>, create_branch: bool, repo_root: Seq<char>, path: Seq<char> },
    Adding { branch: Seq<char>, create_branch: bool, repo_root: Seq<char>, path: Seq<char> },
    Created(Seq<char>),
    Cancelled,
    Failed((ErrorKind, Seq<char>)),
}

/// A request as plain values.
pub enum CreateRequestView {
    Run(CommandLineView),
    PathExists(Seq<char>),
    Choose(Seq<char>),
    Nothing,
}

impl View for CreateFlow {
    type V = CreateFlowView;

    open spec fn view(&self) -> CreateFlowView {
        match self {
            CreateFlow::CheckingRepository { branch, current_dir } => {
                CreateFlowView::CheckingRepository { branch: branch@, current_dir: current_dir@ }
            },
            CreateFlow::CheckingLocal { branch, current_dir } => CreateFlowView::CheckingLocal {
                branch: branch@,
                current_dir: current_dir@,
            },
            CreateFlow::CheckingRemote { branch, current_dir } => CreateFlowView::CheckingRemote {
                branch: branch@,
                current_dir: current_dir@,
            },
            CreateFlow::Choosing { branch, current_dir } => CreateFlowView::Choosing {
                branch: branch@,
                current_dir: current_dir@,
            },
            CreateFlow::ResolvingRoot {
                branch,
                current_dir,
                create_branch,
            } => CreateFlowView::ResolvingRoot {
                branch: branch@,
                current_dir: current_dir@,
                create_branch: *create_branch,
            },
            CreateFlow::ProbingTarget { branch, create_branch, plan } => {
                CreateFlowView::ProbingTarget {
                    branch: branch@,
                    create_branch: *create_branch,
                    repo_root: plan.repo_root@,
                    path: plan.path@,
                }
            },
            CreateFlow::Adding { branch, create_branch, plan } => CreateFlowView::Adding {
                branch: branch@,
                create_branch: *create_branch,
                repo_root: plan.repo_root@,
                path: plan.path@,
            },
            CreateFlow::Created(path) => CreateFlowView::Created(path@),
            CreateFlow::Cancelled => CreateFlowView::Cancelled,
            CreateFlow::Failed(e) => CreateFlowView::Failed(e@),
        }
    }
}

impl View for CreateRequest {
    type V = CreateRequestView;

    open spec fn view(&self) -> CreateRequestView {
        match self {
            CreateRequest::Run(c) => CreateRequestView::Run(c@),
            CreateRequest::PathExists(p) => CreateRequestView::PathExists(p@),
            CreateRequest::Choose(q) => CreateRequestView::Choose(q@),
            CreateRequest::Nothing => CreateRequestView::Nothing,
        }
    }
}

/// Whether a program ran and ended with exit status zero.
pub open spec fn ran_well(result: Result<CommandOutput, String>) -> bool {
    match result {
        Ok(out) => out.success,
        Err(_) => false,
    }
}

impl CreateFlowView {
    /// Whether the command has ended.
    pub open spec fn ended(self) -> bool {
        self is Created || self is Cancelled || self is Failed
    }

    /// What the caller is to do in this state.
    pub open spec fn request(self) -> CreateRequestView {
        match self {
            CreateFlowView::CheckingRepository { current_dir, .. } => CreateRequestView::Run(
                git(seq!["rev-parse"@, "--git-dir"@], Some(current_dir)),
            ),
            CreateFlowView::CheckingLocal { branch, .. } => CreateRequestView::Run(
                git(seq!["show-ref"@, "--verify"@, "--quiet"@, "refs/heads/"@ + branch], None),
            ),
            CreateFlowView::CheckingRemote { branch, .. } => CreateRequestView::Run(
                git(
                    seq!["show-ref"@, "--verify"@, "--quiet"@, "refs/remotes/origin/"@ + branch],
                    None,
                ),
            ),
            CreateFlowView::Choosing { branch, .. } => CreateRequestView::Choose(
                "Branch '"@ + branch + "' exists on remote. What would you like to do?"@,
            ),
            CreateFlowView::ResolvingRoot { current_dir, .. } => CreateRequestView::Run(
                git(seq!["rev-parse"@, "--show-toplevel"@], Some(current_dir)),
            ),
            CreateFlowView::ProbingTarget { path, .. } => CreateRequestView::PathExists(path),
            CreateFlowView::Adding { branch, create_branch, repo_root, path } => {
                CreateRequestView::Run(
                    git(add_arguments(path, branch, create_branch), Some(repo_root)),
                )
            },
            CreateFlowView::Created(_) => CreateRequestView::Nothing,
            CreateFlowView::Cancelled => CreateRequestView::Nothing,
            CreateFlowView::Failed(_) => CreateRequestView::Nothing,
        }
    }

    /// The state after the caller's answer. An answer of a kind that the
    /// state did not ask for leaves the state as it is.
    ///
    /// The probes for the repository and for the branch count as failed
    /// where the program could not be started. The commands that resolve
    /// the root and add the worktree must start: where one cannot, the
    /// command fails with the reason as an I/O error.
    pub open spec fn after(self, answer: CreateAnswer) -> CreateFlowView {
        match (self, answer) {
            (
                CreateFlowView::CheckingRepository { branch, current_dir },
                CreateAnswer::Output(result),
            ) => {
                if !ran_well(result) {
                    CreateFlowView::Failed((ErrorKind::NotGitRepository, Seq::empty()))
                } else if trimmed(branch).len() == 0 {
                    CreateFlowView::Failed((ErrorKind::Other, "Branch name is required"@))
                } else {
                    CreateFlowView::CheckingLocal { branch: trimmed(branch), current_dir }
                }
            },
            (
                CreateFlowView::CheckingLocal { branch, current_dir },
                CreateAnswer::Output(result),
            ) => {
                if ran_well(result) {
                    CreateFlowView::Failed((ErrorKind::BranchExistsLocally, branch))
                } else {
                    CreateFlowView::CheckingRemote { branch, current_dir }
                }
            },
            (
                CreateFlowView::CheckingRemote { branch, current_dir },
                CreateAnswer::Output(result),
            ) => {
                if ran_well(result) {
                    CreateFlowView::Choosing { branch, current_dir }
                } else {
                    CreateFlowView::ResolvingRoot { branch, current_dir, create_branch: true }
                }
            },
            (CreateFlowView::Choosing { branch, current_dir }, CreateAnswer::Choice(action)) => {
                match new_branch_wanted(Some(action)) {
                    Some(create_branch) => CreateFlowView::ResolvingRoot {
                        branch,
                        current_dir,
                        create_branch,
                    },
                    None => CreateFlowView::Cancelled,
                }
            },
            (
                CreateFlowView::ResolvingRoot { branch, create_branch, .. },
                CreateAnswer::Output(result),
            ) => {
                match result {
                    Err(reason) => CreateFlowView::Failed((ErrorKind::IoError, reason@)),
                    Ok(out) => if !out.success {
                        CreateFlowView::Failed((ErrorKind::NotGitRepository, Seq::empty()))
                    } else {
                        match worktree_path_for(trimmed(out.stdout@), branch) {
                            Some(path) => CreateFlowView::ProbingTarget {
                                branch,
                                create_branch,
                                repo_root: trimmed(out.stdout@),
                                path,
                            },
                            None => CreateFlowView::Failed(
                                (ErrorKind::GitError, "Cannot determine parent directory"@),
                            ),
                        }
                    },
                }
            },
            (
                CreateFlowView::ProbingTarget { branch, create_branch, repo_root, path },
                CreateAnswer::Exists(exists),
            ) => {
                if exists {
                    CreateFlowView::Failed((ErrorKind::WorktreeDirectoryExists, path))
                } else {
                    CreateFlowView::Adding { branch, create_branch, repo_root, path }
                }
            },
            (CreateFlowView::Adding { path, .. }, CreateAnswer::Output(result)) => {
                match result {
                    Err(reason) => CreateFlowView::Failed((ErrorKind::IoError, reason@)),
                    Ok(out) => if out.success {
                        CreateFlowView::Created(path)
                    } else {
                        CreateFlowView::Failed(
                            git_failure("Failed to create worktree: "@, trimmed(out.stderr@)),
                        )
                    },
                }
            },
            (state, _) => state,
        }
    }
}

/// An occupied directory ends the command with `WorktreeDirectoryExists`:
/// the worktree is not added, and nothing more is asked of the caller.
pub proof fn lemma_occupied_directory_ends(state: CreateFlowView)
    requires
        state is ProbingTarget,
    ensures
        state.after(CreateAnswer::Exists(true)) == CreateFlowView::Failed(
            (ErrorKind::WorktreeDirectoryExists, state->ProbingTarget_path),
        ),
        state.after(CreateAnswer::Exists(true)).request() == CreateRequestView::Nothing,
{
}

/// A branch that exists locally ends the command with
/// `BranchExistsLocally` before anything is asked of the remote or of the
/// user.
pub proof fn lemma_local_branch_ends(state: CreateFlowView, result: Result<CommandOutput, String>)
    requires
        state is CheckingLocal,
        ran_well(result),
    ensures
        state.after(CreateAnswer::Output(result)) == CreateFlowView::Failed(
            (ErrorKind::BranchExistsLocally, state->CheckingLocal_branch),
        ),
{
}

/// The user's choice decides whether a branch is created: checking out
/// makes none, diverging makes one, cancelling ends the command with
/// nothing done.
pub proof fn lemma_choice_decides(state: CreateFlowView, action: RemoteBranchAction)
    requires
        state is Choosing,
    ensures
        ({
            let next = state.after(CreateAnswer::Choice(action));
            match action {
                RemoteBranchAction::Checkout => next is ResolvingRoot
                    && !next->ResolvingRoot_create_branch,
                RemoteBranchAction::CreateDivergent => next is ResolvingRoot
                    && next->ResolvingRoot_create_branch,
                RemoteBranchAction::Cancel => next is Cancelled,
            }
        }),
{
}

/// A state that has ended stays as it is, whatever the answer.
pub proof fn lemma_ended_stays(state: CreateFlowView, answer: CreateAnswer)
    requires
        state.ended(),
    ensures
        state.after(answer) == state,
{
}

/// The program's report as a probe sees it: nothing where the program
/// could not be started.
fn as_probe(result: &Result<CommandOutput, String>) -> (r: Option<&CommandOutput>)
    ensures
        succeeded(r) == ran_well(*result),
        match r {
            Some(out) => *result == Ok::<CommandOutput, String>(*out),
            None => *result is Err,
        },
{
    match result {
        Ok(out) => Some(out),
        Err(_) => None,
    }
}

impl CreateFlow {
    /// The command at its start, for the branch as the user named it, in
    /// the caller's working directory.
    pub fn start(branch: &str, current_dir: &str) -> (flow: CreateFlow)
        ensures
            flow@ == (CreateFlowView::CheckingRepository {
                branch: branch@,
                current_dir: current_dir@,
            }),
    {
        CreateFlow::CheckingRepository {
            branch: branch.to_owned(),
            current_dir: current_dir.to_owned(),
        }
    }

    /// Whether the command has ended.
    pub fn has_ended(&self) -> (r: bool)
        ensures
            r == self@.ended(),
    {
        match self {
            CreateFlow::Created(_) => true,
            CreateFlow::Cancelled => true,
            CreateFlow::Failed(_) => true,
            _ => false,
        }
    }

    /// What the caller is to do next.
    pub fn request(&self) -> (r: CreateRequest)
        ensures
            r@ == self@.request(),
    {
        match self {
            CreateFlow::CheckingRepository { current_dir, .. } => CreateRequest::Run(
                is_git_repository_command(current_dir.as_str()),
            ),
            CreateFlow::CheckingLocal { branch, .. } => CreateRequest::Run(
                branch_exists_locally_command(branch.as_str()),
            ),
            CreateFlow::CheckingRemote { branch, .. } => CreateRequest::Run(
                branch_exists_on_remote_command(branch.as_str()),
            ),
            CreateFlow::Choosing { branch, .. } => CreateRequest::Choose(
                remote_branch_question(branch.as_str()),
            ),
            CreateFlow::ResolvingRoot { current_dir, .. } => CreateRequest::Run(
                repository_root_command(current_dir.as_str()),
            ),
            CreateFlow::ProbingTarget { plan, .. } => CreateRequest::PathExists(plan.path.clone()),
            CreateFlow::Adding { branch, create_branch, plan } => {
                match create_worktree(plan, false, branch.as_str(), *create_branch) {
                    Ok(command) => CreateRequest::Run(command),
                    Err(_) => CreateRequest::Nothing,
                }
            },
            CreateFlow::Created(_) => CreateRequest::Nothing,
            CreateFlow::Cancelled => CreateRequest::Nothing,
            CreateFlow::Failed(_) => CreateRequest::Nothing,
        }
    }

    /// Takes the caller's answer and moves on.
    pub fn advance(self, answer: CreateAnswer) -> (next: CreateFlow)
        ensures
            next@ == self@.after(answer),
    {
        match self {
            CreateFlow::CheckingRepository { branch, current_dir } => match answer {
                CreateAnswer::Output(result) => {
                    match run(branch.as_str(), as_probe(&result)) {
                        Ok(name) => CreateFlow::CheckingLocal { branch: name, current_dir },
                        Err(e) => CreateFlow::Failed(e),
                    }
                },
                _ => CreateFlow::CheckingRepository { branch, current_dir },
            },
            CreateFlow::CheckingLocal { branch, current_dir } => match answer {
                CreateAnswer::Output(result) => {
                    match require_new_branch(branch.as_str(), as_probe(&result)) {
                        Ok(_) => CreateFlow::CheckingRemote { branch, current_dir },
                        Err(e) => CreateFlow::Failed(e),
                    }
                },
                _ => CreateFlow::CheckingLocal { branch, current_dir },
            },
            CreateFlow::CheckingRemote { branch, current_dir } => match answer {
                CreateAnswer::Output(result) => {
                    if needs_choice(as_probe(&result)) {
                        CreateFlow::Choosing { branch, current_dir }
                    } else {
                        CreateFlow::ResolvingRoot { branch, current_dir, create_branch: true }
                    }
                },
                _ => CreateFlow::CheckingRemote { branch, current_dir },
            },
            CreateFlow::Choosing { branch, current_dir } => match answer {
                CreateAnswer::Choice(action) => match create_new_branch(Some(action)) {
                    Some(create_branch) => CreateFlow::ResolvingRoot {
                        branch,
                        current_dir,
                        create_branch,
                    },
                    None => CreateFlow::Cancelled,
                },
                _ => CreateFlow::Choosing { branch, current_dir },
            },
            CreateFlow::ResolvingRoot { branch, current_dir, create_branch } => match answer {
                CreateAnswer::Output(result) => match result {
                    Err(reason) => CreateFlow::Failed(DevError::IoError(reason)),
                    Ok(out) => match plan_worktree(&out, branch.as_str()) {
                        Ok(plan) => CreateFlow::ProbingTarget { branch, create_branch, plan },
                        Err(e) => CreateFlow::Failed(e),
                    },
                },
                _ => CreateFlow::ResolvingRoot { branch, current_dir, create_branch },
            },
            CreateFlow::ProbingTarget { branch, create_branch, plan } => match answer {
                CreateAnswer::Exists(exists) => {
                    match create_worktree(&plan, exists, branch.as_str(), create_branch) {
                        Ok(_) => CreateFlow::Adding { branch, create_branch, plan },
                        Err(e) => CreateFlow::Failed(e),
                    }
                },
                _ => CreateFlow::ProbingTarget { branch, create_branch, plan },
            },
            CreateFlow::Adding { branch, create_branch, plan } => match answer {
                CreateAnswer::Output(result) => match result {
                    Err(reason) => CreateFlow::Failed(DevError::IoError(reason)),
                    Ok(out) => match worktree_created(plan, &out) {
                        Ok(path) => CreateFlow::Created(path),
                        Err(e) => CreateFlow::Failed(e),
                    },
                },
                _ => CreateFlow::Adding { branch, create_branch, plan },
            },
            CreateFlow::Created(path) => CreateFlow::Created(path),
            CreateFlow::Cancelled => CreateFlow::Cancelled,
            CreateFlow::Failed(e) => CreateFlow::Failed(e),
        }
    }
}

} // verus!
