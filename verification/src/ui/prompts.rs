//! The questions that the tool asks, and what the answers mean.
use crate::text::concat3;
use vstd::prelude::*;

verus! {

/// What to do about a branch that exists on the remote already.
#[derive(Debug, Clone, Copy, PartialEq, Eq, Structural)]
pub enum RemoteBranchAction {
    /// Check the remote branch out.
    Checkout,
    /// Create a local branch of the same name, which will diverge.
    CreateDivergent,
    /// Do nothing.
    Cancel,
}

/// The words with which an action is offered.
pub open spec fn action_label(action: RemoteBranchAction) -> Seq<char> {
    match action {
        RemoteBranchAction::Checkout => "Checkout existing remote branch"@,
        RemoteBranchAction::CreateDivergent => "Create new local branch (will diverge)"@,
        RemoteBranchAction::Cancel => "Cancel"@,
    }
}

/// The actions in the order in which they are offered.
pub open spec fn offered_actions() -> Seq<RemoteBranchAction> {
    seq![
        RemoteBranchAction::Checkout,
        RemoteBranchAction::CreateDivergent,
        RemoteBranchAction::Cancel,
    ]
}

impl RemoteBranchAction {
    /// The words with which the action is offered.
    pub fn label(&self) -> (r: &'static str)
        ensures
            r@ == action_label(*self),
    {
        match self {
            RemoteBranchAction::Checkout => "Checkout existing remote branch",
            RemoteBranchAction::CreateDivergent => "Create new local branch (will diverge)",
            RemoteBranchAction::Cancel => "Cancel",
        }
    }

    /// The actions in the order in which they are offered.
    pub fn offered() -> (r: Vec<RemoteBranchAction>)
        ensures
            r@ == offered_actions(),
    {
        let mut r: Vec<RemoteBranchAction> = Vec::new();
        r.push(RemoteBranchAction::Checkout);
        r.push(RemoteBranchAction::CreateDivergent);
        r.push(RemoteBranchAction::Cancel);
        assert(r@ =~= offered_actions());
        r
    }
}

/// The question put to the user about a branch that exists on the remote.
pub fn remote_branch_question(branch: &str) -> (r: String)
    ensures
        r@ == "Branch '"@ + branch@ + "' exists on remote. What would you like to do?"@,
{
    concat3("Branch '", branch, "' exists on remote. What would you like to do?")
}

/// The action that the user picked: the one offered at `selection`.
pub fn prompt_remote_branch_action(selection: usize) -> (r: RemoteBranchAction)
    requires
        selection < offered_actions().len(),
    ensures
        r == offered_actions()[selection as int],
{
    if selection == 0 {
        RemoteBranchAction::Checkout
    } else if selection == 1 {
        RemoteBranchAction::CreateDivergent
    } else {
        RemoteBranchAction::Cancel
    }
}

/// How a project comes to be.
#[derive(Debug, Clone, PartialEq, Eq)]
pub enum InitType {
    /// A new repository is created.
    NewRepo,
    /// An existing directory is registered.
    ExistingDir(String),
    /// A repository is cloned from a URL.
    CloneUrl(String),
}

/// The words with which a way to start a project is offered.
pub open spec fn init_label(kind: InitType) -> Seq<char> {
    match kind {
        InitType::NewRepo => "Create new repository"@,
        InitType::ExistingDir(_) => "Initialize in existing directory"@,
        InitType::CloneUrl(_) => "Clone from URL"@,
    }
}

impl InitType {
    /// The words with which this way to start a project is offered.
    pub fn label(&self) -> (r: &'static str)
        ensures
            r@ == init_label(*self),
    {
        match self {
            InitType::NewRepo => "Create new repository",
            InitType::ExistingDir(_) => "Initialize in existing directory",
            InitType::CloneUrl(_) => "Clone from URL",
        }
    }
}

} // verus!
