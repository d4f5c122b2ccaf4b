use vstd::prelude::*;
use crate::state::State;

verus! {

/// One operation of unwinding a run.
#[derive(Clone, Debug, PartialEq, Eq)]
pub enum AbortStep {
    /// Discard the changes of the working tree.
    Restore,
    /// Switch to the named branch.
    SwitchBranch(String),
    /// Force-delete the named branch.
    DeleteBranch(String),
    /// Reset the branch in hand to the named commit.
    ResetHard(String),
    /// Remove the record of the run.
    DeleteState,
}

/// The operations that unwind a run, in order, given the branch in hand: the
/// tree is restored, the starting branch taken back, the branch of the run
/// deleted, the starting commit restored, and the record removed.
pub fn run(s: &State, current_branch: &String) -> (r: Vec<AbortStep>)
    ensures
        r@.len() == 5,
        r@[0] == AbortStep::Restore,
        r@[1] matches AbortStep::SwitchBranch(b) && b@ == s.starting_branch@,
        r@[2] matches AbortStep::DeleteBranch(b) && b@ == current_branch@,
        r@[3] matches AbortStep::ResetHard(c) && c@ == s.starting_git_sha@,
        r@[4] == AbortStep::DeleteState,
{
    let mut steps: Vec<AbortStep> = Vec::new();
    steps.push(AbortStep::Restore);
    steps.push(AbortStep::SwitchBranch(s.starting_branch.clone()));
    steps.push(AbortStep::DeleteBranch(current_branch.clone()));
    steps.push(AbortStep::ResetHard(s.starting_git_sha.clone()));
    steps.push(AbortStep::DeleteState);
    steps
}

} // verus!
