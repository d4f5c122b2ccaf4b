use vstd::prelude::*;
use crate::start::Prs;

verus! {

/// The record of a batch run: where it started, its candidates, the candidate
/// in hand, and the outcome of each one handled so far.
#[derive(Clone, Debug)]
pub struct State {
    pub starting_git_sha: String,
    pub starting_branch: String,
    pub prs: Prs,
    pub current_pr: Option<String>,
    pub failed_to_merge: Vec<String>,
    pub succeeded_to_merge: Vec<String>,
}

/// The record of a run that has not yet handled any candidate.
pub fn initial_state(prs: Prs, sha: String, branch: String) -> (r: State)
    ensures
        r.starting_git_sha@ == sha@,
        r.starting_branch@ == branch@,
        r.prs.ci_failures@ == prs.ci_failures@,
        r.prs.possible_prs@ == prs.possible_prs@,
        r.current_pr is None,
        r.failed_to_merge@.len() == 0,
        r.succeeded_to_merge@.len() == 0,
{
    State {
        starting_git_sha: sha,
        starting_branch: branch,
        prs,
        current_pr: None,
        failed_to_merge: Vec::new(),
        succeeded_to_merge: Vec::new(),
    }
}

} // verus!
