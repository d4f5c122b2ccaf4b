use vstd::prelude::*;
use crate::state::State;
use vstd::string::StringExecFns;

verus! {

/// The candidates of a run: those whose checks fail, which are never merged,
/// and those to merge, in order.
#[derive(Clone, Debug)]
pub struct Prs {
    pub ci_failures: Vec<String>,
    pub possible_prs: Vec<String>,
}

/// The state of one check of a change request.
#[derive(Clone, Copy, Debug, PartialEq, Eq, Structural)]
pub enum CiState {
    Failure,
    Completed,
    Success,
}

/// An open change request: its author, its branch, and the state of each check.
#[derive(Clone, Debug)]
pub struct PullRequest {
    pub author: String,
    pub head_ref_name: String,
    pub checks: Vec<Option<CiState>>,
}

pub open spec fn failing(p: PullRequest) -> bool {
    exists|k: int| 0 <= k < p.checks@.len() && p.checks@[k] == Some(CiState::Failure)
}

/// The branches of the requests by `author` among the first `n`, in order,
/// whose checks fail (`fails`) or do not.
pub open spec fn branches(prs: Seq<PullRequest>, author: Seq<char>, fails: bool, n: nat) -> Seq<Seq<char>>
    decreases n,
{
    if n == 0 || n > prs.len() {
        Seq::empty()
    } else {
        let prev = branches(prs, author, fails, (n - 1) as nat);
        let p = prs[n - 1];
        if p.author@ == author && failing(p) == fails {
            prev.push(p.head_ref_name@)
        } else {
            prev
        }
    }
}

pub open spec fn names(v: Seq<String>) -> Seq<Seq<char>> {
    v.map_values(|s: String| s@)
}

fn has_failure(p: &PullRequest) -> (r: bool)
    ensures
        r == failing(*p),
{
    let mut k: usize = 0;
    while k < p.checks.len()
        invariant
            k <= p.checks@.len(),
            forall|m: int| 0 <= m < k ==> p.checks@[m] != Some(CiState::Failure),
        decreases p.checks@.len() - k,
    {
        if let Some(CiState::Failure) = p.checks[k] {
            return true;
        }
        k += 1;
    }
    false
}

/// Keeps the requests of `author` and parts them by whether any check fails.
pub fn partition_prs(prs: &Vec<PullRequest>, author: &String) -> (r: Prs)
    ensures
        names(r.ci_failures@) == branches(prs@, author@, true, prs@.len()),
        names(r.possible_prs@) == branches(prs@, author@, false, prs@.len()),
{
    let mut ci_failures: Vec<String> = Vec::new();
    let mut possible_prs: Vec<String> = Vec::new();
    let mut i: usize = 0;
    while i < prs.len()
        invariant
            i <= prs@.len(),
            names(ci_failures@) == branches(prs@, author@, true, i as nat),
            names(possible_prs@) == branches(prs@, author@, false, i as nat),
        decreases prs@.len() - i,
    {
        let p = &prs[i];
        if p.author == *author {
            if has_failure(p) {
                ci_failures.push(p.head_ref_name.clone());
                assert(names(ci_failures@) =~= names(ci_failures@.drop_last()).push(p.head_ref_name@));
            } else {
                possible_prs.push(p.head_ref_name.clone());
                assert(names(possible_prs@) =~= names(possible_prs@.drop_last()).push(p.head_ref_name@));
            }
        }
        i += 1;
    }
    Prs { ci_failures, possible_prs }
}

/// The name of the branch that a run started on the given day merges into.
pub fn integration_branch(today: &String) -> (r: String)
    ensures
        r@ == "renovate-"@ + today@,
{
    let mut name = String::from_str("renovate-");
    name.append(today.as_str());
    name
}

/// Where the merge of the candidate in hand stands.
#[derive(Clone, Copy, Debug, PartialEq, Eq, Structural)]
pub enum Phase {
    /// A direct merge of the candidate was asked for.
    Attempting,
    /// The merge conflicted and the merge tool was asked for.
    Resolving,
    /// The resolution was finished and the build asked for.
    Validating,
    /// The candidate was abandoned and the merge is being aborted.
    Aborting,
    /// Every candidate was handled.
    Done,
}

/// What the outside work reported.
#[derive(Clone, Copy, Debug, PartialEq, Eq, Structural)]
pub enum Event {
    /// The direct merge succeeded.
    Merged,
    /// The direct merge conflicted.
    Conflicted,
    /// The merge tool resolved the conflict.
    Resolved,
    /// The merge tool failed or was given up.
    Unresolved,
    /// The lock files were taken from the candidate, the build passed and the
    /// merge was committed.
    Validated,
    /// The build failed.
    Invalid,
    /// The merge was aborted.
    Aborted,
}

/// What the outside work is to do next.
#[derive(Clone, Debug, PartialEq, Eq)]
pub enum Action {
    /// Merge the named candidate directly.
    Merge(String),
    /// Run the merge tool on the conflict.
    RunMergeTool,
    /// Take the candidate's lock files and build; commit the merge where the
    /// build passes.
    FinishMerge,
    /// Abort the merge in progress.
    AbortMerge,
    /// Nothing is left.
    Finish,
}

/// A batch run over a list of candidates, one at a time.
#[derive(Clone, Debug)]
pub struct Batch {
    pub queue: Vec<String>,
    pub next: usize,
    pub phase: Phase,
}

/// Whether the event can come in that phase.
pub open spec fn fits(p: Phase, e: Event) -> bool {
    match p {
        Phase::Attempting => e == Event::Merged || e == Event::Conflicted,
        Phase::Resolving => e == Event::Resolved || e == Event::Unresolved,
        Phase::Validating => e == Event::Validated || e == Event::Invalid,
        Phase::Aborting => e == Event::Aborted,
        Phase::Done => false,
    }
}

impl Batch {
    pub open spec fn wf(&self) -> bool {
        &&& self.next <= self.queue@.len()
        &&& (self.phase == Phase::Done <==> self.next == self.queue@.len())
    }

    /// The candidate in hand.
    pub open spec fn candidate(&self) -> String {
        self.queue@[self.next as int]
    }

    /// A run over the candidates, none yet handled: the first action takes the
    /// first candidate in hand and merges it.
    pub fn new(queue: Vec<String>, state: &mut State) -> (r: (Batch, Action))
        ensures
            r.0.wf(),
            r.0.queue@ == queue@,
            r.0.next == 0,
            queue@.len() == 0 ==> {
                &&& r.0.phase == Phase::Done
                &&& r.1 == Action::Finish
                &&& final(state).current_pr is None
                &&& final(state).succeeded_to_merge == old(state).succeeded_to_merge
                &&& final(state).failed_to_merge == old(state).failed_to_merge
                &&& final(state).prs == old(state).prs
                &&& final(state).starting_branch == old(state).starting_branch
                &&& final(state).starting_git_sha == old(state).starting_git_sha
            },
            queue@.len() > 0 ==> {
                &&& r.0.phase == Phase::Attempting
                &&& r.1 == Action::Merge(queue@[0])
                &&& final(state).current_pr == Some(queue@[0])
                &&& final(state).succeeded_to_merge == old(state).succeeded_to_merge
                &&& final(state).failed_to_merge == old(state).failed_to_merge
                &&& final(state).prs == old(state).prs
                &&& final(state).starting_branch == old(state).starting_branch
                &&& final(state).starting_git_sha == old(state).starting_git_sha
            },
    {
        let mut b = Batch { queue, next: 0, phase: Phase::Attempting };
        let a = b.take_next(state);
        (b, a)
    }

    /// Takes the candidate at `next` in hand, or finishes where none is left.
    fn take_next(&mut self, state: &mut State) -> (a: Action)
        requires
            old(self).next <= old(self).queue@.len(),
        ensures
            final(self).wf(),
            final(self).queue == old(self).queue,
            final(self).next == old(self).next,
            old(self).next == old(self).queue@.len() ==> {
                &&& final(self).phase == Phase::Done
                &&& a == Action::Finish
                &&& final(state).current_pr is None
                &&& final(state).succeeded_to_merge == old(state).succeeded_to_merge
                &&& final(state).failed_to_merge == old(state).failed_to_merge
                &&& final(state).prs == old(state).prs
                &&& final(state).starting_branch == old(state).starting_branch
                &&& final(state).starting_git_sha == old(state).starting_git_sha
            },
            old(self).next < old(self).queue@.len() ==> {
                &&& final(self).phase == Phase::Attempting
                &&& a == Action::Merge(old(self).queue@[old(self).next as int])
                &&& final(state).current_pr == Some(old(self).queue@[old(self).next as int])
                &&& final(state).succeeded_to_merge == old(state).succeeded_to_merge
                &&& final(state).failed_to_merge == old(state).failed_to_merge
                &&& final(state).prs == old(state).prs
                &&& final(state).starting_branch == old(state).starting_branch
                &&& final(state).starting_git_sha == old(state).starting_git_sha
            },
    {
        if self.next < self.queue.len() {
            let pr = self.queue[self.next].clone();
            state.current_pr = Some(pr.clone());
            self.phase = Phase::Attempting;
            Action::Merge(pr)
        } else {
            state.current_pr = None;
            self.phase = Phase::Done;
            Action::Finish
        }
    }

    /// Whether the event can come now.
    pub fn accepts(&self, e: Event) -> (r: bool)
        ensures
            r == fits(self.phase, e),
    {
        match self.phase {
            Phase::Attempting => e == Event::Merged || e == Event::Conflicted,
            Phase::Resolving => e == Event::Resolved || e == Event::Unresolved,
            Phase::Validating => e == Event::Validated || e == Event::Invalid,
            Phase::Aborting => e == Event::Aborted,
            Phase::Done => false,
        }
    }

    /// Takes the report of the outside work and says what to do next. A merged
    /// or validated candidate is recorded as succeeded and the next one taken in
    /// hand; an unresolved or invalid one is recorded as failed and its merge
    /// aborted, after which the next one is taken in hand.
    pub fn step(&mut self, state: &mut State, e: Event) -> (a: Action)
        requires
            old(self).wf(),
            fits(old(self).phase, e),
        ensures
            final(self).wf(),
            final(self).queue == old(self).queue,
            final(state).prs == old(state).prs,
            final(state).starting_branch == old(state).starting_branch,
            final(state).starting_git_sha == old(state).starting_git_sha,
            e == Event::Conflicted ==> final(self).phase == Phase::Resolving && a == Action::RunMergeTool
                && final(self).next == old(self).next && *final(state) == *old(state),
            e == Event::Resolved ==> final(self).phase == Phase::Validating && a == Action::FinishMerge
                && final(self).next == old(self).next && *final(state) == *old(state),
            (e == Event::Unresolved || e == Event::Invalid) ==> {
                &&& final(self).phase == Phase::Aborting
                &&& a == Action::AbortMerge
                &&& final(self).next == old(self).next
                &&& final(state).failed_to_merge@ == old(state).failed_to_merge@.push(old(self).candidate())
                &&& final(state).succeeded_to_merge == old(state).succeeded_to_merge
                &&& final(state).current_pr == old(state).current_pr
            },
            (e == Event::Merged || e == Event::Validated) ==> {
                &&& final(self).next == old(self).next + 1
                &&& final(state).succeeded_to_merge@ == old(state).succeeded_to_merge@.push(old(self).candidate())
                &&& final(state).failed_to_merge == old(state).failed_to_merge
                &&& next_taken(*final(self), *final(state), a)
            },
            e == Event::Aborted ==> {
                &&& final(self).next == old(self).next + 1
                &&& final(state).succeeded_to_merge == old(state).succeeded_to_merge
                &&& final(state).failed_to_merge == old(state).failed_to_merge
                &&& next_taken(*final(self), *final(state), a)
            },
    {
        let len = self.queue.len();
        assert(self.phase != Phase::Done);
        assert(self.next < len);
        match e {
            Event::Conflicted => {
                self.phase = Phase::Resolving;
                Action::RunMergeTool
            },
            Event::Resolved => {
                self.phase = Phase::Validating;
                Action::FinishMerge
            },
            Event::Unresolved | Event::Invalid => {
                let pr = self.queue[self.next].clone();
                state.failed_to_merge.push(pr);
                self.phase = Phase::Aborting;
                Action::AbortMerge
            },
            Event::Merged | Event::Validated => {
                let pr = self.queue[self.next].clone();
                state.succeeded_to_merge.push(pr);
                self.next = self.next + 1;
                self.take_next(state)
            },
            Event::Aborted => {
                self.next = self.next + 1;
                self.take_next(state)
            },
        }
    }
}

/// After a candidate is done: the next one is in hand and merged, or, where
/// none is left, the run is finished and no candidate is in hand.
pub open spec fn next_taken(b1: Batch, s1: State, a: Action) -> bool {
    if b1.next < b1.queue@.len() {
        &&& b1.phase == Phase::Attempting
        &&& a == Action::Merge(b1.queue@[b1.next as int])
        &&& s1.current_pr == Some(b1.queue@[b1.next as int])
    } else {
        &&& b1.phase == Phase::Done
        &&& a == Action::Finish
        &&& s1.current_pr is None
    }
}

} // verus!
