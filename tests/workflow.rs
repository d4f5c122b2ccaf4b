use renovate_merge::abort::{self, AbortStep};
use renovate_merge::continue_merging::{self, ContinueError};
use renovate_merge::start::{integration_branch, partition_prs, Action, Batch, CiState, Event, Phase, Prs, PullRequest};
use renovate_merge::state::{initial_state, State};
use renovate_merge::status::report;

fn names(v: &[&str]) -> Vec<String> {
    v.iter().map(|s| s.to_string()).collect()
}

fn state_with(prs: &[&str]) -> State {
    initial_state(
        Prs { ci_failures: names(&["broken"]), possible_prs: names(prs) },
        "abc123".to_string(),
        "main".to_string(),
    )
}

#[test]
fn initial_state_is_empty() {
    let s = state_with(&["a", "b"]);
    assert_eq!(s.starting_git_sha, "abc123");
    assert_eq!(s.starting_branch, "main");
    assert_eq!(s.prs.possible_prs, names(&["a", "b"]));
    assert_eq!(s.prs.ci_failures, names(&["broken"]));
    assert_eq!(s.current_pr, None);
    assert!(s.succeeded_to_merge.is_empty());
    assert!(s.failed_to_merge.is_empty());
}

#[test]
fn prs_are_filtered_and_partitioned() {
    let pr = |author: &str, branch: &str, checks: Vec<Option<CiState>>| PullRequest {
        author: author.to_string(),
        head_ref_name: branch.to_string(),
        checks,
    };
    let prs = vec![
        pr("bot", "one", vec![Some(CiState::Success)]),
        pr("someone", "two", vec![]),
        pr("bot", "three", vec![Some(CiState::Completed), Some(CiState::Failure)]),
        pr("bot", "four", vec![None]),
        pr("bot", "five", vec![]),
    ];
    let out = partition_prs(&prs, &"bot".to_string());
    assert_eq!(out.ci_failures, names(&["three"]));
    assert_eq!(out.possible_prs, names(&["one", "four", "five"]));
}

#[test]
fn batch_continues_past_a_failed_candidate() {
    let mut s = state_with(&["c1", "c2", "c3"]);
    let (mut b, a) = Batch::new(names(&["c1", "c2", "c3"]), &mut s);
    assert_eq!(a, Action::Merge("c1".to_string()));
    assert_eq!(s.current_pr.as_deref(), Some("c1"));
    assert_eq!(b.step(&mut s, Event::Merged), Action::Merge("c2".to_string()));
    assert_eq!(s.current_pr.as_deref(), Some("c2"));
    assert_eq!(b.step(&mut s, Event::Conflicted), Action::RunMergeTool);
    assert_eq!(b.step(&mut s, Event::Unresolved), Action::AbortMerge);
    assert_eq!(b.step(&mut s, Event::Aborted), Action::Merge("c3".to_string()));
    assert_eq!(b.step(&mut s, Event::Conflicted), Action::RunMergeTool);
    assert_eq!(b.step(&mut s, Event::Resolved), Action::FinishMerge);
    assert_eq!(b.step(&mut s, Event::Validated), Action::Finish);
    assert_eq!(b.phase, Phase::Done);
    assert_eq!(s.succeeded_to_merge, names(&["c1", "c3"]));
    assert_eq!(s.failed_to_merge, names(&["c2"]));
    assert_eq!(s.current_pr, None);
}

#[test]
fn failed_build_abandons_candidate() {
    let mut s = state_with(&["c1"]);
    let (mut b, _) = Batch::new(names(&["c1"]), &mut s);
    b.step(&mut s, Event::Conflicted);
    b.step(&mut s, Event::Resolved);
    assert_eq!(b.step(&mut s, Event::Invalid), Action::AbortMerge);
    assert_eq!(b.step(&mut s, Event::Aborted), Action::Finish);
    assert!(s.succeeded_to_merge.is_empty());
    assert_eq!(s.failed_to_merge, names(&["c1"]));
}

#[test]
fn batch_accepts_only_fitting_events() {
    let mut s = state_with(&["c1"]);
    let (b, _) = Batch::new(names(&["c1"]), &mut s);
    assert!(b.accepts(Event::Merged));
    assert!(b.accepts(Event::Conflicted));
    assert!(!b.accepts(Event::Aborted));
    let (empty, a) = Batch::new(Vec::new(), &mut s);
    assert_eq!(a, Action::Finish);
    assert!(!empty.accepts(Event::Merged));
}

#[test]
fn continue_resumes_at_current_candidate() {
    let mut s = state_with(&["c1", "c2", "c3"]);
    s.current_pr = Some("c2".to_string());
    assert_eq!(continue_merging::run(&s), Ok(names(&["c2", "c3"])));
    s.current_pr = Some("c1".to_string());
    assert_eq!(continue_merging::run(&s), Ok(names(&["c1", "c2", "c3"])));
    s.current_pr = Some("gone".to_string());
    assert_eq!(continue_merging::run(&s), Ok(Vec::new()));
    s.current_pr = None;
    assert_eq!(continue_merging::run(&s), Err(ContinueError::NoCurrentPr));
}

#[test]
fn abort_restores_starting_point() {
    let mut s = state_with(&["c1", "c2"]);
    s.succeeded_to_merge = names(&["c1", "c2"]);
    let steps = abort::run(&s, &"renovate-2024-01-01".to_string());
    assert_eq!(
        steps,
        vec![
            AbortStep::Restore,
            AbortStep::SwitchBranch("main".to_string()),
            AbortStep::DeleteBranch("renovate-2024-01-01".to_string()),
            AbortStep::ResetHard("abc123".to_string()),
            AbortStep::DeleteState,
        ]
    );
}

#[test]
fn status_report_lists_outcomes() {
    let mut s = state_with(&["c1", "c2", "c3"]);
    assert_eq!(
        report(&s),
        names(&["Current PR: NONE", "Successful merges:", "Failed to merge"])
    );
    s.current_pr = Some("c3".to_string());
    s.succeeded_to_merge = names(&["c1", "c3"]);
    s.failed_to_merge = names(&["c2"]);
    assert_eq!(
        report(&s),
        names(&["Current PR: c3", "Successful merges:", "\tc1", "\tc3", "Failed to merge", "\tc2"])
    );
}

#[test]
fn integration_branch_is_dated() {
    assert_eq!(integration_branch(&"2024-03-05".to_string()), "renovate-2024-03-05");
}
