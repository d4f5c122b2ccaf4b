use vstd::prelude::*;
use crate::state::State;

verus! {

/// Why a run cannot be continued.
#[derive(Clone, Copy, Debug, PartialEq, Eq, Structural)]
pub enum ContinueError {
    /// No candidate was ever taken in hand.
    NoCurrentPr,
}

/// The candidates from `start` on: empty where `start` is not among them.
pub open spec fn from_candidate(prs: Seq<String>, start: Seq<char>) -> Seq<String>
    decreases prs.len(),
{
    if prs.len() == 0 {
        prs
    } else if prs[0]@ == start {
        prs
    } else {
        from_candidate(prs.drop_first(), start)
    }
}

/// The candidates that a resumed run handles: those of the record from the
/// candidate in hand on, that one included.
pub fn run(s: &State) -> (r: Result<Vec<String>, ContinueError>)
    ensures
        s.current_pr is None ==> r == Err::<Vec<String>, ContinueError>(ContinueError::NoCurrentPr),
        s.current_pr matches Some(c) ==> r matches Ok(v) && v@ == from_candidate(s.prs.possible_prs@, c@),
{
    let current = match &s.current_pr {
        Some(c) => c,
        None => return Err(ContinueError::NoCurrentPr),
    };
    let prs = &s.prs.possible_prs;
    let mut i: usize = 0;
    assert(prs@.subrange(0, prs@.len() as int) =~= prs@);
    while i < prs.len() && prs[i] != *current
        invariant
            i <= prs@.len(),
            from_candidate(prs@.subrange(i as int, prs@.len() as int), current@) == from_candidate(prs@, current@),
        decreases prs@.len() - i,
    {
        assert(prs@.subrange(i as int, prs@.len() as int).drop_first() =~= prs@.subrange(i + 1, prs@.len() as int));
        i += 1;
    }
    let mut out: Vec<String> = Vec::new();
    let start = i;
    while i < prs.len()
        invariant
            start <= i <= prs@.len(),
            out@ == prs@.subrange(start as int, i as int),
        decreases prs@.len() - i,
    {
        out.push(prs[i].clone());
        assert(out@ =~= prs@.subrange(start as int, i + 1));
        i += 1;
    }
    proof {
        let rest = prs@.subrange(start as int, prs@.len() as int);
        if start < prs@.len() {
            assert(rest[0] == prs@[start as int]);
        } else {
            assert(rest.len() == 0);
        }
        assert(out@ == rest);
    }
    Ok(out)
}

} // verus!
