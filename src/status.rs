use vstd::prelude::*;
use vstd::string::StringExecFns;
use crate::state::State;

verus! {

/// The first line of the report: the candidate in hand, or `NONE`.
pub open spec fn current_line(s: State) -> Seq<char> {
    "Current PR: "@ + match s.current_pr {
        Some(c) => c@,
        None => "NONE"@,
    }
}

/// Lines under a heading: each name after a tab.
pub open spec fn indented(v: Seq<String>) -> Seq<Seq<char>> {
    v.map_values(|s: String| "\t"@ + s@)
}

pub open spec fn views(v: Seq<String>) -> Seq<Seq<char>> {
    v.map_values(|s: String| s@)
}

fn push_indented(out: &mut Vec<String>, names: &Vec<String>)
    ensures
        views(final(out)@) == views(old(out)@) + indented(names@),
{
    let ghost start = views(out@);
    let mut i: usize = 0;
    while i < names.len()
        invariant
            i <= names@.len(),
            views(out@) == start + indented(names@.subrange(0, i as int)),
        decreases names@.len() - i,
    {
        let mut line = String::from_str("\t");
        line.append(names[i].as_str());
        assert(line@ == "\t"@ + names@[i as int]@);
        let ghost before = out@;
        out.push(line);
        assert(indented(names@.subrange(0, i + 1)) =~= indented(names@.subrange(0, i as int)).push("\t"@ + names@[i as int]@));
        assert(views(out@) =~= views(before).push("\t"@ + names@[i as int]@));
        i += 1;
    }
    assert(names@.subrange(0, names@.len() as int) =~= names@);
}

/// The report of a run: the candidate in hand, then the succeeded and the
/// failed candidates, one per line.
pub fn report(s: &State) -> (r: Vec<String>)
    ensures
        views(r@) == seq![current_line(*s), "Successful merges:"@]
            + indented(s.succeeded_to_merge@) + seq!["Failed to merge"@] + indented(s.failed_to_merge@),
{
    let mut out: Vec<String> = Vec::new();
    let mut first = String::from_str("Current PR: ");
    match &s.current_pr {
        Some(c) => first.append(c.as_str()),
        None => first.append("NONE"),
    }
    proof {
        reveal_strlit("Current PR: ");
        reveal_strlit("NONE");
    }
    assert(first@ == current_line(*s));
    out.push(first);
    out.push(String::from_str("Successful merges:"));
    assert(views(out@) =~= seq![current_line(*s), "Successful merges:"@]);
    push_indented(&mut out, &s.succeeded_to_merge);
    let ghost before = out@;
    out.push(String::from_str("Failed to merge"));
    assert(views(out@) =~= views(before).push("Failed to merge"@));
    push_indented(&mut out, &s.failed_to_merge);
    let ghost head = seq![current_line(*s), "Successful merges:"@];
    assert(views(out@) =~= head + indented(s.succeeded_to_merge@) + seq!["Failed to merge"@] + indented(s.failed_to_merge@));
    out
}

} // verus!
