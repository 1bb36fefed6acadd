//! The log lines that announce which rewrite rule is applied.

use vstd::prelude::*;

verus! {

/// The log line announcing a rewrite rule: `Rule: <desc>`.
pub fn rule(desc: &str) -> (line: String)
    ensures
        line@ == seq!['R', 'u', 'l', 'e', ':', ' '] + desc@,
{
    let mut s = String::from_str("Rule: ");
    proof {
        reveal_strlit("Rule: ");
    }
    s.append(desc);
    s
}

/// The log line showing an example of a rewrite: `Example: <from> --> <into>`.
pub fn example(from: &str, into: &str) -> (line: String)
    ensures
        line@ == seq!['E', 'x', 'a', 'm', 'p', 'l', 'e', ':', ' '] + from@
            + seq![' ', '-', '-', '>', ' '] + into@,
{
    let mut s = String::from_str("Example: ");
    proof {
        reveal_strlit("Example: ");
        reveal_strlit(" --> ");
    }
    s.append(from);
    s.append(" --> ");
    s.append(into);
    s
}

} // verus!
