//! `continue` becomes a labeled `break` out of a labeled block that wraps the
//! loop body; the loop/label stack in `MapperState` tracks the targets.

use vstd::prelude::*;
use crate::ast::{Stmt};
use crate::mapper::MapperAction;
use crate::mapper_state::{ident_name, next_counter, MapperState};
use crate::spec_ast::{v_stmt, SStmt};

verus! {

/// `#loop`: the stack entry of a loop.
pub open spec fn loop_marker() -> Seq<char> {
    seq!['#', 'l', 'o', 'o', 'p']
}

/// The labels of the stack entries.
pub open spec fn stack_labels(s: Seq<(String, Option<String>)>) -> Seq<Seq<char>> {
    s.map_values(|e: (String, Option<String>)| e.0@)
}

/// The label a `continue` looks for: its own, or `#loop`.
pub open spec fn continue_target(label: Option<Seq<char>>) -> Seq<char> {
    match label {
        Some(l) => l,
        None => loop_marker(),
    }
}

/// The last index in `labels` holding `target`, or -1.
pub open spec fn last_index_of(labels: Seq<Seq<char>>, target: Seq<char>) -> int
    decreases labels.len(),
{
    if labels.len() == 0 {
        -1
    } else if labels.last() == target {
        labels.len() - 1
    } else {
        last_index_of(labels.drop_last(), target)
    }
}

/// A `continue` with this label has a target on the stack: an entry with its
/// label, and for a labeled `continue` an entry after it (the labeled loop).
pub open spec fn continue_ok(labels: Seq<Seq<char>>, label: Option<Seq<char>>) -> bool {
    let i = last_index_of(labels, continue_target(label));
    &&& i >= 0
    &&& (continue_target(label) != loop_marker() ==> i + 1 < labels.len())
}

/// The index of the stack entry that receives the generated label.
pub open spec fn continue_slot(labels: Seq<Seq<char>>, label: Option<Seq<char>>) -> int {
    let i = last_index_of(labels, continue_target(label));
    if continue_target(label) == loop_marker() { i } else { i + 1 }
}

pub proof fn lemma_last_index_of(labels: Seq<Seq<char>>, target: Seq<char>)
    ensures
        -1 <= last_index_of(labels, target) < labels.len(),
        last_index_of(labels, target) >= 0 ==> labels[last_index_of(labels, target)] == target,
        forall|j: int| last_index_of(labels, target) < j < labels.len() ==> labels[j] != target,
    decreases labels.len(),
{
    if labels.len() > 0 && labels.last() != target {
        let d = labels.drop_last();
        lemma_last_index_of(d, target);
        assert forall|j: int| last_index_of(labels, target) < j < labels.len() implies labels[j] != target by {
            if j < d.len() {
                assert(labels[j] == d[j]);
            }
        }
    }
}

/// The rewrite of `continue` (with label `l`, on the stack `st`, counter
/// `c0`) into `out`, leaving counter `c1` and stack `st1`: the entry of the
/// loop the `continue` targets (the innermost loop, or the loop right after
/// the label) gives its generated label, or, having none, gets a fresh one,
/// and `out` breaks to it. All `continue`s to one loop share one label.
pub open spec fn continue_rewrite(
    l: Option<Seq<char>>,
    st: Seq<(String, Option<String>)>,
    c0: usize,
    out: SStmt,
    c1: usize,
    st1: Seq<(String, Option<String>)>,
) -> bool {
    let labels = stack_labels(st);
    let i = last_index_of(labels, continue_target(l));
    let slot = continue_slot(labels, l);
    match st[slot].1 {
        Some(g) => {
            &&& out == SStmt::Break(Some(g@))
            &&& c1 == c0
            &&& st1 == st
        },
        None => {
            &&& out == SStmt::Break(Some(ident_name(c0 as nat)))
            &&& c1 == next_counter(c0)
            &&& st1.len() == st.len()
            &&& st1[slot].0 == st[slot].0
            &&& st1[slot].1 matches Some(g) && g@ == ident_name(c0 as nat)
            &&& forall|j: int| 0 <= j < st.len() && j != slot ==> #[trigger] st1[j] == st[j]
        },
    }
}

/// Rewrites `continue label;` into `break <generated>;` and records the
/// generated label on the stack: on the targeted loop's entry for an unlabeled
/// `continue`, on the entry after the label for a labeled one. A label
/// already generated for that loop is reused, so every `continue` to one loop
/// breaks to the same label.
pub fn transform_continue_statement(label: Option<String>, state: &mut MapperState) -> (r: (
    MapperAction,
    Stmt,
))
    requires
        continue_ok(stack_labels(old(state).continue_targets@), crate::spec_ast::vs_opt(label)),
    ensures
        r.0 == MapperAction::Revisit,
        continue_rewrite(crate::spec_ast::vs_opt(label), old(state).continue_targets@, old(state).id_counter, r.1@,
            final(state).id_counter, final(state).continue_targets@),
{
    let target = match label {
        Some(l) => l,
        None => String::from_str("#loop"),
    };
    let ghost labels = stack_labels(state.continue_targets@);
    let ghost last = last_index_of(labels, target@);
    proof {
        reveal_strlit("#loop");
        assert("#loop"@ =~= loop_marker());
        assert(target@ == continue_target(crate::spec_ast::vs_opt(label)));
        lemma_last_index_of(labels, target@);
    }
    let len = state.continue_targets.len();
    let mut i: usize = len;
    // Search from the top of the stack.
    while i > 0
        invariant
            i <= len,
            len == state.continue_targets@.len(),
            labels == stack_labels(state.continue_targets@),
            last == last_index_of(labels, target@),
            0 <= last < i,
            last < len,
            forall|j: int| last < j < len ==> labels[j] != target@,
            labels[last] == target@,
        ensures
            i > 0,
            labels[i - 1] == target@,
        decreases i,
    {
        let found = state.continue_targets[i - 1].0 == target;
        proof {
            assert(labels[i - 1] == state.continue_targets@[i - 1].0@);
        }
        if found {
            break;
        }
        i = i - 1;
    }
    let idx = i - 1;
    assert(idx == last);
    let is_loop = target == String::from_str("#loop");
    assert(is_loop == (target@ == loop_marker()));
    let slot = if is_loop { idx } else { idx + 1 };
    let existing = match &state.continue_targets[slot].1 {
        Some(g) => Some(g.clone()),
        None => None,
    };
    let generated = match existing {
        Some(g) => g,
        None => {
            let g = state.next_ident_name();
            let name = state.continue_targets[slot].0.clone();
            state.continue_targets.set(slot, (name, Some(g.clone())));
            g
        },
    };
    let out = Stmt::Break(Some(generated));
    (MapperAction::Revisit, out)
}

/// The model of the bookkeeping step for a statement: on entering a loop or a
/// label nothing changes in the statement; on leaving a loop whose stack entry
/// carries a generated label `g`, its body is wrapped as `g: body`.
pub open spec fn spec_wrap_loop_body(s: SStmt, g: Seq<char>) -> SStmt {
    match s {
        SStmt::DoWhile(b, t) => SStmt::DoWhile(Box::new(SStmt::Labeled(g, b)), t),
        SStmt::For(i, t, u, b) => SStmt::For(i, t, u, Box::new(SStmt::Labeled(g, b))),
        SStmt::ForIn(l, r, b) => SStmt::ForIn(l, r, Box::new(SStmt::Labeled(g, b))),
        SStmt::ForOf(l, r, b, a) => SStmt::ForOf(l, r, Box::new(SStmt::Labeled(g, b)), a),
        SStmt::While(t, b) => SStmt::While(t, Box::new(SStmt::Labeled(g, b))),
        _ => s,
    }
}

/// Loops: the statements a `continue` can target.
pub open spec fn is_loop(s: SStmt) -> bool {
    ||| s is DoWhile
    ||| s is For
    ||| s is ForIn
    ||| s is ForOf
    ||| s is While
}

/// Keeps the loop/label stack in step with the traversal: entering a loop
/// pushes `#loop`, entering a label pushes its name; leaving pops the entry,
/// and a loop whose entry carries a generated label gets its body wrapped in
/// that label.
pub fn apply_continue_transform_updates(stmt: Stmt, before: bool, state: &mut MapperState) -> (r: Stmt)
    requires
        !before && (is_loop(stmt@) || stmt@ is Labeled) ==> old(state).continue_targets@.len() > 0,
    ensures
        final(state).id_counter == old(state).id_counter,
        before ==> r@ == stmt@,
        before && is_loop(stmt@) ==> final(state).continue_targets@.len() == old(state).continue_targets@.len() + 1
            && final(state).continue_targets@.drop_last() == old(state).continue_targets@
            && final(state).continue_targets@.last().0@ == loop_marker()
            && final(state).continue_targets@.last().1 is None,
        before ==> (stmt@ matches SStmt::Labeled(l, _) ==> (final(state).continue_targets@.len() == old(state).continue_targets@.len() + 1
            && final(state).continue_targets@.drop_last() == old(state).continue_targets@
            && final(state).continue_targets@.last().0@ == l
            && final(state).continue_targets@.last().1 is None)),
        !before && (is_loop(stmt@) || stmt@ is Labeled) ==> final(state).continue_targets@ == old(state).continue_targets@.drop_last(),
        !before && stmt@ is Labeled ==> r@ == stmt@,
        !before && is_loop(stmt@) ==> r@ == (match old(state).continue_targets@.last().1 {
            Some(g) => spec_wrap_loop_body(stmt@, g@),
            None => stmt@,
        }),
        !(is_loop(stmt@) || stmt@ is Labeled) ==> r@ == stmt@ && final(state).continue_targets@ == old(state).continue_targets@,
{
    let ghost s0 = stmt@;
    proof {
        reveal_strlit("#loop");
        assert("#loop"@ =~= loop_marker());
    }
    match stmt {
        Stmt::Labeled(l, b) => {
            if before {
                let name = l.clone();
                state.continue_targets.push((name, None));
            } else {
                let _ = state.continue_targets.pop();
            }
            Stmt::Labeled(l, b)
        },
        Stmt::DoWhile(_, _) | Stmt::For(_, _, _, _) | Stmt::ForIn(_, _, _) | Stmt::ForOf(_, _, _, _) | Stmt::While(_, _) => {
            if before {
                state.continue_targets.push((String::from_str("#loop"), None));
                stmt
            } else {
                let top = state.continue_targets.pop();
                match top {
                    Some((_, Some(used))) => wrap_loop_body(stmt, used),
                    _ => stmt,
                }
            }
        },
        other => other,
    }
}

/// Wraps the body of a loop statement in `label: body`.
fn wrap_loop_body(stmt: Stmt, label: String) -> (r: Stmt)
    ensures
        r@ == spec_wrap_loop_body(stmt@, label@),
{
    match stmt {
        Stmt::DoWhile(b, t) => {
            let nb = Stmt::Labeled(label, b);
            assert(nb@ == SStmt::Labeled(label@, Box::new(v_stmt(*b))));
            Stmt::DoWhile(Box::new(nb), t)
        },
        Stmt::For(i, t, u, b) => {
            let nb = Stmt::Labeled(label, b);
            assert(nb@ == SStmt::Labeled(label@, Box::new(v_stmt(*b))));
            Stmt::For(i, t, u, Box::new(nb))
        },
        Stmt::ForIn(l, r, b) => {
            let nb = Stmt::Labeled(label, b);
            assert(nb@ == SStmt::Labeled(label@, Box::new(v_stmt(*b))));
            Stmt::ForIn(l, r, Box::new(nb))
        },
        Stmt::ForOf(l, r, b, a) => {
            let nb = Stmt::Labeled(label, b);
            assert(nb@ == SStmt::Labeled(label@, Box::new(v_stmt(*b))));
            Stmt::ForOf(l, r, Box::new(nb), a)
        },
        Stmt::While(t, b) => {
            let nb = Stmt::Labeled(label, b);
            assert(nb@ == SStmt::Labeled(label@, Box::new(v_stmt(*b))));
            Stmt::While(t, Box::new(nb))
        },
        other => other,
    }
}

/// Whether a `continue` with this label has a target on the stack (see
/// `continue_ok`).
pub fn continue_supported(targets: &Vec<(String, Option<String>)>, label: &Option<String>) -> (r: bool)
    ensures
        r == continue_ok(stack_labels(targets@), crate::spec_ast::vs_opt(*label)),
{
    proof {
        reveal_strlit("#loop");
        assert("#loop"@ =~= loop_marker());
    }
    let target = match label {
        Some(l) => l.clone(),
        None => String::from_str("#loop"),
    };
    let ghost labels = stack_labels(targets@);
    proof {
        lemma_last_index_of(labels, target@);
        assert(target@ == continue_target(crate::spec_ast::vs_opt(*label)));
    }
    let len = targets.len();
    let mut i: usize = len;
    while i > 0
        invariant
            i <= len,
            len == targets@.len(),
            labels == stack_labels(targets@),
            last_index_of(labels, target@) < i,
            forall|j: int| last_index_of(labels, target@) < j < len ==> labels[j] != target@,
            last_index_of(labels, target@) >= 0 ==> labels[last_index_of(labels, target@)] == target@,
            target@ == continue_target(crate::spec_ast::vs_opt(*label)),
        decreases i,
    {
        proof {
            assert(labels[i - 1] == targets@[i - 1].0@);
        }
        if targets[i - 1].0 == target {
            let is_loop = target == String::from_str("#loop");
            proof {
                reveal_strlit("#loop");
                assert("#loop"@ =~= loop_marker());
                assert(labels[i - 1] == target@);
                assert(last_index_of(labels, target@) == i - 1);
                assert(is_loop == (target@ == loop_marker()));
                assert(continue_target(crate::spec_ast::vs_opt(*label)) == target@);
            }
            return is_loop || i < len;
        }
        i = i - 1;
    }
    false
}

} // verus!
