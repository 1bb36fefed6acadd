//! The desugaring visitor: the rewrites run as the mapper visits each
//! statement.

use vstd::prelude::*;
use crate::ast::Stmt;
use crate::mapper::{MapError, MapperAction};
use crate::mapper_state::MapperState;
use crate::spec_ast::{SExpr, SStmt};
use crate::sugar::{sugar_free, sugar_free_below, sugar_free_from};
use crate::desugar_model::{after_wrap_v, dstate, opt_view, pv, pv_after, pv_before, pv_continue, tlabels, tracks, tview, DState};
use crate::transforms::stmt_continue::{continue_slot, last_index_of, lemma_last_index_of, continue_target};
use crate::mapper_state::{ident_name, next_counter};
use crate::transforms::stmt_do_while::spec_do_while;
use crate::transforms::stmt_for_n::spec_for;
use crate::transforms::stmt_for_of::{counter_after_header, for_of_ok, spec_for_of};
use crate::transforms::stmt_continue::spec_wrap_loop_body;
use crate::transforms::stmt_continue::{
    apply_continue_transform_updates, continue_rewrite, continue_ok, continue_supported, is_loop, stack_labels,
    transform_continue_statement,
};
use crate::transforms::stmt_do_while::transform_do_while_statement;
use crate::transforms::stmt_finally::{
    finally_counter, finally_ok, finally_supported, spec_finally, transform_finally_statement,
};
use crate::transforms::stmt_for_n::transform_for_n_statement;
use crate::transforms::stmt_for_of::{for_of_supported, transform_for_of_statement};
use crate::transforms::stmt_switch::{cases_ok, relabel_ok, spec_switch, transform_switch_statement};
use crate::mapper_spec::rl_cases;
use crate::transforms::stmt_var_decl::{
    block_ok, shape_ok, spec_block_items, transform_var_decl_statement, var_decl_supported,
};

verus! {

/// The statements the desugaring visitor gives back as they are: in the
/// before phase all but blocks, loops and labels; in the after phase all but
/// loops, labels, `try`, `continue` and `switch`.
pub open spec fn untouched(s: SStmt, before: bool) -> bool {
    &&& !is_loop(s)
    &&& !(s is Labeled)
    &&& before ==> !(s is Block)
    &&& !before ==> !(s is Try) && !(s is Continue) && !(s is Switch)
}

/// The view of a stack with one entry pushed.
proof fn lemma_tview_push(old: Seq<(String, Option<String>)>, new: Seq<(String, Option<String>)>)
    requires
        new.len() == old.len() + 1,
        new.drop_last() == old,
    ensures
        tview(new) == tview(old).push((new.last().0@, opt_view(new.last().1))),
{
    assert(tview(new) =~= tview(old).push((new.last().0@, opt_view(new.last().1)))) by {
        assert forall|k: int| 0 <= k < old.len() implies new[k] == old[k] by {
            assert(new.drop_last()[k] == new[k]);
        }
    }
}

/// The view of a stack with its last entry taken off.
proof fn lemma_tview_drop_last(s: Seq<(String, Option<String>)>)
    requires
        s.len() > 0,
    ensures
        tview(s.drop_last()) == tview(s).drop_last(),
        tview(s).last() == (s.last().0@, opt_view(s.last().1)),
{
    assert(tview(s.drop_last()) =~= tview(s).drop_last());
}

/// The labels of a stack are those of its view.
proof fn lemma_labels_view(s: Seq<(String, Option<String>)>)
    ensures
        crate::transforms::stmt_continue::stack_labels(s) == tlabels(tview(s)),
{
    assert(crate::transforms::stmt_continue::stack_labels(s) =~= tlabels(tview(s)));
}

/// The rewrite of a `continue` in terms of the stack's view.
proof fn lemma_continue_view(
    l: Option<Seq<char>>,
    st: Seq<(String, Option<String>)>,
    c0: usize,
    out: SStmt,
    c1: usize,
    st1: Seq<(String, Option<String>)>,
)
    requires
        continue_ok(stack_labels(st), l),
        crate::transforms::stmt_continue::continue_rewrite(l, st, c0, out, c1, st1),
    ensures
        pv_continue(l, DState { counter: c0, targets: tview(st) })
            == Ok::<((MapperAction, SStmt), DState), MapError>(((MapperAction::Revisit, out), DState { counter: c1, targets: tview(st1) })),
{
    lemma_labels_view(st);
    let labels = stack_labels(st);
    lemma_last_index_of(labels, continue_target(l));
    let slot = continue_slot(labels, l);
    assert(0 <= slot < st.len());
    match st[slot].1 {
        Some(g) => {},
        None => {
            let g = ident_name(c0 as nat);
            assert(tview(st1) =~= tview(st).update(slot, (tview(st)[slot].0, Some(g))));
        },
    }
}

/// Whether the statement is a loop or a label: the entries of the stack of
/// `continue` targets.
fn is_loop_or_label(s: &Stmt) -> (r: bool)
    ensures
        r == (crate::transforms::stmt_continue::is_loop(s@) || s@ is Labeled),
{
    match s {
        Stmt::DoWhile(..) | Stmt::For(..) | Stmt::ForIn(..) | Stmt::ForOf(..) | Stmt::While(..) | Stmt::Labeled(..) => true,
        _ => false,
    }
}

/// The before phase of the desugaring visitor on a statement that is not a
/// loop or a label: a block has its declarations normalised; anything else is
/// given back.
fn visit_before(stmt: Stmt, state: &mut MapperState) -> (r: Result<(MapperAction, Stmt), MapError>)
    ensures
        tracks(pv_before(stmt@, dstate(*old(state))), r is Ok, (r->Ok_0.0, r->Ok_0.1@), r->Err_0, dstate(*final(state))),
        final(state).continue_targets@ == old(state).continue_targets@,
        !(stmt@ is Block) ==> {
            &&& r is Ok
            &&& r->Ok_0.0 == MapperAction::Normal
            &&& r->Ok_0.1@ == stmt@
            &&& final(state).id_counter == old(state).id_counter
        },
        stmt@ matches SStmt::Block(b) ==> {
            &&& (r is Err <==> !(shape_ok(b) || block_ok(b, 0)))
            &&& r is Err ==> r->Err_0 == MapError::Unsupported
            &&& (r is Ok && shape_ok(b)) ==> r->Ok_0.0 == MapperAction::Normal && r->Ok_0.1@ == stmt@
                && final(state).id_counter == old(state).id_counter
            &&& (r is Ok && !shape_ok(b)) ==> {
                let x = spec_block_items(b, 0, old(state).id_counter);
                &&& r->Ok_0.0 == (if x.2 { MapperAction::Revisit } else { MapperAction::Normal })
                &&& r->Ok_0.1@ == SStmt::Block(x.0)
                &&& final(state).id_counter == x.1
            }
        },
{
    match stmt {
        Stmt::Block(body) => {
            if !var_decl_supported(&body) {
                return Err(MapError::Unsupported);
            }
            Ok(transform_var_decl_statement(body, state))
        },
        other => Ok((MapperAction::Normal, other)),
    }
}

/// What the after phase does to a loop or a label whose entry was already
/// taken off the stack: a `while`, `for-in` or label is given back; a
/// `do-while` becomes `spec_do_while`, a `for` becomes `spec_for` (visited
/// again when it had an init), a `for-of` becomes `spec_for_of` and is
/// visited again, or is refused when its header is not handled.
pub open spec fn after_loop_result(
    s: SStmt,
    c0: usize,
    c1: usize,
    t0: Seq<(String, Option<String>)>,
    t1: Seq<(String, Option<String>)>,
    r: Result<(MapperAction, Stmt), MapError>,
) -> bool {
    match s {
        SStmt::While(..) | SStmt::ForIn(..) | SStmt::Labeled(..) => {
            &&& r is Ok
            &&& r->Ok_0.0 == MapperAction::Normal
            &&& r->Ok_0.1@ == s
            &&& c1 == c0
            &&& t1 == t0
        },
        SStmt::DoWhile(b, t) => {
            &&& r is Ok
            &&& r->Ok_0.0 == MapperAction::Revisit
            &&& r->Ok_0.1@ == spec_do_while(*b, t, ident_name(c0 as nat))
            &&& c1 == next_counter(c0)
            &&& t1 == t0
        },
        SStmt::For(i, t, u, b) => {
            &&& r is Ok
            &&& r->Ok_0.0 == (if i is Some { MapperAction::Revisit } else { MapperAction::Normal })
            &&& r->Ok_0.1@ == spec_for(i, t, u, *b)
            &&& c1 == c0
            &&& t1 == t0
        },
        SStmt::ForOf(l, rt, b, aw) => {
            &&& (r is Err <==> !for_of_ok(l, aw))
            &&& r is Err ==> r->Err_0 == MapError::Unsupported
            &&& r is Ok ==> {
                &&& r->Ok_0.0 == MapperAction::Revisit
                &&& r->Ok_0.1@ == spec_for_of(l, rt, *b, c0)
                &&& c1 == next_counter(next_counter(counter_after_header(l, c0)))
                &&& t1 == t0
            }
        },
        _ => true,
    }
}

/// The loop or label the after phase sees: a loop whose stack entry carries
/// a generated label has its body wrapped in that label.
pub open spec fn after_wrap(s: SStmt, targets: Seq<(String, Option<String>)>) -> SStmt {
    if is_loop(s) {
        match targets.last().1 {
            Some(g) => spec_wrap_loop_body(s, g@),
            None => s,
        }
    } else {
        s
    }
}

/// Wrapping a loop's body in a label keeps the statements below it free of
/// sugar.
proof fn lemma_wrap_keeps_below(s: SStmt, g: Seq<char>)
    requires
        is_loop(s),
        sugar_free_below(s),
    ensures
        sugar_free_below(crate::transforms::stmt_continue::spec_wrap_loop_body(s, g)),
{
    match s {
        SStmt::DoWhile(b, _) => assert(sugar_free(SStmt::Labeled(g, b)) == sugar_free(*b)),
        SStmt::For(_, _, _, b) => assert(sugar_free(SStmt::Labeled(g, b)) == sugar_free(*b)),
        SStmt::ForIn(_, _, b) => assert(sugar_free(SStmt::Labeled(g, b)) == sugar_free(*b)),
        SStmt::ForOf(_, _, b, _) => assert(sugar_free(SStmt::Labeled(g, b)) == sugar_free(*b)),
        SStmt::While(_, b) => assert(sugar_free(SStmt::Labeled(g, b)) == sugar_free(*b)),
        _ => {},
    }
}

/// The `while` loop that replaces a `for` loop is free of sugar when the
/// body, the test and the update are.
proof fn lemma_for_while_free(t: Option<SExpr>, u: Option<SExpr>, b: SStmt)
    requires
        sugar_free(b),
        crate::sugar::opt_expr_free(t),
        crate::sugar::opt_expr_free(u),
    ensures
        sugar_free(crate::transforms::stmt_for_n::spec_for_while(t, u, b)),
{
    let items = match u {
        Some(x) => seq![b, SStmt::Expr(x)],
        None => seq![b],
    };
    reveal_with_fuel(sugar_free_from, 3);
    reveal(crate::sugar::expr_free);
    assert(crate::sugar::expr_free(SExpr::Bool(true)));
    match u {
        Some(x) => assert(sugar_free(SStmt::Expr(x))),
        None => {},
    }
    assert(sugar_free_from(items, 0));
    assert(sugar_free(SStmt::Block(items)));
    let w = crate::transforms::stmt_for_n::spec_for_while(t, u, b);
    assert(w == SStmt::While(match t { Some(x) => x, None => SExpr::Bool(true) }, Box::new(SStmt::Block(items))));
}

/// The after phase of the desugaring visitor on a statement that is not a
/// label: loops, `try`-with-`finally`, `continue` and `switch` are
/// rewritten; anything else is given back.
#[verifier::rlimit(40)]
#[verifier::spinoff_prover]
fn visit_after(stmt: Stmt, state: &mut MapperState, fuel: u64) -> (r: Result<(MapperAction, Stmt), MapError>)
    ensures
        tracks(pv_after(stmt@, dstate(*old(state)), fuel), r is Ok, (r->Ok_0.0, r->Ok_0.1@), r->Err_0, dstate(*final(state))),
        sugar_free_below(stmt@) && r is Ok && r->Ok_0.0 != MapperAction::Revisit ==> sugar_free(r->Ok_0.1@),
        after_loop_result(stmt@, old(state).id_counter, final(state).id_counter, old(state).continue_targets@, final(state).continue_targets@, r),
        untouched(stmt@, false) ==> {
            &&& r is Ok
            &&& r->Ok_0.0 == MapperAction::Normal
            &&& r->Ok_0.1@ == stmt@
            &&& final(state).id_counter == old(state).id_counter
            &&& final(state).continue_targets@ == old(state).continue_targets@
        },
        stmt@ matches SStmt::Try(_, _, None) ==> {
            &&& r is Ok
            &&& r->Ok_0.0 == MapperAction::Normal
            &&& r->Ok_0.1@ == stmt@
            &&& final(state).id_counter == old(state).id_counter
            &&& final(state).continue_targets@ == old(state).continue_targets@
        },
        stmt@ matches SStmt::Try(b, h, Some(f)) ==> {
            &&& (r is Err <==> !finally_ok(b))
            &&& r is Err ==> r->Err_0 == MapError::Unsupported
            &&& final(state).continue_targets@ == old(state).continue_targets@
            &&& r is Ok ==> {
                &&& r->Ok_0.0 == MapperAction::Revisit
                &&& r->Ok_0.1@ == spec_finally(b, h, f, old(state).id_counter)
                &&& final(state).id_counter == finally_counter(h is Some, old(state).id_counter)
            }
        },
        stmt@ matches SStmt::Continue(l) ==> {
            &&& (r is Err <==> !continue_ok(stack_labels(old(state).continue_targets@), l))
            &&& r is Err ==> r->Err_0 == MapError::Unsupported
            &&& r is Ok ==> r->Ok_0.0 == MapperAction::Revisit && continue_rewrite(l, old(state).continue_targets@,
                old(state).id_counter, r->Ok_0.1@, final(state).id_counter, final(state).continue_targets@)
        },
        stmt@ matches SStmt::Switch(d, cs) ==> {
            &&& final(state).continue_targets@ == old(state).continue_targets@
            &&& r is Ok ==> {
                let x = spec_switch(d, cs, old(state).id_counter);
                &&& r->Ok_0.0 == MapperAction::Revisit
                &&& r->Ok_0.1@ == x.0
                &&& final(state).id_counter == x.1
            }
            &&& r matches Err(MapError::Unsupported) ==> !relabel_ok(d, cs, old(state).id_counter)
                || !cases_ok(rl_cases(cs, 0, Some(ident_name(old(state).id_counter as nat))).0)
            &&& fuel >= 3 ==> (r is Ok <==> relabel_ok(d, cs, old(state).id_counter)
                && cases_ok(rl_cases(cs, 0, Some(ident_name(old(state).id_counter as nat))).0))
            &&& fuel >= 3 && r is Err ==> r->Err_0 == MapError::Unsupported
        },
    decreases fuel, 0nat, 0nat,
{
    let ghost sv = stmt@;
    match stmt {
        Stmt::DoWhile(b, t) => {
            proof {
                assert(sv is DoWhile);
            }
            Ok(transform_do_while_statement(*b, t, state))
        },
        Stmt::For(i, t, u, b) => {
            proof {
                assert(sv is For);
                assert(sv == SStmt::For(crate::transforms::stmt_for_n::v_for_init(i), crate::spec_ast::v_opt_expr(t), crate::spec_ast::v_opt_expr(u), Box::new(b@)));
            }
            let ghost bv = b@;
            let ghost tv = crate::spec_ast::v_opt_expr(t);
            let ghost uv = crate::spec_ast::v_opt_expr(u);
            let res = transform_for_n_statement(i, t, u, *b, state);
            proof {
                if sugar_free_below(sv) {
                    lemma_for_while_free(tv, uv, bv);
                }
            }
            Ok(res)
        },
        Stmt::ForOf(l, rt, b, aw) => {
            proof {
                assert(sv is ForOf);
            }
            if !for_of_supported(&l, aw) {
                return Err(MapError::Unsupported);
            }
            let (_, s) = transform_for_of_statement(l, rt, *b, aw, state);
            Ok((MapperAction::Revisit, s))
        },
        Stmt::Try(b, h, f) => {
            proof {
                assert(sv == SStmt::Try(crate::spec_ast::v_stmts(b@), crate::spec_ast::v_catch(h), crate::spec_ast::v_opt_stmts(f)));
                assert(crate::spec_ast::v_opt_stmts(f) is None <==> f is None);
            }
            if f.is_some() && !finally_supported(&b) {
                return Err(MapError::Unsupported);
            }
            Ok(transform_finally_statement(b, h, f, state))
        },
        Stmt::Continue(l) => {
            proof {
                assert(sv == SStmt::Continue(crate::spec_ast::vs_opt(l)));
            }
            if !continue_supported(&state.continue_targets, &l) {
                proof {
                    lemma_labels_view(state.continue_targets@);
                }
                return Err(MapError::Unsupported);
            }
            let ghost st0 = state.continue_targets@;
            let ghost c0 = state.id_counter;
            let ghost lv = crate::spec_ast::vs_opt(l);
            let res = transform_continue_statement(l, state);
            proof {
                lemma_continue_view(lv, st0, c0, res.1@, state.id_counter, state.continue_targets@);
            }
            Ok(res)
        },
        Stmt::Switch(d, cs) => {
            proof {
                assert(sv == SStmt::Switch(d@, crate::spec_ast::v_cases(cs@)));
            }
            if fuel == 0 {
                return Err(MapError::OutOfFuel);
            }
            transform_switch_statement(d, cs, state, fuel - 1)
        },
        other => Ok((MapperAction::Normal, other)),
    }
}

/// The desugaring visitor. Every statement first goes through the
/// bookkeeping of `continue` targets. Before its children, a block has its
/// declarations normalised. After its children, `do-while`, `for`, `for-of`,
/// `try`-with-`finally`, `continue` and `switch` are rewritten. A statement a
/// rewrite does not handle fails with `Unsupported`; `fuel` bounds the
/// nested visits of the relabeling pass of `switch`.
pub fn pipeline_visit(stmt: Stmt, before: bool, state: &mut MapperState, fuel: u64) -> (r: Result<(MapperAction, Stmt), MapError>)
    ensures
        tracks(pv(stmt@, before, dstate(*old(state)), fuel), r is Ok, (r->Ok_0.0, r->Ok_0.1@), r->Err_0, dstate(*final(state))),
        !before && sugar_free_below(stmt@) && r is Ok && r->Ok_0.0 != MapperAction::Revisit ==> sugar_free(r->Ok_0.1@),
        fuel > 0 && before && (is_loop(stmt@) || stmt@ is Labeled) ==> {
            &&& r is Ok
            &&& r->Ok_0.0 == MapperAction::Normal
            &&& r->Ok_0.1@ == stmt@
            &&& final(state).id_counter == old(state).id_counter
            &&& final(state).continue_targets@.len() == old(state).continue_targets@.len() + 1
            &&& final(state).continue_targets@.drop_last() == old(state).continue_targets@
            &&& final(state).continue_targets@.last().0@ == (match stmt@ {
                SStmt::Labeled(l, _) => l,
                _ => crate::transforms::stmt_continue::loop_marker(),
            })
            &&& final(state).continue_targets@.last().1 is None
        },
        fuel > 0 && !before && (is_loop(stmt@) || stmt@ is Labeled) && old(state).continue_targets@.len() > 0 ==>
            after_loop_result(after_wrap(stmt@, old(state).continue_targets@), old(state).id_counter, final(state).id_counter,
                old(state).continue_targets@.drop_last(), final(state).continue_targets@, r),
        fuel == 0 ==> r == Err::<(MapperAction, Stmt), MapError>(MapError::OutOfFuel),
        fuel > 0 && !before && (is_loop(stmt@) || stmt@ is Labeled) && old(state).continue_targets@.len() == 0
            ==> r == Err::<(MapperAction, Stmt), MapError>(MapError::Unsupported),
        fuel > 0 && untouched(stmt@, before) ==> {
            &&& r is Ok
            &&& r->Ok_0.0 == MapperAction::Normal
            &&& r->Ok_0.1@ == stmt@
            &&& final(state).id_counter == old(state).id_counter
            &&& final(state).continue_targets@ == old(state).continue_targets@
        },
        fuel > 0 && before ==> (stmt@ matches SStmt::Block(b) ==> {
            &&& (r is Err <==> !(shape_ok(b) || block_ok(b, 0)))
            &&& r is Err ==> r->Err_0 == MapError::Unsupported
            &&& final(state).continue_targets@ == old(state).continue_targets@
            &&& (r is Ok && shape_ok(b)) ==> r->Ok_0.0 == MapperAction::Normal && r->Ok_0.1@ == stmt@
                && final(state).id_counter == old(state).id_counter
            &&& (r is Ok && !shape_ok(b)) ==> {
                let x = spec_block_items(b, 0, old(state).id_counter);
                &&& r->Ok_0.0 == (if x.2 { MapperAction::Revisit } else { MapperAction::Normal })
                &&& r->Ok_0.1@ == SStmt::Block(x.0)
                &&& final(state).id_counter == x.1
            }
        }),
        fuel > 0 && !before ==> (stmt@ matches SStmt::Try(b, h, Some(f)) ==> {
            &&& (r is Err <==> !finally_ok(b))
            &&& r is Err ==> r->Err_0 == MapError::Unsupported
            &&& final(state).continue_targets@ == old(state).continue_targets@
            &&& r is Ok ==> {
                &&& r->Ok_0.0 == MapperAction::Revisit
                &&& r->Ok_0.1@ == spec_finally(b, h, f, old(state).id_counter)
                &&& final(state).id_counter == finally_counter(h is Some, old(state).id_counter)
            }
        }),
        fuel > 0 && !before ==> (stmt@ matches SStmt::Try(_, _, None) ==> {
            &&& r is Ok
            &&& r->Ok_0.0 == MapperAction::Normal
            &&& r->Ok_0.1@ == stmt@
            &&& final(state).id_counter == old(state).id_counter
            &&& final(state).continue_targets@ == old(state).continue_targets@
        }),
        fuel > 0 && !before ==> (stmt@ matches SStmt::Continue(l) ==> {
            &&& (r is Err <==> !continue_ok(stack_labels(old(state).continue_targets@), l))
            &&& r is Err ==> r->Err_0 == MapError::Unsupported
            &&& r is Ok ==> r->Ok_0.0 == MapperAction::Revisit && continue_rewrite(l, old(state).continue_targets@,
                old(state).id_counter, r->Ok_0.1@, final(state).id_counter, final(state).continue_targets@)
        }),
        fuel > 0 && !before ==> (stmt@ matches SStmt::Switch(d, cs) ==> {
            &&& final(state).continue_targets@ == old(state).continue_targets@
            &&& r is Ok ==> {
                let x = spec_switch(d, cs, old(state).id_counter);
                &&& r->Ok_0.0 == MapperAction::Revisit
                &&& r->Ok_0.1@ == x.0
                &&& final(state).id_counter == x.1
            }
            &&& r matches Err(MapError::Unsupported) ==> !relabel_ok(d, cs, old(state).id_counter)
                || !cases_ok(rl_cases(cs, 0, Some(ident_name(old(state).id_counter as nat))).0)
            &&& fuel >= 4 ==> (r is Ok <==> relabel_ok(d, cs, old(state).id_counter)
                && cases_ok(rl_cases(cs, 0, Some(ident_name(old(state).id_counter as nat))).0))
            &&& fuel >= 4 && r is Err ==> r->Err_0 == MapError::Unsupported
        }),
    decreases fuel, 0nat, 0nat,
{
    if fuel == 0 {
        return Err(MapError::OutOfFuel);
    }
    if !before && is_loop_or_label(&stmt) && state.continue_targets.len() == 0 {
        return Err(MapError::Unsupported);
    }
    let ghost s0 = stmt@;
    let ghost ct = state.continue_targets@;
    let stmt = apply_continue_transform_updates(stmt, before, state);
    proof {
        if is_loop(s0) || s0 is Labeled {
            if before {
                lemma_tview_push(ct, state.continue_targets@);
            } else {
                lemma_tview_drop_last(ct);
            }
        }
        if !(is_loop(s0) || s0 is Labeled) {
            assert(stmt@ == s0);
        }
        if !before && sugar_free_below(s0) && is_loop(s0) {
            match ct.last().1 {
                Some(g) => lemma_wrap_keeps_below(s0, g@),
                None => {},
            }
        }
    }
    if before {
        visit_before(stmt, state)
    } else {
        visit_after(stmt, state, fuel - 1)
    }
}

} // verus!
