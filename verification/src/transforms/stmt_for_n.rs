//! `for (init; test; update) body` becomes a `while` loop.

use vstd::prelude::*;
use crate::ast::{Expr, ForInit, Stmt};
use crate::mapper::MapperAction;
use crate::mapper_state::MapperState;
use crate::spec_ast::{lemma_v_stmts_push, v_opt_expr, v_stmts, v_var_decl, SExpr, SForInit, SStmt};
use crate::transforms::stmt_do_while::stmts2;

verus! {

/// The model of the `while` loop that replaces `for (...; test; update) body`:
/// `while (test) { body; update; }`, where a missing test is `true` and a
/// missing update adds nothing.
pub open spec fn spec_for_while(test: Option<SExpr>, update: Option<SExpr>, body: SStmt) -> SStmt {
    SStmt::While(
        match test {
            Some(t) => t,
            None => SExpr::Bool(true),
        },
        Box::new(
            SStmt::Block(
                match update {
                    Some(u) => seq![body, SStmt::Expr(u)],
                    None => seq![body],
                },
            ),
        ),
    )
}

/// The model of the rewrite of a `for` loop: the `while` loop alone when there
/// is no init, else `{ init; while ... }`.
pub open spec fn spec_for(
    init: Option<SForInit>,
    test: Option<SExpr>,
    update: Option<SExpr>,
    body: SStmt,
) -> SStmt {
    match init {
        None => spec_for_while(test, update, body),
        Some(SForInit::Expr(e)) => SStmt::Block(seq![SStmt::Expr(e), spec_for_while(test, update, body)]),
        Some(SForInit::VarDecl(d)) => SStmt::Block(
            seq![SStmt::VarDecl(d), spec_for_while(test, update, body)],
        ),
    }
}

/// The model of an optional for-init.
pub open spec fn v_for_init(i: Option<ForInit>) -> Option<SForInit> {
    match i {
        Some(ForInit::Expr(e)) => Some(SForInit::Expr(e@)),
        Some(ForInit::VarDecl(d)) => Some(SForInit::VarDecl(v_var_decl(d))),
        None => None,
    }
}

/// Builds `while (test) { body; update; }`.
pub(crate) fn build_for_while(test: Option<Expr>, update: Option<Expr>, body: Stmt) -> (s: Stmt)
    ensures
        s@ == spec_for_while(v_opt_expr(test), v_opt_expr(update), body@),
{
    let test = match test {
        Some(t) => t,
        None => Expr::Bool(true),
    };
    let mut while_body: Vec<Stmt> = Vec::new();
    let ghost e = while_body@;
    while_body.push(body);
    proof {
        lemma_v_stmts_push(e, body);
    }
    match update {
        Some(u) => {
            let ghost w = while_body@;
            let st = Stmt::Expr(u);
            while_body.push(st);
            proof {
                lemma_v_stmts_push(w, st);
                assert(v_stmts(while_body@) =~= seq![body@, SStmt::Expr(u@)]);
            }
        },
        None => {
            proof {
                assert(v_stmts(while_body@) =~= seq![body@]);
            }
        },
    }
    let inner = Stmt::Block(while_body);
    proof {
        assert(inner@ == SStmt::Block(v_stmts(while_body@)));
    }
    let r = Stmt::While(test, Box::new(inner));
    proof {
        assert(r@ == SStmt::While(test@, Box::new(inner@)));
    }
    r
}

/// Rewrites `for (init; test; update) body` into `init; while (test) { body; update; }`,
/// wrapped in a block when there is an init. The block is visited again; a
/// bare `while` is not.
pub fn transform_for_n_statement(
    init: Option<ForInit>,
    test: Option<Expr>,
    update: Option<Expr>,
    body: Stmt,
    state: &mut MapperState,
) -> (r: (MapperAction, Stmt))
    ensures
        r.0 == (if init is Some { MapperAction::Revisit } else { MapperAction::Normal }),
        r.1@ == spec_for(v_for_init(init), v_opt_expr(test), v_opt_expr(update), body@),
        final(state).id_counter == old(state).id_counter,
        final(state).continue_targets@ == old(state).continue_targets@,
{
    let ghost gi = init;
    let while_stmt = build_for_while(test, update, body);
    match init {
        Some(ForInit::Expr(e)) => {
            (MapperAction::Revisit, Stmt::Block(stmts2(Stmt::Expr(e), while_stmt)))
        },
        Some(ForInit::VarDecl(d)) => {
            (MapperAction::Revisit, Stmt::Block(stmts2(Stmt::VarDecl(d), while_stmt)))
        },
        None => (MapperAction::Normal, while_stmt),
    }
}

} // verus!
