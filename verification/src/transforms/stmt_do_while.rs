//! `do body while (test)` becomes a `while` loop driven by a fresh flag.

use vstd::prelude::*;
use crate::ast::{AssignOp, Expr, Stmt, VarKind};
use crate::mapper::MapperAction;
use crate::mapper_state::{ident_name, next_counter, MapperState};
use crate::spec_ast::{lemma_v_stmts_push, v_stmts, SAssignTarget, SExpr, SStmt};
use crate::transforms::builder::{
    create_assignment_expression_name, create_bool, create_expression_statement,
    create_identifier_expression, create_variable_declaration_kind, decl_stmt,
};

verus! {

/// The model of the rewrite of `do body while (test)` with flag `t`:
/// `{ let t = true; while (t) { body; t = test; } }`.
pub open spec fn spec_do_while(body: SStmt, test: SExpr, t: Seq<char>) -> SStmt {
    SStmt::Block(
        seq![
            decl_stmt(VarKind::Let, t, Some(SExpr::Bool(true))),
            SStmt::While(
                SExpr::Ident(t),
                Box::new(
                    SStmt::Block(
                        seq![
                            body,
                            SStmt::Expr(
                                SExpr::Assign(
                                    AssignOp::Assign,
                                    Box::new(SAssignTarget::Ident(t)),
                                    Box::new(test),
                                ),
                            ),
                        ],
                    ),
                ),
            ),
        ],
    )
}

/// Two statements as a vector.
pub(crate) fn stmts2(a: Stmt, b: Stmt) -> (v: Vec<Stmt>)
    ensures
        v_stmts(v@) == seq![a@, b@],
{
    let mut v: Vec<Stmt> = Vec::new();
    let ghost e = v@;
    v.push(a);
    proof {
        lemma_v_stmts_push(e, a);
    }
    let ghost v1 = v@;
    v.push(b);
    proof {
        lemma_v_stmts_push(v1, b);
        assert(v_stmts(v@) =~= seq![a@, b@]);
    }
    v
}

/// Rewrites `do body while (test)` into
/// `{ let $t = true; while ($t) { body; $t = test; } }` with a fresh `$t`,
/// and asks for the result to be visited again.
pub fn transform_do_while_statement(body: Stmt, test: Expr, state: &mut MapperState) -> (r: (
    MapperAction,
    Stmt,
))
    ensures
        r.0 == MapperAction::Revisit,
        r.1@ == spec_do_while(body@, test@, ident_name(old(state).id_counter as nat)),
        final(state).id_counter == next_counter(old(state).id_counter),
        final(state).continue_targets@ == old(state).continue_targets@,
{
    let loop_test_ident = state.next_ident_name();
    let test_decl = create_variable_declaration_kind(
        VarKind::Let,
        loop_test_ident.clone(),
        Some(create_bool(true)),
    );
    let update = create_expression_statement(
        create_assignment_expression_name(loop_test_ident.clone(), test),
    );
    let while_body = stmts2(body, update);
    let inner = Stmt::Block(while_body);
    let cond = create_identifier_expression(loop_test_ident);
    proof {
        assert(inner@ == SStmt::Block(v_stmts(while_body@)));
    }
    let while_stmt = Stmt::While(cond, Box::new(inner));
    proof {
        assert(while_stmt@ == SStmt::While(cond@, Box::new(inner@)));
    }
    let outer = stmts2(test_decl, while_stmt);
    (MapperAction::Revisit, Stmt::Block(outer))
}

} // verus!
