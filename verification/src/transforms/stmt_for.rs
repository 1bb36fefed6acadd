//! The stand-alone `for`-to-`while` rewrite.

use vstd::prelude::*;
use crate::ast::{Expr, ForInit, Stmt};
use crate::spec_ast::v_opt_expr;
use crate::transforms::stmt_for_n::{build_for_while, spec_for, v_for_init};
use crate::transforms::stmt_do_while::stmts2;

verus! {

/// Rewrites `for (init; test; update) body` into
/// `{ init; while (test) { body; update; } }` (no block when there is no init).
pub fn transform_for_statement(
    init: Option<ForInit>,
    test: Option<Expr>,
    update: Option<Expr>,
    body: Stmt,
) -> (s: Stmt)
    ensures
        s@ == spec_for(v_for_init(init), v_opt_expr(test), v_opt_expr(update), body@),
{
    let while_stmt = build_for_while(test, update, body);
    match init {
        Some(ForInit::Expr(e)) => Stmt::Block(stmts2(Stmt::Expr(e), while_stmt)),
        Some(ForInit::VarDecl(d)) => Stmt::Block(stmts2(Stmt::VarDecl(d), while_stmt)),
        None => while_stmt,
    }
}

} // verus!
