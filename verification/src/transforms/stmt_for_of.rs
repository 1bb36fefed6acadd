//! `for (left of right) body` becomes a `while` loop over an iterator that
//! the runtime helper `$forOf` returns.

use vstd::prelude::*;
use crate::ast::{AssignOp, BinaryOp, Expr, ForLeft, Stmt, VarKind, AssignTarget, Declarator, Pattern, VarDecl};
use crate::mapper_state::{ident_name, next_counter, MapperState};
use crate::spec_ast::{
    lemma_v_stmts_push, v_for_left, v_opt_stmt, v_stmts, SAssignTarget, SDeclarator, SExpr,
    SForLeft, SMember, SPattern, SStmt, SVarDecl, SArg,
};
use crate::transforms::builder::{
    create_assignment_expression_name, create_binary_expression, create_call_expression,
    create_identifier_expression, create_member_expression, create_variable_declaration_kind,
    decl_stmt, exprs_as_args,
};
use crate::transforms::for_header::{
    for_left_ok, header_needs_name, lemma_v_declarators_first, spec_for_header, transform_for_header,
};
use crate::transforms::stmt_do_while::stmts2;

verus! {

pub open spec fn s_for_of_fn() -> Seq<char> {
    seq!['$', 'f', 'o', 'r', 'O', 'f']
}

pub open spec fn s_next() -> Seq<char> {
    seq!['n', 'e', 'x', 't']
}

pub open spec fn s_done() -> Seq<char> {
    seq!['d', 'o', 'n', 'e']
}

pub open spec fn s_value() -> Seq<char> {
    seq!['v', 'a', 'l', 'u', 'e']
}

/// `n.prop` for an identifier `n`.
pub open spec fn s_ident_member(n: Seq<char>, prop: Seq<char>) -> SExpr {
    SExpr::Member(Box::new(SMember::Static(SExpr::Ident(n), prop, false)))
}

/// The statement that binds the loop variable: `kind x = rhs;` or `x = rhs;`.
pub open spec fn spec_bind_next(new_left: SForLeft, rhs: SExpr) -> SStmt {
    match new_left {
        SForLeft::VarDecl(d) => crate::transforms::builder::pattern_decl_stmt(d.kind, d.decls[0].id, Some(rhs)),
        SForLeft::Target(t) => SStmt::Expr(SExpr::Assign(AssignOp::Assign, Box::new(t), Box::new(rhs))),
    }
}

/// The model of the loop built from the simplified header: `{ const it =
/// $forOf(right); let nx; while (nx = it.next()) { if (nx.done === true)
/// break; <bind left to nx.value>; body } }`, where the header's statement,
/// if any, goes in a block with `body`.
pub open spec fn spec_for_of_loop(
    new_left: SForLeft,
    pattern_stmt: Option<SStmt>,
    body: SStmt,
    right: SExpr,
    it: Seq<char>,
    nx: Seq<char>,
) -> SStmt {
    let new_body = match pattern_stmt {
        Some(p) => SStmt::Block(seq![p, body]),
        None => body,
    };
    SStmt::Block(
        seq![
            decl_stmt(
                VarKind::Const,
                it,
                Some(SExpr::Call(Box::new(SExpr::Ident(s_for_of_fn())), seq![SArg::Expr(right)], false)),
            ),
            decl_stmt(VarKind::Let, nx, None),
            SStmt::While(
                SExpr::Assign(
                    AssignOp::Assign,
                    Box::new(SAssignTarget::Ident(nx)),
                    Box::new(SExpr::Call(Box::new(s_ident_member(it, s_next())), Seq::empty(), false)),
                ),
                Box::new(
                    SStmt::Block(
                        seq![
                            SStmt::If(
                                SExpr::Binary(
                                    BinaryOp::StrictEquality,
                                    Box::new(s_ident_member(nx, s_done())),
                                    Box::new(SExpr::Bool(true)),
                                ),
                                Box::new(SStmt::Break(None)),
                                None,
                            ),
                            spec_bind_next(new_left, s_ident_member(nx, s_value())),
                            new_body,
                        ],
                    ),
                ),
            ),
        ],
    )
}

/// The counter after the header rewrite.
pub open spec fn counter_after_header(left: SForLeft, c: usize) -> usize {
    if header_needs_name(left) { next_counter(c) } else { c }
}

/// The model of the rewrite of `for (left of right) body` with `c` the counter
/// at the start: the header is simplified (see `spec_for_header`), then two
/// fresh names `it` and `nx` make the loop of `spec_for_of_loop`.
pub open spec fn spec_for_of(left: SForLeft, right: SExpr, body: SStmt, c: usize) -> SStmt {
    let c1 = counter_after_header(left, c);
    spec_for_of_loop(
        spec_for_header(left, ident_name(c as nat)).0,
        spec_for_header(left, ident_name(c as nat)).1,
        body,
        right,
        ident_name(c1 as nat),
        ident_name(next_counter(c1) as nat),
    )
}

/// What the for-of rewrite accepts: no `for await`, and a declaration on the
/// left has a first declarator without initializer.
pub open spec fn for_of_ok(left: SForLeft, is_await: bool) -> bool {
    &&& !is_await
    &&& for_left_ok(left)
    &&& (left matches SForLeft::VarDecl(d) ==> d.decls[0].init is None)
}

/// Three statements as a vector.
pub(crate) fn stmts3(a: Stmt, b: Stmt, c: Stmt) -> (v: Vec<Stmt>)
    ensures
        v_stmts(v@) == seq![a@, b@, c@],
{
    let mut v = stmts2(a, b);
    let ghost v1 = v@;
    v.push(c);
    proof {
        lemma_v_stmts_push(v1, c);
        assert(v_stmts(v@) =~= seq![a@, b@, c@]);
    }
    v
}

/// `n.prop`
fn ident_member(n: String, prop: &str) -> (e: Expr)
    ensures
        e@ == s_ident_member(n@, prop@),
{
    create_member_expression(Expr::Ident(n), String::from_str(prop))
}

/// The statement binding the loop variable to `rhs`.
fn bind_next(new_left: ForLeft, rhs: Expr) -> (s: Stmt)
    requires
        v_for_left(new_left) matches SForLeft::VarDecl(d) ==> d.decls.len() >= 1,
    ensures
        s@ == spec_bind_next(v_for_left(new_left), rhs@),
{
    match new_left {
        ForLeft::VarDecl(vd) => {
            proof {
                assert(v_for_left(ForLeft::VarDecl(vd)) == SForLeft::VarDecl(crate::spec_ast::v_var_decl(vd)));
            }
            let VarDecl { kind, decls } = vd;
            proof {
                lemma_v_declarators_first(decls@);
            }
            let mut decls = decls;
            let first = decls.remove(0);
            crate::transforms::builder::create_variable_declaration_pattern(kind, first.id, Some(rhs))
        },
        ForLeft::Target(t) => {
            let ghost gt = t;
            let e = Expr::Assign(AssignOp::Assign, Box::new(t), Box::new(rhs));
            proof {
                assert(v_for_left(ForLeft::Target(gt)) == SForLeft::Target(crate::spec_ast::v_target(gt)));
                assert(e@ == SExpr::Assign(AssignOp::Assign, Box::new(crate::spec_ast::v_target(gt)), Box::new(rhs@)));
            }
            let st = Stmt::Expr(e);
            proof {
                assert(st@ == SStmt::Expr(e@));
            }
            st
        },
    }
}

/// `const it = $forOf(right);`
fn iterator_decl(it: String, right: Expr) -> (s: Stmt)
    ensures
        s@ == decl_stmt(
            VarKind::Const,
            it@,
            Some(SExpr::Call(Box::new(SExpr::Ident(s_for_of_fn())), seq![SArg::Expr(right@)], false)),
        ),
{
    let mut args: Vec<Expr> = Vec::new();
    args.push(right);
    let f = String::from_str("$forOf");
    proof {
        reveal_strlit("$forOf");
        assert("$forOf"@ =~= s_for_of_fn());
        assert(args@ =~= seq![right]);
        crate::spec_ast::lemma_v_exprs_one(right);
        assert(seq![right@].drop_last() =~= Seq::<SExpr>::empty());
        assert(exprs_as_args(Seq::<SExpr>::empty()) =~= Seq::<SArg>::empty());
        assert(exprs_as_args(seq![right@]) =~= seq![SArg::Expr(right@)]);
    }
    let call = create_call_expression(create_identifier_expression(f), args, false);
    create_variable_declaration_kind(VarKind::Const, it, Some(call))
}

/// `nx = it.next()`
fn next_step(nx: String, it: String) -> (e: Expr)
    ensures
        e@ == SExpr::Assign(
            AssignOp::Assign,
            Box::new(SAssignTarget::Ident(nx@)),
            Box::new(SExpr::Call(Box::new(s_ident_member(it@, s_next())), Seq::empty(), false)),
        ),
{
    let args: Vec<Expr> = Vec::new();
    proof {
        reveal_strlit("next");
        assert("next"@ =~= s_next());
        assert("next"@ =~= s_next());
        assert(exprs_as_args(crate::spec_ast::v_exprs(args@)) =~= Seq::<SArg>::empty());
    }
    let call = create_call_expression(ident_member(it, "next"), args, false);
    create_assignment_expression_name(nx, call)
}

/// `if (nx.done === true) break;`
fn done_check(nx: String) -> (s: Stmt)
    ensures
        s@ == SStmt::If(
            SExpr::Binary(
                BinaryOp::StrictEquality,
                Box::new(s_ident_member(nx@, s_done())),
                Box::new(SExpr::Bool(true)),
            ),
            Box::new(SStmt::Break(None)),
            None,
        ),
{
    proof {
        reveal_strlit("done");
        assert("done"@ =~= s_done());
    }
    let test = create_binary_expression(BinaryOp::StrictEquality, ident_member(nx, "done"), Expr::Bool(true));
    let brk = Stmt::Break(None);
    proof {
        assert(brk@ == SStmt::Break(None));
    }
    Stmt::If(test, Box::new(brk), None)
}

/// Builds the loop of `spec_for_of_loop`.
fn build_for_of_loop(
    new_left: ForLeft,
    pattern_stmt: Option<Stmt>,
    body: Stmt,
    right: Expr,
    iterator_var: String,
    next_var: String,
) -> (s: Stmt)
    requires
        v_for_left(new_left) matches SForLeft::VarDecl(d) ==> d.decls.len() >= 1,
    ensures
        s@ == spec_for_of_loop(v_for_left(new_left), v_opt_stmt(pattern_stmt), body@, right@, iterator_var@, next_var@),
{
    let new_body = match pattern_stmt {
        Some(p) => Stmt::Block(stmts2(p, body)),
        None => body,
    };
    proof {
        reveal_strlit("value");
        assert("value"@ =~= s_value());
    }
    let rhs = ident_member(next_var.clone(), "value");
    let next_value_stmt = bind_next(new_left, rhs);
    let loop_body = stmts3(done_check(next_var.clone()), next_value_stmt, new_body);
    let cond = next_step(next_var.clone(), iterator_var.clone());
    let blk = Stmt::Block(loop_body);
    proof {
        assert(blk@ == SStmt::Block(v_stmts(loop_body@)));
    }
    let while_stmt = Stmt::While(cond, Box::new(blk));
    proof {
        assert(while_stmt@ == SStmt::While(cond@, Box::new(blk@)));
    }
    let it_decl = iterator_decl(iterator_var, right);
    let nx_decl = create_variable_declaration_kind(VarKind::Let, next_var, None);
    Stmt::Block(stmts3(it_decl, nx_decl, while_stmt))
}

/// Rewrites `for (left of right) body` (see `spec_for_of`), taking fresh
/// names from `state`; the result is to be visited again (`true`).
pub fn transform_for_of_statement(
    left: ForLeft,
    right: Expr,
    body: Stmt,
    is_await: bool,
    state: &mut MapperState,
) -> (r: (bool, Stmt))
    requires
        for_of_ok(v_for_left(left), is_await),
    ensures
        r.0,
        r.1@ == spec_for_of(v_for_left(left), right@, body@, old(state).id_counter),
        final(state).id_counter == next_counter(next_counter(counter_after_header(v_for_left(left), old(state).id_counter))),
        final(state).continue_targets@ == old(state).continue_targets@,
{
    let (new_left, pattern_stmt) = transform_for_header(left, state);
    let iterator_var = state.next_ident_name();
    let next_var = state.next_ident_name();
    (true, build_for_of_loop(new_left, pattern_stmt, body, right, iterator_var, next_var))
}

/// Whether `transform_for_of_statement` accepts this header (see
/// `for_of_ok`).
pub fn for_of_supported(left: &ForLeft, is_await: bool) -> (r: bool)
    ensures
        r == for_of_ok(v_for_left(*left), is_await),
{
    if is_await {
        return false;
    }
    match left {
        ForLeft::VarDecl(d) => {
            proof {
                lemma_v_declarators_first_opt(d.decls@);
            }
            d.decls.len() >= 1 && d.decls[0].init.is_none()
        },
        ForLeft::Target(_) => true,
    }
}

/// The model of a declarator list has its length, and its first element is
/// the model of the first declarator.
proof fn lemma_v_declarators_first_opt(s: Seq<Declarator>)
    ensures
        crate::spec_ast::v_declarators(s).len() == s.len(),
        s.len() >= 1 ==> crate::spec_ast::v_declarators(s)[0].init == crate::spec_ast::v_opt_expr(s[0].init),
{
    crate::transforms::for_header::lemma_v_declarators_index(s);
}

} // verus!
