//! Small constructors for the syntax nodes the transforms create.

use vstd::prelude::*;
use crate::ast::{
    Arg, ArrayElem, AssignOp, AssignTarget, BinaryOp, CatchClause, Declarator, Expr, Member,
    Pattern, Stmt, VarDecl, VarKind,
};
use crate::spec_ast::{
    v_args, v_array_elems, v_exprs, v_stmts, SArg, SArrayElem, SAssignTarget, SCatchClause,
    SDeclarator, SExpr, SMember, SPattern, SStmt, SVarDecl,
};
use crate::mapper_state::{decimal, decimal_string};

verus! {

/// `left op right` for an identifier `left`.
pub fn create_assignment_expression(op: AssignOp, left: String, right: Expr) -> (e: Expr)
    ensures
        e@ == SExpr::Assign(op, Box::new(SAssignTarget::Ident(left@)), Box::new(right@)),
{
    let ghost l = left;
    proof {
        assert(crate::spec_ast::v_target(AssignTarget::Ident(l)) == SAssignTarget::Ident(l@));
    }
    Expr::Assign(op, Box::new(AssignTarget::Ident(left)), Box::new(right))
}

/// `left = right` for an identifier `left`.
pub fn create_assignment_expression_name(left_name: String, right: Expr) -> (e: Expr)
    ensures
        e@ == SExpr::Assign(AssignOp::Assign, Box::new(SAssignTarget::Ident(left_name@)), Box::new(right@)),
{
    create_assignment_expression(AssignOp::Assign, left_name, right)
}

/// `left op right` for a member expression `left`.
pub fn create_assignment_expression_member(op: AssignOp, left: Member, right: Expr) -> (e: Expr)
    ensures
        e@ == SExpr::Assign(
            op,
            Box::new(SAssignTarget::Member(crate::spec_ast::v_member(left))),
            Box::new(right@),
        ),
{
    let ghost l = left;
    proof {
        assert(crate::spec_ast::v_target(AssignTarget::Member(l)) == SAssignTarget::Member(
            crate::spec_ast::v_member(l),
        ));
    }
    Expr::Assign(op, Box::new(AssignTarget::Member(left)), Box::new(right))
}

/// `{ body }`
pub fn create_block_statement(body: Vec<Stmt>) -> (s: Stmt)
    ensures
        s@ == SStmt::Block(v_stmts(body@)),
{
    Stmt::Block(body)
}

/// `left op right`
pub fn create_binary_expression(op: BinaryOp, left: Expr, right: Expr) -> (e: Expr)
    ensures
        e@ == SExpr::Binary(op, Box::new(left@), Box::new(right@)),
{
    Expr::Binary(op, Box::new(left), Box::new(right))
}

/// A binding identifier: its name.
pub fn create_binding_identifier(name: String) -> (n: String)
    ensures
        n@ == name@,
{
    name
}

/// A binding pattern that is a plain identifier.
pub fn create_binding_pattern(name: String) -> (p: Pattern)
    ensures
        p@ == SPattern::Ident(name@),
{
    Pattern::Ident(name)
}

/// `true` or `false`.
pub fn create_bool(value: bool) -> (e: Expr)
    ensures
        e@ == SExpr::Bool(value),
{
    Expr::Bool(value)
}

/// `break;` or `break label;`
pub fn create_break_statement(label: Option<String>) -> (s: Stmt)
    ensures
        s@ == SStmt::Break(crate::spec_ast::vs_opt(label)),
{
    Stmt::Break(label)
}

/// `catch (param) { body }`
pub fn create_catch_clause(param: Option<Pattern>, body: Vec<Stmt>) -> (c: CatchClause)
    ensures
        crate::spec_ast::v_catch(Some(c)) == Some(
            SCatchClause { param: crate::spec_ast::v_opt_pattern(param), body: v_stmts(body@) },
        ),
{
    CatchClause { param, body }
}

/// `callee(arguments)` with every argument a plain expression.
pub fn create_call_expression(callee: Expr, arguments: Vec<Expr>, optional: bool) -> (e: Expr)
    ensures
        e@ == SExpr::Call(Box::new(callee@), exprs_as_args(v_exprs(arguments@)), optional),
{
    let mut args: Vec<Arg> = Vec::new();
    let mut rest = arguments;
    let ghost all = rest@;
    while rest.len() > 0
        invariant
            all == args_source(args@) + rest@,
            v_args(args@) == exprs_as_args(v_exprs(args_source(args@))),
        decreases rest.len(),
    {
        let e = rest.remove(0);
        proof {
            lemma_args_push(args@, e);
            assert(all == args_source(args@.push(Arg::Expr(e))) + rest@);
        }
        args.push(Arg::Expr(e));
    }
    proof {
        assert(rest@ =~= Seq::<Expr>::empty());
        assert(all =~= args_source(args@));
    }
    Expr::Call(Box::new(callee), args, optional)
}

/// The expressions behind plain arguments.
pub open spec fn args_source(s: Seq<Arg>) -> Seq<Expr>
    decreases s.len(),
{
    if s.len() == 0 {
        Seq::empty()
    } else {
        args_source(s.drop_last()).push(
            match s.last() {
                Arg::Expr(e) => e,
                Arg::Spread(e) => e,
            },
        )
    }
}

/// Plain arguments from expressions.
pub open spec fn exprs_as_args(s: Seq<SExpr>) -> Seq<SArg>
    decreases s.len(),
{
    if s.len() == 0 { Seq::empty() } else { exprs_as_args(s.drop_last()).push(SArg::Expr(s.last())) }
}

proof fn lemma_args_push(a: Seq<Arg>, e: Expr)
    requires
        v_args(a) == exprs_as_args(v_exprs(args_source(a))),
    ensures
        v_args(a.push(Arg::Expr(e))) == exprs_as_args(v_exprs(args_source(a.push(Arg::Expr(e))))),
        args_source(a.push(Arg::Expr(e))) == args_source(a).push(e),
{
    assert(a.push(Arg::Expr(e)).drop_last() =~= a);
    let s = args_source(a);
    assert(s.push(e).drop_last() =~= s);
    assert(v_exprs(s.push(e)).drop_last() =~= v_exprs(s));
}

/// `expression;`
pub fn create_expression_statement(expression: Expr) -> (s: Stmt)
    ensures
        s@ == SStmt::Expr(expression@),
{
    Stmt::Expr(expression)
}

/// An identifier expression.
pub fn create_identifier_expression(name: String) -> (e: Expr)
    ensures
        e@ == SExpr::Ident(name@),
{
    Expr::Ident(name)
}

/// An identifier reference (an assignable name).
pub fn create_identifier_reference(name: String) -> (n: String)
    ensures
        n@ == name@,
{
    name
}

/// `if (test) consequent else alternate`
pub fn create_if_statement(test: Expr, consequent: Stmt, alternate: Option<Stmt>) -> (s: Stmt)
    ensures
        s@ == SStmt::If(
            test@,
            Box::new(consequent@),
            match alternate {
                Some(a) => Some(Box::new(a@)),
                None => None,
            },
        ),
{
    match alternate {
        Some(a) => Stmt::If(test, Box::new(consequent), Some(Box::new(a))),
        None => Stmt::If(test, Box::new(consequent), None),
    }
}

/// `label: body`
pub fn create_labeled_statement(label: String, body: Stmt) -> (s: Stmt)
    ensures
        s@ == SStmt::Labeled(label@, Box::new(body@)),
{
    Stmt::Labeled(label, Box::new(body))
}

/// `object.property`
pub fn create_member_expression(object: Expr, property: String) -> (e: Expr)
    ensures
        e@ == SExpr::Member(Box::new(SMember::Static(object@, property@, false))),
{
    let ghost o = object;
    let ghost p = property;
    proof {
        assert(crate::spec_ast::v_member(Member::Static(o, p, false)) == SMember::Static(o@, p@, false));
    }
    Expr::Member(Box::new(Member::Static(object, property, false)))
}

/// `object[expression]`
pub fn create_member_expression_computed(object: Expr, expression: Expr) -> (e: Expr)
    ensures
        e@ == SExpr::Member(Box::new(SMember::Computed(object@, expression@, false))),
{
    let ghost o = object;
    let ghost x = expression;
    proof {
        assert(crate::spec_ast::v_member(Member::Computed(o, x, false)) == SMember::Computed(
            o@,
            x@,
            false,
        ));
    }
    Expr::Member(Box::new(Member::Computed(object, expression, false)))
}

/// `object[name]` for an identifier `name`.
pub(crate) fn create_member_expression_computed_ident(object: Expr, name: String) -> (e: Expr)
    ensures
        e@ == SExpr::Member(Box::new(SMember::Computed(object@, SExpr::Ident(name@), false))),
{
    create_member_expression_computed(object, Expr::Ident(name))
}

/// A number literal with the given source text.
pub fn create_number_literal(value_str: String) -> (e: Expr)
    ensures
        e@ == SExpr::Number(value_str@),
{
    Expr::Number(value_str)
}

/// A number literal with the source text `value_str`.
pub fn create_number_literal_str(value_str: &String) -> (e: Expr)
    ensures
        e@ == SExpr::Number(value_str@),
{
    Expr::Number(value_str.clone())
}

/// The number literal `n` in decimal.
pub(crate) fn number_literal(n: usize) -> (e: Expr)
    ensures
        e@ == SExpr::Number(decimal(n as nat)),
{
    Expr::Number(decimal_string(n as u128))
}

/// The number literal `n` in decimal, for numbers past `usize`.
pub(crate) fn number_literal_wide(n: u128) -> (e: Expr)
    ensures
        e@ == SExpr::Number(decimal(n as nat)),
{
    Expr::Number(decimal_string(n))
}

/// A string literal.
pub(crate) fn create_string_literal(value: String) -> (e: Expr)
    ensures
        e@ == SExpr::Str(value@),
{
    Expr::Str(value)
}

/// `[elements]` with every element a plain expression.
pub(crate) fn create_array_expression(elements: Vec<Expr>) -> (e: Expr)
    ensures
        e@ == SExpr::Array(exprs_as_elems(v_exprs(elements@))),
{
    let mut elems: Vec<ArrayElem> = Vec::new();
    let mut rest = elements;
    let ghost all = rest@;
    let ghost done: Seq<Expr> = Seq::empty();
    while rest.len() > 0
        invariant
            all == done + rest@,
            v_array_elems(elems@) == exprs_as_elems(v_exprs(done)),
        decreases rest.len(),
    {
        let x = rest.remove(0);
        proof {
            assert(elems@.push(ArrayElem::Expr(x)).drop_last() =~= elems@);
            assert(done.push(x).drop_last() =~= done);
            assert(v_exprs(done.push(x)).drop_last() =~= v_exprs(done));
            done = done.push(x);
            assert(all =~= done + rest@);
        }
        elems.push(ArrayElem::Expr(x));
    }
    proof {
        assert(all =~= done);
    }
    Expr::Array(elems)
}

/// Array elements from expressions.
pub open spec fn exprs_as_elems(s: Seq<SExpr>) -> Seq<SArrayElem>
    decreases s.len(),
{
    if s.len() == 0 {
        Seq::empty()
    } else {
        exprs_as_elems(s.drop_last()).push(SArrayElem::Expr(s.last()))
    }
}

/// `return argument;`
pub fn create_return_statement(argument: Option<Expr>) -> (s: Stmt)
    ensures
        s@ == SStmt::Return(crate::spec_ast::v_opt_expr(argument)),
{
    Stmt::Return(argument)
}

/// `throw argument;`
pub fn create_throw_statement(argument: Expr) -> (s: Stmt)
    ensures
        s@ == SStmt::Throw(argument@),
{
    Stmt::Throw(argument)
}

/// `try { block } catch ... finally ...`
pub fn create_try_statement(
    block: Vec<Stmt>,
    handler: Option<CatchClause>,
    finalizer: Option<Vec<Stmt>>,
) -> (s: Stmt)
    ensures
        s@ == SStmt::Try(
            v_stmts(block@),
            crate::spec_ast::v_catch(handler),
            crate::spec_ast::v_opt_stmts(finalizer),
        ),
{
    Stmt::Try(block, handler, finalizer)
}

/// `try { block } catch ... finally ...` (same as `create_try_statement`).
pub fn create_try_statement_unboxed(
    block: Vec<Stmt>,
    handler: Option<CatchClause>,
    finalizer: Option<Vec<Stmt>>,
) -> (s: Stmt)
    ensures
        s@ == SStmt::Try(
            v_stmts(block@),
            crate::spec_ast::v_catch(handler),
            crate::spec_ast::v_opt_stmts(finalizer),
        ),
{
    create_try_statement(block, handler, finalizer)
}

/// `while (test) body`
pub fn create_while_statement(test: Expr, body: Stmt) -> (s: Stmt)
    ensures
        s@ == SStmt::While(test@, Box::new(body@)),
{
    Stmt::While(test, Box::new(body))
}

/// A declarator `name = init` (or just `name`).
pub fn create_variable_declarator(name: String, init: Option<Expr>) -> (d: Declarator)
    ensures
        d.id@ == SPattern::Ident(name@),
        d.init == init,
{
    Declarator { id: Pattern::Ident(name), init }
}

/// The model of `kind name = init;`.
pub open spec fn decl_stmt(kind: VarKind, name: Seq<char>, init: Option<SExpr>) -> SStmt {
    SStmt::VarDecl(SVarDecl { kind, decls: seq![SDeclarator { id: SPattern::Ident(name), init }] })
}

/// The model of `kind pattern = init;`.
pub open spec fn pattern_decl_stmt(kind: VarKind, id: SPattern, init: Option<SExpr>) -> SStmt {
    SStmt::VarDecl(SVarDecl { kind, decls: seq![SDeclarator { id, init }] })
}

/// `var name = init;`
pub fn create_variable_declaration_var(name: String, init: Option<Expr>) -> (s: Stmt)
    ensures
        s@ == decl_stmt(VarKind::Var, name@, crate::spec_ast::v_opt_expr(init)),
{
    create_variable_declaration_kind(VarKind::Var, name, init)
}

/// `let name = init;`
pub fn create_variable_declaration_let(name: String, init: Option<Expr>) -> (s: Stmt)
    ensures
        s@ == decl_stmt(VarKind::Let, name@, crate::spec_ast::v_opt_expr(init)),
{
    create_variable_declaration_kind(VarKind::Let, name, init)
}

/// `const name = init;`
pub fn create_variable_declaration_const(name: String, init: Option<Expr>) -> (s: Stmt)
    ensures
        s@ == decl_stmt(VarKind::Const, name@, crate::spec_ast::v_opt_expr(init)),
{
    create_variable_declaration_kind(VarKind::Const, name, init)
}

/// `kind name = init;`
pub fn create_variable_declaration_kind(kind: VarKind, name: String, init: Option<Expr>) -> (s: Stmt)
    ensures
        s@ == decl_stmt(kind, name@, crate::spec_ast::v_opt_expr(init)),
{
    create_variable_declaration_pattern(kind, Pattern::Ident(name), init)
}

/// `kind pattern = init;`
pub(crate) fn create_variable_declaration_pattern(kind: VarKind, id: Pattern, init: Option<Expr>) -> (s: Stmt)
    ensures
        s@ == pattern_decl_stmt(kind, id@, crate::spec_ast::v_opt_expr(init)),
{
    let ghost idv = id@;
    let ghost initv = crate::spec_ast::v_opt_expr(init);
    let mut decls: Vec<Declarator> = Vec::new();
    let dcl = Declarator { id, init };
    let ghost dv = crate::spec_ast::v_declarator(dcl);
    proof {
        crate::spec_ast::lemma_v_declarator_fields(dcl);
    }
    decls.push(dcl);
    proof {
        assert(decls@.drop_last() =~= Seq::<Declarator>::empty());
        assert(crate::spec_ast::v_declarators(decls@.drop_last()) =~= Seq::<SDeclarator>::empty());
        assert(decls@.last() == dcl);
        assert(crate::spec_ast::v_declarators(decls@) == crate::spec_ast::v_declarators(decls@.drop_last()).push(dv));
        assert(crate::spec_ast::v_declarators(decls@) =~= seq![dv]);
        assert(dv == SDeclarator { id: idv, init: initv });
    }
    let d = VarDecl { kind, decls };
    proof {
        assert(crate::spec_ast::v_var_decl(d) == SVarDecl {
            kind,
            decls: seq![SDeclarator { id: id@, init: crate::spec_ast::v_opt_expr(init) }],
        });
    }
    Stmt::VarDecl(d)
}

} // verus!
