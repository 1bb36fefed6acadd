//! The size of a syntax tree: the measure by which the mapper's descent into
//! children terminates. Every node counts one, plus the sizes of the parts
//! the mapper enters.

use vstd::prelude::*;
use crate::spec_ast::{
    SArg, SArrayElem, SArrow, SArrowBody, SAssignTarget, SCatchClause, SChainElem, SClass, SClassElem,
    SDeclarator, SExpr, SForInit, SForLeft, SFunction, SMember, SObjProp, SPattern, SPropKey, SSimpleTarget,
    SStmt, SSwitchCase, SVarDecl,
};

verus! {

/// The size of a statement.
pub open spec fn sz_stmt(s: SStmt) -> nat
    decreases s, 1nat,
{
    match s {
        SStmt::Block(b) => 1 + sz_stmts(b, 0),
        SStmt::DoWhile(b, t) => 1 + sz_stmt(*b) + sz_expr(t),
        SStmt::Expr(e) => 1 + sz_expr(e),
        SStmt::ForIn(l, r, b) => 1 + sz_for_left(l) + sz_expr(r) + sz_stmt(*b),
        SStmt::ForOf(l, r, b, _) => 1 + sz_for_left(l) + sz_expr(r) + sz_stmt(*b),
        SStmt::For(i, t, u, b) => 1 + sz_for_init(i) + sz_opt_expr(t) + sz_opt_expr(u) + sz_stmt(*b),
        SStmt::If(t, c, a) => 1 + sz_expr(t) + sz_stmt(*c) + sz_opt_stmt(a),
        SStmt::Labeled(_, b) => 1 + sz_stmt(*b),
        SStmt::Return(a) => 1 + sz_opt_expr(a),
        SStmt::Switch(d, cs) => 1 + sz_expr(d) + sz_cases(cs, 0),
        SStmt::Throw(e) => 1 + sz_expr(e),
        SStmt::Try(b, h, f) => 1 + sz_stmts(b, 0) + sz_catch(h) + sz_opt_stmts(f),
        SStmt::While(t, b) => 1 + sz_expr(t) + sz_stmt(*b),
        SStmt::With(o, b) => 1 + sz_expr(o) + sz_stmt(*b),
        SStmt::VarDecl(d) => 1 + sz_var_decl(d),
        SStmt::FunctionDecl(f) => 1 + sz_function(*f),
        SStmt::ClassDecl(c) => 1 + sz_class(*c),
        _ => 1,
    }
}

/// The size of an optional boxed statement.
pub open spec fn sz_opt_stmt(a: Option<Box<SStmt>>) -> nat
    decreases a, 0nat,
{
    match a {
        Some(x) => 1 + sz_stmt(*x),
        None => 0,
    }
}

/// The size of the statements `b[i..]`.
pub open spec fn sz_stmts(b: Seq<SStmt>, i: int) -> nat
    decreases b, if 0 <= i <= b.len() { (b.len() - i) as nat } else { 0nat },
{
    if i < 0 || i >= b.len() { 0 } else { 1 + sz_stmt(b[i]) + sz_stmts(b, i + 1) }
}

/// The size of an optional list of statements.
pub open spec fn sz_opt_stmts(b: Option<Seq<SStmt>>) -> nat
    decreases b, 0nat,
{
    match b {
        Some(x) => 1 + sz_stmts(x, 0),
        None => 0,
    }
}

/// The size of an optional `catch` clause.
pub open spec fn sz_catch(h: Option<SCatchClause>) -> nat
    decreases h, 0nat,
{
    match h {
        Some(c) => 1 + sz_stmts(c.body, 0) + sz_opt_pattern(c.param),
        None => 0,
    }
}

/// The size of a `switch` case.
pub open spec fn sz_case(c: SSwitchCase) -> nat
    decreases c, 0nat,
{
    1 + sz_opt_expr(c.test) + sz_stmts(c.body, 0)
}

/// The size of the cases `cs[i..]`.
pub open spec fn sz_cases(cs: Seq<SSwitchCase>, i: int) -> nat
    decreases cs, if 0 <= i <= cs.len() { (cs.len() - i) as nat } else { 0nat },
{
    if i < 0 || i >= cs.len() { 0 } else { 1 + sz_case(cs[i]) + sz_cases(cs, i + 1) }
}

/// The size of a variable declaration.
pub open spec fn sz_var_decl(d: SVarDecl) -> nat
    decreases d, 0nat,
{
    1 + sz_declarators(d.decls, 0)
}

/// The size of a declarator.
pub open spec fn sz_declarator(d: SDeclarator) -> nat
    decreases d, 0nat,
{
    1 + sz_pattern(d.id) + sz_opt_expr(d.init)
}

/// The size of the declarators `ds[i..]`.
pub open spec fn sz_declarators(ds: Seq<SDeclarator>, i: int) -> nat
    decreases ds, if 0 <= i <= ds.len() { (ds.len() - i) as nat } else { 0nat },
{
    if i < 0 || i >= ds.len() { 0 } else { 1 + sz_declarator(ds[i]) + sz_declarators(ds, i + 1) }
}

/// The size of the left side of a `for-in` or `for-of`.
pub open spec fn sz_for_left(l: SForLeft) -> nat
    decreases l, 0nat,
{
    match l {
        SForLeft::VarDecl(d) => 1 + sz_var_decl(d),
        SForLeft::Target(t) => 1 + sz_target(t),
    }
}

/// The size of an optional `for` init.
pub open spec fn sz_for_init(i: Option<SForInit>) -> nat
    decreases i, 0nat,
{
    match i {
        Some(SForInit::Expr(e)) => 1 + sz_expr(e),
        Some(SForInit::VarDecl(d)) => 1 + sz_var_decl(d),
        None => 0,
    }
}

/// The size of a binding pattern.
pub open spec fn sz_pattern(p: SPattern) -> nat
    decreases p, 0nat,
{
    match p {
        SPattern::Array(elems, _) => 1 + sz_opt_patterns(elems, 0),
        SPattern::Assign(l, r) => 1 + sz_pattern(*l) + sz_expr(*r),
        _ => 1,
    }
}

/// The size of an optional pattern.
pub open spec fn sz_opt_pattern(p: Option<SPattern>) -> nat
    decreases p, 0nat,
{
    match p {
        Some(x) => 1 + sz_pattern(x),
        None => 0,
    }
}

/// The size of the optional patterns `ps[i..]`.
pub open spec fn sz_opt_patterns(ps: Seq<Option<SPattern>>, i: int) -> nat
    decreases ps, if 0 <= i <= ps.len() { (ps.len() - i) as nat } else { 0nat },
{
    if i < 0 || i >= ps.len() { 0 } else { 1 + sz_opt_pattern(ps[i]) + sz_opt_patterns(ps, i + 1) }
}

/// The size of the patterns `ps[i..]`.
pub open spec fn sz_patterns(ps: Seq<SPattern>, i: int) -> nat
    decreases ps, if 0 <= i <= ps.len() { (ps.len() - i) as nat } else { 0nat },
{
    if i < 0 || i >= ps.len() { 0 } else { 1 + sz_pattern(ps[i]) + sz_patterns(ps, i + 1) }
}

/// The size of an assignment target.
pub open spec fn sz_target(t: SAssignTarget) -> nat
    decreases t, 0nat,
{
    match t {
        SAssignTarget::Member(m) => 1 + sz_member(m),
        _ => 1,
    }
}

/// The size of a member expression.
pub open spec fn sz_member(m: SMember) -> nat
    decreases m, 0nat,
{
    match m {
        SMember::Computed(o, p, _) => 1 + sz_expr(o) + sz_expr(p),
        SMember::Static(o, _, _) => 1 + sz_expr(o),
        SMember::Private(o, _, _) => 1 + sz_expr(o),
    }
}

/// The size of a function.
pub open spec fn sz_function(f: SFunction) -> nat
    decreases f, 0nat,
{
    1 + sz_stmts(f.body, 0)
}

/// The size of a class.
pub open spec fn sz_class(c: SClass) -> nat
    decreases c, 0nat,
{
    1 + sz_opt_expr(c.super_class) + sz_class_elems(c.body, 0)
}

/// The size of a class element.
pub open spec fn sz_class_elem(x: SClassElem) -> nat
    decreases x, 0nat,
{
    match x {
        SClassElem::Property { value, .. } => 1 + sz_opt_expr(value),
        SClassElem::Method { value, .. } => 1 + sz_function(value),
        SClassElem::Other(_) => 1,
    }
}

/// The size of the class elements `es[i..]`.
pub open spec fn sz_class_elems(es: Seq<SClassElem>, i: int) -> nat
    decreases es, if 0 <= i <= es.len() { (es.len() - i) as nat } else { 0nat },
{
    if i < 0 || i >= es.len() { 0 } else { 1 + sz_class_elem(es[i]) + sz_class_elems(es, i + 1) }
}

/// The size of an optional expression.
pub open spec fn sz_opt_expr(e: Option<SExpr>) -> nat
    decreases e, 0nat,
{
    match e {
        Some(x) => 1 + sz_expr(x),
        None => 0,
    }
}

/// The size of the expressions `es[i..]`.
pub open spec fn sz_exprs(es: Seq<SExpr>, i: int) -> nat
    decreases es, if 0 <= i <= es.len() { (es.len() - i) as nat } else { 0nat },
{
    if i < 0 || i >= es.len() { 0 } else { 1 + sz_expr(es[i]) + sz_exprs(es, i + 1) }
}

/// The size of a call argument.
pub open spec fn sz_arg(a: SArg) -> nat
    decreases a, 0nat,
{
    match a {
        SArg::Expr(e) => 1 + sz_expr(e),
        SArg::Spread(e) => 1 + sz_expr(e),
    }
}

/// The size of the arguments `args[i..]`.
pub open spec fn sz_args(args: Seq<SArg>, i: int) -> nat
    decreases args, if 0 <= i <= args.len() { (args.len() - i) as nat } else { 0nat },
{
    if i < 0 || i >= args.len() { 0 } else { 1 + sz_arg(args[i]) + sz_args(args, i + 1) }
}

/// The size of an array element.
pub open spec fn sz_array_elem(a: SArrayElem) -> nat
    decreases a, 0nat,
{
    match a {
        SArrayElem::Expr(e) => 1 + sz_expr(e),
        SArrayElem::Spread(e) => 1 + sz_expr(e),
        SArrayElem::Hole => 1,
    }
}

/// The size of the array elements `es[i..]`.
pub open spec fn sz_array_elems(es: Seq<SArrayElem>, i: int) -> nat
    decreases es, if 0 <= i <= es.len() { (es.len() - i) as nat } else { 0nat },
{
    if i < 0 || i >= es.len() { 0 } else { 1 + sz_array_elem(es[i]) + sz_array_elems(es, i + 1) }
}

/// The size of an object property.
pub open spec fn sz_obj_prop(p: SObjProp) -> nat
    decreases p, 0nat,
{
    match p {
        SObjProp::Prop { key, value, .. } => 1 + sz_expr(value) + match key {
            SPropKey::Expr(k) => sz_expr(*k),
            _ => 0,
        },
        SObjProp::Spread(e) => 1 + sz_expr(e),
    }
}

/// The size of the object properties `ps[i..]`.
pub open spec fn sz_obj_props(ps: Seq<SObjProp>, i: int) -> nat
    decreases ps, if 0 <= i <= ps.len() { (ps.len() - i) as nat } else { 0nat },
{
    if i < 0 || i >= ps.len() { 0 } else { 1 + sz_obj_prop(ps[i]) + sz_obj_props(ps, i + 1) }
}

/// The size of an optional-chain element.
pub open spec fn sz_chain(c: SChainElem) -> nat
    decreases c, 0nat,
{
    match c {
        SChainElem::Call(f, args, _) => 1 + sz_expr(f) + sz_args(args, 0),
        SChainElem::Computed(o, p, _) => 1 + sz_expr(o) + sz_expr(p),
        SChainElem::Static(o, _, _) => 1 + sz_expr(o),
    }
}

/// The size of an update target.
pub open spec fn sz_simple_target(t: SSimpleTarget) -> nat
    decreases t, 0nat,
{
    match t {
        SSimpleTarget::Computed(o, p, _) => 1 + sz_expr(o) + sz_expr(p),
        SSimpleTarget::Static(o, _, _) => 1 + sz_expr(o),
        _ => 1,
    }
}

/// The size of an arrow.
pub open spec fn sz_arrow(a: SArrow) -> nat
    decreases a, 0nat,
{
    1 + sz_patterns(a.params, 0) + match a.body {
        SArrowBody::Block(b) => sz_stmts(b, 0),
        SArrowBody::Expr(e) => sz_expr(e),
    }
}

/// The size of an expression.
pub open spec fn sz_expr(e: SExpr) -> nat
    decreases e, 0nat,
{
    match e {
        SExpr::Array(es) => 1 + sz_array_elems(es, 0),
        SExpr::Object(ps) => 1 + sz_obj_props(ps, 0),
        SExpr::Function(f) => 1 + sz_function(*f),
        SExpr::Arrow(a) => 1 + sz_arrow(*a),
        SExpr::Class(c) => 1 + sz_class(*c),
        SExpr::Assign(_, t, r) => 1 + sz_target(*t) + sz_expr(*r),
        SExpr::Await(x) => 1 + sz_expr(*x),
        SExpr::Binary(_, x, y) => 1 + sz_expr(*x) + sz_expr(*y),
        SExpr::Logical(_, x, y) => 1 + sz_expr(*x) + sz_expr(*y),
        SExpr::Unary(_, x) => 1 + sz_expr(*x),
        SExpr::Update(_, _, t) => 1 + sz_simple_target(*t),
        SExpr::Call(f, args, _) => 1 + sz_expr(*f) + sz_args(args, 0),
        SExpr::New(f, args) => 1 + sz_expr(*f) + sz_args(args, 0),
        SExpr::Chain(c) => 1 + sz_chain(*c),
        SExpr::Member(m) => 1 + sz_member(*m),
        SExpr::Conditional(t, c, a) => 1 + sz_expr(*t) + sz_expr(*c) + sz_expr(*a),
        SExpr::Sequence(es) => 1 + sz_exprs(es, 0),
        SExpr::TaggedTemplate(t, q) => 1 + sz_expr(*t) + sz_exprs(q.exprs, 0),
        SExpr::Yield(Some(x), _) => 1 + sz_expr(*x),
        SExpr::Paren(x) => 1 + sz_expr(*x),
        SExpr::Import(x, _) => 1 + sz_expr(*x),
        _ => 1,
    }
}

} // verus!
