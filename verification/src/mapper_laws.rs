//! Laws of the mapper's model: with no visitor, the traversal gives back
//! what it is given.

use vstd::prelude::*;
use crate::mapper::{follows, label_mode, lbl, rl_stmt_block, Mapper};
use crate::mapper_spec::{
    rl_arg, rl_args, rl_array_elem, rl_array_elems, rl_arrow, rl_case, rl_cases, rl_catch, rl_chain, rl_class, rl_class_elem, rl_class_elems, rl_declarator, rl_declarators, rl_do_while, rl_expr, rl_exprs, rl_for, rl_for_in, rl_for_init, rl_for_left, rl_for_of, rl_function, rl_if, rl_member, rl_obj_prop, rl_obj_props, rl_opt_expr, rl_opt_pattern, rl_opt_patterns, rl_opt_stmt, rl_opt_stmts, rl_pattern, rl_patterns, rl_simple_target, rl_stmt, rl_stmts, rl_switch, rl_target, rl_try, rl_var_decl, rl_while, rl_with,
};
use crate::spec_ast::{
    SArg, SArrayElem, SArrow, SArrowBody, SAssignTarget, SCatchClause, SChainElem, SClass,
    SClassElem, SDeclarator, SExpr, SForInit, SForLeft, SFunction, SMember, SObjProp, SPattern,
    SPropKey, SSimpleTarget, SStmt, SSwitchCase, SVarDecl,
};

verus! {

/// Law: a mapper without visitors succeeds on every program and gives back
/// the program it maps. For any outcome of `Mapper::map` of such a mapper
/// (see its contract), the mapping succeeded, its result is the program it
/// was given, and no break was relabeled.
pub proof fn lemma_map_without_visitors_keeps(m0: Mapper, m1: Mapper, p: Seq<SStmt>, ok: bool, out: Seq<SStmt>, unsupported: bool)
    requires
        m0.visitors_stmt@.len() == 0,
        follows(m0, m1, rl_stmt_block(p, lbl(m0)), ok, out, unsupported),
    ensures
        ok,
        out == p,
        m1.relabeled == m0.relabeled,
{
    assert(label_mode(m0.visitors_stmt@) == Some(None::<Seq<char>>));
    keep_stmts(p, 0);
}

/// With no label, `rl_stmts` gives back the elements from `i` on.
#[verifier::spinoff_prover]
#[verifier::rlimit(20)]
pub proof fn keep_stmts(s: Seq<SStmt>, i: int)
    requires
        0 <= i <= s.len(),
    ensures
        rl_stmts(s, i, None) == (s.subrange(i, s.len() as int), false, true),
        i == 0 ==> rl_stmts(s, i, None).0 == s,
    decreases s, (s.len() - i) as nat,
{
    if i < s.len() {
        keep_stmt(s[i]);
        keep_stmts(s, i + 1);
        assert(seq![s[i]] + s.subrange(i + 1, s.len() as int) =~= s.subrange(i, s.len() as int));
    } else {
        assert(s.subrange(i, s.len() as int) =~= Seq::<SStmt>::empty());
    }
    assert(s.subrange(0, s.len() as int) =~= s);
}

/// With no label, `rl_cases` gives back the elements from `i` on.
#[verifier::spinoff_prover]
#[verifier::rlimit(20)]
pub proof fn keep_cases(s: Seq<SSwitchCase>, i: int)
    requires
        0 <= i <= s.len(),
    ensures
        rl_cases(s, i, None) == (s.subrange(i, s.len() as int), false, true),
        i == 0 ==> rl_cases(s, i, None).0 == s,
    decreases s, (s.len() - i) as nat,
{
    if i < s.len() {
        keep_case(s[i]);
        keep_cases(s, i + 1);
        assert(seq![s[i]] + s.subrange(i + 1, s.len() as int) =~= s.subrange(i, s.len() as int));
    } else {
        assert(s.subrange(i, s.len() as int) =~= Seq::<SSwitchCase>::empty());
    }
    assert(s.subrange(0, s.len() as int) =~= s);
}

/// With no label, `rl_declarators` gives back the elements from `i` on.
#[verifier::spinoff_prover]
#[verifier::rlimit(20)]
pub proof fn keep_declarators(s: Seq<SDeclarator>, i: int)
    requires
        0 <= i <= s.len(),
    ensures
        rl_declarators(s, i, None) == (s.subrange(i, s.len() as int), false, true),
        i == 0 ==> rl_declarators(s, i, None).0 == s,
    decreases s, (s.len() - i) as nat,
{
    if i < s.len() {
        keep_declarator(s[i]);
        keep_declarators(s, i + 1);
        assert(seq![s[i]] + s.subrange(i + 1, s.len() as int) =~= s.subrange(i, s.len() as int));
    } else {
        assert(s.subrange(i, s.len() as int) =~= Seq::<SDeclarator>::empty());
    }
    assert(s.subrange(0, s.len() as int) =~= s);
}

/// With no label, `rl_opt_patterns` gives back the elements from `i` on.
#[verifier::spinoff_prover]
#[verifier::rlimit(20)]
pub proof fn keep_opt_patterns(s: Seq<Option<SPattern>>, i: int)
    requires
        0 <= i <= s.len(),
    ensures
        rl_opt_patterns(s, i, None) == (s.subrange(i, s.len() as int), false, true),
        i == 0 ==> rl_opt_patterns(s, i, None).0 == s,
    decreases s, (s.len() - i) as nat,
{
    if i < s.len() {
        keep_opt_pattern(s[i]);
        keep_opt_patterns(s, i + 1);
        assert(seq![s[i]] + s.subrange(i + 1, s.len() as int) =~= s.subrange(i, s.len() as int));
    } else {
        assert(s.subrange(i, s.len() as int) =~= Seq::<Option<SPattern>>::empty());
    }
    assert(s.subrange(0, s.len() as int) =~= s);
}

/// With no label, `rl_patterns` gives back the elements from `i` on.
#[verifier::spinoff_prover]
#[verifier::rlimit(20)]
pub proof fn keep_patterns(s: Seq<SPattern>, i: int)
    requires
        0 <= i <= s.len(),
    ensures
        rl_patterns(s, i, None) == (s.subrange(i, s.len() as int), false, true),
        i == 0 ==> rl_patterns(s, i, None).0 == s,
    decreases s, (s.len() - i) as nat,
{
    if i < s.len() {
        keep_pattern(s[i]);
        keep_patterns(s, i + 1);
        assert(seq![s[i]] + s.subrange(i + 1, s.len() as int) =~= s.subrange(i, s.len() as int));
    } else {
        assert(s.subrange(i, s.len() as int) =~= Seq::<SPattern>::empty());
    }
    assert(s.subrange(0, s.len() as int) =~= s);
}

/// With no label, `rl_class_elems` gives back the elements from `i` on.
#[verifier::spinoff_prover]
#[verifier::rlimit(20)]
pub proof fn keep_class_elems(s: Seq<SClassElem>, i: int)
    requires
        0 <= i <= s.len(),
    ensures
        rl_class_elems(s, i, None) == (s.subrange(i, s.len() as int), false, true),
        i == 0 ==> rl_class_elems(s, i, None).0 == s,
    decreases s, (s.len() - i) as nat,
{
    if i < s.len() {
        keep_class_elem(s[i]);
        keep_class_elems(s, i + 1);
        assert(seq![s[i]] + s.subrange(i + 1, s.len() as int) =~= s.subrange(i, s.len() as int));
    } else {
        assert(s.subrange(i, s.len() as int) =~= Seq::<SClassElem>::empty());
    }
    assert(s.subrange(0, s.len() as int) =~= s);
}

/// With no label, `rl_exprs` gives back the elements from `i` on.
#[verifier::spinoff_prover]
#[verifier::rlimit(20)]
pub proof fn keep_exprs(s: Seq<SExpr>, i: int)
    requires
        0 <= i <= s.len(),
    ensures
        rl_exprs(s, i, None) == (s.subrange(i, s.len() as int), false, true),
        i == 0 ==> rl_exprs(s, i, None).0 == s,
    decreases s, (s.len() - i) as nat,
{
    if i < s.len() {
        keep_expr(s[i]);
        keep_exprs(s, i + 1);
        assert(seq![s[i]] + s.subrange(i + 1, s.len() as int) =~= s.subrange(i, s.len() as int));
    } else {
        assert(s.subrange(i, s.len() as int) =~= Seq::<SExpr>::empty());
    }
    assert(s.subrange(0, s.len() as int) =~= s);
}

/// With no label, `rl_args` gives back the elements from `i` on.
#[verifier::spinoff_prover]
#[verifier::rlimit(20)]
pub proof fn keep_args(s: Seq<SArg>, i: int)
    requires
        0 <= i <= s.len(),
    ensures
        rl_args(s, i, None) == (s.subrange(i, s.len() as int), false, true),
        i == 0 ==> rl_args(s, i, None).0 == s,
    decreases s, (s.len() - i) as nat,
{
    if i < s.len() {
        keep_arg(s[i]);
        keep_args(s, i + 1);
        assert(seq![s[i]] + s.subrange(i + 1, s.len() as int) =~= s.subrange(i, s.len() as int));
    } else {
        assert(s.subrange(i, s.len() as int) =~= Seq::<SArg>::empty());
    }
    assert(s.subrange(0, s.len() as int) =~= s);
}

/// With no label, `rl_array_elems` gives back the elements from `i` on.
#[verifier::spinoff_prover]
#[verifier::rlimit(20)]
pub proof fn keep_array_elems(s: Seq<SArrayElem>, i: int)
    requires
        0 <= i <= s.len(),
    ensures
        rl_array_elems(s, i, None) == (s.subrange(i, s.len() as int), false, true),
        i == 0 ==> rl_array_elems(s, i, None).0 == s,
    decreases s, (s.len() - i) as nat,
{
    if i < s.len() {
        keep_array_elem(s[i]);
        keep_array_elems(s, i + 1);
        assert(seq![s[i]] + s.subrange(i + 1, s.len() as int) =~= s.subrange(i, s.len() as int));
    } else {
        assert(s.subrange(i, s.len() as int) =~= Seq::<SArrayElem>::empty());
    }
    assert(s.subrange(0, s.len() as int) =~= s);
}

/// With no label, `rl_obj_props` gives back the elements from `i` on.
#[verifier::spinoff_prover]
#[verifier::rlimit(20)]
pub proof fn keep_obj_props(s: Seq<SObjProp>, i: int)
    requires
        0 <= i <= s.len(),
    ensures
        rl_obj_props(s, i, None) == (s.subrange(i, s.len() as int), false, true),
        i == 0 ==> rl_obj_props(s, i, None).0 == s,
    decreases s, (s.len() - i) as nat,
{
    if i < s.len() {
        keep_obj_prop(s[i]);
        keep_obj_props(s, i + 1);
        assert(seq![s[i]] + s.subrange(i + 1, s.len() as int) =~= s.subrange(i, s.len() as int));
    } else {
        assert(s.subrange(i, s.len() as int) =~= Seq::<SObjProp>::empty());
    }
    assert(s.subrange(0, s.len() as int) =~= s);
}

/// With no label, `rl_stmt` gives back the statement.
#[verifier::spinoff_prover]
#[verifier::rlimit(20)]
pub proof fn keep_stmt(s: SStmt)
    ensures
        rl_stmt(s, None) == (s, false, true),
    decreases s, 2nat,
{
    reveal_with_fuel(rl_stmt, 1);
    match s {
        SStmt::Block(b) => keep_stmts(b, 0),
        SStmt::DoWhile(..) => keep_do_while(s),
        SStmt::Expr(e) => keep_expr(e),
        SStmt::ForIn(..) => keep_for_in(s),
        SStmt::ForOf(..) => keep_for_of(s),
        SStmt::For(..) => keep_for(s),
        SStmt::If(..) => keep_if(s),
        SStmt::Labeled(_, b) => keep_stmt(*b),
        SStmt::Return(a) => keep_opt_expr(a),
        SStmt::Switch(..) => keep_switch(s),
        SStmt::Throw(e) => keep_expr(e),
        SStmt::Try(..) => keep_try(s),
        SStmt::While(..) => keep_while(s),
        SStmt::With(..) => keep_with(s),
        SStmt::VarDecl(d) => keep_var_decl(d),
        SStmt::FunctionDecl(f) => keep_function(*f),
        SStmt::ClassDecl(c) => keep_class(*c),
        _ => {},
    }
}

#[verifier::spinoff_prover]
#[verifier::rlimit(20)]
pub proof fn keep_do_while(s: SStmt)
    ensures
        rl_do_while(s, None) == (s, false, true),
    decreases s, 1nat,
{
    match s {
        SStmt::DoWhile(b, t) => {
            keep_stmt(*b);
            keep_expr(t);
        },
        _ => {},
    }
}

#[verifier::spinoff_prover]
#[verifier::rlimit(20)]
pub proof fn keep_for_in(s: SStmt)
    ensures
        rl_for_in(s, None) == (s, false, true),
    decreases s, 1nat,
{
    match s {
        SStmt::ForIn(left, right, body) => {
            keep_for_left(left);
            keep_expr(right);
            keep_stmt(*body);
        },
        _ => {},
    }
}

#[verifier::spinoff_prover]
#[verifier::rlimit(20)]
pub proof fn keep_for_of(s: SStmt)
    ensures
        rl_for_of(s, None) == (s, false, true),
    decreases s, 1nat,
{
    match s {
        SStmt::ForOf(left, right, body, _) => {
            keep_for_left(left);
            keep_expr(right);
            keep_stmt(*body);
        },
        _ => {},
    }
}

#[verifier::spinoff_prover]
#[verifier::rlimit(20)]
pub proof fn keep_for(s: SStmt)
    ensures
        rl_for(s, None) == (s, false, true),
    decreases s, 1nat,
{
    match s {
        SStmt::For(init, test, update, body) => {
            keep_for_init(init);
            keep_opt_expr(test);
            keep_opt_expr(update);
            keep_stmt(*body);
        },
        _ => {},
    }
}

#[verifier::spinoff_prover]
#[verifier::rlimit(20)]
pub proof fn keep_if(s: SStmt)
    ensures
        rl_if(s, None) == (s, false, true),
    decreases s, 1nat,
{
    match s {
        SStmt::If(t, c, a) => {
            keep_expr(t);
            keep_stmt(*c);
            keep_opt_stmt(a);
        },
        _ => {},
    }
}

#[verifier::spinoff_prover]
#[verifier::rlimit(20)]
pub proof fn keep_switch(s: SStmt)
    ensures
        rl_switch(s, None) == (s, false, true),
    decreases s, 1nat,
{
    match s {
        SStmt::Switch(d, cases) => {
            keep_expr(d);
            keep_cases(cases, 0);
        },
        _ => {},
    }
}

#[verifier::spinoff_prover]
#[verifier::rlimit(20)]
pub proof fn keep_try(s: SStmt)
    ensures
        rl_try(s, None) == (s, false, true),
    decreases s, 1nat,
{
    match s {
        SStmt::Try(b, h, f) => {
            keep_stmts(b, 0);
            keep_catch(h);
            keep_opt_stmts(f);
        },
        _ => {},
    }
}

#[verifier::spinoff_prover]
#[verifier::rlimit(20)]
pub proof fn keep_while(s: SStmt)
    ensures
        rl_while(s, None) == (s, false, true),
    decreases s, 1nat,
{
    match s {
        SStmt::While(t, b) => {
            keep_expr(t);
            keep_stmt(*b);
        },
        _ => {},
    }
}

#[verifier::spinoff_prover]
#[verifier::rlimit(20)]
pub proof fn keep_with(s: SStmt)
    ensures
        rl_with(s, None) == (s, false, true),
    decreases s, 1nat,
{
    match s {
        SStmt::With(o, b) => {
            keep_expr(o);
            keep_stmt(*b);
        },
        _ => {},
    }
}

#[verifier::spinoff_prover]
#[verifier::rlimit(20)]
pub proof fn keep_opt_stmt(s: Option<Box<SStmt>>)
    ensures
        rl_opt_stmt(s, None) == (s, false, true),
    decreases s, 0nat,
{
    match s {
        Some(x) => {
            keep_stmt(*x);
        },
        _ => {},
    }
}

#[verifier::spinoff_prover]
#[verifier::rlimit(20)]
pub proof fn keep_opt_stmts(b: Option<Seq<SStmt>>)
    ensures
        rl_opt_stmts(b, None) == (b, false, true),
    decreases b, 0nat,
{
    match b {
        Some(x) => {
            keep_stmts(x, 0);
        },
        _ => {},
    }
}

#[verifier::spinoff_prover]
#[verifier::rlimit(20)]
pub proof fn keep_catch(h: Option<SCatchClause>)
    ensures
        rl_catch(h, None) == (h, false, true),
    decreases h, 0nat,
{
    match h {
        Some(c) => {
            keep_stmts(c.body, 0);
            keep_opt_pattern(c.param);
        },
        _ => {},
    }
}

#[verifier::spinoff_prover]
#[verifier::rlimit(20)]
pub proof fn keep_case(c: SSwitchCase)
    ensures
        rl_case(c, None) == (c, false, true),
    decreases c, 0nat,
{
    keep_opt_expr(c.test);
    keep_stmts(c.body, 0);
}

#[verifier::spinoff_prover]
#[verifier::rlimit(20)]
pub proof fn keep_var_decl(d: SVarDecl)
    ensures
        rl_var_decl(d, None) == (d, false, true),
    decreases d, 0nat,
{
    keep_declarators(d.decls, 0);
}

#[verifier::spinoff_prover]
#[verifier::rlimit(20)]
pub proof fn keep_declarator(d: SDeclarator)
    ensures
        rl_declarator(d, None) == (d, false, true),
    decreases d, 0nat,
{
    reveal(rl_declarator);
    keep_pattern(d.id);
    keep_opt_expr(d.init);
}

#[verifier::spinoff_prover]
#[verifier::rlimit(20)]
pub proof fn keep_for_left(left: SForLeft)
    ensures
        rl_for_left(left, None) == (left, false, true),
    decreases left, 0nat,
{
    match left {
        SForLeft::VarDecl(d) => keep_var_decl(d),
        SForLeft::Target(t) => keep_target(t),
    }
}

#[verifier::spinoff_prover]
#[verifier::rlimit(20)]
pub proof fn keep_for_init(init: Option<SForInit>)
    ensures
        rl_for_init(init, None) == (init, false, true),
    decreases init, 0nat,
{
    match init {
        Some(SForInit::Expr(e)) => keep_expr(e),
        Some(SForInit::VarDecl(d)) => keep_var_decl(d),
        None => {},
    }
}

#[verifier::spinoff_prover]
#[verifier::rlimit(20)]
pub proof fn keep_pattern(p: SPattern)
    ensures
        rl_pattern(p, None) == (p, false, true),
    decreases p, 0nat,
{
    match p {
        SPattern::Array(elems, _) => keep_opt_patterns(elems, 0),
        SPattern::Assign(left, right) => {
            keep_pattern(*left);
            keep_expr(*right);
        },
        _ => {},
    }
}

#[verifier::spinoff_prover]
#[verifier::rlimit(20)]
pub proof fn keep_opt_pattern(p: Option<SPattern>)
    ensures
        rl_opt_pattern(p, None) == (p, false, true),
    decreases p, 0nat,
{
    match p {
        Some(x) => {
            keep_pattern(x);
        },
        _ => {},
    }
}

#[verifier::spinoff_prover]
#[verifier::rlimit(20)]
pub proof fn keep_target(t: SAssignTarget)
    ensures
        rl_target(t, None) == (t, false, true),
    decreases t, 0nat,
{
    match t {
        SAssignTarget::Member(m) => {
            keep_member(m);
        },
        _ => {},
    }
}

#[verifier::spinoff_prover]
#[verifier::rlimit(20)]
pub proof fn keep_member(m: SMember)
    ensures
        rl_member(m, None) == (m, false, true),
    decreases m, 0nat,
{
    match m {
        SMember::Computed(o, p, _) => {
            keep_expr(o);
            keep_expr(p);
        },
        SMember::Static(o, _, _) => keep_expr(o),
        SMember::Private(o, _, _) => keep_expr(o),
    }
}

#[verifier::spinoff_prover]
#[verifier::rlimit(20)]
pub proof fn keep_function(f: SFunction)
    ensures
        rl_function(f, None) == (f, false, true),
    decreases f, 0nat,
{
    keep_stmts(f.body, 0);
}

#[verifier::spinoff_prover]
#[verifier::rlimit(20)]
pub proof fn keep_class(c: SClass)
    ensures
        rl_class(c, None) == (c, false, true),
    decreases c, 0nat,
{
    keep_opt_expr(c.super_class);
    keep_class_elems(c.body, 0);
}

#[verifier::spinoff_prover]
#[verifier::rlimit(20)]
pub proof fn keep_class_elem(x: SClassElem)
    ensures
        rl_class_elem(x, None) == (x, false, true),
    decreases x, 0nat,
{
    match x {
        SClassElem::Property { value, .. } => keep_opt_expr(value),
        SClassElem::Method { value, .. } => keep_function(value),
        SClassElem::Other(_) => {},
    }
}

#[verifier::spinoff_prover]
#[verifier::rlimit(20)]
pub proof fn keep_opt_expr(e: Option<SExpr>)
    ensures
        rl_opt_expr(e, None) == (e, false, true),
    decreases e, 0nat,
{
    match e {
        Some(x) => {
            keep_expr(x);
        },
        _ => {},
    }
}

#[verifier::spinoff_prover]
#[verifier::rlimit(20)]
pub proof fn keep_arg(x: SArg)
    ensures
        rl_arg(x, None) == (x, false, true),
    decreases x, 0nat,
{
    match x {
        SArg::Expr(e) => keep_expr(e),
        SArg::Spread(e) => keep_expr(e),
    }
}

#[verifier::spinoff_prover]
#[verifier::rlimit(20)]
pub proof fn keep_array_elem(x: SArrayElem)
    ensures
        rl_array_elem(x, None) == (x, false, true),
    decreases x, 0nat,
{
    match x {
        SArrayElem::Expr(e) => keep_expr(e),
        SArrayElem::Spread(e) => keep_expr(e),
        SArrayElem::Hole => {},
    }
}

#[verifier::spinoff_prover]
#[verifier::rlimit(20)]
pub proof fn keep_obj_prop(x: SObjProp)
    ensures
        rl_obj_prop(x, None) == (x, false, true),
    decreases x, 0nat,
{
    match x {
        SObjProp::Prop { key, value, .. } => {
            match key {
                SPropKey::Expr(e) => {
                    keep_expr(*e);
                },
                _ => {},
            }
            keep_expr(value);
        },
        SObjProp::Spread(e) => keep_expr(e),
    }
}

#[verifier::spinoff_prover]
#[verifier::rlimit(20)]
pub proof fn keep_chain(c: SChainElem)
    ensures
        rl_chain(c, None) == (c, false, true),
    decreases c, 0nat,
{
    match c {
        SChainElem::Call(f, args, _) => {
            keep_expr(f);
            keep_args(args, 0);
        },
        SChainElem::Computed(o, p, _) => {
            keep_expr(o);
            keep_expr(p);
        },
        SChainElem::Static(o, _, _) => keep_expr(o),
    }
}

#[verifier::spinoff_prover]
#[verifier::rlimit(20)]
pub proof fn keep_simple_target(t: SSimpleTarget)
    ensures
        rl_simple_target(t, None) == (t, false, true),
    decreases t, 0nat,
{
    match t {
        SSimpleTarget::Computed(o, p, _) => {
            keep_expr(o);
            keep_expr(p);
        },
        SSimpleTarget::Static(o, _, _) => keep_expr(o),
        _ => {},
    }
}

#[verifier::spinoff_prover]
#[verifier::rlimit(20)]
pub proof fn keep_arrow(a: SArrow)
    ensures
        rl_arrow(a, None) == (a, false, true),
    decreases a, 0nat,
{
    keep_patterns(a.params, 0);
    match a.body {
        SArrowBody::Block(b) => {
            keep_stmts(b, 0);
        },
        _ => {},
    }
}

/// With no label, `rl_expr` gives back the expression.
#[verifier::spinoff_prover]
#[verifier::rlimit(20)]
pub proof fn keep_expr(e: SExpr)
    ensures
        rl_expr(e, None) == (e, false, true),
    decreases e, 0nat,
{
    reveal_with_fuel(rl_expr, 1);
    match e {
        SExpr::Array(es) => keep_array_elems(es, 0),
        SExpr::Object(ps) => keep_obj_props(ps, 0),
        SExpr::Function(f) => keep_function(*f),
        SExpr::Arrow(a) => keep_arrow(*a),
        SExpr::Class(c) => keep_class(*c),
        SExpr::Assign(_, t, r) => {
            keep_target(*t);
            keep_expr(*r);
        },
        SExpr::Await(x) => keep_expr(*x),
        SExpr::Binary(_, x, y) => {
            keep_expr(*x);
            keep_expr(*y);
        },
        SExpr::Logical(_, x, y) => {
            keep_expr(*x);
            keep_expr(*y);
        },
        SExpr::Unary(_, x) => keep_expr(*x),
        SExpr::Update(_, _, t) => keep_simple_target(*t),
        SExpr::Call(f, args, _) => {
            keep_expr(*f);
            keep_args(args, 0);
        },
        SExpr::New(f, args) => {
            keep_expr(*f);
            keep_args(args, 0);
        },
        SExpr::Chain(c) => keep_chain(*c),
        SExpr::Member(m) => keep_member(*m),
        SExpr::Conditional(t, c, a) => {
            keep_expr(*t);
            keep_expr(*c);
            keep_expr(*a);
        },
        SExpr::Sequence(es) => keep_exprs(es, 0),
        SExpr::TaggedTemplate(t, q) => {
            keep_expr(*t);
            keep_exprs(q.exprs, 0);
        },
        SExpr::Yield(Some(x), _) => keep_expr(*x),
        SExpr::Paren(x) => keep_expr(*x),
        SExpr::Import(s, _) => keep_expr(*s),
        _ => {},
    }
}

} // verus!
