//! What the desugaring leaves behind: statements free of the sugar it
//! removes, `switch`, `continue`, `do-while`, `for` and `finally`, at every
//! statement position the mapper visits, in nested statements and in the
//! functions, arrows and classes of declarations and expressions.

use vstd::prelude::*;
use crate::mapper::Mapper;
use crate::spec_ast::{
    SArg, SArrayElem, SArrow, SArrowBody, SAssignTarget, SCatchClause, SChainElem, SClass, SClassElem,
    SDeclarator, SExpr, SForLeft, SFunction, SMember, SObjProp, SPattern, SPropKey, SSimpleTarget,
    SStmt, SVarDecl,
};

verus! {

/// The mapper runs the desugaring visitor and nothing else.
pub open spec fn desugaring(m: Mapper) -> bool {
    m.visitors_stmt@.len() == 1 && m.visitors_stmt@[0] is Pipeline
}

/// No `switch`, `continue`, `do-while`, `for` or `try` with `finally` in `s`
/// or in the statements nested in it, at every position the mapper visits:
/// blocks, branches, loop bodies, labeled bodies, `try` and `catch` bodies,
/// and the bodies of functions, arrows and class methods in declarations and
/// in the expressions the mapper enters.
pub open spec fn sugar_free(s: SStmt) -> bool
    decreases s, 1nat,
{
    match s {
        SStmt::Switch(..) | SStmt::Continue(..) | SStmt::DoWhile(..) | SStmt::For(..) => false,
        SStmt::Block(b) => sugar_free_from(b, 0),
        SStmt::Expr(e) => expr_free(e),
        SStmt::If(t, c, a) => expr_free(t) && sugar_free(*c) && match a {
            Some(x) => sugar_free(*x),
            None => true,
        },
        SStmt::Labeled(_, b) => sugar_free(*b),
        SStmt::Return(a) => opt_expr_free(a),
        SStmt::Throw(e) => expr_free(e),
        SStmt::While(t, b) => expr_free(t) && sugar_free(*b),
        SStmt::With(o, b) => expr_free(o) && sugar_free(*b),
        SStmt::ForIn(left, right, b) => for_left_free(left) && expr_free(right) && sugar_free(*b),
        SStmt::ForOf(left, right, b, _) => for_left_free(left) && expr_free(right) && sugar_free(*b),
        SStmt::Try(b, h, f) => f is None && sugar_free_from(b, 0) && catch_sugar_free(h),
        SStmt::VarDecl(d) => var_decl_free(d),
        SStmt::FunctionDecl(f) => function_free(*f),
        SStmt::ClassDecl(c) => class_free(*c),
        _ => true,
    }
}

/// The statements in the parts of an expression the mapper enters are free
/// of sugar.
#[verifier::opaque]
pub open spec fn expr_free(e: SExpr) -> bool
    decreases e, 0nat,
{
    match e {
        SExpr::Array(es) => array_elems_free_from(es, 0),
        SExpr::Object(ps) => obj_props_free_from(ps, 0),
        SExpr::Function(f) => function_free(*f),
        SExpr::Arrow(a) => arrow_free(*a),
        SExpr::Class(c) => class_free(*c),
        SExpr::Assign(_, t, r) => target_free(*t) && expr_free(*r),
        SExpr::Await(x) => expr_free(*x),
        SExpr::Binary(_, x, y) => expr_free(*x) && expr_free(*y),
        SExpr::Logical(_, x, y) => expr_free(*x) && expr_free(*y),
        SExpr::Unary(_, x) => expr_free(*x),
        SExpr::Update(_, _, t) => simple_target_free(*t),
        SExpr::Call(f, args, _) => expr_free(*f) && args_free_from(args, 0),
        SExpr::New(f, args) => expr_free(*f) && args_free_from(args, 0),
        SExpr::Chain(c) => chain_free(*c),
        SExpr::Member(m) => member_free(*m),
        SExpr::Conditional(t, c, a) => expr_free(*t) && expr_free(*c) && expr_free(*a),
        SExpr::Sequence(es) => exprs_free_from(es, 0),
        SExpr::TaggedTemplate(t, q) => expr_free(*t) && exprs_free_from(q.exprs, 0),
        SExpr::Yield(Some(x), _) => expr_free(*x),
        SExpr::Paren(x) => expr_free(*x),
        SExpr::Import(x, _) => expr_free(*x),
        _ => true,
    }
}

/// The statements in an optional expression are free of sugar.
pub open spec fn opt_expr_free(e: Option<SExpr>) -> bool
    decreases e, 0nat,
{
    match e {
        Some(x) => expr_free(x),
        None => true,
    }
}

/// The statements in a call argument are free of sugar.
pub open spec fn arg_free(a: SArg) -> bool
    decreases a, 0nat,
{
    match a {
        SArg::Expr(e) => expr_free(e),
        SArg::Spread(e) => expr_free(e),
    }
}

/// The statements in an array element are free of sugar.
pub open spec fn array_elem_free(a: SArrayElem) -> bool
    decreases a, 0nat,
{
    match a {
        SArrayElem::Expr(e) => expr_free(e),
        SArrayElem::Spread(e) => expr_free(e),
        SArrayElem::Hole => true,
    }
}

/// The statements in an object property (a computed key and the value) are free of sugar.
pub open spec fn obj_prop_free(p: SObjProp) -> bool
    decreases p, 0nat,
{
    match p {
        SObjProp::Prop { key, value, .. } => expr_free(value) && match key {
            SPropKey::Expr(k) => expr_free(*k),
            _ => true,
        },
        SObjProp::Spread(e) => expr_free(e),
    }
}

/// The statements in a member expression are free of sugar.
pub open spec fn member_free(m: SMember) -> bool
    decreases m, 0nat,
{
    match m {
        SMember::Computed(o, p, _) => expr_free(o) && expr_free(p),
        SMember::Static(o, _, _) => expr_free(o),
        SMember::Private(o, _, _) => expr_free(o),
    }
}

/// The statements in an optional-chain element are free of sugar.
pub open spec fn chain_free(c: SChainElem) -> bool
    decreases c, 0nat,
{
    match c {
        SChainElem::Call(f, args, _) => expr_free(f) && args_free_from(args, 0),
        SChainElem::Computed(o, p, _) => expr_free(o) && expr_free(p),
        SChainElem::Static(o, _, _) => expr_free(o),
    }
}

/// The statements in an update target are free of sugar.
pub open spec fn simple_target_free(t: SSimpleTarget) -> bool
    decreases t, 0nat,
{
    match t {
        SSimpleTarget::Computed(o, p, _) => expr_free(o) && expr_free(p),
        SSimpleTarget::Static(o, _, _) => expr_free(o),
        _ => true,
    }
}

/// The statements in an assignment target (its member expression) are free of sugar.
pub open spec fn target_free(t: SAssignTarget) -> bool
    decreases t, 0nat,
{
    match t {
        SAssignTarget::Member(m) => member_free(m),
        _ => true,
    }
}

/// The statements in a function (its body) are free of sugar.
pub open spec fn function_free(f: SFunction) -> bool
    decreases f, 0nat,
{
    sugar_free_from(f.body, 0)
}

/// The statements in an arrow (its parameters and a block body) are free of sugar.
pub open spec fn arrow_free(a: SArrow) -> bool
    decreases a, 0nat,
{
    patterns_free_from(a.params, 0) && match a.body {
        SArrowBody::Block(b) => sugar_free_from(b, 0),
        SArrowBody::Expr(_) => true,
    }
}

/// The statements in a class (its superclass and elements) are free of sugar.
pub open spec fn class_free(c: SClass) -> bool
    decreases c, 0nat,
{
    opt_expr_free(c.super_class) && class_elems_free_from(c.body, 0)
}

/// The statements in a class element (a property value or a method) are free of sugar.
pub open spec fn class_elem_free(x: SClassElem) -> bool
    decreases x, 0nat,
{
    match x {
        SClassElem::Property { value, .. } => opt_expr_free(value),
        SClassElem::Method { value, .. } => function_free(value),
        SClassElem::Other(_) => true,
    }
}

/// The statements in a binding pattern (array elements and defaults) are free of sugar.
pub open spec fn pattern_free(p: SPattern) -> bool
    decreases p, 0nat,
{
    match p {
        SPattern::Array(elems, _) => opt_patterns_free_from(elems, 0),
        SPattern::Assign(left, right) => pattern_free(*left) && expr_free(*right),
        _ => true,
    }
}

/// The statements in an optional pattern are free of sugar.
pub open spec fn opt_pattern_free(p: Option<SPattern>) -> bool
    decreases p, 0nat,
{
    match p {
        Some(x) => pattern_free(x),
        None => true,
    }
}

/// The statements in a declarator (its pattern and initializer) are free of sugar.
pub open spec fn declarator_free(d: SDeclarator) -> bool
    decreases d, 0nat,
{
    pattern_free(d.id) && opt_expr_free(d.init)
}

/// The statements in a variable declaration are free of sugar.
pub open spec fn var_decl_free(d: SVarDecl) -> bool
    decreases d, 0nat,
{
    declarators_free_from(d.decls, 0)
}

/// The statements in the left side of a `for-in` or `for-of` are free of sugar.
pub open spec fn for_left_free(left: SForLeft) -> bool
    decreases left, 0nat,
{
    match left {
        SForLeft::VarDecl(d) => var_decl_free(d),
        SForLeft::Target(t) => target_free(t),
    }
}

/// The elements of `b` from index `i` on satisfy `expr_free`.
pub open spec fn exprs_free_from(b: Seq<SExpr>, i: int) -> bool
    decreases b, if 0 <= i <= b.len() { (b.len() - i) as nat } else { 0nat },
{
    if i < 0 || i >= b.len() {
        true
    } else {
        expr_free(b[i]) && exprs_free_from(b, i + 1)
    }
}

/// The elements of `b` from index `i` on satisfy `arg_free`.
pub open spec fn args_free_from(b: Seq<SArg>, i: int) -> bool
    decreases b, if 0 <= i <= b.len() { (b.len() - i) as nat } else { 0nat },
{
    if i < 0 || i >= b.len() {
        true
    } else {
        arg_free(b[i]) && args_free_from(b, i + 1)
    }
}

/// The elements of `b` from index `i` on satisfy `array_elem_free`.
pub open spec fn array_elems_free_from(b: Seq<SArrayElem>, i: int) -> bool
    decreases b, if 0 <= i <= b.len() { (b.len() - i) as nat } else { 0nat },
{
    if i < 0 || i >= b.len() {
        true
    } else {
        array_elem_free(b[i]) && array_elems_free_from(b, i + 1)
    }
}

/// The elements of `b` from index `i` on satisfy `obj_prop_free`.
pub open spec fn obj_props_free_from(b: Seq<SObjProp>, i: int) -> bool
    decreases b, if 0 <= i <= b.len() { (b.len() - i) as nat } else { 0nat },
{
    if i < 0 || i >= b.len() {
        true
    } else {
        obj_prop_free(b[i]) && obj_props_free_from(b, i + 1)
    }
}

/// The elements of `b` from index `i` on satisfy `class_elem_free`.
pub open spec fn class_elems_free_from(b: Seq<SClassElem>, i: int) -> bool
    decreases b, if 0 <= i <= b.len() { (b.len() - i) as nat } else { 0nat },
{
    if i < 0 || i >= b.len() {
        true
    } else {
        class_elem_free(b[i]) && class_elems_free_from(b, i + 1)
    }
}

/// The elements of `b` from index `i` on satisfy `pattern_free`.
pub open spec fn patterns_free_from(b: Seq<SPattern>, i: int) -> bool
    decreases b, if 0 <= i <= b.len() { (b.len() - i) as nat } else { 0nat },
{
    if i < 0 || i >= b.len() {
        true
    } else {
        pattern_free(b[i]) && patterns_free_from(b, i + 1)
    }
}

/// The elements of `b` from index `i` on satisfy `opt_pattern_free`.
pub open spec fn opt_patterns_free_from(b: Seq<Option<SPattern>>, i: int) -> bool
    decreases b, if 0 <= i <= b.len() { (b.len() - i) as nat } else { 0nat },
{
    if i < 0 || i >= b.len() {
        true
    } else {
        opt_pattern_free(b[i]) && opt_patterns_free_from(b, i + 1)
    }
}

/// The elements of `b` from index `i` on satisfy `declarator_free`.
pub open spec fn declarators_free_from(b: Seq<SDeclarator>, i: int) -> bool
    decreases b, if 0 <= i <= b.len() { (b.len() - i) as nat } else { 0nat },
{
    if i < 0 || i >= b.len() {
        true
    } else {
        declarator_free(b[i]) && declarators_free_from(b, i + 1)
    }
}

/// The handler's parameter and body, if there is a handler, are free of
/// sugar.
pub open spec fn catch_sugar_free(h: Option<SCatchClause>) -> bool
    decreases h, 0nat,
{
    match h {
        Some(c) => sugar_free_from(c.body, 0) && opt_pattern_free(c.param),
        None => true,
    }
}

/// The statements of `b` from index `i` on are free of sugar.
pub open spec fn sugar_free_from(b: Seq<SStmt>, i: int) -> bool
    decreases b, if 0 <= i <= b.len() { (b.len() - i) as nat } else { 0nat },
{
    if i < 0 || i >= b.len() {
        true
    } else {
        sugar_free(b[i]) && sugar_free_from(b, i + 1)
    }
}

/// What a rewrite of `s` that is not visited again needs of it: the
/// statements nested in `s` are free of sugar (`s` itself may be sugar: it is
/// about to be rewritten).
pub open spec fn sugar_free_below(s: SStmt) -> bool {
    match s {
        SStmt::DoWhile(..) | SStmt::Switch(..) | SStmt::Continue(..) => true,
        SStmt::For(_, t, u, b) => opt_expr_free(t) && opt_expr_free(u) && sugar_free(*b),
        SStmt::Try(b, h, _) => sugar_free_from(b, 0) && catch_sugar_free(h),
        _ => sugar_free(s),
    }
}

/// Every statement of a program body is free of sugar.
pub open spec fn desugared(body: Seq<SStmt>) -> bool {
    forall|k: int| 0 <= k < body.len() ==> #[trigger] sugar_free(body[k])
}

/// `sugar_free_from` says the same as a quantifier over the indices.
pub proof fn lemma_sugar_free_from(b: Seq<SStmt>, i: int)
    requires
        0 <= i <= b.len(),
    ensures
        sugar_free_from(b, i) <==> (forall|k: int| i <= k < b.len() ==> #[trigger] sugar_free(b[k])),
    decreases b.len() - i,
{
    if i < b.len() {
        lemma_sugar_free_from(b, i + 1);
        assert(sugar_free_from(b, i) == (sugar_free(b[i]) && sugar_free_from(b, i + 1)));
        if sugar_free_from(b, i) {
            assert forall|k: int| i <= k < b.len() implies #[trigger] sugar_free(b[k]) by {
                if k > i {
                    assert(i + 1 <= k);
                }
            }
        }
        if forall|k: int| i <= k < b.len() ==> #[trigger] sugar_free(b[k]) {
            assert(sugar_free(b[i]));
            assert(forall|k: int| i + 1 <= k < b.len() ==> #[trigger] sugar_free(b[k]));
        }
    }
}

/// `exprs_free_from` says the same as a quantifier over the indices.
pub proof fn lemma_exprs_free_from(b: Seq<SExpr>, i: int)
    requires
        0 <= i <= b.len(),
    ensures
        exprs_free_from(b, i) <==> (forall|k: int| i <= k < b.len() ==> #[trigger] expr_free(b[k])),
    decreases b.len() - i,
{
    reveal(expr_free);
    if i < b.len() {
        lemma_exprs_free_from(b, i + 1);
        assert(exprs_free_from(b, i) == (expr_free(b[i]) && exprs_free_from(b, i + 1)));
        if exprs_free_from(b, i) {
            assert forall|k: int| i <= k < b.len() implies #[trigger] expr_free(b[k]) by {
                if k > i {
                    assert(i + 1 <= k);
                }
            }
        }
        if forall|k: int| i <= k < b.len() ==> #[trigger] expr_free(b[k]) {
            assert(expr_free(b[i]));
            assert(forall|k: int| i + 1 <= k < b.len() ==> #[trigger] expr_free(b[k]));
        }
    }
}

/// `args_free_from` says the same as a quantifier over the indices.
pub proof fn lemma_args_free_from(b: Seq<SArg>, i: int)
    requires
        0 <= i <= b.len(),
    ensures
        args_free_from(b, i) <==> (forall|k: int| i <= k < b.len() ==> #[trigger] arg_free(b[k])),
    decreases b.len() - i,
{
    if i < b.len() {
        lemma_args_free_from(b, i + 1);
        assert(args_free_from(b, i) == (arg_free(b[i]) && args_free_from(b, i + 1)));
        if args_free_from(b, i) {
            assert forall|k: int| i <= k < b.len() implies #[trigger] arg_free(b[k]) by {
                if k > i {
                    assert(i + 1 <= k);
                }
            }
        }
        if forall|k: int| i <= k < b.len() ==> #[trigger] arg_free(b[k]) {
            assert(arg_free(b[i]));
            assert(forall|k: int| i + 1 <= k < b.len() ==> #[trigger] arg_free(b[k]));
        }
    }
}

/// `array_elems_free_from` says the same as a quantifier over the indices.
pub proof fn lemma_array_elems_free_from(b: Seq<SArrayElem>, i: int)
    requires
        0 <= i <= b.len(),
    ensures
        array_elems_free_from(b, i) <==> (forall|k: int| i <= k < b.len() ==> #[trigger] array_elem_free(b[k])),
    decreases b.len() - i,
{
    if i < b.len() {
        lemma_array_elems_free_from(b, i + 1);
        assert(array_elems_free_from(b, i) == (array_elem_free(b[i]) && array_elems_free_from(b, i + 1)));
        if array_elems_free_from(b, i) {
            assert forall|k: int| i <= k < b.len() implies #[trigger] array_elem_free(b[k]) by {
                if k > i {
                    assert(i + 1 <= k);
                }
            }
        }
        if forall|k: int| i <= k < b.len() ==> #[trigger] array_elem_free(b[k]) {
            assert(array_elem_free(b[i]));
            assert(forall|k: int| i + 1 <= k < b.len() ==> #[trigger] array_elem_free(b[k]));
        }
    }
}

/// `obj_props_free_from` says the same as a quantifier over the indices.
pub proof fn lemma_obj_props_free_from(b: Seq<SObjProp>, i: int)
    requires
        0 <= i <= b.len(),
    ensures
        obj_props_free_from(b, i) <==> (forall|k: int| i <= k < b.len() ==> #[trigger] obj_prop_free(b[k])),
    decreases b.len() - i,
{
    if i < b.len() {
        lemma_obj_props_free_from(b, i + 1);
        assert(obj_props_free_from(b, i) == (obj_prop_free(b[i]) && obj_props_free_from(b, i + 1)));
        if obj_props_free_from(b, i) {
            assert forall|k: int| i <= k < b.len() implies #[trigger] obj_prop_free(b[k]) by {
                if k > i {
                    assert(i + 1 <= k);
                }
            }
        }
        if forall|k: int| i <= k < b.len() ==> #[trigger] obj_prop_free(b[k]) {
            assert(obj_prop_free(b[i]));
            assert(forall|k: int| i + 1 <= k < b.len() ==> #[trigger] obj_prop_free(b[k]));
        }
    }
}

/// `class_elems_free_from` says the same as a quantifier over the indices.
pub proof fn lemma_class_elems_free_from(b: Seq<SClassElem>, i: int)
    requires
        0 <= i <= b.len(),
    ensures
        class_elems_free_from(b, i) <==> (forall|k: int| i <= k < b.len() ==> #[trigger] class_elem_free(b[k])),
    decreases b.len() - i,
{
    if i < b.len() {
        lemma_class_elems_free_from(b, i + 1);
        assert(class_elems_free_from(b, i) == (class_elem_free(b[i]) && class_elems_free_from(b, i + 1)));
        if class_elems_free_from(b, i) {
            assert forall|k: int| i <= k < b.len() implies #[trigger] class_elem_free(b[k]) by {
                if k > i {
                    assert(i + 1 <= k);
                }
            }
        }
        if forall|k: int| i <= k < b.len() ==> #[trigger] class_elem_free(b[k]) {
            assert(class_elem_free(b[i]));
            assert(forall|k: int| i + 1 <= k < b.len() ==> #[trigger] class_elem_free(b[k]));
        }
    }
}

/// `patterns_free_from` says the same as a quantifier over the indices.
pub proof fn lemma_patterns_free_from(b: Seq<SPattern>, i: int)
    requires
        0 <= i <= b.len(),
    ensures
        patterns_free_from(b, i) <==> (forall|k: int| i <= k < b.len() ==> #[trigger] pattern_free(b[k])),
    decreases b.len() - i,
{
    if i < b.len() {
        lemma_patterns_free_from(b, i + 1);
        assert(patterns_free_from(b, i) == (pattern_free(b[i]) && patterns_free_from(b, i + 1)));
        if patterns_free_from(b, i) {
            assert forall|k: int| i <= k < b.len() implies #[trigger] pattern_free(b[k]) by {
                if k > i {
                    assert(i + 1 <= k);
                }
            }
        }
        if forall|k: int| i <= k < b.len() ==> #[trigger] pattern_free(b[k]) {
            assert(pattern_free(b[i]));
            assert(forall|k: int| i + 1 <= k < b.len() ==> #[trigger] pattern_free(b[k]));
        }
    }
}

/// `opt_patterns_free_from` says the same as a quantifier over the indices.
pub proof fn lemma_opt_patterns_free_from(b: Seq<Option<SPattern>>, i: int)
    requires
        0 <= i <= b.len(),
    ensures
        opt_patterns_free_from(b, i) <==> (forall|k: int| i <= k < b.len() ==> #[trigger] opt_pattern_free(b[k])),
    decreases b.len() - i,
{
    if i < b.len() {
        lemma_opt_patterns_free_from(b, i + 1);
        assert(opt_patterns_free_from(b, i) == (opt_pattern_free(b[i]) && opt_patterns_free_from(b, i + 1)));
        if opt_patterns_free_from(b, i) {
            assert forall|k: int| i <= k < b.len() implies #[trigger] opt_pattern_free(b[k]) by {
                if k > i {
                    assert(i + 1 <= k);
                }
            }
        }
        if forall|k: int| i <= k < b.len() ==> #[trigger] opt_pattern_free(b[k]) {
            assert(opt_pattern_free(b[i]));
            assert(forall|k: int| i + 1 <= k < b.len() ==> #[trigger] opt_pattern_free(b[k]));
        }
    }
}

/// `declarators_free_from` says the same as a quantifier over the indices.
pub proof fn lemma_declarators_free_from(b: Seq<SDeclarator>, i: int)
    requires
        0 <= i <= b.len(),
    ensures
        declarators_free_from(b, i) <==> (forall|k: int| i <= k < b.len() ==> #[trigger] declarator_free(b[k])),
    decreases b.len() - i,
{
    if i < b.len() {
        lemma_declarators_free_from(b, i + 1);
        assert(declarators_free_from(b, i) == (declarator_free(b[i]) && declarators_free_from(b, i + 1)));
        if declarators_free_from(b, i) {
            assert forall|k: int| i <= k < b.len() implies #[trigger] declarator_free(b[k]) by {
                if k > i {
                    assert(i + 1 <= k);
                }
            }
        }
        if forall|k: int| i <= k < b.len() ==> #[trigger] declarator_free(b[k]) {
            assert(declarator_free(b[i]));
            assert(forall|k: int| i + 1 <= k < b.len() ==> #[trigger] declarator_free(b[k]));
        }
    }
}

/// A statement followed by a sugar-free list is sugar-free if the statement is.
pub proof fn lemma_sugar_free_cons(a: SStmt, t: Seq<SStmt>)
    requires
        sugar_free(a),
        sugar_free_from(t, 0),
    ensures
        sugar_free_from(seq![a] + t, 0),
{
    let s = seq![a] + t;
    lemma_sugar_free_from(t, 0);
    assert forall|k: int| 0 <= k < s.len() implies #[trigger] sugar_free(s[k]) by {
        if k > 0 {
            assert(s[k] == t[k - 1]);
        }
    }
    lemma_sugar_free_from(s, 0);
}

} // verus!

