//! The unfolding of one declarator: a destructuring pattern becomes one
//! declaration per bound name, reading the value step by step.

use vstd::prelude::*;
use crate::ast::{BinaryOp, BindingProp, Declarator, Expr, Pattern, PropKey, Stmt, VarDecl, VarKind};
use crate::mapper::MapperAction;
use crate::mapper_state::{decimal, ident_name, next_counter, MapperState};
use crate::spec_ast::{
    lemma_v_binding_props_index, lemma_v_opt_patterns_index, lemma_v_stmts_index, lemma_v_stmts_push,
    v_binding_props, v_declarators, v_expr, v_opt_expr, v_opt_pattern, v_opt_patterns, v_pattern,
    v_prop_key, v_stmts, SArg, SArrayElem, SBindingProp, SDeclarator, SExpr, SMember, SPattern,
    SPropKey, SStmt, SVarDecl,
};
use crate::transforms::builder::{
    create_assignment_expression_name, create_binary_expression, create_expression_statement,
    create_identifier_expression, create_member_expression, create_member_expression_computed,
    create_variable_declaration_kind, decl_stmt, number_literal, pattern_decl_stmt, exprs_as_args,
    exprs_as_elems, create_call_expression, create_array_expression, create_string_literal,
    create_variable_declaration_pattern,
};
use crate::transforms::stmt_finally::{set_var, undefined_name, views};

verus! {

/// `$rest`
pub open spec fn s_rest_fn() -> Seq<char> {
    seq!['$', 'r', 'e', 's', 't']
}

/// `slice`
pub open spec fn s_slice() -> Seq<char> {
    seq!['s', 'l', 'i', 'c', 'e']
}

/// `if (n === undefined) n = d;`
pub open spec fn default_if(n: Seq<char>, d: SExpr) -> SStmt {
    SStmt::If(
        SExpr::Binary(BinaryOp::StrictEquality, Box::new(SExpr::Ident(n)), Box::new(SExpr::Ident(undefined_name()))),
        Box::new(set_var(n, d)),
        None,
    )
}

/// `rhs[name]` for a computed key, `rhs.name` otherwise.
pub open spec fn prop_access(rhs: Seq<char>, name: Seq<char>, computed: bool) -> SExpr {
    if computed {
        SExpr::Member(Box::new(SMember::Computed(SExpr::Ident(rhs), SExpr::Ident(name), false)))
    } else {
        SExpr::Member(Box::new(SMember::Static(SExpr::Ident(rhs), name, false)))
    }
}

/// `rhs[i]`
pub open spec fn index_access(rhs: Seq<char>, i: nat) -> SExpr {
    SExpr::Member(Box::new(SMember::Computed(SExpr::Ident(rhs), SExpr::Number(decimal(i)), false)))
}

/// The name under which the value is read: the initializer itself when it is
/// an identifier, otherwise a fresh `let` that holds it. The result is the
/// statements to emit, the name and the counter after.
pub open spec fn spec_alias(init: Option<SExpr>, c: usize) -> (Seq<SStmt>, Seq<char>, usize) {
    match init {
        Some(SExpr::Ident(n)) => (Seq::empty(), n, c),
        _ => (seq![decl_stmt(VarKind::Let, ident_name(c as nat), init)], ident_name(c as nat), next_counter(c)),
    }
}

/// The name a property key is read under: the key's own name for `a` and
/// `[a]`, a fresh name for any other key expression.
pub open spec fn key_name(k: SPropKey, c: usize) -> (Seq<char>, usize) {
    match k {
        SPropKey::Ident(n) => (n, c),
        SPropKey::Expr(e) => match *e {
            SExpr::Ident(n) => (n, c),
            _ => (ident_name(c as nat), next_counter(c)),
        },
        SPropKey::Private(n) => (n, c),
    }
}

/// The key names of `props[i..]` and the counter after them.
pub open spec fn prop_names(props: Seq<SBindingProp>, i: int, c: usize) -> (Seq<Seq<char>>, usize)
    decreases if 0 <= i <= props.len() { (props.len() - i) as nat } else { 0nat },
{
    if i < 0 || i >= props.len() {
        (Seq::empty(), c)
    } else {
        let (n, c1) = key_name(props[i].key, c);
        let (rest, c2) = prop_names(props, i + 1, c1);
        (seq![n] + rest, c2)
    }
}

/// The elements of the `$rest` call's key list: an identifier for a computed
/// key, a string for a plain one.
pub open spec fn rest_keys(props: Seq<SBindingProp>, names: Seq<Seq<char>>) -> Seq<SExpr> {
    Seq::new(props.len(), |i: int| if props[i].computed { SExpr::Ident(names[i]) } else { SExpr::Str(names[i]) })
}

/// The binding of the rest element of an object pattern read from `rhs`:
/// `kind r = $rest(rhs, [keys]);`.
pub open spec fn obj_tail(kind: VarKind, rest: Option<Box<SPattern>>, rhs: Seq<char>, keys: Seq<SExpr>) -> Seq<SStmt> {
    match rest {
        Some(r) => match *r {
            SPattern::Ident(n) => seq![
                decl_stmt(
                    kind,
                    n,
                    Some(SExpr::Call(
                        Box::new(SExpr::Ident(s_rest_fn())),
                        exprs_as_args(seq![SExpr::Ident(rhs), SExpr::Array(exprs_as_elems(keys))]),
                        false,
                    )),
                ),
            ],
            _ => Seq::empty(),
        },
        None => Seq::empty(),
    }
}

/// The binding of the rest element of an array pattern of `n` elements read
/// from `rhs`: `kind r = rhs.slice(n);` for a name, `kind {...} = rhs;` for an
/// object pattern (unfolded when the block is visited again).
pub open spec fn arr_tail(kind: VarKind, rest: Option<Box<SPattern>>, rhs: Seq<char>, n: nat) -> Seq<SStmt> {
    match rest {
        Some(r) => match *r {
            SPattern::Ident(x) => seq![
                decl_stmt(
                    kind,
                    x,
                    Some(SExpr::Call(
                        Box::new(SExpr::Member(Box::new(SMember::Static(SExpr::Ident(rhs), s_slice(), false)))),
                        exprs_as_args(seq![SExpr::Number(decimal(n))]),
                        false,
                    )),
                ),
            ],
            SPattern::Object(_, _) => seq![pattern_decl_stmt(kind, *r, Some(SExpr::Ident(rhs)))],
            _ => Seq::empty(),
        },
        None => Seq::empty(),
    }
}

/// The initializer of a declaration: the given one, or `undefined`.
pub open spec fn init_or_undefined(init: Option<SExpr>) -> SExpr {
    match init {
        Some(e) => e,
        None => SExpr::Ident(seq!['u', 'n', 'd', 'e', 'f', 'i', 'n', 'e', 'd']),
    }
}

/// The statements that bind `id` to `init` with declaration kind `kind`,
/// and the counter after them (`c` before). A name is bound directly (to
/// `undefined` when there is no initializer); an
/// object or array pattern reads its value through `spec_alias`, then binds
/// each property or element, and finally the rest element.
pub open spec fn spec_declr(kind: VarKind, id: SPattern, init: Option<SExpr>, c: usize) -> (Seq<SStmt>, usize)
    decreases id, 0nat,
{
    match id {
        SPattern::Ident(n) => (seq![decl_stmt(kind, n, Some(init_or_undefined(init)))], c),
        SPattern::Object(props, rest) => {
            let (pre, rhs, c1) = spec_alias(init, c);
            let (names, c2) = prop_names(props, 0, c1);
            let (body, c3) = spec_obj_props(kind, props, names, rhs, 0, c2);
            (pre + body + obj_tail(kind, rest, rhs, rest_keys(props, names)), c3)
        },
        SPattern::Array(elems, rest) => {
            let (pre, rhs, c1) = spec_alias(init, c);
            let (body, c2) = spec_arr_elems(kind, elems, rhs, 0, c1);
            (pre + body + arr_tail(kind, rest, rhs, elems.len()), c2)
        },
        SPattern::Assign(_, _) => (Seq::empty(), c),
    }
}

/// The `const name = key;` that stores a computed key other than an
/// identifier.
pub open spec fn key_pre(key: SPropKey, computed: bool, name: Seq<char>) -> Seq<SStmt> {
    if computed && !(key matches SPropKey::Expr(e) && *e is Ident) {
        seq![decl_stmt(VarKind::Const, name, match key {
            SPropKey::Expr(e) => Some(*e),
            _ => None,
        })]
    } else {
        Seq::empty()
    }
}

/// A nested pattern `left` bound from the value `access`: the value goes into
/// a fresh `let tmp`, is defaulted when there is a default, and `left` is
/// bound from `tmp` with kind `let`.
pub open spec fn spec_nested(left: SPattern, default: Option<SExpr>, access: SExpr, c: usize) -> (Seq<SStmt>, usize)
    decreases left, 1nat,
{
    let tmp = ident_name(c as nat);
    let (sub, c1) = spec_declr(VarKind::Let, left, Some(SExpr::Ident(tmp)), next_counter(c));
    let dflt = match default {
        Some(d) => seq![default_if(tmp, d)],
        None => Seq::empty(),
    };
    (seq![decl_stmt(VarKind::Let, tmp, Some(access))] + dflt + sub, c1)
}

/// The statements that bind the value pattern of a property read as
/// `access` (the property's key on `rhs`): a name is bound to it; a name with
/// a default is bound to it with `let` (the default reassigns it) and then
/// defaulted; a nested pattern goes through `spec_nested`.
pub open spec fn spec_prop_value(kind: VarKind, value: SPattern, access: SExpr, rhs: Seq<char>, c: usize) -> (Seq<SStmt>, usize)
    decreases value, 2nat,
{
    match value {
        SPattern::Ident(n) => (seq![decl_stmt(kind, n, Some(access))], c),
        SPattern::Assign(left, d) => match *left {
            SPattern::Ident(n) => (
                seq![
                    decl_stmt(VarKind::Let, n, Some(access)),
                    default_if(n, *d),
                ],
                c,
            ),
            _ => spec_nested(*left, Some(*d), access, c),
        },
        _ => spec_nested(value, None, access, c),
    }
}

/// The statements for one property `p` of an object pattern read from `rhs`
/// under key name `name`: `key_pre`, then `spec_prop_value` with the
/// property read as `prop_access`.
pub open spec fn spec_obj_prop(kind: VarKind, p: SBindingProp, name: Seq<char>, rhs: Seq<char>, c: usize) -> (Seq<SStmt>, usize)
    decreases p, 0nat,
{
    let (v, c1) = spec_prop_value(kind, p.value, prop_access(rhs, name, p.computed), rhs, c);
    (key_pre(p.key, p.computed, name) + v, c1)
}

/// `spec_obj_prop` for `props[i..]` in order, threading the counter.
pub open spec fn spec_obj_props(
    kind: VarKind,
    props: Seq<SBindingProp>,
    names: Seq<Seq<char>>,
    rhs: Seq<char>,
    i: int,
    c: usize,
) -> (Seq<SStmt>, usize)
    decreases props, if 0 <= i <= props.len() { (props.len() - i) as nat } else { 0nat },
{
    if i < 0 || i >= props.len() {
        (Seq::empty(), c)
    } else {
        let (a, c1) = spec_obj_prop(kind, props[i], names[i], rhs, c);
        let (b, c2) = spec_obj_props(kind, props, names, rhs, i + 1, c1);
        (a + b, c2)
    }
}

/// The statements for element `i` of an array pattern read from `rhs`: a
/// hole binds nothing, a name is bound to `rhs[i]`, anything else goes
/// through `spec_nested` with `rhs[i]`.
pub open spec fn spec_arr_elem(kind: VarKind, e: Option<SPattern>, i: nat, rhs: Seq<char>, c: usize) -> (Seq<SStmt>, usize)
    decreases e, 0nat,
{
    match e {
        None => (Seq::empty(), c),
        Some(p) => match p {
            SPattern::Ident(n) => (seq![decl_stmt(kind, n, Some(index_access(rhs, i)))], c),
            SPattern::Assign(left, d) => spec_nested(*left, Some(*d), index_access(rhs, i), c),
            _ => spec_nested(p, None, index_access(rhs, i), c),
        },
    }
}

/// `spec_arr_elem` for `elems[i..]` in order, threading the counter.
pub open spec fn spec_arr_elems(kind: VarKind, elems: Seq<Option<SPattern>>, rhs: Seq<char>, i: int, c: usize) -> (Seq<SStmt>, usize)
    decreases elems, if 0 <= i <= elems.len() { (elems.len() - i) as nat } else { 0nat },
{
    if i < 0 || i >= elems.len() {
        (Seq::empty(), c)
    } else {
        let (a, c1) = spec_arr_elem(kind, elems[i], i as nat, rhs, c);
        let (b, c2) = spec_arr_elems(kind, elems, rhs, i + 1, c1);
        (a + b, c2)
    }
}

/// A pattern the rewrite handles everywhere inside it: no pattern with a
/// default where a binding is declared directly, no private key, computed keys
/// are expressions, and every rest element of an object pattern is a name
/// (of an array pattern, a name or an object pattern).
pub open spec fn pattern_ok(p: SPattern) -> bool
    decreases p, 0nat,
{
    match p {
        SPattern::Ident(_) => true,
        SPattern::Assign(_, _) => false,
        SPattern::Object(props, rest) => {
            &&& props_ok(props, 0)
            &&& match rest {
                Some(r) => *r is Ident,
                None => true,
            }
        },
        SPattern::Array(elems, rest) => {
            &&& elems_ok(elems, 0)
            &&& match rest {
                Some(r) => *r is Ident || *r is Object,
                None => true,
            }
        },
    }
}

/// `pattern_ok` for a property of an object pattern.
pub open spec fn prop_ok(p: SBindingProp) -> bool
    decreases p, 0nat,
{
    &&& !(p.key is Private)
    &&& (p.computed ==> p.key is Expr)
    &&& match p.value {
        SPattern::Assign(left, _) => pattern_ok(*left),
        _ => pattern_ok(p.value),
    }
}

/// `prop_ok` for `props[i..]`.
pub open spec fn props_ok(props: Seq<SBindingProp>, i: int) -> bool
    decreases props, if 0 <= i <= props.len() { (props.len() - i) as nat } else { 0nat },
{
    if i < 0 || i >= props.len() {
        true
    } else {
        prop_ok(props[i]) && props_ok(props, i + 1)
    }
}

/// `pattern_ok` for the elements of an array pattern from `i` on.
pub open spec fn elems_ok(elems: Seq<Option<SPattern>>, i: int) -> bool
    decreases elems, if 0 <= i <= elems.len() { (elems.len() - i) as nat } else { 0nat },
{
    if i < 0 || i >= elems.len() {
        true
    } else {
        (match elems[i] {
            None => true,
            Some(SPattern::Assign(left, _)) => pattern_ok(*left),
            Some(q) => pattern_ok(q),
        }) && elems_ok(elems, i + 1)
    }
}

/// A declarator the rewrite handles: its pattern is handled, and a
/// destructuring declarator has an initializer.
pub open spec fn declr_ok(id: SPattern, init: Option<SExpr>) -> bool {
    &&& pattern_ok(id)
    &&& (!(id is Ident) ==> init is Some)
}

/// Appends `s` to `out`.
pub(crate) fn emit(out: &mut Vec<Stmt>, s: Stmt)
    ensures
        v_stmts(final(out)@) == v_stmts(old(out)@) + seq![s@],
{
    let ghost o = out@;
    out.push(s);
    proof {
        lemma_v_stmts_push(o, s);
        assert(v_stmts(o).push(s@) =~= v_stmts(o) + seq![s@]);
    }
}

/// `if (n === undefined) n = d;`
fn default_if_stmt(n: &String, d: Expr) -> (s: Stmt)
    ensures
        s@ == default_if(n@, d@),
{
    proof {
        reveal_strlit("undefined");
        assert("undefined"@ =~= undefined_name());
    }
    let test = create_binary_expression(
        BinaryOp::StrictEquality,
        create_identifier_expression(n.clone()),
        create_identifier_expression(String::from_str("undefined")),
    );
    let body = create_expression_statement(create_assignment_expression_name(n.clone(), d));
    let r = Stmt::If(test, Box::new(body), None);
    assert(r@ == SStmt::If(test@, Box::new(body@), None));
    r
}

/// `rhs[name]` or `rhs.name`.
fn prop_access_expr(rhs: &String, name: &String, computed: bool) -> (e: Expr)
    ensures
        e@ == prop_access(rhs@, name@, computed),
{
    if computed {
        create_member_expression_computed(create_identifier_expression(rhs.clone()), create_identifier_expression(name.clone()))
    } else {
        create_member_expression(create_identifier_expression(rhs.clone()), name.clone())
    }
}

/// `rhs[i]`
fn index_access_expr(rhs: &String, i: usize) -> (e: Expr)
    ensures
        e@ == index_access(rhs@, i as nat),
{
    create_member_expression_computed(create_identifier_expression(rhs.clone()), number_literal(i))
}

/// Emits the alias of the initializer (see `spec_alias`) and returns its name.
fn alias(init: Option<Expr>, state: &mut MapperState, out: &mut Vec<Stmt>) -> (rhs: String)
    ensures
        v_stmts(final(out)@) == v_stmts(old(out)@) + spec_alias(v_opt_expr(init), old(state).id_counter).0,
        rhs@ == spec_alias(v_opt_expr(init), old(state).id_counter).1,
        final(state).id_counter == spec_alias(v_opt_expr(init), old(state).id_counter).2,
        final(state).continue_targets@ == old(state).continue_targets@,
{
    let ghost i0 = init;
    let is_ident = match &init {
        Some(Expr::Ident(_)) => true,
        _ => false,
    };
    if is_ident {
        match init {
            Some(Expr::Ident(n)) => {
                assert(v_opt_expr(i0) == Some(SExpr::Ident(n@)));
                proof {
                    assert(v_stmts(old(out)@) + Seq::<SStmt>::empty() =~= v_stmts(old(out)@));
                }
                n
            },
            _ => String::new(),
        }
    } else {
        assert(!(v_opt_expr(i0) matches Some(SExpr::Ident(_))));
        let tmp = state.next_ident_name();
        emit(out, create_variable_declaration_kind(VarKind::Let, tmp.clone(), init));
        tmp
    }
}

/// The key name of a property (see `key_name`).
fn key_name_exec(k: &PropKey, state: &mut MapperState) -> (n: String)
    ensures
        n@ == key_name(v_prop_key(*k), old(state).id_counter).0,
        final(state).id_counter == key_name(v_prop_key(*k), old(state).id_counter).1,
        final(state).continue_targets@ == old(state).continue_targets@,
{
    match k {
        PropKey::Ident(n) => n.clone(),
        PropKey::Private(n) => n.clone(),
        PropKey::Expr(e) => {
            assert(v_prop_key(*k) == SPropKey::Expr(Box::new(v_expr(**e))));
            match &**e {
                Expr::Ident(n) => n.clone(),
                _ => state.next_ident_name(),
            }
        },
    }
}

/// The key names of all properties (see `prop_names`).
fn prop_names_exec(props: &Vec<BindingProp>, state: &mut MapperState) -> (names: Vec<String>)
    ensures
        views(names@) == prop_names(v_binding_props(props@), 0, old(state).id_counter).0,
        final(state).id_counter == prop_names(v_binding_props(props@), 0, old(state).id_counter).1,
        final(state).continue_targets@ == old(state).continue_targets@,
{
    let ghost vp = v_binding_props(props@);
    let ghost c0 = state.id_counter;
    proof {
        lemma_v_binding_props_index(props@);
    }
    let mut names: Vec<String> = Vec::new();
    let mut i: usize = 0;
    while i < props.len()
        invariant
            i <= props.len(),
            vp == v_binding_props(props@),
            vp.len() == props.len(),
            forall|j: int| 0 <= j < props@.len() ==> #[trigger] vp[j].key == v_prop_key(props@[j].key),
            views(names@) + prop_names(vp, i as int, state.id_counter).0 == prop_names(vp, 0, c0).0,
            prop_names(vp, i as int, state.id_counter).1 == prop_names(vp, 0, c0).1,
            state.continue_targets@ == old(state).continue_targets@,
        decreases props.len() - i,
    {
        let ghost ci = state.id_counter;
        let ghost vn = views(names@);
        assert(vp[i as int].key == v_prop_key(props@[i as int].key));
        let n = key_name_exec(&props[i].key, state);
        names.push(n);
        proof {
            assert(views(names@) =~= vn.push(n@));
            let r = prop_names(vp, i + 1, state.id_counter);
            assert(prop_names(vp, i as int, ci) == (seq![n@] + r.0, r.1));
            assert(vn + (seq![n@] + r.0) =~= vn.push(n@) + r.0);
        }
        i = i + 1;
    }
    proof {
        assert(views(names@) + Seq::<Seq<char>>::empty() =~= views(names@));
    }
    names
}

/// Two expressions as a vector.
fn exprs2(a: Expr, b: Expr) -> (v: Vec<Expr>)
    ensures
        crate::spec_ast::v_exprs(v@) == seq![a@, b@],
{
    let mut v: Vec<Expr> = Vec::new();
    v.push(a);
    let ghost v1 = v@;
    v.push(b);
    proof {
        crate::spec_ast::lemma_v_exprs_one(a);
        assert(v1 =~= seq![a]);
        assert(v@.drop_last() =~= v1);
        assert(crate::spec_ast::v_exprs(v@) =~= seq![a@, b@]);
    }
    v
}

/// One expression as a vector.
fn exprs1(a: Expr) -> (v: Vec<Expr>)
    ensures
        crate::spec_ast::v_exprs(v@) == seq![a@],
{
    let mut v: Vec<Expr> = Vec::new();
    v.push(a);
    proof {
        crate::spec_ast::lemma_v_exprs_one(a);
        assert(v@ =~= seq![a]);
    }
    v
}

/// The key list of the `$rest` call (see `rest_keys`).
fn rest_key_exprs(props: &Vec<BindingProp>, names: &Vec<String>) -> (r: Vec<Expr>)
    requires
        names.len() == props.len(),
    ensures
        crate::spec_ast::v_exprs(r@) == rest_keys(v_binding_props(props@), views(names@)),
{
    let ghost vp = v_binding_props(props@);
    let ghost vn = views(names@);
    proof {
        lemma_v_binding_props_index(props@);
    }
    let mut r: Vec<Expr> = Vec::new();
    let mut i: usize = 0;
    while i < props.len()
        invariant
            i <= props.len(),
            names.len() == props.len(),
            vp == v_binding_props(props@),
            vn == views(names@),
            vp.len() == props.len(),
            forall|j: int| 0 <= j < props@.len() ==> #[trigger] vp[j].computed == props@[j].computed,
            crate::spec_ast::v_exprs(r@) == rest_keys(vp, vn).take(i as int),
        decreases props.len() - i,
    {
        let e = if props[i].computed {
            create_identifier_expression(names[i].clone())
        } else {
            create_string_literal(names[i].clone())
        };
        let ghost r0 = r@;
        r.push(e);
        proof {
            assert(vp[i as int].computed == props@[i as int].computed);
            assert(vn[i as int] == names@[i as int]@);
            assert(r@.drop_last() =~= r0);
            assert(rest_keys(vp, vn).take(i + 1) =~= rest_keys(vp, vn).take(i as int).push(e@));
        }
        i = i + 1;
    }
    proof {
        assert(rest_keys(vp, vn).take(i as int) =~= rest_keys(vp, vn));
    }
    r
}

/// The model of an optional rest element.
pub open spec fn v_rest(rest: Option<Box<Pattern>>) -> Option<Box<SPattern>> {
    match rest {
        Some(r) => Some(Box::new(v_pattern(*r))),
        None => None,
    }
}

/// Emits the statements that bind `id` to `init` (see `spec_declr`) and says
/// whether `id` was a pattern.
pub(crate) fn transform_var_decl_declr(kind: VarKind, id: Pattern, init: Option<Expr>, state: &mut MapperState, out: &mut Vec<Stmt>) -> (changed: bool)
    requires
        declr_ok(id@, v_opt_expr(init)),
    ensures
        v_stmts(final(out)@) == v_stmts(old(out)@) + spec_declr(kind, id@, v_opt_expr(init), old(state).id_counter).0,
        final(state).id_counter == spec_declr(kind, id@, v_opt_expr(init), old(state).id_counter).1,
        final(state).continue_targets@ == old(state).continue_targets@,
        changed == !(id@ is Ident),
    decreases id, 0nat,
{
    match id {
        Pattern::Ident(n) => {
            let value = match init {
                Some(e) => e,
                None => create_identifier_expression(String::from_str("undefined")),
            };
            proof {
                reveal_strlit("undefined");
                assert("undefined"@ =~= seq!['u', 'n', 'd', 'e', 'f', 'i', 'n', 'e', 'd']);
                assert(value@ == init_or_undefined(v_opt_expr(init)));
            }
            emit(out, create_variable_declaration_kind(kind, n, Some(value)));
            false
        },
        Pattern::Object(props, rest) => {
            let ghost pv = v_binding_props(props@);
            let ghost rv = v_rest(rest);
            declr_object(kind, props, rest, init, state, out);
            true
        },
        Pattern::Array(elems, rest) => {
            declr_array(kind, elems, rest, init, state, out);
            true
        },
        Pattern::Assign(_, _) => false,
    }
}

/// `transform_var_decl_declr` for an object pattern.
fn declr_object(
    kind: VarKind,
    props: Vec<BindingProp>,
    rest: Option<Box<Pattern>>,
    init: Option<Expr>,
    state: &mut MapperState,
    out: &mut Vec<Stmt>,
)
    requires
        props_ok(v_binding_props(props@), 0),
        match v_rest(rest) {
            Some(r) => *r is Ident,
            None => true,
        },
    ensures
        v_stmts(final(out)@) == v_stmts(old(out)@) + spec_declr(kind, SPattern::Object(v_binding_props(props@), v_rest(rest)), v_opt_expr(init), old(state).id_counter).0,
        final(state).id_counter == spec_declr(kind, SPattern::Object(v_binding_props(props@), v_rest(rest)), v_opt_expr(init), old(state).id_counter).1,
        final(state).continue_targets@ == old(state).continue_targets@,
    decreases props, 2nat,
{
    let ghost pv = v_binding_props(props@);
    let ghost o0 = v_stmts(out@);
    let ghost c0 = state.id_counter;
    let ghost iv = v_opt_expr(init);
    let rhs = alias(init, state, out);
    let ghost o1 = v_stmts(out@);
    let ghost c1 = state.id_counter;
    let names = prop_names_exec(&props, state);
    let ghost c2 = state.id_counter;
    proof {
        lemma_prop_names_len(pv, 0, c1);
        lemma_v_binding_props_index(props@);
    }
    let keys = rest_key_exprs(&props, &names);
    transform_var_decl_obj_props(kind, props, &names, &rhs, state, out);
    let ghost o2 = v_stmts(out@);
    emit_obj_tail(kind, rest, &rhs, keys, out);
    proof {
        let body = spec_obj_props(kind, pv, views(names@), rhs@, 0, c2).0;
        let tail = obj_tail(kind, v_rest(rest), rhs@, rest_keys(pv, views(names@)));
        assert(v_stmts(out@) =~= o0 + (spec_alias(iv, c0).0 + body + tail));
    }
}

/// Emits `obj_tail`.
fn emit_obj_tail(kind: VarKind, rest: Option<Box<Pattern>>, rhs: &String, keys: Vec<Expr>, out: &mut Vec<Stmt>)
    ensures
        v_stmts(final(out)@) == v_stmts(old(out)@) + obj_tail(kind, v_rest(rest), rhs@, crate::spec_ast::v_exprs(keys@)),
{
    let ghost o0 = v_stmts(out@);
    match rest {
        Some(r) => {
            let ghost rv = *r;
            match *r {
                Pattern::Ident(n) => {
                    proof {
                        reveal_strlit("$rest");
                        assert("$rest"@ =~= s_rest_fn());
                    }
                    let arr = create_array_expression(keys);
                    let args = exprs2(create_identifier_expression(rhs.clone()), arr);
                    let call = create_call_expression(create_identifier_expression(String::from_str("$rest")), args, false);
                    emit(out, create_variable_declaration_kind(kind, n, Some(call)));
                },
                _ => {
                    assert(!(v_pattern(rv) is Ident));
                    assert(v_stmts(out@) =~= o0 + Seq::<SStmt>::empty());
                },
            }
        },
        None => {
            assert(v_stmts(out@) =~= o0 + Seq::<SStmt>::empty());
        },
    }
}

/// `transform_var_decl_declr` for an array pattern.
fn declr_array(
    kind: VarKind,
    elems: Vec<Option<Pattern>>,
    rest: Option<Box<Pattern>>,
    init: Option<Expr>,
    state: &mut MapperState,
    out: &mut Vec<Stmt>,
)
    requires
        elems_ok(v_opt_patterns(elems@), 0),
        match v_rest(rest) {
            Some(r) => *r is Ident || *r is Object,
            None => true,
        },
    ensures
        v_stmts(final(out)@) == v_stmts(old(out)@) + spec_declr(kind, SPattern::Array(v_opt_patterns(elems@), v_rest(rest)), v_opt_expr(init), old(state).id_counter).0,
        final(state).id_counter == spec_declr(kind, SPattern::Array(v_opt_patterns(elems@), v_rest(rest)), v_opt_expr(init), old(state).id_counter).1,
        final(state).continue_targets@ == old(state).continue_targets@,
    decreases elems, 2nat,
{
    let ghost ev = v_opt_patterns(elems@);
    let ghost o0 = v_stmts(out@);
    let ghost c0 = state.id_counter;
    let ghost iv = v_opt_expr(init);
    proof {
        lemma_v_opt_patterns_index(elems@);
    }
    let n = elems.len();
    let rhs = alias(init, state, out);
    let ghost c1 = state.id_counter;
    transform_var_decl_arr_elems(kind, elems, &rhs, state, out);
    emit_arr_tail(kind, rest, &rhs, n, out);
    proof {
        let body = spec_arr_elems(kind, ev, rhs@, 0, c1).0;
        let tail = arr_tail(kind, v_rest(rest), rhs@, ev.len());
        assert(v_stmts(out@) =~= o0 + (spec_alias(iv, c0).0 + body + tail));
    }
}

/// Emits `arr_tail`.
fn emit_arr_tail(kind: VarKind, rest: Option<Box<Pattern>>, rhs: &String, n: usize, out: &mut Vec<Stmt>)
    ensures
        v_stmts(final(out)@) == v_stmts(old(out)@) + arr_tail(kind, v_rest(rest), rhs@, n as nat),
{
    let ghost o0 = v_stmts(out@);
    match rest {
        Some(r) => {
            let ghost rv = *r;
            match *r {
                Pattern::Ident(x) => {
                    proof {
                        reveal_strlit("slice");
                        assert("slice"@ =~= s_slice());
                    }
                    let callee = create_member_expression(create_identifier_expression(rhs.clone()), String::from_str("slice"));
                    let args = exprs1(number_literal(n));
                    let call = create_call_expression(callee, args, false);
                    emit(out, create_variable_declaration_kind(kind, x, Some(call)));
                },
                Pattern::Object(ps, rr) => {
                    let pat = Pattern::Object(ps, rr);
                    assert(pat == rv);
                    emit(out, create_variable_declaration_pattern(kind, pat, Some(create_identifier_expression(rhs.clone()))));
                },
                _ => {
                    assert(v_stmts(out@) =~= o0 + Seq::<SStmt>::empty());
                },
            }
        },
        None => {
            assert(v_stmts(out@) =~= o0 + Seq::<SStmt>::empty());
        },
    }
}

/// The names from `prop_names` are one per property.
proof fn lemma_prop_names_len(props: Seq<SBindingProp>, i: int, c: usize)
    requires
        0 <= i <= props.len(),
    ensures
        prop_names(props, i, c).0.len() == props.len() - i,
    decreases props.len() - i,
{
    if i < props.len() {
        let (n, c1) = key_name(props[i].key, c);
        lemma_prop_names_len(props, i + 1, c1);
    }
}

/// Emits the statements of the properties of an object pattern in order
/// (see `spec_obj_props`).
#[verifier::rlimit(40)]
fn transform_var_decl_obj_props(
    kind: VarKind,
    props: Vec<BindingProp>,
    names: &Vec<String>,
    rhs: &String,
    state: &mut MapperState,
    out: &mut Vec<Stmt>,
)
    requires
        names.len() == props.len(),
        props_ok(v_binding_props(props@), 0),
    ensures
        v_stmts(final(out)@) == v_stmts(old(out)@) + spec_obj_props(kind, v_binding_props(props@), views(names@), rhs@, 0, old(state).id_counter).0,
        final(state).id_counter == spec_obj_props(kind, v_binding_props(props@), views(names@), rhs@, 0, old(state).id_counter).1,
        final(state).continue_targets@ == old(state).continue_targets@,
    decreases props, 1nat,
{
    let ghost all = props@;
    let ghost vp = v_binding_props(props@);
    let ghost vn = views(names@);
    let ghost o0 = v_stmts(out@);
    let ghost c0 = state.id_counter;
    proof {
        lemma_v_binding_props_index(props@);
    }
    let n = props.len();
    let mut rest = props;
    let mut i: usize = 0;
    while rest.len() > 0
        invariant
            all == props@,
            all.len() == n,
            n == names.len(),
            vp == v_binding_props(all),
            vn == views(names@),
            vp.len() == all.len(),
            forall|j: int| 0 <= j < all.len() ==> #[trigger] vp[j] == (SBindingProp {
                key: v_prop_key(all[j].key),
                value: v_pattern(all[j].value),
                shorthand: all[j].shorthand,
                computed: all[j].computed,
            }),
            i + rest@.len() == all.len(),
            rest@ == all.subrange(i as int, all.len() as int),
            props_ok(vp, i as int),
            ({
                let r = spec_obj_props(kind, vp, vn, rhs@, i as int, state.id_counter);
                &&& o0 + spec_obj_props(kind, vp, vn, rhs@, 0, c0).0 == v_stmts(out@) + r.0
                &&& spec_obj_props(kind, vp, vn, rhs@, 0, c0).1 == r.1
            }),
            state.continue_targets@ == old(state).continue_targets@,
        decreases rest.len(),
    {
        let p = rest.remove(0);
        assert(p == all[i as int]);
        let ghost ci = state.id_counter;
        let ghost oi = v_stmts(out@);
        assert(vn[i as int] == names@[i as int]@);
        transform_var_decl_obj_prop(kind, p, &names[i], rhs, state, out);
        proof {
            let a = spec_obj_prop(kind, vp[i as int], vn[i as int], rhs@, ci);
            let b = spec_obj_props(kind, vp, vn, rhs@, i + 1, a.1);
            assert(spec_obj_props(kind, vp, vn, rhs@, i as int, ci) == (a.0 + b.0, b.1));
            assert(oi + (a.0 + b.0) =~= (oi + a.0) + b.0);
        }
        i = i + 1;
    }
    proof {
        assert(v_stmts(out@) + Seq::<SStmt>::empty() =~= v_stmts(out@));
    }
}

/// Emits `key_pre`.
fn emit_key_pre(key: PropKey, computed: bool, name: &String, out: &mut Vec<Stmt>)
    requires
        computed ==> key is Expr,
    ensures
        v_stmts(final(out)@) == v_stmts(old(out)@) + key_pre(v_prop_key(key), computed, name@),
{
    let ghost o0 = v_stmts(out@);
    let ghost kv = v_prop_key(key);
    if computed {
        match key {
            PropKey::Expr(e) => {
                let ghost ev = *e;
                assert(kv == SPropKey::Expr(Box::new(v_expr(ev))));
                let is_ident = match &*e {
                    Expr::Ident(_) => true,
                    _ => false,
                };
                if !is_ident {
                    emit(out, create_variable_declaration_kind(VarKind::Const, name.clone(), Some(*e)));
                } else {
                    assert(v_stmts(out@) =~= o0 + Seq::<SStmt>::empty());
                }
            },
            _ => {},
        }
    } else {
        assert(v_stmts(out@) =~= o0 + Seq::<SStmt>::empty());
    }
}

/// Emits the statements of one property of an object pattern (see
/// `spec_obj_prop`).
fn transform_var_decl_obj_prop(kind: VarKind, p: BindingProp, name: &String, rhs: &String, state: &mut MapperState, out: &mut Vec<Stmt>)
    requires
        prop_ok(SBindingProp { key: v_prop_key(p.key), value: v_pattern(p.value), shorthand: p.shorthand, computed: p.computed }),
    ensures
        ({
            let sp = SBindingProp { key: v_prop_key(p.key), value: v_pattern(p.value), shorthand: p.shorthand, computed: p.computed };
            let r = spec_obj_prop(kind, sp, name@, rhs@, old(state).id_counter);
            &&& v_stmts(final(out)@) == v_stmts(old(out)@) + r.0
            &&& final(state).id_counter == r.1
        }),
        final(state).continue_targets@ == old(state).continue_targets@,
    decreases p, 0nat,
{
    let ghost o0 = v_stmts(out@);
    let ghost c0 = state.id_counter;
    let BindingProp { key, value, shorthand, computed } = p;
    let ghost kv = v_prop_key(key);
    emit_key_pre(key, computed, name, out);
    let ghost o1 = v_stmts(out@);
    let access = prop_access_expr(rhs, name, computed);
    let ghost av = access@;
    let ghost vv = v_pattern(value);
    transform_var_decl_prop_value(kind, value, access, rhs, state, out);
    proof {
        let r = spec_prop_value(kind, vv, av, rhs@, c0);
        assert(v_stmts(out@) =~= o0 + (key_pre(kv, computed, name@) + r.0));
    }
}

/// Emits the statements that bind the value pattern of a property (see
/// `spec_prop_value`).
fn transform_var_decl_prop_value(kind: VarKind, value: Pattern, access: Expr, rhs: &String, state: &mut MapperState, out: &mut Vec<Stmt>)
    requires
        match value@ {
            SPattern::Assign(left, _) => pattern_ok(*left),
            _ => pattern_ok(value@),
        },
    ensures
        v_stmts(final(out)@) == v_stmts(old(out)@) + spec_prop_value(kind, value@, access@, rhs@, old(state).id_counter).0,
        final(state).id_counter == spec_prop_value(kind, value@, access@, rhs@, old(state).id_counter).1,
        final(state).continue_targets@ == old(state).continue_targets@,
    decreases value, 2nat,
{
    let ghost o0 = v_stmts(out@);
    let ghost vv = value;
    match value {
        Pattern::Ident(n) => {
            emit(out, create_variable_declaration_kind(kind, n, Some(access)));
        },
        Pattern::Assign(left, d) => {
            let ghost lv = *left;
            let ghost dv = *d;
            assert(v_pattern(vv) == SPattern::Assign(Box::new(v_pattern(lv)), Box::new(v_expr(dv))));
            match *left {
                Pattern::Ident(n) => {
                    let s1 = create_variable_declaration_kind(VarKind::Let, n.clone(), Some(access));
                    let s2 = default_if_stmt(&n, *d);
                    emit(out, s1);
                    emit(out, s2);
                    proof {
                        assert(v_stmts(out@) =~= o0 + seq![s1@, s2@]);
                    }
                },
                other => {
                    transform_var_decl_nested(other, Some(*d), access, state, out);
                },
            }
        },
        other => {
            transform_var_decl_nested(other, None, access, state, out);
        },
    }
}

/// Emits `spec_nested`: the value into a fresh `let`, its default, and the
/// nested pattern bound from it.
fn transform_var_decl_nested(left: Pattern, default: Option<Expr>, access: Expr, state: &mut MapperState, out: &mut Vec<Stmt>)
    requires
        pattern_ok(left@),
    ensures
        v_stmts(final(out)@) == v_stmts(old(out)@) + spec_nested(left@, v_opt_expr(default), access@, old(state).id_counter).0,
        final(state).id_counter == spec_nested(left@, v_opt_expr(default), access@, old(state).id_counter).1,
        final(state).continue_targets@ == old(state).continue_targets@,
    decreases left, 1nat,
{
    let ghost o0 = v_stmts(out@);
    let ghost dv = v_opt_expr(default);
    let tmp = state.next_ident_name();
    let ghost av = access;
    assert(v_opt_expr(Some(av)) == Some(av@));
    let s1 = create_variable_declaration_kind(VarKind::Let, tmp.clone(), Some(access));
    emit(out, s1);
    let ghost o1 = v_stmts(out@);
    match default {
        Some(d) => {
            emit(out, default_if_stmt(&tmp, d));
        },
        None => {},
    }
    let ghost o2 = v_stmts(out@);
    proof {
        let dflt = match dv {
            Some(d) => seq![default_if(tmp@, d)],
            None => Seq::<SStmt>::empty(),
        };
        assert(o2 =~= o0 + (seq![s1@] + dflt));
    }
    let ghost c1 = state.id_counter;
    let ghost lv = left@;
    let e = create_identifier_expression(tmp);
    let ghost ie = Some(e);
    assert(v_opt_expr(ie) == Some(SExpr::Ident(tmp@)));
    let _ = transform_var_decl_declr(VarKind::Let, left, Some(e), state, out);
    proof {
        let sub = spec_declr(VarKind::Let, lv, Some(SExpr::Ident(tmp@)), c1);
        let dflt = match dv {
            Some(d) => seq![default_if(tmp@, d)],
            None => Seq::<SStmt>::empty(),
        };
        assert(v_stmts(out@) =~= o0 + (seq![s1@] + dflt + sub.0));
    }
}

/// Emits the statements of the elements of an array pattern in order (see
/// `spec_arr_elems`).
#[verifier::rlimit(40)]
fn transform_var_decl_arr_elems(kind: VarKind, elems: Vec<Option<Pattern>>, rhs: &String, state: &mut MapperState, out: &mut Vec<Stmt>)
    requires
        elems_ok(v_opt_patterns(elems@), 0),
    ensures
        v_stmts(final(out)@) == v_stmts(old(out)@) + spec_arr_elems(kind, v_opt_patterns(elems@), rhs@, 0, old(state).id_counter).0,
        final(state).id_counter == spec_arr_elems(kind, v_opt_patterns(elems@), rhs@, 0, old(state).id_counter).1,
        final(state).continue_targets@ == old(state).continue_targets@,
    decreases elems, 1nat,
{
    let ghost all = elems@;
    let ghost ve = v_opt_patterns(elems@);
    let ghost o0 = v_stmts(out@);
    let ghost c0 = state.id_counter;
    proof {
        lemma_v_opt_patterns_index(elems@);
    }
    let n = elems.len();
    let mut rest = elems;
    let mut i: usize = 0;
    while rest.len() > 0
        invariant
            all == elems@,
            all.len() == n,
            ve == v_opt_patterns(all),
            ve.len() == all.len(),
            forall|j: int| 0 <= j < all.len() ==> #[trigger] ve[j] == v_opt_pattern(all[j]),
            i + rest@.len() == all.len(),
            rest@ == all.subrange(i as int, all.len() as int),
            elems_ok(ve, i as int),
            ({
                let r = spec_arr_elems(kind, ve, rhs@, i as int, state.id_counter);
                &&& o0 + spec_arr_elems(kind, ve, rhs@, 0, c0).0 == v_stmts(out@) + r.0
                &&& spec_arr_elems(kind, ve, rhs@, 0, c0).1 == r.1
            }),
            state.continue_targets@ == old(state).continue_targets@,
        decreases rest.len(),
    {
        let e = rest.remove(0);
        assert(e == all[i as int]);
        let ghost ci = state.id_counter;
        let ghost oi = v_stmts(out@);
        transform_var_decl_arr_elem(kind, e, i, rhs, state, out);
        proof {
            let a = spec_arr_elem(kind, ve[i as int], i as nat, rhs@, ci);
            let b = spec_arr_elems(kind, ve, rhs@, i + 1, a.1);
            assert(spec_arr_elems(kind, ve, rhs@, i as int, ci) == (a.0 + b.0, b.1));
            assert(oi + (a.0 + b.0) =~= (oi + a.0) + b.0);
        }
        i = i + 1;
    }
    proof {
        assert(v_stmts(out@) + Seq::<SStmt>::empty() =~= v_stmts(out@));
    }
}

/// Emits the statements of element `i` of an array pattern (see
/// `spec_arr_elem`).
fn transform_var_decl_arr_elem(kind: VarKind, e: Option<Pattern>, i: usize, rhs: &String, state: &mut MapperState, out: &mut Vec<Stmt>)
    requires
        match v_opt_pattern(e) {
            None => true,
            Some(SPattern::Assign(left, _)) => pattern_ok(*left),
            Some(q) => pattern_ok(q),
        },
    ensures
        v_stmts(final(out)@) == v_stmts(old(out)@) + spec_arr_elem(kind, v_opt_pattern(e), i as nat, rhs@, old(state).id_counter).0,
        final(state).id_counter == spec_arr_elem(kind, v_opt_pattern(e), i as nat, rhs@, old(state).id_counter).1,
        final(state).continue_targets@ == old(state).continue_targets@,
    decreases e, 0nat,
{
    let ghost o0 = v_stmts(out@);
    match e {
        None => {
            assert(o0 + Seq::<SStmt>::empty() =~= o0);
        },
        Some(pat) => {
            let ghost pv = pat;
            match pat {
                Pattern::Ident(n) => {
                    emit(out, create_variable_declaration_kind(kind, n, Some(index_access_expr(rhs, i))));
                },
                Pattern::Assign(left, d) => {
                    let ghost lv = *left;
                    let ghost dv = *d;
                    assert(v_pattern(pv) == SPattern::Assign(Box::new(v_pattern(lv)), Box::new(v_expr(dv))));
                    transform_var_decl_nested(*left, Some(*d), index_access_expr(rhs, i), state, out);
                },
                other => {
                    transform_var_decl_nested(other, None, index_access_expr(rhs, i), state, out);
                },
            }
        },
    }
}

} // verus!
