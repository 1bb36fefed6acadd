//! Variable declarations in a block are normalised to one declarator each,
//! and destructuring patterns are unfolded into one declaration per bound
//! name, reading the value step by step.

use vstd::prelude::*;
use crate::ast::{BindingProp, Declarator, Pattern, Stmt, VarDecl, VarKind};
use crate::mapper::MapperAction;
use crate::mapper_state::MapperState;
use crate::spec_ast::{lemma_v_stmts_index, v_declarators, v_opt_expr, v_pattern, v_stmts, SDeclarator, SStmt};
use crate::transforms::var_pattern::{
    declr_ok, elems_ok, emit, pattern_ok, prop_ok, props_ok, spec_declr, transform_var_decl_declr,
};
use crate::spec_ast::{
    lemma_v_binding_props_index, lemma_v_opt_patterns_index, v_binding_props, v_opt_pattern,
    v_opt_patterns, v_prop_key, SBindingProp, SPattern,
};

verus! {

/// A statement already in the final shape: not a declaration, or a
/// declaration of one name with an initializer.
pub open spec fn decl_shape_ok(s: SStmt) -> bool {
    match s {
        SStmt::VarDecl(d) => d.decls.len() == 1 && d.decls[0].init is Some && d.decls[0].id is Ident,
        _ => true,
    }
}

/// Every statement of the block is in the final shape.
pub open spec fn shape_ok(b: Seq<SStmt>) -> bool {
    forall|i: int| 0 <= i < b.len() ==> #[trigger] decl_shape_ok(b[i])
}

/// The statements for the declarators `decls[i..]` of one declaration, the
/// counter after them, and whether any of them was a pattern.
pub open spec fn spec_decls(kind: VarKind, decls: Seq<SDeclarator>, i: int, c: usize) -> (Seq<SStmt>, usize, bool)
    decreases if 0 <= i <= decls.len() { (decls.len() - i) as nat } else { 0nat },
{
    if i < 0 || i >= decls.len() {
        (Seq::empty(), c, false)
    } else {
        let (a, c1) = spec_declr(kind, decls[i].id, decls[i].init, c);
        let (b, c2, ch) = spec_decls(kind, decls, i + 1, c1);
        (a + b, c2, ch || !(decls[i].id is Ident))
    }
}

/// One step of `spec_decls`.
proof fn lemma_decls_step(kind: VarKind, decls: Seq<SDeclarator>, i: int, c: usize)
    ensures
        0 <= i < decls.len() ==> {
            let a = spec_declr(kind, decls[i].id, decls[i].init, c);
            let b = spec_decls(kind, decls, i + 1, a.1);
            spec_decls(kind, decls, i, c) == (a.0 + b.0, b.1, b.2 || !(decls[i].id is Ident))
        },
        i == decls.len() ==> spec_decls(kind, decls, i, c) == (Seq::<SStmt>::empty(), c, false),
{
    reveal(spec_decls);
}

/// Every declarator of `decls[i..]` is handled.
pub open spec fn decls_ok(decls: Seq<SDeclarator>, i: int) -> bool
    decreases if 0 <= i <= decls.len() { (decls.len() - i) as nat } else { 0nat },
{
    if i < 0 || i >= decls.len() {
        true
    } else {
        declr_ok(decls[i].id, decls[i].init) && decls_ok(decls, i + 1)
    }
}

/// The statements that replace one statement of the block: a declaration is
/// split into one per declarator (see `spec_decls`), another statement is
/// kept. Also the counter after, and whether the declaration was split or a
/// pattern unfolded.
pub open spec fn spec_item(s: SStmt, c: usize) -> (Seq<SStmt>, usize, bool) {
    match s {
        SStmt::VarDecl(d) => {
            let r = spec_decls(d.kind, d.decls, 0, c);
            (r.0, r.1, r.2 || d.decls.len() != 1)
        },
        _ => (seq![s], c, false),
    }
}

/// `spec_item` for `b[i..]` in order, threading the counter.
#[verifier::opaque]
pub open spec fn spec_block_items(b: Seq<SStmt>, i: int, c: usize) -> (Seq<SStmt>, usize, bool)
    decreases if 0 <= i <= b.len() { (b.len() - i) as nat } else { 0nat },
{
    if i < 0 || i >= b.len() {
        (Seq::empty(), c, false)
    } else {
        let a = spec_item(b[i], c);
        let r = spec_block_items(b, i + 1, a.1);
        (a.0 + r.0, r.1, a.2 || r.2)
    }
}

/// One step of `spec_block_items`.
proof fn lemma_block_items_step(b: Seq<SStmt>, i: int, c: usize)
    ensures
        0 <= i < b.len() ==> {
            let a = spec_item(b[i], c);
            let r = spec_block_items(b, i + 1, a.1);
            spec_block_items(b, i, c) == (a.0 + r.0, r.1, a.2 || r.2)
        },
        i == b.len() ==> spec_block_items(b, i, c) == (Seq::<SStmt>::empty(), c, false),
{
    reveal(spec_block_items);
}

/// Every declaration of `b[i..]` is handled.
pub open spec fn block_ok(b: Seq<SStmt>, i: int) -> bool
    decreases if 0 <= i <= b.len() { (b.len() - i) as nat } else { 0nat },
{
    if i < 0 || i >= b.len() {
        true
    } else {
        (match b[i] {
            SStmt::VarDecl(d) => decls_ok(d.decls, 0),
            _ => true,
        }) && block_ok(b, i + 1)
    }
}

/// Whether a statement is in the final shape.
#[verifier::rlimit(40)]
fn stmt_shape_ok(s: &Stmt) -> (r: bool)
    ensures
        r == decl_shape_ok(s@),
{
    match s {
        Stmt::VarDecl(d) => {
            proof {
                crate::transforms::for_header::lemma_v_declarators_index(d.decls@);
                assert(s@ == SStmt::VarDecl(crate::spec_ast::v_var_decl(*d)));
            }
            d.decls.len() == 1 && d.decls[0].init.is_some() && match &d.decls[0].id {
                Pattern::Ident(_) => true,
                _ => false,
            }
        },
        _ => true,
    }
}

/// Whether every statement of the block is in the final shape.
fn confirm_var_decl_shape(body: &Vec<Stmt>) -> (r: bool)
    ensures
        r == shape_ok(v_stmts(body@)),
{
    let ghost vb = v_stmts(body@);
    proof {
        lemma_v_stmts_index(body@);
    }
    let mut i: usize = 0;
    while i < body.len()
        invariant
            i <= body.len(),
            vb == v_stmts(body@),
            vb.len() == body@.len(),
            forall|j: int| 0 <= j < body@.len() ==> #[trigger] vb[j] == body@[j]@,
            forall|j: int| 0 <= j < i ==> #[trigger] decl_shape_ok(vb[j]),
        decreases body.len() - i,
    {
        assert(vb[i as int] == body@[i as int]@);
        let ok = stmt_shape_ok(&body[i]);
        if !ok {
            return false;
        }
        i = i + 1;
    }
    true
}

/// Emits the statements for every declarator of a declaration (see
/// `spec_decls`) and says whether any was a pattern.
#[verifier::rlimit(40)]
fn transform_var_decl_any_decr(d: VarDecl, state: &mut MapperState, out: &mut Vec<Stmt>) -> (changed: bool)
    requires
        decls_ok(d@.decls, 0),
    ensures
        v_stmts(final(out)@) == v_stmts(old(out)@) + spec_decls(d@.kind, d@.decls, 0, old(state).id_counter).0,
        final(state).id_counter == spec_decls(d@.kind, d@.decls, 0, old(state).id_counter).1,
        final(state).continue_targets@ == old(state).continue_targets@,
        changed == (spec_decls(d@.kind, d@.decls, 0, old(state).id_counter).2 || d@.decls.len() != 1),
{
    let ghost o0 = v_stmts(out@);
    let ghost c0 = state.id_counter;
    let VarDecl { kind, decls } = d;
    let ghost all = decls@;
    let ghost vd = v_declarators(decls@);
    proof {
        crate::transforms::for_header::lemma_v_declarators_index(decls@);
    }
    let n = decls.len();
    let mut changed = n != 1;
    let mut rest = decls;
    let mut i: usize = 0;
    while rest.len() > 0
        invariant
            all.len() == n,
            vd == v_declarators(all),
            vd.len() == all.len(),
            forall|j: int| 0 <= j < all.len() ==> #[trigger] vd[j] == (SDeclarator { id: v_pattern(all[j].id), init: v_opt_expr(all[j].init) }),
            i + rest@.len() == all.len(),
            rest@ == all.subrange(i as int, all.len() as int),
            decls_ok(vd, i as int),
            ({
                let r = spec_decls(kind, vd, i as int, state.id_counter);
                let r0 = spec_decls(kind, vd, 0, c0);
                &&& o0 + r0.0 == v_stmts(out@) + r.0
                &&& r0.1 == r.1
                &&& (r0.2 || n != 1) == (changed || r.2)
            }),
            state.continue_targets@ == old(state).continue_targets@,
        decreases rest.len(),
    {
        let x = rest.remove(0);
        assert(x == all[i as int]);
        let ghost ci = state.id_counter;
        let ghost oi = v_stmts(out@);
        let Declarator { id, init } = x;
        let ch = transform_var_decl_declr(kind, id, init, state, out);
        if ch {
            changed = true;
        }
        proof {
            lemma_decls_step(kind, vd, i as int, ci);
            let a = spec_declr(kind, vd[i as int].id, vd[i as int].init, ci);
            let b = spec_decls(kind, vd, i + 1, a.1);
            assert(oi + (a.0 + b.0) =~= (oi + a.0) + b.0);
        }
        i = i + 1;
    }
    proof {
        lemma_decls_step(kind, vd, i as int, state.id_counter);
        assert(v_stmts(out@) + Seq::<SStmt>::empty() =~= v_stmts(out@));
    }
    changed
}

/// Emits the replacement of one statement of the block (see `spec_item`).
fn transform_block_item(x: Stmt, state: &mut MapperState, out: &mut Vec<Stmt>) -> (changed: bool)
    requires
        match x@ {
            SStmt::VarDecl(d) => decls_ok(d.decls, 0),
            _ => true,
        },
    ensures
        v_stmts(final(out)@) == v_stmts(old(out)@) + spec_item(x@, old(state).id_counter).0,
        final(state).id_counter == spec_item(x@, old(state).id_counter).1,
        changed == spec_item(x@, old(state).id_counter).2,
        final(state).continue_targets@ == old(state).continue_targets@,
{
    let ghost xv = x;
    match x {
        Stmt::VarDecl(d) => {
            assert(xv@ == SStmt::VarDecl(d@));
            transform_var_decl_any_decr(d, state, out)
        },
        other => {
            emit(out, other);
            false
        },
    }
}

/// Normalises the declarations of a block: when some statement is not in the
/// final shape (see `shape_ok`), each declaration is split into one per
/// declarator and each pattern is unfolded (see `spec_block_items`); the
/// result is to be visited again when anything was split or unfolded. A block
/// already in shape is returned as it is.
#[verifier::rlimit(40)]
pub fn transform_var_decl_statement(body: Vec<Stmt>, state: &mut MapperState) -> (r: (MapperAction, Stmt))
    requires
        !shape_ok(v_stmts(body@)) ==> block_ok(v_stmts(body@), 0),
    ensures
        final(state).continue_targets@ == old(state).continue_targets@,
        shape_ok(v_stmts(body@)) ==> {
            &&& r.0 == MapperAction::Normal
            &&& r.1@ == SStmt::Block(v_stmts(body@))
            &&& final(state).id_counter == old(state).id_counter
        },
        !shape_ok(v_stmts(body@)) ==> {
            let s = spec_block_items(v_stmts(body@), 0, old(state).id_counter);
            &&& r.0 == (if s.2 { MapperAction::Revisit } else { MapperAction::Normal })
            &&& r.1@ == SStmt::Block(s.0)
            &&& final(state).id_counter == s.1
        },
{
    if confirm_var_decl_shape(&body) {
        return (MapperAction::Normal, Stmt::Block(body));
    }
    let ghost all = body@;
    let ghost vb = v_stmts(body@);
    let ghost c0 = state.id_counter;
    proof {
        lemma_v_stmts_index(body@);
    }
    let n = body.len();
    let mut out: Vec<Stmt> = Vec::new();
    let mut revisit = false;
    let mut rest = body;
    let mut i: usize = 0;
    proof {
        assert(v_stmts(out@) =~= Seq::<SStmt>::empty());
    }
    while rest.len() > 0
        invariant
            all.len() == n,
            vb == v_stmts(all),
            vb.len() == all.len(),
            forall|j: int| 0 <= j < all.len() ==> #[trigger] vb[j] == all[j]@,
            i + rest@.len() == all.len(),
            rest@ == all.subrange(i as int, all.len() as int),
            block_ok(vb, i as int),
            ({
                let r = spec_block_items(vb, i as int, state.id_counter);
                let r0 = spec_block_items(vb, 0, c0);
                &&& r0.0 == v_stmts(out@) + r.0
                &&& r0.1 == r.1
                &&& r0.2 == (revisit || r.2)
            }),
            state.continue_targets@ == old(state).continue_targets@,
        decreases rest.len(),
    {
        let x = rest.remove(0);
        assert(x == all[i as int]);
        assert(vb[i as int] == x@);
        let ghost ci = state.id_counter;
        let ghost oi = v_stmts(out@);
        let ch = transform_block_item(x, state, &mut out);
        if ch {
            revisit = true;
        }
        proof {
            lemma_block_items_step(vb, i as int, ci);
            let b = spec_block_items(vb, i + 1, state.id_counter);
            assert(oi + (v_stmts(out@).subrange(oi.len() as int, v_stmts(out@).len() as int) + b.0) =~= v_stmts(out@) + b.0);
        }
        i = i + 1;
    }
    proof {
        lemma_block_items_step(vb, i as int, state.id_counter);
        assert(v_stmts(out@) + Seq::<SStmt>::empty() =~= v_stmts(out@));
    }
    let action = if revisit { MapperAction::Revisit } else { MapperAction::Normal };
    (action, Stmt::Block(out))
}

/// Whether the pattern is handled everywhere inside it (see `pattern_ok`).
fn pattern_ok_check(p: &Pattern) -> (r: bool)
    ensures
        r == pattern_ok(p@),
    decreases p, 0nat,
{
    match p {
        Pattern::Ident(_) => true,
        Pattern::Assign(_, _) => false,
        Pattern::Object(props, rest) => {
            proof {
                assert(p@ == SPattern::Object(v_binding_props(props@), match *rest {
                    Some(r) => Some(Box::new(v_pattern(*r))),
                    None => None,
                }));
            }
            let b = match rest {
                Some(r) => {
                    let ok = match &**r {
                        Pattern::Ident(_) => true,
                        _ => false,
                    };
                    proof {
                        assert(ok == (v_pattern(**r) is Ident));
                    }
                    ok
                },
                None => true,
            };
            let a = props_ok_check(props);
            a && b
        },
        Pattern::Array(elems, rest) => {
            proof {
                assert(p@ == SPattern::Array(crate::spec_ast::v_opt_patterns(elems@), match *rest {
                    Some(r) => Some(Box::new(v_pattern(*r))),
                    None => None,
                }));
            }
            let b = match rest {
                Some(r) => {
                    let ok = match &**r {
                        Pattern::Ident(_) => true,
                        Pattern::Object(_, _) => true,
                        _ => false,
                    };
                    proof {
                        assert(ok == (v_pattern(**r) is Ident || v_pattern(**r) is Object));
                    }
                    ok
                },
                None => true,
            };
            let a = elems_ok_check(elems);
            a && b
        },
    }
}

/// `prop_ok` of a property.
fn prop_ok_check(p: &BindingProp) -> (r: bool)
    ensures
        r == prop_ok(SBindingProp { key: v_prop_key(p.key), value: v_pattern(p.value), shorthand: p.shorthand, computed: p.computed }),
    decreases p, 0nat,
{
    let key_ok = match &p.key {
        crate::ast::PropKey::Private(_) => false,
        crate::ast::PropKey::Expr(_) => true,
        crate::ast::PropKey::Ident(_) => !p.computed,
    };
    if !key_ok {
        return false;
    }
    match &p.value {
        Pattern::Assign(left, _) => pattern_ok_check(left),
        other => pattern_ok_check(other),
    }
}

/// `props_ok` of a property list.
fn props_ok_check(props: &Vec<BindingProp>) -> (r: bool)
    ensures
        r == props_ok(v_binding_props(props@), 0),
    decreases props@, 1nat,
{
    let ghost vp = v_binding_props(props@);
    proof {
        lemma_v_binding_props_index(props@);
    }
    let mut i: usize = 0;
    while i < props.len()
        invariant
            i <= props.len(),
            vp == v_binding_props(props@),
            vp.len() == props@.len(),
            forall|j: int| 0 <= j < props@.len() ==> #[trigger] vp[j] == (SBindingProp {
                key: v_prop_key(props@[j].key),
                value: v_pattern(props@[j].value),
                shorthand: props@[j].shorthand,
                computed: props@[j].computed,
            }),
            props_ok(vp, 0) == props_ok(vp, i as int),
        decreases props.len() - i,
    {
        assert(vp[i as int] == (SBindingProp {
            key: v_prop_key(props@[i as int].key),
            value: v_pattern(props@[i as int].value),
            shorthand: props@[i as int].shorthand,
            computed: props@[i as int].computed,
        }));
        if !prop_ok_check(&props[i]) {
            return false;
        }
        i = i + 1;
    }
    true
}

/// `elems_ok` of the elements of an array pattern.
fn elems_ok_check(elems: &Vec<Option<Pattern>>) -> (r: bool)
    ensures
        r == elems_ok(v_opt_patterns(elems@), 0),
    decreases elems@, 1nat,
{
    let ghost ve = v_opt_patterns(elems@);
    proof {
        lemma_v_opt_patterns_index(elems@);
    }
    let mut i: usize = 0;
    while i < elems.len()
        invariant
            i <= elems.len(),
            ve == v_opt_patterns(elems@),
            ve.len() == elems@.len(),
            forall|j: int| 0 <= j < elems@.len() ==> #[trigger] ve[j] == v_opt_pattern(elems@[j]),
            elems_ok(ve, 0) == elems_ok(ve, i as int),
        decreases elems.len() - i,
    {
        assert(ve[i as int] == v_opt_pattern(elems@[i as int]));
        let ok = match &elems[i] {
            None => true,
            Some(Pattern::Assign(left, _)) => pattern_ok_check(left),
            Some(q) => pattern_ok_check(q),
        };
        if !ok {
            return false;
        }
        i = i + 1;
    }
    true
}

/// `decls_ok` of the declarators of a declaration.
fn decls_ok_check(decls: &Vec<Declarator>) -> (r: bool)
    ensures
        r == decls_ok(v_declarators(decls@), 0),
{
    let ghost vd = v_declarators(decls@);
    proof {
        crate::transforms::for_header::lemma_v_declarators_index(decls@);
    }
    let mut i: usize = 0;
    while i < decls.len()
        invariant
            i <= decls.len(),
            vd == v_declarators(decls@),
            vd.len() == decls@.len(),
            forall|j: int| 0 <= j < decls@.len() ==> #[trigger] vd[j] == (SDeclarator { id: v_pattern(decls@[j].id), init: v_opt_expr(decls@[j].init) }),
            decls_ok(vd, 0) == decls_ok(vd, i as int),
        decreases decls.len() - i,
    {
        assert(vd[i as int] == (SDeclarator { id: v_pattern(decls@[i as int].id), init: v_opt_expr(decls@[i as int].init) }));
        let d = &decls[i];
        let ok = pattern_ok_check(&d.id) && (match &d.id {
            Pattern::Ident(_) => true,
            _ => d.init.is_some(),
        });
        if !ok {
            return false;
        }
        i = i + 1;
    }
    true
}

/// Whether `transform_var_decl_statement` accepts this block: it is in
/// shape, or every declaration in it is handled.
pub fn var_decl_supported(body: &Vec<Stmt>) -> (r: bool)
    ensures
        r == (!shape_ok(v_stmts(body@)) ==> block_ok(v_stmts(body@), 0)),
{
    if confirm_var_decl_shape(body) {
        return true;
    }
    let ghost vb = v_stmts(body@);
    proof {
        lemma_v_stmts_index(body@);
    }
    let mut i: usize = 0;
    while i < body.len()
        invariant
            i <= body.len(),
            !shape_ok(vb),
            vb == v_stmts(body@),
            vb.len() == body@.len(),
            forall|j: int| 0 <= j < body@.len() ==> #[trigger] vb[j] == body@[j]@,
            block_ok(vb, 0) == block_ok(vb, i as int),
        decreases body.len() - i,
    {
        assert(vb[i as int] == body@[i as int]@);
        let ok = match &body[i] {
            Stmt::VarDecl(d) => {
                assert(body@[i as int]@ == SStmt::VarDecl(crate::spec_ast::v_var_decl(*d)));
                decls_ok_check(&d.decls)
            },
            _ => true,
        };
        if !ok {
            return false;
        }
        i = i + 1;
    }
    true
}

} // verus!
