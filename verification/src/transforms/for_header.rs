//! Simplifies the left side of a `for-in` / `for-of` header to a plain name.

use vstd::prelude::*;
use crate::ast::{AssignOp, AssignTarget, Declarator, Expr, ForLeft, Member, Pattern, Stmt, VarDecl};
use crate::mapper_state::{ident_name, next_counter, MapperState};
use crate::spec_ast::{
    v_declarators, v_expr, v_for_left, v_member, v_opt_stmt, v_opt_expr, v_pattern, v_target, v_var_decl, SAssignTarget,
    SDeclarator, SExpr, SForLeft, SPattern, SStmt, SVarDecl,
};
use crate::transforms::builder::{
    create_assignment_expression_member, create_assignment_expression_name,
    create_variable_declaration_kind, decl_stmt,
};

verus! {

/// Whether the header rewrite needs a fresh name for this left side.
pub open spec fn header_needs_name(left: SForLeft) -> bool {
    match left {
        SForLeft::VarDecl(d) => !(d.decls[0].id is Ident),
        SForLeft::Target(SAssignTarget::Ident(_)) => false,
        SForLeft::Target(_) => true,
    }
}

/// The model of the header rewrite with fresh name `t`: the new left side and
/// the statement, if any, to put in front of the loop body.
///
/// - `let x` stays (other declarators are dropped);
/// - `let <pattern> = init` becomes `let t = init` with `let <pattern> = t;`
///   in front;
/// - a destructuring target `<pattern>` becomes `t` with `<pattern> = t;` in
///   front;
/// - a member target `a.b` becomes `t` with `a.b = t;` in front;
/// - a plain name stays.
pub open spec fn spec_for_header(left: SForLeft, t: Seq<char>) -> (SForLeft, Option<SStmt>) {
    match left {
        SForLeft::VarDecl(d) => {
            let first = d.decls[0];
            if first.id is Ident {
                (SForLeft::VarDecl(SVarDecl { kind: d.kind, decls: seq![first] }), None)
            } else {
                (
                    SForLeft::VarDecl(
                        SVarDecl { kind: d.kind, decls: seq![SDeclarator { id: SPattern::Ident(t), init: first.init }] },
                    ),
                    Some(SStmt::VarDecl(
                        SVarDecl { kind: d.kind, decls: seq![SDeclarator { id: first.id, init: Some(SExpr::Ident(t)) }] },
                    )),
                )
            }
        },
        SForLeft::Target(SAssignTarget::Ident(n)) => (left, None),
        SForLeft::Target(SAssignTarget::Member(m)) => (
            SForLeft::Target(SAssignTarget::Ident(t)),
            Some(
                SStmt::Expr(
                    SExpr::Assign(
                        AssignOp::Assign,
                        Box::new(SAssignTarget::Member(m)),
                        Box::new(SExpr::Ident(t)),
                    ),
                ),
            ),
        ),
        SForLeft::Target(SAssignTarget::Pattern(h)) => (
            SForLeft::Target(SAssignTarget::Ident(t)),
            Some(
                SStmt::Expr(
                    SExpr::Assign(
                        AssignOp::Assign,
                        Box::new(SAssignTarget::Pattern(h)),
                        Box::new(SExpr::Ident(t)),
                    ),
                ),
            ),
        ),
    }
}

/// A left side the header rewrite accepts: a declaration has a declarator.
pub open spec fn for_left_ok(left: SForLeft) -> bool {
    match left {
        SForLeft::VarDecl(d) => d.decls.len() >= 1,
        SForLeft::Target(_) => true,
    }
}

/// A single-declarator declaration with the given declarator.
fn one_declarator(kind: crate::ast::VarKind, d: Declarator) -> (v: VarDecl)
    ensures
        v_var_decl(v) == (SVarDecl {
            kind,
            decls: seq![SDeclarator { id: v_pattern(d.id), init: v_opt_expr(d.init) }],
        }),
{
    let mut decls: Vec<Declarator> = Vec::new();
    decls.push(d);
    proof {
        assert(decls@.drop_last() =~= Seq::<Declarator>::empty());
        crate::spec_ast::lemma_v_declarator_fields(d);
        assert(v_declarators(decls@.drop_last()) =~= Seq::<SDeclarator>::empty());
    }
    VarDecl { kind, decls }
}

/// Simplifies the left side of a `for-in`/`for-of` header (see
/// `spec_for_header`), taking a fresh name from `state` when one is needed.
pub fn transform_for_header(left: ForLeft, state: &mut MapperState) -> (r: (ForLeft, Option<Stmt>))
    requires
        for_left_ok(v_for_left(left)),
    ensures
        v_for_left(r.0) == spec_for_header(v_for_left(left), ident_name(old(state).id_counter as nat)).0,
        v_opt_stmt(r.1) == spec_for_header(v_for_left(left), ident_name(old(state).id_counter as nat)).1,
        final(state).id_counter == (if header_needs_name(v_for_left(left)) {
            next_counter(old(state).id_counter)
        } else {
            old(state).id_counter
        }),
        final(state).continue_targets@ == old(state).continue_targets@,
{
    match left {
        ForLeft::VarDecl(decl) => header_var_decl(decl, state),
        ForLeft::Target(target) => header_target(target, state),
    }
}

#[verifier::rlimit(50)]
#[verifier::spinoff_prover]
fn header_var_decl(decl: VarDecl, state: &mut MapperState) -> (r: (ForLeft, Option<Stmt>))
    requires
        decl.decls@.len() >= 1,
    ensures
        v_for_left(r.0) == spec_for_header(SForLeft::VarDecl(v_var_decl(decl)), ident_name(old(state).id_counter as nat)).0,
        v_opt_stmt(r.1) == spec_for_header(SForLeft::VarDecl(v_var_decl(decl)), ident_name(old(state).id_counter as nat)).1,
        final(state).id_counter == (if header_needs_name(SForLeft::VarDecl(v_var_decl(decl))) {
            next_counter(old(state).id_counter)
        } else {
            old(state).id_counter
        }),
        final(state).continue_targets@ == old(state).continue_targets@,
{
    let ghost t = ident_name(state.id_counter as nat);
    let VarDecl { kind, decls } = decl;
    proof {
        lemma_v_declarators_index(decls@);
    }
    let mut decls = decls;
    let first = decls.remove(0);
    let Declarator { id, init } = first;
    match id {
        Pattern::Ident(n) => {
            let d = one_declarator(kind, Declarator { id: Pattern::Ident(n), init });
            (ForLeft::VarDecl(d), None)
        },
        other => {
            let tmp_name = state.next_ident_name();
            let d = one_declarator(kind, Declarator { id: Pattern::Ident(tmp_name.clone()), init });
            let pd = one_declarator(kind, Declarator { id: other, init: Some(Expr::Ident(tmp_name)) });
            let pattern_stmt = Stmt::VarDecl(pd);
            proof {
                assert(pattern_stmt@ == SStmt::VarDecl(v_var_decl(pd)));
            }
            (ForLeft::VarDecl(d), Some(pattern_stmt))
        },
    }
}

fn header_target(target: AssignTarget, state: &mut MapperState) -> (r: (ForLeft, Option<Stmt>))
    ensures
        v_for_left(r.0) == spec_for_header(SForLeft::Target(v_target(target)), ident_name(old(state).id_counter as nat)).0,
        v_opt_stmt(r.1) == spec_for_header(SForLeft::Target(v_target(target)), ident_name(old(state).id_counter as nat)).1,
        final(state).id_counter == (if header_needs_name(SForLeft::Target(v_target(target))) {
            next_counter(old(state).id_counter)
        } else {
            old(state).id_counter
        }),
        final(state).continue_targets@ == old(state).continue_targets@,
{
    match target {
        AssignTarget::Ident(n) => {
            let r = ForLeft::Target(AssignTarget::Ident(n));
            (r, None)
        },
        AssignTarget::Member(me) => {
            let tmp_name = state.next_ident_name();
            let r = header_member_parts(me, tmp_name);
            r
        },
        AssignTarget::Pattern(h) => {
            let tmp_name = state.next_ident_name();
            header_pattern_parts(h, tmp_name)
        },
    }
}

fn header_member_parts(me: Member, tmp_name: String) -> (r: (ForLeft, Option<Stmt>))
    ensures
        v_for_left(r.0) == SForLeft::Target(SAssignTarget::Ident(tmp_name@)),
        v_opt_stmt(r.1) == Some(SStmt::Expr(SExpr::Assign(AssignOp::Assign, Box::new(SAssignTarget::Member(v_member(me))), Box::new(SExpr::Ident(tmp_name@))))),
{
    let e = create_assignment_expression_member(AssignOp::Assign, me, Expr::Ident(tmp_name.clone()));
    let nt = AssignTarget::Ident(tmp_name);
    proof {
        assert(v_target(nt) == SAssignTarget::Ident(tmp_name@));
    }
    (ForLeft::Target(nt), Some(Stmt::Expr(e)))
}

#[verifier::rlimit(30)]
fn header_pattern_parts(h: u64, tmp_name: String) -> (r: (ForLeft, Option<Stmt>))
    ensures
        v_for_left(r.0) == SForLeft::Target(SAssignTarget::Ident(tmp_name@)),
        v_opt_stmt(r.1) == Some(SStmt::Expr(SExpr::Assign(AssignOp::Assign, Box::new(SAssignTarget::Pattern(h)), Box::new(SExpr::Ident(tmp_name@))))),
{
    let rhs = crate::transforms::builder::create_identifier_expression(tmp_name.clone());
    let e = Expr::Assign(AssignOp::Assign, Box::new(AssignTarget::Pattern(h)), Box::new(rhs));
    proof {
        assert(v_target(AssignTarget::Pattern(h)) == SAssignTarget::Pattern(h));
        assert(e@ == SExpr::Assign(AssignOp::Assign, Box::new(SAssignTarget::Pattern(h)), Box::new(SExpr::Ident(tmp_name@))));
    }
    let nt = AssignTarget::Ident(tmp_name);
    proof {
        assert(v_target(nt) == SAssignTarget::Ident(tmp_name@));
    }
    (ForLeft::Target(nt), Some(Stmt::Expr(e)))
}

/// The model of the first declarator.
pub proof fn lemma_v_declarators_first(s: Seq<Declarator>)
    requires
        s.len() >= 1,
    ensures
        v_declarators(s).len() == s.len(),
        v_declarators(s)[0] == (SDeclarator { id: v_pattern(s[0].id), init: v_opt_expr(s[0].init) }),
{
    lemma_v_declarators_index(s);
}

/// The model of a declarator sequence has the same length, and its elements
/// are the models of the declarators.
pub proof fn lemma_v_declarators_index(s: Seq<Declarator>)
    ensures
        v_declarators(s).len() == s.len(),
        forall|i: int|
            0 <= i < s.len() ==> #[trigger] v_declarators(s)[i] == (SDeclarator {
                id: v_pattern(s[i].id),
                init: v_opt_expr(s[i].init),
            }),
{
    crate::spec_ast::lemma_v_declarators_index(s);
    assert forall|i: int| 0 <= i < s.len() implies #[trigger] v_declarators(s)[i] == (SDeclarator {
        id: v_pattern(s[i].id),
        init: v_opt_expr(s[i].init),
    }) by {
        crate::spec_ast::lemma_v_declarator_fields(s[i]);
    }
}

} // verus!
