//! What the mapper computes when its visitors only relabel breaks (or when
//! it has none): the same traversal as the mapper, written over models.
//!
//! `l` is the label given to every `break` without a label that the traversal
//! reaches (`None`: no visitor, nothing changes). Each function returns the
//! rewritten node, whether an unlabeled `break` was reached, and whether the
//! traversal met no statement the relabeling refuses (with a label: `switch`,
//! `continue` and the loops other than `while`, which the other rewrites remove
//! first).
//!
//! The traversal follows the mapper: function parameters, object-pattern
//! properties, template literals, expression bodies of arrows, the arguments
//! of `import()` and assignment-target patterns are not entered. (The mapper
//! enters class methods a second time only for visitors that may change
//! something on a second pass; relabeling does not.)

use vstd::prelude::*;
use crate::spec_ast::{
    SArg, SArrayElem, SArrow, SArrowBody, SAssignTarget, SCatchClause, SChainElem, SClass,
    SClassElem, SDeclarator, SExpr, SForInit, SForLeft, SFunction, SMember, SObjProp, SPattern,
    SPropKey, SSimpleTarget, SStmt, SSwitchCase, STemplate, SVarDecl,
};

verus! {

/// Whether the relabeling refuses a statement of this kind.
pub open spec fn refused(s: SStmt) -> bool {
    ||| s is Switch
    ||| s is Continue
    ||| s is DoWhile
    ||| s is For
    ||| s is ForIn
    ||| s is ForOf
}

/// The break boundaries the relabeling does not enter: a `while` (its
/// unlabeled breaks are its own) and a function declaration.
pub open spec fn boundary(s: SStmt) -> bool {
    s is While || s is FunctionDecl
}

#[verifier::opaque]
pub open spec fn rl_stmt(s: SStmt, l: Option<Seq<char>>) -> (SStmt, bool, bool)
    decreases s, 2nat,
{
    if l is Some && refused(s) {
        (s, false, false)
    } else if l is Some && boundary(s) {
        (s, false, true)
    } else {
        match s {
            SStmt::Block(b) => {
                let r = rl_stmts(b, 0, l);
                (SStmt::Block(r.0), r.1, r.2)
            },
            SStmt::Break(None) => match l {
                Some(x) => (SStmt::Break(Some(x)), true, true),
                None => (s, false, true),
            },
            SStmt::DoWhile(b, t) => rl_do_while(s, l),
            SStmt::Expr(e) => {
                let r = rl_expr(e, l);
                (SStmt::Expr(r.0), r.1, r.2)
            },
            SStmt::ForIn(left, right, body) => rl_for_in(s, l),
            SStmt::ForOf(left, right, body, aw) => rl_for_of(s, l),
            SStmt::For(init, test, update, body) => rl_for(s, l),
            SStmt::If(t, c, a) => rl_if(s, l),
            SStmt::Labeled(x, b) => {
                let r = rl_stmt(*b, l);
                (SStmt::Labeled(x, Box::new(r.0)), r.1, r.2)
            },
            SStmt::Return(a) => {
                let r = rl_opt_expr(a, l);
                (SStmt::Return(r.0), r.1, r.2)
            },
            SStmt::Switch(d, cases) => rl_switch(s, l),
            SStmt::Throw(e) => {
                let r = rl_expr(e, l);
                (SStmt::Throw(r.0), r.1, r.2)
            },
            SStmt::Try(b, h, f) => rl_try(s, l),
            SStmt::While(t, b) => rl_while(s, l),
            SStmt::With(o, b) => rl_with(s, l),
            SStmt::VarDecl(d) => {
                let r = rl_var_decl(d, l);
                (SStmt::VarDecl(r.0), r.1, r.2)
            },
            SStmt::FunctionDecl(f) => {
                let r = rl_function(*f, l);
                (SStmt::FunctionDecl(Box::new(r.0)), r.1, r.2)
            },
            SStmt::ClassDecl(c) => {
                let r = rl_class(*c, l);
                (SStmt::ClassDecl(Box::new(r.0)), r.1, r.2)
            },
            _ => (s, false, true),
        }
    }
}

pub open spec fn rl_do_while(s: SStmt, l: Option<Seq<char>>) -> (SStmt, bool, bool)
    decreases s, 1nat,
{
    match s {
        SStmt::DoWhile(b, t) => {
            let rb = rl_stmt(*b, l);
            let rt = rl_expr(t, l);
            (SStmt::DoWhile(Box::new(rb.0), rt.0), rb.1 || rt.1, rb.2 && rt.2)
        },
        _ => (s, false, true),
    }
}

pub open spec fn rl_for_in(s: SStmt, l: Option<Seq<char>>) -> (SStmt, bool, bool)
    decreases s, 1nat,
{
    match s {
        SStmt::ForIn(left, right, body) => {
            let a = rl_for_left(left, l);
            let b = rl_expr(right, l);
            let c = rl_stmt(*body, l);
            (SStmt::ForIn(a.0, b.0, Box::new(c.0)), a.1 || b.1 || c.1, a.2 && b.2 && c.2)
        },
        _ => (s, false, true),
    }
}

pub open spec fn rl_for_of(s: SStmt, l: Option<Seq<char>>) -> (SStmt, bool, bool)
    decreases s, 1nat,
{
    match s {
        SStmt::ForOf(left, right, body, aw) => {
            let a = rl_for_left(left, l);
            let b = rl_expr(right, l);
            let c = rl_stmt(*body, l);
            (SStmt::ForOf(a.0, b.0, Box::new(c.0), aw), a.1 || b.1 || c.1, a.2 && b.2 && c.2)
        },
        _ => (s, false, true),
    }
}

pub open spec fn rl_for(s: SStmt, l: Option<Seq<char>>) -> (SStmt, bool, bool)
    decreases s, 1nat,
{
    match s {
        SStmt::For(init, test, update, body) => {
            let a = rl_for_init(init, l);
            let b = rl_opt_expr(test, l);
            let c = rl_opt_expr(update, l);
            let d = rl_stmt(*body, l);
            (SStmt::For(a.0, b.0, c.0, Box::new(d.0)), a.1 || b.1 || c.1 || d.1, a.2 && b.2 && c.2 && d.2)
        },
        _ => (s, false, true),
    }
}

pub open spec fn rl_if(s: SStmt, l: Option<Seq<char>>) -> (SStmt, bool, bool)
    decreases s, 1nat,
{
    match s {
        SStmt::If(t, c, a) => {
            let rt = rl_expr(t, l);
            let rc = rl_stmt(*c, l);
            let ra = rl_opt_stmt(a, l);
            (SStmt::If(rt.0, Box::new(rc.0), ra.0), rt.1 || rc.1 || ra.1, rt.2 && rc.2 && ra.2)
        },
        _ => (s, false, true),
    }
}

pub open spec fn rl_switch(s: SStmt, l: Option<Seq<char>>) -> (SStmt, bool, bool)
    decreases s, 1nat,
{
    match s {
        SStmt::Switch(d, cases) => {
            let rd = rl_expr(d, l);
            let rc = rl_cases(cases, 0, l);
            (SStmt::Switch(rd.0, rc.0), rd.1 || rc.1, rd.2 && rc.2)
        },
        _ => (s, false, true),
    }
}

pub open spec fn rl_try(s: SStmt, l: Option<Seq<char>>) -> (SStmt, bool, bool)
    decreases s, 1nat,
{
    match s {
        SStmt::Try(b, h, f) => {
            let rb = rl_stmts(b, 0, l);
            let rh = rl_catch(h, l);
            let rf = rl_opt_stmts(f, l);
            (SStmt::Try(rb.0, rh.0, rf.0), rb.1 || rh.1 || rf.1, rb.2 && rh.2 && rf.2)
        },
        _ => (s, false, true),
    }
}

pub open spec fn rl_while(s: SStmt, l: Option<Seq<char>>) -> (SStmt, bool, bool)
    decreases s, 1nat,
{
    match s {
        SStmt::While(t, b) => {
            let rt = rl_expr(t, l);
            let rb = rl_stmt(*b, l);
            (SStmt::While(rt.0, Box::new(rb.0)), rt.1 || rb.1, rt.2 && rb.2)
        },
        _ => (s, false, true),
    }
}

pub open spec fn rl_with(s: SStmt, l: Option<Seq<char>>) -> (SStmt, bool, bool)
    decreases s, 1nat,
{
    match s {
        SStmt::With(o, b) => {
            let ro = rl_expr(o, l);
            let rb = rl_stmt(*b, l);
            (SStmt::With(ro.0, Box::new(rb.0)), ro.1 || rb.1, ro.2 && rb.2)
        },
        _ => (s, false, true),
    }
}

pub open spec fn rl_opt_stmt(s: Option<Box<SStmt>>, l: Option<Seq<char>>) -> (Option<Box<SStmt>>, bool, bool)
    decreases s, 0nat,
{
    match s {
        Some(x) => {
            let r = rl_stmt(*x, l);
            (Some(Box::new(r.0)), r.1, r.2)
        },
        None => (None, false, true),
    }
}

pub open spec fn rl_stmts(b: Seq<SStmt>, i: int, l: Option<Seq<char>>) -> (Seq<SStmt>, bool, bool)
    decreases b, if 0 <= i <= b.len() { (b.len() - i) as nat } else { 0nat },
{
    if i < 0 || i >= b.len() {
        (Seq::empty(), false, true)
    } else {
        let a = rl_stmt(b[i], l);
        let r = rl_stmts(b, i + 1, l);
        (seq![a.0] + r.0, a.1 || r.1, a.2 && r.2)
    }
}

pub open spec fn rl_opt_stmts(b: Option<Seq<SStmt>>, l: Option<Seq<char>>) -> (Option<Seq<SStmt>>, bool, bool)
    decreases b, 0nat,
{
    match b {
        Some(x) => {
            let r = rl_stmts(x, 0, l);
            (Some(r.0), r.1, r.2)
        },
        None => (None, false, true),
    }
}

/// The handler's body is mapped before its parameter.
pub open spec fn rl_catch(h: Option<SCatchClause>, l: Option<Seq<char>>) -> (Option<SCatchClause>, bool, bool)
    decreases h, 0nat,
{
    match h {
        Some(c) => {
            let rb = rl_stmts(c.body, 0, l);
            let rp = rl_opt_pattern(c.param, l);
            (Some(SCatchClause { param: rp.0, body: rb.0 }), rb.1 || rp.1, rb.2 && rp.2)
        },
        None => (None, false, true),
    }
}

pub open spec fn rl_case(c: SSwitchCase, l: Option<Seq<char>>) -> (SSwitchCase, bool, bool)
    decreases c, 0nat,
{
    let t = rl_opt_expr(c.test, l);
    let b = rl_stmts(c.body, 0, l);
    (SSwitchCase { test: t.0, body: b.0 }, t.1 || b.1, t.2 && b.2)
}

pub open spec fn rl_cases(cs: Seq<SSwitchCase>, i: int, l: Option<Seq<char>>) -> (Seq<SSwitchCase>, bool, bool)
    decreases cs, if 0 <= i <= cs.len() { (cs.len() - i) as nat } else { 0nat },
{
    if i < 0 || i >= cs.len() {
        (Seq::empty(), false, true)
    } else {
        let a = rl_case(cs[i], l);
        let r = rl_cases(cs, i + 1, l);
        (seq![a.0] + r.0, a.1 || r.1, a.2 && r.2)
    }
}

pub open spec fn rl_var_decl(d: SVarDecl, l: Option<Seq<char>>) -> (SVarDecl, bool, bool)
    decreases d, 0nat,
{
    let r = rl_declarators(d.decls, 0, l);
    (SVarDecl { kind: d.kind, decls: r.0 }, r.1, r.2)
}

#[verifier::opaque]
pub open spec fn rl_declarator(d: SDeclarator, l: Option<Seq<char>>) -> (SDeclarator, bool, bool)
    decreases d, 0nat,
{
    let p = rl_pattern(d.id, l);
    let e = rl_opt_expr(d.init, l);
    (SDeclarator { id: p.0, init: e.0 }, p.1 || e.1, p.2 && e.2)
}

pub open spec fn rl_declarators(ds: Seq<SDeclarator>, i: int, l: Option<Seq<char>>) -> (Seq<SDeclarator>, bool, bool)
    decreases ds, if 0 <= i <= ds.len() { (ds.len() - i) as nat } else { 0nat },
{
    if i < 0 || i >= ds.len() {
        (Seq::empty(), false, true)
    } else {
        let a = rl_declarator(ds[i], l);
        let r = rl_declarators(ds, i + 1, l);
        (seq![a.0] + r.0, a.1 || r.1, a.2 && r.2)
    }
}

pub open spec fn rl_for_left(left: SForLeft, l: Option<Seq<char>>) -> (SForLeft, bool, bool)
    decreases left, 0nat,
{
    match left {
        SForLeft::VarDecl(d) => {
            let r = rl_var_decl(d, l);
            (SForLeft::VarDecl(r.0), r.1, r.2)
        },
        SForLeft::Target(t) => {
            let r = rl_target(t, l);
            (SForLeft::Target(r.0), r.1, r.2)
        },
    }
}

pub open spec fn rl_for_init(init: Option<SForInit>, l: Option<Seq<char>>) -> (Option<SForInit>, bool, bool)
    decreases init, 0nat,
{
    match init {
        Some(SForInit::Expr(e)) => {
            let r = rl_expr(e, l);
            (Some(SForInit::Expr(r.0)), r.1, r.2)
        },
        Some(SForInit::VarDecl(d)) => {
            let r = rl_var_decl(d, l);
            (Some(SForInit::VarDecl(r.0)), r.1, r.2)
        },
        None => (None, false, true),
    }
}

/// Object-pattern properties and rest elements are not entered.
pub open spec fn rl_pattern(p: SPattern, l: Option<Seq<char>>) -> (SPattern, bool, bool)
    decreases p, 0nat,
{
    match p {
        SPattern::Array(elems, rest) => {
            let r = rl_opt_patterns(elems, 0, l);
            (SPattern::Array(r.0, rest), r.1, r.2)
        },
        SPattern::Assign(left, right) => {
            let a = rl_pattern(*left, l);
            let b = rl_expr(*right, l);
            (SPattern::Assign(Box::new(a.0), Box::new(b.0)), a.1 || b.1, a.2 && b.2)
        },
        _ => (p, false, true),
    }
}

pub open spec fn rl_opt_pattern(p: Option<SPattern>, l: Option<Seq<char>>) -> (Option<SPattern>, bool, bool)
    decreases p, 0nat,
{
    match p {
        Some(x) => {
            let r = rl_pattern(x, l);
            (Some(r.0), r.1, r.2)
        },
        None => (None, false, true),
    }
}

pub open spec fn rl_opt_patterns(ps: Seq<Option<SPattern>>, i: int, l: Option<Seq<char>>) -> (Seq<Option<SPattern>>, bool, bool)
    decreases ps, if 0 <= i <= ps.len() { (ps.len() - i) as nat } else { 0nat },
{
    if i < 0 || i >= ps.len() {
        (Seq::empty(), false, true)
    } else {
        let a = rl_opt_pattern(ps[i], l);
        let r = rl_opt_patterns(ps, i + 1, l);
        (seq![a.0] + r.0, a.1 || r.1, a.2 && r.2)
    }
}

pub open spec fn rl_patterns(ps: Seq<SPattern>, i: int, l: Option<Seq<char>>) -> (Seq<SPattern>, bool, bool)
    decreases ps, if 0 <= i <= ps.len() { (ps.len() - i) as nat } else { 0nat },
{
    if i < 0 || i >= ps.len() {
        (Seq::empty(), false, true)
    } else {
        let a = rl_pattern(ps[i], l);
        let r = rl_patterns(ps, i + 1, l);
        (seq![a.0] + r.0, a.1 || r.1, a.2 && r.2)
    }
}

/// Only the member expressions of an assignment target are entered.
pub open spec fn rl_target(t: SAssignTarget, l: Option<Seq<char>>) -> (SAssignTarget, bool, bool)
    decreases t, 0nat,
{
    match t {
        SAssignTarget::Member(m) => {
            let r = rl_member(m, l);
            (SAssignTarget::Member(r.0), r.1, r.2)
        },
        _ => (t, false, true),
    }
}

pub open spec fn rl_member(m: SMember, l: Option<Seq<char>>) -> (SMember, bool, bool)
    decreases m, 0nat,
{
    match m {
        SMember::Computed(o, p, opt) => {
            let a = rl_expr(o, l);
            let b = rl_expr(p, l);
            (SMember::Computed(a.0, b.0, opt), a.1 || b.1, a.2 && b.2)
        },
        SMember::Static(o, n, opt) => {
            let a = rl_expr(o, l);
            (SMember::Static(a.0, n, opt), a.1, a.2)
        },
        SMember::Private(o, n, opt) => {
            let a = rl_expr(o, l);
            (SMember::Private(a.0, n, opt), a.1, a.2)
        },
    }
}

pub open spec fn rl_function(f: SFunction, l: Option<Seq<char>>) -> (SFunction, bool, bool)
    decreases f, 0nat,
{
    let r = rl_stmts(f.body, 0, l);
    (SFunction { body: r.0, ..f }, r.1, r.2)
}

pub open spec fn rl_class(c: SClass, l: Option<Seq<char>>) -> (SClass, bool, bool)
    decreases c, 0nat,
{
    let s = rl_opt_expr(c.super_class, l);
    let b = rl_class_elems(c.body, 0, l);
    (SClass { id: c.id, super_class: s.0, body: b.0 }, s.1 || b.1, s.2 && b.2)
}

pub open spec fn rl_class_elem(x: SClassElem, l: Option<Seq<char>>) -> (SClassElem, bool, bool)
    decreases x, 0nat,
{
    match x {
            SClassElem::Property { key, value, computed, is_static } => {
                let v = rl_opt_expr(value, l);
                (SClassElem::Property { key, value: v.0, computed, is_static }, v.1, v.2)
            },
            SClassElem::Method { key, kind, value, computed, is_static } => {
                let f = rl_function(value, l);
                (SClassElem::Method { key, kind, value: f.0, computed, is_static }, f.1, f.2)
            },
            SClassElem::Other(h) => (SClassElem::Other(h), false, true),
        }
}

pub open spec fn rl_class_elems(es: Seq<SClassElem>, i: int, l: Option<Seq<char>>) -> (Seq<SClassElem>, bool, bool)
    decreases es, if 0 <= i <= es.len() { (es.len() - i) as nat } else { 0nat },
{
    if i < 0 || i >= es.len() {
        (Seq::empty(), false, true)
    } else {
        let a = rl_class_elem(es[i], l);
        let r = rl_class_elems(es, i + 1, l);
        (seq![a.0] + r.0, a.1 || r.1, a.2 && r.2)
    }
}

pub open spec fn rl_opt_expr(e: Option<SExpr>, l: Option<Seq<char>>) -> (Option<SExpr>, bool, bool)
    decreases e, 0nat,
{
    match e {
        Some(x) => {
            let r = rl_expr(x, l);
            (Some(r.0), r.1, r.2)
        },
        None => (None, false, true),
    }
}

pub open spec fn rl_exprs(es: Seq<SExpr>, i: int, l: Option<Seq<char>>) -> (Seq<SExpr>, bool, bool)
    decreases es, if 0 <= i <= es.len() { (es.len() - i) as nat } else { 0nat },
{
    if i < 0 || i >= es.len() {
        (Seq::empty(), false, true)
    } else {
        let a = rl_expr(es[i], l);
        let r = rl_exprs(es, i + 1, l);
        (seq![a.0] + r.0, a.1 || r.1, a.2 && r.2)
    }
}

pub open spec fn rl_arg(x: SArg, l: Option<Seq<char>>) -> (SArg, bool, bool)
    decreases x, 0nat,
{
    match x {
            SArg::Expr(e) => {
                let r = rl_expr(e, l);
                (SArg::Expr(r.0), r.1, r.2)
            },
            SArg::Spread(e) => {
                let r = rl_expr(e, l);
                (SArg::Spread(r.0), r.1, r.2)
            },
        }
}

pub open spec fn rl_args(args: Seq<SArg>, i: int, l: Option<Seq<char>>) -> (Seq<SArg>, bool, bool)
    decreases args, if 0 <= i <= args.len() { (args.len() - i) as nat } else { 0nat },
{
    if i < 0 || i >= args.len() {
        (Seq::empty(), false, true)
    } else {
        let a = rl_arg(args[i], l);
        let r = rl_args(args, i + 1, l);
        (seq![a.0] + r.0, a.1 || r.1, a.2 && r.2)
    }
}

pub open spec fn rl_array_elem(x: SArrayElem, l: Option<Seq<char>>) -> (SArrayElem, bool, bool)
    decreases x, 0nat,
{
    match x {
            SArrayElem::Expr(e) => {
                let r = rl_expr(e, l);
                (SArrayElem::Expr(r.0), r.1, r.2)
            },
            SArrayElem::Spread(e) => {
                let r = rl_expr(e, l);
                (SArrayElem::Spread(r.0), r.1, r.2)
            },
            SArrayElem::Hole => (SArrayElem::Hole, false, true),
        }
}

pub open spec fn rl_array_elems(es: Seq<SArrayElem>, i: int, l: Option<Seq<char>>) -> (Seq<SArrayElem>, bool, bool)
    decreases es, if 0 <= i <= es.len() { (es.len() - i) as nat } else { 0nat },
{
    if i < 0 || i >= es.len() {
        (Seq::empty(), false, true)
    } else {
        let a = rl_array_elem(es[i], l);
        let r = rl_array_elems(es, i + 1, l);
        (seq![a.0] + r.0, a.1 || r.1, a.2 && r.2)
    }
}

/// Computed-expression keys and values are entered.
pub open spec fn rl_obj_prop(x: SObjProp, l: Option<Seq<char>>) -> (SObjProp, bool, bool)
    decreases x, 0nat,
{
    match x {
        SObjProp::Prop { kind, key, value, method, shorthand, computed } => {
            let k = match key {
                SPropKey::Expr(e) => {
                    let r = rl_expr(*e, l);
                    (SPropKey::Expr(Box::new(r.0)), r.1, r.2)
                },
                _ => (key, false, true),
            };
            let v = rl_expr(value, l);
            (SObjProp::Prop { kind, key: k.0, value: v.0, method, shorthand, computed }, k.1 || v.1, k.2 && v.2)
        },
        SObjProp::Spread(e) => {
            let r = rl_expr(e, l);
            (SObjProp::Spread(r.0), r.1, r.2)
        },
    }
}

pub open spec fn rl_obj_props(ps: Seq<SObjProp>, i: int, l: Option<Seq<char>>) -> (Seq<SObjProp>, bool, bool)
    decreases ps, if 0 <= i <= ps.len() { (ps.len() - i) as nat } else { 0nat },
{
    if i < 0 || i >= ps.len() {
        (Seq::empty(), false, true)
    } else {
        let a = rl_obj_prop(ps[i], l);
        let r = rl_obj_props(ps, i + 1, l);
        (seq![a.0] + r.0, a.1 || r.1, a.2 && r.2)
    }
}

pub open spec fn rl_chain(c: SChainElem, l: Option<Seq<char>>) -> (SChainElem, bool, bool)
    decreases c, 0nat,
{
    match c {
        SChainElem::Call(f, args, opt) => {
            let a = rl_expr(f, l);
            let b = rl_args(args, 0, l);
            (SChainElem::Call(a.0, b.0, opt), a.1 || b.1, a.2 && b.2)
        },
        SChainElem::Computed(o, p, opt) => {
            let a = rl_expr(o, l);
            let b = rl_expr(p, l);
            (SChainElem::Computed(a.0, b.0, opt), a.1 || b.1, a.2 && b.2)
        },
        SChainElem::Static(o, n, opt) => {
            let a = rl_expr(o, l);
            (SChainElem::Static(a.0, n, opt), a.1, a.2)
        },
    }
}

pub open spec fn rl_simple_target(t: SSimpleTarget, l: Option<Seq<char>>) -> (SSimpleTarget, bool, bool)
    decreases t, 0nat,
{
    match t {
        SSimpleTarget::Computed(o, p, opt) => {
            let a = rl_expr(o, l);
            let b = rl_expr(p, l);
            (SSimpleTarget::Computed(a.0, b.0, opt), a.1 || b.1, a.2 && b.2)
        },
        SSimpleTarget::Static(o, n, opt) => {
            let a = rl_expr(o, l);
            (SSimpleTarget::Static(a.0, n, opt), a.1, a.2)
        },
        _ => (t, false, true),
    }
}

/// The expression of an arrow with an expression body is not entered; its
/// parameters are.
pub open spec fn rl_arrow(a: SArrow, l: Option<Seq<char>>) -> (SArrow, bool, bool)
    decreases a, 0nat,
{
    let p = rl_patterns(a.params, 0, l);
    match a.body {
        SArrowBody::Block(b) => {
            let r = rl_stmts(b, 0, l);
            (SArrow { params: p.0, rest: a.rest, body: SArrowBody::Block(r.0), is_async: a.is_async }, p.1 || r.1, p.2 && r.2)
        },
        SArrowBody::Expr(_) => (SArrow { params: p.0, ..a }, p.1, p.2),
    }
}

#[verifier::opaque]
pub open spec fn rl_expr(e: SExpr, l: Option<Seq<char>>) -> (SExpr, bool, bool)
    decreases e, 0nat,
{
    match e {
        SExpr::Array(es) => {
            let r = rl_array_elems(es, 0, l);
            (SExpr::Array(r.0), r.1, r.2)
        },
        SExpr::Object(ps) => {
            let r = rl_obj_props(ps, 0, l);
            (SExpr::Object(r.0), r.1, r.2)
        },
        SExpr::Function(f) => {
            let r = rl_function(*f, l);
            (SExpr::Function(Box::new(r.0)), r.1, r.2)
        },
        SExpr::Arrow(a) => {
            let r = rl_arrow(*a, l);
            (SExpr::Arrow(Box::new(r.0)), r.1, r.2)
        },
        SExpr::Class(c) => {
            let r = rl_class(*c, l);
            (SExpr::Class(Box::new(r.0)), r.1, r.2)
        },
        SExpr::Assign(op, t, r) => {
            let a = rl_target(*t, l);
            let b = rl_expr(*r, l);
            (SExpr::Assign(op, Box::new(a.0), Box::new(b.0)), a.1 || b.1, a.2 && b.2)
        },
        SExpr::Await(x) => {
            let r = rl_expr(*x, l);
            (SExpr::Await(Box::new(r.0)), r.1, r.2)
        },
        SExpr::Binary(op, x, y) => {
            let a = rl_expr(*x, l);
            let b = rl_expr(*y, l);
            (SExpr::Binary(op, Box::new(a.0), Box::new(b.0)), a.1 || b.1, a.2 && b.2)
        },
        SExpr::Logical(op, x, y) => {
            let a = rl_expr(*x, l);
            let b = rl_expr(*y, l);
            (SExpr::Logical(op, Box::new(a.0), Box::new(b.0)), a.1 || b.1, a.2 && b.2)
        },
        SExpr::Unary(op, x) => {
            let r = rl_expr(*x, l);
            (SExpr::Unary(op, Box::new(r.0)), r.1, r.2)
        },
        SExpr::Update(op, p, t) => {
            let r = rl_simple_target(*t, l);
            (SExpr::Update(op, p, Box::new(r.0)), r.1, r.2)
        },
        SExpr::Call(f, args, opt) => {
            let a = rl_expr(*f, l);
            let b = rl_args(args, 0, l);
            (SExpr::Call(Box::new(a.0), b.0, opt), a.1 || b.1, a.2 && b.2)
        },
        SExpr::New(f, args) => {
            let a = rl_expr(*f, l);
            let b = rl_args(args, 0, l);
            (SExpr::New(Box::new(a.0), b.0), a.1 || b.1, a.2 && b.2)
        },
        SExpr::Chain(c) => {
            let r = rl_chain(*c, l);
            (SExpr::Chain(Box::new(r.0)), r.1, r.2)
        },
        SExpr::Member(m) => {
            let r = rl_member(*m, l);
            (SExpr::Member(Box::new(r.0)), r.1, r.2)
        },
        SExpr::Conditional(t, c, a) => {
            let x = rl_expr(*t, l);
            let y = rl_expr(*c, l);
            let z = rl_expr(*a, l);
            (SExpr::Conditional(Box::new(x.0), Box::new(y.0), Box::new(z.0)), x.1 || y.1 || z.1, x.2 && y.2 && z.2)
        },
        SExpr::Sequence(es) => {
            let r = rl_exprs(es, 0, l);
            (SExpr::Sequence(r.0), r.1, r.2)
        },
        SExpr::TaggedTemplate(t, q) => {
            let a = rl_expr(*t, l);
            let b = rl_exprs(q.exprs, 0, l);
            (SExpr::TaggedTemplate(Box::new(a.0), STemplate { quasis: q.quasis, exprs: b.0 }), a.1 || b.1, a.2 && b.2)
        },
        SExpr::Yield(Some(x), d) => {
            let r = rl_expr(*x, l);
            (SExpr::Yield(Some(Box::new(r.0)), d), r.1, r.2)
        },
        SExpr::Paren(x) => {
            let r = rl_expr(*x, l);
            (SExpr::Paren(Box::new(r.0)), r.1, r.2)
        },
        SExpr::Import(s, args) => {
            let r = rl_expr(*s, l);
            (SExpr::Import(Box::new(r.0), args), r.1, r.2)
        },
        _ => (e, false, true),
    }
}

} // verus!
