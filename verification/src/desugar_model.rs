//! The model of the desugaring mapper: what mapping a statement, an
//! expression or any part of the tree with the desugaring visitor gives back,
//! as a function of the input, the rewrite state (counter and loop/label
//! stack, taken by their views) and the budget. It follows the mapper's
//! traversal and uses the exact models of the rewrites (`pv`).

use vstd::prelude::*;
use crate::mapper::{MapError, MapperAction};
use crate::mapper_size::{
    sz_arg, sz_args, sz_array_elem, sz_array_elems, sz_arrow, sz_case, sz_cases, sz_catch, sz_chain,
    sz_class, sz_class_elem, sz_class_elems, sz_declarator, sz_declarators, sz_expr, sz_exprs,
    sz_for_init, sz_for_left, sz_function, sz_member, sz_obj_prop, sz_obj_props, sz_opt_expr,
    sz_opt_pattern, sz_opt_patterns, sz_opt_stmt, sz_opt_stmts, sz_pattern, sz_patterns,
    sz_simple_target, sz_stmt, sz_stmts, sz_target, sz_var_decl,
};
use crate::mapper_state::{ident_name, next_counter, MapperState};
use crate::spec_ast::{
    SArg, SArrayElem, SArrow, SArrowBody, SAssignTarget, SCatchClause, SChainElem, SClass, SClassElem,
    SDeclarator, SExpr, SForInit, SForLeft, SFunction, SMember, SObjProp, SPattern, SPropKey,
    SSimpleTarget, SStmt, SSwitchCase, STemplate, SVarDecl,
};
use crate::mapper_spec::rl_cases;
use crate::transforms::stmt_continue::{continue_ok, continue_slot, is_loop, loop_marker, spec_wrap_loop_body};
use crate::transforms::stmt_do_while::spec_do_while;
use crate::transforms::stmt_finally::{finally_counter, finally_ok, spec_finally};
use crate::transforms::stmt_for_n::spec_for;
use crate::transforms::stmt_for_of::{counter_after_header, for_of_ok, spec_for_of};
use crate::transforms::stmt_switch::{cases_ok, relabel_ok, spec_switch};
use crate::transforms::stmt_var_decl::{block_ok, shape_ok, spec_block_items};

verus! {

/// The rewrite state by its views: the name counter and the loop/label stack
/// (each entry's label and the label generated for it, if any).
pub struct DState {
    pub counter: usize,
    pub targets: Seq<(Seq<char>, Option<Seq<char>>)>,
}

/// The view of an optional string.
pub open spec fn opt_view(o: Option<String>) -> Option<Seq<char>> {
    match o {
        Some(g) => Some(g@),
        None => None,
    }
}

/// The view of the loop/label stack.
pub open spec fn tview(s: Seq<(String, Option<String>)>) -> Seq<(Seq<char>, Option<Seq<char>>)> {
    s.map_values(|e: (String, Option<String>)| (e.0@, opt_view(e.1)))
}

/// The view of a rewrite state.
pub open spec fn dstate(st: MapperState) -> DState {
    DState { counter: st.id_counter, targets: tview(st.continue_targets@) }
}

/// The labels of a viewed stack.
pub open spec fn tlabels(t: Seq<(Seq<char>, Option<Seq<char>>)>) -> Seq<Seq<char>> {
    t.map_values(|e: (Seq<char>, Option<Seq<char>>)| e.0)
}

/// An outcome agrees with a model: the model's success with its value and
/// state, or the model's error.
pub open spec fn tracks<V>(m: Result<(V, DState), MapError>, ok: bool, val: V, err: MapError, t: DState) -> bool {
    match m {
        Ok((v, t1)) => ok && val == v && t == t1,
        Err(e) => !ok && err == e,
    }
}

/// The state with another counter.
pub open spec fn with_counter(t: DState, c: usize) -> DState {
    DState { counter: c, targets: t.targets }
}

/// The before phase of the desugaring visitor (after the stack bookkeeping):
/// a block has its declarations normalised; anything else is given back.
pub open spec fn pv_before(s: SStmt, t: DState) -> Result<((MapperAction, SStmt), DState), MapError> {
    match s {
        SStmt::Block(b) => if shape_ok(b) {
            Ok(((MapperAction::Normal, s), t))
        } else if block_ok(b, 0) {
            let x = spec_block_items(b, 0, t.counter);
            Ok(((if x.2 { MapperAction::Revisit } else { MapperAction::Normal }, SStmt::Block(x.0)), with_counter(t, x.1)))
        } else {
            Err(MapError::Unsupported)
        },
        _ => Ok(((MapperAction::Normal, s), t)),
    }
}

/// The rewrite of a `continue` with label `l` on the state `t`.
pub open spec fn pv_continue(l: Option<Seq<char>>, t: DState) -> Result<((MapperAction, SStmt), DState), MapError> {
    let labels = tlabels(t.targets);
    if !continue_ok(labels, l) {
        Err(MapError::Unsupported)
    } else {
        let slot = continue_slot(labels, l);
        match t.targets[slot].1 {
            Some(g) => Ok(((MapperAction::Revisit, SStmt::Break(Some(g))), t)),
            None => {
                let g = ident_name(t.counter as nat);
                Ok((
                    (MapperAction::Revisit, SStmt::Break(Some(g))),
                    DState { counter: next_counter(t.counter), targets: t.targets.update(slot, (t.targets[slot].0, Some(g))) },
                ))
            },
        }
    }
}

/// The after phase of the desugaring visitor (after the stack bookkeeping),
/// with budget `f`: the rewrites of `do-while`, `for`, `for-of`,
/// `try`-with-`finally`, `continue` and `switch`.
pub open spec fn pv_after(s: SStmt, t: DState, f: u64) -> Result<((MapperAction, SStmt), DState), MapError> {
    let c = t.counter;
    match s {
        SStmt::DoWhile(b, tt) => Ok(((MapperAction::Revisit, spec_do_while(*b, tt, ident_name(c as nat))), with_counter(t, next_counter(c)))),
        SStmt::For(i, tt, u, b) => Ok(((if i is Some { MapperAction::Revisit } else { MapperAction::Normal }, spec_for(i, tt, u, *b)), t)),
        SStmt::ForOf(l, rt, b, aw) => if !for_of_ok(l, aw) {
            Err(MapError::Unsupported)
        } else {
            Ok(((MapperAction::Revisit, spec_for_of(l, rt, *b, c)), with_counter(t, next_counter(next_counter(counter_after_header(l, c))))))
        },
        SStmt::Try(b, h, Some(fb)) => if !finally_ok(b) {
            Err(MapError::Unsupported)
        } else {
            Ok(((MapperAction::Revisit, spec_finally(b, h, fb, c)), with_counter(t, finally_counter(h is Some, c))))
        },
        SStmt::Continue(l) => pv_continue(l, t),
        SStmt::Switch(d, cs) => if f < 3 {
            Err(MapError::OutOfFuel)
        } else if relabel_ok(d, cs, c) && cases_ok(rl_cases(cs, 0, Some(ident_name(c as nat))).0) {
            let x = spec_switch(d, cs, c);
            Ok(((MapperAction::Revisit, x.0), with_counter(t, x.1)))
        } else {
            Err(MapError::Unsupported)
        },
        _ => Ok(((MapperAction::Normal, s), t)),
    }
}

/// A loop whose stack entry carries a generated label has its body wrapped in
/// that label when it is left.
pub open spec fn after_wrap_v(s: SStmt, targets: Seq<(Seq<char>, Option<Seq<char>>)>) -> SStmt {
    if is_loop(s) {
        match targets.last().1 {
            Some(g) => spec_wrap_loop_body(s, g),
            None => s,
        }
    } else {
        s
    }
}

/// The desugaring visitor with budget `f`: the bookkeeping of the loop/label
/// stack, then the before or after phase.
pub open spec fn pv(s: SStmt, before: bool, t: DState, f: u64) -> Result<((MapperAction, SStmt), DState), MapError> {
    if f == 0 {
        Err(MapError::OutOfFuel)
    } else if before {
        let t2 = if is_loop(s) {
            DState { counter: t.counter, targets: t.targets.push((loop_marker(), None)) }
        } else if s is Labeled {
            DState { counter: t.counter, targets: t.targets.push((s->Labeled_0, None)) }
        } else {
            t
        };
        pv_before(s, t2)
    } else if is_loop(s) || s is Labeled {
        if t.targets.len() == 0 {
            Err(MapError::Unsupported)
        } else {
            pv_after(after_wrap_v(s, t.targets), DState { counter: t.counter, targets: t.targets.drop_last() }, (f - 1) as u64)
        }
    } else {
        pv_after(s, t, (f - 1) as u64)
    }
}

/// One visit of the desugaring mapper with budget `f`.
pub open spec fn vis(s: SStmt, before: bool, t: DState, f: u64) -> Result<((MapperAction, SStmt), DState), MapError> {
    if f == 0 {
        Err(MapError::OutOfFuel)
    } else {
        match pv(s, before, t, (f - 1) as u64) {
            Err(e) => Err(e),
            Ok(((a, s2), t2)) => Ok(((if a == MapperAction::Revisit { MapperAction::Revisit } else { MapperAction::Normal }, s2), t2)),
        }
    }
}

/// Mapping a statement: the before visit (a revisit maps its result afresh),
/// the children with one unit less of budget, the after visit (a revisit maps
/// its result again).
#[verifier::opaque]
pub open spec fn ds_stmt(s: SStmt, t: DState, f: u64) -> Result<(SStmt, DState), MapError>
    decreases f, sz_stmt(s), 2nat,
{
    match vis(s, true, t, f) {
        Err(e) => Err(e),
        Ok(((a1, s1), t1)) => if a1 == MapperAction::Revisit {
            if f == 0 { Err(MapError::OutOfFuel) } else { ds_stmt(s1, t1, (f - 1) as u64) }
        } else if f == 0 {
            Err(MapError::OutOfFuel)
        } else {
            match ds_children(s1, t1, (f - 1) as u64) {
                Err(e) => Err(e),
                Ok((s2, t2)) => match vis(s2, false, t2, f) {
                    Err(e) => Err(e),
                    Ok(((a2, s3), t3)) => if a2 == MapperAction::Revisit {
                        ds_stmt(s3, t3, (f - 1) as u64)
                    } else {
                        Ok((s3, t3))
                    },
                },
            }
        },
    }
}

/// Mapping the children of a statement.
#[verifier::opaque]
pub open spec fn ds_children(s: SStmt, t: DState, f: u64) -> Result<(SStmt, DState), MapError>
    decreases f, sz_stmt(s), 1nat,
{
    match s {
        SStmt::Block(b) => match ds_stmts(b, 0, t, f) {
            Err(e) => Err(e),
            Ok((nb, t1)) => Ok((SStmt::Block(nb), t1)),
        },
        SStmt::DoWhile(b, x) => match ds_stmt(*b, t, f) {
            Err(e) => Err(e),
            Ok((nb, t1)) => match ds_expr(x, t1, f) {
                Err(e) => Err(e),
                Ok((nx, t2)) => Ok((SStmt::DoWhile(Box::new(nb), nx), t2)),
            },
        },
        SStmt::Expr(e) => match ds_expr(e, t, f) {
            Err(x) => Err(x),
            Ok((ne, t1)) => Ok((SStmt::Expr(ne), t1)),
        },
        SStmt::ForIn(l, r, b) => match ds_for_left(l, t, f) {
            Err(e) => Err(e),
            Ok((nl, t1)) => match ds_expr(r, t1, f) {
                Err(e) => Err(e),
                Ok((nr, t2)) => match ds_stmt(*b, t2, f) {
                    Err(e) => Err(e),
                    Ok((nb, t3)) => Ok((SStmt::ForIn(nl, nr, Box::new(nb)), t3)),
                },
            },
        },
        SStmt::ForOf(l, r, b, aw) => match ds_for_left(l, t, f) {
            Err(e) => Err(e),
            Ok((nl, t1)) => match ds_expr(r, t1, f) {
                Err(e) => Err(e),
                Ok((nr, t2)) => match ds_stmt(*b, t2, f) {
                    Err(e) => Err(e),
                    Ok((nb, t3)) => Ok((SStmt::ForOf(nl, nr, Box::new(nb), aw), t3)),
                },
            },
        },
        SStmt::For(i, x, u, b) => match ds_for_init(i, t, f) {
            Err(e) => Err(e),
            Ok((ni, t1)) => match ds_opt_expr(x, t1, f) {
                Err(e) => Err(e),
                Ok((nx, t2)) => match ds_opt_expr(u, t2, f) {
                    Err(e) => Err(e),
                    Ok((nu, t3)) => match ds_stmt(*b, t3, f) {
                        Err(e) => Err(e),
                        Ok((nb, t4)) => Ok((SStmt::For(ni, nx, nu, Box::new(nb)), t4)),
                    },
                },
            },
        },
        SStmt::If(x, c, a) => match ds_expr(x, t, f) {
            Err(e) => Err(e),
            Ok((nx, t1)) => match ds_stmt(*c, t1, f) {
                Err(e) => Err(e),
                Ok((nc, t2)) => match ds_opt_stmt(a, t2, f) {
                    Err(e) => Err(e),
                    Ok((na, t3)) => Ok((SStmt::If(nx, Box::new(nc), na), t3)),
                },
            },
        },
        SStmt::Labeled(l, b) => match ds_stmt(*b, t, f) {
            Err(e) => Err(e),
            Ok((nb, t1)) => Ok((SStmt::Labeled(l, Box::new(nb)), t1)),
        },
        SStmt::Return(a) => match ds_opt_expr(a, t, f) {
            Err(e) => Err(e),
            Ok((na, t1)) => Ok((SStmt::Return(na), t1)),
        },
        SStmt::Switch(d, cs) => match ds_expr(d, t, f) {
            Err(e) => Err(e),
            Ok((nd, t1)) => match ds_cases(cs, 0, t1, f) {
                Err(e) => Err(e),
                Ok((ncs, t2)) => Ok((SStmt::Switch(nd, ncs), t2)),
            },
        },
        SStmt::Throw(e) => match ds_expr(e, t, f) {
            Err(x) => Err(x),
            Ok((ne, t1)) => Ok((SStmt::Throw(ne), t1)),
        },
        SStmt::Try(b, h, fin) => match ds_stmts(b, 0, t, f) {
            Err(e) => Err(e),
            Ok((nb, t1)) => match ds_catch(h, t1, f) {
                Err(e) => Err(e),
                Ok((nh, t2)) => match ds_opt_stmts(fin, t2, f) {
                    Err(e) => Err(e),
                    Ok((nf, t3)) => Ok((SStmt::Try(nb, nh, nf), t3)),
                },
            },
        },
        SStmt::While(x, b) => match ds_expr(x, t, f) {
            Err(e) => Err(e),
            Ok((nx, t1)) => match ds_stmt(*b, t1, f) {
                Err(e) => Err(e),
                Ok((nb, t2)) => Ok((SStmt::While(nx, Box::new(nb)), t2)),
            },
        },
        SStmt::With(o, b) => match ds_expr(o, t, f) {
            Err(e) => Err(e),
            Ok((no, t1)) => match ds_stmt(*b, t1, f) {
                Err(e) => Err(e),
                Ok((nb, t2)) => Ok((SStmt::With(no, Box::new(nb)), t2)),
            },
        },
        SStmt::VarDecl(d) => match ds_var_decl(d, t, f) {
            Err(e) => Err(e),
            Ok((nd, t1)) => Ok((SStmt::VarDecl(nd), t1)),
        },
        SStmt::FunctionDecl(x) => match ds_function(*x, t, f) {
            Err(e) => Err(e),
            Ok((nx, t1)) => Ok((SStmt::FunctionDecl(Box::new(nx)), t1)),
        },
        SStmt::ClassDecl(x) => match ds_class(*x, t, f) {
            Err(e) => Err(e),
            Ok((nx, t1)) => Ok((SStmt::ClassDecl(Box::new(nx)), t1)),
        },
        _ => Ok((s, t)),
    }
}

pub open spec fn ds_stmts(b: Seq<SStmt>, i: int, t: DState, f: u64) -> Result<(Seq<SStmt>, DState), MapError>
    decreases f, sz_stmts(b, i), 0nat,
{
    if i < 0 || i >= b.len() {
        Ok((Seq::empty(), t))
    } else {
        match ds_stmt(b[i], t, f) {
            Err(e) => Err(e),
            Ok((a, t1)) => match ds_stmts(b, i + 1, t1, f) {
                Err(e) => Err(e),
                Ok((r, t2)) => Ok((seq![a] + r, t2)),
            },
        }
    }
}

pub open spec fn ds_opt_stmt(a: Option<Box<SStmt>>, t: DState, f: u64) -> Result<(Option<Box<SStmt>>, DState), MapError>
    decreases f, sz_opt_stmt(a), 0nat,
{
    match a {
        Some(x) => match ds_stmt(*x, t, f) {
            Err(e) => Err(e),
            Ok((nx, t1)) => Ok((Some(Box::new(nx)), t1)),
        },
        None => Ok((None, t)),
    }
}

pub open spec fn ds_opt_stmts(b: Option<Seq<SStmt>>, t: DState, f: u64) -> Result<(Option<Seq<SStmt>>, DState), MapError>
    decreases f, sz_opt_stmts(b), 0nat,
{
    match b {
        Some(x) => match ds_stmts(x, 0, t, f) {
            Err(e) => Err(e),
            Ok((nx, t1)) => Ok((Some(nx), t1)),
        },
        None => Ok((None, t)),
    }
}

pub open spec fn ds_catch(h: Option<SCatchClause>, t: DState, f: u64) -> Result<(Option<SCatchClause>, DState), MapError>
    decreases f, sz_catch(h), 0nat,
{
    match h {
        Some(c) => match ds_stmts(c.body, 0, t, f) {
            Err(e) => Err(e),
            Ok((nb, t1)) => match ds_opt_pattern(c.param, t1, f) {
                Err(e) => Err(e),
                Ok((np, t2)) => Ok((Some(SCatchClause { param: np, body: nb }), t2)),
            },
        },
        None => Ok((None, t)),
    }
}

pub open spec fn ds_case(c: SSwitchCase, t: DState, f: u64) -> Result<(SSwitchCase, DState), MapError>
    decreases f, sz_case(c), 0nat,
{
    match ds_opt_expr(c.test, t, f) {
        Err(e) => Err(e),
        Ok((nt, t1)) => match ds_stmts(c.body, 0, t1, f) {
            Err(e) => Err(e),
            Ok((nb, t2)) => Ok((SSwitchCase { test: nt, body: nb }, t2)),
        },
    }
}

pub open spec fn ds_cases(cs: Seq<SSwitchCase>, i: int, t: DState, f: u64) -> Result<(Seq<SSwitchCase>, DState), MapError>
    decreases f, sz_cases(cs, i), 0nat,
{
    if i < 0 || i >= cs.len() {
        Ok((Seq::empty(), t))
    } else {
        match ds_case(cs[i], t, f) {
            Err(e) => Err(e),
            Ok((a, t1)) => match ds_cases(cs, i + 1, t1, f) {
                Err(e) => Err(e),
                Ok((r, t2)) => Ok((seq![a] + r, t2)),
            },
        }
    }
}

pub open spec fn ds_var_decl(d: SVarDecl, t: DState, f: u64) -> Result<(SVarDecl, DState), MapError>
    decreases f, sz_var_decl(d), 0nat,
{
    match ds_declarators(d.decls, 0, t, f) {
        Err(e) => Err(e),
        Ok((nd, t1)) => Ok((SVarDecl { kind: d.kind, decls: nd }, t1)),
    }
}

pub open spec fn ds_declarator(d: SDeclarator, t: DState, f: u64) -> Result<(SDeclarator, DState), MapError>
    decreases f, sz_declarator(d), 0nat,
{
    match ds_pattern(d.id, t, f) {
        Err(e) => Err(e),
        Ok((np, t1)) => match ds_opt_expr(d.init, t1, f) {
            Err(e) => Err(e),
            Ok((ni, t2)) => Ok((SDeclarator { id: np, init: ni }, t2)),
        },
    }
}

pub open spec fn ds_declarators(ds: Seq<SDeclarator>, i: int, t: DState, f: u64) -> Result<(Seq<SDeclarator>, DState), MapError>
    decreases f, sz_declarators(ds, i), 0nat,
{
    if i < 0 || i >= ds.len() {
        Ok((Seq::empty(), t))
    } else {
        match ds_declarator(ds[i], t, f) {
            Err(e) => Err(e),
            Ok((a, t1)) => match ds_declarators(ds, i + 1, t1, f) {
                Err(e) => Err(e),
                Ok((r, t2)) => Ok((seq![a] + r, t2)),
            },
        }
    }
}

pub open spec fn ds_for_left(l: SForLeft, t: DState, f: u64) -> Result<(SForLeft, DState), MapError>
    decreases f, sz_for_left(l), 0nat,
{
    match l {
        SForLeft::VarDecl(d) => match ds_var_decl(d, t, f) {
            Err(e) => Err(e),
            Ok((nd, t1)) => Ok((SForLeft::VarDecl(nd), t1)),
        },
        SForLeft::Target(x) => match ds_target(x, t, f) {
            Err(e) => Err(e),
            Ok((nx, t1)) => Ok((SForLeft::Target(nx), t1)),
        },
    }
}

pub open spec fn ds_for_init(i: Option<SForInit>, t: DState, f: u64) -> Result<(Option<SForInit>, DState), MapError>
    decreases f, sz_for_init(i), 0nat,
{
    match i {
        Some(SForInit::Expr(e)) => match ds_expr(e, t, f) {
            Err(x) => Err(x),
            Ok((ne, t1)) => Ok((Some(SForInit::Expr(ne)), t1)),
        },
        Some(SForInit::VarDecl(d)) => match ds_var_decl(d, t, f) {
            Err(e) => Err(e),
            Ok((nd, t1)) => Ok((Some(SForInit::VarDecl(nd)), t1)),
        },
        None => Ok((None, t)),
    }
}

pub open spec fn ds_pattern(p: SPattern, t: DState, f: u64) -> Result<(SPattern, DState), MapError>
    decreases f, sz_pattern(p), 0nat,
{
    match p {
        SPattern::Array(elems, rest) => match ds_opt_patterns(elems, 0, t, f) {
            Err(e) => Err(e),
            Ok((ne, t1)) => Ok((SPattern::Array(ne, rest), t1)),
        },
        SPattern::Assign(l, r) => match ds_pattern(*l, t, f) {
            Err(e) => Err(e),
            Ok((nl, t1)) => match ds_expr(*r, t1, f) {
                Err(e) => Err(e),
                Ok((nr, t2)) => Ok((SPattern::Assign(Box::new(nl), Box::new(nr)), t2)),
            },
        },
        _ => Ok((p, t)),
    }
}

pub open spec fn ds_opt_pattern(p: Option<SPattern>, t: DState, f: u64) -> Result<(Option<SPattern>, DState), MapError>
    decreases f, sz_opt_pattern(p), 0nat,
{
    match p {
        Some(x) => match ds_pattern(x, t, f) {
            Err(e) => Err(e),
            Ok((nx, t1)) => Ok((Some(nx), t1)),
        },
        None => Ok((None, t)),
    }
}

pub open spec fn ds_opt_patterns(ps: Seq<Option<SPattern>>, i: int, t: DState, f: u64) -> Result<(Seq<Option<SPattern>>, DState), MapError>
    decreases f, sz_opt_patterns(ps, i), 0nat,
{
    if i < 0 || i >= ps.len() {
        Ok((Seq::empty(), t))
    } else {
        match ds_opt_pattern(ps[i], t, f) {
            Err(e) => Err(e),
            Ok((a, t1)) => match ds_opt_patterns(ps, i + 1, t1, f) {
                Err(e) => Err(e),
                Ok((r, t2)) => Ok((seq![a] + r, t2)),
            },
        }
    }
}

pub open spec fn ds_patterns(ps: Seq<SPattern>, i: int, t: DState, f: u64) -> Result<(Seq<SPattern>, DState), MapError>
    decreases f, sz_patterns(ps, i), 0nat,
{
    if i < 0 || i >= ps.len() {
        Ok((Seq::empty(), t))
    } else {
        match ds_pattern(ps[i], t, f) {
            Err(e) => Err(e),
            Ok((a, t1)) => match ds_patterns(ps, i + 1, t1, f) {
                Err(e) => Err(e),
                Ok((r, t2)) => Ok((seq![a] + r, t2)),
            },
        }
    }
}

pub open spec fn ds_target(x: SAssignTarget, t: DState, f: u64) -> Result<(SAssignTarget, DState), MapError>
    decreases f, sz_target(x), 0nat,
{
    match x {
        SAssignTarget::Member(m) => match ds_member(m, t, f) {
            Err(e) => Err(e),
            Ok((nm, t1)) => Ok((SAssignTarget::Member(nm), t1)),
        },
        _ => Ok((x, t)),
    }
}

pub open spec fn ds_member(m: SMember, t: DState, f: u64) -> Result<(SMember, DState), MapError>
    decreases f, sz_member(m), 0nat,
{
    match m {
        SMember::Computed(o, p, opt) => match ds_expr(o, t, f) {
            Err(e) => Err(e),
            Ok((no, t1)) => match ds_expr(p, t1, f) {
                Err(e) => Err(e),
                Ok((np, t2)) => Ok((SMember::Computed(no, np, opt), t2)),
            },
        },
        SMember::Static(o, n, opt) => match ds_expr(o, t, f) {
            Err(e) => Err(e),
            Ok((no, t1)) => Ok((SMember::Static(no, n, opt), t1)),
        },
        SMember::Private(o, n, opt) => match ds_expr(o, t, f) {
            Err(e) => Err(e),
            Ok((no, t1)) => Ok((SMember::Private(no, n, opt), t1)),
        },
    }
}

pub open spec fn ds_function(x: SFunction, t: DState, f: u64) -> Result<(SFunction, DState), MapError>
    decreases f, sz_function(x), 0nat,
{
    match ds_stmts(x.body, 0, t, f) {
        Err(e) => Err(e),
        Ok((nb, t1)) => Ok((SFunction { body: nb, ..x }, t1)),
    }
}

pub open spec fn ds_arrow(a: SArrow, t: DState, f: u64) -> Result<(SArrow, DState), MapError>
    decreases f, sz_arrow(a), 0nat,
{
    match ds_patterns(a.params, 0, t, f) {
        Err(e) => Err(e),
        Ok((np, t1)) => match a.body {
            SArrowBody::Block(b) => match ds_stmts(b, 0, t1, f) {
                Err(e) => Err(e),
                Ok((nb, t2)) => Ok((SArrow { params: np, rest: a.rest, body: SArrowBody::Block(nb), is_async: a.is_async }, t2)),
            },
            SArrowBody::Expr(_) => Ok((SArrow { params: np, ..a }, t1)),
        },
    }
}

pub open spec fn ds_class(c: SClass, t: DState, f: u64) -> Result<(SClass, DState), MapError>
    decreases f, sz_class(c), 0nat,
{
    match ds_opt_expr(c.super_class, t, f) {
        Err(e) => Err(e),
        Ok((ns, t1)) => match ds_class_elems(c.body, 0, t1, f) {
            Err(e) => Err(e),
            Ok((nb, t2)) => Ok((SClass { id: c.id, super_class: ns, body: nb }, t2)),
        },
    }
}

pub open spec fn ds_class_elem(x: SClassElem, t: DState, f: u64) -> Result<(SClassElem, DState), MapError>
    decreases f, sz_class_elem(x), 0nat,
{
    match x {
        SClassElem::Property { key, value, computed, is_static } => match ds_opt_expr(value, t, f) {
            Err(e) => Err(e),
            Ok((nv, t1)) => Ok((SClassElem::Property { key, value: nv, computed, is_static }, t1)),
        },
        SClassElem::Method { key, kind, value, computed, is_static } => match ds_function(value, t, f) {
            Err(e) => Err(e),
            Ok((nv, t1)) => Ok((SClassElem::Method { key, kind, value: nv, computed, is_static }, t1)),
        },
        SClassElem::Other(h) => Ok((x, t)),
    }
}

pub open spec fn ds_class_elems(es: Seq<SClassElem>, i: int, t: DState, f: u64) -> Result<(Seq<SClassElem>, DState), MapError>
    decreases f, sz_class_elems(es, i), 0nat,
{
    if i < 0 || i >= es.len() {
        Ok((Seq::empty(), t))
    } else {
        match ds_class_elem(es[i], t, f) {
            Err(e) => Err(e),
            Ok((a, t1)) => match ds_class_elems(es, i + 1, t1, f) {
                Err(e) => Err(e),
                Ok((r, t2)) => Ok((seq![a] + r, t2)),
            },
        }
    }
}

pub open spec fn ds_opt_expr(e: Option<SExpr>, t: DState, f: u64) -> Result<(Option<SExpr>, DState), MapError>
    decreases f, sz_opt_expr(e), 0nat,
{
    match e {
        Some(x) => match ds_expr(x, t, f) {
            Err(err) => Err(err),
            Ok((nx, t1)) => Ok((Some(nx), t1)),
        },
        None => Ok((None, t)),
    }
}

pub open spec fn ds_exprs(es: Seq<SExpr>, i: int, t: DState, f: u64) -> Result<(Seq<SExpr>, DState), MapError>
    decreases f, sz_exprs(es, i), 0nat,
{
    if i < 0 || i >= es.len() {
        Ok((Seq::empty(), t))
    } else {
        match ds_expr(es[i], t, f) {
            Err(e) => Err(e),
            Ok((a, t1)) => match ds_exprs(es, i + 1, t1, f) {
                Err(e) => Err(e),
                Ok((r, t2)) => Ok((seq![a] + r, t2)),
            },
        }
    }
}

pub open spec fn ds_arg(a: SArg, t: DState, f: u64) -> Result<(SArg, DState), MapError>
    decreases f, sz_arg(a), 0nat,
{
    match a {
        SArg::Expr(e) => match ds_expr(e, t, f) {
            Err(x) => Err(x),
            Ok((ne, t1)) => Ok((SArg::Expr(ne), t1)),
        },
        SArg::Spread(e) => match ds_expr(e, t, f) {
            Err(x) => Err(x),
            Ok((ne, t1)) => Ok((SArg::Spread(ne), t1)),
        },
    }
}

pub open spec fn ds_args(args: Seq<SArg>, i: int, t: DState, f: u64) -> Result<(Seq<SArg>, DState), MapError>
    decreases f, sz_args(args, i), 0nat,
{
    if i < 0 || i >= args.len() {
        Ok((Seq::empty(), t))
    } else {
        match ds_arg(args[i], t, f) {
            Err(e) => Err(e),
            Ok((a, t1)) => match ds_args(args, i + 1, t1, f) {
                Err(e) => Err(e),
                Ok((r, t2)) => Ok((seq![a] + r, t2)),
            },
        }
    }
}

pub open spec fn ds_array_elem(a: SArrayElem, t: DState, f: u64) -> Result<(SArrayElem, DState), MapError>
    decreases f, sz_array_elem(a), 0nat,
{
    match a {
        SArrayElem::Expr(e) => match ds_expr(e, t, f) {
            Err(x) => Err(x),
            Ok((ne, t1)) => Ok((SArrayElem::Expr(ne), t1)),
        },
        SArrayElem::Spread(e) => match ds_expr(e, t, f) {
            Err(x) => Err(x),
            Ok((ne, t1)) => Ok((SArrayElem::Spread(ne), t1)),
        },
        SArrayElem::Hole => Ok((a, t)),
    }
}

pub open spec fn ds_array_elems(es: Seq<SArrayElem>, i: int, t: DState, f: u64) -> Result<(Seq<SArrayElem>, DState), MapError>
    decreases f, sz_array_elems(es, i), 0nat,
{
    if i < 0 || i >= es.len() {
        Ok((Seq::empty(), t))
    } else {
        match ds_array_elem(es[i], t, f) {
            Err(e) => Err(e),
            Ok((a, t1)) => match ds_array_elems(es, i + 1, t1, f) {
                Err(e) => Err(e),
                Ok((r, t2)) => Ok((seq![a] + r, t2)),
            },
        }
    }
}

pub open spec fn ds_obj_prop(p: SObjProp, t: DState, f: u64) -> Result<(SObjProp, DState), MapError>
    decreases f, sz_obj_prop(p), 0nat,
{
    match p {
        SObjProp::Prop { kind, key, value, method, shorthand, computed } => {
            let k = match key {
                SPropKey::Expr(e) => match ds_expr(*e, t, f) {
                    Err(x) => Err(x),
                    Ok((ne, t1)) => Ok((SPropKey::Expr(Box::new(ne)), t1)),
                },
                _ => Ok((key, t)),
            };
            match k {
                Err(e) => Err(e),
                Ok((nk, t1)) => match ds_expr(value, t1, f) {
                    Err(e) => Err(e),
                    Ok((nv, t2)) => Ok((SObjProp::Prop { kind, key: nk, value: nv, method, shorthand, computed }, t2)),
                },
            }
        },
        SObjProp::Spread(e) => match ds_expr(e, t, f) {
            Err(x) => Err(x),
            Ok((ne, t1)) => Ok((SObjProp::Spread(ne), t1)),
        },
    }
}

pub open spec fn ds_obj_props(ps: Seq<SObjProp>, i: int, t: DState, f: u64) -> Result<(Seq<SObjProp>, DState), MapError>
    decreases f, sz_obj_props(ps, i), 0nat,
{
    if i < 0 || i >= ps.len() {
        Ok((Seq::empty(), t))
    } else {
        match ds_obj_prop(ps[i], t, f) {
            Err(e) => Err(e),
            Ok((a, t1)) => match ds_obj_props(ps, i + 1, t1, f) {
                Err(e) => Err(e),
                Ok((r, t2)) => Ok((seq![a] + r, t2)),
            },
        }
    }
}

pub open spec fn ds_chain(c: SChainElem, t: DState, f: u64) -> Result<(SChainElem, DState), MapError>
    decreases f, sz_chain(c), 0nat,
{
    match c {
        SChainElem::Call(x, args, opt) => match ds_expr(x, t, f) {
            Err(e) => Err(e),
            Ok((nx, t1)) => match ds_args(args, 0, t1, f) {
                Err(e) => Err(e),
                Ok((na, t2)) => Ok((SChainElem::Call(nx, na, opt), t2)),
            },
        },
        SChainElem::Computed(o, p, opt) => match ds_expr(o, t, f) {
            Err(e) => Err(e),
            Ok((no, t1)) => match ds_expr(p, t1, f) {
                Err(e) => Err(e),
                Ok((np, t2)) => Ok((SChainElem::Computed(no, np, opt), t2)),
            },
        },
        SChainElem::Static(o, n, opt) => match ds_expr(o, t, f) {
            Err(e) => Err(e),
            Ok((no, t1)) => Ok((SChainElem::Static(no, n, opt), t1)),
        },
    }
}

pub open spec fn ds_simple_target(x: SSimpleTarget, t: DState, f: u64) -> Result<(SSimpleTarget, DState), MapError>
    decreases f, sz_simple_target(x), 0nat,
{
    match x {
        SSimpleTarget::Computed(o, p, opt) => match ds_expr(o, t, f) {
            Err(e) => Err(e),
            Ok((no, t1)) => match ds_expr(p, t1, f) {
                Err(e) => Err(e),
                Ok((np, t2)) => Ok((SSimpleTarget::Computed(no, np, opt), t2)),
            },
        },
        SSimpleTarget::Static(o, n, opt) => match ds_expr(o, t, f) {
            Err(e) => Err(e),
            Ok((no, t1)) => Ok((SSimpleTarget::Static(no, n, opt), t1)),
        },
        _ => Ok((x, t)),
    }
}

/// Mapping an expression: the statements inside it are mapped.
#[verifier::opaque]
pub open spec fn ds_expr(e: SExpr, t: DState, f: u64) -> Result<(SExpr, DState), MapError>
    decreases f, sz_expr(e), 0nat,
{
    match e {
        SExpr::Array(es) => match ds_array_elems(es, 0, t, f) {
            Err(x) => Err(x),
            Ok((n, t1)) => Ok((SExpr::Array(n), t1)),
        },
        SExpr::Object(ps) => match ds_obj_props(ps, 0, t, f) {
            Err(x) => Err(x),
            Ok((n, t1)) => Ok((SExpr::Object(n), t1)),
        },
        SExpr::Function(x) => match ds_function(*x, t, f) {
            Err(err) => Err(err),
            Ok((n, t1)) => Ok((SExpr::Function(Box::new(n)), t1)),
        },
        SExpr::Arrow(x) => match ds_arrow(*x, t, f) {
            Err(err) => Err(err),
            Ok((n, t1)) => Ok((SExpr::Arrow(Box::new(n)), t1)),
        },
        SExpr::Class(x) => match ds_class(*x, t, f) {
            Err(err) => Err(err),
            Ok((n, t1)) => Ok((SExpr::Class(Box::new(n)), t1)),
        },
        SExpr::Assign(op, x, y) => match ds_target(*x, t, f) {
            Err(err) => Err(err),
            Ok((nx, t1)) => match ds_expr(*y, t1, f) {
                Err(err) => Err(err),
                Ok((ny, t2)) => Ok((SExpr::Assign(op, Box::new(nx), Box::new(ny)), t2)),
            },
        },
        SExpr::Await(x) => match ds_expr(*x, t, f) {
            Err(err) => Err(err),
            Ok((n, t1)) => Ok((SExpr::Await(Box::new(n)), t1)),
        },
        SExpr::Binary(op, x, y) => match ds_expr(*x, t, f) {
            Err(err) => Err(err),
            Ok((nx, t1)) => match ds_expr(*y, t1, f) {
                Err(err) => Err(err),
                Ok((ny, t2)) => Ok((SExpr::Binary(op, Box::new(nx), Box::new(ny)), t2)),
            },
        },
        SExpr::Logical(op, x, y) => match ds_expr(*x, t, f) {
            Err(err) => Err(err),
            Ok((nx, t1)) => match ds_expr(*y, t1, f) {
                Err(err) => Err(err),
                Ok((ny, t2)) => Ok((SExpr::Logical(op, Box::new(nx), Box::new(ny)), t2)),
            },
        },
        SExpr::Unary(op, x) => match ds_expr(*x, t, f) {
            Err(err) => Err(err),
            Ok((n, t1)) => Ok((SExpr::Unary(op, Box::new(n)), t1)),
        },
        SExpr::Update(op, p, x) => match ds_simple_target(*x, t, f) {
            Err(err) => Err(err),
            Ok((n, t1)) => Ok((SExpr::Update(op, p, Box::new(n)), t1)),
        },
        SExpr::Call(x, args, opt) => match ds_expr(*x, t, f) {
            Err(err) => Err(err),
            Ok((nx, t1)) => match ds_args(args, 0, t1, f) {
                Err(err) => Err(err),
                Ok((na, t2)) => Ok((SExpr::Call(Box::new(nx), na, opt), t2)),
            },
        },
        SExpr::New(x, args) => match ds_expr(*x, t, f) {
            Err(err) => Err(err),
            Ok((nx, t1)) => match ds_args(args, 0, t1, f) {
                Err(err) => Err(err),
                Ok((na, t2)) => Ok((SExpr::New(Box::new(nx), na), t2)),
            },
        },
        SExpr::Chain(x) => match ds_chain(*x, t, f) {
            Err(err) => Err(err),
            Ok((n, t1)) => Ok((SExpr::Chain(Box::new(n)), t1)),
        },
        SExpr::Member(x) => match ds_member(*x, t, f) {
            Err(err) => Err(err),
            Ok((n, t1)) => Ok((SExpr::Member(Box::new(n)), t1)),
        },
        SExpr::Conditional(x, y, z) => match ds_expr(*x, t, f) {
            Err(err) => Err(err),
            Ok((nx, t1)) => match ds_expr(*y, t1, f) {
                Err(err) => Err(err),
                Ok((ny, t2)) => match ds_expr(*z, t2, f) {
                    Err(err) => Err(err),
                    Ok((nz, t3)) => Ok((SExpr::Conditional(Box::new(nx), Box::new(ny), Box::new(nz)), t3)),
                },
            },
        },
        SExpr::Sequence(es) => match ds_exprs(es, 0, t, f) {
            Err(err) => Err(err),
            Ok((n, t1)) => Ok((SExpr::Sequence(n), t1)),
        },
        SExpr::TaggedTemplate(x, q) => match ds_expr(*x, t, f) {
            Err(err) => Err(err),
            Ok((nx, t1)) => match ds_exprs(q.exprs, 0, t1, f) {
                Err(err) => Err(err),
                Ok((ne, t2)) => Ok((SExpr::TaggedTemplate(Box::new(nx), STemplate { quasis: q.quasis, exprs: ne }), t2)),
            },
        },
        SExpr::Yield(Some(x), d) => match ds_expr(*x, t, f) {
            Err(err) => Err(err),
            Ok((n, t1)) => Ok((SExpr::Yield(Some(Box::new(n)), d), t1)),
        },
        SExpr::Paren(x) => match ds_expr(*x, t, f) {
            Err(err) => Err(err),
            Ok((n, t1)) => Ok((SExpr::Paren(Box::new(n)), t1)),
        },
        SExpr::Import(x, args) => match ds_expr(*x, t, f) {
            Err(err) => Err(err),
            Ok((n, t1)) => Ok((SExpr::Import(Box::new(n), args), t1)),
        },
        _ => Ok((e, t)),
    }
}

/// Mapping a program: its statements are mapped as the body of a block.
pub open spec fn ds_program(b: Seq<SStmt>, t: DState, f: u64) -> Result<(Seq<SStmt>, DState), MapError> {
    match ds_stmt(SStmt::Block(b), t, f) {
        Err(e) => Err(e),
        Ok((s, t1)) => match s {
            SStmt::Block(nb) => Ok((nb, t1)),
            _ => Err(MapError::Unsupported),
        },
    }
}

/// The state a whole program is desugared from: counter 0, no enclosing
/// loops.
pub open spec fn fresh_state() -> DState {
    DState { counter: 0, targets: Seq::empty() }
}

/// What desugaring a program gives back: the desugaring mapper's model from
/// a fresh state with the budget `PROGRAM_FUEL`.
pub open spec fn desugar_program(b: Seq<SStmt>) -> Result<Seq<SStmt>, MapError> {
    match ds_program(b, fresh_state(), crate::program::PROGRAM_FUEL) {
        Err(e) => Err(e),
        Ok((nb, _)) => Ok(nb),
    }
}

/// Law: the loop/label stack is restored around a loop. Entering a loop
/// pushes `#loop` with no generated label and leaves the loop as it is;
/// leaving a loop takes its entry off again, whatever label the entry gained
/// while the body was mapped, so a successful after visit leaves the stack
/// the loop was entered with. A `while` or `for-in` is then given back with
/// its body wrapped in the generated label, if there is one.
pub proof fn lemma_loop_stack_restored(s: SStmt, s2: SStmt, t: DState, c: usize, g: Option<Seq<char>>, f: u64)
    requires
        is_loop(s),
        is_loop(s2),
        f > 0,
    ensures
        pv(s, true, t, f) == Ok::<((MapperAction, SStmt), DState), MapError>(
            ((MapperAction::Normal, s), DState { counter: t.counter, targets: t.targets.push((loop_marker(), None)) }),
        ),
        match pv(s2, false, DState { counter: c, targets: t.targets.push((loop_marker(), g)) }, f) {
            Ok((_, t3)) => t3.targets == t.targets,
            Err(_) => true,
        },
        s2 is While || s2 is ForIn ==> pv(s2, false, DState { counter: c, targets: t.targets.push((loop_marker(), g)) }, f)
            == Ok::<((MapperAction, SStmt), DState), MapError>((
                (MapperAction::Normal, match g {
                    Some(x) => spec_wrap_loop_body(s2, x),
                    None => s2,
                }),
                DState { counter: c, targets: t.targets },
            )),
{
    assert(t.targets.push((loop_marker(), g)).drop_last() =~= t.targets);
}

} // verus!
