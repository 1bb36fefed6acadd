//! `try ... finally` becomes `try ... catch` followed by the finalizer and a
//! dispatch on what ended the protected block: a throw, a return or a break.

use vstd::prelude::*;
use crate::ast::{AssignOp, BinaryOp, CatchClause, Expr, Pattern, Stmt, VarKind};
use crate::mapper::MapperAction;
use crate::mapper_state::{decimal, ident_name, next_counter, MapperState};
use crate::spec_ast::{
    lemma_v_stmts_index, lemma_v_stmts_push, v_catch, v_opt_pattern, v_opt_stmts, v_stmts,
    SAssignTarget, SCatchClause, SExpr, SPattern, SStmt,
};
use crate::transforms::builder::{
    create_assignment_expression_name, create_expression_statement, create_identifier_expression,
    number_literal_wide, decl_stmt, create_variable_declaration_let,
};

verus! {

/// `#looped`: the key of an unlabeled `break`.
pub open spec fn looped() -> Seq<char> {
    seq!['#', 'l', 'o', 'o', 'p', 'e', 'd']
}

/// The character sequences of a list of strings.
pub open spec fn views(s: Seq<String>) -> Seq<Seq<char>> {
    s.map_values(|x: String| x@)
}

/// The key of a `break`: its label, or `#looped` when it has none.
pub open spec fn break_key(label: Option<Seq<char>>) -> Seq<char> {
    match label {
        Some(l) => l,
        None => looped(),
    }
}

/// `targets` with `k` appended unless it is already there.
pub open spec fn add_target(targets: Seq<Seq<char>>, k: Seq<char>) -> Seq<Seq<char>> {
    if targets.contains(k) { targets } else { targets.push(k) }
}

/// The escape analysis of one statement inside the protected block.
/// `local` holds the labels (and `#looped` for each `while`) around the
/// statement inside the block; `targets` the break keys found so far.
/// The result is: whether the statement can leave the block by `return` or
/// by a `break` to a target outside it; the break keys after the statement;
/// and whether the analysis met no statement it does not handle (`continue`,
/// `do-while`, `for-in`, `for-of`, `switch`: the other transforms remove them
/// first).
/// Like the analysis it models, it stops at the first escaping statement of a
/// list, and a `try` counts only when its block escapes and then its handler
/// or finalizer does.
pub open spec fn abrupt_stmt(s: SStmt, local: Seq<Seq<char>>, targets: Seq<Seq<char>>) -> (bool, Seq<Seq<char>>, bool)
    decreases s, 0nat,
{
    match s {
        SStmt::Return(_) => (true, targets, true),
        SStmt::Break(l) => {
            if local.contains(break_key(l)) {
                (false, targets, true)
            } else {
                (true, add_target(targets, break_key(l)), true)
            }
        },
        SStmt::Continue(_) => (false, targets, false),
        SStmt::DoWhile(_, _) => (false, targets, false),
        SStmt::ForIn(_, _, _) => (false, targets, false),
        SStmt::ForOf(_, _, _, _) => (false, targets, false),
        SStmt::Switch(_, _) => (false, targets, false),
        SStmt::Block(b) => abrupt_body(b, 0, local, targets),
        SStmt::If(_, c, a) => {
            let r = abrupt_stmt(*c, local, targets);
            if !r.2 || r.0 {
                r
            } else {
                match a {
                    Some(x) => abrupt_stmt(*x, local, r.1),
                    None => (false, r.1, true),
                }
            }
        },
        SStmt::While(_, b) => abrupt_stmt(*b, local.push(looped()), targets),
        SStmt::For(_, _, _, b) => abrupt_stmt(*b, local, targets),
        SStmt::Try(b, h, f) => {
            let r = abrupt_body(b, 0, local, targets);
            if !r.2 {
                r
            } else if !r.0 {
                (false, r.1, true)
            } else {
                let r2 = match h {
                    Some(c) => abrupt_body(c.body, 0, local, r.1),
                    None => (false, r.1, true),
                };
                if !r2.2 || r2.0 {
                    r2
                } else {
                    match f {
                        Some(fb) => abrupt_body(fb, 0, local, r2.1),
                        None => (false, r2.1, true),
                    }
                }
            }
        },
        SStmt::Labeled(l, b) => abrupt_stmt(*b, local.push(l), targets),
        _ => (false, targets, true),
    }
}

/// The escape analysis of the statements `b[i..]`, stopping at the first
/// escaping one.
pub open spec fn abrupt_body(b: Seq<SStmt>, i: int, local: Seq<Seq<char>>, targets: Seq<Seq<char>>) -> (bool, Seq<Seq<char>>, bool)
    decreases b, if 0 <= i <= b.len() { (b.len() - i) as nat } else { 0nat },
{
    if i < 0 || i >= b.len() {
        (false, targets, true)
    } else {
        let r = abrupt_stmt(b[i], local, targets);
        if !r.2 || r.0 {
            r
        } else {
            abrupt_body(b, i + 1, local, r.1)
        }
    }
}

/// Whether `v` holds a string equal to `s`.
fn contains_str(v: &Vec<String>, s: &String) -> (r: bool)
    ensures
        r == views(v@).contains(s@),
{
    let mut i: usize = 0;
    while i < v.len()
        invariant
            i <= v.len(),
            forall|j: int| 0 <= j < i ==> v@[j]@ != s@,
        decreases v.len() - i,
    {
        if v[i] == *s {
            proof {
                assert(views(v@)[i as int] == s@);
            }
            return true;
        }
        i = i + 1;
    }
    proof {
        if views(v@).contains(s@) {
            let j = choose|j: int| 0 <= j < views(v@).len() && views(v@)[j] == s@;
            assert(v@[j]@ == s@);
        }
    }
    false
}

/// The key of a `break` as a string.
fn break_key_string(label: &Option<String>) -> (k: String)
    ensures
        k@ == break_key(crate::spec_ast::vs_opt(*label)),
{
    proof {
        reveal_strlit("#looped");
    }
    match label {
        Some(l) => l.clone(),
        None => String::from_str("#looped"),
    }
}

/// Runs the escape analysis on one statement (see `abrupt_stmt`): whether
/// it escapes, and whether the analysis met only statements it handles. When
/// it did, the result and the break targets are those of the model.
fn abrupt_escape_analysis_statement(s: &Stmt, local: &mut Vec<String>, targets: &mut Vec<String>) -> (r: (bool, bool))
    ensures
        r.1 == abrupt_stmt(s@, views(old(local)@), views(old(targets)@)).2,
        r.1 ==> r.0 == abrupt_stmt(s@, views(old(local)@), views(old(targets)@)).0,
        r.1 ==> views(final(targets)@) == abrupt_stmt(s@, views(old(local)@), views(old(targets)@)).1,
        final(local)@ == old(local)@,
    decreases s, 0nat,
{
    let ghost l0 = views(local@);
    let ghost t0 = views(targets@);
    match s {
        Stmt::Return(_) => (true, true),
        Stmt::Break(l) => {
            let k = break_key_string(l);
            if contains_str(local, &k) {
                (false, true)
            } else {
                if !contains_str(targets, &k) {
                    targets.push(k);
                    proof {
                        assert(views(targets@) =~= t0.push(k@));
                    }
                }
                (true, true)
            }
        },
        Stmt::Continue(_) | Stmt::DoWhile(_, _) | Stmt::ForIn(_, _, _) | Stmt::ForOf(_, _, _, _) | Stmt::Switch(_, _) => (false, false),
        Stmt::Block(b) => abrupt_escape_analysis_in_block_body(b, local, targets),
        Stmt::If(_, c, a) => {
            let (r, ok) = abrupt_escape_analysis_statement(c, local, targets);
            if !ok || r {
                (r, ok)
            } else {
                match a {
                    Some(x) => abrupt_escape_analysis_statement(x, local, targets),
                    None => (false, true),
                }
            }
        },
        Stmt::While(_, b) => {
            proof {
                reveal_strlit("#looped");
                assert("#looped"@ =~= looped());
            }
            local.push(String::from_str("#looped"));
            proof {
                assert(views(local@) =~= l0.push(looped()));
            }
            let r = abrupt_escape_analysis_statement(b, local, targets);
            let _ = local.pop();
            r
        },
        Stmt::For(_, _, _, b) => abrupt_escape_analysis_statement(b, local, targets),
        Stmt::Try(b, h, f) => {
            let ghost hh = *h;
            proof {
                if hh is Some {
                    let c = hh->0;
                    assert(crate::spec_ast::v_catch(hh) == Some(crate::spec_ast::SCatchClause {
                        param: crate::spec_ast::v_opt_pattern(c.param),
                        body: crate::spec_ast::v_stmts(c.body@),
                    }));
                }
            }
            let (r, ok) = abrupt_escape_analysis_in_block_body(b, local, targets);
            if !ok {
                (false, false)
            } else if !r {
                (false, true)
            } else {
                let (r2, ok2) = match h {
                    Some(c) => abrupt_escape_analysis_in_block_body(&c.body, local, targets),
                    None => (false, true),
                };
                proof {
                    let ghost ff = *f;
                    if ff is Some {
                        assert(crate::spec_ast::v_opt_stmts(ff) == Some(crate::spec_ast::v_stmts(ff->0@)));
                    }
                }
                if !ok2 || r2 {
                    (r2, ok2)
                } else {
                    match f {
                        Some(fb) => abrupt_escape_analysis_in_block_body(fb, local, targets),
                        None => (false, true),
                    }
                }
            }
        },
        Stmt::Labeled(l, b) => {
            local.push(l.clone());
            proof {
                assert(views(local@) =~= l0.push(l@));
            }
            let r = abrupt_escape_analysis_statement(b, local, targets);
            let _ = local.pop();
            r
        },
        _ => (false, true),
    }
}

/// Runs the escape analysis on a statement list, stopping at the first
/// escaping statement (see `abrupt_body`).
fn abrupt_escape_analysis_in_block_body(b: &Vec<Stmt>, local: &mut Vec<String>, targets: &mut Vec<String>) -> (r: (bool, bool))
    ensures
        r.1 == abrupt_body(crate::spec_ast::v_stmts(b@), 0, views(old(local)@), views(old(targets)@)).2,
        r.1 ==> r.0 == abrupt_body(crate::spec_ast::v_stmts(b@), 0, views(old(local)@), views(old(targets)@)).0,
        r.1 ==> views(final(targets)@) == abrupt_body(crate::spec_ast::v_stmts(b@), 0, views(old(local)@), views(old(targets)@)).1,
        final(local)@ == old(local)@,
    decreases b@, 1nat,
{
    let ghost vb = crate::spec_ast::v_stmts(b@);
    let ghost l0 = views(local@);
    let ghost t0 = views(targets@);
    proof {
        crate::spec_ast::lemma_v_stmts_index(b@);
    }
    let mut i: usize = 0;
    while i < b.len()
        invariant
            i <= b.len(),
            vb == crate::spec_ast::v_stmts(b@),
            l0 == views(old(local)@),
            t0 == views(old(targets)@),
            vb.len() == b@.len(),
            forall|j: int| 0 <= j < b@.len() ==> #[trigger] vb[j] == b@[j]@,
            local@ == old(local)@,
            views(local@) == l0,
            abrupt_body(vb, i as int, l0, views(targets@)) == abrupt_body(vb, 0, l0, t0),
        decreases b.len() - i,
    {
        assert(vb[i as int] == b@[i as int]@);
        let ghost ti = views(targets@);
        let (r, ok) = abrupt_escape_analysis_statement(&b[i], local, targets);
        proof {
            let ri = abrupt_stmt(vb[i as int], l0, ti);
            assert(abrupt_body(vb, i as int, l0, ti) == (if !ri.2 || ri.0 {
                ri
            } else {
                abrupt_body(vb, i + 1, l0, ri.1)
            }));
        }
        if !ok {
            return (false, false);
        }
        if r {
            return (true, true);
        }
        i = i + 1;
    }
    (false, true)
}

/// Whether the rewrite of the protected block reaches no `try` with a
/// `finally` or without a `catch` (see `trb_ok`).
fn trb_ok_check(s: &Stmt) -> (r: bool)
    ensures
        r == trb_ok(s@),
    decreases s, 0nat,
{
    match s {
        Stmt::Block(b) => trb_body_ok_check(b),
        Stmt::If(_, x, y) => {
            trb_ok_check(x) && match y {
                Some(z) => trb_ok_check(z),
                None => true,
            }
        },
        Stmt::While(_, b) => trb_ok_check(b),
        Stmt::Try(b, h, f) => {
            let ghost hh = *h;
            let ghost ff = *f;
            proof {
                assert(s@ == SStmt::Try(v_stmts(b@), v_catch(hh), crate::spec_ast::v_opt_stmts(ff)));
                assert(crate::spec_ast::v_opt_stmts(ff) is None <==> ff is None);
                if hh is Some {
                    assert(v_catch(hh) == Some(SCatchClause { param: v_opt_pattern(hh->0.param), body: v_stmts(hh->0.body@) }));
                }
            }
            if f.is_some() {
                return false;
            }
            match h {
                Some(c) => {
                    let r1 = trb_body_ok_check(b);
                    let r2 = trb_body_ok_check(&c.body);
                    r1 && r2
                },
                None => false,
            }
        },
        Stmt::Labeled(_, b) => trb_ok_check(b),
        Stmt::With(_, b) => trb_ok_check(b),
        _ => true,
    }
}

/// `trb_ok_check` for every statement of a list.
fn trb_body_ok_check(b: &Vec<Stmt>) -> (r: bool)
    ensures
        r == trb_body_ok(v_stmts(b@), 0),
    decreases b@, 1nat,
{
    let ghost vb = v_stmts(b@);
    proof {
        lemma_v_stmts_index(b@);
    }
    let mut i: usize = 0;
    while i < b.len()
        invariant
            i <= b.len(),
            vb == v_stmts(b@),
            vb.len() == b@.len(),
            forall|j: int| 0 <= j < b@.len() ==> #[trigger] vb[j] == b@[j]@,
            trb_body_ok(vb, 0) == trb_body_ok(vb, i as int),
        decreases b.len() - i,
    {
        assert(vb[i as int] == b@[i as int]@);
        if !trb_ok_check(&b[i]) {
            return false;
        }
        i = i + 1;
    }
    true
}

/// Whether `transform_finally_statement` accepts this protected block (see
/// `finally_ok`).
pub fn finally_supported(block: &Vec<Stmt>) -> (r: bool)
    ensures
        r == finally_ok(v_stmts(block@)),
{
    let mut local: Vec<String> = Vec::new();
    let mut targets: Vec<String> = Vec::new();
    proof {
        assert(views(local@) =~= Seq::<Seq<char>>::empty());
        assert(views(targets@) =~= Seq::<Seq<char>>::empty());
    }
    let (escapes, ok) = abrupt_escape_analysis_in_block_body(block, &mut local, &mut targets);
    if !ok {
        return false;
    }
    if escapes {
        trb_body_ok_check(block)
    } else {
        true
    }
}

/// `undefined`
pub open spec fn undefined_name() -> Seq<char> {
    seq!['u', 'n', 'd', 'e', 'f', 'i', 'n', 'e', 'd']
}

/// `name = value;`
pub open spec fn set_var(name: Seq<char>, value: SExpr) -> SStmt {
    SStmt::Expr(SExpr::Assign(AssignOp::Assign, Box::new(SAssignTarget::Ident(name)), Box::new(value)))
}

/// `a = n;` for the action number `n`.
pub open spec fn set_action(a: Seq<char>, n: nat) -> SStmt {
    set_var(a, SExpr::Number(decimal(n)))
}

/// The first index at or after `i` where `s` holds `k`, or -1.
pub open spec fn first_index_from(s: Seq<Seq<char>>, k: Seq<char>, i: int) -> int
    decreases if 0 <= i <= s.len() { (s.len() - i) as nat } else { 0nat },
{
    if i < 0 || i >= s.len() {
        -1
    } else if s[i] == k {
        i
    } else {
        first_index_from(s, k, i + 1)
    }
}

/// The targets with `k` blanked out (the empty key, which no `break` has), so
/// that a `break` to a `while` or label inside the protected block stays local
/// while the other targets keep their positions.
pub open spec fn hide_key(t: Seq<Seq<char>>, k: Seq<char>) -> Seq<Seq<char>> {
    t.map_values(|x: Seq<char>| if x == k { Seq::<char>::empty() } else { x })
}

/// The rewrite of one statement of the protected block, with action
/// variable `a`, value variable `u`, block label `lbl` and break targets `t`:
/// `return x;` becomes `{ a = 2; u = x; break lbl; }` (`undefined` for a bare
/// `return`); a `break` whose key is the `i`-th target becomes
/// `{ a = <3 + i>; break lbl; }`, any other `break` is kept; blocks, `if`,
/// `while`, `try`/`catch`, labels and `with` are rewritten inside, where the
/// key of the enclosing `while` (`#looped`) or label is local and is taken
/// out of the targets; everything else is kept.
pub open spec fn spec_trb(s: SStmt, a: Seq<char>, u: Seq<char>, lbl: Seq<char>, t: Seq<Seq<char>>) -> SStmt
    decreases s, 0nat,
{
    match s {
        SStmt::Return(arg) => SStmt::Block(
            seq![
                set_action(a, 2),
                set_var(u, match arg {
                    Some(x) => x,
                    None => SExpr::Ident(undefined_name()),
                }),
                SStmt::Break(Some(lbl)),
            ],
        ),
        SStmt::Break(l) => {
            let i = first_index_from(t, break_key(l), 0);
            if i < 0 {
                s
            } else {
                SStmt::Block(seq![set_action(a, (i + 3) as nat), SStmt::Break(Some(lbl))])
            }
        },
        SStmt::Block(b) => SStmt::Block(spec_trb_body(b, 0, a, u, lbl, t)),
        SStmt::If(c, x, y) => SStmt::If(
            c,
            Box::new(spec_trb(*x, a, u, lbl, t)),
            match y {
                Some(z) => Some(Box::new(spec_trb(*z, a, u, lbl, t))),
                None => None,
            },
        ),
        SStmt::While(c, b) => SStmt::While(c, Box::new(spec_trb(*b, a, u, lbl, hide_key(t, looped())))),
        SStmt::Try(b, h, _) => SStmt::Try(
            spec_trb_body(b, 0, a, u, lbl, t),
            match h {
                Some(c) => Some(SCatchClause { param: c.param, body: spec_trb_body(c.body, 0, a, u, lbl, t) }),
                None => None,
            },
            None,
        ),
        SStmt::Labeled(l, b) => SStmt::Labeled(l, Box::new(spec_trb(*b, a, u, lbl, hide_key(t, l)))),
        SStmt::With(o, b) => SStmt::With(o, Box::new(spec_trb(*b, a, u, lbl, t))),
        _ => s,
    }
}

/// `spec_trb` on each of `b[i..]`.
pub open spec fn spec_trb_body(b: Seq<SStmt>, i: int, a: Seq<char>, u: Seq<char>, lbl: Seq<char>, t: Seq<Seq<char>>) -> Seq<SStmt>
    decreases b, if 0 <= i <= b.len() { (b.len() - i) as nat } else { 0nat },
{
    if i < 0 || i >= b.len() {
        Seq::empty()
    } else {
        seq![spec_trb(b[i], a, u, lbl, t)] + spec_trb_body(b, i + 1, a, u, lbl, t)
    }
}

/// The rewrite reaches no `try` with a `finally` or without a `catch`: the
/// finalizers inside were removed first, innermost first.
pub open spec fn trb_ok(s: SStmt) -> bool
    decreases s, 0nat,
{
    match s {
        SStmt::Block(b) => trb_body_ok(b, 0),
        SStmt::If(_, x, y) => trb_ok(*x) && match y {
            Some(z) => trb_ok(*z),
            None => true,
        },
        SStmt::While(_, b) => trb_ok(*b),
        SStmt::Try(b, h, f) => {
            &&& f is None
            &&& h is Some
            &&& trb_body_ok(b, 0)
            &&& trb_body_ok(h->0.body, 0)
        },
        SStmt::Labeled(_, b) => trb_ok(*b),
        SStmt::With(_, b) => trb_ok(*b),
        _ => true,
    }
}

/// `trb_ok` of each of `b[i..]`.
pub open spec fn trb_body_ok(b: Seq<SStmt>, i: int) -> bool
    decreases b, if 0 <= i <= b.len() { (b.len() - i) as nat } else { 0nat },
{
    if i < 0 || i >= b.len() {
        true
    } else {
        trb_ok(b[i]) && trb_body_ok(b, i + 1)
    }
}

/// One unfolding of `spec_trb` at a `return`.
proof fn lemma_trb_return(x: Option<SExpr>, v: SExpr, a: Seq<char>, u: Seq<char>, lbl: Seq<char>, t: Seq<Seq<char>>)
    requires
        v == match x {
            Some(y) => y,
            None => SExpr::Ident(undefined_name()),
        },
    ensures
        spec_trb(SStmt::Return(x), a, u, lbl, t) == SStmt::Block(seq![set_action(a, 2), set_var(u, v), SStmt::Break(Some(lbl))]),
{
    let r = spec_trb(SStmt::Return(x), a, u, lbl, t);
    assert(r is Block);
    assert(r->Block_0.len() == 3);
    assert(r->Block_0[0] == set_action(a, 2));
    assert(r->Block_0[1] == set_var(u, v));
    assert(r->Block_0[2] == SStmt::Break(Some(lbl)));
    assert(r->Block_0 =~= seq![set_action(a, 2), set_var(u, v), SStmt::Break(Some(lbl))]);
}

/// One unfolding of `spec_trb` at a `break` whose key is the `i`-th target.
proof fn lemma_trb_break(l: Option<Seq<char>>, i: int, a: Seq<char>, u: Seq<char>, lbl: Seq<char>, t: Seq<Seq<char>>)
    requires
        i == first_index_from(t, break_key(l), 0),
        i >= 0,
    ensures
        spec_trb(SStmt::Break(l), a, u, lbl, t) == SStmt::Block(seq![set_action(a, (i + 3) as nat), SStmt::Break(Some(lbl))]),
{
    let r = spec_trb(SStmt::Break(l), a, u, lbl, t);
    assert(r->Block_0 =~= seq![set_action(a, (i + 3) as nat), SStmt::Break(Some(lbl))]);
}

/// The position of `k` in `v`, if any.
fn position_str(v: &Vec<String>, k: &String) -> (r: Option<usize>)
    ensures
        match r {
            Some(i) => i < v.len() && i == first_index_from(views(v@), k@, 0),
            None => first_index_from(views(v@), k@, 0) < 0,
        },
{
    let ghost vs = views(v@);
    let mut i: usize = 0;
    while i < v.len()
        invariant
            i <= v.len(),
            vs == views(v@),
            vs.len() == v.len(),
            first_index_from(vs, k@, 0) == first_index_from(vs, k@, i as int),
        decreases v.len() - i,
    {
        assert(vs[i as int] == v@[i as int]@);
        if v[i] == *k {
            return Some(i);
        }
        i = i + 1;
    }
    None
}

/// `a = n;`
fn set_action_stmt(a: &String, n: u128) -> (s: Stmt)
    ensures
        s@ == set_action(a@, n as nat),
{
    create_expression_statement(create_assignment_expression_name(a.clone(), number_literal_wide(n)))
}

/// `name = value;`
fn set_var_stmt(name: &String, value: Expr) -> (s: Stmt)
    ensures
        s@ == set_var(name@, value@),
{
    create_expression_statement(create_assignment_expression_name(name.clone(), value))
}

/// Three statements as a vector.
fn stmts3(x: Stmt, y: Stmt, z: Stmt) -> (v: Vec<Stmt>)
    ensures
        v_stmts(v@) == seq![x@, y@, z@],
{
    let mut v: Vec<Stmt> = Vec::new();
    let ghost e0 = v@;
    v.push(x);
    proof { lemma_v_stmts_push(e0, x); }
    let ghost e1 = v@;
    v.push(y);
    proof { lemma_v_stmts_push(e1, y); }
    let ghost e2 = v@;
    v.push(z);
    proof {
        lemma_v_stmts_push(e2, z);
        assert(v_stmts(e0) =~= Seq::<SStmt>::empty());
        assert(v_stmts(v@) =~= seq![x@, y@, z@]);
    }
    v
}

/// `hide_key` on a list of strings.
fn hide_key_vec(t: &Vec<String>, k: &String) -> (r: Vec<String>)
    ensures
        views(r@) == hide_key(views(t@), k@),
{
    let mut r: Vec<String> = Vec::new();
    let mut i: usize = 0;
    while i < t.len()
        invariant
            i <= t.len(),
            r@.len() == i,
            forall|j: int| 0 <= j < i ==> #[trigger] r@[j]@ == hide_key(views(t@), k@)[j],
        decreases t.len() - i,
    {
        assert(views(t@)[i as int] == t@[i as int]@);
        if t[i] == *k {
            r.push(String::new());
        } else {
            r.push(t[i].clone());
        }
        i = i + 1;
    }
    assert(views(r@) =~= hide_key(views(t@), k@));
    r
}

/// Rewrites the returns and escaping breaks of one statement of the
/// protected block (see `spec_trb`).
fn transform_return_breaks_recursively(s: Stmt, a: &String, u: &String, lbl: &String, targets: &Vec<String>) -> (r: Stmt)
    requires
        trb_ok(s@),
    ensures
        r@ == spec_trb(s@, a@, u@, lbl@, views(targets@)),
    decreases s, 0nat,
{
    let ghost s0 = s;
    match s {
        Stmt::Return(arg) => {
            proof {
                reveal_strlit("undefined");
                assert("undefined"@ =~= undefined_name());
            }
            let ghost arg0 = arg;
            let value = match arg {
                Some(x) => x,
                None => create_identifier_expression(String::from_str("undefined")),
            };
            assert(value@ == match crate::spec_ast::v_opt_expr(arg0) {
                Some(x) => x,
                None => SExpr::Ident(undefined_name()),
            });
            let ghost vv = value@;
            let s1 = set_action_stmt(a, 2);
            let s2 = set_var_stmt(u, value);
            let s3 = Stmt::Break(Some(lbl.clone()));
            assert(s3@ == SStmt::Break(Some(lbl@)));
            let v = stmts3(s1, s2, s3);
            let r = Stmt::Block(v);
            proof {
                lemma_trb_return(crate::spec_ast::v_opt_expr(arg0), vv, a@, u@, lbl@, views(targets@));
                assert(s0@ == SStmt::Return(crate::spec_ast::v_opt_expr(arg0)));
            }
            r
        },
        Stmt::Break(l) => {
            let k = break_key_string(&l);
            match position_str(targets, &k) {
                None => { let r = Stmt::Break(l); assert(r@ == spec_trb(s0@, a@, u@, lbl@, views(targets@))); r },
                Some(i) => {
                    let act = set_action_stmt(a, i as u128 + 3);
                    let brk = Stmt::Break(Some(lbl.clone()));
                    assert(brk@ == SStmt::Break(Some(lbl@)));
                    let v = crate::transforms::stmt_do_while::stmts2(act, brk);
                    let r = Stmt::Block(v);
                    proof {
                        lemma_trb_break(crate::spec_ast::vs_opt(l), i as int, a@, u@, lbl@, views(targets@));
                        assert(s0@ == SStmt::Break(crate::spec_ast::vs_opt(l)));
                    }
                    r
                },
            }
        },
        Stmt::Block(b) => {
            let nb = transform_return_breaks_recursively_in_block(b, a, u, lbl, targets);
            let r = Stmt::Block(nb); assert(r@ == spec_trb(s0@, a@, u@, lbl@, views(targets@))); r
        },
        Stmt::If(c, x, y) => {
            let nx = transform_return_breaks_recursively(*x, a, u, lbl, targets);
            match y {
                Some(z) => {
                    let nz = transform_return_breaks_recursively(*z, a, u, lbl, targets);
                    let r = Stmt::If(c, Box::new(nx), Some(Box::new(nz))); assert(r@ == spec_trb(s0@, a@, u@, lbl@, views(targets@))); r
                },
                None => { let r = Stmt::If(c, Box::new(nx), None); assert(r@ == spec_trb(s0@, a@, u@, lbl@, views(targets@))); r },
            }
        },
        Stmt::While(c, b) => {
            proof {
                reveal_strlit("#looped");
            }
            let key = String::from_str("#looped");
            assert(key@ =~= looped());
            let inner = hide_key_vec(targets, &key);
            let nb = transform_return_breaks_recursively(*b, a, u, lbl, &inner);
            let r = Stmt::While(c, Box::new(nb)); assert(r@ == spec_trb(s0@, a@, u@, lbl@, views(targets@))); r
        },
        Stmt::Try(b, h, f) => {
            let ghost hh = h;
            let ghost b0 = b;
            let ghost f0 = f;
            assert(s0@ == SStmt::Try(v_stmts(b0@), v_catch(hh), v_opt_stmts(f0)));
            proof {
                assert(v_catch(hh) == Some(SCatchClause { param: v_opt_pattern(hh->0.param), body: v_stmts(hh->0.body@) }));
            }
            let nb = transform_return_breaks_recursively_in_block(b, a, u, lbl, targets);
            match h {
                Some(c) => {
                    let CatchClause { param, body } = c;
                    let ghost cb = body;
                    assert(cb == hh->0.body);
                    let ncb = transform_return_breaks_recursively_in_block(body, a, u, lbl, targets);
                    let ghost pp = param;
                    assert(pp == hh->0.param);
                    let nc = CatchClause { param, body: ncb };
                    proof {
                        assert(v_catch(Some(nc)) == Some(SCatchClause { param: v_opt_pattern(pp), body: v_stmts(ncb@) }));
                    }
                    let r = Stmt::Try(nb, Some(nc), None); assert(r@ == spec_trb(s0@, a@, u@, lbl@, views(targets@))); r
                },
                None => Stmt::Try(nb, None, None),
            }
        },
        Stmt::Labeled(l, b) => {
            let inner = hide_key_vec(targets, &l);
            let nb = transform_return_breaks_recursively(*b, a, u, lbl, &inner);
            let r = Stmt::Labeled(l, Box::new(nb)); assert(r@ == spec_trb(s0@, a@, u@, lbl@, views(targets@))); r
        },
        Stmt::With(o, b) => {
            let nb = transform_return_breaks_recursively(*b, a, u, lbl, targets);
            let r = Stmt::With(o, Box::new(nb)); assert(r@ == spec_trb(s0@, a@, u@, lbl@, views(targets@))); r
        },
        other => other,
    }
}

/// `transform_return_breaks_recursively` on each statement of a list.
fn transform_return_breaks_recursively_in_block(b: Vec<Stmt>, a: &String, u: &String, lbl: &String, targets: &Vec<String>) -> (r: Vec<Stmt>)
    requires
        trb_body_ok(v_stmts(b@), 0),
    ensures
        v_stmts(r@) == spec_trb_body(v_stmts(b@), 0, a@, u@, lbl@, views(targets@)),
    decreases b, 1nat,
{
    let ghost all = b@;
    let ghost vb = v_stmts(b@);
    proof {
        lemma_v_stmts_index(b@);
    }
    let n = b.len();
    let mut out: Vec<Stmt> = Vec::new();
    let mut rest = b;
    let mut i: usize = 0;
    while rest.len() > 0
        invariant
            all == b@,
            all.len() == n,
            vb == v_stmts(all),
            vb.len() == all.len(),
            forall|j: int| 0 <= j < all.len() ==> #[trigger] vb[j] == all[j]@,
            i + rest@.len() == all.len(),
            rest@ == all.subrange(i as int, all.len() as int),
            trb_body_ok(vb, i as int),
            v_stmts(out@) + spec_trb_body(vb, i as int, a@, u@, lbl@, views(targets@))
                == spec_trb_body(vb, 0, a@, u@, lbl@, views(targets@)),
        decreases rest.len(),
    {
        let x = rest.remove(0);
        assert(x == all[i as int]);
        assert(vb[i as int] == x@);
        let ghost o0 = out@;
        let y = transform_return_breaks_recursively(x, a, u, lbl, targets);
        out.push(y);
        proof {
            lemma_v_stmts_push(o0, y);
            let t = spec_trb_body(vb, i + 1, a@, u@, lbl@, views(targets@));
            assert(spec_trb_body(vb, i as int, a@, u@, lbl@, views(targets@)) == seq![y@] + t);
            assert(v_stmts(o0) + (seq![y@] + t) =~= v_stmts(o0).push(y@) + t);
        }
        i = i + 1;
    }
    proof {
        assert(spec_trb_body(vb, i as int, a@, u@, lbl@, views(targets@)) =~= Seq::<SStmt>::empty());
        assert(v_stmts(out@) + Seq::<SStmt>::empty() =~= v_stmts(out@));
    }
    out
}

/// `a === n`
pub open spec fn action_is(a: Seq<char>, n: nat) -> SExpr {
    SExpr::Binary(BinaryOp::StrictEquality, Box::new(SExpr::Ident(a)), Box::new(SExpr::Number(decimal(n))))
}

/// The `break` that resumes the `i`-th escaping break after the finalizer.
pub open spec fn resume_break(k: Seq<char>) -> SStmt {
    SStmt::Break(if k == looped() { None } else { Some(k) })
}

/// `if (a === 3 + i) break <target i>;` for each target.
pub open spec fn break_dispatch(a: Seq<char>, t: Seq<Seq<char>>) -> Seq<SStmt> {
    Seq::new(t.len(), |i: int| SStmt::If(action_is(a, (i + 3) as nat), Box::new(resume_break(t[i])), None))
}

/// The catch body that records a thrown value `e`: `a = 2; u = e;`.
pub open spec fn catch_all(a: Seq<char>, u: Seq<char>, e: Seq<char>) -> Seq<SStmt> {
    seq![set_action(a, 2), set_var(u, SExpr::Ident(e))]
}

/// `e`
pub open spec fn e_name() -> Seq<char> {
    seq!['e']
}

/// The statement that replaces the `try`: `{ let a = 0; let u; lbl: <protected>
/// { finalizer } if (a === 1) throw u; if (a === 2) return u; <break dispatch> }`.
pub open spec fn spec_finally_wrap(
    protected: SStmt,
    finalizer: Seq<SStmt>,
    a: Seq<char>,
    u: Seq<char>,
    lbl: Seq<char>,
    t: Seq<Seq<char>>,
) -> SStmt {
    SStmt::Block(
        seq![
            decl_stmt(VarKind::Let, a, Some(SExpr::Number(decimal(0)))),
            decl_stmt(VarKind::Let, u, None),
            SStmt::Labeled(lbl, Box::new(protected)),
            SStmt::Block(finalizer),
            SStmt::If(action_is(a, 1), Box::new(SStmt::Throw(SExpr::Ident(u))), None),
            SStmt::If(action_is(a, 2), Box::new(SStmt::Return(Some(SExpr::Ident(u)))), None),
        ] + break_dispatch(a, t),
    )
}

/// The rewrite is defined for this protected block: the escape analysis
/// meets no statement it does not handle and, when the block escapes, no
/// `try` inside it still has a `finally` or lacks a `catch`.
pub open spec fn finally_ok(block: Seq<SStmt>) -> bool {
    let r = abrupt_body(block, 0, Seq::empty(), Seq::empty());
    r.2 && (r.0 ==> trb_body_ok(block, 0))
}

/// The model of the rewrite of `try { block } catch? finally { finalizer }`
/// with `c` the counter at the start. The fresh names are, in order, the
/// action variable `a`, the value variable `u`, the label `lbl` and, with a
/// handler, the inner catch variable. Without a handler the protected
/// statement is `try { block' } catch (e) { a = 2; u = e; }`; with one it is
/// `try { block' } catch (param) { try { handler } catch (cv) { a = 2; u = cv; } }`,
/// where `block'` is the block with its returns and escaping breaks
/// rewritten (see `spec_trb`) when it has any.
pub open spec fn spec_finally(block: Seq<SStmt>, handler: Option<SCatchClause>, finalizer: Seq<SStmt>, c: usize) -> SStmt {
    let r = abrupt_body(block, 0, Seq::empty(), Seq::empty());
    let c1 = next_counter(c);
    let c2 = next_counter(c1);
    let a = ident_name(c as nat);
    let u = ident_name(c1 as nat);
    let lbl = ident_name(c2 as nat);
    let body = if r.0 { spec_trb_body(block, 0, a, u, lbl, r.1) } else { block };
    let protected = match handler {
        None => SStmt::Try(
            body,
            Some(SCatchClause { param: Some(SPattern::Ident(e_name())), body: catch_all(a, u, e_name()) }),
            None,
        ),
        Some(h) => {
            let cv = ident_name(next_counter(c2) as nat);
            SStmt::Try(
                body,
                Some(
                    SCatchClause {
                        param: h.param,
                        body: seq![
                            SStmt::Try(
                                h.body,
                                Some(SCatchClause { param: Some(SPattern::Ident(cv)), body: catch_all(a, u, cv) }),
                                None,
                            ),
                        ],
                    },
                ),
                None,
            )
        },
    };
    spec_finally_wrap(protected, finalizer, a, u, lbl, r.1)
}

/// The counter after the rewrite: three names, four with a handler.
pub open spec fn finally_counter(has_handler: bool, c: usize) -> usize {
    let c3 = next_counter(next_counter(next_counter(c)));
    if has_handler { next_counter(c3) } else { c3 }
}

/// `a === n`
fn action_is_expr(a: &String, n: u128) -> (e: Expr)
    ensures
        e@ == action_is(a@, n as nat),
{
    crate::transforms::builder::create_binary_expression(
        BinaryOp::StrictEquality,
        create_identifier_expression(a.clone()),
        number_literal_wide(n),
    )
}

/// `if (a === 3 + i) break <k>;`
fn dispatch_if(a: &String, k: &String, i: usize) -> (s: Stmt)
    ensures
        s@ == SStmt::If(action_is(a@, (i + 3) as nat), Box::new(resume_break(k@)), None),
{
    proof {
        reveal_strlit("#looped");
        assert("#looped"@ =~= looped());
    }
    let is_looped = *k == String::from_str("#looped");
    let brk = if is_looped { Stmt::Break(None) } else { Stmt::Break(Some(k.clone())) };
    assert(brk@ == resume_break(k@));
    let test = action_is_expr(a, i as u128 + 3);
    let r = Stmt::If(test, Box::new(brk), None);
    assert(r@ == SStmt::If(test@, Box::new(brk@), None));
    r
}

/// `a = 2; u = e;`
fn catch_all_stmts(a: &String, u: &String, e: &String) -> (v: Vec<Stmt>)
    ensures
        v_stmts(v@) == catch_all(a@, u@, e@),
{
    let s1 = set_action_stmt(a, 2);
    let s2 = set_var_stmt(u, create_identifier_expression(e.clone()));
    let v = crate::transforms::stmt_do_while::stmts2(s1, s2);
    assert(v_stmts(v@) =~= catch_all(a@, u@, e@));
    v
}

/// The statements of the replacement (see `spec_finally_wrap`).
fn finally_wrap(
    protected: Stmt,
    finalizer: Vec<Stmt>,
    a: &String,
    u: &String,
    lbl: &String,
    targets: &Vec<String>,
) -> (s: Stmt)
    ensures
        s@ == spec_finally_wrap(protected@, v_stmts(finalizer@), a@, u@, lbl@, views(targets@)),
{
    let ghost pv = protected@;
    let ghost fv = v_stmts(finalizer@);
    let s1 = create_variable_declaration_let(a.clone(), Some(number_literal_wide(0)));
    let s2 = create_variable_declaration_let(u.clone(), None);
    let s3 = Stmt::Labeled(lbl.clone(), Box::new(protected));
    let s4 = Stmt::Block(finalizer);
    let t5 = action_is_expr(a, 1);
    let th = Stmt::Throw(create_identifier_expression(u.clone()));
    assert(th@ == SStmt::Throw(SExpr::Ident(u@)));
    let s5 = Stmt::If(t5, Box::new(th), None);
    assert(s5@ == SStmt::If(t5@, Box::new(th@), None));
    let t6 = action_is_expr(a, 2);
    let ue = create_identifier_expression(u.clone());
    let ghost uev = ue;
    let rt = Stmt::Return(Some(ue));
    assert(crate::spec_ast::v_opt_expr(Some(uev)) == Some(SExpr::Ident(u@)));
    assert(rt@ == SStmt::Return(Some(SExpr::Ident(u@))));
    let s6 = Stmt::If(t6, Box::new(rt), None);
    assert(s6@ == SStmt::If(t6@, Box::new(rt@), None));
    let ghost head = seq![s1@, s2@, s3@, s4@, s5@, s6@];
    assert(s3@ == SStmt::Labeled(lbl@, Box::new(pv)));
    assert(s4@ == SStmt::Block(fv));
    assert(s5@ == SStmt::If(action_is(a@, 1), Box::new(SStmt::Throw(SExpr::Ident(u@))), None));
    assert(s6@ == SStmt::If(action_is(a@, 2), Box::new(SStmt::Return(Some(SExpr::Ident(u@)))), None));
    let mut out = stmts3(s1, s2, s3);
    let ghost o1 = out@;
    out.push(s4);
    proof { lemma_v_stmts_push(o1, s4); }
    let ghost o2 = out@;
    out.push(s5);
    proof { lemma_v_stmts_push(o2, s5); }
    let ghost o3 = out@;
    out.push(s6);
    proof {
        lemma_v_stmts_push(o3, s6);
        assert(v_stmts(out@) =~= head);
    }
    let ghost t = views(targets@);
    let mut i: usize = 0;
    while i < targets.len()
        invariant
            i <= targets.len(),
            t == views(targets@),
            t.len() == targets.len(),
            v_stmts(out@) == head + break_dispatch(a@, t).take(i as int),
        decreases targets.len() - i,
    {
        let d = dispatch_if(a, &targets[i], i);
        let ghost o = out@;
        out.push(d);
        proof {
            lemma_v_stmts_push(o, d);
            assert(t[i as int] == targets@[i as int]@);
            assert(break_dispatch(a@, t).take(i + 1) =~= break_dispatch(a@, t).take(i as int).push(d@));
            assert(head + break_dispatch(a@, t).take(i + 1) =~= (head + break_dispatch(a@, t).take(i as int)).push(d@));
        }
        i = i + 1;
    }
    proof {
        assert(break_dispatch(a@, t).take(i as int) =~= break_dispatch(a@, t));
        assert(head =~= seq![
            decl_stmt(VarKind::Let, a@, Some(SExpr::Number(decimal(0)))),
            decl_stmt(VarKind::Let, u@, None),
            SStmt::Labeled(lbl@, Box::new(pv)),
            SStmt::Block(fv),
            SStmt::If(action_is(a@, 1), Box::new(SStmt::Throw(SExpr::Ident(u@))), None),
            SStmt::If(action_is(a@, 2), Box::new(SStmt::Return(Some(SExpr::Ident(u@)))), None),
        ]);
    }
    Stmt::Block(out)
}

/// The protected block: rewritten (see `spec_trb`) when it escapes,
/// otherwise unchanged.
fn protected_body(block: Vec<Stmt>, escapes: bool, a: &String, u: &String, lbl: &String, targets: &Vec<String>) -> (r: Vec<Stmt>)
    requires
        escapes ==> trb_body_ok(v_stmts(block@), 0),
    ensures
        v_stmts(r@) == if escapes {
            spec_trb_body(v_stmts(block@), 0, a@, u@, lbl@, views(targets@))
        } else {
            v_stmts(block@)
        },
{
    if escapes {
        transform_return_breaks_recursively_in_block(block, a, u, lbl, targets)
    } else {
        block
    }
}

/// Rewrites a `try` statement that has a `finally` into one without (see
/// `spec_finally`) and asks for the result to be visited again; a `try`
/// without `finally` is returned as it is.
pub fn transform_finally_statement(
    block: Vec<Stmt>,
    handler: Option<CatchClause>,
    finalizer: Option<Vec<Stmt>>,
    state: &mut MapperState,
) -> (r: (MapperAction, Stmt))
    requires
        finalizer is Some ==> finally_ok(v_stmts(block@)),
    ensures
        final(state).continue_targets@ == old(state).continue_targets@,
        match finalizer {
            None => {
                &&& r.0 == MapperAction::Normal
                &&& r.1@ == SStmt::Try(v_stmts(block@), v_catch(handler), None)
                &&& final(state).id_counter == old(state).id_counter
            },
            Some(f) => {
                &&& r.0 == MapperAction::Revisit
                &&& r.1@ == spec_finally(v_stmts(block@), v_catch(handler), v_stmts(f@), old(state).id_counter)
                &&& final(state).id_counter == finally_counter(handler is Some, old(state).id_counter)
            },
        },
{
    let ghost c = state.id_counter;
    let ghost vb = v_stmts(block@);
    let ghost hv = v_catch(handler);
    assert(v_opt_stmts(None::<Vec<Stmt>>) == None::<Seq<SStmt>>);
    let fin = match finalizer {
        None => {
            let r = Stmt::Try(block, handler, None);
            assert(r@ == SStmt::Try(vb, hv, None));
            return (MapperAction::Normal, r);
        },
        Some(f) => f,
    };
    let mut local: Vec<String> = Vec::new();
    let mut targets: Vec<String> = Vec::new();
    proof {
        assert(views(local@) =~= Seq::<Seq<char>>::empty());
        assert(views(targets@) =~= Seq::<Seq<char>>::empty());
    }
    let (escapes, _) = abrupt_escape_analysis_in_block_body(&block, &mut local, &mut targets);
    let action_var = state.next_ident_name();
    let use_var = state.next_ident_name();
    let new_try_label = state.next_ident_name();
    let body = protected_body(block, escapes, &action_var, &use_var, &new_try_label, &targets);
    let ghost bodyv = v_stmts(body@);
    let protected = match handler {
        None => {
            proof {
                reveal_strlit("e");
                assert("e"@ =~= e_name());
            }
            let e = String::from_str("e");
            let cb = catch_all_stmts(&action_var, &use_var, &e);
            let param = crate::transforms::builder::create_binding_pattern(e);
            let ghost pv = param;
            let cc = CatchClause { param: Some(param), body: cb };
            proof {
                assert(v_catch(Some(cc)) == Some(SCatchClause { param: Some(SPattern::Ident(e_name())), body: v_stmts(cb@) }));
            }
            let r = Stmt::Try(body, Some(cc), None);
            assert(r@ == SStmt::Try(bodyv, v_catch(Some(cc)), None));
            r
        },
        Some(h) => {
            let CatchClause { param, body: hbody } = h;
            let ghost hb = hbody;
            let ghost hp = param;
            assert(hv == Some(SCatchClause { param: crate::spec_ast::v_opt_pattern(hp), body: v_stmts(hb@) }));
            let catch_var = state.next_ident_name();
            let cb = catch_all_stmts(&action_var, &use_var, &catch_var);
            let ghost cvv = catch_var@;
            let inner_cc = CatchClause { param: Some(Pattern::Ident(catch_var)), body: cb };
            proof {
                assert(v_catch(Some(inner_cc)) == Some(SCatchClause { param: Some(SPattern::Ident(cvv)), body: v_stmts(cb@) }));
            }
            let inner = Stmt::Try(hbody, Some(inner_cc), None);
            assert(inner@ == SStmt::Try(v_stmts(hb@), v_catch(Some(inner_cc)), None));
            let mut ib: Vec<Stmt> = Vec::new();
            ib.push(inner);
            proof {
                lemma_v_stmts_push(Seq::<Stmt>::empty(), inner);
                assert(Seq::<Stmt>::empty().push(inner) =~= ib@);
                assert(v_stmts(Seq::<Stmt>::empty()) =~= Seq::<SStmt>::empty());
                assert(v_stmts(ib@) =~= seq![inner@]);
            }
            let outer_cc = CatchClause { param, body: ib };
            proof {
                assert(v_catch(Some(outer_cc)) == Some(SCatchClause { param: crate::spec_ast::v_opt_pattern(hp), body: v_stmts(ib@) }));
            }
            let r = Stmt::Try(body, Some(outer_cc), None);
            assert(r@ == SStmt::Try(bodyv, v_catch(Some(outer_cc)), None));
            r
        },
    };
    let out = finally_wrap(protected, fin, &action_var, &use_var, &new_try_label, &targets);
    (MapperAction::Revisit, out)
}

} // verus!
