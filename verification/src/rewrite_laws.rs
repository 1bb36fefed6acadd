//! Laws on what the rewrites do, stated by the place and the meaning of the
//! statements they produce rather than by their models' definitions.

use vstd::prelude::*;
use crate::ast::{AssignOp, BinaryOp, VarKind};
use crate::mapper_spec::rl_cases;
use crate::mapper_state::{decimal, ident_name, lemma_decimal_injective};
use crate::spec_ast::{SAssignTarget, SExpr, SForInit, SForLeft, SMember, SPattern, SStmt, SSwitchCase};
use crate::transforms::stmt_finally::spec_finally;
use crate::transforms::stmt_for_n::spec_for;
use crate::transforms::stmt_for_of::{for_of_ok, spec_for_of};
use crate::transforms::stmt_switch::spec_switch;
use crate::transforms::var_pattern::{spec_nested, spec_prop_value};

verus! {

/// The statements of a block (none for any other statement).
pub open spec fn block_items(s: SStmt) -> Seq<SStmt> {
    match s {
        SStmt::Block(b) => b,
        _ => Seq::empty(),
    }
}

/// The body of a labeled statement, or the statement itself.
pub open spec fn unlabel(s: SStmt) -> SStmt {
    match s {
        SStmt::Labeled(_, b) => *b,
        _ => s,
    }
}

/// The label of a labeled statement.
pub open spec fn label_of(s: SStmt) -> Seq<char> {
    match s {
        SStmt::Labeled(l, _) => l,
        _ => Seq::empty(),
    }
}

/// The name declared by a one-declarator declaration of a name.
pub open spec fn declared_name(s: SStmt) -> Seq<char> {
    match s {
        SStmt::VarDecl(d) => match d.decls[0].id {
            SPattern::Ident(n) => n,
            _ => Seq::empty(),
        },
        _ => Seq::empty(),
    }
}

/// `undefined`
pub open spec fn undefined_ident() -> SExpr {
    SExpr::Ident(seq!['u', 'n', 'd', 'e', 'f', 'i', 'n', 'e', 'd'])
}

/// `t` tests whether `n` is strictly equal to `undefined` (in either order).
pub open spec fn tests_undefined(t: SExpr, n: Seq<char>) -> bool {
    ||| t == SExpr::Binary(BinaryOp::StrictEquality, Box::new(SExpr::Ident(n)), Box::new(undefined_ident()))
    ||| t == SExpr::Binary(BinaryOp::StrictEquality, Box::new(undefined_ident()), Box::new(SExpr::Ident(n)))
}

/// `s` is the statement `n = d;`.
pub open spec fn assigns(s: SStmt, n: Seq<char>, d: SExpr) -> bool {
    s == SStmt::Expr(SExpr::Assign(AssignOp::Assign, Box::new(SAssignTarget::Ident(n)), Box::new(d)))
}

/// `s` is `if (<n is undefined>) n = d;` with no `else`.
pub open spec fn defaults_when_undefined(s: SStmt, n: Seq<char>, d: SExpr) -> bool {
    match s {
        SStmt::If(t, th, el) => tests_undefined(t, n) && assigns(*th, n, d) && el is None,
        _ => false,
    }
}

/// Law: a property pattern with a default, `{key: n = d}`, binds `n` to the
/// property read and then assigns the default only when that value is
/// strictly equal to `undefined`: a present value is kept, a missing one
/// gets the default.
pub proof fn law_property_default_only_when_undefined(kind: VarKind, n: Seq<char>, d: SExpr, access: SExpr, rhs: Seq<char>, c: usize)
    ensures
        ({
            let out = spec_prop_value(kind, SPattern::Assign(Box::new(SPattern::Ident(n)), Box::new(d)), access, rhs, c).0;
            &&& out.len() == 2
            &&& declared_name(out[0]) == n
            &&& out[0] matches SStmt::VarDecl(vd) && vd.decls.len() == 1 && vd.decls[0].init == Some(access)
            &&& defaults_when_undefined(out[1], n, d)
        }),
{
}

/// Law: a property `{k: n}` or `{k: n = d}` with a plain key reads the
/// property named by its key `k` (not by the name it binds).
pub proof fn law_property_reads_its_key(kind: VarKind, k: Seq<char>, value: SPattern, rhs: Seq<char>, c: usize)
    requires
        match value {
            SPattern::Ident(_) => true,
            SPattern::Assign(l, _) => *l is Ident,
            _ => false,
        },
    ensures
        ({
            let p = crate::spec_ast::SBindingProp { key: crate::spec_ast::SPropKey::Ident(k), value, shorthand: false, computed: false };
            let name = crate::transforms::var_pattern::key_name(p.key, c).0;
            let out = crate::transforms::var_pattern::spec_obj_prop(kind, p, name, rhs, c).0;
            &&& out.len() >= 1
            &&& out[0] matches SStmt::VarDecl(vd) && vd.decls.len() == 1
                && vd.decls[0].init == Some(SExpr::Member(Box::new(SMember::Static(SExpr::Ident(rhs), k, false))))
        }),
{
}

/// `s` declares `n` from `rhs[i]`: the element of `rhs` at the index `i`.
pub open spec fn declares_element(s: SStmt, n: Seq<char>, rhs: Seq<char>, i: nat) -> bool {
    match s {
        SStmt::VarDecl(vd) => {
            &&& vd.decls.len() == 1
            &&& vd.decls[0].id == SPattern::Ident(n)
            &&& match vd.decls[0].init {
                Some(SExpr::Member(m)) => match *m {
                    SMember::Computed(SExpr::Ident(r), SExpr::Number(k), false) => {
                        &&& r == rhs
                        &&& exists|x: nat| decimal(x) == k
                        &&& lit_value(k) == i
                    },
                    _ => false,
                },
                _ => false,
            }
        },
        _ => false,
    }
}

proof fn lemma_elems_by_index(kind: VarKind, elems: Seq<Option<SPattern>>, rhs: Seq<char>, i: int, c: usize)
    requires
        0 <= i <= elems.len(),
        forall|j: int| 0 <= j < elems.len() ==> (#[trigger] elems[j]) matches Some(SPattern::Ident(_)),
    ensures
        ({
            let out = crate::transforms::var_pattern::spec_arr_elems(kind, elems, rhs, i, c).0;
            &&& out.len() == elems.len() - i
            &&& forall|j: int| i <= j < elems.len() ==> #[trigger] declares_element(out[j - i], elems[j]->0->Ident_0, rhs, j as nat)
        }),
    decreases elems.len() - i,
{
    if i < elems.len() {
        lemma_elems_by_index(kind, elems, rhs, i + 1, c);
        let k = decimal(i as nat);
        assert(exists|x: nat| decimal(x) == k);
        lemma_decimal_injective(lit_value(k), i as nat);
        let out = crate::transforms::var_pattern::spec_arr_elems(kind, elems, rhs, i, c).0;
        let head = crate::transforms::var_pattern::spec_arr_elem(kind, elems[i], i as nat, rhs, c);
        let tail = crate::transforms::var_pattern::spec_arr_elems(kind, elems, rhs, i + 1, head.1).0;
        assert(out == head.0 + tail);
        assert forall|j: int| i <= j < elems.len() implies #[trigger] declares_element(out[j - i], elems[j]->0->Ident_0, rhs, j as nat) by {
            if j > i {
                assert(out[j - i] == tail[j - (i + 1)]);
            }
        }
    }
}

/// Law: an array pattern of names `[n0, n1, ...]` declares each name, in
/// order, from the element of the value at the name's own position.
pub proof fn law_array_names_read_their_positions(kind: VarKind, elems: Seq<Option<SPattern>>, rhs: Seq<char>, c: usize)
    requires
        forall|j: int| 0 <= j < elems.len() ==> (#[trigger] elems[j]) matches Some(SPattern::Ident(_)),
    ensures
        ({
            let out = crate::transforms::var_pattern::spec_arr_elems(kind, elems, rhs, 0, c).0;
            &&& out.len() == elems.len()
            &&& forall|j: int| 0 <= j < elems.len() ==> #[trigger] declares_element(out[j], elems[j]->0->Ident_0, rhs, j as nat)
        }),
{
    lemma_elems_by_index(kind, elems, rhs, 0, c);
    let out = crate::transforms::var_pattern::spec_arr_elems(kind, elems, rhs, 0, c).0;
    assert forall|j: int| 0 <= j < elems.len() implies #[trigger] declares_element(out[j], elems[j]->0->Ident_0, rhs, j as nat) by {
        assert(out[j - 0] == out[j]);
    }
}

/// Law: a nested pattern with a default (`[p = d]`, `{key: p = d}`) reads
/// the value into a fresh name and assigns the default to it only when the
/// value is strictly equal to `undefined`, before the nested pattern is
/// bound from it.
pub proof fn law_nested_default_only_when_undefined(left: SPattern, d: SExpr, access: SExpr, c: usize)
    ensures
        ({
            let out = spec_nested(left, Some(d), access, c).0;
            let tmp = declared_name(out[0]);
            &&& out.len() >= 2
            &&& out[0] matches SStmt::VarDecl(vd) && vd.decls.len() == 1 && vd.decls[0].init == Some(access)
            &&& defaults_when_undefined(out[1], tmp, d)
        }),
{
}

/// The number a numeric literal stands for.
pub open spec fn lit_value(k: Seq<char>) -> nat {
    choose|m: nat| decimal(m) == k
}

/// Whether the comparison `cond` of the name `o` with a number literal (in
/// either order) holds when `o` has the value `v`.
pub open spec fn guard_admits(cond: SExpr, o: Seq<char>, v: nat) -> bool {
    match cond {
        SExpr::Binary(op, x, y) => match (*x, *y) {
            (SExpr::Ident(n), SExpr::Number(k)) => {
                &&& n == o
                &&& exists|m: nat| decimal(m) == k
                &&& match op {
                    BinaryOp::LessEqualThan => v <= lit_value(k),
                    BinaryOp::LessThan => v < lit_value(k),
                    BinaryOp::StrictEquality => v == lit_value(k),
                    BinaryOp::GreaterEqualThan => v >= lit_value(k),
                    BinaryOp::GreaterThan => v > lit_value(k),
                    _ => false,
                }
            },
            (SExpr::Number(k), SExpr::Ident(n)) => {
                &&& n == o
                &&& exists|m: nat| decimal(m) == k
                &&& match op {
                    BinaryOp::LessEqualThan => lit_value(k) <= v,
                    BinaryOp::LessThan => lit_value(k) < v,
                    BinaryOp::StrictEquality => v == lit_value(k),
                    BinaryOp::GreaterEqualThan => lit_value(k) >= v,
                    BinaryOp::GreaterThan => lit_value(k) > v,
                    _ => false,
                }
            },
            _ => false,
        },
        _ => false,
    }
}

/// The `i`-th case block is an `if` without `else` that is entered exactly
/// when the outcome `o` is at most `i`.
pub open spec fn entered_from_outcome(s: SStmt, o: Seq<char>, i: int) -> bool {
    match s {
        SStmt::If(cond, _, el) => el is None && forall|v: nat| #[trigger] guard_admits(cond, o, v) <==> v <= i,
        _ => false,
    }
}

/// Law: in the rewrite of a `switch` with cases, the outcome starts at the
/// number of cases (no case block runs when nothing matches), and the block
/// of case `i` runs exactly when the outcome is at most `i`: the matched
/// case's own body runs, and control falls through into the later blocks.
pub proof fn law_switch_case_runs_from_its_outcome(d: SExpr, cases: Seq<SSwitchCase>, c: usize)
    requires
        rl_cases(cases, 0, Some(ident_name(c as nat))).0.len() > 0,
    ensures
        ({
            let n = rl_cases(cases, 0, Some(ident_name(c as nat))).0.len();
            let items = block_items(unlabel(spec_switch(d, cases, c).0));
            let o = declared_name(items[0]);
            &&& items.len() > n
            &&& items[0] matches SStmt::VarDecl(vd) && vd.decls.len() == 1
                && vd.decls[0].init == Some(SExpr::Number(decimal(n)))
            &&& forall|i: int| 0 <= i < n ==> #[trigger] entered_from_outcome(items[items.len() - n + i], o, i)
        }),
{
    let rc = rl_cases(cases, 0, Some(ident_name(c as nat))).0;
    let n = rc.len();
    let items = block_items(unlabel(spec_switch(d, cases, c).0));
    let o = declared_name(items[0]);
    assert forall|i: int| 0 <= i < n implies #[trigger] entered_from_outcome(items[items.len() - n + i], o, i) by {
        let s = items[items.len() - n + i];
        assert(s == crate::transforms::stmt_switch::case_block(rc[i], o, i as nat));
        let k = decimal(i as nat);
        assert(decimal(i as nat) == k);
        assert forall|v: nat| #[trigger] guard_admits(
            SExpr::Binary(BinaryOp::LessEqualThan, Box::new(SExpr::Ident(o)), Box::new(SExpr::Number(k))), o, v) <==> v <= i by {
            let m = lit_value(k);
            assert(decimal(m) == k);
            lemma_decimal_injective(m, i as nat);
        }
    }
}

/// The number that the statement `o = <number literal>;` gives `o`.
pub open spec fn assigned_number(s: SStmt, o: Seq<char>) -> Option<nat> {
    match s {
        SStmt::Expr(SExpr::Assign(AssignOp::Assign, tgt, v)) => match (*tgt, *v) {
            (SAssignTarget::Ident(n), SExpr::Number(k)) => if n == o && exists|m: nat| decimal(m) == k {
                Some(lit_value(k))
            } else {
                None
            },
            _ => None,
        },
        _ => None,
    }
}

/// The value an `if (o === t) o = <n>; else ...` chain leaves in `o`, where
/// `hit(t)` says whether the comparison with `t` holds (`None`: the chain
/// assigns nothing).
pub open spec fn run_chain(s: SStmt, o: Seq<char>, hit: spec_fn(SExpr) -> bool) -> Option<nat>
    decreases s,
{
    match s {
        SStmt::If(SExpr::Binary(BinaryOp::StrictEquality, x, t), th, el) => if *x == SExpr::Ident(o) {
            if hit(*t) {
                assigned_number(*th, o)
            } else {
                match el {
                    Some(e) => run_chain(*e, o, hit),
                    None => None,
                }
            }
        } else {
            None
        },
        _ => assigned_number(s, o),
    }
}

/// The index of the first case from `i` on whose test holds; when none does,
/// the index of the first case without a test (the default), if any.
pub open spec fn matched_case(cs: Seq<SSwitchCase>, hit: spec_fn(SExpr) -> bool, i: int) -> Option<nat>
    decreases if 0 <= i <= cs.len() { (cs.len() - i) as nat } else { 0nat },
{
    if i < 0 || i >= cs.len() {
        first_default(cs, 0)
    } else {
        match cs[i].test {
            Some(t) => if hit(t) { Some(i as nat) } else { matched_case(cs, hit, i + 1) },
            None => matched_case(cs, hit, i + 1),
        }
    }
}

/// The index of the first case from `i` on that has no test.
pub open spec fn first_default(cs: Seq<SSwitchCase>, i: int) -> Option<nat>
    decreases if 0 <= i <= cs.len() { (cs.len() - i) as nat } else { 0nat },
{
    if i < 0 || i >= cs.len() {
        None
    } else if cs[i].test is None {
        Some(i as nat)
    } else {
        first_default(cs, i + 1)
    }
}

proof fn lemma_default_index(cs: Seq<SSwitchCase>, i: int)
    requires
        0 <= i <= cs.len(),
    ensures
        first_default(cs, i) == (if crate::transforms::stmt_switch::default_index(cs, i) >= 0 {
            Some(crate::transforms::stmt_switch::default_index(cs, i) as nat)
        } else {
            None
        }),
        crate::transforms::stmt_switch::default_index(cs, i) >= -1,
    decreases cs.len() - i,
{
    if i < cs.len() {
        lemma_default_index(cs, i + 1);
    }
}

proof fn lemma_set_outcome(o: Seq<char>, n: nat)
    ensures
        assigned_number(crate::transforms::stmt_switch::set_outcome(o, n), o) == Some(n),
{
    let k = decimal(n);
    assert(exists|m: nat| decimal(m) == k);
    let m = lit_value(k);
    lemma_decimal_injective(m, n);
}

proof fn lemma_chain_from(cs: Seq<SSwitchCase>, o: Seq<char>, hit: spec_fn(SExpr) -> bool, i: int)
    requires
        0 <= i <= cs.len(),
    ensures
        match crate::transforms::stmt_switch::spec_chain(cs, o, i) {
            Some(x) => run_chain(x, o, hit) == matched_case(cs, hit, i),
            None => matched_case(cs, hit, i) is None,
        },
    decreases cs.len() - i,
{
    lemma_default_index(cs, 0);
    if i < cs.len() {
        lemma_chain_from(cs, o, hit, i + 1);
        lemma_set_outcome(o, i as nat);
    } else if crate::transforms::stmt_switch::default_index(cs, 0) >= 0 {
        lemma_set_outcome(o, crate::transforms::stmt_switch::default_index(cs, 0) as nat);
    }
}

proof fn lemma_default_reached(cs: Seq<SSwitchCase>, j: int, i: int)
    requires
        0 <= j <= i < cs.len(),
        cs[i].test is None,
    ensures
        crate::transforms::stmt_switch::default_index(cs, j) >= 0,
    decreases i - j,
{
    if j < i {
        lemma_default_reached(cs, j + 1, i);
    }
}

proof fn lemma_chain_some(cs: Seq<SSwitchCase>, o: Seq<char>, i: int)
    requires
        0 <= i < cs.len(),
    ensures
        crate::transforms::stmt_switch::spec_chain(cs, o, i) is Some,
    decreases cs.len() - i,
{
    if cs[i].test is None {
        if i + 1 < cs.len() {
            lemma_chain_some(cs, o, i + 1);
        } else {
            lemma_default_reached(cs, 0, i);
            assert(crate::transforms::stmt_switch::spec_chain(cs, o, i + 1) is Some);
        }
    }
}

/// Law: in the rewrite of a `switch` with cases, the statement after the
/// outcome's declaration sets the outcome to the index of the first case
/// whose test holds, or, when none does, to the index of the default case;
/// with neither it leaves the outcome at the number of cases.
pub proof fn law_switch_outcome_is_matched_case(d: SExpr, cases: Seq<SSwitchCase>, c: usize, hit: spec_fn(SExpr) -> bool)
    requires
        rl_cases(cases, 0, Some(ident_name(c as nat))).0.len() > 0,
    ensures
        ({
            let rc = rl_cases(cases, 0, Some(ident_name(c as nat))).0;
            let items = block_items(unlabel(spec_switch(d, cases, c).0));
            let o = declared_name(items[0]);
            &&& items.len() == rc.len() + 2
            &&& run_chain(items[1], o, hit) == matched_case(rc, hit, 0)
        }),
{
    let rc = rl_cases(cases, 0, Some(ident_name(c as nat))).0;
    let items = block_items(unlabel(spec_switch(d, cases, c).0));
    let o = declared_name(items[0]);
    lemma_chain_from(rc, o, hit, 0);
    lemma_chain_some(rc, o, 0);
}

/// The statement that binds a loop's left side: its initializer, or the
/// right side of its assignment.
pub open spec fn bound_value(s: SStmt) -> Option<SExpr> {
    match s {
        SStmt::VarDecl(vd) => if vd.decls.len() > 0 { vd.decls[0].init } else { None },
        SStmt::Expr(SExpr::Assign(AssignOp::Assign, _, r)) => Some(*r),
        _ => None,
    }
}

/// `n.value`
pub open spec fn value_of(n: Seq<char>) -> SExpr {
    SExpr::Member(Box::new(SMember::Static(SExpr::Ident(n), seq!['v', 'a', 'l', 'u', 'e'], false)))
}

/// Law: the rewritten `for-of` loop takes an iterator from `$forOf(right)`,
/// assigns each `next()` result to a name in its test, leaves the loop when
/// that result is `done`, and otherwise binds the loop's left side to the
/// result's `value` before running the body: each iteration sees the element
/// the iterator produced.
pub proof fn law_for_of_binds_iterated_value(left: SForLeft, right: SExpr, body: SStmt, c: usize)
    requires
        for_of_ok(left, false),
    ensures
        ({
            let items = block_items(spec_for_of(left, right, body, c));
            &&& items.len() == 3
            &&& items[0] matches SStmt::VarDecl(vd) && vd.decls.len() == 1 && vd.decls[0].init == Some(SExpr::Call(
                Box::new(SExpr::Ident(seq!['$', 'f', 'o', 'r', 'O', 'f'])), seq![crate::spec_ast::SArg::Expr(right)], false))
            &&& items[1] matches SStmt::VarDecl(vd) && vd.decls.len() == 1 && vd.decls[0].init is None
            &&& match items[2] {
                SStmt::While(SExpr::Assign(AssignOp::Assign, tgt, nxt), wb) => match *tgt {
                SAssignTarget::Ident(nx) => {
                &&& nx == declared_name(items[1])
                &&& *nxt == SExpr::Call(Box::new(SExpr::Member(Box::new(SMember::Static(
                    SExpr::Ident(declared_name(items[0])), seq!['n', 'e', 'x', 't'], false)))), Seq::empty(), false)
                &&& block_items(*wb).len() == 3
                &&& block_items(*wb)[0] == SStmt::If(
                    SExpr::Binary(BinaryOp::StrictEquality, Box::new(SExpr::Member(Box::new(SMember::Static(
                        SExpr::Ident(nx), seq!['d', 'o', 'n', 'e'], false)))), Box::new(SExpr::Bool(true))),
                    Box::new(SStmt::Break(None)),
                    None,
                )
                &&& bound_value(block_items(*wb)[1]) == Some(value_of(nx))
                &&& block_items(*wb)[2] == body || block_items(block_items(*wb)[2]).last() == body
                },
                _ => false,
                },
                _ => false,
            }
        }),
{
    match left {
        SForLeft::VarDecl(d) => {},
        SForLeft::Target(t) => {},
    }
}

/// Law: a `for` loop with an init becomes a block that runs the init first
/// and then the loop: `init; while (test) { body; update; }`, with `true`
/// for a missing test; without an init it is that `while` loop alone.
pub proof fn law_for_init_runs_before_the_loop(init: Option<SForInit>, test: Option<SExpr>, update: Option<SExpr>, body: SStmt)
    ensures
        ({
            let w = spec_for(None, test, update, body);
            &&& w matches SStmt::While(t, wb)
                && t == (match test { Some(x) => x, None => SExpr::Bool(true) })
                && block_items(*wb).len() >= 1 && block_items(*wb)[0] == body
                && block_items(*wb).len() == (if update is Some { 2int } else { 1int })
                && (update matches Some(u) ==> block_items(*wb)[1] == SStmt::Expr(u))
            &&& match init {
                Some(SForInit::Expr(e)) => spec_for(init, test, update, body) == SStmt::Block(seq![SStmt::Expr(e), w]),
                Some(SForInit::VarDecl(d)) => spec_for(init, test, update, body) == SStmt::Block(seq![SStmt::VarDecl(d), w]),
                None => spec_for(init, test, update, body) == w,
            }
        }),
{
}

/// The statement that the dispatch statement `s` runs when the action
/// variable `a` holds `v`: the body of `if (<test on a>) <body>` whose test
/// holds for `v`.
pub open spec fn resumes(s: SStmt, a: Seq<char>, v: nat) -> Option<SStmt> {
    match s {
        SStmt::If(cond, th, el) => if el is None && guard_admits(cond, a, v) { Some(*th) } else { None },
        _ => None,
    }
}

/// Law: inside the protected block, `return x;` (or a bare `return;`)
/// records action 2 and the returned value (`undefined` for a bare return),
/// then leaves the labeled protected statement, so that the finalizer runs
/// before the value is returned.
pub proof fn law_return_is_recorded_then_leaves(arg: Option<SExpr>, a: Seq<char>, u: Seq<char>, lbl: Seq<char>, t: Seq<Seq<char>>)
    ensures
        ({
            let r = block_items(crate::transforms::stmt_finally::spec_trb(SStmt::Return(arg), a, u, lbl, t));
            &&& r.len() == 3
            &&& assigns(r[0], a, SExpr::Number(decimal(2)))
            &&& assigns(r[1], u, match arg {
                Some(x) => x,
                None => undefined_ident(),
            })
            &&& r[2] == SStmt::Break(Some(lbl))
        }),
{
}

proof fn lemma_first_index(t: Seq<Seq<char>>, k: Seq<char>, i: int)
    requires
        0 <= i <= t.len(),
        t.subrange(i, t.len() as int).contains(k),
    ensures
        ({
            let j = crate::transforms::stmt_finally::first_index_from(t, k, i);
            &&& i <= j < t.len()
            &&& t[j] == k
        }),
    decreases t.len() - i,
{
    if i < t.len() && t[i] != k {
        let w = choose|x: int| 0 <= x < t.subrange(i, t.len() as int).len() && t.subrange(i, t.len() as int)[x] == k;
        assert(w != 0);
        assert(t.subrange(i + 1, t.len() as int)[w - 1] == k);
        lemma_first_index(t, k, i + 1);
    }
}

/// Law: inside the protected block, a `break` that leaves it (its key is one
/// of the break targets) records an action number of at least 3 and leaves
/// the labeled protected statement; after the finalizer, the dispatch
/// statement that fires for that number resumes this same `break`, and no
/// dispatch statement for another target fires for it.
pub proof fn law_escaping_break_is_resumed(l: Option<Seq<char>>, a: Seq<char>, u: Seq<char>, lbl: Seq<char>, t: Seq<Seq<char>>)
    requires
        t.contains(crate::transforms::stmt_finally::break_key(l)),
        l != Some(crate::transforms::stmt_finally::looped()),
    ensures
        ({
            let r = block_items(crate::transforms::stmt_finally::spec_trb(SStmt::Break(l), a, u, lbl, t));
            let d = crate::transforms::stmt_finally::break_dispatch(a, t);
            let n = assigned_number(r[0], a);
            &&& r.len() == 2
            &&& r[1] == SStmt::Break(Some(lbl))
            &&& n is Some && n.unwrap() >= 3
            &&& exists|j: int| 0 <= j < d.len() && #[trigger] resumes(d[j], a, n.unwrap()) == Some(SStmt::Break(l))
            &&& forall|j: int| 0 <= j < d.len() && (#[trigger] resumes(d[j], a, n.unwrap())) is Some
                ==> resumes(d[j], a, n.unwrap()) == Some(SStmt::Break(l))
        }),
{
    let k = crate::transforms::stmt_finally::break_key(l);
    assert(t.subrange(0, t.len() as int) =~= t);
    lemma_first_index(t, k, 0);
    let i = crate::transforms::stmt_finally::first_index_from(t, k, 0);
    let n = (i + 3) as nat;
    lemma_set_outcome(a, n);
    let d = crate::transforms::stmt_finally::break_dispatch(a, t);
    assert forall|j: int| 0 <= j < d.len() implies (#[trigger] resumes(d[j], a, n)) == (if j == i {
        Some(SStmt::Break(l))
    } else {
        None
    }) by {
        let kj = decimal((j + 3) as nat);
        assert(exists|m: nat| decimal(m) == kj) by {
            assert(decimal((j + 3) as nat) == kj);
        }
        lemma_decimal_injective(lit_value(kj), (j + 3) as nat);
        if j == i {
            assert(guard_admits(crate::transforms::stmt_finally::action_is(a, (j + 3) as nat), a, n));
        }
    }
    assert(resumes(d[i], a, n) == Some(SStmt::Break(l)));
}

/// `a = 2; u = <e>;` where `e` is the name the catch clause binds: a thrown
/// value is recorded (action 2) to be dealt with after the finalizer.
pub open spec fn records(body: Seq<SStmt>, a: Seq<char>, u: Seq<char>, e: Seq<char>) -> bool {
    &&& body.len() == 2
    &&& assigns(body[0], a, SExpr::Number(decimal(2)))
    &&& assigns(body[1], u, SExpr::Ident(e))
}

/// The protected `try`'s catch clause: without a handler it binds `e` and
/// records it; with one it keeps the handler's parameter and runs the
/// handler's body inside a `try` whose catch records what the handler throws.
pub open spec fn records_throw(cc: crate::spec_ast::SCatchClause, handler: Option<crate::spec_ast::SCatchClause>, a: Seq<char>, u: Seq<char>) -> bool {
    match handler {
        None => match cc.param {
            Some(SPattern::Ident(e)) => records(cc.body, a, u, e),
            _ => false,
        },
        Some(h) => {
            &&& cc.param == h.param
            &&& cc.body.len() == 1
            &&& match cc.body[0] {
                SStmt::Try(hb, Some(ic), None) => {
                    &&& hb == h.body
                    &&& match ic.param {
                        Some(SPattern::Ident(cv)) => records(ic.body, a, u, cv),
                        _ => false,
                    }
                },
                _ => false,
            }
        },
    }
}

/// Law: the rewrite of `try { block } catch? finally { finalizer }` declares
/// the action variable (starting at 0) and the value variable, runs the
/// labeled protected `try` first and the finalizer's statements after it,
/// then rethrows (action 1) or returns (action 2) the recorded value and
/// resumes the recorded escaping breaks. A block that cannot leave early is
/// protected unchanged; one that can has its returns and escaping breaks
/// rewritten to record and leave the labeled statement.
pub proof fn law_finally_runs_after_the_protected_block(block: Seq<SStmt>, handler: Option<crate::spec_ast::SCatchClause>, finalizer: Seq<SStmt>, c: usize)
    ensures
        ({
            let items = block_items(spec_finally(block, handler, finalizer, c));
            let a = declared_name(items[0]);
            let u = declared_name(items[1]);
            let esc = crate::transforms::stmt_finally::abrupt_body(block, 0, Seq::empty(), Seq::empty());
            &&& items.len() == 6 + esc.1.len()
            &&& items.subrange(6, items.len() as int) == crate::transforms::stmt_finally::break_dispatch(a, esc.1)
            &&& items[0] matches SStmt::VarDecl(vd) && vd.decls[0].init == Some(SExpr::Number(decimal(0)))
            &&& items[1] matches SStmt::VarDecl(vd) && vd.decls[0].init is None
            &&& match unlabel(items[2]) {
                SStmt::Try(pb, ph, pf) => {
                    &&& items[2] is Labeled
                    &&& pf is None
                    &&& !esc.0 ==> pb == block
                    &&& esc.0 ==> pb == crate::transforms::stmt_finally::spec_trb_body(block, 0, a, u, label_of(items[2]), esc.1)
                    &&& match ph {
                        Some(cc) => records_throw(cc, handler, a, u),
                        None => false,
                    }
                },
                _ => false,
            }
            &&& items[3] == SStmt::Block(finalizer)
            &&& items[4] == SStmt::If(
                SExpr::Binary(BinaryOp::StrictEquality, Box::new(SExpr::Ident(a)), Box::new(SExpr::Number(decimal(1)))),
                Box::new(SStmt::Throw(SExpr::Ident(u))),
                None,
            )
            &&& items[5] == SStmt::If(
                SExpr::Binary(BinaryOp::StrictEquality, Box::new(SExpr::Ident(a)), Box::new(SExpr::Number(decimal(2)))),
                Box::new(SStmt::Return(Some(SExpr::Ident(u)))),
                None,
            )
        }),
{
}

} // verus!
