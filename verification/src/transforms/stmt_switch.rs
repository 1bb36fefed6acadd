//! `switch` becomes an `if`-chain that computes which case matched, followed
//! by one guarded block per case; breaks out of the switch become breaks out
//! of a labeled block.

use vstd::prelude::*;
use crate::ast::{AssignOp, BinaryOp, Expr, Pattern, Stmt, SwitchCase, VarKind};
use crate::mapper::{lbl, structural, MapError, Mapper, MapperAction, StmtVisitor};
use crate::mapper_spec::{rl_cases, rl_expr};
use crate::mapper_state::{decimal, ident_name, ident_name_string, next_counter, MapperState};
use crate::spec_ast::{
    lemma_v_cases_index, lemma_v_stmts_index, lemma_v_stmts_push, v_cases, v_stmts, SAssignTarget,
    SExpr, SStmt, SSwitchCase,
};
use crate::transforms::builder::{
    create_assignment_expression_name, create_binary_expression, create_expression_statement,
    create_identifier_expression, create_variable_declaration_kind, decl_stmt, number_literal,
};
use crate::transforms::stmt_finally::{set_var, undefined_name};

verus! {

/// A statement of a case body as it goes into its guarded block: a
/// declaration `kind x = init;` becomes the assignment `x = init;` (`x =
/// undefined;` without initializer); other statements are kept.
pub open spec fn spec_case_stmt(s: SStmt) -> SStmt {
    match s {
        SStmt::VarDecl(d) => set_var(
            d.decls[0].id->Ident_0,
            match d.decls[0].init {
                Some(e) => e,
                None => SExpr::Ident(undefined_name()),
            },
        ),
        _ => s,
    }
}

/// The statements of a case body that the rewrite handles: declarations of
/// one name (the declaration rewrite runs first), and no class declaration.
pub open spec fn case_stmt_ok(s: SStmt) -> bool {
    match s {
        SStmt::VarDecl(d) => d.decls.len() == 1 && d.decls[0].id is Ident,
        SStmt::ClassDecl(_) => false,
        _ => true,
    }
}

/// Every statement of every case is handled.
pub open spec fn cases_ok(cs: Seq<SSwitchCase>) -> bool {
    forall|i: int, j: int| 0 <= i < cs.len() && 0 <= j < cs[i].body.len() ==> #[trigger] case_stmt_ok(cs[i].body[j])
}

/// `o === t`
pub open spec fn outcome_is(o: Seq<char>, t: SExpr) -> SExpr {
    SExpr::Binary(BinaryOp::StrictEquality, Box::new(SExpr::Ident(o)), Box::new(t))
}

/// `o = n;`
pub open spec fn set_outcome(o: Seq<char>, n: nat) -> SStmt {
    set_var(o, SExpr::Number(decimal(n)))
}

/// The index of the first case without test (the default), or -1.
pub open spec fn default_index(cs: Seq<SSwitchCase>, i: int) -> int
    decreases if 0 <= i <= cs.len() { (cs.len() - i) as nat } else { 0nat },
{
    if i < 0 || i >= cs.len() {
        -1
    } else if cs[i].test is None {
        i
    } else {
        default_index(cs, i + 1)
    }
}

/// The `if`-chain from case `i` on: `if (o === test_i) o = i; else <chain
/// from i + 1>`, skipping the default; at the end, `o = <default>;` when there
/// is a default.
pub open spec fn spec_chain(cs: Seq<SSwitchCase>, o: Seq<char>, i: int) -> Option<SStmt>
    decreases if 0 <= i <= cs.len() { (cs.len() - i) as nat } else { 0nat },
{
    if i < 0 || i >= cs.len() {
        if default_index(cs, 0) >= 0 { Some(set_outcome(o, default_index(cs, 0) as nat)) } else { None }
    } else {
        match cs[i].test {
            Some(t) => Some(SStmt::If(
                outcome_is(o, t),
                Box::new(set_outcome(o, i as nat)),
                match spec_chain(cs, o, i + 1) {
                    Some(x) => Some(Box::new(x)),
                    None => None,
                },
            )),
            None => spec_chain(cs, o, i + 1),
        }
    }
}

/// The guarded block of case `i`: `if (o <= i) { body }`.
pub open spec fn case_block(c: SSwitchCase, o: Seq<char>, i: nat) -> SStmt {
    SStmt::If(
        SExpr::Binary(BinaryOp::LessEqualThan, Box::new(SExpr::Ident(o)), Box::new(SExpr::Number(decimal(i)))),
        Box::new(SStmt::Block(c.body.map_values(|s: SStmt| spec_case_stmt(s)))),
        None,
    )
}

/// The model of the rewrite of `switch (d) { cases }` with `c` the counter at
/// the start, once the unlabeled breaks were relabeled. The relabeling gives
/// every unlabeled break reached (see `mapper_spec`) the label
/// `ident_name(c)`; when there was one, that name is taken and the result is
/// wrapped in a block with that label. Then a name for the discriminant is
/// taken: without cases the result is `const <name> = d;`. Otherwise a name
/// `o` is taken and the result is `{ let o = <number of cases>; <chain>; if
/// (o <= 0) { case 0 } ... }`, where the cases' declarations became
/// assignments (see `spec_case_stmt`). The result and the counter after.
pub open spec fn spec_switch(d: SExpr, cases: Seq<SSwitchCase>, c: usize) -> (SStmt, usize) {
    let l = ident_name(c as nat);
    let rd = rl_expr(d, Some(l));
    let rc = rl_cases(cases, 0, Some(l));
    let needs = rd.1 || rc.1;
    let c1 = if needs { next_counter(c) } else { c };
    let dv = ident_name(c1 as nat);
    let c2 = next_counter(c1);
    if rc.0.len() == 0 {
        (decl_stmt(VarKind::Const, dv, Some(rd.0)), c2)
    } else {
        let o = ident_name(c2 as nat);
        let cs = rc.0;
        let head = seq![decl_stmt(VarKind::Let, o, Some(SExpr::Number(decimal(cs.len()))))];
        let chain = match spec_chain(cs, o, 0) {
            Some(x) => seq![x],
            None => Seq::empty(),
        };
        let blocks = Seq::new(cs.len(), |i: int| case_block(cs[i], o, i as nat));
        let block = SStmt::Block(head + chain + blocks);
        (if needs { SStmt::Labeled(l, Box::new(block)) } else { block }, next_counter(c2))
    }
}

/// What the relabeling pass refuses nowhere: no `switch`, `continue` or loop
/// other than `while` is reached in the discriminant or the cases.
pub open spec fn relabel_ok(d: SExpr, cases: Seq<SSwitchCase>, c: usize) -> bool {
    let l = ident_name(c as nat);
    rl_expr(d, Some(l)).2 && rl_cases(cases, 0, Some(l)).2
}

/// Gives every unlabeled `break` reached in the switch the label
/// `ident_name(c)`, with a mapper whose only visitor is the break
/// relabeling. Returns whether some break was relabeled, and the relabeled
/// discriminant and cases.
fn update_breaks(discriminant: Expr, cases: Vec<SwitchCase>, c: usize, fuel: u64) -> (r: Result<(bool, Expr, Vec<SwitchCase>), MapError>)
    ensures
        r is Ok ==> {
            let l = ident_name(c as nat);
            let rd = rl_expr(discriminant@, Some(l));
            let rc = rl_cases(v_cases(cases@), 0, Some(l));
            &&& r->Ok_0.0 == (rd.1 || rc.1)
            &&& r->Ok_0.1@ == rd.0
            &&& v_cases(r->Ok_0.2@) == rc.0
        },
        r matches Err(MapError::Unsupported) ==> !relabel_ok(discriminant@, v_cases(cases@), c),
        fuel > 0 ==> (r is Ok <==> relabel_ok(discriminant@, v_cases(cases@), c)),
        fuel > 0 && r is Err ==> r->Err_0 == MapError::Unsupported,
        fuel == 0 ==> r == Err::<(bool, Expr, Vec<SwitchCase>), MapError>(MapError::OutOfFuel),
    decreases fuel, 0nat, 0nat,
{
    if fuel == 0 {
        return Err(MapError::OutOfFuel);
    }
    let mut mapper = crate::mapper::create_mapper();
    mapper.add_visitor_stmt(StmtVisitor::BreakRelabel(ident_name_string(c)));
    assert(structural(mapper));
    assert(lbl(mapper) == Some(ident_name(c as nat)));
    let ghost l = Some(ident_name(c as nat));
    let ghost rd = rl_expr(discriminant@, l);
    let ghost rc = rl_cases(v_cases(cases@), 0, l);
    proof {
        assert(crate::mapper_spec::rl_switch(SStmt::Switch(discriminant@, v_cases(cases@)), l)
            == (SStmt::Switch(rd.0, rc.0), rd.1 || rc.1, rd.2 && rc.2));
    }
    let (d, cs) = match mapper.map_switch_statement(discriminant, cases, fuel - 1) { Ok(v) => v, Err(e) => { return Err(e); } };
    Ok((mapper.relabeled, d, cs))
}

/// A case statement as it goes into its guarded block (see
/// `spec_case_stmt`).
fn case_stmt(s: Stmt) -> (r: Stmt)
    requires
        case_stmt_ok(s@),
    ensures
        r@ == spec_case_stmt(s@),
{
    let ghost sv = s@;
    match s {
        Stmt::VarDecl(d) => {
            let ghost dv = crate::spec_ast::v_var_decl(d);
            proof {
                assert(sv == SStmt::VarDecl(dv));
                crate::transforms::for_header::lemma_v_declarators_index(d.decls@);
                reveal_strlit("undefined");
                assert("undefined"@ =~= undefined_name());
            }
            let mut decls = d.decls;
            let ghost ds = decls@;
            let first = decls.remove(0);
            proof {
                assert(first == ds[0]);
                assert(dv.decls[0].id == crate::spec_ast::v_pattern(first.id));
                assert(dv.decls[0].init == crate::spec_ast::v_opt_expr(first.init));
            }
            let name = match first.id {
                Pattern::Ident(n) => n,
                _ => String::new(),
            };
            let value = match first.init {
                Some(e) => e,
                None => create_identifier_expression(String::from_str("undefined")),
            };
            create_expression_statement(create_assignment_expression_name(name, value))
        },
        other => other,
    }
}

/// The statements of a case body as they go into its guarded block.
fn case_body(b: Vec<Stmt>) -> (r: Vec<Stmt>)
    requires
        forall|j: int| 0 <= j < v_stmts(b@).len() ==> #[trigger] case_stmt_ok(v_stmts(b@)[j]),
    ensures
        v_stmts(r@) == v_stmts(b@).map_values(|s: SStmt| spec_case_stmt(s)),
{
    let ghost all = b@;
    let ghost vb = v_stmts(b@);
    proof {
        lemma_v_stmts_index(b@);
    }
    let n = b.len();
    let mut out: Vec<Stmt> = Vec::new();
    let mut rest = b;
    let mut i: usize = 0;
    proof {
        assert(v_stmts(out@) =~= Seq::<SStmt>::empty());
    }
    while rest.len() > 0
        invariant
            all.len() == n,
            vb == v_stmts(all),
            vb.len() == all.len(),
            forall|j: int| 0 <= j < all.len() ==> #[trigger] vb[j] == all[j]@,
            forall|j: int| 0 <= j < vb.len() ==> #[trigger] case_stmt_ok(vb[j]),
            i + rest@.len() == all.len(),
            rest@ == all.subrange(i as int, all.len() as int),
            v_stmts(out@) == vb.map_values(|s: SStmt| spec_case_stmt(s)).take(i as int),
        decreases rest.len(),
    {
        let x = rest.remove(0);
        assert(x == all[i as int]);
        assert(vb[i as int] == x@);
        let ghost o = out@;
        let y = case_stmt(x);
        out.push(y);
        proof {
            lemma_v_stmts_push(o, y);
            assert(vb.map_values(|s: SStmt| spec_case_stmt(s)).take(i + 1) =~= vb.map_values(|s: SStmt| spec_case_stmt(s)).take(i as int).push(y@));
        }
        i = i + 1;
    }
    proof {
        assert(vb.map_values(|s: SStmt| spec_case_stmt(s)).take(i as int) =~= vb.map_values(|s: SStmt| spec_case_stmt(s)));
    }
    out
}

/// Whether every statement of a case body is handled (see `case_stmt_ok`).
fn case_body_supported(body: &Vec<Stmt>) -> (r: bool)
    ensures
        r == (forall|m: int| 0 <= m < v_stmts(body@).len() ==> #[trigger] case_stmt_ok(v_stmts(body@)[m])),
{
    proof {
        lemma_v_stmts_index(body@);
    }
    let mut j: usize = 0;
    while j < body.len()
        invariant
            j <= body.len(),
            v_stmts(body@).len() == body@.len(),
            forall|m: int| 0 <= m < body@.len() ==> #[trigger] v_stmts(body@)[m] == body@[m]@,
            forall|m: int| 0 <= m < j ==> #[trigger] case_stmt_ok(v_stmts(body@)[m]),
        decreases body.len() - j,
    {
        assert(v_stmts(body@)[j as int] == body@[j as int]@);
        let ok = match &body[j] {
            Stmt::VarDecl(d) => {
                proof {
                    assert(body@[j as int]@ == SStmt::VarDecl(crate::spec_ast::v_var_decl(*d)));
                    crate::transforms::for_header::lemma_v_declarators_index(d.decls@);
                }
                d.decls.len() == 1 && match &d.decls[0].id {
                    Pattern::Ident(_) => true,
                    _ => false,
                }
            },
            Stmt::ClassDecl(_) => false,
            _ => true,
        };
        if !ok {
            assert(!case_stmt_ok(v_stmts(body@)[j as int]));
            return false;
        }
        j = j + 1;
    }
    true
}

/// Whether every statement of every case is handled (see `cases_ok`).
fn cases_supported(cases: &Vec<SwitchCase>) -> (r: bool)
    ensures
        r == cases_ok(v_cases(cases@)),
{
    let ghost vc = v_cases(cases@);
    proof {
        lemma_v_cases_index(cases@);
    }
    let mut i: usize = 0;
    while i < cases.len()
        invariant
            i <= cases.len(),
            vc == v_cases(cases@),
            vc.len() == cases@.len(),
            forall|k: int| 0 <= k < cases@.len() ==> #[trigger] vc[k] == crate::spec_ast::v_case(cases@[k]),
            forall|k: int, j: int| 0 <= k < i && 0 <= j < vc[k].body.len() ==> #[trigger] case_stmt_ok(vc[k].body[j]),
        decreases cases.len() - i,
    {
        let body = &cases[i].body;
        assert(vc[i as int].body == v_stmts(body@));
        if !case_body_supported(body) {
            let ghost m = choose|m: int| 0 <= m < v_stmts(body@).len() && !case_stmt_ok(#[trigger] v_stmts(body@)[m]);
            assert(!case_stmt_ok(vc[i as int].body[m]));
            return false;
        }
        i = i + 1;
    }
    true
}

/// `o === t`
fn outcome_is_expr(o: &String, t: Expr) -> (e: Expr)
    ensures
        e@ == outcome_is(o@, t@),
{
    create_binary_expression(BinaryOp::StrictEquality, create_identifier_expression(o.clone()), t)
}

/// `o = n;`
fn set_outcome_stmt(o: &String, n: usize) -> (s: Stmt)
    ensures
        s@ == set_outcome(o@, n as nat),
{
    create_expression_statement(create_assignment_expression_name(o.clone(), number_literal(n)))
}

/// The `if`-chain (see `spec_chain`), built from the last case backwards.
fn build_chain(tests: Vec<Option<Expr>>, o: &String, ghost_cases: Ghost<Seq<SSwitchCase>>) -> (r: Option<Stmt>)
    requires
        tests@.len() == ghost_cases@.len(),
        forall|i: int| 0 <= i < tests@.len() ==> #[trigger] crate::spec_ast::v_opt_expr(tests@[i]) == ghost_cases@[i].test,
    ensures
        crate::spec_ast::v_opt_stmt(r) == spec_chain(ghost_cases@, o@, 0),
{
    let ghost cs = ghost_cases@;
    let n = tests.len();
    // The default: the first case without test.
    let mut k: usize = 0;
    let mut found = false;
    while k < n && !found
        invariant
            k <= n,
            n == tests@.len(),
            tests@.len() == cs.len(),
            forall|i: int| 0 <= i < tests@.len() ==> #[trigger] crate::spec_ast::v_opt_expr(tests@[i]) == cs[i].test,
            found ==> k < n && default_index(cs, 0) == k && cs[k as int].test is None,
            !found ==> default_index(cs, 0) == default_index(cs, k as int),
        decreases n - k, if found { 0nat } else { 1nat },
    {
        assert(crate::spec_ast::v_opt_expr(tests@[k as int]) == cs[k as int].test);
        if tests[k].is_none() {
            found = true;
        } else {
            k = k + 1;
        }
    }
    let mut prev: Option<Stmt> = if found { Some(set_outcome_stmt(o, k)) } else { None };
    proof {
        if !found {
            assert(default_index(cs, n as int) == -1);
        }
    }
    let mut rest = tests;
    let mut i: usize = n;
    while i > 0
        invariant
            i <= n,
            rest@.len() == i,
            n == cs.len(),
            forall|m: int| 0 <= m < i ==> #[trigger] crate::spec_ast::v_opt_expr(rest@[m]) == cs[m].test,
            crate::spec_ast::v_opt_stmt(prev) == spec_chain(cs, o@, i as int),
        decreases i,
    {
        let t = rest.pop().unwrap();
        assert(crate::spec_ast::v_opt_expr(t) == cs[i - 1].test);
        i = i - 1;
        match t {
            Some(te) => {
                let cond = outcome_is_expr(o, te);
                let set = set_outcome_stmt(o, i);
                let ghost pv = prev;
                let s = match prev {
                    Some(p) => Stmt::If(cond, Box::new(set), Some(Box::new(p))),
                    None => Stmt::If(cond, Box::new(set), None),
                };
                assert(s@ == SStmt::If(cond@, Box::new(set@), match crate::spec_ast::v_opt_stmt(pv) {
                    Some(x) => Some(Box::new(x)),
                    None => None,
                }));
                prev = Some(s);
            },
            None => {},
        }
    }
    prev
}

/// Rewrites `switch (discriminant) { cases }` (see `spec_switch`) and asks
/// for the result to be visited again. Fails with `Unsupported` where the
/// relabeling pass refuses a statement or a case holds a statement the
/// rewrite does not handle (see `cases_ok`), and with `OutOfFuel` when the
/// relabeling pass spends the budget `fuel` of nested visits.
pub fn transform_switch_statement(discriminant: Expr, cases: Vec<SwitchCase>, state: &mut MapperState, fuel: u64) -> (r: Result<(MapperAction, Stmt), MapError>)
    ensures
        final(state).continue_targets@ == old(state).continue_targets@,
        r is Ok ==> {
            let s = spec_switch(discriminant@, v_cases(cases@), old(state).id_counter);
            &&& r->Ok_0.0 == MapperAction::Revisit
            &&& r->Ok_0.1@ == s.0
            &&& final(state).id_counter == s.1
        },
        r matches Err(MapError::Unsupported) ==> !relabel_ok(discriminant@, v_cases(cases@), old(state).id_counter)
            || !cases_ok(rl_cases(v_cases(cases@), 0, Some(ident_name(old(state).id_counter as nat))).0),
        fuel >= 2 ==> (r is Ok <==> relabel_ok(discriminant@, v_cases(cases@), old(state).id_counter)
            && cases_ok(rl_cases(v_cases(cases@), 0, Some(ident_name(old(state).id_counter as nat))).0)),
        fuel >= 2 && r is Err ==> r->Err_0 == MapError::Unsupported,
        fuel < 2 ==> r == Err::<(MapperAction, Stmt), MapError>(MapError::OutOfFuel),
    decreases fuel, 0nat, 0nat,
{
    if fuel == 0 {
        return Err(MapError::OutOfFuel);
    }
    let ghost c = state.id_counter;
    let ghost l = ident_name(c as nat);
    let (needs_label, d, cs) = match update_breaks(discriminant, cases, state.id_counter, fuel - 1) { Ok(v) => v, Err(e) => { return Err(e); } };
    let ghost vcs = v_cases(cs@);
    let switch_label = if needs_label { state.next_ident_name() } else { String::new() };
    let disc_var = state.next_ident_name();
    if cs.len() == 0 {
        let ghost dv = d;
        assert(crate::spec_ast::v_opt_expr(Some(dv)) == Some(dv@));
        let decl = create_variable_declaration_kind(VarKind::Const, disc_var, Some(d));
        return Ok((MapperAction::Revisit, decl));
    }
    if !cases_supported(&cs) {
        return Err(MapError::Unsupported);
    }
    let outcome = state.next_ident_name();
    proof {
        lemma_v_cases_index(cs@);
    }
    let n = cs.len();
    let mut tests: Vec<Option<Expr>> = Vec::new();
    let mut bodies: Vec<Vec<Stmt>> = Vec::new();
    let mut rest = cs;
    let mut i: usize = 0;
    let ghost all = rest@;
    while rest.len() > 0
        invariant
            all.len() == n,
            vcs == v_cases(all),
            vcs.len() == n,
            forall|k: int| 0 <= k < n ==> #[trigger] vcs[k] == crate::spec_ast::v_case(all[k]),
            cases_ok(vcs),
            i + rest@.len() == n,
            rest@ == all.subrange(i as int, n as int),
            tests@.len() == i,
            bodies@.len() == i,
            forall|k: int| 0 <= k < i ==> #[trigger] crate::spec_ast::v_opt_expr(tests@[k]) == vcs[k].test,
            forall|k: int| 0 <= k < i ==> #[trigger] v_stmts(bodies@[k]@) == vcs[k].body.map_values(|s: SStmt| spec_case_stmt(s)),
        decreases rest.len(),
    {
        let x = rest.remove(0);
        assert(x == all[i as int]);
        let SwitchCase { test, body } = x;
        assert(vcs[i as int].body == v_stmts(body@));
        let nb = case_body(body);
        tests.push(test);
        bodies.push(nb);
        i = i + 1;
    }
    let ghost bodies_v = bodies@;
    let chain = build_chain(tests, &outcome, Ghost(vcs));
    let ghost chain_seq = match spec_chain(vcs, outcome@, 0) {
        Some(x) => seq![x],
        None => Seq::<SStmt>::empty(),
    };
    let ghost blocks = Seq::new(vcs.len(), |k: int| case_block(vcs[k], outcome@, k as nat));
    let head_stmt = create_variable_declaration_kind(VarKind::Let, outcome.clone(), Some(number_literal(n)));
    let ghost head = seq![head_stmt@];
    let mut out: Vec<Stmt> = Vec::new();
    let ghost o0 = out@;
    out.push(head_stmt);
    proof {
        lemma_v_stmts_push(o0, head_stmt);
        assert(v_stmts(o0) =~= Seq::<SStmt>::empty());
        assert(v_stmts(out@) =~= head);
    }
    match chain {
        Some(x) => {
            let ghost o1 = out@;
            out.push(x);
            proof {
                lemma_v_stmts_push(o1, x);
                assert(v_stmts(out@) =~= head + chain_seq);
            }
        },
        None => {
            proof {
                assert(v_stmts(out@) =~= head + chain_seq);
            }
        },
    }
    let mut j: usize = 0;
    let mut brest = bodies;
    while brest.len() > 0
        invariant
            j + brest@.len() == n,
            brest@ == bodies_v.subrange(j as int, n as int),
            bodies_v.len() == n,
            vcs.len() == n,
            forall|k: int| 0 <= k < n ==> #[trigger] v_stmts(bodies_v[k]@) == vcs[k].body.map_values(|s: SStmt| spec_case_stmt(s)),
            blocks == Seq::new(vcs.len(), |k: int| case_block(vcs[k], outcome@, k as nat)),
            v_stmts(out@) == head + chain_seq + blocks.take(j as int),
        decreases brest.len(),
    {
        let b = brest.remove(0);
        assert(b == bodies_v[j as int]);
        let cond = create_binary_expression(BinaryOp::LessEqualThan, create_identifier_expression(outcome.clone()), number_literal(j));
        let blk = Stmt::Block(b);
        let st = Stmt::If(cond, Box::new(blk), None);
        proof {
            assert(blk@ == SStmt::Block(v_stmts(b@)));
            assert(st@ == SStmt::If(cond@, Box::new(blk@), None));
            assert(st@ == case_block(vcs[j as int], outcome@, j as nat));
        }
        let ghost oj = out@;
        out.push(st);
        proof {
            lemma_v_stmts_push(oj, st);
            assert(blocks.take(j + 1) =~= blocks.take(j as int).push(st@));
            assert(head + chain_seq + blocks.take(j + 1) =~= (head + chain_seq + blocks.take(j as int)).push(st@));
        }
        j = j + 1;
    }
    proof {
        assert(blocks.take(j as int) =~= blocks);
    }
    let block = Stmt::Block(out);
    let result = if needs_label {
        let r = Stmt::Labeled(switch_label, Box::new(block));
        assert(r@ == SStmt::Labeled(l, Box::new(block@)));
        r
    } else {
        block
    };
    Ok((MapperAction::Revisit, result))
}

} // verus!
