use zero_sugar::ast::{
    Arg, Arrow, ArrowBody, Class, ClassElem, MethodKind, AssignOp, AssignTarget, BinaryOp, BindingProp, CatchClause, Declarator, Expr, ForInit,
    ForLeft, Function, Pattern, Program, PropKey, SimpleTarget, Stmt, SwitchCase, UpdateOp, VarDecl,
    VarKind,
};
use zero_sugar::mapper::{create_mapper, create_mapper_with_debug_id, MapError, MapperAction, StmtVisitor};
use zero_sugar::mapper_state::{ident_name_string, MapperState};
use zero_sugar::program::{map_error_message, transform_program, PROGRAM_FUEL};
use zero_sugar::transforms::stmt_continue::transform_continue_statement;
use zero_sugar::transforms::for_header::transform_for_header;
use zero_sugar::transforms::stmt_finally::transform_finally_statement;
use zero_sugar::transforms::stmt_var_decl::transform_var_decl_statement;
use zero_sugar::transforms::stmt_do_while::transform_do_while_statement;
use zero_sugar::transforms::stmt_for::transform_for_statement;
use zero_sugar::transforms::LoopTransformer;
use zero_sugar::utils::{example, rule};

fn id(s: &str) -> Expr {
    Expr::Ident(s.to_string())
}

fn num(s: &str) -> Expr {
    Expr::Number(s.to_string())
}

fn call(f: &str, args: Vec<Expr>) -> Expr {
    Expr::Call(Box::new(id(f)), args.into_iter().map(Arg::Expr).collect(), false)
}

fn call_stmt(f: &str, args: Vec<Expr>) -> Stmt {
    Stmt::Expr(call(f, args))
}

fn incr(name: &str) -> Expr {
    Expr::Update(UpdateOp::Increment, false, Box::new(SimpleTarget::Ident(name.to_string())))
}

fn assign(name: &str, value: Expr) -> Stmt {
    Stmt::Expr(Expr::Assign(AssignOp::Assign, Box::new(AssignTarget::Ident(name.to_string())), Box::new(value)))
}

fn decl(kind: VarKind, name: &str, init: Option<Expr>) -> Stmt {
    Stmt::VarDecl(VarDecl { kind, decls: vec![Declarator { id: Pattern::Ident(name.to_string()), init }] })
}

/// Whether a statement tree still holds any of the constructs the
/// desugaring removes: `switch`, `continue`, `do-while`, `for (;;)`,
/// `finally`, or a declaration with a destructuring pattern.
fn has_sugar(s: &Stmt) -> bool {
    match s {
        Stmt::Switch(..) | Stmt::Continue(..) | Stmt::DoWhile(..) | Stmt::For(..) => true,
        Stmt::Try(b, h, f) => {
            f.is_some()
                || b.iter().any(has_sugar)
                || h.as_ref().map_or(false, |c| c.body.iter().any(has_sugar))
        }
        Stmt::Block(b) => b.iter().any(has_sugar),
        Stmt::If(_, c, a) => has_sugar(c) || a.as_ref().map_or(false, |x| has_sugar(x)),
        Stmt::Labeled(_, b) | Stmt::While(_, b) | Stmt::With(_, b) | Stmt::ForIn(_, _, b) => has_sugar(b),
        Stmt::ForOf(_, _, b, _) => has_sugar(b),
        Stmt::VarDecl(d) => d.decls.iter().any(|x| !matches!(x.id, Pattern::Ident(_))),
        Stmt::FunctionDecl(f) => f.body.iter().any(has_sugar),
        _ => false,
    }
}

fn desugar(body: Vec<Stmt>) -> Vec<Stmt> {
    match transform_program(Program { body }) {
        Ok(p) => p.body,
        Err(e) => panic!("{}", map_error_message(e)),
    }
}

#[test]
fn fresh_names_count_up() {
    let mut state = MapperState::new();
    assert_eq!(state.next_ident_name(), "$zeroSugar0");
    assert_eq!(state.next_ident_name(), "$zeroSugar1");
    assert_eq!(state.id_counter, 2);
    assert_eq!(ident_name_string(12), "$zeroSugar12");
    assert_eq!(ident_name_string(0), "$zeroSugar0");
}

#[test]
fn rule_and_example_lines() {
    assert_eq!(rule("Do-while to while"), "Rule: Do-while to while");
    assert_eq!(example("do {} while (x)", "while (x) {}"), "Example: do {} while (x) --> while (x) {}");
    assert_eq!(rule(""), "Rule: ");
}

#[test]
fn error_messages() {
    assert_eq!(map_error_message(MapError::OutOfFuel), "the program is nested too deeply");
    assert_eq!(
        map_error_message(MapError::Unsupported),
        "the program holds a statement the rewrites do not handle"
    );
}

#[test]
fn do_while_becomes_flag_loop() {
    let body = Stmt::Block(vec![call_stmt("log", vec![id("x")]), Stmt::Expr(incr("x"))]);
    let mut state = MapperState::new();
    let (action, out) = transform_do_while_statement(body, id("x"), &mut state);
    assert_eq!(action, MapperAction::Revisit);
    let expected = Stmt::Block(vec![
        decl(VarKind::Let, "$zeroSugar0", Some(Expr::Bool(true))),
        Stmt::While(
            id("$zeroSugar0"),
            Box::new(Stmt::Block(vec![
                Stmt::Block(vec![call_stmt("log", vec![id("x")]), Stmt::Expr(incr("x"))]),
                assign("$zeroSugar0", id("x")),
            ])),
        ),
    ]);
    assert_eq!(out, expected);
    assert_eq!(state.id_counter, 1);
}

#[test]
fn for_with_init_becomes_block_with_while() {
    let init = Some(ForInit::VarDecl(VarDecl {
        kind: VarKind::Let,
        decls: vec![Declarator { id: Pattern::Ident("i".to_string()), init: Some(num("0")) }],
    }));
    let test = Some(Expr::Binary(BinaryOp::LessThan, Box::new(id("i")), Box::new(id("n"))));
    let out = transform_for_statement(init, test, Some(incr("i")), call_stmt("f", vec![id("i")]));
    let expected = Stmt::Block(vec![
        decl(VarKind::Let, "i", Some(num("0"))),
        Stmt::While(
            Expr::Binary(BinaryOp::LessThan, Box::new(id("i")), Box::new(id("n"))),
            Box::new(Stmt::Block(vec![call_stmt("f", vec![id("i")]), Stmt::Expr(incr("i"))])),
        ),
    ]);
    assert_eq!(out, expected);
}

#[test]
fn empty_for_header_loops_forever() {
    let out = transform_for_statement(None, None, None, Stmt::Break(None));
    assert_eq!(out, Stmt::While(Expr::Bool(true), Box::new(Stmt::Block(vec![Stmt::Break(None)]))));
}

#[test]
fn loop_transformer_rewrites_loops_only() {
    let mut t = LoopTransformer::new();
    let out = t.transform_statement(Stmt::DoWhile(Box::new(Stmt::Empty), id("x"))).unwrap();
    assert!(matches!(out, Stmt::Block(_)));
    assert_eq!(t.state.id_counter, 1);
    let out = t.transform_statement(Stmt::For(None, Some(id("y")), None, Box::new(Stmt::Empty))).unwrap();
    assert_eq!(out, Stmt::While(id("y"), Box::new(Stmt::Block(vec![Stmt::Empty]))));
    let out = t.transform_statement(Stmt::Debugger).unwrap();
    assert_eq!(out, Stmt::Debugger);
    assert_eq!(t.state.id_counter, 1);
}

#[test]
fn continue_becomes_break_and_reuses_label() {
    let mut state = MapperState::new();
    state.continue_targets.push(("#loop".to_string(), None));
    let (a, s) = transform_continue_statement(None, &mut state);
    assert_eq!(a, MapperAction::Revisit);
    assert_eq!(s, Stmt::Break(Some("$zeroSugar0".to_string())));
    assert_eq!(state.continue_targets[0].1, Some("$zeroSugar0".to_string()));
    let (_, s) = transform_continue_statement(None, &mut state);
    assert_eq!(s, Stmt::Break(Some("$zeroSugar0".to_string())));
    assert_eq!(state.id_counter, 1);
}

#[test]
fn labeled_continue_targets_the_loop_after_its_label() {
    let mut state = MapperState::new();
    state.continue_targets.push(("outer".to_string(), None));
    state.continue_targets.push(("#loop".to_string(), None));
    state.continue_targets.push(("#loop".to_string(), None));
    let (_, s) = transform_continue_statement(Some("outer".to_string()), &mut state);
    assert_eq!(s, Stmt::Break(Some("$zeroSugar0".to_string())));
    assert_eq!(state.continue_targets[0].1, None);
    assert_eq!(state.continue_targets[1].1, Some("$zeroSugar0".to_string()));
    assert_eq!(state.continue_targets[2].1, None);
}

fn sample_program() -> Vec<Stmt> {
    vec![
        decl(VarKind::Let, "x", Some(num("1"))),
        Stmt::While(
            id("x"),
            Box::new(Stmt::Block(vec![
                Stmt::If(id("x"), Box::new(Stmt::Break(None)), Some(Box::new(Stmt::Expr(incr("x"))))),
                Stmt::FunctionDecl(Box::new(Function {
                    id: Some("f".to_string()),
                    params: vec![],
                    rest: None,
                    body: vec![Stmt::Return(Some(id("x")))],
                    is_async: false,
                    is_generator: false,
                })),
            ])),
        ),
    ]
}

#[test]
fn mapper_without_visitors_keeps_the_program() {
    let mut m = create_mapper();
    let out = m.map(Program { body: sample_program() }, PROGRAM_FUEL).unwrap();
    assert_eq!(out.body, sample_program());
    assert!(!m.relabeled);
}

#[test]
fn mapper_runs_out_of_fuel() {
    let mut m = create_mapper();
    m.add_visitor_stmt(StmtVisitor::Pipeline);
    let body = vec![Stmt::DoWhile(Box::new(call_stmt("f", vec![])), id("x"))];
    let r = m.map(Program { body }, 1);
    assert_eq!(r, Err(MapError::OutOfFuel));
}

#[test]
fn mapper_without_visitors_needs_no_fuel() {
    let mut m = create_mapper();
    let out = m.map(Program { body: sample_program() }, 0).unwrap();
    assert_eq!(out.body, sample_program());
}

#[test]
fn break_relabeling_labels_unlabeled_breaks() {
    let mut m = create_mapper_with_debug_id("sub".to_string());
    m.add_visitor_stmt(StmtVisitor::BreakRelabel("L".to_string()));
    let body = || {
        vec![
            Stmt::If(id("x"), Box::new(Stmt::Break(None)), None),
            Stmt::While(id("y"), Box::new(Stmt::Break(None))),
        ]
    };
    let out = m.map(Program { body: body() }, PROGRAM_FUEL).unwrap();
    let mut expected = body();
    expected[0] = Stmt::If(id("x"), Box::new(Stmt::Break(Some("L".to_string()))), None);
    assert_eq!(out.body, expected);
    assert!(m.relabeled);
    assert_eq!(m.debug_id, "sub");
}

#[test]
fn break_relabeling_refuses_switch() {
    let mut m = create_mapper();
    m.add_visitor_stmt(StmtVisitor::BreakRelabel("L".to_string()));
    let body = vec![Stmt::Switch(id("x"), vec![])];
    assert_eq!(m.map(Program { body }, PROGRAM_FUEL), Err(MapError::Unsupported));
}

#[test]
fn desugar_do_while() {
    let out = desugar(vec![Stmt::DoWhile(Box::new(call_stmt("f", vec![])), id("x"))]);
    assert!(!out.iter().any(has_sugar));
}

#[test]
fn desugar_for_with_continue() {
    let init = Some(ForInit::VarDecl(VarDecl {
        kind: VarKind::Let,
        decls: vec![Declarator { id: Pattern::Ident("i".to_string()), init: Some(num("0")) }],
    }));
    let body = Stmt::Block(vec![
        Stmt::If(id("skip"), Box::new(Stmt::Continue(None)), None),
        call_stmt("f", vec![id("i")]),
    ]);
    let out = desugar(vec![Stmt::For(init, Some(id("c")), Some(incr("i")), Box::new(body))]);
    assert!(!out.iter().any(has_sugar));
}

#[test]
fn desugar_switch() {
    let cases = vec![
        SwitchCase { test: Some(num("1")), body: vec![call_stmt("a", vec![]), Stmt::Break(None)] },
        SwitchCase { test: None, body: vec![call_stmt("b", vec![])] },
        SwitchCase { test: Some(num("2")), body: vec![call_stmt("c", vec![])] },
    ];
    let out = desugar(vec![Stmt::Switch(id("x"), cases)]);
    assert!(!out.iter().any(has_sugar));
}

#[test]
fn desugar_finally() {
    let t = Stmt::Try(
        vec![call_stmt("a", vec![])],
        Some(CatchClause { param: Some(Pattern::Ident("e".to_string())), body: vec![call_stmt("b", vec![id("e")])] }),
        Some(vec![call_stmt("c", vec![])]),
    );
    let out = desugar(vec![t]);
    assert!(!out.iter().any(has_sugar));
}

#[test]
fn desugar_destructuring_declaration() {
    let pattern = Pattern::Object(
        vec![
            BindingProp {
                key: PropKey::Ident("a".to_string()),
                value: Pattern::Ident("a".to_string()),
                shorthand: true,
                computed: false,
            },
            BindingProp {
                key: PropKey::Ident("b".to_string()),
                value: Pattern::Array(vec![Some(Pattern::Ident("c".to_string())), None], None),
                shorthand: false,
                computed: false,
            },
        ],
        None,
    );
    let d = Stmt::VarDecl(VarDecl { kind: VarKind::Const, decls: vec![Declarator { id: pattern, init: Some(id("obj")) }] });
    let out = desugar(vec![d, call_stmt("f", vec![id("a"), id("c")])]);
    assert!(!out.iter().any(has_sugar));
}

#[test]
fn desugar_for_of_becomes_while_loop() {
    let left = ForLeft::VarDecl(VarDecl {
        kind: VarKind::Const,
        decls: vec![Declarator { id: Pattern::Array(vec![Some(Pattern::Ident("k".to_string()))], None), init: None }],
    });
    let out = desugar(vec![Stmt::ForOf(left, id("xs"), Box::new(call_stmt("f", vec![id("k")])), false)]);
    assert!(!out.iter().any(has_sugar));
    assert!(!out.iter().any(|s| matches!(s, Stmt::ForOf(..))));
}

#[test]
fn desugar_nested_sugar_in_function_and_labels() {
    let inner_switch = Stmt::Switch(
        id("k"),
        vec![SwitchCase { test: Some(num("1")), body: vec![call_stmt("a", vec![])] }],
    );
    let loop_body = Stmt::Block(vec![
        Stmt::DoWhile(Box::new(Stmt::Block(vec![inner_switch])), id("y")),
        Stmt::If(id("z"), Box::new(Stmt::Continue(Some("outer".to_string()))), None),
    ]);
    let labeled = Stmt::Labeled("outer".to_string(), Box::new(Stmt::While(id("w"), Box::new(loop_body))));
    let f = Function {
        id: Some("g".to_string()),
        params: vec![],
        rest: None,
        body: vec![Stmt::Try(vec![labeled], None, Some(vec![call_stmt("done", vec![])]))],
        is_async: false,
        is_generator: false,
    };
    let out = desugar(vec![Stmt::FunctionDecl(Box::new(f))]);
    assert!(!out.iter().any(has_sugar));
    assert!(matches!(out.as_slice(), [Stmt::FunctionDecl(_)]));
}

fn plain_function(body: Vec<Stmt>) -> Function {
    Function { id: None, params: vec![], rest: None, body, is_async: false, is_generator: false }
}

#[test]
fn desugar_sugar_inside_expressions() {
    let fexpr = Expr::Function(Box::new(plain_function(vec![Stmt::Switch(
        id("k"),
        vec![SwitchCase { test: Some(num("1")), body: vec![call_stmt("a", vec![])] }],
    )])));
    let arrow = Expr::Arrow(Box::new(Arrow {
        params: vec![],
        rest: None,
        body: ArrowBody::Block(vec![Stmt::DoWhile(Box::new(call_stmt("b", vec![])), id("y"))]),
        is_async: false,
    }));
    let class = Expr::Class(Box::new(Class {
        id: None,
        super_class: None,
        body: vec![ClassElem::Method {
            key: PropKey::Ident("m".to_string()),
            kind: MethodKind::Method,
            value: plain_function(vec![Stmt::For(None, Some(id("c")), None, Box::new(call_stmt("d", vec![])))]),
            computed: false,
            is_static: false,
        }],
    }));
    let out = desugar(vec![
        assign("f", fexpr),
        Stmt::Expr(call("g", vec![arrow])),
        assign("k", class),
    ]);
    let bodies: Vec<&Vec<Stmt>> = out
        .iter()
        .flat_map(|s| match s {
            Stmt::Expr(Expr::Assign(_, _, v)) => match v.as_ref() {
                Expr::Function(f) => vec![&f.body],
                Expr::Class(c) => c
                    .body
                    .iter()
                    .filter_map(|e| match e {
                        ClassElem::Method { value, .. } => Some(&value.body),
                        _ => None,
                    })
                    .collect(),
                _ => vec![],
            },
            Stmt::Expr(Expr::Call(_, args, _)) => args
                .iter()
                .filter_map(|a| match a {
                    Arg::Expr(Expr::Arrow(ar)) => match &ar.body {
                        ArrowBody::Block(b) => Some(b),
                        _ => None,
                    },
                    _ => None,
                })
                .collect(),
            _ => vec![],
        })
        .collect();
    assert_eq!(bodies.len(), 3);
    for b in bodies {
        assert!(!b.is_empty());
        assert!(!b.iter().any(has_sugar));
    }
}

#[test]
fn declaration_without_initializer_gets_undefined() {
    let mut state = MapperState::new();
    let (_, out) = transform_var_decl_statement(vec![decl(VarKind::Let, "x", None)], &mut state);
    assert_eq!(out, Stmt::Block(vec![decl(VarKind::Let, "x", Some(id("undefined")))]));
    assert_eq!(state.id_counter, 0);
}

#[test]
fn labeled_and_unlabeled_continue_share_one_label() {
    let mut state = MapperState::new();
    state.continue_targets.push(("outer".to_string(), None));
    state.continue_targets.push(("#loop".to_string(), None));
    let (_, s1) = transform_continue_statement(Some("outer".to_string()), &mut state);
    let (_, s2) = transform_continue_statement(Some("outer".to_string()), &mut state);
    let (_, s3) = transform_continue_statement(None, &mut state);
    assert_eq!(s1, Stmt::Break(Some("$zeroSugar0".to_string())));
    assert_eq!(s2, s1);
    assert_eq!(s3, s1);
    assert_eq!(state.id_counter, 1);
    assert_eq!(state.continue_targets[1].1, Some("$zeroSugar0".to_string()));
}

#[test]
fn loop_header_pattern_is_bound_in_the_body() {
    let mut state = MapperState::new();
    let pattern = || Pattern::Array(vec![Some(Pattern::Ident("x".to_string()))], None);
    let left = ForLeft::VarDecl(VarDecl { kind: VarKind::Let, decls: vec![Declarator { id: pattern(), init: None }] });
    let (nl, st) = transform_for_header(left, &mut state);
    assert_eq!(
        nl,
        ForLeft::VarDecl(VarDecl {
            kind: VarKind::Let,
            decls: vec![Declarator { id: Pattern::Ident("$zeroSugar0".to_string()), init: None }],
        })
    );
    assert_eq!(
        st,
        Some(Stmt::VarDecl(VarDecl {
            kind: VarKind::Let,
            decls: vec![Declarator { id: pattern(), init: Some(id("$zeroSugar0")) }],
        }))
    );
    assert_eq!(state.id_counter, 1);
}

#[test]
fn renamed_property_with_default_reads_the_key() {
    let pattern = Pattern::Object(
        vec![BindingProp {
            key: PropKey::Ident("a".to_string()),
            value: Pattern::Assign(Box::new(Pattern::Ident("b".to_string())), Box::new(num("1"))),
            shorthand: false,
            computed: false,
        }],
        None,
    );
    let d = Stmt::VarDecl(VarDecl { kind: VarKind::Let, decls: vec![Declarator { id: pattern, init: Some(id("y")) }] });
    let mut state = MapperState::new();
    let (_, out) = transform_var_decl_statement(vec![d], &mut state);
    let text = format!("{:?}", out);
    assert!(text.contains("Static(Ident(\"y\"), \"a\""), "{}", text);
    assert!(!text.contains("Static(Ident(\"y\"), \"b\""), "{}", text);
}

#[test]
fn local_breaks_in_protected_block_are_kept() {
    let inner_loop = || Stmt::While(id("w"), Box::new(Stmt::Break(None)));
    let labeled = || Stmt::Labeled("a".to_string(), Box::new(Stmt::Block(vec![Stmt::Break(Some("a".to_string()))])));
    let block = vec![inner_loop(), labeled(), Stmt::Return(Some(num("1")))];
    let mut state = MapperState::new();
    let (a, out) = transform_finally_statement(block, None, Some(vec![call_stmt("f", vec![])]), &mut state);
    assert_eq!(a, MapperAction::Revisit);
    let text = format!("{:?}", out);
    assert!(!text.contains("#looped"), "{}", text);
    assert!(text.contains(&format!("{:?}", inner_loop())), "{}", text);
    assert!(text.contains(&format!("{:?}", labeled())), "{}", text);
}

#[test]
fn switch_keeps_breaks_of_inner_while() {
    let cases = vec![SwitchCase {
        test: Some(num("1")),
        body: vec![Stmt::While(id("w"), Box::new(Stmt::Break(None))), Stmt::Break(None)],
    }];
    let out = desugar(vec![Stmt::Switch(id("x"), cases)]);
    let text = format!("{:?}", out);
    assert!(text.contains(&format!("{:?}", Stmt::While(id("w"), Box::new(Stmt::Break(None))))), "{}", text);
    assert!(!out.iter().any(has_sugar));
}

fn continue_in_switch_program() -> Vec<Stmt> {
    let log = |s: &str| {
        Stmt::Expr(Expr::Call(
            Box::new(Expr::Member(Box::new(zero_sugar::ast::Member::Static(id("console"), "log".to_string(), false)))),
            vec![Arg::Expr(Expr::Str(s.to_string()))],
            false,
        ))
    };
    let cases = vec![
        SwitchCase {
            test: Some(num("1")),
            body: vec![Stmt::If(id("z"), Box::new(Stmt::Continue(None)), None), log("one"), Stmt::Break(None)],
        },
        SwitchCase { test: None, body: vec![log("other")] },
    ];
    vec![Stmt::While(id("x"), Box::new(Stmt::Block(vec![Stmt::Switch(id("y"), cases)])))]
}

#[test]
fn continue_in_switch_end_to_end() {
    let out = desugar(continue_in_switch_program());
    assert!(!out.iter().any(has_sugar));
    let text = format!("{:?}", out);
    assert!(text.contains("While(Ident(\"x\"), Labeled(\"$zeroSugar0\""), "{}", text);
    assert!(text.contains("Labeled(\"$zeroSugar1\""), "{}", text);
    assert!(text.contains("Break(Some(\"$zeroSugar0\"))"), "{}", text);
    assert!(text.contains("Break(Some(\"$zeroSugar1\"))"), "{}", text);
    assert!(text.contains("Str(\"one\")") && text.contains("Str(\"other\")"), "{}", text);
}

#[test]
fn desugaring_is_deterministic() {
    let a = desugar(continue_in_switch_program());
    let b = desugar(continue_in_switch_program());
    assert_eq!(a, b);
}
