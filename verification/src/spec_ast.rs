//! The mathematical model of the syntax tree: the same shape as `ast`, with
//! sequences in place of vectors and character sequences in place of strings.
//! Every syntax type is viewed as its model; contracts are stated over models.

use vstd::prelude::*;
use crate::ast::{
    Arg, ArrayElem, Arrow, ArrowBody, AssignOp, AssignTarget, BinaryOp, BindingProp, CatchClause,
    ChainElem, Class, ClassElem, Declarator, Expr, ForInit, ForLeft, Function, LogicalOp, Member,
    MethodKind, ObjProp, Pattern, PropKey, PropKind, SimpleTarget, Stmt, SwitchCase, Template,
    UnaryOp, UpdateOp, VarDecl, VarKind,
};

verus! {

pub enum SPropKey {
    Ident(Seq<char>),
    Private(Seq<char>),
    Expr(Box<SExpr>),
}

pub struct STemplate {
    pub quasis: Seq<Seq<char>>,
    pub exprs: Seq<SExpr>,
}

pub enum SArrayElem {
    Expr(SExpr),
    Spread(SExpr),
    Hole,
}

pub enum SArg {
    Expr(SExpr),
    Spread(SExpr),
}

pub enum SObjProp {
    Prop { kind: PropKind, key: SPropKey, value: SExpr, method: bool, shorthand: bool, computed: bool },
    Spread(SExpr),
}

pub enum SMember {
    Computed(SExpr, SExpr, bool),
    Static(SExpr, Seq<char>, bool),
    Private(SExpr, Seq<char>, bool),
}

pub enum SChainElem {
    Call(SExpr, Seq<SArg>, bool),
    Computed(SExpr, SExpr, bool),
    Static(SExpr, Seq<char>, bool),
}

pub enum SSimpleTarget {
    Ident(Seq<char>),
    Computed(SExpr, SExpr, bool),
    Static(SExpr, Seq<char>, bool),
}

pub enum SAssignTarget {
    Ident(Seq<char>),
    Member(SMember),
    Pattern(u64),
}

pub enum SPattern {
    Ident(Seq<char>),
    Object(Seq<SBindingProp>, Option<Box<SPattern>>),
    Array(Seq<Option<SPattern>>, Option<Box<SPattern>>),
    Assign(Box<SPattern>, Box<SExpr>),
}

pub struct SBindingProp {
    pub key: SPropKey,
    pub value: SPattern,
    pub shorthand: bool,
    pub computed: bool,
}

pub struct SFunction {
    pub id: Option<Seq<char>>,
    pub params: Seq<SPattern>,
    pub rest: Option<SPattern>,
    pub body: Seq<SStmt>,
    pub is_async: bool,
    pub is_generator: bool,
}

pub enum SArrowBody {
    Expr(SExpr),
    Block(Seq<SStmt>),
}

pub struct SArrow {
    pub params: Seq<SPattern>,
    pub rest: Option<SPattern>,
    pub body: SArrowBody,
    pub is_async: bool,
}

pub enum SClassElem {
    Property { key: SPropKey, value: Option<SExpr>, computed: bool, is_static: bool },
    Method { key: SPropKey, kind: MethodKind, value: SFunction, computed: bool, is_static: bool },
    Other(u64),
}

pub struct SClass {
    pub id: Option<Seq<char>>,
    pub super_class: Option<SExpr>,
    pub body: Seq<SClassElem>,
}

pub enum SExpr {
    Ident(Seq<char>),
    This,
    Super,
    Null,
    Bool(bool),
    Number(Seq<char>),
    BigInt(Seq<char>),
    Str(Seq<char>),
    RegExp(Seq<char>, Seq<char>),
    Template(STemplate),
    MetaProperty(Seq<char>, Seq<char>),
    Array(Seq<SArrayElem>),
    Object(Seq<SObjProp>),
    Function(Box<SFunction>),
    Arrow(Box<SArrow>),
    Class(Box<SClass>),
    Assign(AssignOp, Box<SAssignTarget>, Box<SExpr>),
    Await(Box<SExpr>),
    Binary(BinaryOp, Box<SExpr>, Box<SExpr>),
    Logical(LogicalOp, Box<SExpr>, Box<SExpr>),
    Unary(UnaryOp, Box<SExpr>),
    Update(UpdateOp, bool, Box<SSimpleTarget>),
    Call(Box<SExpr>, Seq<SArg>, bool),
    New(Box<SExpr>, Seq<SArg>),
    Chain(Box<SChainElem>),
    Member(Box<SMember>),
    Conditional(Box<SExpr>, Box<SExpr>, Box<SExpr>),
    Sequence(Seq<SExpr>),
    TaggedTemplate(Box<SExpr>, STemplate),
    Yield(Option<Box<SExpr>>, bool),
    Paren(Box<SExpr>),
    Import(Box<SExpr>, Seq<SExpr>),
}

pub struct SDeclarator {
    pub id: SPattern,
    pub init: Option<SExpr>,
}

pub struct SVarDecl {
    pub kind: VarKind,
    pub decls: Seq<SDeclarator>,
}

pub enum SForInit {
    Expr(SExpr),
    VarDecl(SVarDecl),
}

pub enum SForLeft {
    VarDecl(SVarDecl),
    Target(SAssignTarget),
}

pub struct SSwitchCase {
    pub test: Option<SExpr>,
    pub body: Seq<SStmt>,
}

pub struct SCatchClause {
    pub param: Option<SPattern>,
    pub body: Seq<SStmt>,
}

pub enum SStmt {
    Block(Seq<SStmt>),
    Break(Option<Seq<char>>),
    Continue(Option<Seq<char>>),
    Debugger,
    DoWhile(Box<SStmt>, SExpr),
    Empty,
    Expr(SExpr),
    ForIn(SForLeft, SExpr, Box<SStmt>),
    ForOf(SForLeft, SExpr, Box<SStmt>, bool),
    For(Option<SForInit>, Option<SExpr>, Option<SExpr>, Box<SStmt>),
    If(SExpr, Box<SStmt>, Option<Box<SStmt>>),
    Labeled(Seq<char>, Box<SStmt>),
    Return(Option<SExpr>),
    Switch(SExpr, Seq<SSwitchCase>),
    Throw(SExpr),
    Try(Seq<SStmt>, Option<SCatchClause>, Option<Seq<SStmt>>),
    While(SExpr, Box<SStmt>),
    With(SExpr, Box<SStmt>),
    VarDecl(SVarDecl),
    FunctionDecl(Box<SFunction>),
    ClassDecl(Box<SClass>),
    ModuleDecl(u64),
}

pub open spec fn vs(s: String) -> Seq<char> {
    s@
}

pub open spec fn vs_opt(s: Option<String>) -> Option<Seq<char>> {
    match s {
        Some(x) => Some(x@),
        None => None,
    }
}

pub open spec fn vs_seq(s: Seq<String>) -> Seq<Seq<char>>
    decreases s.len(),
{
    if s.len() == 0 { Seq::empty() } else { vs_seq(s.drop_last()).push(s.last()@) }
}

pub open spec fn v_prop_key(k: PropKey) -> SPropKey
    decreases k,
{
    match k {
        PropKey::Ident(n) => SPropKey::Ident(n@),
        PropKey::Private(n) => SPropKey::Private(n@),
        PropKey::Expr(e) => SPropKey::Expr(Box::new(v_expr(*e))),
    }
}

pub open spec fn v_template(t: Template) -> STemplate
    decreases t,
{
    STemplate { quasis: vs_seq(t.quasis@), exprs: v_exprs(t.exprs@) }
}

pub open spec fn v_array_elems(s: Seq<ArrayElem>) -> Seq<SArrayElem>
    decreases s,
{
    if s.len() == 0 {
        Seq::empty()
    } else {
        v_array_elems(s.drop_last()).push(
            match s.last() {
                ArrayElem::Expr(e) => SArrayElem::Expr(v_expr(e)),
                ArrayElem::Spread(e) => SArrayElem::Spread(v_expr(e)),
                ArrayElem::Hole => SArrayElem::Hole,
            },
        )
    }
}

pub open spec fn v_args(s: Seq<Arg>) -> Seq<SArg>
    decreases s,
{
    if s.len() == 0 {
        Seq::empty()
    } else {
        v_args(s.drop_last()).push(
            match s.last() {
                Arg::Expr(e) => SArg::Expr(v_expr(e)),
                Arg::Spread(e) => SArg::Spread(v_expr(e)),
            },
        )
    }
}

pub open spec fn v_obj_props(s: Seq<ObjProp>) -> Seq<SObjProp>
    decreases s,
{
    if s.len() == 0 {
        Seq::empty()
    } else {
        v_obj_props(s.drop_last()).push(
            match s.last() {
                ObjProp::Prop { kind, key, value, method, shorthand, computed } => SObjProp::Prop {
                    kind,
                    key: v_prop_key(key),
                    value: v_expr(value),
                    method,
                    shorthand,
                    computed,
                },
                ObjProp::Spread(e) => SObjProp::Spread(v_expr(e)),
            },
        )
    }
}

pub open spec fn v_member(m: Member) -> SMember
    decreases m,
{
    match m {
        Member::Computed(o, p, opt) => SMember::Computed(v_expr(o), v_expr(p), opt),
        Member::Static(o, n, opt) => SMember::Static(v_expr(o), n@, opt),
        Member::Private(o, n, opt) => SMember::Private(v_expr(o), n@, opt),
    }
}

pub open spec fn v_chain(c: ChainElem) -> SChainElem
    decreases c,
{
    match c {
        ChainElem::Call(f, a, opt) => SChainElem::Call(v_expr(f), v_args(a@), opt),
        ChainElem::Computed(o, p, opt) => SChainElem::Computed(v_expr(o), v_expr(p), opt),
        ChainElem::Static(o, n, opt) => SChainElem::Static(v_expr(o), n@, opt),
    }
}

pub open spec fn v_simple_target(t: SimpleTarget) -> SSimpleTarget
    decreases t,
{
    match t {
        SimpleTarget::Ident(n) => SSimpleTarget::Ident(n@),
        SimpleTarget::Computed(o, p, opt) => SSimpleTarget::Computed(v_expr(o), v_expr(p), opt),
        SimpleTarget::Static(o, n, opt) => SSimpleTarget::Static(v_expr(o), n@, opt),
    }
}

pub open spec fn v_target(t: AssignTarget) -> SAssignTarget
    decreases t,
{
    match t {
        AssignTarget::Ident(n) => SAssignTarget::Ident(n@),
        AssignTarget::Member(m) => SAssignTarget::Member(v_member(m)),
        AssignTarget::Pattern(h) => SAssignTarget::Pattern(h),
    }
}

pub open spec fn v_pattern(p: Pattern) -> SPattern
    decreases p,
{
    match p {
        Pattern::Ident(n) => SPattern::Ident(n@),
        Pattern::Object(props, rest) => SPattern::Object(
            v_binding_props(props@),
            match rest {
                Some(r) => Some(Box::new(v_pattern(*r))),
                None => None,
            },
        ),
        Pattern::Array(elems, rest) => SPattern::Array(
            v_opt_patterns(elems@),
            match rest {
                Some(r) => Some(Box::new(v_pattern(*r))),
                None => None,
            },
        ),
        Pattern::Assign(l, r) => SPattern::Assign(Box::new(v_pattern(*l)), Box::new(v_expr(*r))),
    }
}

pub open spec fn v_opt_pattern(p: Option<Pattern>) -> Option<SPattern>
    decreases p,
{
    match p {
        Some(q) => Some(v_pattern(q)),
        None => None,
    }
}

pub open spec fn v_patterns(s: Seq<Pattern>) -> Seq<SPattern>
    decreases s,
{
    if s.len() == 0 { Seq::empty() } else { v_patterns(s.drop_last()).push(v_pattern(s.last())) }
}

pub open spec fn v_opt_patterns(s: Seq<Option<Pattern>>) -> Seq<Option<SPattern>>
    decreases s,
{
    if s.len() == 0 {
        Seq::empty()
    } else {
        v_opt_patterns(s.drop_last()).push(v_opt_pattern(s.last()))
    }
}

pub open spec fn v_binding_props(s: Seq<BindingProp>) -> Seq<SBindingProp>
    decreases s,
{
    if s.len() == 0 {
        Seq::empty()
    } else {
        let p = s.last();
        v_binding_props(s.drop_last()).push(
            SBindingProp {
                key: v_prop_key(p.key),
                value: v_pattern(p.value),
                shorthand: p.shorthand,
                computed: p.computed,
            },
        )
    }
}

pub open spec fn v_function(f: Function) -> SFunction
    decreases f,
{
    SFunction {
        id: vs_opt(f.id),
        params: v_patterns(f.params@),
        rest: v_opt_pattern(f.rest),
        body: v_stmts(f.body@),
        is_async: f.is_async,
        is_generator: f.is_generator,
    }
}

pub open spec fn v_arrow(a: Arrow) -> SArrow
    decreases a,
{
    SArrow {
        params: v_patterns(a.params@),
        rest: v_opt_pattern(a.rest),
        body: match a.body {
            ArrowBody::Expr(e) => SArrowBody::Expr(v_expr(e)),
            ArrowBody::Block(b) => SArrowBody::Block(v_stmts(b@)),
        },
        is_async: a.is_async,
    }
}

pub open spec fn v_class_elems(s: Seq<ClassElem>) -> Seq<SClassElem>
    decreases s,
{
    if s.len() == 0 {
        Seq::empty()
    } else {
        v_class_elems(s.drop_last()).push(
            match s.last() {
                ClassElem::Property { key, value, computed, is_static } => SClassElem::Property {
                    key: v_prop_key(key),
                    value: v_opt_expr(value),
                    computed,
                    is_static,
                },
                ClassElem::Method { key, kind, value, computed, is_static } => SClassElem::Method {
                    key: v_prop_key(key),
                    kind,
                    value: v_function(value),
                    computed,
                    is_static,
                },
                ClassElem::Other(h) => SClassElem::Other(h),
            },
        )
    }
}

pub open spec fn v_class(c: Class) -> SClass
    decreases c,
{
    SClass { id: vs_opt(c.id), super_class: v_opt_expr(c.super_class), body: v_class_elems(c.body@) }
}

pub open spec fn v_opt_expr(e: Option<Expr>) -> Option<SExpr>
    decreases e,
{
    match e {
        Some(x) => Some(v_expr(x)),
        None => None,
    }
}

pub open spec fn v_exprs(s: Seq<Expr>) -> Seq<SExpr>
    decreases s,
{
    if s.len() == 0 { Seq::empty() } else { v_exprs(s.drop_last()).push(v_expr(s.last())) }
}

pub open spec fn v_expr(e: Expr) -> SExpr
    decreases e,
{
    match e {
        Expr::Ident(n) => SExpr::Ident(n@),
        Expr::This => SExpr::This,
        Expr::Super => SExpr::Super,
        Expr::Null => SExpr::Null,
        Expr::Bool(b) => SExpr::Bool(b),
        Expr::Number(n) => SExpr::Number(n@),
        Expr::BigInt(n) => SExpr::BigInt(n@),
        Expr::Str(n) => SExpr::Str(n@),
        Expr::RegExp(p, f) => SExpr::RegExp(p@, f@),
        Expr::Template(t) => SExpr::Template(v_template(t)),
        Expr::MetaProperty(a, b) => SExpr::MetaProperty(a@, b@),
        Expr::Array(v) => SExpr::Array(v_array_elems(v@)),
        Expr::Object(v) => SExpr::Object(v_obj_props(v@)),
        Expr::Function(f) => SExpr::Function(Box::new(v_function(*f))),
        Expr::Arrow(a) => SExpr::Arrow(Box::new(v_arrow(*a))),
        Expr::Class(c) => SExpr::Class(Box::new(v_class(*c))),
        Expr::Assign(op, t, r) => SExpr::Assign(op, Box::new(v_target(*t)), Box::new(v_expr(*r))),
        Expr::Await(a) => SExpr::Await(Box::new(v_expr(*a))),
        Expr::Binary(op, l, r) => SExpr::Binary(op, Box::new(v_expr(*l)), Box::new(v_expr(*r))),
        Expr::Logical(op, l, r) => SExpr::Logical(op, Box::new(v_expr(*l)), Box::new(v_expr(*r))),
        Expr::Unary(op, a) => SExpr::Unary(op, Box::new(v_expr(*a))),
        Expr::Update(op, p, t) => SExpr::Update(op, p, Box::new(v_simple_target(*t))),
        Expr::Call(f, a, opt) => SExpr::Call(Box::new(v_expr(*f)), v_args(a@), opt),
        Expr::New(f, a) => SExpr::New(Box::new(v_expr(*f)), v_args(a@)),
        Expr::Chain(c) => SExpr::Chain(Box::new(v_chain(*c))),
        Expr::Member(m) => SExpr::Member(Box::new(v_member(*m))),
        Expr::Conditional(t, c, a) => SExpr::Conditional(
            Box::new(v_expr(*t)),
            Box::new(v_expr(*c)),
            Box::new(v_expr(*a)),
        ),
        Expr::Sequence(v) => SExpr::Sequence(v_exprs(v@)),
        Expr::TaggedTemplate(t, q) => SExpr::TaggedTemplate(Box::new(v_expr(*t)), v_template(q)),
        Expr::Yield(a, d) => SExpr::Yield(
            match a {
                Some(x) => Some(Box::new(v_expr(*x))),
                None => None,
            },
            d,
        ),
        Expr::Paren(a) => SExpr::Paren(Box::new(v_expr(*a))),
        Expr::Import(s, a) => SExpr::Import(Box::new(v_expr(*s)), v_exprs(a@)),
    }
}

pub open spec fn v_declarators(s: Seq<Declarator>) -> Seq<SDeclarator>
    decreases s,
{
    if s.len() == 0 {
        Seq::empty()
    } else {
        v_declarators(s.drop_last()).push(
            SDeclarator { id: v_pattern(s.last().id), init: v_opt_expr(s.last().init) },
        )
    }
}

pub open spec fn v_var_decl(d: VarDecl) -> SVarDecl
    decreases d,
{
    SVarDecl { kind: d.kind, decls: v_declarators(d.decls@) }
}

pub open spec fn v_for_left(l: ForLeft) -> SForLeft
    decreases l,
{
    match l {
        ForLeft::VarDecl(d) => SForLeft::VarDecl(v_var_decl(d)),
        ForLeft::Target(t) => SForLeft::Target(v_target(t)),
    }
}

pub open spec fn v_cases(s: Seq<SwitchCase>) -> Seq<SSwitchCase>
    decreases s,
{
    if s.len() == 0 {
        Seq::empty()
    } else {
        v_cases(s.drop_last()).push(
            SSwitchCase { test: v_opt_expr(s.last().test), body: v_stmts(s.last().body@) },
        )
    }
}

pub open spec fn v_catch(c: Option<CatchClause>) -> Option<SCatchClause>
    decreases c,
{
    match c {
        Some(h) => Some(SCatchClause { param: v_opt_pattern(h.param), body: v_stmts(h.body@) }),
        None => None,
    }
}

pub open spec fn v_opt_stmts(b: Option<Vec<Stmt>>) -> Option<Seq<SStmt>>
    decreases b,
{
    match b {
        Some(v) => Some(v_stmts(v@)),
        None => None,
    }
}

pub open spec fn v_stmts(s: Seq<Stmt>) -> Seq<SStmt>
    decreases s,
{
    if s.len() == 0 { Seq::empty() } else { v_stmts(s.drop_last()).push(v_stmt(s.last())) }
}

pub open spec fn v_stmt(s: Stmt) -> SStmt
    decreases s,
{
    match s {
        Stmt::Block(v) => SStmt::Block(v_stmts(v@)),
        Stmt::Break(l) => SStmt::Break(vs_opt(l)),
        Stmt::Continue(l) => SStmt::Continue(vs_opt(l)),
        Stmt::Debugger => SStmt::Debugger,
        Stmt::DoWhile(b, t) => SStmt::DoWhile(Box::new(v_stmt(*b)), v_expr(t)),
        Stmt::Empty => SStmt::Empty,
        Stmt::Expr(e) => SStmt::Expr(v_expr(e)),
        Stmt::ForIn(l, r, b) => SStmt::ForIn(v_for_left(l), v_expr(r), Box::new(v_stmt(*b))),
        Stmt::ForOf(l, r, b, a) => SStmt::ForOf(v_for_left(l), v_expr(r), Box::new(v_stmt(*b)), a),
        Stmt::For(i, t, u, b) => SStmt::For(
            match i {
                Some(ForInit::Expr(e)) => Some(SForInit::Expr(v_expr(e))),
                Some(ForInit::VarDecl(d)) => Some(SForInit::VarDecl(v_var_decl(d))),
                None => None,
            },
            v_opt_expr(t),
            v_opt_expr(u),
            Box::new(v_stmt(*b)),
        ),
        Stmt::If(t, c, a) => SStmt::If(
            v_expr(t),
            Box::new(v_stmt(*c)),
            match a {
                Some(x) => Some(Box::new(v_stmt(*x))),
                None => None,
            },
        ),
        Stmt::Labeled(l, b) => SStmt::Labeled(l@, Box::new(v_stmt(*b))),
        Stmt::Return(a) => SStmt::Return(v_opt_expr(a)),
        Stmt::Switch(d, c) => SStmt::Switch(v_expr(d), v_cases(c@)),
        Stmt::Throw(e) => SStmt::Throw(v_expr(e)),
        Stmt::Try(b, h, f) => SStmt::Try(v_stmts(b@), v_catch(h), v_opt_stmts(f)),
        Stmt::While(t, b) => SStmt::While(v_expr(t), Box::new(v_stmt(*b))),
        Stmt::With(o, b) => SStmt::With(v_expr(o), Box::new(v_stmt(*b))),
        Stmt::VarDecl(d) => SStmt::VarDecl(v_var_decl(d)),
        Stmt::FunctionDecl(f) => SStmt::FunctionDecl(Box::new(v_function(*f))),
        Stmt::ClassDecl(c) => SStmt::ClassDecl(Box::new(v_class(*c))),
        Stmt::ModuleDecl(h) => SStmt::ModuleDecl(h),
    }
}

pub open spec fn v_opt_stmt(s: Option<Stmt>) -> Option<SStmt> {
    match s {
        Some(x) => Some(v_stmt(x)),
        None => None,
    }
}

/// The model of a one-expression sequence.
pub proof fn lemma_v_exprs_one(x: Expr)
    ensures
        v_exprs(seq![x]) == seq![v_expr(x)],
{
    assert(seq![x].drop_last() =~= Seq::<Expr>::empty());
    assert(v_exprs(Seq::<Expr>::empty()) =~= Seq::<SExpr>::empty());
    assert(v_exprs(seq![x]) =~= seq![v_expr(x)]);
}

/// Viewing a pushed statement sequence.
pub proof fn lemma_v_stmts_push(s: Seq<Stmt>, x: Stmt)
    ensures
        v_stmts(s.push(x)) == v_stmts(s).push(v_stmt(x)),
{
    assert(s.push(x).drop_last() =~= s);
}

/// Viewing an appended statement sequence.
pub proof fn lemma_v_stmts_append(a: Seq<Stmt>, b: Seq<Stmt>)
    ensures
        v_stmts(a + b) == v_stmts(a) + v_stmts(b),
    decreases b.len(),
{
    if b.len() == 0 {
        assert(a + b =~= a);
        assert(v_stmts(a) + v_stmts(b) =~= v_stmts(a));
    } else {
        lemma_v_stmts_append(a, b.drop_last());
        assert((a + b).drop_last() =~= a + b.drop_last());
        assert(v_stmts(a) + v_stmts(b) =~= (v_stmts(a) + v_stmts(b.drop_last())).push(v_stmt(b.last())));
    }
}

/// The view of a sequence has the same length, and its elements are the views.
pub proof fn lemma_v_stmts_index(s: Seq<Stmt>)
    ensures
        v_stmts(s).len() == s.len(),
        forall|i: int| 0 <= i < s.len() ==> #[trigger] v_stmts(s)[i] == v_stmt(s[i]),
    decreases s.len(),
{
    if s.len() > 0 {
        lemma_v_stmts_index(s.drop_last());
    }
}

/// The model of a property sequence has the same length, and its elements
/// are the models of the properties.
pub proof fn lemma_v_binding_props_index(s: Seq<BindingProp>)
    ensures
        v_binding_props(s).len() == s.len(),
        forall|i: int|
            0 <= i < s.len() ==> #[trigger] v_binding_props(s)[i] == (SBindingProp {
                key: v_prop_key(s[i].key),
                value: v_pattern(s[i].value),
                shorthand: s[i].shorthand,
                computed: s[i].computed,
            }),
    decreases s.len(),
{
    if s.len() > 0 {
        lemma_v_binding_props_index(s.drop_last());
    }
}

/// The model of an element sequence has the same length, and its elements
/// are the models of the elements.
pub proof fn lemma_v_opt_patterns_index(s: Seq<Option<Pattern>>)
    ensures
        v_opt_patterns(s).len() == s.len(),
        forall|i: int| 0 <= i < s.len() ==> #[trigger] v_opt_patterns(s)[i] == v_opt_pattern(s[i]),
    decreases s.len(),
{
    if s.len() > 0 {
        lemma_v_opt_patterns_index(s.drop_last());
    }
}


/// The model of one argument.
pub open spec fn v_arg(a: Arg) -> SArg {
    match a {
        Arg::Expr(e) => SArg::Expr(v_expr(e)),
        Arg::Spread(e) => SArg::Spread(v_expr(e)),
    }
}

/// The model of one array element.
pub open spec fn v_array_elem(a: ArrayElem) -> SArrayElem {
    match a {
        ArrayElem::Expr(e) => SArrayElem::Expr(v_expr(e)),
        ArrayElem::Spread(e) => SArrayElem::Spread(v_expr(e)),
        ArrayElem::Hole => SArrayElem::Hole,
    }
}

/// The model of one object-literal property.
pub open spec fn v_obj_prop(p: ObjProp) -> SObjProp {
    match p {
        ObjProp::Prop { kind, key, value, method, shorthand, computed } => SObjProp::Prop {
            kind,
            key: v_prop_key(key),
            value: v_expr(value),
            method,
            shorthand,
            computed,
        },
        ObjProp::Spread(e) => SObjProp::Spread(v_expr(e)),
    }
}

/// The model of one class element.
pub open spec fn v_class_elem(c: ClassElem) -> SClassElem {
    match c {
        ClassElem::Property { key, value, computed, is_static } => SClassElem::Property {
            key: v_prop_key(key),
            value: v_opt_expr(value),
            computed,
            is_static,
        },
        ClassElem::Method { key, kind, value, computed, is_static } => SClassElem::Method {
            key: v_prop_key(key),
            kind,
            value: v_function(value),
            computed,
            is_static,
        },
        ClassElem::Other(h) => SClassElem::Other(h),
    }
}

/// The model of one switch case.
pub open spec fn v_case(c: SwitchCase) -> SSwitchCase {
    SSwitchCase { test: v_opt_expr(c.test), body: v_stmts(c.body@) }
}

/// The model of one declarator.
#[verifier::opaque]
pub open spec fn v_declarator(d: Declarator) -> SDeclarator {
    SDeclarator { id: v_pattern(d.id), init: v_opt_expr(d.init) }
}

/// The fields of the model of a declarator.
pub proof fn lemma_v_declarator_fields(d: Declarator)
    ensures
        v_declarator(d) == (SDeclarator { id: v_pattern(d.id), init: v_opt_expr(d.init) }),
{
    reveal(v_declarator);
}

/// The model of a sequence has the same length, and its elements are the
/// models of the elements.
pub proof fn lemma_v_exprs_index(s: Seq<Expr>)
    ensures
        v_exprs(s).len() == s.len(),
        forall|i: int| 0 <= i < s.len() ==> #[trigger] v_exprs(s)[i] == v_expr(s[i]),
    decreases s.len(),
{
    if s.len() > 0 {
        lemma_v_exprs_index(s.drop_last());
    }
}

/// The model of a sequence has the same length, and its elements are the
/// models of the elements.
pub proof fn lemma_v_args_index(s: Seq<Arg>)
    ensures
        v_args(s).len() == s.len(),
        forall|i: int| 0 <= i < s.len() ==> #[trigger] v_args(s)[i] == v_arg(s[i]),
    decreases s.len(),
{
    if s.len() > 0 {
        lemma_v_args_index(s.drop_last());
    }
}

/// The model of a sequence has the same length, and its elements are the
/// models of the elements.
pub proof fn lemma_v_array_elems_index(s: Seq<ArrayElem>)
    ensures
        v_array_elems(s).len() == s.len(),
        forall|i: int| 0 <= i < s.len() ==> #[trigger] v_array_elems(s)[i] == v_array_elem(s[i]),
    decreases s.len(),
{
    if s.len() > 0 {
        lemma_v_array_elems_index(s.drop_last());
    }
}

/// The model of a sequence has the same length, and its elements are the
/// models of the elements.
pub proof fn lemma_v_obj_props_index(s: Seq<ObjProp>)
    ensures
        v_obj_props(s).len() == s.len(),
        forall|i: int| 0 <= i < s.len() ==> #[trigger] v_obj_props(s)[i] == v_obj_prop(s[i]),
    decreases s.len(),
{
    if s.len() > 0 {
        lemma_v_obj_props_index(s.drop_last());
    }
}

/// The model of a sequence has the same length, and its elements are the
/// models of the elements.
pub proof fn lemma_v_class_elems_index(s: Seq<ClassElem>)
    ensures
        v_class_elems(s).len() == s.len(),
        forall|i: int| 0 <= i < s.len() ==> #[trigger] v_class_elems(s)[i] == v_class_elem(s[i]),
    decreases s.len(),
{
    if s.len() > 0 {
        lemma_v_class_elems_index(s.drop_last());
    }
}

/// The model of a sequence has the same length, and its elements are the
/// models of the elements.
pub proof fn lemma_v_patterns_index(s: Seq<Pattern>)
    ensures
        v_patterns(s).len() == s.len(),
        forall|i: int| 0 <= i < s.len() ==> #[trigger] v_patterns(s)[i] == v_pattern(s[i]),
    decreases s.len(),
{
    if s.len() > 0 {
        lemma_v_patterns_index(s.drop_last());
    }
}

/// The model of a sequence has the same length, and its elements are the
/// models of the elements.
pub proof fn lemma_v_cases_index(s: Seq<SwitchCase>)
    ensures
        v_cases(s).len() == s.len(),
        forall|i: int| 0 <= i < s.len() ==> #[trigger] v_cases(s)[i] == v_case(s[i]),
    decreases s.len(),
{
    if s.len() > 0 {
        lemma_v_cases_index(s.drop_last());
    }
}

/// The model of a sequence has the same length, and its elements are the
/// models of the elements.
pub proof fn lemma_v_declarators_index(s: Seq<Declarator>)
    ensures
        v_declarators(s).len() == s.len(),
        forall|i: int| 0 <= i < s.len() ==> #[trigger] v_declarators(s)[i] == v_declarator(s[i]),
    decreases s.len(),
{
    if s.len() > 0 {
        lemma_v_declarators_index(s.drop_last());
        reveal(v_declarator);
    }
}

impl View for Stmt {
    type V = SStmt;

    open spec fn view(&self) -> SStmt {
        v_stmt(*self)
    }
}

impl View for Expr {
    type V = SExpr;

    open spec fn view(&self) -> SExpr {
        v_expr(*self)
    }
}

impl View for Pattern {
    type V = SPattern;

    open spec fn view(&self) -> SPattern {
        v_pattern(*self)
    }
}

impl View for VarDecl {
    type V = SVarDecl;

    open spec fn view(&self) -> SVarDecl {
        v_var_decl(*self)
    }
}

} // verus!
