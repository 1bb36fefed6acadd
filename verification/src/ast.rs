//! The JavaScript syntax tree that the transforms read and write.
//!
//! Names are plain strings, number literals keep their source text, and nodes
//! the library never looks into (import/export declarations, assignment-target
//! patterns, class elements other than properties and methods) are carried as
//! handles that the caller resolves.

use vstd::prelude::*;

verus! {

/// `var`, `let` or `const`.
#[derive(Debug, Clone, Copy, PartialEq, Eq, Structural)]
pub enum VarKind {
    Var,
    Let,
    Const,
}

/// Binary operators.
#[derive(Debug, Clone, Copy, PartialEq, Eq, Structural)]
pub enum BinaryOp {
    Equality,
    Inequality,
    StrictEquality,
    StrictInequality,
    LessThan,
    LessEqualThan,
    GreaterThan,
    GreaterEqualThan,
    ShiftLeft,
    ShiftRight,
    ShiftRightZeroFill,
    Addition,
    Subtraction,
    Multiplication,
    Division,
    Remainder,
    BitwiseOr,
    BitwiseXor,
    BitwiseAnd,
    In,
    Instanceof,
    Exponential,
}

/// Logical operators.
#[derive(Debug, Clone, Copy, PartialEq, Eq, Structural)]
pub enum LogicalOp {
    Or,
    And,
    Coalesce,
}

/// Unary operators.
#[derive(Debug, Clone, Copy, PartialEq, Eq, Structural)]
pub enum UnaryOp {
    Minus,
    Plus,
    Not,
    BitwiseNot,
    Typeof,
    Void,
    Delete,
}

/// `++` and `--`.
#[derive(Debug, Clone, Copy, PartialEq, Eq, Structural)]
pub enum UpdateOp {
    Increment,
    Decrement,
}

/// Assignment operators.
#[derive(Debug, Clone, Copy, PartialEq, Eq, Structural)]
pub enum AssignOp {
    Assign,
    Addition,
    Subtraction,
    Multiplication,
    Division,
    Remainder,
    ShiftLeft,
    ShiftRight,
    ShiftRightZeroFill,
    BitwiseOr,
    BitwiseXor,
    BitwiseAnd,
    LogicalAnd,
    LogicalOr,
    LogicalNullish,
    Exponential,
}

/// Kind of an object literal property.
#[derive(Debug, Clone, Copy, PartialEq, Eq, Structural)]
pub enum PropKind {
    Init,
    Getter,
    Setter,
}

/// Kind of a class method.
#[derive(Debug, Clone, Copy, PartialEq, Eq, Structural)]
pub enum MethodKind {
    Constructor,
    Method,
    Getter,
    Setter,
}

/// A property key: `a`, `#a` or a computed or literal key expression.
#[derive(Debug, PartialEq)]
pub enum PropKey {
    Ident(String),
    Private(String),
    Expr(Box<Expr>),
}

/// A template literal: the raw string parts and the interpolated expressions.
#[derive(Debug, PartialEq)]
pub struct Template {
    pub quasis: Vec<String>,
    pub exprs: Vec<Expr>,
}

/// An element of an array literal.
#[derive(Debug, PartialEq)]
pub enum ArrayElem {
    Expr(Expr),
    Spread(Expr),
    Hole,
}

/// An argument of a call or `new`.
#[derive(Debug, PartialEq)]
pub enum Arg {
    Expr(Expr),
    Spread(Expr),
}

/// A property of an object literal.
#[derive(Debug, PartialEq)]
pub enum ObjProp {
    Prop { kind: PropKind, key: PropKey, value: Expr, method: bool, shorthand: bool, computed: bool },
    Spread(Expr),
}

/// A member access `a[b]`, `a.b` or `a.#b`; the flag is the optional-chaining `?.`.
#[derive(Debug, PartialEq)]
pub enum Member {
    Computed(Expr, Expr, bool),
    Static(Expr, String, bool),
    Private(Expr, String, bool),
}

/// The element of an optional chain `a?.b`, `a?.[b]` or `a?.()`.
#[derive(Debug, PartialEq)]
pub enum ChainElem {
    Call(Expr, Vec<Arg>, bool),
    Computed(Expr, Expr, bool),
    Static(Expr, String, bool),
}

/// The operand of `++` or `--`.
#[derive(Debug, PartialEq)]
pub enum SimpleTarget {
    Ident(String),
    Computed(Expr, Expr, bool),
    Static(Expr, String, bool),
}

/// The left side of an assignment. Destructuring targets are carried as
/// handles: no transform reads them.
#[derive(Debug, PartialEq)]
pub enum AssignTarget {
    Ident(String),
    Member(Member),
    Pattern(u64),
}

/// A binding pattern.
#[derive(Debug, PartialEq)]
pub enum Pattern {
    Ident(String),
    /// Properties and the optional rest element.
    Object(Vec<BindingProp>, Option<Box<Pattern>>),
    /// Elements (`None` for a hole) and the optional rest element.
    Array(Vec<Option<Pattern>>, Option<Box<Pattern>>),
    /// A pattern with a default value.
    Assign(Box<Pattern>, Box<Expr>),
}

/// A property of an object pattern.
#[derive(Debug, PartialEq)]
pub struct BindingProp {
    pub key: PropKey,
    pub value: Pattern,
    pub shorthand: bool,
    pub computed: bool,
}

/// A function (declaration, expression or method).
#[derive(Debug, PartialEq)]
pub struct Function {
    pub id: Option<String>,
    pub params: Vec<Pattern>,
    pub rest: Option<Pattern>,
    pub body: Vec<Stmt>,
    pub is_async: bool,
    pub is_generator: bool,
}

/// The body of an arrow function.
#[derive(Debug, PartialEq)]
pub enum ArrowBody {
    /// `(x) => expr`
    Expr(Expr),
    /// `(x) => { ... }`
    Block(Vec<Stmt>),
}

/// An arrow function.
#[derive(Debug, PartialEq)]
pub struct Arrow {
    pub params: Vec<Pattern>,
    pub rest: Option<Pattern>,
    pub body: ArrowBody,
    pub is_async: bool,
}

/// A class element. Elements other than properties and methods are handles.
#[derive(Debug, PartialEq)]
pub enum ClassElem {
    Property { key: PropKey, value: Option<Expr>, computed: bool, is_static: bool },
    Method { key: PropKey, kind: MethodKind, value: Function, computed: bool, is_static: bool },
    Other(u64),
}

/// A class (declaration or expression).
#[derive(Debug, PartialEq)]
pub struct Class {
    pub id: Option<String>,
    pub super_class: Option<Expr>,
    pub body: Vec<ClassElem>,
}

/// Expressions.
#[derive(Debug, PartialEq)]
pub enum Expr {
    Ident(String),
    This,
    Super,
    Null,
    Bool(bool),
    /// A number literal, by its source text.
    Number(String),
    BigInt(String),
    Str(String),
    /// A regular expression literal: pattern and flags.
    RegExp(String, String),
    Template(Template),
    /// `new.target`, `import.meta`: the two names.
    MetaProperty(String, String),
    Array(Vec<ArrayElem>),
    Object(Vec<ObjProp>),
    Function(Box<Function>),
    Arrow(Box<Arrow>),
    Class(Box<Class>),
    Assign(AssignOp, Box<AssignTarget>, Box<Expr>),
    Await(Box<Expr>),
    Binary(BinaryOp, Box<Expr>, Box<Expr>),
    Logical(LogicalOp, Box<Expr>, Box<Expr>),
    Unary(UnaryOp, Box<Expr>),
    /// Operator, prefix flag and operand.
    Update(UpdateOp, bool, Box<SimpleTarget>),
    /// Callee, arguments and the optional-call flag.
    Call(Box<Expr>, Vec<Arg>, bool),
    New(Box<Expr>, Vec<Arg>),
    Chain(Box<ChainElem>),
    Member(Box<Member>),
    Conditional(Box<Expr>, Box<Expr>, Box<Expr>),
    Sequence(Vec<Expr>),
    TaggedTemplate(Box<Expr>, Template),
    /// Argument and the `yield*` flag.
    Yield(Option<Box<Expr>>, bool),
    Paren(Box<Expr>),
    /// `import(source, ...options)`
    Import(Box<Expr>, Vec<Expr>),
}

/// One declarator of a variable declaration.
#[derive(Debug, PartialEq)]
pub struct Declarator {
    pub id: Pattern,
    pub init: Option<Expr>,
}

/// A variable declaration.
#[derive(Debug, PartialEq)]
pub struct VarDecl {
    pub kind: VarKind,
    pub decls: Vec<Declarator>,
}

/// The init part of a `for (init; test; update)` header.
#[derive(Debug, PartialEq)]
pub enum ForInit {
    Expr(Expr),
    VarDecl(VarDecl),
}

/// The left side of a `for-in` or `for-of` header.
#[derive(Debug, PartialEq)]
pub enum ForLeft {
    VarDecl(VarDecl),
    Target(AssignTarget),
}

/// A `case test:` (or `default:` when `test` is `None`) with its statements.
#[derive(Debug, PartialEq)]
pub struct SwitchCase {
    pub test: Option<Expr>,
    pub body: Vec<Stmt>,
}

/// `catch (param) { body }`
#[derive(Debug, PartialEq)]
pub struct CatchClause {
    pub param: Option<Pattern>,
    pub body: Vec<Stmt>,
}

/// Statements.
#[derive(Debug, PartialEq)]
pub enum Stmt {
    Block(Vec<Stmt>),
    Break(Option<String>),
    Continue(Option<String>),
    Debugger,
    /// Body and test.
    DoWhile(Box<Stmt>, Expr),
    Empty,
    Expr(Expr),
    /// Left, right and body.
    ForIn(ForLeft, Expr, Box<Stmt>),
    /// Left, right, body and the `for await` flag.
    ForOf(ForLeft, Expr, Box<Stmt>, bool),
    /// Init, test, update and body.
    For(Option<ForInit>, Option<Expr>, Option<Expr>, Box<Stmt>),
    If(Expr, Box<Stmt>, Option<Box<Stmt>>),
    Labeled(String, Box<Stmt>),
    Return(Option<Expr>),
    Switch(Expr, Vec<SwitchCase>),
    Throw(Expr),
    /// Block, handler and finalizer.
    Try(Vec<Stmt>, Option<CatchClause>, Option<Vec<Stmt>>),
    While(Expr, Box<Stmt>),
    With(Expr, Box<Stmt>),
    VarDecl(VarDecl),
    FunctionDecl(Box<Function>),
    ClassDecl(Box<Class>),
    /// An import or export declaration, by handle.
    ModuleDecl(u64),
}

/// A program: its top-level statements.
#[derive(Debug, PartialEq)]
pub struct Program {
    pub body: Vec<Stmt>,
}

} // verus!
