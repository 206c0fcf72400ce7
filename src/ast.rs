//! The syntax tree that the rules read: a resolved program in which every
//! identifier carries the symbol its resolver assigned and a source span.
use vstd::prelude::*;

verus! {

/// A range of byte offsets in the source text.
#[derive(Clone, Copy, Debug, PartialEq, Eq, Structural)]
pub struct Span {
    pub lo: u32,
    pub hi: u32,
}

/// An identifier occurrence. `symbol` is the resolved binding it names: two
/// occurrences share a symbol exactly when they denote the same binding, so
/// equal names in different scopes carry different symbols.
#[derive(Clone, Debug)]
pub struct Ident {
    pub name: String,
    pub symbol: u64,
    pub span: Span,
}

/// A type annotation. No rule looks inside one, so the tree keeps its span
/// only.
#[derive(Clone, Copy, Debug)]
pub struct TypeAnn {
    pub span: Span,
}

/// Whether the program was parsed as a module (with imports and exports) or
/// as a script.
#[derive(Clone, Copy, Debug, PartialEq, Eq, Structural)]
pub enum ProgramKind {
    Module,
    Script,
}

/// The root of a tree. An export declaration is given as the declaration it
/// exports.
#[derive(Debug)]
pub struct Program {
    pub kind: ProgramKind,
    pub body: Vec<Stmt>,
}

#[derive(Debug)]
pub enum Stmt {
    Expr(Expr),
    /// A block, or a control statement (`if`, a loop, `switch`, `try`, a
    /// label) given by its parts in source order; an expression part is a
    /// `Stmt::Expr`, a declaration in a loop head a `Stmt::Var`.
    Block(Vec<Stmt>),
    Return(ReturnStmt),
    Fn(FnDecl),
    Class(Ident, Class),
    /// A `var`, `let` or `const` declaration.
    Var(Vec<VarDeclarator>),
    /// A pattern that is not a declaration site: a `catch` parameter, or an
    /// assignment target in a `for`-`in` or `for`-`of` head. Only the
    /// expressions inside it are entered.
    Pattern(Pat),
}

#[derive(Debug)]
pub struct ReturnStmt {
    pub span: Span,
    pub arg: Option<Expr>,
}

#[derive(Debug)]
pub struct FnDecl {
    pub ident: Ident,
    pub function: Function,
}

#[derive(Debug)]
pub struct VarDeclarator {
    pub span: Span,
    pub name: Pat,
    pub init: Option<Expr>,
}

/// A function's parameters and body; a body of `None` is a signature only
/// (an overload or an ambient declaration).
#[derive(Debug)]
pub struct Function {
    pub span: Span,
    pub params: Vec<Param>,
    pub body: Option<Vec<Stmt>>,
    pub return_type: Option<TypeAnn>,
}

#[derive(Debug)]
pub struct Param {
    pub pat: Pat,
    pub type_ann: Option<TypeAnn>,
}

/// A binding pattern; array holes are left out.
#[derive(Debug)]
pub enum Pat {
    Ident(Ident),
    Array(Vec<Pat>),
    Object(Vec<ObjectPatProp>),
    /// A pattern with a default value.
    Assign(Box<Pat>, Box<Expr>),
    Rest(Box<Pat>),
    /// An expression used as an assignment target inside a pattern
    /// (`[o.x] = xs`); it binds nothing.
    Expr(Box<Expr>),
}

#[derive(Debug)]
pub enum ObjectPatProp {
    /// `key: pattern`
    KeyValue(PropName, Pat),
    /// `name` or `name = default`
    Assign(Ident, Option<Expr>),
    Rest(Pat),
}

#[derive(Debug)]
pub enum PropName {
    Plain(String),
    Private(String),
    Computed(Box<Expr>),
}

#[derive(Debug)]
pub enum Expr {
    /// A reference to a binding.
    Ident(Ident),
    Lit(Span),
    /// A function expression.
    Fn(Box<Function>),
    Arrow(Box<ArrowExpr>),
    Class(Box<Class>),
    Object(Vec<Prop>),
    /// Any other expression, given by its operands in source order.
    Compound(Vec<Expr>),
}

/// An arrow function; its parameters are patterns, as its body is a block or
/// a single returned expression (written as one `Stmt::Return`).
#[derive(Debug)]
pub struct ArrowExpr {
    pub span: Span,
    pub params: Vec<Pat>,
    pub body: Vec<Stmt>,
}

#[derive(Debug)]
pub enum Prop {
    Shorthand(Ident),
    KeyValue(PropName, Expr),
    Method(PropName, Function),
    Getter(PropName, Option<Vec<Stmt>>),
    Setter(SetterProp),
}

/// `set key(param) { body }` in an object literal.
#[derive(Debug)]
pub struct SetterProp {
    pub span: Span,
    pub key: PropName,
    pub param: Pat,
    pub body: Option<Vec<Stmt>>,
}

#[derive(Debug)]
pub struct Class {
    pub span: Span,
    pub super_class: Option<Box<Expr>>,
    pub body: Vec<ClassMember>,
}

#[derive(Clone, Copy, Debug, PartialEq, Eq, Structural)]
pub enum MethodKind {
    Method,
    Getter,
    Setter,
}

#[derive(Debug)]
pub enum ClassMember {
    Constructor(Function),
    /// A method; a `PropName::Private` key makes it a private one.
    Method(ClassMethod),
    Prop(ClassProp),
}

#[derive(Debug)]
pub struct ClassMethod {
    pub span: Span,
    pub key: PropName,
    pub kind: MethodKind,
    pub function: Function,
}

#[derive(Debug)]
pub struct ClassProp {
    pub span: Span,
    pub key: PropName,
    pub value: Option<Expr>,
}

} // verus!
