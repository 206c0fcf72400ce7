//! Lint rules over a resolved ECMAScript syntax tree: a diagnostic sink, a
//! uniform rule contract, and two rules (redeclared bindings and setters that
//! return a value), each with its behaviour stated as a contract.

pub mod ast;
pub mod context;
pub mod rules;

pub use ast::{
    ArrowExpr, Class, ClassMember, ClassMethod, ClassProp, Expr, FnDecl, Function, Ident,
    MethodKind, ObjectPatProp, Param, Pat, Program, ProgramKind, Prop, PropName, ReturnStmt,
    SetterProp, Span, Stmt, TypeAnn, VarDeclarator,
};
pub use context::{Context, LintDiagnostic};


pub use rules::LintRule;
pub use rules::no_redeclare::NoRedeclare;
pub use rules::no_setter_return::{NoSetterReturn, NoSetterReturnVisitor};
