//! The rule contract, and the rules.
pub mod no_redeclare;
pub mod no_setter_return;

use crate::ast::Program;
use crate::context::{Context, DiagnosticView};
use vstd::prelude::*;

verus! {

/// An analysis pass over one program. Each pass reads the tree only and
/// writes only to the context it is given, so running a rule again on the
/// same tree with a fresh context gives the same diagnostics.
pub trait LintRule {
    /// The diagnostics that one pass over `program` reports, in order.
    spec fn reports(&self, program: Program) -> Seq<DiagnosticView>;

    /// The code of the rule, as its diagnostics carry it.
    spec fn spec_code(&self) -> Seq<char>;

    fn code(&self) -> (r: &'static str)
        ensures
            r@ == self.spec_code(),
    ;

    /// The labels by which the rule is selected.
    spec fn spec_tags(&self) -> Seq<Seq<char>>;

    fn tags(&self) -> (r: Vec<&'static str>)
        ensures
            r@.map_values(|t: &'static str| t@) == self.spec_tags(),
    ;

    fn lint_program(&self, context: &mut Context, program: &Program)
        ensures
            final(context)@ == old(context)@ + self.reports(*program),
    ;
}

} // verus!
