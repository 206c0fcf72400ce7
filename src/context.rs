//! The diagnostic sink that a rule reports into.
use crate::ast::Span;
use vstd::prelude::*;

verus! {

/// A reported problem: where, which rule, and what.
#[derive(Clone, Debug)]
pub struct LintDiagnostic {
    pub span: Span,
    pub code: String,
    pub message: String,
}

/// A diagnostic as the contracts see it: span, rule code, message.
pub type DiagnosticView = (Span, Seq<char>, Seq<char>);

impl View for LintDiagnostic {
    type V = DiagnosticView;

    open spec fn view(&self) -> DiagnosticView {
        (self.span, self.code@, self.message@)
    }
}

/// Collects the diagnostics of one pass, in the order they were reported.
pub struct Context {
    diagnostics: Vec<LintDiagnostic>,
}

impl View for Context {
    type V = Seq<DiagnosticView>;

    closed spec fn view(&self) -> Seq<DiagnosticView> {
        self.diagnostics@.map_values(|d: LintDiagnostic| d@)
    }
}

impl Context {
    pub fn new() -> (r: Context)
        ensures
            r@ == Seq::<DiagnosticView>::empty(),
    {
        let r = Context { diagnostics: Vec::new() };
        assert(r@ =~= Seq::<DiagnosticView>::empty());
        r
    }

    /// Appends one diagnostic; nothing is merged or dropped.
    pub fn add_diagnostic(&mut self, span: Span, code: &str, message: &str)
        ensures
            final(self)@ == old(self)@.push((span, code@, message@)),
    {
        let d = LintDiagnostic { span, code: code.to_owned(), message: message.to_owned() };
        self.diagnostics.push(d);
        assert(self@ =~= old(self)@.push((span, code@, message@)));
    }

    /// The diagnostics reported so far, oldest first.
    pub fn diagnostics(&self) -> (r: &Vec<LintDiagnostic>)
        ensures
            r@.map_values(|d: LintDiagnostic| d@) == self@,
    {
        &self.diagnostics
    }
}

} // verus!
