//! Flags a setter that returns a value.
//!
//! Only the statements written directly in a setter's body are looked at: a
//! `return` nested in an `if`, a loop or an inner function is left alone, and
//! so is a bare `return;`.
use crate::ast::{
    Class, ClassMember, Expr, Function, MethodKind, ObjectPatProp, Param, Pat, Program, Prop,
    PropName, ReturnStmt, SetterProp, Span, Stmt, VarDeclarator,
};
use crate::context::{Context, DiagnosticView};
use crate::rules::LintRule;
use vstd::prelude::*;

verus! {

pub const CODE: &'static str = "no-setter-return";

pub const MESSAGE: &'static str = "Setter cannot return a value";

/// The span of `s` if it is a `return` with a value.
pub open spec fn value_return(s: Stmt) -> Seq<Span> {
    match s {
        Stmt::Return(r) => if r.arg is Some {
            seq![r.span]
        } else {
            seq![]
        },
        _ => seq![],
    }
}

/// The spans of the `return` statements with a value among the statements of
/// a setter's body itself, in order; nested statements are not entered.
pub open spec fn body_returns(ss: Seq<Stmt>) -> Seq<Span>
    decreases ss.len(),
{
    if ss.len() == 0 {
        seq![]
    } else {
        body_returns(ss.drop_last()) + value_return(ss.last())
    }
}

pub open spec fn opt_body_returns(b: Option<Vec<Stmt>>) -> Seq<Span> {
    match b {
        Some(ss) => body_returns(ss@),
        None => seq![],
    }
}

// ---------------------------------------------------------------------------
// What one pass finds, in the order of a depth-first, pre-order walk. A class
// is not entered: each of its setters with a body is checked, and nothing
// else. An object literal's setter is checked and not entered either. Every
// other node is entered.

pub open spec fn found_in_stmt(s: Stmt) -> Seq<Span>
    decreases s,
{
    match s {
        Stmt::Expr(e) => found_in_expr(e),
        Stmt::Block(ss) => found_in_stmts(ss@),
        Stmt::Return(r) => found_in_opt_expr(r.arg),
        Stmt::Fn(f) => found_in_function(f.function),
        Stmt::Class(_, c) => found_in_class(c),
        Stmt::Var(ds) => found_in_declarators(ds@),
        Stmt::Pattern(p) => found_in_pat(p),
    }
}

pub open spec fn found_in_stmts(ss: Seq<Stmt>) -> Seq<Span>
    decreases ss,
{
    if ss.len() == 0 {
        seq![]
    } else {
        found_in_stmts(ss.subrange(0, ss.len() - 1)) + found_in_stmt(ss[ss.len() - 1])
    }
}

pub open spec fn found_in_opt_block(b: Option<Vec<Stmt>>) -> Seq<Span>
    decreases b,
{
    match b {
        Some(ss) => found_in_stmts(ss@),
        None => seq![],
    }
}

pub open spec fn found_in_declarator(d: VarDeclarator) -> Seq<Span>
    decreases d,
{
    found_in_pat(d.name) + found_in_opt_expr(d.init)
}

pub open spec fn found_in_declarators(ds: Seq<VarDeclarator>) -> Seq<Span>
    decreases ds,
{
    if ds.len() == 0 {
        seq![]
    } else {
        found_in_declarators(ds.subrange(0, ds.len() - 1)) + found_in_declarator(ds[ds.len() - 1])
    }
}

pub open spec fn found_in_param(p: Param) -> Seq<Span>
    decreases p,
{
    found_in_pat(p.pat)
}

pub open spec fn found_in_params(ps: Seq<Param>) -> Seq<Span>
    decreases ps,
{
    if ps.len() == 0 {
        seq![]
    } else {
        found_in_params(ps.subrange(0, ps.len() - 1)) + found_in_param(ps[ps.len() - 1])
    }
}

pub open spec fn found_in_function(f: Function) -> Seq<Span>
    decreases f,
{
    found_in_params(f.params@) + found_in_opt_block(f.body)
}

pub open spec fn found_in_expr(e: Expr) -> Seq<Span>
    decreases e,
{
    match e {
        Expr::Ident(_) => seq![],
        Expr::Lit(_) => seq![],
        Expr::Fn(f) => found_in_function(*f),
        Expr::Arrow(a) => found_in_pats(a.params@) + found_in_stmts(a.body@),
        Expr::Class(c) => found_in_class(*c),
        Expr::Object(ps) => found_in_props(ps@),
        Expr::Compound(es) => found_in_exprs(es@),
    }
}

pub open spec fn found_in_exprs(es: Seq<Expr>) -> Seq<Span>
    decreases es,
{
    if es.len() == 0 {
        seq![]
    } else {
        found_in_exprs(es.subrange(0, es.len() - 1)) + found_in_expr(es[es.len() - 1])
    }
}

pub open spec fn found_in_opt_expr(e: Option<Expr>) -> Seq<Span>
    decreases e,
{
    match e {
        Some(x) => found_in_expr(x),
        None => seq![],
    }
}

pub open spec fn found_in_pat(p: Pat) -> Seq<Span>
    decreases p,
{
    match p {
        Pat::Ident(_) => seq![],
        Pat::Array(ps) => found_in_pats(ps@),
        Pat::Object(props) => found_in_obj_props(props@),
        Pat::Assign(left, right) => found_in_pat(*left) + found_in_expr(*right),
        Pat::Rest(inner) => found_in_pat(*inner),
        Pat::Expr(e) => found_in_expr(*e),
    }
}

pub open spec fn found_in_pats(ps: Seq<Pat>) -> Seq<Span>
    decreases ps,
{
    if ps.len() == 0 {
        seq![]
    } else {
        found_in_pats(ps.subrange(0, ps.len() - 1)) + found_in_pat(ps[ps.len() - 1])
    }
}

pub open spec fn found_in_obj_prop(p: ObjectPatProp) -> Seq<Span>
    decreases p,
{
    match p {
        ObjectPatProp::KeyValue(key, value) => found_in_prop_name(key) + found_in_pat(value),
        ObjectPatProp::Assign(_, value) => found_in_opt_expr(value),
        ObjectPatProp::Rest(inner) => found_in_pat(inner),
    }
}

pub open spec fn found_in_obj_props(ps: Seq<ObjectPatProp>) -> Seq<Span>
    decreases ps,
{
    if ps.len() == 0 {
        seq![]
    } else {
        found_in_obj_props(ps.subrange(0, ps.len() - 1)) + found_in_obj_prop(ps[ps.len() - 1])
    }
}

pub open spec fn found_in_prop_name(k: PropName) -> Seq<Span>
    decreases k,
{
    match k {
        PropName::Computed(e) => found_in_expr(*e),
        _ => seq![],
    }
}

pub open spec fn found_in_prop(p: Prop) -> Seq<Span>
    decreases p,
{
    match p {
        Prop::Shorthand(_) => seq![],
        Prop::KeyValue(key, value) => found_in_prop_name(key) + found_in_expr(value),
        Prop::Method(key, f) => found_in_prop_name(key) + found_in_function(f),
        Prop::Getter(key, body) => found_in_prop_name(key) + found_in_opt_block(body),
        Prop::Setter(sp) => opt_body_returns(sp.body),
    }
}

pub open spec fn found_in_props(ps: Seq<Prop>) -> Seq<Span>
    decreases ps,
{
    if ps.len() == 0 {
        seq![]
    } else {
        found_in_props(ps.subrange(0, ps.len() - 1)) + found_in_prop(ps[ps.len() - 1])
    }
}

/// What a class member contributes: the returns of a setter with a body.
pub open spec fn member_returns(m: ClassMember) -> Seq<Span> {
    match m {
        ClassMember::Method(cm) => if cm.kind == MethodKind::Setter {
            opt_body_returns(cm.function.body)
        } else {
            seq![]
        },
        _ => seq![],
    }
}

pub open spec fn members_returns(ms: Seq<ClassMember>) -> Seq<Span>
    decreases ms.len(),
{
    if ms.len() == 0 {
        seq![]
    } else {
        members_returns(ms.drop_last()) + member_returns(ms.last())
    }
}

pub open spec fn found_in_class(c: Class) -> Seq<Span> {
    members_returns(c.body@)
}

pub open spec fn program_found(p: Program) -> Seq<Span> {
    found_in_stmts(p.body@)
}

pub open spec fn report(s: Span) -> DiagnosticView {
    (s, CODE@, MESSAGE@)
}

pub open spec fn reports(spans: Seq<Span>) -> Seq<DiagnosticView> {
    spans.map_values(|s: Span| report(s))
}

proof fn lemma_body_returns_append(a: Seq<Stmt>, b: Seq<Stmt>)
    ensures
        body_returns(a + b) == body_returns(a) + body_returns(b),
    decreases b.len(),
{
    if b.len() == 0 {
        assert(a + b =~= a);
        assert(body_returns(a) + body_returns(b) =~= body_returns(a));
    } else {
        lemma_body_returns_append(a, b.drop_last());
        assert((a + b).drop_last() =~= a + b.drop_last());
        assert((a + b).last() == b.last());
        assert(body_returns(a + b.drop_last()) + value_return(b.last()) =~= body_returns(a) + (
        body_returns(b.drop_last()) + value_return(b.last())));
    }
}

proof fn lemma_body_returns_single(s: Stmt)
    ensures
        body_returns(seq![s]) == value_return(s),
{
    assert(seq![s].drop_last() =~= Seq::<Stmt>::empty());
    assert(seq![s].last() == s);
    assert(body_returns(Seq::<Stmt>::empty()) =~= Seq::<Span>::empty());
    assert(Seq::<Span>::empty() + value_return(s) =~= value_return(s));
}

/// In a setter's body, a bare `return;` is never reported, and a `return`
/// with a value is reported exactly once, at its own span, wherever among the
/// body's statements it stands.
pub proof fn lemma_setter_return(before: Seq<Stmt>, ret: ReturnStmt, after: Seq<Stmt>)
    ensures
        body_returns(before + seq![Stmt::Return(ret)] + after) == body_returns(before) + (if ret.arg
            is Some {
            seq![ret.span]
        } else {
            Seq::<Span>::empty()
        }) + body_returns(after),
{
    lemma_body_returns_append(before + seq![Stmt::Return(ret)], after);
    lemma_body_returns_append(before, seq![Stmt::Return(ret)]);
    lemma_body_returns_single(Stmt::Return(ret));
}

/// A statement of a setter's body that is not a `return` (an `if`, a loop, a
/// block, an inner function) adds nothing, whatever returns it holds: only
/// the body's own statements are looked at.
pub proof fn lemma_nested_return_ignored(before: Seq<Stmt>, s: Stmt, after: Seq<Stmt>)
    requires
        !(s is Return),
    ensures
        body_returns(before + seq![s] + after) == body_returns(before) + body_returns(after),
{
    lemma_body_returns_append(before + seq![s], after);
    lemma_body_returns_append(before, seq![s]);
    lemma_body_returns_single(s);
    assert(body_returns(before) + Seq::<Span>::empty() =~= body_returns(before));
}

pub struct NoSetterReturn;

impl NoSetterReturn {
    pub fn new() -> (r: NoSetterReturn) {
        NoSetterReturn
    }
}

impl LintRule for NoSetterReturn {
    open spec fn reports(&self, program: Program) -> Seq<DiagnosticView> {
        reports(program_found(program))
    }

    open spec fn spec_code(&self) -> Seq<char> {
        CODE@
    }

    fn code(&self) -> (r: &'static str) {
        CODE
    }

    open spec fn spec_tags(&self) -> Seq<Seq<char>> {
        seq!["recommended"@]
    }

    fn tags(&self) -> (r: Vec<&'static str>) {
        let r = vec!["recommended"];
        assert(r@.map_values(|t: &'static str| t@) =~= seq!["recommended"@]);
        r
    }

    fn lint_program(&self, context: &mut Context, program: &Program) {
        let mut visitor = NoSetterReturnVisitor::new(context);
        proof {
            assert(reports(Seq::<Span>::empty()) =~= Seq::<DiagnosticView>::empty());
            assert(visitor.base@ + Seq::<DiagnosticView>::empty() =~= visitor.base@);
        }
        visitor.visit_stmts(&program.body);
        assert(Seq::<Span>::empty() + program_found(*program) =~= program_found(*program));
    }
}

/// One pass, reporting into the borrowed context; the ghost state is what
/// was found so far and what the context held before.
pub struct NoSetterReturnVisitor<'c> {
    pub context: &'c mut Context,
    pub found: Ghost<Seq<Span>>,
    pub base: Ghost<Seq<DiagnosticView>>,
}

impl<'c> NoSetterReturnVisitor<'c> {
    /// The context holds what it held before, then a report for each span
    /// found so far.
    pub open spec fn wf(&self) -> bool {
        (*self.context)@ == self.base@ + reports(self.found@)
    }

    pub fn new(context: &'c mut Context) -> (r: Self)
        ensures
            r.wf(),
            r.found@ == Seq::<Span>::empty(),
            r.base@ == old(context)@,
            *r.context == *old(context),
            *final(r.context) == *final(context),
    {
        let ghost base = context@;
        let r = NoSetterReturnVisitor { context, found: Ghost(Seq::empty()), base: Ghost(base) };
        assert(reports(Seq::<Span>::empty()) =~= Seq::<DiagnosticView>::empty());
        assert(base + Seq::<DiagnosticView>::empty() =~= base);
        r
    }

    /// `self` is `before` after finding `added`, with the reports made.
    pub open spec fn advanced(&self, before: Self, added: Seq<Span>) -> bool {
        &&& self.wf()
        &&& self.base == before.base
        &&& self.found@ == before.found@ + added
    }

    /// Reports each `return` with a value among the statements of `body`
    /// itself.
    fn check_block_stmt(&mut self, body: &Vec<Stmt>)
        requires
            old(self).wf(),
        ensures
            final(self).advanced(*old(self), body_returns(body@)),
            *final(final(self).context) == *final(old(self).context),
    {
        let ghost start = *self;
        let mut i: usize = 0;
        proof {
            assert(start.found@ + body_returns(body@.subrange(0, 0)) =~= start.found@);
        }
        while i < body.len()
            invariant
                i <= body.len(),
                self.advanced(start, body_returns(body@.subrange(0, i as int))),
                *final(self.context) == *final(start.context),
            decreases body.len() - i,
        {
            let ghost prev = self.found@;
            proof {
                assert(body@.subrange(0, i + 1).drop_last() =~= body@.subrange(0, i as int));
            }
            if let Stmt::Return(r) = &body[i] {
                if r.arg.is_some() {
                    self.context.add_diagnostic(r.span, CODE, MESSAGE);
                    self.found = Ghost(prev.push(r.span));
                    proof {
                        assert(reports(prev.push(r.span)) =~= reports(prev).push(report(r.span)));
                        assert(self.found@ =~= prev + value_return(body@[i as int]));
                    }
                } else {
                    assert(self.found@ =~= prev + value_return(body@[i as int]));
                }
            } else {
                assert(self.found@ =~= prev + value_return(body@[i as int]));
            }
            proof {
                assert(start.found@ + body_returns(body@.subrange(0, i + 1)) =~= start.found@
                    + body_returns(body@.subrange(0, i as int)) + value_return(body@[i as int]));
            }
            i += 1;
        }
        assert(body@.subrange(0, body@.len() as int) =~= body@);
    }

    fn check_opt_block(&mut self, x: &Option<Vec<Stmt>>)
        requires
            old(self).wf(),
        ensures
            final(self).advanced(*old(self), opt_body_returns(*x)),
            *final(final(self).context) == *final(old(self).context),
    {
        let ghost s0 = self.found@;
        match x {
            Some(b) => self.check_block_stmt(b),
            None => {},
        }
        assert(self.found@ =~= s0 + opt_body_returns(*x));
    }

    fn check_member(&mut self, x: &ClassMember)
        requires
            old(self).wf(),
        ensures
            final(self).advanced(*old(self), member_returns(*x)),
            *final(final(self).context) == *final(old(self).context),
    {
        let ghost s0 = self.found@;
        if let ClassMember::Method(m) = x {
            if m.kind == MethodKind::Setter {
                self.check_opt_block(&m.function.body);
            }
        }
        assert(self.found@ =~= s0 + member_returns(*x));
    }

    fn visit_class_members(&mut self, v: &Vec<ClassMember>)
        requires
            old(self).wf(),
        ensures
            final(self).advanced(*old(self), members_returns(v@)),
            *final(final(self).context) == *final(old(self).context),
    {
        let ghost start = *self;
        let mut i: usize = 0;
        proof {
            assert(start.found@ + members_returns(v@.subrange(0, 0)) =~= start.found@);
        }
        while i < v.len()
            invariant
                i <= v.len(),
                self.advanced(start, members_returns(v@.subrange(0, i as int))),
                *final(self.context) == *final(start.context),
            decreases v.len() - i,
        {
            proof {
                assert(v@.subrange(0, i + 1).drop_last() =~= v@.subrange(0, i as int));
            }
            self.check_member(&v[i]);
            proof {
                assert(start.found@ + members_returns(v@.subrange(0, i + 1)) =~= start.found@ + members_returns(
                    v@.subrange(0, i as int),
                ) + member_returns(v@[i as int]));
            }
            i += 1;
        }
        assert(v@.subrange(0, v@.len() as int) =~= v@);
    }

    fn visit_class(&mut self, x: &Class)
        requires
            old(self).wf(),
        ensures
            final(self).advanced(*old(self), found_in_class(*x)),
            *final(final(self).context) == *final(old(self).context),
    {
        let ghost s0 = self.found@;
        // The class itself is not entered: its setters are checked, and nothing
        // else in it.
        self.visit_class_members(&x.body);
        assert(self.found@ =~= s0 + found_in_class(*x));
    }

    fn visit_setter_prop(&mut self, x: &SetterProp)
        requires
            old(self).wf(),
        ensures
            final(self).advanced(*old(self), opt_body_returns(x.body)),
            *final(final(self).context) == *final(old(self).context),
    {
        let ghost s0 = self.found@;
        self.check_opt_block(&x.body);
        assert(self.found@ =~= s0 + opt_body_returns(x.body));
    }

    fn visit_stmt(&mut self, x: &Stmt)
        requires
            old(self).wf(),
        ensures
            final(self).advanced(*old(self), found_in_stmt(*x)),
            *final(final(self).context) == *final(old(self).context),
        decreases x,
    {
        let ghost s0 = self.found@;
        match x {
            Stmt::Expr(e) => self.visit_expr(e),
            Stmt::Block(ss) => self.visit_stmts(ss),
            Stmt::Return(r) => self.visit_opt_expr(&r.arg),
            Stmt::Fn(f) => self.visit_function(&f.function),
            Stmt::Class(_, c) => self.visit_class(c),
            Stmt::Var(ds) => self.visit_declarators(ds),
            Stmt::Pattern(p) => self.visit_pat(p),
        }
        assert(self.found@ =~= s0 + found_in_stmt(*x));
    }

    fn visit_stmts(&mut self, v: &Vec<Stmt>)
        requires
            old(self).wf(),
        ensures
            final(self).advanced(*old(self), found_in_stmts(v@)),
            *final(final(self).context) == *final(old(self).context),
        decreases v,
    {
        let ghost start = *self;
        let mut i: usize = 0;
        proof {
            assert(start.found@ + found_in_stmts(v@.subrange(0, 0)) =~= start.found@);
        }
        while i < v.len()
            invariant
                i <= v.len(),
                self.advanced(start, found_in_stmts(v@.subrange(0, i as int))),
                *final(self.context) == *final(start.context),
            decreases v.len() - i,
        {
            proof {
                assert(v@.subrange(0, i + 1).subrange(0, i as int) =~= v@.subrange(0, i as int));
            }
            self.visit_stmt(&v[i]);
            proof {
                assert(start.found@ + found_in_stmts(v@.subrange(0, i + 1)) =~= start.found@ + found_in_stmts(
                    v@.subrange(0, i as int),
                ) + found_in_stmt(v@[i as int]));
            }
            i += 1;
        }
        assert(v@.subrange(0, v@.len() as int) =~= v@);
    }

    fn visit_opt_block(&mut self, x: &Option<Vec<Stmt>>)
        requires
            old(self).wf(),
        ensures
            final(self).advanced(*old(self), found_in_opt_block(*x)),
            *final(final(self).context) == *final(old(self).context),
        decreases x,
    {
        let ghost s0 = self.found@;
        match x {
            Some(ss) => self.visit_stmts(ss),
            None => {},
        }
        assert(self.found@ =~= s0 + found_in_opt_block(*x));
    }

    fn visit_declarator(&mut self, x: &VarDeclarator)
        requires
            old(self).wf(),
        ensures
            final(self).advanced(*old(self), found_in_declarator(*x)),
            *final(final(self).context) == *final(old(self).context),
        decreases x,
    {
        let ghost s0 = self.found@;
        self.visit_pat(&x.name);
        self.visit_opt_expr(&x.init);
        assert(self.found@ =~= s0 + found_in_declarator(*x));
    }

    fn visit_declarators(&mut self, v: &Vec<VarDeclarator>)
        requires
            old(self).wf(),
        ensures
            final(self).advanced(*old(self), found_in_declarators(v@)),
            *final(final(self).context) == *final(old(self).context),
        decreases v,
    {
        let ghost start = *self;
        let mut i: usize = 0;
        proof {
            assert(start.found@ + found_in_declarators(v@.subrange(0, 0)) =~= start.found@);
        }
        while i < v.len()
            invariant
                i <= v.len(),
                self.advanced(start, found_in_declarators(v@.subrange(0, i as int))),
                *final(self.context) == *final(start.context),
            decreases v.len() - i,
        {
            proof {
                assert(v@.subrange(0, i + 1).subrange(0, i as int) =~= v@.subrange(0, i as int));
            }
            self.visit_declarator(&v[i]);
            proof {
                assert(start.found@ + found_in_declarators(v@.subrange(0, i + 1)) =~= start.found@ + found_in_declarators(
                    v@.subrange(0, i as int),
                ) + found_in_declarator(v@[i as int]));
            }
            i += 1;
        }
        assert(v@.subrange(0, v@.len() as int) =~= v@);
    }

    fn visit_param(&mut self, x: &Param)
        requires
            old(self).wf(),
        ensures
            final(self).advanced(*old(self), found_in_param(*x)),
            *final(final(self).context) == *final(old(self).context),
        decreases x,
    {
        let ghost s0 = self.found@;
        self.visit_pat(&x.pat);
        assert(self.found@ =~= s0 + found_in_param(*x));
    }

    fn visit_params(&mut self, v: &Vec<Param>)
        requires
            old(self).wf(),
        ensures
            final(self).advanced(*old(self), found_in_params(v@)),
            *final(final(self).context) == *final(old(self).context),
        decreases v,
    {
        let ghost start = *self;
        let mut i: usize = 0;
        proof {
            assert(start.found@ + found_in_params(v@.subrange(0, 0)) =~= start.found@);
        }
        while i < v.len()
            invariant
                i <= v.len(),
                self.advanced(start, found_in_params(v@.subrange(0, i as int))),
                *final(self.context) == *final(start.context),
            decreases v.len() - i,
        {
            proof {
                assert(v@.subrange(0, i + 1).subrange(0, i as int) =~= v@.subrange(0, i as int));
            }
            self.visit_param(&v[i]);
            proof {
                assert(start.found@ + found_in_params(v@.subrange(0, i + 1)) =~= start.found@ + found_in_params(
                    v@.subrange(0, i as int),
                ) + found_in_param(v@[i as int]));
            }
            i += 1;
        }
        assert(v@.subrange(0, v@.len() as int) =~= v@);
    }

    fn visit_function(&mut self, x: &Function)
        requires
            old(self).wf(),
        ensures
            final(self).advanced(*old(self), found_in_function(*x)),
            *final(final(self).context) == *final(old(self).context),
        decreases x,
    {
        let ghost s0 = self.found@;
        self.visit_params(&x.params);
        self.visit_opt_block(&x.body);
        assert(self.found@ =~= s0 + found_in_function(*x));
    }

    fn visit_expr(&mut self, x: &Expr)
        requires
            old(self).wf(),
        ensures
            final(self).advanced(*old(self), found_in_expr(*x)),
            *final(final(self).context) == *final(old(self).context),
        decreases x,
    {
        let ghost s0 = self.found@;
        match x {
            Expr::Ident(_) => {},
            Expr::Lit(_) => {},
            Expr::Fn(f) => self.visit_function(f),
            Expr::Arrow(a) => {
                self.visit_pats(&a.params);
                self.visit_stmts(&a.body);
            },
            Expr::Class(c) => self.visit_class(c),
            Expr::Object(ps) => self.visit_props(ps),
            Expr::Compound(es) => self.visit_exprs(es),
        }
        assert(self.found@ =~= s0 + found_in_expr(*x));
    }

    fn visit_exprs(&mut self, v: &Vec<Expr>)
        requires
            old(self).wf(),
        ensures
            final(self).advanced(*old(self), found_in_exprs(v@)),
            *final(final(self).context) == *final(old(self).context),
        decreases v,
    {
        let ghost start = *self;
        let mut i: usize = 0;
        proof {
            assert(start.found@ + found_in_exprs(v@.subrange(0, 0)) =~= start.found@);
        }
        while i < v.len()
            invariant
                i <= v.len(),
                self.advanced(start, found_in_exprs(v@.subrange(0, i as int))),
                *final(self.context) == *final(start.context),
            decreases v.len() - i,
        {
            proof {
                assert(v@.subrange(0, i + 1).subrange(0, i as int) =~= v@.subrange(0, i as int));
            }
            self.visit_expr(&v[i]);
            proof {
                assert(start.found@ + found_in_exprs(v@.subrange(0, i + 1)) =~= start.found@ + found_in_exprs(
                    v@.subrange(0, i as int),
                ) + found_in_expr(v@[i as int]));
            }
            i += 1;
        }
        assert(v@.subrange(0, v@.len() as int) =~= v@);
    }

    fn visit_opt_expr(&mut self, x: &Option<Expr>)
        requires
            old(self).wf(),
        ensures
            final(self).advanced(*old(self), found_in_opt_expr(*x)),
            *final(final(self).context) == *final(old(self).context),
        decreases x,
    {
        let ghost s0 = self.found@;
        match x {
            Some(e) => self.visit_expr(e),
            None => {},
        }
        assert(self.found@ =~= s0 + found_in_opt_expr(*x));
    }

    fn visit_pat(&mut self, x: &Pat)
        requires
            old(self).wf(),
        ensures
            final(self).advanced(*old(self), found_in_pat(*x)),
            *final(final(self).context) == *final(old(self).context),
        decreases x,
    {
        let ghost s0 = self.found@;
        match x {
            Pat::Ident(_) => {},
            Pat::Array(ps) => self.visit_pats(ps),
            Pat::Object(props) => self.visit_obj_props(props),
            Pat::Assign(left, right) => {
                self.visit_pat(left);
                self.visit_expr(right);
            },
            Pat::Rest(inner) => self.visit_pat(inner),
            Pat::Expr(e) => self.visit_expr(e),
        }
        assert(self.found@ =~= s0 + found_in_pat(*x));
    }

    fn visit_pats(&mut self, v: &Vec<Pat>)
        requires
            old(self).wf(),
        ensures
            final(self).advanced(*old(self), found_in_pats(v@)),
            *final(final(self).context) == *final(old(self).context),
        decreases v,
    {
        let ghost start = *self;
        let mut i: usize = 0;
        proof {
            assert(start.found@ + found_in_pats(v@.subrange(0, 0)) =~= start.found@);
        }
        while i < v.len()
            invariant
                i <= v.len(),
                self.advanced(start, found_in_pats(v@.subrange(0, i as int))),
                *final(self.context) == *final(start.context),
            decreases v.len() - i,
        {
            proof {
                assert(v@.subrange(0, i + 1).subrange(0, i as int) =~= v@.subrange(0, i as int));
            }
            self.visit_pat(&v[i]);
            proof {
                assert(start.found@ + found_in_pats(v@.subrange(0, i + 1)) =~= start.found@ + found_in_pats(
                    v@.subrange(0, i as int),
                ) + found_in_pat(v@[i as int]));
            }
            i += 1;
        }
        assert(v@.subrange(0, v@.len() as int) =~= v@);
    }

    fn visit_obj_prop(&mut self, x: &ObjectPatProp)
        requires
            old(self).wf(),
        ensures
            final(self).advanced(*old(self), found_in_obj_prop(*x)),
            *final(final(self).context) == *final(old(self).context),
        decreases x,
    {
        let ghost s0 = self.found@;
        match x {
            ObjectPatProp::KeyValue(key, value) => {
                self.visit_prop_name(key);
                self.visit_pat(value);
            },
            ObjectPatProp::Assign(_, value) => self.visit_opt_expr(value),
            ObjectPatProp::Rest(inner) => self.visit_pat(inner),
        }
        assert(self.found@ =~= s0 + found_in_obj_prop(*x));
    }

    fn visit_obj_props(&mut self, v: &Vec<ObjectPatProp>)
        requires
            old(self).wf(),
        ensures
            final(self).advanced(*old(self), found_in_obj_props(v@)),
            *final(final(self).context) == *final(old(self).context),
        decreases v,
    {
        let ghost start = *self;
        let mut i: usize = 0;
        proof {
            assert(start.found@ + found_in_obj_props(v@.subrange(0, 0)) =~= start.found@);
        }
        while i < v.len()
            invariant
                i <= v.len(),
                self.advanced(start, found_in_obj_props(v@.subrange(0, i as int))),
                *final(self.context) == *final(start.context),
            decreases v.len() - i,
        {
            proof {
                assert(v@.subrange(0, i + 1).subrange(0, i as int) =~= v@.subrange(0, i as int));
            }
            self.visit_obj_prop(&v[i]);
            proof {
                assert(start.found@ + found_in_obj_props(v@.subrange(0, i + 1)) =~= start.found@ + found_in_obj_props(
                    v@.subrange(0, i as int),
                ) + found_in_obj_prop(v@[i as int]));
            }
            i += 1;
        }
        assert(v@.subrange(0, v@.len() as int) =~= v@);
    }

    fn visit_prop_name(&mut self, x: &PropName)
        requires
            old(self).wf(),
        ensures
            final(self).advanced(*old(self), found_in_prop_name(*x)),
            *final(final(self).context) == *final(old(self).context),
        decreases x,
    {
        let ghost s0 = self.found@;
        match x {
            PropName::Computed(e) => self.visit_expr(e),
            _ => {},
        }
        assert(self.found@ =~= s0 + found_in_prop_name(*x));
    }

    fn visit_prop(&mut self, x: &Prop)
        requires
            old(self).wf(),
        ensures
            final(self).advanced(*old(self), found_in_prop(*x)),
            *final(final(self).context) == *final(old(self).context),
        decreases x,
    {
        let ghost s0 = self.found@;
        match x {
            Prop::Shorthand(_) => {},
            Prop::KeyValue(key, value) => {
                self.visit_prop_name(key);
                self.visit_expr(value);
            },
            Prop::Method(key, f) => {
                self.visit_prop_name(key);
                self.visit_function(f);
            },
            Prop::Getter(key, body) => {
                self.visit_prop_name(key);
                self.visit_opt_block(body);
            },
            Prop::Setter(sp) => self.visit_setter_prop(sp),
        }
        assert(self.found@ =~= s0 + found_in_prop(*x));
    }

    fn visit_props(&mut self, v: &Vec<Prop>)
        requires
            old(self).wf(),
        ensures
            final(self).advanced(*old(self), found_in_props(v@)),
            *final(final(self).context) == *final(old(self).context),
        decreases v,
    {
        let ghost start = *self;
        let mut i: usize = 0;
        proof {
            assert(start.found@ + found_in_props(v@.subrange(0, 0)) =~= start.found@);
        }
        while i < v.len()
            invariant
                i <= v.len(),
                self.advanced(start, found_in_props(v@.subrange(0, i as int))),
                *final(self.context) == *final(start.context),
            decreases v.len() - i,
        {
            proof {
                assert(v@.subrange(0, i + 1).subrange(0, i as int) =~= v@.subrange(0, i as int));
            }
            self.visit_prop(&v[i]);
            proof {
                assert(start.found@ + found_in_props(v@.subrange(0, i + 1)) =~= start.found@ + found_in_props(
                    v@.subrange(0, i as int),
                ) + found_in_prop(v@[i as int]));
            }
            i += 1;
        }
        assert(v@.subrange(0, v@.len() as int) =~= v@);
    }
}

} // verus!
