//! Flags a binding declared again in the scope it already occupies.
//!
//! The resolver has already given every identifier a symbol that tells
//! bindings of equal names in different scopes apart, so one flat set of the
//! symbols seen so far is enough: a declaration whose symbol is in the set is
//! a redeclaration.
use crate::ast::{
    Class, ClassMember, ClassProp, Expr, FnDecl, Function, Ident, ObjectPatProp, Param, Pat, Program, Prop,
    PropName, Stmt, VarDeclarator,
};
use crate::context::{Context, DiagnosticView};
use crate::rules::LintRule;
use std::collections::HashSet;
use vstd::prelude::*;

verus! {

broadcast use vstd::std_specs::hash::group_hash_axioms;

pub const CODE: &'static str = "no-redeclare";

pub const MESSAGE: &'static str = "Redeclaration is not allowed";

// ---------------------------------------------------------------------------
// The identifiers that a binding pattern binds, in source order. Default
// values and computed keys bind nothing.

pub open spec fn pat_bindings(p: Pat) -> Seq<Ident>
    decreases p,
{
    match p {
        Pat::Ident(i) => seq![i],
        Pat::Array(ps) => pats_bindings(ps@),
        Pat::Object(props) => obj_props_bindings(props@),
        Pat::Assign(left, _) => pat_bindings(*left),
        Pat::Rest(inner) => pat_bindings(*inner),
        Pat::Expr(_) => seq![],
    }
}

pub open spec fn pats_bindings(ps: Seq<Pat>) -> Seq<Ident>
    decreases ps,
{
    if ps.len() == 0 {
        seq![]
    } else {
        pats_bindings(ps.subrange(0, ps.len() - 1)) + pat_bindings(ps[ps.len() - 1])
    }
}

pub open spec fn obj_prop_bindings(p: ObjectPatProp) -> Seq<Ident>
    decreases p,
{
    match p {
        ObjectPatProp::KeyValue(_, value) => pat_bindings(value),
        ObjectPatProp::Assign(key, _) => seq![key],
        ObjectPatProp::Rest(inner) => pat_bindings(inner),
    }
}

pub open spec fn obj_props_bindings(ps: Seq<ObjectPatProp>) -> Seq<Ident>
    decreases ps,
{
    if ps.len() == 0 {
        seq![]
    } else {
        obj_props_bindings(ps.subrange(0, ps.len() - 1)) + obj_prop_bindings(ps[ps.len() - 1])
    }
}

// ---------------------------------------------------------------------------
// The declaration sites of a tree, in the order of a depth-first, pre-order
// walk: the name of a function declaration with a body, and the bindings of
// every variable declarator's pattern and of every parameter pattern (of a
// function, a method, an arrow function or a setter). A declared pattern's
// bindings come first, then what its default values and computed keys
// declare, then, for a declarator, what its initialiser declares. Every
// child is entered; class members bind nothing, though a property's computed
// key and value are entered.

pub open spec fn stmt_decls(s: Stmt) -> Seq<Ident>
    decreases s,
{
    match s {
        Stmt::Expr(e) => expr_decls(e),
        Stmt::Block(ss) => stmts_decls(ss@),
        Stmt::Return(r) => opt_expr_decls(r.arg),
        Stmt::Fn(f) => fn_decl_decls(f),
        Stmt::Class(_, c) => class_decls(c),
        Stmt::Var(ds) => declarators_decls(ds@),
        Stmt::Pattern(p) => pat_walk_decls(p),
    }
}

/// A function declaration declares its name, then what its function
/// declares; one without a body declares nothing.
pub open spec fn fn_decl_decls(f: FnDecl) -> Seq<Ident>
    decreases f,
{
    match f.function.body {
        Some(_) => seq![f.ident] + function_decls(f.function),
        None => seq![],
    }
}

pub open spec fn stmts_decls(ss: Seq<Stmt>) -> Seq<Ident>
    decreases ss,
{
    if ss.len() == 0 {
        seq![]
    } else {
        stmts_decls(ss.subrange(0, ss.len() - 1)) + stmt_decls(ss[ss.len() - 1])
    }
}

pub open spec fn declarator_decls(d: VarDeclarator) -> Seq<Ident>
    decreases d,
{
    pat_bindings(d.name) + pat_walk_decls(d.name) + opt_expr_decls(d.init)
}

pub open spec fn declarators_decls(ds: Seq<VarDeclarator>) -> Seq<Ident>
    decreases ds,
{
    if ds.len() == 0 {
        seq![]
    } else {
        declarators_decls(ds.subrange(0, ds.len() - 1)) + declarator_decls(ds[ds.len() - 1])
    }
}

pub open spec fn param_decls(p: Param) -> Seq<Ident>
    decreases p,
{
    pat_bindings(p.pat) + pat_walk_decls(p.pat)
}

pub open spec fn params_decls(ps: Seq<Param>) -> Seq<Ident>
    decreases ps,
{
    if ps.len() == 0 {
        seq![]
    } else {
        params_decls(ps.subrange(0, ps.len() - 1)) + param_decls(ps[ps.len() - 1])
    }
}

/// An arrow function's parameters: each one's bindings, then what its
/// defaults declare.
pub open spec fn arrow_params_decls(ps: Seq<Pat>) -> Seq<Ident>
    decreases ps,
{
    if ps.len() == 0 {
        seq![]
    } else {
        arrow_params_decls(ps.subrange(0, ps.len() - 1)) + pat_bindings(ps[ps.len() - 1])
            + pat_walk_decls(ps[ps.len() - 1])
    }
}

pub open spec fn function_decls(f: Function) -> Seq<Ident>
    decreases f,
{
    params_decls(f.params@) + opt_block_decls(f.body)
}

pub open spec fn expr_decls(e: Expr) -> Seq<Ident>
    decreases e,
{
    match e {
        Expr::Ident(_) => seq![],
        Expr::Lit(_) => seq![],
        Expr::Fn(f) => function_decls(*f),
        Expr::Arrow(a) => arrow_params_decls(a.params@) + stmts_decls(a.body@),
        Expr::Class(c) => class_decls(*c),
        Expr::Object(ps) => props_decls(ps@),
        Expr::Compound(es) => exprs_decls(es@),
    }
}

pub open spec fn exprs_decls(es: Seq<Expr>) -> Seq<Ident>
    decreases es,
{
    if es.len() == 0 {
        seq![]
    } else {
        exprs_decls(es.subrange(0, es.len() - 1)) + expr_decls(es[es.len() - 1])
    }
}

pub open spec fn opt_block_decls(b: Option<Vec<Stmt>>) -> Seq<Ident>
    decreases b,
{
    match b {
        Some(ss) => stmts_decls(ss@),
        None => seq![],
    }
}

pub open spec fn opt_expr_decls(e: Option<Expr>) -> Seq<Ident>
    decreases e,
{
    match e {
        Some(x) => expr_decls(x),
        None => seq![],
    }
}

/// What the expressions inside a pattern (its default values and computed
/// keys) declare; the pattern's own bindings are not counted here.
pub open spec fn pat_walk_decls(p: Pat) -> Seq<Ident>
    decreases p,
{
    match p {
        Pat::Ident(_) => seq![],
        Pat::Array(ps) => pats_walk_decls(ps@),
        Pat::Object(props) => obj_props_walk_decls(props@),
        Pat::Assign(left, right) => pat_walk_decls(*left) + expr_decls(*right),
        Pat::Rest(inner) => pat_walk_decls(*inner),
        Pat::Expr(e) => expr_decls(*e),
    }
}

pub open spec fn pats_walk_decls(ps: Seq<Pat>) -> Seq<Ident>
    decreases ps,
{
    if ps.len() == 0 {
        seq![]
    } else {
        pats_walk_decls(ps.subrange(0, ps.len() - 1)) + pat_walk_decls(ps[ps.len() - 1])
    }
}

pub open spec fn obj_prop_walk_decls(p: ObjectPatProp) -> Seq<Ident>
    decreases p,
{
    match p {
        ObjectPatProp::KeyValue(key, value) => prop_name_decls(key) + pat_walk_decls(value),
        ObjectPatProp::Assign(_, value) => opt_expr_decls(value),
        ObjectPatProp::Rest(inner) => pat_walk_decls(inner),
    }
}

pub open spec fn obj_props_walk_decls(ps: Seq<ObjectPatProp>) -> Seq<Ident>
    decreases ps,
{
    if ps.len() == 0 {
        seq![]
    } else {
        obj_props_walk_decls(ps.subrange(0, ps.len() - 1)) + obj_prop_walk_decls(
            ps[ps.len() - 1],
        )
    }
}

pub open spec fn prop_name_decls(k: PropName) -> Seq<Ident>
    decreases k,
{
    match k {
        PropName::Computed(e) => expr_decls(*e),
        _ => seq![],
    }
}

pub open spec fn prop_decls(p: Prop) -> Seq<Ident>
    decreases p,
{
    match p {
        Prop::Shorthand(_) => seq![],
        Prop::KeyValue(key, value) => prop_name_decls(key) + expr_decls(value),
        Prop::Method(key, f) => prop_name_decls(key) + function_decls(f),
        Prop::Getter(key, body) => prop_name_decls(key) + opt_block_decls(body),
        Prop::Setter(sp) => prop_name_decls(sp.key) + pat_bindings(sp.param) + pat_walk_decls(
            sp.param,
        ) + opt_block_decls(
            sp.body,
        ),
    }
}

pub open spec fn props_decls(ps: Seq<Prop>) -> Seq<Ident>
    decreases ps,
{
    if ps.len() == 0 {
        seq![]
    } else {
        props_decls(ps.subrange(0, ps.len() - 1)) + prop_decls(ps[ps.len() - 1])
    }
}

pub open spec fn class_decls(c: Class) -> Seq<Ident>
    decreases c,
{
    let head = match c.super_class {
        Some(e) => expr_decls(*e),
        None => seq![],
    };
    head + members_decls(c.body@)
}

pub open spec fn member_decls(m: ClassMember) -> Seq<Ident>
    decreases m,
{
    match m {
        ClassMember::Constructor(f) => function_decls(f),
        ClassMember::Method(cm) => prop_name_decls(cm.key) + function_decls(cm.function),
        ClassMember::Prop(cp) => class_prop_decls(cp),
    }
}

/// A class property's name binds nothing; its computed key and its value
/// are entered.
pub open spec fn class_prop_decls(p: ClassProp) -> Seq<Ident>
    decreases p,
{
    prop_name_decls(p.key) + opt_expr_decls(p.value)
}

pub open spec fn members_decls(ms: Seq<ClassMember>) -> Seq<Ident>
    decreases ms,
{
    if ms.len() == 0 {
        seq![]
    } else {
        members_decls(ms.subrange(0, ms.len() - 1)) + member_decls(ms[ms.len() - 1])
    }
}

/// Every declaration site of a program, in source order.
pub open spec fn program_decls(p: Program) -> Seq<Ident> {
    stmts_decls(p.body@)
}


/// The symbols of `ids`.
pub open spec fn symbols(ids: Seq<Ident>) -> Set<u64>
    decreases ids.len(),
{
    if ids.len() == 0 {
        Set::empty()
    } else {
        symbols(ids.drop_last()).insert(ids.last().symbol)
    }
}

/// The declarations in `ids` whose symbol an earlier one already declared,
/// in order: the second and every later declaration of a symbol.
pub open spec fn redeclared(ids: Seq<Ident>) -> Seq<Ident>
    decreases ids.len(),
{
    if ids.len() == 0 {
        seq![]
    } else {
        let prev = ids.drop_last();
        if symbols(prev).contains(ids.last().symbol) {
            redeclared(prev).push(ids.last())
        } else {
            redeclared(prev)
        }
    }
}

pub open spec fn report(i: Ident) -> DiagnosticView {
    (i.span, CODE@, MESSAGE@)
}

/// The diagnostics for the declarations `ids`, taken in order.
pub open spec fn reports(ids: Seq<Ident>) -> Seq<DiagnosticView> {
    redeclared(ids).map_values(|i: Ident| report(i))
}

/// The declarations in `ids` of the symbol `s`, in order.
pub open spec fn occurrences(ids: Seq<Ident>, s: u64) -> Seq<Ident>
    decreases ids.len(),
{
    if ids.len() == 0 {
        seq![]
    } else {
        let prev = occurrences(ids.drop_last(), s);
        if ids.last().symbol == s {
            prev.push(ids.last())
        } else {
            prev
        }
    }
}

proof fn lemma_symbols_contains(ids: Seq<Ident>, s: u64)
    ensures
        symbols(ids).contains(s) <==> exists|j: int| 0 <= j < ids.len() && ids[j].symbol == s,
    decreases ids.len(),
{
    if ids.len() > 0 {
        let prev = ids.drop_last();
        lemma_symbols_contains(prev, s);
        if symbols(prev).contains(s) {
            let j = choose|j: int| 0 <= j < prev.len() && prev[j].symbol == s;
            assert(ids[j].symbol == s);
        }
        if exists|j: int| 0 <= j < ids.len() && ids[j].symbol == s {
            let j = choose|j: int| 0 <= j < ids.len() && ids[j].symbol == s;
            if j < prev.len() {
                assert(prev[j].symbol == s);
            }
        }
    }
}

proof fn lemma_occurrences_nonempty(ids: Seq<Ident>, s: u64)
    ensures
        occurrences(ids, s).len() > 0 <==> symbols(ids).contains(s),
    decreases ids.len(),
{
    if ids.len() > 0 {
        lemma_occurrences_nonempty(ids.drop_last(), s);
    }
}

proof fn lemma_redeclared_occurrences(ids: Seq<Ident>, s: u64)
    ensures
        occurrences(redeclared(ids), s) == if occurrences(ids, s).len() == 0 {
            Seq::<Ident>::empty()
        } else {
            occurrences(ids, s).skip(1)
        },
    decreases ids.len(),
{
    if ids.len() == 0 {
        assert(occurrences(redeclared(ids), s) =~= Seq::<Ident>::empty());
    } else {
        let prev = ids.drop_last();
        let x = ids.last();
        lemma_redeclared_occurrences(prev, s);
        lemma_occurrences_nonempty(prev, s);
        if symbols(prev).contains(x.symbol) {
            assert(redeclared(prev).push(x).drop_last() =~= redeclared(prev));
            if x.symbol == s {
                assert(occurrences(prev, s).push(x).skip(1) =~= occurrences(prev, s).skip(1).push(x));
            }
        } else if x.symbol == s {
            assert(occurrences(prev, s).len() == 0);
            assert(occurrences(ids, s).skip(1) =~= Seq::<Ident>::empty());
        }
    }
}

proof fn lemma_distinct_not_redeclared(ids: Seq<Ident>)
    requires
        forall|i: int, j: int|
            0 <= i < j < ids.len() ==> #[trigger] ids[i].symbol != #[trigger] ids[j].symbol,
    ensures
        redeclared(ids) == Seq::<Ident>::empty(),
    decreases ids.len(),
{
    if ids.len() > 0 {
        let prev = ids.drop_last();
        assert forall|i: int, j: int| 0 <= i < j < prev.len() implies #[trigger] prev[i].symbol
            != #[trigger] prev[j].symbol by {
            assert(prev[i] == ids[i] && prev[j] == ids[j]);
        }
        lemma_distinct_not_redeclared(prev);
        lemma_symbols_contains(prev, ids.last().symbol);
        if symbols(prev).contains(ids.last().symbol) {
            let j = choose|j: int| 0 <= j < prev.len() && prev[j].symbol == ids.last().symbol;
            assert(ids[j].symbol == ids[ids.len() - 1].symbol);
        }
    }
}

/// Where every declaration of a program has a symbol of its own, the rule
/// reports nothing.
pub proof fn lemma_unique_symbols_not_reported(p: Program)
    requires
        forall|i: int, j: int|
            0 <= i < j < program_decls(p).len() ==> #[trigger] program_decls(p)[i].symbol
                != #[trigger] program_decls(p)[j].symbol,
    ensures
        reports(program_decls(p)) == Seq::<DiagnosticView>::empty(),
{
    lemma_distinct_not_redeclared(program_decls(p));
    assert(reports(program_decls(p)) =~= Seq::<DiagnosticView>::empty());
}

/// A symbol declared k times, k at least 2, is reported k - 1 times: at its
/// second through its last declaration, in source order.
pub proof fn lemma_repeated_symbol_reported(p: Program, s: u64)
    requires
        occurrences(program_decls(p), s).len() >= 2,
    ensures
        occurrences(redeclared(program_decls(p)), s) == occurrences(program_decls(p), s).skip(1),
        occurrences(redeclared(program_decls(p)), s).len() == occurrences(program_decls(p), s).len()
            - 1,
{
    lemma_redeclared_occurrences(program_decls(p), s);
}

/// A symbol declared only once is never reported, however many other
/// bindings, in other scopes, carry the same name: only the symbol counts.
pub proof fn lemma_single_declaration_not_reported(p: Program, s: u64)
    requires
        occurrences(program_decls(p), s).len() <= 1,
    ensures
        occurrences(redeclared(program_decls(p)), s) == Seq::<Ident>::empty(),
{
    lemma_redeclared_occurrences(program_decls(p), s);
    if occurrences(program_decls(p), s).len() == 1 {
        assert(occurrences(program_decls(p), s).skip(1) =~= Seq::<Ident>::empty());
    }
}

proof fn lemma_stmts_decls_append(a: Seq<Stmt>, b: Seq<Stmt>)
    ensures
        stmts_decls(a + b) == stmts_decls(a) + stmts_decls(b),
    decreases b.len(),
{
    if b.len() == 0 {
        assert(a + b =~= a);
        assert(stmts_decls(a) + stmts_decls(b) =~= stmts_decls(a));
    } else {
        let b0 = b.subrange(0, b.len() - 1);
        lemma_stmts_decls_append(a, b0);
        assert((a + b).subrange(0, (a + b).len() - 1) =~= a + b0);
        assert((a + b)[(a + b).len() - 1] == b[b.len() - 1]);
        assert(stmts_decls(a + b0) + stmt_decls(b[b.len() - 1]) =~= stmts_decls(a) + (stmts_decls(
            b0,
        ) + stmt_decls(b[b.len() - 1])));
    }
}

/// A function declaration without a body declares nothing: neither its name
/// nor its parameters.
pub proof fn lemma_bodiless_fn_decl_declares_nothing(f: Stmt)
    requires
        f matches Stmt::Fn(d) && d.function.body is None,
    ensures
        stmt_decls(f) == Seq::<Ident>::empty(),
{
}

/// A function declaration without a body takes no part, at any depth: in any
/// statement list (a program's, a block's, a function's or an arrow
/// function's body) the list with it declares what the list without it
/// declares.
pub proof fn lemma_bodiless_fn_decl_removable(before: Seq<Stmt>, f: Stmt, after: Seq<Stmt>)
    requires
        f matches Stmt::Fn(d) && d.function.body is None,
    ensures
        stmts_decls(before + seq![f] + after) == stmts_decls(before + after),
{
    lemma_stmts_decls_append(before + seq![f], after);
    lemma_stmts_decls_append(before, seq![f]);
    lemma_stmts_decls_append(before, after);
    assert(seq![f].subrange(0, 0) =~= Seq::<Stmt>::empty());
    assert(seq![f][0] == f);
    assert(stmts_decls(Seq::<Stmt>::empty()) =~= Seq::<Ident>::empty());
    assert(stmt_decls(f) =~= Seq::<Ident>::empty());
    assert(stmts_decls(seq![f]) =~= Seq::<Ident>::empty());
    assert(stmts_decls(before) + Seq::<Ident>::empty() =~= stmts_decls(before));
}

/// A program that holds a function declaration without a body has the
/// declarations, and so the reports, of the same program without it.
pub proof fn lemma_bodiless_fn_decl_ignored(p: Program, q: Program, before: Seq<Stmt>, f: Stmt, after: Seq<Stmt>)
    requires
        f matches Stmt::Fn(d) && d.function.body is None,
        p.body@ == before + seq![f] + after,
        q.body@ == before + after,
    ensures
        program_decls(p) == program_decls(q),
        reports(program_decls(p)) == reports(program_decls(q)),
{
    lemma_bodiless_fn_decl_removable(before, f, after);
}

pub struct NoRedeclare;

impl NoRedeclare {
    pub fn new() -> (r: NoRedeclare) {
        NoRedeclare
    }
}

impl LintRule for NoRedeclare {
    open spec fn reports(&self, program: Program) -> Seq<DiagnosticView> {
        reports(program_decls(program))
    }

    open spec fn spec_code(&self) -> Seq<char> {
        CODE@
    }

    fn code(&self) -> (r: &'static str) {
        CODE
    }

    open spec fn spec_tags(&self) -> Seq<Seq<char>> {
        seq!["recommended"@]
    }

    fn tags(&self) -> (r: Vec<&'static str>) {
        let r = vec!["recommended"];
        assert(r@.map_values(|t: &'static str| t@) =~= seq!["recommended"@]);
        r
    }

    fn lint_program(&self, context: &mut Context, program: &Program) {
        let mut visitor = NoRedeclareVisitor {
            bindings: HashSet::new(),
            seen: Ghost(Seq::empty()),
            base: Ghost(context@),
        };
        proof {
            assert(reports(Seq::<Ident>::empty()) =~= Seq::<DiagnosticView>::empty());
            assert(context@ + Seq::<DiagnosticView>::empty() =~= context@);
        }
        visitor.visit_stmts(context, &program.body);
        assert(Seq::<Ident>::empty() + program_decls(*program) =~= program_decls(*program));
    }
}

/// One pass: the symbols declared so far, and (as ghost state) the
/// declarations seen so far and the diagnostics the context held before.
struct NoRedeclareVisitor {
    bindings: HashSet<u64>,
    seen: Ghost<Seq<Ident>>,
    base: Ghost<Seq<DiagnosticView>>,
}

impl NoRedeclareVisitor {
    /// The set holds the symbols seen, and `ctx` holds what it held before,
    /// then a report for each redeclaration seen.
    spec fn wf(&self, ctx: Context) -> bool {
        &&& self.bindings@ == symbols(self.seen@)
        &&& ctx@ == self.base@ + reports(self.seen@)
    }

    /// `self` is `before` after the declarations `added`, reported into `ctx`.
    spec fn advanced(&self, before: Self, ctx: Context, added: Seq<Ident>) -> bool {
        &&& self.wf(ctx)
        &&& self.base == before.base
        &&& self.seen@ == before.seen@ + added
    }

    fn declare(&mut self, ctx: &mut Context, i: &Ident)
        requires
            old(self).wf(*old(ctx)),
        ensures
            final(self).advanced(*old(self), *final(ctx), seq![*i]),
    {
        let ghost prev = self.seen@;
        let fresh = self.bindings.insert(i.symbol);
        if !fresh {
            ctx.add_diagnostic(i.span, CODE, MESSAGE);
        }
        self.seen = Ghost(prev.push(*i));
        proof {
            assert(prev.push(*i).drop_last() =~= prev);
            assert(prev + seq![*i] =~= prev.push(*i));
            assert(reports(prev.push(*i)) =~= if fresh {
                reports(prev)
            } else {
                reports(prev).push(report(*i))
            });
        }
    }

    fn declare_pat(&mut self, ctx: &mut Context, x: &Pat)
        requires
            old(self).wf(*old(ctx)),
        ensures
            final(self).advanced(*old(self), *final(ctx), pat_bindings(*x)),
        decreases x,
    {
        let ghost s0 = self.seen@;
        match x {
            Pat::Ident(i) => self.declare(ctx, i),
            Pat::Array(ps) => self.declare_pats(ctx, ps),
            Pat::Object(props) => self.declare_obj_props(ctx, props),
            Pat::Assign(left, _) => self.declare_pat(ctx, left),
            Pat::Rest(inner) => self.declare_pat(ctx, inner),
            Pat::Expr(_) => {},
        }
        assert(self.seen@ =~= s0 + pat_bindings(*x));
    }

    fn declare_pats(&mut self, ctx: &mut Context, v: &Vec<Pat>)
        requires
            old(self).wf(*old(ctx)),
        ensures
            final(self).advanced(*old(self), *final(ctx), pats_bindings(v@)),
        decreases v,
    {
        let ghost start = *self;
        let mut i: usize = 0;
        proof {
            assert(start.seen@ + pats_bindings(v@.subrange(0, 0)) =~= start.seen@);
        }
        while i < v.len()
            invariant
                i <= v.len(),
                self.advanced(start, *ctx, pats_bindings(v@.subrange(0, i as int))),
            decreases v.len() - i,
        {
            proof {
                assert(v@.subrange(0, i + 1).subrange(0, i as int) =~= v@.subrange(0, i as int));
            }
            self.declare_pat(ctx, &v[i]);
            proof {
                assert(start.seen@ + pats_bindings(v@.subrange(0, i + 1)) =~= start.seen@ + pats_bindings(
                    v@.subrange(0, i as int),
                ) + pat_bindings(v@[i as int]));
            }
            i += 1;
        }
        assert(v@.subrange(0, v@.len() as int) =~= v@);
    }

    fn declare_obj_prop(&mut self, ctx: &mut Context, x: &ObjectPatProp)
        requires
            old(self).wf(*old(ctx)),
        ensures
            final(self).advanced(*old(self), *final(ctx), obj_prop_bindings(*x)),
        decreases x,
    {
        let ghost s0 = self.seen@;
        match x {
            ObjectPatProp::KeyValue(_, value) => self.declare_pat(ctx, value),
            ObjectPatProp::Assign(key, _) => self.declare(ctx, key),
            ObjectPatProp::Rest(inner) => self.declare_pat(ctx, inner),
        }
        assert(self.seen@ =~= s0 + obj_prop_bindings(*x));
    }

    fn declare_obj_props(&mut self, ctx: &mut Context, v: &Vec<ObjectPatProp>)
        requires
            old(self).wf(*old(ctx)),
        ensures
            final(self).advanced(*old(self), *final(ctx), obj_props_bindings(v@)),
        decreases v,
    {
        let ghost start = *self;
        let mut i: usize = 0;
        proof {
            assert(start.seen@ + obj_props_bindings(v@.subrange(0, 0)) =~= start.seen@);
        }
        while i < v.len()
            invariant
                i <= v.len(),
                self.advanced(start, *ctx, obj_props_bindings(v@.subrange(0, i as int))),
            decreases v.len() - i,
        {
            proof {
                assert(v@.subrange(0, i + 1).subrange(0, i as int) =~= v@.subrange(0, i as int));
            }
            self.declare_obj_prop(ctx, &v[i]);
            proof {
                assert(start.seen@ + obj_props_bindings(v@.subrange(0, i + 1)) =~= start.seen@ + obj_props_bindings(
                    v@.subrange(0, i as int),
                ) + obj_prop_bindings(v@[i as int]));
            }
            i += 1;
        }
        assert(v@.subrange(0, v@.len() as int) =~= v@);
    }

    fn declare_declarators(&mut self, ctx: &mut Context, v: &Vec<VarDeclarator>)
        requires
            old(self).wf(*old(ctx)),
        ensures
            final(self).advanced(*old(self), *final(ctx), declarators_decls(v@)),
        decreases v,
    {
        let ghost start = *self;
        let mut i: usize = 0;
        proof {
            assert(start.seen@ + declarators_decls(v@.subrange(0, 0)) =~= start.seen@);
        }
        while i < v.len()
            invariant
                i <= v.len(),
                self.advanced(start, *ctx, declarators_decls(v@.subrange(0, i as int))),
            decreases v.len() - i,
        {
            proof {
                assert(v@.subrange(0, i + 1).subrange(0, i as int) =~= v@.subrange(0, i as int));
            }
            self.visit_var_declarator(ctx, &v[i]);
            proof {
                assert(start.seen@ + declarators_decls(v@.subrange(0, i + 1)) =~= start.seen@ + declarators_decls(
                    v@.subrange(0, i as int),
                ) + declarator_decls(v@[i as int]));
            }
            i += 1;
        }
        assert(v@.subrange(0, v@.len() as int) =~= v@);
    }

    fn declare_params(&mut self, ctx: &mut Context, v: &Vec<Param>)
        requires
            old(self).wf(*old(ctx)),
        ensures
            final(self).advanced(*old(self), *final(ctx), params_decls(v@)),
        decreases v,
    {
        let ghost start = *self;
        let mut i: usize = 0;
        proof {
            assert(start.seen@ + params_decls(v@.subrange(0, 0)) =~= start.seen@);
        }
        while i < v.len()
            invariant
                i <= v.len(),
                self.advanced(start, *ctx, params_decls(v@.subrange(0, i as int))),
            decreases v.len() - i,
        {
            proof {
                assert(v@.subrange(0, i + 1).subrange(0, i as int) =~= v@.subrange(0, i as int));
            }
            self.visit_param(ctx, &v[i]);
            proof {
                assert(start.seen@ + params_decls(v@.subrange(0, i + 1)) =~= start.seen@ + params_decls(
                    v@.subrange(0, i as int),
                ) + param_decls(v@[i as int]));
            }
            i += 1;
        }
        assert(v@.subrange(0, v@.len() as int) =~= v@);
    }

    fn declare_arrow_params(&mut self, ctx: &mut Context, v: &Vec<Pat>)
        requires
            old(self).wf(*old(ctx)),
        ensures
            final(self).advanced(*old(self), *final(ctx), arrow_params_decls(v@)),
        decreases v,
    {
        let ghost start = *self;
        let mut i: usize = 0;
        proof {
            assert(start.seen@ + arrow_params_decls(v@.subrange(0, 0)) =~= start.seen@);
        }
        while i < v.len()
            invariant
                i <= v.len(),
                self.advanced(start, *ctx, arrow_params_decls(v@.subrange(0, i as int))),
            decreases v.len() - i,
        {
            proof {
                assert(v@.subrange(0, i + 1).subrange(0, i as int) =~= v@.subrange(0, i as int));
            }
            self.declare_pat(ctx, &v[i]);
            self.walk_pat(ctx, &v[i]);
            proof {
                assert(start.seen@ + arrow_params_decls(v@.subrange(0, i + 1)) =~= start.seen@
                    + arrow_params_decls(v@.subrange(0, i as int)) + pat_bindings(v@[i as int])
                    + pat_walk_decls(v@[i as int]));
            }
            i += 1;
        }
        assert(v@.subrange(0, v@.len() as int) =~= v@);
    }

    fn visit_stmt(&mut self, ctx: &mut Context, x: &Stmt)
        requires
            old(self).wf(*old(ctx)),
        ensures
            final(self).advanced(*old(self), *final(ctx), stmt_decls(*x)),
        decreases x,
    {
        let ghost s0 = self.seen@;
        match x {
            Stmt::Expr(e) => self.visit_expr(ctx, e),
            Stmt::Block(ss) => self.visit_stmts(ctx, ss),
            Stmt::Return(r) => self.visit_opt_expr(ctx, &r.arg),
            Stmt::Fn(f) => self.visit_fn_decl(ctx, f),
            Stmt::Class(_, c) => self.visit_class(ctx, c),
            Stmt::Var(ds) => self.declare_declarators(ctx, ds),
            Stmt::Pattern(p) => self.walk_pat(ctx, p),
        }
        assert(self.seen@ =~= s0 + stmt_decls(*x));
    }

    fn visit_fn_decl(&mut self, ctx: &mut Context, x: &FnDecl)
        requires
            old(self).wf(*old(ctx)),
        ensures
            final(self).advanced(*old(self), *final(ctx), fn_decl_decls(*x)),
        decreases x,
    {
        let ghost s0 = self.seen@;
        // A signature without a body declares nothing.
        if x.function.body.is_some() {
            self.declare(ctx, &x.ident);
            self.visit_function(ctx, &x.function);
        }
        assert(self.seen@ =~= s0 + fn_decl_decls(*x));
    }

    fn visit_var_declarator(&mut self, ctx: &mut Context, x: &VarDeclarator)
        requires
            old(self).wf(*old(ctx)),
        ensures
            final(self).advanced(*old(self), *final(ctx), declarator_decls(*x)),
        decreases x,
    {
        let ghost s0 = self.seen@;
        // The pattern's bindings, then its defaults, then the initialiser.
        self.declare_pat(ctx, &x.name);
        self.walk_pat(ctx, &x.name);
        self.visit_opt_expr(ctx, &x.init);
        assert(self.seen@ =~= s0 + declarator_decls(*x));
    }

    fn visit_param(&mut self, ctx: &mut Context, x: &Param)
        requires
            old(self).wf(*old(ctx)),
        ensures
            final(self).advanced(*old(self), *final(ctx), param_decls(*x)),
        decreases x,
    {
        let ghost s0 = self.seen@;
        self.declare_pat(ctx, &x.pat);
        self.walk_pat(ctx, &x.pat);
        assert(self.seen@ =~= s0 + param_decls(*x));
    }

    fn visit_class_prop(&mut self, ctx: &mut Context, x: &ClassProp)
        requires
            old(self).wf(*old(ctx)),
        ensures
            final(self).advanced(*old(self), *final(ctx), class_prop_decls(*x)),
        decreases x,
    {
        let ghost s0 = self.seen@;
        self.visit_prop_name(ctx, &x.key);
        self.visit_opt_expr(ctx, &x.value);
        assert(self.seen@ =~= s0 + class_prop_decls(*x));
    }

    fn visit_stmts(&mut self, ctx: &mut Context, v: &Vec<Stmt>)
        requires
            old(self).wf(*old(ctx)),
        ensures
            final(self).advanced(*old(self), *final(ctx), stmts_decls(v@)),
        decreases v,
    {
        let ghost start = *self;
        let mut i: usize = 0;
        proof {
            assert(start.seen@ + stmts_decls(v@.subrange(0, 0)) =~= start.seen@);
        }
        while i < v.len()
            invariant
                i <= v.len(),
                self.advanced(start, *ctx, stmts_decls(v@.subrange(0, i as int))),
            decreases v.len() - i,
        {
            proof {
                assert(v@.subrange(0, i + 1).subrange(0, i as int) =~= v@.subrange(0, i as int));
            }
            self.visit_stmt(ctx, &v[i]);
            proof {
                assert(start.seen@ + stmts_decls(v@.subrange(0, i + 1)) =~= start.seen@ + stmts_decls(
                    v@.subrange(0, i as int),
                ) + stmt_decls(v@[i as int]));
            }
            i += 1;
        }
        assert(v@.subrange(0, v@.len() as int) =~= v@);
    }

    fn visit_opt_block(&mut self, ctx: &mut Context, x: &Option<Vec<Stmt>>)
        requires
            old(self).wf(*old(ctx)),
        ensures
            final(self).advanced(*old(self), *final(ctx), opt_block_decls(*x)),
        decreases x,
    {
        let ghost s0 = self.seen@;
        match x {
            Some(ss) => self.visit_stmts(ctx, ss),
            None => {},
        }
        assert(self.seen@ =~= s0 + opt_block_decls(*x));
    }

    fn visit_function(&mut self, ctx: &mut Context, x: &Function)
        requires
            old(self).wf(*old(ctx)),
        ensures
            final(self).advanced(*old(self), *final(ctx), function_decls(*x)),
        decreases x,
    {
        let ghost s0 = self.seen@;
        self.declare_params(ctx, &x.params);
        self.visit_opt_block(ctx, &x.body);
        assert(self.seen@ =~= s0 + function_decls(*x));
    }

    fn visit_expr(&mut self, ctx: &mut Context, x: &Expr)
        requires
            old(self).wf(*old(ctx)),
        ensures
            final(self).advanced(*old(self), *final(ctx), expr_decls(*x)),
        decreases x,
    {
        let ghost s0 = self.seen@;
        match x {
            Expr::Ident(_) => {},
            Expr::Lit(_) => {},
            Expr::Fn(f) => self.visit_function(ctx, f),
            Expr::Arrow(a) => {
                self.declare_arrow_params(ctx, &a.params);
                self.visit_stmts(ctx, &a.body);
            },
            Expr::Class(c) => self.visit_class(ctx, c),
            Expr::Object(ps) => self.visit_props(ctx, ps),
            Expr::Compound(es) => self.visit_exprs(ctx, es),
        }
        assert(self.seen@ =~= s0 + expr_decls(*x));
    }

    fn visit_exprs(&mut self, ctx: &mut Context, v: &Vec<Expr>)
        requires
            old(self).wf(*old(ctx)),
        ensures
            final(self).advanced(*old(self), *final(ctx), exprs_decls(v@)),
        decreases v,
    {
        let ghost start = *self;
        let mut i: usize = 0;
        proof {
            assert(start.seen@ + exprs_decls(v@.subrange(0, 0)) =~= start.seen@);
        }
        while i < v.len()
            invariant
                i <= v.len(),
                self.advanced(start, *ctx, exprs_decls(v@.subrange(0, i as int))),
            decreases v.len() - i,
        {
            proof {
                assert(v@.subrange(0, i + 1).subrange(0, i as int) =~= v@.subrange(0, i as int));
            }
            self.visit_expr(ctx, &v[i]);
            proof {
                assert(start.seen@ + exprs_decls(v@.subrange(0, i + 1)) =~= start.seen@ + exprs_decls(
                    v@.subrange(0, i as int),
                ) + expr_decls(v@[i as int]));
            }
            i += 1;
        }
        assert(v@.subrange(0, v@.len() as int) =~= v@);
    }

    fn visit_opt_expr(&mut self, ctx: &mut Context, x: &Option<Expr>)
        requires
            old(self).wf(*old(ctx)),
        ensures
            final(self).advanced(*old(self), *final(ctx), opt_expr_decls(*x)),
        decreases x,
    {
        let ghost s0 = self.seen@;
        match x {
            Some(e) => self.visit_expr(ctx, e),
            None => {},
        }
        assert(self.seen@ =~= s0 + opt_expr_decls(*x));
    }

    fn walk_pat(&mut self, ctx: &mut Context, x: &Pat)
        requires
            old(self).wf(*old(ctx)),
        ensures
            final(self).advanced(*old(self), *final(ctx), pat_walk_decls(*x)),
        decreases x,
    {
        let ghost s0 = self.seen@;
        match x {
            Pat::Ident(_) => {},
            Pat::Array(ps) => self.walk_pats(ctx, ps),
            Pat::Object(props) => self.walk_obj_props(ctx, props),
            Pat::Assign(left, right) => {
                self.walk_pat(ctx, left);
                self.visit_expr(ctx, right);
            },
            Pat::Rest(inner) => self.walk_pat(ctx, inner),
            Pat::Expr(e) => self.visit_expr(ctx, e),
        }
        assert(self.seen@ =~= s0 + pat_walk_decls(*x));
    }

    fn walk_pats(&mut self, ctx: &mut Context, v: &Vec<Pat>)
        requires
            old(self).wf(*old(ctx)),
        ensures
            final(self).advanced(*old(self), *final(ctx), pats_walk_decls(v@)),
        decreases v,
    {
        let ghost start = *self;
        let mut i: usize = 0;
        proof {
            assert(start.seen@ + pats_walk_decls(v@.subrange(0, 0)) =~= start.seen@);
        }
        while i < v.len()
            invariant
                i <= v.len(),
                self.advanced(start, *ctx, pats_walk_decls(v@.subrange(0, i as int))),
            decreases v.len() - i,
        {
            proof {
                assert(v@.subrange(0, i + 1).subrange(0, i as int) =~= v@.subrange(0, i as int));
            }
            self.walk_pat(ctx, &v[i]);
            proof {
                assert(start.seen@ + pats_walk_decls(v@.subrange(0, i + 1)) =~= start.seen@ + pats_walk_decls(
                    v@.subrange(0, i as int),
                ) + pat_walk_decls(v@[i as int]));
            }
            i += 1;
        }
        assert(v@.subrange(0, v@.len() as int) =~= v@);
    }

    fn walk_obj_prop(&mut self, ctx: &mut Context, x: &ObjectPatProp)
        requires
            old(self).wf(*old(ctx)),
        ensures
            final(self).advanced(*old(self), *final(ctx), obj_prop_walk_decls(*x)),
        decreases x,
    {
        let ghost s0 = self.seen@;
        match x {
            ObjectPatProp::KeyValue(key, value) => {
                self.visit_prop_name(ctx, key);
                self.walk_pat(ctx, value);
            },
            ObjectPatProp::Assign(_, value) => self.visit_opt_expr(ctx, value),
            ObjectPatProp::Rest(inner) => self.walk_pat(ctx, inner),
        }
        assert(self.seen@ =~= s0 + obj_prop_walk_decls(*x));
    }

    fn walk_obj_props(&mut self, ctx: &mut Context, v: &Vec<ObjectPatProp>)
        requires
            old(self).wf(*old(ctx)),
        ensures
            final(self).advanced(*old(self), *final(ctx), obj_props_walk_decls(v@)),
        decreases v,
    {
        let ghost start = *self;
        let mut i: usize = 0;
        proof {
            assert(start.seen@ + obj_props_walk_decls(v@.subrange(0, 0)) =~= start.seen@);
        }
        while i < v.len()
            invariant
                i <= v.len(),
                self.advanced(start, *ctx, obj_props_walk_decls(v@.subrange(0, i as int))),
            decreases v.len() - i,
        {
            proof {
                assert(v@.subrange(0, i + 1).subrange(0, i as int) =~= v@.subrange(0, i as int));
            }
            self.walk_obj_prop(ctx, &v[i]);
            proof {
                assert(start.seen@ + obj_props_walk_decls(v@.subrange(0, i + 1)) =~= start.seen@ + obj_props_walk_decls(
                    v@.subrange(0, i as int),
                ) + obj_prop_walk_decls(v@[i as int]));
            }
            i += 1;
        }
        assert(v@.subrange(0, v@.len() as int) =~= v@);
    }

    fn visit_prop_name(&mut self, ctx: &mut Context, x: &PropName)
        requires
            old(self).wf(*old(ctx)),
        ensures
            final(self).advanced(*old(self), *final(ctx), prop_name_decls(*x)),
        decreases x,
    {
        let ghost s0 = self.seen@;
        match x {
            PropName::Computed(e) => self.visit_expr(ctx, e),
            _ => {},
        }
        assert(self.seen@ =~= s0 + prop_name_decls(*x));
    }

    fn visit_prop(&mut self, ctx: &mut Context, x: &Prop)
        requires
            old(self).wf(*old(ctx)),
        ensures
            final(self).advanced(*old(self), *final(ctx), prop_decls(*x)),
        decreases x,
    {
        let ghost s0 = self.seen@;
        match x {
            Prop::Shorthand(_) => {},
            Prop::KeyValue(key, value) => {
                self.visit_prop_name(ctx, key);
                self.visit_expr(ctx, value);
            },
            Prop::Method(key, f) => {
                self.visit_prop_name(ctx, key);
                self.visit_function(ctx, f);
            },
            Prop::Getter(key, body) => {
                self.visit_prop_name(ctx, key);
                self.visit_opt_block(ctx, body);
            },
            Prop::Setter(sp) => {
                self.visit_prop_name(ctx, &sp.key);
                self.declare_pat(ctx, &sp.param);
                self.walk_pat(ctx, &sp.param);
                self.visit_opt_block(ctx, &sp.body);
            },
        }
        assert(self.seen@ =~= s0 + prop_decls(*x));
    }

    fn visit_props(&mut self, ctx: &mut Context, v: &Vec<Prop>)
        requires
            old(self).wf(*old(ctx)),
        ensures
            final(self).advanced(*old(self), *final(ctx), props_decls(v@)),
        decreases v,
    {
        let ghost start = *self;
        let mut i: usize = 0;
        proof {
            assert(start.seen@ + props_decls(v@.subrange(0, 0)) =~= start.seen@);
        }
        while i < v.len()
            invariant
                i <= v.len(),
                self.advanced(start, *ctx, props_decls(v@.subrange(0, i as int))),
            decreases v.len() - i,
        {
            proof {
                assert(v@.subrange(0, i + 1).subrange(0, i as int) =~= v@.subrange(0, i as int));
            }
            self.visit_prop(ctx, &v[i]);
            proof {
                assert(start.seen@ + props_decls(v@.subrange(0, i + 1)) =~= start.seen@ + props_decls(
                    v@.subrange(0, i as int),
                ) + prop_decls(v@[i as int]));
            }
            i += 1;
        }
        assert(v@.subrange(0, v@.len() as int) =~= v@);
    }

    fn visit_class(&mut self, ctx: &mut Context, x: &Class)
        requires
            old(self).wf(*old(ctx)),
        ensures
            final(self).advanced(*old(self), *final(ctx), class_decls(*x)),
        decreases x,
    {
        let ghost s0 = self.seen@;
        match &x.super_class {
            Some(e) => self.visit_expr(ctx, e),
            None => {},
        }
        self.visit_members(ctx, &x.body);
        assert(self.seen@ =~= s0 + class_decls(*x));
    }

    fn visit_member(&mut self, ctx: &mut Context, x: &ClassMember)
        requires
            old(self).wf(*old(ctx)),
        ensures
            final(self).advanced(*old(self), *final(ctx), member_decls(*x)),
        decreases x,
    {
        let ghost s0 = self.seen@;
        match x {
            ClassMember::Constructor(f) => self.visit_function(ctx, f),
            ClassMember::Method(m) => {
                self.visit_prop_name(ctx, &m.key);
                self.visit_function(ctx, &m.function);
            },
            ClassMember::Prop(p) => self.visit_class_prop(ctx, p),
        }
        assert(self.seen@ =~= s0 + member_decls(*x));
    }

    fn visit_members(&mut self, ctx: &mut Context, v: &Vec<ClassMember>)
        requires
            old(self).wf(*old(ctx)),
        ensures
            final(self).advanced(*old(self), *final(ctx), members_decls(v@)),
        decreases v,
    {
        let ghost start = *self;
        let mut i: usize = 0;
        proof {
            assert(start.seen@ + members_decls(v@.subrange(0, 0)) =~= start.seen@);
        }
        while i < v.len()
            invariant
                i <= v.len(),
                self.advanced(start, *ctx, members_decls(v@.subrange(0, i as int))),
            decreases v.len() - i,
        {
            proof {
                assert(v@.subrange(0, i + 1).subrange(0, i as int) =~= v@.subrange(0, i as int));
            }
            self.visit_member(ctx, &v[i]);
            proof {
                assert(start.seen@ + members_decls(v@.subrange(0, i + 1)) =~= start.seen@ + members_decls(
                    v@.subrange(0, i as int),
                ) + member_decls(v@[i as int]));
            }
            i += 1;
        }
        assert(v@.subrange(0, v@.len() as int) =~= v@);
    }
}

} // verus!
