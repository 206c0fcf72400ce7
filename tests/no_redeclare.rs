use deno_lint::{
    Class, ClassMember, Context, Expr, FnDecl, Function, Ident, LintRule, NoRedeclare,
    ObjectPatProp, Param, Pat, Program, ProgramKind, PropName, Span, Stmt, TypeAnn,
    VarDeclarator,
};

/// The span of the `nth` (from 0) whole-word occurrence of `name` in `src`.
fn find(src: &str, name: &str, nth: usize) -> Span {
    let b = src.as_bytes();
    let is_word = |c: u8| c.is_ascii_alphanumeric() || c == b'_' || c == b'$';
    let mut seen = 0;
    for i in 0..=b.len() - name.len() {
        if &src[i..i + name.len()] == name
            && (i == 0 || !is_word(b[i - 1]))
            && (i + name.len() == b.len() || !is_word(b[i + name.len()]))
        {
            if seen == nth {
                return Span { lo: i as u32, hi: (i + name.len()) as u32 };
            }
            seen += 1;
        }
    }
    panic!("{} not found", name)
}

/// Line (from 1) and column (from 0) of a byte offset.
fn line_col(src: &str, offset: u32) -> (usize, usize) {
    let before = &src[..offset as usize];
    let line = before.matches('\n').count() + 1;
    let col = before.len() - before.rfind('\n').map(|i| i + 1).unwrap_or(0);
    (line, col)
}

fn ident(src: &str, name: &str, nth: usize, symbol: u64) -> Ident {
    Ident { name: name.to_string(), symbol, span: find(src, name, nth) }
}

fn bind(src: &str, name: &str, nth: usize, symbol: u64) -> Pat {
    Pat::Ident(ident(src, name, nth, symbol))
}

fn lit() -> Expr {
    Expr::Lit(Span { lo: 0, hi: 0 })
}

fn var(pats: Vec<Pat>) -> Stmt {
    Stmt::Var(
        pats.into_iter()
            .map(|name| VarDeclarator { span: Span { lo: 0, hi: 0 }, name, init: None })
            .collect(),
    )
}

fn var_init(pat: Pat, init: Expr) -> Stmt {
    Stmt::Var(vec![VarDeclarator { span: Span { lo: 0, hi: 0 }, name: pat, init: Some(init) }])
}

fn function(params: Vec<Pat>, body: Option<Vec<Stmt>>) -> Function {
    Function {
        span: Span { lo: 0, hi: 0 },
        params: params.into_iter().map(|pat| Param { pat, type_ann: None }).collect(),
        body,
        return_type: None,
    }
}

fn fn_decl(name: Ident, params: Vec<Pat>, body: Vec<Stmt>) -> Stmt {
    Stmt::Fn(FnDecl { ident: name, function: function(params, Some(body)) })
}

fn script(body: Vec<Stmt>) -> Program {
    Program { kind: ProgramKind::Script, body }
}

fn lint(program: &Program) -> Vec<u32> {
    let rule = NoRedeclare::new();
    let mut context = Context::new();
    rule.lint_program(&mut context, program);
    for d in context.diagnostics() {
        assert_eq!(d.code, "no-redeclare");
        assert_eq!(d.message, "Redeclaration is not allowed");
    }
    context.diagnostics().iter().map(|d| d.span.lo).collect()
}

fn assert_lint_ok(program: Program) {
    assert_eq!(lint(&program), Vec::<u32>::new());
}

fn assert_lint_err(program: Program, col: u32) {
    assert_eq!(lint(&program), vec![col]);
}

fn assert_lint_err_n(program: Program, cols: Vec<u32>) {
    assert_eq!(lint(&program), cols);
}

fn assert_lint_err_on_line_n(src: &str, program: Program, at: Vec<(usize, usize)>) {
    let found: Vec<(usize, usize)> = lint(&program).into_iter().map(|o| line_col(src, o)).collect();
    assert_eq!(found, at);
}

fn var_a_then(src: &str, second: Stmt) -> Program {
    script(vec![var(vec![bind(src, "a", 0, 1)]), second])
}

fn object_destructuring(src: &str, global: &str) -> Program {
    // var a; var {a = 0, b: <global> = 0} = {};
    let pattern = Pat::Object(vec![
        ObjectPatProp::Assign(ident(src, "a", 1, 1), Some(lit())),
        ObjectPatProp::KeyValue(
            PropName::Plain("b".to_string()),
            Pat::Assign(Box::new(bind(src, global, 0, 2)), Box::new(lit())),
        ),
    ]);
    script(vec![var(vec![bind(src, "a", 0, 1)]), var_init(pattern, Expr::Object(vec![]))])
}

fn two_in_function(src: &str) -> Program {
    // function f() { <decl> a; <decl> a; }
    script(vec![fn_decl(
        ident(src, "f", 0, 1),
        vec![],
        vec![var(vec![bind(src, "a", 0, 2)]), var(vec![bind(src, "a", 1, 2)])],
    )])
}

fn param_and_local(src: &str) -> Program {
    // function f(a) { <decl> a; }
    script(vec![fn_decl(
        ident(src, "f", 0, 1),
        vec![bind(src, "a", 0, 2)],
        vec![var(vec![bind(src, "a", 1, 2)])],
    )])
}

fn for_head(src: &str) -> Program {
    // for (<decl> a, a;;);
    script(vec![Stmt::Block(vec![var(vec![bind(src, "a", 0, 1), bind(src, "a", 1, 1)])])])
}

fn for_in_array(src: &str) -> Program {
    // for (let [a, a] in xs);
    script(vec![Stmt::Block(vec![
        var(vec![Pat::Array(vec![bind(src, "a", 0, 1), bind(src, "a", 1, 1)])]),
        Stmt::Expr(Expr::Ident(ident(src, "xs", 0, 9))),
    ])])
}

#[test]
fn no_redeclare_valid() {
    let src = "var a = 3; var b = function() { var a = 10; };";
    assert_lint_ok(script(vec![
        var_init(bind(src, "a", 0, 1), lit()),
        var_init(
            bind(src, "b", 0, 2),
            Expr::Fn(Box::new(function(vec![], Some(vec![var_init(bind(src, "a", 1, 3), lit())])))),
        ),
    ]));

    let src = "var a = 3; a = 10;";
    assert_lint_ok(script(vec![
        var_init(bind(src, "a", 0, 1), lit()),
        Stmt::Expr(Expr::Compound(vec![Expr::Ident(ident(src, "a", 1, 1)), lit()])),
    ]));

    let src = "if (true) {\n    let b = 2;\n} else {    \nlet b = 3;\n}";
    assert_lint_ok(script(vec![Stmt::Block(vec![
        Stmt::Expr(lit()),
        Stmt::Block(vec![var_init(bind(src, "b", 0, 1), lit())]),
        Stmt::Block(vec![var_init(bind(src, "b", 1, 2), lit())]),
    ])]));

    let src = "class C {
        constructor(a: string) {}
      }
      class D {
        constructor(a: string) {}
      }";
    let class = |nth: usize, symbol: u64| Class {
        span: Span { lo: 0, hi: 0 },
        super_class: None,
        body: vec![ClassMember::Constructor(Function {
            span: Span { lo: 0, hi: 0 },
            params: vec![Param {
                pat: bind(src, "a", nth, symbol),
                type_ann: Some(TypeAnn { span: find(src, "string", nth) }),
            }],
            body: Some(vec![]),
            return_type: None,
        })],
    };
    assert_lint_ok(script(vec![
        Stmt::Class(ident(src, "C", 0, 1), class(0, 3)),
        Stmt::Class(ident(src, "D", 0, 2), class(1, 4)),
    ]));
}

#[test]
fn no_redeclare_invalid() {
    let src = "var a = 3; var a = 10;";
    assert_lint_err(var_a_then(src, var_init(bind(src, "a", 1, 1), lit())), 15);

    let src = "switch(foo) { case a: var b = 3;\ncase b: var b = 4}";
    assert_lint_err_on_line_n(
        src,
        script(vec![Stmt::Block(vec![
            Stmt::Expr(Expr::Ident(ident(src, "foo", 0, 10))),
            Stmt::Expr(Expr::Ident(ident(src, "a", 0, 11))),
            var_init(bind(src, "b", 0, 1), lit()),
            Stmt::Expr(Expr::Ident(ident(src, "b", 1, 1))),
            var_init(bind(src, "b", 2, 1), lit()),
        ])]),
        vec![(2, 12)],
    );

    let src = "var a = 3; var a = 10;";
    assert_lint_err(var_a_then(src, var_init(bind(src, "a", 1, 1), lit())), 15);

    let src = "var a = {}; var a = [];";
    assert_lint_err(
        script(vec![
            var_init(bind(src, "a", 0, 1), Expr::Object(vec![])),
            var_init(bind(src, "a", 1, 1), Expr::Compound(vec![])),
        ]),
        16,
    );

    let src = "var a; function a() {}";
    assert_lint_err(var_a_then(src, fn_decl(ident(src, "a", 1, 1), vec![], vec![])), 16);

    let src = "function a() {} function a() {}";
    assert_lint_err(
        script(vec![
            fn_decl(ident(src, "a", 0, 1), vec![], vec![]),
            fn_decl(ident(src, "a", 1, 1), vec![], vec![]),
        ]),
        25,
    );

    let src = "var a = function() { }; var a = function() { }";
    let fn_expr = || Expr::Fn(Box::new(function(vec![], Some(vec![]))));
    assert_lint_err(
        script(vec![
            var_init(bind(src, "a", 0, 1), fn_expr()),
            var_init(bind(src, "a", 1, 1), fn_expr()),
        ]),
        28,
    );

    let src = "var a = function() { }; var a = new Date();";
    assert_lint_err(
        script(vec![
            var_init(bind(src, "a", 0, 1), fn_expr()),
            var_init(
                bind(src, "a", 1, 1),
                Expr::Compound(vec![Expr::Ident(ident(src, "Date", 0, 5))]),
            ),
        ]),
        28,
    );

    let src = "var a = 3; var a = 10; var a = 15;";
    assert_lint_err_n(
        script(vec![
            var_init(bind(src, "a", 0, 1), lit()),
            var_init(bind(src, "a", 1, 1), lit()),
            var_init(bind(src, "a", 2, 1), lit()),
        ]),
        vec![15, 27],
    );

    let src = "var a; var a;";
    assert_lint_err(var_a_then(src, var(vec![bind(src, "a", 1, 1)])), 11);

    let src = "export var a; var a;";
    assert_lint_err(
        Program {
            kind: ProgramKind::Module,
            body: vec![var(vec![bind(src, "a", 0, 1)]), var(vec![bind(src, "a", 1, 1)])],
        },
        18,
    );

    let src = "var a; var {a = 0, b: Object = 0} = {};";
    assert_lint_err_on_line_n(src, object_destructuring(src, "Object"), vec![(1, 12)]);
    assert_lint_err_on_line_n(src, object_destructuring(src, "Object"), vec![(1, 12)]);
    assert_lint_err_on_line_n(src, object_destructuring(src, "Object"), vec![(1, 12)]);

    let src = "var a; var {a = 0, b: globalThis = 0} = {};";
    assert_lint_err_on_line_n(src, object_destructuring(src, "globalThis"), vec![(1, 12)]);

    let src = "function f() { var a; var a; }";
    assert_lint_err(two_in_function(src), 26);

    let src = "function f(a) { var a; }";
    assert_lint_err(param_and_local(src), 20);

    // `var` is hoisted to the function: both name one binding.
    let src = "function f() { var a; if (test) { var a; } }";
    assert_lint_err(
        script(vec![fn_decl(
            ident(src, "f", 0, 1),
            vec![],
            vec![
                var(vec![bind(src, "a", 0, 2)]),
                Stmt::Block(vec![
                    Stmt::Expr(Expr::Ident(ident(src, "test", 0, 9))),
                    Stmt::Block(vec![var(vec![bind(src, "a", 1, 2)])]),
                ]),
            ],
        )]),
        38,
    );

    let src = "for (var a, a;;);";
    assert_lint_err(for_head(src), 12);

    let src = "let a; let a;";
    assert_lint_err(var_a_then(src, var(vec![bind(src, "a", 1, 1)])), 11);

    let src = "let a; const a = 0;";
    assert_lint_err(var_a_then(src, var_init(bind(src, "a", 1, 1), lit())), 13);
    assert_lint_err(var_a_then(src, var_init(bind(src, "a", 1, 1), lit())), 13);

    let src = "const a = 0; const a = 0;";
    assert_lint_err(
        script(vec![var_init(bind(src, "a", 0, 1), lit()), var_init(bind(src, "a", 1, 1), lit())]),
        19,
    );

    let src = "if (test) { let a; let a; }";
    assert_lint_err(
        script(vec![Stmt::Block(vec![
            Stmt::Expr(Expr::Ident(ident(src, "test", 0, 9))),
            Stmt::Block(vec![var(vec![bind(src, "a", 0, 1)]), var(vec![bind(src, "a", 1, 1)])]),
        ])]),
        23,
    );

    let src = "switch (test) { case 0: let a; let a; }";
    assert_lint_err(
        script(vec![Stmt::Block(vec![
            Stmt::Expr(Expr::Ident(ident(src, "test", 0, 9))),
            Stmt::Expr(lit()),
            var(vec![bind(src, "a", 0, 1)]),
            var(vec![bind(src, "a", 1, 1)]),
        ])]),
        35,
    );

    let src = "for (let a, a;;);";
    assert_lint_err(for_head(src), 12);

    let src = "for (let [a, a] in xs);";
    assert_lint_err(for_in_array(src), 13);
    assert_lint_err(for_in_array(src), 13);

    let src = "function f() { let a; let a; }";
    assert_lint_err(two_in_function(src), 26);

    let src = "function f(a) { let a; }";
    assert_lint_err(param_and_local(src), 20);

    let src = "function f() { if (test) { let a; let a; } }";
    assert_lint_err(
        script(vec![fn_decl(
            ident(src, "f", 0, 1),
            vec![],
            vec![Stmt::Block(vec![
                Stmt::Expr(Expr::Ident(ident(src, "test", 0, 9))),
                Stmt::Block(vec![var(vec![bind(src, "a", 0, 2)]), var(vec![bind(src, "a", 1, 2)])]),
            ])],
        )]),
        38,
    );
}

#[test]
fn var_declared_twice_reports_the_second() {
    let src = "var a = 3; var a = 10;";
    let program = var_a_then(src, var_init(bind(src, "a", 1, 1), lit()));
    assert_eq!(lint(&program), vec![find(src, "a", 1).lo]);
}

#[test]
fn parameter_then_var_collide() {
    let src = "function f(a) { var a; }";
    assert_eq!(lint(&param_and_local(src)), vec![find(src, "a", 1).lo]);
}

#[test]
fn lets_in_sibling_blocks_do_not_collide() {
    let src = "if (true) { let b = 2; } else { let b = 3; }";
    assert_lint_ok(script(vec![Stmt::Block(vec![
        Stmt::Expr(lit()),
        Stmt::Block(vec![var_init(bind(src, "b", 0, 1), lit())]),
        Stmt::Block(vec![var_init(bind(src, "b", 1, 2), lit())]),
    ])]));
}

#[test]
fn three_declarations_report_the_second_and_third() {
    let src = "var a = 3; var a = 10; var a = 15;";
    let program = script(vec![
        var_init(bind(src, "a", 0, 1), lit()),
        var_init(bind(src, "a", 1, 1), lit()),
        var_init(bind(src, "a", 2, 1), lit()),
    ]);
    assert_eq!(lint(&program), vec![find(src, "a", 1).lo, find(src, "a", 2).lo]);
}

#[test]
fn unique_symbols_report_nothing() {
    let src = "var a, b; function f(c, [d, ...e]) { let {g, h: i = 0} = x; }";
    assert_lint_ok(script(vec![
        var(vec![bind(src, "a", 0, 1), bind(src, "b", 0, 2)]),
        fn_decl(
            ident(src, "f", 0, 3),
            vec![
                bind(src, "c", 0, 4),
                Pat::Array(vec![bind(src, "d", 0, 5), Pat::Rest(Box::new(bind(src, "e", 0, 6)))]),
            ],
            vec![var_init(
                Pat::Object(vec![
                    ObjectPatProp::Assign(ident(src, "g", 0, 7), None),
                    ObjectPatProp::KeyValue(
                        PropName::Plain("h".to_string()),
                        Pat::Assign(Box::new(bind(src, "i", 0, 8)), Box::new(lit())),
                    ),
                ]),
                Expr::Ident(ident(src, "x", 0, 20)),
            )],
        ),
    ]));
}

#[test]
fn same_name_in_nested_scope_is_not_reported() {
    let src = "var a; function f() { var a; function g(a) { let a2; } }";
    assert_lint_ok(script(vec![
        var(vec![bind(src, "a", 0, 1)]),
        fn_decl(
            ident(src, "f", 0, 2),
            vec![],
            vec![
                var(vec![bind(src, "a", 1, 3)]),
                fn_decl(
                    ident(src, "g", 0, 4),
                    vec![bind(src, "a", 2, 5)],
                    vec![var(vec![bind(src, "a2", 0, 6)])],
                ),
            ],
        ),
    ]));
}

#[test]
fn function_signature_without_body_is_not_a_declaration() {
    let src = "function a(x); function a(x) {}";
    let signature = Stmt::Fn(FnDecl {
        ident: ident(src, "a", 0, 1),
        function: function(vec![bind(src, "x", 0, 2)], None),
    });
    let program = script(vec![
        signature,
        fn_decl(ident(src, "a", 1, 1), vec![bind(src, "x", 1, 3)], vec![]),
    ]);
    assert_lint_ok(program);

    let src = "function a() {} function a();";
    let program = script(vec![
        fn_decl(ident(src, "a", 0, 1), vec![], vec![]),
        Stmt::Fn(FnDecl { ident: ident(src, "a", 1, 1), function: function(vec![], None) }),
    ]);
    assert_lint_ok(program);
}

#[test]
fn declarations_in_a_declarator_initialiser_are_declared() {
    let src = "var f = function() { var x; var x; };";
    let body = vec![var(vec![bind(src, "x", 0, 2)]), var(vec![bind(src, "x", 1, 2)])];
    let program = script(vec![var_init(
        bind(src, "f", 0, 1),
        Expr::Fn(Box::new(function(vec![], Some(body)))),
    )]);
    assert_eq!(lint(&program), vec![find(src, "x", 1).lo]);
}

#[test]
fn declarations_in_an_arrow_initialiser_are_declared() {
    let src = "const g = () => { let y; let y; };";
    let body = vec![var(vec![bind(src, "y", 0, 2)]), var(vec![bind(src, "y", 1, 2)])];
    let arrow = deno_lint::ArrowExpr { span: Span { lo: 0, hi: 0 }, params: vec![], body };
    let program = script(vec![var_init(bind(src, "g", 0, 1), Expr::Arrow(Box::new(arrow)))]);
    assert_eq!(lint(&program), vec![find(src, "y", 1).lo]);
}

#[test]
fn declarations_in_a_parameter_default_are_declared() {
    let src = "function h(a = function() { var z; var z; }) {}";
    let inner = vec![var(vec![bind(src, "z", 0, 3)]), var(vec![bind(src, "z", 1, 3)])];
    let default = Expr::Fn(Box::new(function(vec![], Some(inner))));
    let param = Pat::Assign(Box::new(bind(src, "a", 0, 2)), Box::new(default));
    let program = script(vec![fn_decl(ident(src, "h", 0, 1), vec![param], vec![])]);
    assert_eq!(lint(&program), vec![find(src, "z", 1).lo]);
}

#[test]
fn arrow_parameter_then_var_collide() {
    let src = "const f = x => { var x; };";
    let arrow = deno_lint::ArrowExpr {
        span: Span { lo: 0, hi: 0 },
        params: vec![bind(src, "x", 0, 2)],
        body: vec![var(vec![bind(src, "x", 1, 2)])],
    };
    let program = script(vec![var_init(bind(src, "f", 0, 1), Expr::Arrow(Box::new(arrow)))]);
    assert_eq!(lint(&program), vec![find(src, "x", 1).lo]);
}

#[test]
fn setter_parameter_then_var_collide() {
    let src = "const o = { set s(v) { var v; } };";
    let setter = deno_lint::Prop::Setter(deno_lint::SetterProp {
        span: Span { lo: 0, hi: 0 },
        key: PropName::Plain("s".to_string()),
        param: bind(src, "v", 0, 2),
        body: Some(vec![var(vec![bind(src, "v", 1, 2)])]),
    });
    let program = script(vec![var_init(bind(src, "o", 0, 1), Expr::Object(vec![setter]))]);
    assert_eq!(lint(&program), vec![find(src, "v", 1).lo]);
}

#[test]
fn class_property_value_is_entered() {
    let src = "class C { p = function() { var a; var a; } }";
    let body = vec![var(vec![bind(src, "a", 0, 2)]), var(vec![bind(src, "a", 1, 2)])];
    let class = Class {
        span: Span { lo: 0, hi: 0 },
        super_class: None,
        body: vec![ClassMember::Prop(deno_lint::ClassProp {
            span: Span { lo: 0, hi: 0 },
            key: PropName::Plain("p".to_string()),
            value: Some(Expr::Fn(Box::new(function(vec![], Some(body))))),
        })],
    };
    let program = script(vec![Stmt::Class(ident(src, "C", 0, 1), class)]);
    assert_eq!(lint(&program), vec![find(src, "a", 1).lo]);
}

#[test]
fn rule_code_and_tags() {
    let rule = NoRedeclare::new();
    assert_eq!(rule.code(), "no-redeclare");
    assert_eq!(rule.tags(), vec!["recommended"]);
}

#[test]
fn running_twice_gives_the_same_diagnostics() {
    let src = "var a; var a; var a;";
    let program = script(vec![
        var(vec![bind(src, "a", 0, 1)]),
        var(vec![bind(src, "a", 1, 1)]),
        var(vec![bind(src, "a", 2, 1)]),
    ]);
    assert_eq!(lint(&program), lint(&program));
    assert_eq!(lint(&program), vec![11, 18]);
}

#[test]
fn context_keeps_every_report_in_order() {
    let mut context = Context::new();
    assert!(context.diagnostics().is_empty());
    context.add_diagnostic(Span { lo: 3, hi: 4 }, "x", "first");
    context.add_diagnostic(Span { lo: 1, hi: 2 }, "y", "second");
    context.add_diagnostic(Span { lo: 3, hi: 4 }, "x", "first");
    let d = context.diagnostics();
    assert_eq!(d.len(), 3);
    assert_eq!((d[0].span, d[0].code.as_str(), d[0].message.as_str()), (Span { lo: 3, hi: 4 }, "x", "first"));
    assert_eq!((d[1].span, d[1].code.as_str(), d[1].message.as_str()), (Span { lo: 1, hi: 2 }, "y", "second"));
    assert_eq!(d[2].span, Span { lo: 3, hi: 4 });
}
