use math_eval::ast::{MathExpr, Operand, PrimesMark, TextKind};
use math_eval::content::{Content, ContentKind};
use math_eval::context::Context;
use math_eval::diag::{Diag, DiagKind, Hint};
use math_eval::eval::{
    eval_attach, eval_display, eval_equation, eval_expr, eval_frac, eval_ident_wrapper, eval_root,
};
use math_eval::value::Value;

fn empty_ctx() -> Context {
    Context { bindings: Vec::new(), calls: Vec::new() }
}

fn grapheme(span: u64, s: &str) -> MathExpr {
    MathExpr::Text { span, kind: TextKind::Grapheme { text: s.to_string() } }
}

fn number(span: u64, s: &str) -> MathExpr {
    MathExpr::Text { span, kind: TextKind::Number { text: s.to_string() } }
}

fn plain_operand(e: MathExpr) -> Operand {
    Operand {
        expr: Box::new(e),
        like_func_call: false,
        trivia_between_slash: false,
        deparenthesized: false,
    }
}

fn symbol_node(span: u64, s: &str) -> Content {
    Content { span, kind: ContentKind::Symbol { grapheme: s.to_string() } }
}

fn text_node(span: u64, s: &str) -> Content {
    Content { span, kind: ContentKind::Text { text: s.to_string() } }
}

#[test]
fn number_token_is_literal_text() {
    let ctx = empty_ctx();
    let r = eval_expr(&ctx, &number(4, "3"));
    assert_eq!(r, Ok(Value::Content { content: text_node(4, "3") }));
}

#[test]
fn number_token_text_is_verbatim() {
    let ctx = empty_ctx();
    let r = eval_expr(&ctx, &number(9, "007"));
    assert_eq!(r, Ok(Value::Content { content: text_node(9, "007") }));
}

#[test]
fn grapheme_token_is_symbol() {
    let ctx = empty_ctx();
    let r = eval_expr(&ctx, &grapheme(2, "a"));
    assert_eq!(r, Ok(Value::Content { content: symbol_node(2, "a") }));
}

#[test]
fn primes_always_top_right() {
    let ctx = empty_ctx();
    let e = MathExpr::Attach {
        span: 1,
        base: Box::new(grapheme(2, "x")),
        top: Some(Box::new(grapheme(3, "b"))),
        primes: Some(PrimesMark { span: 4, count: 2 }),
        bottom: Some(Box::new(grapheme(5, "c"))),
    };
    let r = eval_attach(&ctx, &e).unwrap();
    match r.kind {
        ContentKind::Attach { top, bottom, top_right, .. } => {
            assert_eq!(
                top_right,
                Some(Box::new(Content { span: 4, kind: ContentKind::Primes { count: 2 } }))
            );
            assert_eq!(top, Some(Box::new(symbol_node(3, "b"))));
            assert_eq!(bottom, Some(Box::new(symbol_node(5, "c"))));
        }
        other => panic!("not an attachment: {:?}", other),
    }
}

#[test]
fn primes_top_right_without_other_scripts() {
    let ctx = empty_ctx();
    let e = MathExpr::Attach {
        span: 1,
        base: Box::new(grapheme(2, "x")),
        top: None,
        primes: Some(PrimesMark { span: 3, count: 1 }),
        bottom: None,
    };
    let r = eval_attach(&ctx, &e).unwrap();
    match r.kind {
        ContentKind::Attach { top, bottom, top_right, .. } => {
            assert_eq!(
                top_right,
                Some(Box::new(Content { span: 3, kind: ContentKind::Primes { count: 1 } }))
            );
            assert_eq!(top, None);
            assert_eq!(bottom, None);
        }
        other => panic!("not an attachment: {:?}", other),
    }
}

#[test]
fn ambiguous_frac_fails_without_evaluating_sides() {
    let ctx = empty_ctx();
    // The numerator would itself fail (unresolved name), but the ambiguity
    // check runs first and its diagnostic is the only one.
    let num = Operand {
        expr: Box::new(MathExpr::IdentWrapper { span: 2, text: "abs".to_string() }),
        like_func_call: true,
        trivia_between_slash: true,
        deparenthesized: false,
    };
    let denom = plain_operand(number(3, "2"));
    let e = MathExpr::Frac { span: 1, num, denom };
    let r = eval_frac(&ctx, &e);
    assert_eq!(
        r,
        Err(vec![Diag {
            span: 1,
            kind: DiagKind::AmbiguousNotation,
            hints: vec![Hint::AmbiguousOperand],
        }])
    );
}

#[test]
fn ambiguous_frac_one_hint_per_side() {
    let ctx = empty_ctx();
    let mk = |span| Operand {
        expr: Box::new(grapheme(span, "f")),
        like_func_call: true,
        trivia_between_slash: false,
        deparenthesized: false,
    };
    let e = MathExpr::Frac { span: 8, num: mk(9), denom: mk(10) };
    let r = eval_frac(&ctx, &e);
    assert_eq!(
        r,
        Err(vec![Diag {
            span: 8,
            kind: DiagKind::AmbiguousNotation,
            hints: vec![Hint::AmbiguousOperand, Hint::AmbiguousOperand],
        }])
    );
}

#[test]
fn frac_call_side_uses_call_outcome() {
    // f(x)/2 with no ambiguous shape: the numerator goes through the
    // call-aware path and is display(call_result) at the call's span.
    let shown = Content { span: 0, kind: ContentKind::Text { text: "R".to_string() } };
    let ctx = Context {
        bindings: Vec::new(),
        calls: vec![(7, Ok(Value::Plain { callable: false, shown }))],
    };
    let num = plain_operand(MathExpr::Call { span: 10, key: 7 });
    let denom = plain_operand(number(3, "2"));
    let e = MathExpr::Frac { span: 1, num, denom };
    let r = eval_frac(&ctx, &e).unwrap();
    assert_eq!(
        r,
        Content {
            span: 1,
            kind: ContentKind::Frac {
                num: Box::new(text_node(10, "R")),
                denom: Box::new(text_node(3, "2")),
                num_deparenthesized: false,
                denom_deparenthesized: false,
            },
        }
    );
}

#[test]
fn frac_carries_deparenthesized_flags() {
    let ctx = empty_ctx();
    let mut num = plain_operand(grapheme(2, "a"));
    num.deparenthesized = true;
    let denom = plain_operand(grapheme(3, "b"));
    let e = MathExpr::Frac { span: 1, num, denom };
    let r = eval_frac(&ctx, &e).unwrap();
    match r.kind {
        ContentKind::Frac { num_deparenthesized, denom_deparenthesized, .. } => {
            assert!(num_deparenthesized);
            assert!(!denom_deparenthesized);
        }
        other => panic!("not a fraction: {:?}", other),
    }
}

#[test]
fn bare_function_reference_errors() {
    let shown = Content { span: 0, kind: ContentKind::Text { text: "f".to_string() } };
    let ctx = Context {
        bindings: vec![("f".to_string(), Ok(Value::Func { shown }))],
        calls: Vec::new(),
    };
    let e = MathExpr::IdentWrapper { span: 5, text: "f".to_string() };
    let r = eval_expr(&ctx, &e);
    assert_eq!(
        r,
        Err(vec![Diag {
            span: 5,
            kind: DiagKind::UncalledFunction { name: "f".to_string() },
            hints: vec![Hint::CallSuggestion { name: "f".to_string() }],
        }])
    );
}

#[test]
fn callee_position_succeeds() {
    let shown = Content { span: 0, kind: ContentKind::Text { text: "f".to_string() } };
    let ctx = Context {
        bindings: vec![
            ("f".to_string(), Ok(Value::Func { shown: math_eval::content::clone_content(&shown) })),
        ],
        calls: Vec::new(),
    };
    let e = MathExpr::IdentWrapper { span: 5, text: "f".to_string() };
    let r = eval_ident_wrapper(&ctx, &e, true);
    assert_eq!(r, Ok(Value::Func { shown }));
}

#[test]
fn called_function_returns_call_result() {
    // The same name followed by call syntax succeeds with the call's result.
    let result = Content { span: 0, kind: ContentKind::Text { text: "out".to_string() } };
    let ctx = Context {
        bindings: Vec::new(),
        calls: vec![(3, Ok(Value::Content { content: result }))],
    };
    let e = MathExpr::Call { span: 6, key: 3 };
    let r = eval_display(&ctx, &e).unwrap();
    assert_eq!(r, text_node(6, "out"));
}

#[test]
fn symbol_value_is_exempt_from_uncalled_check() {
    let ctx = Context {
        bindings: vec![("alpha".to_string(), Ok(Value::Symbol { grapheme: "A".to_string() }))],
        calls: Vec::new(),
    };
    let e = MathExpr::IdentWrapper { span: 5, text: "alpha".to_string() };
    let r = eval_display(&ctx, &e).unwrap();
    assert_eq!(r, symbol_node(5, "A"));
}

#[test]
fn non_callable_plain_value_passes() {
    let shown = Content { span: 0, kind: ContentKind::Text { text: "1pt".to_string() } };
    let ctx = Context {
        bindings: vec![("len".to_string(), Ok(Value::Plain { callable: false, shown }))],
        calls: Vec::new(),
    };
    let e = MathExpr::IdentWrapper { span: 2, text: "len".to_string() };
    let r = eval_display(&ctx, &e).unwrap();
    assert_eq!(r, text_node(2, "1pt"));
}

#[test]
fn callable_plain_value_errors_outside_call_position() {
    let shown = Content { span: 0, kind: ContentKind::Text { text: "t".to_string() } };
    let ctx = Context {
        bindings: vec![("table".to_string(), Ok(Value::Plain { callable: true, shown }))],
        calls: Vec::new(),
    };
    let e = MathExpr::IdentWrapper { span: 2, text: "table".to_string() };
    let r = eval_expr(&ctx, &e);
    assert_eq!(
        r,
        Err(vec![Diag {
            span: 2,
            kind: DiagKind::UncalledFunction { name: "table".to_string() },
            hints: vec![Hint::CallSuggestion { name: "table".to_string() }],
        }])
    );
}

#[test]
fn simple_fraction_round_trip() {
    // $a/b$: no ambiguity, no calls.
    let ctx = empty_ctx();
    let frac = MathExpr::Frac {
        span: 3,
        num: plain_operand(grapheme(4, "a")),
        denom: plain_operand(grapheme(5, "b")),
    };
    let body = MathExpr::Sequence { span: 2, exprs: vec![frac] };
    let e = MathExpr::Equation { span: 1, body: Box::new(body), block: false };
    let r = eval_equation(&ctx, &e).unwrap();
    let expected_frac = Content {
        span: 3,
        kind: ContentKind::Frac {
            num: Box::new(symbol_node(4, "a")),
            denom: Box::new(symbol_node(5, "b")),
            num_deparenthesized: false,
            denom_deparenthesized: false,
        },
    };
    let expected = Content {
        span: 1,
        kind: ContentKind::Equation {
            body: Box::new(Content {
                span: 2,
                kind: ContentKind::Sequence { children: vec![expected_frac] },
            }),
            block: false,
        },
    };
    assert_eq!(r, expected);
}

#[test]
fn equation_keeps_block_flag() {
    let ctx = empty_ctx();
    let mk = |block| MathExpr::Equation {
        span: 1,
        body: Box::new(MathExpr::Sequence { span: 2, exprs: vec![grapheme(3, "x")] }),
        block,
    };
    for block in [false, true] {
        let r = eval_equation(&ctx, &mk(block)).unwrap();
        match r.kind {
            ContentKind::Equation { block: b, .. } => assert_eq!(b, block),
            other => panic!("not an equation: {:?}", other),
        }
    }
}

#[test]
fn evaluation_is_idempotent() {
    let ctx = Context {
        bindings: vec![("alpha".to_string(), Ok(Value::Symbol { grapheme: "A".to_string() }))],
        calls: Vec::new(),
    };
    let frac = MathExpr::Frac {
        span: 3,
        num: plain_operand(MathExpr::IdentWrapper { span: 4, text: "alpha".to_string() }),
        denom: plain_operand(number(5, "2")),
    };
    let body = MathExpr::Sequence { span: 2, exprs: vec![frac, grapheme(6, "z")] };
    let e = MathExpr::Equation { span: 1, body: Box::new(body), block: true };
    let first = eval_equation(&ctx, &e);
    let second = eval_equation(&ctx, &e);
    assert_eq!(first, second);
}

#[test]
fn root_index_matches_number_node_shape() {
    let ctx = empty_ctx();
    let root = MathExpr::Root { span: 1, index: Some(3), radicand: Box::new(grapheme(2, "x")) };
    let r = eval_root(&ctx, &root).unwrap();
    let number_node = eval_expr(&ctx, &number(1, "3"));
    match r.kind {
        ContentKind::Root { index, radicand } => {
            assert_eq!(index, Some(Box::new(text_node(1, "3"))));
            assert_eq!(
                number_node,
                Ok(Value::Content { content: text_node(1, "3") })
            );
            assert_eq!(radicand, Box::new(symbol_node(2, "x")));
        }
        other => panic!("not a root: {:?}", other),
    }
}

#[test]
fn root_without_index() {
    let ctx = empty_ctx();
    let root = MathExpr::Root { span: 1, index: None, radicand: Box::new(grapheme(2, "x")) };
    let r = eval_root(&ctx, &root).unwrap();
    assert_eq!(
        r,
        Content {
            span: 1,
            kind: ContentKind::Root { index: None, radicand: Box::new(symbol_node(2, "x")) },
        }
    );
}

#[test]
fn root_index_renders_multi_digit_decimal() {
    let ctx = empty_ctx();
    let root = MathExpr::Root { span: 1, index: Some(12), radicand: Box::new(grapheme(2, "x")) };
    let r = eval_root(&ctx, &root).unwrap();
    match r.kind {
        ContentKind::Root { index, .. } => {
            assert_eq!(index, Some(Box::new(text_node(1, "12"))));
        }
        other => panic!("not a root: {:?}", other),
    }
}

#[test]
fn delimited_group_wraps_three_parts() {
    let ctx = empty_ctx();
    let e = MathExpr::Delimited {
        span: 1,
        open: Box::new(MathExpr::Shorthand { span: 2, ch: '(' }),
        body: Box::new(MathExpr::Sequence { span: 3, exprs: vec![grapheme(4, "a")] }),
        close: Box::new(MathExpr::Shorthand { span: 5, ch: ')' }),
    };
    let r = eval_display(&ctx, &e).unwrap();
    assert_eq!(
        r,
        Content {
            span: 1,
            kind: ContentKind::Delimited {
                open: Box::new(symbol_node(2, "(")),
                body: Box::new(Content {
                    span: 3,
                    kind: ContentKind::Sequence { children: vec![symbol_node(4, "a")] },
                }),
                close: Box::new(symbol_node(5, ")")),
            },
        }
    );
}

#[test]
fn shorthand_becomes_symbol_of_its_character() {
    let ctx = empty_ctx();
    let e = MathExpr::Shorthand { span: 7, ch: '+' };
    let r = eval_display(&ctx, &e).unwrap();
    assert_eq!(r, symbol_node(7, "+"));
}

#[test]
fn align_point_is_shared_shape() {
    let ctx = empty_ctx();
    let a = eval_display(&ctx, &MathExpr::AlignPoint { span: 3 }).unwrap();
    let b = eval_display(&ctx, &MathExpr::AlignPoint { span: 9 }).unwrap();
    assert_eq!(a.kind, ContentKind::AlignPoint);
    assert_eq!(a.kind, b.kind);
}

#[test]
fn standalone_primes_node() {
    let ctx = empty_ctx();
    let e = MathExpr::Primes { mark: PrimesMark { span: 2, count: 3 } };
    let r = eval_display(&ctx, &e).unwrap();
    assert_eq!(r, Content { span: 2, kind: ContentKind::Primes { count: 3 } });
}

#[test]
fn unresolved_name_error() {
    let ctx = empty_ctx();
    let e = MathExpr::IdentWrapper { span: 4, text: "zzz".to_string() };
    let r = eval_expr(&ctx, &e);
    assert_eq!(
        r,
        Err(vec![Diag {
            span: 4,
            kind: DiagKind::UnresolvedName { name: "zzz".to_string() },
            hints: Vec::new(),
        }])
    );
}

#[test]
fn unresolved_call_error() {
    let ctx = empty_ctx();
    let e = MathExpr::Call { span: 4, key: 11 };
    let r = eval_expr(&ctx, &e);
    assert_eq!(
        r,
        Err(vec![Diag { span: 4, kind: DiagKind::UnresolvedCall, hints: Vec::new() }])
    );
}

#[test]
fn foreign_diagnostics_propagate_unchanged() {
    let stored = Diag {
        span: 77,
        kind: DiagKind::Foreign { code: 5 },
        hints: vec![Hint::Foreign { code: 6 }],
    };
    let ctx = Context {
        bindings: vec![("g".to_string(), Err(vec![stored.clone()]))],
        calls: Vec::new(),
    };
    let e = MathExpr::IdentWrapper { span: 4, text: "g".to_string() };
    let r = eval_expr(&ctx, &e);
    assert_eq!(r, Err(vec![stored]));
}

#[test]
fn sequence_is_fail_fast() {
    // The first element fails; the second would fail differently, and the
    // result is exactly the first failure.
    let ctx = empty_ctx();
    let e = MathExpr::Sequence {
        span: 1,
        exprs: vec![
            MathExpr::IdentWrapper { span: 2, text: "one".to_string() },
            MathExpr::Call { span: 3, key: 9 },
        ],
    };
    let r = eval_expr(&ctx, &e);
    assert_eq!(
        r,
        Err(vec![Diag {
            span: 2,
            kind: DiagKind::UnresolvedName { name: "one".to_string() },
            hints: Vec::new(),
        }])
    );
}

#[test]
fn content_value_keeps_its_span() {
    // A span, once set, is never altered: display coercion of a content
    // value does not re-span it.
    let stored = Content { span: 99, kind: ContentKind::Text { text: "kept".to_string() } };
    let ctx = Context {
        bindings: vec![("c".to_string(), Ok(Value::Content { content: stored }))],
        calls: Vec::new(),
    };
    let e = MathExpr::IdentWrapper { span: 5, text: "c".to_string() };
    let r = eval_display(&ctx, &e).unwrap();
    assert_eq!(r, text_node(99, "kept"));
}

#[test]
fn attach_reports_first_failing_script() {
    // Evaluation order is base, top, primes, bottom: when both the base
    // and the top script would fail, the base's diagnostic is the result.
    let ctx = empty_ctx();
    let e = MathExpr::Attach {
        span: 1,
        base: Box::new(MathExpr::IdentWrapper { span: 2, text: "u1".to_string() }),
        top: Some(Box::new(MathExpr::IdentWrapper { span: 3, text: "u2".to_string() })),
        primes: None,
        bottom: None,
    };
    let r = eval_attach(&ctx, &e);
    assert_eq!(
        r,
        Err(vec![Diag {
            span: 2,
            kind: DiagKind::UnresolvedName { name: "u1".to_string() },
            hints: Vec::new(),
        }])
    );
}

#[test]
fn structural_copies_are_equal() {
    let node = Content {
        span: 1,
        kind: ContentKind::Sequence {
            children: vec![
                symbol_node(2, "a"),
                Content { span: 3, kind: ContentKind::Primes { count: 4 } },
            ],
        },
    };
    assert_eq!(math_eval::content::clone_content(&node), node);
}
