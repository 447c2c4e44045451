//! The evaluator: one builder per math node kind, dispatched from a single
//! match, together with the specification-level semantics each builder is
//! proved against.
//!
//! Evaluation is a pure function of the syntax tree and the context.
//! Within any sequence, delimited group or fraction, sub-expressions are
//! evaluated left to right, and evaluation of a later sibling never begins
//! once an earlier one has failed: the first failure propagates unchanged.

use vstd::prelude::*;
use vstd::pervasive::unreached;
use crate::ast::MathExpr;
use crate::ast::ExprModel;
use crate::ast::Operand;
use crate::ast::OperandModel;
use crate::ast::PrimesMark;
use crate::ast::TextKind;
use crate::ast::TextKindModel;
use crate::ast::expr_model;
use crate::ast::exprs_model;
use crate::ast::lemma_exprs_model;
use crate::ast::expr_span;
use crate::ast::expr_span_model;
use crate::content::Content;
use crate::content::ContentKind;
use crate::content::ContentModel;
use crate::content::ContentKindModel;
use crate::content::contents_model;
use crate::content::lemma_contents_model;
use crate::content::spanned;
use crate::content::spanned_model;
use crate::context::Context;
use crate::context::ContextModel;
use crate::context::call_outcome;
use crate::context::lookup_call;
use crate::context::lookup_name;
use crate::context::resolve_name;
use crate::diag::Diag;
use crate::diag::DiagKind;
use crate::diag::DiagKindModel;
use crate::diag::DiagModel;
use crate::diag::Hint;
use crate::diag::HintModel;
use crate::diag::clone_diags;
use crate::diag::diags_model;
use crate::numeral::decimal_model;
use crate::numeral::decimal_string;
use crate::value::Value;
use crate::value::ValueModel;
use crate::value::casts_to_func;
use crate::value::casts_to_func_model;
use crate::value::clone_value;
use crate::value::display;
use crate::value::display_model;

verus! {

/// Model of a value-or-diagnostics evaluation result.
pub open spec fn value_result_model(r: Result<Value, Vec<Diag>>) -> Result<
    ValueModel,
    Seq<DiagModel>,
> {
    match r {
        Result::Ok(v) => Result::Ok(v@),
        Result::Err(ds) => Result::Err(diags_model(ds@)),
    }
}

/// Model of a content-or-diagnostics evaluation result.
pub open spec fn content_result_model(r: Result<Content, Vec<Diag>>) -> Result<
    ContentModel,
    Seq<DiagModel>,
> {
    match r {
        Result::Ok(c) => Result::Ok(c@),
        Result::Err(ds) => Result::Err(diags_model(ds@)),
    }
}

pub open spec fn to_value_result(r: Result<ContentModel, Seq<DiagModel>>) -> Result<
    ValueModel,
    Seq<DiagModel>,
> {
    match r {
        Result::Ok(c) => Result::Ok(ValueModel::Content { content: c }),
        Result::Err(d) => Result::Err(d),
    }
}

/// The diagnostic for a name the external resolver has no outcome for.
pub open spec fn unresolved_name_diag(span: u64, name: Seq<char>) -> DiagModel {
    DiagModel { span, kind: DiagKindModel::UnresolvedName { name }, hints: Seq::empty() }
}

/// The diagnostic for a call the external call evaluator has no outcome for.
pub open spec fn unresolved_call_diag(span: u64) -> DiagModel {
    DiagModel { span, kind: DiagKindModel::UnresolvedCall, hints: Seq::empty() }
}

/// The diagnostic for a callable value referenced outside call position:
/// it names the reference as written and hints the call-syntax fix.
pub open spec fn uncalled_function_diag(span: u64, name: Seq<char>) -> DiagModel {
    DiagModel {
        span,
        kind: DiagKindModel::UncalledFunction { name },
        hints: seq![HintModel::CallSuggestion { name }],
    }
}

/// The ambiguous-notation diagnostic for a fraction, with one hint per
/// ambiguous side. It depends only on the fraction's span and the two
/// ambiguity flags, never on the operand expressions: neither side is
/// evaluated when the construct is refused.
pub open spec fn ambiguity_diag(span: u64, num_ambiguous: bool, denom_ambiguous: bool) -> DiagModel {
    DiagModel {
        span,
        kind: DiagKindModel::AmbiguousNotation,
        hints: (if num_ambiguous {
            seq![HintModel::AmbiguousOperand]
        } else {
            Seq::empty()
        }) + (if denom_ambiguous {
            seq![HintModel::AmbiguousOperand]
        } else {
            Seq::empty()
        }),
    }
}

/// A fraction is ambiguous when either operand looks like an implicit
/// function call next to the fraction stroke.
pub open spec fn frac_ambiguous(num: OperandModel, denom: OperandModel) -> bool {
    num.like_func_call || denom.like_func_call
}

/// What the external call evaluator returns for a call site, per the
/// context; a key the context does not hold is a failed call.
pub open spec fn call_result_spec(ctx: ContextModel, span: u64, key: u64) -> Result<
    ValueModel,
    Seq<DiagModel>,
> {
    match lookup_call(ctx.calls, key) {
        Option::Some(o) => o,
        Option::None => Result::Err(seq![unresolved_call_diag(span)]),
    }
}

/// Resolution of a bare identifier or field access, plus the math-mode
/// check: outside call position, a resolved value that casts to a function
/// and is not itself a symbol is refused as an uncalled function.
pub open spec fn eval_ident_wrapper_spec(
    ctx: ContextModel,
    span: u64,
    name: Seq<char>,
    is_callee: bool,
) -> Result<ValueModel, Seq<DiagModel>> {
    match lookup_name(ctx.bindings, name) {
        Option::None => Result::Err(seq![unresolved_name_diag(span, name)]),
        Option::Some(o) => match o {
            Result::Err(ds) => Result::Err(ds),
            Result::Ok(v) => if !is_callee && !(v is Symbol) && casts_to_func_model(v) {
                Result::Err(seq![uncalled_function_diag(span, name)])
            } else {
                Result::Ok(v)
            },
        },
    }
}

/// An atom: a grapheme becomes a symbol node, a numeral a literal-text
/// node with the source text verbatim.
pub open spec fn text_content_spec(span: u64, kind: TextKindModel) -> ContentModel {
    match kind {
        TextKindModel::Grapheme { text } => ContentModel {
            span,
            kind: ContentKindModel::Symbol { grapheme: text },
        },
        TextKindModel::Number { text } => ContentModel {
            span,
            kind: ContentKindModel::Text { text },
        },
    }
}

/// A shorthand maps directly to a symbol value of its character.
pub open spec fn shorthand_value_spec(ch: char) -> ValueModel {
    ValueModel::Symbol { grapheme: seq![ch] }
}

/// The alignment marker: a payload-free node, interchangeable with every
/// other alignment marker.
pub open spec fn align_point_spec(span: u64) -> ContentModel {
    ContentModel { span, kind: ContentKindModel::AlignPoint }
}

/// A prime-mark run wraps its non-negative count as a leaf node.
pub open spec fn primes_content_spec(mark: PrimesMark) -> ContentModel {
    ContentModel { span: mark.span, kind: ContentKindModel::Primes { count: mark.count } }
}

/// A root index is rendered as literal text, matching the node shape of a
/// math-text numeral; it carries the root node's own span.
pub open spec fn root_index_spec(span: u64, index: Option<u64>) -> Option<Box<ContentModel>> {
    match index {
        Option::None => Option::None,
        Option::Some(n) => Option::Some(
            Box::new(ContentModel { span, kind: ContentKindModel::Text { text: decimal_model(n) } }),
        ),
    }
}

/// Display-coerce one expression: evaluate it, display the value, and
/// attach the expression's own span (an already-set span is kept).
pub open spec fn eval_display_spec(ctx: ContextModel, e: ExprModel) -> Result<
    ContentModel,
    Seq<DiagModel>,
>
    decreases e, 2int,
{
    match eval_expr_spec(ctx, e) {
        Result::Ok(v) => Result::Ok(spanned_model(display_model(v), expr_span_model(e))),
        Result::Err(ds) => Result::Err(ds),
    }
}

/// The semantics of one math expression node.
pub open spec fn eval_expr_spec(ctx: ContextModel, e: ExprModel) -> Result<
    ValueModel,
    Seq<DiagModel>,
>
    decreases e, 1int,
{
    match e {
        ExprModel::Text { span, kind } => Result::Ok(
            ValueModel::Content { content: text_content_spec(span, kind) },
        ),
        ExprModel::IdentWrapper { span, text } => eval_ident_wrapper_spec(ctx, span, text, false),
        ExprModel::Shorthand { ch, .. } => Result::Ok(shorthand_value_spec(ch)),
        ExprModel::AlignPoint { span } => Result::Ok(
            ValueModel::Content { content: align_point_spec(span) },
        ),
        ExprModel::Delimited { .. } => to_value_result(eval_delimited_spec(ctx, e)),
        ExprModel::Attach { .. } => to_value_result(eval_attach_spec(ctx, e)),
        ExprModel::Primes { mark } => Result::Ok(
            ValueModel::Content { content: primes_content_spec(mark) },
        ),
        ExprModel::Frac { .. } => to_value_result(eval_frac_spec(ctx, e)),
        ExprModel::Root { .. } => to_value_result(eval_root_spec(ctx, e)),
        ExprModel::Sequence { .. } => to_value_result(eval_sequence_spec(ctx, e)),
        ExprModel::Equation { .. } => to_value_result(eval_equation_spec(ctx, e)),
        ExprModel::Call { span, key } => call_result_spec(ctx, span, key),
    }
}

/// Display-coerce an optional script.
pub open spec fn eval_opt_display_spec(ctx: ContextModel, o: Option<Box<ExprModel>>) -> Result<
    Option<Box<ContentModel>>,
    Seq<DiagModel>,
>
    decreases o, 1int,
{
    match o {
        Option::None => Result::Ok(Option::None),
        Option::Some(b) => match eval_display_spec(ctx, *b) {
            Result::Ok(c) => Result::Ok(Option::Some(Box::new(c))),
            Result::Err(d) => Result::Err(d),
        },
    }
}

/// A delimited group: open delimiter, body and close delimiter are each
/// display-coerced, in that order, and wrapped as a stretchable node.
pub open spec fn eval_delimited_spec(ctx: ContextModel, e: ExprModel) -> Result<
    ContentModel,
    Seq<DiagModel>,
>
    recommends
        e is Delimited,
    decreases e, 0int,
{
    match e {
        ExprModel::Delimited { span, open, body, close } => (match eval_display_spec(ctx, *open) {
            Result::Err(d) => Result::Err(d),
            Result::Ok(oc) => match eval_display_spec(ctx, *body) {
                Result::Err(d) => Result::Err(d),
                Result::Ok(bc) => match eval_display_spec(ctx, *close) {
                    Result::Err(d) => Result::Err(d),
                    Result::Ok(cc) => Result::Ok(
                        ContentModel {
                            span,
                            kind: ContentKindModel::Delimited {
                                open: Box::new(oc),
                                body: Box::new(bc),
                                close: Box::new(cc),
                            },
                        },
                    ),
                },
            },
        }),
        _ => arbitrary(),
    }
}

/// An attachment: base, top, primes and bottom are evaluated in that
/// order; the primes content always occupies the top-right slot,
/// independent of the other scripts — a fixed placement rule.
pub open spec fn eval_attach_spec(ctx: ContextModel, e: ExprModel) -> Result<
    ContentModel,
    Seq<DiagModel>,
>
    recommends
        e is Attach,
    decreases e, 0int,
{
    match e {
        ExprModel::Attach { span, base, top, primes, bottom } => (match eval_display_spec(
            ctx,
            *base,
        ) {
            Result::Err(d) => Result::Err(d),
            Result::Ok(bc) => match eval_opt_display_spec(ctx, top) {
                Result::Err(d) => Result::Err(d),
                Result::Ok(tc) => match eval_opt_display_spec(ctx, bottom) {
                    Result::Err(d) => Result::Err(d),
                    Result::Ok(boc) => Result::Ok(
                        ContentModel {
                            span,
                            kind: ContentKindModel::Attach {
                                base: Box::new(bc),
                                top: tc,
                                bottom: boc,
                                top_right: match primes {
                                    Option::None => Option::None,
                                    Option::Some(m) => Option::Some(Box::new(primes_content_spec(m))),
                                },
                            },
                        },
                    ),
                },
            },
        }),
        _ => arbitrary(),
    }
}

/// One fraction side, reached only when neither side is ambiguous: a call
/// expression goes through the external call-aware evaluator and its
/// displayed value carries the call's own span; any other expression is
/// display-coerced as usual. (Upstream, the call evaluator is also handed
/// the enclosing fraction's span for its own diagnostics; the outcome it
/// returns is what the context holds for the call's key.)
pub open spec fn frac_side_spec(ctx: ContextModel, op: OperandModel) -> Result<
    ContentModel,
    Seq<DiagModel>,
>
    decreases op, 3int,
{
    match *op.expr {
        ExprModel::Call { span, key } => (match call_result_spec(ctx, span, key) {
            Result::Ok(v) => Result::Ok(spanned_model(display_model(v), span)),
            Result::Err(d) => Result::Err(d),
        }),
        _ => eval_display_spec(ctx, *op.expr),
    }
}

/// A fraction. The ambiguity pre-check runs strictly before any evaluation
/// of either side: if a side looks like an implicit function call, the
/// construct is refused at once with one hint per ambiguous side, and no
/// diagnostic of a sub-expression can appear. (The parser also records
/// whether trivia stands between the stroke and the call-like group; that
/// flag refines no message beyond the refusal itself.) Only when neither
/// side is ambiguous are the two sides evaluated, numerator first, and the
/// deparenthesization flags carried into the node.
pub open spec fn eval_frac_spec(ctx: ContextModel, e: ExprModel) -> Result<
    ContentModel,
    Seq<DiagModel>,
>
    recommends
        e is Frac,
    decreases e, 0int,
{
    match e {
        ExprModel::Frac { span, num, denom } => (if frac_ambiguous(num, denom) {
            Result::Err(seq![ambiguity_diag(span, num.like_func_call, denom.like_func_call)])
        } else {
            match frac_side_spec(ctx, num) {
                Result::Err(d) => Result::Err(d),
                Result::Ok(nc) => match frac_side_spec(ctx, denom) {
                    Result::Err(d) => Result::Err(d),
                    Result::Ok(dc) => Result::Ok(
                        ContentModel {
                            span,
                            kind: ContentKindModel::Frac {
                                num: Box::new(nc),
                                denom: Box::new(dc),
                                num_deparenthesized: num.deparenthesized,
                                denom_deparenthesized: denom.deparenthesized,
                            },
                        },
                    ),
                },
            }
        }),
        _ => arbitrary(),
    }
}

/// A radical: the index, if present, is rendered as literal text (never
/// evaluated as an expression); the radicand is display-coerced.
pub open spec fn eval_root_spec(ctx: ContextModel, e: ExprModel) -> Result<
    ContentModel,
    Seq<DiagModel>,
>
    recommends
        e is Root,
    decreases e, 0int,
{
    match e {
        ExprModel::Root { span, index, radicand } => (match eval_display_spec(ctx, *radicand) {
            Result::Err(d) => Result::Err(d),
            Result::Ok(rc) => Result::Ok(
                ContentModel {
                    span,
                    kind: ContentKindModel::Root {
                        index: root_index_spec(span, index),
                        radicand: Box::new(rc),
                    },
                },
            ),
        }),
        _ => arbitrary(),
    }
}

/// The sequence driver over a list of expressions: each is display-coerced
/// in source order; the first failure aborts the whole list and its
/// diagnostics are the result.
pub open spec fn eval_seq_spec(ctx: ContextModel, s: Seq<ExprModel>) -> Result<
    Seq<ContentModel>,
    Seq<DiagModel>,
>
    decreases s, 0int,
{
    if s.len() == 0 {
        Result::Ok(Seq::empty())
    } else {
        match eval_display_spec(ctx, s[0]) {
            Result::Err(d) => Result::Err(d),
            Result::Ok(c) => match eval_seq_spec(ctx, s.drop_first()) {
                Result::Err(d) => Result::Err(d),
                Result::Ok(rest) => Result::Ok(seq![c] + rest),
            },
        }
    }
}

/// A sequence node: the driver's results in source order.
pub open spec fn eval_sequence_spec(ctx: ContextModel, e: ExprModel) -> Result<
    ContentModel,
    Seq<DiagModel>,
>
    recommends
        e is Sequence,
    decreases e, 0int,
{
    match e {
        ExprModel::Sequence { span, exprs } => (match eval_seq_spec(ctx, exprs) {
            Result::Err(d) => Result::Err(d),
            Result::Ok(cs) => Result::Ok(
                ContentModel { span, kind: ContentKindModel::Sequence { children: cs } },
            ),
        }),
        _ => arbitrary(),
    }
}

/// The equation wrapper: its body is evaluated once and packaged with the
/// block/inline flag taken verbatim from the source node.
pub open spec fn eval_equation_spec(ctx: ContextModel, e: ExprModel) -> Result<
    ContentModel,
    Seq<DiagModel>,
>
    recommends
        e is Equation,
    decreases e, 0int,
{
    match e {
        ExprModel::Equation { span, body, block } => (match eval_display_spec(ctx, *body) {
            Result::Err(d) => Result::Err(d),
            Result::Ok(bc) => Result::Ok(
                ContentModel { span, kind: ContentKindModel::Equation { body: Box::new(bc), block } },
            ),
        }),
        _ => arbitrary(),
    }
}

/// Relies on std's `String::from` for `char`: the returned string holds
/// exactly the given character.
#[verifier::external_body]
fn char_to_string(c: char) -> (r: String)
    ensures
        r@ == seq![c],
{
    String::from(c)
}

fn err_unresolved_name(span: u64, name: &String) -> (r: Vec<Diag>)
    ensures
        diags_model(r@) == seq![unresolved_name_diag(span, name@)],
{
    let d = Diag { span, kind: DiagKind::UnresolvedName { name: name.clone() }, hints: Vec::new() };
    proof {
        assert(d@.hints =~= unresolved_name_diag(span, name@).hints);
        assert(d@ == unresolved_name_diag(span, name@));
    }
    let mut v: Vec<Diag> = Vec::new();
    v.push(d);
    proof {
        assert(diags_model(v@) =~= seq![unresolved_name_diag(span, name@)]);
    }
    v
}

fn err_unresolved_call(span: u64) -> (r: Vec<Diag>)
    ensures
        diags_model(r@) == seq![unresolved_call_diag(span)],
{
    let d = Diag { span, kind: DiagKind::UnresolvedCall, hints: Vec::new() };
    proof {
        assert(d@.hints =~= unresolved_call_diag(span).hints);
        assert(d@ == unresolved_call_diag(span));
    }
    let mut v: Vec<Diag> = Vec::new();
    v.push(d);
    proof {
        assert(diags_model(v@) =~= seq![unresolved_call_diag(span)]);
    }
    v
}

fn err_uncalled_function(span: u64, name: &String) -> (r: Vec<Diag>)
    ensures
        diags_model(r@) == seq![uncalled_function_diag(span, name@)],
{
    let mut hints: Vec<Hint> = Vec::new();
    hints.push(Hint::CallSuggestion { name: name.clone() });
    let d = Diag { span, kind: DiagKind::UncalledFunction { name: name.clone() }, hints };
    proof {
        assert(d@.hints =~= uncalled_function_diag(span, name@).hints);
        assert(d@ == uncalled_function_diag(span, name@));
    }
    let mut v: Vec<Diag> = Vec::new();
    v.push(d);
    proof {
        assert(diags_model(v@) =~= seq![uncalled_function_diag(span, name@)]);
    }
    v
}

fn err_ambiguity(span: u64, num_ambiguous: bool, denom_ambiguous: bool) -> (r: Vec<Diag>)
    ensures
        diags_model(r@) == seq![ambiguity_diag(span, num_ambiguous, denom_ambiguous)],
{
    let mut hints: Vec<Hint> = Vec::new();
    if num_ambiguous {
        hints.push(Hint::AmbiguousOperand);
    }
    if denom_ambiguous {
        hints.push(Hint::AmbiguousOperand);
    }
    let d = Diag { span, kind: DiagKind::AmbiguousNotation, hints };
    proof {
        assert(d@.hints =~= ambiguity_diag(span, num_ambiguous, denom_ambiguous).hints);
        assert(d@ == ambiguity_diag(span, num_ambiguous, denom_ambiguous));
    }
    let mut v: Vec<Diag> = Vec::new();
    v.push(d);
    proof {
        assert(diags_model(v@) =~= seq![ambiguity_diag(span, num_ambiguous, denom_ambiguous)]);
    }
    v
}

/// Evaluate an atom. A grapheme becomes a symbol node wrapping that exact
/// grapheme; a numeral becomes a literal-text node whose content equals
/// the source text verbatim. Cannot fail.
pub fn eval_text(e: &MathExpr) -> (r: Content)
    requires
        e@ is Text,
    ensures
        r@ == text_content_spec(e@->Text_span, e@->Text_kind),
{
    match e {
        MathExpr::Text { span, kind } => match kind {
            TextKind::Grapheme { text } => Content {
                span: *span,
                kind: ContentKind::Symbol { grapheme: text.clone() },
            },
            TextKind::Number { text } => Content {
                span: *span,
                kind: ContentKind::Text { text: text.clone() },
            },
        },
        _ => unreached(),
    }
}

/// Resolve a bare identifier or field access through the external
/// resolver's outcomes, then apply the math-mode check: outside call
/// position, a resolved callable that is not a symbol is refused with the
/// uncalled-function diagnostic naming the reference.
pub fn eval_ident_wrapper(ctx: &Context, e: &MathExpr, is_callee: bool) -> (r: Result<
    Value,
    Vec<Diag>,
>)
    requires
        e@ is IdentWrapper,
    ensures
        value_result_model(r) == eval_ident_wrapper_spec(
            ctx@,
            e@->IdentWrapper_span,
            e@->IdentWrapper_text,
            is_callee,
        ),
{
    match e {
        MathExpr::IdentWrapper { span, text } => match resolve_name(ctx, text) {
            Option::None => Result::Err(err_unresolved_name(*span, text)),
            Option::Some(o) => match o {
                Result::Err(ds) => Result::Err(clone_diags(ds)),
                Result::Ok(v) => {
                    if !is_callee && !(matches!(v, Value::Symbol { .. })) && casts_to_func(v) {
                        Result::Err(err_uncalled_function(*span, text))
                    } else {
                        Result::Ok(clone_value(v))
                    }
                },
            },
        },
        _ => unreached(),
    }
}

/// Evaluate a shorthand: a symbol value built from its character.
pub fn eval_shorthand(e: &MathExpr) -> (r: Value)
    requires
        e@ is Shorthand,
    ensures
        r@ == shorthand_value_spec(e@->Shorthand_ch),
{
    match e {
        MathExpr::Shorthand { ch, .. } => Value::Symbol { grapheme: char_to_string(*ch) },
        _ => unreached(),
    }
}

/// Evaluate an alignment marker. Cannot fail.
pub fn eval_align_point(e: &MathExpr) -> (r: Content)
    requires
        e@ is AlignPoint,
    ensures
        r@ == align_point_spec(e@->AlignPoint_span),
{
    match e {
        MathExpr::AlignPoint { span } => Content { span: *span, kind: ContentKind::AlignPoint },
        _ => unreached(),
    }
}

/// Evaluate a prime-mark run. Cannot fail.
pub fn eval_primes(mark: &PrimesMark) -> (r: Content)
    ensures
        r@ == primes_content_spec(*mark),
{
    Content { span: mark.span, kind: ContentKind::Primes { count: mark.count } }
}

/// Evaluate a delimited group.
pub fn eval_delimited(ctx: &Context, e: &MathExpr) -> (r: Result<Content, Vec<Diag>>)
    requires
        e@ is Delimited,
    ensures
        content_result_model(r) == eval_delimited_spec(ctx@, e@),
    decreases *e, 0int,
{
    match e {
        MathExpr::Delimited { span, open, body, close } => {
            let oc = match eval_display(ctx, open) {
                Result::Ok(c) => c,
                Result::Err(d) => {
                    return Result::Err(d);
                },
            };
            let bc = match eval_display(ctx, body) {
                Result::Ok(c) => c,
                Result::Err(d) => {
                    return Result::Err(d);
                },
            };
            let cc = match eval_display(ctx, close) {
                Result::Ok(c) => c,
                Result::Err(d) => {
                    return Result::Err(d);
                },
            };
            Result::Ok(
                Content {
                    span: *span,
                    kind: ContentKind::Delimited {
                        open: Box::new(oc),
                        body: Box::new(bc),
                        close: Box::new(cc),
                    },
                },
            )
        },
        _ => unreached(),
    }
}

/// Display-coerce an optional script.
fn eval_opt_display(ctx: &Context, o: &Option<Box<MathExpr>>) -> (r: Result<
    Option<Box<Content>>,
    Vec<Diag>,
>)
    ensures
        (match r {
            Result::Ok(c) => eval_opt_display_spec(ctx@, crate::ast::opt_expr_model(*o))
                == Result::<Option<Box<ContentModel>>, Seq<DiagModel>>::Ok(
                crate::content::opt_content_model(c),
            ),
            Result::Err(d) => eval_opt_display_spec(ctx@, crate::ast::opt_expr_model(*o))
                == Result::<Option<Box<ContentModel>>, Seq<DiagModel>>::Err(diags_model(d@)),
        }),
    decreases *o, 1int,
{
    match o {
        Option::None => Result::Ok(Option::None),
        Option::Some(b) => match eval_display(ctx, b) {
            Result::Ok(c) => Result::Ok(Option::Some(Box::new(c))),
            Result::Err(d) => Result::Err(d),
        },
    }
}

/// Evaluate an attachment: base, then top, then primes, then bottom; the
/// primes content goes in the top-right slot unconditionally.
pub fn eval_attach(ctx: &Context, e: &MathExpr) -> (r: Result<Content, Vec<Diag>>)
    requires
        e@ is Attach,
    ensures
        content_result_model(r) == eval_attach_spec(ctx@, e@),
    decreases *e, 0int,
{
    match e {
        MathExpr::Attach { span, base, top, primes, bottom } => {
            let bc = match eval_display(ctx, base) {
                Result::Ok(c) => c,
                Result::Err(d) => {
                    return Result::Err(d);
                },
            };
            let tc = match eval_opt_display(ctx, top) {
                Result::Ok(c) => c,
                Result::Err(d) => {
                    return Result::Err(d);
                },
            };
            let trc: Option<Box<Content>> = match primes {
                Option::None => Option::None,
                Option::Some(m) => Option::Some(Box::new(eval_primes(m))),
            };
            proof {
                assert(e@->Attach_primes == *primes);
                assert(crate::content::opt_content_model(trc) == (match e@->Attach_primes {
                    Option::None => Option::<Box<ContentModel>>::None,
                    Option::Some(m) => Option::Some(Box::new(primes_content_spec(m))),
                }));
            }
            let boc = match eval_opt_display(ctx, bottom) {
                Result::Ok(c) => c,
                Result::Err(d) => {
                    return Result::Err(d);
                },
            };
            Result::Ok(
                Content {
                    span: *span,
                    kind: ContentKind::Attach {
                        base: Box::new(bc),
                        top: tc,
                        bottom: boc,
                        top_right: trc,
                    },
                },
            )
        },
        _ => unreached(),
    }
}

/// Evaluate one fraction side (reached only when neither side is
/// ambiguous): a call expression goes through the call-aware outcomes and
/// is spanned at the call's own span; anything else is display-coerced.
pub fn eval_frac_side(ctx: &Context, op: &Operand) -> (r: Result<Content, Vec<Diag>>)
    ensures
        content_result_model(r) == frac_side_spec(ctx@, op@),
    decreases *op, 3int,
{
    match &*op.expr {
        MathExpr::Call { span, key } => match call_outcome(ctx, *key) {
            Option::Some(o) => match o {
                Result::Ok(v) => Result::Ok(spanned(display(clone_value(v)), *span)),
                Result::Err(ds) => Result::Err(clone_diags(ds)),
            },
            Option::None => Result::Err(err_unresolved_call(*span)),
        },
        _ => eval_display(ctx, &op.expr),
    }
}

/// Evaluate a fraction: the ambiguity pre-check runs before any side is
/// evaluated, and refusal carries one hint per ambiguous side; otherwise
/// the numerator and then the denominator are evaluated, and the node
/// carries the deparenthesization flags forward.
pub fn eval_frac(ctx: &Context, e: &MathExpr) -> (r: Result<Content, Vec<Diag>>)
    requires
        e@ is Frac,
    ensures
        content_result_model(r) == eval_frac_spec(ctx@, e@),
    decreases *e, 0int,
{
    match e {
        MathExpr::Frac { span, num, denom } => {
            proof {
                assert(e@->Frac_span == *span);
                assert(e@->Frac_num == crate::ast::operand_model(*num));
                assert(e@->Frac_denom == crate::ast::operand_model(*denom));
                assert(e@->Frac_num.like_func_call == num.like_func_call);
                assert(e@->Frac_denom.like_func_call == denom.like_func_call);
            }
            if num.like_func_call || denom.like_func_call {
                return Result::Err(
                    err_ambiguity(*span, num.like_func_call, denom.like_func_call),
                );
            }
            let nc = match eval_frac_side(ctx, num) {
                Result::Ok(c) => c,
                Result::Err(d) => {
                    return Result::Err(d);
                },
            };
            let dc = match eval_frac_side(ctx, denom) {
                Result::Ok(c) => c,
                Result::Err(d) => {
                    return Result::Err(d);
                },
            };
            Result::Ok(
                Content {
                    span: *span,
                    kind: ContentKind::Frac {
                        num: Box::new(nc),
                        denom: Box::new(dc),
                        num_deparenthesized: num.deparenthesized,
                        denom_deparenthesized: denom.deparenthesized,
                    },
                },
            )
        },
        _ => unreached(),
    }
}

/// Evaluate a radical: render the index, if any, as literal text, then
/// display-coerce the radicand.
pub fn eval_root(ctx: &Context, e: &MathExpr) -> (r: Result<Content, Vec<Diag>>)
    requires
        e@ is Root,
    ensures
        content_result_model(r) == eval_root_spec(ctx@, e@),
    decreases *e, 0int,
{
    match e {
        MathExpr::Root { span, index, radicand } => {
            let ic: Option<Box<Content>> = match index {
                Option::None => Option::None,
                Option::Some(n) => Option::Some(
                    Box::new(
                        Content { span: *span, kind: ContentKind::Text { text: decimal_string(*n) } },
                    ),
                ),
            };
            proof {
                assert(e@->Root_index == *index);
                assert(crate::content::opt_content_model(ic) == root_index_spec(*span, *index));
            }
            let rc = match eval_display(ctx, radicand) {
                Result::Ok(c) => c,
                Result::Err(d) => {
                    return Result::Err(d);
                },
            };
            Result::Ok(
                Content {
                    span: *span,
                    kind: ContentKind::Root { index: ic, radicand: Box::new(rc) },
                },
            )
        },
        _ => unreached(),
    }
}

/// Evaluate a sequence node: each child is display-coerced in source
/// order, spanned at its own span; the first failure aborts the whole
/// sequence and its diagnostics are the result.
#[verifier::loop_isolation(false)]
pub fn eval_sequence(ctx: &Context, e: &MathExpr) -> (r: Result<Content, Vec<Diag>>)
    requires
        e@ is Sequence,
    ensures
        content_result_model(r) == eval_sequence_spec(ctx@, e@),
    decreases *e, 0int,
{
    match e {
        MathExpr::Sequence { span, exprs } => {
            let ghost s: Seq<ExprModel> = exprs_model(exprs@);
            proof {
                lemma_exprs_model(exprs@);
                assert(s.subrange(0, exprs@.len() as int) =~= s);
            }
            let n = exprs.len();
            let mut out: Vec<Content> = Vec::new();
            let mut i: usize = 0;
            while i < n
                invariant
                    i <= n,
                    out@.len() == i,
                    (match eval_seq_spec(ctx@, s.subrange(i as int, n as int)) {
                        Result::Ok(rest) => eval_seq_spec(ctx@, s) == Result::<
                            Seq<ContentModel>,
                            Seq<DiagModel>,
                        >::Ok(contents_model(out@) + rest),
                        Result::Err(d) => eval_seq_spec(ctx@, s) == Result::<
                            Seq<ContentModel>,
                            Seq<DiagModel>,
                        >::Err(d),
                    }),
                decreases n - i,
            {
                proof {
                    assert(decreases_to!(*exprs => exprs@[i as int]));
                    assert(s.subrange(i as int, n as int)[0] == s[i as int]);
                    assert(s[i as int] == expr_model(exprs@[i as int]));
                }
                let ghost prev = out@;
                match eval_display(ctx, &exprs[i]) {
                    Result::Err(d) => {
                        return Result::Err(d);
                    },
                    Result::Ok(c) => {
                        out.push(c);
                        proof {
                            let sub_i = s.subrange(i as int, n as int);
                            let sub_i1 = s.subrange(i as int + 1, n as int);
                            assert(sub_i.drop_first() =~= sub_i1);
                            lemma_contents_model(prev);
                            lemma_contents_model(out@);
                            assert(contents_model(out@) =~= contents_model(prev) + seq![
                                out@[i as int]@,
                            ]);
                            match eval_seq_spec(ctx@, sub_i1) {
                                Result::Ok(rest) => {
                                    assert((contents_model(prev) + seq![out@[i as int]@]) + rest
                                        =~= contents_model(prev) + (seq![out@[i as int]@] + rest));
                                },
                                Result::Err(d) => {},
                            }
                        }
                        i = i + 1;
                    },
                }
            }
            proof {
                assert(s.subrange(n as int, n as int) =~= Seq::<ExprModel>::empty());
                assert(contents_model(out@) + Seq::<ContentModel>::empty() =~= contents_model(
                    out@,
                ));
            }
            Result::Ok(Content { span: *span, kind: ContentKind::Sequence { children: out } })
        },
        _ => unreached(),
    }
}

/// Evaluate the equation wrapper: its body once, packaged with the
/// block/inline flag taken verbatim from the node.
pub fn eval_equation(ctx: &Context, e: &MathExpr) -> (r: Result<Content, Vec<Diag>>)
    requires
        e@ is Equation,
    ensures
        content_result_model(r) == eval_equation_spec(ctx@, e@),
    decreases *e, 0int,
{
    match e {
        MathExpr::Equation { span, body, block } => {
            let bc = match eval_display(ctx, body) {
                Result::Ok(c) => c,
                Result::Err(d) => {
                    return Result::Err(d);
                },
            };
            Result::Ok(
                Content {
                    span: *span,
                    kind: ContentKind::Equation { body: Box::new(bc), block: *block },
                },
            )
        },
        _ => unreached(),
    }
}

/// Evaluate any math expression node, dispatching to its builder.
pub fn eval_expr(ctx: &Context, e: &MathExpr) -> (r: Result<Value, Vec<Diag>>)
    ensures
        value_result_model(r) == eval_expr_spec(ctx@, e@),
    decreases *e, 1int,
{
    match e {
        MathExpr::Text { .. } => Result::Ok(Value::Content { content: eval_text(e) }),
        MathExpr::IdentWrapper { .. } => eval_ident_wrapper(ctx, e, false),
        MathExpr::Shorthand { .. } => Result::Ok(eval_shorthand(e)),
        MathExpr::AlignPoint { .. } => Result::Ok(Value::Content { content: eval_align_point(e) }),
        MathExpr::Delimited { .. } => match eval_delimited(ctx, e) {
            Result::Ok(c) => Result::Ok(Value::Content { content: c }),
            Result::Err(d) => Result::Err(d),
        },
        MathExpr::Attach { .. } => match eval_attach(ctx, e) {
            Result::Ok(c) => Result::Ok(Value::Content { content: c }),
            Result::Err(d) => Result::Err(d),
        },
        MathExpr::Primes { mark } => Result::Ok(Value::Content { content: eval_primes(mark) }),
        MathExpr::Frac { .. } => match eval_frac(ctx, e) {
            Result::Ok(c) => Result::Ok(Value::Content { content: c }),
            Result::Err(d) => Result::Err(d),
        },
        MathExpr::Root { .. } => match eval_root(ctx, e) {
            Result::Ok(c) => Result::Ok(Value::Content { content: c }),
            Result::Err(d) => Result::Err(d),
        },
        MathExpr::Sequence { .. } => match eval_sequence(ctx, e) {
            Result::Ok(c) => Result::Ok(Value::Content { content: c }),
            Result::Err(d) => Result::Err(d),
        },
        MathExpr::Equation { .. } => match eval_equation(ctx, e) {
            Result::Ok(c) => Result::Ok(Value::Content { content: c }),
            Result::Err(d) => Result::Err(d),
        },
        MathExpr::Call { span, key } => match call_outcome(ctx, *key) {
            Option::Some(o) => match o {
                Result::Ok(v) => Result::Ok(clone_value(v)),
                Result::Err(ds) => Result::Err(clone_diags(ds)),
            },
            Option::None => Result::Err(err_unresolved_call(*span)),
        },
    }
}

/// Evaluate an expression and display-coerce the result, attaching the
/// expression's own span.
pub fn eval_display(ctx: &Context, e: &MathExpr) -> (r: Result<Content, Vec<Diag>>)
    ensures
        content_result_model(r) == eval_display_spec(ctx@, e@),
    decreases *e, 2int,
{
    match eval_expr(ctx, e) {
        Result::Ok(v) => Result::Ok(spanned(display(v), expr_span(e))),
        Result::Err(d) => Result::Err(d),
    }
}

} // verus!
