//! The laws this library guarantees, stated over the specification-level
//! semantics that every evaluator function is proved against.

use vstd::prelude::*;
use crate::ast::ExprModel;
use crate::ast::TextKindModel;
use crate::content::ContentModel;
use crate::content::ContentKindModel;
use crate::context::ContextModel;
use crate::context::lookup_name;
use crate::diag::DiagModel;
use crate::eval::ambiguity_diag;
use crate::eval::eval_attach_spec;
use crate::eval::eval_display_spec;
use crate::eval::eval_expr_spec;
use crate::eval::eval_frac_spec;
use crate::eval::eval_ident_wrapper_spec;
use crate::eval::eval_seq_spec;
use crate::eval::frac_ambiguous;
use crate::eval::primes_content_spec;
use crate::eval::uncalled_function_diag;
use crate::value::ValueModel;
use crate::value::casts_to_func_model;

verus! {

/// Every math-text token tagged as a number evaluates to a literal-text
/// node whose content equals the source text verbatim — no normalization —
/// at the token's own span.
pub proof fn lemma_number_is_literal_text(ctx: ContextModel, e: ExprModel)
    requires
        e matches ExprModel::Text { kind: TextKindModel::Number { .. }, .. },
    ensures
        eval_expr_spec(ctx, e) == Result::<ValueModel, Seq<DiagModel>>::Ok(
            ValueModel::Content {
                content: ContentModel {
                    span: e->Text_span,
                    kind: ContentKindModel::Text { text: e->Text_kind->Number_text },
                },
            },
        ),
{
}

/// Every math-text token tagged as a grapheme evaluates to a symbol node
/// wrapping that exact grapheme, at the token's own span.
pub proof fn lemma_grapheme_is_symbol(ctx: ContextModel, e: ExprModel)
    requires
        e matches ExprModel::Text { kind: TextKindModel::Grapheme { .. }, .. },
    ensures
        eval_expr_spec(ctx, e) == Result::<ValueModel, Seq<DiagModel>>::Ok(
            ValueModel::Content {
                content: ContentModel {
                    span: e->Text_span,
                    kind: ContentKindModel::Symbol { grapheme: e->Text_kind->Grapheme_text },
                },
            },
        ),
{
}

/// For any attachment with primes present that evaluates successfully,
/// the primes content occupies the top-right slot of the produced node,
/// independent of whether a top or bottom script is also present.
pub proof fn lemma_primes_occupy_top_right(ctx: ContextModel, e: ExprModel, c: ContentModel)
    requires
        e is Attach,
        e->Attach_primes is Some,
        eval_attach_spec(ctx, e) == Result::<ContentModel, Seq<DiagModel>>::Ok(c),
    ensures
        c.kind matches ContentKindModel::Attach { top_right, .. } && top_right == Option::Some(
            Box::new(primes_content_spec(e->Attach_primes->0)),
        ),
{
}

/// A fraction with an ambiguous operand fails at once with the
/// ambiguous-notation diagnostic, carrying one hint per ambiguous side;
/// that single diagnostic is the whole result.
pub proof fn lemma_ambiguous_frac_fails(ctx: ContextModel, e: ExprModel)
    requires
        e is Frac,
        frac_ambiguous(e->Frac_num, e->Frac_denom),
    ensures
        eval_frac_spec(ctx, e) == Result::<ContentModel, Seq<DiagModel>>::Err(
            seq![
                ambiguity_diag(
                    e->Frac_span,
                    e->Frac_num.like_func_call,
                    e->Frac_denom.like_func_call,
                ),
            ],
        ),
{
}

/// Refusing an ambiguous fraction evaluates neither side: the result
/// depends only on the fraction's span and the two ambiguity flags, so two
/// ambiguous fractions agreeing on those fail identically, whatever
/// expressions stand on their sides and whatever the context holds — no
/// diagnostic of a sub-expression can appear.
pub proof fn lemma_ambiguity_ignores_operands(
    ctx1: ContextModel,
    e1: ExprModel,
    ctx2: ContextModel,
    e2: ExprModel,
)
    requires
        e1 is Frac,
        e2 is Frac,
        frac_ambiguous(e1->Frac_num, e1->Frac_denom),
        e1->Frac_span == e2->Frac_span,
        e1->Frac_num.like_func_call == e2->Frac_num.like_func_call,
        e1->Frac_denom.like_func_call == e2->Frac_denom.like_func_call,
    ensures
        eval_frac_spec(ctx1, e1) == eval_frac_spec(ctx2, e2),
{
}

/// A reference resolving to a callable value that is not a symbol, used
/// outside call position, fails with the uncalled-function diagnostic
/// naming the reference; the same reference in call position succeeds and
/// yields the resolved value.
pub proof fn lemma_bare_function_reference(
    ctx: ContextModel,
    span: u64,
    name: Seq<char>,
    v: ValueModel,
)
    requires
        lookup_name(ctx.bindings, name) == Option::Some(
            Result::<ValueModel, Seq<DiagModel>>::Ok(v),
        ),
        !(v is Symbol),
        casts_to_func_model(v),
    ensures
        eval_ident_wrapper_spec(ctx, span, name, false) == Result::<ValueModel, Seq<DiagModel>>::Err(
            seq![uncalled_function_diag(span, name)],
        ),
        eval_ident_wrapper_spec(ctx, span, name, true) == Result::<ValueModel, Seq<DiagModel>>::Ok(
            v,
        ),
{
}

/// Within a sequence, evaluation is fail-fast: when the first element
/// fails, its diagnostics are the whole sequence's result, and no later
/// sibling is evaluated.
pub proof fn lemma_sequence_fail_fast(ctx: ContextModel, s: Seq<ExprModel>)
    requires
        s.len() > 0,
        eval_display_spec(ctx, s[0]) is Err,
    ensures
        eval_seq_spec(ctx, s) == Result::<Seq<ContentModel>, Seq<DiagModel>>::Err(
            eval_display_spec(ctx, s[0])->Err_0,
        ),
{
}

/// Evaluation is a pure function of the syntax tree and the context: two
/// evaluations of the same tree in the same context yield structurally
/// equal results.
pub proof fn lemma_evaluation_idempotent(
    ctx: ContextModel,
    e: ExprModel,
    r1: Result<ValueModel, Seq<DiagModel>>,
    r2: Result<ValueModel, Seq<DiagModel>>,
)
    requires
        r1 == eval_expr_spec(ctx, e),
        r2 == eval_expr_spec(ctx, e),
    ensures
        r1 == r2,
{
}

} // verus!
