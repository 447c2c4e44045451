//! Read-only views over the parsed math-mode syntax tree.
//!
//! Each node holds the data its accessor methods would expose upstream: a
//! span, its sub-expressions, and — for fraction operands — the structural
//! hints the parser computed (call-like shape, trivia next to the fraction
//! stroke, stripped explicit parentheses).
//!
//! Two node kinds stand for work done outside this pass. `IdentWrapper`
//! covers both a bare identifier and a field access; `text` is the
//! reference as written, which is also the key the external resolver is
//! consulted under and the name used in diagnostics. `Call` stands for a
//! call expression, whose evaluation is the external call evaluator's; its
//! `key` identifies the call site in the evaluation context.

use vstd::prelude::*;

verus! {

/// A prime-mark run: how many primes, and the span of the run.
#[derive(Debug, PartialEq, Eq, Clone, Copy)]
pub struct PrimesMark {
    pub span: u64,
    pub count: u64,
}

/// A lexical math-text token, tagged at parse time.
#[derive(Debug, Clone, PartialEq, Eq)]
pub enum TextKind {
    /// A single grapheme cluster; becomes a symbol node.
    Grapheme { text: String },
    /// A numeral; becomes a literal-text node, bypassing symbol
    /// substitution so digit shaping stays consistent with plain numerals.
    Number { text: String },
}

pub enum TextKindModel {
    Grapheme { text: Seq<char> },
    Number { text: Seq<char> },
}

pub open spec fn text_kind_model(k: TextKind) -> TextKindModel {
    match k {
        TextKind::Grapheme { text } => TextKindModel::Grapheme { text: text@ },
        TextKind::Number { text } => TextKindModel::Number { text: text@ },
    }
}

/// One side of a fraction: its expression plus the parser-computed hints.
#[derive(Debug, PartialEq, Eq)]
pub struct Operand {
    pub expr: Box<MathExpr>,
    /// The side is a callee immediately followed by a bracketed group.
    pub like_func_call: bool,
    /// There is whitespace or a comment between the fraction stroke and the
    /// call-like group.
    pub trivia_between_slash: bool,
    /// Explicit source parentheses around this side were stripped.
    pub deparenthesized: bool,
}

pub struct OperandModel {
    pub expr: Box<ExprModel>,
    pub like_func_call: bool,
    pub trivia_between_slash: bool,
    pub deparenthesized: bool,
}

/// A math-mode expression node.
#[derive(Debug, PartialEq, Eq)]
pub enum MathExpr {
    /// An atom: grapheme or numeral.
    Text { span: u64, kind: TextKind },
    /// A bare identifier or field access, resolved externally.
    IdentWrapper { span: u64, text: String },
    /// A grammar-level shorthand character.
    Shorthand { span: u64, ch: char },
    /// An alignment marker.
    AlignPoint { span: u64 },
    /// A delimited group: open delimiter, body, close delimiter.
    Delimited { span: u64, open: Box<MathExpr>, body: Box<MathExpr>, close: Box<MathExpr> },
    /// A base with optional top, bottom and prime scripts.
    Attach {
        span: u64,
        base: Box<MathExpr>,
        top: Option<Box<MathExpr>>,
        primes: Option<PrimesMark>,
        bottom: Option<Box<MathExpr>>,
    },
    /// A standalone prime-mark run.
    Primes { mark: PrimesMark },
    /// A fraction with its two operands.
    Frac { span: u64, num: Operand, denom: Operand },
    /// A radical; the index is a small non-negative integer written
    /// directly in source syntax, never an arbitrary expression.
    Root { span: u64, index: Option<u64>, radicand: Box<MathExpr> },
    /// An ordered list of math expressions.
    Sequence { span: u64, exprs: Vec<MathExpr> },
    /// The equation wrapper around a math body, with its block/inline flag.
    Equation { span: u64, body: Box<MathExpr>, block: bool },
    /// A call expression, evaluated externally under `key`.
    Call { span: u64, key: u64 },
}

pub enum ExprModel {
    Text { span: u64, kind: TextKindModel },
    IdentWrapper { span: u64, text: Seq<char> },
    Shorthand { span: u64, ch: char },
    AlignPoint { span: u64 },
    Delimited { span: u64, open: Box<ExprModel>, body: Box<ExprModel>, close: Box<ExprModel> },
    Attach {
        span: u64,
        base: Box<ExprModel>,
        top: Option<Box<ExprModel>>,
        primes: Option<PrimesMark>,
        bottom: Option<Box<ExprModel>>,
    },
    Primes { mark: PrimesMark },
    Frac { span: u64, num: OperandModel, denom: OperandModel },
    Root { span: u64, index: Option<u64>, radicand: Box<ExprModel> },
    Sequence { span: u64, exprs: Seq<ExprModel> },
    Equation { span: u64, body: Box<ExprModel>, block: bool },
    Call { span: u64, key: u64 },
}

pub open spec fn expr_model(e: MathExpr) -> ExprModel
    decreases e,
{
    match e {
        MathExpr::Text { span, kind } => ExprModel::Text { span, kind: text_kind_model(kind) },
        MathExpr::IdentWrapper { span, text } => ExprModel::IdentWrapper { span, text: text@ },
        MathExpr::Shorthand { span, ch } => ExprModel::Shorthand { span, ch },
        MathExpr::AlignPoint { span } => ExprModel::AlignPoint { span },
        MathExpr::Delimited { span, open, body, close } => ExprModel::Delimited {
            span,
            open: Box::new(expr_model(*open)),
            body: Box::new(expr_model(*body)),
            close: Box::new(expr_model(*close)),
        },
        MathExpr::Attach { span, base, top, primes, bottom } => ExprModel::Attach {
            span,
            base: Box::new(expr_model(*base)),
            top: opt_expr_model(top),
            primes,
            bottom: opt_expr_model(bottom),
        },
        MathExpr::Primes { mark } => ExprModel::Primes { mark },
        MathExpr::Frac { span, num, denom } => ExprModel::Frac {
            span,
            num: operand_model(num),
            denom: operand_model(denom),
        },
        MathExpr::Root { span, index, radicand } => ExprModel::Root {
            span,
            index,
            radicand: Box::new(expr_model(*radicand)),
        },
        MathExpr::Sequence { span, exprs } => ExprModel::Sequence {
            span,
            exprs: exprs_model(exprs@),
        },
        MathExpr::Equation { span, body, block } => ExprModel::Equation {
            span,
            body: Box::new(expr_model(*body)),
            block,
        },
        MathExpr::Call { span, key } => ExprModel::Call { span, key },
    }
}

pub open spec fn opt_expr_model(o: Option<Box<MathExpr>>) -> Option<Box<ExprModel>>
    decreases o,
{
    match o {
        Option::None => Option::None,
        Option::Some(b) => Option::Some(Box::new(expr_model(*b))),
    }
}

pub open spec fn operand_model(op: Operand) -> OperandModel
    decreases op,
{
    OperandModel {
        expr: Box::new(expr_model(*op.expr)),
        like_func_call: op.like_func_call,
        trivia_between_slash: op.trivia_between_slash,
        deparenthesized: op.deparenthesized,
    }
}

pub open spec fn exprs_model(s: Seq<MathExpr>) -> Seq<ExprModel>
    decreases s,
{
    if s.len() == 0 {
        Seq::empty()
    } else {
        seq![expr_model(s[0])] + exprs_model(s.drop_first())
    }
}

pub proof fn lemma_exprs_model(s: Seq<MathExpr>)
    ensures
        exprs_model(s).len() == s.len(),
        forall|i: int| 0 <= i < s.len() ==> #[trigger] exprs_model(s)[i] == expr_model(s[i]),
    decreases s.len(),
{
    if s.len() > 0 {
        lemma_exprs_model(s.drop_first());
        assert forall|i: int| 0 <= i < s.len() implies #[trigger] exprs_model(s)[i] == expr_model(
            s[i],
        ) by {
            if i > 0 {
                assert(s.drop_first()[i - 1] == s[i]);
            }
        }
    }
}

impl View for MathExpr {
    type V = ExprModel;

    open spec fn view(&self) -> ExprModel {
        expr_model(*self)
    }
}

impl View for Operand {
    type V = OperandModel;

    open spec fn view(&self) -> OperandModel {
        operand_model(*self)
    }
}

/// The span of an expression node, as the model sees it.
pub open spec fn expr_span_model(e: ExprModel) -> u64 {
    match e {
        ExprModel::Text { span, .. } => span,
        ExprModel::IdentWrapper { span, .. } => span,
        ExprModel::Shorthand { span, .. } => span,
        ExprModel::AlignPoint { span } => span,
        ExprModel::Delimited { span, .. } => span,
        ExprModel::Attach { span, .. } => span,
        ExprModel::Primes { mark } => mark.span,
        ExprModel::Frac { span, .. } => span,
        ExprModel::Root { span, .. } => span,
        ExprModel::Sequence { span, .. } => span,
        ExprModel::Equation { span, .. } => span,
        ExprModel::Call { span, .. } => span,
    }
}

/// The span of an expression node.
pub fn expr_span(e: &MathExpr) -> (r: u64)
    ensures
        r == expr_span_model(e@),
{
    match e {
        MathExpr::Text { span, .. } => *span,
        MathExpr::IdentWrapper { span, .. } => *span,
        MathExpr::Shorthand { span, .. } => *span,
        MathExpr::AlignPoint { span } => *span,
        MathExpr::Delimited { span, .. } => *span,
        MathExpr::Attach { span, .. } => *span,
        MathExpr::Primes { mark } => mark.span,
        MathExpr::Frac { span, .. } => *span,
        MathExpr::Root { span, .. } => *span,
        MathExpr::Sequence { span, .. } => *span,
        MathExpr::Equation { span, .. } => *span,
        MathExpr::Call { span, .. } => *span,
    }
}

} // verus!
