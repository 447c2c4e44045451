//! Diagnostics: user-facing compile errors emitted by this pass or
//! propagated unchanged from the external collaborators.
//!
//! A diagnostic carries a span, a message kind and zero or more hints.
//! Diagnostics produced outside this pass (by the resolver or the call
//! evaluator) enter the evaluation context as data; their payload is opaque
//! here and is represented by the `Foreign` kinds.

use vstd::prelude::*;

verus! {

/// A hint attached to a diagnostic.
#[derive(Debug, Clone, PartialEq, Eq)]
pub enum Hint {
    /// One per ambiguous fraction operand: that side is a callee directly
    /// followed by a bracketed group, so the notation could mean either a
    /// call or a multiplication by a parenthesized quantity.
    AmbiguousOperand,
    /// To call the named function, write its name followed by `()`.
    CallSuggestion { name: String },
    /// A hint propagated from an external collaborator; opaque here.
    Foreign { code: u64 },
}

pub enum HintModel {
    AmbiguousOperand,
    CallSuggestion { name: Seq<char> },
    Foreign { code: u64 },
}

pub open spec fn hint_model(h: Hint) -> HintModel {
    match h {
        Hint::AmbiguousOperand => HintModel::AmbiguousOperand,
        Hint::CallSuggestion { name } => HintModel::CallSuggestion { name: name@ },
        Hint::Foreign { code } => HintModel::Foreign { code },
    }
}

impl View for Hint {
    type V = HintModel;

    open spec fn view(&self) -> HintModel {
        hint_model(*self)
    }
}

/// The message of a diagnostic.
#[derive(Debug, Clone, PartialEq, Eq)]
pub enum DiagKind {
    /// "notation is ambiguous": a fraction operand looks like an implicit
    /// function call, so the construct is refused rather than guessed at.
    AmbiguousNotation,
    /// "this does not call the `name` function": a callable value was
    /// referenced where a value, not a call, is expected; `name` is the
    /// reference as written in source.
    UncalledFunction { name: String },
    /// The external resolver produced no outcome for this name.
    UnresolvedName { name: String },
    /// The external call evaluator produced no outcome for this call.
    UnresolvedCall,
    /// A diagnostic propagated unchanged from an external collaborator; the
    /// payload is opaque to this pass.
    Foreign { code: u64 },
}

pub enum DiagKindModel {
    AmbiguousNotation,
    UncalledFunction { name: Seq<char> },
    UnresolvedName { name: Seq<char> },
    UnresolvedCall,
    Foreign { code: u64 },
}

pub open spec fn diag_kind_model(k: DiagKind) -> DiagKindModel {
    match k {
        DiagKind::AmbiguousNotation => DiagKindModel::AmbiguousNotation,
        DiagKind::UncalledFunction { name } => DiagKindModel::UncalledFunction { name: name@ },
        DiagKind::UnresolvedName { name } => DiagKindModel::UnresolvedName { name: name@ },
        DiagKind::UnresolvedCall => DiagKindModel::UnresolvedCall,
        DiagKind::Foreign { code } => DiagKindModel::Foreign { code },
    }
}

/// One diagnostic: span, message kind, hints.
#[derive(Debug, Clone, PartialEq, Eq)]
pub struct Diag {
    pub span: u64,
    pub kind: DiagKind,
    pub hints: Vec<Hint>,
}

pub struct DiagModel {
    pub span: u64,
    pub kind: DiagKindModel,
    pub hints: Seq<HintModel>,
}

pub open spec fn hints_model(s: Seq<Hint>) -> Seq<HintModel> {
    s.map_values(|h: Hint| hint_model(h))
}

pub open spec fn diag_model(d: Diag) -> DiagModel {
    DiagModel { span: d.span, kind: diag_kind_model(d.kind), hints: hints_model(d.hints@) }
}

impl View for Diag {
    type V = DiagModel;

    open spec fn view(&self) -> DiagModel {
        diag_model(*self)
    }
}

pub open spec fn diags_model(s: Seq<Diag>) -> Seq<DiagModel> {
    s.map_values(|d: Diag| diag_model(d))
}

/// Structural copy of a hint; the copy has the same model.
pub fn clone_hint(h: &Hint) -> (r: Hint)
    ensures
        r@ == h@,
{
    match h {
        Hint::AmbiguousOperand => Hint::AmbiguousOperand,
        Hint::CallSuggestion { name } => Hint::CallSuggestion { name: name.clone() },
        Hint::Foreign { code } => Hint::Foreign { code: *code },
    }
}

/// Structural copy of a diagnostic; the copy has the same model.
pub fn clone_diag(d: &Diag) -> (r: Diag)
    ensures
        r@ == d@,
{
    let kind = match &d.kind {
        DiagKind::AmbiguousNotation => DiagKind::AmbiguousNotation,
        DiagKind::UncalledFunction { name } => DiagKind::UncalledFunction { name: name.clone() },
        DiagKind::UnresolvedName { name } => DiagKind::UnresolvedName { name: name.clone() },
        DiagKind::UnresolvedCall => DiagKind::UnresolvedCall,
        DiagKind::Foreign { code } => DiagKind::Foreign { code: *code },
    };
    let mut hints: Vec<Hint> = Vec::new();
    let mut i: usize = 0;
    while i < d.hints.len()
        invariant
            i <= d.hints@.len(),
            hints@.len() == i,
            forall|j: int| 0 <= j < i ==> #[trigger] hints@[j]@ == d.hints@[j]@,
        decreases d.hints@.len() - i,
    {
        hints.push(clone_hint(&d.hints[i]));
        i = i + 1;
    }
    proof {
        assert forall|j: int| 0 <= j < hints@.len() implies hints_model(hints@)[j] == hints_model(
            d.hints@,
        )[j] by {
            assert(hints@[j]@ == d.hints@[j]@);
        }
        assert(hints_model(hints@) =~= hints_model(d.hints@));
    }
    Diag { span: d.span, kind, hints }
}

/// Structural copy of a diagnostic list; the copy has the same model.
pub fn clone_diags(ds: &Vec<Diag>) -> (r: Vec<Diag>)
    ensures
        diags_model(r@) == diags_model(ds@),
{
    let mut out: Vec<Diag> = Vec::new();
    let mut i: usize = 0;
    while i < ds.len()
        invariant
            i <= ds@.len(),
            out@.len() == i,
            forall|j: int| 0 <= j < i ==> #[trigger] out@[j]@ == ds@[j]@,
        decreases ds@.len() - i,
    {
        out.push(clone_diag(&ds[i]));
        i = i + 1;
    }
    proof {
        assert forall|j: int| 0 <= j < out@.len() implies diags_model(out@)[j] == diags_model(
            ds@,
        )[j] by {
            assert(out@[j]@ == ds@[j]@);
        }
        assert(diags_model(out@) =~= diags_model(ds@));
    }
    out
}

} // verus!
