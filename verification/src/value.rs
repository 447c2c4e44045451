//! Runtime values produced by expression evaluation, and the display
//! coercion that turns a value into content.
//!
//! Only the variants this pass inspects are distinguished: symbols, content
//! and callable functions. Every other general-purpose value is `Plain`,
//! which records the two facts the pass reads of it — whether the value
//! casts to a function, and what the external display rule renders it as.

use vstd::prelude::*;
use crate::content::Content;
use crate::content::ContentKind;
use crate::content::ContentModel;
use crate::content::ContentKindModel;
use crate::content::DETACHED;
use crate::content::clone_content;

verus! {

/// A runtime value, as far as this pass can observe it.
#[derive(Debug, PartialEq, Eq)]
pub enum Value {
    /// A symbol value; its grapheme cluster.
    Symbol { grapheme: String },
    /// A value that already is content; display passes it through.
    Content { content: Content },
    /// A callable function value. `shown` is what the external display rule
    /// renders it as, carried as data.
    Func { shown: Content },
    /// Any other value: whether it casts to a function, and what the
    /// external display rule renders it as, both carried as data.
    Plain { callable: bool, shown: Content },
}

pub enum ValueModel {
    Symbol { grapheme: Seq<char> },
    Content { content: ContentModel },
    Func { shown: ContentModel },
    Plain { callable: bool, shown: ContentModel },
}

pub open spec fn value_model(v: Value) -> ValueModel {
    match v {
        Value::Symbol { grapheme } => ValueModel::Symbol { grapheme: grapheme@ },
        Value::Content { content } => ValueModel::Content { content: content@ },
        Value::Func { shown } => ValueModel::Func { shown: shown@ },
        Value::Plain { callable, shown } => ValueModel::Plain { callable, shown: shown@ },
    }
}

impl View for Value {
    type V = ValueModel;

    open spec fn view(&self) -> ValueModel {
        value_model(*self)
    }
}

/// Whether a value casts to a callable function. Symbols do cast — they are
/// callable-looking — which is why the uncalled-function check must exempt
/// them explicitly.
pub open spec fn casts_to_func_model(v: ValueModel) -> bool {
    match v {
        ValueModel::Symbol { .. } => true,
        ValueModel::Content { .. } => false,
        ValueModel::Func { .. } => true,
        ValueModel::Plain { callable, .. } => callable,
    }
}

pub fn casts_to_func(v: &Value) -> (r: bool)
    ensures
        r == casts_to_func_model(v@),
{
    match v {
        Value::Symbol { .. } => true,
        Value::Content { .. } => false,
        Value::Func { .. } => true,
        Value::Plain { callable, .. } => *callable,
    }
}

/// Model of display coercion: content passes through unchanged; a symbol
/// becomes a symbol node with a still-detached span; any other value is
/// rendered by the external display rule, whose output the value carries.
pub open spec fn display_model(v: ValueModel) -> ContentModel {
    match v {
        ValueModel::Symbol { grapheme } => ContentModel {
            span: DETACHED,
            kind: ContentKindModel::Symbol { grapheme },
        },
        ValueModel::Content { content } => content,
        ValueModel::Func { shown } => shown,
        ValueModel::Plain { shown, .. } => shown,
    }
}

/// Display coercion: turn a runtime value into content for rendering.
pub fn display(v: Value) -> (r: Content)
    ensures
        r@ == display_model(v@),
{
    match v {
        Value::Symbol { grapheme } => Content {
            span: DETACHED,
            kind: ContentKind::Symbol { grapheme },
        },
        Value::Content { content } => content,
        Value::Func { shown } => shown,
        Value::Plain { shown, .. } => shown,
    }
}

/// Structural copy of a value; the copy has the same model.
pub fn clone_value(v: &Value) -> (r: Value)
    ensures
        r@ == v@,
{
    match v {
        Value::Symbol { grapheme } => Value::Symbol { grapheme: grapheme.clone() },
        Value::Content { content } => Value::Content { content: clone_content(content) },
        Value::Func { shown } => Value::Func { shown: clone_content(shown) },
        Value::Plain { callable, shown } => Value::Plain {
            callable: *callable,
            shown: clone_content(shown),
        },
    }
}

} // verus!
