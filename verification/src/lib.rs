//! Math-notation evaluator: turns a parsed math-mode syntax tree into a
//! structured content tree for a later layout stage.
//!
//! Math notation is locally ambiguous: the same token sequence can denote
//! multiplication, a field access, or a function call depending on whitespace
//! and bracket shape. The evaluator detects and refuses ambiguous cases
//! (notably fraction operands that look like implicit function calls) rather
//! than guessing, while handling the deterministic cases directly.
//!
//! The pass is a pure function of the syntax tree and an evaluation context.
//! The context carries the outcomes of the two external collaborators this
//! pass consults — the identifier/field-access resolver and the call-aware
//! evaluator — as plain data, so every decision the pass itself makes is
//! verified against the specification-level semantics in [`eval`].

pub mod ast;
pub mod content;
pub mod eval;
pub mod laws;
pub mod context;
pub mod diag;
pub mod numeral;
pub mod value;
