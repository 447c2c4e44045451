//! The evaluation context: the outcomes of the two external collaborators
//! this pass consults, carried as plain data.
//!
//! `bindings` maps a reference's textual form to what the external
//! identifier/field-access resolver returns for it (always in math-mode
//! resolution context). `calls` maps a call site's key to what the external
//! call-aware evaluator returns for it. Either outcome may be a value or a
//! list of diagnostics, which this pass propagates unchanged. A name or key
//! the context does not hold is treated as the collaborator failing with an
//! unresolved diagnostic at the consulting node's span.
//!
//! The context is read-only during evaluation, so evaluating the same tree
//! in the same context twice yields structurally equal results.

use vstd::prelude::*;
use crate::diag::Diag;
use crate::diag::DiagModel;
use crate::diag::diags_model;
use crate::value::Value;
use crate::value::ValueModel;
use crate::value::value_model;

verus! {

/// What an external collaborator returned: a value, or diagnostics.
pub type Outcome = Result<Value, Vec<Diag>>;

pub type OutcomeModel = Result<ValueModel, Seq<DiagModel>>;

pub open spec fn outcome_model(o: Outcome) -> OutcomeModel {
    match o {
        Result::Ok(v) => Result::Ok(value_model(v)),
        Result::Err(ds) => Result::Err(diags_model(ds@)),
    }
}

/// The evaluation context.
#[derive(Debug, PartialEq, Eq)]
pub struct Context {
    pub bindings: Vec<(String, Outcome)>,
    pub calls: Vec<(u64, Outcome)>,
}

pub struct ContextModel {
    pub bindings: Seq<(Seq<char>, OutcomeModel)>,
    pub calls: Seq<(u64, OutcomeModel)>,
}

pub open spec fn bindings_model(s: Seq<(String, Outcome)>) -> Seq<(Seq<char>, OutcomeModel)> {
    s.map_values(|p: (String, Outcome)| (p.0@, outcome_model(p.1)))
}

pub open spec fn calls_model(s: Seq<(u64, Outcome)>) -> Seq<(u64, OutcomeModel)> {
    s.map_values(|p: (u64, Outcome)| (p.0, outcome_model(p.1)))
}

impl View for Context {
    type V = ContextModel;

    open spec fn view(&self) -> ContextModel {
        ContextModel { bindings: bindings_model(self.bindings@), calls: calls_model(self.calls@) }
    }
}

/// First-match lookup of a name among the resolver outcomes.
pub open spec fn lookup_name(s: Seq<(Seq<char>, OutcomeModel)>, name: Seq<char>) -> Option<
    OutcomeModel,
>
    decreases s.len(),
{
    if s.len() == 0 {
        Option::None
    } else if s[0].0 == name {
        Option::Some(s[0].1)
    } else {
        lookup_name(s.drop_first(), name)
    }
}

/// First-match lookup of a call key among the call-evaluator outcomes.
pub open spec fn lookup_call(s: Seq<(u64, OutcomeModel)>, key: u64) -> Option<OutcomeModel>
    decreases s.len(),
{
    if s.len() == 0 {
        Option::None
    } else if s[0].0 == key {
        Option::Some(s[0].1)
    } else {
        lookup_call(s.drop_first(), key)
    }
}

/// Consult the resolver outcomes for a name.
#[verifier::loop_isolation(false)]
pub fn resolve_name<'a>(ctx: &'a Context, name: &String) -> (r: Option<&'a Outcome>)
    ensures
        match r {
            Option::Some(o) => lookup_name(ctx@.bindings, name@) == Option::Some(
                outcome_model(*o),
            ),
            Option::None => lookup_name(ctx@.bindings, name@) is None,
        },
{
    let n = ctx.bindings.len();
    let mut i: usize = 0;
    proof {
        assert(ctx@.bindings.subrange(0, n as int) =~= ctx@.bindings);
    }
    while i < n
        invariant
            i <= n,
            lookup_name(ctx@.bindings, name@) == lookup_name(
                ctx@.bindings.subrange(i as int, n as int),
                name@,
            ),
        decreases n - i,
    {
        proof {
            assert(ctx@.bindings.subrange(i as int, n as int)[0] == ctx@.bindings[i as int]);
            assert(ctx@.bindings[i as int] == (
                ctx.bindings@[i as int].0@,
                outcome_model(ctx.bindings@[i as int].1),
            ));
        }
        if ctx.bindings[i].0.eq(name) {
            return Option::Some(&ctx.bindings[i].1);
        }
        proof {
            assert(ctx@.bindings.subrange(i as int, n as int).drop_first() =~= ctx@.bindings
                .subrange(i as int + 1, n as int));
        }
        i = i + 1;
    }
    Option::None
}

/// Consult the call-evaluator outcomes for a call key.
#[verifier::loop_isolation(false)]
pub fn call_outcome<'a>(ctx: &'a Context, key: u64) -> (r: Option<&'a Outcome>)
    ensures
        match r {
            Option::Some(o) => lookup_call(ctx@.calls, key) == Option::Some(outcome_model(*o)),
            Option::None => lookup_call(ctx@.calls, key) is None,
        },
{
    let n = ctx.calls.len();
    let mut i: usize = 0;
    proof {
        assert(ctx@.calls.subrange(0, n as int) =~= ctx@.calls);
    }
    while i < n
        invariant
            i <= n,
            lookup_call(ctx@.calls, key) == lookup_call(
                ctx@.calls.subrange(i as int, n as int),
                key,
            ),
        decreases n - i,
    {
        proof {
            assert(ctx@.calls.subrange(i as int, n as int)[0] == ctx@.calls[i as int]);
            assert(ctx@.calls[i as int] == (
                ctx.calls@[i as int].0,
                outcome_model(ctx.calls@[i as int].1),
            ));
        }
        if ctx.calls[i].0 == key {
            return Option::Some(&ctx.calls[i].1);
        }
        proof {
            assert(ctx@.calls.subrange(i as int, n as int).drop_first() =~= ctx@.calls.subrange(
                i as int + 1,
                n as int,
            ));
        }
        i = i + 1;
    }
    Option::None
}

} // verus!
