//! The content tree produced by the evaluator: one node per unit of document
//! structure, each carrying the span of the source expression it came from.

use vstd::prelude::*;

verus! {

/// Span value of a node whose span has not been attached yet. A span, once
/// set to a non-detached value, is never altered: [`spanned`] only fills a
/// detached span.
pub const DETACHED: u64 = 0;

/// A content node: a structural kind plus the source span it originated from.
#[derive(Debug, PartialEq, Eq)]
pub struct Content {
    pub span: u64,
    pub kind: ContentKind,
}

/// The structural kinds of content this pass produces.
///
/// `AlignPoint` carries no payload: all alignment markers are
/// interchangeable, so the marker is a plain variant compared by value.
/// `Attach` reserves `top_right` exclusively for prime marks.
/// The two `Frac` flags record only whether explicit source parentheses were
/// stripped from that side; they are independent of the ambiguity check.
#[derive(Debug, PartialEq, Eq)]
pub enum ContentKind {
    Symbol { grapheme: String },
    Text { text: String },
    Sequence { children: Vec<Content> },
    Equation { body: Box<Content>, block: bool },
    AlignPoint,
    Delimited { open: Box<Content>, body: Box<Content>, close: Box<Content> },
    Attach {
        base: Box<Content>,
        top: Option<Box<Content>>,
        bottom: Option<Box<Content>>,
        top_right: Option<Box<Content>>,
    },
    Primes { count: u64 },
    Frac {
        num: Box<Content>,
        denom: Box<Content>,
        num_deparenthesized: bool,
        denom_deparenthesized: bool,
    },
    Root { index: Option<Box<Content>>, radicand: Box<Content> },
}

/// Mathematical model of a content node: strings become `Seq<char>` and
/// child vectors become `Seq`, so equality of models is structural.
pub struct ContentModel {
    pub span: u64,
    pub kind: ContentKindModel,
}

pub enum ContentKindModel {
    Symbol { grapheme: Seq<char> },
    Text { text: Seq<char> },
    Sequence { children: Seq<ContentModel> },
    Equation { body: Box<ContentModel>, block: bool },
    AlignPoint,
    Delimited { open: Box<ContentModel>, body: Box<ContentModel>, close: Box<ContentModel> },
    Attach {
        base: Box<ContentModel>,
        top: Option<Box<ContentModel>>,
        bottom: Option<Box<ContentModel>>,
        top_right: Option<Box<ContentModel>>,
    },
    Primes { count: u64 },
    Frac {
        num: Box<ContentModel>,
        denom: Box<ContentModel>,
        num_deparenthesized: bool,
        denom_deparenthesized: bool,
    },
    Root { index: Option<Box<ContentModel>>, radicand: Box<ContentModel> },
}

pub open spec fn content_model(c: Content) -> ContentModel
    decreases c,
{
    ContentModel { span: c.span, kind: content_kind_model(c.kind) }
}

pub open spec fn opt_content_model(o: Option<Box<Content>>) -> Option<Box<ContentModel>>
    decreases o,
{
    match o {
        Option::None => Option::None,
        Option::Some(b) => Option::Some(Box::new(content_model(*b))),
    }
}

pub open spec fn content_kind_model(k: ContentKind) -> ContentKindModel
    decreases k,
{
    match k {
        ContentKind::Symbol { grapheme } => ContentKindModel::Symbol { grapheme: grapheme@ },
        ContentKind::Text { text } => ContentKindModel::Text { text: text@ },
        ContentKind::Sequence { children } => ContentKindModel::Sequence {
            children: contents_model(children@),
        },
        ContentKind::Equation { body, block } => ContentKindModel::Equation {
            body: Box::new(content_model(*body)),
            block,
        },
        ContentKind::AlignPoint => ContentKindModel::AlignPoint,
        ContentKind::Delimited { open, body, close } => ContentKindModel::Delimited {
            open: Box::new(content_model(*open)),
            body: Box::new(content_model(*body)),
            close: Box::new(content_model(*close)),
        },
        ContentKind::Attach { base, top, bottom, top_right } => ContentKindModel::Attach {
            base: Box::new(content_model(*base)),
            top: opt_content_model(top),
            bottom: opt_content_model(bottom),
            top_right: opt_content_model(top_right),
        },
        ContentKind::Primes { count } => ContentKindModel::Primes { count },
        ContentKind::Frac { num, denom, num_deparenthesized, denom_deparenthesized } => {
            ContentKindModel::Frac {
                num: Box::new(content_model(*num)),
                denom: Box::new(content_model(*denom)),
                num_deparenthesized,
                denom_deparenthesized,
            }
        },
        ContentKind::Root { index, radicand } => ContentKindModel::Root {
            index: opt_content_model(index),
            radicand: Box::new(content_model(*radicand)),
        },
    }
}

pub open spec fn contents_model(s: Seq<Content>) -> Seq<ContentModel>
    decreases s,
{
    if s.len() == 0 {
        Seq::empty()
    } else {
        seq![content_model(s[0])] + contents_model(s.drop_first())
    }
}

pub proof fn lemma_contents_model(s: Seq<Content>)
    ensures
        contents_model(s).len() == s.len(),
        forall|i: int| 0 <= i < s.len() ==> #[trigger] contents_model(s)[i] == content_model(s[i]),
    decreases s.len(),
{
    if s.len() > 0 {
        lemma_contents_model(s.drop_first());
        assert forall|i: int|
            0 <= i < s.len() implies #[trigger] contents_model(s)[i] == content_model(s[i]) by {
            if i > 0 {
                assert(s.drop_first()[i - 1] == s[i]);
            }
        }
    }
}

impl View for Content {
    type V = ContentModel;

    open spec fn view(&self) -> ContentModel {
        content_model(*self)
    }
}

/// Model of span attachment: fill the span only if it is still detached.
pub open spec fn spanned_model(c: ContentModel, span: u64) -> ContentModel {
    if c.span == DETACHED {
        ContentModel { span, kind: c.kind }
    } else {
        c
    }
}

/// Attach a span to a content node whose span is still detached; a span that
/// was already set is kept unchanged.
pub fn spanned(c: Content, span: u64) -> (r: Content)
    ensures
        r@ == spanned_model(c@, span),
{
    if c.span == DETACHED {
        Content { span, kind: c.kind }
    } else {
        c
    }
}

/// Structural copy of a content node; the copy has the same model.
#[verifier::loop_isolation(false)]
pub fn clone_content(c: &Content) -> (r: Content)
    ensures
        r@ == c@,
    decreases *c,
{
    let kind = match &c.kind {
        ContentKind::Symbol { grapheme } => ContentKind::Symbol { grapheme: grapheme.clone() },
        ContentKind::Text { text } => ContentKind::Text { text: text.clone() },
        ContentKind::Sequence { children } => {
            let mut out: Vec<Content> = Vec::new();
            let mut i: usize = 0;
            while i < children.len()
                invariant
                    i <= children@.len(),
                    out@.len() == i,
                    forall|j: int| 0 <= j < i ==> #[trigger] out@[j]@ == children@[j]@,
                decreases children@.len() - i,
            {
                proof {
                    assert(decreases_to!(*children => children@[i as int]));
                }
                out.push(clone_content(&children[i]));
                i = i + 1;
            }
            proof {
                lemma_contents_model(out@);
                lemma_contents_model(children@);
                assert forall|j: int| 0 <= j < out@.len() implies contents_model(out@)[j]
                    == contents_model(children@)[j] by {
                    assert(out@[j]@ == children@[j]@);
                }
                assert(contents_model(out@) =~= contents_model(children@));
            }
            ContentKind::Sequence { children: out }
        },
        ContentKind::Equation { body, block } => ContentKind::Equation {
            body: Box::new(clone_content(body)),
            block: *block,
        },
        ContentKind::AlignPoint => ContentKind::AlignPoint,
        ContentKind::Delimited { open, body, close } => ContentKind::Delimited {
            open: Box::new(clone_content(open)),
            body: Box::new(clone_content(body)),
            close: Box::new(clone_content(close)),
        },
        ContentKind::Attach { base, top, bottom, top_right } => ContentKind::Attach {
            base: Box::new(clone_content(base)),
            top: clone_opt_content(top),
            bottom: clone_opt_content(bottom),
            top_right: clone_opt_content(top_right),
        },
        ContentKind::Primes { count } => ContentKind::Primes { count: *count },
        ContentKind::Frac { num, denom, num_deparenthesized, denom_deparenthesized } => {
            ContentKind::Frac {
                num: Box::new(clone_content(num)),
                denom: Box::new(clone_content(denom)),
                num_deparenthesized: *num_deparenthesized,
                denom_deparenthesized: *denom_deparenthesized,
            }
        },
        ContentKind::Root { index, radicand } => ContentKind::Root {
            index: clone_opt_content(index),
            radicand: Box::new(clone_content(radicand)),
        },
    };
    Content { span: c.span, kind }
}

/// Structural copy of an optional child.
pub fn clone_opt_content(o: &Option<Box<Content>>) -> (r: Option<Box<Content>>)
    ensures
        opt_content_model(r) == opt_content_model(*o),
    decreases *o,
{
    match o {
        Option::None => Option::None,
        Option::Some(b) => Option::Some(Box::new(clone_content(b))),
    }
}

} // verus!
