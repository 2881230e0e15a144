//! Styled rich text as a tree of spans.
//!
//! Contracts speak of the mathematical tree [`SpanV`]: every operation states
//! exactly which tree it denotes, and the pango renderer's contract is stated
//! over the same trees.
use vstd::prelude::*;
use crate::render::color::Srgb8;

verus! {

#[derive(Debug, Copy, Clone)]
pub struct Style {
    pub fg: Option<Srgb8>,
    pub bg: Option<Srgb8>,
}

impl Style {
    /// The style with no colors set.
    pub fn plain() -> (s: Style)
        ensures
            s == (Style { fg: None::<Srgb8>, bg: None::<Srgb8> }),
    {
        Style { fg: None, bg: None }
    }

    /// This style with the foreground replaced.
    pub fn fg(self, fg: Srgb8) -> (s: Style)
        ensures
            s == (Style { fg: Some(fg), ..self }),
    {
        Style { fg: Some(fg), ..self }
    }
}

impl Default for Style {
    fn default() -> (s: Style)
        ensures
            s == (Style { fg: None::<Srgb8>, bg: None::<Srgb8> }),
    {
        Style { fg: None, bg: None }
    }
}

/// The mathematical value of one span: its text, or a style applied to a
/// subtree.
#[verifier::ext_equal]
pub enum SpanV {
    Text(Seq<char>),
    Styled(Style, Seq<SpanV>),
}

#[derive(Debug)]
pub enum Span {
    Text(String),
    Styled(Style, Markup),
}

#[derive(Debug)]
pub struct Markup {
    pub spans: Vec<Span>,
}

/// The tree denoted by one span.
pub open spec fn span_dv(s: Span) -> SpanV
    decreases s,
{
    match s {
        Span::Text(t) => SpanV::Text(t@),
        Span::Styled(st, m) => SpanV::Styled(st, markup_dv(m)),
    }
}

/// The forest denoted by a sequence of spans.
pub open spec fn spans_dv(spans: Seq<Span>) -> Seq<SpanV>
    decreases spans,
{
    if spans.len() == 0 {
        Seq::empty()
    } else {
        seq![span_dv(spans[0])] + spans_dv(spans.drop_first())
    }
}

/// Concatenating span sequences concatenates the forests they denote.
pub proof fn lemma_spans_dv_concat(a: Seq<Span>, b: Seq<Span>)
    ensures
        spans_dv(a + b) == spans_dv(a) + spans_dv(b),
    decreases a.len(),
{
    if a.len() == 0 {
        assert(a + b =~= b);
        assert(spans_dv(a) =~= Seq::<SpanV>::empty());
        assert(spans_dv(a) + spans_dv(b) =~= spans_dv(b));
    } else {
        lemma_spans_dv_concat(a.drop_first(), b);
        assert((a + b)[0] == a[0]);
        assert((a + b).drop_first() =~= a.drop_first() + b);
        assert(spans_dv(a + b) =~= spans_dv(a) + spans_dv(b));
    }
}

/// The forest denoted by a markup value.
pub open spec fn markup_dv(m: Markup) -> Seq<SpanV>
    decreases m,
{
    spans_dv(m.spans@)
}

/// The forest denoted by a span sequence is its spans' trees, element for
/// element.
pub broadcast proof fn lemma_spans_dv(spans: Seq<Span>)
    ensures
        (#[trigger] spans_dv(spans)).len() == spans.len(),
        forall|i: int| 0 <= i < spans.len() ==> #[trigger] spans_dv(spans)[i] == span_dv(
            spans[i],
        ),
    decreases spans.len(),
{
    if spans.len() > 0 {
        lemma_spans_dv(spans.drop_first());
        assert forall|i: int| 0 <= i < spans.len() implies #[trigger] spans_dv(spans)[i]
            == span_dv(spans[i]) by {
            if i > 0 {
                assert(spans_dv(spans)[i] == spans_dv(spans.drop_first())[i - 1]);
                assert(spans.drop_first()[i - 1] == spans[i]);
            }
        }
    }
}

impl View for Span {
    type V = SpanV;

    open spec fn view(&self) -> SpanV {
        span_dv(*self)
    }
}

impl View for Markup {
    type V = Seq<SpanV>;

    open spec fn view(&self) -> Seq<SpanV> {
        markup_dv(*self)
    }
}

impl DeepView for Span {
    type V = SpanV;

    open spec fn deep_view(&self) -> SpanV {
        span_dv(*self)
    }
}

impl DeepView for Markup {
    type V = Seq<SpanV>;

    open spec fn deep_view(&self) -> Seq<SpanV> {
        markup_dv(*self)
    }
}

impl Clone for Span {
    /// The clone denotes the same tree.
    fn clone(&self) -> (r: Self)
        ensures
            r@ == self@,
        decreases *self,
    {
        match self {
            Span::Text(t) => Span::Text(t.clone()),
            Span::Styled(st, m) => {
                assert(decreases_to!(*self => *m));
                let r = Span::Styled(*st, m.clone());
                assert(r@ == self@);
                r
            },
        }
    }
}

impl Clone for Markup {
    /// The clone denotes the same forest.
    fn clone(&self) -> (r: Self)
        ensures
            r@ == self@,
        decreases *self,
    {
        let n = self.spans.len();
        let mut spans: Vec<Span> = Vec::new();
        let mut i: usize = 0;
        while i < n
            invariant
                i <= n,
                n == self.spans@.len(),
                spans@.len() == i,
                forall|j: int| 0 <= j < i ==> #[trigger] span_dv(spans@[j]) == span_dv(
                    self.spans@[j],
                ),
            decreases n - i,
        {
            assert(decreases_to!(*self => self.spans@[i as int]));
            let s = self.spans[i].clone();
            assert(span_dv(s) == span_dv(self.spans@[i as int]));
            spans.push(s);
            i = i + 1;
        }
        let r = Markup { spans };
        proof {
            broadcast use lemma_spans_dv;

            assert forall|j: int| 0 <= j < r@.len() implies r@[j] == self@[j] by {
                assert(spans_dv(r.spans@)[j] == span_dv(r.spans@[j]));
                assert(spans_dv(self.spans@)[j] == span_dv(self.spans@[j]));
            }
            assert(r@ =~= self@);
        }
        r
    }
}

impl Markup {
    /// Markup with no spans at all.
    pub fn empty() -> (m: Markup)
        ensures
            m@ =~= Seq::<SpanV>::empty(),
    {
        Markup { spans: Vec::new() }
    }

    /// A single unstyled text span.
    pub fn text(text: String) -> (m: Markup)
        ensures
            m@ =~= seq![SpanV::Text(text@)],
    {
        proof {
            broadcast use lemma_spans_dv;

        }
        let mut spans: Vec<Span> = Vec::new();
        spans.push(Span::Text(text));
        let m = Markup { spans };
        assert(m@ =~= seq![SpanV::Text(text@)]);
        m
    }

    /// A single styled span wrapping `inner`.
    pub fn styled(style: Style, inner: Markup) -> (m: Markup)
        ensures
            m@ =~= seq![SpanV::Styled(style, inner@)],
    {
        proof {
            broadcast use lemma_spans_dv;

        }
        let ghost iv = inner@;
        let mut spans: Vec<Span> = Vec::new();
        spans.push(Span::Styled(style, inner));
        let m = Markup { spans };
        assert(m@ =~= seq![SpanV::Styled(style, iv)]);
        m
    }

    /// This markup wrapped in a span that sets only the foreground color.
    pub fn fg(self, fg: Srgb8) -> (m: Markup)
        ensures
            m@ =~= seq![SpanV::Styled(Style { fg: Some(fg), bg: None::<Srgb8> }, self@)],
    {
        Markup::styled(Style::plain().fg(fg), self)
    }

    /// The concatenation of two markups, span for span.
    pub fn append(self, other: Markup) -> (m: Markup)
        ensures
            m@ =~= self@ + other@,
    {
        let ghost av = self.spans@;
        let ghost bv = other.spans@;
        let mut spans = self.spans;
        let mut rest = other.spans;
        spans.append(&mut rest);
        let m = Markup { spans };
        proof {
            lemma_spans_dv_concat(av, bv);
            assert(m.spans@ == av + bv);
        }
        m
    }

    /// `left`, then `inner`, then `right`.
    pub fn delimited(left: Markup, inner: Markup, right: Markup) -> (m: Markup)
        ensures
            m@ =~= left@ + inner@ + right@,
    {
        left.append(inner).append(right)
    }

    /// `inner` between literal square brackets.
    pub fn bracketed(inner: Markup) -> (m: Markup)
        ensures
            m@ =~= seq![SpanV::Text("["@)] + inner@ + seq![SpanV::Text("]"@)],
    {
        Markup::delimited(Markup::text("[".to_owned()), inner, Markup::text("]".to_owned()))
    }

    /// The parts joined with `sep` between consecutive parts; empty markup
    /// when there are no parts.
    pub fn join(sep: Markup, parts: Vec<Markup>) -> (m: Markup)
        ensures
            m@ =~= spec_join(sep@, parts.deep_view()),
    {
        let ghost all = parts.deep_view();
        let n = parts.len();
        assert(all.len() == n);
        let mut out = Markup { spans: Vec::new() };
        assert(out@ =~= spec_join_prefix(sep@, all, 0));
        let mut i: usize = 0;
        while i < n
            invariant
                i <= n,
                n == all.len(),
                parts.deep_view() == all,
                out@ =~= spec_join_prefix(sep@, all, i as int),
            decreases n - i,
        {
            assert(parts@[i as int]@ == all[i as int]);
            let part = parts[i].clone();
            if i > 0 {
                out = out.append(sep.clone());
            }
            out = out.append(part);
            assert(out@ =~= spec_join_prefix(sep@, all, i + 1 as int));
            i = i + 1;
        }
        out
    }

    /// A borrowed view of the spans.
    pub fn spans(&self) -> (s: &Vec<Span>)
        ensures
            s.deep_view() =~= self@,
    {
        proof {
            lemma_spans_dv(self.spans@);
            assert(self.spans.deep_view().len() == self.spans@.len());
            assert(self@.len() == self.spans@.len());
            assert forall|j: int| 0 <= j < self.spans@.len() implies self.spans.deep_view()[j]
                == self@[j] by {
                assert(self.spans.deep_view()[j] == self.spans@[j].deep_view());
                assert(spans_dv(self.spans@)[j] == span_dv(self.spans@[j]));
            }
            assert(self.spans.deep_view() =~= self@);
        }
        &self.spans
    }
}

/// The first `k` parts joined by `sep`.
pub open spec fn spec_join_prefix(sep: Seq<SpanV>, parts: Seq<Seq<SpanV>>, k: int) -> Seq<SpanV>
    decreases k,
{
    if k <= 0 {
        Seq::empty()
    } else if k == 1 {
        parts[0]
    } else {
        spec_join_prefix(sep, parts, k - 1) + sep + parts[k - 1]
    }
}

/// All the parts joined by `sep`.
pub open spec fn spec_join(sep: Seq<SpanV>, parts: Seq<Seq<SpanV>>) -> Seq<SpanV> {
    spec_join_prefix(sep, parts, parts.len() as int)
}

} // verus!
