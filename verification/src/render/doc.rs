//! A flat, pre-styled document: the fully-merged form of a markup tree.
use vstd::prelude::*;
use crate::render::markup::Style;

verus! {

#[derive(Debug, Clone)]
pub enum Span {
    Text { text: String, style: Style },
}

#[derive(Debug, Clone)]
pub struct Doc {
    pub spans: Vec<Span>,
}

impl View for Span {
    type V = (Seq<char>, Style);

    open spec fn view(&self) -> (Seq<char>, Style) {
        match *self {
            Span::Text { text, style } => (text@, style),
        }
    }
}

impl View for Doc {
    type V = Seq<(Seq<char>, Style)>;

    open spec fn view(&self) -> Seq<(Seq<char>, Style)> {
        Seq::new(self.spans@.len(), |i: int| self.spans@[i]@)
    }
}

impl Doc {
    /// A document made of exactly the given spans.
    pub fn new(spans: Vec<Span>) -> (d: Doc)
        ensures
            d@ =~= Seq::new(spans@.len(), |i: int| spans@[i]@),
    {
        Doc { spans }
    }

    /// A borrowed view of the spans.
    pub fn spans(&self) -> (s: &Vec<Span>)
        ensures
            s@ == self.spans@,
            Seq::new(s@.len(), |i: int| s@[i]@) =~= self@,
    {
        &self.spans
    }
}

/// An unstyled span holding the given text.
pub fn text(s: String) -> (r: Span)
    ensures
        r@ == (s@, Style { fg: None::<crate::render::color::Srgb8>, bg: None::<
            crate::render::color::Srgb8> }),
{
    Span::Text { text: s, style: Style::plain() }
}

/// The same text with the style replaced.
pub fn styled(span: Span, style: Style) -> (r: Span)
    ensures
        r@ == (span@.0, style),
{
    match span {
        Span::Text { text, .. } => Span::Text { text, style },
    }
}

} // verus!
