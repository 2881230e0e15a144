//! Rendering a markup tree to pango-style text with escaping.
use vstd::prelude::*;
use vstd::string::StringExecFns;
use crate::render::color::{spec_hex, Srgb8};
use crate::render::markup::{lemma_spans_dv, span_dv, spans_dv, Markup, Span, SpanV, Style};
use crate::strutil::push_char;

verus! {

/// The escaped form of one character.
pub open spec fn spec_escape_char(c: char) -> Seq<char> {
    if c == '&' {
        seq!['&', 'a', 'm', 'p', ';']
    } else if c == '<' {
        seq!['&', 'l', 't', ';']
    } else if c == '>' {
        seq!['&', 'g', 't', ';']
    } else if c == '\'' {
        seq!['&', 'a', 'p', 'o', 's', ';']
    } else if c == '"' {
        seq!['&', 'q', 'u', 'o', 't', ';']
    } else {
        seq![c]
    }
}

/// The text with every markup-significant character escaped.
pub open spec fn spec_escape(s: Seq<char>) -> Seq<char>
    decreases s.len(),
{
    if s.len() == 0 {
        Seq::empty()
    } else {
        spec_escape(s.drop_last()) + spec_escape_char(s.last())
    }
}

/// The attribute list a style contributes to a span tag: a `color` attribute
/// when a foreground is set, a `background` attribute when a background is.
pub open spec fn spec_style_attrs(style: Style) -> Seq<char> {
    let fg_part: Seq<char> = match style.fg {
        Some(c) => seq!['c', 'o', 'l', 'o', 'r', '=', '\''] + spec_hex(c) + seq!['\''],
        None => Seq::empty(),
    };
    let bg_part: Seq<char> = match style.bg {
        Some(c) => seq!['b', 'a', 'c', 'k', 'g', 'r', 'o', 'u', 'n', 'd', '=', '\'']
            + spec_hex(c) + seq!['\''],
        None => Seq::empty(),
    };
    if style.fg is Some && style.bg is Some {
        fg_part + seq![' '] + bg_part
    } else {
        fg_part + bg_part
    }
}

/// The rendering of one text run under a style: the escaped text, wrapped in
/// a span tag when the style sets any color.
pub open spec fn spec_render_text(t: Seq<char>, style: Style) -> Seq<char> {
    if style.fg is None && style.bg is None {
        spec_escape(t)
    } else {
        seq!['<', 's', 'p', 'a', 'n', ' '] + spec_style_attrs(style) + seq!['>'] + spec_escape(t)
            + seq!['<', '/', 's', 'p', 'a', 'n', '>']
    }
}

/// An inner style layered over an outer one: inner colors win.
pub open spec fn spec_merge(outer: Style, inner: Style) -> Style {
    Style {
        fg: if inner.fg is Some {
            inner.fg
        } else {
            outer.fg
        },
        bg: if inner.bg is Some {
            inner.bg
        } else {
            outer.bg
        },
    }
}

/// The rendering of a forest of spans under an inherited style.
pub open spec fn spec_pango_spans(spans: Seq<SpanV>, st: Style) -> Seq<char>
    decreases spans,
{
    if spans.len() == 0 {
        Seq::empty()
    } else {
        spec_pango_span(spans[0], st) + spec_pango_spans(spans.drop_first(), st)
    }
}

/// The rendering of one span under an inherited style.
pub open spec fn spec_pango_span(span: SpanV, st: Style) -> Seq<char>
    decreases span,
{
    match span {
        SpanV::Text(t) => spec_render_text(t, st),
        SpanV::Styled(inner_style, inner) => spec_pango_spans(inner, spec_merge(st, inner_style)),
    }
}

/// The full pango rendering of a markup tree, starting with no inherited
/// style.
pub open spec fn spec_pango(m: Seq<SpanV>) -> Seq<char> {
    spec_pango_spans(m, Style { fg: None, bg: None })
}

/// An inner style layered over an outer one: inner colors win.
pub fn merge(outer: Style, inner: Style) -> (r: Style)
    ensures
        r == spec_merge(outer, inner),
{
    Style {
        fg: if inner.fg.is_some() {
            inner.fg
        } else {
            outer.fg
        },
        bg: if inner.bg.is_some() {
            inner.bg
        } else {
            outer.bg
        },
    }
}

/// Appends the escaped form of `text` to `out`.
fn push_escaped(out: &mut String, text: &str)
    ensures
        final(out)@ == old(out)@ + spec_escape(text@),
{
    let n = text.unicode_len();
    let mut i: usize = 0;
    while i < n
        invariant
            i <= n,
            n == text@.len(),
            out@ == old(out)@ + spec_escape(text@.subrange(0, i as int)),
        decreases n - i,
    {
        let c = text.get_char(i);
        if c == '&' {
            out.append("&amp;");
            proof {
                reveal_strlit("&amp;");
            }
        } else if c == '<' {
            out.append("&lt;");
            proof {
                reveal_strlit("&lt;");
            }
        } else if c == '>' {
            out.append("&gt;");
            proof {
                reveal_strlit("&gt;");
            }
        } else if c == '\'' {
            out.append("&apos;");
            proof {
                reveal_strlit("&apos;");
            }
        } else if c == '"' {
            out.append("&quot;");
            proof {
                reveal_strlit("&quot;");
            }
        } else {
            push_char(out, c);
        }
        proof {
            let pre = text@.subrange(0, i as int);
            let cur = text@.subrange(0, i + 1 as int);
            assert(cur.drop_last() =~= pre);
            assert(cur.last() == text@[i as int]);
            assert(out@ =~= old(out)@ + spec_escape(cur));
        }
        i = i + 1;
    }
    assert(text@.subrange(0, n as int) =~= text@);
}

/// Appends the attribute list for `style` to `out`.
fn push_style_attrs(out: &mut String, style: Style)
    ensures
        final(out)@ == old(out)@ + spec_style_attrs(style),
{
    proof {
        reveal_strlit("color='");
        reveal_strlit("background='");
        reveal_strlit("'");
        reveal_strlit(" ");
    }
    match style.fg {
        Some(c) => {
            out.append("color='");
            let hex = c.to_hex();
            out.append(hex.as_str());
            out.append("'");
        },
        None => {},
    }
    if style.fg.is_some() && style.bg.is_some() {
        out.append(" ");
    }
    match style.bg {
        Some(c) => {
            out.append("background='");
            let hex = c.to_hex();
            out.append(hex.as_str());
            out.append("'");
        },
        None => {},
    }
    assert(final(out)@ =~= old(out)@ + spec_style_attrs(style));
}

/// Appends the rendering of one text run under `style` to `out`.
fn push_render_text(out: &mut String, text: &str, style: Style)
    ensures
        final(out)@ == old(out)@ + spec_render_text(text@, style),
{
    if style.fg.is_none() && style.bg.is_none() {
        push_escaped(out, text);
    } else {
        proof {
            reveal_strlit("<span ");
            reveal_strlit(">");
            reveal_strlit("</span>");
        }
        out.append("<span ");
        push_style_attrs(out, style);
        out.append(">");
        push_escaped(out, text);
        out.append("</span>");
        assert(final(out)@ =~= old(out)@ + spec_render_text(text@, style));
    }
}

/// Appends the rendering of a markup forest under an inherited style.
fn push_spans(out: &mut String, spans: &Vec<Span>, st: Style)
    ensures
        final(out)@ == old(out)@ + spec_pango_spans(spans_dv(spans@), st),
    decreases *spans,
{
    proof {
        broadcast use lemma_spans_dv;

    }
    let ghost all = spans_dv(spans@);
    let n = spans.len();
    let mut i: usize = 0;
    while i < n
        invariant
            i <= n,
            n == spans@.len(),
            all == spans_dv(spans@),
            all.len() == n,
            forall|j: int| 0 <= j < n ==> all[j] == span_dv(spans@[j]),
            out@ == old(out)@ + spec_pango_spans(all.subrange(0, i as int), st),
        decreases n - i,
    {
        let ghost pre = all.subrange(0, i as int);
        match &spans[i] {
            Span::Text(t) => {
                push_render_text(out, t.as_str(), st);
            },
            Span::Styled(inner_style, inner) => {
                assert(decreases_to!(*spans => inner.spans));
                let merged = merge(st, *inner_style);
                push_spans(out, &inner.spans, merged);
            },
        }
        proof {
            let cur = all.subrange(0, i + 1 as int);
            lemma_pango_spans_snoc(pre, all[i as int], st);
            assert(cur =~= pre.push(all[i as int]));
            assert(out@ =~= old(out)@ + spec_pango_spans(cur, st));
        }
        i = i + 1;
    }
    assert(all.subrange(0, n as int) =~= all);
}

/// Appending one span to a forest appends its rendering.
proof fn lemma_pango_spans_snoc(spans: Seq<SpanV>, last: SpanV, st: Style)
    ensures
        spec_pango_spans(spans.push(last), st) == spec_pango_spans(spans, st) + spec_pango_span(
            last,
            st,
        ),
    decreases spans.len(),
{
    if spans.len() == 0 {
        assert(spans.push(last).drop_first() =~= Seq::<SpanV>::empty());
        assert(spans.push(last)[0] == last);
        assert(spec_pango_spans(Seq::<SpanV>::empty(), st) == Seq::<char>::empty());
        assert(spec_pango_spans(spans, st) == Seq::<char>::empty());
        assert(spec_pango_spans(spans.push(last), st) =~= spec_pango_span(last, st)
            + Seq::<char>::empty());
        assert(spec_pango_spans(spans.push(last), st) =~= spec_pango_spans(spans, st)
            + spec_pango_span(last, st));
    } else {
        lemma_pango_spans_snoc(spans.drop_first(), last, st);
        assert(spans.push(last).drop_first() =~= spans.drop_first().push(last));
        assert(spans.push(last)[0] == spans[0]);
        assert(spec_pango_spans(spans.push(last), st) =~= spec_pango_spans(spans, st)
            + spec_pango_span(last, st));
    }
}

/// Escapes the markup-significant characters of a text run.
pub fn escape_pango(text: &str) -> (r: String)
    ensures
        r@ == spec_escape(text@),
{
    let mut out = String::new();
    push_escaped(&mut out, text);
    assert(out@ =~= spec_escape(text@));
    out
}

/// Renders one text run under a style.
pub fn render_text(text: &str, style: Style) -> (r: String)
    ensures
        r@ == spec_render_text(text@, style),
{
    let mut out = String::new();
    push_render_text(&mut out, text, style);
    assert(out@ =~= spec_render_text(text@, style));
    out
}

/// Renders a markup forest under an inherited style.
pub fn render_styled(style: Style, inner: &Markup) -> (r: String)
    ensures
        r@ == spec_pango_spans(inner@, style),
{
    let mut out = String::new();
    push_spans(&mut out, &inner.spans, style);
    assert(out@ =~= spec_pango_spans(inner@, style));
    out
}

/// Renders a markup tree to pango text, escaping every text run and turning
/// styles into span tags with merged colors.
pub fn to_pango(markup: &Markup) -> (r: String)
    ensures
        r@ == spec_pango(markup@),
{
    let mut out = String::new();
    push_spans(&mut out, &markup.spans, Style::plain());
    assert(out@ =~= spec_pango(markup@));
    out
}

} // verus!
