use empty_status::colors;
use empty_status::display::{color, pangofy, pct_color};
use empty_status::render::color::Srgb8;
use empty_status::render::doc;
use empty_status::render::markup::{Markup, Style};
use empty_status::render::pango::{escape_pango, merge, render_text, to_pango};

#[test]
fn escapes_text() {
    let m = Markup::text("<&>\"'".to_owned());
    let out = to_pango(&m);
    assert_eq!(out, "&lt;&amp;&gt;&quot;&apos;");
}

#[test]
fn escape_pango_passes_plain_text() {
    assert_eq!(escape_pango("hello world"), "hello world");
    assert_eq!(escape_pango(""), "");
    assert_eq!(escape_pango("a&b"), "a&amp;b");
}

#[test]
fn render_text_wraps_in_span_when_colored() {
    let style = Style::plain().fg(Srgb8::new(0xCC, 0x66, 0x66));
    assert_eq!(render_text("hi", style), "<span color='#CC6666'>hi</span>");
    assert_eq!(render_text("hi", Style::plain()), "hi");
}

#[test]
fn to_pango_merges_nested_styles_inner_wins() {
    let inner = Markup::text("x".to_owned()).fg(Srgb8::new(1, 2, 3));
    let outer = Markup::styled(Style::plain().fg(Srgb8::new(9, 9, 9)), inner);
    assert_eq!(to_pango(&outer), "<span color='#010203'>x</span>");
}

#[test]
fn to_pango_inherits_outer_style() {
    let inner = Markup::text("x".to_owned());
    let outer = Markup::styled(Style::plain().fg(Srgb8::new(9, 9, 9)), inner);
    assert_eq!(to_pango(&outer), "<span color='#090909'>x</span>");
}

#[test]
fn markup_append_concatenates() {
    let m = Markup::text("a".to_owned()).append(Markup::text("b".to_owned()));
    assert_eq!(to_pango(&m), "ab");
}

#[test]
fn markup_bracketed_and_join() {
    let m = Markup::bracketed(Markup::text("x".to_owned()));
    assert_eq!(to_pango(&m), "[x]");
    let joined = Markup::join(
        Markup::text("-".to_owned()),
        vec![
            Markup::text("a".to_owned()),
            Markup::text("b".to_owned()),
            Markup::text("c".to_owned()),
        ],
    );
    assert_eq!(to_pango(&joined), "a-b-c");
    let none = Markup::join(Markup::text("-".to_owned()), vec![]);
    assert_eq!(to_pango(&none), "");
}

#[test]
fn markup_clone_renders_the_same() {
    let m = Markup::text("a<b".to_owned()).fg(Srgb8::new(0, 0, 0));
    let c = m.clone();
    assert_eq!(to_pango(&m), to_pango(&c));
}

#[test]
fn merge_prefers_inner_colors() {
    let outer = Style::plain().fg(Srgb8::new(1, 1, 1));
    let inner = Style::plain();
    let merged = merge(outer, inner);
    assert_eq!(merged.fg, Some(Srgb8::new(1, 1, 1)));
    let inner2 = Style::plain().fg(Srgb8::new(2, 2, 2));
    assert_eq!(merge(outer, inner2).fg, Some(Srgb8::new(2, 2, 2)));
}

#[test]
fn srgb8_hex_round_trip() {
    let c = Srgb8::new(10, 11, 12);
    assert_eq!(c.to_hex(), "#0A0B0C");
    assert_eq!(Srgb8::from_hex("#0A0B0C"), c);
    assert_eq!(Srgb8::from_hex("0A0B0C"), c);
    assert_eq!(Srgb8::from_hex("#CC6666"), Srgb8::new(204, 102, 102));
    // Malformed inputs parse as black.
    assert_eq!(Srgb8::from_hex("#CC66"), Srgb8::new(0, 0, 0));
    assert_eq!(Srgb8::from_hex("zzzzzz"), Srgb8::new(0, 0, 0));
}

#[test]
fn palette_hex_and_rgb_agree() {
    assert_eq!(Srgb8::from_hex(colors::RED), empty_status::colors::red());
    assert_eq!(Srgb8::from_hex(colors::VIOLET), empty_status::colors::violet());
    assert_eq!(Srgb8::from_hex(colors::YELLOW), empty_status::colors::yellow());
    assert_eq!(Srgb8::from_hex(colors::DARK_GREY).to_hex(), colors::DARK_GREY);
}

#[test]
fn pangofy_builds_span_attributes() {
    assert_eq!(pangofy("t", None, None), "t");
    assert_eq!(pangofy("t", Some("#AABBCC"), None), "<span color='#AABBCC'>t</span>");
    assert_eq!(
        pangofy("t", Some("#AABBCC"), Some("#001122")),
        "<span color='#AABBCC' background='#001122'>t</span>"
    );
    assert_eq!(pangofy("t", None, Some("#001122")), "<span background='#001122'>t</span>");
    // This layer passes the text through unescaped.
    assert_eq!(pangofy("<", None, None), "<");
}

#[test]
fn color_is_pangofy_foreground() {
    assert_eq!(color("dis", colors::ORANGE), "<span color='#DE935F'>dis</span>");
}

#[test]
fn pct_color_steps() {
    assert_eq!(pct_color(0), colors::CYAN);
    assert_eq!(pct_color(19), colors::CYAN);
    assert_eq!(pct_color(20), colors::GREEN);
    assert_eq!(pct_color(40), colors::YELLOW);
    assert_eq!(pct_color(60), colors::ORANGE);
    assert_eq!(pct_color(80), colors::RED);
    assert_eq!(pct_color(100), colors::RED);
}

#[test]
fn doc_holds_its_spans() {
    let spans = vec![doc::text("a".to_owned()), doc::styled(doc::text("b".to_owned()), Style::plain())];
    let d = doc::Doc::new(spans);
    assert_eq!(d.spans().len(), 2);
}
