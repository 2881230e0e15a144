//! String-level display helpers shared by the units.
use vstd::prelude::*;
use vstd::string::StringExecFns;

verus! {

/// The span tag wrapping `text` for the given optional colors: no tag when
/// both are absent.
pub open spec fn spec_pangofy(t: Seq<char>, color: Option<Seq<char>>, background: Option<
    Seq<char>,
>) -> Seq<char> {
    let color_part: Seq<char> = match color {
        Some(c) => seq!['c', 'o', 'l', 'o', 'r', '=', '\''] + c + seq!['\''],
        None => Seq::empty(),
    };
    let bg_part: Seq<char> = match background {
        Some(b) => seq!['b', 'a', 'c', 'k', 'g', 'r', 'o', 'u', 'n', 'd', '=', '\''] + b + seq![
            '\'',
        ],
        None => Seq::empty(),
    };
    if color is None && background is None {
        t
    } else {
        let attrs = if color is Some && background is Some {
            color_part + seq![' '] + bg_part
        } else {
            color_part + bg_part
        };
        seq!['<', 's', 'p', 'a', 'n', ' '] + attrs + seq!['>'] + t + seq!['<', '/', 's', 'p', 'a',
            'n', '>']
    }
}

/// Wraps `text` in a pango span tag carrying the given attributes; the text
/// itself is passed through unescaped.
pub fn pangofy(text: &str, color: Option<&str>, background: Option<&str>) -> (r: String)
    ensures
        r@ == spec_pangofy(
            text@,
            match color {
                Some(c) => Some(c@),
                None => None,
            },
            match background {
                Some(b) => Some(b@),
                None => None,
            },
        ),
{
    proof {
        reveal_strlit("color='");
        reveal_strlit("background='");
        reveal_strlit("'");
        reveal_strlit(" ");
        reveal_strlit("<span ");
        reveal_strlit(">");
        reveal_strlit("</span>");
    }
    if color.is_none() && background.is_none() {
        let mut out = String::new();
        out.append(text);
        assert(out@ =~= text@);
        return out;
    }
    let mut out = String::new();
    out.append("<span ");
    match color {
        Some(c) => {
            out.append("color='");
            out.append(c);
            out.append("'");
        },
        None => {},
    }
    if color.is_some() && background.is_some() {
        out.append(" ");
    }
    match background {
        Some(b) => {
            out.append("background='");
            out.append(b);
            out.append("'");
        },
        None => {},
    }
    out.append(">");
    out.append(text);
    out.append("</span>");
    assert(out@ =~= spec_pangofy(
        text@,
        match color {
            Some(c) => Some(c@),
            None => None,
        },
        match background {
            Some(b) => Some(b@),
            None => None,
        },
    ));
    out
}

/// `text` wrapped in a span tag that sets only the foreground color.
pub fn color(text: &str, col: &str) -> (r: String)
    ensures
        r@ == spec_pangofy(text@, Some(col@), None),
{
    pangofy(text, Some(col), None)
}

/// The usage color for a whole-percent value: the palette steps at 20, 40,
/// 60 and 80 percent.
pub fn pct_color(pct: u64) -> (r: &'static str)
    ensures
        pct < 20 ==> r@ == crate::colors::CYAN@,
        20 <= pct < 40 ==> r@ == crate::colors::GREEN@,
        40 <= pct < 60 ==> r@ == crate::colors::YELLOW@,
        60 <= pct < 80 ==> r@ == crate::colors::ORANGE@,
        80 <= pct ==> r@ == crate::colors::RED@,
{
    if pct < 20 {
        crate::colors::CYAN
    } else if pct < 40 {
        crate::colors::GREEN
    } else if pct < 60 {
        crate::colors::YELLOW
    } else if pct < 80 {
        crate::colors::ORANGE
    } else {
        crate::colors::RED
    }
}

} // verus!
