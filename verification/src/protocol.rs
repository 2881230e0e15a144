//! The line protocol spoken to the status-bar host: output chunks, their
//! JSON rendering, and the cleaning of incoming click lines.
use vstd::prelude::*;
use vstd::string::StringExecFns;
use crate::strutil::{is_ws, is_ws_ex, push_char, push_decimal, push_spaces, repeat_char, spec_decimal, trim_leading, trim_trailing, trim_ws};

verus! {

/// One display entry of the output protocol.
#[derive(Debug)]
pub struct OutputChunk {
    pub full_text: String,
    pub name: String,
    pub markup: String,
    pub border: String,
    pub separator: String,
    pub separator_block_width: i32,
    pub background: Option<String>,
    pub color: Option<String>,
}

/// The mathematical value of an output chunk.
pub struct ChunkV {
    pub full_text: Seq<char>,
    pub name: Seq<char>,
    pub markup: Seq<char>,
    pub border: Seq<char>,
    pub separator: Seq<char>,
    pub separator_block_width: int,
    pub background: Option<Seq<char>>,
    pub color: Option<Seq<char>>,
}

impl View for OutputChunk {
    type V = ChunkV;

    open spec fn view(&self) -> ChunkV {
        ChunkV {
            full_text: self.full_text@,
            name: self.name@,
            markup: self.markup@,
            border: self.border@,
            separator: self.separator@,
            separator_block_width: self.separator_block_width as int,
            background: match &self.background {
                Some(b) => Some(b@),
                None => None,
            },
            color: match &self.color {
                Some(c) => Some(c@),
                None => None,
            },
        }
    }
}

impl Clone for OutputChunk {
    /// The clone denotes the same chunk.
    fn clone(&self) -> (r: Self)
        ensures
            r@ == self@,
    {
        let r = OutputChunk {
            full_text: self.full_text.clone(),
            name: self.name.clone(),
            markup: self.markup.clone(),
            border: self.border.clone(),
            separator: self.separator.clone(),
            separator_block_width: self.separator_block_width,
            background: match &self.background {
                Some(b) => Some(b.clone()),
                None => None,
            },
            color: match &self.color {
                Some(c) => Some(c.clone()),
                None => None,
            },
        };
        assert(r@ == self@);
        r
    }
}

impl OutputChunk {
    /// A chunk for `name` holding `text`, with the default pango markup
    /// mode, border color, and separator settings.
    pub fn new(name: &str, text: String) -> (c: OutputChunk)
        ensures
            c@.full_text == text@,
            c@.name == name@,
            c@.markup == "pango"@,
            c@.border == crate::colors::DARK_GREY@,
            c@.separator == "false"@,
            c@.separator_block_width == 0,
            c@.background is None,
            c@.color is None,
    {
        let mut n = String::new();
        n.append(name);
        let mut markup = String::new();
        markup.append("pango");
        let mut border = String::new();
        border.append(crate::colors::DARK_GREY);
        let mut separator = String::new();
        separator.append("false");
        OutputChunk {
            full_text: text,
            name: n,
            markup,
            border,
            separator,
            separator_block_width: 0,
            background: None,
            color: None,
        }
    }
}

/// A chunk for `name` whose text is `text` padded with `padding` spaces on
/// both sides (no padding when `padding` is negative).
pub open spec fn spec_padded(text: Seq<char>, padding: int) -> Seq<char> {
    let pad = repeat_char(' ', if padding >= 0 {
        padding
    } else {
        0
    });
    pad + text + pad
}

/// Builds the protocol chunk for one unit: its text padded on both sides.
pub fn process_chunk(name: &str, text: String, padding: i32) -> (c: OutputChunk)
    ensures
        c@.full_text == spec_padded(text@, padding as int),
        c@.name == name@,
        c@.markup == "pango"@,
        c@.border == crate::colors::DARK_GREY@,
        c@.separator == "false"@,
        c@.separator_block_width == 0,
        c@.background is None,
        c@.color is None,
{
    let pad: usize = if padding >= 0 {
        padding as usize
    } else {
        0
    };
    let mut full = String::new();
    push_spaces(&mut full, pad);
    full.append(text.as_str());
    push_spaces(&mut full, pad);
    assert(full@ =~= spec_padded(text@, padding as int));
    OutputChunk::new(name, full)
}

/// The JSON escape of one character.
pub open spec fn json_escape_char(c: char) -> Seq<char> {
    if c == '"' {
        seq!['\\', '"']
    } else if c == '\\' {
        seq!['\\', '\\']
    } else if c == '\n' {
        seq!['\\', 'n']
    } else if c == '\t' {
        seq!['\\', 't']
    } else if c == '\r' {
        seq!['\\', 'r']
    } else if (c as int) < 32 {
        seq!['\\', 'u', '0', '0', crate::render::color::hex_digit(c as int / 16),
            crate::render::color::hex_digit(c as int % 16)]
    } else {
        seq![c]
    }
}

/// The body of a JSON string: every character escaped.
pub open spec fn spec_json_escape(s: Seq<char>) -> Seq<char>
    decreases s.len(),
{
    if s.len() == 0 {
        Seq::empty()
    } else {
        spec_json_escape(s.drop_last()) + json_escape_char(s.last())
    }
}

/// A JSON string literal: the escaped body in double quotes.
pub open spec fn spec_json_string(s: Seq<char>) -> Seq<char> {
    seq!['"'] + spec_json_escape(s) + seq!['"']
}

/// The decimal rendering of a (possibly negative) integer.
pub open spec fn spec_int(n: int) -> Seq<char> {
    if n >= 0 {
        spec_decimal(n)
    } else {
        seq!['-'] + spec_decimal(-n)
    }
}

/// The JSON object for one chunk, fields in protocol order; `background`
/// and `color` appear only when set.
pub open spec fn spec_chunk_json(c: ChunkV) -> Seq<char> {
    let head = seq!['{'] + spec_json_string("full_text"@) + seq![':'] + spec_json_string(
        c.full_text,
    ) + seq![','] + spec_json_string("name"@) + seq![':'] + spec_json_string(c.name) + seq![',']
        + spec_json_string("markup"@) + seq![':'] + spec_json_string(c.markup) + seq![',']
        + spec_json_string("border"@) + seq![':'] + spec_json_string(c.border) + seq![',']
        + spec_json_string("separator"@) + seq![':'] + spec_json_string(c.separator) + seq![',']
        + spec_json_string("separator_block_width"@) + seq![':'] + spec_int(
        c.separator_block_width,
    );
    let bg = match c.background {
        Some(b) => seq![','] + spec_json_string("background"@) + seq![':'] + spec_json_string(b),
        None => Seq::<char>::empty(),
    };
    let col = match c.color {
        Some(cl) => seq![','] + spec_json_string("color"@) + seq![':'] + spec_json_string(cl),
        None => Seq::<char>::empty(),
    };
    head + bg + col + seq!['}']
}

/// Appends the escaped body of a JSON string.
fn push_json_escaped(out: &mut String, s: &str)
    ensures
        final(out)@ == old(out)@ + spec_json_escape(s@),
{
    let n = s.unicode_len();
    let mut i: usize = 0;
    while i < n
        invariant
            i <= n,
            n == s@.len(),
            out@ == old(out)@ + spec_json_escape(s@.subrange(0, i as int)),
        decreases n - i,
    {
        let c = s.get_char(i);
        if c == '"' {
            push_char(out, '\\');
            push_char(out, '"');
        } else if c == '\\' {
            push_char(out, '\\');
            push_char(out, '\\');
        } else if c == '\n' {
            push_char(out, '\\');
            push_char(out, 'n');
        } else if c == '\t' {
            push_char(out, '\\');
            push_char(out, 't');
        } else if c == '\r' {
            push_char(out, '\\');
            push_char(out, 'r');
        } else if (c as u32) < 32 {
            push_char(out, '\\');
            push_char(out, 'u');
            push_char(out, '0');
            push_char(out, '0');
            let lo = (c as u32) as u8;
            push_char(out, hex_digit_ex(lo / 16));
            push_char(out, hex_digit_ex(lo % 16));
        } else {
            push_char(out, c);
        }
        proof {
            let pre = s@.subrange(0, i as int);
            let cur = s@.subrange(0, i + 1 as int);
            assert(cur.drop_last() =~= pre);
            assert(cur.last() == s@[i as int]);
            assert(out@ =~= old(out)@ + spec_json_escape(cur));
        }
        i = i + 1;
    }
    assert(s@.subrange(0, n as int) =~= s@);
}

fn hex_digit_ex(d: u8) -> (c: char)
    requires
        d < 16,
    ensures
        c == crate::render::color::hex_digit(d as int),
{
    if d == 0 {
        '0'
    } else if d == 1 {
        '1'
    } else if d == 2 {
        '2'
    } else if d == 3 {
        '3'
    } else if d == 4 {
        '4'
    } else if d == 5 {
        '5'
    } else if d == 6 {
        '6'
    } else if d == 7 {
        '7'
    } else if d == 8 {
        '8'
    } else if d == 9 {
        '9'
    } else if d == 10 {
        'A'
    } else if d == 11 {
        'B'
    } else if d == 12 {
        'C'
    } else if d == 13 {
        'D'
    } else if d == 14 {
        'E'
    } else {
        'F'
    }
}

/// Appends a complete JSON string literal.
fn push_json_string(out: &mut String, s: &str)
    ensures
        final(out)@ == old(out)@ + spec_json_string(s@),
{
    push_char(out, '"');
    push_json_escaped(out, s);
    push_char(out, '"');
    assert(final(out)@ =~= old(out)@ + spec_json_string(s@));
}

/// Appends the decimal rendering of a signed integer.
fn push_int(out: &mut String, n: i32)
    ensures
        final(out)@ == old(out)@ + spec_int(n as int),
{
    if n >= 0 {
        push_decimal(out, n as u64);
    } else {
        push_char(out, '-');
        let m: u64 = (-(n as i64)) as u64;
        assert(m == -(n as int));
        push_decimal(out, m);
        assert(final(out)@ =~= old(out)@ + spec_int(n as int));
    }
}

/// Renders one chunk as the JSON object of the output protocol.
#[verifier::rlimit(100)]
pub fn chunk_to_json(c: &OutputChunk) -> (r: String)
    ensures
        r@ == spec_chunk_json(c@),
{
    let mut out = String::new();
    push_char(&mut out, '{');
    push_json_string(&mut out, "full_text");
    push_char(&mut out, ':');
    push_json_string(&mut out, c.full_text.as_str());
    push_char(&mut out, ',');
    push_json_string(&mut out, "name");
    push_char(&mut out, ':');
    push_json_string(&mut out, c.name.as_str());
    push_char(&mut out, ',');
    push_json_string(&mut out, "markup");
    push_char(&mut out, ':');
    push_json_string(&mut out, c.markup.as_str());
    push_char(&mut out, ',');
    push_json_string(&mut out, "border");
    push_char(&mut out, ':');
    push_json_string(&mut out, c.border.as_str());
    push_char(&mut out, ',');
    push_json_string(&mut out, "separator");
    push_char(&mut out, ':');
    push_json_string(&mut out, c.separator.as_str());
    push_char(&mut out, ',');
    push_json_string(&mut out, "separator_block_width");
    push_char(&mut out, ':');
    push_int(&mut out, c.separator_block_width);
    match &c.background {
        Some(b) => {
            push_char(&mut out, ',');
            push_json_string(&mut out, "background");
            push_char(&mut out, ':');
            push_json_string(&mut out, b.as_str());
        },
        None => {},
    }
    match &c.color {
        Some(cl) => {
            push_char(&mut out, ',');
            push_json_string(&mut out, "color");
            push_char(&mut out, ':');
            push_json_string(&mut out, cl.as_str());
        },
        None => {},
    }
    push_char(&mut out, '}');
    assert(out@ =~= spec_chunk_json(c@));
    out
}

/// One click event routed back from the host.
#[derive(Debug, Clone)]
pub struct ClickEvent {
    pub name: String,
    pub instance: Option<String>,
    pub button: i32,
    pub modifiers: Vec<String>,
    pub x: i32,
    pub y: i32,
    pub relative_x: i32,
    pub relative_y: i32,
    pub width: i32,
    pub height: i32,
}

/// What cleaning an incoming click line yields: the line with whitespace
/// trimmed from both ends, then trailing and leading commas removed; `None`
/// when nothing but whitespace remains.
pub open spec fn spec_clean_click_line(s: Seq<char>) -> Option<Seq<char>> {
    let t = trim_ws(s);
    if t.len() == 0 {
        None
    } else {
        Some(trim_leading(trim_trailing(t, ','), ','))
    }
}

/// Cleans one raw line of the click-input stream: trims whitespace, strips
/// the protocol's leading and trailing commas, and drops blank lines.
pub fn clean_click_line(line: &str) -> (r: Option<String>)
    ensures
        match r {
            Some(s) => spec_clean_click_line(line@) == Some(s@),
            None => spec_clean_click_line(line@) is None,
        },
{
    let n = line.unicode_len();
    let mut lo: usize = 0;
    let mut hi: usize = n;
    assert(line@.subrange(0, n as int) =~= line@);
    // Trim whitespace from the front, then from the back.
    while lo < hi && is_ws_ex(line.get_char(lo))
        invariant
            lo <= hi <= n,
            n == line@.len(),
            trim_ws(line@) == trim_ws(line@.subrange(lo as int, hi as int)),
        decreases hi - lo,
    {
        proof {
            let cur = line@.subrange(lo as int, hi as int);
            assert(cur.drop_first() =~= line@.subrange(lo + 1 as int, hi as int));
        }
        lo = lo + 1;
    }
    while lo < hi && is_ws_ex(line.get_char(hi - 1))
        invariant
            lo <= hi <= n,
            n == line@.len(),
            trim_ws(line@) == trim_ws(line@.subrange(lo as int, hi as int)),
            lo < hi ==> !is_ws(line@[lo as int]),
        decreases hi - lo,
    {
        proof {
            let cur = line@.subrange(lo as int, hi as int);
            assert(cur.drop_last() =~= line@.subrange(lo as int, hi - 1 as int));
        }
        hi = hi - 1;
    }
    proof {
        let cur = line@.subrange(lo as int, hi as int);
        assert(trim_ws(cur) == cur);
    }
    if lo == hi {
        assert(line@.subrange(lo as int, hi as int).len() == 0);
        return None;
    }
    // Strip trailing commas, then leading commas.
    while lo < hi && line.get_char(hi - 1) == ','
        invariant
            lo <= hi <= n,
            n == line@.len(),
            trim_ws(line@).len() > 0,
            trim_trailing(trim_ws(line@), ',') == trim_trailing(
                line@.subrange(lo as int, hi as int),
                ',',
            ),
        decreases hi - lo,
    {
        proof {
            let cur = line@.subrange(lo as int, hi as int);
            assert(cur.drop_last() =~= line@.subrange(lo as int, hi - 1 as int));
        }
        hi = hi - 1;
    }
    while lo < hi && line.get_char(lo) == ','
        invariant
            lo <= hi <= n,
            n == line@.len(),
            trim_ws(line@).len() > 0,
            trim_leading(trim_trailing(trim_ws(line@), ','), ',') == trim_leading(
                line@.subrange(lo as int, hi as int),
                ',',
            ),
            lo < hi ==> line@[hi - 1] != ',',
        decreases hi - lo,
    {
        proof {
            let cur = line@.subrange(lo as int, hi as int);
            assert(cur.drop_first() =~= line@.subrange(lo + 1 as int, hi as int));
        }
        lo = lo + 1;
    }
    proof {
        let cur = line@.subrange(lo as int, hi as int);
        assert(trim_leading(cur, ',') == cur);
    }
    let body = line.substring_char(lo, hi);
    let mut out = String::new();
    out.append(body);
    assert(out@ =~= line@.subrange(lo as int, hi as int));
    Some(out)
}

} // verus!
