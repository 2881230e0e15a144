//! Small verified helpers for building and inspecting strings.
use vstd::prelude::*;
use vstd::string::StringExecFns;

verus! {

/// Relies on `String::push`: appends the given character to the end of the
/// string, leaving the characters before it unchanged.
#[verifier::external_body]
pub fn push_char(s: &mut String, c: char)
    ensures
        final(s)@ == old(s)@.push(c),
{
    s.push(c);
}

/// The decimal digit character for a value below ten.
pub open spec fn digit_char(d: int) -> char {
    if d == 0 {
        '0'
    } else if d == 1 {
        '1'
    } else if d == 2 {
        '2'
    } else if d == 3 {
        '3'
    } else if d == 4 {
        '4'
    } else if d == 5 {
        '5'
    } else if d == 6 {
        '6'
    } else if d == 7 {
        '7'
    } else if d == 8 {
        '8'
    } else {
        '9'
    }
}

/// The decimal rendering of a natural number, most significant digit first.
pub open spec fn spec_decimal(n: int) -> Seq<char>
    decreases n,
{
    if n < 10 {
        seq![digit_char(n)]
    } else {
        spec_decimal(n / 10).push(digit_char(n % 10))
    }
}

fn digit_to_char(d: u64) -> (c: char)
    requires
        d < 10,
    ensures
        c == digit_char(d as int),
{
    if d == 0 {
        '0'
    } else if d == 1 {
        '1'
    } else if d == 2 {
        '2'
    } else if d == 3 {
        '3'
    } else if d == 4 {
        '4'
    } else if d == 5 {
        '5'
    } else if d == 6 {
        '6'
    } else if d == 7 {
        '7'
    } else if d == 8 {
        '8'
    } else {
        '9'
    }
}

/// Appends the decimal rendering of `n` to `out`.
pub fn push_decimal(out: &mut String, n: u64)
    ensures
        final(out)@ == old(out)@ + spec_decimal(n as int),
    decreases n,
{
    if n < 10 {
        let c = digit_to_char(n);
        push_char(out, c);
        assert(final(out)@ =~= old(out)@ + spec_decimal(n as int));
    } else {
        push_decimal(out, n / 10);
        let c = digit_to_char(n % 10);
        push_char(out, c);
        assert(final(out)@ =~= old(out)@ + spec_decimal(n as int));
    }
}

/// The decimal rendering of `n` as a fresh string.
pub fn decimal_string(n: u64) -> (r: String)
    ensures
        r@ == spec_decimal(n as int),
{
    let mut out = String::new();
    push_decimal(&mut out, n);
    assert(out@ =~= spec_decimal(n as int));
    out
}

/// A sequence of `n` copies of one character.
pub open spec fn repeat_char(c: char, n: int) -> Seq<char> {
    Seq::new(n as nat, |i: int| c)
}

/// Appends `n` spaces to `out`.
pub fn push_spaces(out: &mut String, n: usize)
    ensures
        final(out)@ == old(out)@ + repeat_char(' ', n as int),
{
    let mut i: usize = 0;
    while i < n
        invariant
            i <= n,
            out@ == old(out)@ + repeat_char(' ', i as int),
        decreases n - i,
    {
        push_char(out, ' ');
        assert(out@ =~= old(out)@ + repeat_char(' ', (i + 1) as int));
        i = i + 1;
    }
    assert(final(out)@ =~= old(out)@ + repeat_char(' ', n as int));
}

/// A character with ASCII uppercase letters mapped to lowercase.
pub open spec fn lower_char(c: char) -> char {
    if 'A' <= c <= 'Z' {
        ((c as u8) + 32) as char
    } else {
        c
    }
}

/// The text with every ASCII uppercase letter lowercased.
pub open spec fn spec_lower(s: Seq<char>) -> Seq<char> {
    Seq::new(s.len(), |i: int| lower_char(s[i]))
}

/// Lowercases the ASCII uppercase letters of `s`, leaving every other
/// character unchanged.
pub fn ascii_lower(s: &str) -> (r: String)
    ensures
        r@ == spec_lower(s@),
{
    let n = s.unicode_len();
    let mut out = String::new();
    let mut i: usize = 0;
    while i < n
        invariant
            i <= n,
            n == s@.len(),
            out@ =~= spec_lower(s@).subrange(0, i as int),
        decreases n - i,
    {
        let c = s.get_char(i);
        let lc: char = if 'A' <= c && c <= 'Z' {
            assert('A' as u8 <= c as u8 <= 'Z' as u8);
            ((c as u8) + 32) as char
        } else {
            c
        };
        assert(lc == lower_char(s@[i as int]));
        push_char(&mut out, lc);
        assert(out@ =~= spec_lower(s@).subrange(0, i + 1 as int));
        i = i + 1;
    }
    assert(spec_lower(s@).subrange(0, n as int) =~= spec_lower(s@));
    out
}

/// The first `n` characters of a text, or all of it when it is shorter.
pub open spec fn spec_truncate(s: Seq<char>, n: int) -> Seq<char> {
    if s.len() <= n {
        s
    } else {
        s.subrange(0, n)
    }
}

/// Truncates `s` to at most `n` characters.
pub fn truncate_chars(s: &str, n: usize) -> (r: String)
    ensures
        r@ == spec_truncate(s@, n as int),
{
    let len = s.unicode_len();
    if len <= n {
        let mut out = String::new();
        out.append(s);
        assert(out@ =~= s@);
        out
    } else {
        let cut = s.substring_char(0, n);
        let mut out = String::new();
        out.append(cut);
        assert(out@ =~= spec_truncate(s@, n as int));
        out
    }
}

/// Whether `sub` occurs as a contiguous run inside `s`.
pub open spec fn spec_contains(s: Seq<char>, sub: Seq<char>) -> bool {
    exists|i: int|
        0 <= i <= s.len() - sub.len() && #[trigger] s.subrange(i, i + sub.len() as int) == sub
}

/// Whether `sub` occurs anywhere inside `s`.
pub fn contains_substr(s: &str, sub: &str) -> (r: bool)
    ensures
        r == spec_contains(s@, sub@),
{
    let n = s.unicode_len();
    let m = sub.unicode_len();
    if m > n {
        assert(!spec_contains(s@, sub@));
        return false;
    }
    if m == 0 {
        assert(s@.subrange(0, 0 + sub@.len() as int) =~= sub@);
        assert(spec_contains(s@, sub@));
        return true;
    }
    let mut i: usize = 0;
    while i <= n - m
        invariant
            0 < m <= n,
            n == s@.len(),
            m == sub@.len(),
            i <= n - m + 1,
            forall|k: int| 0 <= k < i ==> !(#[trigger] s@.subrange(k, k + m as int) == sub@),
        decreases n - i,
    {
        let mut j: usize = 0;
        let mut more: usize = 1;
        while j < m && more == 1
            invariant
                i + m <= n,
                n == s@.len(),
                m == sub@.len(),
                j <= m,
                more <= 1,
                more == 1 ==> forall|t: int| 0 <= t < j ==> s@[i + t] == sub@[t],
                more == 0 ==> exists|t: int| 0 <= t < m && s@[i + t] != #[trigger] sub@[t],
            decreases m - j, more,
        {
            if s.get_char(i + j) != sub.get_char(j) {
                assert(s@[i + j as int] != sub@[j as int]);
                more = 0;
            } else {
                j = j + 1;
            }
        }
        let matched = more == 1;
        if matched {
            assert forall|t: int| 0 <= t < m implies s@.subrange(i as int, i + m as int)[t]
                == sub@[t] by {
                assert(s@[i + t] == sub@[t]);
            }
            assert(s@.subrange(i as int, i + m as int) =~= sub@);
            assert(spec_contains(s@, sub@));
            return true;
        }
        assert(!(s@.subrange(i as int, i + m as int) == sub@)) by {
            let t = choose|t: int| 0 <= t < m && s@[i + t] != #[trigger] sub@[t];
            assert(s@.subrange(i as int, i + m as int)[t] == s@[i + t]);
        }
        i = i + 1;
    }
    assert(!spec_contains(s@, sub@));
    return false;
}

/// Whether two string slices hold the same characters.
pub fn str_eq(a: &str, b: &str) -> (r: bool)
    ensures
        r == (a@ == b@),
{
    let alen = a.unicode_len();
    let blen = b.unicode_len();
    if alen != blen {
        assert(a@ != b@) by {
            assert(a@.len() != b@.len());
        }
        return false;
    }
    let mut i: usize = 0;
    while i < alen
        invariant
            i <= alen,
            alen == a@.len(),
            alen == b@.len(),
            forall|j: int| 0 <= j < i ==> a@[j] == b@[j],
        decreases alen - i,
    {
        if a.get_char(i) != b.get_char(i) {
            return false;
        }
        i = i + 1;
    }
    assert(a@ =~= b@);
    true
}

/// Whether a character counts as line-edge whitespace.
pub open spec fn is_ws(c: char) -> bool {
    c == ' ' || c == '\t' || c == '\r' || c == '\n'
}

pub fn is_ws_ex(c: char) -> (r: bool)
    ensures
        r == is_ws(c),
{
    c == ' ' || c == '\t' || c == '\r' || c == '\n'
}

/// The sequence with `c` removed from the front.
pub open spec fn trim_leading(s: Seq<char>, c: char) -> Seq<char>
    decreases s.len(),
{
    if s.len() > 0 && s[0] == c {
        trim_leading(s.drop_first(), c)
    } else {
        s
    }
}

/// The sequence with `c` removed from the back.
pub open spec fn trim_trailing(s: Seq<char>, c: char) -> Seq<char>
    decreases s.len(),
{
    if s.len() > 0 && s.last() == c {
        trim_trailing(s.drop_last(), c)
    } else {
        s
    }
}

/// The sequence with whitespace removed from both ends.
pub open spec fn trim_ws(s: Seq<char>) -> Seq<char>
    decreases s.len(),
{
    if s.len() > 0 && is_ws(s[0]) {
        trim_ws(s.drop_first())
    } else if s.len() > 0 && is_ws(s.last()) {
        trim_ws(s.drop_last())
    } else {
        s
    }
}


/// The character a byte stands for, one for one.
pub open spec fn byte_char(b: u8) -> char {
    b as char
}

/// The characters a byte sequence stands for, byte by byte.
pub open spec fn spec_chars_of(bytes: Seq<u8>) -> Seq<char> {
    Seq::new(bytes.len(), |i: int| byte_char(bytes[i]))
}

/// Decodes a byte buffer character by character, each byte standing for the
/// character with its code.
pub fn bytes_to_string(bytes: &Vec<u8>) -> (r: String)
    ensures
        r@ == spec_chars_of(bytes@),
{
    let n = bytes.len();
    let mut out = String::new();
    let mut i: usize = 0;
    while i < n
        invariant
            i <= n,
            n == bytes@.len(),
            out@ =~= spec_chars_of(bytes@).subrange(0, i as int),
        decreases n - i,
    {
        let c = bytes[i] as char;
        push_char(&mut out, c);
        assert(out@ =~= spec_chars_of(bytes@).subrange(0, i + 1 as int));
        i = i + 1;
    }
    assert(spec_chars_of(bytes@).subrange(0, n as int) =~= spec_chars_of(bytes@));
    out
}

/// Whether a character is a decimal digit.
pub open spec fn is_digit(c: char) -> bool {
    '0' <= c <= '9'
}

/// The numeric value of a digit character.
pub open spec fn digit_val(c: char) -> int {
    c as int - '0' as int
}

/// The value of a digit string, most significant digit first.
pub open spec fn spec_digits_val(s: Seq<char>) -> int
    decreases s.len(),
{
    if s.len() == 0 {
        0
    } else {
        spec_digits_val(s.drop_last()) * 10 + digit_val(s.last())
    }
}

/// Whether a text is one or more decimal digits.
pub open spec fn all_digits(s: Seq<char>) -> bool {
    s.len() > 0 && forall|i: int| 0 <= i < s.len() ==> is_digit(#[trigger] s[i])
}

/// Parses a decimal number: the token's value when it is all digits and
/// fits in 64 bits, and nothing otherwise.
pub fn parse_u64(s: &str) -> (r: Option<u64>)
    ensures
        match r {
            Some(v) => all_digits(s@) && v == spec_digits_val(s@) && spec_digits_val(s@)
                <= u64::MAX,
            None => !all_digits(s@) || spec_digits_val(s@) > u64::MAX,
        },
{
    let n = s.unicode_len();
    if n == 0 {
        return None;
    }
    let mut acc: u64 = 0;
    let mut i: usize = 0;
    while i < n
        invariant
            i <= n,
            n == s@.len(),
            n > 0,
            forall|j: int| 0 <= j < i ==> is_digit(#[trigger] s@[j]),
            acc == spec_digits_val(s@.subrange(0, i as int)),
            spec_digits_val(s@.subrange(0, i as int)) <= u64::MAX,
        decreases n - i,
    {
        let c = s.get_char(i);
        if !('0' <= c && c <= '9') {
            assert(!all_digits(s@));
            return None;
        }
        let d: u64 = ((c as u8) - 48) as u64;
        assert(d == digit_val(s@[i as int]) && d <= 9);
        if acc > (u64::MAX - d) / 10 {
            proof {
                let cur = s@.subrange(0, i + 1 as int);
                assert(cur.drop_last() =~= s@.subrange(0, i as int));
                assert(cur.last() == s@[i as int]);
                assert(spec_digits_val(cur) > u64::MAX);
                if all_digits(s@) {
                    lemma_digits_val_grows(s@, i + 1 as int);
                }
            }
            return None;
        }
        acc = acc * 10 + d;
        proof {
            let cur = s@.subrange(0, i + 1 as int);
            assert(cur.drop_last() =~= s@.subrange(0, i as int));
            assert(cur.last() == s@[i as int]);
        }
        i = i + 1;
    }
    assert(s@.subrange(0, n as int) =~= s@);
    Some(acc)
}

/// A longer digit prefix never has a smaller value.
proof fn lemma_digits_val_grows(s: Seq<char>, k: int)
    requires
        0 < k <= s.len(),
        forall|j: int| 0 <= j < s.len() ==> is_digit(#[trigger] s[j]),
    ensures
        spec_digits_val(s.subrange(0, k)) <= spec_digits_val(s),
    decreases s.len() - k,
{
    if k == s.len() {
        assert(s.subrange(0, k) =~= s);
    } else {
        lemma_digits_val_grows(s, k + 1);
        let pre = s.subrange(0, k);
        let cur = s.subrange(0, k + 1);
        assert(cur.drop_last() =~= pre);
        assert(cur.last() == s[k]);
        lemma_digits_val_nonneg(pre);
        assert(digit_val(s[k]) >= 0);
        assert(spec_digits_val(cur) >= spec_digits_val(pre));
    }
}

/// A digit string's value is never negative.
proof fn lemma_digits_val_nonneg(s: Seq<char>)
    requires
        forall|i: int| 0 <= i < s.len() ==> is_digit(#[trigger] s[i]),
    ensures
        spec_digits_val(s) >= 0,
    decreases s.len(),
{
    if s.len() > 0 {
        lemma_digits_val_nonneg(s.drop_last());
    }
}

/// The first index at or past `from` holding `c`, or the length.
pub open spec fn spec_find_char(s: Seq<char>, c: char, from: int) -> int
    decreases s.len() - from,
{
    if from < 0 || from >= s.len() {
        s.len() as int
    } else if s[from] == c {
        from
    } else {
        spec_find_char(s, c, from + 1)
    }
}

/// The scan stays between its start and the end of the text.
pub proof fn lemma_find_char_bounds(s: Seq<char>, c: char, from: int)
    requires
        0 <= from <= s.len(),
    ensures
        from <= spec_find_char(s, c, from) <= s.len(),
    decreases s.len() - from,
{
    if from < s.len() && s[from] != c {
        lemma_find_char_bounds(s, c, from + 1);
    }
}

/// Scans for the first occurrence of `c` at or past `from`.
pub fn find_char(s: &str, c: char, from: usize) -> (r: usize)
    requires
        from <= s@.len(),
    ensures
        r == spec_find_char(s@, c, from as int),
        from <= r <= s@.len(),
        r < s@.len() ==> s@[r as int] == c,
        forall|j: int| from <= j < r ==> s@[j] != c,
    decreases s@.len() - from,
{
    let n = s.unicode_len();
    let mut i: usize = from;
    while i < n
        invariant
            from <= i <= n,
            n == s@.len(),
            spec_find_char(s@, c, from as int) == spec_find_char(s@, c, i as int),
            forall|j: int| from <= j < i ==> s@[j] != c,
        decreases n - i,
    {
        if s.get_char(i) == c {
            return i;
        }
        i = i + 1;
    }
    n
}

/// Trims line-edge whitespace from both ends.
pub fn trim_str(s: &str) -> (r: String)
    ensures
        r@ == trim_ws(s@),
{
    let n = s.unicode_len();
    let mut lo: usize = 0;
    let mut hi: usize = n;
    assert(s@.subrange(0, n as int) =~= s@);
    while lo < hi && is_ws_ex(s.get_char(lo))
        invariant
            lo <= hi <= n,
            n == s@.len(),
            trim_ws(s@) == trim_ws(s@.subrange(lo as int, hi as int)),
        decreases hi - lo,
    {
        proof {
            let cur = s@.subrange(lo as int, hi as int);
            assert(cur.drop_first() =~= s@.subrange(lo + 1 as int, hi as int));
        }
        lo = lo + 1;
    }
    while lo < hi && is_ws_ex(s.get_char(hi - 1))
        invariant
            lo <= hi <= n,
            n == s@.len(),
            trim_ws(s@) == trim_ws(s@.subrange(lo as int, hi as int)),
            lo < hi ==> !is_ws(s@[lo as int]),
        decreases hi - lo,
    {
        proof {
            let cur = s@.subrange(lo as int, hi as int);
            assert(cur.drop_last() =~= s@.subrange(lo as int, hi - 1 as int));
        }
        hi = hi - 1;
    }
    proof {
        let cur = s@.subrange(lo as int, hi as int);
        assert(trim_ws(cur) == cur);
    }
    let body = s.substring_char(lo, hi);
    let mut out = String::new();
    out.append(body);
    assert(out@ =~= s@.subrange(lo as int, hi as int));
    out
}

/// Whether `p` is a prefix of `s`.
pub open spec fn is_prefix(p: Seq<char>, s: Seq<char>) -> bool {
    p.len() <= s.len() && s.take(p.len() as int) == p
}

/// The text behind the prefix when it starts with it, and nothing
/// otherwise.
pub fn strip_prefix_str(s: &str, p: &str) -> (r: Option<String>)
    ensures
        match r {
            Some(rest) => is_prefix(p@, s@) && rest@ == s@.skip(p@.len() as int),
            None => !is_prefix(p@, s@),
        },
{
    let n = s.unicode_len();
    let m = p.unicode_len();
    if m > n {
        assert(!is_prefix(p@, s@));
        return None;
    }
    let mut i: usize = 0;
    while i < m
        invariant
            i <= m <= n,
            n == s@.len(),
            m == p@.len(),
            forall|j: int| 0 <= j < i ==> s@[j] == p@[j],
        decreases m - i,
    {
        if s.get_char(i) != p.get_char(i) {
            assert(s@.take(m as int)[i as int] != p@[i as int]);
            assert(!is_prefix(p@, s@));
            return None;
        }
        i = i + 1;
    }
    assert(s@.take(m as int) =~= p@);
    let body = s.substring_char(m, n);
    let mut out = String::new();
    out.append(body);
    assert(out@ =~= s@.skip(m as int));
    Some(out)
}

} // verus!
