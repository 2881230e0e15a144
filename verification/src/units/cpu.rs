//! The CPU unit: parsing the kernel's aggregate CPU counters and rendering
//! the load percentage.
use vstd::prelude::*;
use vstd::string::StringExecFns;
use crate::machine::types::{Health, Render, UnitDecision};
use crate::render::markup::{Markup, SpanV, Style};
use crate::strutil::{all_digits, bytes_to_string, find_char, is_ws, push_decimal, spec_chars_of,
    spec_decimal, spec_digits_val, spec_find_char};

verus! {

/// The first whitespace at or past `from`, or the length.
pub open spec fn spec_find_ws(s: Seq<char>, from: int) -> int
    decreases s.len() - from,
{
    if from < 0 || from >= s.len() {
        s.len() as int
    } else if is_ws(s[from]) {
        from
    } else {
        spec_find_ws(s, from + 1)
    }
}

/// The whitespace scan stays between its start and the end of the text.
pub proof fn lemma_find_ws_bounds(s: Seq<char>, from: int)
    requires
        0 <= from <= s.len(),
    ensures
        from <= spec_find_ws(s, from) <= s.len(),
    decreases s.len() - from,
{
    if from < s.len() && !is_ws(s[from]) {
        lemma_find_ws_bounds(s, from + 1);
    }
}

/// The whitespace-separated tokens of a text, in order.
pub open spec fn spec_tokens(s: Seq<char>) -> Seq<Seq<char>>
    decreases s.len(),
    via spec_tokens_dec
{
    if s.len() == 0 {
        Seq::empty()
    } else if is_ws(s[0]) {
        spec_tokens(s.drop_first())
    } else {
        let e = spec_find_ws(s, 0);
        seq![s.take(e)] + spec_tokens(s.skip(e))
    }
}

#[via_fn]
proof fn spec_tokens_dec(s: Seq<char>) {
    if s.len() > 0 && !is_ws(s[0]) {
        lemma_find_ws_bounds(s, 1);
        assert(spec_find_ws(s, 0) == spec_find_ws(s, 1));
    }
}

/// Splits a text into its whitespace-separated tokens.
pub fn split_tokens(s: &str) -> (r: Vec<String>)
    ensures
        r.deep_view() == spec_tokens(s@),
    decreases s@.len(),
{
    let n = s.unicode_len();
    if n == 0 {
        let r: Vec<String> = Vec::new();
        assert(r.deep_view() =~= spec_tokens(s@));
        return r;
    }
    let c = s.get_char(0);
    if c == ' ' || c == '\t' || c == '\r' || c == '\n' {
        let rest = s.substring_char(1, n);
        assert(rest@ == s@.drop_first());
        return split_tokens(rest);
    }
    let e = find_ws(s, 0);
    proof {
        lemma_find_ws_bounds(s@, 1);
        assert(spec_find_ws(s@, 0) == spec_find_ws(s@, 1));
    }
    let tok = s.substring_char(0, e);
    let rest = s.substring_char(e, n);
    assert(rest@ == s@.skip(e as int));
    let mut tail = split_tokens(rest);
    let ghost tv = tok@;
    let ghost pre = tail.deep_view();
    let mut t = String::new();
    t.append(tok);
    tail.insert(0, t);
    proof {
        assert forall|j: int| 0 <= j < tail.deep_view().len() implies tail.deep_view()[j] == (seq![
            tv,
        ] + pre)[j] by {
            if j > 0 {
                assert(tail@[j] == tail@.subrange(1, tail@.len() as int)[j - 1]);
            }
        }
        assert(tail.deep_view() =~= seq![tv] + pre);
        assert(s@.take(e as int) == tv);
    }
    tail
}

/// Scans for the first whitespace at or past `from`.
fn find_ws(s: &str, from: usize) -> (r: usize)
    requires
        from <= s@.len(),
    ensures
        r == spec_find_ws(s@, from as int),
        from <= r <= s@.len(),
{
    let n = s.unicode_len();
    let mut i: usize = from;
    while i < n
        invariant
            from <= i <= n,
            n == s@.len(),
            spec_find_ws(s@, from as int) == spec_find_ws(s@, i as int),
        decreases n - i,
    {
        let c = s.get_char(i);
        if c == ' ' || c == '\t' || c == '\r' || c == '\n' {
            return i;
        }
        i = i + 1;
    }
    n
}

/// The values of the numeric tokens, in order; a token that is not a
/// number (or does not fit) is skipped, as the original counters parse
/// skips it.
pub open spec fn spec_nums(toks: Seq<Seq<char>>) -> Seq<int>
    decreases toks.len(),
{
    if toks.len() == 0 {
        Seq::empty()
    } else {
        spec_nums(toks.drop_last()) + (if all_digits(toks.last()) && spec_digits_val(toks.last())
            <= u64::MAX {
            seq![spec_digits_val(toks.last())]
        } else {
            Seq::<int>::empty()
        })
    }
}

/// The sum of a number sequence.
pub open spec fn spec_sum(nums: Seq<int>) -> int
    decreases nums.len(),
{
    if nums.len() == 0 {
        0int
    } else {
        spec_sum(nums.drop_last()) + nums.last()
    }
}

/// Every summed value is nonnegative here, so the sum dominates each element.
proof fn lemma_sum_nonneg(nums: Seq<int>)
    requires
        forall|i: int| 0 <= i < nums.len() ==> nums[i] >= 0,
    ensures
        spec_sum(nums) >= 0,
        forall|i: int| 0 <= i < nums.len() ==> nums[i] <= spec_sum(nums),
    decreases nums.len(),
{
    if nums.len() > 0 {
        lemma_sum_nonneg(nums.drop_last());
        assert forall|i: int| 0 <= i < nums.len() implies nums[i] <= spec_sum(nums) by {
            if i < nums.len() - 1 {
                assert(nums.drop_last()[i] == nums[i]);
            }
        }
    }
}

/// Numeric values are never negative.
proof fn lemma_nums_nonneg(toks: Seq<Seq<char>>)
    ensures
        forall|i: int| 0 <= i < spec_nums(toks).len() ==> #[trigger] spec_nums(toks)[i] >= 0,
    decreases toks.len(),
{
    if toks.len() > 0 {
        lemma_nums_nonneg(toks.drop_last());
        let front = spec_nums(toks.drop_last());
        if all_digits(toks.last()) && spec_digits_val(toks.last()) <= u64::MAX {
            lemma_digits_nonneg(toks.last());
        }
        assert forall|i: int| 0 <= i < spec_nums(toks).len() implies #[trigger] spec_nums(toks)[i]
            >= 0 by {
            if i < front.len() {
                assert(spec_nums(toks)[i] == front[i]);
            }
        }
    }
}

/// A digit string's value is never negative.
proof fn lemma_digits_nonneg(s: Seq<char>)
    requires
        forall|i: int| 0 <= i < s.len() ==> crate::strutil::is_digit(#[trigger] s[i]),
    ensures
        spec_digits_val(s) >= 0,
    decreases s.len(),
{
    if s.len() > 0 {
        lemma_digits_nonneg(s.drop_last());
    }
}

/// What the first line of the CPU counters file denotes: the total of all
/// numeric fields, the user share (user plus nice), and the kernel share,
/// provided at least four numeric fields follow the label.
pub open spec fn spec_cpu_parse(s: Seq<char>) -> Option<(int, int, int)> {
    let line = s.take(spec_find_char(s, '\n', 0));
    let toks = spec_tokens(line);
    if toks.len() < 1 {
        None
    } else {
        let nums = spec_nums(toks.drop_first());
        if nums.len() < 4 {
            None
        } else {
            Some((spec_sum(nums), nums[0] + nums[1], nums[2]))
        }
    }
}

/// Why the counters file could not be read into times.
#[derive(Debug, Clone, Copy, PartialEq, Eq, Structural)]
pub enum CpuParseError {
    /// Fewer than four numeric fields follow the label.
    Invalid,
    /// The counters no longer fit the arithmetic.
    Overflow,
}

/// Reads `(total, user, kernel)` times from the counters file: exactly the
/// values `spec_cpu_parse` gives, an `Invalid` error when it gives none,
/// and an `Overflow` error when the total exceeds the machine word.
pub fn read_cpu_times(bytes: &Vec<u8>) -> (r: Result<(u64, u64, u64), CpuParseError>)
    ensures
        match r {
            Ok((total, user, kernel)) => spec_cpu_parse(spec_chars_of(bytes@)) == Some(
                (total as int, user as int, kernel as int),
            ),
            Err(CpuParseError::Invalid) => spec_cpu_parse(spec_chars_of(bytes@)) is None,
            Err(CpuParseError::Overflow) => spec_cpu_parse(spec_chars_of(bytes@)) matches Some(t)
                && t.0 > u64::MAX,
        },
{
    let s = bytes_to_string(bytes);
    let n = s.as_str().unicode_len();
    let k = find_char(s.as_str(), '\n', 0);
    let line = s.as_str().substring_char(0, k);
    assert(line@ == spec_chars_of(bytes@).take(spec_find_char(spec_chars_of(bytes@), '\n', 0)));
    let toks = split_tokens(line);
    if toks.len() < 1 {
        return Err(CpuParseError::Invalid);
    }
    let ghost all_toks = toks.deep_view();
    let m = toks.len();
    let mut nums: Vec<u64> = Vec::new();
    let mut i: usize = 1;
    let ghost rest = all_toks.drop_first();
    proof {
        assert(rest.take(0).len() == 0);
        assert(spec_nums(rest.take(0)) =~= Seq::<int>::empty());
        assert(nums@.map_values(|v: u64| v as int) =~= spec_nums(rest.take(0)));
    }
    while i < m
        invariant
            1 <= i <= m,
            m == toks@.len(),
            toks.deep_view() == all_toks,
            rest == all_toks.drop_first(),
            m == all_toks.len(),
            nums@.map_values(|v: u64| v as int) == spec_nums(rest.take(i - 1)),
        decreases m - i,
    {
        let ghost pre = rest.take(i - 1);
        match crate::strutil::parse_u64(toks[i].as_str()) {
            Some(v) => {
                nums.push(v);
            },
            None => {},
        }
        proof {
            let cur = rest.take(i as int);
            assert(cur.drop_last() =~= pre);
            assert(cur.last() == all_toks[i as int]);
            assert(toks@[i as int]@ == all_toks[i as int]);
            assert(nums@.map_values(|v: u64| v as int) =~= spec_nums(cur));
        }
        i = i + 1;
    }
    proof {
        assert(rest.take(m - 1) =~= rest);
    }
    if nums.len() < 4 {
        return Err(CpuParseError::Invalid);
    }
    let ghost ns = spec_nums(rest);
    proof {
        lemma_nums_nonneg(rest);
        lemma_sum_nonneg(ns);
        assert(spec_cpu_parse(spec_chars_of(bytes@)) == Some(
            (spec_sum(ns), ns[0] + ns[1], ns[2]),
        ));
    }
    // Total: the checked sum of every numeric field.
    let cnt = nums.len();
    let mut total: u64 = 0;
    let mut j: usize = 0;
    while j < cnt
        invariant
            j <= cnt,
            cnt == nums@.len(),
            nums@.map_values(|v: u64| v as int) == ns,
            ns.len() >= 4,
            total == spec_sum(ns.take(j as int)),
            spec_sum(ns.take(j as int)) <= u64::MAX,
            forall|p: int| 0 <= p < ns.len() ==> ns[p] >= 0,
            spec_cpu_parse(spec_chars_of(bytes@)) == Some((spec_sum(ns), ns[0] + ns[1], ns[2])),
        decreases cnt - j,
    {
        let v = nums[j];
        proof {
            let cur = ns.take(j + 1 as int);
            assert(cur.drop_last() =~= ns.take(j as int));
            assert(cur.last() == ns[j as int]);
            assert(v as int == ns[j as int]);
        }
        if v > u64::MAX - total {
            proof {
                lemma_sum_prefix_grows(ns, j + 1 as int);
                assert(spec_sum(ns) > u64::MAX);
            }
            return Err(CpuParseError::Overflow);
        }
        total = total + v;
        j = j + 1;
    }
    proof {
        assert(ns.take(cnt as int) =~= ns);
    }
    let user_a = nums[0];
    let user_b = nums[1];
    let kernel = nums[2];
    proof {
        lemma_sum_nonneg(ns);
        lemma_sum_two_le(ns);
    }
    let user = user_a + user_b;
    Ok((total, user, kernel))
}

/// A longer prefix of nonnegative numbers never has a smaller sum.
proof fn lemma_sum_prefix_grows(nums: Seq<int>, k: int)
    requires
        0 <= k <= nums.len(),
        forall|i: int| 0 <= i < nums.len() ==> nums[i] >= 0,
    ensures
        spec_sum(nums.take(k)) <= spec_sum(nums),
    decreases nums.len() - k,
{
    if k == nums.len() {
        assert(nums.take(k) =~= nums);
    } else {
        lemma_sum_prefix_grows(nums, k + 1);
        let pre = nums.take(k);
        let cur = nums.take(k + 1);
        assert(cur.drop_last() =~= pre);
        assert(cur.last() == nums[k]);
    }
}

/// The first two numbers together stay below the total.
proof fn lemma_sum_two_le(nums: Seq<int>)
    requires
        nums.len() >= 2,
        forall|i: int| 0 <= i < nums.len() ==> nums[i] >= 0,
    ensures
        nums[0] + nums[1] <= spec_sum(nums),
{
    lemma_sum_prefix_grows(nums, 2);
    let two = nums.take(2);
    assert(two.drop_last() =~= nums.take(1));
    assert(two.last() == nums[1]);
    assert(nums.take(1).drop_last() =~= nums.take(0));
    assert(nums.take(1).last() == nums[0]);
    assert(spec_sum(nums.take(0)) == 0);
    assert(spec_sum(nums.take(1)) == nums[0]);
    assert(spec_sum(two) == nums[0] + nums[1]);
}

/// The usage percentage over a delta: the rounded share of `part` in
/// `whole`, and zero when nothing elapsed.
pub open spec fn spec_pct(part: int, whole: int) -> int {
    if whole > 0 {
        (100 * part + whole / 2) / whole
    } else {
        0
    }
}

/// Computes the rounded usage percentage.
pub fn pct_of(part: u64, whole: u64) -> (r: u64)
    requires
        part <= whole,
    ensures
        r == spec_pct(part as int, whole as int),
        r <= 100,
{
    if whole == 0 {
        return 0;
    }
    let p: u128 = (part as u128) * 100 + (whole as u128) / 2;
    let q: u128 = p / (whole as u128);
    proof {
        let w = whole as int;
        let hi = w * 100 + w / 2;
        vstd::arithmetic::mul::lemma_mul_inequality(part as int, w, 100);
        assert(p as int <= hi);
        vstd::arithmetic::div_mod::lemma_div_multiples_vanish_fancy(100, w / 2, w);
        assert((w * 100 + w / 2) / w == 100);
        vstd::arithmetic::div_mod::lemma_div_is_ordered(p as int, hi, w);
        assert(q <= 100);
        assert(q == spec_pct(part as int, whole as int));
    }
    q as u64
}


/// The percent text, right-aligned to three characters.
pub open spec fn spec_pad3(p: int) -> Seq<char> {
    if p < 10 {
        seq![' ', ' '] + spec_decimal(p)
    } else if p < 100 {
        seq![' '] + spec_decimal(p)
    } else {
        spec_decimal(p)
    }
}

/// Renders a percent right-aligned to three characters.
pub fn pad3(p: u64) -> (r: String)
    ensures
        r@ == spec_pad3(p as int),
{
    let mut s = String::new();
    if p < 10 {
        crate::strutil::push_char(&mut s, ' ');
        crate::strutil::push_char(&mut s, ' ');
    } else if p < 100 {
        crate::strutil::push_char(&mut s, ' ');
    }
    push_decimal(&mut s, p);
    assert(s@ =~= spec_pad3(p as int));
    s
}

/// The usage color for a whole-percent value, as a color triple: the
/// palette steps at 20, 40, 60 and 80 percent.
pub open spec fn spec_pct_rgb(p: int) -> crate::render::color::Srgb8 {
    if p < 20 {
        crate::colors::spec_cyan()
    } else if p < 40 {
        crate::colors::spec_green()
    } else if p < 60 {
        crate::colors::spec_yellow()
    } else if p < 80 {
        crate::colors::spec_orange()
    } else {
        crate::colors::spec_red()
    }
}

/// Picks the usage color for a whole-percent value.
pub fn pct_rgb(p: u64) -> (r: crate::render::color::Srgb8)
    ensures
        r == spec_pct_rgb(p as int),
{
    if p < 20 {
        crate::colors::cyan()
    } else if p < 40 {
        crate::colors::green()
    } else if p < 60 {
        crate::colors::yellow()
    } else if p < 80 {
        crate::colors::orange()
    } else {
        crate::colors::red()
    }
}

/// What the CPU shows: one combined load figure, or the user/kernel split.
#[derive(Debug, Clone, Copy, PartialEq, Eq, Structural)]
pub enum CpuDisplayMode {
    Combined,
    Breakdown,
}

/// The display after one click.
pub open spec fn spec_next_cpu_mode(m: CpuDisplayMode) -> CpuDisplayMode {
    match m {
        CpuDisplayMode::Combined => CpuDisplayMode::Breakdown,
        CpuDisplayMode::Breakdown => CpuDisplayMode::Combined,
    }
}

/// The CPU unit's configuration; it has no options.
#[derive(Debug, Clone, Copy, PartialEq, Eq, Structural)]
pub struct CpuConfig {}

/// The CPU unit: the display mode and the counter values of the previous
/// sample, so each poll can show the usage over the elapsed window.
#[derive(Debug, Clone, Copy, PartialEq, Eq, Structural)]
pub struct Cpu {
    pub mode: CpuDisplayMode,
    pub prev_total: u64,
    pub prev_user: u64,
    pub prev_kernel: u64,
}

/// A counter's growth since the previous sample; a counter that moved
/// backwards counts as no growth.
pub open spec fn spec_delta(new: int, old: int) -> int {
    if new >= old {
        new - old
    } else {
        0
    }
}

/// A share capped at the whole, so a percentage never exceeds one hundred.
pub open spec fn spec_capped(part: int, whole: int) -> int {
    if part <= whole {
        part
    } else {
        whole
    }
}

/// The user and kernel usage percentages one sample shows.
pub open spec fn spec_cpu_shares(c: Cpu, total: int, user: int, kernel: int) -> (int, int) {
    let dt = spec_delta(total, c.prev_total as int);
    let du = spec_capped(spec_delta(user, c.prev_user as int), dt);
    let dk = spec_capped(spec_delta(kernel, c.prev_kernel as int), dt);
    (spec_pct(du, dt), spec_pct(dk, dt))
}

/// The markup one CPU sample renders to.
pub open spec fn spec_cpu_markup(mode: CpuDisplayMode, pu: int, pk: int) -> Seq<SpanV> {
    match mode {
        CpuDisplayMode::Combined => seq![SpanV::Text("cpu [load "@)] + seq![
            SpanV::Styled(
                Style { fg: Some(spec_pct_rgb(pu + pk)), bg: None },
                seq![SpanV::Text(spec_pad3(pu + pk))],
            ),
        ] + seq![SpanV::Text("%]"@)],
        CpuDisplayMode::Breakdown => seq![SpanV::Text("cpu [u "@)] + seq![
            SpanV::Styled(
                Style { fg: Some(spec_pct_rgb(pu)), bg: None },
                seq![SpanV::Text(spec_pad3(pu))],
            ),
        ] + seq![SpanV::Text("% k "@)] + seq![
            SpanV::Styled(
                Style { fg: Some(spec_pct_rgb(pk)), bg: None },
                seq![SpanV::Text(spec_pad3(pk))],
            ),
        ] + seq![SpanV::Text("%]"@)],
    }
}

impl Cpu {
    /// A fresh CPU unit: combined display, no previous sample.
    pub fn from_cfg(cfg: CpuConfig) -> (c: Cpu)
        ensures
            c == (Cpu { mode: CpuDisplayMode::Combined, prev_total: 0u64, prev_user: 0u64,
                prev_kernel: 0u64 }),
    {
        Cpu { mode: CpuDisplayMode::Combined, prev_total: 0, prev_user: 0, prev_kernel: 0 }
    }

    /// Folds one counters sample into the unit and renders it: the usage
    /// shares over the elapsed window under the current display mode, or a
    /// short error tag when the file cannot be read.
    pub fn read_markup_from_proc_stat(&mut self, bytes: &Vec<u8>) -> (m: Markup)
        ensures
            match spec_cpu_parse(spec_chars_of(bytes@)) {
                Some((total, user, kernel)) => {
                    if total <= u64::MAX {
                        &&& *final(self) == (Cpu {
                            prev_total: total as u64,
                            prev_user: user as u64,
                            prev_kernel: kernel as u64,
                            ..*old(self)
                        })
                        &&& m@ == spec_cpu_markup(
                            old(self).mode,
                            spec_cpu_shares(*old(self), total, user, kernel).0,
                            spec_cpu_shares(*old(self), total, user, kernel).1,
                        )
                    } else {
                        &&& *final(self) == *old(self)
                        &&& m@ == spec_cpu_err_markup()
                    }
                },
                None => {
                    &&& *final(self) == *old(self)
                    &&& m@ == spec_cpu_err_markup()
                },
            },
    {
        let parsed = read_cpu_times(bytes);
        match parsed {
            Err(_) => {
                let m = Markup::text("cpu ".to_owned()).append(
                    Markup::text("read err".to_owned()).fg(crate::colors::brown()),
                );
                assert(m@ =~= spec_cpu_err_markup());
                m
            },
            Ok((total, user, kernel)) => {
                let dt: u64 = if total >= self.prev_total {
                    total - self.prev_total
                } else {
                    0
                };
                let du0: u64 = if user >= self.prev_user {
                    user - self.prev_user
                } else {
                    0
                };
                let dk0: u64 = if kernel >= self.prev_kernel {
                    kernel - self.prev_kernel
                } else {
                    0
                };
                let du: u64 = if du0 <= dt {
                    du0
                } else {
                    dt
                };
                let dk: u64 = if dk0 <= dt {
                    dk0
                } else {
                    dt
                };
                let ghost shares = spec_cpu_shares(*self, total as int, user as int, kernel as int);
                let pu = pct_of(du, dt);
                let pk = pct_of(dk, dt);
                proof {
                    assert(pu == shares.0 && pk == shares.1);
                }
                let mode = self.mode;
                self.prev_total = total;
                self.prev_user = user;
                self.prev_kernel = kernel;
                let m: Markup;
                match mode {
                    CpuDisplayMode::Combined => {
                        let load = pu + pk;
                        let colored = Markup::text(pad3(load)).fg(pct_rgb(load));
                        m = Markup::text("cpu [load ".to_owned()).append(colored).append(
                            Markup::text("%]".to_owned()),
                        );
                        assert(m@ =~= spec_cpu_markup(mode, pu as int, pk as int));
                    },
                    CpuDisplayMode::Breakdown => {
                        let cu = Markup::text(pad3(pu)).fg(pct_rgb(pu));
                        let ck = Markup::text(pad3(pk)).fg(pct_rgb(pk));
                        m = Markup::text("cpu [u ".to_owned()).append(cu).append(
                            Markup::text("% k ".to_owned()),
                        ).append(ck).append(Markup::text("%]".to_owned()));
                        assert(m@ =~= spec_cpu_markup(mode, pu as int, pk as int));
                    },
                }
                m
            },
        }
    }
}

/// The markup shown when the counters file cannot be read.
pub open spec fn spec_cpu_err_markup() -> Seq<SpanV> {
    seq![SpanV::Text("cpu "@)] + seq![
        SpanV::Styled(
            Style { fg: Some(crate::colors::spec_brown()), bg: None },
            seq![SpanV::Text("read err"@)],
        ),
    ]
}

/// The CPU unit machine: its non-polling transitions.
#[derive(Debug, Clone, Copy)]
pub struct CpuMachine {
    pub cfg: CpuConfig,
}

impl CpuMachine {
    pub fn new(cfg: CpuConfig) -> (m: CpuMachine)
        ensures
            m.cfg == cfg,
    {
        CpuMachine { cfg }
    }

    /// The initial state and loading render; the first poll runs at once.
    pub fn init(&self) -> (r: (Cpu, Render, UnitDecision))
        ensures
            r.0 == (Cpu { mode: CpuDisplayMode::Combined, prev_total: 0u64, prev_user: 0u64,
                prev_kernel: 0u64 }),
            r.1@.1 == Health::Degraded,
            r.2 == UnitDecision::PollNow,
    {
        let unit = Cpu::from_cfg(self.cfg);
        let body = Markup::text("cpu ".to_owned()).append(
            Markup::text("loading".to_owned()).fg(crate::colors::violet()),
        );
        (unit, Render { body, health: Health::Degraded }, UnitDecision::PollNow)
    }

    /// Render ticks do nothing for the CPU.
    pub fn on_tick(&self, state: &Cpu) -> (r: (Option<Render>, UnitDecision))
        ensures
            r.0 is None,
            r.1 == UnitDecision::Idle,
    {
        (None, UnitDecision::Idle)
    }

    /// A click toggles the display mode and asks for a fresh poll.
    pub fn on_click(&self, state: &mut Cpu) -> (r: (Option<Render>, UnitDecision))
        ensures
            final(state).mode == spec_next_cpu_mode(old(state).mode),
            final(state).prev_total == old(state).prev_total,
            final(state).prev_user == old(state).prev_user,
            final(state).prev_kernel == old(state).prev_kernel,
            r.0 is None,
            r.1 == UnitDecision::PollNow,
    {
        state.mode = match state.mode {
            CpuDisplayMode::Combined => CpuDisplayMode::Breakdown,
            CpuDisplayMode::Breakdown => CpuDisplayMode::Combined,
        };
        (None, UnitDecision::PollNow)
    }
}

} // verus!
