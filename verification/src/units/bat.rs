//! The battery unit: parsing the kernel's power-supply `uevent` file and the
//! battery machine's state transitions.
use vstd::prelude::*;
use vstd::string::StringExecFns;
use crate::display::{color, spec_pangofy};
use crate::machine::types::{Health, Render, UnitDecision};
use crate::render::markup::{Markup, SpanV, Style};
use crate::strutil::{ascii_lower, find_char, is_prefix, push_decimal, spec_decimal, spec_find_char,
    spec_lower, strip_prefix_str, trim_str, trim_ws};

verus! {

/// The key prefix the kernel puts on every `uevent` entry.
pub open spec fn power_supply_prefix() -> Seq<char> {
    seq!['P', 'O', 'W', 'E', 'R', '_', 'S', 'U', 'P', 'P', 'L', 'Y', '_']
}

/// The canonical form of a `uevent` key: the kernel prefix stripped, then
/// lowercased.
pub open spec fn spec_canon_key(k: Seq<char>) -> Seq<char> {
    if is_prefix(power_supply_prefix(), k) {
        spec_lower(k.skip(13))
    } else {
        spec_lower(k)
    }
}

/// What one `uevent` line yields: trimmed, split at the first `=`, the key
/// canonicalized and the value trimmed and lowercased; a line without `=`
/// yields nothing.
pub open spec fn spec_parse_line(line: Seq<char>) -> Option<(Seq<char>, Seq<char>)> {
    let t = trim_ws(line);
    let e = spec_find_char(t, '=', 0);
    if e < t.len() {
        Some((spec_canon_key(t.take(e)), spec_lower(trim_ws(t.skip(e + 1)))))
    } else {
        None
    }
}

/// What parsing a whole `uevent` text yields: one entry per line holding a
/// `=`, in file order.
pub open spec fn spec_parse_uevent(s: Seq<char>) -> Seq<(Seq<char>, Seq<char>)>
    decreases s.len(),
    via spec_parse_uevent_dec
{
    if s.len() == 0 {
        Seq::empty()
    } else {
        let k = spec_find_char(s, '\n', 0);
        let line = s.take(k);
        let rest: Seq<char> = if k >= s.len() {
            Seq::empty()
        } else {
            s.skip(k + 1)
        };
        let tail = spec_parse_uevent(rest);
        match spec_parse_line(line) {
            Some(e) => seq![e] + tail,
            None => tail,
        }
    }
}

#[via_fn]
proof fn spec_parse_uevent_dec(s: Seq<char>) {
    if s.len() > 0 {
        crate::strutil::lemma_find_char_bounds(s, '\n', 0);
    }
}

/// The value under a key; a repeated key's later entry wins, as a map
/// insert would make it.
pub open spec fn spec_uget(entries: Seq<(Seq<char>, Seq<char>)>, k: Seq<char>) -> Option<Seq<char>>
    decreases entries.len(),
{
    if entries.len() == 0 {
        None
    } else if entries.last().0 == k {
        Some(entries.last().1)
    } else {
        spec_uget(entries.drop_last(), k)
    }
}

/// A parsed `uevent` file: canonicalized key/value pairs in file order.
#[derive(Debug)]
pub struct Uevent {
    pub entries: Vec<(String, String)>,
}

fn canon_key(k: &str) -> (r: String)
    ensures
        r@ == spec_canon_key(k@),
{
    proof {
        reveal_strlit("POWER_SUPPLY_");
        assert("POWER_SUPPLY_"@ =~= power_supply_prefix());
    }
    match strip_prefix_str(k, "POWER_SUPPLY_") {
        Some(rest) => ascii_lower(rest.as_str()),
        None => ascii_lower(k),
    }
}

fn parse_line(line: &str) -> (r: Option<(String, String)>)
    ensures
        match r {
            Some(e) => spec_parse_line(line@) == Some((e.0@, e.1@)),
            None => spec_parse_line(line@) is None,
        },
{
    let t = trim_str(line);
    let tlen = t.as_str().unicode_len();
    let e = find_char(t.as_str(), '=', 0);
    if e >= tlen {
        return None;
    }
    let k_raw = t.as_str().substring_char(0, e);
    let v_raw = t.as_str().substring_char(e + 1, tlen);
    let key = canon_key(k_raw);
    let val_t = trim_str(v_raw);
    let val = ascii_lower(val_t.as_str());
    Some((key, val))
}

/// Parses the text of a `uevent` file into its entries.
pub fn parse_uevent(s: &str) -> (u: Uevent)
    ensures
        u.entries.deep_view() == spec_parse_uevent(s@),
    decreases s@.len(),
{
    let n = s.unicode_len();
    if n == 0 {
        let u = Uevent { entries: Vec::new() };
        assert(u.entries.deep_view() =~= spec_parse_uevent(s@));
        return u;
    }
    let k = find_char(s, '\n', 0);
    let line = s.substring_char(0, k);
    let entry = parse_line(line);
    let mut tail: Uevent;
    if k >= n {
        tail = Uevent { entries: Vec::new() };
        assert(tail.entries.deep_view() =~= Seq::<(Seq<char>, Seq<char>)>::empty());
        assert(spec_parse_uevent(Seq::<char>::empty()) =~= Seq::<(Seq<char>, Seq<char>)>::empty());
    } else {
        let rest = s.substring_char(k + 1, n);
        assert(rest@ == s@.skip(k + 1 as int));
        tail = parse_uevent(rest);
    }
    match entry {
        Some(e) => {
            let ghost ev = (e.0@, e.1@);
            let ghost pre = tail.entries.deep_view();
            tail.entries.insert(0, e);
            proof {
                assert forall|j: int| 0 <= j < tail.entries.deep_view().len() implies
                    tail.entries.deep_view()[j] == (seq![ev] + pre)[j] by {
                    if j > 0 {
                        assert(tail.entries@[j] == tail.entries@.subrange(
                            1,
                            tail.entries@.len() as int,
                        )[j - 1]);
                    }
                }
                assert(tail.entries.deep_view() =~= seq![ev] + pre);
            }
            tail
        },
        None => tail,
    }
}

impl Uevent {
    /// The value stored under `key`; when a key repeats, the later line
    /// wins.
    pub fn get(&self, key: &str) -> (r: Option<&String>)
        ensures
            match r {
                Some(v) => spec_uget(self.entries.deep_view(), key@) == Some(v@),
                None => spec_uget(self.entries.deep_view(), key@) is None,
            },
    {
        let n = self.entries.len();
        proof {
            assert(self.entries.deep_view().take(n as int) =~= self.entries.deep_view());
        }
        let mut i: usize = n;
        while i > 0
            invariant
                i <= n,
                n == self.entries@.len(),
                spec_uget(self.entries.deep_view(), key@) == spec_uget(
                    self.entries.deep_view().take(i as int),
                    key@,
                ),
            decreases i,
        {
            proof {
                let cur = self.entries.deep_view().take(i as int);
                assert(cur.last() == self.entries.deep_view()[i - 1]);
                assert(cur.drop_last() =~= self.entries.deep_view().take(i - 1 as int));
            }
            if crate::strutil::str_eq(self.entries[i - 1].0.as_str(), key) {
                return Some(&self.entries[i - 1].1);
            }
            i = i - 1;
        }
        proof {
            assert(self.entries.deep_view().take(0).len() == 0);
        }
        None
    }
}

/// The battery's charging state as the kernel reports it.
#[derive(Debug, Clone, Copy, PartialEq, Eq, Structural)]
pub enum BatStatus {
    Charging,
    Discharging,
    Full,
    Balanced,
    Unknown,
    Other,
}

/// The status encoded in a `uevent`'s (lowercased) `status` value.
pub open spec fn spec_bat_status(v: Option<Seq<char>>) -> BatStatus {
    match v {
        None => BatStatus::Other,
        Some(s) => if spec_lower(s) == "charging"@ {
            BatStatus::Charging
        } else if spec_lower(s) == "discharging"@ {
            BatStatus::Discharging
        } else if spec_lower(s) == "full"@ {
            BatStatus::Full
        } else if spec_lower(s) == "unknown"@ {
            BatStatus::Unknown
        } else {
            BatStatus::Other
        },
    }
}

impl BatStatus {
    /// Reads the charging state from a parsed `uevent`.
    pub fn from_uevent(u: &Uevent) -> (r: BatStatus)
        ensures
            r == spec_bat_status(spec_uget(u.entries.deep_view(), "status"@)),
    {
        match u.get("status") {
            None => BatStatus::Other,
            Some(v) => {
                let s = ascii_lower(v.as_str());
                if crate::strutil::str_eq(s.as_str(), "charging") {
                    BatStatus::Charging
                } else if crate::strutil::str_eq(s.as_str(), "discharging") {
                    BatStatus::Discharging
                } else if crate::strutil::str_eq(s.as_str(), "full") {
                    BatStatus::Full
                } else if crate::strutil::str_eq(s.as_str(), "unknown") {
                    BatStatus::Unknown
                } else {
                    BatStatus::Other
                }
            },
        }
    }

    /// The short colored tag shown for this state.
    pub fn state_string(&self) -> (r: String)
        ensures
            r@ == match *self {
                BatStatus::Discharging => spec_pangofy("dis"@, Some(crate::colors::ORANGE@), None),
                BatStatus::Charging => spec_pangofy("chr"@, Some(crate::colors::GREEN@), None),
                BatStatus::Full => spec_pangofy("ful"@, Some(crate::colors::BLUE@), None),
                BatStatus::Balanced => spec_pangofy("bal"@, Some(crate::colors::CYAN@), None),
                _ => spec_pangofy("unk"@, Some(crate::colors::VIOLET@), None),
            },
    {
        match self {
            BatStatus::Discharging => color("dis", crate::colors::ORANGE),
            BatStatus::Charging => color("chr", crate::colors::GREEN),
            BatStatus::Full => color("ful", crate::colors::BLUE),
            BatStatus::Balanced => color("bal", crate::colors::CYAN),
            _ => color("unk", crate::colors::VIOLET),
        }
    }
}

/// What the battery shows: current capacity, design capacity, or voltage
/// and current.
#[derive(Debug, Clone, Copy, PartialEq, Eq, Structural)]
pub enum BatDisplayMode {
    CurCapacity,
    DesignCapacity,
    VoltageCurrent,
}

/// The display after one click.
pub open spec fn spec_next_bat_mode(m: BatDisplayMode) -> BatDisplayMode {
    match m {
        BatDisplayMode::CurCapacity => BatDisplayMode::DesignCapacity,
        BatDisplayMode::DesignCapacity => BatDisplayMode::VoltageCurrent,
        BatDisplayMode::VoltageCurrent => BatDisplayMode::CurCapacity,
    }
}

impl BatDisplayMode {
    /// Clicks rotate through the three displays in order.
    pub fn next(self) -> (r: BatDisplayMode)
        ensures
            r == spec_next_bat_mode(self),
    {
        match self {
            BatDisplayMode::CurCapacity => BatDisplayMode::DesignCapacity,
            BatDisplayMode::DesignCapacity => BatDisplayMode::VoltageCurrent,
            BatDisplayMode::VoltageCurrent => BatDisplayMode::CurCapacity,
        }
    }
}

/// The battery unit's configuration: which battery to read.
#[derive(Debug, Clone, Copy, PartialEq, Eq, Structural)]
pub struct BatConfig {
    pub bat_id: u32,
}

/// The kernel path of the battery's `uevent` file.
pub fn uevent_path(bat_id: u32) -> (r: String)
    ensures
        r@ == "/sys/class/power_supply/BAT"@ + spec_decimal(bat_id as int) + "/uevent"@,
{
    let mut s = String::new();
    s.append("/sys/class/power_supply/BAT");
    push_decimal(&mut s, bat_id as u64);
    s.append("/uevent");
    assert(s@ =~= "/sys/class/power_supply/BAT"@ + spec_decimal(bat_id as int) + "/uevent"@);
    s
}

/// Minutes remaining rendered as `hh:mm`, both two digits, hours capped at
/// two digits by the caller's data.
pub open spec fn spec_two_digits(n: int) -> Seq<char> {
    if n < 10 {
        seq!['0'] + spec_decimal(n)
    } else {
        spec_decimal(n)
    }
}

/// The remaining-time tag: `hh:mm` from whole minutes.
pub fn format_hhmm(total_minutes: u64) -> (r: String)
    ensures
        r@ == spec_two_digits((total_minutes / 60) as int) + seq![':'] + spec_two_digits(
            (total_minutes % 60) as int,
        ),
{
    let hours = total_minutes / 60;
    let mins = total_minutes % 60;
    let mut s = String::new();
    if hours < 10 {
        crate::strutil::push_char(&mut s, '0');
    }
    push_decimal(&mut s, hours);
    crate::strutil::push_char(&mut s, ':');
    if mins < 10 {
        crate::strutil::push_char(&mut s, '0');
    }
    push_decimal(&mut s, mins);
    assert(s@ =~= spec_two_digits(hours as int) + seq![':'] + spec_two_digits(mins as int));
    s
}

/// The colored tag for a charging state, as markup.
pub open spec fn spec_status_markup(st: BatStatus) -> SpanV {
    match st {
        BatStatus::Discharging => SpanV::Styled(
            Style { fg: Some(crate::colors::spec_orange()), bg: None },
            seq![SpanV::Text("dis"@)],
        ),
        BatStatus::Charging => SpanV::Styled(
            Style { fg: Some(crate::colors::spec_green()), bg: None },
            seq![SpanV::Text("chr"@)],
        ),
        BatStatus::Full => SpanV::Styled(
            Style { fg: Some(crate::colors::spec_blue()), bg: None },
            seq![SpanV::Text("ful"@)],
        ),
        BatStatus::Balanced => SpanV::Styled(
            Style { fg: Some(crate::colors::spec_cyan()), bg: None },
            seq![SpanV::Text("bal"@)],
        ),
        _ => SpanV::Styled(
            Style { fg: Some(crate::colors::spec_violet()), bg: None },
            seq![SpanV::Text("unk"@)],
        ),
    }
}

/// The colored tag for a charging state, as markup.
pub fn status_markup(st: BatStatus) -> (m: Markup)
    ensures
        m@ =~= seq![spec_status_markup(st)],
{
    match st {
        BatStatus::Discharging => Markup::text("dis".to_owned()).fg(crate::colors::orange()),
        BatStatus::Charging => Markup::text("chr".to_owned()).fg(crate::colors::green()),
        BatStatus::Full => Markup::text("ful".to_owned()).fg(crate::colors::blue()),
        BatStatus::Balanced => Markup::text("bal".to_owned()).fg(crate::colors::cyan()),
        _ => Markup::text("unk".to_owned()).fg(crate::colors::violet()),
    }
}

/// The remaining-time tag: `hh:mm` when an estimate exists, dashes when
/// none does.
pub open spec fn spec_rem_str(rem_minutes: Option<u64>) -> Seq<char> {
    match rem_minutes {
        Some(m) => spec_two_digits((m / 60) as int) + seq![':'] + spec_two_digits((m % 60) as int),
        None => "--:--"@,
    }
}

/// The opening and closing brackets of a capacity view: braces for the
/// current capacity, angles for the design capacity.
pub open spec fn spec_bat_brackets(mode: BatDisplayMode) -> (Seq<char>, Seq<char>) {
    match mode {
        BatDisplayMode::DesignCapacity => ("<"@, ">"@),
        _ => ("{"@, "}"@),
    }
}

/// A capacity view: the percentage in the reverse usage color inside the
/// mode's brackets, then the remaining-time estimate and the state tag.
pub open spec fn spec_bat_markup(
    mode: BatDisplayMode,
    pct: int,
    rem_minutes: Option<u64>,
    st: BatStatus,
) -> Seq<SpanV> {
    seq![SpanV::Text("bat "@ + spec_bat_brackets(mode).0)] + seq![
        SpanV::Styled(
            Style { fg: Some(crate::units::wifi::spec_pct_rgb_rev(pct)), bg: None },
            seq![SpanV::Text(spec_decimal(pct))],
        ),
    ] + seq![
        SpanV::Text(
            "%"@ + spec_bat_brackets(mode).1 + " ["@ + spec_rem_str(rem_minutes) + " rem, "@,
        ),
    ] + seq![spec_status_markup(st)] + seq![SpanV::Text("]"@)]
}

/// Renders a capacity view from the computed percentage, the remaining-time
/// estimate in whole minutes, and the charging state. The voltage/current
/// view shows measured figures instead and is rendered by the caller.
pub fn read_markup(mode: BatDisplayMode, pct: u64, rem_minutes: Option<u64>, st: BatStatus) -> (m:
    Markup)
    requires
        mode != BatDisplayMode::VoltageCurrent,
    ensures
        m@ =~= spec_bat_markup(mode, pct as int, rem_minutes, st),
{
    let mut head = String::new();
    head.append("bat ");
    match mode {
        BatDisplayMode::DesignCapacity => head.append("<"),
        _ => head.append("{"),
    }
    assert(head@ =~= "bat "@ + spec_bat_brackets(mode).0);
    let mut pct_s = String::new();
    push_decimal(&mut pct_s, pct);
    let pct_m = Markup::text(pct_s).fg(crate::units::wifi::pct_rgb_rev(pct));
    let mut mid = String::new();
    mid.append("%");
    match mode {
        BatDisplayMode::DesignCapacity => mid.append(">"),
        _ => mid.append("}"),
    }
    mid.append(" [");
    match rem_minutes {
        Some(m) => {
            let hhmm = format_hhmm(m);
            mid.append(hhmm.as_str());
        },
        None => {
            mid.append("--:--");
        },
    }
    mid.append(" rem, ");
    assert(mid@ =~= "%"@ + spec_bat_brackets(mode).1 + " ["@ + spec_rem_str(rem_minutes)
        + " rem, "@);
    let m = Markup::text(head).append(pct_m).append(Markup::text(mid)).append(
        status_markup(st),
    ).append(Markup::text("]".to_owned()));
    assert(m@ =~= spec_bat_markup(mode, pct as int, rem_minutes, st));
    m
}

/// The battery's per-instance machine state.
#[derive(Debug)]
pub struct State {
    pub mode: BatDisplayMode,
    pub cur_status: BatStatus,
}

/// The battery unit machine: state transitions only; reading the `uevent`
/// file goes through the effects engine, and the numeric capacity math is
/// the event loop's.
#[derive(Debug, Clone, Copy)]
pub struct BatMachine {
    pub cfg: BatConfig,
}

impl BatMachine {
    pub fn new(cfg: BatConfig) -> (m: BatMachine)
        ensures
            m.cfg == cfg,
    {
        BatMachine { cfg }
    }

    /// The initial state and loading render; the first poll runs at once.
    pub fn init(&self) -> (r: (State, Render, UnitDecision))
        ensures
            r.0.mode == BatDisplayMode::CurCapacity,
            r.0.cur_status == BatStatus::Unknown,
            r.1@.1 == Health::Degraded,
            r.2 == UnitDecision::PollNow,
    {
        let state = State { mode: BatDisplayMode::CurCapacity, cur_status: BatStatus::Unknown };
        let body = Markup::text("bat ".to_owned()).append(
            Markup::text("loading".to_owned()).fg(crate::colors::violet()),
        );
        (state, Render { body, health: Health::Degraded }, UnitDecision::PollNow)
    }

    /// Render ticks do nothing for the battery.
    pub fn on_tick(&self, state: &State) -> (r: (Option<Render>, UnitDecision))
        ensures
            r.0 is None,
            r.1 == UnitDecision::Idle,
    {
        (None, UnitDecision::Idle)
    }

    /// A click rotates the display mode and asks for a fresh poll.
    pub fn on_click(&self, state: &mut State) -> (r: (Option<Render>, UnitDecision))
        ensures
            final(state).mode == spec_next_bat_mode(old(state).mode),
            final(state).cur_status == old(state).cur_status,
            r.0 is None,
            r.1 == UnitDecision::PollNow,
    {
        state.mode = state.mode.next();
        (None, UnitDecision::PollNow)
    }
}

} // verus!
