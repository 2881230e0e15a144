//! The memory unit: its display modes and the integer rendering of the
//! totals view.
use vstd::prelude::*;
use crate::machine::types::{Health, Render, UnitDecision};
use crate::render::markup::{Markup, SpanV, Style};
use crate::strutil::{push_char, push_decimal, spec_decimal};
use crate::units::cpu::{pct_of, pct_rgb, spec_pct, spec_pct_rgb};

verus! {

/// What the memory unit shows: the totals, or the worst single process.
#[derive(Debug, Clone, Copy, PartialEq, Eq, Structural)]
pub enum MemDisplayMode {
    Totals,
    WorstProcess,
}

/// The display after one click.
pub open spec fn spec_next_mem_mode(m: MemDisplayMode) -> MemDisplayMode {
    match m {
        MemDisplayMode::Totals => MemDisplayMode::WorstProcess,
        MemDisplayMode::WorstProcess => MemDisplayMode::Totals,
    }
}

/// The memory unit's configuration; it has no options.
#[derive(Debug, Clone, Copy, PartialEq, Eq, Structural)]
pub struct MemConfig {}

/// The memory unit: only its display mode.
#[derive(Debug, Clone, Copy, PartialEq, Eq, Structural)]
pub struct Mem {
    pub mode: MemDisplayMode,
}

impl Mem {
    /// A fresh memory unit showing the totals.
    pub fn from_cfg(cfg: MemConfig) -> (m: Mem)
        ensures
            m == (Mem { mode: MemDisplayMode::Totals }),
    {
        Mem { mode: MemDisplayMode::Totals }
    }

    /// A click toggles between the two displays.
    pub fn handle_click(&mut self)
        ensures
            final(self).mode == spec_next_mem_mode(old(self).mode),
    {
        self.mode = match self.mode {
            MemDisplayMode::Totals => MemDisplayMode::WorstProcess,
            MemDisplayMode::WorstProcess => MemDisplayMode::Totals,
        };
    }
}

/// Used memory in tenths of a gibibyte, rounded.
pub open spec fn spec_gib_tenths(bytes: int) -> int {
    (bytes * 10 + 536870912) / 1073741824
}

/// A tenths figure rendered as `w.f`.
pub open spec fn spec_tenths_str(tenths: int) -> Seq<char> {
    spec_decimal(tenths / 10) + seq!['.'] + spec_decimal(tenths % 10)
}

/// The totals view: used gibibytes to one decimal and the used percentage,
/// both in the usage color of the percentage.
pub open spec fn spec_mem_markup(used: int, total: int) -> Seq<SpanV> {
    let pct = spec_pct(used, total);
    let gib = spec_gib_tenths(used);
    seq![SpanV::Text("mem [used "@)] + seq![
        SpanV::Styled(
            Style { fg: Some(spec_pct_rgb(pct)), bg: None },
            seq![SpanV::Text(spec_tenths_str(gib))],
        ),
    ] + seq![SpanV::Text(" GiB ("@)] + seq![
        SpanV::Styled(
            Style { fg: Some(spec_pct_rgb(pct)), bg: None },
            seq![SpanV::Text(spec_decimal(pct))],
        ),
    ] + seq![SpanV::Text("%)]"@)]
}

/// Renders the totals view from the measured byte counts.
pub fn read_markup_from_totals(used_bytes: u64, total_bytes: u64) -> (m: Markup)
    requires
        used_bytes <= total_bytes,
    ensures
        m@ == spec_mem_markup(used_bytes as int, total_bytes as int),
{
    let pct = pct_of(used_bytes, total_bytes);
    let t: u128 = ((used_bytes as u128) * 10 + 536870912) / 1073741824;
    proof {
        assert(t <= u64::MAX) by {
            assert((used_bytes as u128) * 10 <= (u64::MAX as u128) * 10);
        }
    }
    let tenths: u64 = t as u64;
    let mut gib = String::new();
    push_decimal(&mut gib, tenths / 10);
    push_char(&mut gib, '.');
    push_decimal(&mut gib, tenths % 10);
    assert(gib@ =~= spec_tenths_str(tenths as int));
    let mut pct_s = String::new();
    push_decimal(&mut pct_s, pct);
    let color = pct_rgb(pct);
    let m = Markup::text("mem [used ".to_owned()).append(Markup::text(gib).fg(color)).append(
        Markup::text(" GiB (".to_owned()),
    ).append(Markup::text(pct_s).fg(color)).append(Markup::text("%)]".to_owned()));
    assert(m@ =~= spec_mem_markup(used_bytes as int, total_bytes as int));
    m
}

/// The memory machine's non-polling transitions.
#[derive(Debug, Clone, Copy)]
pub struct MemMachine {
    pub cfg: MemConfig,
}

impl MemMachine {
    pub fn new(cfg: MemConfig) -> (m: MemMachine)
        ensures
            m.cfg == cfg,
    {
        MemMachine { cfg }
    }

    /// The initial state and loading render; the first poll runs at once.
    pub fn init(&self) -> (r: (Mem, Render, UnitDecision))
        ensures
            r.0 == (Mem { mode: MemDisplayMode::Totals }),
            r.1@.1 == Health::Degraded,
            r.2 == UnitDecision::PollNow,
    {
        let unit = Mem::from_cfg(self.cfg);
        let body = Markup::text("mem ".to_owned()).append(
            Markup::text("loading".to_owned()).fg(crate::colors::violet()),
        );
        (unit, Render { body, health: Health::Degraded }, UnitDecision::PollNow)
    }

    /// A click toggles the display and asks for a fresh poll.
    pub fn on_click(&self, state: &mut Mem) -> (r: (Option<Render>, UnitDecision))
        ensures
            final(state).mode == spec_next_mem_mode(old(state).mode),
            r.0 is None,
            r.1 == UnitDecision::PollNow,
    {
        state.handle_click();
        (None, UnitDecision::PollNow)
    }
}

} // verus!
