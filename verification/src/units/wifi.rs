//! The wifi unit: signal-strength scaling, its display toggle, and the
//! rendering of a station reading; the netlink query itself is an external
//! collaborator.
use vstd::prelude::*;
use vstd::string::StringExecFns;
use crate::machine::types::{Health, Render, UnitDecision};
use crate::render::markup::{Markup, SpanV, Style};
use crate::render::color::Srgb8;
use crate::strutil::{push_decimal, spec_decimal};

verus! {

/// The wifi unit's configuration: which interface to watch.
#[derive(Debug)]
pub struct WifiConfig {
    pub interface: String,
}

impl Clone for WifiConfig {
    /// The clone denotes the same interface.
    fn clone(&self) -> (r: Self)
        ensures
            r.interface@ == self.interface@,
    {
        WifiConfig { interface: self.interface.clone() }
    }
}

/// Whether the network name is shown beside the strength.
#[derive(Debug, Clone, Copy, PartialEq, Eq, Structural)]
pub enum WifiDisplayMode {
    ShowSsid,
    HideSsid,
}

/// The display after one click.
pub open spec fn spec_next_wifi_mode(m: WifiDisplayMode) -> WifiDisplayMode {
    match m {
        WifiDisplayMode::ShowSsid => WifiDisplayMode::HideSsid,
        WifiDisplayMode::HideSsid => WifiDisplayMode::ShowSsid,
    }
}

/// The wifi unit: its configuration and display mode.
#[derive(Debug)]
pub struct Wifi {
    pub cfg: WifiConfig,
    pub mode: WifiDisplayMode,
}

impl Wifi {
    /// A fresh wifi unit showing the network name.
    pub fn from_cfg(cfg: WifiConfig) -> (w: Wifi)
        ensures
            w.cfg.interface@ == cfg.interface@,
            w.mode == WifiDisplayMode::ShowSsid,
    {
        Wifi { cfg, mode: WifiDisplayMode::ShowSsid }
    }

    /// A click toggles whether the network name is shown.
    pub fn handle_click(&mut self)
        ensures
            final(self).mode == spec_next_wifi_mode(old(self).mode),
            final(self).cfg.interface@ == old(self).cfg.interface@,
    {
        self.mode = match self.mode {
            WifiDisplayMode::ShowSsid => WifiDisplayMode::HideSsid,
            WifiDisplayMode::HideSsid => WifiDisplayMode::ShowSsid,
        };
    }
}

/// Signal strength as a percentage: a linear remap taking -80 dBm to 0 and
/// -30 dBm to 100, clamped at both ends.
pub open spec fn spec_signal_percent(dbm: int) -> int {
    if dbm <= -80 {
        0
    } else if dbm >= -30 {
        100
    } else {
        (dbm + 80) * 2
    }
}

/// Scales a station's signal report to a percentage.
pub fn signal_percent(dbm: i32) -> (r: u8)
    ensures
        r == spec_signal_percent(dbm as int),
        r <= 100,
{
    if dbm <= -80 {
        0
    } else if dbm >= -30 {
        100
    } else {
        ((dbm + 80) * 2) as u8
    }
}

/// The reverse usage palette: a low figure is the alarming one.
pub open spec fn spec_pct_rgb_rev(p: int) -> Srgb8 {
    if p < 20 {
        crate::colors::spec_red()
    } else if p < 40 {
        crate::colors::spec_orange()
    } else if p < 60 {
        crate::colors::spec_yellow()
    } else if p < 80 {
        crate::colors::spec_green()
    } else {
        crate::colors::spec_cyan()
    }
}

/// Picks the reverse usage color for a whole-percent value.
pub fn pct_rgb_rev(p: u64) -> (r: Srgb8)
    ensures
        r == spec_pct_rgb_rev(p as int),
{
    if p < 20 {
        crate::colors::red()
    } else if p < 40 {
        crate::colors::orange()
    } else if p < 60 {
        crate::colors::yellow()
    } else if p < 80 {
        crate::colors::green()
    } else {
        crate::colors::cyan()
    }
}

/// The markup one station reading renders to: the network name in green
/// when shown, and the strength percentage in the reverse usage color.
pub open spec fn spec_wifi_markup(mode: WifiDisplayMode, ssid: Seq<char>, pct: int) -> Seq<SpanV> {
    let name_part: Seq<SpanV> = match mode {
        WifiDisplayMode::ShowSsid => seq![
            SpanV::Styled(
                Style { fg: Some(crate::colors::spec_green()), bg: None },
                seq![SpanV::Text(seq![' ', '['] + ssid + seq![']'])],
            ),
        ],
        WifiDisplayMode::HideSsid => Seq::empty(),
    };
    seq![SpanV::Text("wifi"@)] + name_part + seq![SpanV::Text(" "@)] + seq![
        SpanV::Styled(
            Style { fg: Some(spec_pct_rgb_rev(pct)), bg: None },
            seq![SpanV::Text(spec_decimal(pct))],
        ),
    ] + seq![SpanV::Text("%"@)]
}

impl Wifi {
    /// Renders one station reading under the current display mode.
    pub fn read_markup(&self, ssid: &str, signal_dbm: i32) -> (m: Markup)
        ensures
            m@ == spec_wifi_markup(self.mode, ssid@, spec_signal_percent(signal_dbm as int)),
    {
        let pct = signal_percent(signal_dbm);
        let mut pct_s = String::new();
        push_decimal(&mut pct_s, pct as u64);
        let strength = Markup::text(pct_s).fg(pct_rgb_rev(pct as u64));
        let head = match self.mode {
            WifiDisplayMode::ShowSsid => {
                let mut name = String::new();
                name.append(" [");
                name.append(ssid);
                name.append("]");
                proof {
                    reveal_strlit(" [");
                    reveal_strlit("]");
                    assert(name@ =~= seq![' ', '['] + ssid@ + seq![']']);
                }
                Markup::text("wifi".to_owned()).append(
                    Markup::text(name).fg(crate::colors::green()),
                )
            },
            WifiDisplayMode::HideSsid => Markup::text("wifi".to_owned()),
        };
        let m = head.append(Markup::text(" ".to_owned())).append(strength).append(
            Markup::text("%".to_owned()),
        );
        assert(m@ =~= spec_wifi_markup(self.mode, ssid@, spec_signal_percent(signal_dbm as int)));
        m
    }
}

/// The wifi machine's non-polling transitions.
#[derive(Debug)]
pub struct WifiMachine {
    pub cfg: WifiConfig,
}

impl WifiMachine {
    pub fn new(cfg: WifiConfig) -> (m: WifiMachine)
        ensures
            m.cfg.interface@ == cfg.interface@,
    {
        WifiMachine { cfg }
    }

    /// The initial state and loading render; the first poll runs at once.
    pub fn init(&self) -> (r: (Wifi, Render, UnitDecision))
        ensures
            r.0.cfg.interface@ == self.cfg.interface@,
            r.0.mode == WifiDisplayMode::ShowSsid,
            r.1@.1 == Health::Degraded,
            r.2 == UnitDecision::PollNow,
    {
        let unit = Wifi::from_cfg(self.cfg.clone());
        let body = Markup::text("wifi ".to_owned()).append(
            Markup::text("loading".to_owned()).fg(crate::colors::violet()),
        );
        (unit, Render { body, health: Health::Degraded }, UnitDecision::PollNow)
    }

    /// Render ticks do nothing for wifi.
    pub fn on_tick(&self, state: &Wifi) -> (r: (Option<Render>, UnitDecision))
        ensures
            r.0 is None,
            r.1 == UnitDecision::Idle,
    {
        (None, UnitDecision::Idle)
    }

    /// A click toggles the name display and asks for a fresh poll.
    pub fn on_click(&self, state: &mut Wifi) -> (r: (Option<Render>, UnitDecision))
        ensures
            final(state).mode == spec_next_wifi_mode(old(state).mode),
            final(state).cfg.interface@ == old(state).cfg.interface@,
            r.0 is None,
            r.1 == UnitDecision::PollNow,
    {
        state.handle_click();
        (None, UnitDecision::PollNow)
    }
}

} // verus!
