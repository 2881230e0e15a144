//! The time unit: its display toggle and the uptime-file parse; the clock
//! formatting itself is an external collaborator.
use vstd::prelude::*;
use vstd::string::StringExecFns;
use crate::machine::types::{Availability, Health, PollError, Render, UnitDecision};
use crate::render::markup::Markup;
use crate::strutil::{all_digits, bytes_to_string, spec_chars_of, spec_digits_val, spec_find_char};
use crate::units::cpu::spec_tokens;

verus! {

/// The time unit's configuration: the clock format handed to the formatter.
#[derive(Debug)]
pub struct TimeConfig {
    pub format: String,
}

impl Clone for TimeConfig {
    /// The clone denotes the same format.
    fn clone(&self) -> (r: Self)
        ensures
            r.format@ == self.format@,
    {
        TimeConfig { format: self.format.clone() }
    }
}

/// The time unit: whether it shows the clock or the uptime and load view.
#[derive(Debug)]
pub struct Time {
    pub format: String,
    pub doing_uptime: bool,
}

impl Time {
    /// A fresh time unit showing the clock.
    pub fn from_cfg(cfg: TimeConfig) -> (t: Time)
        ensures
            t.format@ == cfg.format@,
            !t.doing_uptime,
    {
        Time { format: cfg.format, doing_uptime: false }
    }

    /// A click toggles between the clock and the uptime view.
    pub fn handle_click(&mut self)
        ensures
            final(self).doing_uptime == !old(self).doing_uptime,
            final(self).format@ == old(self).format@,
    {
        self.doing_uptime = !self.doing_uptime;
    }
}

/// The whole seconds at the front of the uptime file: the first token's
/// digits before the decimal point.
pub open spec fn spec_uptime_secs(s: Seq<char>) -> Option<int> {
    let toks = spec_tokens(s);
    if toks.len() == 0 {
        None
    } else {
        let t = toks[0];
        let dot = spec_find_char(t, '.', 0);
        let digits = t.take(dot);
        if all_digits(digits) && spec_digits_val(digits) <= u64::MAX {
            Some(spec_digits_val(digits))
        } else {
            None
        }
    }
}

/// Reads the whole seconds of uptime from the uptime file's bytes.
pub fn parse_uptime_secs(bytes: &Vec<u8>) -> (r: Option<u64>)
    ensures
        match r {
            Some(v) => spec_uptime_secs(spec_chars_of(bytes@)) == Some(v as int),
            None => spec_uptime_secs(spec_chars_of(bytes@)) is None,
        },
{
    let s = bytes_to_string(bytes);
    let toks = crate::units::cpu::split_tokens(s.as_str());
    if toks.len() == 0 {
        return None;
    }
    let t = &toks[0];
    let tn = t.as_str().unicode_len();
    let dot = crate::strutil::find_char(t.as_str(), '.', 0);
    let digits = t.as_str().substring_char(0, dot);
    assert(digits@ == toks.deep_view()[0].take(spec_find_char(toks.deep_view()[0], '.', 0)));
    crate::strutil::parse_u64(digits)
}

/// The time machine: all transitions are pure; the poll's clock reading is
/// the event loop's.
#[derive(Debug)]
pub struct TimeMachine {
    pub cfg: TimeConfig,
}

impl TimeMachine {
    pub fn new(cfg: TimeConfig) -> (m: TimeMachine)
        ensures
            m.cfg.format@ == cfg.format@,
    {
        TimeMachine { cfg }
    }

    /// The initial state and loading render; the first poll runs at once.
    pub fn init(&self) -> (r: (Time, Render, UnitDecision))
        ensures
            r.0.format@ == self.cfg.format@,
            !r.0.doing_uptime,
            r.1@.1 == Health::Degraded,
            r.2 == UnitDecision::PollNow,
    {
        let unit = Time::from_cfg(self.cfg.clone());
        let body = Markup::text("time ".to_owned()).append(
            Markup::text("loading".to_owned()).fg(crate::colors::violet()),
        );
        (unit, Render { body, health: Health::Degraded }, UnitDecision::PollNow)
    }

    /// Render ticks do nothing for the clock.
    pub fn on_tick(&self, state: &Time) -> (r: (Option<Render>, UnitDecision))
        ensures
            r.0 is None,
            r.1 == UnitDecision::Idle,
    {
        (None, UnitDecision::Idle)
    }

    /// A click toggles the view and asks for a fresh poll.
    pub fn on_click(&self, state: &mut Time) -> (r: (Option<Render>, UnitDecision))
        ensures
            final(state).doing_uptime == !old(state).doing_uptime,
            final(state).format@ == old(state).format@,
            r.0 is None,
            r.1 == UnitDecision::PollNow,
    {
        state.handle_click();
        (None, UnitDecision::PollNow)
    }

    /// A successful poll's markup is published as-is.
    pub fn on_poll_ok(&self, state: &Time, body: Markup) -> (r: (
        Availability<Markup, PollError<String>>,
        UnitDecision,
    ))
        ensures
            r.0 matches Availability::Ready(b) && b@ == body@,
            r.1 == UnitDecision::Idle,
    {
        (Availability::Ready(body), UnitDecision::Idle)
    }
}

} // verus!
