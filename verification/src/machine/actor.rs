//! The per-unit scheduler: one actor drives a unit machine against a shared
//! clock, a click stream and a movable poll deadline, with coalesced click
//! buffering, a fixed poll timeout, and backoff between polls.
//!
//! The actor's decisions are plain functions of its scheduling state and the
//! event at hand; the surrounding event loop performs the waiting and the
//! calls into the unit machine and feeds the results back in.
use vstd::prelude::*;
use vstd::string::StringExecFns;
use crate::machine::types::{Availability, Health, PollError, Render, TransportError};
use crate::protocol::ClickEvent;
use crate::render::markup::{Markup, SpanV, Style};
use crate::strutil::{ascii_lower, push_decimal, spec_contains, spec_decimal, spec_lower,
    spec_truncate, truncate_chars};

verus! {

/// The fixed bound on one poll attempt, in milliseconds.
pub const POLL_TIMEOUT_MS: u64 = 10000;

/// The scheduling state of one unit's actor.
pub struct ActorSched {
    /// How far the next poll is pushed out after each poll, in ms: the
    /// unit's poll interval floored by the global minimum.
    pub backoff_ms: u64,
    /// The absolute time of the next poll, in ms.
    pub next_poll_at: u64,
    /// Whether a poll is currently in flight.
    pub in_flight: bool,
    /// The one click buffered while a poll is in flight.
    pub pending_click: Option<ClickEvent>,
}

/// What handling a click yields: the state after it, and the click to apply
/// right now, if any.
pub open spec fn spec_on_click(s: ActorSched, c: ClickEvent) -> (ActorSched, Option<ClickEvent>) {
    if s.in_flight {
        (ActorSched { pending_click: Some(c), ..s }, None)
    } else {
        (s, Some(c))
    }
}

/// What folding a unit decision at time `now` yields: `PollNow` pulls the
/// next poll to now, `Idle` changes nothing.
pub open spec fn spec_apply_decision(
    s: ActorSched,
    now: u64,
    d: crate::machine::types::UnitDecision,
) -> ActorSched {
    if d is PollNow {
        ActorSched { next_poll_at: now, ..s }
    } else {
        s
    }
}

/// What finishing a poll at time `now` yields: the poll is no longer in
/// flight, the next poll moves out by the backoff unless the decision pulls
/// it to now, and the buffered click (if any) is handed back to be applied
/// exactly once.
pub open spec fn spec_finish_poll(
    s: ActorSched,
    now: u64,
    d: crate::machine::types::UnitDecision,
) -> (ActorSched, Option<ClickEvent>) {
    let next = if d is PollNow {
        now
    } else {
        (now + s.backoff_ms) as u64
    };
    (
        ActorSched {
            in_flight: false,
            pending_click: None,
            next_poll_at: next,
            backoff_ms: s.backoff_ms,
        },
        s.pending_click,
    )
}

impl ActorSched {
    /// A fresh scheduler: the backoff is the unit's poll interval floored by
    /// the global minimum, and the first poll is due immediately.
    pub fn new(poll_interval_ms: u64, min_interval_ms: u64, now: u64) -> (s: ActorSched)
        ensures
            s.backoff_ms == if poll_interval_ms >= min_interval_ms {
                poll_interval_ms
            } else {
                min_interval_ms
            },
            s.next_poll_at == now,
            !s.in_flight,
            s.pending_click is None,
    {
        let backoff = if poll_interval_ms >= min_interval_ms {
            poll_interval_ms
        } else {
            min_interval_ms
        };
        ActorSched { backoff_ms: backoff, next_poll_at: now, in_flight: false, pending_click: None }
    }

    /// Whether the poll deadline has elapsed and no poll is in flight.
    pub fn poll_due(&self, now: u64) -> (r: bool)
        ensures
            r == (!self.in_flight && now >= self.next_poll_at),
    {
        !self.in_flight && now >= self.next_poll_at
    }

    /// Folds a unit decision into the schedule.
    pub fn apply_decision(&mut self, now: u64, d: crate::machine::types::UnitDecision)
        ensures
            *final(self) == spec_apply_decision(*old(self), now, d),
    {
        if matches!(d, crate::machine::types::UnitDecision::PollNow) {
            self.next_poll_at = now;
        }
    }

    /// The steady-state re-poll cadence: a poll tick unconditionally pulls
    /// the deadline to now.
    pub fn on_poll_tick(&mut self, now: u64)
        ensures
            *final(self) == (ActorSched { next_poll_at: now, ..*old(self) }),
    {
        self.next_poll_at = now;
    }

    /// Handles a click: applied immediately when no poll is in flight;
    /// buffered — replacing any previously buffered click — otherwise.
    pub fn on_click(&mut self, click: ClickEvent) -> (deliver: Option<ClickEvent>)
        ensures
            (*final(self), deliver) == spec_on_click(*old(self), click),
    {
        if self.in_flight {
            self.pending_click = Some(click);
            None
        } else {
            Some(click)
        }
    }

    /// Marks the poll as started.
    pub fn begin_poll(&mut self)
        requires
            !old(self).in_flight,
        ensures
            *final(self) == (ActorSched { in_flight: true, ..*old(self) }),
    {
        self.in_flight = true;
    }

    /// Finishes a poll: advances the deadline by the backoff (a `PollNow`
    /// decision wins and collapses the wait), and hands back the buffered
    /// click so it is applied exactly once.
    pub fn finish_poll(&mut self, now: u64, d: crate::machine::types::UnitDecision) -> (flushed:
        Option<ClickEvent>)
        requires
            old(self).in_flight,
            now + old(self).backoff_ms <= u64::MAX,
        ensures
            (*final(self), flushed) == spec_finish_poll(*old(self), now, d),
    {
        self.in_flight = false;
        let flushed = self.pending_click.take();
        self.next_poll_at = if matches!(d, crate::machine::types::UnitDecision::PollNow) {
            now
        } else {
            now + self.backoff_ms
        };
        flushed
    }
}

/// Click coalescing: when two clicks arrive while a poll is in flight,
/// neither is applied at once, only the most recent one is handed back when
/// the poll finishes, and the buffer is then empty — so that click is
/// applied exactly once and the earlier one never is.
pub proof fn lemma_click_coalescing(
    s0: ActorSched,
    a: ClickEvent,
    b: ClickEvent,
    now: u64,
    d: crate::machine::types::UnitDecision,
)
    requires
        s0.in_flight,
    ensures
        ({
            let (s1, d1) = spec_on_click(s0, a);
            let (s2, d2) = spec_on_click(s1, b);
            let (s3, flushed) = spec_finish_poll(s2, now, d);
            d1 is None && d2 is None && flushed == Some(b) && s3.pending_click is None
                && !s3.in_flight
        }),
{
}

/// The body of every transport-level error render: the lowercased unit name,
/// a colon, and the detail, all in the error color.
pub open spec fn spec_error_body(name: Seq<char>, detail: Seq<char>) -> Seq<SpanV> {
    seq![
        SpanV::Styled(
            Style { fg: Some(crate::colors::spec_red()), bg: None },
            seq![SpanV::Text(spec_lower(name) + detail)],
        ),
    ]
}

/// What the default unit-error formatter yields: a verbose rate-limit
/// message collapses to a short tag, anything else is cut to 80 characters.
pub open spec fn spec_format_unit_error(msg: Seq<char>) -> Seq<char> {
    if spec_contains(msg, "429"@) {
        "HTTP 429"@
    } else {
        spec_truncate(msg, 80)
    }
}

/// The default unit-error formatter: collapses messages that mention the
/// HTTP 429 status to a short tag and truncates everything else.
pub fn format_unit_error(msg: &str) -> (m: Markup)
    ensures
        m@ =~= seq![SpanV::Text(spec_format_unit_error(msg@))],
{
    if crate::strutil::contains_substr(msg, "429") {
        let mut s = String::new();
        s.append("HTTP 429");
        assert(s@ =~= "HTTP 429"@);
        Markup::text(s)
    } else {
        Markup::text(truncate_chars(msg, 80))
    }
}

/// Renders a poll failure: always `Error` health, the unit's lowercased
/// name, and the failure's detail in the error color. A unit-reported
/// failure arrives here already formatted by the unit's error hook.
pub fn render_poll_error(name: &str, err: PollError<Markup>) -> (r: Render)
    ensures
        r@.1 == Health::Error,
        match err {
            PollError::Transport(TransportError::Timeout) => r@.0 == spec_error_body(
                name@,
                ": timeout"@,
            ),
            PollError::Transport(TransportError::Transport(msg)) => r@.0 == spec_error_body(
                name@,
                ": "@ + msg@,
            ),
            PollError::Transport(TransportError::Http { status }) => r@.0 == spec_error_body(
                name@,
                ": HTTP "@ + spec_decimal(status as int),
            ),
            PollError::Unit(m) => r@.0 =~= seq![
                SpanV::Styled(
                    Style { fg: Some(crate::colors::spec_red()), bg: None },
                    seq![SpanV::Text(spec_lower(name@) + ": "@)] + m@,
                ),
            ],
        },
{
    let lower = ascii_lower(name);
    match err {
        PollError::Transport(TransportError::Timeout) => {
            let mut s = lower;
            s.append(": timeout");
            let body = Markup::text(s).fg(crate::colors::red());
            assert(body@ =~~= spec_error_body(name@, ": timeout"@));
            Render { body, health: Health::Error }
        },
        PollError::Transport(TransportError::Transport(msg)) => {
            let mut s = lower;
            s.append(": ");
            s.append(msg.as_str());
            assert(s@ =~~= spec_lower(name@) + (": "@ + msg@));
            let body = Markup::text(s).fg(crate::colors::red());
            assert(body@ =~~= spec_error_body(name@, ": "@ + msg@));
            Render { body, health: Health::Error }
        },
        PollError::Transport(TransportError::Http { status }) => {
            let mut s = lower;
            s.append(": HTTP ");
            push_decimal(&mut s, status as u64);
            assert(s@ =~~= spec_lower(name@) + (": HTTP "@ + spec_decimal(status as int)));
            let body = Markup::text(s).fg(crate::colors::red());
            assert(body@ =~~= spec_error_body(name@, ": HTTP "@ + spec_decimal(status as int)));
            Render { body, health: Health::Error }
        },
        PollError::Unit(m) => {
            let mut s = lower;
            s.append(": ");
            let body = Markup::text(s).append(m).fg(crate::colors::red());
            Render { body, health: Health::Error }
        },
    }
}

/// Folds a poll cycle's availability into a render: loading shows a violet
/// placeholder with `Degraded` health, a ready payload is published as-is
/// with `Good` health, and a failure goes through the error path.
pub fn render_availability(name: &str, availability: Availability<Markup, PollError<Markup>>) -> (r:
    Render)
    ensures
        match availability {
            Availability::Loading => r@.0 == seq![
                SpanV::Styled(
                    Style { fg: Some(crate::colors::spec_violet()), bg: None },
                    seq![SpanV::Text(spec_lower(name@) + " loading"@)],
                ),
            ] && r@.1 == Health::Degraded,
            Availability::Ready(body) => r@ == (body@, Health::Good),
            Availability::Failed(err) => r@.1 == Health::Error,
        },
        match availability {
            Availability::Failed(PollError::Transport(TransportError::Timeout)) => r@.0
                == spec_error_body(name@, ": timeout"@),
            Availability::Failed(PollError::Transport(TransportError::Transport(msg))) => r@.0
                == spec_error_body(name@, ": "@ + msg@),
            Availability::Failed(PollError::Transport(TransportError::Http { status })) => r@.0
                == spec_error_body(name@, ": HTTP "@ + spec_decimal(status as int)),
            Availability::Failed(PollError::Unit(m)) => r@.0 =~= seq![
                SpanV::Styled(
                    Style { fg: Some(crate::colors::spec_red()), bg: None },
                    seq![SpanV::Text(spec_lower(name@) + ": "@)] + m@,
                ),
            ],
            _ => true,
        },
{
    match availability {
        Availability::Loading => {
            let mut s = ascii_lower(name);
            s.append(" loading");
            let body = Markup::text(s).fg(crate::colors::violet());
            assert(body@ =~~= seq![
                SpanV::Styled(
                    Style { fg: Some(crate::colors::spec_violet()), bg: None },
                    seq![SpanV::Text(spec_lower(name@) + " loading"@)],
                ),
            ]);
            Render { body, health: Health::Degraded }
        },
        Availability::Ready(body) => Render::ok(body),
        Availability::Failed(err) => render_poll_error(name, err),
    }
}

/// Folds a failed poll into its render and decision: the unit's own failure
/// goes through the default error formatter first, every failure renders
/// through the error path, and the decision after any failure is to wait
/// out the backoff.
pub fn render_poll_failure(name: &str, err: PollError<String>) -> (r: (
    Render,
    crate::machine::types::UnitDecision,
))
    ensures
        r.0@.1 == Health::Error,
        r.1 == crate::machine::types::UnitDecision::Idle,
        match err {
            PollError::Transport(TransportError::Timeout) => r.0@.0 == spec_error_body(
                name@,
                ": timeout"@,
            ),
            PollError::Transport(TransportError::Transport(msg)) => r.0@.0 == spec_error_body(
                name@,
                ": "@ + msg@,
            ),
            PollError::Transport(TransportError::Http { status }) => r.0@.0 == spec_error_body(
                name@,
                ": HTTP "@ + spec_decimal(status as int),
            ),
            PollError::Unit(msg) => r.0@.0 =~= seq![
                SpanV::Styled(
                    Style { fg: Some(crate::colors::spec_red()), bg: None },
                    seq![SpanV::Text(spec_lower(name@) + ": "@)] + seq![
                        SpanV::Text(spec_format_unit_error(msg@)),
                    ],
                ),
            ],
        },
{
    let render = match err {
        PollError::Transport(t) => render_poll_error(name, PollError::Transport(t)),
        PollError::Unit(msg) => render_poll_error(
            name,
            PollError::Unit(format_unit_error(msg.as_str())),
        ),
    };
    (render, crate::machine::types::UnitDecision::Idle)
}

/// The globally-unique display name a unit is addressed by: its kind and its
/// handle, joined by a double colon.
pub fn display_name(kind: &str, handle: u64) -> (r: String)
    ensures
        r@ == kind@ + "::"@ + spec_decimal(handle as int),
{
    let mut s = String::new();
    s.append(kind);
    s.append("::");
    push_decimal(&mut s, handle);
    assert(s@ =~= kind@ + "::"@ + spec_decimal(handle as int));
    s
}

} // verus!
