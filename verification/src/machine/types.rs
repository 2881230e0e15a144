//! The render and error vocabulary shared by every unit machine.
use vstd::prelude::*;
use crate::render::markup::{Markup, SpanV};

verus! {

#[derive(Debug, Clone, Copy, PartialEq, Eq, Structural)]
pub enum Health {
    Good,
    Degraded,
    Error,
}

/// One published rendering of a unit: its body and how healthy the unit is.
#[derive(Debug)]
pub struct Render {
    pub body: Markup,
    pub health: Health,
}

impl View for Render {
    type V = (Seq<SpanV>, Health);

    open spec fn view(&self) -> (Seq<SpanV>, Health) {
        (self.body@, self.health)
    }
}

impl Clone for Render {
    /// The clone denotes the same body and health.
    fn clone(&self) -> (r: Self)
        ensures
            r@ == self@,
    {
        Render { body: self.body.clone(), health: self.health }
    }
}

impl Render {
    /// A healthy render around the given body.
    pub fn ok(body: Markup) -> (r: Render)
        ensures
            r@ == (body@, Health::Good),
    {
        Render { body, health: Health::Good }
    }

    /// An error render around the given body.
    pub fn error(body: Markup) -> (r: Render)
        ensures
            r@ == (body@, Health::Error),
    {
        Render { body, health: Health::Error }
    }
}

/// The tri-state outcome of a poll cycle.
#[derive(Debug, Clone)]
pub enum Availability<T, E> {
    Loading,
    Ready(T),
    Failed(E),
}

impl<T, E> Availability<T, E> {
    /// The not-yet-polled state.
    pub fn loading() -> (r: Self)
        ensures
            r is Loading,
    {
        Availability::Loading
    }
}

/// What a unit-machine transition asks of the scheduler: wait, or bring the
/// next poll forward to now.
#[derive(Debug, Clone, Copy, PartialEq, Eq, Structural)]
pub enum UnitDecision {
    Idle,
    PollNow,
}

/// An infrastructure-level failure: a poll timeout, a transport failure with
/// its message, or a non-2xx HTTP status.
#[derive(Debug, Clone)]
pub enum TransportError {
    Timeout,
    Transport(String),
    Http { status: u16 },
}

impl View for TransportError {
    type V = TransportErrorV;

    open spec fn view(&self) -> TransportErrorV {
        match self {
            TransportError::Timeout => TransportErrorV::Timeout,
            TransportError::Transport(m) => TransportErrorV::Transport(m@),
            TransportError::Http { status } => TransportErrorV::Http(*status as int),
        }
    }
}

/// The mathematical value of a transport error.
pub enum TransportErrorV {
    Timeout,
    Transport(Seq<char>),
    Http(int),
}

/// A poll failure: infrastructure-level, or reported by the unit itself.
#[derive(Debug, Clone)]
pub enum PollError<E> {
    Transport(TransportError),
    Unit(E),
}

} // verus!
