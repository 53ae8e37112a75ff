//! Pen input events and their results.
//!
//! These mirror the event vocabulary of the hosting surface: the pen goes
//! down, moves, and comes up at fixed-point positions (see
//! [`crate::geometry`]); handlers report whether the event was consumed and
//! whether surrounding handlers should still see it.

use vstd::prelude::*;

use crate::geometry::FxVector;

verus! {

/// A single input element: the pen's position on the document.
#[derive(Debug, Clone, Copy, PartialEq, Eq, Structural)]
pub struct Element {
    pub pos: FxVector,
}

/// A pen input event. Events that the equation tool does not distinguish
/// (proximity, key presses, text, cancellation) are carried as [`PenEvent::Other`].
#[derive(Debug, Clone, Copy, PartialEq, Eq, Structural)]
pub enum PenEvent {
    Down(Element),
    Up(Element),
    Other,
}

impl PenEvent {
    /// The event's position is within stored-coordinate bounds.
    pub open spec fn wf(self) -> bool {
        match self {
            PenEvent::Down(element) => element.pos.wf(),
            PenEvent::Up(element) => element.pos.wf(),
            PenEvent::Other => true,
        }
    }
}

/// Whether an event, after being handled, is still offered to the
/// surrounding handlers.
#[derive(Debug, Clone, Copy, PartialEq, Eq, Structural)]
pub enum EventPropagation {
    Proceed,
    Stop,
}

/// How far the active tool has progressed with its current interaction.
#[derive(Debug, Clone, Copy, PartialEq, Eq, Structural)]
pub enum PenProgress {
    InProgress,
    Finished,
}

/// What handling one event reported back to the event loop.
#[derive(Debug, Clone, Copy, PartialEq, Eq, Structural)]
pub struct EventResult {
    pub handled: bool,
    pub propagate: EventPropagation,
    pub progress: PenProgress,
}

} // verus!
