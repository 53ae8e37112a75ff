//! The width picker: a draggable handle on a projection line.
//!
//! The picker shows a segment from an anchor to a handle; dragging the
//! handle slides it along a fixed projection line (anchor plus direction),
//! and the segment's length is read off as the picked width. All positions
//! are fixed-point (see [`crate::geometry`]); the drawing of the two nodes
//! and the segment is the rendering layer's business and not modelled.

use vstd::prelude::*;

use crate::events::{EventPropagation, PenEvent};
use crate::geometry::{
    FxVector, spec_clamp_coord, spec_magnitude, clamp_coord,
};
use vstd::arithmetic::div_mod::{lemma_div_is_ordered, lemma_div_is_ordered_by_denominator};

verus! {

/// Radius around the handle within which a pen-down grabs it, in
/// thousandths of a pixel.
pub const HANDLE_RADIUS: i64 = 7000;

/// The smallest length the handle can be dragged to, in thousandths of a
/// pixel.
pub const LAMBDA_FLOOR: i64 = 15000;

/// Whether the picker's handle is currently being dragged.
#[derive(Debug, Clone, Copy, PartialEq, Eq, Structural)]
pub enum WidthPickerState {
    Idle,
    Dragging,
}

/// A width picker: the segment from `begin` to `end`, with `end` dragged
/// along the line through `projection_start` in direction
/// `projection_direction`.
#[derive(Debug, Clone, Copy, PartialEq, Eq, Structural)]
pub struct WidthPickerContext {
    pub begin: FxVector,
    pub end: FxVector,
    pub projection_start: FxVector,
    pub projection_direction: FxVector,
    pub state: WidthPickerState,
}

/// A usable projection direction: roughly unit length (a thousand
/// thousandths), so that projected offsets stay within bounds.
pub open spec fn direction_wf(d: FxVector) -> bool {
    &&& -2000 <= d.x <= 2000
    &&& -2000 <= d.y <= 2000
    &&& 900_000 <= d.x * d.x + d.y * d.y
}

impl WidthPickerContext {
    /// All positions in bounds and the direction usable.
    pub open spec fn wf(self) -> bool {
        &&& self.begin.wf()
        &&& self.end.wf()
        &&& self.projection_start.wf()
        &&& direction_wf(self.projection_direction)
    }

    /// A picker from `starting_coordinates` to `end_coordinates`, dragging
    /// along the line of `projection_start` and `projection_direction`.
    pub fn new(
        starting_coordinates: FxVector,
        end_coordinates: FxVector,
        projection_start: FxVector,
        projection_direction: FxVector,
        initial_state: WidthPickerState,
    ) -> (r: WidthPickerContext)
        requires
            starting_coordinates.wf(),
            end_coordinates.wf(),
            projection_start.wf(),
            direction_wf(projection_direction),
        ensures
            r == (WidthPickerContext {
                begin: starting_coordinates,
                end: end_coordinates,
                projection_start,
                projection_direction,
                state: initial_state,
            }),
            r.wf(),
    {
        WidthPickerContext {
            begin: starting_coordinates,
            end: end_coordinates,
            projection_start,
            projection_direction,
            state: initial_state,
        }
    }

    /// Whether a pen at `pos` grabs the handle: within [`HANDLE_RADIUS`]
    /// of `end`.
    pub open spec fn spec_hits_handle(self, pos: FxVector) -> bool {
        (pos.x - self.end.x) * (pos.x - self.end.x) + (pos.y - self.end.y) * (pos.y - self.end.y)
            <= HANDLE_RADIUS * HANDLE_RADIUS
    }

    /// The picker after one event (see [`WidthPickerContext::update`]).
    pub open spec fn spec_updated(self, event: PenEvent) -> WidthPickerContext {
        match self.state {
            WidthPickerState::Idle => {
                match event {
                    PenEvent::Down(element) => {
                        if self.spec_hits_handle(element.pos) {
                            WidthPickerContext { state: WidthPickerState::Dragging, ..self }
                        } else {
                            self
                        }
                    },
                    _ => self,
                }
            },
            WidthPickerState::Dragging => {
                match event {
                    PenEvent::Down(element) => WidthPickerContext {
                        end: spec_project(
                            self.projection_start,
                            self.projection_direction,
                            element.pos,
                        ),
                        ..self
                    },
                    PenEvent::Up(_) => WidthPickerContext {
                        state: WidthPickerState::Idle,
                        ..self
                    },
                    _ => self,
                }
            },
        }
    }

    /// Whether one event is consumed by the picker (see
    /// [`WidthPickerContext::update`]).
    pub open spec fn spec_update_propagation(self, event: PenEvent) -> EventPropagation {
        match self.state {
            WidthPickerState::Idle => {
                match event {
                    PenEvent::Down(element) => {
                        if self.spec_hits_handle(element.pos) {
                            EventPropagation::Stop
                        } else {
                            EventPropagation::Proceed
                        }
                    },
                    _ => EventPropagation::Proceed,
                }
            },
            WidthPickerState::Dragging => {
                match event {
                    PenEvent::Down(_) => EventPropagation::Stop,
                    PenEvent::Up(_) => EventPropagation::Stop,
                    _ => EventPropagation::Proceed,
                }
            },
        }
    }

    /// Feeds one pen event to the picker. Idle: a pen-down on the handle
    /// starts a drag. Dragging: pen-down moves the handle to the pen's
    /// position projected onto the picker's line, pen-up ends the drag;
    /// both are consumed. Everything else passes through untouched.
    pub fn update(&mut self, pen_event: &PenEvent) -> (r: EventPropagation)
        requires
            old(self).wf(),
            pen_event.wf(),
        ensures
            final(self).wf(),
            *final(self) == old(self).spec_updated(*pen_event),
            r == old(self).spec_update_propagation(*pen_event),
    {
        let mut event_propagation = EventPropagation::Proceed;
        match self.state {
            WidthPickerState::Idle => {
                match pen_event {
                    PenEvent::Down(element) => {
                        if self.hits_handle(element.pos) {
                            self.state = WidthPickerState::Dragging;
                            event_propagation = EventPropagation::Stop;
                        }
                    },
                    _ => {},
                }
            },
            WidthPickerState::Dragging => {
                match pen_event {
                    PenEvent::Down(element) => {
                        self.end = project_vector(
                            self.projection_start,
                            self.projection_direction,
                            element.pos,
                        );
                        event_propagation = EventPropagation::Stop;
                    },
                    PenEvent::Up(_) => {
                        self.state = WidthPickerState::Idle;
                        event_propagation = EventPropagation::Stop;
                    },
                    _ => {},
                }
            },
        }
        event_propagation
    }

    /// How the picker would answer `pen_event`, without feeding it.
    pub fn peek_propagation(&self, pen_event: &PenEvent) -> (r: EventPropagation)
        requires
            self.wf(),
            pen_event.wf(),
        ensures
            r == self.spec_update_propagation(*pen_event),
    {
        match self.state {
            WidthPickerState::Idle => {
                match pen_event {
                    PenEvent::Down(element) => {
                        if self.hits_handle(element.pos) {
                            EventPropagation::Stop
                        } else {
                            EventPropagation::Proceed
                        }
                    },
                    _ => EventPropagation::Proceed,
                }
            },
            WidthPickerState::Dragging => {
                match pen_event {
                    PenEvent::Down(_) => EventPropagation::Stop,
                    PenEvent::Up(_) => EventPropagation::Stop,
                    _ => EventPropagation::Proceed,
                }
            },
        }
    }

    /// Whether the pen at `pos` is on the handle.
    fn hits_handle(&self, pos: FxVector) -> (r: bool)
        requires
            self.wf(),
            pos.wf(),
        ensures
            r == self.spec_hits_handle(pos),
    {
        let difference = pos.sub(self.end);
        let squared = difference.norm_squared();
        squared <= (HANDLE_RADIUS * HANDLE_RADIUS) as u64
    }

    /// The picked length: the distance from anchor to handle, in
    /// thousandths of a pixel, rounded down.
    pub fn length(&self) -> (r: u64)
        requires
            self.wf(),
        ensures
            r == spec_picked_length(*self),
            r <= 4_000_000_000,
    {
        let difference = self.begin.sub(self.end);
        let m = difference.magnitude();
        proof {
            assert(0 <= difference.x * difference.x <= 4_000_000_000_000_000_000)
                by (nonlinear_arith)
                requires
                    -2_000_000_000 <= difference.x <= 2_000_000_000,
            ;
            assert(0 <= difference.y * difference.y <= 4_000_000_000_000_000_000)
                by (nonlinear_arith)
                requires
                    -2_000_000_000 <= difference.y <= 2_000_000_000,
            ;
            assert(m <= 4_000_000_000) by (nonlinear_arith)
                requires
                    (m as int) * (m as int) <= 8_000_000_000_000_000_000,
            ;
        }
        m
    }
}

/// The picked length: the distance from a picker's anchor to its handle,
/// in thousandths of a pixel, rounded down.
pub open spec fn spec_picked_length(w: WidthPickerContext) -> nat {
    spec_magnitude(
        FxVector { x: (w.begin.x - w.end.x) as i64, y: (w.begin.y - w.end.y) as i64 },
    )
}

/// The drag floor applied to a projected offset: never less than
/// [`LAMBDA_FLOOR`] thousandths of a pixel along the projection line.
pub open spec fn spec_clip_lambda(lambda: int) -> int {
    if lambda < LAMBDA_FLOOR {
        LAMBDA_FLOOR as int
    } else {
        lambda
    }
}

/// Applies the drag floor to a projected offset.
pub fn clip_lambda(lambda: i64) -> (r: i64)
    ensures
        r == spec_clip_lambda(lambda as int),
{
    if lambda < LAMBDA_FLOOR {
        LAMBDA_FLOOR
    } else {
        lambda
    }
}

/// `c * lambda / 1000`, truncated toward zero (for a non-negative
/// `lambda`).
pub open spec fn spec_scale_trunc(c: int, lambda: int) -> int {
    if c >= 0 {
        c * lambda / 1000
    } else {
        -((-c) * lambda / 1000)
    }
}

/// The pen position `v` projected onto the line through `s` with
/// direction `d`: the offset along the line is `(v - s)·d / (d·d)`
/// (floored, in thousandths), never less than the drag floor, and the
/// result is `s` plus the direction scaled by that offset, clamped into
/// coordinate bounds.
pub open spec fn spec_project(s: FxVector, d: FxVector, v: FxVector) -> FxVector {
    let num = (v.x - s.x) * d.x + (v.y - s.y) * d.y;
    let dd = d.x * d.x + d.y * d.y;
    let lambda = spec_clip_lambda(if num <= 0 {
        0
    } else {
        num * 1000 / dd
    });
    FxVector {
        x: spec_clamp_coord(s.x + spec_scale_trunc(d.x as int, lambda)) as i64,
        y: spec_clamp_coord(s.y + spec_scale_trunc(d.y as int, lambda)) as i64,
    }
}

/// Computes [`spec_project`]; every intermediate value is proved to fit.
pub fn project_vector(s: FxVector, d: FxVector, v: FxVector) -> (r: FxVector)
    requires
        s.wf(),
        v.wf(),
        direction_wf(d),
    ensures
        r == spec_project(s, d, v),
        r.wf(),
{
    proof {
        assert((v.x - s.x) * d.x <= 2_000_000_000i64 * 2000 && (v.x - s.x) * d.x >= -(
        2_000_000_000i64 * 2000)) by (nonlinear_arith)
            requires
                -2_000_000_000 <= v.x - s.x <= 2_000_000_000,
                -2000 <= d.x <= 2000,
        ;
        assert((v.y - s.y) * d.y <= 2_000_000_000i64 * 2000 && (v.y - s.y) * d.y >= -(
        2_000_000_000i64 * 2000)) by (nonlinear_arith)
            requires
                -2_000_000_000 <= v.y - s.y <= 2_000_000_000,
                -2000 <= d.y <= 2000,
        ;
        assert(0 <= d.x * d.x <= 2000i64 * 2000) by (nonlinear_arith)
            requires
                -2000 <= d.x <= 2000,
        ;
        assert(0 <= d.y * d.y <= 2000i64 * 2000) by (nonlinear_arith)
            requires
                -2000 <= d.y <= 2000,
        ;
    }
    let num = (v.x - s.x) * d.x + (v.y - s.y) * d.y;
    let dd = d.x * d.x + d.y * d.y;
    let lambda_raw: i64 = if num <= 0 {
        0
    } else {
        proof {
            lemma_div_is_ordered_by_denominator((num * 1000) as int, 900_000, dd as int);
            lemma_div_is_ordered((num * 1000) as int, 8_000_000_000_000_000, 900_000);
        }
        (num * 1000) / dd
    };
    let lambda = clip_lambda(lambda_raw);
    proof {
        assert(0 <= lambda <= 8_888_888_889i64);
        assert(d.x * lambda <= 2000i64 * 8_888_888_889 && d.x * lambda >= -(2000i64
            * 8_888_888_889)) by (nonlinear_arith)
            requires
                -2000 <= d.x <= 2000,
                0 <= lambda <= 8_888_888_889i64,
        ;
        assert(d.y * lambda <= 2000i64 * 8_888_888_889 && d.y * lambda >= -(2000i64
            * 8_888_888_889)) by (nonlinear_arith)
            requires
                -2000 <= d.y <= 2000,
                0 <= lambda <= 8_888_888_889i64,
        ;
    }
    let offset_x = scale_trunc(d.x, lambda);
    let offset_y = scale_trunc(d.y, lambda);
    FxVector { x: clamp_coord(s.x + offset_x), y: clamp_coord(s.y + offset_y) }
}

/// `c * lambda / 1000`, truncated toward zero.
fn scale_trunc(c: i64, lambda: i64) -> (r: i64)
    requires
        0 <= lambda,
        -2000 <= c <= 2000,
        -18_000_000_000_000 <= c * lambda <= 18_000_000_000_000,
    ensures
        r == spec_scale_trunc(c as int, lambda as int),
        -18_000_000_000_000 <= r <= 18_000_000_000_000,
{
    if c >= 0 {
        proof {
            assert(0 <= c * lambda) by (nonlinear_arith)
                requires
                    c >= 0,
                    lambda >= 0,
            ;
        }
        (c * lambda) / 1000
    } else {
        proof {
            assert((-c) * lambda == -(c * lambda)) by (nonlinear_arith);
            assert(0 <= (-c) * lambda) by (nonlinear_arith)
                requires
                    c < 0,
                    lambda >= 0,
            ;
        }
        -(((-c) * lambda) / 1000)
    }
}

} // verus!
