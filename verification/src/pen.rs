//! The equation pen: the interaction state machine of the active tool.
//!
//! One instance exists per active tool. It decides, from the pen's state
//! and each incoming event, how the tool moves between idling, picking an
//! initial width, and awaiting compilation of one equation object — and
//! when a compilation request may be handed to the compiler.
//!
//! The document store, the undo record, the rendering pipeline and the
//! periodic tick are external collaborators. The host resolves what they
//! know (the hit-tested object under the pen, the freshly inserted key,
//! the awaited object's transform axis) into an [`EventContext`] before
//! each call, and carries out afterwards what the returned
//! [`EngineDirectives`] ask of it.

use vstd::prelude::*;

use crate::compiler::{CompilationTask, EquationCompilerTask};
use crate::config::EquationConfig;
use crate::events::{EventPropagation, EventResult, PenEvent, PenProgress};
use crate::geometry::{
    clamp_coord, mm_to_px, px_to_mm, spec_clamp_coord, spec_magnitude, spec_mm_to_px,
    spec_px_to_mm, FxVector,
};
use crate::stroke::{EquationImage, Rectangle};
use crate::widget_flags::{spec_widget_flags_default, WidgetFlags};
use crate::width_picker::{
    direction_wf, spec_picked_length, spec_scale_trunc, WidthPickerContext, WidthPickerState,
};
use vstd::arithmetic::div_mod::lemma_div_by_multiple;

verus! {

/// Per-object gate controlling whether periodic compilation checks may
/// submit work to the compiler.
#[derive(Debug, Clone, Copy, PartialEq, Eq, Structural)]
pub enum EquationCompilationPolicy {
    Allow,
    Deny,
}

/// What the pen remembers while it awaits compilation: which object it is
/// editing and whether periodic checks may submit it.
#[derive(Debug, Clone, Copy, PartialEq, Eq, Structural)]
pub struct CompilationInfo {
    pub stroke_key: u64,
    pub equation_compilation_policy: EquationCompilationPolicy,
}

/// The authoring lifecycle of the active equation tool.
#[derive(Debug, Clone, Copy, PartialEq, Eq, Structural)]
pub enum EquationState {
    Idle,
    InitialWidthPick(FxVector),
    AwaitCompilation(CompilationInfo),
}

/// An equation object the host's hit test found under the pen, together
/// with what the pen needs to know of it.
#[derive(Debug, Clone, Copy)]
pub struct HoveredEquation {
    pub stroke_key: u64,
    pub rectangle: Rectangle,
    pub equation_config: EquationConfig,
}

/// What the host resolved from its collaborators before handing an event
/// to the pen: the hit-tested equation object (for a pen-down while
/// idle), the key of the object it inserted when the pen asked for one
/// (see [`Equation::requests_new_object`]), the awaited object's
/// transform axis, and the document resolution.
#[derive(Debug, Clone, Copy)]
pub struct EventContext {
    pub hovered: Option<HoveredEquation>,
    pub inserted_key: Option<u64>,
    pub target_x_axis: Option<FxVector>,
    pub dpi: u32,
}

impl EventContext {
    /// Geometry in bounds and the resolution usable.
    pub open spec fn wf(self) -> bool {
        &&& 1 <= self.dpi <= 100_000
        &&& match self.hovered {
            Some(h) => h.rectangle.wf() && h.equation_config.page_width <= 10_000_000_000,
            None => true,
        }
        &&& match self.target_x_axis {
            Some(a) => a.wf(),
            None => true,
        }
    }
}

/// What the host must do after an event was handled: record the store
/// mutation for undo, regenerate the viewport's rendering, and write the
/// shared style configuration into the awaited object.
#[derive(Debug, Clone, Copy, PartialEq, Eq, Structural)]
pub struct EngineDirectives {
    pub record_history: bool,
    pub regenerate_rendering: bool,
    pub update_stored_config: bool,
}

/// The equation pen instance: its lifecycle state, the width picker shown
/// alongside (if any), and how the picker answered the previous event —
/// the transition from a consumed to an unconsumed event marks the end of
/// a drag.
#[derive(Debug, Clone)]
pub struct Equation {
    pub state: EquationState,
    pub equation_width: Option<WidthPickerContext>,
    pub last_widget_event_propagation: EventPropagation,
}

impl Default for Equation {
    /// A fresh tool instance: idle, with no width picker shown.
    fn default() -> (r: Equation)
        ensures
            r.state is Idle,
            r.equation_width is None,
            r.last_widget_event_propagation is Proceed,
            r.wf(),
    {
        Equation {
            state: EquationState::Idle,
            equation_width: None,
            last_widget_event_propagation: EventPropagation::Proceed,
        }
    }
}

/// How the pen's width picker answers an event, before any transition.
pub open spec fn spec_picker_propagation(
    width: Option<WidthPickerContext>,
    event: PenEvent,
) -> EventPropagation {
    match width {
        Some(w) => w.spec_update_propagation(event),
        None => EventPropagation::Proceed,
    }
}

/// The compilation request a periodic check submits: only while the pen
/// awaits compilation with the policy set to allow, and only when the
/// store still holds the awaited object — a fresh snapshot of that
/// object's current text and configuration.
pub open spec fn spec_check_equation_compilation(
    pen: Equation,
    equation: Option<&EquationImage>,
) -> Option<EquationCompilerTask> {
    match pen.state {
        EquationState::AwaitCompilation(info) => {
            if info.equation_compilation_policy is Allow {
                match equation {
                    Some(eq) => Some(
                        EquationCompilerTask::Compile(
                            info.stroke_key,
                            CompilationTask {
                                equation_code: eq.equation_code,
                                equation_config: eq.equation_config,
                            },
                        ),
                    ),
                    None => None,
                }
            } else {
                None
            }
        },
        _ => None,
    }
}

impl Equation {
    /// State and picker geometry in bounds.
    pub open spec fn wf(self) -> bool {
        &&& match self.state {
            EquationState::InitialWidthPick(pos) => pos.wf(),
            _ => true,
        }
        &&& match self.equation_width {
            Some(w) => w.wf(),
            None => true,
        }
    }

    /// The key of the object the pen is awaiting compilation for, if any.
    pub fn awaited_stroke_key(&self) -> (r: Option<u64>)
        ensures
            match self.state {
                EquationState::AwaitCompilation(info) => r == Some(info.stroke_key),
                _ => r is None,
            },
    {
        match &self.state {
            EquationState::AwaitCompilation(info) => Some(info.stroke_key),
            _ => None,
        }
    }

    /// Builds the compilation request of one periodic check, if the
    /// policy allows one; `equation` is the stored object for the awaited
    /// key, as the store resolved it. See
    /// [`spec_check_equation_compilation`]. The host sends the returned
    /// task to the compiler.
    pub fn check_equation_compilation(&self, equation: Option<&EquationImage>) -> (r: Option<
        EquationCompilerTask,
    >)
        ensures
            r == spec_check_equation_compilation(*self, equation),
    {
        match &self.state {
            EquationState::AwaitCompilation(info) => {
                match info.equation_compilation_policy {
                    EquationCompilationPolicy::Allow => {
                        match equation {
                            Some(eq) => Some(
                                EquationCompilerTask::Compile(
                                    info.stroke_key,
                                    CompilationTask::new(eq),
                                ),
                            ),
                            None => None,
                        }
                    },
                    EquationCompilationPolicy::Deny => None,
                }
            },
            _ => None,
        }
    }

    /// The current text of a stored equation object, as the store
    /// resolved it.
    pub fn get_current_equation_code(equation: Option<&EquationImage>) -> (r: Option<String>)
        ensures
            match equation {
                Some(eq) => r is Some && r->Some_0 == eq.equation_code,
                None => r is None,
            },
    {
        match equation {
            Some(eq) => Some(eq.equation_code.clone()),
            None => None,
        }
    }

    /// Writes the shared style configuration through to the awaited
    /// object. User edits always write through, whatever the policy; with
    /// no compilation awaited nothing happens.
    pub fn mark_updated_penconfig(
        &self,
        equation: &mut EquationImage,
        pens_equation_config: &EquationConfig,
    )
        ensures
            self.state is AwaitCompilation ==> final(equation).equation_config
                == *pens_equation_config && final(equation).equation_code == old(
                equation,
            ).equation_code && final(equation).vector_image == old(equation).vector_image,
            !(self.state is AwaitCompilation) ==> *final(equation) == *old(equation),
    {
        match &self.state {
            EquationState::AwaitCompilation(_) => {
                equation.equation_config = *pens_equation_config;
            },
            _ => {},
        }
    }

    /// Writes new equation text through to the awaited object (string
    /// slice form). User edits always write through, whatever the policy.
    pub fn mark_updated_text_str_ref(&self, equation: &mut EquationImage, new_equation_code: &str)
        ensures
            self.state is AwaitCompilation ==> final(equation).equation_code@
                == new_equation_code@ && final(equation).equation_config == old(
                equation,
            ).equation_config && final(equation).vector_image == old(equation).vector_image,
            !(self.state is AwaitCompilation) ==> *final(equation) == *old(equation),
    {
        match &self.state {
            EquationState::AwaitCompilation(_) => {
                let mut code = String::new();
                code.append(new_equation_code);
                equation.equation_code = code;
            },
            _ => {},
        }
    }

    /// Writes new equation text through to the awaited object.
    pub fn mark_updated_text(&self, equation: &mut EquationImage, new_equation_code: String)
        ensures
            self.state is AwaitCompilation ==> final(equation).equation_code
                == new_equation_code && final(equation).equation_config == old(
                equation,
            ).equation_config && final(equation).vector_image == old(equation).vector_image,
            !(self.state is AwaitCompilation) ==> *final(equation) == *old(equation),
    {
        match &self.state {
            EquationState::AwaitCompilation(_) => {
                equation.equation_code = new_equation_code;
            },
            _ => {},
        }
    }

    /// Toggles the compilation policy of the awaited object. Returns the
    /// policy now in force (or `None` when no compilation is awaited),
    /// and — when the flip was `Deny` to `Allow` — the immediate
    /// compilation check's request, so that enabling compilation does not
    /// wait for the next periodic tick. `equation` is the stored object
    /// for the awaited key.
    pub fn toggle_compilation(&mut self, equation: Option<&EquationImage>) -> (r: (
        Option<EquationCompilationPolicy>,
        Option<EquationCompilerTask>,
    ))
        ensures
            final(self).equation_width == old(self).equation_width,
            final(self).last_widget_event_propagation == old(self).last_widget_event_propagation,
            match old(self).state {
                EquationState::AwaitCompilation(info) => {
                    let flipped = if info.equation_compilation_policy is Allow {
                        EquationCompilationPolicy::Deny
                    } else {
                        EquationCompilationPolicy::Allow
                    };
                    &&& final(self).state == EquationState::AwaitCompilation(
                        CompilationInfo {
                            stroke_key: info.stroke_key,
                            equation_compilation_policy: flipped,
                        },
                    )
                    &&& r.0 == Some(flipped)
                    &&& r.1 == spec_check_equation_compilation(*final(self), equation)
                },
                _ => final(self).state == old(self).state && r.0 is None && r.1 is None,
            },
    {
        match &self.state {
            EquationState::AwaitCompilation(info) => {
                let key = info.stroke_key;
                match info.equation_compilation_policy {
                    EquationCompilationPolicy::Allow => {
                        self.state = EquationState::AwaitCompilation(
                            CompilationInfo {
                                stroke_key: key,
                                equation_compilation_policy: EquationCompilationPolicy::Deny,
                            },
                        );
                        (Some(EquationCompilationPolicy::Deny), None)
                    },
                    EquationCompilationPolicy::Deny => {
                        self.state = EquationState::AwaitCompilation(
                            CompilationInfo {
                                stroke_key: key,
                                equation_compilation_policy: EquationCompilationPolicy::Allow,
                            },
                        );
                        let request = self.check_equation_compilation(equation);
                        (Some(EquationCompilationPolicy::Allow), request)
                    },
                }
            },
            _ => (None, None),
        }
    }
}

/// Policy gating: while the policy is `Deny`, a periodic check never
/// produces a compilation request, whatever the store holds. (The other
/// direction — flipping to `Allow` submits at once — is the contract of
/// [`Equation::toggle_compilation`].)
pub proof fn lemma_policy_gating(pen: Equation, equation: Option<&EquationImage>)
    requires
        match pen.state {
            EquationState::AwaitCompilation(info) => info.equation_compilation_policy is Deny,
            _ => true,
        },
    ensures
        spec_check_equation_compilation(pen, equation) is None,
{
}

/// The unit x axis in fixed point.
pub open spec fn spec_unit_x() -> FxVector {
    FxVector { x: 1000, y: 0 }
}

/// The projection direction derived from a transform axis: the
/// fixed-point normalisation of the axis where that yields a usable
/// direction, the unit x axis otherwise (for degenerate axes).
pub open spec fn spec_direction_of(v: FxVector) -> FxVector {
    let m = spec_magnitude(v) as int;
    if m > 0 {
        let candidate = FxVector {
            x: spec_div_trunc(v.x as int * 1000, m) as i64,
            y: spec_div_trunc(v.y as int * 1000, m) as i64,
        };
        if direction_wf(candidate) {
            candidate
        } else {
            spec_unit_x()
        }
    } else {
        spec_unit_x()
    }
}

/// `a / b` truncated toward zero, for positive `b`.
pub open spec fn spec_div_trunc(a: int, b: int) -> int {
    if a >= 0 {
        a / b
    } else {
        -((-a) / b)
    }
}

/// The unit x axis is a usable direction.
proof fn lemma_unit_x_direction_wf()
    ensures
        direction_wf(spec_unit_x()),
{
    assert(1000int * 1000 == 1_000_000);
    assert(0int * 0 == 0);
}

/// Derives the projection direction from a transform axis (see
/// [`spec_direction_of`]).
pub fn normalize_direction(v: FxVector) -> (r: FxVector)
    requires
        v.wf(),
    ensures
        r == spec_direction_of(v),
        direction_wf(r),
{
    let m = v.magnitude();
    proof {
        assert(0 <= v.x * v.x <= 1_000_000_000_000_000_000) by (nonlinear_arith)
            requires
                -1_000_000_000 <= v.x <= 1_000_000_000,
        ;
        assert(0 <= v.y * v.y <= 1_000_000_000_000_000_000) by (nonlinear_arith)
            requires
                -1_000_000_000 <= v.y <= 1_000_000_000,
        ;
        assert((m as int) * (m as int) <= v.x * v.x + v.y * v.y);
        assert(m <= 4_000_000_000) by (nonlinear_arith)
            requires
                (m as int) * (m as int) <= 2_000_000_000_000_000_000,
        ;
    }
    if m == 0 {
        proof {
            lemma_unit_x_direction_wf();
        }
        FxVector { x: 1000, y: 0 }
    } else {
        let cx = div_trunc_scaled(v.x, m);
        let cy = div_trunc_scaled(v.y, m);
        if -2000 <= cx && cx <= 2000 && -2000 <= cy && cy <= 2000 {
            proof {
                assert(cx * cx <= 2000i64 * 2000 && cx * cx >= 0) by (nonlinear_arith)
                    requires
                        -2000 <= cx <= 2000,
                ;
                assert(cy * cy <= 2000i64 * 2000 && cy * cy >= 0) by (nonlinear_arith)
                    requires
                        -2000 <= cy <= 2000,
                ;
            }
            if 900_000 <= cx * cx + cy * cy {
                proof {
                    assert(direction_wf(FxVector { x: cx, y: cy }));
                }
                FxVector { x: cx, y: cy }
            } else {
                proof {
                    lemma_unit_x_direction_wf();
                }
                FxVector { x: 1000, y: 0 }
            }
        } else {
            proof {
                lemma_unit_x_direction_wf();
            }
            FxVector { x: 1000, y: 0 }
        }
    }
}

/// `c * 1000 / m`, truncated toward zero.
fn div_trunc_scaled(c: i64, m: u64) -> (r: i64)
    requires
        -1_000_000_000 <= c <= 1_000_000_000,
        1 <= m <= 4_000_000_000,
    ensures
        r == spec_div_trunc(c as int * 1000, m as int),
        -1_000_000_000_000 <= r <= 1_000_000_000_000,
{
    let m64 = m as i64;
    if c >= 0 {
        (c * 1000) / m64
    } else {
        -((-c * 1000) / m64)
    }
}

/// How far along the axis the handle sits when the picker opens: the
/// configured page width converted to thousandths of a pixel, held below
/// a fixed span so that scaled coordinates stay in bounds.
pub open spec fn spec_px_span(width_mm: nat, dpi: nat) -> int {
    let px = spec_mm_to_px(width_mm, dpi);
    if px > 4_000_000_000 {
        4_000_000_000
    } else {
        px as int
    }
}

/// The width picker opened over an existing object: anchored at the
/// object's upper-left corner, with the handle out along the transform
/// axis at the configured page width, projecting along the axis's
/// direction, idle.
pub open spec fn spec_picker_for_rectangle(
    rect: Rectangle,
    width_mm: u64,
    dpi: u32,
) -> WidthPickerContext {
    let px = spec_px_span(width_mm as nat, dpi as nat);
    WidthPickerContext {
        begin: rect.upper_left,
        end: FxVector {
            x: spec_clamp_coord(
                rect.upper_left.x + spec_scale_trunc(rect.x_axis.x as int, px),
            ) as i64,
            y: spec_clamp_coord(
                rect.upper_left.y + spec_scale_trunc(rect.x_axis.y as int, px),
            ) as i64,
        },
        projection_start: rect.upper_left,
        projection_direction: spec_direction_of(rect.x_axis),
        state: WidthPickerState::Idle,
    }
}

/// Opens the width picker over an existing object (see
/// [`spec_picker_for_rectangle`]).
fn create_width_picker_for_rectangle(rectangle: &Rectangle, equation_width: u64, dpi: u32) -> (r:
    WidthPickerContext)
    requires
        rectangle.wf(),
        equation_width <= 10_000_000_000,
        1 <= dpi <= 100_000,
    ensures
        r == spec_picker_for_rectangle(*rectangle, equation_width, dpi),
        r.wf(),
{
    let px_raw = mm_to_px(equation_width, dpi);
    let px: i64 = if px_raw > 4_000_000_000 {
        4_000_000_000
    } else {
        px_raw as i64
    };
    let offset_x = axis_scale_trunc(rectangle.x_axis.x, px);
    let offset_y = axis_scale_trunc(rectangle.x_axis.y, px);
    let end = FxVector {
        x: clamp_coord(rectangle.upper_left.x + offset_x),
        y: clamp_coord(rectangle.upper_left.y + offset_y),
    };
    let direction = normalize_direction(rectangle.x_axis);
    WidthPickerContext {
        begin: rectangle.upper_left,
        end,
        projection_start: rectangle.upper_left,
        projection_direction: direction,
        state: WidthPickerState::Idle,
    }
}

/// `c * px / 1000`, truncated toward zero, for an axis component and a
/// pixel span.
fn axis_scale_trunc(c: i64, px: i64) -> (r: i64)
    requires
        -1_000_000_000 <= c <= 1_000_000_000,
        0 <= px <= 4_000_000_000,
    ensures
        r == spec_scale_trunc(c as int, px as int),
        -4_000_000_000_000_000 <= r <= 4_000_000_000_000_000,
{
    proof {
        assert(c * px <= 1_000_000_000i64 * 4_000_000_000 && c * px >= -(1_000_000_000i64
            * 4_000_000_000)) by (nonlinear_arith)
            requires
                -1_000_000_000 <= c <= 1_000_000_000,
                0 <= px <= 4_000_000_000i64,
        ;
        assert(c >= 0 ==> 0 <= c * px) by (nonlinear_arith)
            requires
                0 <= px,
        ;
        assert(c < 0 ==> (-c) * px == -(c * px) && 0 <= (-c) * px) by (nonlinear_arith)
            requires
                0 <= px,
        ;
    }
    if c >= 0 {
        (c * px) / 1000
    } else {
        -(((-c) * px) / 1000)
    }
}

/// The raw picked length corrected for the object's transform scale:
/// divided by the scale (in thousandths, rounded down) so that the
/// stored width is independent of any scaling already applied to the
/// object. Without an object — or with a degenerate axis — the raw
/// length is used as it is.
pub open spec fn spec_scaled_length(length: nat, axis: Option<FxVector>) -> nat {
    match axis {
        Some(a) => {
            let s = spec_magnitude(a);
            if s > 0 {
                (length * 1000) / s
            } else {
                length
            }
        },
        None => length,
    }
}

/// The page width a finished drag stores: the scale-corrected picked
/// length, converted from pixels to millimetres (both in thousandths).
pub open spec fn spec_derived_page_width(length: nat, axis: Option<FxVector>, dpi: nat) -> nat {
    spec_px_to_mm(spec_scaled_length(length, axis), dpi)
}

/// Computes [`spec_derived_page_width`].
pub fn derived_page_width(length: u64, axis: Option<FxVector>, dpi: u32) -> (r: u64)
    requires
        length <= 4_000_000_000,
        1 <= dpi,
        match axis {
            Some(a) => a.wf(),
            None => true,
        },
    ensures
        r == spec_derived_page_width(length as nat, axis, dpi as nat),
{
    let px: u64 = match axis {
        Some(a) => {
            let s = a.magnitude();
            if s > 0 {
                (length * 1000) / s
            } else {
                length
            }
        },
        None => length,
    };
    px_to_mm(px, dpi)
}

/// Width re-derivation: the stored width is the conversion of the picked
/// length divided by the object's transform scale.
pub proof fn lemma_width_rederivation(length: nat, axis: FxVector, dpi: nat)
    requires
        spec_magnitude(axis) > 0,
    ensures
        spec_derived_page_width(length, Some(axis), dpi) == spec_px_to_mm(
            (length * 1000) / spec_magnitude(axis),
            dpi,
        ),
{
}

/// Width re-derivation at unit scale: for an object at scale one (a
/// thousand thousandths) the conversion applies to the raw picked length
/// exactly.
pub proof fn lemma_width_rederivation_unit_scale(length: nat, axis: FxVector, dpi: nat)
    requires
        spec_magnitude(axis) == 1000,
    ensures
        spec_derived_page_width(length, Some(axis), dpi) == spec_px_to_mm(length, dpi),
{
    lemma_div_by_multiple(length as int, 1000);
    assert((length * 1000) as int / 1000 as int == length as int);
}

/// Whether handling `event` in the pen's current state creates a new
/// equation object: a pen-up that completes the initial width pick, with
/// the event not consumed by the picker. When this holds, the host
/// inserts a fresh placeholder object (see [`crate::stroke::EquationImage::new`])
/// at [`Equation::initial_pick_anchor`] before calling
/// [`Equation::handle_event`], and passes the new key in
/// [`EventContext::inserted_key`].
pub open spec fn spec_requests_new_object(pen: Equation, event: PenEvent) -> bool {
    &&& event is Up
    &&& pen.state is InitialWidthPick
    &&& spec_picker_propagation(pen.equation_width, event) is Proceed
}

/// The position of `event`, for the events that carry one.
pub open spec fn spec_event_pos(event: PenEvent) -> FxVector {
    match event {
        PenEvent::Down(element) => element.pos,
        PenEvent::Up(element) => element.pos,
        PenEvent::Other => FxVector { x: 0, y: 0 },
    }
}

/// Everything one call of [`Equation::handle_event`] produces: the new
/// pen, the new shared configuration, and what the caller is told.
pub ghost struct HandleEventOutcome {
    pub pen: Equation,
    pub config: EquationConfig,
    pub flags: WidgetFlags,
    pub directives: EngineDirectives,
    pub result: EventResult,
}

/// The complete transition relation of the pen (the body of
/// [`Equation::handle_event`], as one mathematical function).
///
/// The width picker sees the event first; its answer to the *previous*
/// event against this one detects the end of a drag. A pen-down while
/// idle either picks up an existing equation object (hovered) or begins
/// the initial width pick; a pen-up completes the initial pick by
/// adopting the freshly inserted object. When a drag has just ended, the
/// picked length — corrected by the awaited object's transform scale and
/// converted to millimetres — becomes the shared configuration's page
/// width.
pub open spec fn spec_handle_event(
    pen: Equation,
    event: PenEvent,
    ctx: EventContext,
    config: EquationConfig,
) -> HandleEventOutcome {
    let prop = spec_picker_propagation(pen.equation_width, event);
    let updated_width = match pen.equation_width {
        Some(w) => Some(w.spec_updated(event)),
        None => None,
    };
    let hover_select = pen.state is Idle && event is Down && prop is Proceed
        && ctx.hovered is Some;
    let fresh_pick = pen.state is Idle && event is Down && prop is Proceed && ctx.hovered is None;
    let create = spec_requests_new_object(pen, event);
    let state2 = if hover_select {
        EquationState::AwaitCompilation(
            CompilationInfo {
                stroke_key: ctx.hovered->Some_0.stroke_key,
                equation_compilation_policy: EquationCompilationPolicy::Deny,
            },
        )
    } else if fresh_pick {
        EquationState::InitialWidthPick(spec_event_pos(event))
    } else if create {
        EquationState::AwaitCompilation(
            CompilationInfo {
                stroke_key: ctx.inserted_key->Some_0,
                equation_compilation_policy: EquationCompilationPolicy::Deny,
            },
        )
    } else {
        pen.state
    };
    let width2 = if hover_select {
        Some(
            spec_picker_for_rectangle(
                ctx.hovered->Some_0.rectangle,
                ctx.hovered->Some_0.equation_config.page_width,
                ctx.dpi,
            ),
        )
    } else if fresh_pick {
        Some(
            WidthPickerContext {
                begin: spec_event_pos(event),
                end: spec_event_pos(event),
                projection_start: spec_event_pos(event),
                projection_direction: spec_unit_x(),
                state: WidthPickerState::Dragging,
            },
        )
    } else {
        updated_width
    };
    let config2 = if hover_select {
        ctx.hovered->Some_0.equation_config
    } else {
        config
    };
    let flags = WidgetFlags {
        refresh_equation_ui: hover_select || create,
        refresh_ui: fresh_pick,
        show_equation_sidebar_ui: create,
        ..spec_widget_flags_default()
    };
    let drag_end = pen.last_widget_event_propagation is Stop && prop is Proceed
        && width2 is Some;
    let axis = if hover_select {
        Some(ctx.hovered->Some_0.rectangle.x_axis)
    } else if create {
        Some(spec_unit_x())
    } else {
        match state2 {
            EquationState::AwaitCompilation(_) => ctx.target_x_axis,
            _ => None,
        }
    };
    let config3 = if drag_end {
        EquationConfig {
            page_width: spec_derived_page_width(
                spec_picked_length(width2->Some_0),
                axis,
                ctx.dpi as nat,
            ) as u64,
            ..config2
        }
    } else {
        config2
    };
    HandleEventOutcome {
        pen: Equation { state: state2, equation_width: width2, last_widget_event_propagation: prop },
        config: config3,
        flags,
        directives: EngineDirectives {
            record_history: create,
            regenerate_rendering: create,
            update_stored_config: drag_end && state2 is AwaitCompilation,
        },
        result: EventResult {
            handled: false,
            propagate: EventPropagation::Stop,
            progress: PenProgress::InProgress,
        },
    }
}

impl Equation {
    /// Whether handling `event` now will create a new equation object
    /// (see [`spec_requests_new_object`]); the host asks before every
    /// event and inserts the placeholder object when this answers true.
    pub fn requests_new_object(&self, event: &PenEvent) -> (r: bool)
        requires
            self.wf(),
            event.wf(),
        ensures
            r == spec_requests_new_object(*self, *event),
    {
        let prop = match &self.equation_width {
            Some(w) => w.peek_propagation(event),
            None => EventPropagation::Proceed,
        };
        match (&self.state, event, prop) {
            (EquationState::InitialWidthPick(_), PenEvent::Up(_), EventPropagation::Proceed) =>
                true,
            _ => false,
        }
    }

    /// Where the initial width pick began: the anchor at which the new
    /// equation object is inserted.
    pub fn initial_pick_anchor(&self) -> (r: Option<FxVector>)
        ensures
            match self.state {
                EquationState::InitialWidthPick(pos) => r == Some(pos),
                _ => r is None,
            },
    {
        match &self.state {
            EquationState::InitialWidthPick(pos) => Some(*pos),
            _ => None,
        }
    }

    /// Handles one pen event: exactly the transition of
    /// [`spec_handle_event`], applied to this pen and the shared style
    /// configuration. The caller resolved `ctx` beforehand (including
    /// inserting the new object exactly when
    /// [`Equation::requests_new_object`] said so) and afterwards carries
    /// out the returned directives.
    pub fn handle_event(
        &mut self,
        event: &PenEvent,
        ctx: &EventContext,
        pens_equation_config: &mut EquationConfig,
    ) -> (r: (EventResult, WidgetFlags, EngineDirectives))
        requires
            old(self).wf(),
            event.wf(),
            ctx.wf(),
            (ctx.inserted_key is Some) == spec_requests_new_object(*old(self), *event),
        ensures
            ({
                let o = spec_handle_event(*old(self), *event, *ctx, *old(pens_equation_config));
                &&& *final(self) == o.pen
                &&& final(self).wf()
                &&& *final(pens_equation_config) == o.config
                &&& r.0 == o.result
                &&& r.1 == o.flags
                &&& r.2 == o.directives
            }),
    {
        let initial_event_propagation = match &mut self.equation_width {
            Some(w) => w.update(event),
            None => EventPropagation::Proceed,
        };
        let mut widget_flags = WidgetFlags::default();
        let mut directives = EngineDirectives {
            record_history: false,
            regenerate_rendering: false,
            update_stored_config: false,
        };
        let mut axis_for_block: Option<FxVector> = match &self.state {
            EquationState::AwaitCompilation(_) => ctx.target_x_axis,
            _ => None,
        };
        match (event, &self.state, &initial_event_propagation) {
            (PenEvent::Down(element), EquationState::Idle, EventPropagation::Proceed) => {
                match &ctx.hovered {
                    Some(hovered) => {
                        self.equation_width = Some(
                            create_width_picker_for_rectangle(
                                &hovered.rectangle,
                                hovered.equation_config.page_width,
                                ctx.dpi,
                            ),
                        );
                        *pens_equation_config = hovered.equation_config;
                        self.state = EquationState::AwaitCompilation(
                            CompilationInfo {
                                stroke_key: hovered.stroke_key,
                                equation_compilation_policy: EquationCompilationPolicy::Deny,
                            },
                        );
                        widget_flags.refresh_equation_ui = true;
                        axis_for_block = Some(hovered.rectangle.x_axis);
                    },
                    None => {
                        proof {
                            lemma_unit_x_direction_wf();
                        }
                        self.equation_width = Some(
                            WidthPickerContext::new(
                                element.pos,
                                element.pos,
                                element.pos,
                                FxVector { x: 1000, y: 0 },
                                WidthPickerState::Dragging,
                            ),
                        );
                        self.state = EquationState::InitialWidthPick(element.pos);
                        widget_flags.refresh_ui = true;
                        axis_for_block = None;
                    },
                }
            },
            (PenEvent::Up(_), EquationState::InitialWidthPick(_), EventPropagation::Proceed) => {
                let stroke_key = match ctx.inserted_key {
                    Some(key) => key,
                    None => unreached(),
                };
                self.state = EquationState::AwaitCompilation(
                    CompilationInfo {
                        stroke_key,
                        equation_compilation_policy: EquationCompilationPolicy::Deny,
                    },
                );
                widget_flags.show_equation_sidebar_ui = true;
                widget_flags.refresh_equation_ui = true;
                directives.record_history = true;
                directives.regenerate_rendering = true;
                axis_for_block = Some(FxVector { x: 1000, y: 0 });
            },
            _ => {},
        }
        let drag_ended = match (&self.last_widget_event_propagation, &initial_event_propagation) {
            (EventPropagation::Stop, EventPropagation::Proceed) => true,
            _ => false,
        };
        if drag_ended {
            match &self.equation_width {
                Some(picker) => {
                    let magnitude = picker.length();
                    let derived = derived_page_width(magnitude, axis_for_block, ctx.dpi);
                    pens_equation_config.page_width = derived;
                    let awaiting = match &self.state {
                        EquationState::AwaitCompilation(_) => true,
                        _ => false,
                    };
                    directives.update_stored_config = awaiting;
                },
                None => {},
            }
        }
        self.last_widget_event_propagation = initial_event_propagation;
        (
            EventResult {
                handled: false,
                propagate: EventPropagation::Stop,
                progress: PenProgress::InProgress,
            },
            widget_flags,
            directives,
        )
    }
}

} // verus!
