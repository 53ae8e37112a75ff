use equation_pen::compiler::EquationCompilerTask;
use equation_pen::config::EquationConfig;
use equation_pen::events::{Element, EventPropagation, PenEvent};
use equation_pen::geometry::FxVector;
use equation_pen::pen::{
    derived_page_width, CompilationInfo, Equation, EquationCompilationPolicy, EquationState,
    EventContext, HoveredEquation,
};
use equation_pen::stroke::{EquationImage, Rectangle};
use equation_pen::width_picker::{clip_lambda, WidthPickerContext, WidthPickerState};

fn vec2(x: i64, y: i64) -> FxVector {
    FxVector { x, y }
}

fn down(x: i64, y: i64) -> PenEvent {
    PenEvent::Down(Element { pos: vec2(x, y) })
}

fn up(x: i64, y: i64) -> PenEvent {
    PenEvent::Up(Element { pos: vec2(x, y) })
}

fn empty_ctx() -> EventContext {
    EventContext { hovered: None, inserted_key: None, target_x_axis: None, dpi: 96 }
}

fn awaiting(key: u64, policy: EquationCompilationPolicy) -> Equation {
    Equation {
        state: EquationState::AwaitCompilation(
            CompilationInfo { stroke_key: key, equation_compilation_policy: policy },
        ),
        equation_width: None,
        last_widget_event_propagation: EventPropagation::Proceed,
    }
}

#[test]
fn deny_policy_never_submits_on_tick() {
    let pen = awaiting(7, EquationCompilationPolicy::Deny);
    let object = EquationImage::new("x^2", &EquationConfig::default(), vec2(0, 0));
    assert!(pen.check_equation_compilation(Some(&object)).is_none());
    assert!(pen.check_equation_compilation(None).is_none());
}

#[test]
fn allow_policy_submits_snapshot_of_current_state() {
    let pen = awaiting(7, EquationCompilationPolicy::Allow);
    let object = EquationImage::new("x^2+1", &EquationConfig::default(), vec2(0, 0));
    match pen.check_equation_compilation(Some(&object)) {
        Some(EquationCompilerTask::Compile(key, task)) => {
            assert_eq!(key, 7);
            assert_eq!(task.equation_code, "x^2+1");
        },
        _ => panic!("expected a compilation request"),
    }
    assert!(pen.check_equation_compilation(None).is_none());
}

#[test]
fn enabling_compilation_submits_immediately() {
    let mut pen = awaiting(3, EquationCompilationPolicy::Deny);
    let object = EquationImage::new("e=mc^2", &EquationConfig::default(), vec2(0, 0));
    let (policy, request) = pen.toggle_compilation(Some(&object));
    assert!(matches!(policy, Some(EquationCompilationPolicy::Allow)));
    match request {
        Some(EquationCompilerTask::Compile(key, task)) => {
            assert_eq!(key, 3);
            assert_eq!(task.equation_code, "e=mc^2");
        },
        _ => panic!("flipping to allow must submit at once"),
    }
    let (policy2, request2) = pen.toggle_compilation(Some(&object));
    assert!(matches!(policy2, Some(EquationCompilationPolicy::Deny)));
    assert!(request2.is_none());
}

#[test]
fn toggle_without_awaited_object_does_nothing() {
    let mut pen = Equation::default();
    let (policy, request) = pen.toggle_compilation(None);
    assert!(policy.is_none());
    assert!(request.is_none());
    assert!(matches!(pen.state, EquationState::Idle));
}

#[test]
fn width_rederivation_divides_by_scale_then_converts() {
    // Raw length 480 px at 96 dpi: unit scale keeps the length, so the
    // width is 480 px * 127 / (5 * 96) = 127 mm.
    assert_eq!(derived_page_width(480_000, Some(vec2(1000, 0)), 96), 127_000);
    // Scale two: the stored width is half the picked length.
    assert_eq!(derived_page_width(480_000, Some(vec2(2000, 0)), 96), 63_500);
    // No object: the raw length converts as it is.
    assert_eq!(derived_page_width(480_000, None, 96), 127_000);
}

#[test]
fn fresh_pick_then_release_creates_and_awaits() {
    let mut pen = Equation::default();
    let mut config = EquationConfig::default();

    // Pen down on empty canvas: the initial width pick begins.
    let (_, flags, directives) = pen.handle_event(&down(0, 0), &empty_ctx(), &mut config);
    assert!(matches!(pen.state, EquationState::InitialWidthPick(_)));
    assert!(flags.refresh_ui);
    assert!(!directives.record_history);
    let picker = pen.equation_width.clone().unwrap();
    assert!(matches!(picker.state, WidthPickerState::Dragging));

    // Dragging the handle out to 500 px.
    let (_, _, _) = pen.handle_event(&down(500_000, 0), &empty_ctx(), &mut config);
    // Releasing ends the drag (the picker consumes this event).
    let (_, _, _) = pen.handle_event(&up(500_000, 0), &empty_ctx(), &mut config);
    assert!(matches!(pen.state, EquationState::InitialWidthPick(_)));

    // The next unconsumed pen-up completes the pick: the host inserts the
    // placeholder object first and hands its key over.
    let release = up(500_000, 0);
    assert!(pen.requests_new_object(&release));
    assert_eq!(pen.initial_pick_anchor(), Some(vec2(0, 0)));
    let ctx = EventContext {
        hovered: None,
        inserted_key: Some(42),
        target_x_axis: None,
        dpi: 96,
    };
    let (_, flags, directives) = pen.handle_event(&release, &ctx, &mut config);
    match pen.state {
        EquationState::AwaitCompilation(info) => {
            assert_eq!(info.stroke_key, 42);
            assert!(matches!(
                info.equation_compilation_policy,
                EquationCompilationPolicy::Deny
            ));
        },
        _ => panic!("expected the pen to await compilation"),
    }
    assert!(flags.show_equation_sidebar_ui);
    assert!(flags.refresh_equation_ui);
    assert!(directives.record_history);
    assert!(directives.regenerate_rendering);
    // The drag that just ended wrote the picked width through: 500 px at
    // 96 dpi is 132.291 mm, rounded down to thousandths.
    assert!(directives.update_stored_config);
    assert_eq!(config.page_width, 132_291);
}

#[test]
fn hovering_an_equation_adopts_it() {
    let mut pen = Equation::default();
    let mut config = EquationConfig::default();
    let mut stored_config = EquationConfig::default();
    stored_config.page_width = 80_000;
    let ctx = EventContext {
        hovered: Some(
            HoveredEquation {
                stroke_key: 11,
                rectangle: Rectangle {
                    upper_left: vec2(10_000, 20_000),
                    x_axis: vec2(1000, 0),
                },
                equation_config: stored_config,
            },
        ),
        inserted_key: None,
        target_x_axis: None,
        dpi: 96,
    };
    let (_, flags, _) = pen.handle_event(&down(10_000, 20_000), &ctx, &mut config);
    match pen.state {
        EquationState::AwaitCompilation(info) => assert_eq!(info.stroke_key, 11),
        _ => panic!("expected the pen to await compilation"),
    }
    assert!(flags.refresh_equation_ui);
    // The shared configuration now mirrors the stored object's.
    assert_eq!(config.page_width, 80_000);
    // The picker opened over the object's geometry: anchored at its
    // upper-left corner, the handle out by 80 mm = 302.362 px.
    let picker = pen.equation_width.clone().unwrap();
    assert_eq!(picker.begin, vec2(10_000, 20_000));
    assert!(matches!(picker.state, WidthPickerState::Idle));
    assert_eq!(picker.end, vec2(10_000 + 302_362, 20_000));
}

#[test]
fn edits_write_through_only_while_awaiting() {
    let pen = awaiting(7, EquationCompilationPolicy::Deny);
    let mut object = EquationImage::new("old", &EquationConfig::default(), vec2(0, 0));
    pen.mark_updated_text(&mut object, String::from("new"));
    assert_eq!(object.equation_code, "new");
    pen.mark_updated_text_str_ref(&mut object, "newer");
    assert_eq!(object.equation_code, "newer");

    let idle = Equation::default();
    idle.mark_updated_text(&mut object, String::from("ignored"));
    assert_eq!(object.equation_code, "newer");

    let mut shared = EquationConfig::default();
    shared.font_size = 20;
    pen.mark_updated_penconfig(&mut object, &shared);
    assert_eq!(object.equation_config.font_size, 20);
}

#[test]
fn picker_drag_projects_onto_line() {
    let mut picker = WidthPickerContext::new(
        vec2(0, 0),
        vec2(0, 0),
        vec2(0, 0),
        vec2(1000, 0),
        WidthPickerState::Dragging,
    );
    // Dragging to (500, 300) px projects onto the horizontal line.
    let propagation = picker.update(&down(500_000, 300_000));
    assert!(matches!(propagation, EventPropagation::Stop));
    assert_eq!(picker.end, vec2(500_000, 0));
    assert_eq!(picker.length(), 500_000);
    // Release ends the drag.
    let propagation = picker.update(&up(500_000, 0));
    assert!(matches!(propagation, EventPropagation::Stop));
    assert!(matches!(picker.state, WidthPickerState::Idle));
    // An idle picker lets unrelated events through.
    let propagation = picker.update(&down(900_000, 900_000));
    assert!(matches!(propagation, EventPropagation::Proceed));
}

#[test]
fn picker_handle_grab_and_drag_floor() {
    let mut picker = WidthPickerContext::new(
        vec2(0, 0),
        vec2(100_000, 0),
        vec2(0, 0),
        vec2(1000, 0),
        WidthPickerState::Idle,
    );
    // A pen-down within seven pixels of the handle grabs it.
    let propagation = picker.update(&down(103_000, 2_000));
    assert!(matches!(propagation, EventPropagation::Stop));
    assert!(matches!(picker.state, WidthPickerState::Dragging));
    // Dragging all the way back clips at the fifteen-pixel floor.
    let _ = picker.update(&down(1_000, 0));
    assert_eq!(picker.end, vec2(15_000, 0));
    assert_eq!(clip_lambda(5_000), 15_000);
    assert_eq!(clip_lambda(20_000), 20_000);
}
