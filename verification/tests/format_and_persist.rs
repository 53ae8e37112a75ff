use equation_pen::compiler::CompilationTask;
use equation_pen::config::{
    EquationConfig, EquationProvider, ExecutableChecker, LatexEquationProvider,
    MathJaxEquationProvider,
};
use equation_pen::decimal::decimal_string;
use equation_pen::geometry::{clamp_coord, isqrt64, mm_to_px, px_to_mm, FxVector};
use equation_pen::latex::{
    evaluate_pipeline, CompilationError, Environment, LatexContext, PipelineStage, StageOutput,
};
use equation_pen::persist::{decode_equation_image, encode_equation_image};
use equation_pen::stroke::{
    EquationImage, LatexImage, Rectangle, VectorImage, DEFAULT_SVG_CODE,
};
use equation_pen::widget_flags::WidgetFlags;

fn stage(success: bool, stdout: &str, stderr: &str) -> StageOutput {
    StageOutput { success, stdout: String::from(stdout), stderr: String::from(stderr) }
}

#[test]
fn decimal_rendering_exact() {
    assert_eq!(decimal_string(0), "0");
    assert_eq!(decimal_string(7), "7");
    assert_eq!(decimal_string(9007), "9007");
    assert_eq!(decimal_string(18_446_744_073_709_551_615), "18446744073709551615");
}

#[test]
fn latex_document_is_assembled_exactly() {
    let config = EquationConfig::default();
    let document = config.latex_document(&String::from("x^2"));
    let mut expected = String::from("\\documentclass[varwidth=64mm, border=10pt]{standalone}");
    expected.push_str("\\usepackage{amsmath}\n\\usepackage{amssymb}\n");
    expected.push_str("\\usepackage[usenames]{color}\n\\usepackage{ifxetex}\n");
    expected.push_str("\\usepackage{ifluatex}\n\\usepackage{fix-cm}\n");
    expected.push_str("\\usepackage[fontsize=12pt]{fontsize}\n\n");
    expected.push_str("\\begin{document}x^2\\end{document}");
    assert_eq!(document, expected);
}

#[test]
fn fractional_page_width_renders_with_point() {
    let mut config = EquationConfig::default();
    config.page_width = 64_500;
    let document = config.latex_document(&String::from("y"));
    assert!(document.starts_with("\\documentclass[varwidth=64.5mm,"));
    config.page_width = 64_005;
    let document = config.latex_document(&String::from("y"));
    assert!(document.starts_with("\\documentclass[varwidth=64.005mm,"));
}

#[test]
fn preprocess_code_concatenates_in_order() {
    let context = LatexContext {
        preamble: String::from("<preamble>"),
        environment: Environment {
            pre_preamble: String::from("<pre-preamble>"),
            pre_code: String::from("<pre>"),
            post_code: String::from("<post>"),
        },
    };
    let combined = context.preprocess_code(&String::from("CODE"));
    assert_eq!(combined, "<pre-preamble><preamble><pre>CODE<post>");
}

#[test]
fn typeset_failure_reports_its_standard_output() {
    let outcome = evaluate_pipeline(
        Some(stage(false, "! Undefined control sequence.", "ignored")),
        None,
        None,
    );
    match outcome {
        Err(CompilationError::ProcessFailed { stage, diagnostics }) => {
            assert_eq!(stage, PipelineStage::Typeset);
            assert_eq!(diagnostics, "! Undefined control sequence.");
        },
        _ => panic!("expected a typeset failure"),
    }
}

#[test]
fn convert_failure_reports_typeset_error_stream() {
    // A conversion failure deliberately surfaces the *typeset* stage's
    // captured error stream as its diagnostic.
    let outcome = evaluate_pipeline(
        Some(stage(true, "typeset ok", "typeset warnings")),
        Some(stage(false, "convert out", "convert err")),
        None,
    );
    match outcome {
        Err(CompilationError::ProcessFailed { stage, diagnostics }) => {
            assert_eq!(stage, PipelineStage::Convert);
            assert_eq!(diagnostics, "typeset warnings");
        },
        _ => panic!("expected a conversion failure"),
    }
}

#[test]
fn io_failures_and_success_outcomes() {
    assert!(matches!(
        evaluate_pipeline(None, None, None),
        Err(CompilationError::IoFailure)
    ));
    assert!(matches!(
        evaluate_pipeline(Some(stage(true, "", "")), None, None),
        Err(CompilationError::IoFailure)
    ));
    assert!(matches!(
        evaluate_pipeline(Some(stage(true, "", "")), Some(stage(true, "", "")), None),
        Err(CompilationError::IoFailure)
    ));
    match evaluate_pipeline(
        Some(stage(true, "", "")),
        Some(stage(true, "", "")),
        Some(String::from("<svg/>")),
    ) {
        Ok(svg) => assert_eq!(svg, "<svg/>"),
        _ => panic!("expected success"),
    }
}

#[test]
fn error_messages_by_kind() {
    assert_eq!(
        CompilationError::ToolMissing.message(),
        "required typesetting tool not found"
    );
    assert_eq!(
        CompilationError::IoFailure.message(),
        "could not read or write compilation files"
    );
    assert_eq!(
        CompilationError::EncodingFailure.message(),
        "could not decode tool output as text"
    );
    let renderer = MathJaxEquationProvider::default();
    match renderer.fold_render_result(Err(String::from("bad input"))) {
        Err(error) => assert_eq!(error.message(), "bad input"),
        _ => panic!("expected a renderer failure"),
    }
    match renderer.fold_render_result(Ok(String::from("<svg/>"))) {
        Ok(svg) => assert_eq!(svg, "<svg/>"),
        _ => panic!("expected success to pass through"),
    }
}

#[test]
fn round_trip_without_rendered_content() {
    let mut image = EquationImage::new("x^2", &EquationConfig::default(), FxVector { x: 0, y: 0 });
    image.vector_image = None;
    let text = encode_equation_image(&image);
    assert_eq!(text, "12;64000;3:x^2N");
    let back = decode_equation_image(text.as_str()).expect("a written group reads back");
    assert_eq!(back.equation_code, "x^2");
    assert_eq!(back.equation_config.font_size, 12);
    assert_eq!(back.equation_config.page_width, 64_000);
    assert!(back.vector_image.is_none());
}

#[test]
fn round_trip_preserves_every_field() {
    let mut config = EquationConfig::default();
    config.font_size = 14;
    config.page_width = 80_500;
    let image = EquationImage {
        equation_code: String::from("\\frac{a}{b}; c:d"),
        equation_config: config,
        vector_image: Some(
            VectorImage {
                svg_code: String::from("<svg viewBox=\"0 0 4 4\">S;N:1</svg>"),
                rectangle: Rectangle {
                    upper_left: FxVector { x: -12_500, y: 7_000 },
                    x_axis: FxVector { x: 866, y: -500 },
                },
            },
        ),
    };
    let text = encode_equation_image(&image);
    let back = decode_equation_image(text.as_str()).expect("a written group reads back");
    assert_eq!(back.equation_code, image.equation_code);
    assert_eq!(back.equation_config.font_size, 14);
    assert_eq!(back.equation_config.page_width, 80_500);
    let vector = back.vector_image.expect("rendered content survives");
    assert_eq!(vector.svg_code, "<svg viewBox=\"0 0 4 4\">S;N:1</svg>");
    assert_eq!(vector.rectangle.upper_left, FxVector { x: -12_500, y: 7_000 });
    assert_eq!(vector.rectangle.x_axis, FxVector { x: 866, y: -500 });
}

#[test]
fn round_trip_with_empty_source_text() {
    let mut image = EquationImage::new("", &EquationConfig::default(), FxVector { x: 0, y: 0 });
    image.vector_image = None;
    let text = encode_equation_image(&image);
    assert_eq!(text, "12;64000;0:N");
    let back = decode_equation_image(text.as_str()).expect("a written group reads back");
    assert_eq!(back.equation_code, "");
    assert!(back.vector_image.is_none());
}

#[test]
fn malformed_persisted_text_is_rejected() {
    assert!(decode_equation_image("").is_none());
    assert!(decode_equation_image("12").is_none());
    assert!(decode_equation_image("12;64000;3:x^2").is_none());
    assert!(decode_equation_image("12;64000;3:x^2X").is_none());
    assert!(decode_equation_image("12;64000;9:x^2N").is_none());
    assert!(decode_equation_image("12;64000;3:x^2Ntrailing").is_none());
    assert!(decode_equation_image("99999999999:x").is_none());
}

#[test]
fn stroke_models_keep_their_geometry() {
    let config = EquationConfig::default();
    let mut image = EquationImage::new("a+b", &config, FxVector { x: 5_000, y: 6_000 });
    assert_eq!(image.equation_code, "a+b");
    let rectangle = *image.access_rectangle();
    assert_eq!(rectangle.upper_left, FxVector { x: 5_000, y: 6_000 });
    assert_eq!(rectangle.x_axis, FxVector { x: 1000, y: 0 });
    assert_eq!(image.vector_image.as_ref().unwrap().svg_code, DEFAULT_SVG_CODE);

    image.update_svg_code("<svg>new</svg>");
    assert_eq!(image.vector_image.as_ref().unwrap().svg_code, "<svg>new</svg>");
    assert_eq!(*image.access_rectangle(), rectangle);

    let source = LatexImage {
        latex_code: String::from("s"),
        vector_image: Some(
            VectorImage {
                svg_code: String::from("<svg>s</svg>"),
                rectangle: Rectangle {
                    upper_left: FxVector { x: 1, y: 2 },
                    x_axis: FxVector { x: 3, y: 4 },
                },
            },
        ),
    };
    let mut target = LatexImage {
        latex_code: String::from("t"),
        vector_image: Some(
            VectorImage {
                svg_code: String::from("<svg>t</svg>"),
                rectangle: Rectangle {
                    upper_left: FxVector { x: 9, y: 9 },
                    x_axis: FxVector { x: 9, y: 9 },
                },
            },
        ),
    };
    target.copy_transform(&source);
    let vector = target.vector_image.unwrap();
    assert_eq!(vector.rectangle.upper_left, FxVector { x: 1, y: 2 });
    assert_eq!(vector.rectangle.x_axis, FxVector { x: 3, y: 4 });
    assert_eq!(vector.svg_code, "<svg>t</svg>");
}

#[test]
fn compilation_task_snapshots_current_text() {
    let mut image = EquationImage::new("before", &EquationConfig::default(), FxVector {
        x: 0,
        y: 0,
    });
    let snapshot = CompilationTask::new(&image);
    image.equation_code = String::from("after");
    assert_eq!(snapshot.equation_code, "before");
    assert_eq!(image.equation_code, "after");
}

#[test]
fn unit_conversions_are_exact_integer_rules() {
    assert_eq!(px_to_mm(480_000, 96), 127_000);
    assert_eq!(mm_to_px(127_000, 96), 480_000);
    assert_eq!(px_to_mm(0, 96), 0);
    assert_eq!(mm_to_px(64_000, 96), 241_889);
    assert_eq!(isqrt64(0), 0);
    assert_eq!(isqrt64(2), 1);
    assert_eq!(isqrt64(1_000_000), 1000);
    assert_eq!(isqrt64(24_999_999), 4999);
    let hypotenuse = FxVector { x: 3_000, y: 4_000 }.magnitude();
    assert_eq!(hypotenuse, 5_000);
    assert_eq!(clamp_coord(2_000_000_000), 1_000_000_000);
    assert_eq!(clamp_coord(-2_000_000_000), -1_000_000_000);
    assert_eq!(clamp_coord(123), 123);
}

#[test]
fn widget_flags_merge_ors_and_overrides() {
    let mut left = WidgetFlags::default();
    left.redraw = true;
    left.hide_undo = Some(true);
    let mut right = WidgetFlags::default();
    right.refresh_equation_ui = true;
    right.hide_redo = Some(false);
    left.merge(right);
    assert!(left.redraw);
    assert!(left.refresh_equation_ui);
    assert!(!left.store_modified);
    assert_eq!(left.hide_undo, Some(true));
    assert_eq!(left.hide_redo, Some(false));

    let mut base = WidgetFlags::default();
    base.hide_undo = Some(true);
    let mut overriding = WidgetFlags::default();
    overriding.hide_undo = Some(false);
    base.merge(overriding);
    assert_eq!(base.hide_undo, Some(false));
}

#[test]
fn capability_probe_answers_without_failing() {
    let provider = EquationProvider::default();
    let _ = provider.is_available();
    let latex = LatexEquationProvider::default();
    let context = latex.latex_context(12, 64_000);
    assert_eq!(context.environment.pre_code, "\\begin{document}");
    assert_eq!(context.environment.post_code, "\\end{document}");
}
