use equation_pen::compiler::{
    CompilationTask, CompilationWorkResult, EngineEvent, EquationCompilerTask,
    EquationCompilerWorker, PendingWorkTable, work_events,
};
use equation_pen::config::EquationConfig;
use equation_pen::latex::{CompilationError, PipelineStage};

fn task(text: &str) -> CompilationTask {
    CompilationTask { equation_code: String::from(text), equation_config: EquationConfig::default() }
}

#[test]
fn coalescing_same_key_keeps_last_submission_only() {
    let mut worker = EquationCompilerWorker::new();
    assert!(!worker.handle_message(EquationCompilerTask::Compile(7, task("a"))));
    assert!(!worker.handle_message(EquationCompilerTask::Compile(7, task("b"))));
    assert!(!worker.handle_message(EquationCompilerTask::Compile(7, task("c"))));
    let (result, work) = worker.perform_compilation_work();
    assert_eq!(result.completed_work, Some(7));
    assert_eq!(work.unwrap().equation_code, "c");
    let (result2, work2) = worker.perform_compilation_work();
    assert!(result2.completed_work.is_none());
    assert!(work2.is_none());
}

#[test]
fn pending_table_overwrites_in_place() {
    let mut table = PendingWorkTable::new();
    table.insert_task(1, task("one"));
    table.insert_task(2, task("two"));
    table.insert_task(1, task("one-replaced"));
    assert_eq!(table.len(), 2);
    let first = table.take_front().unwrap();
    assert_eq!(first.0, 1);
    assert_eq!(first.1.equation_code, "one-replaced");
    let second = table.take_front().unwrap();
    assert_eq!(second.0, 2);
    assert_eq!(second.1.equation_code, "two");
    assert!(table.take_front().is_none());
}

#[test]
fn distinct_keys_each_dispatched_once_with_correct_routing() {
    let mut worker = EquationCompilerWorker::new();
    worker.handle_message(EquationCompilerTask::Compile(1, task("first")));
    worker.handle_message(EquationCompilerTask::Compile(2, task("second")));
    let (r1, w1) = worker.perform_compilation_work();
    let (r2, w2) = worker.perform_compilation_work();
    assert_eq!(r1.completed_work, Some(1));
    assert_eq!(w1.unwrap().equation_code, "first");
    assert_eq!(r2.completed_work, Some(2));
    assert_eq!(w2.unwrap().equation_code, "second");
    let events_one = work_events(1, Ok(String::from("<svg>1</svg>")));
    let events_two = work_events(2, Ok(String::from("<svg>2</svg>")));
    for event in &events_one {
        match event {
            EngineEvent::UpdateRenderedContent { key, .. } => assert_eq!(*key, 1),
            EngineEvent::SetError { key, .. } => assert_eq!(*key, 1),
            EngineEvent::ClearError { key } => assert_eq!(*key, 1),
        }
    }
    for event in &events_two {
        match event {
            EngineEvent::UpdateRenderedContent { key, .. } => assert_eq!(*key, 2),
            EngineEvent::SetError { key, .. } => assert_eq!(*key, 2),
            EngineEvent::ClearError { key } => assert_eq!(*key, 2),
        }
    }
}

#[test]
fn nonblocking_while_work_is_pending() {
    let mut worker = EquationCompilerWorker::new();
    assert!(worker.allow_blocking_receive());
    worker.handle_message(EquationCompilerTask::Compile(9, task("x")));
    assert!(!worker.allow_blocking_receive());
    assert!(!worker.should_exit());
    let _ = worker.perform_compilation_work();
    assert!(worker.allow_blocking_receive());
}

#[test]
fn shutdown_with_empty_table_exits_without_further_work() {
    let mut worker = EquationCompilerWorker::new();
    assert!(worker.handle_message(EquationCompilerTask::Quit));
    assert!(worker.should_exit());
    let (result, work) = worker.perform_compilation_work();
    assert!(result.completed_work.is_none());
    assert!(work.is_none());
}

#[test]
fn shutdown_with_pending_tasks_drains_them_all_first() {
    let mut worker = EquationCompilerWorker::new();
    worker.handle_message(EquationCompilerTask::Compile(1, task("a")));
    worker.handle_message(EquationCompilerTask::Compile(2, task("b")));
    assert!(worker.handle_message(EquationCompilerTask::Quit));
    assert!(!worker.should_exit());
    let (r1, _) = worker.perform_compilation_work();
    assert_eq!(r1.completed_work, Some(1));
    assert!(!worker.should_exit());
    let (r2, _) = worker.perform_compilation_work();
    assert_eq!(r2.completed_work, Some(2));
    assert!(worker.should_exit());
}

#[test]
fn success_emits_update_then_clear_error() {
    let events = work_events(5, Ok(String::from("<svg/>")));
    assert_eq!(events.len(), 2);
    match &events[0] {
        EngineEvent::UpdateRenderedContent { key, svg_code } => {
            assert_eq!(*key, 5);
            assert_eq!(svg_code, "<svg/>");
        },
        _ => panic!("expected rendered-content update first"),
    }
    match &events[1] {
        EngineEvent::ClearError { key } => assert_eq!(*key, 5),
        _ => panic!("expected error clear second"),
    }
}

#[test]
fn failure_emits_single_error_event_with_message() {
    let error = CompilationError::ProcessFailed {
        stage: PipelineStage::Typeset,
        diagnostics: String::from("undefined control sequence"),
    };
    let events = work_events(5, Err(error));
    assert_eq!(events.len(), 1);
    match &events[0] {
        EngineEvent::SetError { key, message } => {
            assert_eq!(*key, 5);
            assert_eq!(message, "undefined control sequence");
        },
        _ => panic!("expected a single error event"),
    }
}

#[test]
fn superseded_submission_is_never_compiled_or_reported() {
    let mut worker = EquationCompilerWorker::new();
    worker.handle_message(EquationCompilerTask::Compile(7, task("x^2")));
    worker.handle_message(EquationCompilerTask::Compile(7, task("x^2+1")));
    let (result, work) = worker.perform_compilation_work();
    assert_eq!(result.completed_work, Some(7));
    let dispatched = work.unwrap();
    assert_eq!(dispatched.equation_code, "x^2+1");
    let rendered = String::from("<svg>x^2+1</svg>");
    let events = work_events(7, Ok(rendered.clone()));
    assert_eq!(events.len(), 2);
    match &events[0] {
        EngineEvent::UpdateRenderedContent { key, svg_code } => {
            assert_eq!(*key, 7);
            assert_eq!(svg_code, &rendered);
        },
        _ => panic!("expected rendered-content update"),
    }
    let (no_result, no_work) = worker.perform_compilation_work();
    assert!(no_result.completed_work.is_none());
    assert!(no_work.is_none());
}

#[test]
fn work_result_carries_key() {
    let result = CompilationWorkResult { completed_work: Some(3) };
    assert_eq!(result.completed_work, Some(3));
}
