use dap_backend::controller::{
    completion_events, continue_directive, controller_step, inspection_directive, on_statement,
    outcome_text, stopped_event, ControllerAction, ControllerEvent, Event, Next, RunState,
};
use dap_backend::model::{Binding, Frame, Loc, Span, StatementStart};
use dap_backend::registry::{span_for_request, Registry};
use dap_backend::session::{LaunchError, LaunchState};
use dap_backend::translate::{
    capabilities, convert_frame, scopes, stack_trace, threads, variables, LOCALS_REFERENCE,
    ROOT_FRAME_ID,
};

fn span(begin: u32, end: u32) -> Span {
    Span { begin, end }
}

fn stmt(line: usize, begin: u32, end: u32) -> StatementStart {
    StatementStart { line, span: span(begin, end) }
}

fn sample_statements() -> Vec<StatementStart> {
    vec![stmt(0, 0, 5), stmt(2, 10, 20), stmt(5, 30, 40)]
}

fn loc(file: &str, bl: usize, bc: usize, el: usize, ec: usize) -> Loc {
    Loc {
        file: file.to_string(),
        begin_line: bl,
        begin_column: bc,
        end_line: el,
        end_column: ec,
    }
}

fn binding(name: &str, value: &str, kind: &str) -> Binding {
    Binding { name: name.to_string(), value: value.to_string(), kind: kind.to_string() }
}

#[test]
fn breakpoints_verified_for_statement_lines_in_order() {
    let mut reg = Registry::new();
    let file = "a.star".to_string();
    let flags = reg.set_breakpoints(file.clone(), &vec![6, 2, 1, 3], &Some(sample_statements()));
    assert_eq!(flags, vec![true, false, true, true]);
    assert!(reg.should_break(&file, &span(0, 5)));
    assert!(reg.should_break(&file, &span(10, 20)));
    assert!(reg.should_break(&file, &span(30, 40)));
    assert!(!reg.should_break(&"b.star".to_string(), &span(0, 5)));
}

#[test]
fn new_request_replaces_earlier_breakpoints() {
    let mut reg = Registry::new();
    let file = "a.star".to_string();
    reg.set_breakpoints(file.clone(), &vec![1, 3], &Some(sample_statements()));
    let flags = reg.set_breakpoints(file.clone(), &vec![6, 4], &Some(sample_statements()));
    assert_eq!(flags, vec![true, false]);
    assert!(!reg.should_break(&file, &span(0, 5)));
    assert!(!reg.should_break(&file, &span(10, 20)));
    assert!(reg.should_break(&file, &span(30, 40)));
}

#[test]
fn empty_request_clears_file() {
    let mut reg = Registry::new();
    let a = "a.star".to_string();
    let b = "b.star".to_string();
    reg.set_breakpoints(a.clone(), &vec![1], &Some(sample_statements()));
    reg.set_breakpoints(b.clone(), &vec![1], &Some(sample_statements()));
    let flags = reg.set_breakpoints(a.clone(), &vec![], &Some(sample_statements()));
    assert!(flags.is_empty());
    assert!(!reg.should_break(&a, &span(0, 5)));
    assert!(reg.should_break(&b, &span(0, 5)));
}

#[test]
fn unparsed_file_verifies_nothing_and_clears() {
    let mut reg = Registry::new();
    let file = "a.star".to_string();
    reg.set_breakpoints(file.clone(), &vec![1, 3], &Some(sample_statements()));
    let flags = reg.set_breakpoints(file.clone(), &vec![1, 3, 6], &None);
    assert_eq!(flags, vec![false, false, false]);
    assert!(!reg.should_break(&file, &span(0, 5)));
    assert!(!reg.should_break(&file, &span(10, 20)));
}

#[test]
fn lines_before_the_first_are_unverified() {
    let mut reg = Registry::new();
    let flags = reg.set_breakpoints("a.star".to_string(), &vec![0, -4, 1], &Some(sample_statements()));
    assert_eq!(flags, vec![false, false, true]);
}

#[test]
fn last_statement_on_a_line_wins() {
    let stmts = vec![stmt(3, 1, 2), stmt(3, 7, 9), stmt(4, 10, 11)];
    assert_eq!(span_for_request(&stmts, 4), Some(span(7, 9)));
    assert_eq!(span_for_request(&stmts, 5), Some(span(10, 11)));
    assert_eq!(span_for_request(&stmts, 1), None);
}

#[test]
fn breakpoint_on_first_statement_stops_once_then_finishes() {
    let mut reg = Registry::new();
    let file = "main.star".to_string();
    let stmts = vec![stmt(0, 0, 9), stmt(1, 10, 19)];
    reg.set_breakpoints(file.clone(), &vec![1], &Some(stmts.clone()));

    let mut events: Vec<Event> = Vec::new();
    let mut state = RunState::Running;
    let mut stops = 0;
    for s in &stmts {
        let (next, action) = on_statement(state, &reg, &file, &s.span);
        state = next;
        if action == ControllerAction::ReportStopped {
            stops += 1;
            events.push(stopped_event());
            let (next, action) =
                controller_step(state, ControllerEvent::CommandFinished(continue_directive()));
            assert_eq!(action, ControllerAction::Resume);
            state = next;
        }
    }
    assert_eq!(stops, 1);
    events.extend(completion_events(Ok("None".to_string())));
    assert_eq!(events.len(), 4);
    match &events[0] {
        Event::Stopped { reason, thread_id, all_threads_stopped } => {
            assert_eq!(reason, "breakpoint");
            assert_eq!(*thread_id, 0);
            assert!(*all_threads_stopped);
        }
        _ => panic!("first event is not a stop"),
    }
    assert!(matches!(&events[1], Event::Output(t) if t == "None"));
    assert!(matches!(events[2], Event::Exited(0)));
    assert!(matches!(events[3], Event::Terminated));
}

#[test]
fn failed_script_exits_with_one() {
    let events = completion_events(Err("error: boom".to_string()));
    assert!(matches!(&events[0], Event::Output(t) if t == "error: boom"));
    assert!(matches!(events[1], Event::Exited(1)));
    assert!(matches!(events[2], Event::Terminated));
    assert_eq!(outcome_text(Ok("42".to_string())), "42");
}

#[test]
fn stack_trace_of_two_level_call() {
    let pause = loc("m.star", 9, 4, 9, 10);
    let frames = vec![
        Frame { name: "f".to_string(), location: Some(loc("m.star", 20, 0, 20, 3)) },
        Frame { name: "g".to_string(), location: Some(loc("m.star", 2, 4, 2, 7)) },
    ];
    let t = stack_trace(&pause, &frames);
    assert_eq!(t.total_frames, 3);
    assert_eq!(t.stack_frames.len(), 3);

    let f0 = &t.stack_frames[0];
    assert_eq!((f0.id, f0.name.as_str()), (0, "g"));
    assert_eq!((f0.line, f0.column, f0.end_line, f0.end_column), (10, 5, Some(10), Some(11)));
    assert_eq!(f0.source_path.as_deref(), Some("m.star"));

    let f1 = &t.stack_frames[1];
    assert_eq!((f1.id, f1.name.as_str()), (1, "f"));
    assert_eq!((f1.line, f1.column, f1.end_line, f1.end_column), (3, 5, Some(3), Some(8)));

    let root = &t.stack_frames[2];
    assert_eq!((root.id, root.name.as_str()), (ROOT_FRAME_ID, "Root"));
    assert_eq!((root.line, root.column, root.end_line, root.end_column), (21, 1, Some(21), Some(4)));
}

#[test]
fn stack_trace_at_top_level() {
    let pause = loc("m.star", 0, 0, 0, 6);
    let t = stack_trace(&pause, &vec![]);
    assert_eq!(t.total_frames, 1);
    let root = &t.stack_frames[0];
    assert_eq!((root.id, root.name.as_str(), root.line, root.column), (ROOT_FRAME_ID, "Root", 1, 1));
}

#[test]
fn frame_without_location_has_zero_position() {
    let f = convert_frame(4, "h".to_string(), None);
    assert_eq!((f.id, f.name.as_str(), f.line, f.column), (4, "h", 0, 0));
    assert!(f.end_line.is_none() && f.end_column.is_none() && f.source_path.is_none());
}

#[test]
fn evaluation_never_stops() {
    let (state, action) = controller_step(RunState::Paused, ControllerEvent::EvaluationStarted);
    assert_eq!((state, action), (RunState::Evaluating, ControllerAction::Proceed));
    for hit in [true, false] {
        let (s, a) = controller_step(state, ControllerEvent::Statement { breakpoint_hit: hit });
        assert_eq!((s, a), (RunState::Evaluating, ControllerAction::Proceed));
    }
    let (state, _) = controller_step(state, ControllerEvent::EvaluationFinished);
    assert_eq!(state, RunState::Paused);
}

#[test]
fn variables_twice_are_identical() {
    let live = vec![binding("x", "1", "int"), binding("s", "\"hi\"", "string")];
    let first = variables(&live);
    let (state, action) =
        controller_step(RunState::Paused, ControllerEvent::CommandFinished(inspection_directive()));
    assert_eq!((state, action), (RunState::Paused, ControllerAction::AwaitCommand));
    let second = variables(&live);
    assert_eq!(first.len(), 2);
    assert_eq!(first.len(), second.len());
    for (a, b) in first.iter().zip(second.iter()) {
        assert_eq!((&a.name, &a.value, &a.kind), (&b.name, &b.value, &b.kind));
        assert_eq!(a.variables_reference, 0);
    }
    assert_eq!(first[1].name, "s");
    assert_eq!(first[1].value, "\"hi\"");
    assert_eq!(first[1].kind.as_deref(), Some("string"));
}

#[test]
fn threads_is_single_main_thread() {
    let t = threads();
    assert_eq!(t.len(), 1);
    assert_eq!(t[0].id, 0);
    assert_eq!(t[0].name, "main");
}

#[test]
fn scopes_counts_bindings() {
    let s = scopes(&vec![binding("x", "1", "int"), binding("y", "2", "int")]);
    assert_eq!(s.len(), 1);
    assert_eq!(s[0].name, "Locals");
    assert_eq!(s[0].named_variables, Some(2));
    assert_eq!(s[0].variables_reference, LOCALS_REFERENCE);
    assert!(!s[0].expensive);
}

#[test]
fn capabilities_announced() {
    let c = capabilities();
    assert!(c.configuration_done_request && c.evaluate_for_hovers);
    assert!(c.set_variable && c.step_in_targets_request);
}

#[test]
fn directives() {
    assert_eq!(inspection_directive(), Next::RemainPaused);
    assert_eq!(continue_directive(), Next::Continue);
}

#[test]
fn launch_reads_program_argument() {
    let mut st = LaunchState::new();
    let mut args = serde_json::Map::new();
    args.insert("program".to_string(), serde_json::Value::String("x.star".to_string()));
    assert_eq!(st.launch(&args), Ok(()));
    assert_eq!(st.target.as_deref(), Some("x.star"));
}

#[test]
fn launch_without_string_program_fails() {
    let mut st = LaunchState::new();
    let mut args = serde_json::Map::new();
    args.insert("program".to_string(), serde_json::Value::Bool(true));
    assert_eq!(st.launch(&args), Err(LaunchError::MissingProgram));
    assert_eq!(st.launch(&serde_json::Map::new()), Err(LaunchError::MissingProgram));
    assert!(st.target.is_none());
}

#[test]
fn configuration_done_starts_once() {
    let mut st = LaunchState::new();
    assert_eq!(st.configuration_done(), Ok(None));
    assert_eq!(st.launch_program(Some("a.star".to_string())), Ok(()));
    assert_eq!(st.launch_program(Some("b.star".to_string())), Ok(()));
    assert_eq!(st.configuration_done(), Ok(Some("b.star".to_string())));
    assert!(st.started);
    assert_eq!(st.launch_program(Some("c.star".to_string())), Ok(()));
    assert_eq!(st.configuration_done(), Err(LaunchError::SessionAlreadyStarted));
}

#[test]
fn hook_ignores_statements_without_breakpoint() {
    let mut reg = Registry::new();
    let file = "m.star".to_string();
    reg.set_breakpoints(file.clone(), &vec![3], &Some(sample_statements()));
    let (s, a) = on_statement(RunState::Running, &reg, &file, &span(0, 5));
    assert_eq!((s, a), (RunState::Running, ControllerAction::Proceed));
    let (s, a) = on_statement(RunState::Running, &reg, &"other.star".to_string(), &span(10, 20));
    assert_eq!((s, a), (RunState::Running, ControllerAction::Proceed));
    let (s, a) = on_statement(RunState::Running, &reg, &file, &span(10, 20));
    assert_eq!((s, a), (RunState::Paused, ControllerAction::ReportStopped));
    let (s, a) = on_statement(RunState::Evaluating, &reg, &file, &span(10, 20));
    assert_eq!((s, a), (RunState::Evaluating, ControllerAction::Proceed));
}

#[test]
fn inspections_keep_the_pause_until_continue() {
    let mut reg = Registry::new();
    let file = "main.star".to_string();
    reg.set_breakpoints(file.clone(), &vec![1], &Some(vec![stmt(0, 0, 9)]));
    let (state, action) = on_statement(RunState::Running, &reg, &file, &span(0, 9));
    assert_eq!((state, action), (RunState::Paused, ControllerAction::ReportStopped));
    let mut state = state;
    for _ in 0..3 {
        let (next, action) =
            controller_step(state, ControllerEvent::CommandFinished(inspection_directive()));
        assert_eq!((next, action), (RunState::Paused, ControllerAction::AwaitCommand));
        state = next;
    }
    let (state, action) =
        controller_step(state, ControllerEvent::CommandFinished(continue_directive()));
    assert_eq!((state, action), (RunState::Running, ControllerAction::Resume));
}
