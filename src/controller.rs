//! The decisions of the execution thread: when a statement pauses it, what
//! each injected command does to the pause, and what is reported at the end.

use vstd::prelude::*;
use crate::model::Span;
use crate::registry::{breaks_at, Registry};
use crate::translate::MAIN_THREAD_ID;

verus! {

/// Where the execution thread stands.
#[derive(Clone, Copy, Debug, PartialEq, Eq, Structural)]
pub enum RunState {
    /// The script runs; each statement consults the breakpoints.
    Running,
    /// Stopped at a breakpoint, serving injected commands one at a time.
    Paused,
    /// An expression is evaluated during a pause, with the statement hook off.
    Evaluating,
}

/// What an injected command asks of the pause once it has run.
#[derive(Clone, Copy, Debug, PartialEq, Eq, Structural)]
pub enum Next {
    Continue,
    RemainPaused,
}

/// What happens on the execution thread.
#[derive(Clone, Copy, Debug, PartialEq, Eq, Structural)]
pub enum ControllerEvent {
    /// A statement is about to run; `breakpoint_hit` tells whether the registry
    /// holds its span for its file.
    Statement { breakpoint_hit: bool },
    /// An injected command has run and returned its directive.
    CommandFinished(Next),
    /// An injected evaluation starts.
    EvaluationStarted,
    /// That evaluation is over.
    EvaluationFinished,
}

/// What the execution thread does next.
#[derive(Clone, Copy, Debug, PartialEq, Eq, Structural)]
pub enum ControllerAction {
    /// Go on with the script or with the work at hand.
    Proceed,
    /// Report a stop at a breakpoint, then wait for a command.
    ReportStopped,
    /// Wait for the next command.
    AwaitCommand,
    /// Leave the pause and go on with the script.
    Resume,
}

/// The next state and action of the execution thread. An event that cannot
/// occur in a state changes nothing.
pub open spec fn controller_next(state: RunState, event: ControllerEvent) -> (RunState, ControllerAction) {
    match (state, event) {
        (RunState::Running, ControllerEvent::Statement { breakpoint_hit }) => if breakpoint_hit {
            (RunState::Paused, ControllerAction::ReportStopped)
        } else {
            (RunState::Running, ControllerAction::Proceed)
        },
        (RunState::Paused, ControllerEvent::CommandFinished(Next::Continue)) => (
            RunState::Running,
            ControllerAction::Resume,
        ),
        (RunState::Paused, ControllerEvent::CommandFinished(Next::RemainPaused)) => (
            RunState::Paused,
            ControllerAction::AwaitCommand,
        ),
        (RunState::Paused, ControllerEvent::EvaluationStarted) => (
            RunState::Evaluating,
            ControllerAction::Proceed,
        ),
        (RunState::Evaluating, ControllerEvent::EvaluationFinished) => (
            RunState::Paused,
            ControllerAction::Proceed,
        ),
        _ => (state, ControllerAction::Proceed),
    }
}

/// Takes one step of the execution thread.
pub fn controller_step(state: RunState, event: ControllerEvent) -> (r: (RunState, ControllerAction))
    ensures
        r == controller_next(state, event),
        state == RunState::Evaluating ==> r.1 != ControllerAction::ReportStopped,
{
    match (state, event) {
        (RunState::Running, ControllerEvent::Statement { breakpoint_hit }) => if breakpoint_hit {
            (RunState::Paused, ControllerAction::ReportStopped)
        } else {
            (RunState::Running, ControllerAction::Proceed)
        },
        (RunState::Paused, ControllerEvent::CommandFinished(Next::Continue)) => (
            RunState::Running,
            ControllerAction::Resume,
        ),
        (RunState::Paused, ControllerEvent::CommandFinished(Next::RemainPaused)) => (
            RunState::Paused,
            ControllerAction::AwaitCommand,
        ),
        (RunState::Paused, ControllerEvent::EvaluationStarted) => (
            RunState::Evaluating,
            ControllerAction::Proceed,
        ),
        (RunState::Evaluating, ControllerEvent::EvaluationFinished) => (
            RunState::Paused,
            ControllerAction::Proceed,
        ),
        _ => (state, ControllerAction::Proceed),
    }
}

/// The statement hook: before the statement at `span` of `file` runs, the
/// registry decides whether it is a breakpoint, and the thread steps on that.
pub fn on_statement(state: RunState, registry: &Registry, file: &String, span: &Span) -> (r: (
    RunState,
    ControllerAction,
))
    requires
        registry.wf(),
    ensures
        r == controller_next(
            state,
            ControllerEvent::Statement { breakpoint_hit: breaks_at(registry@, file@, *span) },
        ),
{
    let hit = registry.should_break(file, span);
    controller_step(state, ControllerEvent::Statement { breakpoint_hit: hit })
}

/// The directive of a command that only reads state: the pause is kept.
pub fn inspection_directive() -> (r: Next)
    ensures
        r == Next::RemainPaused,
{
    Next::RemainPaused
}

/// The directive of the continue request: the pause ends.
pub fn continue_directive() -> (r: Next)
    ensures
        r == Next::Continue,
{
    Next::Continue
}

/// An event sent to the client.
#[derive(Clone, Debug)]
pub enum Event {
    Initialized,
    Stopped { reason: String, thread_id: i64, all_threads_stopped: bool },
    Output(String),
    Exited(i64),
    Terminated,
}

/// The event sent when a breakpoint pauses the script.
pub open spec fn is_breakpoint_stop(e: Event) -> bool {
    match e {
        Event::Stopped { reason, thread_id, all_threads_stopped } => {
            &&& reason@ == "breakpoint"@
            &&& thread_id == MAIN_THREAD_ID
            &&& all_threads_stopped
        },
        _ => false,
    }
}

/// The stop event: reason "breakpoint", the main thread, all threads stopped.
pub fn stopped_event() -> (r: Event)
    ensures
        is_breakpoint_stop(r),
{
    Event::Stopped {
        reason: "breakpoint".to_owned(),
        thread_id: MAIN_THREAD_ID,
        all_threads_stopped: true,
    }
}

/// The text that reports an outcome: the displayed result, or the formatted error.
pub open spec fn outcome_text_of(outcome: Result<String, String>) -> Seq<char> {
    match outcome {
        Ok(v) => v@,
        Err(e) => e@,
    }
}

/// The text that reports an outcome of running the script or evaluating an
/// expression: the result's display form, or the formatted error.
pub fn outcome_text(outcome: Result<String, String>) -> (r: String)
    ensures
        r@ == outcome_text_of(outcome),
{
    match outcome {
        Ok(v) => v,
        Err(e) => e,
    }
}

/// The exit code of a finished script: 0 on success, 1 on error.
pub open spec fn exit_code_of(outcome: Result<String, String>) -> i64 {
    if outcome is Ok {
        0
    } else {
        1
    }
}

/// The events that end a session, in order: the output of the script (its
/// result or its error), the exit code, and termination.
pub fn completion_events(outcome: Result<String, String>) -> (r: Vec<Event>)
    ensures
        r.len() == 3,
        r[0] matches Event::Output(t) && t@ == outcome_text_of(outcome),
        r[1] == Event::Exited(exit_code_of(outcome)),
        r[2] is Terminated,
{
    let code: i64 = if outcome.is_ok() {
        0
    } else {
        1
    };
    let text = outcome_text(outcome);
    let mut r: Vec<Event> = Vec::new();
    r.push(Event::Output(text));
    r.push(Event::Exited(code));
    r.push(Event::Terminated);
    r
}

/// While an expression is evaluated the statement hook is off: no statement,
/// on a breakpoint or not, reports a stop or leaves the evaluation.
pub proof fn lemma_evaluation_never_stops(breakpoint_hit: bool)
    ensures
        controller_next(RunState::Paused, ControllerEvent::EvaluationStarted) == (
            RunState::Evaluating,
            ControllerAction::Proceed,
        ),
        controller_next(RunState::Evaluating, ControllerEvent::Statement { breakpoint_hit }) == (
            RunState::Evaluating,
            ControllerAction::Proceed,
        ),
        controller_next(RunState::Evaluating, ControllerEvent::EvaluationFinished).0
            == RunState::Paused,
{
}

/// A command that only reads state keeps the pause, so a second inspection sees
/// the same live state as the first; only the continue directive resumes.
pub proof fn lemma_inspection_keeps_pause()
    ensures
        controller_next(RunState::Paused, ControllerEvent::CommandFinished(Next::RemainPaused)) == (
            RunState::Paused,
            ControllerAction::AwaitCommand,
        ),
        controller_next(RunState::Paused, ControllerEvent::CommandFinished(Next::Continue)) == (
            RunState::Running,
            ControllerAction::Resume,
        ),
{
}

/// The actions of the execution thread over statements whose breakpoint hits
/// are `hits`, starting in `state`, where each stop is answered by the continue
/// command.
pub open spec fn run_actions(state: RunState, hits: Seq<bool>) -> Seq<ControllerAction>
    decreases hits.len(),
{
    if hits.len() == 0 {
        Seq::empty()
    } else {
        let (s1, a1) = controller_next(state, ControllerEvent::Statement { breakpoint_hit: hits[0] });
        if a1 == ControllerAction::ReportStopped {
            let (s2, a2) = controller_next(s1, ControllerEvent::CommandFinished(Next::Continue));
            seq![a1, a2] + run_actions(s2, hits.subrange(1, hits.len() as int))
        } else {
            seq![a1] + run_actions(s1, hits.subrange(1, hits.len() as int))
        }
    }
}

/// The state of the execution thread after those statements.
pub open spec fn run_final_state(state: RunState, hits: Seq<bool>) -> RunState
    decreases hits.len(),
{
    if hits.len() == 0 {
        state
    } else {
        let (s1, a1) = controller_next(state, ControllerEvent::Statement { breakpoint_hit: hits[0] });
        if a1 == ControllerAction::ReportStopped {
            let (s2, a2) = controller_next(s1, ControllerEvent::CommandFinished(Next::Continue));
            run_final_state(s2, hits.subrange(1, hits.len() as int))
        } else {
            run_final_state(s1, hits.subrange(1, hits.len() as int))
        }
    }
}

/// Statements that hit no breakpoint run on without a stop.
pub proof fn lemma_run_without_hits(hits: Seq<bool>)
    requires
        forall|i: int| 0 <= i < hits.len() ==> !hits[i],
    ensures
        run_actions(RunState::Running, hits) == Seq::new(hits.len(), |i: int| ControllerAction::Proceed),
        run_final_state(RunState::Running, hits) == RunState::Running,
    decreases hits.len(),
{
    if hits.len() > 0 {
        let rest = hits.subrange(1, hits.len() as int);
        lemma_run_without_hits(rest);
        assert(run_actions(RunState::Running, hits) =~= Seq::new(
            hits.len(),
            |i: int| ControllerAction::Proceed,
        ));
    }
}

/// A script whose only breakpoint is its first statement stops exactly once,
/// before anything else happens; the pause lasts until the continue command,
/// after which the rest runs without a stop and the thread is running when the
/// script ends, so the completion events follow.
pub proof fn lemma_single_breakpoint_on_first_statement(hits: Seq<bool>)
    requires
        hits.len() > 0,
        hits[0],
        forall|i: int| 1 <= i < hits.len() ==> !hits[i],
    ensures
        run_actions(RunState::Running, hits).len() == hits.len() + 1,
        run_actions(RunState::Running, hits)[0] == ControllerAction::ReportStopped,
        run_actions(RunState::Running, hits)[1] == ControllerAction::Resume,
        forall|j: int|
            2 <= j < hits.len() + 1 ==> #[trigger] run_actions(RunState::Running, hits)[j]
                == ControllerAction::Proceed,
        run_final_state(RunState::Running, hits) == RunState::Running,
        controller_next(RunState::Paused, ControllerEvent::CommandFinished(Next::RemainPaused)).0
            == RunState::Paused,
{
    let rest = hits.subrange(1, hits.len() as int);
    lemma_run_without_hits(rest);
    let acts = run_actions(RunState::Running, hits);
    assert(acts == seq![ControllerAction::ReportStopped, ControllerAction::Resume] + run_actions(
        RunState::Running,
        rest,
    ));
}

} // verus!
