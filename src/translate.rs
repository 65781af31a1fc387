//! Protocol shapes built from interpreter state: stack frames, scopes,
//! variables, threads and the announced capabilities.

use vstd::prelude::*;
use crate::model::{duplicate_loc, loc_wf, Binding, Frame, Loc, PROTOCOL_INT_MAX};

verus! {

/// Identifier of the synthetic outermost frame.
pub const ROOT_FRAME_ID: i64 = 10000;

/// Reference under which the single scope's variables are listed.
pub const LOCALS_REFERENCE: i64 = 2000;

/// A stack frame as the client sees it: 1-based lines and columns, 0 where
/// the frame has no location.
#[derive(Clone, Debug)]
pub struct StackFrame {
    pub id: i64,
    pub name: String,
    pub line: i64,
    pub column: i64,
    pub end_line: Option<i64>,
    pub end_column: Option<i64>,
    pub source_path: Option<String>,
}

/// The frames of a stack trace, innermost first, and their number.
#[derive(Clone, Debug)]
pub struct StackTrace {
    pub stack_frames: Vec<StackFrame>,
    pub total_frames: i64,
}

/// `f` is the protocol frame with identifier `id` and name `name` at `loc`.
pub open spec fn frame_at(f: StackFrame, id: int, name: Seq<char>, loc: Option<Loc>) -> bool {
    &&& f.id == id
    &&& f.name@ == name
    &&& match loc {
        Some(l) => {
            &&& f.line == l.begin_line + 1
            &&& f.column == l.begin_column + 1
            &&& f.end_line == Some((l.end_line + 1) as i64)
            &&& f.end_column == Some((l.end_column + 1) as i64)
            &&& f.source_path == Some(l.file)
        },
        None => {
            &&& f.line == 0
            &&& f.column == 0
            &&& f.end_line is None
            &&& f.end_column is None
            &&& f.source_path is None
        },
    }
}

/// The location reported for the `i`-th frame, innermost first, of a trace taken
/// at `pause` over `frames` (outermost first). The interpreter records in each
/// frame where it was called from, so frame `i` is placed at the call site kept
/// by the frame one level further in; the innermost frame is placed at the pause.
pub open spec fn reported_location(pause: Loc, frames: Seq<Frame>, i: int) -> Option<Loc> {
    if i == 0 {
        Some(pause)
    } else {
        frames[frames.len() - i].location
    }
}

/// Every location in the call stack is well formed.
pub open spec fn frames_wf(frames: Seq<Frame>) -> bool {
    forall|i: int| 0 <= i < frames.len() ==> loc_wf(#[trigger] frames[i].location)
}

/// The protocol frame with identifier `id` and name `name` at `loc`, lines and
/// columns shifted from 0-based to 1-based.
pub fn convert_frame(id: i64, name: String, loc: Option<Loc>) -> (r: StackFrame)
    requires
        loc_wf(loc),
    ensures
        frame_at(r, id as int, name@, loc),
{
    match loc {
        Some(l) => StackFrame {
            id,
            name,
            line: l.begin_line as i64 + 1,
            column: l.begin_column as i64 + 1,
            end_line: Some(l.end_line as i64 + 1),
            end_column: Some(l.end_column as i64 + 1),
            source_path: Some(l.file),
        },
        None => StackFrame {
            id,
            name,
            line: 0,
            column: 0,
            end_line: None,
            end_column: None,
            source_path: None,
        },
    }
}

/// The stack trace at a pause at `pause`, from the call stack `frames`
/// (outermost first): one frame per call, innermost first with identifiers
/// 0, 1, ..., then the synthetic root frame.
pub fn stack_trace(pause: &Loc, frames: &Vec<Frame>) -> (r: StackTrace)
    requires
        pause.wf(),
        frames_wf(frames@),
        frames.len() < PROTOCOL_INT_MAX,
    ensures
        r.stack_frames.len() == frames.len() + 1,
        r.total_frames == frames.len() + 1,
        forall|i: int|
            0 <= i < frames.len() ==> frame_at(
                #[trigger] r.stack_frames[i],
                i,
                frames[frames.len() - 1 - i].name@,
                reported_location(*pause, frames@, i),
            ),
        frame_at(
            r.stack_frames[frames.len() as int],
            ROOT_FRAME_ID as int,
            "Root"@,
            reported_location(*pause, frames@, frames.len() as int),
        ),
{
    let n = frames.len();
    let mut res: Vec<StackFrame> = Vec::new();
    let mut next: Option<Loc> = Some(pause.duplicate());
    let mut i: usize = 0;
    while i < n
        invariant
            n == frames.len(),
            n < PROTOCOL_INT_MAX,
            i <= n,
            pause.wf(),
            frames_wf(frames@),
            res.len() == i,
            next == reported_location(*pause, frames@, i as int),
            forall|j: int|
                0 <= j < i ==> frame_at(
                    #[trigger] res[j],
                    j,
                    frames[n - 1 - j].name@,
                    reported_location(*pause, frames@, j),
                ),
        decreases n - i,
    {
        let x = &frames[n - 1 - i];
        proof {
            if i > 0 {
                assert(loc_wf(frames[n - i].location));
            }
        }
        let f = convert_frame(i as i64, x.name.clone(), next);
        res.push(f);
        next = duplicate_loc(&x.location);
        i = i + 1;
    }
    proof {
        if n > 0 {
            assert(loc_wf(frames[0].location));
        }
    }
    let root = convert_frame(ROOT_FRAME_ID, "Root".to_owned(), next);
    res.push(root);
    StackTrace { stack_frames: res, total_frames: n as i64 + 1 }
}

/// A variable as the client sees it.
#[derive(Clone, Debug)]
pub struct Variable {
    pub name: String,
    pub value: String,
    pub kind: Option<String>,
    pub variables_reference: i64,
}

/// The protocol variable that shows binding `b`.
pub open spec fn variable_of(b: Binding) -> Variable {
    Variable { name: b.name, value: b.value, kind: Some(b.kind), variables_reference: 0 }
}

/// The variables of a binding snapshot: name, displayed value and type, in order.
pub open spec fn variables_of(bindings: Seq<Binding>) -> Seq<Variable> {
    bindings.map_values(|b: Binding| variable_of(b))
}

/// The variables that show the live bindings, one per binding, in order.
pub fn variables(bindings: &Vec<Binding>) -> (r: Vec<Variable>)
    ensures
        r@ == variables_of(bindings@),
{
    let mut res: Vec<Variable> = Vec::new();
    let mut i: usize = 0;
    while i < bindings.len()
        invariant
            i <= bindings.len(),
            res@ =~= variables_of(bindings@.take(i as int)),
        decreases bindings.len() - i,
    {
        let b = &bindings[i];
        res.push(
            Variable {
                name: b.name.clone(),
                value: b.value.clone(),
                kind: Some(b.kind.clone()),
                variables_reference: 0,
            },
        );
        i = i + 1;
        assert(res@ =~= variables_of(bindings@.take(i as int)));
    }
    assert(bindings@.take(bindings.len() as int) == bindings@);
    res
}

/// A scope as the client sees it.
#[derive(Clone, Debug)]
pub struct Scope {
    pub name: String,
    pub named_variables: Option<i64>,
    pub variables_reference: i64,
    pub expensive: bool,
}

/// The scopes at a pause: the single scope "Locals", with as many named
/// variables as there are live bindings.
pub fn scopes(bindings: &Vec<Binding>) -> (r: Vec<Scope>)
    requires
        bindings.len() <= PROTOCOL_INT_MAX,
    ensures
        r.len() == 1,
        r[0].name@ == "Locals"@,
        r[0].named_variables == Some(bindings.len() as i64),
        r[0].variables_reference == LOCALS_REFERENCE,
        !r[0].expensive,
{
    let mut r: Vec<Scope> = Vec::new();
    r.push(
        Scope {
            name: "Locals".to_owned(),
            named_variables: Some(bindings.len() as i64),
            variables_reference: LOCALS_REFERENCE,
            expensive: false,
        },
    );
    r
}

/// A thread as the client sees it.
#[derive(Clone, Debug)]
pub struct Thread {
    pub id: i64,
    pub name: String,
}

/// The identifier of the one execution thread.
pub const MAIN_THREAD_ID: i64 = 0;

/// The threads of the debuggee: always the one thread 0, named "main".
pub fn threads() -> (r: Vec<Thread>)
    ensures
        r.len() == 1,
        r[0].id == MAIN_THREAD_ID,
        r[0].name@ == "main"@,
{
    let mut r: Vec<Thread> = Vec::new();
    r.push(Thread { id: MAIN_THREAD_ID, name: "main".to_owned() });
    r
}

/// What the backend announces that it supports.
#[derive(Clone, Copy, Debug, PartialEq, Eq, Structural)]
pub struct Capabilities {
    pub configuration_done_request: bool,
    pub evaluate_for_hovers: bool,
    pub set_variable: bool,
    pub step_in_targets_request: bool,
}

/// The capabilities announced on initialization: configuration-done, evaluation
/// on hover, setting variables and step-in targets.
pub fn capabilities() -> (r: Capabilities)
    ensures
        r.configuration_done_request,
        r.evaluate_for_hovers,
        r.set_variable,
        r.step_in_targets_request,
{
    Capabilities {
        configuration_done_request: true,
        evaluate_for_hovers: true,
        set_variable: true,
        step_in_targets_request: true,
    }
}

/// In a stack trace the innermost frame is placed at the pause, the next one at
/// the call site of the innermost call, and the root frame at the outermost
/// call site; there is one frame more than the call stack is deep.
pub proof fn lemma_stack_trace_locations(pause: Loc, frames: Seq<Frame>)
    requires
        frames.len() >= 1,
    ensures
        reported_location(pause, frames, 0) == Some(pause),
        reported_location(pause, frames, 1) == frames[frames.len() - 1].location,
        reported_location(pause, frames, frames.len() as int) == frames[0].location,
{
}

/// Listing the variables of one binding snapshot twice gives the same list.
pub proof fn lemma_variables_repeatable(first: Seq<Binding>, second: Seq<Binding>)
    requires
        first == second,
    ensures
        variables_of(first) == variables_of(second),
        variables_of(first).len() == first.len(),
{
}

} // verus!
