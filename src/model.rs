//! Values that the interpreter hands to the backend, as plain data.

use vstd::prelude::*;

verus! {

/// A source range as the parser produced it, by its byte offsets in the code map.
/// Two spans are the same breakpoint exactly when both offsets agree.
#[derive(Clone, Copy, Debug, PartialEq, Eq, Structural, Hash)]
pub struct Span {
    pub begin: u32,
    pub end: u32,
}

/// The start of one statement of a parsed file: its 0-based first line and its span.
#[derive(Clone, Copy, Debug, PartialEq, Eq, Structural)]
pub struct StatementStart {
    pub line: usize,
    pub span: Span,
}

/// A span resolved to its file and 0-based line and column range.
#[derive(Clone, Debug)]
pub struct Loc {
    pub file: String,
    pub begin_line: usize,
    pub begin_column: usize,
    pub end_line: usize,
    pub end_column: usize,
}

/// The largest value that a protocol integer can hold.
pub const PROTOCOL_INT_MAX: i64 = 0x7fff_ffff_ffff_ffff;

impl Loc {
    /// Every line and column can be shifted to 1-based without leaving `i64`.
    pub open spec fn wf(&self) -> bool {
        &&& self.begin_line < PROTOCOL_INT_MAX
        &&& self.begin_column < PROTOCOL_INT_MAX
        &&& self.end_line < PROTOCOL_INT_MAX
        &&& self.end_column < PROTOCOL_INT_MAX
    }

    /// An exact copy of the location.
    pub fn duplicate(&self) -> (r: Loc)
        ensures
            r == *self,
    {
        Loc {
            file: self.file.clone(),
            begin_line: self.begin_line,
            begin_column: self.begin_column,
            end_line: self.end_line,
            end_column: self.end_column,
        }
    }
}

/// A location that may be absent, each present one well formed.
pub open spec fn loc_wf(l: Option<Loc>) -> bool {
    match l {
        Some(x) => x.wf(),
        None => true,
    }
}

/// An exact copy of an optional location.
pub fn duplicate_loc(l: &Option<Loc>) -> (r: Option<Loc>)
    ensures
        r == *l,
{
    match l {
        Some(x) => Some(x.duplicate()),
        None => None,
    }
}

/// One entry of the interpreter's call stack, outermost first: the name of the
/// called function and the place it was called from.
#[derive(Clone, Debug)]
pub struct Frame {
    pub name: String,
    pub location: Option<Loc>,
}

/// One live binding: its name, the display form of its value and the name of its type.
#[derive(Clone, Debug)]
pub struct Binding {
    pub name: String,
    pub value: String,
    pub kind: String,
}

} // verus!
