//! Rows of a captured stack as plain values, and how they are copied out of
//! the engine's records.

use crate::engine::{frame_func_index, frame_func_name, frame_module_name, trap_frames};
use vstd::prelude::*;

verus! {

/// One row of a captured stack, as the engine supplies it.
pub struct RawFrame {
    /// The index of the function in its module's function index space.
    pub func_index: u32,
    /// The name of the function, where the engine knows one.
    pub func_name: Option<String>,
    /// The name of the module, where the engine knows one.
    pub module_name: Option<String>,
}

/// The mathematical content of a row.
pub struct Row {
    /// The index of the function.
    pub func_index: u32,
    /// The text of the function's name, where there is one.
    pub func_name: Option<Seq<char>>,
    /// The text of the module's name, where there is one.
    pub module_name: Option<Seq<char>>,
}

/// The text of a name that may be missing.
pub open spec fn text_of(name: Option<String>) -> Option<Seq<char>> {
    match name {
        Some(text) => Some(text@),
        None => None,
    }
}

impl View for RawFrame {
    type V = Row;

    open spec fn view(&self) -> Row {
        Row {
            func_index: self.func_index,
            func_name: text_of(self.func_name),
            module_name: text_of(self.module_name),
        }
    }
}

/// The contents of a run of rows, row by row.
pub open spec fn rows_view(rows: Seq<RawFrame>) -> Seq<Row> {
    Seq::new(rows.len(), |i: int| rows[i]@)
}

/// The row that one frame record of the engine describes.
pub open spec fn row_of(info: wasmtime::FrameInfo) -> Row {
    Row {
        func_index: frame_func_index(info),
        func_name: frame_func_name(info),
        module_name: frame_module_name(info),
    }
}

/// The rows that a trap record of the engine describes, innermost first.
pub open spec fn rows_of(record: wasmtime::Trap) -> Seq<Row> {
    Seq::new(trap_frames(record).len(), |i: int| row_of(trap_frames(record)[i]))
}

/// An owned copy of a name that may be missing.
fn owned(name: Option<&str>) -> (copy: Option<String>)
    ensures
        match name {
            Some(text) => text_of(copy) == Some(text@),
            None => copy is None,
        },
{
    match name {
        Some(text) => Some(text.to_owned()),
        None => None,
    }
}

impl RawFrame {
    /// Copies out of the engine's record what a row holds.
    pub fn from_info(info: &wasmtime::FrameInfo) -> (row: RawFrame)
        ensures
            row@ == row_of(*info),
    {
        RawFrame {
            func_index: info.func_index(),
            func_name: owned(info.func_name()),
            module_name: owned(info.module_name()),
        }
    }
}

/// Copies the stack out of a trap record of the engine, row by row and in
/// the record's order.
pub fn snapshot(record: &wasmtime::Trap) -> (rows: Vec<RawFrame>)
    ensures
        rows_view(rows@) == rows_of(*record),
{
    let recorded = record.trace();
    let mut rows: Vec<RawFrame> = Vec::new();
    let mut idx: usize = 0;
    while idx < recorded.len()
        invariant
            recorded@ == trap_frames(*record),
            idx <= recorded@.len(),
            rows@.len() == idx,
            forall|i: int| 0 <= i < idx ==> (#[trigger] rows@[i])@ == row_of(recorded@[i]),
        decreases recorded@.len() - idx,
    {
        rows.push(RawFrame::from_info(&recorded[idx]));
        idx += 1;
    }
    rows
}

} // verus!
