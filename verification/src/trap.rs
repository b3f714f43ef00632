//! Traps and the handles through which the embedder holds them.

use crate::engine::{raise, share, trap_message};
use crate::frame::{wasm_frame_t, FrameModel};
use crate::stack::{rows_of, rows_view, snapshot, RawFrame, Row};
use crate::text::{decode_lossy, utf8_lossy};
use crate::vec::{wasm_frame_vec_t, wasm_name_t};
use std::rc::Rc;
use vstd::prelude::*;
use vstd::slice::{slice_subrange, slice_to_vec};
use vstd::utf8::encode_utf8;

verus! {

/// One captured fault: a message and the stack that was live when the fault
/// occurred. Nothing changes it once it is made.
pub struct Fault {
    /// The engine's record of the fault. The message is read from it.
    record: wasmtime::Trap,
    /// The stack of the fault, innermost frame first: copied out of the
    /// record where the engine recorded the fault, and otherwise as whoever
    /// made the trap gave it.
    rows: Vec<RawFrame>,
}

impl Fault {
    /// The message of the fault.
    pub closed spec fn message(&self) -> Seq<char> {
        trap_message(self.record)
    }

    /// The stack of the fault, innermost frame first.
    pub closed spec fn trace(&self) -> Seq<Row> {
        rows_view(self.rows@)
    }

    /// The message of the fault.
    pub(crate) fn text(&self) -> (text: &str)
        ensures
            text@ == self.message(),
    {
        self.record.message()
    }

    /// The number of rows of the stack.
    pub(crate) fn depth(&self) -> (depth: usize)
        ensures
            depth == self.trace().len(),
    {
        self.rows.len()
    }

    /// Row `idx` of the stack.
    pub(crate) fn row(&self, idx: usize) -> (row: &RawFrame)
        requires
            idx < self.trace().len(),
        ensures
            row@ == self.trace()[idx as int],
    {
        &self.rows[idx]
    }
}

/// Text that goes with a trap, as the embedder passes it: UTF-8 bytes and one
/// terminating zero byte.
pub type wasm_message_t = wasm_name_t;

/// Stands for the embedder's store. Making a trap reads nothing from it.
pub struct wasm_store_t {}

/// A handle to a trap. Copies of a handle share the trap, which lives until
/// the last handle and the last frame view of it are gone.
pub struct wasm_trap_t {
    trap: Rc<Fault>,
}

impl View for wasm_trap_t {
    type V = Fault;

    /// The trap that the handle refers to.
    closed spec fn view(&self) -> Fault {
        *self.trap
    }
}

impl wasm_trap_t {
    /// A handle to a new trap with the message and the stack given.
    pub fn new(message: String, rows: Vec<RawFrame>) -> (handle: wasm_trap_t)
        ensures
            handle@.message() == message@,
            handle@.trace() == rows_view(rows@),
    {
        wasm_trap_t { trap: Rc::new(Fault { record: raise(message), rows }) }
    }

    /// A handle to a new trap for a fault that the engine has recorded: the
    /// record's message, and a copy of the stack that the record holds.
    pub fn capture(record: wasmtime::Trap) -> (handle: wasm_trap_t)
        ensures
            handle@.message() == trap_message(record),
            handle@.trace() == rows_of(record),
    {
        let rows = snapshot(&record);
        wasm_trap_t { trap: Rc::new(Fault { record, rows }) }
    }
}

impl Clone for wasm_trap_t {
    /// The copy refers to the same trap.
    fn clone(&self) -> (other: wasm_trap_t)
        ensures
            other@ == self@,
    {
        wasm_trap_t { trap: share(&self.trap) }
    }
}

/// Whether `bytes` end in the zero byte that a message must end in.
pub open spec fn terminated(bytes: Seq<u8>) -> bool {
    bytes.len() > 0 && bytes.last() == 0
}

/// The text of the trap that is made from the message `bytes`: what the bytes
/// before the terminator stand for.
pub open spec fn message_text(bytes: Seq<u8>) -> Seq<char> {
    utf8_lossy(bytes.drop_last())
}

/// The bytes in which `text` is handed to the embedder: its UTF-8 encoding
/// and one terminating zero byte.
pub open spec fn message_bytes(text: Seq<char>) -> Seq<u8> {
    encode_utf8(text).push(0u8)
}

/// The view that a query for the origin of `trap` gives.
pub open spec fn origin_of(trap: Fault) -> Option<FrameModel> {
    if trap.trace().len() > 0 {
        Some(FrameModel::at(trap, 0))
    } else {
        None
    }
}

/// The views that a query for the trace of `trap` gives: one for each row, in
/// the order of the rows, every one of them present.
pub open spec fn trace_of(trap: Fault) -> Seq<Option<FrameModel>> {
    Seq::new(trap.trace().len(), |i: int| Some(FrameModel::at(trap, i as nat)))
}

/// Whether `message` ends in the zero byte that `wasm_trap_new` asks for.
pub fn message_is_terminated(message: &wasm_message_t) -> (yes: bool)
    ensures
        yes == terminated(message@),
{
    let bytes = message.as_slice();
    bytes.len() > 0 && bytes[bytes.len() - 1] == 0
}

/// Makes a trap of the embedder's own: its message is the text that `message`
/// holds before its terminator, and its stack is empty. Bytes that are not
/// valid UTF-8 are repaired, never refused.
pub fn wasm_trap_new(_store: &wasm_store_t, message: &wasm_message_t) -> (trap: Box<wasm_trap_t>)
    requires
        terminated(message@),
    ensures
        trap@.message() == message_text(message@),
        trap@.trace() == Seq::<Row>::empty(),
{
    let bytes = message.as_slice();
    let text = decode_lossy(slice_subrange(bytes, 0, bytes.len() - 1));
    Box::new(wasm_trap_t::new(text, Vec::new()))
}

/// Writes the trap's message into `out`: its UTF-8 bytes and a terminating
/// zero byte. What `out` held before is released.
pub fn wasm_trap_message(trap: &wasm_trap_t, out: &mut wasm_message_t)
    ensures
        final(out)@ == message_bytes(trap@.message()),
{
    let mut buffer = slice_to_vec(trap.trap.text().as_bytes());
    buffer.push(0);
    out.set_buffer(buffer);
}

/// A view of the frame in which the fault occurred, or `None` for a trap
/// whose stack is empty.
pub fn wasm_trap_origin(raw: &wasm_trap_t) -> (origin: Option<Box<wasm_frame_t>>)
    ensures
        match origin {
            Some(frame) => origin_of(raw@) == Some(frame@),
            None => origin_of(raw@) is None,
        },
{
    if raw.trap.depth() > 0 {
        Some(Box::new(wasm_frame_t::at(share(&raw.trap), 0)))
    } else {
        None
    }
}

/// Writes into `out` one view for each row of the trap's stack, innermost
/// first. What `out` held before is released.
pub fn wasm_trap_trace(raw: &wasm_trap_t, out: &mut wasm_frame_vec_t)
    ensures
        final(out)@ == trace_of(raw@),
{
    let depth = raw.trap.depth();
    let mut views: Vec<Option<Box<wasm_frame_t>>> = Vec::new();
    let mut idx: usize = 0;
    while idx < depth
        invariant
            depth == raw@.trace().len(),
            idx <= depth,
            views@.len() == idx,
            forall|i: int|
                0 <= i < idx ==> (#[trigger] views@[i] matches Some(frame) && frame@
                    == FrameModel::at(raw@, i as nat)),
        decreases depth - idx,
    {
        views.push(Some(Box::new(wasm_frame_t::at(share(&raw.trap), idx))));
        idx += 1;
    }
    out.set_buffer(views);
}

} // verus!
