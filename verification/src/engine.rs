//! The execution engine's side of a trap: the records it hands over, the
//! names under which the contracts speak of what those records hold, and the
//! few calls into the engine that the rest of the library is proved against.
//!
//! Nothing in this file is proved. Each item says what it takes on trust.

use std::rc::Rc;
use vstd::prelude::*;

verus! {

/// The engine's record of one fault: a message and the wasm frames that were
/// on the stack when the record was made. The engine never changes a record
/// once it is made.
#[verifier::external_type_specification]
#[verifier::external_body]
pub struct ExTrap(wasmtime::Trap);

/// The engine's record of one wasm frame of a captured stack.
#[verifier::external_type_specification]
#[verifier::external_body]
pub struct ExFrameInfo(wasmtime::FrameInfo);

/// The text that a trap record holds.
pub uninterp spec fn trap_message(trap: wasmtime::Trap) -> Seq<char>;

/// The frames that a trap record holds, innermost first.
pub uninterp spec fn trap_frames(trap: wasmtime::Trap) -> Seq<wasmtime::FrameInfo>;

/// The index, in its module's function index space, that a frame record holds.
pub uninterp spec fn frame_func_index(frame: wasmtime::FrameInfo) -> u32;

/// The function name that a frame record holds, if it holds one.
pub uninterp spec fn frame_func_name(frame: wasmtime::FrameInfo) -> Option<Seq<char>>;

/// The module name that a frame record holds, if it holds one.
pub uninterp spec fn frame_module_name(frame: wasmtime::FrameInfo) -> Option<Seq<char>>;

/// Calls `wasmtime::Trap::new`. Trusted: the record that comes back holds
/// `message` as its text, unchanged.
///
/// Nothing is claimed of the record's frames. The engine fills them from the
/// native stack at the moment of the call, keeping the frames that belong to
/// wasm code it has compiled; with no wasm code on the stack there are none.
/// Whether the call panics does not depend on `message`: it does if the
/// engine's registry of compiled code was poisoned by an earlier panic, or
/// if, in a build with debug assertions, the engine fails to place a frame
/// of the stack within the code it compiled.
#[verifier::external_body]
pub(crate) fn raise(message: String) -> (trap: wasmtime::Trap)
    ensures
        trap_message(trap) == message@,
{
    wasmtime::Trap::new(message)
}

/// `wasmtime::Trap::message` hands out the text that the record holds.
pub assume_specification[ wasmtime::Trap::message ](trap: &wasmtime::Trap) -> (text: &str)
    ensures
        text@ == trap_message(*trap),
;

/// `wasmtime::Trap::trace` hands out the frames that the record holds, as a
/// slice in the order in which they are stored.
pub assume_specification[ wasmtime::Trap::trace ](trap: &wasmtime::Trap) -> (frames: &[wasmtime::FrameInfo])
    ensures
        frames@ == trap_frames(*trap),
;

/// `wasmtime::FrameInfo::func_index` hands out the stored function index.
pub assume_specification[ wasmtime::FrameInfo::func_index ](frame: &wasmtime::FrameInfo) -> (index: u32)
    ensures
        index == frame_func_index(*frame),
;

/// `wasmtime::FrameInfo::func_name` hands out the stored function name, or
/// `None` where the record holds none.
pub assume_specification[ wasmtime::FrameInfo::func_name ](frame: &wasmtime::FrameInfo) -> (name: Option<&str>)
    ensures
        match name {
            Some(text) => frame_func_name(*frame) == Some(text@),
            None => frame_func_name(*frame) is None,
        },
;

/// `wasmtime::FrameInfo::module_name` hands out the stored module name, or
/// `None` where the record holds none.
pub assume_specification[ wasmtime::FrameInfo::module_name ](frame: &wasmtime::FrameInfo) -> (name: Option<&str>)
    ensures
        match name {
            Some(text) => frame_module_name(*frame) == Some(text@),
            None => frame_module_name(*frame) is None,
        },
;

/// Calls `Rc::clone`. Trusted: the new pointer refers to the same allocation,
/// so what it points to is what `shared` points to.
#[verifier::external_body]
pub(crate) fn share<T>(shared: &Rc<T>) -> (other: Rc<T>)
    ensures
        *other == **shared,
{
    Rc::clone(shared)
}

} // verus!
