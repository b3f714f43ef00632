//! Frame views: cursors into one row of a trap's captured stack, each with
//! its own compute-once slots for the names that are costly to make.

use crate::engine::share;
use crate::stack::{text_of, Row};
use crate::trap::Fault;
use crate::vec::wasm_name_t;
use std::rc::Rc;
use vstd::pervasive::unreached;
use vstd::prelude::*;
use vstd::slice::slice_to_vec;
use vstd::utf8::encode_utf8;

verus! {

/// What a view knows of one name of its frame.
pub enum NameState {
    /// The name has not been asked for yet.
    Unresolved,
    /// The name was asked for, and the frame has none.
    Absent,
    /// The name was asked for, and these are its UTF-8 bytes.
    Present(Seq<u8>),
}

impl NameState {
    /// The state that resolving leads to, given the name that the row holds.
    pub open spec fn resolved(name: Option<Seq<char>>) -> NameState {
        match name {
            Some(text) => NameState::Present(encode_utf8(text)),
            None => NameState::Absent,
        }
    }

    /// The bytes that a query hands out in this state.
    pub open spec fn bytes(self) -> Option<Seq<u8>> {
        match self {
            NameState::Present(bytes) => Some(bytes),
            _ => None,
        }
    }

    /// Whether this state can be the state of a slot for `name`: such a slot
    /// is empty or holds what resolving `name` gives.
    pub open spec fn agrees(self, name: Option<Seq<char>>) -> bool {
        self is Unresolved || self == NameState::resolved(name)
    }
}

/// A compute-once slot. It is filled at most once and then left alone.
enum NameSlot {
    Unresolved,
    Absent,
    Present(wasm_name_t),
}

impl View for NameSlot {
    type V = NameState;

    closed spec fn view(&self) -> NameState {
        match self {
            NameSlot::Unresolved => NameState::Unresolved,
            NameSlot::Absent => NameState::Absent,
            NameSlot::Present(name) => NameState::Present(name@),
        }
    }
}

/// The mathematical content of a frame view.
pub struct FrameModel {
    /// The trap whose stack the view looks into.
    pub trap: Fault,
    /// The row it looks at; row 0 is where the fault occurred.
    pub index: nat,
    /// Its slot for the function's name.
    pub func_name: NameState,
    /// Its slot for the module's name.
    pub module_name: NameState,
}

impl FrameModel {
    /// A view of row `index` of `trap` that has resolved nothing yet.
    pub open spec fn at(trap: Fault, index: nat) -> FrameModel {
        FrameModel {
            trap,
            index,
            func_name: NameState::Unresolved,
            module_name: NameState::Unresolved,
        }
    }

    /// The row that the view looks at.
    pub open spec fn row(self) -> Row {
        self.trap.trace()[self.index as int]
    }

    /// Validity: the row exists, and a filled slot holds the row's name.
    pub open spec fn wf(self) -> bool {
        &&& self.index < self.trap.trace().len()
        &&& self.func_name.agrees(self.row().func_name)
        &&& self.module_name.agrees(self.row().module_name)
    }

    /// The function index of the row.
    pub open spec fn func_index(self) -> u32 {
        self.row().func_index
    }

    /// The view after a query for the function's name: an empty slot is
    /// filled from the row, a filled one is left as it is.
    pub open spec fn with_func_name(self) -> FrameModel {
        if self.func_name is Unresolved {
            FrameModel { func_name: NameState::resolved(self.row().func_name), ..self }
        } else {
            self
        }
    }

    /// The view after a query for the module's name.
    pub open spec fn with_module_name(self) -> FrameModel {
        if self.module_name is Unresolved {
            FrameModel { module_name: NameState::resolved(self.row().module_name), ..self }
        } else {
            self
        }
    }

    /// A copy of the view: same trap, same row, both slots empty.
    pub open spec fn fresh(self) -> FrameModel {
        FrameModel::at(self.trap, self.index)
    }
    /// Whether the view holds an answer to `query`. None does: a row records
    /// neither an offset nor an instance.
    pub open spec fn answers(self, query: Unsupported) -> bool {
        false
    }
}

/// A view of one row of a trap's captured stack. It keeps the trap alive for
/// as long as it lives, whatever becomes of the handle it was made from.
pub struct wasm_frame_t {
    trap: Rc<Fault>,
    idx: usize,
    func_name: NameSlot,
    module_name: NameSlot,
}

impl View for wasm_frame_t {
    type V = FrameModel;

    closed spec fn view(&self) -> FrameModel {
        FrameModel {
            trap: *self.trap,
            index: self.idx as nat,
            func_name: self.func_name@,
            module_name: self.module_name@,
        }
    }
}

impl wasm_frame_t {
    /// Holds of every frame view that exists.
    #[verifier::type_invariant]
    pub open spec fn inv(&self) -> bool {
        self@.wf()
    }

    /// A view of row `idx` of `trap`, with both slots empty.
    pub(crate) fn at(trap: Rc<Fault>, idx: usize) -> (frame: wasm_frame_t)
        requires
            idx < trap.trace().len(),
        ensures
            frame@ == FrameModel::at(*trap, idx as nat),
    {
        wasm_frame_t { trap, idx, func_name: NameSlot::Unresolved, module_name: NameSlot::Unresolved }
    }
}

impl Clone for wasm_frame_t {
    /// The copy shares the trap and looks at the same row. It does not share
    /// the slots: its own start empty, so its first query resolves anew.
    fn clone(&self) -> (other: wasm_frame_t)
        ensures
            other@ == self@.fresh(),
    {
        proof {
            use_type_invariant(self);
        }
        wasm_frame_t {
            trap: share(&self.trap),
            idx: self.idx,
            func_name: NameSlot::Unresolved,
            module_name: NameSlot::Unresolved,
        }
    }
}

/// Resolves a name: the slot that holds its bytes, or that records that there
/// is none.
fn resolve(name: &Option<String>) -> (slot: NameSlot)
    ensures
        slot@ == NameState::resolved(text_of(*name)),
{
    match name {
        Some(text) => NameSlot::Present(wasm_name_t::from(slice_to_vec(text.as_str().as_bytes()))),
        None => NameSlot::Absent,
    }
}

/// The function index of the frame, read from the row each time.
pub fn wasm_frame_func_index(frame: &wasm_frame_t) -> (index: u32)
    ensures
        index == frame@.func_index(),
{
    proof {
        use_type_invariant(frame);
    }
    frame.trap.row(frame.idx).func_index
}

/// The name of the frame's function, if it has one.
///
/// The first query makes the name from the row and keeps it in the view;
/// every later query hands out what was kept and leaves the view as it is.
pub fn wasmtime_frame_func_name(frame: &mut wasm_frame_t) -> (name: Option<&wasm_name_t>)
    ensures
        final(frame)@ == old(frame)@.with_func_name(),
        final(frame)@.func_name == NameState::resolved(old(frame)@.row().func_name),
        match name {
            Some(bytes) => final(frame)@.func_name.bytes() == Some(bytes@),
            None => final(frame)@.func_name.bytes() is None,
        },
{
    proof {
        use_type_invariant(&*frame);
    }
    if let NameSlot::Unresolved = frame.func_name {
        frame.func_name = resolve(&frame.trap.row(frame.idx).func_name);
    }
    match &frame.func_name {
        NameSlot::Present(name) => Some(name),
        _ => None,
    }
}

/// The name of the frame's module, if it has one.
///
/// It is kept in a slot of its own, and resolved and handed out as the
/// function's name is.
pub fn wasmtime_frame_module_name(frame: &mut wasm_frame_t) -> (name: Option<&wasm_name_t>)
    ensures
        final(frame)@ == old(frame)@.with_module_name(),
        final(frame)@.module_name == NameState::resolved(old(frame)@.row().module_name),
        match name {
            Some(bytes) => final(frame)@.module_name.bytes() == Some(bytes@),
            None => final(frame)@.module_name.bytes() is None,
        },
{
    proof {
        use_type_invariant(&*frame);
    }
    if let NameSlot::Unresolved = frame.module_name {
        frame.module_name = resolve(&frame.trap.row(frame.idx).module_name);
    }
    match &frame.module_name {
        NameSlot::Present(name) => Some(name),
        _ => None,
    }
}

/// A query that no frame view can answer.
#[derive(Clone, Copy, Debug, PartialEq, Eq, Structural)]
pub enum Unsupported {
    /// The byte offset of the frame within its function.
    FuncOffset,
    /// The byte offset of the frame within its module.
    ModuleOffset,
    /// The instance that the frame belongs to.
    Instance,
}

/// Stands for an instance of a module. No frame view hands one out.
pub struct wasm_instance_t {}

/// The byte offset of the frame within its function.
///
/// No view records it, so no view is admitted and the function has no
/// caller: whoever asks is to be stopped before the call, loudly, and is
/// never handed a number made up in place of an answer.
pub fn wasm_frame_func_offset(frame: &wasm_frame_t) -> (offset: usize)
    requires
        frame@.answers(Unsupported::FuncOffset),
{
    unreached()
}

/// The instance that the frame belongs to.
///
/// No view records it, so no view is admitted and the function has no
/// caller: whoever asks is to be stopped before the call, loudly, and is
/// never handed a stand-in for an instance.
pub fn wasm_frame_instance(frame: &wasm_frame_t) -> (instance: Box<wasm_instance_t>)
    requires
        frame@.answers(Unsupported::Instance),
{
    unreached()
}

/// The byte offset of the frame within its module.
///
/// No view records it, so no view is admitted and the function has no
/// caller: whoever asks is to be stopped before the call, loudly, and is
/// never handed a number made up in place of an answer.
pub fn wasm_frame_module_offset(frame: &wasm_frame_t) -> (offset: usize)
    requires
        frame@.answers(Unsupported::ModuleOffset),
{
    unreached()
}

} // verus!
