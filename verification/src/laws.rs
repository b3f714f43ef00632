//! What holds of traps and frame views in general, proved from the
//! definitions that the contracts of the operations are written with.

use crate::frame::{FrameModel, NameState, Unsupported};
use crate::text::utf8_lossy;
use crate::trap::{message_bytes, message_text, origin_of, terminated, trace_of, Fault};
use vstd::prelude::*;
use vstd::utf8::{decode_utf8_encode_utf8, valid_utf8};

verus! {

/// A message round trip: a terminated message whose bytes before the
/// terminator are valid UTF-8 comes back from the trap made of it byte for
/// byte, terminator included.
pub proof fn law_message_round_trip(message: Seq<u8>)
    requires
        terminated(message),
        valid_utf8(message.drop_last()),
    ensures
        message_bytes(message_text(message)) == message,
{
    decode_utf8_encode_utf8(message.drop_last());
    assert(message.drop_last().push(0u8) =~= message);
}

/// A trap whose stack is empty has no origin, and its trace holds no view.
pub proof fn law_empty_stack(trap: Fault)
    requires
        trap.trace().len() == 0,
    ensures
        origin_of(trap) is None,
        trace_of(trap) == Seq::<Option<FrameModel>>::empty(),
{
    assert(trace_of(trap) =~= Seq::<Option<FrameModel>>::empty());
}

/// The trace of a trap holds exactly one view for each row of the stack, in
/// the order of the rows. Each is present and valid, looks at its own row,
/// and reports that row's function index.
pub proof fn law_trace_follows_stack(trap: Fault)
    ensures
        trace_of(trap).len() == trap.trace().len(),
        forall|i: int|
            0 <= i < trap.trace().len() ==> (#[trigger] trace_of(trap)[i] matches Some(view)
                && view.wf() && view.index == i && view.func_index()
                == trap.trace()[i].func_index),
{
}

/// The origin of a trap, where it has one, is the first view of its trace.
pub proof fn law_origin_is_first(trap: Fault)
    requires
        trap.trace().len() > 0,
    ensures
        origin_of(trap) == trace_of(trap)[0],
{
}

/// A function name is resolved at most once. The first query fills the slot
/// with the row's name. After it the slot is filled, so that a second query
/// changes nothing in the view and hands out the same bytes.
pub proof fn law_func_name_resolved_once(view: FrameModel)
    requires
        view.wf(),
    ensures
        view.with_func_name().wf(),
        !(view.with_func_name().func_name is Unresolved),
        view.with_func_name().func_name == NameState::resolved(view.row().func_name),
        view.with_func_name().with_func_name() == view.with_func_name(),
{
}

/// A module name is resolved at most once, as a function name is, and in a
/// slot of its own: a query for the one leaves the slot of the other alone.
pub proof fn law_module_name_resolved_once(view: FrameModel)
    requires
        view.wf(),
    ensures
        view.with_module_name().wf(),
        !(view.with_module_name().module_name is Unresolved),
        view.with_module_name().module_name == NameState::resolved(view.row().module_name),
        view.with_module_name().with_module_name() == view.with_module_name(),
        view.with_module_name().func_name == view.func_name,
        view.with_func_name().module_name == view.module_name,
{
}

/// A copy of a view does not share what the view has resolved: its slots
/// are empty whatever the view's slots hold, so its first query resolves
/// anew. What it then resolves is what the view resolves.
pub proof fn law_copy_resolves_anew(view: FrameModel)
    requires
        view.wf(),
    ensures
        view.fresh().wf(),
        view.fresh().func_name is Unresolved,
        view.fresh().module_name is Unresolved,
        view.fresh().func_index() == view.func_index(),
        view.fresh().with_func_name().func_name == view.with_func_name().func_name,
        view.fresh().with_module_name().module_name == view.with_module_name().module_name,
{
}

/// The queries for an offset and for the owning instance have no answer in
/// any view, whatever trap it looks into and whatever it has resolved: none
/// is admitted by the functions that stand for them.
pub proof fn law_no_view_answers(view: FrameModel, query: Unsupported)
    ensures
        !view.answers(query),
{
}

/// A message is admitted as the text of a new trap exactly when it holds at
/// least one byte and its last byte is zero. Of an admitted message every
/// byte before the last goes into the text: none is cut off, none is added.
pub proof fn law_terminator_decides(message: Seq<u8>)
    ensures
        terminated(message) <==> message.len() >= 1 && message[message.len() - 1] == 0,
        !terminated(Seq::<u8>::empty()),
        terminated(message) ==> message_text(message) == utf8_lossy(
            message.subrange(0, message.len() - 1),
        ),
{
}

} // verus!
