//! The containers in which variable-length results are handed to the embedder.


use crate::frame::{wasm_frame_t, FrameModel};
use vstd::prelude::*;

verus! {

/// An owned run of bytes. It carries no terminator of its own: its length is
/// the length of `data`.
pub struct wasm_byte_vec_t {
    pub data: Vec<u8>,
}

/// A name: the UTF-8 bytes of a function's or a module's name.
pub type wasm_name_t = wasm_byte_vec_t;

impl View for wasm_byte_vec_t {
    type V = Seq<u8>;

    open spec fn view(&self) -> Seq<u8> {
        self.data@
    }
}

impl From<Vec<u8>> for wasm_byte_vec_t {
    fn from(data: Vec<u8>) -> (container: wasm_byte_vec_t) {
        wasm_byte_vec_t { data }
    }
}

impl vstd::std_specs::convert::FromSpecImpl<Vec<u8>> for wasm_byte_vec_t {
    open spec fn obeys_from_spec() -> bool {
        true
    }

    open spec fn from_spec(data: Vec<u8>) -> wasm_byte_vec_t {
        wasm_byte_vec_t { data }
    }
}

impl wasm_byte_vec_t {
    /// The bytes held.
    pub fn as_slice(&self) -> (bytes: &[u8])
        ensures
            bytes@ == self@,
    {
        self.data.as_slice()
    }

    /// Puts `buffer` in place of what was held, which is released.
    pub fn set_buffer(&mut self, buffer: Vec<u8>)
        ensures
            final(self)@ == buffer@,
    {
        self.data = buffer;
    }
}

/// An owned run of frame views, each of them present or absent.
pub struct wasm_frame_vec_t {
    pub data: Vec<Option<Box<wasm_frame_t>>>,
}

impl View for wasm_frame_vec_t {
    type V = Seq<Option<FrameModel>>;

    open spec fn view(&self) -> Seq<Option<FrameModel>> {
        Seq::new(
            self.data@.len(),
            |i: int|
                match self.data@[i] {
                    Some(frame) => Some(frame@),
                    None => None,
                },
        )
    }
}

impl wasm_frame_vec_t {
    /// The views held.
    pub fn as_slice(&self) -> (views: &[Option<Box<wasm_frame_t>>])
        ensures
            views@ == self.data@,
    {
        self.data.as_slice()
    }

    /// Puts `buffer` in place of what was held, which is released.
    pub fn set_buffer(&mut self, buffer: Vec<Option<Box<wasm_frame_t>>>)
        ensures
            final(self).data@ == buffer@,
    {
        self.data = buffer;
    }
}

} // verus!
