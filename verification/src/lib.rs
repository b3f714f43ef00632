//! Traps, and the frames of the stack that a trap has captured, as an
//! embedder of the engine sees them.
//!
//! A trap is a message and a snapshot of the call stack, taken once and never
//! changed. The embedder holds it through handles that share it. A frame view
//! is a cursor into one row of the snapshot; it shares the trap too, and what
//! is costly to derive from a row it derives on first request and keeps.

#![allow(non_camel_case_types)]

pub mod engine;
pub mod frame;
pub mod laws;
pub mod stack;
pub mod text;
pub mod trap;
pub mod vec;

pub use crate::frame::{
    wasm_frame_func_index, wasm_frame_func_offset, wasm_frame_instance, wasm_frame_module_offset,
    wasm_frame_t, wasm_instance_t, wasmtime_frame_func_name, wasmtime_frame_module_name,
    Unsupported,
};
pub use crate::stack::RawFrame;
pub use crate::trap::{
    message_is_terminated, wasm_message_t, wasm_store_t, wasm_trap_message, wasm_trap_new,
    wasm_trap_origin, wasm_trap_t, wasm_trap_trace,
};
pub use crate::vec::{wasm_byte_vec_t, wasm_frame_vec_t, wasm_name_t};
