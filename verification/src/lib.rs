//! Verified core of the Wasmtime Ruby bindings: the decoding of an engine
//! configuration hash into Wasmtime settings, and the WASI context builder.

pub mod error;
pub mod text;
pub mod config;
pub mod string_array;
pub mod wasi;
