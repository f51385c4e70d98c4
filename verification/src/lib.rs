//! An ahead-of-time translator from WebAssembly to a small SSA intermediate
//! representation, with instrumentation that lets a running program be
//! checkpointed at migration points and restored elsewhere.

pub mod builder;
pub mod compile;
pub mod context;
pub mod driver;
pub mod error;
pub mod ir;
pub mod symbols;
pub mod theorems;
pub mod wasm;
