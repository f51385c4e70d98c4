//! The translator.

pub mod compile_function;
pub mod compile_global;
pub mod compile_memory;
pub mod compile_module;
pub mod compile_op;
pub mod compile_type;
pub mod control;
pub mod cr;
pub mod helper;
pub mod memory;
pub mod numeric;
pub mod stackmap;
pub mod synthesize;
