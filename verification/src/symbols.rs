//! The names under which the emitted module refers to the runtime and to
//! the backend.

use vstd::prelude::*;

use crate::ir::{Intrinsic, NumType, RuntimeFn};

verus! {

/// The name under which a function of the runtime is linked.
pub open spec fn runtime_symbol(f: RuntimeFn) -> Seq<char> {
    match f {
        RuntimeFn::PushFrame => "push_frame"@,
        RuntimeFn::PopFrontFrame => "pop_front_frame"@,
        RuntimeFn::GetPcFromFrame => "get_pc_from_frame"@,
        RuntimeFn::FrameIsEmpty => "frame_is_empty"@,
        RuntimeFn::SetPcToFrame => "set_pc_to_frame"@,
        RuntimeFn::StartCheckpoint => "start_checkpoint"@,
        RuntimeFn::PushTableIndex => "push_table_index"@,
        RuntimeFn::PopFrontTableIndex => "pop_front_table_index"@,
        RuntimeFn::MemoryGrow => "memory_grow"@,
        RuntimeFn::PushLocal(NumType::I32) => "push_local_i32"@,
        RuntimeFn::PushLocal(NumType::I64) => "push_local_i64"@,
        RuntimeFn::PushLocal(NumType::F32) => "push_local_f32"@,
        RuntimeFn::PushLocal(NumType::F64) => "push_local_f64"@,
        RuntimeFn::PopFrontLocal(NumType::I32) => "pop_front_local_i32"@,
        RuntimeFn::PopFrontLocal(NumType::I64) => "pop_front_local_i64"@,
        RuntimeFn::PopFrontLocal(NumType::F32) => "pop_front_local_f32"@,
        RuntimeFn::PopFrontLocal(NumType::F64) => "pop_front_local_f64"@,
        RuntimeFn::Push(NumType::I32) => "push_i32"@,
        RuntimeFn::Push(NumType::I64) => "push_i64"@,
        RuntimeFn::Push(NumType::F32) => "push_f32"@,
        RuntimeFn::Push(NumType::F64) => "push_f64"@,
        RuntimeFn::Pop(NumType::I32) => "pop_i32"@,
        RuntimeFn::Pop(NumType::I64) => "pop_i64"@,
        RuntimeFn::Pop(NumType::F32) => "pop_f32"@,
        RuntimeFn::Pop(NumType::F64) => "pop_f64"@,
        RuntimeFn::PushGlobal(NumType::I32) => "push_global_i32"@,
        RuntimeFn::PushGlobal(NumType::I64) => "push_global_i64"@,
        RuntimeFn::PushGlobal(NumType::F32) => "push_global_f32"@,
        RuntimeFn::PushGlobal(NumType::F64) => "push_global_f64"@,
        RuntimeFn::PopFrontGlobal(NumType::I32) => "pop_front_global_i32"@,
        RuntimeFn::PopFrontGlobal(NumType::I64) => "pop_front_global_i64"@,
        RuntimeFn::PopFrontGlobal(NumType::F32) => "pop_front_global_f32"@,
        RuntimeFn::PopFrontGlobal(NumType::F64) => "pop_front_global_f64"@,
    }
}

/// The name under which a function of the runtime is linked.
pub fn runtime_name(f: RuntimeFn) -> (name: &'static str)
    ensures
        name@ == runtime_symbol(f),
{
    match f {
        RuntimeFn::PushFrame => "push_frame",
        RuntimeFn::PopFrontFrame => "pop_front_frame",
        RuntimeFn::GetPcFromFrame => "get_pc_from_frame",
        RuntimeFn::FrameIsEmpty => "frame_is_empty",
        RuntimeFn::SetPcToFrame => "set_pc_to_frame",
        RuntimeFn::StartCheckpoint => "start_checkpoint",
        RuntimeFn::PushTableIndex => "push_table_index",
        RuntimeFn::PopFrontTableIndex => "pop_front_table_index",
        RuntimeFn::MemoryGrow => "memory_grow",
        RuntimeFn::PushLocal(NumType::I32) => "push_local_i32",
        RuntimeFn::PushLocal(NumType::I64) => "push_local_i64",
        RuntimeFn::PushLocal(NumType::F32) => "push_local_f32",
        RuntimeFn::PushLocal(NumType::F64) => "push_local_f64",
        RuntimeFn::PopFrontLocal(NumType::I32) => "pop_front_local_i32",
        RuntimeFn::PopFrontLocal(NumType::I64) => "pop_front_local_i64",
        RuntimeFn::PopFrontLocal(NumType::F32) => "pop_front_local_f32",
        RuntimeFn::PopFrontLocal(NumType::F64) => "pop_front_local_f64",
        RuntimeFn::Push(NumType::I32) => "push_i32",
        RuntimeFn::Push(NumType::I64) => "push_i64",
        RuntimeFn::Push(NumType::F32) => "push_f32",
        RuntimeFn::Push(NumType::F64) => "push_f64",
        RuntimeFn::Pop(NumType::I32) => "pop_i32",
        RuntimeFn::Pop(NumType::I64) => "pop_i64",
        RuntimeFn::Pop(NumType::F32) => "pop_f32",
        RuntimeFn::Pop(NumType::F64) => "pop_f64",
        RuntimeFn::PushGlobal(NumType::I32) => "push_global_i32",
        RuntimeFn::PushGlobal(NumType::I64) => "push_global_i64",
        RuntimeFn::PushGlobal(NumType::F32) => "push_global_f32",
        RuntimeFn::PushGlobal(NumType::F64) => "push_global_f64",
        RuntimeFn::PopFrontGlobal(NumType::I32) => "pop_front_global_i32",
        RuntimeFn::PopFrontGlobal(NumType::I64) => "pop_front_global_i64",
        RuntimeFn::PopFrontGlobal(NumType::F32) => "pop_front_global_f32",
        RuntimeFn::PopFrontGlobal(NumType::F64) => "pop_front_global_f64",
    }
}

/// The name of an intrinsic of the backend.
pub open spec fn intrinsic_symbol(f: Intrinsic) -> Seq<char> {
    match f {
        Intrinsic::Ctlz(NumType::I32) => "llvm.ctlz.i32"@,
        Intrinsic::Ctlz(NumType::I64) => "llvm.ctlz.i64"@,
        Intrinsic::Ctlz(NumType::F32) => "llvm.ctlz.f32"@,
        Intrinsic::Ctlz(NumType::F64) => "llvm.ctlz.f64"@,
        Intrinsic::Cttz(NumType::I32) => "llvm.cttz.i32"@,
        Intrinsic::Cttz(NumType::I64) => "llvm.cttz.i64"@,
        Intrinsic::Cttz(NumType::F32) => "llvm.cttz.f32"@,
        Intrinsic::Cttz(NumType::F64) => "llvm.cttz.f64"@,
        Intrinsic::Ctpop(NumType::I32) => "llvm.ctpop.i32"@,
        Intrinsic::Ctpop(NumType::I64) => "llvm.ctpop.i64"@,
        Intrinsic::Ctpop(NumType::F32) => "llvm.ctpop.f32"@,
        Intrinsic::Ctpop(NumType::F64) => "llvm.ctpop.f64"@,
        Intrinsic::Fabs(NumType::I32) => "llvm.fabs.i32"@,
        Intrinsic::Fabs(NumType::I64) => "llvm.fabs.i64"@,
        Intrinsic::Fabs(NumType::F32) => "llvm.fabs.f32"@,
        Intrinsic::Fabs(NumType::F64) => "llvm.fabs.f64"@,
        Intrinsic::Ceil(NumType::I32) => "llvm.ceil.i32"@,
        Intrinsic::Ceil(NumType::I64) => "llvm.ceil.i64"@,
        Intrinsic::Ceil(NumType::F32) => "llvm.ceil.f32"@,
        Intrinsic::Ceil(NumType::F64) => "llvm.ceil.f64"@,
        Intrinsic::Floor(NumType::I32) => "llvm.floor.i32"@,
        Intrinsic::Floor(NumType::I64) => "llvm.floor.i64"@,
        Intrinsic::Floor(NumType::F32) => "llvm.floor.f32"@,
        Intrinsic::Floor(NumType::F64) => "llvm.floor.f64"@,
        Intrinsic::Trunc(NumType::I32) => "llvm.trunc.i32"@,
        Intrinsic::Trunc(NumType::I64) => "llvm.trunc.i64"@,
        Intrinsic::Trunc(NumType::F32) => "llvm.trunc.f32"@,
        Intrinsic::Trunc(NumType::F64) => "llvm.trunc.f64"@,
        Intrinsic::Nearbyint(NumType::I32) => "llvm.nearbyint.i32"@,
        Intrinsic::Nearbyint(NumType::I64) => "llvm.nearbyint.i64"@,
        Intrinsic::Nearbyint(NumType::F32) => "llvm.nearbyint.f32"@,
        Intrinsic::Nearbyint(NumType::F64) => "llvm.nearbyint.f64"@,
        Intrinsic::Sqrt(NumType::I32) => "llvm.sqrt.i32"@,
        Intrinsic::Sqrt(NumType::I64) => "llvm.sqrt.i64"@,
        Intrinsic::Sqrt(NumType::F32) => "llvm.sqrt.f32"@,
        Intrinsic::Sqrt(NumType::F64) => "llvm.sqrt.f64"@,
        Intrinsic::Minnum(NumType::I32) => "llvm.minnum.i32"@,
        Intrinsic::Minnum(NumType::I64) => "llvm.minnum.i64"@,
        Intrinsic::Minnum(NumType::F32) => "llvm.minnum.f32"@,
        Intrinsic::Minnum(NumType::F64) => "llvm.minnum.f64"@,
        Intrinsic::Maxnum(NumType::I32) => "llvm.maxnum.i32"@,
        Intrinsic::Maxnum(NumType::I64) => "llvm.maxnum.i64"@,
        Intrinsic::Maxnum(NumType::F32) => "llvm.maxnum.f32"@,
        Intrinsic::Maxnum(NumType::F64) => "llvm.maxnum.f64"@,
        Intrinsic::Copysign(NumType::I32) => "llvm.copysign.i32"@,
        Intrinsic::Copysign(NumType::I64) => "llvm.copysign.i64"@,
        Intrinsic::Copysign(NumType::F32) => "llvm.copysign.f32"@,
        Intrinsic::Copysign(NumType::F64) => "llvm.copysign.f64"@,
        Intrinsic::Stackmap => "llvm.experimental.stackmap"@,
    }
}

/// The name of an intrinsic of the backend.
pub fn intrinsic_name(f: Intrinsic) -> (name: &'static str)
    ensures
        name@ == intrinsic_symbol(f),
{
    match f {
        Intrinsic::Ctlz(NumType::I32) => "llvm.ctlz.i32",
        Intrinsic::Ctlz(NumType::I64) => "llvm.ctlz.i64",
        Intrinsic::Ctlz(NumType::F32) => "llvm.ctlz.f32",
        Intrinsic::Ctlz(NumType::F64) => "llvm.ctlz.f64",
        Intrinsic::Cttz(NumType::I32) => "llvm.cttz.i32",
        Intrinsic::Cttz(NumType::I64) => "llvm.cttz.i64",
        Intrinsic::Cttz(NumType::F32) => "llvm.cttz.f32",
        Intrinsic::Cttz(NumType::F64) => "llvm.cttz.f64",
        Intrinsic::Ctpop(NumType::I32) => "llvm.ctpop.i32",
        Intrinsic::Ctpop(NumType::I64) => "llvm.ctpop.i64",
        Intrinsic::Ctpop(NumType::F32) => "llvm.ctpop.f32",
        Intrinsic::Ctpop(NumType::F64) => "llvm.ctpop.f64",
        Intrinsic::Fabs(NumType::I32) => "llvm.fabs.i32",
        Intrinsic::Fabs(NumType::I64) => "llvm.fabs.i64",
        Intrinsic::Fabs(NumType::F32) => "llvm.fabs.f32",
        Intrinsic::Fabs(NumType::F64) => "llvm.fabs.f64",
        Intrinsic::Ceil(NumType::I32) => "llvm.ceil.i32",
        Intrinsic::Ceil(NumType::I64) => "llvm.ceil.i64",
        Intrinsic::Ceil(NumType::F32) => "llvm.ceil.f32",
        Intrinsic::Ceil(NumType::F64) => "llvm.ceil.f64",
        Intrinsic::Floor(NumType::I32) => "llvm.floor.i32",
        Intrinsic::Floor(NumType::I64) => "llvm.floor.i64",
        Intrinsic::Floor(NumType::F32) => "llvm.floor.f32",
        Intrinsic::Floor(NumType::F64) => "llvm.floor.f64",
        Intrinsic::Trunc(NumType::I32) => "llvm.trunc.i32",
        Intrinsic::Trunc(NumType::I64) => "llvm.trunc.i64",
        Intrinsic::Trunc(NumType::F32) => "llvm.trunc.f32",
        Intrinsic::Trunc(NumType::F64) => "llvm.trunc.f64",
        Intrinsic::Nearbyint(NumType::I32) => "llvm.nearbyint.i32",
        Intrinsic::Nearbyint(NumType::I64) => "llvm.nearbyint.i64",
        Intrinsic::Nearbyint(NumType::F32) => "llvm.nearbyint.f32",
        Intrinsic::Nearbyint(NumType::F64) => "llvm.nearbyint.f64",
        Intrinsic::Sqrt(NumType::I32) => "llvm.sqrt.i32",
        Intrinsic::Sqrt(NumType::I64) => "llvm.sqrt.i64",
        Intrinsic::Sqrt(NumType::F32) => "llvm.sqrt.f32",
        Intrinsic::Sqrt(NumType::F64) => "llvm.sqrt.f64",
        Intrinsic::Minnum(NumType::I32) => "llvm.minnum.i32",
        Intrinsic::Minnum(NumType::I64) => "llvm.minnum.i64",
        Intrinsic::Minnum(NumType::F32) => "llvm.minnum.f32",
        Intrinsic::Minnum(NumType::F64) => "llvm.minnum.f64",
        Intrinsic::Maxnum(NumType::I32) => "llvm.maxnum.i32",
        Intrinsic::Maxnum(NumType::I64) => "llvm.maxnum.i64",
        Intrinsic::Maxnum(NumType::F32) => "llvm.maxnum.f32",
        Intrinsic::Maxnum(NumType::F64) => "llvm.maxnum.f64",
        Intrinsic::Copysign(NumType::I32) => "llvm.copysign.i32",
        Intrinsic::Copysign(NumType::I64) => "llvm.copysign.i64",
        Intrinsic::Copysign(NumType::F32) => "llvm.copysign.f32",
        Intrinsic::Copysign(NumType::F64) => "llvm.copysign.f64",
        Intrinsic::Stackmap => "llvm.experimental.stackmap",
    }
}

/// The name of a number type.
pub open spec fn type_symbol(ty: NumType) -> Seq<char> {
    match ty {
        NumType::I32 => "i32"@,
        NumType::I64 => "i64"@,
        NumType::F32 => "f32"@,
        NumType::F64 => "f64"@,
    }
}

/// The name of a number type.
pub fn convert_type_name(ty: NumType) -> (name: &'static str)
    ensures
        name@ == type_symbol(ty),
{
    match ty {
        NumType::I32 => "i32",
        NumType::I64 => "i64",
        NumType::F32 => "f32",
        NumType::F64 => "f64",
    }
}

} // verus!
