//! The numeric operators: comparisons, arithmetic, bit operations and
//! conversions. Each of them takes its operands off the stack, emits a few
//! instructions and pushes one result.

use vstd::prelude::*;

use crate::compile::control::operands_typed;
use crate::compile::helper::{
    binary_post, compare_values_post, gen_and, gen_binary, gen_float_compare, gen_int_compare,
    gen_llvm_intrinsic, gen_or, gen_rotl, gen_rotr, gen_shl, gen_shr, gen_xor, intrinsic_post,
    rotate_post,
};
use crate::context::{Context, ContextView};
use crate::ir::{
    BinOp, CastOp, FloatPredicate, Inst, InstView, IntPredicate, Intrinsic, IrType, NumType,
    Opcode, UnOp, Value,
};
use crate::wasm::Operator;

verus! {

/// How a numeric operator is lowered.
#[derive(Clone, Copy, Debug, PartialEq, Eq, Structural)]
pub enum Numeric {
    /// A binary operation on two operands of the given type.
    Binary(BinOp, NumType),
    /// A comparison of two integers of the given type.
    IntCompare(IntPredicate, NumType),
    /// A comparison of two floating-point numbers of the given type.
    FloatCompare(FloatPredicate, NumType),
    /// A comparison of an integer of the given type with zero.
    Eqz(NumType),
    /// A call of an intrinsic on one operand.
    Call1(Intrinsic),
    /// A call of an intrinsic that counts zero bits; it is told that the
    /// count of an operand that is zero is defined.
    CountZeros(Intrinsic),
    /// A call of an intrinsic on two operands.
    Call2(Intrinsic),
    /// A rotation, to the left or to the right, of an integer of the given
    /// type.
    Rotate(bool, NumType),
    /// A conversion from the first type to the second.
    Cast(CastOp, NumType, NumType),
    /// The extension of the low bits of an integer, taken as a signed
    /// number of the narrow type, to the full type.
    SignExtend(IrType, NumType),
    /// The negation of a floating-point number.
    FloatNeg(NumType),
}

/// The lowering of a numeric operator; none for any other operator.
pub open spec fn numeric(op: Operator) -> Option<Numeric> {
    match op {
        Operator::I32Eqz => Some(Numeric::Eqz(NumType::I32)),
        Operator::I64Eqz => Some(Numeric::Eqz(NumType::I64)),
        Operator::I32Eq => Some(Numeric::IntCompare(IntPredicate::EQ, NumType::I32)),
        Operator::I32Ne => Some(Numeric::IntCompare(IntPredicate::NE, NumType::I32)),
        Operator::I32LtS => Some(Numeric::IntCompare(IntPredicate::SLT, NumType::I32)),
        Operator::I32LtU => Some(Numeric::IntCompare(IntPredicate::ULT, NumType::I32)),
        Operator::I32GtS => Some(Numeric::IntCompare(IntPredicate::SGT, NumType::I32)),
        Operator::I32GtU => Some(Numeric::IntCompare(IntPredicate::UGT, NumType::I32)),
        Operator::I32LeS => Some(Numeric::IntCompare(IntPredicate::SLE, NumType::I32)),
        Operator::I32LeU => Some(Numeric::IntCompare(IntPredicate::ULE, NumType::I32)),
        Operator::I32GeS => Some(Numeric::IntCompare(IntPredicate::SGE, NumType::I32)),
        Operator::I32GeU => Some(Numeric::IntCompare(IntPredicate::UGE, NumType::I32)),
        Operator::I64Eq => Some(Numeric::IntCompare(IntPredicate::EQ, NumType::I64)),
        Operator::I64Ne => Some(Numeric::IntCompare(IntPredicate::NE, NumType::I64)),
        Operator::I64LtS => Some(Numeric::IntCompare(IntPredicate::SLT, NumType::I64)),
        Operator::I64LtU => Some(Numeric::IntCompare(IntPredicate::ULT, NumType::I64)),
        Operator::I64GtS => Some(Numeric::IntCompare(IntPredicate::SGT, NumType::I64)),
        Operator::I64GtU => Some(Numeric::IntCompare(IntPredicate::UGT, NumType::I64)),
        Operator::I64LeS => Some(Numeric::IntCompare(IntPredicate::SLE, NumType::I64)),
        Operator::I64LeU => Some(Numeric::IntCompare(IntPredicate::ULE, NumType::I64)),
        Operator::I64GeS => Some(Numeric::IntCompare(IntPredicate::SGE, NumType::I64)),
        Operator::I64GeU => Some(Numeric::IntCompare(IntPredicate::UGE, NumType::I64)),
        Operator::F32Eq => Some(Numeric::FloatCompare(FloatPredicate::OEQ, NumType::F32)),
        Operator::F32Ne => Some(Numeric::FloatCompare(FloatPredicate::UNE, NumType::F32)),
        Operator::F32Lt => Some(Numeric::FloatCompare(FloatPredicate::OLT, NumType::F32)),
        Operator::F32Gt => Some(Numeric::FloatCompare(FloatPredicate::OGT, NumType::F32)),
        Operator::F32Le => Some(Numeric::FloatCompare(FloatPredicate::OLE, NumType::F32)),
        Operator::F32Ge => Some(Numeric::FloatCompare(FloatPredicate::OGE, NumType::F32)),
        Operator::F64Eq => Some(Numeric::FloatCompare(FloatPredicate::OEQ, NumType::F64)),
        Operator::F64Ne => Some(Numeric::FloatCompare(FloatPredicate::UNE, NumType::F64)),
        Operator::F64Lt => Some(Numeric::FloatCompare(FloatPredicate::OLT, NumType::F64)),
        Operator::F64Gt => Some(Numeric::FloatCompare(FloatPredicate::OGT, NumType::F64)),
        Operator::F64Le => Some(Numeric::FloatCompare(FloatPredicate::OLE, NumType::F64)),
        Operator::F64Ge => Some(Numeric::FloatCompare(FloatPredicate::OGE, NumType::F64)),
        Operator::I32Clz => Some(Numeric::CountZeros(Intrinsic::Ctlz(NumType::I32))),
        Operator::I32Ctz => Some(Numeric::CountZeros(Intrinsic::Cttz(NumType::I32))),
        Operator::I32Popcnt => Some(Numeric::Call1(Intrinsic::Ctpop(NumType::I32))),
        Operator::I32Add => Some(Numeric::Binary(BinOp::Add, NumType::I32)),
        Operator::I32Sub => Some(Numeric::Binary(BinOp::Sub, NumType::I32)),
        Operator::I32Mul => Some(Numeric::Binary(BinOp::Mul, NumType::I32)),
        Operator::I32DivS => Some(Numeric::Binary(BinOp::SDiv, NumType::I32)),
        Operator::I32DivU => Some(Numeric::Binary(BinOp::UDiv, NumType::I32)),
        Operator::I32RemS => Some(Numeric::Binary(BinOp::SRem, NumType::I32)),
        Operator::I32RemU => Some(Numeric::Binary(BinOp::URem, NumType::I32)),
        Operator::I32And => Some(Numeric::Binary(BinOp::And, NumType::I32)),
        Operator::I32Or => Some(Numeric::Binary(BinOp::Or, NumType::I32)),
        Operator::I32Xor => Some(Numeric::Binary(BinOp::Xor, NumType::I32)),
        Operator::I32Shl => Some(Numeric::Binary(BinOp::Shl, NumType::I32)),
        Operator::I32ShrS => Some(Numeric::Binary(BinOp::AShr, NumType::I32)),
        Operator::I32ShrU => Some(Numeric::Binary(BinOp::LShr, NumType::I32)),
        Operator::I32Rotl => Some(Numeric::Rotate(true, NumType::I32)),
        Operator::I32Rotr => Some(Numeric::Rotate(false, NumType::I32)),
        Operator::I64Clz => Some(Numeric::CountZeros(Intrinsic::Ctlz(NumType::I64))),
        Operator::I64Ctz => Some(Numeric::CountZeros(Intrinsic::Cttz(NumType::I64))),
        Operator::I64Popcnt => Some(Numeric::Call1(Intrinsic::Ctpop(NumType::I64))),
        Operator::I64Add => Some(Numeric::Binary(BinOp::Add, NumType::I64)),
        Operator::I64Sub => Some(Numeric::Binary(BinOp::Sub, NumType::I64)),
        Operator::I64Mul => Some(Numeric::Binary(BinOp::Mul, NumType::I64)),
        Operator::I64DivS => Some(Numeric::Binary(BinOp::SDiv, NumType::I64)),
        Operator::I64DivU => Some(Numeric::Binary(BinOp::UDiv, NumType::I64)),
        Operator::I64RemS => Some(Numeric::Binary(BinOp::SRem, NumType::I64)),
        Operator::I64RemU => Some(Numeric::Binary(BinOp::URem, NumType::I64)),
        Operator::I64And => Some(Numeric::Binary(BinOp::And, NumType::I64)),
        Operator::I64Or => Some(Numeric::Binary(BinOp::Or, NumType::I64)),
        Operator::I64Xor => Some(Numeric::Binary(BinOp::Xor, NumType::I64)),
        Operator::I64Shl => Some(Numeric::Binary(BinOp::Shl, NumType::I64)),
        Operator::I64ShrS => Some(Numeric::Binary(BinOp::AShr, NumType::I64)),
        Operator::I64ShrU => Some(Numeric::Binary(BinOp::LShr, NumType::I64)),
        Operator::I64Rotl => Some(Numeric::Rotate(true, NumType::I64)),
        Operator::I64Rotr => Some(Numeric::Rotate(false, NumType::I64)),
        Operator::F32Abs => Some(Numeric::Call1(Intrinsic::Fabs(NumType::F32))),
        Operator::F32Ceil => Some(Numeric::Call1(Intrinsic::Ceil(NumType::F32))),
        Operator::F32Floor => Some(Numeric::Call1(Intrinsic::Floor(NumType::F32))),
        Operator::F32Trunc => Some(Numeric::Call1(Intrinsic::Trunc(NumType::F32))),
        Operator::F32Nearest => Some(Numeric::Call1(Intrinsic::Nearbyint(NumType::F32))),
        Operator::F32Sqrt => Some(Numeric::Call1(Intrinsic::Sqrt(NumType::F32))),
        Operator::F32Neg => Some(Numeric::FloatNeg(NumType::F32)),
        Operator::F32Add => Some(Numeric::Binary(BinOp::FAdd, NumType::F32)),
        Operator::F32Sub => Some(Numeric::Binary(BinOp::FSub, NumType::F32)),
        Operator::F32Mul => Some(Numeric::Binary(BinOp::FMul, NumType::F32)),
        Operator::F32Div => Some(Numeric::Binary(BinOp::FDiv, NumType::F32)),
        Operator::F32Min => Some(Numeric::Call2(Intrinsic::Minnum(NumType::F32))),
        Operator::F32Max => Some(Numeric::Call2(Intrinsic::Maxnum(NumType::F32))),
        Operator::F32Copysign => Some(Numeric::Call2(Intrinsic::Copysign(NumType::F32))),
        Operator::F64Abs => Some(Numeric::Call1(Intrinsic::Fabs(NumType::F64))),
        Operator::F64Ceil => Some(Numeric::Call1(Intrinsic::Ceil(NumType::F64))),
        Operator::F64Floor => Some(Numeric::Call1(Intrinsic::Floor(NumType::F64))),
        Operator::F64Trunc => Some(Numeric::Call1(Intrinsic::Trunc(NumType::F64))),
        Operator::F64Nearest => Some(Numeric::Call1(Intrinsic::Nearbyint(NumType::F64))),
        Operator::F64Sqrt => Some(Numeric::Call1(Intrinsic::Sqrt(NumType::F64))),
        Operator::F64Neg => Some(Numeric::FloatNeg(NumType::F64)),
        Operator::F64Add => Some(Numeric::Binary(BinOp::FAdd, NumType::F64)),
        Operator::F64Sub => Some(Numeric::Binary(BinOp::FSub, NumType::F64)),
        Operator::F64Mul => Some(Numeric::Binary(BinOp::FMul, NumType::F64)),
        Operator::F64Div => Some(Numeric::Binary(BinOp::FDiv, NumType::F64)),
        Operator::F64Min => Some(Numeric::Call2(Intrinsic::Minnum(NumType::F64))),
        Operator::F64Max => Some(Numeric::Call2(Intrinsic::Maxnum(NumType::F64))),
        Operator::F64Copysign => Some(Numeric::Call2(Intrinsic::Copysign(NumType::F64))),
        Operator::I32WrapI64 => Some(Numeric::Cast(CastOp::Trunc, NumType::I64, NumType::I32)),
        Operator::I32TruncF32S => Some(Numeric::Cast(CastOp::FpToSi, NumType::F32, NumType::I32)),
        Operator::I32TruncF32U => Some(Numeric::Cast(CastOp::FpToUi, NumType::F32, NumType::I32)),
        Operator::I32TruncF64S => Some(Numeric::Cast(CastOp::FpToSi, NumType::F64, NumType::I32)),
        Operator::I32TruncF64U => Some(Numeric::Cast(CastOp::FpToUi, NumType::F64, NumType::I32)),
        Operator::I64ExtendI32S => Some(Numeric::Cast(CastOp::SExt, NumType::I32, NumType::I64)),
        Operator::I64ExtendI32U => Some(Numeric::Cast(CastOp::ZExt, NumType::I32, NumType::I64)),
        Operator::I64TruncF32S => Some(Numeric::Cast(CastOp::FpToSi, NumType::F32, NumType::I64)),
        Operator::I64TruncF32U => Some(Numeric::Cast(CastOp::FpToUi, NumType::F32, NumType::I64)),
        Operator::I64TruncF64S => Some(Numeric::Cast(CastOp::FpToSi, NumType::F64, NumType::I64)),
        Operator::I64TruncF64U => Some(Numeric::Cast(CastOp::FpToUi, NumType::F64, NumType::I64)),
        Operator::F32ConvertI32S => Some(Numeric::Cast(CastOp::SiToFp, NumType::I32, NumType::F32)),
        Operator::F32ConvertI32U => Some(Numeric::Cast(CastOp::UiToFp, NumType::I32, NumType::F32)),
        Operator::F32ConvertI64S => Some(Numeric::Cast(CastOp::SiToFp, NumType::I64, NumType::F32)),
        Operator::F32ConvertI64U => Some(Numeric::Cast(CastOp::UiToFp, NumType::I64, NumType::F32)),
        Operator::F32DemoteF64 => Some(Numeric::Cast(CastOp::FpTrunc, NumType::F64, NumType::F32)),
        Operator::F64ConvertI32S => Some(Numeric::Cast(CastOp::SiToFp, NumType::I32, NumType::F64)),
        Operator::F64ConvertI32U => Some(Numeric::Cast(CastOp::UiToFp, NumType::I32, NumType::F64)),
        Operator::F64ConvertI64S => Some(Numeric::Cast(CastOp::SiToFp, NumType::I64, NumType::F64)),
        Operator::F64ConvertI64U => Some(Numeric::Cast(CastOp::UiToFp, NumType::I64, NumType::F64)),
        Operator::F64PromoteF32 => Some(Numeric::Cast(CastOp::FpExt, NumType::F32, NumType::F64)),
        Operator::I32ReinterpretF32 => Some(Numeric::Cast(CastOp::BitCast, NumType::F32, NumType::I32)),
        Operator::I64ReinterpretF64 => Some(Numeric::Cast(CastOp::BitCast, NumType::F64, NumType::I64)),
        Operator::F32ReinterpretI32 => Some(Numeric::Cast(CastOp::BitCast, NumType::I32, NumType::F32)),
        Operator::F64ReinterpretI64 => Some(Numeric::Cast(CastOp::BitCast, NumType::I64, NumType::F64)),
        Operator::I32Extend8S => Some(Numeric::SignExtend(IrType::I8, NumType::I32)),
        Operator::I32Extend16S => Some(Numeric::SignExtend(IrType::I16, NumType::I32)),
        Operator::I64Extend8S => Some(Numeric::SignExtend(IrType::I8, NumType::I64)),
        Operator::I64Extend16S => Some(Numeric::SignExtend(IrType::I16, NumType::I64)),
        Operator::I64Extend32S => Some(Numeric::SignExtend(IrType::I32, NumType::I64)),
        _ => None,
    }
}

/// Tells how an operator is lowered, if it is a numeric one.
pub fn classify(op: &Operator) -> (r: Option<Numeric>)
    ensures
        r == numeric(*op),
{
    match op {
        Operator::I32Eqz => Some(Numeric::Eqz(NumType::I32)),
        Operator::I64Eqz => Some(Numeric::Eqz(NumType::I64)),
        Operator::I32Eq => Some(Numeric::IntCompare(IntPredicate::EQ, NumType::I32)),
        Operator::I32Ne => Some(Numeric::IntCompare(IntPredicate::NE, NumType::I32)),
        Operator::I32LtS => Some(Numeric::IntCompare(IntPredicate::SLT, NumType::I32)),
        Operator::I32LtU => Some(Numeric::IntCompare(IntPredicate::ULT, NumType::I32)),
        Operator::I32GtS => Some(Numeric::IntCompare(IntPredicate::SGT, NumType::I32)),
        Operator::I32GtU => Some(Numeric::IntCompare(IntPredicate::UGT, NumType::I32)),
        Operator::I32LeS => Some(Numeric::IntCompare(IntPredicate::SLE, NumType::I32)),
        Operator::I32LeU => Some(Numeric::IntCompare(IntPredicate::ULE, NumType::I32)),
        Operator::I32GeS => Some(Numeric::IntCompare(IntPredicate::SGE, NumType::I32)),
        Operator::I32GeU => Some(Numeric::IntCompare(IntPredicate::UGE, NumType::I32)),
        Operator::I64Eq => Some(Numeric::IntCompare(IntPredicate::EQ, NumType::I64)),
        Operator::I64Ne => Some(Numeric::IntCompare(IntPredicate::NE, NumType::I64)),
        Operator::I64LtS => Some(Numeric::IntCompare(IntPredicate::SLT, NumType::I64)),
        Operator::I64LtU => Some(Numeric::IntCompare(IntPredicate::ULT, NumType::I64)),
        Operator::I64GtS => Some(Numeric::IntCompare(IntPredicate::SGT, NumType::I64)),
        Operator::I64GtU => Some(Numeric::IntCompare(IntPredicate::UGT, NumType::I64)),
        Operator::I64LeS => Some(Numeric::IntCompare(IntPredicate::SLE, NumType::I64)),
        Operator::I64LeU => Some(Numeric::IntCompare(IntPredicate::ULE, NumType::I64)),
        Operator::I64GeS => Some(Numeric::IntCompare(IntPredicate::SGE, NumType::I64)),
        Operator::I64GeU => Some(Numeric::IntCompare(IntPredicate::UGE, NumType::I64)),
        Operator::F32Eq => Some(Numeric::FloatCompare(FloatPredicate::OEQ, NumType::F32)),
        Operator::F32Ne => Some(Numeric::FloatCompare(FloatPredicate::UNE, NumType::F32)),
        Operator::F32Lt => Some(Numeric::FloatCompare(FloatPredicate::OLT, NumType::F32)),
        Operator::F32Gt => Some(Numeric::FloatCompare(FloatPredicate::OGT, NumType::F32)),
        Operator::F32Le => Some(Numeric::FloatCompare(FloatPredicate::OLE, NumType::F32)),
        Operator::F32Ge => Some(Numeric::FloatCompare(FloatPredicate::OGE, NumType::F32)),
        Operator::F64Eq => Some(Numeric::FloatCompare(FloatPredicate::OEQ, NumType::F64)),
        Operator::F64Ne => Some(Numeric::FloatCompare(FloatPredicate::UNE, NumType::F64)),
        Operator::F64Lt => Some(Numeric::FloatCompare(FloatPredicate::OLT, NumType::F64)),
        Operator::F64Gt => Some(Numeric::FloatCompare(FloatPredicate::OGT, NumType::F64)),
        Operator::F64Le => Some(Numeric::FloatCompare(FloatPredicate::OLE, NumType::F64)),
        Operator::F64Ge => Some(Numeric::FloatCompare(FloatPredicate::OGE, NumType::F64)),
        Operator::I32Clz => Some(Numeric::CountZeros(Intrinsic::Ctlz(NumType::I32))),
        Operator::I32Ctz => Some(Numeric::CountZeros(Intrinsic::Cttz(NumType::I32))),
        Operator::I32Popcnt => Some(Numeric::Call1(Intrinsic::Ctpop(NumType::I32))),
        Operator::I32Add => Some(Numeric::Binary(BinOp::Add, NumType::I32)),
        Operator::I32Sub => Some(Numeric::Binary(BinOp::Sub, NumType::I32)),
        Operator::I32Mul => Some(Numeric::Binary(BinOp::Mul, NumType::I32)),
        Operator::I32DivS => Some(Numeric::Binary(BinOp::SDiv, NumType::I32)),
        Operator::I32DivU => Some(Numeric::Binary(BinOp::UDiv, NumType::I32)),
        Operator::I32RemS => Some(Numeric::Binary(BinOp::SRem, NumType::I32)),
        Operator::I32RemU => Some(Numeric::Binary(BinOp::URem, NumType::I32)),
        Operator::I32And => Some(Numeric::Binary(BinOp::And, NumType::I32)),
        Operator::I32Or => Some(Numeric::Binary(BinOp::Or, NumType::I32)),
        Operator::I32Xor => Some(Numeric::Binary(BinOp::Xor, NumType::I32)),
        Operator::I32Shl => Some(Numeric::Binary(BinOp::Shl, NumType::I32)),
        Operator::I32ShrS => Some(Numeric::Binary(BinOp::AShr, NumType::I32)),
        Operator::I32ShrU => Some(Numeric::Binary(BinOp::LShr, NumType::I32)),
        Operator::I32Rotl => Some(Numeric::Rotate(true, NumType::I32)),
        Operator::I32Rotr => Some(Numeric::Rotate(false, NumType::I32)),
        Operator::I64Clz => Some(Numeric::CountZeros(Intrinsic::Ctlz(NumType::I64))),
        Operator::I64Ctz => Some(Numeric::CountZeros(Intrinsic::Cttz(NumType::I64))),
        Operator::I64Popcnt => Some(Numeric::Call1(Intrinsic::Ctpop(NumType::I64))),
        Operator::I64Add => Some(Numeric::Binary(BinOp::Add, NumType::I64)),
        Operator::I64Sub => Some(Numeric::Binary(BinOp::Sub, NumType::I64)),
        Operator::I64Mul => Some(Numeric::Binary(BinOp::Mul, NumType::I64)),
        Operator::I64DivS => Some(Numeric::Binary(BinOp::SDiv, NumType::I64)),
        Operator::I64DivU => Some(Numeric::Binary(BinOp::UDiv, NumType::I64)),
        Operator::I64RemS => Some(Numeric::Binary(BinOp::SRem, NumType::I64)),
        Operator::I64RemU => Some(Numeric::Binary(BinOp::URem, NumType::I64)),
        Operator::I64And => Some(Numeric::Binary(BinOp::And, NumType::I64)),
        Operator::I64Or => Some(Numeric::Binary(BinOp::Or, NumType::I64)),
        Operator::I64Xor => Some(Numeric::Binary(BinOp::Xor, NumType::I64)),
        Operator::I64Shl => Some(Numeric::Binary(BinOp::Shl, NumType::I64)),
        Operator::I64ShrS => Some(Numeric::Binary(BinOp::AShr, NumType::I64)),
        Operator::I64ShrU => Some(Numeric::Binary(BinOp::LShr, NumType::I64)),
        Operator::I64Rotl => Some(Numeric::Rotate(true, NumType::I64)),
        Operator::I64Rotr => Some(Numeric::Rotate(false, NumType::I64)),
        Operator::F32Abs => Some(Numeric::Call1(Intrinsic::Fabs(NumType::F32))),
        Operator::F32Ceil => Some(Numeric::Call1(Intrinsic::Ceil(NumType::F32))),
        Operator::F32Floor => Some(Numeric::Call1(Intrinsic::Floor(NumType::F32))),
        Operator::F32Trunc => Some(Numeric::Call1(Intrinsic::Trunc(NumType::F32))),
        Operator::F32Nearest => Some(Numeric::Call1(Intrinsic::Nearbyint(NumType::F32))),
        Operator::F32Sqrt => Some(Numeric::Call1(Intrinsic::Sqrt(NumType::F32))),
        Operator::F32Neg => Some(Numeric::FloatNeg(NumType::F32)),
        Operator::F32Add => Some(Numeric::Binary(BinOp::FAdd, NumType::F32)),
        Operator::F32Sub => Some(Numeric::Binary(BinOp::FSub, NumType::F32)),
        Operator::F32Mul => Some(Numeric::Binary(BinOp::FMul, NumType::F32)),
        Operator::F32Div => Some(Numeric::Binary(BinOp::FDiv, NumType::F32)),
        Operator::F32Min => Some(Numeric::Call2(Intrinsic::Minnum(NumType::F32))),
        Operator::F32Max => Some(Numeric::Call2(Intrinsic::Maxnum(NumType::F32))),
        Operator::F32Copysign => Some(Numeric::Call2(Intrinsic::Copysign(NumType::F32))),
        Operator::F64Abs => Some(Numeric::Call1(Intrinsic::Fabs(NumType::F64))),
        Operator::F64Ceil => Some(Numeric::Call1(Intrinsic::Ceil(NumType::F64))),
        Operator::F64Floor => Some(Numeric::Call1(Intrinsic::Floor(NumType::F64))),
        Operator::F64Trunc => Some(Numeric::Call1(Intrinsic::Trunc(NumType::F64))),
        Operator::F64Nearest => Some(Numeric::Call1(Intrinsic::Nearbyint(NumType::F64))),
        Operator::F64Sqrt => Some(Numeric::Call1(Intrinsic::Sqrt(NumType::F64))),
        Operator::F64Neg => Some(Numeric::FloatNeg(NumType::F64)),
        Operator::F64Add => Some(Numeric::Binary(BinOp::FAdd, NumType::F64)),
        Operator::F64Sub => Some(Numeric::Binary(BinOp::FSub, NumType::F64)),
        Operator::F64Mul => Some(Numeric::Binary(BinOp::FMul, NumType::F64)),
        Operator::F64Div => Some(Numeric::Binary(BinOp::FDiv, NumType::F64)),
        Operator::F64Min => Some(Numeric::Call2(Intrinsic::Minnum(NumType::F64))),
        Operator::F64Max => Some(Numeric::Call2(Intrinsic::Maxnum(NumType::F64))),
        Operator::F64Copysign => Some(Numeric::Call2(Intrinsic::Copysign(NumType::F64))),
        Operator::I32WrapI64 => Some(Numeric::Cast(CastOp::Trunc, NumType::I64, NumType::I32)),
        Operator::I32TruncF32S => Some(Numeric::Cast(CastOp::FpToSi, NumType::F32, NumType::I32)),
        Operator::I32TruncF32U => Some(Numeric::Cast(CastOp::FpToUi, NumType::F32, NumType::I32)),
        Operator::I32TruncF64S => Some(Numeric::Cast(CastOp::FpToSi, NumType::F64, NumType::I32)),
        Operator::I32TruncF64U => Some(Numeric::Cast(CastOp::FpToUi, NumType::F64, NumType::I32)),
        Operator::I64ExtendI32S => Some(Numeric::Cast(CastOp::SExt, NumType::I32, NumType::I64)),
        Operator::I64ExtendI32U => Some(Numeric::Cast(CastOp::ZExt, NumType::I32, NumType::I64)),
        Operator::I64TruncF32S => Some(Numeric::Cast(CastOp::FpToSi, NumType::F32, NumType::I64)),
        Operator::I64TruncF32U => Some(Numeric::Cast(CastOp::FpToUi, NumType::F32, NumType::I64)),
        Operator::I64TruncF64S => Some(Numeric::Cast(CastOp::FpToSi, NumType::F64, NumType::I64)),
        Operator::I64TruncF64U => Some(Numeric::Cast(CastOp::FpToUi, NumType::F64, NumType::I64)),
        Operator::F32ConvertI32S => Some(Numeric::Cast(CastOp::SiToFp, NumType::I32, NumType::F32)),
        Operator::F32ConvertI32U => Some(Numeric::Cast(CastOp::UiToFp, NumType::I32, NumType::F32)),
        Operator::F32ConvertI64S => Some(Numeric::Cast(CastOp::SiToFp, NumType::I64, NumType::F32)),
        Operator::F32ConvertI64U => Some(Numeric::Cast(CastOp::UiToFp, NumType::I64, NumType::F32)),
        Operator::F32DemoteF64 => Some(Numeric::Cast(CastOp::FpTrunc, NumType::F64, NumType::F32)),
        Operator::F64ConvertI32S => Some(Numeric::Cast(CastOp::SiToFp, NumType::I32, NumType::F64)),
        Operator::F64ConvertI32U => Some(Numeric::Cast(CastOp::UiToFp, NumType::I32, NumType::F64)),
        Operator::F64ConvertI64S => Some(Numeric::Cast(CastOp::SiToFp, NumType::I64, NumType::F64)),
        Operator::F64ConvertI64U => Some(Numeric::Cast(CastOp::UiToFp, NumType::I64, NumType::F64)),
        Operator::F64PromoteF32 => Some(Numeric::Cast(CastOp::FpExt, NumType::F32, NumType::F64)),
        Operator::I32ReinterpretF32 => Some(Numeric::Cast(CastOp::BitCast, NumType::F32, NumType::I32)),
        Operator::I64ReinterpretF64 => Some(Numeric::Cast(CastOp::BitCast, NumType::F64, NumType::I64)),
        Operator::F32ReinterpretI32 => Some(Numeric::Cast(CastOp::BitCast, NumType::I32, NumType::F32)),
        Operator::F64ReinterpretI64 => Some(Numeric::Cast(CastOp::BitCast, NumType::I64, NumType::F64)),
        Operator::I32Extend8S => Some(Numeric::SignExtend(IrType::I8, NumType::I32)),
        Operator::I32Extend16S => Some(Numeric::SignExtend(IrType::I16, NumType::I32)),
        Operator::I64Extend8S => Some(Numeric::SignExtend(IrType::I8, NumType::I64)),
        Operator::I64Extend16S => Some(Numeric::SignExtend(IrType::I16, NumType::I64)),
        Operator::I64Extend32S => Some(Numeric::SignExtend(IrType::I32, NumType::I64)),
        _ => None,
    }
}

impl Numeric {
    /// The type at which the intrinsic of a lowering is instantiated.
    pub open spec fn intrinsic_type(f: Intrinsic) -> NumType {
        match f.num() {
            Some(t) => t,
            None => NumType::I32,
        }
    }

    /// Whether the lowering is one that the operators give rise to: an
    /// operation on integers has an integer type and one on floating-point
    /// numbers a floating-point type, and an intrinsic returns a value.
    pub open spec fn valid(self) -> bool {
        match self {
            Numeric::Binary(op, t) => t.ir().is_float() == (op == BinOp::FAdd || op == BinOp::FSub
                || op == BinOp::FMul || op == BinOp::FDiv),
            Numeric::IntCompare(_, t) => t.ir().is_int(),
            Numeric::FloatCompare(_, t) => t.ir().is_float(),
            Numeric::Eqz(t) => t.ir().is_int(),
            Numeric::Rotate(_, t) => t.ir().is_int(),
            Numeric::Call1(f) => f.num().is_some(),
            Numeric::CountZeros(f) => f.num().is_some(),
            Numeric::Call2(f) => f.num().is_some(),
            _ => true,
        }
    }

    /// The types of the operands, the topmost last.
    pub open spec fn operands(self) -> Seq<NumType> {
        match self {
            Numeric::Binary(_, t) => seq![t, t],
            Numeric::IntCompare(_, t) => seq![t, t],
            Numeric::FloatCompare(_, t) => seq![t, t],
            Numeric::Eqz(t) => seq![t],
            Numeric::Call1(f) => seq![Numeric::intrinsic_type(f)],
            Numeric::CountZeros(f) => seq![Numeric::intrinsic_type(f)],
            Numeric::Call2(f) => seq![Numeric::intrinsic_type(f), Numeric::intrinsic_type(f)],
            Numeric::Rotate(_, t) => seq![t, t],
            Numeric::Cast(_, from, _) => seq![from],
            Numeric::SignExtend(_, t) => seq![t],
            Numeric::FloatNeg(t) => seq![t],
        }
    }

    /// The type of the result.
    pub open spec fn result(self) -> NumType {
        match self {
            Numeric::Binary(_, t) => t,
            Numeric::IntCompare(_, _) => NumType::I32,
            Numeric::FloatCompare(_, _) => NumType::I32,
            Numeric::Eqz(_) => NumType::I32,
            Numeric::Call1(f) => Numeric::intrinsic_type(f),
            Numeric::CountZeros(f) => Numeric::intrinsic_type(f),
            Numeric::Call2(f) => Numeric::intrinsic_type(f),
            Numeric::Rotate(_, t) => t,
            Numeric::Cast(_, _, to) => to,
            Numeric::SignExtend(_, t) => t,
            Numeric::FloatNeg(t) => t,
        }
    }

    /// The types of the operands, the topmost last.
    pub fn operand_types(&self) -> (r: Vec<NumType>)
        requires
            self.valid(),
        ensures
            r@ == self.operands(),
    {
        let mut r: Vec<NumType> = Vec::new();
        match self {
            Numeric::Binary(_, t) | Numeric::IntCompare(_, t) | Numeric::FloatCompare(_, t)
            | Numeric::Rotate(_, t) => {
                r.push(*t);
                r.push(*t);
            },
            Numeric::Eqz(t) | Numeric::SignExtend(_, t) | Numeric::FloatNeg(t) => {
                r.push(*t);
            },
            Numeric::Cast(_, from, _) => {
                r.push(*from);
            },
            Numeric::Call1(f) | Numeric::CountZeros(f) => {
                r.push(f.result_type().unwrap());
            },
            Numeric::Call2(f) => {
                r.push(f.result_type().unwrap());
                r.push(f.result_type().unwrap());
            },
        }
        assert(r@ =~= self.operands());
        r
    }
}

/// Every lowering that the operators give rise to is valid.
pub proof fn lemma_numeric_valid(op: Operator)
    ensures
        numeric(op) matches Some(n) ==> n.valid(),
{
}

/// A conversion of the topmost operand to type `to`.
pub open spec fn cast_post(c: ContextView, op: CastOp, to: IrType) -> ContextView {
    c.drop(1).emit1(InstView::op1(Opcode::Cast(op), Some(to), c.top(0))).push(c.value_at(0, to))
}

/// The state after a numeric operator was translated.
pub open spec fn numeric_post(c: ContextView, n: Numeric) -> ContextView {
    match n {
        Numeric::Binary(op, _) => binary_post(c, op),
        Numeric::IntCompare(pred, _) => compare_values_post(c, Opcode::IntCompare(pred)),
        Numeric::FloatCompare(pred, _) => compare_values_post(c, Opcode::FloatCompare(pred)),
        Numeric::Eqz(t) => compare_values_post(
            c.push(Value::zero(t.ir())),
            Opcode::IntCompare(IntPredicate::EQ),
        ),
        Numeric::Call1(f) => intrinsic_post(c.drop(1), f, seq![c.top(0)]),
        Numeric::CountZeros(f) => intrinsic_post(
            c.drop(1),
            f,
            seq![c.top(0), Value::zero(IrType::I1)],
        ),
        Numeric::Call2(f) => intrinsic_post(c.drop(2), f, seq![c.top(1), c.top(0)]),
        Numeric::Rotate(left, t) => if left {
            rotate_post(c, t == NumType::I32, BinOp::Shl, BinOp::LShr)
        } else {
            rotate_post(c, t == NumType::I32, BinOp::LShr, BinOp::Shl)
        },
        Numeric::Cast(op, _, to) => cast_post(c, op, to.ir()),
        Numeric::SignExtend(narrow, t) => c.drop(1).emit1(
            InstView::op1(Opcode::Cast(CastOp::Trunc), Some(narrow), c.top(0)),
        ).emit1(
            InstView::op1(Opcode::Cast(CastOp::SExt), Some(t.ir()), c.value_at(0, narrow)),
        ).push(c.value_at(1, t.ir())),
        Numeric::FloatNeg(t) => c.drop(1).emit1(
            InstView::op1(Opcode::Unary(UnOp::FNeg), Some(t.ir()), c.top(0)),
        ).push(c.value_at(0, t.ir())),
    }
}

/// Translates a numeric operator.
#[verifier::rlimit(60)]
pub fn gen_numeric(ctx: &mut Context, n: Numeric)
    requires
        old(ctx)@.wf(),
        n.valid(),
        operands_typed(old(ctx)@, n.operands()),
    ensures
        final(ctx)@ == numeric_post(old(ctx)@, n),
        final(ctx)@.wf(),
        final(ctx)@.control_frames == old(ctx)@.control_frames,
        final(ctx)@.stack().len() == old(ctx)@.stack().len() - n.operands().len() + 1,
        final(ctx)@.top(0).ty == n.result().ir(),
{
    proof {
        let c = old(ctx)@;
        let tys = n.operands();
        assert(c.top(0).ty == tys[tys.len() - 1].ir());
        if tys.len() == 2 {
            assert(c.top(1).ty == tys[0].ir());
        }
    }
    match n {
        Numeric::Binary(op, _) => match op {
            BinOp::And => gen_and(ctx),
            BinOp::Or => gen_or(ctx),
            BinOp::Xor => gen_xor(ctx),
            BinOp::Shl => gen_shl(ctx),
            BinOp::AShr => gen_shr(ctx, true),
            BinOp::LShr => gen_shr(ctx, false),
            _ => gen_binary(ctx, op),
        },
        Numeric::IntCompare(pred, _) => gen_int_compare(ctx, pred),
        Numeric::FloatCompare(pred, _) => gen_float_compare(ctx, pred),
        Numeric::Eqz(t) => {
            ctx.push(Value::const_zero(t.to_ir()));
            gen_int_compare(ctx, IntPredicate::EQ);
        },
        Numeric::Call1(f) => {
            let v = ctx.pop_operand();
            let mut args: Vec<Value> = Vec::new();
            args.push(v);
            assert(args@ =~= seq![v]);
            gen_llvm_intrinsic(ctx, f, args);
        },
        Numeric::CountZeros(f) => {
            let v = ctx.pop_operand();
            let mut args: Vec<Value> = Vec::new();
            args.push(v);
            args.push(Value::const_zero(IrType::I1));
            assert(args@ =~= seq![v, Value::zero(IrType::I1)]);
            gen_llvm_intrinsic(ctx, f, args);
        },
        Numeric::Call2(f) => {
            let (v1, v2) = ctx.pop_operand2();
            let mut args: Vec<Value> = Vec::new();
            args.push(v1);
            args.push(v2);
            assert(args@ =~= seq![v1, v2]);
            gen_llvm_intrinsic(ctx, f, args);
        },
        Numeric::Rotate(left, t) => {
            let if_32bit = match t {
                NumType::I32 => true,
                _ => false,
            };
            if left {
                gen_rotl(ctx, if_32bit);
            } else {
                gen_rotr(ctx, if_32bit);
            }
        },
        Numeric::Cast(op, _, to) => {
            let v = ctx.pop_operand();
            let r = ctx.build(Inst::op1(Opcode::Cast(op), Some(to.to_ir()), v));
            ctx.push(r);
        },
        Numeric::SignExtend(narrow, t) => {
            let v = ctx.pop_operand();
            let low = ctx.build(Inst::op1(Opcode::Cast(CastOp::Trunc), Some(narrow), v));
            let r = ctx.build(Inst::op1(Opcode::Cast(CastOp::SExt), Some(t.to_ir()), low));
            ctx.push(r);
        },
        Numeric::FloatNeg(t) => {
            let v = ctx.pop_operand();
            let r = ctx.build(Inst::op1(Opcode::Unary(UnOp::FNeg), Some(t.to_ir()), v));
            ctx.push(r);
        },
    }
}

} // verus!
