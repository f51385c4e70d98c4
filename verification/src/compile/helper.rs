//! Emitters that several operators share.

use vstd::prelude::*;

use crate::context::{emitted, Context, ContextView};
use crate::ir::{
    BinOp, CastOp, EnvField, FloatPredicate, FuncRef, Inst, InstView, IntPredicate, Intrinsic,
    IrType, Opcode, UnOp, Value,
};

verus! {

/// A call of an intrinsic on `args`, whose result is pushed.
pub open spec fn intrinsic_post(c: ContextView, f: Intrinsic, args: Seq<Value>) -> ContextView {
    let ty = f.num().unwrap().ir();
    c.emit1(InstView::call(FuncRef::Intrinsic(f), Some(ty), args)).push(c.value_at(0, ty))
}

/// Emits a call of an intrinsic and pushes its result.
pub fn gen_llvm_intrinsic(ctx: &mut Context, function: Intrinsic, args: Vec<Value>)
    requires
        old(ctx)@.wf(),
        function.num().is_some(),
    ensures
        final(ctx)@ == intrinsic_post(old(ctx)@, function, args@),
        final(ctx)@.wf(),
{
    let ty = function.result_type().unwrap().to_ir();
    let res = ctx.build(Inst::call(FuncRef::Intrinsic(function), Some(ty), args));
    ctx.push(res);
}

/// Emits the address of a field of the execution environment.
pub fn gen_exec_env_field_ptr(ctx: &mut Context, exec_env_ptr: &Value, field: EnvField) -> (p:
    Value)
    requires
        old(ctx)@.wf(),
    ensures
        final(ctx)@ == old(ctx)@.emit1(InstView::field_ptr(field, *exec_env_ptr)),
        p == old(ctx)@.value_at(0, IrType::Ptr),
        final(ctx)@.wf(),
        emitted(old(ctx)@, final(ctx)@),
{
    ctx.build(Inst::field_ptr(field, *exec_env_ptr))
}

/// The code that loads a field of the execution environment.
pub open spec fn load_field_post(c: ContextView, env: Value, field: EnvField) -> ContextView {
    c.emit1(InstView::field_ptr(field, env)).emit1(
        InstView::load(field.ty(), c.value_at(0, IrType::Ptr), false),
    )
}

/// Emits a load of the base address of the linear memory.
pub fn gen_memory_base(ctx: &mut Context, exec_env_ptr: &Value) -> (base: Value)
    requires
        old(ctx)@.wf(),
    ensures
        final(ctx)@ == load_field_post(old(ctx)@, *exec_env_ptr, EnvField::MemoryBase),
        base == old(ctx)@.value_at(1, IrType::Ptr),
        final(ctx)@.wf(),
        emitted(old(ctx)@, final(ctx)@),
{
    let p = gen_exec_env_field_ptr(ctx, exec_env_ptr, EnvField::MemoryBase);
    ctx.build(Inst::load(IrType::Ptr, p, false))
}

/// Emits a load of the size of the linear memory, in pages.
pub fn gen_memory_size(ctx: &mut Context, exec_env_ptr: &Value) -> (size: Value)
    requires
        old(ctx)@.wf(),
    ensures
        final(ctx)@ == load_field_post(old(ctx)@, *exec_env_ptr, EnvField::MemorySize),
        size == old(ctx)@.value_at(1, IrType::I32),
        final(ctx)@.wf(),
        emitted(old(ctx)@, final(ctx)@),
{
    let p = gen_exec_env_field_ptr(ctx, exec_env_ptr, EnvField::MemorySize);
    ctx.build(Inst::load(IrType::I32, p, false))
}

/// The two topmost operands are integers.
pub open spec fn int_operands(c: ContextView) -> bool {
    c.operands() >= 2 && c.top(0).ty.is_int() && c.top(1).ty.is_int()
}

/// The two topmost operands are floating-point numbers.
pub open spec fn float_operands(c: ContextView) -> bool {
    c.operands() >= 2 && c.top(0).ty.is_float() && c.top(1).ty.is_float()
}

/// A binary operation on the two topmost operands, the lower one on the
/// left; the result takes their place and has the type of the left one.
pub open spec fn binary_post(c: ContextView, op: BinOp) -> ContextView {
    let v1 = c.top(1);
    let v2 = c.top(0);
    c.drop(2).emit1(InstView::op2(Opcode::Binary(op), Some(v1.ty), v1, v2)).push(
        c.value_at(0, v1.ty),
    )
}

/// Emits a binary operation on the two topmost operands.
pub fn gen_binary(ctx: &mut Context, op: BinOp)
    requires
        old(ctx)@.wf(),
        old(ctx)@.operands() >= 2,
    ensures
        final(ctx)@ == binary_post(old(ctx)@, op),
        final(ctx)@.wf(),
{
    let (v1, v2) = ctx.pop_operand2();
    let res = ctx.build(Inst::op2(Opcode::Binary(op), Some(v1.ty), v1, v2));
    ctx.push(res);
}

pub fn gen_and(ctx: &mut Context)
    requires
        old(ctx)@.wf(),
        int_operands(old(ctx)@),
    ensures
        final(ctx)@ == binary_post(old(ctx)@, BinOp::And),
        final(ctx)@.wf(),
{
    gen_binary(ctx, BinOp::And);
}

pub fn gen_or(ctx: &mut Context)
    requires
        old(ctx)@.wf(),
        int_operands(old(ctx)@),
    ensures
        final(ctx)@ == binary_post(old(ctx)@, BinOp::Or),
        final(ctx)@.wf(),
{
    gen_binary(ctx, BinOp::Or);
}

pub fn gen_xor(ctx: &mut Context)
    requires
        old(ctx)@.wf(),
        int_operands(old(ctx)@),
    ensures
        final(ctx)@ == binary_post(old(ctx)@, BinOp::Xor),
        final(ctx)@.wf(),
{
    gen_binary(ctx, BinOp::Xor);
}

pub fn gen_shl(ctx: &mut Context)
    requires
        old(ctx)@.wf(),
        int_operands(old(ctx)@),
    ensures
        final(ctx)@ == binary_post(old(ctx)@, BinOp::Shl),
        final(ctx)@.wf(),
{
    gen_binary(ctx, BinOp::Shl);
}

/// Emits a shift to the right: one that keeps the sign if `sign_extend`,
/// one that fills with zeros otherwise.
pub fn gen_shr(ctx: &mut Context, sign_extend: bool)
    requires
        old(ctx)@.wf(),
        int_operands(old(ctx)@),
    ensures
        final(ctx)@ == binary_post(
            old(ctx)@,
            if sign_extend {
                BinOp::AShr
            } else {
                BinOp::LShr
            },
        ),
        final(ctx)@.wf(),
{
    if sign_extend {
        gen_binary(ctx, BinOp::AShr);
    } else {
        gen_binary(ctx, BinOp::LShr);
    }
}

/// The constant that cuts a shift count down to the width of its type.
pub open spec fn rotate_mask(if_32bit: bool) -> Value {
    if if_32bit {
        Value::constant(IrType::I32, 31)
    } else {
        Value::constant(IrType::I64, 63)
    }
}

/// A rotation of `x` by `n` places, with `mask` the width less one: the
/// bits shifted by `n & mask` in direction `first`, joined with the bits
/// shifted by `-n & mask` in direction `second`.
pub open spec fn rotate_post(c: ContextView, if_32bit: bool, first: BinOp, second: BinOp) -> ContextView {
    let x = c.top(1);
    let n = c.top(0);
    let mask = rotate_mask(if_32bit);
    let i = |op: BinOp, a: Value, b: Value| InstView::op2(Opcode::Binary(op), Some(a.ty), a, b);
    c.drop(2).emit1(i(BinOp::And, n, mask)).emit1(i(first, x, c.value_at(0, n.ty))).emit1(
        InstView::op1(Opcode::Unary(UnOp::Neg), Some(n.ty), c.value_at(0, n.ty)),
    ).emit1(i(BinOp::And, c.value_at(2, n.ty), mask)).emit1(
        i(second, x, c.value_at(3, n.ty)),
    ).emit1(i(BinOp::Or, c.value_at(1, x.ty), c.value_at(4, x.ty))).push(c.value_at(5, x.ty))
}

fn gen_rotate(ctx: &mut Context, if_32bit: bool, first: BinOp, second: BinOp)
    requires
        old(ctx)@.wf(),
        old(ctx)@.operands() >= 2,
    ensures
        final(ctx)@ == rotate_post(old(ctx)@, if_32bit, first, second),
        final(ctx)@.wf(),
{
    let (v1, v2) = ctx.pop_operand2();
    let mask = if if_32bit {
        Value::const_int(IrType::I32, 31)
    } else {
        Value::const_int(IrType::I64, 63)
    };
    let v2m = ctx.build(Inst::op2(Opcode::Binary(BinOp::And), Some(v2.ty), v2, mask));
    let lhs = ctx.build(Inst::op2(Opcode::Binary(first), Some(v1.ty), v1, v2m));
    let negv2 = ctx.build(Inst::op1(Opcode::Unary(UnOp::Neg), Some(v2.ty), v2m));
    let amount = ctx.build(Inst::op2(Opcode::Binary(BinOp::And), Some(v2.ty), negv2, mask));
    let rhs = ctx.build(Inst::op2(Opcode::Binary(second), Some(v1.ty), v1, amount));
    let res = ctx.build(Inst::op2(Opcode::Binary(BinOp::Or), Some(v1.ty), lhs, rhs));
    ctx.push(res);
}

/// Emits a rotation to the left of the lower operand by the upper one.
pub fn gen_rotl(ctx: &mut Context, if_32bit: bool)
    requires
        old(ctx)@.wf(),
        int_operands(old(ctx)@),
    ensures
        final(ctx)@ == rotate_post(old(ctx)@, if_32bit, BinOp::Shl, BinOp::LShr),
        final(ctx)@.wf(),
{
    gen_rotate(ctx, if_32bit, BinOp::Shl, BinOp::LShr);
}

/// Emits a rotation to the right of the lower operand by the upper one.
pub fn gen_rotr(ctx: &mut Context, if_32bit: bool)
    requires
        old(ctx)@.wf(),
        int_operands(old(ctx)@),
    ensures
        final(ctx)@ == rotate_post(old(ctx)@, if_32bit, BinOp::LShr, BinOp::Shl),
        final(ctx)@.wf(),
{
    gen_rotate(ctx, if_32bit, BinOp::LShr, BinOp::Shl);
}

/// A comparison of the two topmost operands, the lower one on the left:
/// the outcome, widened with zeros to 32 bits, takes their place.
pub open spec fn compare_values_post(c: ContextView, op: Opcode) -> ContextView {
    c.drop(2).emit1(InstView::op2(op, Some(IrType::I1), c.top(1), c.top(0))).emit1(
        InstView::op1(Opcode::Cast(CastOp::ZExt), Some(IrType::I32), c.value_at(0, IrType::I1)),
    ).push(c.value_at(1, IrType::I32))
}

fn gen_compare(ctx: &mut Context, op: Opcode)
    requires
        old(ctx)@.wf(),
        old(ctx)@.operands() >= 2,
    ensures
        final(ctx)@ == compare_values_post(old(ctx)@, op),
        final(ctx)@.wf(),
{
    let (v1, v2) = ctx.pop_operand2();
    let cond = ctx.build(Inst::op2(op, Some(IrType::I1), v1, v2));
    let result = ctx.build(Inst::op1(Opcode::Cast(CastOp::ZExt), Some(IrType::I32), cond));
    ctx.push(result);
}

/// Emits a comparison of two floating-point operands.
pub fn gen_float_compare(ctx: &mut Context, cond: FloatPredicate)
    requires
        old(ctx)@.wf(),
        float_operands(old(ctx)@),
    ensures
        final(ctx)@ == compare_values_post(old(ctx)@, Opcode::FloatCompare(cond)),
        final(ctx)@.wf(),
{
    gen_compare(ctx, Opcode::FloatCompare(cond));
}

/// Emits a comparison of two integer operands.
pub fn gen_int_compare(ctx: &mut Context, cond: IntPredicate)
    requires
        old(ctx)@.wf(),
        int_operands(old(ctx)@),
    ensures
        final(ctx)@ == compare_values_post(old(ctx)@, Opcode::IntCompare(cond)),
        final(ctx)@.wf(),
{
    gen_compare(ctx, Opcode::IntCompare(cond));
}

} // verus!
