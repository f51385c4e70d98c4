//! Accesses to the linear memory.

use vstd::prelude::*;

use crate::compile::control::operands_typed;
use crate::compile::helper::{gen_memory_base, gen_memory_size, load_field_post};
use crate::context::{Context, ContextView};
use crate::error::CompileError;
use crate::ir::{
    BinOp, CastOp, EnvField, Inst, InstView, IrType, NumType, Opcode, RuntimeFn, Value,
};
use crate::wasm::{MemArg, Operator};

verus! {

/// A load from or a store to the linear memory.
#[derive(Clone, Copy, Debug, PartialEq, Eq, Structural)]
pub enum Access {
    /// A load of a value of type `load_type`, which is widened to the type
    /// `result`, with or without its sign, if `extend` is set.
    Load { memarg: MemArg, result: NumType, load_type: IrType, signed: bool, extend: bool },
    /// A store of an operand of type `value`, which is cut down to the type
    /// `store_type` first if `narrow` is set.
    Store { memarg: MemArg, value: NumType, store_type: IrType, narrow: bool },
}

/// The access that an operator makes; none for an operator that makes none.
pub open spec fn access(op: Operator) -> Option<Access> {
    match op {
        Operator::I32Load { memarg } => Some(
            Access::Load { memarg: memarg, result: NumType::I32, load_type: IrType::I32, signed: false, extend: false },
        ),
        Operator::I64Load { memarg } => Some(
            Access::Load { memarg: memarg, result: NumType::I64, load_type: IrType::I64, signed: false, extend: false },
        ),
        Operator::F32Load { memarg } => Some(
            Access::Load { memarg: memarg, result: NumType::F32, load_type: IrType::F32, signed: false, extend: false },
        ),
        Operator::F64Load { memarg } => Some(
            Access::Load { memarg: memarg, result: NumType::F64, load_type: IrType::F64, signed: false, extend: false },
        ),
        Operator::I32Load8S { memarg } => Some(
            Access::Load { memarg: memarg, result: NumType::I32, load_type: IrType::I8, signed: true, extend: true },
        ),
        Operator::I32Load8U { memarg } => Some(
            Access::Load { memarg: memarg, result: NumType::I32, load_type: IrType::I8, signed: false, extend: true },
        ),
        Operator::I32Load16S { memarg } => Some(
            Access::Load { memarg: memarg, result: NumType::I32, load_type: IrType::I16, signed: true, extend: true },
        ),
        Operator::I32Load16U { memarg } => Some(
            Access::Load { memarg: memarg, result: NumType::I32, load_type: IrType::I16, signed: false, extend: true },
        ),
        Operator::I64Load8S { memarg } => Some(
            Access::Load { memarg: memarg, result: NumType::I64, load_type: IrType::I8, signed: true, extend: true },
        ),
        Operator::I64Load8U { memarg } => Some(
            Access::Load { memarg: memarg, result: NumType::I64, load_type: IrType::I8, signed: false, extend: true },
        ),
        Operator::I64Load16S { memarg } => Some(
            Access::Load { memarg: memarg, result: NumType::I64, load_type: IrType::I16, signed: true, extend: true },
        ),
        Operator::I64Load16U { memarg } => Some(
            Access::Load { memarg: memarg, result: NumType::I64, load_type: IrType::I16, signed: false, extend: true },
        ),
        Operator::I64Load32S { memarg } => Some(
            Access::Load { memarg: memarg, result: NumType::I64, load_type: IrType::I32, signed: true, extend: true },
        ),
        Operator::I64Load32U { memarg } => Some(
            Access::Load { memarg: memarg, result: NumType::I64, load_type: IrType::I32, signed: false, extend: true },
        ),
        Operator::I32Store { memarg } => Some(
            Access::Store { memarg: memarg, value: NumType::I32, store_type: IrType::I32, narrow: false },
        ),
        Operator::I64Store { memarg } => Some(
            Access::Store { memarg: memarg, value: NumType::I64, store_type: IrType::I64, narrow: false },
        ),
        Operator::F32Store { memarg } => Some(
            Access::Store { memarg: memarg, value: NumType::F32, store_type: IrType::F32, narrow: false },
        ),
        Operator::F64Store { memarg } => Some(
            Access::Store { memarg: memarg, value: NumType::F64, store_type: IrType::F64, narrow: false },
        ),
        Operator::I32Store8 { memarg } => Some(
            Access::Store { memarg: memarg, value: NumType::I32, store_type: IrType::I8, narrow: true },
        ),
        Operator::I32Store16 { memarg } => Some(
            Access::Store { memarg: memarg, value: NumType::I32, store_type: IrType::I16, narrow: true },
        ),
        Operator::I64Store8 { memarg } => Some(
            Access::Store { memarg: memarg, value: NumType::I64, store_type: IrType::I8, narrow: true },
        ),
        Operator::I64Store16 { memarg } => Some(
            Access::Store { memarg: memarg, value: NumType::I64, store_type: IrType::I16, narrow: true },
        ),
        Operator::I64Store32 { memarg } => Some(
            Access::Store { memarg: memarg, value: NumType::I64, store_type: IrType::I32, narrow: true },
        ),
        _ => None,
    }
}

/// Tells which access to the linear memory an operator makes, if any.
pub fn classify_access(op: &Operator) -> (r: Option<Access>)
    ensures
        r == access(*op),
        r matches Some(a) ==> a.valid(),
{
    match op {
        Operator::I32Load { memarg } => Some(
            Access::Load { memarg: *memarg, result: NumType::I32, load_type: IrType::I32, signed: false, extend: false },
        ),
        Operator::I64Load { memarg } => Some(
            Access::Load { memarg: *memarg, result: NumType::I64, load_type: IrType::I64, signed: false, extend: false },
        ),
        Operator::F32Load { memarg } => Some(
            Access::Load { memarg: *memarg, result: NumType::F32, load_type: IrType::F32, signed: false, extend: false },
        ),
        Operator::F64Load { memarg } => Some(
            Access::Load { memarg: *memarg, result: NumType::F64, load_type: IrType::F64, signed: false, extend: false },
        ),
        Operator::I32Load8S { memarg } => Some(
            Access::Load { memarg: *memarg, result: NumType::I32, load_type: IrType::I8, signed: true, extend: true },
        ),
        Operator::I32Load8U { memarg } => Some(
            Access::Load { memarg: *memarg, result: NumType::I32, load_type: IrType::I8, signed: false, extend: true },
        ),
        Operator::I32Load16S { memarg } => Some(
            Access::Load { memarg: *memarg, result: NumType::I32, load_type: IrType::I16, signed: true, extend: true },
        ),
        Operator::I32Load16U { memarg } => Some(
            Access::Load { memarg: *memarg, result: NumType::I32, load_type: IrType::I16, signed: false, extend: true },
        ),
        Operator::I64Load8S { memarg } => Some(
            Access::Load { memarg: *memarg, result: NumType::I64, load_type: IrType::I8, signed: true, extend: true },
        ),
        Operator::I64Load8U { memarg } => Some(
            Access::Load { memarg: *memarg, result: NumType::I64, load_type: IrType::I8, signed: false, extend: true },
        ),
        Operator::I64Load16S { memarg } => Some(
            Access::Load { memarg: *memarg, result: NumType::I64, load_type: IrType::I16, signed: true, extend: true },
        ),
        Operator::I64Load16U { memarg } => Some(
            Access::Load { memarg: *memarg, result: NumType::I64, load_type: IrType::I16, signed: false, extend: true },
        ),
        Operator::I64Load32S { memarg } => Some(
            Access::Load { memarg: *memarg, result: NumType::I64, load_type: IrType::I32, signed: true, extend: true },
        ),
        Operator::I64Load32U { memarg } => Some(
            Access::Load { memarg: *memarg, result: NumType::I64, load_type: IrType::I32, signed: false, extend: true },
        ),
        Operator::I32Store { memarg } => Some(
            Access::Store { memarg: *memarg, value: NumType::I32, store_type: IrType::I32, narrow: false },
        ),
        Operator::I64Store { memarg } => Some(
            Access::Store { memarg: *memarg, value: NumType::I64, store_type: IrType::I64, narrow: false },
        ),
        Operator::F32Store { memarg } => Some(
            Access::Store { memarg: *memarg, value: NumType::F32, store_type: IrType::F32, narrow: false },
        ),
        Operator::F64Store { memarg } => Some(
            Access::Store { memarg: *memarg, value: NumType::F64, store_type: IrType::F64, narrow: false },
        ),
        Operator::I32Store8 { memarg } => Some(
            Access::Store { memarg: *memarg, value: NumType::I32, store_type: IrType::I8, narrow: true },
        ),
        Operator::I32Store16 { memarg } => Some(
            Access::Store { memarg: *memarg, value: NumType::I32, store_type: IrType::I16, narrow: true },
        ),
        Operator::I64Store8 { memarg } => Some(
            Access::Store { memarg: *memarg, value: NumType::I64, store_type: IrType::I8, narrow: true },
        ),
        Operator::I64Store16 { memarg } => Some(
            Access::Store { memarg: *memarg, value: NumType::I64, store_type: IrType::I16, narrow: true },
        ),
        Operator::I64Store32 { memarg } => Some(
            Access::Store { memarg: *memarg, value: NumType::I64, store_type: IrType::I32, narrow: true },
        ),
        _ => None,
    }
}

impl Access {
    /// A load that does not widen loads the type of its result.
    pub open spec fn valid(self) -> bool {
        self matches Access::Load { result, load_type, extend, .. } ==> extend || load_type
            == result.ir()
    }

    /// The types of the operands: the address and, for a store, the value.
    pub open spec fn operands(self) -> Seq<NumType> {
        match self {
            Access::Load { .. } => seq![NumType::I32],
            Access::Store { value, .. } => seq![NumType::I32, value],
        }
    }

    /// The types of the operands: the address and, for a store, the value.
    pub fn operand_types(&self) -> (r: Vec<NumType>)
        ensures
            r@ == self.operands(),
    {
        let mut r: Vec<NumType> = Vec::new();
        r.push(NumType::I32);
        match self {
            Access::Load { .. } => {},
            Access::Store { value, .. } => {
                r.push(*value);
            },
        }
        assert(r@ =~= self.operands());
        r
    }
}

/// The code that turns an offset into the linear memory into an address:
/// the base of the memory is loaded and the offset, counted in bytes, is
/// added to it.
pub open spec fn resolve_pointer_post(c: ContextView, env: Value, offset: Value) -> ContextView {
    load_field_post(c, env, EnvField::MemoryBase).emit1(
        InstView::op2(
            Opcode::ElemPtr(IrType::I8),
            Some(IrType::Ptr),
            c.value_at(1, IrType::Ptr),
            offset,
        ),
    ).emit1(
        InstView::op1(Opcode::Cast(CastOp::BitCast), Some(IrType::Ptr), c.value_at(2, IrType::Ptr)),
    )
}

/// Emits the code that turns an offset into the linear memory into an
/// address.
pub fn resolve_pointer(ctx: &mut Context, exec_env_ptr: &Value, offset: Value) -> (p: Value)
    requires
        old(ctx)@.wf(),
    ensures
        final(ctx)@ == resolve_pointer_post(old(ctx)@, *exec_env_ptr, offset),
        p == old(ctx)@.value_at(3, IrType::Ptr),
        final(ctx)@.wf(),
{
    let memory_base = gen_memory_base(ctx, exec_env_ptr);
    let dst_addr = ctx.build(
        Inst::op2(Opcode::ElemPtr(IrType::I8), Some(IrType::Ptr), memory_base, offset),
    );
    ctx.build(Inst::op1(Opcode::Cast(CastOp::BitCast), Some(IrType::Ptr), dst_addr))
}

/// The code that forms the address of an access: the address operand,
/// widened with zeros to 64 bits, plus the constant offset of the access,
/// taken as an offset into the linear memory.
pub open spec fn address_post(c: ContextView, env: Value, addr: Value, offset: u64) -> ContextView {
    resolve_pointer_post(
        c.emit1(InstView::op1(Opcode::Cast(CastOp::ZExt), Some(IrType::I64), addr)).emit1(
            InstView::op2(
                Opcode::Binary(BinOp::Add),
                Some(IrType::I64),
                c.value_at(0, IrType::I64),
                Value::constant(IrType::I64, offset),
            ),
        ),
        env,
        c.value_at(1, IrType::I64),
    )
}

fn gen_address(ctx: &mut Context, exec_env_ptr: &Value, addr: Value, offset: u64) -> (p: Value)
    requires
        old(ctx)@.wf(),
    ensures
        final(ctx)@ == address_post(old(ctx)@, *exec_env_ptr, addr, offset),
        p == old(ctx)@.value_at(5, IrType::Ptr),
        final(ctx)@.wf(),
{
    let wide = ctx.build(Inst::op1(Opcode::Cast(CastOp::ZExt), Some(IrType::I64), addr));
    let sum = ctx.build(
        Inst::op2(
            Opcode::Binary(BinOp::Add),
            Some(IrType::I64),
            wide,
            Value::const_int(IrType::I64, offset),
        ),
    );
    resolve_pointer(ctx, exec_env_ptr, sum)
}

/// A load: the address is taken off the stack, the value is loaded and,
/// where the stored type is narrower than the type of the result, widened
/// with its sign or with zeros; the result is pushed.
pub open spec fn load_post(
    c: ContextView,
    env: Value,
    memarg: MemArg,
    extended_type: NumType,
    load_type: IrType,
    signed: bool,
    require_extend: bool,
) -> ContextView {
    let c1 = address_post(c.drop(1), env, c.top(0), memarg.offset).emit1(
        InstView::load(load_type, c.value_at(5, IrType::Ptr), false),
    );
    if require_extend {
        c1.emit1(
            InstView::op1(
                Opcode::Cast(
                    if signed {
                        CastOp::SExt
                    } else {
                        CastOp::ZExt
                    },
                ),
                Some(extended_type.ir()),
                c.value_at(6, load_type),
            ),
        ).push(c.value_at(7, extended_type.ir()))
    } else {
        c1.push(c.value_at(6, load_type))
    }
}

/// Translates a load.
pub fn compile_op_load(
    ctx: &mut Context,
    exec_env_ptr: &Value,
    memarg: &MemArg,
    extended_type: NumType,
    load_type: IrType,
    signed: bool,
    require_extend: bool,
) -> (r: Result<(), CompileError>)
    requires
        old(ctx)@.wf(),
        old(ctx)@.operands() >= 1,
        old(ctx)@.top(0).ty.is_int(),
        require_extend || load_type == extended_type.ir(),
    ensures
        r.is_ok(),
        final(ctx)@ == load_post(
            old(ctx)@,
            *exec_env_ptr,
            *memarg,
            extended_type,
            load_type,
            signed,
            require_extend,
        ),
        final(ctx)@.wf(),
{
    let address_operand = ctx.pop_operand();
    let dst_addr = gen_address(ctx, exec_env_ptr, address_operand, memarg.offset);
    let result = ctx.build(Inst::load(load_type, dst_addr, false));
    if require_extend {
        let op = if signed {
            CastOp::SExt
        } else {
            CastOp::ZExt
        };
        let extended = ctx.build(Inst::op1(Opcode::Cast(op), Some(extended_type.to_ir()), result));
        ctx.push(extended);
    } else {
        proof {
            crate::ir::lemma_num_of_ir(extended_type);
        }
        ctx.push(result);
    }
    Ok(())
}

/// A store: the value and, below it, the address are taken off the stack;
/// the value is stored, cut down to the stored type first where that is
/// narrower.
pub open spec fn store_post(
    c: ContextView,
    env: Value,
    memarg: MemArg,
    store_type: IrType,
    require_narrow: bool,
) -> ContextView {
    let c1 = address_post(c.drop(2), env, c.top(1), memarg.offset);
    if require_narrow {
        c1.emit1(InstView::op1(Opcode::Cast(CastOp::Trunc), Some(store_type), c.top(0))).emit1(
            InstView::store(c.value_at(5, IrType::Ptr), c.value_at(6, store_type)),
        )
    } else {
        c1.emit1(InstView::store(c.value_at(5, IrType::Ptr), c.top(0)))
    }
}

/// Translates a store.
pub fn compile_op_store(
    ctx: &mut Context,
    exec_env_ptr: &Value,
    memarg: &MemArg,
    store_type: IrType,
    require_narrow: bool,
) -> (r: Result<(), CompileError>)
    requires
        old(ctx)@.wf(),
        old(ctx)@.operands() >= 2,
        old(ctx)@.top(1).ty.is_int(),
    ensures
        r.is_ok(),
        final(ctx)@ == store_post(old(ctx)@, *exec_env_ptr, *memarg, store_type, require_narrow),
        final(ctx)@.wf(),
{
    let (address_operand, value) = ctx.pop_operand2();
    let dst_addr = gen_address(ctx, exec_env_ptr, address_operand, memarg.offset);
    if require_narrow {
        let narrow_value = ctx.build(
            Inst::op1(Opcode::Cast(CastOp::Trunc), Some(store_type), value),
        );
        ctx.emit(Inst::store(dst_addr, narrow_value));
    } else {
        ctx.emit(Inst::store(dst_addr, value));
    }
    Ok(())
}

/// The state after an access was translated.
pub open spec fn access_post(c: ContextView, env: Value, a: Access) -> ContextView {
    match a {
        Access::Load { memarg, result, load_type, signed, extend } => load_post(
            c,
            env,
            memarg,
            result,
            load_type,
            signed,
            extend,
        ),
        Access::Store { memarg, store_type, narrow, .. } => store_post(
            c,
            env,
            memarg,
            store_type,
            narrow,
        ),
    }
}

/// Translates an access to the linear memory.
pub fn gen_access(ctx: &mut Context, exec_env_ptr: &Value, a: Access)
    requires
        old(ctx)@.wf(),
        a.valid(),
        operands_typed(old(ctx)@, a.operands()),
    ensures
        final(ctx)@ == access_post(old(ctx)@, *exec_env_ptr, a),
        final(ctx)@.wf(),
{
    proof {
        let c = old(ctx)@;
        let tys = a.operands();
        assert(c.stack()[c.stack().len() - tys.len() + 0].ty == tys[0].ir());
        assert(tys.len() == 2 ==> c.top(0).ty == tys[1].ir());
    }
    match a {
        Access::Load { memarg, result, load_type, signed, extend } => {
            let _ = compile_op_load(
                ctx,
                exec_env_ptr,
                &memarg,
                result,
                load_type,
                signed,
                extend,
            );
        },
        Access::Store { memarg, store_type, narrow, .. } => {
            let _ = compile_op_store(ctx, exec_env_ptr, &memarg, store_type, narrow);
        },
    }
}

/// The size of the linear memory is loaded and pushed.
pub open spec fn memory_size_post(c: ContextView, env: Value) -> ContextView {
    load_field_post(c, env, EnvField::MemorySize).push(c.value_at(1, IrType::I32))
}

/// Translates `memory.size`.
pub fn compile_op_memory_size(ctx: &mut Context, exec_env_ptr: &Value) -> (r: Result<
    (),
    CompileError,
>)
    requires
        old(ctx)@.wf(),
    ensures
        r.is_ok(),
        final(ctx)@ == memory_size_post(old(ctx)@, *exec_env_ptr),
        final(ctx)@.wf(),
{
    let size = gen_memory_size(ctx, exec_env_ptr);
    ctx.push(size);
    Ok(())
}

/// The number of pages to grow by is taken off the stack and handed to the
/// runtime, and what the runtime returns, the size before, is pushed.
pub open spec fn memory_grow_post(c: ContextView, env: Value) -> ContextView {
    c.drop(1).emit1(InstView::runtime(RuntimeFn::MemoryGrow, env, seq![c.top(0)])).push(
        c.value_at(0, IrType::I32),
    )
}

/// Translates `memory.grow`.
pub fn compile_op_memory_grow(ctx: &mut Context, exec_env_ptr: &Value) -> (r: Result<
    (),
    CompileError,
>)
    requires
        old(ctx)@.wf(),
        old(ctx)@.operands() >= 1,
    ensures
        r.is_ok(),
        final(ctx)@ == memory_grow_post(old(ctx)@, *exec_env_ptr),
        final(ctx)@.wf(),
{
    let delta = ctx.pop_operand();
    let ret = ctx.build(Inst::runtime1(RuntimeFn::MemoryGrow, *exec_env_ptr, delta));
    ctx.push(ret);
    Ok(())
}

/// The length, the source and the destination are taken off the stack; the
/// two offsets are turned into addresses, the source first, and the bytes
/// are copied.
pub open spec fn memcpy_post(c: ContextView, env: Value) -> ContextView {
    let c0 = c.drop(3);
    let c1 = resolve_pointer_post(c0, env, c.top(1));
    resolve_pointer_post(c1, env, c.top(2)).emit1(
        InstView::op3(
            Opcode::MemCopy,
            None,
            c.value_at(7, IrType::Ptr),
            c.value_at(3, IrType::Ptr),
            c.top(0),
        ),
    )
}

/// Translates `memory.copy` within memory 0.
pub fn compile_op_memcpy(ctx: &mut Context, exec_env_ptr: &Value, dst_mem: u32, src_mem: u32) -> (r:
    Result<(), CompileError>)
    requires
        old(ctx)@.wf(),
        old(ctx)@.operands() >= 3,
        dst_mem == 0,
        src_mem == 0,
    ensures
        r.is_ok(),
        final(ctx)@ == memcpy_post(old(ctx)@, *exec_env_ptr),
        final(ctx)@.wf(),
{
    let (dst, src, len) = ctx.pop_operand3();
    let src_addr = resolve_pointer(ctx, exec_env_ptr, src);
    let dst_addr = resolve_pointer(ctx, exec_env_ptr, dst);
    ctx.emit(Inst::op3(Opcode::MemCopy, None, dst_addr, src_addr, len));
    Ok(())
}

/// The length, the value and the destination are taken off the stack; the
/// offset is turned into an address, the value is cut down to a byte, and
/// the bytes are set.
pub open spec fn memory_fill_post(c: ContextView, env: Value) -> ContextView {
    resolve_pointer_post(c.drop(3), env, c.top(2)).emit1(
        InstView::op1(Opcode::Cast(CastOp::Trunc), Some(IrType::I8), c.top(1)),
    ).emit1(
        InstView::op3(
            Opcode::MemSet,
            None,
            c.value_at(3, IrType::Ptr),
            c.value_at(4, IrType::I8),
            c.top(0),
        ),
    )
}

/// Translates `memory.fill` in memory 0.
pub fn compile_op_memory_fill(ctx: &mut Context, exec_env_ptr: &Value, mem: u32) -> (r: Result<
    (),
    CompileError,
>)
    requires
        old(ctx)@.wf(),
        old(ctx)@.operands() >= 3,
        mem == 0,
    ensures
        r.is_ok(),
        final(ctx)@ == memory_fill_post(old(ctx)@, *exec_env_ptr),
        final(ctx)@.wf(),
{
    let (dst, val, len) = ctx.pop_operand3();
    let dst_addr = resolve_pointer(ctx, exec_env_ptr, dst);
    let val_i8 = ctx.build(Inst::op1(Opcode::Cast(CastOp::Trunc), Some(IrType::I8), val));
    ctx.emit(Inst::op3(Opcode::MemSet, None, dst_addr, val_i8, len));
    Ok(())
}

} // verus!
