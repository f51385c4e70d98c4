//! Stack maps: the record of the live values of a site that is left to the
//! backend, for a runtime that walks the native frames itself.

pub mod llvm_stackmap;

use vstd::prelude::*;

use crate::context::{emitted, Context, ContextView, Local};
use crate::ir::{FuncRef, Inst, InstView, Intrinsic, IrType, NumType, Opcode, Value};

verus! {

/// The operator index under which the entry of a function is recorded.
pub const FUNCTION_START_INSN_OFFSET: u32 = 0xffff;

/// The identifier of the stack map of a site: the function index in the
/// upper half, the operator index in the lower half.
pub open spec fn spec_stackmap_id(func_idx: u32, insn_offset: u32) -> u64 {
    (func_idx as u64 * 0x1_0000_0000 + insn_offset as u64) as u64
}

/// Creates a stack map identifier from a function index and an operator index.
pub fn stackmap_id(func_idx: u32, insn_offset: u32) -> (id: u64)
    ensures
        id == spec_stackmap_id(func_idx, insn_offset),
{
    let id = ((func_idx as u64) << 32) | insn_offset as u64;
    assert(((func_idx as u64) << 32) | insn_offset as u64 == (func_idx as u64 * 0x1_0000_0000
        + insn_offset as u64) as u64) by (bit_vector);
    id
}

/// The identifier of the stack map of the site at hand. Where no operator is
/// being translated, the site is the entry of the function.
pub open spec fn site_stackmap_id(c: ContextView) -> u64 {
    spec_stackmap_id(
        c.current_function_idx.unwrap(),
        match c.current_op {
            Some(op) => op,
            None => FUNCTION_START_INSN_OFFSET,
        },
    )
}

/// The identifier of the stack map of the site at hand.
pub fn get_stackmap_id(ctx: &Context) -> (id: u64)
    requires
        ctx@.current_function_idx.is_some(),
    ensures
        id == site_stackmap_id(ctx@),
{
    let insn = match ctx.current_op {
        Some(op) => op,
        None => FUNCTION_START_INSN_OFFSET,
    };
    let func = ctx.current_function_idx.unwrap();
    stackmap_id(func, insn)
}

/// The number under which a type stands in a stack map.
pub open spec fn type_code(ty: NumType) -> u64 {
    match ty {
        NumType::I32 => 0,
        NumType::I64 => 1,
        NumType::F32 => 2,
        NumType::F64 => 3,
    }
}

/// The number under which a type stands in a stack map.
pub fn encode_llvm_type(ty: NumType) -> (r: u64)
    ensures
        r == type_code(ty),
{
    match ty {
        NumType::I32 => 0,
        NumType::I64 => 1,
        NumType::F32 => 2,
        NumType::F64 => 3,
    }
}

/// The arguments that describe the first `n` locals: for each the code of
/// its type and the address of its slot.
pub open spec fn local_args(locals: Seq<Local>, n: nat) -> Seq<Value>
    decreases n,
{
    if n == 0 {
        seq![]
    } else {
        local_args(locals, (n - 1) as nat).push(
            Value::constant(IrType::I32, type_code(locals[n - 1].ty)),
        ).push(locals[n - 1].ptr)
    }
}

/// The arguments that describe the first `n` values of a stack, from the
/// bottom: for each the code of its type and the value.
pub open spec fn stack_args(stack: Seq<Value>, n: nat) -> Seq<Value>
    decreases n,
{
    if n == 0 {
        seq![]
    } else {
        stack_args(stack, (n - 1) as nat).push(
            Value::constant(IrType::I32, type_code(stack[n - 1].ty.num().unwrap())),
        ).push(stack[n - 1])
    }
}

/// The arguments of the stack map of a site: its identifier, zero shadow
/// bytes, the number of locals, then the locals and the operand stack.
pub open spec fn stackmap_args(c: ContextView, locals: Seq<Local>) -> Seq<Value> {
    seq![
        Value::constant(IrType::I64, site_stackmap_id(c)),
        Value::zero(IrType::I32),
        Value::constant(IrType::I32, locals.len() as u64),
    ] + local_args(locals, locals.len()) + stack_args(c.stack(), c.stack().len())
}

pub open spec fn stackmap_post(c: ContextView, locals: Seq<Local>) -> ContextView {
    c.emit1(
        InstView::opn(
            Opcode::Call(FuncRef::Intrinsic(Intrinsic::Stackmap)),
            None,
            stackmap_args(c, locals),
        ),
    )
}

/// Emits the stack map of the site: a call of the stack-map intrinsic that
/// names every local and every value of the operand stack.
pub fn gen_stackmap(ctx: &mut Context, locals: &Vec<Local>)
    requires
        old(ctx)@.wf(),
        old(ctx)@.current_function_idx.is_some(),
    ensures
        final(ctx)@ == stackmap_post(old(ctx)@, locals@),
        final(ctx)@.wf(),
        emitted(old(ctx)@, final(ctx)@),
{
    let mut args: Vec<Value> = Vec::new();
    args.push(Value::const_int(IrType::I64, get_stackmap_id(ctx)));
    args.push(Value::const_zero(IrType::I32));
    args.push(Value::const_int(IrType::I32, locals.len() as u64));
    let ghost head = args@;
    let n = locals.len();
    let mut i: usize = 0;
    while i < n
        invariant
            i <= n,
            n == locals@.len(),
            args@ == head + local_args(locals@, i as nat),
        decreases n - i,
    {
        let l = locals[i];
        args.push(Value::const_int(IrType::I32, encode_llvm_type(l.ty)));
        args.push(l.ptr);
        proof {
            let init = local_args(locals@, i as nat);
            assert(args@ =~= head + init.push(Value::constant(IrType::I32, type_code(l.ty))).push(
                l.ptr,
            ));
        }
        i += 1;
    }
    let ghost mid = args@;
    let m = ctx.current_frame_size();
    let mut j: usize = 0;
    while j < m
        invariant
            j <= m,
            m == ctx@.stack().len(),
            ctx@ == old(ctx)@,
            ctx@.wf(),
            args@ == mid + stack_args(ctx@.stack(), j as nat),
        decreases m - j,
    {
        let r = ctx.peek_from_top(m - 1 - j);
        let value = r.unwrap();
        assert(value == ctx@.stack()[j as int]);
        let t = value.ty.to_num().unwrap();
        args.push(Value::const_int(IrType::I32, encode_llvm_type(t)));
        args.push(value);
        proof {
            let init = stack_args(ctx@.stack(), j as nat);
            assert(args@ =~= mid + init.push(Value::constant(IrType::I32, type_code(t))).push(
                value,
            ));
        }
        j += 1;
    }
    proof {
        assert(args@ =~= stackmap_args(ctx@, locals@));
    }
    ctx.emit(Inst::opn(Opcode::Call(FuncRef::Intrinsic(Intrinsic::Stackmap)), None, args));
}

} // verus!
