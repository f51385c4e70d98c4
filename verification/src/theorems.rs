//! What holds of the code that the translator emits, whatever the module.

use vstd::prelude::*;

use crate::compile::control::{
    call_post, callee_type, result_ir, block_post, br_table_ok, br_table_post, end_phi_in, loop_post, operands_typed, with_end_phi,
    ControlFrame, end_ok, end_post, if_post,
    table_constants, table_dests, table_incoming,
};
use crate::compile::compile_function::{
    alloc_locals, exec_env, function_params, function_result, function_start, group_types,
    local_slots, ops_result, prologue, FUNCTION_ENTRY_OP,
};
use crate::compile::cr::restore::restore_dispatch_post;
use crate::compile::compile_op::{
    block_op_result, branch_op_result, const_op_result, dead_result, live_result,
    memory_op_result,
    numeric_op_result, op_result, stack_op_result, variable_op_result,
};
use crate::compile::cr::checkpoint::{
    checkpoint_start_post, checkpoint_test_post, default_value, push_locals, push_stack,
    store_frame_post, store_stack_post,
};
use crate::compile::cr::restore::{
    arg_phis, merge_stack, pop_args, pop_locals, pop_stack, restore_args_post, restore_point_post,
};
use crate::compile::cr::site::{migration_point_post, site_post, within_cap};
use crate::context::DispatchCase;
use crate::wasm::{FunctionBody, Operator};
use crate::compile::cr::state::{
    compare_post, migration_state_post, MAX_LOCALS_STORE, MIGRATION_STATE_CHECKPOINT_CONTINUE,
};
use crate::context::{ContextView, Local};
use crate::ir::{
    EnvField, FuncRef, InstView, IrType, NumType, Opcode, RuntimeFn, Value,
};

verus! {

/// The functions of the runtime that the first `n` of `code` call, in order.
pub open spec fn runtime_calls(code: Seq<InstView>, n: nat) -> Seq<RuntimeFn>
    decreases n,
{
    if n == 0 {
        seq![]
    } else {
        let rest = runtime_calls(code, (n - 1) as nat);
        match code[n - 1].op {
            Opcode::Call(FuncRef::Runtime(f)) => rest.push(f),
            _ => rest,
        }
    }
}

/// The functions of the runtime that the block at the cursor calls.
pub open spec fn block_calls(c: ContextView) -> Seq<RuntimeFn> {
    runtime_calls(c.builder.code(), c.builder.code().len())
}

proof fn lemma_calls_prefix(a: Seq<InstView>, b: Seq<InstView>, n: nat)
    requires
        n <= a.len(),
        a.len() <= b.len(),
        forall|i: int| 0 <= i < a.len() ==> a[i] == b[i],
    ensures
        runtime_calls(a, n) == runtime_calls(b, n),
    decreases n,
{
    if n > 0 {
        lemma_calls_prefix(a, b, (n - 1) as nat);
    }
}

/// What one more instruction adds to the calls of the block at the cursor.
pub proof fn lemma_emit_calls(c: ContextView, i: InstView)
    requires
        c.builder.ready(),
    ensures
        c.emit1(i).builder.ready(),
        c.emit1(i).builder.position == c.builder.position,
        c.emit1(i).stack_frames == c.stack_frames,
        block_calls(c.emit1(i)) == match i.op {
            Opcode::Call(FuncRef::Runtime(f)) => block_calls(c).push(f),
            _ => block_calls(c),
        },
{
    let a = c.builder.code();
    let b = c.emit1(i).builder.code();
    assert(b =~= a + seq![i]);
    assert(b[a.len() as int] == i);
    lemma_calls_prefix(a, b, a.len());
}

/// The types of the first `n` locals.
pub open spec fn local_types(locals: Seq<Local>, n: nat) -> Seq<NumType> {
    Seq::new(n, |i: int| locals[i].ty)
}

/// The types of the first `n` values of a stack, from the bottom.
pub open spec fn stack_types(stack: Seq<Value>, n: nat) -> Seq<NumType> {
    Seq::new(n, |i: int| stack[i].ty.num().unwrap())
}

/// The code that saves the first `n` locals calls the runtime once per
/// local, in their order, with the function for the type of the local.
pub proof fn lemma_push_locals_calls(c: ContextView, env: Value, locals: Seq<Local>, n: nat)
    requires
        c.builder.ready(),
        n <= locals.len(),
    ensures
        push_locals(c, env, locals, n).builder.ready(),
        push_locals(c, env, locals, n).stack_frames == c.stack_frames,
        block_calls(push_locals(c, env, locals, n)) == block_calls(c) + local_types(
            locals,
            n,
        ).map_values(|t: NumType| RuntimeFn::PushLocal(t)),
    decreases n,
{
    if n == 0 {
        assert(block_calls(c) + local_types(locals, 0).map_values(
            |t: NumType| RuntimeFn::PushLocal(t),
        ) =~= block_calls(c));
    } else {
        let p = push_locals(c, env, locals, (n - 1) as nat);
        lemma_push_locals_calls(c, env, locals, (n - 1) as nat);
        let l = locals[n - 1];
        let load = InstView::load(l.ty.ir(), l.ptr, false);
        let call = InstView::runtime(RuntimeFn::PushLocal(l.ty), env, seq![p.value_at(0, l.ty.ir())]);
        lemma_emit_calls(p, load);
        lemma_emit_calls(p.emit1(load), call);
        assert(block_calls(c) + local_types(locals, n).map_values(
            |t: NumType| RuntimeFn::PushLocal(t),
        ) =~= (block_calls(c) + local_types(locals, (n - 1) as nat).map_values(
            |t: NumType| RuntimeFn::PushLocal(t),
        )).push(RuntimeFn::PushLocal(l.ty)));
    }
}

/// The code that restores the first `n` locals calls the runtime once per
/// local, in their order, with the function for the type of the local.
pub proof fn lemma_pop_locals_calls(c: ContextView, env: Value, locals: Seq<Local>, n: nat)
    requires
        c.builder.ready(),
        n <= locals.len(),
    ensures
        pop_locals(c, env, locals, n).builder.ready(),
        pop_locals(c, env, locals, n).stack_frames == c.stack_frames,
        block_calls(pop_locals(c, env, locals, n)) == block_calls(c) + local_types(
            locals,
            n,
        ).map_values(|t: NumType| RuntimeFn::PopFrontLocal(t)),
    decreases n,
{
    if n == 0 {
        assert(block_calls(c) + local_types(locals, 0).map_values(
            |t: NumType| RuntimeFn::PopFrontLocal(t),
        ) =~= block_calls(c));
    } else {
        let p = pop_locals(c, env, locals, (n - 1) as nat);
        lemma_pop_locals_calls(c, env, locals, (n - 1) as nat);
        let l = locals[n - 1];
        let call = InstView::runtime(RuntimeFn::PopFrontLocal(l.ty), env, seq![]);
        let store = InstView::store(l.ptr, p.value_at(0, l.ty.ir()));
        lemma_emit_calls(p, call);
        lemma_emit_calls(p.emit1(call), store);
        assert(block_calls(c) + local_types(locals, n).map_values(
            |t: NumType| RuntimeFn::PopFrontLocal(t),
        ) =~= (block_calls(c) + local_types(locals, (n - 1) as nat).map_values(
            |t: NumType| RuntimeFn::PopFrontLocal(t),
        )).push(RuntimeFn::PopFrontLocal(l.ty)));
    }
}

/// The types of the `n` topmost values of a stack, the topmost first.
pub open spec fn top_types(stack: Seq<Value>, n: nat) -> Seq<NumType> {
    Seq::new(n, |i: int| stack[stack.len() - 1 - i].ty.num().unwrap())
}

/// The code that saves the `n` topmost values of the operand stack calls
/// the runtime once per value, from the top down, with the function for
/// the type of the value.
pub proof fn lemma_push_stack_calls(c: ContextView, env: Value, n: nat)
    requires
        c.builder.ready(),
        n <= c.stack().len(),
    ensures
        push_stack(c, env, n).builder.ready(),
        push_stack(c, env, n).stack_frames == c.stack_frames,
        block_calls(push_stack(c, env, n)) == block_calls(c) + top_types(c.stack(), n).map_values(
            |t: NumType| RuntimeFn::Push(t),
        ),
    decreases n,
{
    if n == 0 {
        assert(block_calls(c) + top_types(c.stack(), 0).map_values(|t: NumType| RuntimeFn::Push(t))
            =~= block_calls(c));
    } else {
        let p = push_stack(c, env, (n - 1) as nat);
        lemma_push_stack_calls(c, env, (n - 1) as nat);
        let v = c.top(n - 1);
        let call = InstView::runtime(RuntimeFn::Push(v.ty.num().unwrap()), env, seq![v]);
        lemma_emit_calls(p, call);
        assert(block_calls(c) + top_types(c.stack(), n).map_values(|t: NumType| RuntimeFn::Push(t))
            =~= (block_calls(c) + top_types(c.stack(), (n - 1) as nat).map_values(
            |t: NumType| RuntimeFn::Push(t),
        )).push(RuntimeFn::Push(v.ty.num().unwrap())));
    }
}

/// The code that restores the `n` lowest values of the operand stack calls
/// the runtime once per value, from the bottom up, with the function for
/// the type of the value.
pub proof fn lemma_pop_stack_calls(c: ContextView, env: Value, n: nat)
    requires
        c.builder.ready(),
        n <= c.stack().len(),
    ensures
        pop_stack(c, env, n).builder.ready(),
        pop_stack(c, env, n).stack_frames == c.stack_frames,
        block_calls(pop_stack(c, env, n)) == block_calls(c) + stack_types(c.stack(), n).map_values(
            |t: NumType| RuntimeFn::Pop(t),
        ),
    decreases n,
{
    if n == 0 {
        assert(block_calls(c) + stack_types(c.stack(), 0).map_values(
            |t: NumType| RuntimeFn::Pop(t),
        ) =~= block_calls(c));
    } else {
        let p = pop_stack(c, env, (n - 1) as nat);
        lemma_pop_stack_calls(c, env, (n - 1) as nat);
        let t = c.stack()[n - 1].ty.num().unwrap();
        let call = InstView::runtime(RuntimeFn::Pop(t), env, seq![]);
        lemma_emit_calls(p, call);
        assert(block_calls(c) + stack_types(c.stack(), n).map_values(|t: NumType| RuntimeFn::Pop(t))
            =~= (block_calls(c) + stack_types(c.stack(), (n - 1) as nat).map_values(
            |t: NumType| RuntimeFn::Pop(t),
        )).push(RuntimeFn::Pop(t)));
    }
}

/// The code that restores the arguments of a call calls the runtime once
/// per argument, in their order, with the function for the type of the
/// argument.
pub proof fn lemma_pop_args_calls(c: ContextView, env: Value, args: Seq<NumType>, n: nat)
    requires
        c.builder.ready(),
        n <= args.len(),
    ensures
        pop_args(c, env, args, n).builder.ready(),
        block_calls(pop_args(c, env, args, n)) == block_calls(c) + args.take(n as int).map_values(
            |t: NumType| RuntimeFn::Pop(t),
        ),
    decreases n,
{
    if n == 0 {
        assert(block_calls(c) + args.take(0).map_values(|t: NumType| RuntimeFn::Pop(t))
            =~= block_calls(c));
    } else {
        let p = pop_args(c, env, args, (n - 1) as nat);
        lemma_pop_args_calls(c, env, args, (n - 1) as nat);
        let call = InstView::runtime(RuntimeFn::Pop(args[n - 1]), env, seq![]);
        lemma_emit_calls(p, call);
        assert(block_calls(c) + args.take(n as int).map_values(|t: NumType| RuntimeFn::Pop(t))
            =~= (block_calls(c) + args.take(n - 1).map_values(|t: NumType| RuntimeFn::Pop(t))).push(
            RuntimeFn::Pop(args[n - 1]),
        ));
    }
}

/// What a site hands to the runtime when its frame is saved, and what it
/// takes back when the frame is restored, agree. The frame is saved in
/// state `save` and restored in state `restore`, two states with the same
/// operand stack. The locals are pushed and popped in the same order, with
/// the functions for the same types: the runtime hands them back first in,
/// first out. The values of the operand stack are pushed from the top down
/// and popped from the bottom up, with the functions for the same types:
/// the runtime hands them back last in, first out. As many values are
/// popped as were pushed.
pub proof fn lemma_restore_matches_checkpoint(
    save: ContextView,
    restore: ContextView,
    env: Value,
    locals: Seq<Local>,
)
    requires
        save.builder.ready(),
        restore.builder.ready(),
        save.current_op.is_some(),
        save.current_function_idx.is_some(),
        save.stack() == restore.stack(),
    ensures
        ({
            let n = save.stack().len();
            let pushed = block_calls(store_stack_post(store_frame_post(save, env, locals), env));
            let popped = block_calls(
                pop_stack(pop_locals(restore, env, locals, locals.len()), env, n),
            );
            let saved_locals = local_types(locals, locals.len());
            let saved_stack = top_types(save.stack(), n);
            let restored_stack = stack_types(save.stack(), n);
            &&& pushed == block_calls(save) + seq![RuntimeFn::PushFrame, RuntimeFn::SetPcToFrame]
                + saved_locals.map_values(|t: NumType| RuntimeFn::PushLocal(t))
                + saved_stack.map_values(|t: NumType| RuntimeFn::Push(t))
            &&& popped == block_calls(restore) + saved_locals.map_values(
                |t: NumType| RuntimeFn::PopFrontLocal(t),
            ) + restored_stack.map_values(|t: NumType| RuntimeFn::Pop(t))
            &&& saved_stack.len() == restored_stack.len()
            &&& forall|i: int| 0 <= i < n ==> restored_stack[i] == saved_stack[n - 1 - i]
        }),
{
    let n = save.stack().len();
    let frame = InstView::runtime(RuntimeFn::PushFrame, env, seq![]);
    let pc = InstView::runtime(
        RuntimeFn::SetPcToFrame,
        env,
        seq![
            Value::constant(IrType::I32, save.current_function_idx.unwrap() as u64),
            Value::constant(IrType::I32, save.current_op.unwrap() as u64),
        ],
    );
    lemma_emit_calls(save, frame);
    lemma_emit_calls(save.emit1(frame), pc);
    let s1 = save.emit1(frame).emit1(pc);
    lemma_push_locals_calls(s1, env, locals, locals.len());
    let s2 = store_frame_post(save, env, locals);
    assert(s2 == push_locals(s1, env, locals, locals.len()));
    assert(s2.stack() == save.stack());
    lemma_push_stack_calls(s2, env, n);
    lemma_pop_locals_calls(restore, env, locals, locals.len());
    let r1 = pop_locals(restore, env, locals, locals.len());
    assert(r1.stack() == save.stack());
    lemma_pop_stack_calls(r1, env, n);
    assert(block_calls(s1) =~= block_calls(save) + seq![
        RuntimeFn::PushFrame,
        RuntimeFn::SetPcToFrame,
    ]);
}

/// At a call site, the values that lie below the arguments and the
/// arguments themselves are taken back in this order. Where the
/// arguments on the stack have the types that the callee declares, they
/// are, together, the values of the whole operand stack from the bottom
/// up: what a checkpoint that starts at the call has saved.
pub proof fn lemma_call_site_restores_the_whole_stack(c: ContextView, args: Seq<NumType>)
    requires
        c.stack_typed(),
        operands_typed(c, args),
    ensures
        stack_types(c.stack(), (c.stack().len() - args.len()) as nat) + args == stack_types(
            c.stack(),
            c.stack().len(),
        ),
{
    let n = c.stack().len();
    let keep = (n - args.len()) as nat;
    let whole = stack_types(c.stack(), n);
    let parts = stack_types(c.stack(), keep) + args;
    assert(parts.len() == whole.len());
    assert forall|i: int| 0 <= i < n implies parts[i] == whole[i] by {
        if i >= keep {
            let k = i - keep;
            assert(c.stack()[n - args.len() + k].ty == args[k].ir());
            crate::ir::lemma_num_of_ir(args[k]);
        }
    }
    assert(parts =~= whole);
}

/// Every read of the migration state is volatile: the code that reads the
/// state, and the code that compares it, load it with a volatile load from
/// the address of its field.
pub proof fn lemma_state_reads_are_volatile(c: ContextView, env: Value, state: u32)
    requires
        c.builder.ready(),
    ensures
        migration_state_post(c, env).builder.code() == c.builder.code() + seq![
            InstView::field_ptr(EnvField::MigrationState, env),
            InstView::load(IrType::I32, c.value_at(0, IrType::Ptr), true),
        ],
        compare_post(c, env, state).builder.code().subrange(
            0,
            c.builder.code().len() + 2int,
        ) == migration_state_post(c, env).builder.code(),
        migration_state_post(c, env).builder.code().last().op == (Opcode::Load { volatile: true }),
{
    let code = migration_state_post(c, env).builder.code();
    assert(code =~= c.builder.code() + seq![
        InstView::field_ptr(EnvField::MigrationState, env),
        InstView::load(IrType::I32, c.value_at(0, IrType::Ptr), true),
    ]);
    assert(compare_post(c, env, state).builder.code().subrange(0, c.builder.code().len() + 2int)
        =~= code);
}

/// Where a checkpoint starts at a site, the function saves its frame and
/// its operand stack, then sets the migration state to the state in which
/// its callers go on unwinding, and returns the default value of its result
/// type. Besides the frame and the stack nothing is handed to the runtime.
pub proof fn lemma_checkpoint_start_saves_and_returns(
    c: ContextView,
    env: Value,
    locals: Seq<Local>,
)
    requires
        c.builder.ready(),
        c.current_op.is_some(),
        c.current_function_idx.is_some(),
        !c.config.checkpoint_v2,
    ensures
        ({
            let saved = store_stack_post(store_frame_post(c, env, locals), env);
            let d = checkpoint_start_post(c, env, locals);
            &&& d.builder.code() == saved.builder.code() + seq![
                InstView::field_ptr(EnvField::MigrationState, env),
                InstView::store(
                    saved.value_at(0, IrType::Ptr),
                    Value::constant(IrType::I32, MIGRATION_STATE_CHECKPOINT_CONTINUE as u64),
                ),
                InstView::ret(default_value(c.ret_ty())),
            ]
            &&& block_calls(d) == block_calls(saved)
            &&& block_calls(saved) == block_calls(c) + seq![
                RuntimeFn::PushFrame,
                RuntimeFn::SetPcToFrame,
            ] + local_types(locals, locals.len()).map_values(|t: NumType| RuntimeFn::PushLocal(t))
                + top_types(c.stack(), c.stack().len()).map_values(|t: NumType| RuntimeFn::Push(t))
        }),
{
    let saved = store_stack_post(store_frame_post(c, env, locals), env);
    let d = checkpoint_start_post(c, env, locals);
    lemma_restore_matches_checkpoint(c, c, env, locals);
    let f0 = c.emit1(InstView::runtime(RuntimeFn::PushFrame, env, seq![])).emit1(
        InstView::runtime(
            RuntimeFn::SetPcToFrame,
            env,
            seq![
                Value::constant(IrType::I32, c.current_function_idx.unwrap() as u64),
                Value::constant(IrType::I32, c.current_op.unwrap() as u64),
            ],
        ),
    );
    lemma_push_locals_outside(f0, env, locals, locals.len());
    let f1 = store_frame_post(c, env, locals);
    lemma_push_stack_outside(f1, env, f1.stack().len());
    assert(outside(saved) == outside(c));
    assert(saved.ret_ty() == outside(saved).ret_ty());
    assert(c.ret_ty() == outside(c).ret_ty());
    lemma_push_locals_cursor(f0, env, locals, locals.len());
    lemma_push_stack_cursor(f1, env, f1.stack().len());
    let i1 = InstView::field_ptr(EnvField::MigrationState, env);
    let i2 = InstView::store(
        saved.value_at(0, IrType::Ptr),
        Value::constant(IrType::I32, MIGRATION_STATE_CHECKPOINT_CONTINUE as u64),
    );
    let i3 = InstView::ret(default_value(c.ret_ty()));
    let s1 = saved.emit1(i1);
    let s2 = s1.emit1(i2);
    assert(d == s2.emit1(i3));
    lemma_emit_calls(saved, i1);
    lemma_emit_calls(s1, i2);
    lemma_emit_calls(s2, i3);
    assert(d.builder.code() =~= saved.builder.code() + seq![i1, i2, i3]);
}

/// The code that saves locals leaves the cursor in its block.
proof fn lemma_push_locals_cursor(c: ContextView, env: Value, locals: Seq<Local>, n: nat)
    requires
        c.builder.ready(),
    ensures
        push_locals(c, env, locals, n).builder.ready(),
        push_locals(c, env, locals, n).builder.position == c.builder.position,
        push_locals(c, env, locals, n).stack_frames == c.stack_frames,
    decreases n,
{
    if n > 0 {
        lemma_push_locals_cursor(c, env, locals, (n - 1) as nat);
    }
}

/// The code that saves the operand stack leaves the cursor in its block.
proof fn lemma_push_stack_cursor(c: ContextView, env: Value, n: nat)
    requires
        c.builder.ready(),
    ensures
        push_stack(c, env, n).builder.ready(),
        push_stack(c, env, n).builder.position == c.builder.position,
        push_stack(c, env, n).stack_frames == c.stack_frames,
    decreases n,
{
    if n > 0 {
        lemma_push_stack_cursor(c, env, (n - 1) as nat);
    }
}

proof fn lemma_push_locals_same_code(
    a: ContextView,
    b: ContextView,
    env: Value,
    locals: Seq<Local>,
    n: nat,
)
    requires
        a.builder.ready(),
        b.builder.ready(),
        a.builder.position == b.builder.position,
        a.builder.code() == b.builder.code(),
    ensures
        push_locals(a, env, locals, n).builder.code() == push_locals(
            b,
            env,
            locals,
            n,
        ).builder.code(),
    decreases n,
{
    if n > 0 {
        lemma_push_locals_same_code(a, b, env, locals, (n - 1) as nat);
        lemma_push_locals_cursor(a, env, locals, (n - 1) as nat);
        lemma_push_locals_cursor(b, env, locals, (n - 1) as nat);
        let pa = push_locals(a, env, locals, (n - 1) as nat);
        let pb = push_locals(b, env, locals, (n - 1) as nat);
        assert(pa.value_at(0, locals[n - 1].ty.ir()) == pb.value_at(0, locals[n - 1].ty.ir()));
        assert(push_locals(a, env, locals, n).builder.code() =~= push_locals(
            b,
            env,
            locals,
            n,
        ).builder.code());
    }
}

proof fn lemma_push_stack_same_code(a: ContextView, b: ContextView, env: Value, n: nat)
    requires
        a.builder.ready(),
        b.builder.ready(),
        a.builder.code() == b.builder.code(),
        a.stack() == b.stack(),
    ensures
        push_stack(a, env, n).builder.code() == push_stack(b, env, n).builder.code(),
    decreases n,
{
    if n > 0 {
        lemma_push_stack_same_code(a, b, env, (n - 1) as nat);
        lemma_push_stack_cursor(a, env, (n - 1) as nat);
        lemma_push_stack_cursor(b, env, (n - 1) as nat);
        assert(push_stack(a, env, n).builder.code() =~= push_stack(b, env, n).builder.code());
    }
}

/// Two checkpoints at one site save the same frame. The code that saves a
/// frame is fixed by the site (the function and the operator index), the
/// locals and the values on the operand stack: from two states that agree
/// in these, and in the place of the cursor, the same instructions are
/// emitted, so the same calls of the runtime are made with the same
/// arguments, whatever else was translated before.
pub proof fn lemma_checkpoints_at_one_site_agree(
    a: ContextView,
    b: ContextView,
    env: Value,
    locals: Seq<Local>,
)
    requires
        a.builder.ready(),
        b.builder.ready(),
        a.builder.position == b.builder.position,
        a.builder.code() == b.builder.code(),
        a.current_function_idx == b.current_function_idx,
        a.current_op == b.current_op,
        a.stack_frames.len() > 0,
        b.stack_frames.len() > 0,
        a.stack() == b.stack(),
    ensures
        store_stack_post(store_frame_post(a, env, locals), env).builder.code() == store_stack_post(
            store_frame_post(b, env, locals),
            env,
        ).builder.code(),
        block_calls(store_stack_post(store_frame_post(a, env, locals), env)) == block_calls(
            store_stack_post(store_frame_post(b, env, locals), env),
        ),
{
    let frame = InstView::runtime(RuntimeFn::PushFrame, env, seq![]);
    let pc = InstView::runtime(
        RuntimeFn::SetPcToFrame,
        env,
        seq![
            Value::constant(IrType::I32, a.current_function_idx.unwrap() as u64),
            Value::constant(IrType::I32, a.current_op.unwrap() as u64),
        ],
    );
    let a0 = a.emit1(frame).emit1(pc);
    let b0 = b.emit1(frame).emit1(pc);
    assert(a0.builder.code() =~= b0.builder.code());
    lemma_push_locals_same_code(a0, b0, env, locals, locals.len());
    lemma_push_locals_cursor(a0, env, locals, locals.len());
    lemma_push_locals_cursor(b0, env, locals, locals.len());
    let a1 = store_frame_post(a, env, locals);
    let b1 = store_frame_post(b, env, locals);
    assert(a1.stack() == a.stack());
    assert(b1.stack() == b.stack());
    lemma_push_stack_same_code(a1, b1, env, a.stack().len());
}

/// The execution environment is the first argument of every call of a
/// function of the module and of every call of the runtime, and the first
/// argument after the function pointer of an indirect call.
pub proof fn lemma_calls_pass_environment(
    f: FuncRef,
    r: RuntimeFn,
    type_index: u32,
    ty: Option<IrType>,
    fptr: Value,
    env: Value,
    args: Seq<Value>,
)
    ensures
        InstView::call(f, ty, seq![env] + args).operands[0] == env,
        InstView::runtime(r, env, args).operands[0] == env,
        InstView::opn(Opcode::CallIndirect { type_index }, ty, seq![fptr, env] + args).operands[1]
            == env,
{
}

/// The edges of a branch table leave the code and the cursor as they are.
proof fn lemma_table_incoming_keeps_code(
    c: ContextView,
    v: Value,
    cur: usize,
    targets: Seq<u32>,
    n: nat,
)
    requires
        n <= targets.len(),
        forall|i: int|
            0 <= i < targets.len() ==> (c.frame(#[trigger] targets[i]).br_phis() matches Some(p)
                ==> c.builder.has_phi(p)),
    ensures
        table_incoming(c, v, cur, targets, n).builder.position == c.builder.position,
        table_incoming(c, v, cur, targets, n).builder.blocks.len() == c.builder.blocks.len(),
        forall|b: int|
            0 <= b < c.builder.blocks.len() ==> (#[trigger] table_incoming(
                c,
                v,
                cur,
                targets,
                n,
            ).builder.blocks[b]).insts == c.builder.blocks[b].insts,
    decreases n,
{
    if n > 0 {
        lemma_table_incoming_keeps_code(c, v, cur, targets, (n - 1) as nat);
        let p = table_incoming(c, v, cur, targets, (n - 1) as nat);
        match c.frame(targets[n - 1]).br_phis() {
            Some(phi) => {
                assert(c.builder.has_phi(phi));
                let q = p.add_incoming(phi, v, cur);
                assert forall|b: int| 0 <= b < c.builder.blocks.len() implies (
                #[trigger] q.builder.blocks[b]).insts == c.builder.blocks[b].insts by {
                    assert(p.builder.blocks[b].insts == c.builder.blocks[b].insts);
                }
            },
            None => {},
        }
    }
}

/// A branch table with `N` targets becomes a switch with exactly `N` cases
/// and a default: the last instruction of the block is a switch on the
/// index, whose cases are numbered from zero and lead to the destinations
/// of the targets in their order, and whose default leads to the
/// destination of the default target.
pub proof fn lemma_br_table_has_one_case_per_target(c: ContextView, targets: Seq<u32>, default: u32)
    requires
        c.wf(),
        br_table_ok(c, targets, default),
    ensures
        ({
            let switch = br_table_post(c, targets, default).builder.code().last();
            &&& switch == InstView::switch(
                c.top(0),
                c.frame(default).dest(),
                table_constants(targets.len()),
                table_dests(c, targets),
            )
            &&& switch.op == Opcode::Switch
            &&& switch.operands.len() == targets.len() + 1
            &&& switch.targets.len() == targets.len() + 1
            &&& switch.targets[0] == c.frame(default).dest()
            &&& forall|i: int|
                0 <= i < targets.len() ==> switch.operands[i + 1] == Value::constant(
                    IrType::I32,
                    i as u64,
                ) && switch.targets[i + 1] == c.frame(targets[i]).dest()
        }),
{
    let all = targets.push(default);
    let cur = c.builder.position.unwrap();
    let c1 = table_incoming(c.drop(1), c.top(1), cur, all, all.len());
    assert forall|i: int| 0 <= i < all.len() implies (c.drop(1).frame(
        #[trigger] all[i],
    ).br_phis() matches Some(p) ==> c.drop(1).builder.has_phi(p)) by {
        if i < targets.len() {
            assert(targets[i] < c.control_frames.len());
        }
        let f = c.control_frames[c.control_frames.len() - 1 - all[i]];
        assert(f.valid_in(c.builder));
    }
    lemma_table_incoming_keeps_code(c.drop(1), c.top(1), cur, all, all.len());
    let switch = InstView::switch(
        c.top(0),
        c.frame(default).dest(),
        table_constants(targets.len()),
        table_dests(c, targets),
    );
    assert(c1.builder.ready());
    assert(c1.emit1(switch).builder.code() =~= c1.builder.code() + seq![switch]);
}

/// At the end of a block, a loop or an `if`, the operand stack is as deep
/// as at the entry of the construct, plus the number of values that the
/// construct yields.
pub proof fn lemma_end_restores_depth(c: ContextView)
    requires
        c.wf(),
        end_ok(c),
        c.control_frames.len() > 1,
    ensures
        end_post(c).stack().len() == c.control_frames.last().stack_size()
            + c.control_frames.last().arity(),
{
    let f = c.control_frames.last();
    assert(f.stack_size() <= c.stack().len());
}

/// The frame of a block records the depth of the operand stack at the
/// `block`, and that of an `if` the depth without the condition; either
/// yields as many values as its type declares.
pub proof fn lemma_frames_record_depth(c: ContextView, t: Option<NumType>)
    requires
        c.stack_frames.len() > 0,
        c.current_fn.is_some(),
        c.builder.ready(),
        c.stack().len() <= usize::MAX,
    ensures
        block_post(c, t).control_frames.last().stack_size() == c.stack().len(),
        block_post(c, t).control_frames.last().arity() == (if t.is_some() {
            1nat
        } else {
            0nat
        }),
        block_post(c, t).stack() == c.stack(),
        c.stack().len() >= 1 ==> if_post(c, t).control_frames.last().stack_size() == c.stack().len()
            - 1 && if_post(c, t).control_frames.last().arity() == (if t.is_some() {
            1nat
        } else {
            0nat
        }) && if_post(c, t).stack() == c.stack().drop_last(),
{
    if c.stack().len() >= 1 {
        assert(if_post(c, t).stack() =~= c.stack().drop_last());
    }
}

/// The frame of a loop records the depth of the operand stack at the
/// `loop` and yields as many values as its type declares, whether the head
/// of the loop is a migration point or not.
pub proof fn lemma_loop_records_depth(
    c: ContextView,
    env: Value,
    locals: Seq<Local>,
    t: Option<NumType>,
)
    requires
        c.stack_frames.len() > 0,
        c.current_fn.is_some(),
        c.current_op.is_some(),
        c.builder.ready(),
        c.stack().len() <= usize::MAX,
    ensures
        loop_post(c, env, locals, t).control_frames.len() == c.control_frames.len() + 1,
        loop_post(c, env, locals, t).control_frames.last().stack_size() == c.stack().len(),
        loop_post(c, env, locals, t).control_frames.last().arity() == (if t.is_some() {
            1nat
        } else {
            0nat
        }),
        loop_post(c, env, locals, t).control_frames.last() is Loop,
{
    let body = c.next_block();
    let next = (c.builder.blocks.len() + 1) as usize;
    let c1 = c.append_block(crate::ir::Label::LoopBody).append_block(crate::ir::Label::LoopNext);
    let c2 = with_end_phi(c1, next, t).push_frame(
        ControlFrame::Loop {
            loop_body: body,
            loop_next: next,
            body_phis: None,
            end_phis: end_phi_in(c1, next, t),
            stack_size: c.stack().len() as usize,
        },
    ).emit1(InstView::br(body)).position_at(body);
    if c.checkpoints() && !c.config.disable_loop_cr && within_cap(c2, locals) {
        lemma_site_is_counted_once(c2, env, locals, None);
        assert(outside(site_post(c2, env, locals, None)).control_frames == c2.control_frames);
    }
}

/// A site whose frame is larger than the limit is passed over: nothing is
/// emitted for it.
pub proof fn lemma_site_over_limit_is_skipped(c: ContextView, env: Value, locals: Seq<Local>)
    requires
        !within_cap(c, locals),
    ensures
        migration_point_post(c, env, locals) == c,
{
}

/// A call whose frame is larger than the limit is no site: it is
/// translated as it is without instrumentation. No block is added, no
/// migration point counted and no case registered; the block at the cursor
/// gets the call and nothing else.
pub proof fn lemma_call_over_limit_is_no_site(
    c: ContextView,
    env: Value,
    locals: Seq<Local>,
    callee: u32,
)
    requires
        c.builder.ready(),
        c.stack_frames.len() > 0,
        !within_cap(c, locals),
    ensures
        ({
            let d = call_post(c, env, locals, callee);
            let sig = c.signatures[callee_type(c, callee)];
            &&& d.builder.blocks.len() == c.builder.blocks.len()
            &&& d.builder.position == c.builder.position
            &&& d.num_migration_points == c.num_migration_points
            &&& d.restore_dispatch_cases == c.restore_dispatch_cases
            &&& d.builder.code() == c.builder.code().push(
                InstView::call(
                    FuncRef::Wasm(callee),
                    result_ir(sig.result),
                    seq![env] + c.stack().subrange(
                        c.stack().len() - sig.params.len(),
                        c.stack().len() as int,
                    ),
                ),
            )
        }),
{
    let d = call_post(c, env, locals, callee);
    let sig = c.signatures[callee_type(c, callee)];
    let call = InstView::call(
        FuncRef::Wasm(callee),
        result_ir(sig.result),
        seq![env] + c.stack().subrange(c.stack().len() - sig.params.len(), c.stack().len() as int),
    );
    assert(d.builder.code() =~= c.builder.code().push(call));
}

/// What a state holds besides the emitted code and the operand stacks.
pub open spec fn outside(c: ContextView) -> ContextView {
    ContextView { builder: ContextView::fresh(c.config).builder, stack_frames: seq![], ..c }
}

proof fn lemma_push_locals_outside(c: ContextView, env: Value, locals: Seq<Local>, n: nat)
    ensures
        outside(push_locals(c, env, locals, n)) == outside(c),
    decreases n,
{
    if n > 0 {
        lemma_push_locals_outside(c, env, locals, (n - 1) as nat);
    }
}

proof fn lemma_push_stack_outside(c: ContextView, env: Value, n: nat)
    ensures
        outside(push_stack(c, env, n)) == outside(c),
    decreases n,
{
    if n > 0 {
        lemma_push_stack_outside(c, env, (n - 1) as nat);
    }
}

proof fn lemma_pop_locals_outside(c: ContextView, env: Value, locals: Seq<Local>, n: nat)
    ensures
        outside(pop_locals(c, env, locals, n)) == outside(c),
    decreases n,
{
    if n > 0 {
        lemma_pop_locals_outside(c, env, locals, (n - 1) as nat);
    }
}

proof fn lemma_pop_stack_outside(c: ContextView, env: Value, n: nat)
    ensures
        outside(pop_stack(c, env, n)) == outside(c),
    decreases n,
{
    if n > 0 {
        lemma_pop_stack_outside(c, env, (n - 1) as nat);
    }
}

proof fn lemma_pop_args_outside(c: ContextView, env: Value, args: Seq<NumType>, n: nat)
    ensures
        outside(pop_args(c, env, args, n)) == outside(c),
    decreases n,
{
    if n > 0 {
        lemma_pop_args_outside(c, env, args, (n - 1) as nat);
    }
}

proof fn lemma_arg_phis_outside(
    c: ContextView,
    b: usize,
    from: usize,
    other: usize,
    restored: Seq<Value>,
    n: nat,
)
    ensures
        outside(arg_phis(c, b, from, other, restored, n)) == outside(c),
    decreases n,
{
    if n > 0 {
        lemma_arg_phis_outside(c, b, from, other, restored, (n - 1) as nat);
    }
}

proof fn lemma_merge_stack_outside(
    c: ContextView,
    phi_bb: usize,
    direct_bb: usize,
    last_bb: usize,
    restored: Seq<Value>,
    n: nat,
)
    ensures
        outside(merge_stack(c, phi_bb, direct_bb, last_bb, restored, n)) == outside(c),
    decreases n,
{
    if n > 0 {
        lemma_merge_stack_outside(c, phi_bb, direct_bb, last_bb, restored, (n - 1) as nat);
    }
}

proof fn lemma_checkpoint_test_outside(c: ContextView, env: Value, locals: Seq<Local>)
    ensures
        outside(checkpoint_test_post(c, env, locals)) == outside(c),
{
    let op = c.current_op.unwrap();
    let then_bb = c.next_block();
    let c1 = compare_post(
        c.append_block(crate::ir::Label::CheckpointStart(op)).append_block(
            crate::ir::Label::CheckpointElse(op),
        ),
        env,
        crate::compile::cr::state::MIGRATION_STATE_CHECKPOINT_START,
    );
    let c2 = c1.emit1(
        InstView::cond_br(
            c.value_at(2, IrType::I1),
            then_bb,
            (c.builder.blocks.len() + 1) as usize,
        ),
    ).position_at(then_bb);
    assert(outside(c2) == outside(c));
    if c2.config.checkpoint_v2 {
        assert(outside(checkpoint_start_post(c2, env, locals)) == outside(c2));
    } else {
        let f0 = c2.emit1(InstView::runtime(RuntimeFn::PushFrame, env, seq![])).emit1(
            InstView::runtime(
                RuntimeFn::SetPcToFrame,
                env,
                seq![
                    Value::constant(IrType::I32, c2.current_function_idx.unwrap() as u64),
                    Value::constant(IrType::I32, c2.current_op.unwrap() as u64),
                ],
            ),
        );
        lemma_push_locals_outside(f0, env, locals, locals.len());
        let f1 = store_frame_post(c2, env, locals);
        lemma_push_stack_outside(f1, env, f1.stack().len());
        assert(outside(store_stack_post(f1, env)) == outside(c2));
        assert(outside(checkpoint_start_post(c2, env, locals)) == outside(c2));
    }
}

proof fn lemma_restore_point_outside(
    c: ContextView,
    env: Value,
    locals: Seq<Local>,
    args: Option<Seq<NumType>>,
    phi_bb: usize,
    direct_bb: usize,
)
    ensures
        outside(restore_point_post(c, env, locals, args, phi_bb, direct_bb)) == outside(
            c.add_case(c.current_op.unwrap(), c.next_block()),
        ),
{
    let op = c.current_op.unwrap();
    let start_bb = c.next_block();
    let c0 = c.append_block(crate::ir::Label::RestoreStart(op)).add_case(op, c.next_block());
    assert(outside(c0) == outside(c.add_case(op, c.next_block())));
    let nargs = match args {
        Some(a) => a.len(),
        None => 0,
    };
    let keep = (c0.stack().len() - nargs) as nat;
    let c1 = pop_locals(c0.position_at(start_bb), env, locals, locals.len());
    lemma_pop_locals_outside(c0.position_at(start_bb), env, locals, locals.len());
    lemma_pop_stack_outside(c1, env, keep);
    let c2 = pop_stack(c1, env, keep).emit1(
        InstView::runtime(RuntimeFn::PopFrontFrame, env, seq![]),
    );
    assert(outside(c2) == outside(c0));
    match args {
        Some(a) => {
            let args_bb = c2.next_block();
            let args_end_bb = (c2.builder.blocks.len() + 1) as usize;
            let d1 = c2.emit1(InstView::runtime(RuntimeFn::FrameIsEmpty, env, seq![])).append_block(
                crate::ir::Label::RestoreArgs(op),
            ).append_block(crate::ir::Label::RestoreArgsEnd(op)).emit1(
                InstView::cond_br(c2.value_at(0, IrType::I1), args_bb, args_end_bb),
            ).position_at(args_bb);
            lemma_pop_args_outside(d1, env, a, a.len());
            let d2 = pop_args(d1, env, a, a.len()).emit1(InstView::br(args_end_bb)).position_at(
                args_end_bb,
            );
            lemma_arg_phis_outside(
                d2,
                args_end_bb,
                args_bb,
                start_bb,
                crate::compile::cr::restore::popped_args(d1, a),
                a.len(),
            );
            let d3 = restore_args_post(c2, env, a, start_bb);
            assert(outside(d3) == outside(c0));
            lemma_merge_stack_outside(
                d3.emit1(InstView::br(phi_bb)).position_at(phi_bb),
                phi_bb,
                direct_bb,
                (c2.builder.blocks.len() + 1) as usize,
                crate::compile::cr::restore::popped_stack(c1, keep)
                    + crate::compile::cr::restore::restored_args(c2, a),
                c0.stack().len(),
            );
        },
        None => {
            lemma_merge_stack_outside(
                c2.emit1(InstView::br(phi_bb)).position_at(phi_bb),
                phi_bb,
                direct_bb,
                start_bb,
                crate::compile::cr::restore::popped_stack(c1, keep),
                c0.stack().len(),
            );
        },
    }
}

/// A site is counted once, and where the program can be restored it gets
/// one case in the dispatch of its function: under the operator index of
/// the site. Nothing else of the state changes but the emitted code and
/// the values on the operand stack.
pub proof fn lemma_site_is_counted_once(
    c: ContextView,
    env: Value,
    locals: Seq<Local>,
    args: Option<Seq<NumType>>,
)
    requires
        c.current_op.is_some(),
    ensures
        ({
            let d = site_post(c, env, locals, args);
            &&& d.num_migration_points == c.counted().num_migration_points
            &&& c.restores() ==> d.restore_dispatch_cases.len() == c.restore_dispatch_cases.len()
                + 1 && d.restore_dispatch_cases.last().op_index == c.current_op.unwrap()
                && d.restore_dispatch_cases.drop_last() == c.restore_dispatch_cases
            &&& !c.restores() ==> d.restore_dispatch_cases == c.restore_dispatch_cases
            &&& outside(d) == (ContextView {
                restore_dispatch_cases: d.restore_dispatch_cases,
                num_migration_points: d.num_migration_points,
                ..outside(c)
            })
        }),
{
    reveal(site_post);
    let op = c.current_op.unwrap();
    let c1 = checkpoint_test_post(c, env, locals);
    lemma_checkpoint_test_outside(c, env, locals);
    if c.restores() {
        let phi_bb = c1.next_block();
        let c2 = c1.append_block(crate::ir::Label::RestoreEnd(op)).emit1(InstView::br(phi_bb));
        assert(outside(c2) == outside(c));
        lemma_restore_point_outside(c2, env, locals, args, phi_bb, c1.builder.position.unwrap());
        let d = site_post(c, env, locals, args);
        assert(d.restore_dispatch_cases == c.restore_dispatch_cases.push(
            DispatchCase { op_index: op, block: c2.next_block() },
        ));
        assert(d.restore_dispatch_cases.drop_last() =~= c.restore_dispatch_cases);
    }
}

/// An operator that can make a site: a call or a loop.
pub open spec fn makes_site(op: Operator) -> bool {
    op is Call || op is CallIndirect || op is Loop
}

/// The sites that a state has counted and registered.
pub open spec fn sites(c: ContextView) -> (u32, Seq<DispatchCase>) {
    (c.num_migration_points, c.restore_dispatch_cases)
}

proof fn lemma_block_op_without_site(c: ContextView, op: Operator, env: Value, locals: Seq<Local>)
    requires
        !makes_site(op),
    ensures
        block_op_result(c, op, env, locals) matches Ok(d) ==> sites(d) == sites(c),
{
}

proof fn lemma_branch_op_without_site(c: ContextView, op: Operator)
    ensures
        branch_op_result(c, op) matches Ok(d) ==> sites(d) == sites(c),
{
    match op {
        Operator::BrTable { targets, default } => {
            if branch_op_result(c, op) is Ok {
                let all = targets@.push(default);
                let c1 = c.drop(1);
                lemma_table_incoming_keeps_sites(
                    c1,
                    c.top(1),
                    c.builder.position.unwrap(),
                    all,
                    all.len(),
                );
            }
        },
        _ => {},
    }
}

proof fn lemma_table_incoming_keeps_sites(
    c: ContextView,
    v: Value,
    cur: usize,
    targets: Seq<u32>,
    n: nat,
)
    requires
        n <= targets.len(),
    ensures
        outside(table_incoming(c, v, cur, targets, n)) == outside(c),
    decreases n,
{
    if n > 0 {
        lemma_table_incoming_keeps_sites(c, v, cur, targets, (n - 1) as nat);
    }
}

proof fn lemma_plain_op_without_site(c: ContextView, op: Operator, env: Value, locals: Seq<Local>)
    ensures
        stack_op_result(c, op) matches Ok(d) ==> sites(d) == sites(c),
        const_op_result(c, op) matches Ok(d) ==> sites(d) == sites(c),
        variable_op_result(c, op, locals) matches Ok(d) ==> sites(d) == sites(c),
        memory_op_result(c, op, env) matches Ok(d) ==> sites(d) == sites(c),
{
}

proof fn lemma_numeric_op_without_site(c: ContextView, op: Operator)
    ensures
        numeric_op_result(c, op) matches Ok(d) ==> sites(d) == sites(c),
{
}

/// An operator that is neither a call nor a loop makes no site: it leaves
/// the count of the migration points and the cases of the dispatch as they
/// are.
pub proof fn lemma_op_without_site(c: ContextView, op: Operator, env: Value, locals: Seq<Local>)
    requires
        !makes_site(op),
    ensures
        op_result(c, op, env, locals) matches Ok(d) ==> sites(d) == sites(c),
{
    reveal(op_result);
    if c.control_frames.len() != 0 {
        if c.unreachable_depth != 0 {
            lemma_dead_op_without_site(c, op);
        } else {
            lemma_live_op_without_site(c, op, env, locals);
        }
    }
}

proof fn lemma_dead_op_without_site(c: ContextView, op: Operator)
    ensures
        dead_result(c, op) matches Ok(d) ==> sites(d) == sites(c),
{
}

proof fn lemma_live_op_without_site(c: ContextView, op: Operator, env: Value, locals: Seq<Local>)
    requires
        !makes_site(op),
    ensures
        live_result(c, op, env, locals) matches Ok(d) ==> sites(d) == sites(c),
{
    lemma_block_op_without_site(c, op, env, locals);
    lemma_branch_op_without_site(c, op);
    lemma_plain_op_without_site(c, op, env, locals);
    lemma_numeric_op_without_site(c, op);
}

/// Operators of which none is a call or a loop make no site.
pub proof fn lemma_ops_without_sites(
    c: ContextView,
    ops: Seq<Operator>,
    env: Value,
    locals: Seq<Local>,
    n: nat,
)
    requires
        n <= ops.len(),
        forall|i: int| 0 <= i < n ==> !makes_site(#[trigger] ops[i]),
    ensures
        ops_result(c, ops, env, locals, n) matches Ok(d) ==> sites(d) == sites(c),
    decreases n,
{
    if n > 0 {
        lemma_ops_without_sites(c, ops, env, locals, (n - 1) as nat);
        match ops_result(c, ops, env, locals, (n - 1) as nat) {
            Ok(p) => {
                if n - 1 <= u32::MAX {
                    lemma_op_without_site(p.with_op((n - 1) as u32), ops[n - 1], env, locals);
                }
            },
            Err(_) => {},
        }
    }
}

proof fn lemma_alloc_locals_outside(c: ContextView, tys: Seq<NumType>, nparams: nat, n: nat)
    ensures
        outside(alloc_locals(c, tys, nparams, n)) == outside(c),
    decreases n,
{
    if n > 0 {
        lemma_alloc_locals_outside(c, tys, nparams, (n - 1) as nat);
    }
}

proof fn lemma_alloc_locals_stack(c: ContextView, tys: Seq<NumType>, nparams: nat, n: nat)
    ensures
        alloc_locals(c, tys, nparams, n).stack_frames == c.stack_frames,
    decreases n,
{
    if n > 0 {
        lemma_alloc_locals_stack(c, tys, nparams, (n - 1) as nat);
    }
}

/// The number of locals of the function that is translated next: its
/// parameters and the locals that its body declares.
pub open spec fn locals_of(c: ContextView, f: FunctionBody) -> nat {
    match group_types(f.locals@, f.locals@.len()) {
        Ok(declared) => function_params(c).len() + declared.len(),
        Err(_) => 0,
    }
}

/// A function without calls and loops is instrumented at its entry only.
/// Its translation counts at most one migration point, and none where the
/// program is not instrumented; the dispatch of the function has at most
/// one case, and that case is the entry of the function. Where the program
/// is instrumented, the locals are not too many to be saved and the count
/// is not full, exactly one migration point is counted, and where the
/// program can be restored the dispatch has exactly one case.
pub proof fn lemma_function_without_sites(c: ContextView, f: FunctionBody)
    requires
        forall|i: int| 0 <= i < f.operators@.len() ==> !makes_site(#[trigger] f.operators@[i]),
    ensures
        function_result(c, f) matches Ok(d) ==> {
            &&& c.num_migration_points <= d.num_migration_points <= c.num_migration_points + 1
            &&& !c.checkpoints() ==> d.num_migration_points == c.num_migration_points
            &&& d.restore_dispatch_cases.len() <= 1
            &&& forall|k: int|
                0 <= k < d.restore_dispatch_cases.len() ==> (
                #[trigger] d.restore_dispatch_cases[k]).op_index == FUNCTION_ENTRY_OP
            &&& c.checkpoints() && locals_of(c, f) <= MAX_LOCALS_STORE && c.num_migration_points
                < u32::MAX ==> {
                &&& d.num_migration_points == c.num_migration_points + 1
                &&& c.restores() ==> d.restore_dispatch_cases.len() == 1
            }
        },
{
    reveal(function_result);
    match group_types(f.locals@, f.locals@.len()) {
        Err(_) => {},
        Ok(declared) => {
            let tys = function_params(c) + declared;
            let c1 = function_start(c);
            assert(sites(c1) == (c.num_migration_points, Seq::<DispatchCase>::empty()));
            let locals = local_slots(c1, tys);
            let c2 = alloc_locals(c1, tys, function_params(c).len(), tys.len());
            lemma_alloc_locals_outside(c1, tys, function_params(c).len(), tys.len());
            assert(sites(c2) == sites(c1));
            assert(c2.config == c.config);
            let c3 = if c.restores() {
                restore_dispatch_post(c2, exec_env())
            } else {
                c2
            };
            assert(sites(c3) == sites(c1));
            let c4 = prologue(c, tys);
            lemma_alloc_locals_stack(c1, tys, function_params(c).len(), tys.len());
            assert(c1.stack() =~= Seq::<Value>::empty());
            assert(c3.stack() == c1.stack());
            if c.checkpoints() {
                let at = c3.with_op(FUNCTION_ENTRY_OP);
                assert(at.stack() == c3.stack());
                if within_cap(at, locals) {
                    lemma_site_is_counted_once(at, exec_env(), locals, None);
                }
                if locals_of(c, f) <= MAX_LOCALS_STORE {
                    assert(within_cap(at, locals));
                }
            }
            assert(c.num_migration_points <= c4.num_migration_points <= c.num_migration_points + 1);
            assert(c.checkpoints() && locals_of(c, f) <= MAX_LOCALS_STORE && c.num_migration_points
                < u32::MAX ==> c4.num_migration_points == c.num_migration_points + 1 && (
            c.restores() ==> c4.restore_dispatch_cases.len() == 1));
            assert(c4.restore_dispatch_cases.len() <= 1);
            assert(forall|k: int|
                0 <= k < c4.restore_dispatch_cases.len() ==> (
                #[trigger] c4.restore_dispatch_cases[k]).op_index == FUNCTION_ENTRY_OP);
            lemma_ops_without_sites(c4, f.operators@, exec_env(), locals, f.operators@.len());
        },
    }
}

} // verus!
