//! The restore side of the instrumentation: the dispatch at a function's
//! entry and the blocks that take a saved frame back from the runtime.

use vstd::prelude::*;

use crate::compile::cr::site::{site_within_cap, within_cap};
use crate::compile::cr::state::{
    compare_post, gen_compare_migration_state, MIGRATION_STATE_RESTORE,
};
use crate::context::{
    emitted, lemma_with_stack_same, site_frame, Context, ContextView, DispatchCase, Global, Local,
};
use crate::error::{Backend, CompileError};
use crate::ir::{Inst, InstView, IrType, Label, NumType, Opcode, RuntimeFn, Value, ValueKind};

verus! {

/// The test at a function's entry: where the migration state says that the
/// program is being restored, control goes to the dispatch block, which is
/// filled when the function is done; otherwise to the block in which the
/// translation of the body goes on.
pub open spec fn restore_dispatch_post(c: ContextView, env: Value) -> ContextView {
    let dispatch_bb = c.next_block();
    let main_bb = (c.builder.blocks.len() + 1) as usize;
    let c1 = compare_post(
        c.append_block(Label::RestoreDispatch).append_block(Label::Main),
        env,
        MIGRATION_STATE_RESTORE,
    );
    let c2 = c1.emit1(InstView::cond_br(c.value_at(2, IrType::I1), dispatch_bb, main_bb)).position_at(
        main_bb,
    );
    ContextView { restore_dispatch_bb: Some(dispatch_bb), ..c2 }
}

/// Emits the test for a restore at the entry of the function being translated.
pub fn gen_restore_dispatch(ctx: &mut Context, exec_env_ptr: &Value)
    requires
        old(ctx)@.wf(),
    ensures
        final(ctx)@ == restore_dispatch_post(old(ctx)@, *exec_env_ptr),
        final(ctx)@.wf(),
{
    let dispatch_bb = ctx.append_basic_block(Label::RestoreDispatch);
    let norestore_bb = ctx.append_basic_block(Label::Main);
    let cond = gen_compare_migration_state(ctx, exec_env_ptr, MIGRATION_STATE_RESTORE);
    ctx.emit(Inst::cond_br(cond, dispatch_bb, norestore_bb));
    ctx.position_at_end(norestore_bb);
    ctx.restore_dispatch_bb = Some(dispatch_bb);
}

/// The constants of the cases of a dispatch: the operator indices.
pub open spec fn case_constants(cases: Seq<DispatchCase>) -> Seq<Value> {
    cases.map_values(|c: DispatchCase| Value::constant(IrType::I32, c.op_index as u64))
}

/// The destinations of the cases of a dispatch.
pub open spec fn case_blocks(cases: Seq<DispatchCase>) -> Seq<usize> {
    cases.map_values(|c: DispatchCase| c.block)
}

/// The dispatch of a function: the saved operator index is asked of the
/// runtime and a switch goes to the block of the site with that index. An
/// index of no site goes to a block that must not be reached.
pub open spec fn finalize_dispatch_post(c: ContextView, env: Value) -> ContextView {
    let unreachable_bb = c.next_block();
    let c1 = c.append_block(Label::DispatchUnreachable).position_at(unreachable_bb).emit1(
        InstView::unreachable(),
    ).position_at(c.restore_dispatch_bb.unwrap());
    c1.emit1(InstView::runtime(RuntimeFn::GetPcFromFrame, env, seq![])).emit1(
        InstView::switch(
            c1.value_at(0, IrType::I32),
            unreachable_bb,
            case_constants(c.restore_dispatch_cases),
            case_blocks(c.restore_dispatch_cases),
        ),
    )
}

/// Emits the dispatch over the sites that the function's translation has
/// registered.
pub fn gen_finalize_restore_dispatch(ctx: &mut Context, exec_env_ptr: &Value)
    requires
        old(ctx)@.wf(),
        old(ctx)@.restore_dispatch_bb.is_some(),
    ensures
        final(ctx)@ == finalize_dispatch_post(old(ctx)@, *exec_env_ptr),
        final(ctx)@.wf(),
{
    let unreachable_bb = ctx.append_basic_block(Label::DispatchUnreachable);
    ctx.position_at_end(unreachable_bb);
    ctx.emit(Inst::unreachable());
    ctx.position_at_end(ctx.restore_dispatch_bb.unwrap());
    let op_index = ctx.build(Inst::runtime0(RuntimeFn::GetPcFromFrame, *exec_env_ptr));
    let mut constants: Vec<Value> = Vec::new();
    let mut dests: Vec<usize> = Vec::new();
    let n = ctx.restore_dispatch_cases.len();
    let mut i: usize = 0;
    while i < n
        invariant
            i <= n,
            n == ctx@.restore_dispatch_cases.len(),
            constants@ == case_constants(ctx@.restore_dispatch_cases.take(i as int)),
            dests@ == case_blocks(ctx@.restore_dispatch_cases.take(i as int)),
        decreases n - i,
    {
        let c = ctx.restore_dispatch_cases[i];
        constants.push(Value::const_int(IrType::I32, c.op_index as u64));
        dests.push(c.block);
        proof {
            let cases = ctx@.restore_dispatch_cases;
            assert(cases.take(i + 1) =~= cases.take(i as int).push(c));
            assert(constants@ =~= case_constants(cases.take(i + 1)));
            assert(dests@ =~= case_blocks(cases.take(i + 1)));
        }
        i += 1;
    }
    proof {
        let cases = ctx@.restore_dispatch_cases;
        assert(cases.take(n as int) =~= cases);
    }
    ctx.emit(Inst::switch(op_index, unreachable_bb, constants, dests));
}

/// Emits the call that takes a value of the operand stack back from the
/// runtime. The function of the runtime is chosen by the type.
pub fn gen_restore_stack_value(ctx: &mut Context, exec_env_ptr: &Value, ty: IrType) -> (r: Result<
    Value,
    CompileError,
>)
    requires
        old(ctx)@.wf(),
    ensures
        match ty.num() {
            Some(t) => r == Ok::<Value, CompileError>(old(ctx)@.value_at(0, ty)) && final(ctx)@
                == old(ctx)@.emit1(InstView::runtime(RuntimeFn::Pop(t), *exec_env_ptr, seq![])),
            None => r == Err::<Value, CompileError>(
                CompileError::BackendError(Backend::UnsupportedType),
            ) && final(ctx)@ == old(ctx)@,
        },
        final(ctx)@.wf(),
        emitted(old(ctx)@, final(ctx)@),
{
    match ty.to_num() {
        Some(t) => Ok(ctx.build(Inst::runtime0(RuntimeFn::Pop(t), *exec_env_ptr))),
        None => Err(CompileError::BackendError(Backend::UnsupportedType)),
    }
}

/// Emits the call that takes the value of a local variable back from the
/// runtime.
pub fn gen_restore_local(ctx: &mut Context, exec_env_ptr: &Value, ty: IrType) -> (r: Result<
    Value,
    CompileError,
>)
    requires
        old(ctx)@.wf(),
    ensures
        match ty.num() {
            Some(t) => r == Ok::<Value, CompileError>(old(ctx)@.value_at(0, ty)) && final(ctx)@
                == old(ctx)@.emit1(
                InstView::runtime(RuntimeFn::PopFrontLocal(t), *exec_env_ptr, seq![]),
            ),
            None => r == Err::<Value, CompileError>(
                CompileError::BackendError(Backend::UnsupportedType),
            ) && final(ctx)@ == old(ctx)@,
        },
        final(ctx)@.wf(),
        emitted(old(ctx)@, final(ctx)@),
{
    match ty.to_num() {
        Some(t) => Ok(ctx.build(Inst::runtime0(RuntimeFn::PopFrontLocal(t), *exec_env_ptr))),
        None => Err(CompileError::BackendError(Backend::UnsupportedType)),
    }
}

/// Emits the call that takes the value of a global back from the runtime.
pub fn gen_restore_global(ctx: &mut Context, exec_env_ptr: &Value, ty: IrType) -> (r: Result<
    Value,
    CompileError,
>)
    requires
        old(ctx)@.wf(),
    ensures
        match ty.num() {
            Some(t) => r == Ok::<Value, CompileError>(old(ctx)@.value_at(0, ty)) && final(ctx)@
                == old(ctx)@.emit1(
                InstView::runtime(RuntimeFn::PopFrontGlobal(t), *exec_env_ptr, seq![]),
            ),
            None => r == Err::<Value, CompileError>(
                CompileError::BackendError(Backend::UnsupportedType),
            ) && final(ctx)@ == old(ctx)@,
        },
        final(ctx)@.wf(),
        emitted(old(ctx)@, final(ctx)@),
{
    match ty.to_num() {
        Some(t) => Ok(ctx.build(Inst::runtime0(RuntimeFn::PopFrontGlobal(t), *exec_env_ptr))),
        None => Err(CompileError::BackendError(Backend::UnsupportedType)),
    }
}

/// The code that restores the first `n` locals, in order: each is taken
/// back from the runtime and stored in its slot.
pub open spec fn pop_locals(c: ContextView, env: Value, locals: Seq<Local>, n: nat) -> ContextView
    decreases n,
{
    if n == 0 {
        c
    } else {
        let p = pop_locals(c, env, locals, (n - 1) as nat);
        let l = locals[n - 1];
        p.emit1(InstView::runtime(RuntimeFn::PopFrontLocal(l.ty), env, seq![])).emit1(
            InstView::store(l.ptr, p.value_at(0, l.ty.ir())),
        )
    }
}

/// Emits the code that restores the locals.
pub fn gen_restore_locals(ctx: &mut Context, exec_env_ptr: &Value, locals: &Vec<Local>)
    requires
        old(ctx)@.wf(),
    ensures
        final(ctx)@ == pop_locals(old(ctx)@, *exec_env_ptr, locals@, locals@.len()),
        emitted(old(ctx)@, final(ctx)@),
        final(ctx)@.wf(),
{
    let ghost c0 = ctx@;
    let n = locals.len();
    let mut i: usize = 0;
    while i < n
        invariant
            i <= n,
            n == locals@.len(),
            ctx@ == pop_locals(c0, *exec_env_ptr, locals@, i as nat),
            emitted(c0, ctx@),
            ctx@.wf(),
        decreases n - i,
    {
        let l = locals[i];
        let r = gen_restore_local(ctx, exec_env_ptr, l.ty.to_ir());
        let v = r.unwrap();
        ctx.emit(Inst::store(l.ptr, v));
        i += 1;
    }
}

/// The code that takes back `n` values, whose types are those of the `n`
/// lowest values of the operand stack, the lowest first.
pub open spec fn pop_stack(c: ContextView, env: Value, n: nat) -> ContextView
    decreases n,
{
    if n == 0 {
        c
    } else {
        pop_stack(c, env, (n - 1) as nat).emit1(
            InstView::runtime(RuntimeFn::Pop(c.stack()[n - 1].ty.num().unwrap()), env, seq![]),
        )
    }
}

/// The values that `pop_stack` defines: one per instruction, in order.
pub open spec fn popped_stack(c: ContextView, n: nat) -> Seq<Value> {
    Seq::new(n, |i: int| c.value_at(i, c.stack()[i].ty))
}

/// Emits the code that takes the `keep` lowest values of the operand stack
/// back from the runtime, and returns the values that it defines.
pub fn gen_restore_stack_values(ctx: &mut Context, exec_env_ptr: &Value, keep: usize) -> (restored:
    Vec<Value>)
    requires
        old(ctx)@.wf(),
        keep <= old(ctx)@.stack().len(),
    ensures
        final(ctx)@ == pop_stack(old(ctx)@, *exec_env_ptr, keep as nat),
        restored@ == popped_stack(old(ctx)@, keep as nat),
        emitted(old(ctx)@, final(ctx)@),
        final(ctx)@.wf(),
{
    let ghost c0 = ctx@;
    let mut restored: Vec<Value> = Vec::new();
    let mut i: usize = 0;
    while i < keep
        invariant
            i <= keep,
            keep <= c0.stack().len(),
            c0.wf(),
            ctx@ == pop_stack(c0, *exec_env_ptr, i as nat),
            ctx@.builder.code().len() == c0.builder.code().len() + i,
            restored@ == popped_stack(c0, i as nat),
            emitted(c0, ctx@),
            ctx@.wf(),
        decreases keep - i,
    {
        let ty = ctx.stack_value(i).ty;
        assert(ty.num().is_some());
        let r = gen_restore_stack_value(ctx, exec_env_ptr, ty);
        restored.push(r.unwrap());
        proof {
            assert(restored@ =~= popped_stack(c0, (i + 1) as nat));
        }
        i += 1;
    }
    restored
}

/// The code that takes back the arguments of a call: the first `n` of
/// `args`, in order.
pub open spec fn pop_args(c: ContextView, env: Value, args: Seq<NumType>, n: nat) -> ContextView
    decreases n,
{
    if n == 0 {
        c
    } else {
        pop_args(c, env, args, (n - 1) as nat).emit1(
            InstView::runtime(RuntimeFn::Pop(args[n - 1]), env, seq![]),
        )
    }
}

/// The values that `pop_args` defines: one per instruction, in order.
pub open spec fn popped_args(c: ContextView, args: Seq<NumType>) -> Seq<Value> {
    Seq::new(args.len(), |i: int| c.value_at(i, args[i].ir()))
}

/// The phi nodes that stand for the arguments of a call after a restore:
/// one per argument in block `b`, with the restored argument on the edge
/// from `from` and zero on the edge from `other`.
pub open spec fn arg_phis(
    c: ContextView,
    b: usize,
    from: usize,
    other: usize,
    restored: Seq<Value>,
    n: nat,
) -> ContextView
    decreases n,
{
    if n == 0 {
        c
    } else {
        let p = arg_phis(c, b, from, other, restored, (n - 1) as nat);
        let v = restored[n - 1];
        let phi = p.builder.next_phi(b, v.ty);
        p.add_phi(b, v.ty).add_incoming(phi, v, from).add_incoming(phi, Value::zero(v.ty), other)
    }
}

/// The part of a restore that only a call site has: where the frame that
/// was taken back was the last one, the call had not been made yet, and its
/// arguments are taken back too. Otherwise the callee restores itself and
/// the arguments are zero.
pub open spec fn restore_args_post(c: ContextView, env: Value, args: Seq<NumType>, start_bb: usize) -> ContextView {
    let op = c.current_op.unwrap();
    let args_bb = c.next_block();
    let args_end_bb = (c.builder.blocks.len() + 1) as usize;
    let c1 = c.emit1(InstView::runtime(RuntimeFn::FrameIsEmpty, env, seq![])).append_block(
        Label::RestoreArgs(op),
    ).append_block(Label::RestoreArgsEnd(op)).emit1(
        InstView::cond_br(c.value_at(0, IrType::I1), args_bb, args_end_bb),
    ).position_at(args_bb);
    let c2 = pop_args(c1, env, args, args.len()).emit1(InstView::br(args_end_bb)).position_at(
        args_end_bb,
    );
    arg_phis(c2, args_end_bb, args_bb, start_bb, popped_args(c1, args), args.len())
}

/// The values that stand for the arguments after `restore_args_post`.
pub open spec fn restored_args(c: ContextView, args: Seq<NumType>) -> Seq<Value> {
    Seq::new(
        args.len(),
        |i: int|
            Value {
                kind: ValueKind::Phi {
                    block: (c.builder.blocks.len() + 1) as usize,
                    index: i as usize,
                },
                ty: args[i].ir(),
            },
    )
}

/// Emits, in the restore block of a call site, the test for the last frame
/// and the code that takes the arguments back, and returns the values that
/// stand for the arguments. The cursor is left in the block in which the
/// two paths meet.
pub fn gen_restore_args(
    ctx: &mut Context,
    exec_env_ptr: &Value,
    args: &Vec<NumType>,
    restore_start_bb: usize,
) -> (values: Vec<Value>)
    requires
        old(ctx)@.at_site(),
        old(ctx)@.builder.position == Some(restore_start_bb),
    ensures
        final(ctx)@ == restore_args_post(old(ctx)@, *exec_env_ptr, args@, restore_start_bb),
        values@ == restored_args(old(ctx)@, args@),
        final(ctx)@ == old(ctx)@.with_builder(final(ctx)@.builder),
        final(ctx)@.builder.position == Some((old(ctx)@.builder.blocks.len() + 1) as usize),
        final(ctx)@.builder.blocks.len() == old(ctx)@.builder.blocks.len() + 2,
        final(ctx)@.at_site(),
{
    let op = ctx.current_op.unwrap();
    let cond = ctx.build(Inst::runtime0(RuntimeFn::FrameIsEmpty, *exec_env_ptr));
    let args_bb = ctx.append_basic_block(Label::RestoreArgs(op));
    assert(ctx@.builder.blocks[args_bb as int].insts.len() == 0);
    let args_end_bb = ctx.append_basic_block(Label::RestoreArgsEnd(op));
    assert(ctx@.builder.blocks[args_bb as int].insts.len() == 0);
    assert(ctx@.builder.blocks[args_end_bb as int].phis.len() == 0);
    ctx.emit(Inst::cond_br(cond, args_bb, args_end_bb));
    assert(ctx@.builder.blocks[args_bb as int].insts.len() == 0);
    assert(ctx@.builder.blocks[args_end_bb as int].phis.len() == 0);
    ctx.position_at_end(args_bb);
    let ghost c1 = ctx@;
    let n = args.len();
    let mut restored: Vec<Value> = Vec::new();
    let mut i: usize = 0;
    while i < n
        invariant
            i <= n,
            n == args@.len(),
            c1.wf(),
            c1.builder.code().len() == 0,
            ctx@ == pop_args(c1, *exec_env_ptr, args@, i as nat),
            ctx@.builder.code().len() == i,
            restored@ == popped_args(c1, args@.take(i as int)),
            emitted(c1, ctx@),
            ctx@.at_site(),
        decreases n - i,
    {
        let r = gen_restore_stack_value(ctx, exec_env_ptr, args[i].to_ir());
        restored.push(r.unwrap());
        proof {
            assert(restored@ =~= popped_args(c1, args@.take(i + 1)));
        }
        i += 1;
    }
    proof {
        assert(args@.take(n as int) =~= args@);
    }
    ctx.emit(Inst::br(args_end_bb));
    ctx.position_at_end(args_end_bb);
    let ghost c2 = ctx@;
    let mut values: Vec<Value> = Vec::new();
    let mut j: usize = 0;
    while j < n
        invariant
            j <= n,
            n == args@.len(),
            n == restored@.len(),
            restored@ == popped_args(c1, args@),
            c2.builder.has_block(args_end_bb),
            c2.builder.blocks[args_end_bb as int].phis.len() == 0,
            args_end_bb == (old(ctx)@.builder.blocks.len() + 1) as usize,
            ctx@ == arg_phis(c2, args_end_bb, args_bb, restore_start_bb, restored@, j as nat),
            ctx@.builder.blocks[args_end_bb as int].phis.len() == j,
            ctx@.builder.blocks.len() == c2.builder.blocks.len(),
            ctx@.builder.position == c2.builder.position,
            ctx@ == c2.with_builder(ctx@.builder),
            values@ == restored_args(old(ctx)@, args@.take(j as int)),
            ctx@.at_site(),
        decreases n - j,
    {
        let v = restored[j];
        let phi = ctx.build_phi(args_end_bb, v.ty);
        ctx.add_incoming(phi, v, args_bb);
        ctx.add_incoming(phi, Value::const_zero(v.ty), restore_start_bb);
        values.push(phi.as_value());
        proof {
            assert(values@ =~= restored_args(old(ctx)@, args@.take(j + 1)));
        }
        j += 1;
    }
    proof {
        assert(args@.take(n as int) =~= args@);
    }
    values
}

/// The phi nodes that merge the operand stack of the running program with
/// the restored one: for each of the first `n` stack values a phi node in
/// block `phi_bb`, with the value itself on the edge from `direct_bb` and
/// the restored value on the edge from `last_bb`. The phi node takes the
/// value's place on the stack.
pub open spec fn merge_stack(
    c: ContextView,
    phi_bb: usize,
    direct_bb: usize,
    last_bb: usize,
    restored: Seq<Value>,
    n: nat,
) -> ContextView
    decreases n,
{
    if n == 0 {
        c
    } else {
        let p = merge_stack(c, phi_bb, direct_bb, last_bb, restored, (n - 1) as nat);
        let v = c.stack()[n - 1];
        let phi = p.builder.next_phi(phi_bb, v.ty);
        let q = p.add_phi(phi_bb, v.ty).add_incoming(phi, v, direct_bb).add_incoming(
            phi,
            restored[n - 1],
            last_bb,
        );
        q.with_stack(q.stack().update(n - 1, phi.value()))
    }
}

/// Emits the phi nodes that merge the operand stack with the restored one.
pub fn gen_merge_stack(
    ctx: &mut Context,
    phi_bb: usize,
    direct_bb: usize,
    last_bb: usize,
    restored: &Vec<Value>,
)
    requires
        old(ctx)@.wf(),
        old(ctx)@.builder.has_block(phi_bb),
        restored@.len() == old(ctx)@.stack().len(),
    ensures
        final(ctx)@ == merge_stack(
            old(ctx)@,
            phi_bb,
            direct_bb,
            last_bb,
            restored@,
            restored@.len(),
        ),
        final(ctx)@.stack().len() == old(ctx)@.stack().len(),
        final(ctx)@.builder.position == old(ctx)@.builder.position,
        final(ctx)@.builder.blocks.len() == old(ctx)@.builder.blocks.len(),
        final(ctx)@ == old(ctx)@.with_builder(final(ctx)@.builder).with_stack(final(ctx)@.stack()),
        final(ctx)@.wf(),
{
    let ghost c0 = ctx@;
    proof {
        lemma_with_stack_same(c0);
    }
    let n = restored.len();
    let mut i: usize = 0;
    while i < n
        invariant
            i <= n,
            n == restored@.len(),
            n == c0.stack().len(),
            c0.wf(),
            c0.builder.has_block(phi_bb),
            ctx@ == merge_stack(c0, phi_bb, direct_bb, last_bb, restored@, i as nat),
            ctx@.stack().len() == n,
            forall|k: int| i <= k < n ==> ctx@.stack()[k] == c0.stack()[k],
            ctx@.builder.position == c0.builder.position,
            ctx@.builder.blocks.len() == c0.builder.blocks.len(),
            ctx@ == c0.with_builder(ctx@.builder).with_stack(ctx@.stack()),
            ctx@.wf(),
        decreases n - i,
    {
        let v = ctx.stack_value(i);
        let phi = ctx.build_phi(phi_bb, v.ty);
        ctx.add_incoming(phi, v, direct_bb);
        ctx.add_incoming(phi, restored[i], last_bb);
        ctx.set_stack_value(i, phi.as_value());
        proof {
            assert(ctx@.stack_frames =~= c0.with_builder(ctx@.builder).with_stack(
                ctx@.stack(),
            ).stack_frames);
        }
        i += 1;
    }
}

/// The block that takes the frame of a site back from the runtime, and the
/// merge with the running program. In block `start_bb` the locals are
/// restored, then the operand stack from its bottom up to the arguments of
/// the call, if the site is one, and the frame is closed. A call site then
/// restores its arguments if its frame was the last. Control goes on to
/// `phi_bb`, where one phi node per stack value merges what came from
/// `direct_bb` with what was restored. The cursor is left in `phi_bb`.
pub open spec fn restore_stack_post(
    c: ContextView,
    env: Value,
    locals: Seq<Local>,
    args: Option<Seq<NumType>>,
    start_bb: usize,
    phi_bb: usize,
    direct_bb: usize,
) -> ContextView {
    let nargs = match args {
        Some(a) => a.len(),
        None => 0,
    };
    let keep = (c.stack().len() - nargs) as nat;
    let c1 = pop_locals(c.position_at(start_bb), env, locals, locals.len());
    let c2 = pop_stack(c1, env, keep).emit1(
        InstView::runtime(RuntimeFn::PopFrontFrame, env, seq![]),
    );
    match args {
        Some(a) => merge_stack(
            restore_args_post(c2, env, a, start_bb).emit1(InstView::br(phi_bb)).position_at(phi_bb),
            phi_bb,
            direct_bb,
            (c2.builder.blocks.len() + 1) as usize,
            popped_stack(c1, keep) + restored_args(c2, a),
            c.stack().len(),
        ),
        None => merge_stack(
            c2.emit1(InstView::br(phi_bb)).position_at(phi_bb),
            phi_bb,
            direct_bb,
            start_bb,
            popped_stack(c1, keep),
            c.stack().len(),
        ),
    }
}

/// Emits the restore block of a site and the merge of the restored operand
/// stack with the running one. `args` holds, for a call site, the types of
/// the arguments that lie on top of the stack. For a site whose frame is too
/// large to be saved nothing is emitted.
pub fn gen_restore_wasm_stack(
    ctx: &mut Context,
    exec_env_ptr: &Value,
    locals: &Vec<Local>,
    args: Option<&Vec<NumType>>,
    restore_start_bb: usize,
    phi_bb: usize,
    direct_bb: usize,
)
    requires
        old(ctx)@.at_site(),
        old(ctx)@.builder.has_block(restore_start_bb),
        old(ctx)@.builder.has_block(phi_bb),
        args matches Some(a) ==> a@.len() <= old(ctx)@.stack().len(),
    ensures
        within_cap(old(ctx)@, locals@) ==> {
            &&& final(ctx)@ == restore_stack_post(
                old(ctx)@,
                *exec_env_ptr,
                locals@,
                match args {
                    Some(a) => Some(a@),
                    None => None,
                },
                restore_start_bb,
                phi_bb,
                direct_bb,
            )
            &&& final(ctx)@.builder.position == Some(phi_bb)
        },
        !within_cap(old(ctx)@, locals@) ==> final(ctx)@ == old(ctx)@,
        final(ctx)@.stack().len() == old(ctx)@.stack().len(),
        final(ctx)@ == old(ctx)@.with_builder(final(ctx)@.builder).with_stack(final(ctx)@.stack()),
        old(ctx)@.builder.blocks.len() <= final(ctx)@.builder.blocks.len(),
        final(ctx)@.at_site(),
{
    if !site_within_cap(ctx, locals) {
        proof {
            lemma_with_stack_same(old(ctx)@);
        }
        return ;
    }
    ctx.position_at_end(restore_start_bb);
    gen_restore_locals(ctx, exec_env_ptr, locals);
    let nargs = match args {
        Some(a) => a.len(),
        None => 0,
    };
    let keep = ctx.current_frame_size() - nargs;
    let mut restored = gen_restore_stack_values(ctx, exec_env_ptr, keep);
    ctx.emit(Inst::runtime0(RuntimeFn::PopFrontFrame, *exec_env_ptr));
    let last_bb = match args {
        Some(a) => {
            let mut values = gen_restore_args(ctx, exec_env_ptr, a, restore_start_bb);
            restored.append(&mut values);
            ctx.insert_block()
        },
        None => restore_start_bb,
    };
    ctx.emit(Inst::br(phi_bb));
    ctx.position_at_end(phi_bb);
    gen_merge_stack(ctx, phi_bb, direct_bb, last_bb, &restored);
    proof {
        lemma_with_stack_same(old(ctx)@);
    }
}

/// A restore point: a block of its own for the site, registered with the
/// dispatch of the function under the operator index of the site, and the
/// code of `restore_stack_post`.
pub open spec fn restore_point_post(
    c: ContextView,
    env: Value,
    locals: Seq<Local>,
    args: Option<Seq<NumType>>,
    phi_bb: usize,
    direct_bb: usize,
) -> ContextView {
    let op = c.current_op.unwrap();
    restore_stack_post(
        c.append_block(Label::RestoreStart(op)).add_case(op, c.next_block()),
        env,
        locals,
        args,
        c.next_block(),
        phi_bb,
        direct_bb,
    )
}

/// Emits the restore point of a site. Control that comes from
/// `direct_bb` and control that comes from the restore meet in `phi_bb`,
/// where the cursor is left. For a site whose frame is too large to be saved
/// nothing is emitted.
pub fn gen_restore_point(
    ctx: &mut Context,
    exec_env_ptr: &Value,
    locals: &Vec<Local>,
    args: Option<&Vec<NumType>>,
    phi_bb: usize,
    direct_bb: usize,
)
    requires
        old(ctx)@.at_site(),
        old(ctx)@.builder.has_block(phi_bb),
        args matches Some(a) ==> a@.len() <= old(ctx)@.stack().len(),
    ensures
        within_cap(old(ctx)@, locals@) ==> {
            &&& final(ctx)@ == restore_point_post(
                old(ctx)@,
                *exec_env_ptr,
                locals@,
                match args {
                    Some(a) => Some(a@),
                    None => None,
                },
                phi_bb,
                direct_bb,
            )
            &&& final(ctx)@.builder.position == Some(phi_bb)
        },
        !within_cap(old(ctx)@, locals@) ==> final(ctx)@ == old(ctx)@,
        final(ctx)@.stack().len() == old(ctx)@.stack().len(),
        site_frame(old(ctx)@, final(ctx)@),
        final(ctx)@.at_site(),
{
    if !site_within_cap(ctx, locals) {
        return ;
    }
    let op_index = ctx.current_op.unwrap();
    let restore_start_bb = ctx.append_basic_block(Label::RestoreStart(op_index));
    ctx.add_dispatch_case(op_index, restore_start_bb);
    gen_restore_wasm_stack(
        ctx,
        exec_env_ptr,
        locals,
        args,
        restore_start_bb,
        phi_bb,
        direct_bb,
    );
}

/// The code that restores the first `n` globals, in the order of their
/// declaration. The value of an immutable global is taken back and dropped;
/// that of a mutable one is stored.
pub open spec fn pop_globals(c: ContextView, env: Value, n: nat) -> ContextView
    decreases n,
{
    if n == 0 {
        c
    } else {
        let p = pop_globals(c, env, (n - 1) as nat);
        match c.globals[n - 1] {
            Global::Const { ty, .. } => p.emit1(
                InstView::runtime(RuntimeFn::PopFrontGlobal(ty), env, seq![]),
            ),
            Global::Mut { ptr, ty } => p.emit1(
                InstView::runtime(RuntimeFn::PopFrontGlobal(ty), env, seq![]),
            ).emit1(InstView::store(ptr, p.value_at(0, ty.ir()))),
        }
    }
}

/// The code by which the entry function takes the globals back when the
/// program is being restored.
#[verifier::opaque]
pub open spec fn restore_globals_post(c: ContextView, env: Value) -> ContextView {
    let then_bb = c.next_block();
    let else_bb = (c.builder.blocks.len() + 1) as usize;
    let c1 = compare_post(
        c.append_block(Label::RestoreThen).append_block(Label::RestoreElse),
        env,
        MIGRATION_STATE_RESTORE,
    );
    let c2 = c1.emit1(InstView::cond_br(c.value_at(2, IrType::I1), then_bb, else_bb)).position_at(
        then_bb,
    );
    pop_globals(c2, env, c.globals.len()).emit1(InstView::br(else_bb)).position_at(else_bb)
}

/// Emits the test of the migration state and, under it, the code that
/// restores the globals.
pub fn gen_restore_globals(ctx: &mut Context, exec_env_ptr: &Value)
    requires
        old(ctx)@.wf(),
    ensures
        final(ctx)@ == restore_globals_post(old(ctx)@, *exec_env_ptr),
        final(ctx)@.wf(),
{
    proof {
        reveal(restore_globals_post);
    }
    let then_bb = ctx.append_basic_block(Label::RestoreThen);
    let else_bb = ctx.append_basic_block(Label::RestoreElse);
    let cond = gen_compare_migration_state(ctx, exec_env_ptr, MIGRATION_STATE_RESTORE);
    ctx.emit(Inst::cond_br(cond, then_bb, else_bb));
    ctx.position_at_end(then_bb);
    let ghost c2 = ctx@;
    let n = ctx.globals.len();
    let mut i: usize = 0;
    while i < n
        invariant
            i <= n,
            n == c2.globals.len(),
            ctx@ == pop_globals(c2, *exec_env_ptr, i as nat),
            emitted(c2, ctx@),
            ctx@.wf(),
        decreases n - i,
    {
        match ctx.globals[i] {
            Global::Const { ty, .. } => {
                let r = gen_restore_global(ctx, exec_env_ptr, ty.to_ir());
                assert(r.is_ok());
            },
            Global::Mut { ptr, ty } => {
                let r = gen_restore_global(ctx, exec_env_ptr, ty.to_ir());
                let v = r.unwrap();
                ctx.emit(Inst::store(ptr, v));
            },
        }
        i += 1;
    }
    ctx.emit(Inst::br(else_bb));
    ctx.position_at_end(else_bb);
}

/// The code that restores the first `n` slots of the table at `table`.
pub open spec fn pop_table(c: ContextView, env: Value, table: Value, n: nat) -> ContextView
    decreases n,
{
    if n == 0 {
        c
    } else {
        let p = pop_table(c, env, table, (n - 1) as nat);
        p.emit1(
            InstView::op2(
                Opcode::ElemPtr(IrType::I32),
                Some(IrType::Ptr),
                table,
                Value::constant(IrType::I32, (n - 1) as u64),
            ),
        ).emit1(InstView::runtime(RuntimeFn::PopFrontTableIndex, env, seq![])).emit1(
            InstView::store(p.value_at(0, IrType::Ptr), p.value_at(1, IrType::I32)),
        )
    }
}

/// The number of slots of the function table; none where there is no table.
pub open spec fn table_slots(c: ContextView) -> nat {
    match c.global_table_size {
        Some(n) => n as nat,
        None => 0,
    }
}

/// The code by which the entry function takes the table back when the
/// program is being restored; nothing where the module has no table.
#[verifier::opaque]
pub open spec fn restore_table_post(c: ContextView, env: Value) -> ContextView {
    match c.global_table {
        None => c,
        Some(t) => {
            let then_bb = c.next_block();
            let else_bb = (c.builder.blocks.len() + 1) as usize;
            let c1 = compare_post(
                c.append_block(Label::RestoreThen).append_block(Label::RestoreElse),
                env,
                MIGRATION_STATE_RESTORE,
            );
            let c2 = c1.emit1(
                InstView::cond_br(c.value_at(2, IrType::I1), then_bb, else_bb),
            ).position_at(then_bb);
            pop_table(c2, env, Value::global(t), table_slots(c)).emit1(
                InstView::br(else_bb),
            ).position_at(else_bb)
        },
    }
}

/// Emits the test of the migration state and, under it, the code that
/// restores the function table.
pub fn gen_restore_table(ctx: &mut Context, exec_env_ptr: &Value)
    requires
        old(ctx)@.wf(),
    ensures
        final(ctx)@ == restore_table_post(old(ctx)@, *exec_env_ptr),
        final(ctx)@.wf(),
{
    proof {
        reveal(restore_table_post);
    }
    let table = match ctx.global_table {
        Some(t) => Value::global_ptr(t),
        None => {
            return ;
        },
    };
    let n = match ctx.global_table_size {
        Some(n) => n,
        None => 0,
    };
    let then_bb = ctx.append_basic_block(Label::RestoreThen);
    let else_bb = ctx.append_basic_block(Label::RestoreElse);
    let cond = gen_compare_migration_state(ctx, exec_env_ptr, MIGRATION_STATE_RESTORE);
    ctx.emit(Inst::cond_br(cond, then_bb, else_bb));
    ctx.position_at_end(then_bb);
    let ghost c2 = ctx@;
    let mut i: usize = 0;
    while i < n
        invariant
            i <= n,
            ctx@ == pop_table(c2, *exec_env_ptr, table, i as nat),
            emitted(c2, ctx@),
            ctx@.wf(),
        decreases n - i,
    {
        let elem_ptr = ctx.build(
            Inst::op2(
                Opcode::ElemPtr(IrType::I32),
                Some(IrType::Ptr),
                table,
                Value::const_int(IrType::I32, i as u64),
            ),
        );
        let value = ctx.build(Inst::runtime0(RuntimeFn::PopFrontTableIndex, *exec_env_ptr));
        ctx.emit(Inst::store(elem_ptr, value));
        i += 1;
    }
    ctx.emit(Inst::br(else_bb));
    ctx.position_at_end(else_bb);
}

} // verus!
