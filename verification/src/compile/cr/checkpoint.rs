//! The checkpoint side of the instrumentation: the code that hands a frame,
//! the globals and the table to the runtime.

use vstd::prelude::*;

use crate::compile::cr::site::{site_within_cap, within_cap};
use crate::compile::cr::state::{
    compare_post, gen_compare_migration_state, gen_set_migration_state, set_state_post,
    MIGRATION_STATE_CHECKPOINT_CONTINUE, MIGRATION_STATE_CHECKPOINT_START,
};
use crate::compile::stackmap::{gen_stackmap, stackmap_post};
use crate::context::{
    emitted, site_frame, Context, ContextView, FunctionDecl, Global, Local,
};
use crate::error::{Backend, CompileError};
use crate::ir::{
    EnvField, FuncRef, Inst, InstView, IntPredicate, IrType, Label, NumType, Opcode, RuntimeFn,
    Value,
};

verus! {

/// Emits the call that hands `val` to the runtime through `f`.
fn gen_push_value(ctx: &mut Context, exec_env_ptr: &Value, f: RuntimeFn, val: Value)
    requires
        old(ctx)@.wf(),
    ensures
        final(ctx)@ == old(ctx)@.emit1(InstView::runtime(f, *exec_env_ptr, seq![val])),
        final(ctx)@.wf(),
        emitted(old(ctx)@, final(ctx)@),
{
    ctx.emit(Inst::runtime1(f, *exec_env_ptr, val));
}

/// Emits the call that saves the value of a local variable. The function of
/// the runtime is chosen by the type of the value.
pub fn gen_add_local(ctx: &mut Context, exec_env_ptr: &Value, val: Value) -> (r: Result<
    (),
    CompileError,
>)
    requires
        old(ctx)@.wf(),
    ensures
        match val.ty.num() {
            Some(t) => r.is_ok() && final(ctx)@ == old(ctx)@.emit1(
                InstView::runtime(RuntimeFn::PushLocal(t), *exec_env_ptr, seq![val]),
            ),
            None => r == Err::<(), CompileError>(
                CompileError::BackendError(Backend::UnsupportedType),
            ) && final(ctx)@ == old(ctx)@,
        },
        final(ctx)@.wf(),
        emitted(old(ctx)@, final(ctx)@),
{
    match val.ty.to_num() {
        Some(t) => {
            gen_push_value(ctx, exec_env_ptr, RuntimeFn::PushLocal(t), val);
            Ok(())
        },
        None => Err(CompileError::BackendError(Backend::UnsupportedType)),
    }
}

/// Emits the call that saves a value of the operand stack.
pub fn gen_push_stack(ctx: &mut Context, exec_env_ptr: &Value, val: Value) -> (r: Result<
    (),
    CompileError,
>)
    requires
        old(ctx)@.wf(),
    ensures
        match val.ty.num() {
            Some(t) => r.is_ok() && final(ctx)@ == old(ctx)@.emit1(
                InstView::runtime(RuntimeFn::Push(t), *exec_env_ptr, seq![val]),
            ),
            None => r == Err::<(), CompileError>(
                CompileError::BackendError(Backend::UnsupportedType),
            ) && final(ctx)@ == old(ctx)@,
        },
        final(ctx)@.wf(),
        emitted(old(ctx)@, final(ctx)@),
{
    match val.ty.to_num() {
        Some(t) => {
            gen_push_value(ctx, exec_env_ptr, RuntimeFn::Push(t), val);
            Ok(())
        },
        None => Err(CompileError::BackendError(Backend::UnsupportedType)),
    }
}

/// Emits the call that saves the value of a global.
pub fn gen_push_global_value(ctx: &mut Context, exec_env_ptr: &Value, value: Value) -> (r: Result<
    (),
    CompileError,
>)
    requires
        old(ctx)@.wf(),
    ensures
        match value.ty.num() {
            Some(t) => r.is_ok() && final(ctx)@ == old(ctx)@.emit1(
                InstView::runtime(RuntimeFn::PushGlobal(t), *exec_env_ptr, seq![value]),
            ),
            None => r == Err::<(), CompileError>(
                CompileError::BackendError(Backend::UnsupportedType),
            ) && final(ctx)@ == old(ctx)@,
        },
        final(ctx)@.wf(),
        emitted(old(ctx)@, final(ctx)@),
{
    match value.ty.to_num() {
        Some(t) => {
            gen_push_value(ctx, exec_env_ptr, RuntimeFn::PushGlobal(t), value);
            Ok(())
        },
        None => Err(CompileError::BackendError(Backend::UnsupportedType)),
    }
}

/// The code that saves the first `n` locals, in order: each is loaded from
/// its slot and handed to the runtime.
pub open spec fn push_locals(c: ContextView, env: Value, locals: Seq<Local>, n: nat) -> ContextView
    decreases n,
{
    if n == 0 {
        c
    } else {
        let p = push_locals(c, env, locals, (n - 1) as nat);
        let l = locals[n - 1];
        p.emit1(InstView::load(l.ty.ir(), l.ptr, false)).emit1(
            InstView::runtime(RuntimeFn::PushLocal(l.ty), env, seq![p.value_at(0, l.ty.ir())]),
        )
    }
}

/// The code that opens a frame, records the function and the site, and saves
/// the locals.
pub open spec fn store_frame_post(c: ContextView, env: Value, locals: Seq<Local>) -> ContextView {
    push_locals(
        c.emit1(InstView::runtime(RuntimeFn::PushFrame, env, seq![])).emit1(
            InstView::runtime(
                RuntimeFn::SetPcToFrame,
                env,
                seq![
                    Value::constant(IrType::I32, c.current_function_idx.unwrap() as u64),
                    Value::constant(IrType::I32, c.current_op.unwrap() as u64),
                ],
            ),
        ),
        env,
        locals,
        locals.len(),
    )
}

/// Emits the code that opens a frame for the site and saves the locals in it.
/// For a site whose frame is too large to be saved nothing is emitted.
pub fn gen_store_frame(ctx: &mut Context, exec_env_ptr: &Value, locals: &Vec<Local>)
    requires
        old(ctx)@.at_site(),
    ensures
        within_cap(old(ctx)@, locals@) ==> final(ctx)@ == store_frame_post(
            old(ctx)@,
            *exec_env_ptr,
            locals@,
        ),
        !within_cap(old(ctx)@, locals@) ==> final(ctx)@ == old(ctx)@,
        emitted(old(ctx)@, final(ctx)@),
        final(ctx)@.at_site(),
{
    if !site_within_cap(ctx, locals) {
        return ;
    }
    let env = *exec_env_ptr;
    ctx.emit(Inst::runtime0(RuntimeFn::PushFrame, env));
    let pc = ctx.current_op.unwrap() as u64;
    let fn_index = ctx.current_function_idx.unwrap() as u64;
    ctx.emit(
        Inst::runtime2(
            RuntimeFn::SetPcToFrame,
            env,
            Value::const_int(IrType::I32, fn_index),
            Value::const_int(IrType::I32, pc),
        ),
    );
    let ghost c1 = ctx@;
    let n = locals.len();
    let mut i: usize = 0;
    while i < n
        invariant
            i <= n,
            n == locals@.len(),
            env == *exec_env_ptr,
            ctx@ == push_locals(c1, env, locals@, i as nat),
            emitted(c1, ctx@),
            ctx@.at_site(),
        decreases n - i,
    {
        let l = locals[i];
        let val = ctx.build(Inst::load(l.ty.to_ir(), l.ptr, false));
        let r = gen_add_local(ctx, exec_env_ptr, val);
        assert(r.is_ok());
        i += 1;
    }
}

/// The code that saves the `n` topmost values of the operand stack, the
/// topmost first.
pub open spec fn push_stack(c: ContextView, env: Value, n: nat) -> ContextView
    decreases n,
{
    if n == 0 {
        c
    } else {
        let v = c.top(n - 1);
        push_stack(c, env, (n - 1) as nat).emit1(
            InstView::runtime(RuntimeFn::Push(v.ty.num().unwrap()), env, seq![v]),
        )
    }
}

/// The code that saves the whole operand stack, from the top to the bottom.
pub open spec fn store_stack_post(c: ContextView, env: Value) -> ContextView {
    push_stack(c, env, c.stack().len())
}

/// Emits the code that saves the operand stack, from the top to the bottom.
pub fn gen_store_stack(ctx: &mut Context, exec_env_ptr: &Value)
    requires
        old(ctx)@.wf(),
    ensures
        final(ctx)@ == store_stack_post(old(ctx)@, *exec_env_ptr),
        emitted(old(ctx)@, final(ctx)@),
        final(ctx)@.wf(),
{
    let ghost c0 = ctx@;
    let env = *exec_env_ptr;
    let n = ctx.current_frame_size();
    let mut i: usize = 0;
    while i < n
        invariant
            i <= n,
            n == c0.stack().len(),
            c0.wf(),
            env == *exec_env_ptr,
            ctx@ == push_stack(c0, env, i as nat),
            emitted(c0, ctx@),
            ctx@.wf(),
        decreases n - i,
    {
        let v = ctx.peek_from_top(i);
        assert(v == Ok::<Value, CompileError>(c0.top(i as int)));
        let value = v.unwrap();
        assert(value.ty.num().is_some());
        let r = gen_push_stack(ctx, exec_env_ptr, value);
        assert(r.is_ok());
        i += 1;
    }
}

/// The value that a function returns when it unwinds: zero of its result
/// type, or nothing.
pub open spec fn default_value(t: Option<NumType>) -> Option<Value> {
    match t {
        Some(t) => Some(Value::zero(t.ir())),
        None => None,
    }
}

pub open spec fn return_default_post(c: ContextView) -> ContextView {
    c.emit1(InstView::ret(default_value(c.ret_ty())))
}

/// Emits a return of the default value, which unwinds one native frame.
pub fn gen_return_default_value(ctx: &mut Context)
    requires
        old(ctx)@.wf(),
    ensures
        final(ctx)@ == return_default_post(old(ctx)@),
        final(ctx)@.wf(),
        emitted(old(ctx)@, final(ctx)@),
{
    let value = match ctx.return_type() {
        Some(t) => Some(Value::const_zero(t.to_ir())),
        None => None,
    };
    ctx.emit(Inst::ret(value));
}

/// What a function does when it finds that a checkpoint starts at one of its
/// sites: it saves its frame and its operand stack, tells its callers to go
/// on unwinding, and returns. Where the runtime walks the frames itself, the
/// function hands over to it and records its live values in a stack map.
pub open spec fn checkpoint_start_post(c: ContextView, env: Value, locals: Seq<Local>) -> ContextView {
    if c.config.checkpoint_v2 {
        return_default_post(
            stackmap_post(
                c.emit1(InstView::runtime(RuntimeFn::StartCheckpoint, env, seq![])),
                locals,
            ),
        )
    } else {
        return_default_post(
            set_state_post(
                store_stack_post(store_frame_post(c, env, locals), env),
                env,
                MIGRATION_STATE_CHECKPOINT_CONTINUE,
            ),
        )
    }
}

/// Emits the code that starts a checkpoint at the site. For a site whose
/// frame is too large to be saved nothing is emitted.
pub fn gen_checkpoint_start(ctx: &mut Context, exec_env_ptr: &Value, locals: &Vec<Local>)
    requires
        old(ctx)@.at_site(),
    ensures
        within_cap(old(ctx)@, locals@) ==> final(ctx)@ == checkpoint_start_post(
            old(ctx)@,
            *exec_env_ptr,
            locals@,
        ),
        !within_cap(old(ctx)@, locals@) ==> final(ctx)@ == old(ctx)@,
        emitted(old(ctx)@, final(ctx)@),
        final(ctx)@.at_site(),
{
    if !site_within_cap(ctx, locals) {
        return ;
    }
    if ctx.config.checkpoint_v2 {
        ctx.emit(Inst::runtime0(RuntimeFn::StartCheckpoint, *exec_env_ptr));
        gen_stackmap(ctx, locals);
        gen_return_default_value(ctx);
    } else {
        gen_store_frame(ctx, exec_env_ptr, locals);
        gen_store_stack(ctx, exec_env_ptr);
        gen_set_migration_state(ctx, exec_env_ptr, MIGRATION_STATE_CHECKPOINT_CONTINUE);
        gen_return_default_value(ctx);
    }
}

/// The test that makes a site a migration point: where the migration state
/// says that a checkpoint starts, control goes to a block that saves the
/// frame and returns; otherwise it goes on in a block of its own, at which
/// the cursor stands afterwards.
pub open spec fn checkpoint_test_post(c: ContextView, env: Value, locals: Seq<Local>) -> ContextView {
    let op = c.current_op.unwrap();
    let then_bb = c.next_block();
    let else_bb = (c.builder.blocks.len() + 1) as usize;
    let c1 = compare_post(
        c.append_block(Label::CheckpointStart(op)).append_block(Label::CheckpointElse(op)),
        env,
        MIGRATION_STATE_CHECKPOINT_START,
    );
    let c2 = c1.emit1(InstView::cond_br(c.value_at(2, IrType::I1), then_bb, else_bb)).position_at(
        then_bb,
    );
    checkpoint_start_post(c2, env, locals).position_at(else_bb)
}

/// A test of the migration state as a site makes it: the state is read by
/// a volatile load and compared with `state`, and the branch goes by the
/// outcome, to the first of the two blocks that the site adds where the
/// state is `state`, to the second where it is not.
pub open spec fn state_test_code(c: ContextView, env: Value, state: u32) -> Seq<InstView> {
    seq![
        InstView::field_ptr(EnvField::MigrationState, env),
        InstView::load(IrType::I32, c.value_at(0, IrType::Ptr), true),
        InstView::op2(
            Opcode::IntCompare(IntPredicate::EQ),
            Some(IrType::I1),
            c.value_at(1, IrType::I32),
            Value::constant(IrType::I32, state as u64),
        ),
        InstView::cond_br(
            c.value_at(2, IrType::I1),
            c.next_block(),
            (c.builder.blocks.len() + 1) as usize,
        ),
    ]
}

/// Emits the test for the start of a checkpoint before a call or at a
/// function's entry or a loop's head. The block of the site gets the test
/// and nothing else: its one read of the migration state is volatile. For a site whose frame is too large
/// to be saved nothing is emitted.
pub fn gen_checkpoint_before_call(ctx: &mut Context, exec_env_ptr: &Value, locals: &Vec<Local>)
    requires
        old(ctx)@.at_site(),
    ensures
        within_cap(old(ctx)@, locals@) ==> {
            &&& final(ctx)@ == checkpoint_test_post(old(ctx)@, *exec_env_ptr, locals@)
            &&& final(ctx)@.builder.blocks.len() == old(ctx)@.builder.blocks.len() + 2
            &&& final(ctx)@.builder.position == Some(
                (old(ctx)@.builder.blocks.len() + 1) as usize,
            )
            &&& final(ctx)@.builder.blocks[old(ctx)@.builder.at()].insts == old(
                ctx,
            )@.builder.code() + state_test_code(
                old(ctx)@,
                *exec_env_ptr,
                MIGRATION_STATE_CHECKPOINT_START,
            )
        },
        !within_cap(old(ctx)@, locals@) ==> final(ctx)@ == old(ctx)@,
        final(ctx)@ == old(ctx)@.with_builder(final(ctx)@.builder),
        final(ctx)@.at_site(),
{
    if !site_within_cap(ctx, locals) {
        return ;
    }
    let op = ctx.current_op.unwrap();
    let then_bb = ctx.append_basic_block(Label::CheckpointStart(op));
    let else_bb = ctx.append_basic_block(Label::CheckpointElse(op));
    let cond = gen_compare_migration_state(ctx, exec_env_ptr, MIGRATION_STATE_CHECKPOINT_START);
    ctx.emit(Inst::cond_br(cond, then_bb, else_bb));
    proof {
        assert(ctx@.builder.code() =~= old(ctx)@.builder.code() + state_test_code(
            old(ctx)@,
            *exec_env_ptr,
            MIGRATION_STATE_CHECKPOINT_START,
        ));
    }
    ctx.position_at_end(then_bb);
    gen_checkpoint_start(ctx, exec_env_ptr, locals);
    ctx.position_at_end(else_bb);
}

/// The test that lets a checkpoint pass through a call site: where the
/// callee came back unwinding, the caller saves its frame and its operand
/// stack and returns in turn.
#[verifier::opaque]
pub open spec fn unwind_post(c: ContextView, env: Value, locals: Seq<Local>) -> ContextView {
    let op = c.current_op.unwrap();
    let then_bb = c.next_block();
    let else_bb = (c.builder.blocks.len() + 1) as usize;
    let c1 = compare_post(
        c.append_block(Label::UnwindThen(op)).append_block(Label::UnwindElse(op)),
        env,
        MIGRATION_STATE_CHECKPOINT_CONTINUE,
    );
    let c2 = c1.emit1(InstView::cond_br(c.value_at(2, IrType::I1), then_bb, else_bb)).position_at(
        then_bb,
    );
    return_default_post(store_stack_post(store_frame_post(c2, env, locals), env)).position_at(
        else_bb,
    )
}

/// Emits, after a call, the test for a checkpoint that is under way. For a
/// site whose frame is too large to be saved nothing is emitted.
pub fn gen_checkpoint_unwind(ctx: &mut Context, exec_env_ptr: &Value, locals: &Vec<Local>)
    requires
        old(ctx)@.at_site(),
    ensures
        within_cap(old(ctx)@, locals@) ==> {
            &&& final(ctx)@ == unwind_post(old(ctx)@, *exec_env_ptr, locals@)
            &&& final(ctx)@.builder.position == Some(
                (old(ctx)@.builder.blocks.len() + 1) as usize,
            )
            &&& final(ctx)@.builder.blocks[old(ctx)@.builder.at()].insts == old(
                ctx,
            )@.builder.code() + state_test_code(
                old(ctx)@,
                *exec_env_ptr,
                MIGRATION_STATE_CHECKPOINT_CONTINUE,
            )
        },
        !within_cap(old(ctx)@, locals@) ==> final(ctx)@ == old(ctx)@,
        final(ctx)@ == old(ctx)@.with_builder(final(ctx)@.builder),
        site_frame(old(ctx)@, final(ctx)@),
        final(ctx)@.at_site(),
{
    if !site_within_cap(ctx, locals) {
        return ;
    }
    let op = ctx.current_op.unwrap();
    let then_bb = ctx.append_basic_block(Label::UnwindThen(op));
    let else_bb = ctx.append_basic_block(Label::UnwindElse(op));
    let cond = gen_compare_migration_state(ctx, exec_env_ptr, MIGRATION_STATE_CHECKPOINT_CONTINUE);
    ctx.emit(Inst::cond_br(cond, then_bb, else_bb));
    proof {
        assert(ctx@.builder.code() =~= old(ctx)@.builder.code() + state_test_code(
            old(ctx)@,
            *exec_env_ptr,
            MIGRATION_STATE_CHECKPOINT_CONTINUE,
        ));
    }
    ctx.position_at_end(then_bb);
    gen_store_frame(ctx, exec_env_ptr, locals);
    gen_store_stack(ctx, exec_env_ptr);
    gen_return_default_value(ctx);
    ctx.position_at_end(else_bb);
    proof {
        reveal(unwind_post);
    }
}

/// The code that loads the mutable ones among the first `n` globals.
pub open spec fn load_globals(c: ContextView, n: nat) -> ContextView
    decreases n,
{
    if n == 0 {
        c
    } else {
        let p = load_globals(c, (n - 1) as nat);
        match c.globals[n - 1] {
            Global::Mut { ptr, ty } => p.emit1(InstView::load(ty.ir(), ptr, false)),
            Global::Const { .. } => p,
        }
    }
}

/// The values of the first `n` globals: what was loaded for a mutable one,
/// the constant for an immutable one.
pub open spec fn global_values(c: ContextView, n: nat) -> Seq<Value>
    decreases n,
{
    if n == 0 {
        seq![]
    } else {
        global_values(c, (n - 1) as nat).push(
            match c.globals[n - 1] {
                Global::Mut { ptr, ty } => load_globals(c, (n - 1) as nat).value_at(0, ty.ir()),
                Global::Const { ty, bits } => Value::constant(ty.ir(), bits),
            },
        )
    }
}

/// The code that hands the first `n` of `values` to the runtime, in order.
pub open spec fn push_globals(c: ContextView, env: Value, values: Seq<Value>, n: nat) -> ContextView
    decreases n,
{
    if n == 0 {
        c
    } else {
        push_globals(c, env, values, (n - 1) as nat).emit1(
            InstView::runtime(
                RuntimeFn::PushGlobal(values[n - 1].ty.num().unwrap()),
                env,
                seq![values[n - 1]],
            ),
        )
    }
}

/// The code that saves every global, in the order of their declaration:
/// first all loads, then all calls.
#[verifier::opaque]
pub open spec fn store_globals_post(c: ContextView, env: Value) -> ContextView {
    push_globals(
        load_globals(c, c.globals.len()),
        env,
        global_values(c, c.globals.len()),
        c.globals.len(),
    )
}

/// Emits the code that saves every global of the module.
pub fn gen_store_globals(ctx: &mut Context, exec_env_ptr: &Value)
    requires
        old(ctx)@.wf(),
    ensures
        final(ctx)@ == store_globals_post(old(ctx)@, *exec_env_ptr),
        emitted(old(ctx)@, final(ctx)@),
        final(ctx)@.wf(),
{
    proof {
        reveal(store_globals_post);
    }
    let ghost c0 = ctx@;
    let env = *exec_env_ptr;
    let n = ctx.globals.len();
    let mut values: Vec<Value> = Vec::new();
    let mut i: usize = 0;
    while i < n
        invariant
            i <= n,
            n == c0.globals.len(),
            ctx@ == load_globals(c0, i as nat),
            emitted(c0, ctx@),
            values@ == global_values(c0, i as nat),
            values@.len() == i,
            forall|k: int| 0 <= k < values@.len() ==> (#[trigger] values@[k]).ty.num().is_some(),
            ctx@.wf(),
        decreases n - i,
    {
        let value = match ctx.globals[i] {
            Global::Const { ty, bits } => Value::const_int(ty.to_ir(), bits),
            Global::Mut { ptr, ty } => ctx.build(Inst::load(ty.to_ir(), ptr, false)),
        };
        values.push(value);
        i += 1;
    }
    let ghost c1 = ctx@;
    let mut j: usize = 0;
    while j < n
        invariant
            j <= n,
            n == values@.len(),
            env == *exec_env_ptr,
            ctx@ == push_globals(c1, env, values@, j as nat),
            emitted(c0, ctx@),
            forall|k: int| 0 <= k < values@.len() ==> (#[trigger] values@[k]).ty.num().is_some(),
            ctx@.wf(),
        decreases n - j,
    {
        let r = gen_push_global_value(ctx, exec_env_ptr, values[j]);
        assert(r.is_ok());
        j += 1;
    }
}

/// The number of slots of the function table; none where there is no table.
pub open spec fn table_size(c: ContextView) -> nat {
    match c.global_table_size {
        Some(n) => n as nat,
        None => 0,
    }
}

/// The code that saves the first `n` slots of the table at `table`: for each
/// its address is formed, the function index is loaded and handed over.
pub open spec fn push_table(c: ContextView, env: Value, table: Value, n: nat) -> ContextView
    decreases n,
{
    if n == 0 {
        c
    } else {
        let p = push_table(c, env, table, (n - 1) as nat);
        p.emit1(
            InstView::op2(
                Opcode::ElemPtr(IrType::I32),
                Some(IrType::Ptr),
                table,
                Value::constant(IrType::I32, (n - 1) as u64),
            ),
        ).emit1(InstView::load(IrType::I32, p.value_at(0, IrType::Ptr), false)).emit1(
            InstView::runtime(RuntimeFn::PushTableIndex, env, seq![p.value_at(1, IrType::I32)]),
        )
    }
}

/// The code that saves the function table, slot by slot; nothing where the
/// module has no table.
#[verifier::opaque]
pub open spec fn store_table_post(c: ContextView, env: Value) -> ContextView {
    match c.global_table {
        Some(t) => push_table(c, env, Value::global(t), table_size(c)),
        None => c,
    }
}

/// Emits the code that saves the function table.
pub fn gen_store_table(ctx: &mut Context, exec_env_ptr: &Value)
    requires
        old(ctx)@.wf(),
    ensures
        final(ctx)@ == store_table_post(old(ctx)@, *exec_env_ptr),
        emitted(old(ctx)@, final(ctx)@),
        final(ctx)@.wf(),
{
    proof {
        reveal(store_table_post);
    }
    let table = match ctx.global_table {
        Some(t) => Value::global_ptr(t),
        None => {
            return ;
        },
    };
    let n = match ctx.global_table_size {
        Some(n) => n,
        None => 0,
    };
    let ghost c0 = ctx@;
    let env = *exec_env_ptr;
    let mut i: usize = 0;
    while i < n
        invariant
            i <= n,
            n == table_size(c0),
            env == *exec_env_ptr,
            ctx@ == push_table(c0, env, table, i as nat),
            emitted(c0, ctx@),
            ctx@.wf(),
        decreases n - i,
    {
        let elem_ptr = ctx.build(
            Inst::op2(
                Opcode::ElemPtr(IrType::I32),
                Some(IrType::Ptr),
                table,
                Value::const_int(IrType::I32, i as u64),
            ),
        );
        let fnidx = ctx.build(Inst::load(IrType::I32, elem_ptr, false));
        ctx.emit(Inst::runtime1(RuntimeFn::PushTableIndex, env, fnidx));
        i += 1;
    }
}

/// The code by which the entry function hands the globals and the table to
/// the runtime once the program has come back unwinding.
#[verifier::opaque]
pub open spec fn store_globals_and_table_post(c: ContextView, env: Value) -> ContextView {
    let then_bb = c.next_block();
    let else_bb = (c.builder.blocks.len() + 1) as usize;
    let c1 = compare_post(
        c.append_block(Label::StoreThen).append_block(Label::StoreElse),
        env,
        MIGRATION_STATE_CHECKPOINT_CONTINUE,
    );
    let c2 = c1.emit1(InstView::cond_br(c.value_at(2, IrType::I1), then_bb, else_bb)).position_at(
        then_bb,
    );
    store_table_post(store_globals_post(c2, env), env).emit1(InstView::br(else_bb)).position_at(
        else_bb,
    )
}

/// Emits the test of the migration state and, under it, the code that saves
/// the globals and the table.
pub fn gen_store_globals_and_table(ctx: &mut Context, exec_env_ptr: &Value)
    requires
        old(ctx)@.wf(),
    ensures
        final(ctx)@ == store_globals_and_table_post(old(ctx)@, *exec_env_ptr),
        final(ctx)@.wf(),
{
    proof {
        reveal(store_globals_and_table_post);
    }
    let then_bb = ctx.append_basic_block(Label::StoreThen);
    let else_bb = ctx.append_basic_block(Label::StoreElse);
    let cond = gen_compare_migration_state(ctx, exec_env_ptr, MIGRATION_STATE_CHECKPOINT_CONTINUE);
    ctx.emit(Inst::cond_br(cond, then_bb, else_bb));
    ctx.position_at_end(then_bb);
    gen_store_globals(ctx, exec_env_ptr);
    gen_store_table(ctx, exec_env_ptr);
    ctx.emit(Inst::br(else_bb));
    ctx.position_at_end(else_bb);
}

/// The declaration of a helper that the runtime calls: it takes the
/// environment and returns nothing.
pub open spec fn helper_decl(func: FuncRef) -> FunctionDecl {
    FunctionDecl { func, type_idx: None, external: true, noredzone: false, noinline: false }
}

/// The state after a helper was added: its declaration, and one block that
/// holds `body` and a return. The cursor stands at the end of that block.
pub open spec fn add_helper_post(c: ContextView, func: FuncRef) -> ContextView {
    ContextView { declarations: c.declarations.push(helper_decl(func)), ..c }.with_builder(
        c.builder.append_block(func, Label::Entry),
    ).position_at(c.next_block())
}

/// Adds the function `store_globals`, which saves every global.
pub fn add_fn_store_globals(ctx: &mut Context, exec_env_ptr: Value)
    requires
        old(ctx)@.wf(),
    ensures
        final(ctx)@ == store_globals_post(
            add_helper_post(old(ctx)@, FuncRef::StoreGlobals),
            exec_env_ptr,
        ).emit1(InstView::ret(None)),
        final(ctx)@.wf(),
{
    ctx.declarations.push(
        FunctionDecl {
            func: FuncRef::StoreGlobals,
            type_idx: None,
            external: true,
            noredzone: false,
            noinline: false,
        },
    );
    let bb = ctx.append_block_in(FuncRef::StoreGlobals, Label::Entry);
    ctx.position_at_end(bb);
    gen_store_globals(ctx, &exec_env_ptr);
    ctx.emit(Inst::ret(None));
}

/// Adds the function `store_table`, which saves every slot of the table.
pub fn add_fn_store_table(ctx: &mut Context, exec_env_ptr: Value)
    requires
        old(ctx)@.wf(),
    ensures
        final(ctx)@ == store_table_post(
            add_helper_post(old(ctx)@, FuncRef::StoreTable),
            exec_env_ptr,
        ).emit1(InstView::ret(None)),
        final(ctx)@.wf(),
{
    ctx.declarations.push(
        FunctionDecl {
            func: FuncRef::StoreTable,
            type_idx: None,
            external: true,
            noredzone: false,
            noinline: false,
        },
    );
    let bb = ctx.append_block_in(FuncRef::StoreTable, Label::Entry);
    ctx.position_at_end(bb);
    gen_store_table(ctx, &exec_env_ptr);
    ctx.emit(Inst::ret(None));
}

} // verus!
