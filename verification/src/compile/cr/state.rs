//! The migration-state word of the execution environment.

use vstd::prelude::*;

use crate::context::{emitted, Context, ContextView};
use crate::ir::{EnvField, Inst, InstView, IntPredicate, IrType, Opcode, Value};

verus! {

pub const MIGRATION_STATE_NONE: u32 = 0;

pub const MIGRATION_STATE_CHECKPOINT_START: u32 = 1;

pub const MIGRATION_STATE_CHECKPOINT_CONTINUE: u32 = 2;

pub const MIGRATION_STATE_RESTORE: u32 = 3;

/// The largest number of locals that a site may have to be instrumented.
pub const MAX_LOCALS_STORE: usize = 10000;

/// The largest number of stack values that a site may have to be instrumented.
pub const MAX_STACK_STORE: usize = 10000;

/// The code that reads the migration state: the address of the field, then
/// a volatile load from it.
pub open spec fn migration_state_post(c: ContextView, env: Value) -> ContextView {
    c.emit1(InstView::field_ptr(EnvField::MigrationState, env)).emit1(
        InstView::load(IrType::I32, c.value_at(0, IrType::Ptr), true),
    )
}

/// The code that compares the migration state with `state`.
pub open spec fn compare_post(c: ContextView, env: Value, state: u32) -> ContextView {
    migration_state_post(c, env).emit1(
        InstView::op2(
            Opcode::IntCompare(IntPredicate::EQ),
            Some(IrType::I1),
            c.value_at(1, IrType::I32),
            Value::constant(IrType::I32, state as u64),
        ),
    )
}

/// The code that sets the migration state to `state`.
pub open spec fn set_state_post(c: ContextView, env: Value, state: u32) -> ContextView {
    c.emit1(InstView::field_ptr(EnvField::MigrationState, env)).emit1(
        InstView::store(c.value_at(0, IrType::Ptr), Value::constant(IrType::I32, state as u64)),
    )
}

/// Emits a read of the migration state. The load is volatile, so that no
/// later pass moves it out of a loop.
pub fn gen_migration_state(ctx: &mut Context, exec_env_ptr: &Value) -> (state: Value)
    requires
        old(ctx)@.wf(),
    ensures
        final(ctx)@ == migration_state_post(old(ctx)@, *exec_env_ptr),
        state == old(ctx)@.value_at(1, IrType::I32),
        final(ctx)@.wf(),
        emitted(old(ctx)@, final(ctx)@),
{
    let p = ctx.build(Inst::field_ptr(EnvField::MigrationState, *exec_env_ptr));
    ctx.build(Inst::load(IrType::I32, p, true))
}

/// Emits a test of whether the migration state is `migration_state`.
pub fn gen_compare_migration_state(
    ctx: &mut Context,
    exec_env_ptr: &Value,
    migration_state: u32,
) -> (cond: Value)
    requires
        old(ctx)@.wf(),
    ensures
        final(ctx)@ == compare_post(old(ctx)@, *exec_env_ptr, migration_state),
        cond == old(ctx)@.value_at(2, IrType::I1),
        final(ctx)@.wf(),
        emitted(old(ctx)@, final(ctx)@),
{
    let current = gen_migration_state(ctx, exec_env_ptr);
    ctx.build(
        Inst::op2(
            Opcode::IntCompare(IntPredicate::EQ),
            Some(IrType::I1),
            current,
            Value::const_int(IrType::I32, migration_state as u64),
        ),
    )
}

/// Emits a write of `migration_state` to the migration state.
pub fn gen_set_migration_state(ctx: &mut Context, exec_env_ptr: &Value, migration_state: u32)
    requires
        old(ctx)@.wf(),
    ensures
        final(ctx)@ == set_state_post(old(ctx)@, *exec_env_ptr, migration_state),
        final(ctx)@.wf(),
        emitted(old(ctx)@, final(ctx)@),
{
    let p = ctx.build(Inst::field_ptr(EnvField::MigrationState, *exec_env_ptr));
    ctx.emit(Inst::store(p, Value::const_int(IrType::I32, migration_state as u64)));
}

} // verus!
