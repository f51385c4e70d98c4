//! Migration points: the sites at which a running program can be
//! checkpointed and at which a restored program takes up its work.

use vstd::prelude::*;

use crate::compile::cr::checkpoint::{checkpoint_test_post, gen_checkpoint_before_call};
use crate::compile::cr::restore::{gen_restore_point, restore_point_post};
use crate::compile::cr::state::{MAX_LOCALS_STORE, MAX_STACK_STORE};
use crate::context::{site_frame, Context, ContextView, Local};
use crate::ir::{Inst, InstView, Label, NumType, Value};

verus! {

/// Whether the frame of the site at hand is small enough to be saved.
pub open spec fn within_cap(c: ContextView, locals: Seq<Local>) -> bool {
    locals.len() <= MAX_LOCALS_STORE && c.stack().len() <= MAX_STACK_STORE
}

/// Tells whether the frame of the site at hand is small enough to be saved.
pub fn site_within_cap(ctx: &Context, locals: &Vec<Local>) -> (r: bool)
    requires
        ctx@.stack_frames.len() > 0,
    ensures
        r == within_cap(ctx@, locals@),
{
    locals.len() <= MAX_LOCALS_STORE && ctx.current_frame_size() <= MAX_STACK_STORE
}

/// What makes a site a migration point: the test for the start of a
/// checkpoint and, where the program can be restored, the restore point of
/// the site. The site is counted. `args` holds, for a call site, the types
/// of the arguments on top of the operand stack.
#[verifier::opaque]
pub open spec fn site_post(
    c: ContextView,
    env: Value,
    locals: Seq<Local>,
    args: Option<Seq<NumType>>,
) -> ContextView {
    let op = c.current_op.unwrap();
    let c1 = checkpoint_test_post(c, env, locals);
    if c.restores() {
        let phi_bb = c1.next_block();
        restore_point_post(
            c1.append_block(Label::RestoreEnd(op)).emit1(InstView::br(phi_bb)),
            env,
            locals,
            args,
            phi_bb,
            c1.builder.position.unwrap(),
        ).counted()
    } else {
        c1.counted()
    }
}

/// Emits what makes the site at the cursor a migration point. For a site
/// whose frame is too large to be saved nothing is emitted, and the site is
/// not counted.
pub fn gen_site(
    ctx: &mut Context,
    exec_env_ptr: &Value,
    locals: &Vec<Local>,
    args: Option<&Vec<NumType>>,
)
    requires
        old(ctx)@.at_site(),
        args matches Some(a) ==> a@.len() <= old(ctx)@.stack().len(),
    ensures
        within_cap(old(ctx)@, locals@) ==> final(ctx)@ == site_post(
            old(ctx)@,
            *exec_env_ptr,
            locals@,
            match args {
                Some(a) => Some(a@),
                None => None,
            },
        ),
        !within_cap(old(ctx)@, locals@) ==> final(ctx)@ == old(ctx)@,
        site_frame(old(ctx)@, final(ctx)@),
        final(ctx)@.at_site(),
{
    if !site_within_cap(ctx, locals) {
        return ;
    }
    let op = ctx.current_op.unwrap();
    gen_checkpoint_before_call(ctx, exec_env_ptr, locals);
    if ctx.config.enable_cr && !ctx.config.no_restore {
        let direct_bb = ctx.insert_block();
        let phi_bb = ctx.append_basic_block(Label::RestoreEnd(op));
        ctx.emit(Inst::br(phi_bb));
        gen_restore_point(ctx, exec_env_ptr, locals, args, phi_bb, direct_bb);
    }
    ctx.count_migration_point();
    proof {
        reveal(site_post);
    }
}

/// A migration point at the entry of a function or at the head of a loop.
/// A site whose frame is too large is passed over: nothing is emitted for
/// it.
pub open spec fn migration_point_post(c: ContextView, env: Value, locals: Seq<Local>) -> ContextView {
    if within_cap(c, locals) {
        site_post(c, env, locals, None)
    } else {
        c
    }
}

/// Emits a migration point at the cursor.
pub fn gen_migration_point(ctx: &mut Context, exec_env_ptr: &Value, locals: &Vec<Local>)
    requires
        old(ctx)@.at_site(),
    ensures
        final(ctx)@ == migration_point_post(old(ctx)@, *exec_env_ptr, locals@),
        site_frame(old(ctx)@, final(ctx)@),
        final(ctx)@.at_site(),
{
    if site_within_cap(ctx, locals) {
        gen_site(ctx, exec_env_ptr, locals, None);
    }
}

} // verus!
