//! The translation of a function body.

use vstd::prelude::*;

use crate::compile::compile_op::{compile_op, live_ok, op_result, root_ok};
use crate::compile::compile_type::{lower_valtype, wasmty_to_llvmty};
use crate::compile::control::{end_phi_in, with_end_phi, ControlFrame};
use crate::compile::cr::restore::{
    finalize_dispatch_post, gen_finalize_restore_dispatch, gen_restore_dispatch,
    restore_dispatch_post,
};
use crate::compile::cr::site::{gen_migration_point, migration_point_post};
use crate::context::{same_module, Context, ContextView, Local};
use crate::error::{CompileError, Malformation};
use crate::ir::{Inst, InstView, IrType, Label, NumType, Opcode, Value};
use crate::wasm::{FunctionBody, LocalGroup, Operator};

verus! {

/// The operator index under which the entry of a function is a site.
pub const FUNCTION_ENTRY_OP: u32 = u32::MAX;

/// What the translation of a function asks of the state: the index of the
/// function is at hand, and the function and its type are known.
pub open spec fn function_entry_ok(c: ContextView) -> bool {
    &&& c.current_function_idx matches Some(i) && i < c.functions.len()
        && c.functions[i as int].type_idx < c.signatures.len()
}

/// The types of the parameters of the function whose index is at hand.
pub open spec fn function_params(c: ContextView) -> Seq<NumType> {
    c.signatures[c.functions[c.current_function_idx.unwrap() as int].type_idx as int].params
}

/// The entry of a function: an entry block and a return block, which holds
/// the phi node for the result if the function has one, and the frame of
/// the function, whose end goes to the return block. The cursor stands in
/// the entry block.
pub open spec fn function_start(c: ContextView) -> ContextView {
    let entry = c.next_block();
    let ret = (c.builder.blocks.len() + 1) as usize;
    let c1 = c.begun().append_block(Label::Entry).append_block(Label::Ret);
    with_end_phi(c1, ret, c1.ret_ty()).position_at(entry).push_frame(
        ControlFrame::Block { next: ret, end_phis: end_phi_in(c1, ret, c1.ret_ty()), stack_size: 0 },
    )
}

/// The types of the locals that the first `n` groups declare, in order.
/// A group of a type that is no number type is not supported.
pub open spec fn group_types(groups: Seq<LocalGroup>, n: nat) -> Result<Seq<NumType>, CompileError>
    decreases n,
{
    if n == 0 {
        Ok(seq![])
    } else {
        match group_types(groups, (n - 1) as nat) {
            Err(e) => Err(e),
            Ok(s) => match lower_valtype(groups[n - 1].ty) {
                Err(e) => Err(e),
                Ok(t) => Ok(s + Seq::new(groups[n - 1].count as nat, |i: int| t)),
            },
        }
    }
}

/// Lists the types of the locals that a function declares.
pub fn expand_locals(groups: &Vec<LocalGroup>) -> (r: Result<Vec<NumType>, CompileError>)
    ensures
        match group_types(groups@, groups@.len()) {
            Ok(s) => r.is_ok() && r.unwrap()@ == s,
            Err(e) => r == Err::<Vec<NumType>, CompileError>(e),
        },
{
    let mut tys: Vec<NumType> = Vec::new();
    let n = groups.len();
    let mut i: usize = 0;
    while i < n
        invariant
            i <= n,
            n == groups@.len(),
            group_types(groups@, i as nat) == Ok::<Seq<NumType>, CompileError>(tys@),
        decreases n - i,
    {
        let g = groups[i];
        let t = match wasmty_to_llvmty(g.ty) {
            Ok(t) => t,
            Err(e) => {
                proof {
                    lemma_group_error(groups@, (i + 1) as nat, n as nat);
                }
                return Err(e);
            },
        };
        let ghost before = tys@;
        let mut k: u32 = 0;
        while k < g.count
            invariant
                k <= g.count,
                tys@ == before + Seq::new(k as nat, |j: int| t),
            decreases g.count - k,
        {
            tys.push(t);
            proof {
                assert(tys@ =~= before + Seq::new((k + 1) as nat, |j: int| t));
            }
            k += 1;
        }
        i += 1;
    }
    Ok(tys)
}

/// An unsupported type among the first groups is one among all groups.
proof fn lemma_group_error(groups: Seq<LocalGroup>, n: nat, m: nat)
    requires
        n <= m,
        group_types(groups, n) is Err,
    ensures
        group_types(groups, m) == group_types(groups, n),
    decreases m - n,
{
    if n < m {
        lemma_group_error(groups, n, (m - 1) as nat);
    }
}

/// The value that a local is set to at the entry of the function: the
/// parameter for one of the first `nparams` locals, the first parameter
/// being the execution environment, zero for any other.
pub open spec fn initial_value(tys: Seq<NumType>, nparams: nat, i: int) -> Value {
    if i < nparams {
        Value::param((i + 1) as usize, tys[i].ir())
    } else {
        Value::zero(tys[i].ir())
    }
}

/// The code that makes the first `n` locals: for each a slot is reserved
/// and set to the local's initial value.
pub open spec fn alloc_locals(c: ContextView, tys: Seq<NumType>, nparams: nat, n: nat) -> ContextView
    decreases n,
{
    if n == 0 {
        c
    } else {
        let p = alloc_locals(c, tys, nparams, (n - 1) as nat);
        p.emit1(InstView::op0(Opcode::Alloca(tys[n - 1].ir()), Some(IrType::Ptr))).emit1(
            InstView::store(p.value_at(0, IrType::Ptr), initial_value(tys, nparams, n - 1)),
        )
    }
}

/// The locals that `alloc_locals` makes: the slot of each is defined by
/// every second instruction.
pub open spec fn local_slots(c: ContextView, tys: Seq<NumType>) -> Seq<Local> {
    Seq::new(tys.len(), |i: int| Local { ptr: c.value_at(2 * i, IrType::Ptr), ty: tys[i] })
}

/// Emits the code that makes the locals of a function, parameters first.
pub fn gen_locals(ctx: &mut Context, tys: &Vec<NumType>, nparams: usize) -> (locals: Vec<Local>)
    requires
        old(ctx)@.wf(),
        nparams <= tys@.len(),
    ensures
        final(ctx)@ == alloc_locals(old(ctx)@, tys@, nparams as nat, tys@.len()),
        locals@ == local_slots(old(ctx)@, tys@),
        crate::context::emitted(old(ctx)@, final(ctx)@),
        final(ctx)@.wf(),
{
    let ghost c0 = ctx@;
    let mut locals: Vec<Local> = Vec::new();
    let n = tys.len();
    let mut i: usize = 0;
    while i < n
        invariant
            i <= n,
            n == tys@.len(),
            nparams <= n,
            c0.wf(),
            ctx@ == alloc_locals(c0, tys@, nparams as nat, i as nat),
            ctx@.builder.code().len() == c0.builder.code().len() + 2 * i,
            crate::context::emitted(c0, ctx@),
            locals@ == local_slots(c0, tys@.take(i as int)),
            ctx@.wf(),
        decreases n - i,
    {
        let ty = tys[i];
        let init = if i < nparams {
            Value::nth_param(i + 1, ty.to_ir())
        } else {
            Value::const_zero(ty.to_ir())
        };
        let slot = ctx.build(Inst::op0(Opcode::Alloca(ty.to_ir()), Some(IrType::Ptr)));
        ctx.emit(Inst::store(slot, init));
        locals.push(Local { ptr: slot, ty });
        proof {
            assert(locals@ =~= local_slots(c0, tys@.take(i + 1)));
        }
        i += 1;
    }
    proof {
        assert(tys@.take(n as int) =~= tys@);
    }
    locals
}

/// The state after the first `n` operators of a body, or the reason for
/// which the translation was given up at one of them. The operators are
/// numbered from zero.
pub open spec fn ops_result(
    c: ContextView,
    ops: Seq<Operator>,
    env: Value,
    locals: Seq<Local>,
    n: nat,
) -> Result<ContextView, CompileError>
    decreases n,
{
    if n == 0 {
        Ok(c)
    } else {
        match ops_result(c, ops, env, locals, (n - 1) as nat) {
            Err(e) => Err(e),
            Ok(p) => if n - 1 > u32::MAX {
                Err(CompileError::Malformed(Malformation::TooManyItems))
            } else {
                op_result(p.with_op((n - 1) as u32), ops[n - 1], env, locals)
            },
        }
    }
}

/// A failure at one of the first operators is the failure of the body.
proof fn lemma_ops_error(
    c: ContextView,
    ops: Seq<Operator>,
    env: Value,
    locals: Seq<Local>,
    n: nat,
    m: nat,
)
    requires
        n <= m,
        ops_result(c, ops, env, locals, n) is Err,
    ensures
        ops_result(c, ops, env, locals, m) == ops_result(c, ops, env, locals, n),
    decreases m - n,
{
    if n < m {
        lemma_ops_error(c, ops, env, locals, n, (m - 1) as nat);
    }
}

/// The execution environment of a function: its first parameter.
pub open spec fn exec_env() -> Value {
    Value::param(0, IrType::Ptr)
}

/// The state in which the operators of a body are translated: the entry
/// of the function, its locals, the test for a restore where the program
/// can be restored, and the migration point of the entry where the program
/// is instrumented.
pub open spec fn prologue(c: ContextView, tys: Seq<NumType>) -> ContextView {
    let c1 = function_start(c);
    let c2 = alloc_locals(c1, tys, function_params(c).len(), tys.len());
    let c3 = if c.restores() {
        restore_dispatch_post(c2, exec_env())
    } else {
        c2
    };
    if c.checkpoints() {
        migration_point_post(
            c3.with_op(FUNCTION_ENTRY_OP),
            exec_env(),
            local_slots(c1, tys),
        )
    } else {
        c3
    }
}

/// What the translation of a function body yields. The locals are the
/// parameters of the function and, after them, the declared locals. When
/// all operators are translated, every block must be closed; the dispatch
/// over the sites of the function is emitted where the program can be
/// restored.
#[verifier::opaque]
pub open spec fn function_result(c: ContextView, f: FunctionBody) -> Result<ContextView, CompileError> {
    match group_types(f.locals@, f.locals@.len()) {
        Err(e) => Err(e),
        Ok(declared) => {
            let tys = function_params(c) + declared;
            let locals = local_slots(function_start(c), tys);
            match ops_result(
                prologue(c, tys),
                f.operators@,
                exec_env(),
                locals,
                f.operators@.len(),
            ) {
                Err(e) => Err(e),
                Ok(c5) => if c5.control_frames.len() != 0 {
                    Err(CompileError::Malformed(Malformation::UnclosedBlock))
                } else if c.restores() {
                    Ok(
                        finalize_dispatch_post(
                            c5.position_at(c5.restore_dispatch_bb.unwrap()),
                            exec_env(),
                        ).ended(),
                    )
                } else {
                    Ok(c5.ended())
                },
            }
        },
    }
}

fn join_types(a: &Vec<NumType>, b: &Vec<NumType>) -> (r: Vec<NumType>)
    ensures
        r@ == a@ + b@,
{
    let mut r: Vec<NumType> = Vec::new();
    let n = a.len();
    let mut i: usize = 0;
    while i < n
        invariant
            i <= n,
            n == a@.len(),
            r@ == a@.take(i as int),
        decreases n - i,
    {
        r.push(a[i]);
        proof {
            assert(r@ =~= a@.take(i + 1));
        }
        i += 1;
    }
    let m = b.len();
    let mut j: usize = 0;
    while j < m
        invariant
            j <= m,
            m == b@.len(),
            r@ == a@.take(a@.len() as int) + b@.take(j as int),
        decreases m - j,
    {
        r.push(b[j]);
        proof {
            assert(r@ =~= a@.take(a@.len() as int) + b@.take(j + 1));
        }
        j += 1;
    }
    proof {
        assert(a@.take(a@.len() as int) =~= a@);
        assert(b@.take(m as int) =~= b@);
    }
    r
}

/// Emits the entry of the function whose index is at hand.
fn gen_function_start(ctx: &mut Context)
    requires
        function_entry_ok(old(ctx)@),
    ensures
        final(ctx)@ == function_start(old(ctx)@),
        final(ctx)@.wf(),
        root_ok(final(ctx)@),
        live_ok(final(ctx)@),
        final(ctx)@.current_function_idx == old(ctx)@.current_function_idx,
        final(ctx)@.restore_dispatch_bb.is_none(),
        final(ctx)@.config == old(ctx)@.config,
        final(ctx)@.stack_frames.len() == old(ctx)@.stack_frames.len() + 1,
        same_module(old(ctx)@.begun(), final(ctx)@),
{
    ctx.begin_function();
    let current_fn = ctx.current_fn.unwrap();
    let entry_bb = ctx.append_block_in(current_fn, Label::Entry);
    let ret_bb = ctx.append_block_in(current_fn, Label::Ret);
    let end_phis = match ctx.return_type() {
        Some(t) => Some(ctx.builder.build_phi(ret_bb, t.to_ir())),
        None => None,
    };
    ctx.builder.position_at_end(entry_bb);
    assert(ctx@.stack() =~= Seq::<Value>::empty());
    ctx.push_control_frame(ControlFrame::Block { next: ret_bb, end_phis, stack_size: 0 });
}

/// Translates a function body: the function whose index is at hand.
pub fn compile_function(ctx: &mut Context, f: &FunctionBody) -> (r: Result<(), CompileError>)
    requires
        function_entry_ok(old(ctx)@),
    ensures
        match function_result(old(ctx)@, *f) {
            Ok(c) => r.is_ok() && final(ctx)@ == c && same_module(old(ctx)@, final(ctx)@)
                && final(ctx)@.current_fn.is_none(),
            Err(e) => r == Err::<(), CompileError>(e),
        },
{
    proof {
        reveal(function_result);
    }
    let declared = match expand_locals(&f.locals) {
        Ok(d) => d,
        Err(e) => {
            return Err(e);
        },
    };
    let i = ctx.current_function_idx.unwrap();
    let type_idx = ctx.functions[i as usize].type_idx;
    let tys = join_types(&ctx.signatures[type_idx as usize].params, &declared);
    let nparams = ctx.signatures[type_idx as usize].params.len();
    let restores = ctx.config.enable_cr && !ctx.config.no_restore;
    gen_function_start(ctx);
    let ghost c1 = ctx@;
    let exec_env_ptr = Value::nth_param(0, IrType::Ptr);
    let locals = gen_locals(ctx, &tys, nparams);
    if restores {
        gen_restore_dispatch(ctx, &exec_env_ptr);
    }
    if ctx.config.enable_cr {
        ctx.set_current_op(FUNCTION_ENTRY_OP);
        gen_migration_point(ctx, &exec_env_ptr, &locals);
    }
    let ghost c4 = ctx@;
    let ghost c0 = old(ctx)@;
    assert(same_module(c0.begun(), c4));
    assert(c4 == prologue(c0, tys@));
    let n = f.operators.len();
    assert(ops_result(c4, f.operators@, exec_env_ptr, locals@, n as nat) matches Err(e)
        ==> function_result(c0, *f) == Err::<ContextView, CompileError>(e));
    let mut num_op: usize = 0;
    while num_op < n
        invariant
            num_op <= n,
            n == f.operators@.len(),
            ops_result(c4, f.operators@, exec_env_ptr, locals@, num_op as nat) == Ok::<
                ContextView,
                CompileError,
            >(ctx@),
            ctx@.wf(),
            ctx@.current_function_idx.is_some(),
            root_ok(ctx@),
            live_ok(ctx@),
            ctx@.restore_dispatch_bb == c4.restore_dispatch_bb,
            ctx@.config == c4.config,
            ops_result(c4, f.operators@, exec_env_ptr, locals@, n as nat) matches Err(e)
                ==> function_result(c0, *f) == Err::<ContextView, CompileError>(e),
            c0 == old(ctx)@,
            same_module(c0.begun(), ctx@),
        decreases n - num_op,
    {
        let ghost p = ctx@;
        if num_op > u32::MAX as usize {
            proof {
                assert(ops_result(c4, f.operators@, exec_env_ptr, locals@, (num_op + 1) as nat)
                    == Err::<ContextView, CompileError>(
                    CompileError::Malformed(Malformation::TooManyItems),
                ));
                lemma_ops_error(
                    c4,
                    f.operators@,
                    exec_env_ptr,
                    locals@,
                    (num_op + 1) as nat,
                    n as nat,
                );
            }
            return Err(CompileError::Malformed(Malformation::TooManyItems));
        }
        ctx.set_current_op(num_op as u32);
        match compile_op(ctx, &f.operators[num_op], &exec_env_ptr, &locals) {
            Ok(()) => {},
            Err(e) => {
                proof {
                    assert(op_result(
                        p.with_op(num_op as u32),
                        f.operators@[num_op as int],
                        exec_env_ptr,
                        locals@,
                    ) == Err::<ContextView, CompileError>(e));
                    assert(ops_result(
                        c4,
                        f.operators@,
                        exec_env_ptr,
                        locals@,
                        (num_op + 1) as nat,
                    ) == Err::<ContextView, CompileError>(e));
                    lemma_ops_error(
                        c4,
                        f.operators@,
                        exec_env_ptr,
                        locals@,
                        (num_op + 1) as nat,
                        n as nat,
                    );
                }
                return Err(e);
            },
        }
        num_op += 1;
    }
    if ctx.control_frames.len() != 0 {
        return Err(CompileError::Malformed(Malformation::UnclosedBlock));
    }
    if restores {
        ctx.position_at_end(ctx.restore_dispatch_bb.unwrap());
        gen_finalize_restore_dispatch(ctx, &exec_env_ptr);
    }
    ctx.end_function();
    Ok(())
}

} // verus!
