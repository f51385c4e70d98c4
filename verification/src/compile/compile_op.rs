//! The translation of one operator: the operands that the operator needs
//! are looked for on the stack, and the operator is translated if they are
//! there.

use vstd::prelude::*;

use crate::compile::compile_type::block_result;
use crate::compile::control::{
    block_post, br_post, br_table_post, brif_post, call_indirect_post, call_post, callee_type,
    else_post, end_post, gen_block, gen_br, gen_br_table, gen_brif, gen_call, gen_call_indirect,
    gen_drop, gen_else, gen_end, gen_if, gen_loop, gen_return, gen_select, gen_unreachable,
    if_post, indirect_operands, loop_post, operands_typed, return_post, select_post, ControlFrame,
    IfElseState, UnreachableReason,
};
use crate::compile::memory::{
    access, access_post, classify_access, compile_op_memcpy, compile_op_memory_fill,
    compile_op_memory_grow, compile_op_memory_size, gen_access, memcpy_post, memory_fill_post,
    memory_grow_post, memory_size_post,
};
use crate::compile::numeric::{classify, gen_numeric, lemma_numeric_valid, numeric, numeric_post};
use crate::context::{same_function, Context, ContextView, Global, Local};
use crate::error::{CompileError, Malformation, Unsupported};
use crate::ir::{CastOp, Inst, InstView, IrType, NumType, Opcode, PhiRef, Value};
use crate::wasm::Operator;

verus! {

/// The frame of a function that returns a value has a phi node for it.
pub open spec fn root_ok(c: ContextView) -> bool {
    c.control_frames.len() >= 1 && c.ret_ty().is_some() ==> c.control_frames[0].end_phis().is_some()
}

/// Code is skipped exactly while control has left the block at the cursor.
pub open spec fn live_ok(c: ContextView) -> bool {
    (c.unreachable_depth == 0) == (c.unreachable_reason == UnreachableReason::Reachable)
}

/// The state in which the operators of a function body are translated.
pub open spec fn translating(c: ContextView) -> bool {
    c.at_site() && root_ok(c) && live_ok(c)
}

/// Whether the operands that an operator needs are on the stack: there are
/// as many as it needs above the entry of the innermost frame, and they
/// have the types `tys`, the last one topmost.
pub open spec fn operand_check(c: ContextView, tys: Seq<NumType>) -> Result<(), CompileError> {
    if c.operands() < tys.len() {
        Err(CompileError::Malformed(Malformation::StackUnderflow))
    } else if !operands_typed(c, tys) {
        Err(CompileError::Malformed(Malformation::TypeMismatch))
    } else {
        Ok(())
    }
}

/// `post` if the operands are there, the error otherwise.
pub open spec fn checked(
    c: ContextView,
    tys: Seq<NumType>,
    post: ContextView,
) -> Result<ContextView, CompileError> {
    match operand_check(c, tys) {
        Ok(()) => Ok(post),
        Err(e) => Err(e),
    }
}

/// Looks for the operands of an operator on the stack.
pub fn check_operands(ctx: &Context, tys: &Vec<NumType>) -> (r: Result<(), CompileError>)
    requires
        ctx@.wf(),
    ensures
        r == operand_check(ctx@, tys@),
{
    let base = if ctx.control_frames.len() == 0 {
        0
    } else {
        ctx.control_frames[ctx.control_frames.len() - 1].entry_depth()
    };
    let len = ctx.current_frame_size();
    let n = tys.len();
    assert(ctx@.control_frames.len() > 0 ==> ctx@.control_frames[ctx@.control_frames.len()
        - 1].stack_size() <= ctx@.stack().len());
    if len - base < n {
        return Err(CompileError::Malformed(Malformation::StackUnderflow));
    }
    let mut i: usize = 0;
    while i < n
        invariant
            i <= n,
            n == tys@.len(),
            len == ctx@.stack().len(),
            n <= len,
            ctx@.operands() >= n,
            ctx@.stack_frames.len() > 0,
            forall|k: int| 0 <= k < i ==> ctx@.stack()[len - n + k].ty == (#[trigger] tys@[k]).ir(),
        decreases n - i,
    {
        if ctx.stack_value(len - n + i).ty != tys[i].to_ir() {
            assert(ctx@.stack()[len - n + i].ty != tys@[i as int].ir());
            return Err(CompileError::Malformed(Malformation::TypeMismatch));
        }
        i += 1;
    }
    Ok(())
}

/// The type of the value that a phi node carries, as a list of types.
pub open spec fn phi_types(p: Option<PhiRef>) -> Seq<NumType> {
    match p {
        Some(p) => seq![p.ty.num().unwrap()],
        None => seq![],
    }
}

fn phi_type_list(p: Option<PhiRef>, more: Option<NumType>) -> (r: Vec<NumType>)
    requires
        p matches Some(p) ==> p.ty.num().is_some(),
    ensures
        r@ == match more {
            Some(t) => phi_types(p).push(t),
            None => phi_types(p),
        },
{
    let mut r: Vec<NumType> = Vec::new();
    match p {
        Some(p) => {
            r.push(p.ty.to_num().unwrap());
        },
        None => {},
    }
    match more {
        Some(t) => {
            r.push(t);
        },
        None => {},
    }
    assert(r@ =~= match more {
        Some(t) => phi_types(p).push(t),
        None => phi_types(p),
    });
    r
}

pub open spec fn block_op_result(c: ContextView, op: Operator, env: Value, locals: Seq<Local>) -> Result<
    ContextView,
    CompileError,
> {
    match op {
        Operator::Block { blockty } => match block_result(blockty) {
            Ok(t) => Ok(block_post(c, t)),
            Err(e) => Err(e),
        },
        Operator::Loop { blockty } => match block_result(blockty) {
            Ok(t) => Ok(loop_post(c, env, locals, t)),
            Err(e) => Err(e),
        },
        Operator::If { blockty } => match operand_check(c, seq![NumType::I32]) {
            Err(e) => Err(e),
            Ok(()) => match block_result(blockty) {
                Ok(t) => Ok(if_post(c, t)),
                Err(e) => Err(e),
            },
        },
        Operator::Else => if !c.control_frames.last().awaits_else() {
            Err(CompileError::Malformed(Malformation::MisplacedElse))
        } else {
            checked(c, phi_types(c.control_frames.last().end_phis()), else_post(c))
        },
        Operator::End => checked(c, phi_types(c.control_frames.last().end_phis()), end_post(c)),
        _ => Ok(c),
    }
}

/// Translates `block`, `loop`, `if`, `else` or `end` where it can be
/// reached.
fn compile_block_op(ctx: &mut Context, op: &Operator, exec_env_ptr: &Value, locals: &Vec<Local>) -> (r:
    Result<(), CompileError>)
    requires
        translating(old(ctx)@),
        old(ctx)@.control_frames.len() > 0,
        old(ctx)@.unreachable_depth == 0,
        *op is Block || *op is Loop || *op is If || *op is Else || *op is End,
    ensures
        match block_op_result(old(ctx)@, *op, *exec_env_ptr, locals@) {
            Ok(c) => r.is_ok() && final(ctx)@ == c && translating(final(ctx)@) && same_function(
                old(ctx)@,
                final(ctx)@,
            ),
            Err(e) => r == Err::<(), CompileError>(e),
        },
{
    let frame = ctx.control_frames[ctx.control_frames.len() - 1];
    assert(frame.valid_in(ctx@.builder));
    match op {
        Operator::Block { blockty } => gen_block(ctx, blockty),
        Operator::Loop { blockty } => gen_loop(ctx, exec_env_ptr, locals, blockty),
        Operator::If { blockty } => {
            let tys = phi_type_list(None, Some(NumType::I32));
            assert(tys@ =~= seq![NumType::I32]);
            match check_operands(ctx, &tys) {
                Ok(()) => {},
                Err(e) => {
                    return Err(e);
                },
            }
            assert(ctx@.top(0).ty == tys@[0].ir());
            gen_if(ctx, blockty)
        },
        Operator::Else => {
            match frame {
                ControlFrame::IfElse { ifelse_state: IfElseState::If, .. } => {},
                _ => {
                    return Err(CompileError::Malformed(Malformation::MisplacedElse));
                },
            }
            let tys = phi_type_list(frame.end_phi(), None);
            match check_operands(ctx, &tys) {
                Ok(()) => {},
                Err(e) => {
                    return Err(e);
                },
            }
            gen_else(ctx)
        },
        Operator::End => {
            let tys = phi_type_list(frame.end_phi(), None);
            match check_operands(ctx, &tys) {
                Ok(()) => {},
                Err(e) => {
                    return Err(e);
                },
            }
            gen_end(ctx)
        },
        _ => Ok(()),
    }
}

/// Every frame that a branch table names exists.
pub open spec fn targets_exist(c: ContextView, targets: Seq<u32>, default: u32) -> bool {
    &&& default < c.control_frames.len()
    &&& forall|i: int| 0 <= i < targets.len() ==> (#[trigger] targets[i]) < c.control_frames.len()
}

/// A branch to any frame that a branch table names carries what a branch
/// to the default frame carries.
pub open spec fn targets_agree(c: ContextView, targets: Seq<u32>, default: u32) -> bool {
    forall|i: int|
        0 <= i < targets.len() ==> phi_types(c.frame(#[trigger] targets[i]).br_phis())
            == phi_types(c.frame(default).br_phis())
}

pub open spec fn branch_op_result(c: ContextView, op: Operator) -> Result<ContextView, CompileError> {
    match op {
        Operator::Br { relative_depth } => if relative_depth >= c.control_frames.len() {
            Err(CompileError::Malformed(Malformation::BranchDepth))
        } else {
            checked(c, phi_types(c.frame(relative_depth).br_phis()), br_post(c, relative_depth))
        },
        Operator::BrIf { relative_depth } => if relative_depth >= c.control_frames.len() {
            Err(CompileError::Malformed(Malformation::BranchDepth))
        } else {
            checked(
                c,
                phi_types(c.frame(relative_depth).br_phis()).push(NumType::I32),
                brif_post(c, relative_depth),
            )
        },
        Operator::BrTable { targets, default } => if !targets_exist(c, targets@, default) {
            Err(CompileError::Malformed(Malformation::BranchDepth))
        } else if !targets_agree(c, targets@, default) {
            Err(CompileError::Malformed(Malformation::TypeMismatch))
        } else {
            checked(
                c,
                phi_types(c.frame(default).br_phis()).push(NumType::I32),
                br_table_post(c, targets@, default),
            )
        },
        _ => Ok(c),
    }
}

fn check_targets(ctx: &Context, targets: &Vec<u32>, default: u32) -> (r: Result<(), CompileError>)
    requires
        ctx@.wf(),
    ensures
        r == (if !targets_exist(ctx@, targets@, default) {
            Err::<(), CompileError>(CompileError::Malformed(Malformation::BranchDepth))
        } else if !targets_agree(ctx@, targets@, default) {
            Err::<(), CompileError>(CompileError::Malformed(Malformation::TypeMismatch))
        } else {
            Ok::<(), CompileError>(())
        }),
{
    let nframes = ctx.control_frames.len();
    if default as usize >= nframes {
        return Err(CompileError::Malformed(Malformation::BranchDepth));
    }
    let n = targets.len();
    let mut i: usize = 0;
    while i < n
        invariant
            i <= n,
            n == targets@.len(),
            nframes == ctx@.control_frames.len(),
            forall|k: int| 0 <= k < i ==> (#[trigger] targets@[k]) < nframes,
        decreases n - i,
    {
        if targets[i] as usize >= nframes {
            return Err(CompileError::Malformed(Malformation::BranchDepth));
        }
        i += 1;
    }
    let d = ctx.control_frames[nframes - 1 - default as usize];
    assert(d.valid_in(ctx@.builder));
    let mut j: usize = 0;
    while j < n
        invariant
            j <= n,
            n == targets@.len(),
            ctx@.wf(),
            nframes == ctx@.control_frames.len(),
            default < nframes,
            d == ctx@.frame(default),
            d.valid_in(ctx@.builder),
            forall|k: int| 0 <= k < n ==> (#[trigger] targets@[k]) < nframes,
            forall|k: int|
                0 <= k < j ==> phi_types(ctx@.frame(#[trigger] targets@[k]).br_phis())
                    == phi_types(d.br_phis()),
        decreases n - j,
    {
        let f = ctx.control_frames[nframes - 1 - targets[j] as usize];
        assert(f.valid_in(ctx@.builder));
        let same = match (f.br_phi(), d.br_phi()) {
            (Some(p), Some(q)) => p.ty == q.ty,
            (None, None) => true,
            _ => false,
        };
        if !same {
            proof {
                assert(phi_types(f.br_phis()) != phi_types(d.br_phis())) by {
                    if f.br_phis().is_some() && d.br_phis().is_some() {
                        assert(phi_types(f.br_phis())[0] != phi_types(d.br_phis())[0]);
                    } else {
                        assert(phi_types(f.br_phis()).len() != phi_types(d.br_phis()).len());
                    }
                }
            }
            return Err(CompileError::Malformed(Malformation::TypeMismatch));
        }
        j += 1;
    }
    Ok(())
}

/// Translates `br`, `br_if` or `br_table` where it can be reached.
fn compile_branch_op(ctx: &mut Context, op: &Operator) -> (r: Result<(), CompileError>)
    requires
        translating(old(ctx)@),
        old(ctx)@.control_frames.len() > 0,
        old(ctx)@.unreachable_depth == 0,
        *op is Br || *op is BrIf || *op is BrTable,
    ensures
        match branch_op_result(old(ctx)@, *op) {
            Ok(c) => r.is_ok() && final(ctx)@ == c && translating(final(ctx)@) && same_function(
                old(ctx)@,
                final(ctx)@,
            ),
            Err(e) => r == Err::<(), CompileError>(e),
        },
{
    let nframes = ctx.control_frames.len();
    match op {
        Operator::Br { relative_depth } => {
            if *relative_depth as usize >= nframes {
                return Err(CompileError::Malformed(Malformation::BranchDepth));
            }
            let frame = ctx.control_frames[nframes - 1 - *relative_depth as usize];
            assert(frame.valid_in(ctx@.builder));
            let tys = phi_type_list(frame.br_phi(), None);
            match check_operands(ctx, &tys) {
                Ok(()) => {},
                Err(e) => {
                    return Err(e);
                },
            }
            gen_br(ctx, *relative_depth)
        },
        Operator::BrIf { relative_depth } => {
            if *relative_depth as usize >= nframes {
                return Err(CompileError::Malformed(Malformation::BranchDepth));
            }
            let frame = ctx.control_frames[nframes - 1 - *relative_depth as usize];
            assert(frame.valid_in(ctx@.builder));
            let tys = phi_type_list(frame.br_phi(), Some(NumType::I32));
            match check_operands(ctx, &tys) {
                Ok(()) => {},
                Err(e) => {
                    return Err(e);
                },
            }
            assert(ctx@.top(0).ty == tys@[tys@.len() - 1].ir());
            gen_brif(ctx, *relative_depth)
        },
        Operator::BrTable { targets, default } => {
            match check_targets(ctx, targets, *default) {
                Ok(()) => {},
                Err(e) => {
                    return Err(e);
                },
            }
            let frame = ctx.control_frames[nframes - 1 - *default as usize];
            assert(frame.valid_in(ctx@.builder));
            let tys = phi_type_list(frame.br_phi(), Some(NumType::I32));
            match check_operands(ctx, &tys) {
                Ok(()) => {},
                Err(e) => {
                    return Err(e);
                },
            }
            assert(ctx@.top(0).ty == tys@[tys@.len() - 1].ir());
            proof {
                let c = ctx@;
                assert forall|i: int| 0 <= i < targets@.len() implies (c.frame(
                    #[trigger] targets@[i],
                ).br_phis().is_some() ==> c.operands() >= 2) by {
                    assert(phi_types(c.frame(targets@[i]).br_phis()) == phi_types(
                        c.frame(*default).br_phis(),
                    ));
                    if c.frame(targets@[i]).br_phis().is_some() {
                        assert(phi_types(c.frame(targets@[i]).br_phis()).len() == 1);
                    }
                }
            }
            gen_br_table(ctx, targets, *default)
        },
        _ => Ok(()),
    }
}

pub open spec fn call_op_result(c: ContextView, op: Operator, env: Value, locals: Seq<Local>) -> Result<
    ContextView,
    CompileError,
> {
    match op {
        Operator::Call { function_index } => if function_index >= c.functions.len() {
            Err(CompileError::Malformed(Malformation::FunctionIndex))
        } else if callee_type(c, function_index) >= c.signatures.len() {
            Err(CompileError::Malformed(Malformation::TypeIndex))
        } else {
            checked(
                c,
                c.signatures[callee_type(c, function_index)].params,
                call_post(c, env, locals, function_index),
            )
        },
        Operator::CallIndirect { type_index, table_index } => if table_index != 0 {
            Err(CompileError::UnsupportedFeature(Unsupported::MultiTable))
        } else if c.global_table.is_none() || c.global_fptr_array.is_none() {
            Err(CompileError::Malformed(Malformation::NoTable))
        } else if type_index >= c.signatures.len() {
            Err(CompileError::Malformed(Malformation::TypeIndex))
        } else {
            checked(
                c,
                indirect_operands(c, type_index),
                call_indirect_post(c, env, locals, type_index),
            )
        },
        _ => Ok(c),
    }
}

fn copy_with(v: &Vec<NumType>, more: Option<NumType>) -> (r: Vec<NumType>)
    ensures
        r@ == match more {
            Some(t) => v@.push(t),
            None => v@,
        },
{
    let mut r: Vec<NumType> = Vec::new();
    let n = v.len();
    let mut i: usize = 0;
    while i < n
        invariant
            i <= n,
            n == v@.len(),
            r@ == v@.take(i as int),
        decreases n - i,
    {
        r.push(v[i]);
        proof {
            assert(r@ =~= v@.take(i + 1));
        }
        i += 1;
    }
    proof {
        assert(v@.take(n as int) =~= v@);
    }
    match more {
        Some(t) => {
            r.push(t);
        },
        None => {},
    }
    r
}

/// Translates `call` or `call_indirect` where it can be reached.
fn compile_call_op(ctx: &mut Context, op: &Operator, exec_env_ptr: &Value, locals: &Vec<Local>) -> (r:
    Result<(), CompileError>)
    requires
        translating(old(ctx)@),
        old(ctx)@.control_frames.len() > 0,
        old(ctx)@.unreachable_depth == 0,
        *op is Call || *op is CallIndirect,
    ensures
        match call_op_result(old(ctx)@, *op, *exec_env_ptr, locals@) {
            Ok(c) => r.is_ok() && final(ctx)@ == c && translating(final(ctx)@) && same_function(
                old(ctx)@,
                final(ctx)@,
            ),
            Err(e) => r == Err::<(), CompileError>(e),
        },
{
    match op {
        Operator::Call { function_index } => {
            if *function_index as usize >= ctx.functions.len() {
                return Err(CompileError::Malformed(Malformation::FunctionIndex));
            }
            let f = ctx.functions[*function_index as usize];
            if f.type_idx as usize >= ctx.signatures.len() {
                return Err(CompileError::Malformed(Malformation::TypeIndex));
            }
            let tys = copy_with(&ctx.signatures[f.type_idx as usize].params, None);
            match check_operands(ctx, &tys) {
                Ok(()) => {},
                Err(e) => {
                    return Err(e);
                },
            }
            gen_call(ctx, exec_env_ptr, locals, *function_index)
        },
        Operator::CallIndirect { type_index, table_index } => {
            if *table_index != 0 {
                return Err(CompileError::UnsupportedFeature(Unsupported::MultiTable));
            }
            if ctx.global_table.is_none() || ctx.global_fptr_array.is_none() {
                return Err(CompileError::Malformed(Malformation::NoTable));
            }
            if *type_index as usize >= ctx.signatures.len() {
                return Err(CompileError::Malformed(Malformation::TypeIndex));
            }
            let tys = copy_with(&ctx.signatures[*type_index as usize].params, Some(NumType::I32));
            match check_operands(ctx, &tys) {
                Ok(()) => {},
                Err(e) => {
                    return Err(e);
                },
            }
            gen_call_indirect(ctx, exec_env_ptr, locals, *type_index, *table_index)
        },
        _ => Ok(()),
    }
}

/// The types of the value that the function being translated returns.
pub open spec fn return_types(c: ContextView) -> Seq<NumType> {
    match c.ret_ty() {
        Some(t) => seq![t],
        None => seq![],
    }
}

/// Whether `select` finds its operands: three of them, a 32-bit condition
/// on top of two values of one type.
pub open spec fn select_check(c: ContextView) -> Result<(), CompileError> {
    if c.operands() < 3 {
        Err(CompileError::Malformed(Malformation::StackUnderflow))
    } else if c.top(0).ty != IrType::I32 || c.top(1).ty != c.top(2).ty {
        Err(CompileError::Malformed(Malformation::TypeMismatch))
    } else {
        Ok(())
    }
}

pub open spec fn stack_op_result(c: ContextView, op: Operator) -> Result<ContextView, CompileError> {
    match op {
        Operator::Drop => if c.operands() < 1 {
            Err(CompileError::Malformed(Malformation::StackUnderflow))
        } else {
            Ok(c.drop(1))
        },
        Operator::Select => match select_check(c) {
            Ok(()) => Ok(select_post(c)),
            Err(e) => Err(e),
        },
        Operator::Return => checked(c, return_types(c), return_post(c)),
        Operator::Unreachable => Ok(
            c.jump(UnreachableReason::Unreachable).emit1(InstView::unreachable()),
        ),
        Operator::Nop => Ok(c),
        _ => Ok(c),
    }
}

/// The number of operands of the innermost frame.
fn operand_count(ctx: &Context) -> (n: usize)
    requires
        ctx@.wf(),
    ensures
        n == ctx@.operands(),
{
    let base = if ctx.control_frames.len() == 0 {
        0
    } else {
        ctx.control_frames[ctx.control_frames.len() - 1].entry_depth()
    };
    assert(ctx@.control_frames.len() > 0 ==> ctx@.control_frames[ctx@.control_frames.len()
        - 1].stack_size() <= ctx@.stack().len());
    ctx.current_frame_size() - base
}

/// Translates `drop`, `select`, `return`, `unreachable` or `nop` where it
/// can be reached.
fn compile_stack_op(ctx: &mut Context, op: &Operator) -> (r: Result<(), CompileError>)
    requires
        translating(old(ctx)@),
        old(ctx)@.control_frames.len() > 0,
        old(ctx)@.unreachable_depth == 0,
        *op is Drop || *op is Select || *op is Return || *op is Unreachable || *op is Nop,
    ensures
        match stack_op_result(old(ctx)@, *op) {
            Ok(c) => r.is_ok() && final(ctx)@ == c && translating(final(ctx)@) && same_function(
                old(ctx)@,
                final(ctx)@,
            ),
            Err(e) => r == Err::<(), CompileError>(e),
        },
{
    match op {
        Operator::Drop => {
            if operand_count(ctx) < 1 {
                return Err(CompileError::Malformed(Malformation::StackUnderflow));
            }
            gen_drop(ctx)
        },
        Operator::Select => {
            if operand_count(ctx) < 3 {
                return Err(CompileError::Malformed(Malformation::StackUnderflow));
            }
            let n = ctx.current_frame_size();
            if ctx.stack_value(n - 1).ty != IrType::I32 || ctx.stack_value(n - 2).ty
                != ctx.stack_value(n - 3).ty {
                return Err(CompileError::Malformed(Malformation::TypeMismatch));
            }
            gen_select(ctx)
        },
        Operator::Return => {
            let mut tys: Vec<NumType> = Vec::new();
            match ctx.return_type() {
                Some(t) => {
                    tys.push(t);
                },
                None => {},
            }
            assert(tys@ =~= return_types(ctx@));
            match check_operands(ctx, &tys) {
                Ok(()) => {},
                Err(e) => {
                    return Err(e);
                },
            }
            gen_return(ctx)
        },
        Operator::Unreachable => gen_unreachable(ctx),
        _ => Ok(()),
    }
}

/// The bit pattern of a 32-bit integer.
pub open spec fn bits32(v: i32) -> u64 {
    if v >= 0 {
        v as u64
    } else {
        (v + 0x1_0000_0000) as u64
    }
}

/// The bit pattern of a 64-bit integer.
pub open spec fn bits64(v: i64) -> u64 {
    if v >= 0 {
        v as u64
    } else {
        (v + 0x1_0000_0000_0000_0000) as u64
    }
}

/// A constant of a floating-point type: the bit pattern, an integer, is
/// reinterpreted.
pub open spec fn float_const_post(c: ContextView, from: IrType, float: IrType, bits: u64) -> ContextView {
    c.emit1(
        InstView::op1(Opcode::Cast(CastOp::BitCast), Some(float), Value::constant(from, bits)),
    ).push(c.value_at(0, float))
}

pub open spec fn const_op_result(c: ContextView, op: Operator) -> Result<ContextView, CompileError> {
    match op {
        Operator::I32Const { value } => Ok(c.push(Value::constant(IrType::I32, bits32(value)))),
        Operator::I64Const { value } => Ok(c.push(Value::constant(IrType::I64, bits64(value)))),
        Operator::F32Const { bits } => Ok(
            float_const_post(c, IrType::I32, IrType::F32, bits as u64),
        ),
        Operator::F64Const { bits } => Ok(float_const_post(c, IrType::I64, IrType::F64, bits)),
        _ => Ok(c),
    }
}

/// Translates a constant.
fn compile_const_op(ctx: &mut Context, op: &Operator) -> (r: Result<(), CompileError>)
    requires
        translating(old(ctx)@),
        *op is I32Const || *op is I64Const || *op is F32Const || *op is F64Const,
    ensures
        match const_op_result(old(ctx)@, *op) {
            Ok(c) => r.is_ok() && final(ctx)@ == c && translating(final(ctx)@) && same_function(
                old(ctx)@,
                final(ctx)@,
            ),
            Err(e) => r == Err::<(), CompileError>(e),
        },
{
    match op {
        Operator::I32Const { value } => {
            let bits: u64 = if *value >= 0 {
                *value as u64
            } else {
                (*value as i64 + 0x1_0000_0000) as u64
            };
            ctx.push(Value::const_int(IrType::I32, bits));
        },
        Operator::I64Const { value } => {
            let bits: u64 = if *value >= 0 {
                *value as u64
            } else {
                (*value as i128 + 0x1_0000_0000_0000_0000) as u64
            };
            ctx.push(Value::const_int(IrType::I64, bits));
        },
        Operator::F32Const { bits } => {
            let i = ctx.build(
                Inst::op1(
                    Opcode::Cast(CastOp::BitCast),
                    Some(IrType::F32),
                    Value::const_int(IrType::I32, *bits as u64),
                ),
            );
            ctx.push(i);
        },
        Operator::F64Const { bits } => {
            let i = ctx.build(
                Inst::op1(
                    Opcode::Cast(CastOp::BitCast),
                    Some(IrType::F64),
                    Value::const_int(IrType::I64, *bits),
                ),
            );
            ctx.push(i);
        },
        _ => {},
    }
    Ok(())
}

pub open spec fn variable_op_result(c: ContextView, op: Operator, locals: Seq<Local>) -> Result<
    ContextView,
    CompileError,
> {
    match op {
        Operator::LocalGet { local_index } => if local_index >= locals.len() {
            Err(CompileError::Malformed(Malformation::LocalIndex))
        } else {
            let l = locals[local_index as int];
            Ok(c.emit1(InstView::load(l.ty.ir(), l.ptr, false)).push(c.value_at(0, l.ty.ir())))
        },
        Operator::LocalSet { local_index } => if local_index >= locals.len() {
            Err(CompileError::Malformed(Malformation::LocalIndex))
        } else {
            let l = locals[local_index as int];
            checked(c, seq![l.ty], c.drop(1).emit1(InstView::store(l.ptr, c.top(0))))
        },
        Operator::LocalTee { local_index } => if local_index >= locals.len() {
            Err(CompileError::Malformed(Malformation::LocalIndex))
        } else {
            let l = locals[local_index as int];
            checked(c, seq![l.ty], c.emit1(InstView::store(l.ptr, c.top(0))))
        },
        Operator::GlobalGet { global_index } => if global_index >= c.globals.len() {
            Err(CompileError::Malformed(Malformation::GlobalIndex))
        } else {
            match c.globals[global_index as int] {
                Global::Const { ty, bits } => Ok(c.push(Value::constant(ty.ir(), bits))),
                Global::Mut { ptr, ty } => Ok(
                    c.emit1(InstView::load(ty.ir(), ptr, false)).push(c.value_at(0, ty.ir())),
                ),
            }
        },
        Operator::GlobalSet { global_index } => if global_index >= c.globals.len() {
            Err(CompileError::Malformed(Malformation::GlobalIndex))
        } else {
            match c.globals[global_index as int] {
                Global::Const { .. } => Err(CompileError::Malformed(Malformation::ImmutableGlobal)),
                Global::Mut { ptr, ty } => checked(
                    c,
                    seq![ty],
                    c.drop(1).emit1(InstView::store(ptr, c.top(0))),
                ),
            }
        },
        _ => Ok(c),
    }
}

fn one_type(t: NumType) -> (r: Vec<NumType>)
    ensures
        r@ == seq![t],
{
    let mut r: Vec<NumType> = Vec::new();
    r.push(t);
    assert(r@ =~= seq![t]);
    r
}

/// Translates an access to a local or a global variable.
fn compile_variable_op(ctx: &mut Context, op: &Operator, locals: &Vec<Local>) -> (r: Result<
    (),
    CompileError,
>)
    requires
        translating(old(ctx)@),
        *op is LocalGet || *op is LocalSet || *op is LocalTee || *op is GlobalGet
            || *op is GlobalSet,
    ensures
        match variable_op_result(old(ctx)@, *op, locals@) {
            Ok(c) => r.is_ok() && final(ctx)@ == c && translating(final(ctx)@) && same_function(
                old(ctx)@,
                final(ctx)@,
            ),
            Err(e) => r == Err::<(), CompileError>(e),
        },
{
    match op {
        Operator::LocalGet { local_index } => {
            if *local_index as usize >= locals.len() {
                return Err(CompileError::Malformed(Malformation::LocalIndex));
            }
            let l = locals[*local_index as usize];
            let v = ctx.build(Inst::load(l.ty.to_ir(), l.ptr, false));
            ctx.push(v);
        },
        Operator::LocalSet { local_index } => {
            if *local_index as usize >= locals.len() {
                return Err(CompileError::Malformed(Malformation::LocalIndex));
            }
            let l = locals[*local_index as usize];
            let tys = one_type(l.ty);
            match check_operands(ctx, &tys) {
                Ok(()) => {},
                Err(e) => {
                    return Err(e);
                },
            }
            let v = ctx.pop_operand();
            ctx.emit(Inst::store(l.ptr, v));
        },
        Operator::LocalTee { local_index } => {
            if *local_index as usize >= locals.len() {
                return Err(CompileError::Malformed(Malformation::LocalIndex));
            }
            let l = locals[*local_index as usize];
            let tys = one_type(l.ty);
            match check_operands(ctx, &tys) {
                Ok(()) => {},
                Err(e) => {
                    return Err(e);
                },
            }
            let v = ctx.peek_from_top(0).unwrap();
            ctx.emit(Inst::store(l.ptr, v));
        },
        Operator::GlobalGet { global_index } => {
            if *global_index as usize >= ctx.globals.len() {
                return Err(CompileError::Malformed(Malformation::GlobalIndex));
            }
            match ctx.globals[*global_index as usize] {
                Global::Const { ty, bits } => {
                    ctx.push(Value::const_int(ty.to_ir(), bits));
                },
                Global::Mut { ptr, ty } => {
                    let v = ctx.build(Inst::load(ty.to_ir(), ptr, false));
                    ctx.push(v);
                },
            }
        },
        Operator::GlobalSet { global_index } => {
            if *global_index as usize >= ctx.globals.len() {
                return Err(CompileError::Malformed(Malformation::GlobalIndex));
            }
            match ctx.globals[*global_index as usize] {
                Global::Const { .. } => {
                    return Err(CompileError::Malformed(Malformation::ImmutableGlobal));
                },
                Global::Mut { ptr, ty } => {
                    let tys = one_type(ty);
                    match check_operands(ctx, &tys) {
                        Ok(()) => {},
                        Err(e) => {
                            return Err(e);
                        },
                    }
                    let v = ctx.pop_operand();
                    ctx.emit(Inst::store(ptr, v));
                },
            }
        },
        _ => {},
    }
    Ok(())
}

/// The operands of the operators that move bytes: three 32-bit integers.
pub open spec fn bulk_operands() -> Seq<NumType> {
    seq![NumType::I32, NumType::I32, NumType::I32]
}

pub open spec fn memory_op_result(c: ContextView, op: Operator, env: Value) -> Result<
    ContextView,
    CompileError,
> {
    match op {
        Operator::MemorySize { .. } => Ok(memory_size_post(c, env)),
        Operator::MemoryGrow { .. } => checked(c, seq![NumType::I32], memory_grow_post(c, env)),
        Operator::MemoryCopy { dst_mem, src_mem } => if dst_mem != 0 || src_mem != 0 {
            Err(CompileError::UnsupportedFeature(Unsupported::MultiMemory))
        } else {
            checked(c, bulk_operands(), memcpy_post(c, env))
        },
        Operator::MemoryFill { mem } => if mem != 0 {
            Err(CompileError::UnsupportedFeature(Unsupported::MultiMemory))
        } else {
            checked(c, bulk_operands(), memory_fill_post(c, env))
        },
        _ => match access(op) {
            Some(a) => checked(c, a.operands(), access_post(c, env, a)),
            None => Ok(c),
        },
    }
}

fn three_ints() -> (r: Vec<NumType>)
    ensures
        r@ == bulk_operands(),
{
    let mut r: Vec<NumType> = Vec::new();
    r.push(NumType::I32);
    r.push(NumType::I32);
    r.push(NumType::I32);
    assert(r@ =~= bulk_operands());
    r
}

/// Translates an operator on the linear memory.
fn compile_memory_op(ctx: &mut Context, op: &Operator, exec_env_ptr: &Value) -> (r: Result<
    (),
    CompileError,
>)
    requires
        translating(old(ctx)@),
        *op is MemorySize || *op is MemoryGrow || *op is MemoryCopy || *op is MemoryFill || access(
            *op,
        ).is_some(),
    ensures
        match memory_op_result(old(ctx)@, *op, *exec_env_ptr) {
            Ok(c) => r.is_ok() && final(ctx)@ == c && translating(final(ctx)@) && same_function(
                old(ctx)@,
                final(ctx)@,
            ),
            Err(e) => r == Err::<(), CompileError>(e),
        },
{
    match op {
        Operator::MemorySize { .. } => compile_op_memory_size(ctx, exec_env_ptr),
        Operator::MemoryGrow { .. } => {
            let tys = one_type(NumType::I32);
            match check_operands(ctx, &tys) {
                Ok(()) => {},
                Err(e) => {
                    return Err(e);
                },
            }
            compile_op_memory_grow(ctx, exec_env_ptr)
        },
        Operator::MemoryCopy { dst_mem, src_mem } => {
            if *dst_mem != 0 || *src_mem != 0 {
                return Err(CompileError::UnsupportedFeature(Unsupported::MultiMemory));
            }
            let tys = three_ints();
            match check_operands(ctx, &tys) {
                Ok(()) => {},
                Err(e) => {
                    return Err(e);
                },
            }
            compile_op_memcpy(ctx, exec_env_ptr, *dst_mem, *src_mem)
        },
        Operator::MemoryFill { mem } => {
            if *mem != 0 {
                return Err(CompileError::UnsupportedFeature(Unsupported::MultiMemory));
            }
            let tys = three_ints();
            match check_operands(ctx, &tys) {
                Ok(()) => {},
                Err(e) => {
                    return Err(e);
                },
            }
            compile_op_memory_fill(ctx, exec_env_ptr, *mem)
        },
        _ => {
            match classify_access(op) {
                Some(a) => {
                    let tys = a.operand_types();
                    match check_operands(ctx, &tys) {
                        Ok(()) => {},
                        Err(e) => {
                            return Err(e);
                        },
                    }
                    gen_access(ctx, exec_env_ptr, a);
                    Ok(())
                },
                None => Ok(()),
            }
        },
    }
}

pub open spec fn numeric_op_result(c: ContextView, op: Operator) -> Result<ContextView, CompileError> {
    match numeric(op) {
        Some(n) => checked(c, n.operands(), numeric_post(c, n)),
        None => Ok(c),
    }
}

/// Translates a numeric operator.
fn compile_numeric_op(ctx: &mut Context, op: &Operator) -> (r: Result<(), CompileError>)
    requires
        translating(old(ctx)@),
        numeric(*op).is_some(),
    ensures
        match numeric_op_result(old(ctx)@, *op) {
            Ok(c) => r.is_ok() && final(ctx)@ == c && translating(final(ctx)@) && same_function(
                old(ctx)@,
                final(ctx)@,
            ),
            Err(e) => r == Err::<(), CompileError>(e),
        },
{
    match classify(op) {
        Some(n) => {
            proof {
                lemma_numeric_valid(*op);
            }
            let tys = n.operand_types();
            match check_operands(ctx, &tys) {
                Ok(()) => {},
                Err(e) => {
                    return Err(e);
                },
            }
            gen_numeric(ctx, n);
            Ok(())
        },
        None => Ok(()),
    }
}

/// The translation takes up again after skipped code: one level of
/// skipped code is left and the code at the cursor can be reached.
pub open spec fn revive(c: ContextView) -> ContextView {
    ContextView {
        unreachable_depth: (c.unreachable_depth - 1) as u32,
        unreachable_reason: UnreachableReason::Reachable,
        ..c
    }
}

/// What an operator does in code that cannot be reached. A block, a loop
/// or an `if` opens one more level of skipped code, and an `end` closes
/// one. The `else` or the `end` that belongs to the frame in which control
/// was lost is translated, and the translation takes up again after it.
/// Every other operator is passed over.
pub open spec fn dead_result(c: ContextView, op: Operator) -> Result<ContextView, CompileError> {
    match op {
        Operator::Block { .. } | Operator::Loop { .. } | Operator::If { .. } => {
            if c.unreachable_depth == u32::MAX {
                Err(CompileError::Malformed(Malformation::TooManyItems))
            } else {
                Ok(ContextView { unreachable_depth: (c.unreachable_depth + 1) as u32, ..c })
            }
        },
        Operator::Else => if c.unreachable_depth == 1 {
            if !c.control_frames.last().awaits_else() {
                Err(CompileError::Malformed(Malformation::MisplacedElse))
            } else {
                Ok(revive(else_post(c)))
            }
        } else {
            Ok(c)
        },
        Operator::End => if c.unreachable_depth == 1 {
            Ok(revive(end_post(c)))
        } else {
            Ok(ContextView { unreachable_depth: (c.unreachable_depth - 1) as u32, ..c })
        },
        _ => Ok(c),
    }
}

/// Handles an operator in code that cannot be reached.
fn compile_dead_op(ctx: &mut Context, op: &Operator) -> (r: Result<(), CompileError>)
    requires
        translating(old(ctx)@),
        old(ctx)@.control_frames.len() > 0,
        old(ctx)@.unreachable_depth != 0,
    ensures
        match dead_result(old(ctx)@, *op) {
            Ok(c) => r.is_ok() && final(ctx)@ == c && translating(final(ctx)@) && same_function(
                old(ctx)@,
                final(ctx)@,
            ),
            Err(e) => r == Err::<(), CompileError>(e),
        },
{
    let depth = ctx.unreachable_depth;
    let reason = ctx.unreachable_reason;
    match op {
        Operator::Block { .. } | Operator::Loop { .. } | Operator::If { .. } => {
            if depth == u32::MAX {
                return Err(CompileError::Malformed(Malformation::TooManyItems));
            }
            ctx.set_reachability(depth + 1, reason);
        },
        Operator::Else => {
            if depth == 1 {
                let frame = ctx.control_frames[ctx.control_frames.len() - 1];
                match frame {
                    ControlFrame::IfElse { ifelse_state: IfElseState::If, .. } => {},
                    _ => {
                        return Err(CompileError::Malformed(Malformation::MisplacedElse));
                    },
                }
                let _ = gen_else(ctx);
                ctx.set_reachability(0, UnreachableReason::Reachable);
            }
        },
        Operator::End => {
            if depth == 1 {
                let _ = gen_end(ctx);
                ctx.set_reachability(0, UnreachableReason::Reachable);
            } else {
                ctx.set_reachability(depth - 1, reason);
            }
        },
        _ => {},
    }
    Ok(())
}

/// What an operator does in code that can be reached.
pub open spec fn live_result(c: ContextView, op: Operator, env: Value, locals: Seq<Local>) -> Result<
    ContextView,
    CompileError,
> {
    match op {
        Operator::Block { .. } | Operator::Loop { .. } | Operator::If { .. } | Operator::Else
        | Operator::End => block_op_result(c, op, env, locals),
        Operator::Br { .. } | Operator::BrIf { .. } | Operator::BrTable { .. } => branch_op_result(
            c,
            op,
        ),
        Operator::Call { .. } | Operator::CallIndirect { .. } => call_op_result(
            c,
            op,
            env,
            locals,
        ),
        Operator::Drop | Operator::Select | Operator::Return | Operator::Unreachable
        | Operator::Nop => stack_op_result(c, op),
        Operator::I32Const { .. } | Operator::I64Const { .. } | Operator::F32Const { .. }
        | Operator::F64Const { .. } => const_op_result(c, op),
        Operator::LocalGet { .. } | Operator::LocalSet { .. } | Operator::LocalTee { .. }
        | Operator::GlobalGet { .. } | Operator::GlobalSet { .. } => variable_op_result(
            c,
            op,
            locals,
        ),
        Operator::MemorySize { .. } | Operator::MemoryGrow { .. } | Operator::MemoryCopy { .. }
        | Operator::MemoryFill { .. } => memory_op_result(c, op, env),
        _ => if numeric(op).is_some() {
            numeric_op_result(c, op)
        } else if access(op).is_some() {
            memory_op_result(c, op, env)
        } else {
            Err(CompileError::UnsupportedFeature(Unsupported::Operator))
        },
    }
}

/// What the translation of one operator yields: the state after it, or the
/// reason for which the translation is given up. After the end of the
/// function no operator is accepted.
#[verifier::opaque]
pub open spec fn op_result(c: ContextView, op: Operator, env: Value, locals: Seq<Local>) -> Result<
    ContextView,
    CompileError,
> {
    if c.control_frames.len() == 0 {
        Err(CompileError::Malformed(Malformation::NoControlFrame))
    } else if c.unreachable_depth != 0 {
        dead_result(c, op)
    } else {
        live_result(c, op, env, locals)
    }
}

/// Translates one operator of a function body.
pub fn compile_op(ctx: &mut Context, op: &Operator, exec_env_ptr: &Value, locals: &Vec<Local>) -> (r:
    Result<(), CompileError>)
    requires
        translating(old(ctx)@),
    ensures
        match op_result(old(ctx)@, *op, *exec_env_ptr, locals@) {
            Ok(c) => r.is_ok() && final(ctx)@ == c && translating(final(ctx)@) && same_function(
                old(ctx)@,
                final(ctx)@,
            ),
            Err(e) => r == Err::<(), CompileError>(e),
        },
{
    proof {
        reveal(op_result);
    }
    if ctx.control_frames.len() == 0 {
        return Err(CompileError::Malformed(Malformation::NoControlFrame));
    }
    if ctx.unreachable_depth != 0 {
        return compile_dead_op(ctx, op);
    }
    match op {
        Operator::Block { .. } | Operator::Loop { .. } | Operator::If { .. } | Operator::Else
        | Operator::End => compile_block_op(ctx, op, exec_env_ptr, locals),
        Operator::Br { .. } | Operator::BrIf { .. } | Operator::BrTable { .. } => compile_branch_op(
            ctx,
            op,
        ),
        Operator::Call { .. } | Operator::CallIndirect { .. } => compile_call_op(
            ctx,
            op,
            exec_env_ptr,
            locals,
        ),
        Operator::Drop | Operator::Select | Operator::Return | Operator::Unreachable
        | Operator::Nop => compile_stack_op(ctx, op),
        Operator::I32Const { .. } | Operator::I64Const { .. } | Operator::F32Const { .. }
        | Operator::F64Const { .. } => compile_const_op(ctx, op),
        Operator::LocalGet { .. } | Operator::LocalSet { .. } | Operator::LocalTee { .. }
        | Operator::GlobalGet { .. } | Operator::GlobalSet { .. } => compile_variable_op(
            ctx,
            op,
            locals,
        ),
        Operator::MemorySize { .. } | Operator::MemoryGrow { .. } | Operator::MemoryCopy { .. }
        | Operator::MemoryFill { .. } => compile_memory_op(ctx, op, exec_env_ptr),
        _ => {
            if classify(op).is_some() {
                compile_numeric_op(ctx, op)
            } else if classify_access(op).is_some() {
                compile_memory_op(ctx, op, exec_env_ptr)
            } else {
                Err(CompileError::UnsupportedFeature(Unsupported::Operator))
            }
        },
    }
}

} // verus!
