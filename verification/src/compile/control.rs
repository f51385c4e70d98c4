//! Control flow: blocks, loops, conditionals, branches and calls.

use vstd::prelude::*;

use crate::builder::BuilderView;
use crate::compile::compile_type::{block_result, lower_block_type};
use crate::compile::cr::checkpoint::{
    default_value, gen_checkpoint_unwind, gen_return_default_value, unwind_post,
};
use crate::compile::cr::site::{
    gen_migration_point, gen_site, migration_point_post, site_post, site_within_cap, within_cap,
};
use crate::context::{same_function, Context, ContextView, Local};
use crate::error::CompileError;
use crate::ir::{
    FuncRef, Inst, InstView, IntPredicate, IrType, Label, NumType, Opcode, PhiRef, Value,
};
use crate::wasm::BlockType;

verus! {

/// Which arm of an `if` is being translated.
#[derive(Clone, Copy, Debug, PartialEq, Eq, Structural)]
pub enum IfElseState {
    If,
    Else,
}

/// Why the code at the cursor cannot be reached, if it cannot.
#[derive(Clone, Copy, Debug, PartialEq, Eq, Structural)]
pub enum UnreachableReason {
    Br,
    Return,
    Unreachable,
    Reachable,
}

impl UnreachableReason {
    pub open spec fn jumped(self) -> bool {
        self != UnreachableReason::Reachable
    }

    /// Whether control has left the block at the cursor.
    pub fn is_jumped(&self) -> (r: bool)
        ensures
            r == self.jumped(),
    {
        match self {
            UnreachableReason::Br | UnreachableReason::Unreachable | UnreachableReason::Return => {
                true
            },
            UnreachableReason::Reachable => false,
        }
    }
}

/// An open block, loop or conditional. `stack_size` is the depth of the
/// operand stack at its entry. A construct yields at most one value, so
/// there is at most one phi node for its end.
#[derive(Clone, Copy, Debug, PartialEq, Eq, Structural)]
pub enum ControlFrame {
    Loop {
        loop_body: usize,
        loop_next: usize,
        body_phis: Option<PhiRef>,
        end_phis: Option<PhiRef>,
        stack_size: usize,
    },
    Block { next: usize, end_phis: Option<PhiRef>, stack_size: usize },
    IfElse {
        if_then: usize,
        if_else: usize,
        if_end: usize,
        ifelse_state: IfElseState,
        end_phis: Option<PhiRef>,
        stack_size: usize,
    },
}

impl ControlFrame {
    /// The block that a branch to this frame jumps to.
    pub open spec fn dest(self) -> usize {
        match self {
            ControlFrame::Loop { loop_body, .. } => loop_body,
            ControlFrame::Block { next, .. } => next,
            ControlFrame::IfElse { if_end, .. } => if_end,
        }
    }

    /// The block in which translation goes on after the frame's `end`.
    pub open spec fn next(self) -> usize {
        match self {
            ControlFrame::Loop { loop_next, .. } => loop_next,
            ControlFrame::Block { next, .. } => next,
            ControlFrame::IfElse { if_end, .. } => if_end,
        }
    }

    /// The phi node that collects the value a branch to this frame carries.
    pub open spec fn br_phis(self) -> Option<PhiRef> {
        match self {
            ControlFrame::Loop { body_phis, .. } => body_phis,
            ControlFrame::Block { end_phis, .. } => end_phis,
            ControlFrame::IfElse { end_phis, .. } => end_phis,
        }
    }

    /// The phi node that collects the value the frame yields at its `end`.
    pub open spec fn end_phis(self) -> Option<PhiRef> {
        match self {
            ControlFrame::Loop { end_phis, .. } => end_phis,
            ControlFrame::Block { end_phis, .. } => end_phis,
            ControlFrame::IfElse { end_phis, .. } => end_phis,
        }
    }

    pub open spec fn stack_size(self) -> usize {
        match self {
            ControlFrame::Loop { stack_size, .. } => stack_size,
            ControlFrame::Block { stack_size, .. } => stack_size,
            ControlFrame::IfElse { stack_size, .. } => stack_size,
        }
    }

    /// The number of values the frame yields at its `end`.
    pub open spec fn arity(self) -> nat {
        if self.end_phis().is_some() {
            1
        } else {
            0
        }
    }

    /// The number of values a branch to the frame carries.
    pub open spec fn br_arity(self) -> nat {
        if self.br_phis().is_some() {
            1
        } else {
            0
        }
    }

    /// Every block and phi node that the frame names exists.
    pub open spec fn valid_in(self, b: BuilderView) -> bool {
        &&& b.has_block(self.dest())
        &&& b.has_block(self.next())
        &&& self.br_phis() matches Some(p) ==> b.has_phi(p) && p.ty.num().is_some()
        &&& self.end_phis() matches Some(p) ==> b.has_phi(p) && p.ty.num().is_some()
        &&& self matches ControlFrame::IfElse { if_then, if_else, .. } ==> b.has_block(if_then)
            && b.has_block(if_else)
    }

    /// The block that a branch to this frame jumps to.
    pub fn br_dest(&self) -> (b: usize)
        ensures
            b == self.dest(),
    {
        match self {
            ControlFrame::Loop { loop_body, .. } => *loop_body,
            ControlFrame::Block { next, .. } => *next,
            ControlFrame::IfElse { if_end, .. } => *if_end,
        }
    }

    /// The phi node that collects the value a branch to this frame carries.
    pub fn br_phi(&self) -> (p: Option<PhiRef>)
        ensures
            p == self.br_phis(),
    {
        match self {
            ControlFrame::Loop { body_phis, .. } => *body_phis,
            ControlFrame::Block { end_phis, .. } => *end_phis,
            ControlFrame::IfElse { end_phis, .. } => *end_phis,
        }
    }

    /// The phi node that collects the value the frame yields at its `end`.
    pub fn end_phi(&self) -> (p: Option<PhiRef>)
        ensures
            p == self.end_phis(),
    {
        match self {
            ControlFrame::Loop { end_phis, .. } => *end_phis,
            ControlFrame::Block { end_phis, .. } => *end_phis,
            ControlFrame::IfElse { end_phis, .. } => *end_phis,
        }
    }

    /// The block in which translation goes on after the frame's `end`.
    pub fn after_end(&self) -> (b: usize)
        ensures
            b == self.next(),
    {
        match self {
            ControlFrame::Loop { loop_next, .. } => *loop_next,
            ControlFrame::Block { next, .. } => *next,
            ControlFrame::IfElse { if_end, .. } => *if_end,
        }
    }

    /// The depth of the operand stack at the frame's entry.
    pub fn entry_depth(&self) -> (n: usize)
        ensures
            n == self.stack_size(),
    {
        match self {
            ControlFrame::Loop { stack_size, .. } => *stack_size,
            ControlFrame::Block { stack_size, .. } => *stack_size,
            ControlFrame::IfElse { stack_size, .. } => *stack_size,
        }
    }
}

impl ControlFrame {
    /// The frame of an `if` once its `else` has been met.
    pub open spec fn in_else(self) -> ControlFrame {
        match self {
            ControlFrame::IfElse { if_then, if_else, if_end, end_phis, stack_size, .. } => {
                ControlFrame::IfElse {
                    if_then,
                    if_else,
                    if_end,
                    ifelse_state: IfElseState::Else,
                    end_phis,
                    stack_size,
                }
            },
            _ => self,
        }
    }

    /// Whether the frame is that of an `if` whose `else` has not been met.
    pub open spec fn awaits_else(self) -> bool {
        self matches ControlFrame::IfElse { ifelse_state: IfElseState::If, .. }
    }
}

/// The phi node for the value of a construct, in block `b`, if it yields one.
pub open spec fn with_end_phi(c: ContextView, b: usize, t: Option<NumType>) -> ContextView {
    match t {
        Some(t) => c.add_phi(b, t.ir()),
        None => c,
    }
}

/// The place of the phi node that `with_end_phi` adds.
pub open spec fn end_phi_in(c: ContextView, b: usize, t: Option<NumType>) -> Option<PhiRef> {
    match t {
        Some(t) => Some(c.builder.next_phi(b, t.ir())),
        None => None,
    }
}

fn build_end_phi(ctx: &mut Context, b: usize, t: Option<NumType>) -> (phi: Option<PhiRef>)
    requires
        old(ctx)@.wf(),
        old(ctx)@.builder.has_block(b),
    ensures
        final(ctx)@ == with_end_phi(old(ctx)@, b, t),
        phi == end_phi_in(old(ctx)@, b, t),
        phi matches Some(p) ==> final(ctx)@.builder.has_phi(p),
        final(ctx)@.builder.blocks.len() == old(ctx)@.builder.blocks.len(),
        final(ctx)@.builder.position == old(ctx)@.builder.position,
        final(ctx)@.stack_frames == old(ctx)@.stack_frames,
        final(ctx)@.wf(),
{
    match t {
        Some(t) => Some(ctx.build_phi(b, t.to_ir())),
        None => None,
    }
}

/// A block is opened: a block for the code after its `end`, with the phi
/// node for its value, and a frame at the current depth of the stack.
pub open spec fn block_post(c: ContextView, t: Option<NumType>) -> ContextView {
    let next = c.next_block();
    let c1 = c.append_block(Label::BlockNext);
    with_end_phi(c1, next, t).push_frame(
        ControlFrame::Block {
            next,
            end_phis: end_phi_in(c1, next, t),
            stack_size: c.stack().len() as usize,
        },
    )
}

/// Translates `block`.
pub fn gen_block(ctx: &mut Context, blockty: &BlockType) -> (r: Result<(), CompileError>)
    requires
        old(ctx)@.wf(),
    ensures
        match block_result(*blockty) {
            Ok(t) => r.is_ok() && final(ctx)@ == block_post(old(ctx)@, t) && final(ctx)@.wf(),
            Err(e) => r == Err::<(), CompileError>(e) && final(ctx)@ == old(ctx)@,
        },
{
    let t = match lower_block_type(blockty) {
        Ok(t) => t,
        Err(e) => {
            return Err(e);
        },
    };
    let stack_size = ctx.current_frame_size();
    let next = ctx.append_basic_block(Label::BlockNext);
    let end_phis = build_end_phi(ctx, next, t);
    ctx.push_control_frame(ControlFrame::Block { next, end_phis, stack_size });
    Ok(())
}

/// A loop is opened: a block for its body and one for the code after its
/// `end`, and a frame at the current depth of the stack. Control goes to
/// the body, where the cursor is put. Where the program is instrumented and
/// loops are not exempt, the head of the loop is a migration point.
pub open spec fn loop_post(c: ContextView, env: Value, locals: Seq<Local>, t: Option<NumType>) -> ContextView {
    let body = c.next_block();
    let next = (c.builder.blocks.len() + 1) as usize;
    let c1 = c.append_block(Label::LoopBody).append_block(Label::LoopNext);
    let c2 = with_end_phi(c1, next, t).push_frame(
        ControlFrame::Loop {
            loop_body: body,
            loop_next: next,
            body_phis: None,
            end_phis: end_phi_in(c1, next, t),
            stack_size: c.stack().len() as usize,
        },
    ).emit1(InstView::br(body)).position_at(body);
    if c.checkpoints() && !c.config.disable_loop_cr {
        migration_point_post(c2, env, locals)
    } else {
        c2
    }
}

/// Translates `loop`.
pub fn gen_loop(
    ctx: &mut Context,
    exec_env_ptr: &Value,
    locals: &Vec<Local>,
    blockty: &BlockType,
) -> (r: Result<(), CompileError>)
    requires
        old(ctx)@.at_site(),
    ensures
        match block_result(*blockty) {
            Ok(t) => r.is_ok() && final(ctx)@ == loop_post(old(ctx)@, *exec_env_ptr, locals@, t)
                && final(ctx)@.at_site() && same_function(old(ctx)@, final(ctx)@)
                && final(ctx)@.stack().len() == old(ctx)@.stack().len()
                && final(ctx)@.control_frames.drop_last() == old(ctx)@.control_frames
                && final(ctx)@.control_frames.len() == old(ctx)@.control_frames.len() + 1
                && final(ctx)@.unreachable_depth == old(ctx)@.unreachable_depth
                && final(ctx)@.unreachable_reason == old(ctx)@.unreachable_reason,
            Err(e) => r == Err::<(), CompileError>(e) && final(ctx)@ == old(ctx)@,
        },
{
    let t = match lower_block_type(blockty) {
        Ok(t) => t,
        Err(e) => {
            return Err(e);
        },
    };
    let stack_size = ctx.current_frame_size();
    let body_block = ctx.append_basic_block(Label::LoopBody);
    let next_block = ctx.append_basic_block(Label::LoopNext);
    let end_phis = build_end_phi(ctx, next_block, t);
    ctx.push_control_frame(
        ControlFrame::Loop {
            loop_body: body_block,
            loop_next: next_block,
            body_phis: None,
            end_phis,
            stack_size,
        },
    );
    ctx.emit(Inst::br(body_block));
    ctx.position_at_end(body_block);
    assert(ctx@.control_frames.drop_last() =~= old(ctx)@.control_frames);
    if ctx.config.enable_cr && !ctx.config.disable_loop_cr {
        gen_migration_point(ctx, exec_env_ptr, locals);
    }
    Ok(())
}

/// The code that tests whether `v` is not zero.
pub open spec fn nonzero(v: Value) -> InstView {
    InstView::op2(
        Opcode::IntCompare(IntPredicate::NE),
        Some(IrType::I1),
        v,
        Value::zero(IrType::I32),
    )
}

/// An `if` is opened: blocks for its two arms and for the code after its
/// `end`. The condition is taken off the stack and control goes to the
/// first arm if it is not zero, to the second otherwise. The frame begins
/// at the depth of the stack without the condition. The cursor is put in
/// the first arm.
pub open spec fn if_post(c: ContextView, t: Option<NumType>) -> ContextView {
    let then_bb = c.next_block();
    let else_bb = (c.builder.blocks.len() + 1) as usize;
    let end_bb = (c.builder.blocks.len() + 2) as usize;
    let c1 = c.append_block(Label::Then).append_block(Label::Else).append_block(Label::End);
    with_end_phi(c1, end_bb, t).drop(1).emit1(nonzero(c.top(0))).emit1(
        InstView::cond_br(c.value_at(0, IrType::I1), then_bb, else_bb),
    ).push_frame(
        ControlFrame::IfElse {
            if_then: then_bb,
            if_else: else_bb,
            if_end: end_bb,
            ifelse_state: IfElseState::If,
            end_phis: end_phi_in(c1, end_bb, t),
            stack_size: (c.stack().len() - 1) as usize,
        },
    ).position_at(then_bb)
}

/// Translates `if`.
pub fn gen_if(ctx: &mut Context, blockty: &BlockType) -> (r: Result<(), CompileError>)
    requires
        old(ctx)@.wf(),
        old(ctx)@.operands() >= 1,
        old(ctx)@.top(0).ty.is_int(),
    ensures
        match block_result(*blockty) {
            Ok(t) => r.is_ok() && final(ctx)@ == if_post(old(ctx)@, t) && final(ctx)@.wf(),
            Err(e) => r == Err::<(), CompileError>(e) && final(ctx)@ == old(ctx)@,
        },
{
    let t = match lower_block_type(blockty) {
        Ok(t) => t,
        Err(e) => {
            return Err(e);
        },
    };
    let then_block = ctx.append_basic_block(Label::Then);
    let else_block = ctx.append_basic_block(Label::Else);
    let end_block = ctx.append_basic_block(Label::End);
    let end_phis = build_end_phi(ctx, end_block, t);
    let cond_value = ctx.pop_operand();
    let cond = ctx.build(
        Inst::op2(
            Opcode::IntCompare(IntPredicate::NE),
            Some(IrType::I1),
            cond_value,
            Value::const_zero(IrType::I32),
        ),
    );
    ctx.emit(Inst::cond_br(cond, then_block, else_block));
    let stack_size = ctx.current_frame_size();
    ctx.push_control_frame(
        ControlFrame::IfElse {
            if_then: then_block,
            if_else: else_block,
            if_end: end_block,
            ifelse_state: IfElseState::If,
            end_phis,
            stack_size,
        },
    );
    ctx.position_at_end(then_block);
    Ok(())
}

/// What `else` asks of the state: the innermost frame is that of an `if`,
/// and where the first arm yields a value and its end can be reached, the
/// value is on the stack.
pub open spec fn else_ok(c: ContextView) -> bool {
    &&& c.control_frames.len() > 0
    &&& c.control_frames.last() is IfElse
    &&& c.unreachable_depth == 0 && c.control_frames.last().end_phis().is_some() ==> c.operands()
        >= 1
}

/// The first arm of an `if` is closed and the second one opened. Where the
/// end of the first arm can be reached, the value that it yields is taken
/// off the stack and handed to the phi node of the `if`; where control has
/// not left the arm, it goes to the end of the `if`. The cursor is put in
/// the second arm.
pub open spec fn else_post(c: ContextView) -> ContextView {
    let f = c.control_frames.last();
    let cur = c.builder.position.unwrap();
    let c1 = c.set_frame(f.in_else());
    let c2 = if c.unreachable_depth == 0 {
        match f.end_phis() {
            Some(p) => c1.drop(1).add_incoming(p, c.top(0), cur),
            None => c1,
        }
    } else {
        c1
    };
    let c3 = if !c.unreachable_reason.jumped() {
        c2.emit1(InstView::br(f.dest()))
    } else {
        c2
    };
    c3.position_at(f->if_else)
}

/// Translates `else`.
pub fn gen_else(ctx: &mut Context) -> (r: Result<(), CompileError>)
    requires
        old(ctx)@.wf(),
        else_ok(old(ctx)@),
    ensures
        r.is_ok(),
        final(ctx)@ == else_post(old(ctx)@),
        final(ctx)@.wf(),
{
    let current_block = ctx.insert_block();
    let framelen = ctx.control_frames.len();
    let frame = ctx.control_frames[framelen - 1];
    match frame {
        ControlFrame::IfElse { if_then, if_else, if_end, end_phis, stack_size, .. } => {
            ctx.replace_control_frame(
                ControlFrame::IfElse {
                    if_then,
                    if_else,
                    if_end,
                    ifelse_state: IfElseState::Else,
                    end_phis,
                    stack_size,
                },
            );
            if ctx.unreachable_depth == 0 {
                match end_phis {
                    Some(phi) => {
                        let value = ctx.pop_operand();
                        ctx.add_incoming(phi, value, current_block);
                    },
                    None => {},
                }
            }
            if !ctx.unreachable_reason.is_jumped() {
                ctx.emit(Inst::br(if_end));
            }
            ctx.position_at_end(if_else);
        },
        _ => {},
    }
    Ok(())
}

/// What a branch of depth `relative_depth` asks of the state: the frame
/// exists, and where a branch to it carries a value, the value is on the
/// stack, above `below` other operands.
pub open spec fn br_ok(c: ContextView, relative_depth: u32, below: int) -> bool {
    &&& relative_depth < c.control_frames.len()
    &&& c.operands() >= below + c.frame(relative_depth).br_arity()
}

/// A branch: the value that it carries, if any, is taken off the stack and
/// handed to the phi node of the frame, and control goes to the frame's
/// destination. What follows cannot be reached.
pub open spec fn br_post(c: ContextView, relative_depth: u32) -> ContextView {
    let f = c.frame(relative_depth);
    let cur = c.builder.position.unwrap();
    let c1 = match f.br_phis() {
        Some(p) => c.drop(1).add_incoming(p, c.top(0), cur),
        None => c,
    };
    c1.emit1(InstView::br(f.dest())).jump(UnreachableReason::Br)
}

/// Translates `br`.
pub fn gen_br(ctx: &mut Context, relative_depth: u32) -> (r: Result<(), CompileError>)
    requires
        old(ctx)@.wf(),
        br_ok(old(ctx)@, relative_depth, 0),
        old(ctx)@.unreachable_depth < u32::MAX,
    ensures
        r.is_ok(),
        final(ctx)@ == br_post(old(ctx)@, relative_depth),
        final(ctx)@.wf(),
{
    let current_block = ctx.insert_block();
    let frame = ctx.control_frames[ctx.control_frames.len() - 1 - relative_depth as usize];
    match frame.br_phi() {
        Some(phi) => {
            let value = ctx.pop_operand();
            ctx.add_incoming(phi, value, current_block);
        },
        None => {},
    }
    ctx.emit(Inst::br(frame.br_dest()));
    ctx.mark_jumped(UnreachableReason::Br);
    Ok(())
}

/// A conditional branch: the condition is taken off the stack; the value
/// that the branch carries, if any, stays on the stack and is handed to the
/// phi node of the frame. Control goes to the frame's destination if the
/// condition is not zero, and otherwise to a new block, in which the cursor
/// is put.
pub open spec fn brif_post(c: ContextView, relative_depth: u32) -> ContextView {
    let f = c.frame(relative_depth);
    let cur = c.builder.position.unwrap();
    let else_bb = c.next_block();
    let c1 = c.drop(1).emit1(nonzero(c.top(0)));
    let c2 = match f.br_phis() {
        Some(p) => c1.add_incoming(p, c.top(1), cur),
        None => c1,
    };
    c2.append_block(Label::BrIfElse).emit1(
        InstView::cond_br(c.value_at(0, IrType::I1), f.dest(), else_bb),
    ).position_at(else_bb)
}

/// Translates `br_if`.
pub fn gen_brif(ctx: &mut Context, relative_depth: u32) -> (r: Result<(), CompileError>)
    requires
        old(ctx)@.wf(),
        br_ok(old(ctx)@, relative_depth, 1),
        old(ctx)@.top(0).ty.is_int(),
    ensures
        r.is_ok(),
        final(ctx)@ == brif_post(old(ctx)@, relative_depth),
        final(ctx)@.wf(),
{
    let current_block = ctx.insert_block();
    let frame = ctx.control_frames[ctx.control_frames.len() - 1 - relative_depth as usize];
    let cond = ctx.pop_operand();
    let cond_value = ctx.build(
        Inst::op2(
            Opcode::IntCompare(IntPredicate::NE),
            Some(IrType::I1),
            cond,
            Value::const_zero(IrType::I32),
        ),
    );
    match frame.br_phi() {
        Some(phi) => {
            let value = ctx.peek_from_top(0).unwrap();
            ctx.add_incoming(phi, value, current_block);
        },
        None => {},
    }
    let else_block = ctx.append_basic_block(Label::BrIfElse);
    ctx.emit(Inst::cond_br(cond_value, frame.br_dest(), else_block));
    ctx.position_at_end(else_block);
    Ok(())
}

/// What a branch table asks of the state: every frame that it names
/// exists, the index is on the stack, and where a branch to one of the
/// frames carries a value, the value is below the index.
pub open spec fn br_table_ok(c: ContextView, targets: Seq<u32>, default: u32) -> bool {
    &&& c.operands() >= 1
    &&& c.top(0).ty.is_int()
    &&& default < c.control_frames.len()
    &&& c.frame(default).br_phis().is_some() ==> c.operands() >= 2
    &&& forall|i: int|
        0 <= i < targets.len() ==> (#[trigger] targets[i]) < c.control_frames.len() && (c.frame(
            targets[i],
        ).br_phis().is_some() ==> c.operands() >= 2)
}

/// The edges of a branch table: for each of the first `n` of `targets`, in
/// order, the value `v` is handed to the phi node of the frame, if it has
/// one.
pub open spec fn table_incoming(
    c: ContextView,
    v: Value,
    cur: usize,
    targets: Seq<u32>,
    n: nat,
) -> ContextView
    decreases n,
{
    if n == 0 {
        c
    } else {
        let p = table_incoming(c, v, cur, targets, (n - 1) as nat);
        match c.frame(targets[n - 1]).br_phis() {
            Some(phi) => p.add_incoming(phi, v, cur),
            None => p,
        }
    }
}

/// The constants of the cases of a branch table: the numbers from zero.
pub open spec fn table_constants(n: nat) -> Seq<Value> {
    Seq::new(n, |i: int| Value::constant(IrType::I32, i as u64))
}

/// The destinations of the cases of a branch table.
pub open spec fn table_dests(c: ContextView, targets: Seq<u32>) -> Seq<usize> {
    Seq::new(targets.len(), |i: int| c.frame(targets[i]).dest())
}

/// A branch table: the index is taken off the stack; the value that the
/// branches carry, if any, stays on the stack and is handed to the phi node
/// of every target, in the order of the cases, and to that of the default
/// target last. A switch on the index has one case per target, numbered
/// from zero, and the default target as its default. What follows cannot
/// be reached.
pub open spec fn br_table_post(c: ContextView, targets: Seq<u32>, default: u32) -> ContextView {
    let cur = c.builder.position.unwrap();
    let all = targets.push(default);
    table_incoming(c.drop(1), c.top(1), cur, all, all.len()).emit1(
        InstView::switch(
            c.top(0),
            c.frame(default).dest(),
            table_constants(targets.len()),
            table_dests(c, targets),
        ),
    ).jump(UnreachableReason::Br)
}

/// Translates `br_table`.
pub fn gen_br_table(ctx: &mut Context, targets: &Vec<u32>, default: u32) -> (r: Result<
    (),
    CompileError,
>)
    requires
        old(ctx)@.wf(),
        br_table_ok(old(ctx)@, targets@, default),
        old(ctx)@.unreachable_depth < u32::MAX,
    ensures
        r.is_ok(),
        final(ctx)@ == br_table_post(old(ctx)@, targets@, default),
        final(ctx)@.wf(),
        same_function(old(ctx)@, final(ctx)@),
        final(ctx)@.control_frames == old(ctx)@.control_frames,
        final(ctx)@.unreachable_depth == old(ctx)@.unreachable_depth + 1,
        final(ctx)@.unreachable_reason == UnreachableReason::Br,
{
    let current_block = ctx.insert_block();
    let idx = ctx.pop_operand();
    let ghost c1 = ctx@;
    let ghost all = targets@.push(default);
    let ghost v = old(ctx)@.top(1);
    let nframes = ctx.control_frames.len();
    let mut cases: Vec<Value> = Vec::new();
    let mut dests: Vec<usize> = Vec::new();
    let n = targets.len();
    let mut i: usize = 0;
    while i < n
        invariant
            i <= n,
            n == targets@.len(),
            all == targets@.push(default),
            c1 == old(ctx)@.drop(1),
            v == old(ctx)@.top(1),
            old(ctx)@.wf(),
            br_table_ok(old(ctx)@, targets@, default),
            nframes == c1.control_frames.len(),
            ctx@ == table_incoming(c1, v, current_block, all, i as nat),
            ctx@.control_frames == c1.control_frames,
            ctx@.stack_frames == c1.stack_frames,
            ctx@.unreachable_depth == c1.unreachable_depth,
            ctx@.builder.position == c1.builder.position,
            same_function(c1, ctx@),
            ctx@.wf(),
            cases@ == table_constants(i as nat),
            dests@ == table_dests(old(ctx)@, targets@.take(i as int)),
        decreases n - i,
    {
        let depth = targets[i];
        assert(all[i as int] == depth);
        let dest = ctx.control_frames[nframes - 1 - depth as usize];
        assert(dest == c1.frame(depth));
        cases.push(Value::const_int(IrType::I32, i as u64));
        dests.push(dest.br_dest());
        match dest.br_phi() {
            Some(phi) => {
                let value = ctx.peek_from_top(0).unwrap();
                ctx.add_incoming(phi, value, current_block);
            },
            None => {},
        }
        proof {
            assert(cases@ =~= table_constants((i + 1) as nat));
            assert(dests@ =~= table_dests(old(ctx)@, targets@.take(i + 1)));
        }
        i += 1;
    }
    let default_frame = ctx.control_frames[nframes - 1 - default as usize];
    assert(all[n as int] == default);
    assert(default_frame == c1.frame(default));
    match default_frame.br_phi() {
        Some(phi) => {
            let value = ctx.peek_from_top(0).unwrap();
            ctx.add_incoming(phi, value, current_block);
        },
        None => {},
    }
    proof {
        assert(targets@.take(n as int) =~= targets@);
        assert(ctx@ == table_incoming(c1, v, current_block, all, all.len()));
    }
    ctx.emit(Inst::switch(idx, default_frame.br_dest(), cases, dests));
    ctx.mark_jumped(UnreachableReason::Br);
    Ok(())
}

/// What `end` asks of the state: a frame is open; where its end can be
/// reached, the values that it yields are on the stack; and the frame of a
/// function that returns a value has a phi node for it.
pub open spec fn end_ok(c: ContextView) -> bool {
    &&& c.control_frames.len() > 0
    &&& c.unreachable_reason == UnreachableReason::Reachable ==> c.operands()
        >= c.control_frames.last().arity()
    &&& c.control_frames.len() == 1 && c.ret_ty().is_some()
        ==> c.control_frames.last().end_phis().is_some()
}

/// The end of a function. After a return or a trap the return block only
/// holds a return of the default value. Otherwise control goes to the
/// return block; where the function returns a value, the value on the
/// stack is handed to the phi node of the return block if its end can be
/// reached, and the phi node is returned.
pub open spec fn end_function_post(c: ContextView) -> ContextView {
    let f = c.control_frames.last();
    let cur = c.builder.position.unwrap();
    let c0 = c.pop_frame();
    if c.unreachable_reason == UnreachableReason::Unreachable || c.unreachable_reason
        == UnreachableReason::Return {
        c0.position_at(f.dest()).emit1(InstView::ret(default_value(c.ret_ty())))
    } else {
        let c1 = c0.emit1(InstView::br(f.dest())).position_at(f.dest());
        match c.ret_ty() {
            None => c1.emit1(InstView::ret(None)),
            Some(_) => {
                let phi = f.end_phis().unwrap();
                let c2 = if c.unreachable_reason == UnreachableReason::Reachable {
                    c1.drop(1).add_incoming(phi, c.top(0), cur)
                } else {
                    c1
                };
                c2.emit1(InstView::ret(Some(phi.value())))
            },
        }
    }
}

/// The end of a block, a loop or an `if`. An `if` without a second arm gets
/// one that goes straight to its end. Where the end can be reached, the
/// value that the construct yields is taken off the stack and handed to its
/// phi node, and control goes to the block after the construct. There the
/// stack is cut down to its depth at the entry of the construct and the
/// value of the construct is pushed: the phi node, or zero in the place of
/// a phi node that no edge reaches, which is taken out of the code.
pub open spec fn end_block_post(c: ContextView) -> ContextView {
    let f = c.control_frames.last();
    let cur = c.builder.position.unwrap();
    let c0 = c.pop_frame();
    let c1 = if f.awaits_else() {
        c0.position_at(f->if_else).emit1(InstView::br(f.next()))
    } else {
        c0
    };
    let c2 = if c.unreachable_reason == UnreachableReason::Reachable {
        (match f.end_phis() {
            Some(p) => c1.drop(1).add_incoming(p, c.top(0), cur),
            None => c1,
        }).position_at(cur).emit1(InstView::br(f.next()))
    } else {
        c1
    };
    let c3 = c2.position_at(f.next());
    let c4 = c3.drop(c3.stack().len() - f.stack_size());
    match f.end_phis() {
        None => c4,
        Some(p) => if c2.builder.phi(p).incoming.len() == 0 {
            c4.push(Value::zero(p.ty)).erase_phi(p)
        } else {
            c4.push(p.value())
        },
    }
}

pub open spec fn end_post(c: ContextView) -> ContextView {
    if c.control_frames.len() == 1 {
        end_function_post(c)
    } else {
        end_block_post(c)
    }
}

/// Translates `end`. At the end of a block, a loop or an `if`, the operand
/// stack is as deep as at the entry of the construct, plus the number of
/// values that the construct yields.
pub fn gen_end(ctx: &mut Context) -> (r: Result<(), CompileError>)
    requires
        old(ctx)@.wf(),
        end_ok(old(ctx)@),
    ensures
        r.is_ok(),
        final(ctx)@ == end_post(old(ctx)@),
        final(ctx)@.wf(),
        old(ctx)@.control_frames.len() > 1 ==> final(ctx)@.stack().len() == old(
            ctx,
        )@.control_frames.last().stack_size() + old(ctx)@.control_frames.last().arity(),
{
    let current_block = ctx.insert_block();
    let reason = ctx.unreachable_reason;
    let frame = ctx.pop_control_frame();
    if ctx.control_frames.len() == 0 {
        match reason {
            UnreachableReason::Unreachable | UnreachableReason::Return => {
                ctx.position_at_end(frame.br_dest());
                gen_return_default_value(ctx);
            },
            UnreachableReason::Reachable | UnreachableReason::Br => {
                ctx.emit(Inst::br(frame.br_dest()));
                ctx.position_at_end(frame.br_dest());
                match ctx.return_type() {
                    None => {
                        ctx.emit(Inst::ret(None));
                    },
                    Some(_) => {
                        let phi = frame.end_phi().unwrap();
                        if reason == UnreachableReason::Reachable {
                            let value = ctx.pop_operand();
                            ctx.add_incoming(phi, value, current_block);
                        }
                        ctx.emit(Inst::ret(Some(phi.as_value())));
                    },
                }
            },
        }
    } else {
        match frame {
            ControlFrame::IfElse { if_else, if_end, ifelse_state: IfElseState::If, .. } => {
                ctx.position_at_end(if_else);
                ctx.emit(Inst::br(if_end));
            },
            _ => {},
        }
        let next = frame.after_end();
        let end_phis = frame.end_phi();
        let stack_size = frame.entry_depth();
        if reason == UnreachableReason::Reachable {
            match end_phis {
                Some(phi) => {
                    let value = ctx.pop_operand();
                    ctx.add_incoming(phi, value, current_block);
                },
                None => {},
            }
            ctx.position_at_end(current_block);
            ctx.emit(Inst::br(next));
        }
        ctx.position_at_end(next);
        ctx.truncate_stack(stack_size);
        match end_phis {
            Some(phi) => {
                if ctx.builder.count_incoming(phi) == 0 {
                    ctx.push(Value::const_zero(phi.ty));
                    ctx.erase_phi(phi);
                } else {
                    ctx.push(phi.as_value());
                }
            },
            None => {},
        }
    }
    Ok(())
}

/// Whether a call of function `callee` is a migration point: the program
/// is instrumented, and the call is selected by the analysis where the
/// analysis is asked. Without an analysis every call is selected.
pub open spec fn call_instrumented(c: ContextView, callee: u32) -> bool {
    c.checkpoints() && (c.config.optimize_cr ==> match c.analysis {
        Some(a) => a.instrumented(callee),
        None => true,
    })
}

/// Whether an indirect call through the type with index `type_index` is a
/// migration point.
pub open spec fn indirect_instrumented(c: ContextView, type_index: u32) -> bool {
    c.checkpoints() && (c.config.optimize_cr ==> match c.analysis {
        Some(a) => a.type_instrumented(type_index),
        None => true,
    })
}

fn call_site_instrumented(ctx: &Context, callee: u32) -> (r: bool)
    ensures
        r == call_instrumented(ctx@, callee),
{
    if !ctx.config.enable_cr {
        return false;
    }
    if !ctx.config.optimize_cr {
        return true;
    }
    let caller = match ctx.current_function_idx {
        Some(f) => f,
        None => 0,
    };
    match &ctx.analysis {
        Some(a) => a.call_requires_migration_point(caller, callee),
        None => true,
    }
}

fn indirect_site_instrumented(ctx: &Context, type_index: u32) -> (r: bool)
    ensures
        r == indirect_instrumented(ctx@, type_index),
{
    if !ctx.config.enable_cr {
        return false;
    }
    if !ctx.config.optimize_cr {
        return true;
    }
    let caller = match ctx.current_function_idx {
        Some(f) => f,
        None => 0,
    };
    match &ctx.analysis {
        Some(a) => a.call_indirect_requires_migration_point(caller, type_index),
        None => true,
    }
}

/// The operands on top of the stack have the types `tys`, the last one
/// topmost.
pub open spec fn operands_typed(c: ContextView, tys: Seq<NumType>) -> bool {
    &&& c.operands() >= tys.len()
    &&& forall|i: int|
        0 <= i < tys.len() ==> c.stack()[c.stack().len() - tys.len() + i].ty == (
        #[trigger] tys[i]).ir()
}

/// The type index of function `callee`.
pub open spec fn callee_type(c: ContextView, callee: u32) -> int {
    c.functions[callee as int].type_idx as int
}

/// What a call asks of the state: the callee and its type are known, and
/// the arguments are on the stack.
pub open spec fn call_ok(c: ContextView, callee: u32) -> bool {
    &&& callee < c.functions.len()
    &&& callee_type(c, callee) < c.signatures.len()
    &&& operands_typed(c, c.signatures[callee_type(c, callee)].params)
}

/// The type of the result of a call, in the IR.
pub open spec fn result_ir(t: Option<NumType>) -> Option<IrType> {
    match t {
        Some(t) => Some(t.ir()),
        None => None,
    }
}

/// A call. Where the call is a migration point whose frame is not too
/// large, the site is instrumented before the call and the test for a
/// checkpoint under way follows the call. The arguments are taken off the
/// stack and passed in their order, after the execution environment; the
/// result, if there is one, is pushed.
pub open spec fn call_post(c: ContextView, env: Value, locals: Seq<Local>, callee: u32) -> ContextView {
    let sig = c.signatures[callee_type(c, callee)];
    let n = sig.params.len();
    let site = call_instrumented(c, callee) && within_cap(c, locals);
    let c1 = if site {
        site_post(c, env, locals, Some(sig.params))
    } else {
        c
    };
    let args = c1.stack().subrange(c1.stack().len() - n, c1.stack().len() as int);
    let c2 = c1.drop(n as int).emit1(
        InstView::call(FuncRef::Wasm(callee), result_ir(sig.result), seq![env] + args),
    );
    let c3 = if site {
        unwind_post(c2, env, locals)
    } else {
        c2
    };
    match sig.result {
        Some(t) => c3.push(c1.value_at(0, t.ir())),
        None => c3,
    }
}

fn copy_types(v: &Vec<NumType>) -> (r: Vec<NumType>)
    ensures
        r@ == v@,
{
    let mut r: Vec<NumType> = Vec::new();
    let n = v.len();
    let mut i: usize = 0;
    while i < n
        invariant
            i <= n,
            n == v@.len(),
            r@ == v@.take(i as int),
        decreases n - i,
    {
        r.push(v[i]);
        proof {
            assert(r@ =~= v@.take(i + 1));
        }
        i += 1;
    }
    proof {
        assert(v@.take(n as int) =~= v@);
    }
    r
}

/// What a call site emits from the call on: the call itself, at an
/// instrumented site the test for a checkpoint under way, and the push of
/// the result.
pub open spec fn call_tail_post(
    c: ContextView,
    env: Value,
    locals: Seq<Local>,
    call: InstView,
    result: Option<NumType>,
    site: bool,
) -> ContextView {
    let c1 = c.emit1(call);
    let c2 = if site {
        unwind_post(c1, env, locals)
    } else {
        c1
    };
    match result {
        Some(t) => c2.push(c.value_at(0, t.ir())),
        None => c2,
    }
}

fn gen_call_tail(
    ctx: &mut Context,
    exec_env_ptr: &Value,
    locals: &Vec<Local>,
    call: Inst,
    result: Option<NumType>,
    site: bool,
)
    requires
        old(ctx)@.at_site(),
        call.ty == result_ir(result),
        site ==> within_cap(old(ctx)@, locals@),
    ensures
        final(ctx)@ == call_tail_post(old(ctx)@, *exec_env_ptr, locals@, call@, result, site),
        final(ctx)@.at_site(),
        same_function(old(ctx)@, final(ctx)@),
        final(ctx)@.control_frames == old(ctx)@.control_frames,
        final(ctx)@.unreachable_depth == old(ctx)@.unreachable_depth,
        final(ctx)@.unreachable_reason == old(ctx)@.unreachable_reason,
        final(ctx)@.stack().len() == old(ctx)@.stack().len() + if result.is_some() {
            1int
        } else {
            0int
        },
{
    match result {
        Some(t) => {
            let v = ctx.build(call);
            if site {
                gen_checkpoint_unwind(ctx, exec_env_ptr, locals);
            }
            ctx.push(v);
        },
        None => {
            ctx.emit(call);
            if site {
                gen_checkpoint_unwind(ctx, exec_env_ptr, locals);
            }
        },
    }
}

/// The number of values that an operator with `params` operands and the
/// result `result` leaves on a stack of `depth` values.
pub open spec fn depth_after(depth: nat, params: nat, result: Option<NumType>) -> int {
    depth - params + if result.is_some() {
        1int
    } else {
        0int
    }
}

/// Translates `call`.
pub fn gen_call(
    ctx: &mut Context,
    exec_env_ptr: &Value,
    locals: &Vec<Local>,
    callee_function_index: u32,
) -> (r: Result<(), CompileError>)
    requires
        old(ctx)@.at_site(),
        call_ok(old(ctx)@, callee_function_index),
    ensures
        r.is_ok(),
        final(ctx)@ == call_post(old(ctx)@, *exec_env_ptr, locals@, callee_function_index),
        final(ctx)@.stack().len() == depth_after(
            old(ctx)@.stack().len(),
            old(ctx)@.signatures[callee_type(old(ctx)@, callee_function_index)].params.len(),
            old(ctx)@.signatures[callee_type(old(ctx)@, callee_function_index)].result,
        ),
        final(ctx)@.at_site(),
        same_function(old(ctx)@, final(ctx)@),
        final(ctx)@.control_frames == old(ctx)@.control_frames,
        final(ctx)@.unreachable_depth == old(ctx)@.unreachable_depth,
        final(ctx)@.unreachable_reason == old(ctx)@.unreachable_reason,
{
    let f = ctx.functions[callee_function_index as usize];
    let params = copy_types(&ctx.signatures[f.type_idx as usize].params);
    let result = ctx.signatures[f.type_idx as usize].result;
    let site = call_site_instrumented(ctx, callee_function_index) && site_within_cap(ctx, locals);
    if site {
        gen_site(ctx, exec_env_ptr, locals, Some(&params));
    }
    let mut args = ctx.pop_operands(params.len());
    args.insert(0, *exec_env_ptr);
    proof {
        let c1 = if site {
            site_post(old(ctx)@, *exec_env_ptr, locals@, Some(params@))
        } else {
            old(ctx)@
        };
        assert(args@ =~= seq![*exec_env_ptr] + c1.stack().subrange(
            c1.stack().len() - params@.len(),
            c1.stack().len() as int,
        ));
    }
    let ty = match result {
        Some(t) => Some(t.to_ir()),
        None => None,
    };
    let call = Inst::call(FuncRef::Wasm(callee_function_index), ty, args);
    gen_call_tail(ctx, exec_env_ptr, locals, call, result, site);
    Ok(())
}

/// The types of what an indirect call takes off the stack: the arguments
/// and, on top of them, the index into the table.
pub open spec fn indirect_operands(c: ContextView, type_index: u32) -> Seq<NumType> {
    c.signatures[type_index as int].params.push(NumType::I32)
}

/// What an indirect call asks of the state: the table is table 0 and the
/// module has one, the type is known, and the arguments and the index into
/// the table are on the stack.
pub open spec fn call_indirect_ok(c: ContextView, type_index: u32, table_index: u32) -> bool {
    &&& table_index == 0
    &&& c.global_table.is_some()
    &&& c.global_fptr_array.is_some()
    &&& type_index < c.signatures.len()
    &&& operands_typed(c, indirect_operands(c, type_index))
}

/// An indirect call. The index is taken off the stack; the function index
/// in that slot of the table is loaded, then the address of that function
/// from the array of function addresses, and the call is made through it
/// with the signature of the type. The site is instrumented as that of a
/// call, the index counting as the last argument.
pub open spec fn call_indirect_post(
    c: ContextView,
    env: Value,
    locals: Seq<Local>,
    type_index: u32,
) -> ContextView {
    let sig = c.signatures[type_index as int];
    let n = sig.params.len();
    let site = indirect_instrumented(c, type_index) && within_cap(c, locals);
    let c1 = if site {
        site_post(c, env, locals, Some(indirect_operands(c, type_index)))
    } else {
        c
    };
    let c2 = c1.drop(1).emit1(
        InstView::op2(
            Opcode::ElemPtr(IrType::I32),
            Some(IrType::Ptr),
            Value::global(c.global_table.unwrap()),
            c1.top(0),
        ),
    ).emit1(InstView::load(IrType::I32, c1.value_at(0, IrType::Ptr), false)).emit1(
        InstView::op2(
            Opcode::ElemPtr(IrType::Ptr),
            Some(IrType::Ptr),
            Value::global(c.global_fptr_array.unwrap()),
            c1.value_at(1, IrType::I32),
        ),
    ).emit1(InstView::load(IrType::Ptr, c1.value_at(2, IrType::Ptr), false));
    let args = c2.stack().subrange(c2.stack().len() - n, c2.stack().len() as int);
    let c3 = c2.drop(n as int).emit1(
        InstView::opn(
            Opcode::CallIndirect { type_index },
            result_ir(sig.result),
            seq![c1.value_at(3, IrType::Ptr), env] + args,
        ),
    );
    let c4 = if site {
        unwind_post(c3, env, locals)
    } else {
        c3
    };
    match sig.result {
        Some(t) => c4.push(c1.value_at(4, t.ir())),
        None => c4,
    }
}

/// The code that finds the function an indirect call goes to: the index
/// is taken off the stack, the function index in that slot of the table is
/// loaded, and then the address of that function.
pub open spec fn table_lookup_post(c: ContextView) -> ContextView {
    c.drop(1).emit1(
        InstView::op2(
            Opcode::ElemPtr(IrType::I32),
            Some(IrType::Ptr),
            Value::global(c.global_table.unwrap()),
            c.top(0),
        ),
    ).emit1(InstView::load(IrType::I32, c.value_at(0, IrType::Ptr), false)).emit1(
        InstView::op2(
            Opcode::ElemPtr(IrType::Ptr),
            Some(IrType::Ptr),
            Value::global(c.global_fptr_array.unwrap()),
            c.value_at(1, IrType::I32),
        ),
    ).emit1(InstView::load(IrType::Ptr, c.value_at(2, IrType::Ptr), false))
}

fn gen_table_lookup(ctx: &mut Context) -> (fptr: Value)
    requires
        old(ctx)@.at_site(),
        old(ctx)@.global_table.is_some(),
        old(ctx)@.global_fptr_array.is_some(),
        old(ctx)@.operands() >= 1,
    ensures
        final(ctx)@ == table_lookup_post(old(ctx)@),
        fptr == old(ctx)@.value_at(3, IrType::Ptr),
        final(ctx)@.value_at(0, IrType::Ptr) == old(ctx)@.value_at(4, IrType::Ptr),
        final(ctx)@.at_site(),
        same_function(old(ctx)@, final(ctx)@),
        final(ctx)@.control_frames == old(ctx)@.control_frames,
        final(ctx)@.unreachable_depth == old(ctx)@.unreachable_depth,
        final(ctx)@.unreachable_reason == old(ctx)@.unreachable_reason,
        final(ctx)@.stack() == old(ctx)@.stack().drop_last(),
{
    let table = Value::global_ptr(ctx.global_table.unwrap());
    let fptrs = Value::global_ptr(ctx.global_fptr_array.unwrap());
    let idx = ctx.pop_operand();
    let slot = ctx.build(Inst::op2(Opcode::ElemPtr(IrType::I32), Some(IrType::Ptr), table, idx));
    let fnidx = ctx.build(Inst::load(IrType::I32, slot, false));
    let entry = ctx.build(
        Inst::op2(Opcode::ElemPtr(IrType::Ptr), Some(IrType::Ptr), fptrs, fnidx),
    );
    ctx.build(Inst::load(IrType::Ptr, entry, false))
}

/// Translates `call_indirect`.
pub fn gen_call_indirect(
    ctx: &mut Context,
    exec_env_ptr: &Value,
    locals: &Vec<Local>,
    type_index: u32,
    table_index: u32,
) -> (r: Result<(), CompileError>)
    requires
        old(ctx)@.at_site(),
        call_indirect_ok(old(ctx)@, type_index, table_index),
    ensures
        r.is_ok(),
        final(ctx)@ == call_indirect_post(old(ctx)@, *exec_env_ptr, locals@, type_index),
        final(ctx)@.stack().len() == depth_after(
            old(ctx)@.stack().len(),
            old(ctx)@.signatures[type_index as int].params.len() + 1,
            old(ctx)@.signatures[type_index as int].result,
        ),
        final(ctx)@.at_site(),
        same_function(old(ctx)@, final(ctx)@),
        final(ctx)@.control_frames == old(ctx)@.control_frames,
        final(ctx)@.unreachable_depth == old(ctx)@.unreachable_depth,
        final(ctx)@.unreachable_reason == old(ctx)@.unreachable_reason,
{
    let mut operands = copy_types(&ctx.signatures[type_index as usize].params);
    let nparams = operands.len();
    operands.push(NumType::I32);
    let result = ctx.signatures[type_index as usize].result;
    let site = indirect_site_instrumented(ctx, type_index) && site_within_cap(ctx, locals);
    if site {
        gen_site(ctx, exec_env_ptr, locals, Some(&operands));
    }
    let fptr = gen_table_lookup(ctx);
    let ghost c2 = ctx@;
    let mut args = ctx.pop_operands(nparams);
    args.insert(0, *exec_env_ptr);
    args.insert(0, fptr);
    proof {
        assert(args@ =~= seq![fptr, *exec_env_ptr] + c2.stack().subrange(
            c2.stack().len() - nparams,
            c2.stack().len() as int,
        ));
    }
    let ty = match result {
        Some(t) => Some(t.to_ir()),
        None => None,
    };
    let call = Inst::opn(Opcode::CallIndirect { type_index }, ty, args);
    gen_call_tail(ctx, exec_env_ptr, locals, call, result, site);
    Ok(())
}

/// Translates `drop`.
pub fn gen_drop(ctx: &mut Context) -> (r: Result<(), CompileError>)
    requires
        old(ctx)@.wf(),
        old(ctx)@.operands() >= 1,
    ensures
        r.is_ok(),
        final(ctx)@ == old(ctx)@.drop(1),
        final(ctx)@.wf(),
{
    ctx.pop_operand();
    Ok(())
}

/// What `return` asks of the state: where the function returns a value,
/// the value is on the stack.
pub open spec fn return_ok(c: ContextView) -> bool {
    c.ret_ty().is_some() ==> c.operands() >= 1
}

/// A return: of the topmost value, where the function returns one. What
/// follows cannot be reached.
pub open spec fn return_post(c: ContextView) -> ContextView {
    let c1 = c.jump(UnreachableReason::Return);
    match c.ret_ty() {
        None => c1.emit1(InstView::ret(None)),
        Some(_) => c1.drop(1).emit1(InstView::ret(Some(c.top(0)))),
    }
}

/// Translates `return`.
pub fn gen_return(ctx: &mut Context) -> (r: Result<(), CompileError>)
    requires
        old(ctx)@.wf(),
        return_ok(old(ctx)@),
        old(ctx)@.unreachable_depth < u32::MAX,
    ensures
        r.is_ok(),
        final(ctx)@ == return_post(old(ctx)@),
        final(ctx)@.wf(),
{
    ctx.mark_jumped(UnreachableReason::Return);
    match ctx.return_type() {
        None => {
            ctx.emit(Inst::ret(None));
        },
        Some(_) => {
            let ret = ctx.pop_operand();
            ctx.emit(Inst::ret(Some(ret)));
        },
    }
    Ok(())
}

/// A choice between two values by a condition: of the three topmost
/// operands the lowest is chosen if the topmost is not zero, the middle one
/// otherwise.
pub open spec fn select_post(c: ContextView) -> ContextView {
    let v1 = c.top(2);
    c.drop(3).emit1(nonzero(c.top(0))).emit1(
        InstView::op3(Opcode::Select, Some(v1.ty), c.value_at(0, IrType::I1), v1, c.top(1)),
    ).push(c.value_at(1, v1.ty))
}

/// Translates `select`.
pub fn gen_select(ctx: &mut Context) -> (r: Result<(), CompileError>)
    requires
        old(ctx)@.wf(),
        old(ctx)@.operands() >= 3,
        old(ctx)@.top(0).ty.is_int(),
    ensures
        r.is_ok(),
        final(ctx)@ == select_post(old(ctx)@),
        final(ctx)@.wf(),
{
    let (v1, v2, v3) = ctx.pop_operand3();
    let cond = ctx.build(
        Inst::op2(
            Opcode::IntCompare(IntPredicate::NE),
            Some(IrType::I1),
            v3,
            Value::const_zero(IrType::I32),
        ),
    );
    let res = ctx.build(Inst::op3(Opcode::Select, Some(v1.ty), cond, v1, v2));
    ctx.push(res);
    Ok(())
}

/// Translates `unreachable`: a trap. What follows cannot be reached.
pub fn gen_unreachable(ctx: &mut Context) -> (r: Result<(), CompileError>)
    requires
        old(ctx)@.wf(),
        old(ctx)@.unreachable_depth < u32::MAX,
    ensures
        r.is_ok(),
        final(ctx)@ == old(ctx)@.jump(UnreachableReason::Unreachable).emit1(
            InstView::unreachable(),
        ),
        final(ctx)@.wf(),
{
    ctx.mark_jumped(UnreachableReason::Unreachable);
    ctx.emit(Inst::unreachable());
    Ok(())
}

} // verus!
