use wanco::context::{Context, StackFrame};
use wanco::driver::{check_config, Args, OptimizationLevel};
use wanco::error::{CompileError, Malformation};
use wanco::ir::{FuncRef, Inst, IrType, Label, Opcode, Value, ValueKind};

fn i32_const(bits: u64) -> Value {
    Value { kind: ValueKind::Const { bits }, ty: IrType::I32 }
}

fn context_with_stack() -> Context {
    let mut ctx = Context::new(Args::default());
    ctx.stack_frames.push(StackFrame::new());
    ctx
}

#[test]
fn new_stack_frame_is_empty() {
    assert!(StackFrame::new().stack.is_empty());
}

#[test]
fn new_context_knows_nothing() {
    let ctx = Context::new(Args::default());
    assert_eq!(ctx.config, Args::default());
    assert!(ctx.builder.blocks.is_empty());
    assert_eq!(ctx.builder.position, None);
    assert!(ctx.signatures.is_empty());
    assert!(ctx.functions.is_empty());
    assert!(ctx.stack_frames.is_empty());
    assert!(ctx.control_frames.is_empty());
    assert_eq!(ctx.unreachable_depth, 0);
    assert_eq!(ctx.num_migration_points, 0);
    assert_eq!(ctx.start_function_idx, None);
}

#[test]
fn push_then_pop_returns_the_value() {
    let mut ctx = context_with_stack();
    ctx.push(i32_const(7));
    assert_eq!(ctx.current_frame_size(), 1);
    assert_eq!(ctx.pop(), Some(i32_const(7)));
    assert_eq!(ctx.current_frame_size(), 0);
}

#[test]
fn pop_on_an_empty_stack_is_none() {
    let mut ctx = context_with_stack();
    assert_eq!(ctx.pop(), None);
    assert_eq!(ctx.current_frame_size(), 0);
}

#[test]
fn pop2_returns_the_lower_value_first() {
    let mut ctx = context_with_stack();
    ctx.push(i32_const(1));
    ctx.push(i32_const(2));
    ctx.push(i32_const(3));
    assert_eq!(ctx.pop2(), (i32_const(2), i32_const(3)));
    assert_eq!(ctx.current_frame_size(), 1);
}

#[test]
fn peekn_returns_the_topmost_values_lowest_first() {
    let mut ctx = context_with_stack();
    ctx.push(i32_const(1));
    ctx.push(i32_const(2));
    ctx.push(i32_const(3));
    assert_eq!(ctx.peekn(2).unwrap(), &[i32_const(2), i32_const(3)][..]);
    assert_eq!(ctx.peekn(0).unwrap(), &[][..]);
    assert_eq!(ctx.current_frame_size(), 3);
}

#[test]
fn peekn_of_more_than_there_is_fails() {
    let mut ctx = context_with_stack();
    ctx.push(i32_const(1));
    assert_eq!(ctx.peekn(2), Err(CompileError::Malformed(Malformation::StackUnderflow)));
}

#[test]
fn peek_from_top_counts_from_the_top() {
    let mut ctx = context_with_stack();
    ctx.push(i32_const(1));
    ctx.push(i32_const(2));
    assert_eq!(ctx.peek_from_top(0), Ok(i32_const(2)));
    assert_eq!(ctx.peek_from_top(1), Ok(i32_const(1)));
    assert_eq!(
        ctx.peek_from_top(2),
        Err(CompileError::Malformed(Malformation::StackUnderflow))
    );
}

#[test]
fn reset_stack_cuts_the_stack_down() {
    let mut ctx = context_with_stack();
    ctx.push(i32_const(1));
    ctx.push(i32_const(2));
    ctx.push(i32_const(3));
    ctx.reset_stack(1);
    assert_eq!(ctx.stack_frames[0].stack, vec![i32_const(1)]);
}

#[test]
fn reset_stack_to_a_larger_depth_changes_nothing() {
    let mut ctx = context_with_stack();
    ctx.push(i32_const(1));
    ctx.reset_stack(5);
    assert_eq!(ctx.stack_frames[0].stack, vec![i32_const(1)]);
}

#[test]
fn pop_and_load_hands_a_plain_value_back() {
    let mut ctx = context_with_stack();
    let b = ctx.builder.append_basic_block(FuncRef::AotMain, Label::Entry);
    ctx.builder.position_at_end(b);
    ctx.push(i32_const(9));
    assert_eq!(ctx.pop_and_load(), i32_const(9));
    assert!(ctx.builder.blocks[0].insts.is_empty());
}

#[test]
fn pop_and_load_loads_through_an_address() {
    let mut ctx = context_with_stack();
    let b = ctx.builder.append_basic_block(FuncRef::AotMain, Label::Entry);
    ctx.builder.position_at_end(b);
    let address = Value { kind: ValueKind::Global { index: 0 }, ty: IrType::Ptr };
    ctx.push(address);
    let loaded = ctx.pop_and_load();
    assert_eq!(loaded, Value { kind: ValueKind::Inst { block: 0, index: 0 }, ty: IrType::I64 });
    assert_eq!(
        ctx.builder.blocks[0].insts,
        vec![Inst {
            op: Opcode::Load { volatile: false },
            ty: Some(IrType::I64),
            operands: vec![address],
            targets: vec![],
        }]
    );
}

#[test]
fn stackmap_ids_count_up_from_zero() {
    let mut ctx = Context::new(Args::default());
    assert_eq!(ctx.get_next_stackmap_id(), 0);
    assert_eq!(ctx.get_next_stackmap_id(), 1);
    assert_eq!(ctx.get_next_stackmap_id(), 2);
}

#[test]
fn stackmap_ids_start_again_after_the_largest() {
    let mut ctx = Context::new(Args::default());
    ctx.next_stackmap_id = u64::MAX;
    assert_eq!(ctx.get_next_stackmap_id(), u64::MAX);
    assert_eq!(ctx.get_next_stackmap_id(), 0);
}

#[test]
fn default_options() {
    let args = Args::default();
    assert!(!args.enable_cr);
    assert!(!args.optimize_cr);
    assert!(!args.compile_only);
    assert_eq!(args.optimization, OptimizationLevel::O1);
    assert_eq!(OptimizationLevel::default(), OptimizationLevel::O1);
    assert!(check_config(&args));
}

#[test]
fn refinements_need_the_instrumentation() {
    let base = Args::default();
    assert!(!check_config(&Args { optimize_cr: true, ..base }));
    assert!(!check_config(&Args { disable_loop_cr: true, ..base }));
    assert!(!check_config(&Args { no_restore: true, ..base }));
    assert!(!check_config(&Args { checkpoint_v2: true, ..base }));
    assert!(check_config(&Args { enable_cr: true, ..base }));
    assert!(check_config(&Args { enable_cr: true, optimize_cr: true, disable_loop_cr: true, ..base }));
}
