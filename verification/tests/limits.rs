use std::collections::{HashMap, HashSet};

use wanco::compile::control::gen_call;
use wanco::compile::cr::checkpoint::{
    gen_checkpoint_before_call, gen_checkpoint_start, gen_checkpoint_unwind, gen_store_frame,
};
use wanco::compile::cr::opt::{may_take_infinite_time, run_analysis_pass};
use wanco::compile::cr::restore::{gen_restore_point, gen_restore_wasm_stack};
use wanco::compile::cr::site::{gen_migration_point, gen_site, site_within_cap};
use wanco::context::{Context, Function, Local, Origin, Signature};
use wanco::driver::Args;
use wanco::ir::{
    EnvField, FuncRef, Inst, Intrinsic, IntPredicate, IrType, Label, NumType, Opcode, RuntimeFn,
    Value, ValueKind,
};
use wanco::wasm::{BlockType, FunctionBody, Operator};

fn env() -> Value {
    Value { kind: ValueKind::Param { index: 0 }, ty: IrType::Ptr }
}

fn constant(ty: IrType, bits: u64) -> Value {
    Value { kind: ValueKind::Const { bits }, ty }
}

fn inst(block: usize, index: usize, ty: IrType) -> Value {
    Value { kind: ValueKind::Inst { block, index }, ty }
}

fn slot(i: u32) -> Value {
    Value { kind: ValueKind::Param { index: 1 + i as usize }, ty: IrType::Ptr }
}

fn locals(n: u32) -> Vec<Local> {
    (0..n).map(|i| Local { ptr: slot(i), ty: NumType::I32 }).collect()
}

/// A state at operator 7 of function 0, whose type is `() -> ()`, with a
/// stack of `depth` values and the cursor in an empty block.
fn at_site(args: Args, depth: usize) -> Context {
    let mut ctx = Context::new(args);
    ctx.add_signature(Signature { params: vec![], result: None });
    ctx.add_function(Function { type_idx: 0, origin: Origin::Defined });
    ctx.current_function_idx = Some(0);
    ctx.begin_function();
    let b = ctx.builder.append_basic_block(FuncRef::Wasm(0), Label::Entry);
    ctx.builder.position_at_end(b);
    ctx.set_current_op(7);
    for i in 0..depth {
        ctx.push(constant(IrType::I64, i as u64));
    }
    ctx
}

fn instrumented() -> Args {
    Args { enable_cr: true, ..Args::default() }
}

fn untouched(ctx: &Context, before: &Context) -> bool {
    ctx.builder == before.builder
        && ctx.num_migration_points == before.num_migration_points
        && ctx.restore_dispatch_cases == before.restore_dispatch_cases
        && ctx.stack_frames == before.stack_frames
}

#[test]
fn the_limit_is_on_locals_and_on_stack_values() {
    assert!(site_within_cap(&at_site(instrumented(), 10_000), &locals(10_000)));
    assert!(!site_within_cap(&at_site(instrumented(), 10_001), &locals(0)));
    assert!(!site_within_cap(&at_site(instrumented(), 0), &locals(10_001)));
}

#[test]
fn a_frame_within_the_limit_is_stored() {
    let mut ctx = at_site(instrumented(), 0);
    gen_store_frame(&mut ctx, &env(), &locals(2));
    let code = &ctx.builder.blocks[0].insts;
    assert_eq!(code.len(), 6);
    assert_eq!(code[0], Inst {
        op: Opcode::Call(FuncRef::Runtime(RuntimeFn::PushFrame)),
        ty: None,
        operands: vec![env()],
        targets: vec![],
    });
    assert_eq!(code[1], Inst {
        op: Opcode::Call(FuncRef::Runtime(RuntimeFn::SetPcToFrame)),
        ty: None,
        operands: vec![env(), constant(IrType::I32, 0), constant(IrType::I32, 7)],
        targets: vec![],
    });
    assert_eq!(code[2], Inst {
        op: Opcode::Load { volatile: false },
        ty: Some(IrType::I32),
        operands: vec![slot(0)],
        targets: vec![],
    });
    assert_eq!(code[5], Inst {
        op: Opcode::Call(FuncRef::Runtime(RuntimeFn::PushLocal(NumType::I32))),
        ty: None,
        operands: vec![env(), inst(0, 4, IrType::I32)],
        targets: vec![],
    });
}

#[test]
fn a_frame_with_too_many_locals_is_not_stored() {
    let mut ctx = at_site(instrumented(), 3);
    let before = at_site(instrumented(), 3);
    gen_store_frame(&mut ctx, &env(), &locals(10_001));
    assert!(untouched(&ctx, &before));
    assert!(ctx.builder.blocks[0].insts.is_empty());
}

#[test]
fn a_frame_with_too_deep_a_stack_is_not_stored() {
    let mut ctx = at_site(instrumented(), 10_001);
    let before = at_site(instrumented(), 10_001);
    gen_store_frame(&mut ctx, &env(), &locals(1));
    assert!(untouched(&ctx, &before));
}

#[test]
fn no_part_of_a_site_is_emitted_over_the_limit() {
    let before = at_site(instrumented(), 1);
    let many = locals(10_001);

    let mut ctx = at_site(instrumented(), 1);
    gen_checkpoint_start(&mut ctx, &env(), &many);
    assert!(untouched(&ctx, &before));

    gen_checkpoint_before_call(&mut ctx, &env(), &many);
    assert!(untouched(&ctx, &before));

    gen_checkpoint_unwind(&mut ctx, &env(), &many);
    assert!(untouched(&ctx, &before));

    gen_restore_wasm_stack(&mut ctx, &env(), &many, None, 0, 0, 0);
    assert!(untouched(&ctx, &before));

    gen_restore_point(&mut ctx, &env(), &many, None, 0, 0);
    assert!(untouched(&ctx, &before));

    gen_site(&mut ctx, &env(), &many, None);
    assert!(untouched(&ctx, &before));

    gen_migration_point(&mut ctx, &env(), &many);
    assert!(untouched(&ctx, &before));
}

#[test]
fn the_unwind_test_is_emitted_within_the_limit() {
    let mut ctx = at_site(instrumented(), 1);
    gen_checkpoint_unwind(&mut ctx, &env(), &locals(10_000));
    assert_eq!(ctx.builder.blocks.len(), 3);
    assert_eq!(ctx.builder.blocks[1].label, Label::UnwindThen(7));
    assert_eq!(ctx.builder.blocks[2].label, Label::UnwindElse(7));
    assert_eq!(ctx.builder.position, Some(2));
    // frame, site, 10000 locals, one stack value, return
    assert_eq!(ctx.builder.blocks[1].insts.len(), 2 + 2 * 10_000 + 1 + 1);
}

#[test]
fn the_test_for_a_checkpoint_reads_the_state_once_and_volatile() {
    let mut ctx = at_site(instrumented(), 0);
    gen_checkpoint_before_call(&mut ctx, &env(), &locals(1));
    let code = &ctx.builder.blocks[0].insts;
    assert_eq!(code.len(), 4);
    assert_eq!(code[0], Inst {
        op: Opcode::FieldPtr { field: EnvField::MigrationState.position() },
        ty: Some(IrType::Ptr),
        operands: vec![env()],
        targets: vec![],
    });
    assert_eq!(code[1], Inst {
        op: Opcode::Load { volatile: true },
        ty: Some(IrType::I32),
        operands: vec![inst(0, 0, IrType::Ptr)],
        targets: vec![],
    });
    assert_eq!(code[2], Inst {
        op: Opcode::IntCompare(IntPredicate::EQ),
        ty: Some(IrType::I1),
        operands: vec![inst(0, 1, IrType::I32), constant(IrType::I32, 1)],
        targets: vec![],
    });
    assert_eq!(code[3].op, Opcode::CondBr);
    assert_eq!(code[3].targets, vec![1, 2]);
    // where the checkpoint starts: the frame is stored, the state set to
    // "continue" and the function left
    let then = &ctx.builder.blocks[1].insts;
    assert_eq!(then.len(), 2 + 2 + 2 + 1);
    assert_eq!(then[5], Inst {
        op: Opcode::Store,
        ty: None,
        operands: vec![inst(1, 4, IrType::Ptr), constant(IrType::I32, 2)],
        targets: vec![],
    });
    assert_eq!(then[6].op, Opcode::Ret);
    assert_eq!(ctx.builder.position, Some(2));
}

#[test]
fn two_checkpoints_at_one_site_store_the_same_frame() {
    let mut a = at_site(instrumented(), 2);
    let mut b = at_site(Args { enable_cr: true, optimize_cr: true, ..Args::default() }, 2);
    b.count_migration_point();
    b.count_migration_point();
    b.builder.append_basic_block(FuncRef::Wasm(0), Label::Main);
    gen_store_frame(&mut a, &env(), &locals(3));
    gen_store_frame(&mut b, &env(), &locals(3));
    assert_eq!(a.builder.blocks[0].insts, b.builder.blocks[0].insts);
    // and a second take in the same state adds the same calls again
    let first = a.builder.blocks[0].insts.clone();
    gen_store_frame(&mut a, &env(), &locals(3));
    let calls = |code: &[Inst]| -> Vec<Opcode> {
        code.iter().filter(|i| matches!(i.op, Opcode::Call(_))).map(|i| i.op).collect()
    };
    assert_eq!(calls(&a.builder.blocks[0].insts[first.len()..]), calls(&first));
}

#[test]
fn a_call_leaves_the_stack_as_deep_as_its_type_says() {
    for enable_cr in [false, true] {
        let mut ctx = at_site(Args { enable_cr, ..Args::default() }, 0);
        ctx.add_signature(Signature {
            params: vec![NumType::I32, NumType::I64],
            result: Some(NumType::F64),
        });
        ctx.add_function(Function { type_idx: 1, origin: Origin::Defined });
        ctx.push(constant(IrType::I64, 9));
        ctx.push(constant(IrType::I32, 1));
        ctx.push(constant(IrType::I64, 2));
        gen_call(&mut ctx, &env(), &locals(1), 1).unwrap();
        assert_eq!(ctx.current_frame_size(), 3 - 2 + 1);
        assert_eq!(ctx.peek_from_top(0).unwrap().ty, IrType::F64);
    }
}

#[test]
fn parameter_lists_of_the_runtime_and_of_the_intrinsics() {
    assert_eq!(RuntimeFn::PushFrame.param_types(), Vec::<IrType>::new());
    assert_eq!(RuntimeFn::SetPcToFrame.param_types(), vec![IrType::I32, IrType::I32]);
    assert_eq!(RuntimeFn::PushLocal(NumType::F32).param_types(), vec![IrType::F32]);
    assert_eq!(RuntimeFn::Push(NumType::I64).param_types(), vec![IrType::I64]);
    assert_eq!(RuntimeFn::Pop(NumType::I64).param_types(), Vec::<IrType>::new());
    assert_eq!(RuntimeFn::MemoryGrow.param_types(), vec![IrType::I32]);
    assert_eq!(Intrinsic::Ctlz(NumType::I64).param_types(), vec![IrType::I64, IrType::I1]);
    assert_eq!(Intrinsic::Sqrt(NumType::F32).param_types(), vec![IrType::F32]);
    assert_eq!(Intrinsic::Minnum(NumType::F64).param_types(), vec![IrType::F64, IrType::F64]);
    assert_eq!(Intrinsic::Stackmap.param_types(), vec![IrType::I64, IrType::I32]);
    assert!(Intrinsic::Stackmap.is_variadic());
    assert!(!Intrinsic::Ctpop(NumType::I32).is_variadic());
}

#[test]
fn the_layout_of_the_environment() {
    let layout = EnvField::layout();
    assert_eq!(layout, vec![IrType::Ptr, IrType::I32, IrType::I32, IrType::I32, IrType::Ptr]);
    for f in [
        EnvField::MemoryBase,
        EnvField::MemorySize,
        EnvField::MigrationState,
        EnvField::Argc,
        EnvField::Argv,
    ] {
        assert_eq!(layout[f.position() as usize], f.field_type());
    }
}

#[test]
fn the_analysis_that_is_kept_describes_the_module() {
    let mut ctx = Context::new(Args { enable_cr: true, optimize_cr: true, ..Args::default() });
    ctx.add_signature(Signature { params: vec![], result: None });
    for _ in 0..3 {
        ctx.add_function(Function { type_idx: 0, origin: Origin::Defined });
    }
    let bodies = vec![
        // calls itself
        FunctionBody {
            locals: vec![],
            operators: vec![Operator::Call { function_index: 0 }, Operator::End],
        },
        // holds a loop
        FunctionBody {
            locals: vec![],
            operators: vec![
                Operator::Loop { blockty: BlockType::Empty },
                Operator::End,
                Operator::End,
            ],
        },
        // neither
        FunctionBody { locals: vec![], operators: vec![Operator::End] },
    ];
    run_analysis_pass(&mut ctx, &bodies).unwrap();
    let a = ctx.analysis.as_ref().unwrap();
    assert_eq!(a.callgraph, HashMap::from([(0, vec![0]), (1, vec![]), (2, vec![])]));
    assert_eq!(a.cycle_fn, HashSet::from([0]));
    assert_eq!(a.fn_has_loop, HashSet::from([1]));
    assert!(may_take_infinite_time(a, 0));
    assert!(may_take_infinite_time(a, 1));
    assert!(!may_take_infinite_time(a, 2));
    assert!(!may_take_infinite_time(a, 3));
}
