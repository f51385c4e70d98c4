use wanco::compile::compile_module::compile;
use wanco::context::{Context, DispatchCase};
use wanco::driver::Args;
use wanco::error::CompileError;
use wanco::ir::{
    Block, FuncRef, Inst, Intrinsic, IntPredicate, IrType, Label, NumType, Opcode, RuntimeFn,
    Value, ValueKind,
};
use wanco::wasm::{
    BlockType, CompositeType, Export, ExternalKind, FuncType, FunctionBody, LocalGroup, Operator,
    Section, ValType,
};

fn instrumented() -> Args {
    Args { enable_cr: true, ..Args::default() }
}

fn func(params: Vec<ValType>, results: Vec<ValType>) -> CompositeType {
    CompositeType::Func(FuncType { params, results })
}

fn body(locals: Vec<LocalGroup>, operators: Vec<Operator>) -> FunctionBody {
    FunctionBody { locals, operators }
}

fn sections(
    types: Vec<CompositeType>,
    functions: Vec<u32>,
    bodies: Vec<FunctionBody>,
) -> Vec<Section> {
    vec![
        Section::Type(types),
        Section::Function(functions),
        Section::Export(vec![Export {
            name: "_start".to_string(),
            kind: ExternalKind::Func,
            index: 0,
        }]),
        Section::Code(bodies),
    ]
}

fn one_function(args: &Args, locals: Vec<LocalGroup>, operators: Vec<Operator>) -> Context {
    compile(&sections(vec![func(vec![], vec![])], vec![0], vec![body(locals, operators)]), args)
        .unwrap()
}

fn constant(ty: IrType, bits: u64) -> Value {
    Value { kind: ValueKind::Const { bits }, ty }
}

fn inst(block: usize, index: usize, ty: IrType) -> Value {
    Value { kind: ValueKind::Inst { block, index }, ty }
}

fn env() -> Value {
    Value { kind: ValueKind::Param { index: 0 }, ty: IrType::Ptr }
}

fn call(f: RuntimeFn, ty: Option<IrType>, operands: Vec<Value>) -> Inst {
    Inst { op: Opcode::Call(FuncRef::Runtime(f)), ty, operands, targets: vec![] }
}

fn find(ctx: &Context, owner: FuncRef, label: Label) -> (usize, &Block) {
    let found: Vec<(usize, &Block)> = ctx
        .builder
        .blocks
        .iter()
        .enumerate()
        .filter(|(_, b)| b.owner == owner && b.label == label)
        .collect();
    assert_eq!(found.len(), 1, "{:?}", label);
    found[0]
}

fn labels(ctx: &Context, owner: FuncRef) -> Vec<Label> {
    ctx.builder.blocks.iter().filter(|b| b.owner == owner).map(|b| b.label).collect()
}

fn runtime_calls(block: &Block) -> Vec<RuntimeFn> {
    block
        .insts
        .iter()
        .filter_map(|i| match i.op {
            Opcode::Call(FuncRef::Runtime(f)) => Some(f),
            _ => None,
        })
        .collect()
}

const ENTRY_OP: u32 = u32::MAX;

#[test]
fn the_entry_of_a_function_is_a_migration_point() {
    let ctx = one_function(&instrumented(), vec![], vec![Operator::End]);
    assert_eq!(ctx.num_migration_points, 1);
    assert_eq!(
        labels(&ctx, FuncRef::Wasm(0)),
        vec![
            Label::Entry,
            Label::Ret,
            Label::RestoreDispatch,
            Label::Main,
            Label::CheckpointStart(ENTRY_OP),
            Label::CheckpointElse(ENTRY_OP),
            Label::RestoreEnd(ENTRY_OP),
            Label::RestoreStart(ENTRY_OP),
            Label::DispatchUnreachable,
        ]
    );
    // blocks 0 to 2 belong to the entry function
    let volatile_read = |b: usize| {
        vec![
            Inst {
                op: Opcode::FieldPtr { field: 2 },
                ty: Some(IrType::Ptr),
                operands: vec![env()],
                targets: vec![],
            },
            Inst {
                op: Opcode::Load { volatile: true },
                ty: Some(IrType::I32),
                operands: vec![inst(b, 0, IrType::Ptr)],
                targets: vec![],
            },
        ]
    };
    let test = |b: usize, state: u64, then: usize, otherwise: usize| {
        let mut code = volatile_read(b);
        code.push(Inst {
            op: Opcode::IntCompare(IntPredicate::EQ),
            ty: Some(IrType::I1),
            operands: vec![inst(b, 1, IrType::I32), constant(IrType::I32, state)],
            targets: vec![],
        });
        code.push(Inst {
            op: Opcode::CondBr,
            ty: None,
            operands: vec![inst(b, 2, IrType::I1)],
            targets: vec![then, otherwise],
        });
        code
    };
    // entry: is the program being restored?
    assert_eq!(ctx.builder.blocks[3].insts, test(3, 3, 5, 6));
    // main: does a checkpoint start?
    assert_eq!(ctx.builder.blocks[6].insts, test(6, 1, 7, 8));
    // the frame is saved, the callers are told to unwind, the function returns
    assert_eq!(
        ctx.builder.blocks[7].insts,
        vec![
            call(RuntimeFn::PushFrame, None, vec![env()]),
            call(
                RuntimeFn::SetPcToFrame,
                None,
                vec![env(), constant(IrType::I32, 0), constant(IrType::I32, 0xffff_ffff)]
            ),
            Inst {
                op: Opcode::FieldPtr { field: 2 },
                ty: Some(IrType::Ptr),
                operands: vec![env()],
                targets: vec![],
            },
            Inst {
                op: Opcode::Store,
                ty: None,
                operands: vec![inst(7, 2, IrType::Ptr), constant(IrType::I32, 2)],
                targets: vec![],
            },
            Inst { op: Opcode::Ret, ty: None, operands: vec![], targets: vec![] },
        ]
    );
    // the restore block takes the frame back and joins the running code
    assert_eq!(
        ctx.builder.blocks[10].insts,
        vec![
            call(RuntimeFn::PopFrontFrame, None, vec![env()]),
            Inst { op: Opcode::Br, ty: None, operands: vec![], targets: vec![9] },
        ]
    );
    // the dispatch goes to the restore block of the saved site
    assert_eq!(
        ctx.builder.blocks[5].insts,
        vec![
            call(RuntimeFn::GetPcFromFrame, Some(IrType::I32), vec![env()]),
            Inst {
                op: Opcode::Switch,
                ty: None,
                operands: vec![inst(5, 0, IrType::I32), constant(IrType::I32, 0xffff_ffff)],
                targets: vec![11, 10],
            },
        ]
    );
    assert_eq!(
        ctx.builder.blocks[11].insts,
        vec![Inst { op: Opcode::Unreachable, ty: None, operands: vec![], targets: vec![] }]
    );
}

#[test]
fn without_instrumentation_nothing_is_added() {
    let ctx = one_function(&Args::default(), vec![], vec![Operator::End]);
    assert_eq!(ctx.num_migration_points, 0);
    assert_eq!(labels(&ctx, FuncRef::Wasm(0)), vec![Label::Entry, Label::Ret]);
}

#[test]
fn a_function_without_calls_and_loops_has_one_site() {
    let ctx = one_function(
        &instrumented(),
        vec![LocalGroup { count: 1, ty: ValType::I32 }],
        vec![
            Operator::I32Const { value: 2 },
            Operator::I32Const { value: 3 },
            Operator::I32Add,
            Operator::LocalSet { local_index: 0 },
            Operator::Block { blockty: BlockType::Empty },
            Operator::LocalGet { local_index: 0 },
            Operator::BrIf { relative_depth: 0 },
            Operator::End,
            Operator::End,
        ],
    );
    assert_eq!(ctx.num_migration_points, 1);
    let starts = labels(&ctx, FuncRef::Wasm(0))
        .into_iter()
        .filter(|l| matches!(l, Label::CheckpointStart(_) | Label::RestoreStart(_)))
        .collect::<Vec<_>>();
    assert_eq!(starts, vec![Label::CheckpointStart(ENTRY_OP), Label::RestoreStart(ENTRY_OP)]);
    let (dispatch, _) = find(&ctx, FuncRef::Wasm(0), Label::RestoreDispatch);
    assert_eq!(ctx.builder.blocks[dispatch].insts[1].targets.len(), 2);
}

#[test]
fn every_read_of_the_migration_state_is_volatile() {
    let ctx = compile(
        &sections(
            vec![func(vec![], vec![]), func(vec![ValType::I32], vec![ValType::I32])],
            vec![0, 1],
            vec![
                body(
                    vec![],
                    vec![
                        Operator::Loop { blockty: BlockType::Empty },
                        Operator::I32Const { value: 1 },
                        Operator::Call { function_index: 1 },
                        Operator::BrIf { relative_depth: 0 },
                        Operator::End,
                        Operator::End,
                    ],
                ),
                body(vec![], vec![Operator::LocalGet { local_index: 0 }, Operator::End]),
            ],
        ),
        &instrumented(),
    )
    .unwrap();
    let mut reads = 0;
    for block in &ctx.builder.blocks {
        for i in &block.insts {
            if let Opcode::Load { volatile } = i.op {
                if let ValueKind::Inst { block: b, index } = i.operands[0].kind {
                    if ctx.builder.blocks[b].insts[index].op == (Opcode::FieldPtr { field: 2 }) {
                        assert!(volatile);
                        reads += 1;
                    }
                }
            }
        }
    }
    // per function a test at the entry and a site at the entry; the loop;
    // two tests at the call; two tests in the entry function, which has no
    // table to restore
    assert_eq!(reads, 2 + 2 + 1 + 2 + 2);
}

#[test]
fn every_call_passes_the_environment_first() {
    let ctx = compile(
        &sections(
            vec![func(vec![], vec![]), func(vec![ValType::I64], vec![])],
            vec![0, 1],
            vec![
                body(
                    vec![],
                    vec![
                        Operator::I64Const { value: 1 },
                        Operator::Call { function_index: 1 },
                        Operator::End,
                    ],
                ),
                body(
                    vec![],
                    vec![
                        Operator::I32Const { value: 1 },
                        Operator::MemoryGrow { mem: 0 },
                        Operator::Drop,
                        Operator::End,
                    ],
                ),
            ],
        ),
        &instrumented(),
    )
    .unwrap();
    let mut calls = 0;
    for block in &ctx.builder.blocks {
        for i in &block.insts {
            match i.op {
                Opcode::Call(FuncRef::Wasm(_)) | Opcode::Call(FuncRef::Runtime(_)) => {
                    assert_eq!(i.operands[0], env());
                    calls += 1;
                }
                _ => {}
            }
        }
    }
    assert!(calls > 10);
}

#[test]
fn what_is_saved_at_a_site_is_what_is_restored() {
    let ctx = compile(
        &sections(
            vec![func(vec![ValType::I32], vec![])],
            vec![0],
            vec![body(
                vec![LocalGroup { count: 1, ty: ValType::F64 }],
                vec![
                    Operator::I64Const { value: 5 },
                    Operator::F32Const { bits: 0 },
                    Operator::Loop { blockty: BlockType::Empty },
                    Operator::End,
                    Operator::Drop,
                    Operator::Drop,
                    Operator::End,
                ],
            )],
        ),
        &instrumented(),
    )
    .unwrap();
    let (_, save) = find(&ctx, FuncRef::Wasm(0), Label::CheckpointStart(2));
    let (restore_bb, restore) = find(&ctx, FuncRef::Wasm(0), Label::RestoreStart(2));
    assert_eq!(
        runtime_calls(save),
        vec![
            RuntimeFn::PushFrame,
            RuntimeFn::SetPcToFrame,
            RuntimeFn::PushLocal(NumType::I32),
            RuntimeFn::PushLocal(NumType::F64),
            // from the top of the stack down
            RuntimeFn::Push(NumType::F32),
            RuntimeFn::Push(NumType::I64),
        ]
    );
    assert_eq!(
        runtime_calls(restore),
        vec![
            RuntimeFn::PopFrontLocal(NumType::I32),
            RuntimeFn::PopFrontLocal(NumType::F64),
            // from the bottom of the stack up
            RuntimeFn::Pop(NumType::I64),
            RuntimeFn::Pop(NumType::F32),
            RuntimeFn::PopFrontFrame,
        ]
    );
    // the site is recorded under the index of the loop
    assert_eq!(
        save.insts[1].operands,
        vec![env(), constant(IrType::I32, 0), constant(IrType::I32, 2)]
    );
    // the restored values and the running ones meet in phi nodes
    let (end_bb, end) = find(&ctx, FuncRef::Wasm(0), Label::RestoreEnd(2));
    let (else_bb, _) = find(&ctx, FuncRef::Wasm(0), Label::CheckpointElse(2));
    assert_eq!(end.phis.len(), 2);
    assert_eq!(end.phis[0].ty, IrType::I64);
    assert_eq!(end.phis[0].incoming[0].value, constant(IrType::I64, 5));
    assert_eq!(end.phis[0].incoming[0].from, else_bb);
    assert_eq!(end.phis[0].incoming[1].value, inst(restore_bb, 4, IrType::I64));
    assert_eq!(end.phis[0].incoming[1].from, restore_bb);
    assert_eq!(end.phis[1].ty, IrType::F32);
    assert_eq!(end.phis[1].incoming[1].value, inst(restore_bb, 5, IrType::F32));
    assert!(ctx.builder.blocks[end_bb].insts.len() > 0);
    assert!(ctx.restore_dispatch_cases.contains(&DispatchCase { op_index: 2, block: restore_bb }));
}

#[test]
fn a_site_with_too_many_locals_is_passed_over() {
    let ctx = one_function(
        &instrumented(),
        vec![LocalGroup { count: 10_001, ty: ValType::I32 }],
        vec![Operator::Loop { blockty: BlockType::Empty }, Operator::End, Operator::End],
    );
    assert_eq!(ctx.num_migration_points, 0);
    assert!(labels(&ctx, FuncRef::Wasm(0))
        .iter()
        .all(|l| !matches!(l, Label::CheckpointStart(_) | Label::RestoreStart(_))));
    let (dispatch, _) = find(&ctx, FuncRef::Wasm(0), Label::RestoreDispatch);
    // the dispatch has no case
    assert_eq!(ctx.builder.blocks[dispatch].insts[1].targets.len(), 1);
}

#[test]
fn a_site_at_the_limit_is_instrumented() {
    let ctx = one_function(
        &instrumented(),
        vec![LocalGroup { count: 10_000, ty: ValType::I32 }],
        vec![Operator::End],
    );
    assert_eq!(ctx.num_migration_points, 1);
}

#[test]
fn loops_can_be_left_without_migration_points() {
    let operators =
        vec![Operator::Loop { blockty: BlockType::Empty }, Operator::End, Operator::End];
    let with = one_function(&instrumented(), vec![], operators.clone());
    assert_eq!(with.num_migration_points, 2);
    let without =
        one_function(&Args { disable_loop_cr: true, ..instrumented() }, vec![], operators);
    assert_eq!(without.num_migration_points, 1);
}

#[test]
fn the_restore_side_can_be_left_out() {
    let ctx = one_function(&Args { no_restore: true, ..instrumented() }, vec![], vec![Operator::End]);
    assert_eq!(
        labels(&ctx, FuncRef::Wasm(0)),
        vec![
            Label::Entry,
            Label::Ret,
            Label::CheckpointStart(ENTRY_OP),
            Label::CheckpointElse(ENTRY_OP),
        ]
    );
    assert!(ctx.restore_dispatch_cases.is_empty());
    assert!(labels(&ctx, FuncRef::AotMain)
        .iter()
        .all(|l| !matches!(l, Label::RestoreThen | Label::RestoreElse)));
}

fn caller_and_callee(args: &Args) -> Context {
    compile(
        &sections(
            vec![func(vec![], vec![]), func(vec![ValType::I32, ValType::I64], vec![ValType::I32])],
            vec![0, 1],
            vec![
                body(
                    vec![],
                    vec![
                        Operator::F64Const { bits: 0 },
                        Operator::I32Const { value: 4 },
                        Operator::I64Const { value: 5 },
                        Operator::Call { function_index: 1 },
                        Operator::Drop,
                        Operator::Drop,
                        Operator::End,
                    ],
                ),
                body(vec![], vec![Operator::LocalGet { local_index: 0 }, Operator::End]),
            ],
        ),
        args,
    )
    .unwrap()
}

#[test]
fn a_call_site_saves_and_restores_its_arguments() {
    let ctx = caller_and_callee(&instrumented());
    let f = FuncRef::Wasm(0);
    // before the call the whole stack is saved, the arguments first
    let (_, save) = find(&ctx, f, Label::CheckpointStart(3));
    assert_eq!(
        runtime_calls(save),
        vec![
            RuntimeFn::PushFrame,
            RuntimeFn::SetPcToFrame,
            RuntimeFn::Push(NumType::I64),
            RuntimeFn::Push(NumType::I32),
            RuntimeFn::Push(NumType::F64),
        ]
    );
    // the restore takes back what lies below the arguments, closes the frame
    // and asks whether the frame was the last
    let (start_bb, start) = find(&ctx, f, Label::RestoreStart(3));
    assert_eq!(
        runtime_calls(start),
        vec![RuntimeFn::Pop(NumType::F64), RuntimeFn::PopFrontFrame, RuntimeFn::FrameIsEmpty]
    );
    let (args_bb, args) = find(&ctx, f, Label::RestoreArgs(3));
    let (args_end_bb, args_end) = find(&ctx, f, Label::RestoreArgsEnd(3));
    assert_eq!(start.insts.last().unwrap().targets, vec![args_bb, args_end_bb]);
    // the arguments are taken back in their order
    assert_eq!(runtime_calls(args), vec![RuntimeFn::Pop(NumType::I32), RuntimeFn::Pop(NumType::I64)]);
    // a frame that was not the last gets zeros for the arguments
    assert_eq!(args_end.phis.len(), 2);
    assert_eq!(args_end.phis[0].incoming[0].value, inst(args_bb, 0, IrType::I32));
    assert_eq!(args_end.phis[0].incoming[0].from, args_bb);
    assert_eq!(args_end.phis[0].incoming[1].value, constant(IrType::I32, 0));
    assert_eq!(args_end.phis[0].incoming[1].from, start_bb);
    assert_eq!(args_end.phis[1].incoming[0].value, inst(args_bb, 1, IrType::I64));
    // the call takes the merged arguments
    let (end_bb, end) = find(&ctx, f, Label::RestoreEnd(3));
    assert_eq!(end.phis.len(), 3);
    let merged = |index: usize, ty: IrType| Value {
        kind: ValueKind::Phi { block: end_bb, index },
        ty,
    };
    assert_eq!(
        end.insts[0],
        Inst {
            op: Opcode::Call(FuncRef::Wasm(1)),
            ty: Some(IrType::I32),
            operands: vec![env(), merged(1, IrType::I32), merged(2, IrType::I64)],
            targets: vec![],
        }
    );
    assert_eq!(
        end.phis[1].incoming[1].value,
        Value { kind: ValueKind::Phi { block: args_end_bb, index: 0 }, ty: IrType::I32 }
    );
    assert_eq!(end.phis[1].incoming[1].from, args_end_bb);
    // after the call a checkpoint under way saves what is left of the stack
    let (_, unwind) = find(&ctx, f, Label::UnwindThen(3));
    assert_eq!(
        runtime_calls(unwind),
        vec![RuntimeFn::PushFrame, RuntimeFn::SetPcToFrame, RuntimeFn::Push(NumType::F64)]
    );
    assert_eq!(unwind.insts.last().unwrap().op, Opcode::Ret);
    let state_is_not_set = unwind.insts.iter().all(|i| i.op != Opcode::Store);
    assert!(state_is_not_set);
    // two functions with a site at the entry each, and the call
    assert_eq!(ctx.num_migration_points, 3);
}

#[test]
fn analysis_selects_the_calls_that_can_run_long() {
    let loops = body(
        vec![],
        vec![Operator::Loop { blockty: BlockType::Empty }, Operator::End, Operator::End],
    );
    let plain = body(vec![], vec![Operator::End]);
    let caller = body(
        vec![],
        vec![
            Operator::Call { function_index: 1 },
            Operator::Call { function_index: 2 },
            Operator::End,
        ],
    );
    let ctx = compile(
        &sections(vec![func(vec![], vec![])], vec![0, 0, 0], vec![caller, plain, loops]),
        &Args { optimize_cr: true, ..instrumented() },
    )
    .unwrap();
    let sites: Vec<Label> = labels(&ctx, FuncRef::Wasm(0))
        .into_iter()
        .filter(|l| matches!(l, Label::CheckpointStart(_)))
        .collect();
    assert_eq!(sites, vec![Label::CheckpointStart(ENTRY_OP), Label::CheckpointStart(1)]);
    let analysis = ctx.analysis.as_ref().unwrap();
    assert!(analysis.call_requires_migration_point(0, 2));
    assert!(!analysis.call_requires_migration_point(0, 1));
    assert!(analysis.function_requires_restore_instrumentation(0));
}

#[test]
fn the_runtime_can_walk_the_frames_itself() {
    let ctx = one_function(
        &Args { checkpoint_v2: true, ..instrumented() },
        vec![LocalGroup { count: 1, ty: ValType::I64 }],
        vec![
            Operator::F32Const { bits: 0 },
            Operator::Loop { blockty: BlockType::Empty },
            Operator::End,
            Operator::Drop,
            Operator::End,
        ],
    );
    let (_, save) = find(&ctx, FuncRef::Wasm(0), Label::CheckpointStart(1));
    assert_eq!(save.insts.len(), 3);
    assert_eq!(save.insts[0], call(RuntimeFn::StartCheckpoint, None, vec![env()]));
    assert_eq!(save.insts[1].op, Opcode::Call(FuncRef::Intrinsic(Intrinsic::Stackmap)));
    let entry = 3;
    let (after_entry_site, _) = find(&ctx, FuncRef::Wasm(0), Label::RestoreEnd(ENTRY_OP));
    assert_eq!(
        save.insts[1].operands,
        vec![
            // function 0, operator 1
            constant(IrType::I64, 1),
            constant(IrType::I32, 0),
            // one local, a 64-bit integer, by its slot
            constant(IrType::I32, 1),
            constant(IrType::I32, 1),
            inst(entry, 0, IrType::Ptr),
            // one stack value, a 32-bit floating-point number
            constant(IrType::I32, 2),
            inst(after_entry_site, 0, IrType::F32),
        ]
    );
    assert_eq!(save.insts[2].op, Opcode::Ret);
    // the entry function does not save the globals itself
    assert!(labels(&ctx, FuncRef::AotMain).iter().all(|l| *l != Label::StoreThen));
}

#[test]
fn failures_are_the_same_with_instrumentation() {
    let r = compile(
        &sections(
            vec![func(vec![], vec![])],
            vec![0],
            vec![body(vec![], vec![Operator::I32Add, Operator::End])],
        ),
        &instrumented(),
    );
    assert_eq!(
        r.err(),
        Some(CompileError::Malformed(wanco::error::Malformation::StackUnderflow))
    );
}
