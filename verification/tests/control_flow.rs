use wanco::compile::compile_module::compile;
use wanco::context::Context;
use wanco::driver::Args;
use wanco::error::{CompileError, Malformation, Unsupported};
use wanco::ir::{
    Block, FuncRef, Incoming, Inst, IntPredicate, IrType, Label, Opcode, Value, ValueKind,
};
use wanco::wasm::{
    BlockType, CompositeType, Export, ExternalKind, FuncType, FunctionBody, Operator, Section,
    ValType,
};

fn translate(
    params: Vec<ValType>,
    results: Vec<ValType>,
    operators: Vec<Operator>,
) -> Result<Context, CompileError> {
    let sections = vec![
        Section::Type(vec![CompositeType::Func(FuncType { params, results })]),
        Section::Function(vec![0]),
        Section::Export(vec![Export {
            name: "_start".to_string(),
            kind: ExternalKind::Func,
            index: 0,
        }]),
        Section::Code(vec![FunctionBody { locals: vec![], operators }]),
    ];
    compile(&sections, &Args::default())
}

fn constant(ty: IrType, bits: u64) -> Value {
    Value { kind: ValueKind::Const { bits }, ty }
}

fn inst(block: usize, index: usize, ty: IrType) -> Value {
    Value { kind: ValueKind::Inst { block, index }, ty }
}

fn phi(block: usize, index: usize, ty: IrType) -> Value {
    Value { kind: ValueKind::Phi { block, index }, ty }
}

fn br(dest: usize) -> Inst {
    Inst { op: Opcode::Br, ty: None, operands: vec![], targets: vec![dest] }
}

fn ret(value: Option<Value>) -> Inst {
    Inst { op: Opcode::Ret, ty: None, operands: value.into_iter().collect(), targets: vec![] }
}

fn block(ctx: &Context, index: usize) -> &Block {
    &ctx.builder.blocks[index]
}

const ENTRY: usize = 3;
const RET: usize = 4;

#[test]
fn a_branch_hands_its_value_to_the_block() {
    let ctx = translate(
        vec![],
        vec![ValType::I32],
        vec![
            Operator::Block { blockty: BlockType::Type(ValType::I32) },
            Operator::I32Const { value: 7 },
            Operator::Br { relative_depth: 0 },
            Operator::End,
            Operator::End,
        ],
    )
    .unwrap();
    assert_eq!(block(&ctx, 5).label, Label::BlockNext);
    assert_eq!(block(&ctx, ENTRY).insts, vec![br(5)]);
    assert_eq!(
        block(&ctx, 5).phis[0].incoming,
        vec![Incoming { value: constant(IrType::I32, 7), from: ENTRY }]
    );
    assert_eq!(block(&ctx, 5).insts, vec![br(RET)]);
    assert_eq!(
        block(&ctx, RET).phis[0].incoming,
        vec![Incoming { value: phi(5, 0, IrType::I32), from: 5 }]
    );
    assert_eq!(block(&ctx, RET).insts, vec![ret(Some(phi(RET, 0, IrType::I32)))]);
}

#[test]
fn both_arms_of_an_if_feed_its_value() {
    let ctx = translate(
        vec![],
        vec![ValType::I32],
        vec![
            Operator::I32Const { value: 1 },
            Operator::If { blockty: BlockType::Type(ValType::I32) },
            Operator::I32Const { value: 10 },
            Operator::Else,
            Operator::I32Const { value: 20 },
            Operator::End,
            Operator::End,
        ],
    )
    .unwrap();
    assert_eq!(block(&ctx, 5).label, Label::Then);
    assert_eq!(block(&ctx, 6).label, Label::Else);
    assert_eq!(block(&ctx, 7).label, Label::End);
    assert_eq!(
        block(&ctx, ENTRY).insts,
        vec![
            Inst {
                op: Opcode::IntCompare(IntPredicate::NE),
                ty: Some(IrType::I1),
                operands: vec![constant(IrType::I32, 1), constant(IrType::I32, 0)],
                targets: vec![],
            },
            Inst {
                op: Opcode::CondBr,
                ty: None,
                operands: vec![inst(ENTRY, 0, IrType::I1)],
                targets: vec![5, 6],
            },
        ]
    );
    assert_eq!(block(&ctx, 5).insts, vec![br(7)]);
    assert_eq!(block(&ctx, 6).insts, vec![br(7)]);
    assert_eq!(
        block(&ctx, 7).phis[0].incoming,
        vec![
            Incoming { value: constant(IrType::I32, 10), from: 5 },
            Incoming { value: constant(IrType::I32, 20), from: 6 },
        ]
    );
    assert_eq!(block(&ctx, 7).insts, vec![br(RET)]);
}

#[test]
fn an_if_without_an_else_gets_one() {
    let ctx = translate(
        vec![],
        vec![],
        vec![
            Operator::I32Const { value: 1 },
            Operator::If { blockty: BlockType::Empty },
            Operator::Nop,
            Operator::End,
            Operator::End,
        ],
    )
    .unwrap();
    assert_eq!(block(&ctx, 5).insts, vec![br(7)]);
    assert_eq!(block(&ctx, 6).insts, vec![br(7)]);
    assert_eq!(block(&ctx, 7).insts, vec![br(RET)]);
    assert_eq!(block(&ctx, RET).insts, vec![ret(None)]);
}

#[test]
fn a_branch_to_a_loop_goes_back_to_its_body() {
    let ctx = translate(
        vec![],
        vec![],
        vec![
            Operator::Loop { blockty: BlockType::Empty },
            Operator::Br { relative_depth: 0 },
            Operator::End,
            Operator::End,
        ],
    )
    .unwrap();
    assert_eq!(block(&ctx, 5).label, Label::LoopBody);
    assert_eq!(block(&ctx, 6).label, Label::LoopNext);
    assert_eq!(block(&ctx, ENTRY).insts, vec![br(5)]);
    assert_eq!(block(&ctx, 5).insts, vec![br(5)]);
    assert_eq!(block(&ctx, 6).insts, vec![br(RET)]);
}

#[test]
fn a_conditional_branch_keeps_its_value_on_the_stack() {
    let ctx = translate(
        vec![],
        vec![ValType::I32],
        vec![
            Operator::Block { blockty: BlockType::Type(ValType::I32) },
            Operator::I32Const { value: 5 },
            Operator::I32Const { value: 1 },
            Operator::BrIf { relative_depth: 0 },
            Operator::End,
            Operator::End,
        ],
    )
    .unwrap();
    assert_eq!(block(&ctx, 6).label, Label::BrIfElse);
    assert_eq!(
        block(&ctx, ENTRY).insts[1],
        Inst {
            op: Opcode::CondBr,
            ty: None,
            operands: vec![inst(ENTRY, 0, IrType::I1)],
            targets: vec![5, 6],
        }
    );
    // the value reaches the end of the block on both ways
    assert_eq!(
        block(&ctx, 5).phis[0].incoming,
        vec![
            Incoming { value: constant(IrType::I32, 5), from: ENTRY },
            Incoming { value: constant(IrType::I32, 5), from: 6 },
        ]
    );
    assert_eq!(block(&ctx, 6).insts, vec![br(5)]);
}

#[test]
fn a_branch_table_becomes_a_switch() {
    let empty = || Operator::Block { blockty: BlockType::Empty };
    let ctx = translate(
        vec![ValType::I32],
        vec![],
        vec![
            empty(),
            empty(),
            empty(),
            empty(),
            Operator::LocalGet { local_index: 0 },
            Operator::BrTable { targets: vec![0, 1, 2], default: 3 },
            Operator::End,
            Operator::End,
            Operator::End,
            Operator::End,
            Operator::End,
        ],
    )
    .unwrap();
    let switch = block(&ctx, ENTRY).insts.last().unwrap();
    assert_eq!(switch.op, Opcode::Switch);
    // the index, then one constant per case
    assert_eq!(
        switch.operands,
        vec![
            inst(ENTRY, 2, IrType::I32),
            constant(IrType::I32, 0),
            constant(IrType::I32, 1),
            constant(IrType::I32, 2),
        ]
    );
    // the default, then one destination per case: the innermost block first
    assert_eq!(switch.targets, vec![5, 8, 7, 6]);
}

#[test]
fn a_branch_table_hands_its_value_to_every_target() {
    let ctx = translate(
        vec![],
        vec![ValType::I32],
        vec![
            Operator::Block { blockty: BlockType::Type(ValType::I32) },
            Operator::I32Const { value: 9 },
            Operator::I32Const { value: 0 },
            Operator::BrTable { targets: vec![0], default: 1 },
            Operator::End,
            Operator::End,
        ],
    )
    .unwrap();
    let value = constant(IrType::I32, 9);
    assert_eq!(
        block(&ctx, 5).phis[0].incoming,
        vec![Incoming { value, from: ENTRY }]
    );
    // the default target comes last
    assert_eq!(
        block(&ctx, RET).phis[0].incoming,
        vec![
            Incoming { value, from: ENTRY },
            Incoming { value: phi(5, 0, IrType::I32), from: 5 },
        ]
    );
}

#[test]
fn the_targets_of_a_branch_table_must_agree() {
    let r = translate(
        vec![],
        vec![],
        vec![
            Operator::Block { blockty: BlockType::Type(ValType::I32) },
            Operator::I32Const { value: 9 },
            Operator::I32Const { value: 0 },
            Operator::BrTable { targets: vec![0], default: 1 },
            Operator::End,
            Operator::Drop,
            Operator::End,
        ],
    );
    assert_eq!(r.err(), Some(CompileError::Malformed(Malformation::TypeMismatch)));
}

#[test]
fn code_after_a_return_is_passed_over() {
    let ctx = translate(
        vec![],
        vec![],
        vec![
            Operator::Return,
            Operator::I32Add,
            Operator::Block { blockty: BlockType::Empty },
            Operator::Unsupported,
            Operator::End,
            Operator::End,
        ],
    )
    .unwrap();
    assert_eq!(block(&ctx, ENTRY).insts, vec![ret(None)]);
    assert_eq!(block(&ctx, RET).insts, vec![ret(None)]);
    assert_eq!(ctx.builder.blocks.iter().filter(|b| b.owner == FuncRef::Wasm(0)).count(), 2);
}

#[test]
fn a_function_that_traps_returns_the_default_value() {
    let ctx = translate(
        vec![],
        vec![ValType::I64],
        vec![Operator::Unreachable, Operator::End],
    )
    .unwrap();
    assert_eq!(
        block(&ctx, ENTRY).insts,
        vec![Inst { op: Opcode::Unreachable, ty: None, operands: vec![], targets: vec![] }]
    );
    assert_eq!(block(&ctx, RET).insts, vec![ret(Some(constant(IrType::I64, 0)))]);
}

#[test]
fn the_else_of_an_if_is_translated_after_a_branch() {
    let ctx = translate(
        vec![],
        vec![ValType::I32],
        vec![
            Operator::I32Const { value: 1 },
            Operator::If { blockty: BlockType::Type(ValType::I32) },
            Operator::I32Const { value: 10 },
            Operator::Br { relative_depth: 0 },
            Operator::I32Const { value: 11 },
            Operator::Else,
            Operator::I32Const { value: 20 },
            Operator::End,
            Operator::End,
        ],
    )
    .unwrap();
    assert_eq!(block(&ctx, 5).insts, vec![br(7)]);
    assert_eq!(
        block(&ctx, 7).phis[0].incoming,
        vec![
            Incoming { value: constant(IrType::I32, 10), from: 5 },
            Incoming { value: constant(IrType::I32, 20), from: 6 },
        ]
    );
}

#[test]
fn a_value_that_no_edge_brings_is_zero() {
    let ctx = translate(
        vec![],
        vec![],
        vec![
            Operator::Block { blockty: BlockType::Type(ValType::I32) },
            Operator::Unreachable,
            Operator::End,
            Operator::Drop,
            Operator::End,
        ],
    )
    .unwrap();
    assert!(block(&ctx, 5).phis[0].erased);
    assert!(block(&ctx, 5).phis[0].incoming.is_empty());
    assert_eq!(block(&ctx, 5).insts, vec![br(RET)]);
}

#[test]
fn the_stack_is_cut_down_at_the_end_of_a_block() {
    // the block leaves two values behind a branch; only its result goes on
    let ctx = translate(
        vec![],
        vec![ValType::I32],
        vec![
            Operator::Block { blockty: BlockType::Type(ValType::I32) },
            Operator::I32Const { value: 1 },
            Operator::I32Const { value: 2 },
            Operator::I32Const { value: 3 },
            Operator::Br { relative_depth: 0 },
            Operator::End,
            Operator::End,
        ],
    )
    .unwrap();
    assert_eq!(
        block(&ctx, 5).phis[0].incoming,
        vec![Incoming { value: constant(IrType::I32, 3), from: ENTRY }]
    );
    assert_eq!(
        block(&ctx, RET).phis[0].incoming,
        vec![Incoming { value: phi(5, 0, IrType::I32), from: 5 }]
    );
}

#[test]
fn blocks_with_function_types_are_not_supported() {
    let r = translate(
        vec![],
        vec![],
        vec![Operator::Block { blockty: BlockType::FuncType(0) }, Operator::End, Operator::End],
    );
    assert_eq!(r.err(), Some(CompileError::UnsupportedFeature(Unsupported::BlockFuncType)));
    let r = translate(
        vec![],
        vec![],
        vec![
            Operator::Loop { blockty: BlockType::Type(ValType::FuncRef) },
            Operator::End,
            Operator::End,
        ],
    );
    assert_eq!(r.err(), Some(CompileError::UnsupportedFeature(Unsupported::ValueType)));
}

#[test]
fn skipped_code_may_nest_deeply() {
    let mut operators = vec![Operator::Return];
    for _ in 0..100 {
        operators.push(Operator::Loop { blockty: BlockType::Empty });
    }
    for _ in 0..100 {
        operators.push(Operator::End);
    }
    operators.push(Operator::End);
    let ctx = translate(vec![], vec![], operators).unwrap();
    assert_eq!(ctx.builder.blocks.iter().filter(|b| b.owner == FuncRef::Wasm(0)).count(), 2);
}

#[test]
fn a_second_else_is_misplaced() {
    let r = translate(
        vec![],
        vec![],
        vec![
            Operator::I32Const { value: 1 },
            Operator::If { blockty: BlockType::Empty },
            Operator::Else,
            Operator::Else,
            Operator::End,
            Operator::End,
        ],
    );
    assert_eq!(r.err(), Some(CompileError::Malformed(Malformation::MisplacedElse)));
}
