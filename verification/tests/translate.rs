use wanco::compile::compile_module::compile;
use wanco::context::Context;
use wanco::driver::Args;
use wanco::error::{CompileError, Malformation, Unsupported};
use wanco::ir::{
    BinOp, Block, CastOp, EnvField, FuncRef, Incoming, Inst, IntPredicate, Intrinsic, IrType,
    Label, NumType, Opcode, Phi, RuntimeFn, UnOp, Value, ValueKind,
};
use wanco::wasm::{
    CompositeType, Export, ExternalKind, FuncType, FunctionBody, LocalGroup, MemArg, Operator,
    Section, ValType,
};

fn module(
    params: Vec<ValType>,
    results: Vec<ValType>,
    locals: Vec<LocalGroup>,
    operators: Vec<Operator>,
) -> Vec<Section> {
    vec![
        Section::Type(vec![CompositeType::Func(FuncType { params, results })]),
        Section::Function(vec![0]),
        Section::Export(vec![Export {
            name: "_start".to_string(),
            kind: ExternalKind::Func,
            index: 0,
        }]),
        Section::Code(vec![FunctionBody { locals, operators }]),
    ]
}

fn translate(
    params: Vec<ValType>,
    results: Vec<ValType>,
    locals: Vec<LocalGroup>,
    operators: Vec<Operator>,
) -> Result<Context, CompileError> {
    compile(&module(params, results, locals, operators), &Args::default())
}

/// The blocks of function 0, in the order of their creation.
fn function_blocks(ctx: &Context) -> Vec<(usize, &Block)> {
    ctx.builder
        .blocks
        .iter()
        .enumerate()
        .filter(|(_, b)| b.owner == FuncRef::Wasm(0))
        .collect()
}

fn constant(ty: IrType, bits: u64) -> Value {
    Value { kind: ValueKind::Const { bits }, ty }
}

fn inst(block: usize, index: usize, ty: IrType) -> Value {
    Value { kind: ValueKind::Inst { block, index }, ty }
}

fn env() -> Value {
    Value { kind: ValueKind::Param { index: 0 }, ty: IrType::Ptr }
}

fn op(op: Opcode, ty: Option<IrType>, operands: Vec<Value>) -> Inst {
    Inst { op, ty, operands, targets: vec![] }
}

fn br(dest: usize) -> Inst {
    Inst { op: Opcode::Br, ty: None, operands: vec![], targets: vec![dest] }
}

fn ret(value: Option<Value>) -> Inst {
    Inst { op: Opcode::Ret, ty: None, operands: value.into_iter().collect(), targets: vec![] }
}

const ENTRY: usize = 3;
const RET: usize = 4;

#[test]
fn adding_two_constants() {
    let ctx = translate(
        vec![],
        vec![ValType::I32],
        vec![],
        vec![
            Operator::I32Const { value: 2 },
            Operator::I32Const { value: 3 },
            Operator::I32Add,
            Operator::End,
        ],
    )
    .unwrap();
    let blocks = function_blocks(&ctx);
    assert_eq!(blocks.len(), 2);
    assert_eq!(blocks[0].0, ENTRY);
    assert_eq!(blocks[0].1.label, Label::Entry);
    assert_eq!(blocks[1].1.label, Label::Ret);
    let sum = inst(ENTRY, 0, IrType::I32);
    assert_eq!(
        blocks[0].1.insts,
        vec![
            op(
                Opcode::Binary(BinOp::Add),
                Some(IrType::I32),
                vec![constant(IrType::I32, 2), constant(IrType::I32, 3)]
            ),
            br(RET),
        ]
    );
    assert_eq!(
        blocks[1].1.phis,
        vec![Phi {
            ty: IrType::I32,
            incoming: vec![Incoming { value: sum, from: ENTRY }],
            erased: false,
        }]
    );
    let result = Value { kind: ValueKind::Phi { block: RET, index: 0 }, ty: IrType::I32 };
    assert_eq!(blocks[1].1.insts, vec![ret(Some(result))]);
}

#[test]
fn the_translation_leaves_no_state_of_a_function_behind() {
    let ctx = translate(vec![], vec![], vec![], vec![Operator::End]).unwrap();
    assert!(ctx.control_frames.is_empty());
    assert_eq!(ctx.unreachable_depth, 0);
    assert_eq!(ctx.num_migration_points, 0);
    assert_eq!(ctx.start_function_idx, Some(0));
}

#[test]
fn negative_constants_are_held_by_their_bit_patterns() {
    let ctx = translate(
        vec![],
        vec![],
        vec![],
        vec![
            Operator::I32Const { value: -1 },
            Operator::I64Const { value: -2 },
            Operator::I64Add,
            Operator::End,
        ],
    );
    assert_eq!(ctx.err(), Some(CompileError::Malformed(Malformation::TypeMismatch)));
    let ctx = translate(
        vec![],
        vec![],
        vec![],
        vec![
            Operator::I64Const { value: -2 },
            Operator::I64Const { value: i64::MIN },
            Operator::I64Sub,
            Operator::Drop,
            Operator::I32Const { value: -1 },
            Operator::I32Const { value: i32::MIN },
            Operator::I32Mul,
            Operator::Drop,
            Operator::End,
        ],
    )
    .unwrap();
    let insts = &ctx.builder.blocks[ENTRY].insts;
    assert_eq!(
        insts[0].operands,
        vec![constant(IrType::I64, 0xffff_ffff_ffff_fffe), constant(IrType::I64, 1 << 63)]
    );
    assert_eq!(
        insts[1].operands,
        vec![constant(IrType::I32, 0xffff_ffff), constant(IrType::I32, 0x8000_0000)]
    );
}

#[test]
fn floating_point_constants_are_reinterpreted_bits() {
    let ctx = translate(
        vec![],
        vec![],
        vec![],
        vec![
            Operator::F32Const { bits: 0x3f80_0000 },
            Operator::Drop,
            Operator::F64Const { bits: 0x4000_0000_0000_0000 },
            Operator::Drop,
            Operator::End,
        ],
    )
    .unwrap();
    let insts = &ctx.builder.blocks[ENTRY].insts;
    assert_eq!(
        insts[0],
        op(
            Opcode::Cast(CastOp::BitCast),
            Some(IrType::F32),
            vec![constant(IrType::I32, 0x3f80_0000)]
        )
    );
    assert_eq!(
        insts[1],
        op(
            Opcode::Cast(CastOp::BitCast),
            Some(IrType::F64),
            vec![constant(IrType::I64, 0x4000_0000_0000_0000)]
        )
    );
}

#[test]
fn counting_leading_zeros_calls_the_intrinsic() {
    let ctx = translate(
        vec![ValType::I64],
        vec![ValType::I64],
        vec![],
        vec![Operator::LocalGet { local_index: 0 }, Operator::I64Clz, Operator::End],
    )
    .unwrap();
    let insts = &ctx.builder.blocks[ENTRY].insts;
    // slot of the parameter, its initial value, the load, the call
    assert_eq!(
        insts[3],
        op(
            Opcode::Call(FuncRef::Intrinsic(Intrinsic::Ctlz(NumType::I64))),
            Some(IrType::I64),
            vec![inst(ENTRY, 2, IrType::I64), constant(IrType::I1, 0)]
        )
    );
}

#[test]
fn population_count_and_square_root_are_intrinsics() {
    let ctx = translate(
        vec![ValType::I32, ValType::F64],
        vec![],
        vec![],
        vec![
            Operator::LocalGet { local_index: 0 },
            Operator::I32Popcnt,
            Operator::Drop,
            Operator::LocalGet { local_index: 1 },
            Operator::F64Sqrt,
            Operator::Drop,
            Operator::End,
        ],
    )
    .unwrap();
    let insts = &ctx.builder.blocks[ENTRY].insts;
    assert_eq!(insts[5].op, Opcode::Call(FuncRef::Intrinsic(Intrinsic::Ctpop(NumType::I32))));
    assert_eq!(insts[5].operands, vec![inst(ENTRY, 4, IrType::I32)]);
    assert_eq!(insts[7].op, Opcode::Call(FuncRef::Intrinsic(Intrinsic::Sqrt(NumType::F64))));
    assert_eq!(insts[7].ty, Some(IrType::F64));
}

#[test]
fn rotation_to_the_left_joins_two_shifts() {
    let ctx = translate(
        vec![ValType::I32, ValType::I32],
        vec![ValType::I32],
        vec![],
        vec![
            Operator::LocalGet { local_index: 0 },
            Operator::LocalGet { local_index: 1 },
            Operator::I32Rotl,
            Operator::End,
        ],
    )
    .unwrap();
    let insts = &ctx.builder.blocks[ENTRY].insts;
    let x = inst(ENTRY, 4, IrType::I32);
    let n = inst(ENTRY, 5, IrType::I32);
    let mask = constant(IrType::I32, 31);
    let bin = |o: BinOp, a: Value, b: Value| op(Opcode::Binary(o), Some(IrType::I32), vec![a, b]);
    assert_eq!(insts[6], bin(BinOp::And, n, mask));
    assert_eq!(insts[7], bin(BinOp::Shl, x, inst(ENTRY, 6, IrType::I32)));
    assert_eq!(
        insts[8],
        op(Opcode::Unary(UnOp::Neg), Some(IrType::I32), vec![inst(ENTRY, 6, IrType::I32)])
    );
    assert_eq!(insts[9], bin(BinOp::And, inst(ENTRY, 8, IrType::I32), mask));
    assert_eq!(insts[10], bin(BinOp::LShr, x, inst(ENTRY, 9, IrType::I32)));
    assert_eq!(
        insts[11],
        bin(BinOp::Or, inst(ENTRY, 7, IrType::I32), inst(ENTRY, 10, IrType::I32))
    );
}

#[test]
fn rotation_to_the_right_of_64_bits() {
    let ctx = translate(
        vec![ValType::I64, ValType::I64],
        vec![ValType::I64],
        vec![],
        vec![
            Operator::LocalGet { local_index: 0 },
            Operator::LocalGet { local_index: 1 },
            Operator::I64Rotr,
            Operator::End,
        ],
    )
    .unwrap();
    let insts = &ctx.builder.blocks[ENTRY].insts;
    assert_eq!(insts[6].operands[1], constant(IrType::I64, 63));
    assert_eq!(insts[7].op, Opcode::Binary(BinOp::LShr));
    assert_eq!(insts[10].op, Opcode::Binary(BinOp::Shl));
    assert_eq!(insts[11].op, Opcode::Binary(BinOp::Or));
}

#[test]
fn comparisons_yield_a_32_bit_integer() {
    let ctx = translate(
        vec![ValType::I64, ValType::I64],
        vec![ValType::I32],
        vec![],
        vec![
            Operator::LocalGet { local_index: 0 },
            Operator::LocalGet { local_index: 1 },
            Operator::I64LtU,
            Operator::End,
        ],
    )
    .unwrap();
    let insts = &ctx.builder.blocks[ENTRY].insts;
    assert_eq!(
        insts[6],
        op(
            Opcode::IntCompare(IntPredicate::ULT),
            Some(IrType::I1),
            vec![inst(ENTRY, 4, IrType::I64), inst(ENTRY, 5, IrType::I64)]
        )
    );
    assert_eq!(
        insts[7],
        op(Opcode::Cast(CastOp::ZExt), Some(IrType::I32), vec![inst(ENTRY, 6, IrType::I1)])
    );
}

#[test]
fn testing_for_zero_compares_with_zero() {
    let ctx = translate(
        vec![ValType::I64],
        vec![ValType::I32],
        vec![],
        vec![Operator::LocalGet { local_index: 0 }, Operator::I64Eqz, Operator::End],
    )
    .unwrap();
    let insts = &ctx.builder.blocks[ENTRY].insts;
    assert_eq!(
        insts[3],
        op(
            Opcode::IntCompare(IntPredicate::EQ),
            Some(IrType::I1),
            vec![inst(ENTRY, 2, IrType::I64), constant(IrType::I64, 0)]
        )
    );
}

#[test]
fn sign_extension_truncates_first() {
    let ctx = translate(
        vec![ValType::I64],
        vec![ValType::I64],
        vec![],
        vec![Operator::LocalGet { local_index: 0 }, Operator::I64Extend16S, Operator::End],
    )
    .unwrap();
    let insts = &ctx.builder.blocks[ENTRY].insts;
    assert_eq!(
        insts[3],
        op(Opcode::Cast(CastOp::Trunc), Some(IrType::I16), vec![inst(ENTRY, 2, IrType::I64)])
    );
    assert_eq!(
        insts[4],
        op(Opcode::Cast(CastOp::SExt), Some(IrType::I64), vec![inst(ENTRY, 3, IrType::I16)])
    );
}

#[test]
fn conversions_between_number_types() {
    let ctx = translate(
        vec![ValType::I64, ValType::F32],
        vec![],
        vec![],
        vec![
            Operator::LocalGet { local_index: 0 },
            Operator::I32WrapI64,
            Operator::F64ConvertI32U,
            Operator::F32DemoteF64,
            Operator::I32ReinterpretF32,
            Operator::Drop,
            Operator::LocalGet { local_index: 1 },
            Operator::I64TruncF32S,
            Operator::Drop,
            Operator::End,
        ],
    )
    .unwrap();
    let insts = &ctx.builder.blocks[ENTRY].insts;
    let casts: Vec<(Opcode, Option<IrType>)> =
        insts.iter().filter(|i| matches!(i.op, Opcode::Cast(_))).map(|i| (i.op, i.ty)).collect();
    assert_eq!(
        casts,
        vec![
            (Opcode::Cast(CastOp::Trunc), Some(IrType::I32)),
            (Opcode::Cast(CastOp::UiToFp), Some(IrType::F64)),
            (Opcode::Cast(CastOp::FpTrunc), Some(IrType::F32)),
            (Opcode::Cast(CastOp::BitCast), Some(IrType::I32)),
            (Opcode::Cast(CastOp::FpToSi), Some(IrType::I64)),
        ]
    );
}

#[test]
fn parameters_and_locals_get_slots() {
    let ctx = translate(
        vec![ValType::I32, ValType::F64],
        vec![],
        vec![LocalGroup { count: 2, ty: ValType::I64 }],
        vec![Operator::End],
    )
    .unwrap();
    let insts = &ctx.builder.blocks[ENTRY].insts;
    let alloca = |ty: IrType| op(Opcode::Alloca(ty), Some(IrType::Ptr), vec![]);
    let store = |slot: usize, value: Value| {
        op(Opcode::Store, None, vec![inst(ENTRY, slot, IrType::Ptr), value])
    };
    let param = |index: usize, ty: IrType| Value { kind: ValueKind::Param { index }, ty };
    assert_eq!(
        insts[..8],
        [
            alloca(IrType::I32),
            store(0, param(1, IrType::I32)),
            alloca(IrType::F64),
            store(2, param(2, IrType::F64)),
            alloca(IrType::I64),
            store(4, constant(IrType::I64, 0)),
            alloca(IrType::I64),
            store(6, constant(IrType::I64, 0)),
        ]
    );
}

#[test]
fn local_tee_stores_and_keeps_the_value() {
    let ctx = translate(
        vec![],
        vec![ValType::I32],
        vec![LocalGroup { count: 1, ty: ValType::I32 }],
        vec![
            Operator::I32Const { value: 5 },
            Operator::LocalTee { local_index: 0 },
            Operator::End,
        ],
    )
    .unwrap();
    let insts = &ctx.builder.blocks[ENTRY].insts;
    assert_eq!(
        insts[2],
        op(Opcode::Store, None, vec![inst(ENTRY, 0, IrType::Ptr), constant(IrType::I32, 5)])
    );
    assert_eq!(
        ctx.builder.blocks[RET].phis[0].incoming,
        vec![Incoming { value: constant(IrType::I32, 5), from: ENTRY }]
    );
}

#[test]
fn select_chooses_by_a_condition() {
    let ctx = translate(
        vec![],
        vec![ValType::I64],
        vec![],
        vec![
            Operator::I64Const { value: 10 },
            Operator::I64Const { value: 20 },
            Operator::I32Const { value: 1 },
            Operator::Select,
            Operator::End,
        ],
    )
    .unwrap();
    let insts = &ctx.builder.blocks[ENTRY].insts;
    assert_eq!(
        insts[0],
        op(
            Opcode::IntCompare(IntPredicate::NE),
            Some(IrType::I1),
            vec![constant(IrType::I32, 1), constant(IrType::I32, 0)]
        )
    );
    assert_eq!(
        insts[1],
        op(
            Opcode::Select,
            Some(IrType::I64),
            vec![inst(ENTRY, 0, IrType::I1), constant(IrType::I64, 10), constant(IrType::I64, 20)]
        )
    );
}

#[test]
fn a_load_adds_its_offset_to_the_address() {
    let ctx = translate(
        vec![],
        vec![ValType::I64],
        vec![],
        vec![
            Operator::I32Const { value: 8 },
            Operator::I64Load16S { memarg: MemArg { align: 1, offset: 4, memory: 0 } },
            Operator::End,
        ],
    )
    .unwrap();
    let insts = &ctx.builder.blocks[ENTRY].insts;
    assert_eq!(
        insts[..8],
        [
            op(Opcode::Cast(CastOp::ZExt), Some(IrType::I64), vec![constant(IrType::I32, 8)]),
            op(
                Opcode::Binary(BinOp::Add),
                Some(IrType::I64),
                vec![inst(ENTRY, 0, IrType::I64), constant(IrType::I64, 4)]
            ),
            op(
                Opcode::FieldPtr { field: EnvField::MemoryBase.position() },
                Some(IrType::Ptr),
                vec![env()]
            ),
            op(
                Opcode::Load { volatile: false },
                Some(IrType::Ptr),
                vec![inst(ENTRY, 2, IrType::Ptr)]
            ),
            op(
                Opcode::ElemPtr(IrType::I8),
                Some(IrType::Ptr),
                vec![inst(ENTRY, 3, IrType::Ptr), inst(ENTRY, 1, IrType::I64)]
            ),
            op(Opcode::Cast(CastOp::BitCast), Some(IrType::Ptr), vec![inst(ENTRY, 4, IrType::Ptr)]),
            op(
                Opcode::Load { volatile: false },
                Some(IrType::I16),
                vec![inst(ENTRY, 5, IrType::Ptr)]
            ),
            op(Opcode::Cast(CastOp::SExt), Some(IrType::I64), vec![inst(ENTRY, 6, IrType::I16)]),
        ]
    );
}

#[test]
fn a_narrow_store_truncates_the_value() {
    let ctx = translate(
        vec![],
        vec![],
        vec![],
        vec![
            Operator::I32Const { value: 0 },
            Operator::I64Const { value: 0x1_0000_0001 },
            Operator::I64Store32 { memarg: MemArg { align: 2, offset: 0, memory: 0 } },
            Operator::End,
        ],
    )
    .unwrap();
    let insts = &ctx.builder.blocks[ENTRY].insts;
    assert_eq!(
        insts[6],
        op(
            Opcode::Cast(CastOp::Trunc),
            Some(IrType::I32),
            vec![constant(IrType::I64, 0x1_0000_0001)]
        )
    );
    assert_eq!(
        insts[7],
        op(Opcode::Store, None, vec![inst(ENTRY, 5, IrType::Ptr), inst(ENTRY, 6, IrType::I32)])
    );
}

#[test]
fn a_full_width_store_stores_the_value_itself() {
    let ctx = translate(
        vec![],
        vec![],
        vec![],
        vec![
            Operator::I32Const { value: 16 },
            Operator::I32Const { value: 7 },
            Operator::I32Store { memarg: MemArg { align: 2, offset: 0, memory: 0 } },
            Operator::End,
        ],
    )
    .unwrap();
    let insts = &ctx.builder.blocks[ENTRY].insts;
    assert_eq!(
        insts[6],
        op(Opcode::Store, None, vec![inst(ENTRY, 5, IrType::Ptr), constant(IrType::I32, 7)])
    );
}

#[test]
fn memory_copy_copies_from_the_source_to_the_destination() {
    let ctx = translate(
        vec![],
        vec![],
        vec![],
        vec![
            Operator::I32Const { value: 0 },
            Operator::I32Const { value: 16 },
            Operator::I32Const { value: 4 },
            Operator::MemoryCopy { dst_mem: 0, src_mem: 0 },
            Operator::End,
        ],
    )
    .unwrap();
    let insts = &ctx.builder.blocks[ENTRY].insts;
    // the source is resolved first, then the destination
    assert_eq!(insts[2].operands[1], constant(IrType::I32, 16));
    assert_eq!(insts[6].operands[1], constant(IrType::I32, 0));
    assert_eq!(
        insts[8],
        op(
            Opcode::MemCopy,
            None,
            vec![inst(ENTRY, 7, IrType::Ptr), inst(ENTRY, 3, IrType::Ptr), constant(IrType::I32, 4)]
        )
    );
}

#[test]
fn memory_fill_sets_bytes() {
    let ctx = translate(
        vec![],
        vec![],
        vec![],
        vec![
            Operator::I32Const { value: 32 },
            Operator::I32Const { value: 0xab },
            Operator::I32Const { value: 8 },
            Operator::MemoryFill { mem: 0 },
            Operator::End,
        ],
    )
    .unwrap();
    let insts = &ctx.builder.blocks[ENTRY].insts;
    assert_eq!(
        insts[4],
        op(Opcode::Cast(CastOp::Trunc), Some(IrType::I8), vec![constant(IrType::I32, 0xab)])
    );
    assert_eq!(
        insts[5],
        op(
            Opcode::MemSet,
            None,
            vec![inst(ENTRY, 3, IrType::Ptr), inst(ENTRY, 4, IrType::I8), constant(IrType::I32, 8)]
        )
    );
}

#[test]
fn memory_size_reads_the_environment() {
    let ctx = translate(
        vec![],
        vec![ValType::I32],
        vec![],
        vec![Operator::MemorySize { mem: 0 }, Operator::End],
    )
    .unwrap();
    let insts = &ctx.builder.blocks[ENTRY].insts;
    assert_eq!(insts[0], op(Opcode::FieldPtr { field: 1 }, Some(IrType::Ptr), vec![env()]));
    assert_eq!(
        insts[1],
        op(Opcode::Load { volatile: false }, Some(IrType::I32), vec![inst(ENTRY, 0, IrType::Ptr)])
    );
}

#[test]
fn memory_grow_asks_the_runtime() {
    let ctx = translate(
        vec![],
        vec![ValType::I32],
        vec![],
        vec![
            Operator::I32Const { value: 1 },
            Operator::MemoryGrow { mem: 0 },
            Operator::End,
        ],
    )
    .unwrap();
    let insts = &ctx.builder.blocks[ENTRY].insts;
    assert_eq!(
        insts[0],
        op(
            Opcode::Call(FuncRef::Runtime(RuntimeFn::MemoryGrow)),
            Some(IrType::I32),
            vec![env(), constant(IrType::I32, 1)]
        )
    );
    assert_eq!(
        ctx.builder.blocks[RET].phis[0].incoming[0].value,
        inst(ENTRY, 0, IrType::I32)
    );
}

fn failure(operators: Vec<Operator>) -> CompileError {
    translate(vec![], vec![], vec![], operators).err().unwrap()
}

#[test]
fn an_operator_without_its_operands_is_rejected() {
    assert_eq!(
        failure(vec![Operator::I32Const { value: 1 }, Operator::I32Add, Operator::End]),
        CompileError::Malformed(Malformation::StackUnderflow)
    );
    assert_eq!(
        failure(vec![Operator::Drop, Operator::End]),
        CompileError::Malformed(Malformation::StackUnderflow)
    );
    assert_eq!(
        failure(vec![
            Operator::I32Const { value: 1 },
            Operator::I32Const { value: 1 },
            Operator::Select,
            Operator::End
        ]),
        CompileError::Malformed(Malformation::StackUnderflow)
    );
}

#[test]
fn a_block_cannot_take_operands_from_around_it() {
    assert_eq!(
        failure(vec![
            Operator::I32Const { value: 1 },
            Operator::Block { blockty: wanco::wasm::BlockType::Empty },
            Operator::Drop,
            Operator::End,
            Operator::End,
        ]),
        CompileError::Malformed(Malformation::StackUnderflow)
    );
}

#[test]
fn an_operand_of_the_wrong_type_is_rejected() {
    assert_eq!(
        failure(vec![
            Operator::I32Const { value: 1 },
            Operator::F32Const { bits: 0 },
            Operator::I32Add,
            Operator::End
        ]),
        CompileError::Malformed(Malformation::TypeMismatch)
    );
    assert_eq!(
        failure(vec![
            Operator::I32Const { value: 1 },
            Operator::I64Const { value: 2 },
            Operator::I32Const { value: 0 },
            Operator::Select,
            Operator::End
        ]),
        CompileError::Malformed(Malformation::TypeMismatch)
    );
}

#[test]
fn an_operator_outside_the_supported_set_is_rejected() {
    assert_eq!(
        failure(vec![Operator::Unsupported, Operator::End]),
        CompileError::UnsupportedFeature(Unsupported::Operator)
    );
}

#[test]
fn indices_out_of_range_are_rejected() {
    assert_eq!(
        failure(vec![Operator::LocalGet { local_index: 0 }, Operator::End]),
        CompileError::Malformed(Malformation::LocalIndex)
    );
    assert_eq!(
        failure(vec![Operator::GlobalGet { global_index: 0 }, Operator::End]),
        CompileError::Malformed(Malformation::GlobalIndex)
    );
    assert_eq!(
        failure(vec![Operator::Call { function_index: 1 }, Operator::End]),
        CompileError::Malformed(Malformation::FunctionIndex)
    );
    assert_eq!(
        failure(vec![Operator::Br { relative_depth: 1 }, Operator::End]),
        CompileError::Malformed(Malformation::BranchDepth)
    );
    assert_eq!(
        failure(vec![
            Operator::I32Const { value: 0 },
            Operator::BrTable { targets: vec![0, 2], default: 0 },
            Operator::End
        ]),
        CompileError::Malformed(Malformation::BranchDepth)
    );
}

#[test]
fn memories_other_than_the_first_are_not_supported() {
    assert_eq!(
        failure(vec![
            Operator::I32Const { value: 0 },
            Operator::I32Const { value: 0 },
            Operator::I32Const { value: 0 },
            Operator::MemoryCopy { dst_mem: 0, src_mem: 1 },
            Operator::End
        ]),
        CompileError::UnsupportedFeature(Unsupported::MultiMemory)
    );
    assert_eq!(
        failure(vec![
            Operator::I32Const { value: 0 },
            Operator::I32Const { value: 0 },
            Operator::I32Const { value: 0 },
            Operator::MemoryFill { mem: 2 },
            Operator::End
        ]),
        CompileError::UnsupportedFeature(Unsupported::MultiMemory)
    );
}

#[test]
fn indirect_calls_need_table_zero() {
    assert_eq!(
        failure(vec![
            Operator::I32Const { value: 0 },
            Operator::CallIndirect { type_index: 0, table_index: 1 },
            Operator::End
        ]),
        CompileError::UnsupportedFeature(Unsupported::MultiTable)
    );
    assert_eq!(
        failure(vec![
            Operator::I32Const { value: 0 },
            Operator::CallIndirect { type_index: 0, table_index: 0 },
            Operator::End
        ]),
        CompileError::Malformed(Malformation::NoTable)
    );
}

#[test]
fn a_body_must_close_its_blocks_and_end_once() {
    assert_eq!(
        failure(vec![Operator::Nop]),
        CompileError::Malformed(Malformation::UnclosedBlock)
    );
    assert_eq!(
        failure(vec![Operator::End, Operator::Nop]),
        CompileError::Malformed(Malformation::NoControlFrame)
    );
    assert_eq!(
        failure(vec![Operator::Else, Operator::End]),
        CompileError::Malformed(Malformation::MisplacedElse)
    );
}

#[test]
fn locals_of_other_types_are_not_supported() {
    assert_eq!(
        translate(
            vec![],
            vec![],
            vec![LocalGroup { count: 0, ty: ValType::V128 }],
            vec![Operator::End]
        )
        .err(),
        Some(CompileError::UnsupportedFeature(Unsupported::ValueType))
    );
}
