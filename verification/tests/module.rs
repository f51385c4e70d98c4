use wanco::compile::compile_module::compile;
use wanco::context::{
    Context, Function, FunctionDecl, Global, GlobalDecl, GlobalKind, GlobalName, Origin, Signature,
};
use wanco::driver::Args;
use wanco::error::{CompileError, Malformation, Unsupported};
use wanco::ir::{
    BinOp, Block, CastOp, FuncRef, Inst, IrType, Label, NumType, Opcode, RuntimeFn, Value,
    ValueKind,
};
use wanco::wasm::{
    CompositeType, ConstExpr, Data, DataKind, Element, ElementItems, ElementKind, Export,
    ExternalKind, FuncType, FunctionBody, GlobalEntry, Import, MemoryType, Operator, Section,
    TableType, TypeRef, ValType,
};

fn func(params: Vec<ValType>, results: Vec<ValType>) -> CompositeType {
    CompositeType::Func(FuncType { params, results })
}

fn start(index: u32) -> Section {
    Section::Export(vec![Export { name: "_start".to_string(), kind: ExternalKind::Func, index }])
}

fn empty_body() -> FunctionBody {
    FunctionBody { locals: vec![], operators: vec![Operator::End] }
}

fn minimal() -> Vec<Section> {
    vec![
        Section::Type(vec![func(vec![], vec![])]),
        Section::Function(vec![0]),
        start(0),
        Section::Code(vec![empty_body()]),
    ]
}

fn with(extra: Vec<Section>) -> Vec<Section> {
    let mut sections = minimal();
    let code = sections.pop().unwrap();
    sections.extend(extra);
    sections.push(code);
    sections
}

fn constant(ty: IrType, bits: u64) -> Value {
    Value { kind: ValueKind::Const { bits }, ty }
}

fn inst(block: usize, index: usize, ty: IrType) -> Value {
    Value { kind: ValueKind::Inst { block, index }, ty }
}

fn env() -> Value {
    Value { kind: ValueKind::Param { index: 0 }, ty: IrType::Ptr }
}

fn global(index: usize) -> Value {
    Value { kind: ValueKind::Global { index }, ty: IrType::Ptr }
}

fn i32_const(value: i32) -> ConstExpr {
    ConstExpr { ops: vec![Operator::I32Const { value }] }
}

fn failure(sections: Vec<Section>) -> CompileError {
    compile(&sections, &Args::default()).err().unwrap()
}

fn blocks_of(ctx: &Context, owner: FuncRef) -> Vec<&Block> {
    ctx.builder.blocks.iter().filter(|b| b.owner == owner).collect()
}

fn simple(op: Opcode, ty: Option<IrType>, operands: Vec<Value>) -> Inst {
    Inst { op, ty, operands, targets: vec![] }
}

fn br(dest: usize) -> Inst {
    Inst { op: Opcode::Br, ty: None, operands: vec![], targets: vec![dest] }
}

fn ret() -> Inst {
    Inst { op: Opcode::Ret, ty: None, operands: vec![], targets: vec![] }
}

#[test]
fn the_entry_function_runs_the_start_function() {
    let ctx = compile(&minimal(), &Args::default()).unwrap();
    let main = blocks_of(&ctx, FuncRef::AotMain);
    assert_eq!(main.iter().map(|b| b.label).collect::<Vec<_>>(), vec![
        Label::Entry,
        Label::Init,
        Label::Main
    ]);
    assert_eq!(main[0].insts, vec![br(1)]);
    assert_eq!(main[1].insts, vec![br(2)]);
    assert_eq!(
        main[2].insts,
        vec![simple(Opcode::Call(FuncRef::Wasm(0)), None, vec![env()]), ret()]
    );
    assert_eq!(ctx.aot_init_block, Some(1));
    assert_eq!(ctx.aot_main_block, Some(2));
    // the two helpers for the runtime are always there
    let helper = blocks_of(&ctx, FuncRef::StoreGlobals);
    assert_eq!(helper.len(), 1);
    assert_eq!(helper[0].insts, vec![ret()]);
    assert_eq!(blocks_of(&ctx, FuncRef::StoreTable)[0].insts, vec![ret()]);
}

#[test]
fn the_interface_of_the_runtime_is_declared() {
    let ctx = compile(&minimal(), &Args::default()).unwrap();
    let external = |func: FuncRef| FunctionDecl {
        func,
        type_idx: None,
        external: true,
        noredzone: false,
        noinline: false,
    };
    assert_eq!(
        ctx.declarations[0],
        FunctionDecl {
            func: FuncRef::AotMain,
            type_idx: None,
            external: false,
            noredzone: false,
            noinline: false,
        }
    );
    assert_eq!(ctx.declarations[1], external(FuncRef::Runtime(RuntimeFn::MemoryGrow)));
    assert_eq!(ctx.declarations[2], external(FuncRef::Runtime(RuntimeFn::StartCheckpoint)));
    let runtime: Vec<RuntimeFn> = ctx
        .declarations
        .iter()
        .filter_map(|d| match d.func {
            FuncRef::Runtime(f) => Some(f),
            _ => None,
        })
        .collect();
    assert_eq!(runtime.len(), 33);
    for t in [NumType::I32, NumType::I64, NumType::F32, NumType::F64] {
        for f in [
            RuntimeFn::PushLocal(t),
            RuntimeFn::PopFrontLocal(t),
            RuntimeFn::Push(t),
            RuntimeFn::Pop(t),
            RuntimeFn::PushGlobal(t),
            RuntimeFn::PopFrontGlobal(t),
        ] {
            assert_eq!(runtime.iter().filter(|g| **g == f).count(), 1);
        }
    }
    for f in [
        RuntimeFn::PushFrame,
        RuntimeFn::PopFrontFrame,
        RuntimeFn::GetPcFromFrame,
        RuntimeFn::FrameIsEmpty,
        RuntimeFn::SetPcToFrame,
        RuntimeFn::PushTableIndex,
        RuntimeFn::PopFrontTableIndex,
    ] {
        assert!(runtime.contains(&f));
    }
    // the function of the module, then the helpers
    let n = ctx.declarations.len();
    assert_eq!(
        ctx.declarations[n - 3],
        FunctionDecl {
            func: FuncRef::Wasm(0),
            type_idx: Some(0),
            external: false,
            noredzone: true,
            noinline: false,
        }
    );
    assert_eq!(ctx.declarations[n - 2], external(FuncRef::StoreGlobals));
    assert_eq!(ctx.declarations[n - 1], external(FuncRef::StoreTable));
}

#[test]
fn instrumented_functions_are_not_inlined() {
    let ctx = compile(&minimal(), &Args { enable_cr: true, ..Args::default() }).unwrap();
    let decl = ctx.declarations.iter().find(|d| d.func == FuncRef::Wasm(0)).unwrap();
    assert!(decl.noinline);
    assert!(decl.noredzone);
}

#[test]
fn function_types_are_lowered() {
    let sections = vec![
        Section::Type(vec![
            func(vec![], vec![]),
            func(vec![ValType::I32, ValType::F64], vec![ValType::I64]),
        ]),
        Section::Function(vec![0]),
        start(0),
        Section::Code(vec![empty_body()]),
    ];
    let ctx = compile(&sections, &Args::default()).unwrap();
    assert_eq!(
        ctx.signatures,
        vec![
            Signature { params: vec![], result: None },
            Signature { params: vec![NumType::I32, NumType::F64], result: Some(NumType::I64) },
        ]
    );
}

#[test]
fn types_that_cannot_be_lowered() {
    let types = |t: CompositeType| {
        vec![Section::Type(vec![t]), Section::Function(vec![0]), start(0)]
    };
    assert_eq!(
        failure(types(func(vec![], vec![ValType::I32, ValType::I32]))),
        CompileError::UnsupportedFeature(Unsupported::MultiResult)
    );
    assert_eq!(
        failure(types(func(vec![ValType::V128], vec![]))),
        CompileError::UnsupportedFeature(Unsupported::ValueType)
    );
    assert_eq!(
        failure(types(func(vec![], vec![ValType::ExternRef]))),
        CompileError::UnsupportedFeature(Unsupported::ValueType)
    );
    assert_eq!(
        failure(types(CompositeType::Struct)),
        CompileError::UnsupportedFeature(Unsupported::CompositeType)
    );
    assert_eq!(
        failure(types(CompositeType::Array)),
        CompileError::UnsupportedFeature(Unsupported::CompositeType)
    );
}

fn import(module: &str, name: &str, ty: TypeRef) -> Import {
    Import { module: module.to_string(), name: name.to_string(), ty }
}

#[test]
fn imported_functions_come_first() {
    let sections = vec![
        Section::Type(vec![func(vec![], vec![]), func(vec![ValType::I32], vec![])]),
        Section::Import(vec![
            import("wasi_snapshot_preview1", "proc_exit", TypeRef::Func(1)),
            import("env", "memory", TypeRef::Memory { memory64: false }),
            import("env", "print", TypeRef::Func(1)),
            import("wasi_unstable", "fd_write", TypeRef::Func(0)),
        ]),
        Section::Function(vec![0]),
        start(3),
        Section::Code(vec![FunctionBody {
            locals: vec![],
            operators: vec![
                Operator::I32Const { value: 0 },
                Operator::Call { function_index: 0 },
                Operator::End,
            ],
        }]),
    ];
    let ctx = compile(&sections, &Args::default()).unwrap();
    assert_eq!(ctx.num_imports, 3);
    assert_eq!(ctx.num_functions, 4);
    assert_eq!(
        ctx.functions,
        vec![
            Function { type_idx: 1, origin: Origin::Import { entry: 0, qualified: true } },
            Function { type_idx: 1, origin: Origin::Import { entry: 2, qualified: false } },
            Function { type_idx: 0, origin: Origin::Import { entry: 3, qualified: true } },
            Function { type_idx: 0, origin: Origin::Defined },
        ]
    );
    // the body belongs to the function after the imports
    let body = blocks_of(&ctx, FuncRef::Wasm(3));
    assert_eq!(
        body[0].insts[0],
        simple(Opcode::Call(FuncRef::Wasm(0)), None, vec![env(), constant(IrType::I32, 0)])
    );
    let decl = ctx.declarations.iter().find(|d| d.func == FuncRef::Wasm(0)).unwrap();
    assert!(decl.external);
    assert_eq!(decl.type_idx, Some(1));
}

#[test]
fn imports_that_are_not_supported() {
    let imports = |ty: TypeRef| {
        vec![Section::Type(vec![func(vec![], vec![])]), Section::Import(vec![import("m", "x", ty)])]
    };
    for ty in [TypeRef::Table, TypeRef::Global, TypeRef::Tag, TypeRef::Memory { memory64: true }] {
        assert_eq!(failure(imports(ty)), CompileError::UnsupportedFeature(Unsupported::Import));
    }
}

#[test]
fn imports_must_come_before_the_functions() {
    let sections = vec![
        Section::Type(vec![func(vec![], vec![])]),
        Section::Function(vec![0]),
        Section::Import(vec![import("m", "f", TypeRef::Func(0))]),
    ];
    assert_eq!(failure(sections), CompileError::Malformed(Malformation::SectionOrder));
}

#[test]
fn the_initial_size_of_the_memory_is_a_constant() {
    let ctx = compile(
        &with(vec![
            Section::Table(vec![TableType { initial: 1 }]),
            Section::Memory(vec![MemoryType { memory64: false, initial: 17 }]),
        ]),
        &Args::default(),
    )
    .unwrap();
    assert_eq!(
        ctx.module_globals,
        vec![GlobalDecl {
            name: GlobalName::InitMemorySize,
            constant: true,
            kind: GlobalKind::Scalar { ty: IrType::I32, bits: 17 },
            bytes: vec![],
            indices: vec![],
        }]
    );
}

#[test]
fn memories_that_are_not_supported() {
    let memory = |m: Vec<MemoryType>| vec![Section::Memory(m)];
    assert_eq!(
        failure(memory(vec![
            MemoryType { memory64: false, initial: 1 },
            MemoryType { memory64: false, initial: 1 }
        ])),
        CompileError::UnsupportedFeature(Unsupported::MultiMemory)
    );
    assert_eq!(
        failure(memory(vec![MemoryType { memory64: true, initial: 1 }])),
        CompileError::UnsupportedFeature(Unsupported::Memory64)
    );
    assert_eq!(
        failure(memory(vec![MemoryType { memory64: false, initial: 1 << 32 }])),
        CompileError::Malformed(Malformation::TooManyItems)
    );
}

fn global_entry(ty: ValType, mutable: bool, init: Operator) -> GlobalEntry {
    GlobalEntry { content_type: ty, mutable, init_expr: ConstExpr { ops: vec![init] } }
}

#[test]
fn mutable_globals_get_storage() {
    let sections = vec![
        Section::Type(vec![func(vec![], vec![ValType::I64])]),
        Section::Function(vec![0]),
        Section::Global(vec![
            global_entry(ValType::I32, false, Operator::I32Const { value: -1 }),
            global_entry(ValType::I64, true, Operator::I64Const { value: 7 }),
            global_entry(ValType::F32, true, Operator::F32Const { bits: 0x3f80_0000 }),
        ]),
        start(0),
        Section::Code(vec![FunctionBody {
            locals: vec![],
            operators: vec![
                Operator::GlobalGet { global_index: 0 },
                Operator::Drop,
                Operator::I64Const { value: 9 },
                Operator::GlobalSet { global_index: 1 },
                Operator::GlobalGet { global_index: 1 },
                Operator::End,
            ],
        }]),
    ];
    let ctx = compile(&sections, &Args::default()).unwrap();
    assert_eq!(
        ctx.globals,
        vec![
            Global::Const { ty: NumType::I32, bits: 0xffff_ffff },
            Global::Mut { ptr: global(0), ty: NumType::I64 },
            Global::Mut { ptr: global(1), ty: NumType::F32 },
        ]
    );
    assert_eq!(
        ctx.module_globals,
        vec![
            GlobalDecl {
                name: GlobalName::Wasm(1),
                constant: false,
                kind: GlobalKind::Scalar { ty: IrType::I64, bits: 7 },
                bytes: vec![],
                indices: vec![],
            },
            GlobalDecl {
                name: GlobalName::Wasm(2),
                constant: false,
                kind: GlobalKind::Scalar { ty: IrType::F32, bits: 0x3f80_0000 },
                bytes: vec![],
                indices: vec![],
            },
        ]
    );
    let body = blocks_of(&ctx, FuncRef::Wasm(0));
    assert_eq!(
        body[0].insts[..2],
        [
            simple(Opcode::Store, None, vec![global(0), constant(IrType::I64, 9)]),
            simple(Opcode::Load { volatile: false }, Some(IrType::I64), vec![global(0)]),
        ]
    );
}

#[test]
fn globals_that_cannot_be_translated() {
    let globals = |g: GlobalEntry| vec![Section::Global(vec![g])];
    assert_eq!(
        failure(globals(global_entry(ValType::FuncRef, false, Operator::I32Const { value: 0 }))),
        CompileError::UnsupportedFeature(Unsupported::ValueType)
    );
    assert_eq!(
        failure(globals(global_entry(ValType::I32, false, Operator::GlobalGet {
            global_index: 0
        }))),
        CompileError::UnsupportedFeature(Unsupported::ConstExpr)
    );
    assert_eq!(
        failure(globals(GlobalEntry {
            content_type: ValType::I32,
            mutable: false,
            init_expr: ConstExpr { ops: vec![] },
        })),
        CompileError::UnsupportedFeature(Unsupported::ConstExpr)
    );
    assert_eq!(
        failure(globals(global_entry(ValType::I32, true, Operator::I64Const { value: 0 }))),
        CompileError::Malformed(Malformation::TypeMismatch)
    );
}

#[test]
fn an_immutable_global_cannot_be_set() {
    let sections = vec![
        Section::Type(vec![func(vec![], vec![])]),
        Section::Function(vec![0]),
        Section::Global(vec![global_entry(ValType::I32, false, Operator::I32Const { value: 1 })]),
        start(0),
        Section::Code(vec![FunctionBody {
            locals: vec![],
            operators: vec![
                Operator::I32Const { value: 2 },
                Operator::GlobalSet { global_index: 0 },
                Operator::End,
            ],
        }]),
    ];
    assert_eq!(failure(sections), CompileError::Malformed(Malformation::ImmutableGlobal));
}

#[test]
fn data_segments_are_copied_into_the_memory() {
    let ctx = compile(
        &with(vec![Section::Data(vec![Data {
            kind: DataKind::Active { memory_index: 0, offset_expr: i32_const(16) },
            data: vec![0xaa, 0xbb, 0xcc, 0xdd],
        }])]),
        &Args::default(),
    )
    .unwrap();
    assert_eq!(
        ctx.module_globals,
        vec![GlobalDecl {
            name: GlobalName::MemoryInitializer(0),
            constant: false,
            kind: GlobalKind::Bytes,
            bytes: vec![0xaa, 0xbb, 0xcc, 0xdd],
            indices: vec![],
        }]
    );
    let init = &ctx.builder.blocks[1];
    assert_eq!(
        init.insts,
        vec![
            simple(Opcode::FieldPtr { field: 0 }, Some(IrType::Ptr), vec![env()]),
            simple(Opcode::Load { volatile: false }, Some(IrType::Ptr), vec![inst(
                1,
                0,
                IrType::Ptr
            )]),
            simple(Opcode::Cast(CastOp::PtrToInt), Some(IrType::I64), vec![inst(
                1,
                1,
                IrType::Ptr
            )]),
            simple(Opcode::Binary(BinOp::Add), Some(IrType::I64), vec![
                inst(1, 2, IrType::I64),
                constant(IrType::I64, 16)
            ]),
            simple(Opcode::Cast(CastOp::IntToPtr), Some(IrType::Ptr), vec![inst(
                1,
                3,
                IrType::I64
            )]),
            simple(Opcode::MemCopy, None, vec![
                inst(1, 4, IrType::Ptr),
                global(0),
                constant(IrType::I64, 4)
            ]),
            br(2),
        ]
    );
}

#[test]
fn data_segments_that_are_not_supported() {
    let data = |kind: DataKind| vec![Section::Data(vec![Data { kind, data: vec![1] }])];
    assert_eq!(
        failure(data(DataKind::Passive)),
        CompileError::UnsupportedFeature(Unsupported::PassiveData)
    );
    assert_eq!(
        failure(data(DataKind::Active {
            memory_index: 0,
            offset_expr: ConstExpr { ops: vec![Operator::GlobalGet { global_index: 0 }] },
        })),
        CompileError::UnsupportedFeature(Unsupported::ConstExpr)
    );
}

fn table_module(args: &Args) -> Context {
    let add_one = FunctionBody {
        locals: vec![],
        operators: vec![
            Operator::LocalGet { local_index: 0 },
            Operator::I32Const { value: 1 },
            Operator::I32Add,
            Operator::End,
        ],
    };
    let double = FunctionBody {
        locals: vec![],
        operators: vec![
            Operator::LocalGet { local_index: 0 },
            Operator::I32Const { value: 2 },
            Operator::I32Mul,
            Operator::End,
        ],
    };
    let caller = FunctionBody {
        locals: vec![],
        operators: vec![
            Operator::I32Const { value: 10 },
            Operator::I32Const { value: 1 },
            Operator::CallIndirect { type_index: 1, table_index: 0 },
            Operator::Drop,
            Operator::End,
        ],
    };
    let sections = vec![
        Section::Type(vec![func(vec![], vec![]), func(vec![ValType::I32], vec![ValType::I32])]),
        Section::Function(vec![0, 1, 1]),
        Section::Table(vec![TableType { initial: 2 }]),
        start(0),
        Section::Element(vec![Element {
            kind: ElementKind::Active { table_index: None, offset_expr: i32_const(0) },
            items: ElementItems::Functions(vec![1, 2]),
        }]),
        Section::Code(vec![caller, add_one, double]),
    ];
    compile(&sections, args).unwrap()
}

#[test]
fn an_indirect_call_goes_through_the_table() {
    let ctx = table_module(&Args::default());
    assert_eq!(ctx.global_fptr_array, Some(0));
    assert_eq!(ctx.global_table, Some(1));
    assert_eq!(ctx.global_table_size, Some(2));
    assert_eq!(
        ctx.module_globals,
        vec![
            GlobalDecl {
                name: GlobalName::FunctionPointers,
                constant: true,
                kind: GlobalKind::FunctionPointers { count: 3 },
                bytes: vec![],
                indices: vec![],
            },
            GlobalDecl {
                name: GlobalName::Table,
                constant: false,
                kind: GlobalKind::Indices,
                bytes: vec![],
                indices: vec![1, 2],
            },
        ]
    );
    let entry = 3;
    let body = &ctx.builder.blocks[entry];
    assert_eq!(
        body.insts[..5],
        [
            // the function index in the slot of the table
            simple(Opcode::ElemPtr(IrType::I32), Some(IrType::Ptr), vec![
                global(1),
                constant(IrType::I32, 1)
            ]),
            simple(Opcode::Load { volatile: false }, Some(IrType::I32), vec![inst(
                entry,
                0,
                IrType::Ptr
            )]),
            // the address of that function
            simple(Opcode::ElemPtr(IrType::Ptr), Some(IrType::Ptr), vec![
                global(0),
                inst(entry, 1, IrType::I32)
            ]),
            simple(Opcode::Load { volatile: false }, Some(IrType::Ptr), vec![inst(
                entry,
                2,
                IrType::Ptr
            )]),
            simple(Opcode::CallIndirect { type_index: 1 }, Some(IrType::I32), vec![
                inst(entry, 3, IrType::Ptr),
                env(),
                constant(IrType::I32, 10)
            ]),
        ]
    );
}

#[test]
fn the_table_is_saved_and_restored() {
    let ctx = table_module(&Args { enable_cr: true, ..Args::default() });
    let calls = |owner: FuncRef, label: Label| -> Vec<RuntimeFn> {
        ctx.builder
            .blocks
            .iter()
            .filter(|b| b.owner == owner && b.label == label)
            .flat_map(|b| b.insts.iter())
            .filter_map(|i| match i.op {
                Opcode::Call(FuncRef::Runtime(f)) => Some(f),
                _ => None,
            })
            .collect()
    };
    assert_eq!(
        calls(FuncRef::AotMain, Label::RestoreThen),
        vec![RuntimeFn::PopFrontTableIndex, RuntimeFn::PopFrontTableIndex]
    );
    assert_eq!(
        calls(FuncRef::AotMain, Label::StoreThen),
        vec![RuntimeFn::PushTableIndex, RuntimeFn::PushTableIndex]
    );
    assert_eq!(
        calls(FuncRef::StoreTable, Label::Entry),
        vec![RuntimeFn::PushTableIndex, RuntimeFn::PushTableIndex]
    );
    // the index into the table counts as the last argument of the site
    let restore_args = calls(FuncRef::Wasm(0), Label::RestoreArgs(2));
    assert_eq!(restore_args, vec![RuntimeFn::Pop(NumType::I32), RuntimeFn::Pop(NumType::I32)]);
}

#[test]
fn a_segment_may_begin_after_the_first_slot() {
    let sections = with(vec![Section::Element(vec![Element {
        kind: ElementKind::Active { table_index: Some(0), offset_expr: i32_const(2) },
        items: ElementItems::Functions(vec![0]),
    }])]);
    let ctx = compile(&sections, &Args::default()).unwrap();
    assert_eq!(ctx.global_table_size, Some(3));
    assert_eq!(ctx.module_globals[1].indices, vec![0, 0, 0]);
    assert_eq!(ctx.module_globals[0].kind, GlobalKind::FunctionPointers { count: 1 });
}

#[test]
fn element_segments_that_are_not_supported() {
    let element = |kind: ElementKind, items: ElementItems| {
        with(vec![Section::Element(vec![Element { kind, items }])])
    };
    let active = |table_index: Option<u32>, offset_expr: ConstExpr| ElementKind::Active {
        table_index,
        offset_expr,
    };
    assert_eq!(
        failure(element(ElementKind::Passive, ElementItems::Functions(vec![]))),
        CompileError::UnsupportedFeature(Unsupported::PassiveElement)
    );
    assert_eq!(
        failure(element(ElementKind::Declared, ElementItems::Functions(vec![]))),
        CompileError::UnsupportedFeature(Unsupported::DeclaredElement)
    );
    assert_eq!(
        failure(element(active(Some(1), i32_const(0)), ElementItems::Functions(vec![]))),
        CompileError::UnsupportedFeature(Unsupported::MultiTable)
    );
    assert_eq!(
        failure(element(
            active(None, ConstExpr { ops: vec![Operator::I64Const { value: 0 }] }),
            ElementItems::Functions(vec![])
        )),
        CompileError::UnsupportedFeature(Unsupported::ConstExpr)
    );
    assert_eq!(
        failure(element(active(None, i32_const(-1)), ElementItems::Functions(vec![]))),
        CompileError::Malformed(Malformation::SegmentOffset)
    );
    assert_eq!(
        failure(element(active(None, i32_const(0)), ElementItems::Expressions)),
        CompileError::UnsupportedFeature(Unsupported::ElementExpressions)
    );
}

#[test]
fn a_module_needs_a_start_function() {
    let sections = vec![
        Section::Type(vec![func(vec![], vec![])]),
        Section::Function(vec![0]),
        Section::Export(vec![
            Export { name: "start".to_string(), kind: ExternalKind::Func, index: 0 },
            Export { name: "_start".to_string(), kind: ExternalKind::Memory, index: 0 },
        ]),
        Section::Code(vec![empty_body()]),
    ];
    assert_eq!(failure(sections), CompileError::Malformed(Malformation::NoStartFunction));
    assert_eq!(failure(vec![]), CompileError::Malformed(Malformation::NoStartFunction));
}

#[test]
fn the_start_function_must_exist() {
    let sections = vec![
        Section::Type(vec![func(vec![], vec![])]),
        Section::Function(vec![0]),
        start(5),
        Section::Code(vec![empty_body()]),
    ];
    assert_eq!(failure(sections), CompileError::Malformed(Malformation::FunctionIndex));
}

#[test]
fn the_last_start_export_counts() {
    let sections = vec![
        Section::Type(vec![func(vec![], vec![])]),
        Section::Function(vec![0, 0]),
        Section::Export(vec![
            Export { name: "_start".to_string(), kind: ExternalKind::Func, index: 0 },
            Export { name: "other".to_string(), kind: ExternalKind::Func, index: 0 },
            Export { name: "_start".to_string(), kind: ExternalKind::Func, index: 1 },
        ]),
        Section::Code(vec![empty_body(), empty_body()]),
    ];
    let ctx = compile(&sections, &Args::default()).unwrap();
    assert_eq!(ctx.start_function_idx, Some(1));
}

#[test]
fn every_body_needs_a_function() {
    let sections = vec![
        Section::Type(vec![func(vec![], vec![])]),
        Section::Function(vec![0]),
        start(0),
        Section::Code(vec![empty_body(), empty_body()]),
    ];
    assert_eq!(failure(sections), CompileError::Malformed(Malformation::CodeCount));
}

#[test]
fn every_function_needs_a_known_type() {
    let sections = vec![
        Section::Type(vec![func(vec![], vec![])]),
        Section::Function(vec![3]),
        start(0),
        Section::Code(vec![empty_body()]),
    ];
    assert_eq!(failure(sections), CompileError::Malformed(Malformation::TypeIndex));
}

#[test]
fn sections_that_are_not_known_are_passed_over() {
    let mut sections = vec![Section::Custom, Section::Other];
    sections.extend(minimal());
    sections.push(Section::Custom);
    let plain = compile(&minimal(), &Args::default()).unwrap();
    let ctx = compile(&sections, &Args::default()).unwrap();
    assert_eq!(ctx.builder, plain.builder);
    assert_eq!(ctx.declarations, plain.declarations);
}

#[test]
fn the_code_may_come_before_other_sections() {
    let sections = vec![
        Section::Type(vec![func(vec![], vec![])]),
        Section::Code(vec![FunctionBody {
            locals: vec![],
            operators: vec![Operator::GlobalGet { global_index: 0 }, Operator::Drop, Operator::End],
        }]),
        Section::Function(vec![0]),
        Section::Global(vec![global_entry(ValType::I32, false, Operator::I32Const { value: 3 })]),
        start(0),
    ];
    assert!(compile(&sections, &Args::default()).is_ok());
}

#[test]
fn globals_are_handed_to_the_runtime_in_their_order() {
    let sections = with(vec![Section::Global(vec![
        global_entry(ValType::I64, true, Operator::I64Const { value: 1 }),
        global_entry(ValType::F64, false, Operator::F64Const { bits: 0 }),
        global_entry(ValType::I32, true, Operator::I32Const { value: 2 }),
    ])]);
    let ctx = compile(&sections, &Args { enable_cr: true, ..Args::default() }).unwrap();
    let helper = blocks_of(&ctx, FuncRef::StoreGlobals)[0];
    let b = ctx.builder.blocks.iter().position(|x| std::ptr::eq(x, helper)).unwrap();
    let push = |t: NumType, v: Value| {
        simple(Opcode::Call(FuncRef::Runtime(RuntimeFn::PushGlobal(t))), None, vec![env(), v])
    };
    assert_eq!(
        helper.insts,
        vec![
            simple(Opcode::Load { volatile: false }, Some(IrType::I64), vec![global(0)]),
            simple(Opcode::Load { volatile: false }, Some(IrType::I32), vec![global(1)]),
            push(NumType::I64, inst(b, 0, IrType::I64)),
            push(NumType::F64, constant(IrType::F64, 0)),
            push(NumType::I32, inst(b, 1, IrType::I32)),
            ret(),
        ]
    );
    let restore = ctx
        .builder
        .blocks
        .iter()
        .enumerate()
        .find(|(_, x)| x.owner == FuncRef::AotMain && x.label == Label::RestoreThen)
        .unwrap();
    let pop = |t: NumType, ty: IrType| {
        simple(Opcode::Call(FuncRef::Runtime(RuntimeFn::PopFrontGlobal(t))), Some(ty), vec![env()])
    };
    let r = restore.0;
    assert_eq!(
        restore.1.insts[..5],
        [
            pop(NumType::I64, IrType::I64),
            simple(Opcode::Store, None, vec![global(0), inst(r, 0, IrType::I64)]),
            pop(NumType::F64, IrType::F64),
            pop(NumType::I32, IrType::I32),
            simple(Opcode::Store, None, vec![global(1), inst(r, 3, IrType::I32)]),
        ]
    );
}
