use wanco::ir::{EnvField, Intrinsic, IrType, NumType, RuntimeFn};
use wanco::symbols::{convert_type_name, intrinsic_name, runtime_name};

#[test]
fn names_of_the_storage_interface() {
    assert_eq!(runtime_name(RuntimeFn::PushFrame), "push_frame");
    assert_eq!(runtime_name(RuntimeFn::PopFrontFrame), "pop_front_frame");
    assert_eq!(runtime_name(RuntimeFn::GetPcFromFrame), "get_pc_from_frame");
    assert_eq!(runtime_name(RuntimeFn::FrameIsEmpty), "frame_is_empty");
    assert_eq!(runtime_name(RuntimeFn::SetPcToFrame), "set_pc_to_frame");
    assert_eq!(runtime_name(RuntimeFn::StartCheckpoint), "start_checkpoint");
    assert_eq!(runtime_name(RuntimeFn::PushTableIndex), "push_table_index");
    assert_eq!(runtime_name(RuntimeFn::PopFrontTableIndex), "pop_front_table_index");
    assert_eq!(runtime_name(RuntimeFn::MemoryGrow), "memory_grow");
    for t in [NumType::I32, NumType::I64, NumType::F32, NumType::F64] {
        let ty = convert_type_name(t);
        assert_eq!(runtime_name(RuntimeFn::PushLocal(t)), format!("push_local_{}", ty));
        assert_eq!(runtime_name(RuntimeFn::PopFrontLocal(t)), format!("pop_front_local_{}", ty));
        assert_eq!(runtime_name(RuntimeFn::Push(t)), format!("push_{}", ty));
        assert_eq!(runtime_name(RuntimeFn::Pop(t)), format!("pop_{}", ty));
        assert_eq!(runtime_name(RuntimeFn::PushGlobal(t)), format!("push_global_{}", ty));
        assert_eq!(runtime_name(RuntimeFn::PopFrontGlobal(t)), format!("pop_front_global_{}", ty));
    }
}

#[test]
fn names_of_the_number_types() {
    assert_eq!(convert_type_name(NumType::I32), "i32");
    assert_eq!(convert_type_name(NumType::I64), "i64");
    assert_eq!(convert_type_name(NumType::F32), "f32");
    assert_eq!(convert_type_name(NumType::F64), "f64");
}

#[test]
fn names_of_the_intrinsics() {
    assert_eq!(intrinsic_name(Intrinsic::Ctlz(NumType::I32)), "llvm.ctlz.i32");
    assert_eq!(intrinsic_name(Intrinsic::Cttz(NumType::I64)), "llvm.cttz.i64");
    assert_eq!(intrinsic_name(Intrinsic::Ctpop(NumType::I32)), "llvm.ctpop.i32");
    assert_eq!(intrinsic_name(Intrinsic::Fabs(NumType::F64)), "llvm.fabs.f64");
    assert_eq!(intrinsic_name(Intrinsic::Nearbyint(NumType::F32)), "llvm.nearbyint.f32");
    assert_eq!(intrinsic_name(Intrinsic::Copysign(NumType::F64)), "llvm.copysign.f64");
    assert_eq!(intrinsic_name(Intrinsic::Stackmap), "llvm.experimental.stackmap");
}

#[test]
fn the_layout_of_the_execution_environment() {
    let fields = [
        EnvField::MemoryBase,
        EnvField::MemorySize,
        EnvField::MigrationState,
        EnvField::Argc,
        EnvField::Argv,
    ];
    assert_eq!(fields.map(|f| f.position()), [0, 1, 2, 3, 4]);
    assert_eq!(
        fields.map(|f| f.field_type()),
        [IrType::Ptr, IrType::I32, IrType::I32, IrType::I32, IrType::Ptr]
    );
}

#[test]
fn types_of_the_storage_interface() {
    assert_eq!(RuntimeFn::PushFrame.result_type(), None);
    assert_eq!(RuntimeFn::GetPcFromFrame.result_type(), Some(IrType::I32));
    assert_eq!(RuntimeFn::FrameIsEmpty.result_type(), Some(IrType::I1));
    assert_eq!(RuntimeFn::Pop(NumType::F32).result_type(), Some(IrType::F32));
    assert_eq!(RuntimeFn::PopFrontLocal(NumType::I64).result_type(), Some(IrType::I64));
    assert_eq!(RuntimeFn::Push(NumType::I64).result_type(), None);
    assert_eq!(RuntimeFn::MemoryGrow.result_type(), Some(IrType::I32));
    assert_eq!(NumType::F64.to_ir(), IrType::F64);
    assert_eq!(IrType::I64.to_num(), Some(NumType::I64));
    assert_eq!(IrType::Ptr.to_num(), None);
    assert_eq!(IrType::I8.to_num(), None);
}
