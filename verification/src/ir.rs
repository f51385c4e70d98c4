//! The intermediate representation that the translator emits.
//!
//! A module is a list of function declarations, a list of module globals and
//! a list of basic blocks. Every block belongs to one function and holds its
//! phi nodes and its instructions in emission order. A value is identified by
//! where it was defined, so no counter is needed to name it.

use vstd::prelude::*;

verus! {

/// Primitive types of the IR.
#[derive(Clone, Copy, Debug, PartialEq, Eq, Structural)]
pub enum IrType {
    I1,
    I8,
    I16,
    I32,
    I64,
    F32,
    F64,
    Ptr,
}

/// The four number types that the runtime storage interface is instantiated at.
#[derive(Clone, Copy, Debug, PartialEq, Eq, Hash, Structural)]
pub enum NumType {
    I32,
    I64,
    F32,
    F64,
}

impl NumType {
    pub open spec fn ir(self) -> IrType {
        match self {
            NumType::I32 => IrType::I32,
            NumType::I64 => IrType::I64,
            NumType::F32 => IrType::F32,
            NumType::F64 => IrType::F64,
        }
    }

    /// The IR type that holds a value of this number type.
    pub fn to_ir(self) -> (r: IrType)
        ensures
            r == self.ir(),
            r.num() == Some(self),
    {
        match self {
            NumType::I32 => IrType::I32,
            NumType::I64 => IrType::I64,
            NumType::F32 => IrType::F32,
            NumType::F64 => IrType::F64,
        }
    }
}

/// A number type is the number type of its IR type.
pub proof fn lemma_num_of_ir(t: NumType)
    ensures
        t.ir().num() == Some(t),
{
}

impl IrType {
    pub open spec fn num(self) -> Option<NumType> {
        match self {
            IrType::I32 => Some(NumType::I32),
            IrType::I64 => Some(NumType::I64),
            IrType::F32 => Some(NumType::F32),
            IrType::F64 => Some(NumType::F64),
            _ => None,
        }
    }

    /// The number type of this IR type, if it is one of the four.
    pub fn to_num(self) -> (r: Option<NumType>)
        ensures
            r == self.num(),
    {
        match self {
            IrType::I32 => Some(NumType::I32),
            IrType::I64 => Some(NumType::I64),
            IrType::F32 => Some(NumType::F32),
            IrType::F64 => Some(NumType::F64),
            _ => None,
        }
    }

    pub open spec fn is_int(self) -> bool {
        self == IrType::I1 || self == IrType::I8 || self == IrType::I16 || self == IrType::I32
            || self == IrType::I64
    }

    pub open spec fn is_float(self) -> bool {
        self == IrType::F32 || self == IrType::F64
    }
}

/// The fields of the execution environment, the record that every emitted
/// function takes by address as its first parameter.
#[derive(Clone, Copy, Debug, PartialEq, Eq, Structural)]
pub enum EnvField {
    MemoryBase,
    MemorySize,
    MigrationState,
    Argc,
    Argv,
}

impl EnvField {
    /// The place of the field in the record.
    pub open spec fn index(self) -> u32 {
        match self {
            EnvField::MemoryBase => 0,
            EnvField::MemorySize => 1,
            EnvField::MigrationState => 2,
            EnvField::Argc => 3,
            EnvField::Argv => 4,
        }
    }

    pub open spec fn ty(self) -> IrType {
        match self {
            EnvField::MemoryBase => IrType::Ptr,
            EnvField::MemorySize => IrType::I32,
            EnvField::MigrationState => IrType::I32,
            EnvField::Argc => IrType::I32,
            EnvField::Argv => IrType::Ptr,
        }
    }

    /// The place of the field in the record.
    pub fn position(self) -> (i: u32)
        ensures
            i == self.index(),
    {
        match self {
            EnvField::MemoryBase => 0,
            EnvField::MemorySize => 1,
            EnvField::MigrationState => 2,
            EnvField::Argc => 3,
            EnvField::Argv => 4,
        }
    }

    /// The type of the field.
    pub fn field_type(self) -> (t: IrType)
        ensures
            t == self.ty(),
    {
        match self {
            EnvField::MemoryBase => IrType::Ptr,
            EnvField::MemorySize => IrType::I32,
            EnvField::MigrationState => IrType::I32,
            EnvField::Argc => IrType::I32,
            EnvField::Argv => IrType::Ptr,
        }
    }

    /// The types of the fields of the record, in the order of their places:
    /// every field has its type at its place, and the record has no other
    /// fields.
    pub fn layout() -> (r: Vec<IrType>)
        ensures
            r@.len() == 5,
            forall|f: EnvField| r@[#[trigger] f.index() as int] == f.ty(),
    {
        let mut r: Vec<IrType> = Vec::new();
        r.push(EnvField::MemoryBase.field_type());
        r.push(EnvField::MemorySize.field_type());
        r.push(EnvField::MigrationState.field_type());
        r.push(EnvField::Argc.field_type());
        r.push(EnvField::Argv.field_type());
        r
    }
}

/// Functions of the runtime's storage interface, linked by name.
#[derive(Clone, Copy, Debug, PartialEq, Eq, Hash, Structural)]
pub enum RuntimeFn {
    PushFrame,
    PopFrontFrame,
    GetPcFromFrame,
    FrameIsEmpty,
    SetPcToFrame,
    StartCheckpoint,
    PushLocal(NumType),
    PopFrontLocal(NumType),
    Push(NumType),
    Pop(NumType),
    PushGlobal(NumType),
    PopFrontGlobal(NumType),
    PushTableIndex,
    PopFrontTableIndex,
    MemoryGrow,
}

/// Backend intrinsics that the translator calls.
#[derive(Clone, Copy, Debug, PartialEq, Eq, Hash, Structural)]
pub enum Intrinsic {
    Ctlz(NumType),
    Cttz(NumType),
    Ctpop(NumType),
    Fabs(NumType),
    Ceil(NumType),
    Floor(NumType),
    Trunc(NumType),
    Nearbyint(NumType),
    Sqrt(NumType),
    Minnum(NumType),
    Maxnum(NumType),
    Copysign(NumType),
    Stackmap,
}

/// A function of the module under construction.
#[derive(Clone, Copy, Debug, PartialEq, Eq, Hash, Structural)]
pub enum FuncRef {
    /// The synthesized entry function.
    AotMain,
    /// The helper that hands every global to the runtime.
    StoreGlobals,
    /// The helper that hands every table slot to the runtime.
    StoreTable,
    /// The function with this index in the Wasm function index space.
    Wasm(u32),
    Runtime(RuntimeFn),
    Intrinsic(Intrinsic),
}

/// What names a basic block. The number is the operator index of the site.
#[derive(Clone, Copy, Debug, PartialEq, Eq, Structural)]
pub enum Label {
    Entry,
    Ret,
    Init,
    Main,
    BlockNext,
    LoopBody,
    LoopNext,
    Then,
    Else,
    End,
    BrIfElse,
    RestoreDispatch,
    DispatchUnreachable,
    CheckpointStart(u32),
    CheckpointElse(u32),
    RestoreStart(u32),
    RestoreArgs(u32),
    RestoreArgsEnd(u32),
    RestoreEnd(u32),
    UnwindThen(u32),
    UnwindElse(u32),
    StoreThen,
    StoreElse,
    RestoreThen,
    RestoreElse,
}

#[derive(Clone, Copy, Debug, PartialEq, Eq, Structural)]
pub enum ValueKind {
    /// A constant, given by its bit pattern.
    Const { bits: u64 },
    /// A parameter of the enclosing function.
    Param { index: usize },
    /// The result of the instruction at `index` of block `block`.
    Inst { block: usize, index: usize },
    /// The phi node at `index` of block `block`.
    Phi { block: usize, index: usize },
    /// The address of a module global.
    Global { index: usize },
}

/// An SSA value together with its type.
#[derive(Clone, Copy, Debug, PartialEq, Eq, Structural)]
pub struct Value {
    pub kind: ValueKind,
    pub ty: IrType,
}

impl Value {
    pub open spec fn constant(ty: IrType, bits: u64) -> Value {
        Value { kind: ValueKind::Const { bits }, ty }
    }

    pub open spec fn zero(ty: IrType) -> Value {
        Value::constant(ty, 0)
    }

    pub open spec fn param(index: usize, ty: IrType) -> Value {
        Value { kind: ValueKind::Param { index }, ty }
    }

    pub open spec fn global(index: usize) -> Value {
        Value { kind: ValueKind::Global { index }, ty: IrType::Ptr }
    }

    pub fn const_int(ty: IrType, bits: u64) -> (v: Value)
        ensures
            v == Value::constant(ty, bits),
    {
        Value { kind: ValueKind::Const { bits }, ty }
    }

    pub fn const_zero(ty: IrType) -> (v: Value)
        ensures
            v == Value::zero(ty),
    {
        Value { kind: ValueKind::Const { bits: 0 }, ty }
    }

    pub fn nth_param(index: usize, ty: IrType) -> (v: Value)
        ensures
            v == Value::param(index, ty),
    {
        Value { kind: ValueKind::Param { index }, ty }
    }

    pub fn global_ptr(index: usize) -> (v: Value)
        ensures
            v == Value::global(index),
    {
        Value { kind: ValueKind::Global { index }, ty: IrType::Ptr }
    }
}

#[derive(Clone, Copy, Debug, PartialEq, Eq, Structural)]
pub enum BinOp {
    Add,
    Sub,
    Mul,
    SDiv,
    UDiv,
    SRem,
    URem,
    And,
    Or,
    Xor,
    Shl,
    LShr,
    AShr,
    FAdd,
    FSub,
    FMul,
    FDiv,
}

#[derive(Clone, Copy, Debug, PartialEq, Eq, Structural)]
pub enum UnOp {
    Neg,
    FNeg,
}

#[derive(Clone, Copy, Debug, PartialEq, Eq, Structural)]
pub enum IntPredicate {
    EQ,
    NE,
    UGT,
    UGE,
    ULT,
    ULE,
    SGT,
    SGE,
    SLT,
    SLE,
}

#[derive(Clone, Copy, Debug, PartialEq, Eq, Structural)]
pub enum FloatPredicate {
    OEQ,
    OGE,
    OGT,
    OLE,
    OLT,
    UNE,
}

#[derive(Clone, Copy, Debug, PartialEq, Eq, Structural)]
pub enum CastOp {
    Trunc,
    ZExt,
    SExt,
    FpTrunc,
    FpExt,
    SiToFp,
    UiToFp,
    FpToSi,
    FpToUi,
    BitCast,
    PtrToInt,
    IntToPtr,
}

/// What an instruction does. Its operands and branch targets stand beside it.
#[derive(Clone, Copy, Debug, PartialEq, Eq, Structural)]
pub enum Opcode {
    /// operands: left, right
    Binary(BinOp),
    /// operands: the value
    Unary(UnOp),
    /// operands: left, right; the result is an `I1`
    IntCompare(IntPredicate),
    /// operands: left, right; the result is an `I1`
    FloatCompare(FloatPredicate),
    /// operands: the value; the result type is the target type
    Cast(CastOp),
    /// no operands; reserves a slot for a value of the given type
    Alloca(IrType),
    /// operands: the address; the result type is the loaded type
    Load { volatile: bool },
    /// operands: the address, the value
    Store,
    /// operands: the address of an execution environment
    FieldPtr { field: u32 },
    /// operands: the base address, the index; elements have the given type
    ElemPtr(IrType),
    /// operands: the arguments
    Call(FuncRef),
    /// operands: the function pointer, then the arguments
    CallIndirect { type_index: u32 },
    /// operands: the condition, the value if true, the value if false
    Select,
    /// operands: destination, source, length
    MemCopy,
    /// operands: destination, byte, length
    MemSet,
    /// targets: the destination
    Br,
    /// operands: the condition; targets: if true, if false
    CondBr,
    /// operands: the scrutinee, then one constant per case;
    /// targets: the default, then one destination per case
    Switch,
    /// operands: the returned value, if any
    Ret,
    Unreachable,
}

/// One instruction.
#[derive(Clone, Debug, PartialEq, Eq)]
pub struct Inst {
    pub op: Opcode,
    /// The type of the result; `None` where the instruction has none.
    pub ty: Option<IrType>,
    pub operands: Vec<Value>,
    pub targets: Vec<usize>,
}

pub struct InstView {
    pub op: Opcode,
    pub ty: Option<IrType>,
    pub operands: Seq<Value>,
    pub targets: Seq<usize>,
}

impl View for Inst {
    type V = InstView;

    open spec fn view(&self) -> InstView {
        InstView { op: self.op, ty: self.ty, operands: self.operands@, targets: self.targets@ }
    }
}

impl InstView {
    /// An instruction without operands.
    pub open spec fn op0(op: Opcode, ty: Option<IrType>) -> InstView {
        InstView { op, ty, operands: seq![], targets: seq![] }
    }

    /// An instruction with one operand.
    pub open spec fn op1(op: Opcode, ty: Option<IrType>, a: Value) -> InstView {
        InstView { op, ty, operands: seq![a], targets: seq![] }
    }

    /// An instruction with two operands.
    pub open spec fn op2(op: Opcode, ty: Option<IrType>, a: Value, b: Value) -> InstView {
        InstView { op, ty, operands: seq![a, b], targets: seq![] }
    }

    /// An instruction with three operands.
    pub open spec fn op3(op: Opcode, ty: Option<IrType>, a: Value, b: Value, c: Value) -> InstView {
        InstView { op, ty, operands: seq![a, b, c], targets: seq![] }
    }

    /// An instruction with the given operands.
    pub open spec fn opn(op: Opcode, ty: Option<IrType>, operands: Seq<Value>) -> InstView {
        InstView { op, ty, operands, targets: seq![] }
    }

    pub open spec fn br(dest: usize) -> InstView {
        InstView { op: Opcode::Br, ty: None, operands: seq![], targets: seq![dest] }
    }

    pub open spec fn cond_br(cond: Value, then_dest: usize, else_dest: usize) -> InstView {
        InstView {
            op: Opcode::CondBr,
            ty: None,
            operands: seq![cond],
            targets: seq![then_dest, else_dest],
        }
    }

    /// A switch on `value`: case `i` compares with `constants[i]` and goes to
    /// `dests[i]`; no match goes to `default`.
    pub open spec fn switch(
        value: Value,
        default: usize,
        constants: Seq<Value>,
        dests: Seq<usize>,
    ) -> InstView {
        InstView {
            op: Opcode::Switch,
            ty: None,
            operands: seq![value] + constants,
            targets: seq![default] + dests,
        }
    }

    pub open spec fn ret(value: Option<Value>) -> InstView {
        InstView {
            op: Opcode::Ret,
            ty: None,
            operands: match value {
                Some(v) => seq![v],
                None => seq![],
            },
            targets: seq![],
        }
    }

    pub open spec fn unreachable() -> InstView {
        InstView::op0(Opcode::Unreachable, None)
    }

    pub open spec fn load(ty: IrType, ptr: Value, volatile: bool) -> InstView {
        InstView::op1(Opcode::Load { volatile }, Some(ty), ptr)
    }

    pub open spec fn store(ptr: Value, value: Value) -> InstView {
        InstView::op2(Opcode::Store, None, ptr, value)
    }

    pub open spec fn call(f: FuncRef, ty: Option<IrType>, args: Seq<Value>) -> InstView {
        InstView::opn(Opcode::Call(f), ty, args)
    }

    /// The address of a field of the execution environment at `env`.
    pub open spec fn field_ptr(field: EnvField, env: Value) -> InstView {
        InstView::op1(Opcode::FieldPtr { field: field.index() }, Some(IrType::Ptr), env)
    }

    /// A call of a function of the runtime; the environment comes first.
    pub open spec fn runtime(f: RuntimeFn, env: Value, args: Seq<Value>) -> InstView {
        InstView::call(FuncRef::Runtime(f), f.result(), seq![env] + args)
    }
}

impl RuntimeFn {
    /// The types of the parameters that follow the environment.
    pub open spec fn params(self) -> Seq<IrType> {
        match self {
            RuntimeFn::PushFrame => seq![],
            RuntimeFn::PopFrontFrame => seq![],
            RuntimeFn::GetPcFromFrame => seq![],
            RuntimeFn::FrameIsEmpty => seq![],
            RuntimeFn::SetPcToFrame => seq![IrType::I32, IrType::I32],
            RuntimeFn::StartCheckpoint => seq![],
            RuntimeFn::PushLocal(t) => seq![t.ir()],
            RuntimeFn::PopFrontLocal(_) => seq![],
            RuntimeFn::Push(t) => seq![t.ir()],
            RuntimeFn::Pop(_) => seq![],
            RuntimeFn::PushGlobal(t) => seq![t.ir()],
            RuntimeFn::PopFrontGlobal(_) => seq![],
            RuntimeFn::PushTableIndex => seq![IrType::I32],
            RuntimeFn::PopFrontTableIndex => seq![],
            RuntimeFn::MemoryGrow => seq![IrType::I32],
        }
    }

    pub open spec fn result(self) -> Option<IrType> {
        match self {
            RuntimeFn::PushFrame => None,
            RuntimeFn::PopFrontFrame => None,
            RuntimeFn::GetPcFromFrame => Some(IrType::I32),
            RuntimeFn::FrameIsEmpty => Some(IrType::I1),
            RuntimeFn::SetPcToFrame => None,
            RuntimeFn::StartCheckpoint => None,
            RuntimeFn::PushLocal(_) => None,
            RuntimeFn::PopFrontLocal(t) => Some(t.ir()),
            RuntimeFn::Push(_) => None,
            RuntimeFn::Pop(t) => Some(t.ir()),
            RuntimeFn::PushGlobal(_) => None,
            RuntimeFn::PopFrontGlobal(t) => Some(t.ir()),
            RuntimeFn::PushTableIndex => None,
            RuntimeFn::PopFrontTableIndex => Some(IrType::I32),
            RuntimeFn::MemoryGrow => Some(IrType::I32),
        }
    }

    /// The types of the parameters that follow the environment.
    pub fn param_types(self) -> (r: Vec<IrType>)
        ensures
            r@ == self.params(),
    {
        let mut r: Vec<IrType> = Vec::new();
        match self {
            RuntimeFn::SetPcToFrame => {
                r.push(IrType::I32);
                r.push(IrType::I32);
                proof {
                    assert(r@ =~= seq![IrType::I32, IrType::I32]);
                }
            },
            RuntimeFn::PushLocal(t) | RuntimeFn::Push(t) | RuntimeFn::PushGlobal(t) => {
                r.push(t.to_ir());
                proof {
                    assert(r@ =~= seq![t.ir()]);
                }
            },
            RuntimeFn::PushTableIndex | RuntimeFn::MemoryGrow => {
                r.push(IrType::I32);
                proof {
                    assert(r@ =~= seq![IrType::I32]);
                }
            },
            _ => {
                proof {
                    assert(r@ =~= seq![]);
                }
            },
        }
        r
    }

    /// The type of the value that the function returns, if it returns one.
    pub fn result_type(self) -> (r: Option<IrType>)
        ensures
            r == self.result(),
    {
        match self {
            RuntimeFn::PushFrame => None,
            RuntimeFn::PopFrontFrame => None,
            RuntimeFn::GetPcFromFrame => Some(IrType::I32),
            RuntimeFn::FrameIsEmpty => Some(IrType::I1),
            RuntimeFn::SetPcToFrame => None,
            RuntimeFn::StartCheckpoint => None,
            RuntimeFn::PushLocal(_) => None,
            RuntimeFn::PopFrontLocal(t) => Some(t.to_ir()),
            RuntimeFn::Push(_) => None,
            RuntimeFn::Pop(t) => Some(t.to_ir()),
            RuntimeFn::PushGlobal(_) => None,
            RuntimeFn::PopFrontGlobal(t) => Some(t.to_ir()),
            RuntimeFn::PushTableIndex => None,
            RuntimeFn::PopFrontTableIndex => Some(IrType::I32),
            RuntimeFn::MemoryGrow => Some(IrType::I32),
        }
    }
}

impl Intrinsic {
    /// The number type at which the intrinsic is instantiated.
    pub open spec fn num(self) -> Option<NumType> {
        match self {
            Intrinsic::Ctlz(t) => Some(t),
            Intrinsic::Cttz(t) => Some(t),
            Intrinsic::Ctpop(t) => Some(t),
            Intrinsic::Fabs(t) => Some(t),
            Intrinsic::Ceil(t) => Some(t),
            Intrinsic::Floor(t) => Some(t),
            Intrinsic::Trunc(t) => Some(t),
            Intrinsic::Nearbyint(t) => Some(t),
            Intrinsic::Sqrt(t) => Some(t),
            Intrinsic::Minnum(t) => Some(t),
            Intrinsic::Maxnum(t) => Some(t),
            Intrinsic::Copysign(t) => Some(t),
            Intrinsic::Stackmap => None,
        }
    }

    /// The types of the parameters that the intrinsic declares. The counts
    /// of leading and of trailing zeros take, after the number, a flag that
    /// says whether zero is a poison input; the stack map takes its
    /// identifier and the number of shadow bytes.
    pub open spec fn params(self) -> Seq<IrType> {
        match self {
            Intrinsic::Ctlz(t) => seq![t.ir(), IrType::I1],
            Intrinsic::Cttz(t) => seq![t.ir(), IrType::I1],
            Intrinsic::Ctpop(t) => seq![t.ir()],
            Intrinsic::Fabs(t) => seq![t.ir()],
            Intrinsic::Ceil(t) => seq![t.ir()],
            Intrinsic::Floor(t) => seq![t.ir()],
            Intrinsic::Trunc(t) => seq![t.ir()],
            Intrinsic::Nearbyint(t) => seq![t.ir()],
            Intrinsic::Sqrt(t) => seq![t.ir()],
            Intrinsic::Minnum(t) => seq![t.ir(), t.ir()],
            Intrinsic::Maxnum(t) => seq![t.ir(), t.ir()],
            Intrinsic::Copysign(t) => seq![t.ir(), t.ir()],
            Intrinsic::Stackmap => seq![IrType::I64, IrType::I32],
        }
    }

    /// Whether the intrinsic takes further arguments after the declared ones.
    pub open spec fn variadic(self) -> bool {
        self is Stackmap
    }

    /// The types of the parameters that the intrinsic declares.
    pub fn param_types(self) -> (r: Vec<IrType>)
        ensures
            r@ == self.params(),
    {
        let mut r: Vec<IrType> = Vec::new();
        match self {
            Intrinsic::Ctlz(t) | Intrinsic::Cttz(t) => {
                r.push(t.to_ir());
                r.push(IrType::I1);
                proof {
                    assert(r@ =~= seq![t.ir(), IrType::I1]);
                }
            },
            Intrinsic::Minnum(t) | Intrinsic::Maxnum(t) | Intrinsic::Copysign(t) => {
                r.push(t.to_ir());
                r.push(t.to_ir());
                proof {
                    assert(r@ =~= seq![t.ir(), t.ir()]);
                }
            },
            Intrinsic::Stackmap => {
                r.push(IrType::I64);
                r.push(IrType::I32);
                proof {
                    assert(r@ =~= seq![IrType::I64, IrType::I32]);
                }
            },
            Intrinsic::Ctpop(t) | Intrinsic::Fabs(t) | Intrinsic::Ceil(t) | Intrinsic::Floor(t)
            | Intrinsic::Trunc(t) | Intrinsic::Nearbyint(t) | Intrinsic::Sqrt(t) => {
                r.push(t.to_ir());
                proof {
                    assert(r@ =~= seq![t.ir()]);
                }
            },
        }
        r
    }

    /// Tells whether the intrinsic takes further arguments after the
    /// declared ones.
    pub fn is_variadic(self) -> (r: bool)
        ensures
            r == self.variadic(),
    {
        match self {
            Intrinsic::Stackmap => true,
            _ => false,
        }
    }

    /// The type of the value that the intrinsic returns, if it returns one.
    pub fn result_type(self) -> (r: Option<NumType>)
        ensures
            r == self.num(),
    {
        match self {
            Intrinsic::Ctlz(t) => Some(t),
            Intrinsic::Cttz(t) => Some(t),
            Intrinsic::Ctpop(t) => Some(t),
            Intrinsic::Fabs(t) => Some(t),
            Intrinsic::Ceil(t) => Some(t),
            Intrinsic::Floor(t) => Some(t),
            Intrinsic::Trunc(t) => Some(t),
            Intrinsic::Nearbyint(t) => Some(t),
            Intrinsic::Sqrt(t) => Some(t),
            Intrinsic::Minnum(t) => Some(t),
            Intrinsic::Maxnum(t) => Some(t),
            Intrinsic::Copysign(t) => Some(t),
            Intrinsic::Stackmap => None,
        }
    }
}

impl Inst {
    /// The address of a field of the execution environment at `env`.
    pub fn field_ptr(field: EnvField, env: Value) -> (i: Inst)
        ensures
            i@ == InstView::field_ptr(field, env),
    {
        Inst::op1(Opcode::FieldPtr { field: field.position() }, Some(IrType::Ptr), env)
    }

    /// A call of a function of the runtime without further arguments.
    pub fn runtime0(f: RuntimeFn, env: Value) -> (i: Inst)
        ensures
            i@ == InstView::runtime(f, env, seq![]),
    {
        let i = Inst::op1(Opcode::Call(FuncRef::Runtime(f)), f.result_type(), env);
        assert(i@.operands =~= seq![env] + Seq::<Value>::empty());
        i
    }

    /// A call of a function of the runtime with one further argument.
    pub fn runtime1(f: RuntimeFn, env: Value, a: Value) -> (i: Inst)
        ensures
            i@ == InstView::runtime(f, env, seq![a]),
    {
        let i = Inst::op2(Opcode::Call(FuncRef::Runtime(f)), f.result_type(), env, a);
        assert(i@.operands =~= seq![env] + seq![a]);
        i
    }

    /// A call of a function of the runtime with two further arguments.
    pub fn runtime2(f: RuntimeFn, env: Value, a: Value, b: Value) -> (i: Inst)
        ensures
            i@ == InstView::runtime(f, env, seq![a, b]),
    {
        let i = Inst::op3(Opcode::Call(FuncRef::Runtime(f)), f.result_type(), env, a, b);
        assert(i@.operands =~= seq![env] + seq![a, b]);
        i
    }
}

impl Inst {
    /// An instruction without operands.
    pub fn op0(op: Opcode, ty: Option<IrType>) -> (i: Inst)
        ensures
            i@ == InstView::op0(op, ty),
    {
        let i = Inst { op, ty, operands: Vec::new(), targets: Vec::new() };
        assert(i@.operands =~= seq![] && i@.targets =~= seq![]);
        i
    }

    /// An instruction with one operand.
    pub fn op1(op: Opcode, ty: Option<IrType>, a: Value) -> (i: Inst)
        ensures
            i@ == InstView::op1(op, ty, a),
    {
        let mut operands = Vec::new();
        operands.push(a);
        let i = Inst { op, ty, operands, targets: Vec::new() };
        assert(i@.operands =~= seq![a] && i@.targets =~= seq![]);
        i
    }

    /// An instruction with two operands.
    pub fn op2(op: Opcode, ty: Option<IrType>, a: Value, b: Value) -> (i: Inst)
        ensures
            i@ == InstView::op2(op, ty, a, b),
    {
        let mut operands = Vec::new();
        operands.push(a);
        operands.push(b);
        let i = Inst { op, ty, operands, targets: Vec::new() };
        assert(i@.operands =~= seq![a, b] && i@.targets =~= seq![]);
        i
    }

    /// An instruction with three operands.
    pub fn op3(op: Opcode, ty: Option<IrType>, a: Value, b: Value, c: Value) -> (i: Inst)
        ensures
            i@ == InstView::op3(op, ty, a, b, c),
    {
        let mut operands = Vec::new();
        operands.push(a);
        operands.push(b);
        operands.push(c);
        let i = Inst { op, ty, operands, targets: Vec::new() };
        assert(i@.operands =~= seq![a, b, c] && i@.targets =~= seq![]);
        i
    }

    /// An instruction with the given operands.
    pub fn opn(op: Opcode, ty: Option<IrType>, operands: Vec<Value>) -> (i: Inst)
        ensures
            i@ == InstView::opn(op, ty, operands@),
    {
        let i = Inst { op, ty, operands, targets: Vec::new() };
        assert(i@.targets =~= seq![]);
        i
    }

    pub fn br(dest: usize) -> (i: Inst)
        ensures
            i@ == InstView::br(dest),
    {
        let mut targets = Vec::new();
        targets.push(dest);
        let i = Inst { op: Opcode::Br, ty: None, operands: Vec::new(), targets };
        assert(i@.operands =~= seq![] && i@.targets =~= seq![dest]);
        i
    }

    pub fn cond_br(cond: Value, then_dest: usize, else_dest: usize) -> (i: Inst)
        ensures
            i@ == InstView::cond_br(cond, then_dest, else_dest),
    {
        let mut operands = Vec::new();
        operands.push(cond);
        let mut targets = Vec::new();
        targets.push(then_dest);
        targets.push(else_dest);
        let i = Inst { op: Opcode::CondBr, ty: None, operands, targets };
        assert(i@.operands =~= seq![cond] && i@.targets =~= seq![then_dest, else_dest]);
        i
    }

    /// A switch on `value`: case `i` compares with `constants[i]` and goes to
    /// `dests[i]`; no match goes to `default`.
    pub fn switch(value: Value, default: usize, constants: Vec<Value>, dests: Vec<usize>) -> (i:
        Inst)
        ensures
            i@ == InstView::switch(value, default, constants@, dests@),
    {
        let mut operands = constants;
        operands.insert(0, value);
        let mut targets = dests;
        targets.insert(0, default);
        let i = Inst { op: Opcode::Switch, ty: None, operands, targets };
        assert(i@.operands =~= seq![value] + constants@);
        assert(i@.targets =~= seq![default] + dests@);
        i
    }

    pub fn ret(value: Option<Value>) -> (i: Inst)
        ensures
            i@ == InstView::ret(value),
    {
        match value {
            Some(v) => {
                let i = Inst::op1(Opcode::Ret, None, v);
                assert(i@.operands =~= InstView::ret(value).operands);
                i
            },
            None => {
                let i = Inst::op0(Opcode::Ret, None);
                assert(i@.operands =~= InstView::ret(value).operands);
                i
            },
        }
    }

    pub fn unreachable() -> (i: Inst)
        ensures
            i@ == InstView::unreachable(),
    {
        Inst::op0(Opcode::Unreachable, None)
    }

    pub fn load(ty: IrType, ptr: Value, volatile: bool) -> (i: Inst)
        ensures
            i@ == InstView::load(ty, ptr, volatile),
    {
        Inst::op1(Opcode::Load { volatile }, Some(ty), ptr)
    }

    pub fn store(ptr: Value, value: Value) -> (i: Inst)
        ensures
            i@ == InstView::store(ptr, value),
    {
        Inst::op2(Opcode::Store, None, ptr, value)
    }

    pub fn call(f: FuncRef, ty: Option<IrType>, args: Vec<Value>) -> (i: Inst)
        ensures
            i@ == InstView::call(f, ty, args@),
    {
        Inst::opn(Opcode::Call(f), ty, args)
    }
}

/// One edge into a phi node.
#[derive(Clone, Copy, Debug, PartialEq, Eq, Structural)]
pub struct Incoming {
    pub value: Value,
    pub from: usize,
}

/// A phi node. An erased node stays in its slot, so that the slots after it
/// keep their numbers; it is no longer part of the code.
#[derive(Clone, Debug, PartialEq, Eq)]
pub struct Phi {
    pub ty: IrType,
    pub incoming: Vec<Incoming>,
    pub erased: bool,
}

pub struct PhiView {
    pub ty: IrType,
    pub incoming: Seq<Incoming>,
    pub erased: bool,
}

impl View for Phi {
    type V = PhiView;

    open spec fn view(&self) -> PhiView {
        PhiView { ty: self.ty, incoming: self.incoming@, erased: self.erased }
    }
}

/// The place of a phi node, with its type.
#[derive(Clone, Copy, Debug, PartialEq, Eq, Structural)]
pub struct PhiRef {
    pub block: usize,
    pub index: usize,
    pub ty: IrType,
}

impl PhiRef {
    pub open spec fn value(self) -> Value {
        Value { kind: ValueKind::Phi { block: self.block, index: self.index }, ty: self.ty }
    }

    /// The value that the phi node yields.
    pub fn as_value(&self) -> (v: Value)
        ensures
            v == self.value(),
    {
        Value { kind: ValueKind::Phi { block: self.block, index: self.index }, ty: self.ty }
    }
}

#[derive(Clone, Debug, PartialEq, Eq)]
pub struct Block {
    pub owner: FuncRef,
    pub label: Label,
    pub phis: Vec<Phi>,
    pub insts: Vec<Inst>,
}

pub struct BlockView {
    pub owner: FuncRef,
    pub label: Label,
    pub phis: Seq<PhiView>,
    pub insts: Seq<InstView>,
}

impl View for Block {
    type V = BlockView;

    open spec fn view(&self) -> BlockView {
        BlockView {
            owner: self.owner,
            label: self.label,
            phis: self.phis@.map_values(|p: Phi| p@),
            insts: self.insts@.map_values(|i: Inst| i@),
        }
    }
}

impl BlockView {
    pub open spec fn empty(owner: FuncRef, label: Label) -> BlockView {
        BlockView { owner, label, phis: Seq::empty(), insts: Seq::empty() }
    }
}

} // verus!
