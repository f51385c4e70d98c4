//! WebAssembly modules as the translator reads them: the sections of a
//! decoded binary, held as plain values.

use vstd::prelude::*;

verus! {

/// The type of a value. Only the four number types can be translated.
#[derive(Clone, Copy, Debug, PartialEq, Eq, Structural)]
pub enum ValType {
    I32,
    I64,
    F32,
    F64,
    V128,
    FuncRef,
    ExternRef,
}

/// The type of a block, a loop or an `if`.
#[derive(Clone, Copy, Debug, PartialEq, Eq, Structural)]
pub enum BlockType {
    Empty,
    Type(ValType),
    FuncType(u32),
}

/// The immediate of a memory access.
#[derive(Clone, Copy, Debug, PartialEq, Eq, Structural)]
pub struct MemArg {
    pub align: u8,
    pub offset: u64,
    pub memory: u32,
}

/// One operator of a function body. Floating-point constants are held by
/// their bit patterns.
#[derive(Clone, Debug)]
pub enum Operator {
    Block { blockty: BlockType },
    Loop { blockty: BlockType },
    If { blockty: BlockType },
    Br { relative_depth: u32 },
    BrIf { relative_depth: u32 },
    BrTable { targets: Vec<u32>, default: u32 },
    Call { function_index: u32 },
    CallIndirect { type_index: u32, table_index: u32 },
    LocalGet { local_index: u32 },
    LocalSet { local_index: u32 },
    LocalTee { local_index: u32 },
    GlobalGet { global_index: u32 },
    GlobalSet { global_index: u32 },
    MemorySize { mem: u32 },
    MemoryGrow { mem: u32 },
    MemoryCopy { dst_mem: u32, src_mem: u32 },
    MemoryFill { mem: u32 },
    I32Const { value: i32 },
    I64Const { value: i64 },
    F32Const { bits: u32 },
    F64Const { bits: u64 },
    I32Load { memarg: MemArg },
    I64Load { memarg: MemArg },
    F32Load { memarg: MemArg },
    F64Load { memarg: MemArg },
    I32Load8S { memarg: MemArg },
    I32Load8U { memarg: MemArg },
    I32Load16S { memarg: MemArg },
    I32Load16U { memarg: MemArg },
    I64Load8S { memarg: MemArg },
    I64Load8U { memarg: MemArg },
    I64Load16S { memarg: MemArg },
    I64Load16U { memarg: MemArg },
    I64Load32S { memarg: MemArg },
    I64Load32U { memarg: MemArg },
    I32Store { memarg: MemArg },
    I64Store { memarg: MemArg },
    F32Store { memarg: MemArg },
    F64Store { memarg: MemArg },
    I32Store8 { memarg: MemArg },
    I32Store16 { memarg: MemArg },
    I64Store8 { memarg: MemArg },
    I64Store16 { memarg: MemArg },
    I64Store32 { memarg: MemArg },
    Unreachable,
    Nop,
    Else,
    End,
    Return,
    Drop,
    Select,
    I32Eqz,
    I32Eq,
    I32Ne,
    I32LtS,
    I32LtU,
    I32GtS,
    I32GtU,
    I32LeS,
    I32LeU,
    I32GeS,
    I32GeU,
    I64Eqz,
    I64Eq,
    I64Ne,
    I64LtS,
    I64LtU,
    I64GtS,
    I64GtU,
    I64LeS,
    I64LeU,
    I64GeS,
    I64GeU,
    F32Eq,
    F32Ne,
    F32Lt,
    F32Gt,
    F32Le,
    F32Ge,
    F64Eq,
    F64Ne,
    F64Lt,
    F64Gt,
    F64Le,
    F64Ge,
    I32Clz,
    I32Ctz,
    I32Popcnt,
    I32Add,
    I32Sub,
    I32Mul,
    I32DivS,
    I32DivU,
    I32RemS,
    I32RemU,
    I32And,
    I32Or,
    I32Xor,
    I32Shl,
    I32ShrS,
    I32ShrU,
    I32Rotl,
    I32Rotr,
    I64Clz,
    I64Ctz,
    I64Popcnt,
    I64Add,
    I64Sub,
    I64Mul,
    I64DivS,
    I64DivU,
    I64RemS,
    I64RemU,
    I64And,
    I64Or,
    I64Xor,
    I64Shl,
    I64ShrS,
    I64ShrU,
    I64Rotl,
    I64Rotr,
    F32Abs,
    F32Neg,
    F32Ceil,
    F32Floor,
    F32Trunc,
    F32Nearest,
    F32Sqrt,
    F32Add,
    F32Sub,
    F32Mul,
    F32Div,
    F32Min,
    F32Max,
    F32Copysign,
    F64Abs,
    F64Neg,
    F64Ceil,
    F64Floor,
    F64Trunc,
    F64Nearest,
    F64Sqrt,
    F64Add,
    F64Sub,
    F64Mul,
    F64Div,
    F64Min,
    F64Max,
    F64Copysign,
    I32WrapI64,
    I32TruncF32S,
    I32TruncF32U,
    I32TruncF64S,
    I32TruncF64U,
    I64ExtendI32S,
    I64ExtendI32U,
    I64TruncF32S,
    I64TruncF32U,
    I64TruncF64S,
    I64TruncF64U,
    F32ConvertI32S,
    F32ConvertI32U,
    F32ConvertI64S,
    F32ConvertI64U,
    F32DemoteF64,
    F64ConvertI32S,
    F64ConvertI32U,
    F64ConvertI64S,
    F64ConvertI64U,
    F64PromoteF32,
    I32ReinterpretF32,
    I64ReinterpretF64,
    F32ReinterpretI32,
    F64ReinterpretI64,
    I32Extend8S,
    I32Extend16S,
    I64Extend8S,
    I64Extend16S,
    I64Extend32S,
    /// Any operator that the translator does not handle.
    Unsupported,
}

/// A function type: parameters and results.
#[derive(Clone, Debug)]
pub struct FuncType {
    pub params: Vec<ValType>,
    pub results: Vec<ValType>,
}

/// An entry of the type section.
#[derive(Clone, Debug)]
pub enum CompositeType {
    Func(FuncType),
    Array,
    Struct,
}

/// What an import brings.
#[derive(Clone, Copy, Debug, PartialEq, Eq, Structural)]
pub enum TypeRef {
    /// A function of the type with this index.
    Func(u32),
    Table,
    Memory { memory64: bool },
    Global,
    Tag,
}

#[derive(Clone, Debug)]
pub struct Import {
    pub module: String,
    pub name: String,
    pub ty: TypeRef,
}

#[derive(Clone, Copy, Debug, PartialEq, Eq, Structural)]
pub enum ExternalKind {
    Func,
    Table,
    Memory,
    Global,
    Tag,
}

#[derive(Clone, Debug)]
pub struct Export {
    pub name: String,
    pub kind: ExternalKind,
    pub index: u32,
}

#[derive(Clone, Copy, Debug, PartialEq, Eq, Structural)]
pub struct TableType {
    pub initial: u64,
}

#[derive(Clone, Copy, Debug, PartialEq, Eq, Structural)]
pub struct MemoryType {
    pub memory64: bool,
    /// The initial size in pages.
    pub initial: u64,
}

/// An initializer or an offset: the operators of a constant expression,
/// without the closing `end`.
#[derive(Clone, Debug)]
pub struct ConstExpr {
    pub ops: Vec<Operator>,
}

/// An entry of the global section.
#[derive(Clone, Debug)]
pub struct GlobalEntry {
    pub content_type: ValType,
    pub mutable: bool,
    pub init_expr: ConstExpr,
}

#[derive(Clone, Debug)]
pub enum ElementKind {
    Passive,
    Active { table_index: Option<u32>, offset_expr: ConstExpr },
    Declared,
}

#[derive(Clone, Debug)]
pub enum ElementItems {
    /// Function indices.
    Functions(Vec<u32>),
    Expressions,
}

#[derive(Clone, Debug)]
pub struct Element {
    pub kind: ElementKind,
    pub items: ElementItems,
}

#[derive(Clone, Debug)]
pub enum DataKind {
    Passive,
    Active { memory_index: u32, offset_expr: ConstExpr },
}

#[derive(Clone, Debug)]
pub struct Data {
    pub kind: DataKind,
    pub data: Vec<u8>,
}

/// A run of locals of one type.
#[derive(Clone, Copy, Debug, PartialEq, Eq, Structural)]
pub struct LocalGroup {
    pub count: u32,
    pub ty: ValType,
}

/// An entry of the code section.
#[derive(Clone, Debug)]
pub struct FunctionBody {
    pub locals: Vec<LocalGroup>,
    pub operators: Vec<Operator>,
}

/// One section of a module, in the order of the binary.
#[derive(Clone, Debug)]
pub enum Section {
    Type(Vec<CompositeType>),
    Import(Vec<Import>),
    /// The type index of each function defined in the module.
    Function(Vec<u32>),
    Table(Vec<TableType>),
    Memory(Vec<MemoryType>),
    Global(Vec<GlobalEntry>),
    Export(Vec<Export>),
    Element(Vec<Element>),
    Data(Vec<Data>),
    Code(Vec<FunctionBody>),
    Custom,
    /// A section that the translator passes over.
    Other,
}

} // verus!
