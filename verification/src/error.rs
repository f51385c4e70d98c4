//! Why a translation was given up.

use vstd::prelude::*;

verus! {

/// A feature of WebAssembly that the translator does not handle.
#[derive(Clone, Copy, Debug, PartialEq, Eq, Structural)]
pub enum Unsupported {
    /// A function type with more than one result.
    MultiResult,
    /// A value type other than the four number types.
    ValueType,
    /// A block whose type is a function type.
    BlockFuncType,
    /// A type that is not a function type.
    CompositeType,
    /// An import that is neither a function nor a 32-bit memory.
    Import,
    /// A passive data segment.
    PassiveData,
    /// A passive element segment.
    PassiveElement,
    /// A declared element segment.
    DeclaredElement,
    /// An element segment whose items are expressions.
    ElementExpressions,
    /// A table other than table 0.
    MultiTable,
    /// A memory other than memory 0.
    MultiMemory,
    /// A memory with 64-bit addresses.
    Memory64,
    /// An initializer or offset that is not a constant.
    ConstExpr,
    /// An operator outside the supported set.
    Operator,
}

/// A violation of the typing rules of WebAssembly in the input.
#[derive(Clone, Copy, Debug, PartialEq, Eq, Structural)]
pub enum Malformation {
    /// An operator needs more operands than the block has.
    StackUnderflow,
    /// An operand has another type than the operator asks for.
    TypeMismatch,
    /// An operator outside of any block.
    NoControlFrame,
    /// A branch to a block that does not enclose it.
    BranchDepth,
    /// `else` outside the first arm of an `if`.
    MisplacedElse,
    LocalIndex,
    GlobalIndex,
    FunctionIndex,
    TypeIndex,
    /// An indirect call in a module without a table.
    NoTable,
    /// A write to an immutable global.
    ImmutableGlobal,
    /// A function body that does not close every block it opens.
    UnclosedBlock,
    /// No function is exported as `_start`.
    NoStartFunction,
    /// More function bodies than declared functions.
    CodeCount,
    /// An index space that does not fit 32 bits.
    TooManyItems,
    /// An import section after a function was declared.
    SectionOrder,
    /// A segment that begins at a negative offset.
    SegmentOffset,
}

/// A rejection by the code-generation backend.
#[derive(Clone, Copy, Debug, PartialEq, Eq, Structural)]
pub enum Backend {
    /// A value of a type that the runtime storage interface cannot carry.
    UnsupportedType,
}

#[derive(Clone, Copy, Debug, PartialEq, Eq, Structural)]
pub enum CompileError {
    UnsupportedFeature(Unsupported),
    Malformed(Malformation),
    BackendError(Backend),
}

} // verus!
