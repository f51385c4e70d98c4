//! The state that is carried through a translation.

use vstd::prelude::*;

use crate::builder::{Builder, BuilderView};
use crate::compile::control::{ControlFrame, UnreachableReason};
use crate::compile::cr::opt::{Analysis, AnalysisView};
use crate::driver::Args;
use crate::error::{CompileError, Malformation};
use crate::ir::{FuncRef, Inst, InstView, IrType, Label, NumType, PhiRef, Value};

verus! {

/// A global of the Wasm module.
#[derive(Clone, Copy, Debug, PartialEq, Eq, Structural)]
pub enum Global {
    /// A mutable global: the address of its storage and the type stored.
    Mut { ptr: Value, ty: NumType },
    /// An immutable global: its type and the bit pattern of its value.
    Const { ty: NumType, bits: u64 },
}

impl Global {
    pub open spec fn ty(self) -> NumType {
        match self {
            Global::Mut { ty, .. } => ty,
            Global::Const { ty, .. } => ty,
        }
    }

    /// The type of the global's value.
    pub fn value_type(&self) -> (t: NumType)
        ensures
            t == self.ty(),
    {
        match self {
            Global::Mut { ty, .. } => *ty,
            Global::Const { ty, .. } => *ty,
        }
    }
}

/// The operand stack of the function being translated.
#[derive(Clone, Debug, PartialEq, Eq)]
pub struct StackFrame {
    pub stack: Vec<Value>,
}

impl StackFrame {
    pub fn new() -> (f: StackFrame)
        ensures
            f.stack@ == Seq::<Value>::empty(),
    {
        StackFrame { stack: Vec::new() }
    }
}

/// Where a function of the module comes from.
#[derive(Clone, Copy, Debug, PartialEq, Eq, Structural)]
pub enum Origin {
    /// Defined in the module; linked as `func_` and its index.
    Defined,
    /// The import with this place in the import section. A qualified import
    /// is linked as its module name, an underscore and its name; any other
    /// under its name alone.
    Import { entry: u32, qualified: bool },
}

/// A function of the Wasm module.
#[derive(Clone, Copy, Debug, PartialEq, Eq, Structural)]
pub struct Function {
    pub type_idx: u32,
    pub origin: Origin,
}

/// A lowered function type, without the leading environment parameter.
#[derive(Clone, Debug, PartialEq, Eq)]
pub struct Signature {
    pub params: Vec<NumType>,
    pub result: Option<NumType>,
}

pub struct SignatureView {
    pub params: Seq<NumType>,
    pub result: Option<NumType>,
}

impl View for Signature {
    type V = SignatureView;

    open spec fn view(&self) -> SignatureView {
        SignatureView { params: self.params@, result: self.result }
    }
}

/// A local variable of the function being translated: the address of its
/// slot and the type stored there.
#[derive(Clone, Copy, Debug, PartialEq, Eq, Structural)]
pub struct Local {
    pub ptr: Value,
    pub ty: NumType,
}

/// A declaration of a function in the emitted module.
#[derive(Clone, Copy, Debug, PartialEq, Eq, Structural)]
pub struct FunctionDecl {
    pub func: FuncRef,
    /// For a function of the Wasm module, the index of its type.
    pub type_idx: Option<u32>,
    /// Whether the symbol is bound outside the emitted module.
    pub external: bool,
    pub noredzone: bool,
    pub noinline: bool,
}

#[derive(Clone, Copy, Debug, PartialEq, Eq, Structural)]
pub enum GlobalName {
    /// The storage of the mutable Wasm global with this index.
    Wasm(u32),
    /// The initial size of the linear memory, in pages.
    InitMemorySize,
    /// The bytes of the data segment with this place in the data section.
    MemoryInitializer(usize),
    /// The addresses of all functions, by function index.
    FunctionPointers,
    /// The function table: one function index per slot.
    Table,
}

#[derive(Clone, Copy, Debug, PartialEq, Eq, Structural)]
pub enum GlobalKind {
    /// One value of the given type, initialized to the given bit pattern.
    Scalar { ty: IrType, bits: u64 },
    /// An array of bytes, initialized to `bytes`.
    Bytes,
    /// An array of 32-bit integers, initialized to `indices`.
    Indices,
    /// An array of the addresses of the first `count` functions.
    FunctionPointers { count: usize },
}

/// A global of the emitted module.
#[derive(Clone, Debug, PartialEq, Eq)]
pub struct GlobalDecl {
    pub name: GlobalName,
    pub constant: bool,
    pub kind: GlobalKind,
    pub bytes: Vec<u8>,
    pub indices: Vec<u32>,
}

pub struct GlobalDeclView {
    pub name: GlobalName,
    pub constant: bool,
    pub kind: GlobalKind,
    pub bytes: Seq<u8>,
    pub indices: Seq<u32>,
}

impl View for GlobalDecl {
    type V = GlobalDeclView;

    open spec fn view(&self) -> GlobalDeclView {
        GlobalDeclView {
            name: self.name,
            constant: self.constant,
            kind: self.kind,
            bytes: self.bytes@,
            indices: self.indices@,
        }
    }
}

/// One case of a function's restore dispatch: the operator index of a site
/// and the block that restores the frame saved there.
#[derive(Clone, Copy, Debug, PartialEq, Eq, Structural)]
pub struct DispatchCase {
    pub op_index: u32,
    pub block: usize,
}

#[derive(Debug)]
pub struct Context {
    pub config: Args,
    // The emitted module.
    pub builder: Builder,
    pub declarations: Vec<FunctionDecl>,
    pub module_globals: Vec<GlobalDecl>,
    // Synthesized parts.
    /// The block of the entry function in which the memory is initialized.
    pub aot_init_block: Option<usize>,
    /// The block of the entry function that runs the program.
    pub aot_main_block: Option<usize>,
    pub global_table: Option<usize>,
    pub global_table_size: Option<usize>,
    pub global_fptr_array: Option<usize>,
    // What is known of the Wasm module.
    pub signatures: Vec<Signature>,
    pub functions: Vec<Function>,
    pub num_functions: u32,
    pub start_function_idx: Option<u32>,
    pub num_imports: u32,
    pub globals: Vec<Global>,
    // The state of the function being translated.
    pub current_function_idx: Option<u32>,
    pub current_fn: Option<FuncRef>,
    pub current_op: Option<u32>,
    pub control_frames: Vec<ControlFrame>,
    pub stack_frames: Vec<StackFrame>,
    pub unreachable_depth: u32,
    pub unreachable_reason: UnreachableReason,
    pub restore_dispatch_bb: Option<usize>,
    pub restore_dispatch_cases: Vec<DispatchCase>,
    pub analysis: Option<Analysis>,
    pub next_stackmap_id: u64,
    pub num_migration_points: u32,
}

pub struct ContextView {
    pub config: Args,
    pub builder: BuilderView,
    pub declarations: Seq<FunctionDecl>,
    pub module_globals: Seq<GlobalDeclView>,
    pub aot_init_block: Option<usize>,
    pub aot_main_block: Option<usize>,
    pub global_table: Option<usize>,
    pub global_table_size: Option<usize>,
    pub global_fptr_array: Option<usize>,
    pub signatures: Seq<SignatureView>,
    pub functions: Seq<Function>,
    pub num_functions: u32,
    pub start_function_idx: Option<u32>,
    pub num_imports: u32,
    pub globals: Seq<Global>,
    pub current_function_idx: Option<u32>,
    pub current_fn: Option<FuncRef>,
    pub current_op: Option<u32>,
    pub control_frames: Seq<ControlFrame>,
    pub stack_frames: Seq<Seq<Value>>,
    pub unreachable_depth: u32,
    pub unreachable_reason: UnreachableReason,
    pub restore_dispatch_bb: Option<usize>,
    pub restore_dispatch_cases: Seq<DispatchCase>,
    pub analysis: Option<AnalysisView>,
    pub next_stackmap_id: u64,
    pub num_migration_points: u32,
}

impl View for Context {
    type V = ContextView;

    open spec fn view(&self) -> ContextView {
        ContextView {
            config: self.config,
            builder: self.builder@,
            declarations: self.declarations@,
            module_globals: self.module_globals@.map_values(|g: GlobalDecl| g@),
            aot_init_block: self.aot_init_block,
            aot_main_block: self.aot_main_block,
            global_table: self.global_table,
            global_table_size: self.global_table_size,
            global_fptr_array: self.global_fptr_array,
            signatures: self.signatures@.map_values(|s: Signature| s@),
            functions: self.functions@,
            num_functions: self.num_functions,
            start_function_idx: self.start_function_idx,
            num_imports: self.num_imports,
            globals: self.globals@,
            current_function_idx: self.current_function_idx,
            current_fn: self.current_fn,
            current_op: self.current_op,
            control_frames: self.control_frames@,
            stack_frames: self.stack_frames@.map_values(|f: StackFrame| f.stack@),
            unreachable_depth: self.unreachable_depth,
            unreachable_reason: self.unreachable_reason,
            restore_dispatch_bb: self.restore_dispatch_bb,
            restore_dispatch_cases: self.restore_dispatch_cases@,
            analysis: match self.analysis {
                Some(a) => Some(a@),
                None => None,
            },
            next_stackmap_id: self.next_stackmap_id,
            num_migration_points: self.num_migration_points,
        }
    }
}

impl ContextView {
    /// The state before anything is known of a module.
    pub open spec fn fresh(args: Args) -> ContextView {
        ContextView {
            config: args,
            builder: BuilderView { blocks: Seq::empty(), position: None },
            declarations: Seq::empty(),
            module_globals: Seq::empty(),
            aot_init_block: None,
            aot_main_block: None,
            global_table: None,
            global_table_size: None,
            global_fptr_array: None,
            signatures: Seq::empty(),
            functions: Seq::empty(),
            num_functions: 0,
            start_function_idx: None,
            num_imports: 0,
            globals: Seq::empty(),
            current_function_idx: None,
            current_fn: None,
            current_op: None,
            control_frames: Seq::empty(),
            stack_frames: Seq::empty(),
            unreachable_depth: 0,
            unreachable_reason: UnreachableReason::Reachable,
            restore_dispatch_bb: None,
            restore_dispatch_cases: Seq::empty(),
            analysis: None,
            next_stackmap_id: 0,
            num_migration_points: 0,
        }
    }

    /// The operand stack of the function being translated.
    pub open spec fn stack(self) -> Seq<Value> {
        self.stack_frames.last()
    }

    pub open spec fn with_stack(self, s: Seq<Value>) -> ContextView {
        ContextView {
            stack_frames: self.stack_frames.update(self.stack_frames.len() - 1, s),
            ..self
        }
    }

    pub open spec fn push(self, v: Value) -> ContextView {
        self.with_stack(self.stack().push(v))
    }

    /// The stack without its `n` topmost values.
    pub open spec fn drop(self, n: int) -> ContextView {
        self.with_stack(self.stack().subrange(0, self.stack().len() - n))
    }

    /// The value `k` places below the top of the stack.
    pub open spec fn top(self, k: int) -> Value {
        self.stack()[self.stack().len() - 1 - k]
    }

    /// The depth of the operand stack at the entry of the innermost frame.
    pub open spec fn base(self) -> int {
        if self.control_frames.len() == 0 {
            0
        } else {
            self.control_frames.last().stack_size() as int
        }
    }

    /// The number of operands that the innermost frame has on the stack.
    pub open spec fn operands(self) -> int {
        self.stack().len() - self.base()
    }

    /// The frame that a branch of the given depth goes to.
    pub open spec fn frame(self, relative_depth: u32) -> ControlFrame {
        self.control_frames[self.control_frames.len() - 1 - relative_depth]
    }

    pub open spec fn with_builder(self, b: BuilderView) -> ContextView {
        ContextView { builder: b, ..self }
    }

    /// Appends an instruction at the cursor.
    pub open spec fn emit1(self, inst: InstView) -> ContextView {
        self.with_builder(self.builder.emit1(inst))
    }

    /// The value defined by the instruction that comes `k` instructions after
    /// the next one emitted at the cursor.
    pub open spec fn value_at(self, k: int, ty: IrType) -> Value {
        self.builder.value_at(k, ty)
    }

    /// Adds an empty block to the function being translated.
    pub open spec fn append_block(self, label: Label) -> ContextView {
        self.with_builder(self.builder.append_block(self.current_fn.unwrap(), label))
    }

    /// The index of the next block that is added.
    pub open spec fn next_block(self) -> usize {
        self.builder.blocks.len() as usize
    }

    pub open spec fn position_at(self, b: usize) -> ContextView {
        self.with_builder(self.builder.position_at(b))
    }

    pub open spec fn add_phi(self, b: usize, ty: IrType) -> ContextView {
        self.with_builder(self.builder.add_phi(b, ty))
    }

    pub open spec fn add_incoming(self, phi: PhiRef, value: Value, from: usize) -> ContextView {
        self.with_builder(self.builder.add_incoming(phi, value, from))
    }

    pub open spec fn erase_phi(self, phi: PhiRef) -> ContextView {
        self.with_builder(self.builder.erase_phi(phi))
    }

    pub open spec fn push_frame(self, f: ControlFrame) -> ContextView {
        ContextView { control_frames: self.control_frames.push(f), ..self }
    }

    pub open spec fn pop_frame(self) -> ContextView {
        ContextView { control_frames: self.control_frames.drop_last(), ..self }
    }

    /// Puts `f` in the place of the innermost frame.
    pub open spec fn set_frame(self, f: ControlFrame) -> ContextView {
        ContextView {
            control_frames: self.control_frames.update(self.control_frames.len() - 1, f),
            ..self
        }
    }

    pub open spec fn jump(self, reason: UnreachableReason) -> ContextView {
        ContextView {
            unreachable_depth: (self.unreachable_depth + 1) as u32,
            unreachable_reason: reason,
            ..self
        }
    }

    pub open spec fn add_case(self, op_index: u32, block: usize) -> ContextView {
        ContextView {
            restore_dispatch_cases: self.restore_dispatch_cases.push(
                DispatchCase { op_index, block },
            ),
            ..self
        }
    }

    /// The state in which the translation of a function begins.
    pub open spec fn begun(self) -> ContextView {
        ContextView {
            current_fn: Some(FuncRef::Wasm(self.current_function_idx.unwrap())),
            stack_frames: self.stack_frames.push(Seq::empty()),
            control_frames: Seq::empty(),
            unreachable_depth: 0,
            unreachable_reason: UnreachableReason::Reachable,
            restore_dispatch_bb: None,
            restore_dispatch_cases: Seq::empty(),
            ..self
        }
    }

    /// The state after the translation of a function.
    pub open spec fn ended(self) -> ContextView {
        ContextView { current_fn: None, stack_frames: self.stack_frames.drop_last(), ..self }
    }

    /// The operator with index `op` is the one being translated.
    pub open spec fn with_op(self, op: u32) -> ContextView {
        ContextView { current_op: Some(op), ..self }
    }

    /// One more migration point is counted, unless the count is full.
    pub open spec fn counted(self) -> ContextView {
        ContextView {
            num_migration_points: if self.num_migration_points < u32::MAX {
                (self.num_migration_points + 1) as u32
            } else {
                self.num_migration_points
            },
            ..self
        }
    }

    /// The frames name blocks and phi nodes that exist, and none of them
    /// begins above the top of the stack or below the frame around it.
    pub open spec fn frames_ok(self) -> bool {
        &&& forall|i: int|
            0 <= i < self.control_frames.len() ==> (#[trigger] self.control_frames[i]).valid_in(
                self.builder,
            )
        &&& forall|i: int|
            0 <= i < self.control_frames.len() ==> (#[trigger] self.control_frames[i]).stack_size()
                <= self.stack().len()
        &&& forall|i: int, j: int|
            0 <= i <= j < self.control_frames.len() ==> (#[trigger] self.control_frames[i]).stack_size()
                <= (#[trigger] self.control_frames[j]).stack_size()
    }

    /// Every value on the operand stack has one of the four number types.
    pub open spec fn stack_typed(self) -> bool {
        forall|i: int| 0 <= i < self.stack().len() ==> (#[trigger] self.stack()[i]).ty.num().is_some()
    }

    /// The function being translated is known, and so is its type.
    pub open spec fn function_ok(self) -> bool {
        &&& self.current_fn.is_some()
        &&& self.current_fn matches Some(FuncRef::Wasm(i)) ==> i < self.functions.len()
            && self.functions[i as int].type_idx < self.signatures.len()
    }

    /// The type of the value that the function being translated returns.
    pub open spec fn ret_ty(self) -> Option<NumType> {
        match self.current_fn {
            Some(FuncRef::Wasm(i)) => self.signatures[self.functions[i as int].type_idx as int].result,
            _ => None,
        }
    }

    /// The state in which a function body is translated: a function and an
    /// operand stack are at hand and the cursor stands in a block.
    pub open spec fn wf(self) -> bool {
        &&& self.builder.ready()
        &&& self.stack_frames.len() > 0
        &&& self.function_ok()
        &&& self.restore_dispatch_bb matches Some(b) ==> self.builder.has_block(b)
        &&& self.frames_ok()
        &&& self.stack_typed()
    }

    /// The state in which a site of a function body is translated: the
    /// indices of the function and of the operator are known.
    pub open spec fn at_site(self) -> bool {
        &&& self.wf()
        &&& self.current_op.is_some()
        &&& self.current_function_idx.is_some()
    }

    /// Whether the sites of the function being translated are instrumented
    /// for checkpointing.
    pub open spec fn checkpoints(self) -> bool {
        self.config.checkpoints()
    }

    /// Whether the sites of the function being translated are instrumented
    /// for restoring.
    pub open spec fn restores(self) -> bool {
        self.config.restores()
    }
}

/// Between `o` and `n` nothing happened but that code was added to existing
/// blocks: no block was added and the cursor was not moved.
pub open spec fn emitted(o: ContextView, n: ContextView) -> bool {
    &&& n == o.with_builder(n.builder)
    &&& n.builder.position == o.builder.position
    &&& n.builder.blocks.len() == o.builder.blocks.len()
    &&& forall|k: int|
        0 <= k < o.builder.blocks.len() && k != o.builder.at() ==> #[trigger] n.builder.blocks[k]
            == o.builder.blocks[k]
    &&& n.builder.blocks[o.builder.at()].phis == o.builder.blocks[o.builder.at()].phis
    &&& o.builder.code().len() <= n.builder.code().len()
}

/// Between `o` and `n` the function being translated, what is known of the
/// module and the options stayed as they were.
pub open spec fn same_function(o: ContextView, n: ContextView) -> bool {
    &&& n == (ContextView {
        builder: n.builder,
        stack_frames: n.stack_frames,
        control_frames: n.control_frames,
        unreachable_depth: n.unreachable_depth,
        unreachable_reason: n.unreachable_reason,
        restore_dispatch_cases: n.restore_dispatch_cases,
        num_migration_points: n.num_migration_points,
        ..o
    })
    &&& o.builder.blocks.len() <= n.builder.blocks.len()
    &&& o.stack_frames.len() == n.stack_frames.len()
}

/// Between `o` and `n` a function was translated: what is known of the
/// module and the options stayed as they were, no block was taken away,
/// and the operand stacks of the functions around stayed in place.
pub open spec fn same_module(o: ContextView, n: ContextView) -> bool {
    &&& n == (ContextView {
        builder: n.builder,
        stack_frames: n.stack_frames,
        control_frames: n.control_frames,
        unreachable_depth: n.unreachable_depth,
        unreachable_reason: n.unreachable_reason,
        restore_dispatch_bb: n.restore_dispatch_bb,
        restore_dispatch_cases: n.restore_dispatch_cases,
        num_migration_points: n.num_migration_points,
        current_fn: n.current_fn,
        current_op: n.current_op,
        ..o
    })
    &&& o.builder.blocks.len() <= n.builder.blocks.len()
    &&& o.stack_frames.len() == n.stack_frames.len()
}

/// Between `o` and `n` a site was instrumented: code was added, values on
/// the operand stack were replaced, and nothing else of the state of the
/// translation changed.
pub open spec fn site_frame(o: ContextView, n: ContextView) -> bool {
    &&& same_function(o, n)
    &&& n.control_frames == o.control_frames
    &&& n.unreachable_depth == o.unreachable_depth
    &&& n.unreachable_reason == o.unreachable_reason
    &&& n.stack().len() == o.stack().len()
}

/// Putting the stack in its own place changes nothing.
pub proof fn lemma_with_stack_same(c: ContextView)
    requires
        c.stack_frames.len() > 0,
    ensures
        c.with_stack(c.stack()) == c,
{
    assert(c.with_stack(c.stack()).stack_frames =~= c.stack_frames);
}

/// A frame that is valid stays valid when blocks, phi nodes, edges or
/// instructions are added.
pub open spec fn grows(o: BuilderView, n: BuilderView) -> bool {
    &&& o.blocks.len() <= n.blocks.len()
    &&& forall|i: int|
        0 <= i < o.blocks.len() ==> {
            &&& o.blocks[i].phis.len() <= (#[trigger] n.blocks[i]).phis.len()
            &&& forall|j: int|
                0 <= j < o.blocks[i].phis.len() ==> o.blocks[i].phis[j].ty == (
                #[trigger] n.blocks[i].phis[j]).ty
        }
}

pub proof fn lemma_grows_keeps_frames(o: ContextView, n: ContextView)
    requires
        o.frames_ok(),
        grows(o.builder, n.builder),
        n.control_frames == o.control_frames,
        n.stack().len() >= o.stack().len(),
    ensures
        n.frames_ok(),
{
    assert forall|i: int| 0 <= i < n.control_frames.len() implies (
    #[trigger] n.control_frames[i]).valid_in(n.builder) by {
        let f = o.control_frames[i];
        assert(f.valid_in(o.builder));
        if let Some(p) = f.br_phis() {
            assert(o.builder.has_phi(p));
            assert(n.builder.blocks[p.block as int].phis[p.index as int].ty == p.ty);
        }
        if let Some(p) = f.end_phis() {
            assert(o.builder.has_phi(p));
            assert(n.builder.blocks[p.block as int].phis[p.index as int].ty == p.ty);
        }
    }
}

impl Context {
    pub fn new(args: Args) -> (ctx: Context)
        ensures
            ctx@ == ContextView::fresh(args),
            ctx@.config == args,
            ctx@.builder.blocks.len() == 0,
            ctx@.builder.position.is_none(),
            ctx@.declarations.len() == 0,
            ctx@.module_globals.len() == 0,
            ctx@.aot_init_block.is_none(),
            ctx@.aot_main_block.is_none(),
            ctx@.global_table.is_none(),
            ctx@.global_table_size.is_none(),
            ctx@.global_fptr_array.is_none(),
            ctx@.signatures.len() == 0,
            ctx@.functions.len() == 0,
            ctx@.num_functions == 0,
            ctx@.start_function_idx.is_none(),
            ctx@.num_imports == 0,
            ctx@.globals.len() == 0,
            ctx@.current_function_idx.is_none(),
            ctx@.current_fn.is_none(),
            ctx@.current_op.is_none(),
            ctx@.control_frames.len() == 0,
            ctx@.stack_frames.len() == 0,
            ctx@.unreachable_depth == 0,
            ctx@.unreachable_reason == UnreachableReason::Reachable,
            ctx@.restore_dispatch_bb.is_none(),
            ctx@.restore_dispatch_cases.len() == 0,
            ctx@.analysis.is_none(),
            ctx@.next_stackmap_id == 0,
            ctx@.num_migration_points == 0,
    {
        let ctx = Context {
            config: args,
            builder: Builder::new(),
            declarations: Vec::new(),
            module_globals: Vec::new(),
            aot_init_block: None,
            aot_main_block: None,
            global_table: None,
            global_table_size: None,
            global_fptr_array: None,
            signatures: Vec::new(),
            functions: Vec::new(),
            num_functions: 0,
            start_function_idx: None,
            num_imports: 0,
            globals: Vec::new(),
            current_function_idx: None,
            current_fn: None,
            current_op: None,
            control_frames: Vec::new(),
            stack_frames: Vec::new(),
            unreachable_depth: 0,
            unreachable_reason: UnreachableReason::Reachable,
            restore_dispatch_bb: None,
            restore_dispatch_cases: Vec::new(),
            analysis: None,
            next_stackmap_id: 0,
            num_migration_points: 0,
        };
        proof {
            let f = ContextView::fresh(args);
            assert(ctx@.builder.blocks =~= f.builder.blocks);
            assert(ctx@.declarations =~= f.declarations);
            assert(ctx@.module_globals =~= f.module_globals);
            assert(ctx@.signatures =~= f.signatures);
            assert(ctx@.functions =~= f.functions);
            assert(ctx@.globals =~= f.globals);
            assert(ctx@.control_frames =~= f.control_frames);
            assert(ctx@.stack_frames =~= f.stack_frames);
            assert(ctx@.restore_dispatch_cases =~= f.restore_dispatch_cases);
        }
        ctx
    }

    /// Pushes a value on the operand stack.
    pub fn push(&mut self, value: Value)
        requires
            old(self)@.stack_frames.len() > 0,
        ensures
            final(self)@ == old(self)@.push(value),
            old(self)@.wf() && value.ty.num().is_some() ==> final(self)@.wf(),
    {
        let n = self.stack_frames.len();
        self.stack_frames[n - 1].stack.push(value);
        proof {
            assert(self@.stack_frames =~= old(self)@.push(value).stack_frames);
        }
    }

    /// Takes the topmost value off the operand stack, if there is one.
    pub fn pop(&mut self) -> (r: Option<Value>)
        requires
            old(self)@.stack_frames.len() > 0,
        ensures
            old(self)@.stack().len() > 0 ==> r == Some(old(self)@.top(0)) && final(self)@ == old(
                self,
            )@.drop(1),
            old(self)@.stack().len() == 0 ==> r.is_none() && final(self)@ == old(self)@,
    {
        let n = self.stack_frames.len();
        let r = self.stack_frames[n - 1].stack.pop();
        proof {
            if old(self)@.stack().len() > 0 {
                assert(self@.stack_frames =~= old(self)@.drop(1).stack_frames);
            } else {
                assert(self@.stack_frames =~= old(self)@.stack_frames);
            }
        }
        r
    }

    /// Takes the two topmost values off the operand stack; the lower one
    /// comes first.
    pub fn pop2(&mut self) -> (r: (Value, Value))
        requires
            old(self)@.stack_frames.len() > 0,
            old(self)@.stack().len() >= 2,
        ensures
            r.0 == old(self)@.top(1),
            r.1 == old(self)@.top(0),
            final(self)@ == old(self)@.drop(2),
    {
        let n = self.stack_frames.len();
        let v2 = self.stack_frames[n - 1].stack.pop().unwrap();
        let v1 = self.stack_frames[n - 1].stack.pop().unwrap();
        proof {
            assert(self@.stack_frames.last() =~= old(self)@.drop(2).stack());
            assert(self@.stack_frames =~= old(self)@.drop(2).stack_frames);
        }
        (v1, v2)
    }

    /// The `n` topmost values of the operand stack, the lowest first.
    pub fn peekn(&self, n: usize) -> (r: Result<&[Value], CompileError>)
        requires
            self@.stack_frames.len() > 0,
        ensures
            n <= self@.stack().len() ==> r.is_ok() && r.unwrap()@ == self@.stack().subrange(
                self@.stack().len() - n,
                self@.stack().len() as int,
            ),
            n > self@.stack().len() ==> r == Err::<&[Value], CompileError>(
                CompileError::Malformed(Malformation::StackUnderflow),
            ),
    {
        let frame = &self.stack_frames[self.stack_frames.len() - 1];
        if frame.stack.len() < n {
            return Err(CompileError::Malformed(Malformation::StackUnderflow));
        }
        let index = frame.stack.len() - n;
        Ok(vstd::slice::slice_subrange(frame.stack.as_slice(), index, frame.stack.len()))
    }

    /// The value `n` places below the top of the operand stack.
    pub fn peek_from_top(&self, n: usize) -> (r: Result<Value, CompileError>)
        requires
            self@.stack_frames.len() > 0,
        ensures
            n < self@.stack().len() ==> r == Ok::<Value, CompileError>(self@.top(n as int)),
            n >= self@.stack().len() ==> r == Err::<Value, CompileError>(
                CompileError::Malformed(Malformation::StackUnderflow),
            ),
    {
        let frame = &self.stack_frames[self.stack_frames.len() - 1];
        if n >= frame.stack.len() {
            return Err(CompileError::Malformed(Malformation::StackUnderflow));
        }
        Ok(frame.stack[frame.stack.len() - 1 - n])
    }

    /// The depth of the operand stack.
    pub fn current_frame_size(&self) -> (n: usize)
        requires
            self@.stack_frames.len() > 0,
        ensures
            n == self@.stack().len(),
    {
        self.stack_frames[self.stack_frames.len() - 1].stack.len()
    }

    /// Cuts the operand stack down to the given depth; a stack that is not
    /// deeper stays as it is.
    pub fn reset_stack(&mut self, stack_size: usize)
        requires
            old(self)@.stack_frames.len() > 0,
        ensures
            stack_size <= old(self)@.stack().len() ==> final(self)@ == old(self)@.drop(
                old(self)@.stack().len() - stack_size,
            ),
            stack_size > old(self)@.stack().len() ==> final(self)@ == old(self)@,
    {
        let n = self.stack_frames.len();
        self.stack_frames[n - 1].stack.truncate(stack_size);
        proof {
            if stack_size <= old(self)@.stack().len() {
                assert(self@.stack_frames =~= old(self)@.drop(
                    old(self)@.stack().len() - stack_size,
                ).stack_frames);
            } else {
                assert(self@.stack_frames =~= old(self)@.stack_frames);
            }
        }
    }

    /// Takes the topmost value off the operand stack. Where it is an
    /// address, the 64-bit integer stored there is loaded and returned in
    /// its place.
    pub fn pop_and_load(&mut self) -> (v: Value)
        requires
            old(self)@.stack_frames.len() > 0,
            old(self)@.stack().len() > 0,
            old(self)@.builder.ready(),
        ensures
            old(self)@.top(0).ty != IrType::Ptr ==> v == old(self)@.top(0) && final(self)@ == old(
                self,
            )@.drop(1),
            old(self)@.top(0).ty == IrType::Ptr ==> v == old(self)@.value_at(0, IrType::I64)
                && final(self)@ == old(self)@.drop(1).emit1(
                InstView::load(IrType::I64, old(self)@.top(0), false),
            ),
    {
        let pop = self.pop().unwrap();
        if pop.ty == IrType::Ptr {
            self.builder.build(Inst::load(IrType::I64, pop, false))
        } else {
            pop
        }
    }

    /// Hands out the next stack map identifier of the running count, which
    /// starts again at zero after the largest.
    pub fn get_next_stackmap_id(&mut self) -> (id: u64)
        ensures
            id == old(self)@.next_stackmap_id,
            final(self)@ == (ContextView {
                next_stackmap_id: if id == u64::MAX {
                    0
                } else {
                    (id + 1) as u64
                },
                ..old(self)@
            }),
    {
        let id = self.next_stackmap_id;
        self.next_stackmap_id = if id == u64::MAX {
            0
        } else {
            id + 1
        };
        id
    }

    /// Puts `value` in the place of the value at depth `i` from the bottom of
    /// the operand stack.
    pub fn set_stack_value(&mut self, i: usize, value: Value)
        requires
            old(self)@.wf(),
            i < old(self)@.stack().len(),
            value.ty.num().is_some(),
        ensures
            final(self)@ == old(self)@.with_stack(old(self)@.stack().update(i as int, value)),
            final(self)@.wf(),
    {
        let n = self.stack_frames.len();
        self.stack_frames[n - 1].stack[i] = value;
        proof {
            assert(self@.stack_frames =~= old(self)@.with_stack(
                old(self)@.stack().update(i as int, value),
            ).stack_frames);
        }
    }

    /// The value at depth `i` from the bottom of the operand stack.
    pub fn stack_value(&self, i: usize) -> (v: Value)
        requires
            self@.stack_frames.len() > 0,
            i < self@.stack().len(),
        ensures
            v == self@.stack()[i as int],
    {
        self.stack_frames[self.stack_frames.len() - 1].stack[i]
    }

    /// Adds a case to the restore dispatch of the function being translated.
    pub fn add_dispatch_case(&mut self, op_index: u32, block: usize)
        ensures
            final(self)@ == old(self)@.add_case(op_index, block),
            old(self)@.wf() ==> final(self)@.wf(),
            old(self)@.at_site() ==> final(self)@.at_site(),
    {
        self.restore_dispatch_cases.push(DispatchCase { op_index, block });
        proof {
            if old(self)@.wf() {
                lemma_grows_keeps_frames(old(self)@, self@);
            }
        }
    }

    /// Counts one more migration point; the count stops at the largest
    /// number that it can hold.
    pub fn count_migration_point(&mut self)
        ensures
            final(self)@ == old(self)@.counted(),
            old(self)@.wf() ==> final(self)@.wf(),
            old(self)@.at_site() ==> final(self)@.at_site(),
    {
        if self.num_migration_points < u32::MAX {
            self.num_migration_points += 1;
        }
        proof {
            if old(self)@.wf() {
                lemma_grows_keeps_frames(old(self)@, self@);
            }
        }
    }

    /// Opens a control frame at the current depth of the operand stack.
    pub fn push_control_frame(&mut self, frame: ControlFrame)
        requires
            old(self)@.wf(),
            frame.valid_in(old(self)@.builder),
            frame.stack_size() == old(self)@.stack().len(),
        ensures
            final(self)@ == old(self)@.push_frame(frame),
            final(self)@.wf(),
    {
        self.control_frames.push(frame);
    }

    /// Closes the innermost control frame and returns it.
    pub fn pop_control_frame(&mut self) -> (frame: ControlFrame)
        requires
            old(self)@.wf(),
            old(self)@.control_frames.len() > 0,
        ensures
            frame == old(self)@.control_frames.last(),
            final(self)@ == old(self)@.pop_frame(),
            final(self)@.wf(),
            frame.valid_in(final(self)@.builder),
            frame.stack_size() <= final(self)@.stack().len(),
            forall|i: int|
                0 <= i < final(self)@.control_frames.len() ==> (
                #[trigger] final(self)@.control_frames[i]).stack_size() <= frame.stack_size(),
    {
        let frame = self.control_frames.pop().unwrap();
        proof {
            let o = old(self)@;
            assert(self@.control_frames =~= o.control_frames.drop_last());
            assert(frame == o.control_frames[o.control_frames.len() - 1]);
            assert forall|i: int| 0 <= i < self@.control_frames.len() implies (
            #[trigger] self@.control_frames[i]).stack_size() <= frame.stack_size() by {
                assert(self@.control_frames[i] == o.control_frames[i]);
            }
        }
        frame
    }

    /// Puts `frame` in the place of the innermost control frame.
    pub fn replace_control_frame(&mut self, frame: ControlFrame)
        requires
            old(self)@.wf(),
            old(self)@.control_frames.len() > 0,
            frame.valid_in(old(self)@.builder),
            frame.stack_size() == old(self)@.control_frames.last().stack_size(),
        ensures
            final(self)@ == old(self)@.set_frame(frame),
            final(self)@.wf(),
    {
        let n = self.control_frames.len();
        self.control_frames[n - 1] = frame;
        proof {
            let o = old(self)@;
            assert(self@.control_frames =~= o.set_frame(frame).control_frames);
            assert forall|i: int, j: int| 0 <= i <= j < self@.control_frames.len() implies (
            #[trigger] self@.control_frames[i]).stack_size() <= (
            #[trigger] self@.control_frames[j]).stack_size() by {
                assert(o.control_frames[i].stack_size() <= o.control_frames[j].stack_size());
            }
            assert forall|i: int| 0 <= i < self@.control_frames.len() implies (
            #[trigger] self@.control_frames[i]).stack_size() <= self@.stack().len() by {
                assert(o.control_frames[i].stack_size() <= o.stack().len());
            }
            assert forall|i: int| 0 <= i < self@.control_frames.len() implies (
            #[trigger] self@.control_frames[i]).valid_in(self@.builder) by {
                if i < n - 1 {
                    assert(o.control_frames[i].valid_in(o.builder));
                }
            }
        }
    }

    /// Cuts the operand stack down to `size`, a depth at or above the entry
    /// of every open frame.
    pub fn truncate_stack(&mut self, size: usize)
        requires
            old(self)@.wf(),
            size <= old(self)@.stack().len(),
            forall|i: int|
                0 <= i < old(self)@.control_frames.len() ==> (
                #[trigger] old(self)@.control_frames[i]).stack_size() <= size,
        ensures
            final(self)@ == old(self)@.drop(old(self)@.stack().len() - size),
            final(self)@.stack().len() == size,
            final(self)@.wf(),
    {
        self.reset_stack(size);
    }

    /// Records that control has left the block at the cursor.
    pub fn mark_jumped(&mut self, reason: UnreachableReason)
        requires
            old(self)@.unreachable_depth < u32::MAX,
        ensures
            final(self)@ == old(self)@.jump(reason),
            old(self)@.wf() ==> final(self)@.wf(),
            old(self)@.at_site() ==> final(self)@.at_site(),
    {
        self.unreachable_depth += 1;
        self.unreachable_reason = reason;
        proof {
            if old(self)@.wf() {
                lemma_grows_keeps_frames(old(self)@, self@);
            }
        }
    }

    /// Records a lowered function type.
    pub fn add_signature(&mut self, sig: Signature)
        ensures
            final(self)@ == (ContextView {
                signatures: old(self)@.signatures.push(sig@),
                ..old(self)@
            }),
    {
        self.signatures.push(sig);
        proof {
            assert(self@.signatures =~= old(self)@.signatures.push(sig@));
        }
    }

    /// Records a function of the module.
    pub fn add_function(&mut self, f: Function)
        ensures
            final(self)@ == (ContextView {
                functions: old(self)@.functions.push(f),
                ..old(self)@
            }),
    {
        self.functions.push(f);
    }

    /// Records a global of the module.
    pub fn add_global(&mut self, g: Global)
        ensures
            final(self)@ == (ContextView { globals: old(self)@.globals.push(g), ..old(self)@ }),
    {
        self.globals.push(g);
    }

    /// Declares a function in the emitted module.
    pub fn declare(&mut self, decl: FunctionDecl)
        ensures
            final(self)@ == (ContextView {
                declarations: old(self)@.declarations.push(decl),
                ..old(self)@
            }),
    {
        self.declarations.push(decl);
    }

    /// Adds a global to the emitted module and returns its index.
    pub fn add_module_global(&mut self, g: GlobalDecl) -> (index: usize)
        ensures
            index == old(self)@.module_globals.len(),
            final(self)@ == (ContextView {
                module_globals: old(self)@.module_globals.push(g@),
                ..old(self)@
            }),
    {
        let index = self.module_globals.len();
        self.module_globals.push(g);
        proof {
            assert(self@.module_globals =~= old(self)@.module_globals.push(g@));
        }
        index
    }

    /// Opens the translation of the function whose index is at hand: the
    /// function gets an empty operand stack, no control frame is open, the
    /// cursor stands in reachable code, and no site is registered.
    pub fn begin_function(&mut self)
        requires
            old(self)@.current_function_idx.is_some(),
        ensures
            final(self)@ == old(self)@.begun(),
    {
        self.current_fn = Some(FuncRef::Wasm(self.current_function_idx.unwrap()));
        self.stack_frames.push(StackFrame::new());
        self.control_frames = Vec::new();
        self.unreachable_depth = 0;
        self.unreachable_reason = UnreachableReason::Reachable;
        self.restore_dispatch_bb = None;
        self.restore_dispatch_cases = Vec::new();
        proof {
            assert(self@.stack_frames =~= old(self)@.begun().stack_frames);
            assert(self@.control_frames =~= old(self)@.begun().control_frames);
            assert(self@.restore_dispatch_cases =~= old(self)@.begun().restore_dispatch_cases);
        }
    }

    /// Closes the translation of a function: its operand stack is dropped.
    pub fn end_function(&mut self)
        requires
            old(self)@.stack_frames.len() > 0,
        ensures
            final(self)@ == old(self)@.ended(),
    {
        self.current_fn = None;
        self.stack_frames.pop();
        proof {
            assert(self@.stack_frames =~= old(self)@.ended().stack_frames);
        }
    }

    /// Sets how deep in skipped code the cursor stands, and why.
    pub fn set_reachability(&mut self, depth: u32, reason: UnreachableReason)
        ensures
            final(self)@ == (ContextView {
                unreachable_depth: depth,
                unreachable_reason: reason,
                ..old(self)@
            }),
            old(self)@.wf() ==> final(self)@.wf(),
            old(self)@.at_site() ==> final(self)@.at_site(),
    {
        self.unreachable_depth = depth;
        self.unreachable_reason = reason;
        proof {
            if old(self)@.wf() {
                lemma_grows_keeps_frames(old(self)@, self@);
            }
        }
    }

    /// Sets the index of the operator being translated.
    pub fn set_current_op(&mut self, op: u32)
        ensures
            final(self)@ == old(self)@.with_op(op),
            old(self)@.wf() ==> final(self)@.wf(),
    {
        self.current_op = Some(op);
        proof {
            if old(self)@.wf() {
                lemma_grows_keeps_frames(old(self)@, self@);
            }
        }
    }

    /// Takes the two topmost operands of the innermost frame off the stack;
    /// the lower one comes first.
    pub fn pop_operand2(&mut self) -> (r: (Value, Value))
        requires
            old(self)@.wf(),
            old(self)@.operands() >= 2,
        ensures
            r.0 == old(self)@.top(1),
            r.1 == old(self)@.top(0),
            final(self)@ == old(self)@.drop(2),
            final(self)@.wf(),
    {
        self.pop2()
    }

    /// Takes the three topmost operands of the innermost frame off the
    /// stack; the lowest one comes first.
    pub fn pop_operand3(&mut self) -> (r: (Value, Value, Value))
        requires
            old(self)@.wf(),
            old(self)@.operands() >= 3,
        ensures
            r.0 == old(self)@.top(2),
            r.1 == old(self)@.top(1),
            r.2 == old(self)@.top(0),
            final(self)@ == old(self)@.drop(3),
            final(self)@.wf(),
    {
        let v3 = self.pop_operand();
        let (v1, v2) = self.pop_operand2();
        proof {
            assert(self@.stack() =~= old(self)@.drop(3).stack());
            assert(self@.stack_frames =~= old(self)@.drop(3).stack_frames);
        }
        (v1, v2, v3)
    }

    /// Takes the `n` topmost operands of the innermost frame off the stack
    /// and returns them, the lowest first.
    pub fn pop_operands(&mut self, n: usize) -> (r: Vec<Value>)
        requires
            old(self)@.wf(),
            old(self)@.operands() >= n,
        ensures
            r@ == old(self)@.stack().subrange(
                old(self)@.stack().len() - n,
                old(self)@.stack().len() as int,
            ),
            final(self)@ == old(self)@.drop(n as int),
            final(self)@.wf(),
    {
        let len = self.current_frame_size();
        let mut r: Vec<Value> = Vec::new();
        let mut i: usize = len - n;
        while i < len
            invariant
                n <= len,
                len - n <= i <= len,
                len == self@.stack().len(),
                self@ == old(self)@,
                self@.stack_frames.len() > 0,
                r@ == self@.stack().subrange(len - n, i as int),
            decreases len - i,
        {
            r.push(self.stack_value(i));
            proof {
                assert(r@ =~= self@.stack().subrange(len - n, i + 1));
            }
            i += 1;
        }
        self.reset_stack(len - n);
        r
    }

    /// Takes the topmost operand of the innermost frame off the stack.
    pub fn pop_operand(&mut self) -> (v: Value)
        requires
            old(self)@.wf(),
            old(self)@.operands() >= 1,
        ensures
            v == old(self)@.top(0),
            final(self)@ == old(self)@.drop(1),
            final(self)@.wf(),
    {
        self.pop().unwrap()
    }

    /// Appends an instruction without a result at the cursor.
    pub fn emit(&mut self, inst: Inst)
        requires
            old(self)@.wf(),
        ensures
            final(self)@ == old(self)@.emit1(inst@),
            final(self)@.wf(),
            emitted(old(self)@, final(self)@),
    {
        self.builder.emit(inst);
        proof {
            lemma_grows_keeps_frames(old(self)@, self@);
        }
    }

    /// Appends an instruction at the cursor and returns the value it defines.
    pub fn build(&mut self, inst: Inst) -> (v: Value)
        requires
            old(self)@.wf(),
            inst.ty.is_some(),
        ensures
            final(self)@ == old(self)@.emit1(inst@),
            v == old(self)@.value_at(0, inst.ty.unwrap()),
            final(self)@.wf(),
            emitted(old(self)@, final(self)@),
    {
        let v = self.builder.build(inst);
        proof {
            lemma_grows_keeps_frames(old(self)@, self@);
        }
        v
    }

    /// Adds an empty block to function `owner`.
    pub fn append_block_in(&mut self, owner: FuncRef, label: Label) -> (b: usize)
        ensures
            b == old(self)@.next_block(),
            b == old(self)@.builder.blocks.len(),
            final(self)@ == old(self)@.with_builder(old(self)@.builder.append_block(owner, label)),
            old(self)@.wf() ==> final(self)@.wf(),
            final(self)@.builder.has_block(b),
    {
        let b = self.builder.append_basic_block(owner, label);
        proof {
            if old(self)@.wf() {
                lemma_grows_keeps_frames(old(self)@, self@);
            }
        }
        b
    }

    /// Adds an empty block to the function being translated.
    pub fn append_basic_block(&mut self, label: Label) -> (b: usize)
        requires
            old(self)@.wf(),
        ensures
            b == old(self)@.next_block(),
            b == old(self)@.builder.blocks.len(),
            final(self)@ == old(self)@.append_block(label),
            final(self)@.wf(),
            final(self)@.builder.has_block(b),
    {
        let f = self.current_fn.unwrap();
        let b = self.builder.append_basic_block(f, label);
        proof {
            lemma_grows_keeps_frames(old(self)@, self@);
        }
        b
    }

    /// Moves the cursor to the end of block `b`.
    pub fn position_at_end(&mut self, b: usize)
        requires
            old(self)@.wf(),
            old(self)@.builder.has_block(b),
        ensures
            final(self)@ == old(self)@.position_at(b),
            final(self)@.wf(),
    {
        self.builder.position_at_end(b);
        proof {
            lemma_grows_keeps_frames(old(self)@, self@);
        }
    }

    /// Adds a phi node without edges to block `b`.
    pub fn build_phi(&mut self, b: usize, ty: IrType) -> (phi: PhiRef)
        requires
            old(self)@.wf(),
            old(self)@.builder.has_block(b),
        ensures
            final(self)@ == old(self)@.add_phi(b, ty),
            phi == old(self)@.builder.next_phi(b, ty),
            final(self)@.wf(),
            final(self)@.builder.has_phi(phi),
    {
        let phi = self.builder.build_phi(b, ty);
        proof {
            lemma_grows_keeps_frames(old(self)@, self@);
        }
        phi
    }

    /// Adds the edge from block `from`, carrying `value`, to a phi node.
    pub fn add_incoming(&mut self, phi: PhiRef, value: Value, from: usize)
        requires
            old(self)@.wf(),
            old(self)@.builder.has_phi(phi),
        ensures
            final(self)@ == old(self)@.add_incoming(phi, value, from),
            final(self)@.wf(),
    {
        self.builder.add_incoming(phi, value, from);
        proof {
            lemma_grows_keeps_frames(old(self)@, self@);
        }
    }

    /// Takes a phi node out of the code.
    pub fn erase_phi(&mut self, phi: PhiRef)
        requires
            old(self)@.wf(),
            old(self)@.builder.has_phi(phi),
        ensures
            final(self)@ == old(self)@.erase_phi(phi),
            final(self)@.wf(),
    {
        self.builder.erase_phi(phi);
        proof {
            lemma_grows_keeps_frames(old(self)@, self@);
        }
    }

    /// The type of the value that the function being translated returns.
    pub fn return_type(&self) -> (r: Option<NumType>)
        requires
            self@.function_ok(),
        ensures
            r == self@.ret_ty(),
    {
        match self.current_fn {
            Some(FuncRef::Wasm(i)) => {
                let f = self.functions[i as usize];
                self.signatures[f.type_idx as usize].result
            },
            _ => None,
        }
    }

    /// The block at which the cursor stands.
    pub fn insert_block(&self) -> (b: usize)
        requires
            self@.wf(),
        ensures
            Some(b) == self@.builder.position,
            self@.builder.has_block(b),
    {
        self.builder.position.unwrap()
    }
}

} // verus!
