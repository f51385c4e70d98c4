//! The global section and the data section.

use vstd::prelude::*;

use crate::compile::compile_op::{bits32, bits64};
use crate::compile::compile_type::{lower_valtype, wasmty_to_llvmty};
use crate::compile::helper::{gen_memory_base, load_field_post};
use crate::compile::synthesize::module_ok;
use crate::context::{
    Context, ContextView, Global, GlobalDecl, GlobalDeclView, GlobalKind, GlobalName,
};
use crate::error::{CompileError, Malformation, Unsupported};
use crate::ir::{BinOp, CastOp, EnvField, Inst, InstView, IrType, NumType, Opcode, Value};
use crate::wasm::{ConstExpr, Data, DataKind, GlobalEntry, Operator};

verus! {

/// The value of a constant expression: the type and the bit pattern of
/// the constant that its first operator holds. An expression that does not
/// begin with a constant has no value.
pub open spec fn const_value(e: ConstExpr) -> Option<(NumType, u64)> {
    if e.ops@.len() == 0 {
        None
    } else {
        match e.ops@[0] {
            Operator::I32Const { value } => Some((NumType::I32, bits32(value))),
            Operator::I64Const { value } => Some((NumType::I64, bits64(value))),
            Operator::F32Const { bits } => Some((NumType::F32, bits as u64)),
            Operator::F64Const { bits } => Some((NumType::F64, bits)),
            _ => None,
        }
    }
}

/// Evaluates a constant expression.
pub fn eval_const(e: &ConstExpr) -> (r: Option<(NumType, u64)>)
    ensures
        r == const_value(*e),
{
    if e.ops.len() == 0 {
        return None;
    }
    match &e.ops[0] {
        Operator::I32Const { value } => {
            let bits: u64 = if *value >= 0 {
                *value as u64
            } else {
                (*value as i64 + 0x1_0000_0000) as u64
            };
            Some((NumType::I32, bits))
        },
        Operator::I64Const { value } => {
            let bits: u64 = if *value >= 0 {
                *value as u64
            } else {
                (*value as i128 + 0x1_0000_0000_0000_0000) as u64
            };
            Some((NumType::I64, bits))
        },
        Operator::F32Const { bits } => Some((NumType::F32, *bits as u64)),
        Operator::F64Const { bits } => Some((NumType::F64, *bits)),
        _ => None,
    }
}

/// The storage of a mutable global in the emitted module.
pub open spec fn global_storage(i: u32, ty: NumType, bits: u64) -> GlobalDeclView {
    GlobalDeclView {
        name: GlobalName::Wasm(i),
        constant: false,
        kind: GlobalKind::Scalar { ty: ty.ir(), bits },
        bytes: seq![],
        indices: seq![],
    }
}

/// The state after the global with place `i` in its section was
/// translated. A mutable global gets storage in the emitted module and is
/// known by the address of it; an immutable one is known by its value. The
/// type must be a number type; the initializer must be a constant, and one
/// of that type.
pub open spec fn global_result(c: ContextView, g: GlobalEntry, i: int) -> Result<
    ContextView,
    CompileError,
> {
    match lower_valtype(g.content_type) {
        Err(e) => Err(e),
        Ok(ty) => match const_value(g.init_expr) {
            None => Err(CompileError::UnsupportedFeature(Unsupported::ConstExpr)),
            Some((t, bits)) => if t != ty {
                Err(CompileError::Malformed(Malformation::TypeMismatch))
            } else if i > u32::MAX {
                Err(CompileError::Malformed(Malformation::TooManyItems))
            } else if g.mutable {
                Ok(
                    ContextView {
                        module_globals: c.module_globals.push(global_storage(i as u32, ty, bits)),
                        globals: c.globals.push(
                            Global::Mut { ptr: Value::global(c.module_globals.len() as usize), ty },
                        ),
                        ..c
                    },
                )
            } else {
                Ok(ContextView { globals: c.globals.push(Global::Const { ty, bits }), ..c })
            },
        },
    }
}

/// The state after the first `n` globals of a section, or the error of the
/// first one that cannot be translated.
pub open spec fn globals_result(c: ContextView, globals: Seq<GlobalEntry>, n: nat) -> Result<
    ContextView,
    CompileError,
>
    decreases n,
{
    if n == 0 {
        Ok(c)
    } else {
        match globals_result(c, globals, (n - 1) as nat) {
            Err(e) => Err(e),
            Ok(p) => global_result(p, globals[n - 1], n - 1),
        }
    }
}

proof fn lemma_globals_error(c: ContextView, globals: Seq<GlobalEntry>, n: nat, m: nat)
    requires
        n <= m,
        globals_result(c, globals, n) is Err,
    ensures
        globals_result(c, globals, m) == globals_result(c, globals, n),
    decreases m - n,
{
    if n < m {
        lemma_globals_error(c, globals, n, (m - 1) as nat);
    }
}

fn compile_global(ctx: &mut Context, g: &GlobalEntry, i: usize) -> (r: Result<(), CompileError>)
    requires
        module_ok(old(ctx)@),
    ensures
        match global_result(old(ctx)@, *g, i as int) {
            Ok(c) => r.is_ok() && final(ctx)@ == c && module_ok(final(ctx)@) && final(ctx)@.config
                == old(ctx)@.config,
            Err(e) => r == Err::<(), CompileError>(e),
        },
{
    let ty = match wasmty_to_llvmty(g.content_type) {
        Ok(t) => t,
        Err(e) => {
            return Err(e);
        },
    };
    let (t, bits) = match eval_const(&g.init_expr) {
        Some(v) => v,
        None => {
            return Err(CompileError::UnsupportedFeature(Unsupported::ConstExpr));
        },
    };
    if t != ty {
        return Err(CompileError::Malformed(Malformation::TypeMismatch));
    }
    if i > u32::MAX as usize {
        return Err(CompileError::Malformed(Malformation::TooManyItems));
    }
    if g.mutable {
        let decl = GlobalDecl {
            name: GlobalName::Wasm(i as u32),
            constant: false,
            kind: GlobalKind::Scalar { ty: ty.to_ir(), bits },
            bytes: Vec::new(),
            indices: Vec::new(),
        };
        assert(decl@ == global_storage(i as u32, ty, bits));
        let index = ctx.add_module_global(decl);
        ctx.add_global(Global::Mut { ptr: Value::global_ptr(index), ty });
    } else {
        ctx.add_global(Global::Const { ty, bits });
    }
    Ok(())
}

/// Translates the global section.
pub fn compile_global_section(ctx: &mut Context, globals: &Vec<GlobalEntry>) -> (r: Result<
    (),
    CompileError,
>)
    requires
        module_ok(old(ctx)@),
    ensures
        match globals_result(old(ctx)@, globals@, globals@.len()) {
            Ok(c) => r.is_ok() && final(ctx)@ == c && module_ok(final(ctx)@) && final(ctx)@.config
                == old(ctx)@.config,
            Err(e) => r == Err::<(), CompileError>(e),
        },
{
    let n = globals.len();
    let mut i: usize = 0;
    while i < n
        invariant
            i <= n,
            n == globals@.len(),
            globals_result(old(ctx)@, globals@, i as nat) == Ok::<ContextView, CompileError>(ctx@),
            module_ok(ctx@),
            ctx@.config == old(ctx)@.config,
        decreases n - i,
    {
        match compile_global(ctx, &globals[i], i) {
            Ok(()) => {},
            Err(e) => {
                proof {
                    lemma_globals_error(old(ctx)@, globals@, (i + 1) as nat, n as nat);
                }
                return Err(e);
            },
        }
        i += 1;
    }
    Ok(())
}

/// The global of the emitted module that holds the bytes of the data
/// segment with place `i` in its section.
pub open spec fn segment_bytes(i: usize, data: Seq<u8>) -> GlobalDeclView {
    GlobalDeclView {
        name: GlobalName::MemoryInitializer(i),
        constant: false,
        kind: GlobalKind::Bytes,
        bytes: data,
        indices: seq![],
    }
}

/// The offset of a segment: the 32-bit constant that the expression holds.
pub open spec fn segment_offset(e: ConstExpr) -> Option<i32> {
    if e.ops@.len() == 0 {
        None
    } else {
        match e.ops@[0] {
            Operator::I32Const { value } => Some(value),
            _ => None,
        }
    }
}

/// Reads the offset of a segment.
pub fn eval_offset(e: &ConstExpr) -> (r: Option<i32>)
    ensures
        r == segment_offset(*e),
{
    if e.ops.len() == 0 {
        return None;
    }
    match &e.ops[0] {
        Operator::I32Const { value } => Some(*value),
        _ => None,
    }
}

/// The state after the data segment with place `i` in its section was
/// translated: its bytes are a global of the emitted module, and the block
/// that initializes the memory copies them to the base of the linear
/// memory plus the offset of the segment. A passive segment is not
/// supported, nor an offset that is no constant.
pub open spec fn data_result(c: ContextView, d: Data, i: usize) -> Result<ContextView, CompileError> {
    match d.kind {
        DataKind::Passive => Err(CompileError::UnsupportedFeature(Unsupported::PassiveData)),
        DataKind::Active { offset_expr, .. } => match segment_offset(offset_expr) {
            None => Err(CompileError::UnsupportedFeature(Unsupported::ConstExpr)),
            Some(offset) => {
                let env = Value::param(0, IrType::Ptr);
                let c1 = ContextView {
                    module_globals: c.module_globals.push(segment_bytes(i, d.data@)),
                    ..c
                }.position_at(c.aot_init_block.unwrap());
                Ok(
                    load_field_post(c1, env, EnvField::MemoryBase).emit1(
                        InstView::op1(
                            Opcode::Cast(CastOp::PtrToInt),
                            Some(IrType::I64),
                            c1.value_at(1, IrType::Ptr),
                        ),
                    ).emit1(
                        InstView::op2(
                            Opcode::Binary(BinOp::Add),
                            Some(IrType::I64),
                            c1.value_at(2, IrType::I64),
                            Value::constant(IrType::I64, bits32(offset)),
                        ),
                    ).emit1(
                        InstView::op1(
                            Opcode::Cast(CastOp::IntToPtr),
                            Some(IrType::Ptr),
                            c1.value_at(3, IrType::I64),
                        ),
                    ).emit1(
                        InstView::op3(
                            Opcode::MemCopy,
                            None,
                            c1.value_at(4, IrType::Ptr),
                            Value::global(c.module_globals.len() as usize),
                            Value::constant(IrType::I64, d.data@.len() as u64),
                        ),
                    ),
                )
            },
        },
    }
}

/// The state after the first `n` segments of a data section, or the error
/// of the first one that cannot be translated.
pub open spec fn data_section_result(c: ContextView, segs: Seq<Data>, n: nat) -> Result<
    ContextView,
    CompileError,
>
    decreases n,
{
    if n == 0 {
        Ok(c)
    } else {
        match data_section_result(c, segs, (n - 1) as nat) {
            Err(e) => Err(e),
            Ok(p) => data_result(p, segs[n - 1], (n - 1) as usize),
        }
    }
}

proof fn lemma_data_error(c: ContextView, segs: Seq<Data>, n: nat, m: nat)
    requires
        n <= m,
        data_section_result(c, segs, n) is Err,
    ensures
        data_section_result(c, segs, m) == data_section_result(c, segs, n),
    decreases m - n,
{
    if n < m {
        lemma_data_error(c, segs, n, (m - 1) as nat);
    }
}

fn copy_bytes(v: &Vec<u8>) -> (r: Vec<u8>)
    ensures
        r@ == v@,
{
    let mut r: Vec<u8> = Vec::new();
    let n = v.len();
    let mut i: usize = 0;
    while i < n
        invariant
            i <= n,
            n == v@.len(),
            r@ == v@.take(i as int),
        decreases n - i,
    {
        r.push(v[i]);
        proof {
            assert(r@ =~= v@.take(i + 1));
        }
        i += 1;
    }
    proof {
        assert(v@.take(n as int) =~= v@);
    }
    r
}

fn compile_data(ctx: &mut Context, d: &Data, i: usize) -> (r: Result<(), CompileError>)
    requires
        module_ok(old(ctx)@),
    ensures
        match data_result(old(ctx)@, *d, i) {
            Ok(c) => r.is_ok() && final(ctx)@ == c && module_ok(final(ctx)@) && final(ctx)@.config
                == old(ctx)@.config,
            Err(e) => r == Err::<(), CompileError>(e),
        },
{
    let offset = match &d.kind {
        DataKind::Passive => {
            return Err(CompileError::UnsupportedFeature(Unsupported::PassiveData));
        },
        DataKind::Active { offset_expr, .. } => match eval_offset(offset_expr) {
            Some(o) => o,
            None => {
                return Err(CompileError::UnsupportedFeature(Unsupported::ConstExpr));
            },
        },
    };
    let offset_bits: u64 = if offset >= 0 {
        offset as u64
    } else {
        (offset as i64 + 0x1_0000_0000) as u64
    };
    let decl = GlobalDecl {
        name: GlobalName::MemoryInitializer(i),
        constant: false,
        kind: GlobalKind::Bytes,
        bytes: copy_bytes(&d.data),
        indices: Vec::new(),
    };
    assert(decl@ == segment_bytes(i, d.data@));
    let index = ctx.add_module_global(decl);
    ctx.position_at_end(ctx.aot_init_block.unwrap());
    let exec_env_ptr = Value::nth_param(0, IrType::Ptr);
    let memory_base = gen_memory_base(ctx, &exec_env_ptr);
    let memory_base_int = ctx.build(
        Inst::op1(Opcode::Cast(CastOp::PtrToInt), Some(IrType::I64), memory_base),
    );
    let dest_int = ctx.build(
        Inst::op2(
            Opcode::Binary(BinOp::Add),
            Some(IrType::I64),
            memory_base_int,
            Value::const_int(IrType::I64, offset_bits),
        ),
    );
    let dest_ptr = ctx.build(
        Inst::op1(Opcode::Cast(CastOp::IntToPtr), Some(IrType::Ptr), dest_int),
    );
    ctx.emit(
        Inst::op3(
            Opcode::MemCopy,
            None,
            dest_ptr,
            Value::global_ptr(index),
            Value::const_int(IrType::I64, d.data.len() as u64),
        ),
    );
    Ok(())
}

/// Translates the data section.
pub fn compile_data_section(ctx: &mut Context, data_segs: &Vec<Data>) -> (r: Result<
    (),
    CompileError,
>)
    requires
        module_ok(old(ctx)@),
    ensures
        match data_section_result(old(ctx)@, data_segs@, data_segs@.len()) {
            Ok(c) => r.is_ok() && final(ctx)@ == c && module_ok(final(ctx)@) && final(ctx)@.config
                == old(ctx)@.config,
            Err(e) => r == Err::<(), CompileError>(e),
        },
{
    let n = data_segs.len();
    let mut i: usize = 0;
    while i < n
        invariant
            i <= n,
            n == data_segs@.len(),
            data_section_result(old(ctx)@, data_segs@, i as nat) == Ok::<
                ContextView,
                CompileError,
            >(ctx@),
            module_ok(ctx@),
            ctx@.config == old(ctx)@.config,
        decreases n - i,
    {
        match compile_data(ctx, &data_segs[i], i) {
            Ok(()) => {},
            Err(e) => {
                proof {
                    lemma_data_error(old(ctx)@, data_segs@, (i + 1) as nat, n as nat);
                }
                return Err(e);
            },
        }
        i += 1;
    }
    Ok(())
}

} // verus!
