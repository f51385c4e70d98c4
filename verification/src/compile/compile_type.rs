//! Lowering of types.

use vstd::prelude::*;

use crate::context::{Context, ContextView, Signature, SignatureView};
use crate::error::{CompileError, Unsupported};
use crate::ir::NumType;
use crate::wasm::{BlockType, CompositeType, FuncType, ValType};

verus! {

/// The number type of a value type; a value type that is none is not
/// supported.
pub open spec fn lower_valtype(t: ValType) -> Result<NumType, CompileError> {
    match t {
        ValType::I32 => Ok(NumType::I32),
        ValType::I64 => Ok(NumType::I64),
        ValType::F32 => Ok(NumType::F32),
        ValType::F64 => Ok(NumType::F64),
        _ => Err(CompileError::UnsupportedFeature(Unsupported::ValueType)),
    }
}

/// Lowers a value type.
pub fn wasmty_to_llvmty(wasmty: ValType) -> (r: Result<NumType, CompileError>)
    ensures
        r == lower_valtype(wasmty),
{
    match wasmty {
        ValType::I32 => Ok(NumType::I32),
        ValType::I64 => Ok(NumType::I64),
        ValType::F32 => Ok(NumType::F32),
        ValType::F64 => Ok(NumType::F64),
        _ => Err(CompileError::UnsupportedFeature(Unsupported::ValueType)),
    }
}

/// The type of the value that a block yields, if it yields one. A block
/// whose type is a function type is not supported.
pub open spec fn block_result(blockty: BlockType) -> Result<Option<NumType>, CompileError> {
    match blockty {
        BlockType::Empty => Ok(None),
        BlockType::Type(t) => match lower_valtype(t) {
            Ok(n) => Ok(Some(n)),
            Err(e) => Err(e),
        },
        BlockType::FuncType(_) => Err(CompileError::UnsupportedFeature(Unsupported::BlockFuncType)),
    }
}

/// Lowers a block type.
pub fn lower_block_type(blockty: &BlockType) -> (r: Result<Option<NumType>, CompileError>)
    ensures
        r == block_result(*blockty),
{
    match blockty {
        BlockType::Empty => Ok(None),
        BlockType::Type(t) => match wasmty_to_llvmty(*t) {
            Ok(n) => Ok(Some(n)),
            Err(e) => Err(e),
        },
        BlockType::FuncType(_) => Err(CompileError::UnsupportedFeature(Unsupported::BlockFuncType)),
    }
}

/// The number types of the first `n` of `tys`, or the error of the first
/// one that is no number type.
pub open spec fn lower_types(tys: Seq<ValType>, n: nat) -> Result<Seq<NumType>, CompileError>
    decreases n,
{
    if n == 0 {
        Ok(seq![])
    } else {
        match lower_types(tys, (n - 1) as nat) {
            Err(e) => Err(e),
            Ok(s) => match lower_valtype(tys[n - 1]) {
                Ok(t) => Ok(s.push(t)),
                Err(e) => Err(e),
            },
        }
    }
}

proof fn lemma_lower_types_error(tys: Seq<ValType>, n: nat, m: nat)
    requires
        n <= m,
        lower_types(tys, n) is Err,
    ensures
        lower_types(tys, m) == lower_types(tys, n),
    decreases m - n,
{
    if n < m {
        lemma_lower_types_error(tys, n, (m - 1) as nat);
    }
}

/// Lowers a list of value types.
pub fn lower_type_list(tys: &Vec<ValType>) -> (r: Result<Vec<NumType>, CompileError>)
    ensures
        match lower_types(tys@, tys@.len()) {
            Ok(s) => r.is_ok() && r.unwrap()@ == s,
            Err(e) => r == Err::<Vec<NumType>, CompileError>(e),
        },
{
    let mut out: Vec<NumType> = Vec::new();
    let n = tys.len();
    let mut i: usize = 0;
    while i < n
        invariant
            i <= n,
            n == tys@.len(),
            lower_types(tys@, i as nat) == Ok::<Seq<NumType>, CompileError>(out@),
        decreases n - i,
    {
        match wasmty_to_llvmty(tys[i]) {
            Ok(t) => {
                out.push(t);
            },
            Err(e) => {
                proof {
                    lemma_lower_types_error(tys@, (i + 1) as nat, n as nat);
                }
                return Err(e);
            },
        }
        i += 1;
    }
    Ok(out)
}

/// The lowered form of a function type: its parameters, and its result if
/// it has one. More than one result is not supported.
pub open spec fn lower_func_type(ft: FuncType) -> Result<SignatureView, CompileError> {
    match lower_types(ft.params@, ft.params@.len()) {
        Err(e) => Err(e),
        Ok(params) => if ft.results@.len() == 0 {
            Ok(SignatureView { params, result: None })
        } else if ft.results@.len() == 1 {
            match lower_valtype(ft.results@[0]) {
                Ok(t) => Ok(SignatureView { params, result: Some(t) }),
                Err(e) => Err(e),
            }
        } else {
            Err(CompileError::UnsupportedFeature(Unsupported::MultiResult))
        },
    }
}

/// The lowered form of an entry of the type section, which must be a
/// function type.
pub open spec fn lower_composite(t: CompositeType) -> Result<SignatureView, CompileError> {
    match t {
        CompositeType::Func(ft) => lower_func_type(ft),
        _ => Err(CompileError::UnsupportedFeature(Unsupported::CompositeType)),
    }
}

/// Lowers an entry of the type section.
pub fn lower_signature(t: &CompositeType) -> (r: Result<Signature, CompileError>)
    ensures
        match lower_composite(*t) {
            Ok(v) => r.is_ok() && r.unwrap()@ == v,
            Err(e) => r == Err::<Signature, CompileError>(e),
        },
{
    match t {
        CompositeType::Func(ft) => {
            let params = match lower_type_list(&ft.params) {
                Ok(p) => p,
                Err(e) => {
                    return Err(e);
                },
            };
            if ft.results.len() == 0 {
                Ok(Signature { params, result: None })
            } else if ft.results.len() == 1 {
                match wasmty_to_llvmty(ft.results[0]) {
                    Ok(t) => Ok(Signature { params, result: Some(t) }),
                    Err(e) => Err(e),
                }
            } else {
                Err(CompileError::UnsupportedFeature(Unsupported::MultiResult))
            }
        },
        _ => Err(CompileError::UnsupportedFeature(Unsupported::CompositeType)),
    }
}

/// The signatures after the first `n` entries of a type section were
/// lowered, or the error of the first entry that cannot be.
pub open spec fn types_result(
    sigs: Seq<SignatureView>,
    types: Seq<CompositeType>,
    n: nat,
) -> Result<Seq<SignatureView>, CompileError>
    decreases n,
{
    if n == 0 {
        Ok(sigs)
    } else {
        match types_result(sigs, types, (n - 1) as nat) {
            Err(e) => Err(e),
            Ok(s) => match lower_composite(types[n - 1]) {
                Ok(v) => Ok(s.push(v)),
                Err(e) => Err(e),
            },
        }
    }
}

proof fn lemma_types_error(sigs: Seq<SignatureView>, types: Seq<CompositeType>, n: nat, m: nat)
    requires
        n <= m,
        types_result(sigs, types, n) is Err,
    ensures
        types_result(sigs, types, m) == types_result(sigs, types, n),
    decreases m - n,
{
    if n < m {
        lemma_types_error(sigs, types, n, (m - 1) as nat);
    }
}

/// Lowers the type section: every entry becomes a signature.
pub fn compile_type_section(ctx: &mut Context, types: &Vec<CompositeType>) -> (r: Result<
    (),
    CompileError,
>)
    ensures
        match types_result(old(ctx)@.signatures, types@, types@.len()) {
            Ok(s) => r.is_ok() && final(ctx)@ == (ContextView { signatures: s, ..old(ctx)@ }),
            Err(e) => r == Err::<(), CompileError>(e),
        },
{
    let n = types.len();
    let mut i: usize = 0;
    while i < n
        invariant
            i <= n,
            n == types@.len(),
            types_result(old(ctx)@.signatures, types@, i as nat) == Ok::<
                Seq<SignatureView>,
                CompileError,
            >(ctx@.signatures),
            ctx@ == (ContextView { signatures: ctx@.signatures, ..old(ctx)@ }),
        decreases n - i,
    {
        match lower_signature(&types[i]) {
            Ok(sig) => {
                ctx.add_signature(sig);
            },
            Err(e) => {
                proof {
                    lemma_types_error(old(ctx)@.signatures, types@, (i + 1) as nat, n as nat);
                }
                return Err(e);
            },
        }
        i += 1;
    }
    Ok(())
}

} // verus!
