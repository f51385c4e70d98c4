//! The memory section.

use vstd::prelude::*;

use crate::compile::synthesize::module_ok;
use crate::context::{Context, ContextView, GlobalDecl, GlobalDeclView, GlobalKind, GlobalName};
use crate::error::{CompileError, Malformation, Unsupported};
use crate::ir::IrType;
use crate::wasm::MemoryType;

verus! {

/// The initial size of the linear memory, in pages: that of the one memory
/// of the module, or zero where the module has none. More than one memory
/// or a memory with 64-bit addresses is not supported.
pub open spec fn initial_pages(memories: Seq<MemoryType>) -> Result<u32, CompileError> {
    if memories.len() == 0 {
        Ok(0)
    } else if memories.len() > 1 {
        Err(CompileError::UnsupportedFeature(Unsupported::MultiMemory))
    } else if memories[0].memory64 {
        Err(CompileError::UnsupportedFeature(Unsupported::Memory64))
    } else if memories[0].initial > u32::MAX {
        Err(CompileError::Malformed(Malformation::TooManyItems))
    } else {
        Ok(memories[0].initial as u32)
    }
}

/// The global that holds the initial size of the linear memory.
pub open spec fn init_memory_size(pages: u32) -> GlobalDeclView {
    GlobalDeclView {
        name: GlobalName::InitMemorySize,
        constant: true,
        kind: GlobalKind::Scalar { ty: IrType::I32, bits: pages as u64 },
        bytes: seq![],
        indices: seq![],
    }
}

/// The state after the memory section: the initial size of the memory is
/// a constant of the emitted module, and the cursor stands in the block
/// that initializes the memory.
pub open spec fn memory_post(c: ContextView, pages: u32) -> ContextView {
    ContextView {
        module_globals: c.module_globals.push(init_memory_size(pages)),
        ..c
    }.position_at(c.aot_init_block.unwrap())
}

/// Translates the memory section.
pub fn compile_memory_section(ctx: &mut Context, memories: &Vec<MemoryType>) -> (r: Result<
    (),
    CompileError,
>)
    requires
        module_ok(old(ctx)@),
    ensures
        match initial_pages(memories@) {
            Ok(pages) => r.is_ok() && final(ctx)@ == memory_post(old(ctx)@, pages) && module_ok(
                final(ctx)@,
            ),
            Err(e) => r == Err::<(), CompileError>(e),
        },
{
    let size: u32 = if memories.len() == 0 {
        0
    } else if memories.len() > 1 {
        return Err(CompileError::UnsupportedFeature(Unsupported::MultiMemory));
    } else if memories[0].memory64 {
        return Err(CompileError::UnsupportedFeature(Unsupported::Memory64));
    } else if memories[0].initial > u32::MAX as u64 {
        return Err(CompileError::Malformed(Malformation::TooManyItems));
    } else {
        memories[0].initial as u32
    };
    let g = GlobalDecl {
        name: GlobalName::InitMemorySize,
        constant: true,
        kind: GlobalKind::Scalar { ty: IrType::I32, bits: size as u64 },
        bytes: Vec::new(),
        indices: Vec::new(),
    };
    assert(g@ == init_memory_size(size));
    ctx.add_module_global(g);
    ctx.position_at_end(ctx.aot_init_block.unwrap());
    Ok(())
}

} // verus!
