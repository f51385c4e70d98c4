//! The walk over the sections of a module.

use vstd::prelude::*;

use crate::compile::compile_function::{compile_function, function_result};
use crate::compile::compile_global::{
    compile_data_section, compile_global_section, data_section_result, eval_offset,
    globals_result, segment_offset,
};
use crate::compile::compile_memory::{compile_memory_section, initial_pages, memory_post};
use crate::compile::compile_type::{compile_type_section, types_result};
use crate::compile::cr::opt::{analysis_of, run_analysis_pass, shape_of};
use crate::compile::synthesize::{
    finalize, finalize_ok, finalize_post, initialize, initialize_post, module_ok, start_check,
};
use crate::context::{
    Context, ContextView, Function, FunctionDecl, GlobalDecl, GlobalDeclView, GlobalKind,
    GlobalName, Origin,
};
use crate::driver::Args;
use crate::error::{CompileError, Malformation, Unsupported};
use crate::ir::FuncRef;
use crate::wasm::{
    Element, ElementItems, ElementKind, Export, ExternalKind, FunctionBody, Import, Section,
    TypeRef,
};

verus! {

/// Whether an import of the module with this name is linked under its
/// qualified name.
pub open spec fn is_wasi(module: Seq<char>) -> bool {
    module == "wasi_snapshot_preview1"@ || module == "wasi_unstable"@
}

/// The functions after the first `n` imports were read, or the error of
/// the first import that is not supported. An imported function is known
/// by the index of its type and its place in the section; an imported
/// 32-bit memory is passed over.
pub open spec fn imports_result(fns: Seq<Function>, imports: Seq<Import>, n: nat) -> Result<
    Seq<Function>,
    CompileError,
>
    decreases n,
{
    if n == 0 {
        Ok(fns)
    } else {
        match imports_result(fns, imports, (n - 1) as nat) {
            Err(e) => Err(e),
            Ok(s) => match imports[n - 1].ty {
                TypeRef::Func(t) => Ok(
                    s.push(
                        Function {
                            type_idx: t,
                            origin: Origin::Import {
                                entry: (n - 1) as u32,
                                qualified: is_wasi(imports[n - 1].module@),
                            },
                        },
                    ),
                ),
                TypeRef::Memory { memory64: false } => Ok(s),
                _ => Err(CompileError::UnsupportedFeature(Unsupported::Import)),
            },
        }
    }
}

proof fn lemma_imports_error(fns: Seq<Function>, imports: Seq<Import>, n: nat, m: nat)
    requires
        n <= m,
        imports_result(fns, imports, n) is Err,
    ensures
        imports_result(fns, imports, m) == imports_result(fns, imports, n),
    decreases m - n,
{
    if n < m {
        lemma_imports_error(fns, imports, n, (m - 1) as nat);
    }
}

proof fn lemma_imports_len(fns: Seq<Function>, imports: Seq<Import>, n: nat)
    ensures
        imports_result(fns, imports, n) matches Ok(s) ==> fns.len() <= s.len() <= fns.len() + n,
    decreases n,
{
    if n > 0 {
        lemma_imports_len(fns, imports, (n - 1) as nat);
    }
}

/// The state after the import section: the imported functions are the
/// first functions of the module. A section of more imports than a 32-bit
/// index can count is rejected.
pub open spec fn import_section_result(c: ContextView, imports: Seq<Import>) -> Result<
    ContextView,
    CompileError,
> {
    if imports.len() > u32::MAX {
        Err(CompileError::Malformed(Malformation::TooManyItems))
    } else {
        match imports_result(c.functions, imports, imports.len()) {
            Err(e) => Err(e),
            Ok(s) => Ok(
                ContextView { functions: s, num_imports: (s.len() - c.functions.len()) as u32, ..c },
            ),
        }
    }
}

/// Reads the import section.
pub fn compile_import_section(ctx: &mut Context, imports: &Vec<Import>) -> (r: Result<
    (),
    CompileError,
>)
    requires
        old(ctx)@.functions.len() == 0,
    ensures
        match import_section_result(old(ctx)@, imports@) {
            Ok(c) => r.is_ok() && final(ctx)@ == c,
            Err(e) => r == Err::<(), CompileError>(e),
        },
{
    let n = imports.len();
    if n > u32::MAX as usize {
        return Err(CompileError::Malformed(Malformation::TooManyItems));
    }
    let wasi_preview1 = "wasi_snapshot_preview1".to_owned();
    let wasi_unstable = "wasi_unstable".to_owned();
    let mut count: u32 = 0;
    let mut i: usize = 0;
    while i < n
        invariant
            i <= n,
            n == imports@.len(),
            n <= u32::MAX,
            wasi_preview1@ == "wasi_snapshot_preview1"@,
            wasi_unstable@ == "wasi_unstable"@,
            old(ctx)@.functions.len() == 0,
            imports_result(old(ctx)@.functions, imports@, i as nat) == Ok::<
                Seq<Function>,
                CompileError,
            >(ctx@.functions),
            count == ctx@.functions.len(),
            count <= i,
            ctx@ == (ContextView { functions: ctx@.functions, ..old(ctx)@ }),
        decreases n - i,
    {
        let import = &imports[i];
        match import.ty {
            TypeRef::Func(t) => {
                let qualified = import.module == wasi_preview1 || import.module == wasi_unstable;
                ctx.add_function(
                    Function { type_idx: t, origin: Origin::Import { entry: i as u32, qualified } },
                );
                count += 1;
            },
            TypeRef::Memory { memory64: false } => {},
            _ => {
                proof {
                    lemma_imports_error(old(ctx)@.functions, imports@, (i + 1) as nat, n as nat);
                }
                return Err(CompileError::UnsupportedFeature(Unsupported::Import));
            },
        }
        i += 1;
    }
    ctx.num_imports = count;
    Ok(())
}

/// The functions that a function section declares: one per entry, of the
/// type that the entry names.
pub open spec fn declared_functions(types: Seq<u32>) -> Seq<Function> {
    types.map_values(|t: u32| Function { type_idx: t, origin: Origin::Defined })
}

/// The state after the function section: the functions that the module
/// defines follow the imported ones. A module of more functions than a
/// 32-bit index can count is rejected.
pub open spec fn function_section_result(c: ContextView, types: Seq<u32>) -> Result<
    ContextView,
    CompileError,
> {
    if c.functions.len() + types.len() > u32::MAX {
        Err(CompileError::Malformed(Malformation::TooManyItems))
    } else {
        Ok(
            ContextView {
                functions: c.functions + declared_functions(types),
                num_functions: (c.functions.len() + types.len()) as u32,
                ..c
            },
        )
    }
}

/// Reads the function section.
pub fn compile_function_section(ctx: &mut Context, functions: &Vec<u32>) -> (r: Result<
    (),
    CompileError,
>)
    ensures
        match function_section_result(old(ctx)@, functions@) {
            Ok(c) => r.is_ok() && final(ctx)@ == c,
            Err(e) => r == Err::<(), CompileError>(e),
        },
{
    let n = functions.len();
    let have = ctx.functions.len();
    if have > u32::MAX as usize || n > u32::MAX as usize - have {
        return Err(CompileError::Malformed(Malformation::TooManyItems));
    }
    let mut i: usize = 0;
    while i < n
        invariant
            i <= n,
            n == functions@.len(),
            ctx@ == (ContextView {
                functions: old(ctx)@.functions + declared_functions(functions@.take(i as int)),
                ..old(ctx)@
            }),
        decreases n - i,
    {
        ctx.add_function(Function { type_idx: functions[i], origin: Origin::Defined });
        proof {
            assert(ctx@.functions =~= old(ctx)@.functions + declared_functions(
                functions@.take(i + 1),
            ));
        }
        i += 1;
    }
    proof {
        assert(functions@.take(n as int) =~= functions@);
    }
    ctx.num_functions = (have + n) as u32;
    Ok(())
}

/// The start function after the first `n` exports were read: the function
/// that the last export named `_start` exports.
pub open spec fn start_after(start: Option<u32>, exports: Seq<Export>, n: nat) -> Option<u32>
    decreases n,
{
    if n == 0 {
        start
    } else {
        let e = exports[n - 1];
        if e.kind == ExternalKind::Func && e.name@ == "_start"@ {
            Some(e.index)
        } else {
            start_after(start, exports, (n - 1) as nat)
        }
    }
}

/// Reads the export section, of which only the start function is kept.
pub fn compile_export_section(ctx: &mut Context, exports: &Vec<Export>) -> (r: Result<
    (),
    CompileError,
>)
    ensures
        r.is_ok(),
        final(ctx)@ == (ContextView {
            start_function_idx: start_after(
                old(ctx)@.start_function_idx,
                exports@,
                exports@.len(),
            ),
            ..old(ctx)@
        }),
{
    let start_name = "_start".to_owned();
    let n = exports.len();
    let mut i: usize = 0;
    while i < n
        invariant
            i <= n,
            n == exports@.len(),
            start_name@ == "_start"@,
            ctx@ == (ContextView {
                start_function_idx: start_after(
                    old(ctx)@.start_function_idx,
                    exports@,
                    i as nat,
                ),
                ..old(ctx)@
            }),
        decreases n - i,
    {
        let export = &exports[i];
        match export.kind {
            ExternalKind::Func => {
                if export.name == start_name {
                    ctx.start_function_idx = Some(export.index);
                }
            },
            _ => {},
        }
        i += 1;
    }
    Ok(())
}

/// The array of the addresses of all functions.
pub open spec fn function_pointers(count: usize) -> GlobalDeclView {
    GlobalDeclView {
        name: GlobalName::FunctionPointers,
        constant: true,
        kind: GlobalKind::FunctionPointers { count },
        bytes: seq![],
        indices: seq![],
    }
}

/// The function table.
pub open spec fn function_table(indices: Seq<u32>) -> GlobalDeclView {
    GlobalDeclView {
        name: GlobalName::Table,
        constant: false,
        kind: GlobalKind::Indices,
        bytes: seq![],
        indices,
    }
}

/// The slots of the table that a segment initializes: zero up to the
/// offset of the segment, then the functions of the segment.
pub open spec fn table_slots(offset: nat, elems: Seq<u32>) -> Seq<u32> {
    Seq::new(offset, |i: int| 0u32) + elems
}

/// The state after an element segment was translated: the emitted module
/// has the array of function addresses and the function table, whose size
/// is the offset of the segment plus the number of its functions. Only an
/// active segment of function indices for table 0 at a constant offset is
/// supported.
pub open spec fn element_result(c: ContextView, e: Element) -> Result<ContextView, CompileError> {
    match e.kind {
        ElementKind::Passive => Err(CompileError::UnsupportedFeature(Unsupported::PassiveElement)),
        ElementKind::Declared => Err(
            CompileError::UnsupportedFeature(Unsupported::DeclaredElement),
        ),
        ElementKind::Active { table_index, offset_expr } => if table_index matches Some(t) && t
            != 0 {
            Err(CompileError::UnsupportedFeature(Unsupported::MultiTable))
        } else {
            match segment_offset(offset_expr) {
                None => Err(CompileError::UnsupportedFeature(Unsupported::ConstExpr)),
                Some(offset) => if offset < 0 {
                    Err(CompileError::Malformed(Malformation::SegmentOffset))
                } else {
                    match e.items {
                        ElementItems::Expressions => Err(
                            CompileError::UnsupportedFeature(Unsupported::ElementExpressions),
                        ),
                        ElementItems::Functions(elems) => if offset + elems@.len() > u32::MAX {
                            Err(CompileError::Malformed(Malformation::TooManyItems))
                        } else {
                            Ok(
                                ContextView {
                                    module_globals: c.module_globals.push(
                                        function_pointers(c.functions.len() as usize),
                                    ).push(function_table(table_slots(offset as nat, elems@))),
                                    global_fptr_array: Some(c.module_globals.len() as usize),
                                    global_table: Some((c.module_globals.len() + 1) as usize),
                                    global_table_size: Some((offset + elems@.len()) as usize),
                                    ..c
                                },
                            )
                        },
                    }
                },
            }
        },
    }
}

/// The state after the first `n` segments of an element section, or the
/// error of the first one that cannot be translated.
pub open spec fn elements_result(c: ContextView, elements: Seq<Element>, n: nat) -> Result<
    ContextView,
    CompileError,
>
    decreases n,
{
    if n == 0 {
        Ok(c)
    } else {
        match elements_result(c, elements, (n - 1) as nat) {
            Err(e) => Err(e),
            Ok(p) => element_result(p, elements[n - 1]),
        }
    }
}

proof fn lemma_elements_error(c: ContextView, elements: Seq<Element>, n: nat, m: nat)
    requires
        n <= m,
        elements_result(c, elements, n) is Err,
    ensures
        elements_result(c, elements, m) == elements_result(c, elements, n),
    decreases m - n,
{
    if n < m {
        lemma_elements_error(c, elements, n, (m - 1) as nat);
    }
}

fn compile_element(ctx: &mut Context, e: &Element) -> (r: Result<(), CompileError>)
    ensures
        match element_result(old(ctx)@, *e) {
            Ok(c) => r.is_ok() && final(ctx)@ == c,
            Err(e) => r == Err::<(), CompileError>(e),
        },
{
    let offset = match &e.kind {
        ElementKind::Passive => {
            return Err(CompileError::UnsupportedFeature(Unsupported::PassiveElement));
        },
        ElementKind::Declared => {
            return Err(CompileError::UnsupportedFeature(Unsupported::DeclaredElement));
        },
        ElementKind::Active { table_index, offset_expr } => {
            match table_index {
                Some(t) => {
                    if *t != 0 {
                        return Err(CompileError::UnsupportedFeature(Unsupported::MultiTable));
                    }
                },
                None => {},
            }
            match eval_offset(offset_expr) {
                Some(o) => o,
                None => {
                    return Err(CompileError::UnsupportedFeature(Unsupported::ConstExpr));
                },
            }
        },
    };
    if offset < 0 {
        return Err(CompileError::Malformed(Malformation::SegmentOffset));
    }
    let elems = match &e.items {
        ElementItems::Expressions => {
            return Err(CompileError::UnsupportedFeature(Unsupported::ElementExpressions));
        },
        ElementItems::Functions(elems) => elems,
    };
    let offset = offset as usize;
    if elems.len() > u32::MAX as usize - offset {
        return Err(CompileError::Malformed(Malformation::TooManyItems));
    }
    let mut fn_indices: Vec<u32> = Vec::new();
    let mut i: usize = 0;
    while i < offset
        invariant
            i <= offset,
            fn_indices@ == Seq::new(i as nat, |k: int| 0u32),
        decreases offset - i,
    {
        fn_indices.push(0);
        proof {
            assert(fn_indices@ =~= Seq::new((i + 1) as nat, |k: int| 0u32));
        }
        i += 1;
    }
    let n = elems.len();
    let mut j: usize = 0;
    while j < n
        invariant
            j <= n,
            n == elems@.len(),
            fn_indices@ == Seq::new(offset as nat, |k: int| 0u32) + elems@.take(j as int),
        decreases n - j,
    {
        fn_indices.push(elems[j]);
        proof {
            assert(fn_indices@ =~= Seq::new(offset as nat, |k: int| 0u32) + elems@.take(j + 1));
        }
        j += 1;
    }
    proof {
        assert(elems@.take(n as int) =~= elems@);
    }
    let fptrs = GlobalDecl {
        name: GlobalName::FunctionPointers,
        constant: true,
        kind: GlobalKind::FunctionPointers { count: ctx.functions.len() },
        bytes: Vec::new(),
        indices: Vec::new(),
    };
    assert(fptrs@ == function_pointers(ctx@.functions.len() as usize));
    let table = GlobalDecl {
        name: GlobalName::Table,
        constant: false,
        kind: GlobalKind::Indices,
        bytes: Vec::new(),
        indices: fn_indices,
    };
    assert(table@ == function_table(table_slots(offset as nat, elems@)));
    let fptr_index = ctx.add_module_global(fptrs);
    let table_index = ctx.add_module_global(table);
    ctx.global_fptr_array = Some(fptr_index);
    ctx.global_table = Some(table_index);
    ctx.global_table_size = Some(offset + n);
    Ok(())
}

/// Translates the element section.
pub fn compile_element_section(ctx: &mut Context, elements: &Vec<Element>) -> (r: Result<
    (),
    CompileError,
>)
    ensures
        match elements_result(old(ctx)@, elements@, elements@.len()) {
            Ok(c) => r.is_ok() && final(ctx)@ == c && final(ctx)@.builder == old(ctx)@.builder
                && final(ctx)@.functions == old(ctx)@.functions
                && final(ctx)@.aot_init_block == old(ctx)@.aot_init_block && final(ctx)@.aot_main_block == old(ctx)@.aot_main_block && final(ctx)@.config == old(
                ctx,
            )@.config,
            Err(e) => r == Err::<(), CompileError>(e),
        },
{
    let n = elements.len();
    let mut i: usize = 0;
    while i < n
        invariant
            i <= n,
            n == elements@.len(),
            elements_result(old(ctx)@, elements@, i as nat) == Ok::<ContextView, CompileError>(
                ctx@,
            ),
            ctx@.builder == old(ctx)@.builder,
            ctx@.functions == old(ctx)@.functions,
            ctx@.aot_init_block == old(ctx)@.aot_init_block,
            ctx@.aot_main_block == old(ctx)@.aot_main_block,
            ctx@.config == old(ctx)@.config,
        decreases n - i,
    {
        match compile_element(ctx, &elements[i]) {
            Ok(()) => {},
            Err(e) => {
                proof {
                    lemma_elements_error(old(ctx)@, elements@, (i + 1) as nat, n as nat);
                }
                return Err(e);
            },
        }
        i += 1;
    }
    Ok(())
}

/// The declaration of function `i` of the module in the emitted module.
/// The red zone is never used; where the program is instrumented, the
/// function is not inlined either, so that the frames of the native stack
/// are those of the functions of the module.
pub open spec fn wasm_decl(c: ContextView, i: int) -> FunctionDecl {
    FunctionDecl {
        func: FuncRef::Wasm(i as u32),
        type_idx: Some(c.functions[i].type_idx),
        external: c.functions[i].origin is Import,
        noredzone: true,
        noinline: c.checkpoints(),
    }
}

/// The state after the functions of the module were declared.
pub open spec fn declare_post(c: ContextView) -> ContextView {
    ContextView {
        declarations: c.declarations + Seq::new(c.functions.len(), |i: int| wasm_decl(c, i)),
        ..c
    }
}

/// Declares the functions of the module in the emitted module.
pub fn declare_functions(ctx: &mut Context) -> (r: Result<(), CompileError>)
    ensures
        old(ctx)@.functions.len() <= u32::MAX ==> r.is_ok() && final(ctx)@ == declare_post(
            old(ctx)@,
        ),
        old(ctx)@.functions.len() > u32::MAX ==> r == Err::<(), CompileError>(
            CompileError::Malformed(Malformation::TooManyItems),
        ),
{
    let n = ctx.functions.len();
    if n > u32::MAX as usize {
        return Err(CompileError::Malformed(Malformation::TooManyItems));
    }
    let noinline = ctx.config.enable_cr;
    let mut i: usize = 0;
    while i < n
        invariant
            i <= n,
            n == old(ctx)@.functions.len(),
            n <= u32::MAX,
            noinline == old(ctx)@.checkpoints(),
            ctx@ == (ContextView {
                declarations: old(ctx)@.declarations + Seq::new(
                    i as nat,
                    |k: int| wasm_decl(old(ctx)@, k),
                ),
                ..old(ctx)@
            }),
        decreases n - i,
    {
        let f = ctx.functions[i];
        let external = match f.origin {
            Origin::Import { .. } => true,
            Origin::Defined => false,
        };
        ctx.declare(
            FunctionDecl {
                func: FuncRef::Wasm(i as u32),
                type_idx: Some(f.type_idx),
                external,
                noredzone: true,
                noinline,
            },
        );
        proof {
            assert(ctx@.declarations =~= old(ctx)@.declarations + Seq::new(
                (i + 1) as nat,
                |k: int| wasm_decl(old(ctx)@, k),
            ));
        }
        i += 1;
    }
    proof {
        assert(old(ctx)@.declarations + Seq::new(0nat, |k: int| wasm_decl(old(ctx)@, k))
            =~= old(ctx)@.declarations);
    }
    Ok(())
}

/// The state after a section was read. The element section and the code
/// section are kept for later; a table section, a custom section and any
/// section that the translator does not know are passed over. An import
/// section after functions were declared is rejected.
#[verifier::opaque]
pub open spec fn section_result(c: ContextView, s: Section) -> Result<ContextView, CompileError> {
    match s {
        Section::Type(types) => match types_result(c.signatures, types@, types@.len()) {
            Ok(sigs) => Ok(ContextView { signatures: sigs, ..c }),
            Err(e) => Err(e),
        },
        Section::Import(imports) => if c.functions.len() != 0 {
            Err(CompileError::Malformed(Malformation::SectionOrder))
        } else {
            import_section_result(c, imports@)
        },
        Section::Function(types) => function_section_result(c, types@),
        Section::Memory(memories) => match initial_pages(memories@) {
            Ok(pages) => Ok(memory_post(c, pages)),
            Err(e) => Err(e),
        },
        Section::Global(globals) => globals_result(c, globals@, globals@.len()),
        Section::Export(exports) => Ok(
            ContextView {
                start_function_idx: start_after(c.start_function_idx, exports@, exports@.len()),
                ..c
            },
        ),
        Section::Data(segs) => data_section_result(c, segs@, segs@.len()),
        _ => Ok(c),
    }
}

/// The state after the first `n` sections were read, or the error of the
/// first one that cannot be.
pub open spec fn sections_result(c: ContextView, sections: Seq<Section>, n: nat) -> Result<
    ContextView,
    CompileError,
>
    decreases n,
{
    if n == 0 {
        Ok(c)
    } else {
        match sections_result(c, sections, (n - 1) as nat) {
            Err(e) => Err(e),
            Ok(p) => section_result(p, sections[n - 1]),
        }
    }
}

proof fn lemma_sections_error(c: ContextView, sections: Seq<Section>, n: nat, m: nat)
    requires
        n <= m,
        sections_result(c, sections, n) is Err,
    ensures
        sections_result(c, sections, m) == sections_result(c, sections, n),
    decreases m - n,
{
    if n < m {
        lemma_sections_error(c, sections, n, (m - 1) as nat);
    }
}

/// The place of the last element section among the first `n` sections.
pub open spec fn last_elements(sections: Seq<Section>, n: nat) -> Option<int>
    decreases n,
{
    if n == 0 {
        None
    } else if sections[n - 1] is Element {
        Some(n - 1)
    } else {
        last_elements(sections, (n - 1) as nat)
    }
}

/// The place of the last code section among the first `n` sections.
pub open spec fn last_code(sections: Seq<Section>, n: nat) -> Option<int>
    decreases n,
{
    if n == 0 {
        None
    } else if sections[n - 1] is Code {
        Some(n - 1)
    } else {
        last_code(sections, (n - 1) as nat)
    }
}

/// The state in which body `k` of the code section is translated: the
/// body belongs to the function that follows the imports and the bodies
/// before it. A body without a function of the module, or of a function
/// whose type is not known, is rejected.
pub open spec fn body_entry(c: ContextView, k: int) -> Result<ContextView, CompileError> {
    let i = c.num_imports + k;
    if i >= c.functions.len() || i > u32::MAX {
        Err(CompileError::Malformed(Malformation::CodeCount))
    } else if c.functions[i].type_idx >= c.signatures.len() {
        Err(CompileError::Malformed(Malformation::TypeIndex))
    } else {
        Ok(ContextView { current_function_idx: Some(i as u32), ..c })
    }
}

/// The state after the first `n` bodies of the code section were
/// translated, or the error of the first one that cannot be.
pub open spec fn bodies_result(c: ContextView, bodies: Seq<FunctionBody>, n: nat) -> Result<
    ContextView,
    CompileError,
>
    decreases n,
{
    if n == 0 {
        Ok(c)
    } else {
        match bodies_result(c, bodies, (n - 1) as nat) {
            Err(e) => Err(e),
            Ok(p) => match body_entry(p, n - 1) {
                Err(e) => Err(e),
                Ok(q) => function_result(q, bodies[n - 1]),
            },
        }
    }
}

proof fn lemma_bodies_error(c: ContextView, bodies: Seq<FunctionBody>, n: nat, m: nat)
    requires
        n <= m,
        bodies_result(c, bodies, n) is Err,
    ensures
        bodies_result(c, bodies, m) == bodies_result(c, bodies, n),
    decreases m - n,
{
    if n < m {
        lemma_bodies_error(c, bodies, n, (m - 1) as nat);
    }
}

/// Translates the bodies of the code section, in order.
pub fn compile_bodies(ctx: &mut Context, bodies: &Vec<FunctionBody>) -> (r: Result<
    (),
    CompileError,
>)
    ensures
        match bodies_result(old(ctx)@, bodies@, bodies@.len()) {
            Ok(c) => r.is_ok() && final(ctx)@ == c && final(ctx)@.aot_init_block == old(
                ctx,
            )@.aot_init_block && final(ctx)@.aot_main_block == old(ctx)@.aot_main_block && old(
                ctx,
            )@.builder.blocks.len() <= final(ctx)@.builder.blocks.len(),
            Err(e) => r == Err::<(), CompileError>(e),
        },
{
    let n = bodies.len();
    let first = ctx.num_imports as usize;
    let mut k: usize = 0;
    while k < n
        invariant
            k <= n,
            n == bodies@.len(),
            first == old(ctx)@.num_imports,
            bodies_result(old(ctx)@, bodies@, k as nat) == Ok::<ContextView, CompileError>(ctx@),
            ctx@.num_imports == old(ctx)@.num_imports,
            ctx@.functions == old(ctx)@.functions,
            ctx@.signatures == old(ctx)@.signatures,
            ctx@.aot_init_block == old(ctx)@.aot_init_block,
            ctx@.aot_main_block == old(ctx)@.aot_main_block,
            old(ctx)@.builder.blocks.len() <= ctx@.builder.blocks.len(),
        decreases n - k,
    {
        let ghost p = ctx@;
        if k > u32::MAX as usize || first > u32::MAX as usize - k || first + k
            >= ctx.functions.len() {
            proof {
                assert(body_entry(p, k as int) is Err);
                lemma_bodies_error(old(ctx)@, bodies@, (k + 1) as nat, n as nat);
            }
            return Err(CompileError::Malformed(Malformation::CodeCount));
        }
        let i = first + k;
        if ctx.functions[i].type_idx as usize >= ctx.signatures.len() {
            proof {
                assert(body_entry(p, k as int) is Err);
                lemma_bodies_error(old(ctx)@, bodies@, (k + 1) as nat, n as nat);
            }
            return Err(CompileError::Malformed(Malformation::TypeIndex));
        }
        ctx.current_function_idx = Some(i as u32);
        assert(ctx@ == body_entry(p, k as int).unwrap());
        match compile_function(ctx, &bodies[k]) {
            Ok(()) => {},
            Err(e) => {
                proof {
                    lemma_bodies_error(old(ctx)@, bodies@, (k + 1) as nat, n as nat);
                }
                return Err(e);
            },
        }
        k += 1;
    }
    Ok(())
}

/// What the translation of a module yields. The sections are read in
/// their order, the element section and the code section excepted. Then
/// the functions are declared, the element section is translated, the
/// call graph is analysed where the sites are selected by it, the bodies
/// of the code section are translated, and the module is completed.
pub open spec fn module_result(args: Args, sections: Seq<Section>) -> Result<
    ContextView,
    CompileError,
> {
    let c0 = initialize_post(ContextView::fresh(args));
    match sections_result(c0, sections, sections.len()) {
        Err(e) => Err(e),
        Ok(c1) => if c1.functions.len() > u32::MAX {
            Err(CompileError::Malformed(Malformation::TooManyItems))
        } else {
            let c2 = declare_post(c1);
            let elements = match last_elements(sections, sections.len()) {
                Some(i) => elements_result(
                    c2,
                    sections[i]->Element_0@,
                    sections[i]->Element_0@.len(),
                ),
                None => Ok(c2),
            };
            match elements {
                Err(e) => Err(e),
                Ok(c3) => {
                    let bodies = match last_code(sections, sections.len()) {
                        Some(i) => sections[i]->Code_0@,
                        None => seq![],
                    };
                    let c4 = if args.optimize_cr {
                        ContextView { analysis: Some(analysis_of(shape_of(c3, bodies))), ..c3 }
                    } else {
                        c3
                    };
                    match bodies_result(c4, bodies, bodies.len()) {
                        Err(e) => Err(e),
                        Ok(c5) => match start_check(c5) {
                            Err(e) => Err(e),
                            Ok(()) => Ok(finalize_post(c5)),
                        },
                    }
                },
            }
        },
    }
}

fn compile_section(ctx: &mut Context, s: &Section) -> (r: Result<(), CompileError>)
    requires
        module_ok(old(ctx)@),
    ensures
        match section_result(old(ctx)@, *s) {
            Ok(c) => r.is_ok() && final(ctx)@ == c && module_ok(final(ctx)@) && final(ctx)@.config
                == old(ctx)@.config,
            Err(e) => r == Err::<(), CompileError>(e),
        },
{
    proof {
        reveal(section_result);
    }
    match s {
        Section::Type(types) => compile_type_section(ctx, types),
        Section::Import(imports) => {
            if ctx.functions.len() != 0 {
                return Err(CompileError::Malformed(Malformation::SectionOrder));
            }
            compile_import_section(ctx, imports)
        },
        Section::Function(functions) => compile_function_section(ctx, functions),
        Section::Memory(memories) => compile_memory_section(ctx, memories),
        Section::Global(globals) => compile_global_section(ctx, globals),
        Section::Export(exports) => compile_export_section(ctx, exports),
        Section::Data(data_segs) => compile_data_section(ctx, data_segs),
        _ => Ok(()),
    }
}

/// Translates a module into the state at hand, which must be fresh.
pub fn compile_module(sections: &Vec<Section>, ctx: &mut Context) -> (r: Result<(), CompileError>)
    requires
        old(ctx)@ == ContextView::fresh(old(ctx)@.config),
    ensures
        match module_result(old(ctx)@.config, sections@) {
            Ok(c) => r.is_ok() && final(ctx)@ == c,
            Err(e) => r == Err::<(), CompileError>(e),
        },
{
    let ghost args = ctx@.config;
    let optimize = ctx.config.optimize_cr;
    let _ = initialize(ctx);
    let ghost c0 = ctx@;
    let mut elements_section: Option<usize> = None;
    let mut code_section: Option<usize> = None;
    let n = sections.len();
    let mut i: usize = 0;
    while i < n
        invariant
            i <= n,
            n == sections@.len(),
            sections_result(c0, sections@, i as nat) == Ok::<ContextView, CompileError>(ctx@),
            module_ok(ctx@),
            ctx@.config == args,
            args == old(ctx)@.config,
            c0 == initialize_post(ContextView::fresh(args)),
            match elements_section {
                Some(k) => last_elements(sections@, i as nat) == Some(k as int),
                None => last_elements(sections@, i as nat).is_none(),
            },
            match code_section {
                Some(k) => last_code(sections@, i as nat) == Some(k as int),
                None => last_code(sections@, i as nat).is_none(),
            },
            elements_section matches Some(k) ==> k < i && sections@[k as int] is Element,
            code_section matches Some(k) ==> k < i && sections@[k as int] is Code,
        decreases n - i,
    {
        match &sections[i] {
            Section::Element(_) => {
                elements_section = Some(i);
            },
            Section::Code(_) => {
                code_section = Some(i);
            },
            _ => {},
        }
        match compile_section(ctx, &sections[i]) {
            Ok(()) => {},
            Err(e) => {
                proof {
                    lemma_sections_error(c0, sections@, (i + 1) as nat, n as nat);
                }
                return Err(e);
            },
        }
        i += 1;
    }
    let ghost c1 = ctx@;
    assert(finalize_ok(c1));
    match declare_functions(ctx) {
        Ok(()) => {},
        Err(e) => {
            return Err(e);
        },
    }
    let ghost c2 = ctx@;
    assert(c2 == declare_post(c1));
    assert(finalize_ok(c2));
    match elements_section {
        Some(k) => match &sections[k] {
            Section::Element(elements) => {
                assert(elements@ == sections@[k as int]->Element_0@);
                match compile_element_section(ctx, elements) {
                    Ok(()) => {},
                    Err(e) => {
                        return Err(e);
                    },
                }
            },
            _ => {},
        },
        None => {},
    }
    let ghost c3 = ctx@;
    assert(finalize_ok(c3));
    assert(c3.config == args);
    assert(Ok::<ContextView, CompileError>(c3) == match last_elements(sections@, sections@.len()) {
        Some(i) => elements_result(c2, sections@[i]->Element_0@, sections@[i]->Element_0@.len()),
        None => Ok(c2),
    });
    let no_bodies: Vec<FunctionBody> = Vec::new();
    let bodies = match code_section {
        Some(k) => match &sections[k] {
            Section::Code(bodies) => bodies,
            _ => &no_bodies,
        },
        None => &no_bodies,
    };
    proof {
        assert(bodies@ =~= match last_code(sections@, sections@.len()) {
            Some(i) => sections@[i]->Code_0@,
            None => seq![],
        });
    }
    if optimize {
        let _ = run_analysis_pass(ctx, bodies);
    }
    let ghost c4 = ctx@;
    assert(finalize_ok(c4));
    assert(c4 == if args.optimize_cr {
        ContextView { analysis: Some(analysis_of(shape_of(c3, bodies@))), ..c3 }
    } else {
        c3
    });
    match compile_bodies(ctx, bodies) {
        Ok(()) => {},
        Err(e) => {
            return Err(e);
        },
    }
    finalize(ctx)
}

/// Translates a module: from its sections to the emitted module.
pub fn compile(sections: &Vec<Section>, args: &Args) -> (r: Result<Context, CompileError>)
    ensures
        match module_result(*args, sections@) {
            Ok(c) => r.is_ok() && r.unwrap()@ == c,
            Err(e) => r is Err && r->Err_0 == e,
        },
{
    let mut ctx = Context::new(*args);
    match compile_module(sections, &mut ctx) {
        Ok(()) => Ok(ctx),
        Err(e) => Err(e),
    }
}

} // verus!
