//! The parts of the emitted module that no function of the Wasm module
//! gives rise to: the entry function, the declarations of the runtime's
//! interface, and the helpers that the runtime calls.

use vstd::prelude::*;

use crate::compile::cr::checkpoint::{
    add_fn_store_globals, add_fn_store_table, add_helper_post, gen_store_globals_and_table,
    helper_decl, store_globals_and_table_post, store_globals_post, store_table_post,
};
use crate::compile::cr::restore::{
    gen_restore_globals, gen_restore_table, restore_globals_post, restore_table_post,
};
use crate::context::{Context, ContextView, FunctionDecl, StackFrame};
use crate::error::{CompileError, Malformation};
use crate::ir::{FuncRef, Inst, InstView, IrType, Label, NumType, RuntimeFn, Value};

verus! {

/// The four number types, in the order in which the interface of the
/// runtime lists them.
pub open spec fn num_types() -> Seq<NumType> {
    seq![NumType::I32, NumType::I64, NumType::F32, NumType::F64]
}

/// The functions of the runtime that the emitted module declares, in the
/// order of their declaration.
pub open spec fn api_functions() -> Seq<RuntimeFn> {
    seq![RuntimeFn::StartCheckpoint, RuntimeFn::PushFrame, RuntimeFn::SetPcToFrame]
        + num_types().map_values(|t: NumType| RuntimeFn::PushLocal(t)) + num_types().map_values(
        |t: NumType| RuntimeFn::Push(t),
    ) + num_types().map_values(|t: NumType| RuntimeFn::PushGlobal(t)) + seq![
        RuntimeFn::PushTableIndex,
        RuntimeFn::PopFrontFrame,
        RuntimeFn::GetPcFromFrame,
        RuntimeFn::FrameIsEmpty,
    ] + num_types().map_values(|t: NumType| RuntimeFn::PopFrontLocal(t)) + num_types().map_values(
        |t: NumType| RuntimeFn::Pop(t),
    ) + num_types().map_values(|t: NumType| RuntimeFn::PopFrontGlobal(t)) + seq![
        RuntimeFn::PopFrontTableIndex,
    ]
}

/// The declaration of a function of the runtime.
pub open spec fn runtime_decl(f: RuntimeFn) -> FunctionDecl {
    helper_decl(FuncRef::Runtime(f))
}

/// The state after the interface of the runtime was declared.
pub open spec fn load_api_post(c: ContextView) -> ContextView {
    ContextView {
        declarations: c.declarations + api_functions().map_values(|f: RuntimeFn| runtime_decl(f)),
        ..c
    }
}

fn api_list() -> (r: Vec<RuntimeFn>)
    ensures
        r@ == api_functions(),
{
    let mut r: Vec<RuntimeFn> = Vec::new();
    r.push(RuntimeFn::StartCheckpoint);
    r.push(RuntimeFn::PushFrame);
    r.push(RuntimeFn::SetPcToFrame);
    r.push(RuntimeFn::PushLocal(NumType::I32));
    r.push(RuntimeFn::PushLocal(NumType::I64));
    r.push(RuntimeFn::PushLocal(NumType::F32));
    r.push(RuntimeFn::PushLocal(NumType::F64));
    r.push(RuntimeFn::Push(NumType::I32));
    r.push(RuntimeFn::Push(NumType::I64));
    r.push(RuntimeFn::Push(NumType::F32));
    r.push(RuntimeFn::Push(NumType::F64));
    r.push(RuntimeFn::PushGlobal(NumType::I32));
    r.push(RuntimeFn::PushGlobal(NumType::I64));
    r.push(RuntimeFn::PushGlobal(NumType::F32));
    r.push(RuntimeFn::PushGlobal(NumType::F64));
    r.push(RuntimeFn::PushTableIndex);
    r.push(RuntimeFn::PopFrontFrame);
    r.push(RuntimeFn::GetPcFromFrame);
    r.push(RuntimeFn::FrameIsEmpty);
    r.push(RuntimeFn::PopFrontLocal(NumType::I32));
    r.push(RuntimeFn::PopFrontLocal(NumType::I64));
    r.push(RuntimeFn::PopFrontLocal(NumType::F32));
    r.push(RuntimeFn::PopFrontLocal(NumType::F64));
    r.push(RuntimeFn::Pop(NumType::I32));
    r.push(RuntimeFn::Pop(NumType::I64));
    r.push(RuntimeFn::Pop(NumType::F32));
    r.push(RuntimeFn::Pop(NumType::F64));
    r.push(RuntimeFn::PopFrontGlobal(NumType::I32));
    r.push(RuntimeFn::PopFrontGlobal(NumType::I64));
    r.push(RuntimeFn::PopFrontGlobal(NumType::F32));
    r.push(RuntimeFn::PopFrontGlobal(NumType::F64));
    r.push(RuntimeFn::PopFrontTableIndex);
    assert(r@ =~= api_functions());
    r
}

/// Declares the functions of the runtime's storage interface.
pub fn load_api(ctx: &mut Context)
    ensures
        final(ctx)@ == load_api_post(old(ctx)@),
{
    let api = api_list();
    let n = api.len();
    let mut i: usize = 0;
    while i < n
        invariant
            i <= n,
            n == api@.len(),
            api@ == api_functions(),
            ctx@ == (ContextView {
                declarations: old(ctx)@.declarations + api@.take(i as int).map_values(
                    |f: RuntimeFn| runtime_decl(f),
                ),
                ..old(ctx)@
            }),
        decreases n - i,
    {
        ctx.declare(
            FunctionDecl {
                func: FuncRef::Runtime(api[i]),
                type_idx: None,
                external: true,
                noredzone: false,
                noinline: false,
            },
        );
        proof {
            assert(ctx@.declarations =~= old(ctx)@.declarations + api@.take(i + 1).map_values(
                |f: RuntimeFn| runtime_decl(f),
            ));
        }
        i += 1;
    }
    proof {
        assert(api@.take(n as int) =~= api@);
        assert(old(ctx)@.declarations + Seq::<RuntimeFn>::empty().map_values(
            |f: RuntimeFn| runtime_decl(f),
        ) =~= old(ctx)@.declarations);
    }
}

/// The declaration of the entry function.
pub open spec fn entry_decl() -> FunctionDecl {
    FunctionDecl {
        func: FuncRef::AotMain,
        type_idx: None,
        external: false,
        noredzone: false,
        noinline: false,
    }
}

/// The state in which the sections of a module are read: the entry
/// function is declared and has its three blocks, of which the first goes
/// to the second; the function of the runtime that grows the memory and
/// the storage interface are declared. The cursor stands in the first
/// block.
#[verifier::opaque]
pub open spec fn initialize_post(c: ContextView) -> ContextView {
    let entry = c.next_block();
    let init = (c.builder.blocks.len() + 1) as usize;
    let main = (c.builder.blocks.len() + 2) as usize;
    let c1 = ContextView {
        declarations: c.declarations.push(entry_decl()).push(runtime_decl(RuntimeFn::MemoryGrow)),
        current_fn: Some(FuncRef::AotMain),
        stack_frames: c.stack_frames.push(Seq::empty()),
        control_frames: Seq::empty(),
        restore_dispatch_bb: None,
        aot_init_block: Some(init),
        aot_main_block: Some(main),
        ..c
    };
    load_api_post(
        c1.append_block(Label::Entry).append_block(Label::Init).append_block(
            Label::Main,
        ).position_at(entry).emit1(InstView::br(init)),
    )
}

/// The state in which the parts of a module are translated that do not
/// belong to a function of the Wasm module: the entry function is the
/// function at hand and its blocks exist.
pub open spec fn module_ok(c: ContextView) -> bool {
    &&& c.wf()
    &&& c.current_fn == Some(FuncRef::AotMain)
    &&& c.control_frames.len() == 0
    &&& c.aot_init_block matches Some(b) && c.builder.has_block(b)
    &&& c.aot_main_block matches Some(b) && c.builder.has_block(b)
}

/// Begins the emitted module.
pub fn initialize(ctx: &mut Context) -> (r: Result<(), CompileError>)
    ensures
        r.is_ok(),
        final(ctx)@ == initialize_post(old(ctx)@),
        module_ok(final(ctx)@),
        final(ctx)@.config == old(ctx)@.config,
{
    proof {
        reveal(initialize_post);
    }
    ctx.declare(
        FunctionDecl {
            func: FuncRef::AotMain,
            type_idx: None,
            external: false,
            noredzone: false,
            noinline: false,
        },
    );
    ctx.declare(
        FunctionDecl {
            func: FuncRef::Runtime(RuntimeFn::MemoryGrow),
            type_idx: None,
            external: true,
            noredzone: false,
            noinline: false,
        },
    );
    ctx.current_fn = Some(FuncRef::AotMain);
    ctx.stack_frames.push(StackFrame::new());
    ctx.control_frames = Vec::new();
    ctx.restore_dispatch_bb = None;
    let aot_entry_block = ctx.append_block_in(FuncRef::AotMain, Label::Entry);
    let aot_init_block = ctx.append_block_in(FuncRef::AotMain, Label::Init);
    let aot_main_block = ctx.append_block_in(FuncRef::AotMain, Label::Main);
    ctx.aot_init_block = Some(aot_init_block);
    ctx.aot_main_block = Some(aot_main_block);
    ctx.builder.position_at_end(aot_entry_block);
    proof {
        assert(ctx@.stack_frames =~= old(ctx)@.stack_frames.push(Seq::empty()));
        assert(ctx@.control_frames =~= Seq::<crate::compile::control::ControlFrame>::empty());
        assert(ctx@.stack() =~= Seq::<Value>::empty());
    }
    ctx.emit(Inst::br(aot_init_block));
    load_api(ctx);
    Ok(())
}

/// What the end of the entry function asks of the module: a function is
/// exported as `_start`, and it is a function of the module.
pub open spec fn start_check(c: ContextView) -> Result<(), CompileError> {
    match c.start_function_idx {
        None => Err(CompileError::Malformed(Malformation::NoStartFunction)),
        Some(i) => if i >= c.functions.len() {
            Err(CompileError::Malformed(Malformation::FunctionIndex))
        } else {
            Ok(())
        },
    }
}

/// The body of the entry function after the memory is initialized: where
/// the program can be restored, the globals and the table are taken back;
/// the start function is called on the execution environment; where the
/// program is instrumented and saves its frames itself, the globals and
/// the table are saved after the program has come back. Then the entry
/// function returns.
pub open spec fn main_block_post(c: ContextView) -> ContextView {
    let env = Value::param(0, IrType::Ptr);
    let c1 = ContextView {
        current_fn: Some(FuncRef::AotMain),
        current_function_idx: None,
        restore_dispatch_bb: None,
        stack_frames: seq![Seq::empty()],
        control_frames: Seq::empty(),
        ..c
    };
    let c2 = c1.position_at(c.aot_init_block.unwrap()).emit1(
        InstView::br(c.aot_main_block.unwrap()),
    ).position_at(c.aot_main_block.unwrap());
    let c3 = if c.restores() {
        restore_table_post(restore_globals_post(c2, env), env)
    } else {
        c2
    };
    let c4 = c3.emit1(
        InstView::call(FuncRef::Wasm(c.start_function_idx.unwrap()), None, seq![env]),
    );
    let c5 = if c.checkpoints() && !c.config.checkpoint_v2 {
        store_globals_and_table_post(c4, env)
    } else {
        c4
    };
    c5.emit1(InstView::ret(None))
}

/// The state after the emitted module was completed: the entry function is
/// closed and the two helpers that hand the globals and the table to the
/// runtime are added.
#[verifier::opaque]
pub open spec fn finalize_post(c: ContextView) -> ContextView {
    let env = Value::param(0, IrType::Ptr);
    let c1 = store_globals_post(
        add_helper_post(main_block_post(c), FuncRef::StoreGlobals),
        env,
    ).emit1(InstView::ret(None));
    store_table_post(add_helper_post(c1, FuncRef::StoreTable), env).emit1(InstView::ret(None))
}

/// What the completion of the module asks of the state: the blocks of the
/// entry function exist.
pub open spec fn finalize_ok(c: ContextView) -> bool {
    &&& c.aot_init_block matches Some(b) && c.builder.has_block(b)
    &&& c.aot_main_block matches Some(b) && c.builder.has_block(b)
}

/// Completes the emitted module.
pub fn finalize(ctx: &mut Context) -> (r: Result<(), CompileError>)
    requires
        finalize_ok(old(ctx)@),
    ensures
        match start_check(old(ctx)@) {
            Ok(()) => r.is_ok() && final(ctx)@ == finalize_post(old(ctx)@),
            Err(e) => r == Err::<(), CompileError>(e),
        },
{
    proof {
        reveal(finalize_post);
    }
    let start_idx = match ctx.start_function_idx {
        Some(i) => i,
        None => {
            return Err(CompileError::Malformed(Malformation::NoStartFunction));
        },
    };
    if start_idx as usize >= ctx.functions.len() {
        return Err(CompileError::Malformed(Malformation::FunctionIndex));
    }
    let restores = ctx.config.enable_cr && !ctx.config.no_restore;
    let stores = ctx.config.enable_cr && !ctx.config.checkpoint_v2;
    ctx.current_fn = Some(FuncRef::AotMain);
    ctx.current_function_idx = None;
    ctx.restore_dispatch_bb = None;
    ctx.stack_frames = Vec::new();
    ctx.stack_frames.push(StackFrame::new());
    ctx.control_frames = Vec::new();
    proof {
        assert(ctx@.stack_frames =~= seq![Seq::<Value>::empty()]);
        assert(ctx@.control_frames =~= Seq::<crate::compile::control::ControlFrame>::empty());
        assert(ctx@.stack() =~= Seq::<Value>::empty());
    }
    let exec_env_ptr = Value::nth_param(0, IrType::Ptr);
    let init = ctx.aot_init_block.unwrap();
    let main = ctx.aot_main_block.unwrap();
    ctx.builder.position_at_end(init);
    assert(ctx@.wf());
    ctx.emit(Inst::br(main));
    ctx.position_at_end(main);
    if restores {
        gen_restore_globals(ctx, &exec_env_ptr);
        gen_restore_table(ctx, &exec_env_ptr);
    }
    let mut args: Vec<Value> = Vec::new();
    args.push(exec_env_ptr);
    assert(args@ =~= seq![exec_env_ptr]);
    ctx.emit(Inst::call(FuncRef::Wasm(start_idx), None, args));
    if stores {
        gen_store_globals_and_table(ctx, &exec_env_ptr);
    }
    ctx.emit(Inst::ret(None));
    add_fn_store_globals(ctx, exec_env_ptr);
    add_fn_store_table(ctx, exec_env_ptr);
    Ok(())
}

} // verus!
