//! The plugin host: WebAssembly modules run by `wasmtime`, each with its
//! own store, asked for a verdict on every event.
//!
//! A plugin may export `on_event(i32, i64) -> i32`. A result other than
//! zero allows the event, zero rejects it, and a plugin without the export
//! allows every event.

use vstd::prelude::*;
use vstd::string::StringExecFns;
use wasmtime::{Engine, Instance, Linker, Module, Store, TypedFunc};
use wasmtime_wasi::p1::WasiP1Ctx;
use crate::dataplane::EngineError;

verus! {

#[verifier::external_type_specification]
#[verifier::external_body]
pub struct ExEngine(Engine);

#[verifier::external_type_specification]
#[verifier::external_body]
#[verifier::reject_recursive_types(T)]
pub struct ExLinker<T>(Linker<T>);

#[verifier::external_type_specification]
#[verifier::external_body]
#[verifier::reject_recursive_types(T)]
pub struct ExStore<T: 'static>(Store<T>);

#[verifier::external_type_specification]
#[verifier::external_body]
pub struct ExInstance(Instance);

#[verifier::external_type_specification]
#[verifier::external_body]
pub struct ExModule(Module);

#[verifier::external_type_specification]
#[verifier::external_body]
#[verifier::reject_recursive_types(Params)]
#[verifier::reject_recursive_types(Results)]
pub struct ExTypedFunc<Params, Results>(TypedFunc<Params, Results>);

#[verifier::external_type_specification]
#[verifier::external_body]
pub struct ExWasiP1Ctx(WasiP1Ctx);

/// `Engine::new` with the default configuration; an error is handed on
/// as its text. Nothing is claimed of the result.
#[verifier::external_body]
pub(crate) fn engine_new() -> Result<Engine, String> {
    match Engine::new(&wasmtime::Config::new()) {
        Ok(engine) => Ok(engine),
        Err(e) => Err(e.to_string()),
    }
}

/// `Linker::new` for the engine.
#[verifier::external_body]
pub(crate) fn linker_new(engine: &Engine) -> Linker<WasiP1Ctx> {
    Linker::new(engine)
}

/// `wasmtime_wasi::p1::add_to_linker_sync`: gives the linker the WASI
/// functions, which work on the store's own context; an error is handed
/// on as its text. Nothing is claimed of the result.
#[verifier::external_body]
pub(crate) fn linker_add_wasi(linker: &mut Linker<WasiP1Ctx>) -> Result<(), String> {
    match wasmtime_wasi::p1::add_to_linker_sync(linker, |ctx| ctx) {
        Ok(_) => Ok(()),
        Err(e) => Err(e.to_string()),
    }
}

/// `Store::new` with a WASI context that inherits the standard streams.
#[verifier::external_body]
pub(crate) fn store_new(engine: &Engine) -> Store<WasiP1Ctx> {
    Store::new(engine, wasmtime_wasi::WasiCtxBuilder::new().inherit_stdio().build_p1())
}

/// `Module::new`: compiles the bytes; an error is handed on as its text.
/// Nothing is claimed of the result.
#[verifier::external_body]
pub(crate) fn module_new(engine: &Engine, bytes: &[u8]) -> Result<Module, String> {
    match Module::new(engine, bytes) {
        Ok(module) => Ok(module),
        Err(e) => Err(e.to_string()),
    }
}

/// `Linker::instantiate`: an instance of the module in the store; an
/// error is handed on as its text. The three come from one engine.
/// Nothing is claimed of the result.
#[verifier::external_body]
pub(crate) fn instantiate(linker: &Linker<WasiP1Ctx>, store: &mut Store<WasiP1Ctx>, module: &Module) -> Result<
    Instance,
    String,
> {
    match linker.instantiate(store, module) {
        Ok(instance) => Ok(instance),
        Err(e) => Err(e.to_string()),
    }
}

/// `Instance::get_typed_func` for the export `on_event` with the type
/// `(i32, i64) -> i32`; `None` where there is no such export or its type
/// is another. The store owns the instance. Nothing is claimed of the
/// result.
#[verifier::external_body]
fn lookup_hook(instance: &Instance, store: &mut Store<WasiP1Ctx>) -> Option<TypedFunc<(i32, i64), i32>> {
    instance.get_typed_func::<(i32, i64), i32>(store, "on_event").ok()
}

/// `TypedFunc::call`: runs the export; an error is handed on as its text.
/// The store owns the function. Nothing is claimed of the result.
#[verifier::external_body]
fn call_hook(hook: &TypedFunc<(i32, i64), i32>, store: &mut Store<WasiP1Ctx>, source: i32, seq: i64) -> Result<
    i32,
    String,
> {
    match hook.call(store, (source, seq)) {
        Ok(v) => Ok(v),
        Err(e) => Err(e.to_string()),
    }
}

/// The signed number of 32 bits with the bits of `v`.
pub open spec fn signed_32(v: u32) -> i32 {
    if v < 0x8000_0000 {
        v as i32
    } else {
        (v - 0x1_0000_0000) as i32
    }
}

/// The signed number of 64 bits with the bits of `v`.
pub open spec fn signed_64(v: u64) -> i64 {
    if v < 0x8000_0000_0000_0000 {
        v as i64
    } else {
        (v - 0x1_0000_0000_0000_0000) as i64
    }
}

/// What is handed to the hook for an event: the producer and the
/// sequence number as the signed numbers with the same bits.
pub fn hook_arguments(source_id: u32, seq_no: u64) -> (r: (i32, i64))
    ensures
        r.0 == signed_32(source_id),
        r.1 == signed_64(seq_no),
{
    let source: i32 = if source_id < 0x8000_0000 {
        source_id as i32
    } else {
        ((source_id - 0x8000_0000) as i32) - 0x7fff_ffff - 1
    };
    let seq: i64 = if seq_no < 0x8000_0000_0000_0000 {
        seq_no as i64
    } else {
        ((seq_no - 0x8000_0000_0000_0000) as i64) - 0x7fff_ffff_ffff_ffff - 1
    };
    (source, seq)
}

/// What came of asking a plugin about an event.
#[derive(Debug, Clone)]
pub enum HookOutcome {
    /// The plugin has no `on_event` of the expected type.
    Missing,
    /// The plugin returned this value.
    Returned(i32),
    /// The plugin failed while it ran; the text says how.
    Trapped(String),
}

/// The verdict on an event from what came of asking: a plugin that does
/// not implement the hook allows, a result other than zero allows, zero
/// rejects, and a failure is an error.
pub open spec fn spec_hook_verdict(outcome: HookOutcome) -> Result<bool, Seq<char>> {
    match outcome {
        HookOutcome::Missing => Ok(true),
        HookOutcome::Returned(v) => Ok(v != 0),
        HookOutcome::Trapped(text) => Err(text@),
    }
}

/// The verdict on an event from what came of asking.
pub fn hook_verdict(outcome: HookOutcome) -> (r: Result<bool, EngineError>)
    ensures
        match spec_hook_verdict(outcome) {
            Ok(allow) => r == Ok::<bool, EngineError>(allow),
            Err(text) => r is Err && r->Err_0 is RuntimeError && r->Err_0.spec_message() == text,
        },
{
    match outcome {
        HookOutcome::Missing => Ok(true),
        HookOutcome::Returned(v) => Ok(v != 0),
        HookOutcome::Trapped(text) => Err(EngineError::RuntimeError(text)),
    }
}

/// The plugin runtime.
pub struct WasmHost {
    engine: Engine,
    linker: Linker<WasiP1Ctx>,
}

/// A loaded plugin with its own state. Its hook, the export `on_event`
/// of the type `(i32, i64) -> i32`, is looked up once, when the plugin is
/// loaded.
pub struct WasmPlugin {
    store: Store<WasiP1Ctx>,
    hook: Option<TypedFunc<(i32, i64), i32>>,
}

impl WasmHost {
    /// Sets up the runtime; a failure is `InitFailed`.
    pub fn new() -> (r: Result<WasmHost, EngineError>)
        ensures
            r is Err ==> r->Err_0 is InitFailed,
    {
        let engine = match engine_new() {
            Ok(engine) => engine,
            Err(e) => {
                return Err(EngineError::InitFailed(e));
            },
        };
        let mut linker = linker_new(&engine);
        match linker_add_wasi(&mut linker) {
            Ok(_) => Ok(WasmHost { engine, linker }),
            Err(e) => Err(EngineError::InitFailed(e)),
        }
    }

    /// Compiles the bytecode and makes an instance of it with a store of
    /// its own; bytecode that is refused is `LoadFailed`.
    pub fn load_plugin(&self, wasm_bytes: &[u8]) -> (r: Result<WasmPlugin, EngineError>)
        ensures
            r is Err ==> r->Err_0 is LoadFailed,
    {
        let mut store = store_new(&self.engine);
        let module = match module_new(&self.engine, wasm_bytes) {
            Ok(module) => module,
            Err(e) => {
                return Err(EngineError::LoadFailed(e));
            },
        };
        match instantiate(&self.linker, &mut store, &module) {
            Ok(instance) => {
                let hook = lookup_hook(&instance, &mut store);
                Ok(WasmPlugin { store, hook })
            },
            Err(e) => Err(EngineError::LoadFailed(e)),
        }
    }
}

impl WasmPlugin {
    /// Whether the plugin implements the hook.
    pub closed spec fn has_hook(&self) -> bool {
        self.hook is Some
    }

    /// Whether the plugin implements the hook.
    pub fn implements_hook(&self) -> (r: bool)
        ensures
            r == self.has_hook(),
    {
        self.hook.is_some()
    }

    /// Asks the plugin about an event. A plugin without the hook is not
    /// run: the outcome is `Missing` for it and for no other. A plugin
    /// with the hook is handed what `hook_arguments` makes of the two
    /// numbers.
    pub fn ask(&mut self, source_id: u32, seq_no: u64) -> (outcome: HookOutcome)
        ensures
            final(self).has_hook() == old(self).has_hook(),
            outcome is Missing <==> !old(self).has_hook(),
    {
        match &self.hook {
            None => HookOutcome::Missing,
            Some(hook) => {
                let (source, seq) = hook_arguments(source_id, seq_no);
                match call_hook(hook, &mut self.store, source, seq) {
                    Ok(v) => HookOutcome::Returned(v),
                    Err(e) => HookOutcome::Trapped(e),
                }
            },
        }
    }

    /// The plugin's verdict on an event: `Ok(true)` allows, `Ok(false)`
    /// rejects. A plugin without the hook allows every event; a failure
    /// of the plugin is `RuntimeError`.
    pub fn on_event(&mut self, source_id: u32, seq_no: u64) -> (r: Result<bool, EngineError>)
        ensures
            final(self).has_hook() == old(self).has_hook(),
            !old(self).has_hook() ==> r == Ok::<bool, EngineError>(true),
            r is Err ==> r->Err_0 is RuntimeError,
    {
        let outcome = self.ask(source_id, seq_no);
        hook_verdict(outcome)
    }
}

} // verus!
