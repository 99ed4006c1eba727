//! The engine side of a context. Wasmtime panics when a store meets a linker
//! of another engine, or an instance or function of another store, so the
//! pieces are kept together: a `Linked` holds an engine and the linker made
//! on it, an `Instantiated` holds a store and the instance made in it. Their
//! fields are private to this module and only the calls below fill them, so
//! no mismatched pair can be handed to the engine.
use crate::context::NnWasmCtx;
use vstd::prelude::*;
use wasmtime::{Engine, Instance, Linker, Module, Store};

verus! {

#[verifier::external_type_specification]
#[verifier::external_body]
pub struct ExEngine(wasmtime::Engine);

#[verifier::external_type_specification]
#[verifier::external_body]
pub struct ExModule(wasmtime::Module);

#[verifier::external_type_specification]
#[verifier::external_body]
pub struct ExInstance(wasmtime::Instance);

#[verifier::external_type_specification]
#[verifier::external_body]
#[verifier::reject_recursive_types(T)]
pub struct ExLinker<T>(wasmtime::Linker<T>);

#[verifier::external_type_specification]
#[verifier::external_body]
#[verifier::reject_recursive_types(T)]
pub struct ExStore<T: 'static>(wasmtime::Store<T>);

#[verifier::external_type_specification]
#[verifier::external_body]
pub struct ExWasmtimeError(wasmtime::Error);

/// An engine and the linker built on it.
pub struct Linked {
    engine: Engine,
    linker: Linker<NnWasmCtx>,
}

/// A store and the instance that lives in it.
pub struct Instantiated {
    store: Store<NnWasmCtx>,
    instance: Instance,
}

/// Relies on `Engine::default`: an engine with the default configuration.
#[verifier::external_body]
pub(crate) fn default_engine() -> Engine {
    Engine::default()
}

/// Relies on `Linker::new`: a linker with no definitions, on `engine`.
#[verifier::external_body]
pub(crate) fn new_linked(engine: Engine) -> Linked {
    let linker = Linker::new(&engine);
    Linked { engine, linker }
}

/// Relies on `wasmtime_wasi::p1::add_to_linker_sync`: defines the WASI
/// preview 1 imports, reaching the host state through `NnWasmCtx::wasi`.
#[verifier::external_body]
pub(crate) fn link_wasi(linked: &mut Linked) -> Result<(), wasmtime::Error> {
    wasmtime_wasi::p1::add_to_linker_sync(&mut linked.linker, NnWasmCtx::wasi)
}

/// Relies on `wasmtime_wasi_nn::witx::add_to_linker`: defines the WASI-NN
/// imports, reaching the host state through `NnWasmCtx::wasi_nn`.
#[verifier::external_body]
pub(crate) fn link_wasi_nn(linked: &mut Linked) -> Result<(), wasmtime::Error> {
    wasmtime_wasi_nn::witx::add_to_linker(&mut linked.linker, NnWasmCtx::wasi_nn)
}

/// Relies on `Module::from_file`: reads and compiles the artifact at `path`
/// with the linker's engine.
#[verifier::external_body]
pub(crate) fn load_module(linked: &Linked, path: &str) -> Result<Module, wasmtime::Error> {
    Module::from_file(&linked.engine, path)
}

/// Relies on `Store::new` and `Linker::instantiate`: a new store on the
/// linker's own engine, owning `data`, and the module instantiated in it
/// with its imports resolved from the linker. A module of another engine is
/// an error, not a panic.
#[verifier::external_body]
pub(crate) fn instantiate(linked: &Linked, data: NnWasmCtx, module: &Module) -> Result<
    Instantiated,
    wasmtime::Error,
> {
    let mut store = Store::new(&linked.engine, data);
    let instance = linked.linker.instantiate(&mut store, module)?;
    Ok(Instantiated { store, instance })
}

/// Relies on `Instance::get_typed_func` and `TypedFunc::call`: looks up the
/// export `name` as a function without parameters or results and runs it to
/// completion in the instance's own store. The guest's WASI calls block on
/// the ambient tokio runtime when there is one, so this must not be called
/// from inside an async task.
#[verifier::external_body]
pub(crate) fn run_export(sandbox: &mut Instantiated, name: &str) -> Result<(), wasmtime::Error> {
    let func = sandbox.instance.get_typed_func::<(), ()>(&mut sandbox.store, name)?;
    func.call(&mut sandbox.store, ())
}

/// Relies on the `Display` of `wasmtime::Error`: its message.
#[verifier::external_body]
pub(crate) fn describe(e: &wasmtime::Error) -> String {
    e.to_string()
}

} // verus!
