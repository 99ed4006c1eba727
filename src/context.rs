//! One sandboxed execution context: a WebAssembly module instantiated against
//! a WASI preview 1 capability set and a WASI-NN inference context.
use crate::messages::{decimal, decimal_string, error_message, error_text, executed_message, executed_text};
use vstd::prelude::*;
use crate::sandbox::{
    default_engine, describe, instantiate, link_wasi, link_wasi_nn, load_module, new_linked, run_export,
    Instantiated,
};
use wasmtime_wasi::p1::WasiP1Ctx;
use wasmtime_wasi::{DirPerms, FilePerms, WasiCtxBuilder};
use wasmtime_wasi_nn::witx::WasiNnCtx;
use wasmtime_wasi_nn::Backend;

verus! {

#[verifier::external_type_specification]
#[verifier::external_body]
pub struct ExWasiP1Ctx(wasmtime_wasi::p1::WasiP1Ctx);

#[verifier::external_type_specification]
#[verifier::external_body]
pub struct ExWasiCtxBuilder(wasmtime_wasi::WasiCtxBuilder);

#[verifier::external_type_specification]
#[verifier::external_body]
pub struct ExDirPerms(wasmtime_wasi::DirPerms);

#[verifier::external_type_specification]
#[verifier::external_body]
pub struct ExFilePerms(wasmtime_wasi::FilePerms);

#[verifier::external_type_specification]
#[verifier::external_body]
pub struct ExWasiNnCtx(wasmtime_wasi_nn::witx::WasiNnCtx);

#[verifier::external_type_specification]
#[verifier::external_body]
pub struct ExBackend(wasmtime_wasi_nn::Backend);

#[verifier::external_type_specification]
#[verifier::external_body]
pub struct ExGraphRegistry(wasmtime_wasi_nn::Registry);

/// The host state of one store: the WASI preview 1 context and the WASI-NN
/// context that the linked imports reach.
pub struct NnWasmCtx {
    pub wasi: WasiP1Ctx,
    pub wasi_nn: WasiNnCtx,
}

impl NnWasmCtx {
    pub fn new(wasi: WasiP1Ctx, wasi_nn: WasiNnCtx) -> (r: Self)
        ensures
            r.wasi == wasi,
            r.wasi_nn == wasi_nn,
    {
        NnWasmCtx { wasi, wasi_nn }
    }

    /// The WASI preview 1 part, as the WASI imports reach it.
    pub fn wasi(&mut self) -> (r: &mut WasiP1Ctx)
        ensures
            *r == old(self).wasi,
            final(self).wasi == *final(r),
            final(self).wasi_nn == old(self).wasi_nn,
    {
        &mut self.wasi
    }

    /// The WASI-NN part, as the inference imports reach it.
    pub fn wasi_nn(&mut self) -> (r: &mut WasiNnCtx)
        ensures
            *r == old(self).wasi_nn,
            final(self).wasi_nn == *final(r),
            final(self).wasi == old(self).wasi,
    {
        &mut self.wasi_nn
    }
}

/// Why a context could not be built or run; each carries the engine's
/// description of the cause.
pub enum ContextError {
    /// The artifact could not be read or compiled.
    Load(String),
    /// The capability imports could not be defined.
    Link(String),
    /// The capability set could not be built, or the module not instantiated
    /// against it.
    Instantiate(String),
    /// The entry point is missing, or the run trapped.
    Execution(String),
}

impl ContextError {
    pub open spec fn cause_view(&self) -> Seq<char> {
        match self {
            ContextError::Load(s) => s@,
            ContextError::Link(s) => s@,
            ContextError::Instantiate(s) => s@,
            ContextError::Execution(s) => s@,
        }
    }

    /// The engine's description of what went wrong.
    pub fn cause(&self) -> (r: &str)
        ensures
            r@ == self.cause_view(),
    {
        match self {
            ContextError::Load(s) => s.as_str(),
            ContextError::Link(s) => s.as_str(),
            ContextError::Instantiate(s) => s.as_str(),
            ContextError::Execution(s) => s.as_str(),
        }
    }

    pub open spec fn is_construction(&self) -> bool {
        self is Load || self is Link || self is Instantiate
    }
}

/// Relies on `WasiCtxBuilder::new`: a builder that grants nothing yet.
#[verifier::external_body]
fn wasi_builder() -> WasiCtxBuilder {
    WasiCtxBuilder::new()
}

/// Relies on `WasiCtxBuilder::args`: sets the guest's process arguments.
#[verifier::external_body]
fn set_args(builder: &mut WasiCtxBuilder, args: &Vec<String>) {
    builder.args(args);
}

/// Relies on `WasiCtxBuilder::inherit_stdout`: the guest writes to the
/// host's standard output.
#[verifier::external_body]
fn inherit_stdout(builder: &mut WasiCtxBuilder) {
    builder.inherit_stdout();
}

/// Relies on `WasiCtxBuilder::inherit_stderr`: the guest writes to the
/// host's standard error.
#[verifier::external_body]
fn inherit_stderr(builder: &mut WasiCtxBuilder) {
    builder.inherit_stderr();
}

/// Relies on `WasiCtxBuilder::envs`: adds these variables, in order, to the
/// guest's environment.
#[verifier::external_body]
fn set_envs(builder: &mut WasiCtxBuilder, vars: &Vec<(String, String)>) {
    builder.envs(vars);
}

/// Relies on `DirPerms::all`: every directory permission.
#[verifier::external_body]
fn all_dir_perms() -> DirPerms {
    DirPerms::all()
}

/// Relies on `FilePerms::all`: every file permission.
#[verifier::external_body]
fn all_file_perms() -> FilePerms {
    FilePerms::all()
}

/// Relies on `WasiCtxBuilder::preopened_dir`: opens the host directory and
/// grants it to the guest under `guest_path`.
#[verifier::external_body]
fn preopen_dir(
    builder: &mut WasiCtxBuilder,
    host_path: &str,
    guest_path: &str,
    dir_perms: DirPerms,
    file_perms: FilePerms,
) -> Result<(), wasmtime::Error> {
    builder.preopened_dir(host_path, guest_path, dir_perms, file_perms).map(|_| ())
}

/// Relies on `WasiCtxBuilder::build_p1`: the WASI preview 1 context. The
/// builder is consumed, so it is never built twice.
#[verifier::external_body]
fn build_p1(builder: WasiCtxBuilder) -> WasiP1Ctx {
    let mut builder = builder;
    builder.build_p1()
}

/// Relies on `wasmtime_wasi_nn::preload`: the available backends, with the
/// given graphs loaded into a registry.
#[verifier::external_body]
fn preload_graphs(graphs: &Vec<(String, String)>) -> Result<
    (Vec<Backend>, wasmtime_wasi_nn::Registry),
    wasmtime::Error,
> {
    wasmtime_wasi_nn::preload(graphs.as_slice())
}

/// Relies on `WasiNnCtx::new`: the inference context over those backends.
#[verifier::external_body]
fn new_nn_ctx(backends: Vec<Backend>, registry: wasmtime_wasi_nn::Registry) -> WasiNnCtx {
    WasiNnCtx::new(backends, registry)
}

/// The process arguments a context's guest receives: its id, in decimal.
pub fn guest_args(id: usize) -> (r: Vec<String>)
    ensures
        r@.len() == 1,
        r@[0]@ == decimal(id as nat),
{
    let mut args: Vec<String> = Vec::new();
    args.push(decimal_string(id));
    args
}

/// A loaded module instance with its capability set and its store.
pub struct WasmRuntime {
    id: usize,
    sandbox: Instantiated,
}

impl WasmRuntime {
    /// The id the context was built for.
    pub closed spec fn spec_id(&self) -> usize {
        self.id
    }

    /// The id the context was built for; its guest sees it as argument.
    pub fn id(&self) -> (r: usize)
        ensures
            r == self.spec_id(),
    {
        self.id
    }

    /// Loads the artifact at `wasm_file` and instantiates it against a
    /// capability set whose process arguments are `[id]`, with the host's
    /// standard output and standard error, the environment variables `env`,
    /// full access to the working directory, and an inference context
    /// without preloaded graphs.
    pub fn new(id: usize, wasm_file: &str, env: &Vec<(String, String)>) -> (r: Result<Self, ContextError>)
        ensures
            r matches Ok(rt) ==> rt.spec_id() == id,
            r matches Err(e) ==> e.is_construction(),
    {
        let mut linked = new_linked(default_engine());
        let module = match load_module(&linked, wasm_file) {
            Ok(m) => m,
            Err(e) => return Err(ContextError::Load(describe(&e))),
        };
        if let Err(e) = link_wasi(&mut linked) {
            return Err(ContextError::Link(describe(&e)));
        }
        if let Err(e) = link_wasi_nn(&mut linked) {
            return Err(ContextError::Link(describe(&e)));
        }
        let args = guest_args(id);
        let mut builder = wasi_builder();
        set_args(&mut builder, &args);
        inherit_stdout(&mut builder);
        inherit_stderr(&mut builder);
        set_envs(&mut builder, env);
        if let Err(e) = preopen_dir(&mut builder, ".", ".", all_dir_perms(), all_file_perms()) {
            return Err(ContextError::Instantiate(describe(&e)));
        }
        let wasi = build_p1(builder);
        let graphs: Vec<(String, String)> = Vec::new();
        let (backends, registry) = match preload_graphs(&graphs) {
            Ok(p) => p,
            Err(e) => return Err(ContextError::Instantiate(describe(&e))),
        };
        let wasi_nn = new_nn_ctx(backends, registry);
        match instantiate(&linked, NnWasmCtx::new(wasi, wasi_nn), &module) {
            Ok(sandbox) => Ok(WasmRuntime { id, sandbox }),
            Err(e) => Err(ContextError::Instantiate(describe(&e))),
        }
    }

    /// Runs the module's `_start` export to completion. The guest's WASI
    /// calls block on the ambient tokio runtime when there is one, so call
    /// this from a plain or blocking-pool thread, never from inside an async
    /// task.
    pub fn run(&mut self) -> (r: Result<String, ContextError>)
        ensures
            final(self).spec_id() == old(self).spec_id(),
            r matches Ok(m) ==> m@ == executed_message(old(self).spec_id() as nat),
            r matches Err(e) ==> e is Execution,
    {
        match run_export(&mut self.sandbox, "_start") {
            Ok(()) => Ok(executed_text(self.id)),
            Err(e) => Err(ContextError::Execution(describe(&e))),
        }
    }
}

/// The text a run reports for context `id`: the status of a completed run,
/// or the cause of a failed one.
pub fn run_report(id: usize, outcome: &Result<String, ContextError>) -> (r: String)
    ensures
        outcome matches Ok(m) ==> r@ == m@,
        outcome matches Err(e) ==> r@ == error_message(id as nat, e.cause_view()),
{
    match outcome {
        Ok(m) => m.clone(),
        Err(e) => error_text(id, e.cause()),
    }
}

/// Builds one context per id from `start` to `start + count - 1`, in order,
/// all from the same artifact and environment; each slot holds the context or why it could
/// not be built.
pub fn build_batch(start: usize, count: usize, wasm_file: &str, env: &Vec<(String, String)>) -> (r: Vec<
    Result<WasmRuntime, ContextError>,
>)
    requires
        start + count <= usize::MAX + 1,
    ensures
        r@.len() == count,
        forall|i: int| 0 <= i < count ==> (#[trigger] r@[i] matches Ok(rt) ==> rt.spec_id() == start + i),
        forall|i: int| 0 <= i < count ==> (#[trigger] r@[i] matches Err(e) ==> e.is_construction()),
{
    let mut r: Vec<Result<WasmRuntime, ContextError>> = Vec::new();
    let mut i: usize = 0;
    while i < count
        invariant
            start + count <= usize::MAX + 1,
            i <= count,
            r@.len() == i,
            forall|j: int| 0 <= j < i ==> (#[trigger] r@[j] matches Ok(rt) ==> rt.spec_id() == start + j),
            forall|j: int| 0 <= j < i ==> (#[trigger] r@[j] matches Err(e) ==> e.is_construction()),
        decreases count - i,
    {
        r.push(WasmRuntime::new(start + i, wasm_file, env));
        i = i + 1;
    }
    r
}

} // verus!
