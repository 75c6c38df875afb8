//! The environment: the loaded modules and their instances.

use crate::compile::{functions_of, function_count, lowered, CompilationError, Compiler};
use crate::module::{Memory, MemoryAddress, Module, ModuleId, ModuleSpec};
use crate::process::Process;
use crate::processor::{invocation, same_program, Processor};
use crate::semantics::all_runnable;
use crate::store::{Store, StoreSpec};
use crate::text::{decimal, decimal_string};
use crate::trap::{Trap, TrapNotFound};
use crate::value::Value;
use crate::wasm::error::WasmParseError;
use crate::wasm::module::WasmModuleSpec;
use crate::wasm::parse::{module_of, WasmParser};
use crate::wasm_source;
use crate::wat_source;
use crate::wat_text::{wat_binary, WatParseError, WatParser};
use vstd::prelude::*;

verus! {

/// Why a module was not loaded: what failed, with its message.
#[derive(Debug, Clone, PartialEq)]
pub enum LoadError {
    CompilationFailed(String),
    NotFound(String),
    WasmParsingFailed(String),
    WatParsingFailed(String),
}

impl LoadError {
    pub fn not_found(reason: String) -> (r: Self)
        ensures
            r == LoadError::NotFound(reason),
    {
        Self::NotFound(reason)
    }

    pub fn compilation_failed(reason: String) -> (r: Self)
        ensures
            r == LoadError::CompilationFailed(reason),
    {
        Self::CompilationFailed(reason)
    }

    pub fn wasm_parsing_failed(reason: String) -> (r: Self)
        ensures
            r == LoadError::WasmParsingFailed(reason),
    {
        Self::WasmParsingFailed(reason)
    }

    pub fn wat_parsing_failed(reason: String) -> (r: Self)
        ensures
            r == LoadError::WatParsingFailed(reason),
    {
        Self::WatParsingFailed(reason)
    }

    /// Whether this error says that decoding failed with `e`.
    pub open spec fn is_parse_failure(self, e: WasmParseError) -> bool {
        self matches LoadError::WasmParsingFailed(reason) && reason@ == e.text()
    }

    /// Whether this error says that lowering failed with `e`.
    pub open spec fn is_compile_failure(self, e: CompilationError) -> bool {
        self matches LoadError::CompilationFailed(reason) && reason@ == e.text()
    }

    /// The message this error is reported with.
    pub fn to_string(&self) -> (r: String)
        ensures
            r@ == match *self {
                LoadError::CompilationFailed(reason) => reason@,
                LoadError::NotFound(reason) => reason@,
                LoadError::WasmParsingFailed(reason) => reason@,
                LoadError::WatParsingFailed(reason) => reason@,
            },
    {
        match self {
            LoadError::CompilationFailed(reason) => reason.clone(),
            LoadError::NotFound(reason) => reason.clone(),
            LoadError::WasmParsingFailed(reason) => reason.clone(),
            LoadError::WatParsingFailed(reason) => reason.clone(),
        }
    }
}

impl From<WatParseError> for LoadError {
    fn from(value: WatParseError) -> (r: LoadError) {
        LoadError::WatParsingFailed(value.0)
    }
}

impl vstd::std_specs::convert::FromSpecImpl<WatParseError> for LoadError {
    open spec fn obeys_from_spec() -> bool {
        true
    }

    open spec fn from_spec(value: WatParseError) -> LoadError {
        LoadError::WatParsingFailed(value.0)
    }
}

impl From<CompilationError> for LoadError {
    fn from(value: CompilationError) -> (r: LoadError)
        ensures
            r.is_compile_failure(value),
    {
        LoadError::CompilationFailed(value.to_string())
    }
}

impl vstd::std_specs::convert::FromSpecImpl<CompilationError> for LoadError {
    open spec fn obeys_from_spec() -> bool {
        false
    }

    open spec fn from_spec(value: CompilationError) -> LoadError {
        arbitrary()
    }
}

impl From<WasmParseError> for LoadError {
    fn from(value: WasmParseError) -> (r: LoadError)
        ensures
            r.is_parse_failure(value),
    {
        LoadError::WasmParsingFailed(value.to_string())
    }
}

impl vstd::std_specs::convert::FromSpecImpl<WasmParseError> for LoadError {
    open spec fn obeys_from_spec() -> bool {
        false
    }

    open spec fn from_spec(value: WasmParseError) -> LoadError {
        arbitrary()
    }
}

/// What an operation of the environment fails with.
#[derive(Debug, Clone, PartialEq)]
pub enum EnvironmentError {
    LoadError(LoadError),
    Trapped(Trap),
}

impl EnvironmentError {
    /// Whether this error says that decoding failed with `e`.
    pub open spec fn is_parse_failure(self, e: WasmParseError) -> bool {
        self matches EnvironmentError::LoadError(error) && error.is_parse_failure(e)
    }

    /// Whether this error says that lowering failed with `e`.
    pub open spec fn is_compile_failure(self, e: CompilationError) -> bool {
        self matches EnvironmentError::LoadError(error) && error.is_compile_failure(e)
    }

    /// Whether this error says that a text was refused.
    pub open spec fn is_text_failure(self) -> bool {
        self matches EnvironmentError::LoadError(error) && error is WatParsingFailed
    }
}

impl From<LoadError> for EnvironmentError {
    fn from(value: LoadError) -> (r: EnvironmentError) {
        EnvironmentError::LoadError(value)
    }
}

impl vstd::std_specs::convert::FromSpecImpl<LoadError> for EnvironmentError {
    open spec fn obeys_from_spec() -> bool {
        true
    }

    open spec fn from_spec(value: LoadError) -> EnvironmentError {
        EnvironmentError::LoadError(value)
    }
}

impl From<Trap> for EnvironmentError {
    fn from(value: Trap) -> (r: EnvironmentError) {
        EnvironmentError::Trapped(value)
    }
}

impl vstd::std_specs::convert::FromSpecImpl<Trap> for EnvironmentError {
    open spec fn obeys_from_spec() -> bool {
        true
    }

    open spec fn from_spec(value: Trap) -> EnvironmentError {
        EnvironmentError::Trapped(value)
    }
}

/// A module at work: a process with its own memories.
#[derive(Debug)]
pub struct Instance {
    pub processor: Processor,
    pub process: Process,
}

impl Instance {
    /// The process is sound.
    pub open spec fn wf(&self) -> bool {
        self.process.wf()
    }

    /// Calls the function exported as `name` with the arguments `args` and
    /// hands back its results.
    pub fn invoke(&mut self, name: &str, args: &[Value]) -> (r: Result<Vec<Value>, Trap>)
        requires
            old(self).wf(),
        ensures
            final(self).wf(),
            same_program(old(self).process, final(self).process),
            invocation(old(self).process, final(self).process, name@, args@, r),
    {
        self.processor.invoke(&mut self.process, name, args)
    }

    /// The memory at `idx`.
    pub fn memory(&self, idx: MemoryAddress) -> (r: Result<&Memory, Trap>)
        ensures
            match r {
                Ok(m) => idx < self.process.state.memories@.len() && *m
                    == self.process.state.memories@[idx as int],
                Err(t) => idx >= self.process.state.memories@.len() && t == Trap::NotFound(
                    TrapNotFound::Memory(idx),
                ),
            },
    {
        self.process.state.memory(idx)
    }
}

/// Every function that lowering gives can be run.
pub proof fn lemma_lowered_runnable(id: ModuleId, wasm: WasmModuleSpec)
    ensures
        lowered(id, wasm) matches Ok(module) ==> all_runnable(module.functions),
{
    lemma_functions_runnable(wasm, function_count(wasm));
}

proof fn lemma_functions_runnable(wasm: WasmModuleSpec, n: nat)
    ensures
        functions_of(wasm, n) matches Ok(functions) ==> all_runnable(functions),
    decreases n,
{
    if n > 0 {
        lemma_functions_runnable(wasm, (n - 1) as nat);
    }
}

/// The loaded modules and the instances made of them.
#[derive(Debug)]
pub struct Environment {
    pub compiler: Compiler,
    pub processor: Processor,
    pub modules: Vec<Module>,
    pub instances: Vec<Instance>,
}

impl Default for Environment {
    fn default() -> (r: Self)
        ensures
            r.wf(),
            r.modules@.len() == 0,
            r.instances@.len() == 0,
    {
        Self {
            compiler: Compiler::default(),
            processor: Processor::default(),
            modules: Vec::new(),
            instances: Vec::new(),
        }
    }
}

/// Whether the error is the trap for a module that the environment does not
/// hold.
pub open spec fn is_missing_module(e: EnvironmentError, id: ModuleId) -> bool {
    e matches EnvironmentError::Trapped(Trap::NotFound(TrapNotFound::Module(name))) && name@
        == decimal(id as nat)
}

/// What loading a binary gives.
pub enum Loaded {
    /// The bytes are no binary that the decoder takes.
    Refused(WasmParseError),
    /// The decoded module has no executable form.
    Failed(CompilationError),
    /// The module in executable form.
    Module(ModuleSpec),
}

/// What loading the binary `bytes` into an environment that holds `count`
/// modules gives: the bytes are decoded, and the decoded module is lowered
/// with `count` as its id. Where `count` is no id any more, the load fails.
pub open spec fn loaded(count: nat, bytes: Seq<u8>) -> Loaded {
    match module_of(bytes) {
        Err(e) => Loaded::Refused(e),
        Ok(wasm) => if count > ModuleId::MAX {
            Loaded::Failed(CompilationError::NoModuleId)
        } else {
            match lowered(count as ModuleId, wasm) {
                Err(e) => Loaded::Failed(e),
                Ok(module) => Loaded::Module(module),
            }
        },
    }
}

/// Whether `after` and `r` are what loading the binary `bytes` makes of the
/// environment `before`: the module is added behind the others and its id,
/// the number of modules before it, is returned; or the error is returned
/// and the modules are as they were. The instances are as they were.
pub open spec fn load_outcome(before: Environment, after: Environment, bytes: Seq<u8>, r: Result<
    ModuleId,
    LoadError,
>) -> bool {
    &&& after.instances == before.instances
    &&& match loaded(before.modules@.len(), bytes) {
        Loaded::Refused(e) => r is Err && r->Err_0.is_parse_failure(e) && after.modules
            == before.modules,
        Loaded::Failed(e) => r is Err && r->Err_0.is_compile_failure(e) && after.modules
            == before.modules,
        Loaded::Module(module) => {
            &&& r == Ok::<ModuleId, LoadError>(before.modules@.len() as ModuleId)
            &&& after.modules@.len() == before.modules@.len() + 1
            &&& after.modules@.last()@ == module
            &&& after.modules@.drop_last() == before.modules@
        },
    }
}

/// Whether `after` and `r` are what loading the text `text` makes of the
/// environment `before`: the text is turned into a binary, and the binary is
/// loaded.
pub open spec fn load_text_outcome(before: Environment, after: Environment, text: Seq<char>, r: Result<
    ModuleId,
    LoadError,
>) -> bool {
    match wat_binary(text) {
        None => r is Err && r->Err_0 is WatParsingFailed && after.modules == before.modules
            && after.instances == before.instances,
        Some(bytes) => load_outcome(before, after, bytes, r),
    }
}

/// Whether the modules of `after` are those of `before`, with the module
/// that was loaded behind them where one was.
pub open spec fn modules_after(before: Environment, after: Environment, l: Loaded) -> bool {
    match l {
        Loaded::Module(module) => {
            &&& after.modules@.len() == before.modules@.len() + 1
            &&& after.modules@.last()@ == module
            &&& after.modules@.drop_last() == before.modules@
        },
        _ => after.modules == before.modules,
    }
}

/// Whether `e` is the error for a binary that could not be loaded: it was
/// refused, or it could not be lowered.
pub open spec fn spawn_failure(l: Loaded, e: EnvironmentError) -> bool {
    match l {
        Loaded::Refused(refusal) => e.is_parse_failure(refusal),
        Loaded::Failed(failure) => e.is_compile_failure(failure),
        Loaded::Module(_) => false,
    }
}

/// The store of a fresh instance of `module`.
pub open spec fn store_of(module: ModuleSpec) -> StoreSpec {
    StoreSpec { functions: module.functions, exports: module.exports, memories: module.memories }
}

/// Whether `instance` is a fresh instance of `module`: its stack is empty
/// and its store holds what the module holds.
pub open spec fn fresh(instance: Instance, module: ModuleSpec) -> bool {
    &&& instance.wf()
    &&& instance.process.stack@ == Seq::<Value>::empty()
    &&& instance.process.state@ == store_of(module)
}

impl Environment {
    /// Every function of every module can be run, and every instance is
    /// sound.
    pub open spec fn wf(&self) -> bool {
        &&& forall|i: int|
            0 <= i < self.modules@.len() ==> all_runnable((#[trigger] self.modules@[i])@.functions)
        &&& forall|i: int| 0 <= i < self.instances@.len() ==> (#[trigger] self.instances@[i]).wf()
    }

    /// Decodes and lowers a binary and keeps the module. Its id is the
    /// number of modules loaded before it.
    pub fn load_wasm(&mut self, bytes: &[u8]) -> (r: Result<ModuleId, LoadError>)
        requires
            old(self).wf(),
        ensures
            final(self).wf(),
            load_outcome(*old(self), *final(self), bytes@, r),
    {
        let wasm = match WasmParser::parse(bytes) {
            Ok(wasm) => wasm,
            Err(e) => {
                return Err(LoadError::from(e));
            },
        };
        if self.modules.len() > ModuleId::MAX as usize {
            return Err(LoadError::from(CompilationError::NoModuleId));
        }
        let module_id = self.modules.len() as ModuleId;
        let module = match self.compiler.compile(module_id, &wasm) {
            Ok(module) => module,
            Err(e) => {
                return Err(LoadError::from(e));
            },
        };
        proof {
            lemma_lowered_runnable(module_id, wasm@);
        }
        let ghost before = self.modules@;
        self.modules.push(module);
        assert(self.modules@.drop_last() =~= before);
        Ok(module_id)
    }

    /// Loads a module given in the text format.
    pub fn load_wat(&mut self, text: &str) -> (r: Result<ModuleId, LoadError>)
        requires
            old(self).wf(),
        ensures
            final(self).wf(),
            load_text_outcome(*old(self), *final(self), text@, r),
    {
        match WatParser::parse_str(text) {
            Ok(bytes) => self.load_wasm(bytes.as_slice()),
            Err(e) => Err(LoadError::from(e)),
        }
    }

    /// Calls the function exported as `name` of the instance made last.
    pub fn invoke(&mut self, name: &str, args: &[Value]) -> (r: Result<Vec<Value>, Trap>)
        requires
            old(self).wf(),
            old(self).instances@.len() > 0,
        ensures
            final(self).wf(),
            final(self).modules == old(self).modules,
            final(self).instances@.len() == old(self).instances@.len(),
            final(self).instances@.drop_last() == old(self).instances@.drop_last(),
            invocation(
                old(self).instances@.last().process,
                final(self).instances@.last().process,
                name@,
                args@,
                r,
            ),
    {
        let len = self.instances.len();
        let ghost before = self.instances@;
        let r = self.instances[len - 1].invoke(name, args);
        assert(self.instances@.drop_last() =~= before.drop_last());
        r
    }

    /// Makes an instance of the module `id` and hands it out. Without such
    /// a module the trap names it.
    pub fn instantiate(&mut self, id: ModuleId) -> (r: Result<&mut Instance, EnvironmentError>)
        requires
            old(self).wf(),
        ensures
            instantiate_outcome(
                *old(self),
                *final(self),
                id,
                match r {
                    Ok(instance) => Ok((*instance, *final(instance))),
                    Err(e) => Err(e),
                },
            ),
    {
        let at = self.add_instance(id)?;
        let ghost made = self.instances@;
        let instance = self.instance(at);
        assert(made.update(at as int, *final(instance)) =~= made.drop_last().push(*final(instance)));
        Ok(instance)
    }

    /// Makes an instance of the module `id` and hands back its position
    /// among the instances.
    fn add_instance(&mut self, id: ModuleId) -> (r: Result<usize, EnvironmentError>)
        requires
            old(self).wf(),
        ensures
            final(self).wf(),
            final(self).modules == old(self).modules,
            match r {
                Ok(at) => {
                    &&& id < old(self).modules@.len()
                    &&& at == old(self).instances@.len()
                    &&& final(self).instances@.len() == at + 1
                    &&& final(self).instances@.drop_last() == old(self).instances@
                    &&& fresh(final(self).instances@[at as int], old(self).modules@[id as int]@)
                },
                Err(e) => id >= old(self).modules@.len() && final(self).instances == old(
                    self,
                ).instances && is_missing_module(e, id),
            },
    {
        if id as usize >= self.modules.len() {
            return Err(
                EnvironmentError::Trapped(
                    Trap::NotFound(TrapNotFound::Module(decimal_string(id as u64))),
                ),
            );
        }
        let state = match Store::new(&self.modules[id as usize]) {
            Ok(state) => state,
            Err(_) => {
                assert(false);
                return Err(
                    EnvironmentError::Trapped(
                        Trap::NotFound(TrapNotFound::Module(decimal_string(id as u64))),
                    ),
                );
            },
        };
        let instance = Instance { processor: Processor::default(), process: Process::new(state) };
        let ghost before = self.instances@;
        self.instances.push(instance);
        assert(self.instances@.drop_last() =~= before);
        Ok(self.instances.len() - 1)
    }

    /// The instance at the position `at`.
    pub fn instance(&mut self, at: usize) -> (r: &mut Instance)
        requires
            at < old(self).instances@.len(),
        ensures
            *r == old(self).instances@[at as int],
            final(self).instances@ == old(self).instances@.update(at as int, *final(r)),
            final(self).modules == old(self).modules,
    {
        &mut self.instances[at]
    }
}

/// Loading of modules in the binary format.
pub trait LoadWasm<SOURCE>: Sized {
    /// Whether modules can be loaded.
    spec fn sound(&self) -> bool;

    /// Whether `after` and `r` are what loading `source` makes of `before`.
    spec fn outcome(before: Self, after: Self, source: SOURCE, r: Result<ModuleId, LoadError>) -> bool;

    /// Loads the module that `source` gives and hands back its id.
    fn load(&mut self, source: SOURCE) -> (r: Result<ModuleId, LoadError>)
        requires
            old(self).sound(),
        ensures
            final(self).sound(),
            Self::outcome(*old(self), *final(self), source, r),
    ;
}

/// Loading of modules in the text format.
pub trait LoadWat<SOURCE>: Sized {
    /// Whether modules can be loaded.
    spec fn sound(&self) -> bool;

    /// Whether `after` and `r` are what loading `source` makes of `before`.
    spec fn outcome(before: Self, after: Self, source: SOURCE, r: Result<ModuleId, LoadError>) -> bool;

    /// Loads the module that `source` gives and hands back its id.
    fn load(&mut self, source: SOURCE) -> (r: Result<ModuleId, LoadError>)
        requires
            old(self).sound(),
        ensures
            final(self).sound(),
            Self::outcome(*old(self), *final(self), source, r),
    ;
}

/// What making an instance gives: the instance as it is handed out and as
/// the caller leaves it, or the error.
pub type Spawned = Result<(Instance, Instance), EnvironmentError>;

/// Making an instance of a loaded module.
pub trait Spawn: Sized {
    /// Whether instances can be made.
    spec fn sound(&self) -> bool;

    /// Whether `after` and `r` are what making an instance of the module
    /// `id` makes of `before`.
    spec fn outcome(before: Self, after: Self, id: ModuleId, r: Spawned) -> bool;

    /// Makes an instance of the module `id`.
    fn spawn(&mut self, id: ModuleId) -> (r: Result<&mut Instance, EnvironmentError>)
        requires
            old(self).sound(),
        ensures
            Self::outcome(
                *old(self),
                *final(self),
                id,
                match r {
                    Ok(instance) => Ok((*instance, *final(instance))),
                    Err(e) => Err(e),
                },
            ),
    ;
}

/// Loading a module in the binary format and making an instance of it.
pub trait SpawnWasm<SOURCE>: Sized {
    /// Whether instances can be made.
    spec fn sound(&self) -> bool;

    /// Whether `after` and `r` are what loading `source` and making an
    /// instance of it makes of `before`.
    spec fn outcome(before: Self, after: Self, source: SOURCE, r: Spawned) -> bool;

    /// Loads the module that `source` gives and makes an instance of it.
    fn spawn(&mut self, source: SOURCE) -> (r: Result<&mut Instance, EnvironmentError>)
        requires
            old(self).sound(),
        ensures
            Self::outcome(
                *old(self),
                *final(self),
                source,
                match r {
                    Ok(instance) => Ok((*instance, *final(instance))),
                    Err(e) => Err(e),
                },
            ),
    ;
}

/// Loading a module in the text format and making an instance of it.
pub trait SpawnWat<SOURCE>: Sized {
    /// Whether instances can be made.
    spec fn sound(&self) -> bool;

    /// Whether `after` and `r` are what loading `source` and making an
    /// instance of it makes of `before`.
    spec fn outcome(before: Self, after: Self, source: SOURCE, r: Spawned) -> bool;

    /// Loads the module that `source` gives and makes an instance of it.
    fn spawn(&mut self, source: SOURCE) -> (r: Result<&mut Instance, EnvironmentError>)
        requires
            old(self).sound(),
        ensures
            Self::outcome(
                *old(self),
                *final(self),
                source,
                match r {
                    Ok(instance) => Ok((*instance, *final(instance))),
                    Err(e) => Err(e),
                },
            ),
    ;
}

/// Whether `after` and `r` are what loading the binary `bytes` and making
/// an instance of it makes of `before`: the module is added, and an
/// instance of it, fresh when it is handed out, stands behind the other
/// instances as the caller leaves it.
pub open spec fn spawn_outcome(before: Environment, after: Environment, bytes: Seq<u8>, r: Spawned) -> bool {
    let l = loaded(before.modules@.len(), bytes);
    &&& modules_after(before, after, l)
    &&& match r {
        Ok((handed, left)) => {
            &&& l is Module
            &&& fresh(handed, l->Module_0)
            &&& after.instances@ == before.instances@.push(left)
        },
        Err(e) => spawn_failure(l, e) && after.instances == before.instances,
    }
}

/// Whether `after` and `r` are what making an instance of the module `id`
/// makes of `before`: an instance of that module, fresh when it is handed
/// out, stands behind the other instances as the caller leaves it; without
/// such a module the error names it and nothing changes.
pub open spec fn instantiate_outcome(before: Environment, after: Environment, id: ModuleId, r: Spawned) -> bool {
    &&& after.modules == before.modules
    &&& match r {
        Ok((handed, left)) => {
            &&& id < before.modules@.len()
            &&& fresh(handed, before.modules@[id as int]@)
            &&& after.instances@ == before.instances@.push(left)
        },
        Err(e) => id >= before.modules@.len() && after.instances == before.instances
            && is_missing_module(e, id),
    }
}

impl LoadWasm<wasm_source::Bytes> for Environment {
    open spec fn sound(&self) -> bool {
        self.wf()
    }

    open spec fn outcome(before: Self, after: Self, source: wasm_source::Bytes, r: Result<
        ModuleId,
        LoadError,
    >) -> bool {
        load_outcome(before, after, source.view(), r)
    }

    fn load(&mut self, source: wasm_source::Bytes) -> (r: Result<ModuleId, LoadError>) {
        self.load_wasm(source.as_ref())
    }
}

impl LoadWasm<wat_source::String> for Environment {
    open spec fn sound(&self) -> bool {
        self.wf()
    }

    open spec fn outcome(before: Self, after: Self, source: wat_source::String, r: Result<
        ModuleId,
        LoadError,
    >) -> bool {
        load_text_outcome(before, after, source.view(), r)
    }

    fn load(&mut self, source: wat_source::String) -> (r: Result<ModuleId, LoadError>) {
        self.load_wat(source.as_ref())
    }
}

impl LoadWat<wat_source::String> for Environment {
    open spec fn sound(&self) -> bool {
        self.wf()
    }

    open spec fn outcome(before: Self, after: Self, source: wat_source::String, r: Result<
        ModuleId,
        LoadError,
    >) -> bool {
        load_text_outcome(before, after, source.view(), r)
    }

    fn load(&mut self, source: wat_source::String) -> (r: Result<ModuleId, LoadError>) {
        self.load_wat(source.as_ref())
    }
}

impl Spawn for Environment {
    open spec fn sound(&self) -> bool {
        self.wf()
    }

    open spec fn outcome(before: Self, after: Self, id: ModuleId, r: Spawned) -> bool {
        instantiate_outcome(before, after, id, r)
    }

    fn spawn(&mut self, id: ModuleId) -> (r: Result<&mut Instance, EnvironmentError>) {
        self.instantiate(id)
    }
}

impl SpawnWasm<wasm_source::Bytes> for Environment {
    open spec fn sound(&self) -> bool {
        self.wf()
    }

    open spec fn outcome(before: Self, after: Self, source: wasm_source::Bytes, r: Spawned) -> bool {
        spawn_outcome(before, after, source.view(), r)
    }

    fn spawn(&mut self, source: wasm_source::Bytes) -> (r: Result<&mut Instance, EnvironmentError>) {
        let id = match self.load_wasm(source.as_ref()) {
            Ok(id) => id,
            Err(e) => {
                return Err(EnvironmentError::LoadError(e));
            },
        };
        self.instantiate(id)
    }
}

impl SpawnWat<wat_source::String> for Environment {
    open spec fn sound(&self) -> bool {
        self.wf()
    }

    open spec fn outcome(before: Self, after: Self, source: wat_source::String, r: Spawned) -> bool {
        match wat_binary(source.view()) {
            None => r is Err && r->Err_0.is_text_failure() && after.modules == before.modules
                && after.instances == before.instances,
            Some(bytes) => spawn_outcome(before, after, bytes, r),
        }
    }

    fn spawn(&mut self, source: wat_source::String) -> (r: Result<&mut Instance, EnvironmentError>) {
        let id = match self.load_wat(source.as_ref()) {
            Ok(id) => id,
            Err(e) => {
                return Err(EnvironmentError::LoadError(e));
            },
        };
        self.instantiate(id)
    }
}

} // verus!
