//! The directory of an instance: its functions, exports and memories.

use crate::module::{copy_exports, copy_functions, copy_memories, export_specs, function_specs, memory_specs, Export, ExportSpec, Function, FunctionAddress, FunctionSpec, Memory, MemoryAddress, MemorySpec, Module};
use crate::semantics::find_export;
use crate::text::{decimal, decimal_string, prefixed};
use crate::trap::{Trap, TrapNotFound};
use vstd::prelude::*;

verus! {

#[derive(Debug, Clone, PartialEq)]
pub enum StoreError {
    NotFoundFunction(String),
    NotFoundMemory(MemoryAddress),
    NotFoundModule(String),
    NotFoundTypes,
}

impl StoreError {
    pub open spec fn text(self) -> Seq<char> {
        match self {
            StoreError::NotFoundFunction(name) => "Function not found: "@ + name@,
            StoreError::NotFoundModule(name) => "Module not found: "@ + name@,
            StoreError::NotFoundMemory(addr) => "Memory not found: "@ + decimal(addr as nat),
            StoreError::NotFoundTypes => "Types not found"@,
        }
    }

    /// The message this error is reported with.
    pub fn to_string(&self) -> (r: String)
        ensures
            r@ == self.text(),
    {
        match self {
            StoreError::NotFoundFunction(name) => prefixed("Function not found: ", name.as_str()),
            StoreError::NotFoundModule(name) => prefixed("Module not found: ", name.as_str()),
            StoreError::NotFoundMemory(addr) => prefixed(
                "Memory not found: ",
                decimal_string(*addr as u64).as_str(),
            ),
            StoreError::NotFoundTypes => "Types not found".to_owned(),
        }
    }
}

/// What a store holds, as plain values.
pub struct StoreSpec {
    pub functions: Seq<FunctionSpec>,
    pub exports: Seq<ExportSpec>,
    pub memories: Seq<MemorySpec>,
}

/// The functions, exports and memories of one instance. The memories are
/// the instance's own.
#[derive(Debug)]
pub struct Store {
    pub functions: Vec<Function>,
    pub exports: Vec<Export>,
    pub memories: Vec<Memory>,
}

pub type ProcessState = Store;

pub type ProcessStateError = StoreError;

impl View for Store {
    type V = StoreSpec;

    open spec fn view(&self) -> StoreSpec {
        StoreSpec {
            functions: function_specs(self.functions@),
            exports: export_specs(self.exports@),
            memories: memory_specs(self.memories@),
        }
    }
}

/// The first export named `name` is found by going through the exports in
/// order.
proof fn lemma_find_export_skip(exports: Seq<ExportSpec>, name: Seq<char>, from: int)
    requires
        0 <= from <= exports.len(),
        forall|j: int| 0 <= j < from ==> exports[j].name != name,
    ensures
        find_export(exports, name) == match find_export(exports.subrange(from, exports.len() as int), name) {
            Some(i) => Some(i + from),
            None => None,
        },
    decreases from,
{
    if from == 0 {
        assert(exports.subrange(0, exports.len() as int) =~= exports);
    } else {
        let rest = exports.drop_first();
        lemma_find_export_skip(rest, name, from - 1);
        assert(rest.subrange(from - 1, rest.len() as int) =~= exports.subrange(
            from,
            exports.len() as int,
        ));
    }
}

impl Store {
    /// A store with copies of what the module holds.
    pub fn new(module: &Module) -> (r: Result<Self, StoreError>)
        ensures
            r is Ok,
            r->Ok_0@ == (StoreSpec {
                functions: module@.functions,
                exports: module@.exports,
                memories: module@.memories,
            }),
    {
        Ok(
            Self {
                functions: copy_functions(&module.functions),
                exports: copy_exports(&module.exports),
                memories: copy_memories(&module.memories),
            },
        )
    }

    /// The function at `addr`.
    pub fn function(&self, addr: FunctionAddress) -> (r: Result<&Function, Trap>)
        ensures
            match r {
                Ok(f) => addr < self.functions@.len() && *f == self.functions@[addr as int],
                Err(t) => addr >= self.functions@.len() && t == Trap::NotFound(
                    TrapNotFound::FunctionLocal(addr),
                ),
            },
    {
        if (addr as usize) < self.functions.len() {
            Ok(&self.functions[addr as usize])
        } else {
            Err(Trap::NotFound(TrapNotFound::FunctionLocal(addr)))
        }
    }

    /// The first export named `name`.
    pub fn export(&self, name: &str) -> (r: Result<&Export, Trap>)
        ensures
            match r {
                Ok(e) => find_export(self@.exports, name@) is Some && *e == self.exports@[find_export(
                    self@.exports,
                    name@,
                )->Some_0],
                Err(t) => find_export(self@.exports, name@) is None && t.is_missing_export(name@),
            },
    {
        let wanted = name.to_owned();
        let mut i: usize = 0;
        while i < self.exports.len()
            invariant
                i <= self.exports.len(),
                wanted@ == name@,
                forall|j: int| 0 <= j < i ==> self@.exports[j].name != name@,
            decreases self.exports.len() - i,
        {
            if self.exports[i].name == wanted {
                proof {
                    lemma_find_export_skip(self@.exports, name@, i as int);
                }
                return Ok(&self.exports[i]);
            }
            i += 1;
        }
        proof {
            lemma_find_export_skip(self@.exports, name@, i as int);
        }
        Err(Trap::NotFound(TrapNotFound::ExportedFunction(wanted)))
    }

    /// The memory at `addr`.
    pub fn memory(&self, addr: MemoryAddress) -> (r: Result<&Memory, Trap>)
        ensures
            match r {
                Ok(m) => addr < self.memories@.len() && *m == self.memories@[addr as int],
                Err(t) => addr >= self.memories@.len() && t == Trap::NotFound(
                    TrapNotFound::Memory(addr),
                ),
            },
    {
        if (addr as usize) < self.memories.len() {
            Ok(&self.memories[addr as usize])
        } else {
            Err(Trap::NotFound(TrapNotFound::Memory(addr)))
        }
    }
}

} // verus!
