//! The compiled module as the runtime sees it: types, functions, plans for
//! memories and tables, globals and the segments that fill them.
use vstd::prelude::*;
use crate::abi::WasmType;
use crate::layout::MAX_ENTITIES;

verus! {

/// Size in bytes of one WebAssembly page.
pub const WASM_PAGE_SIZE: u64 = 65536;

/// A type declared by the module.
#[derive(Clone, Copy, Debug, PartialEq, Eq, Structural)]
pub enum ModuleType {
    /// A function type, by its signature index.
    Function(u32),
    /// Any other kind of type (module or instance types).
    Other,
}

#[derive(Clone, Copy, Debug, PartialEq, Eq, Structural)]
pub struct MemoryPlan {
    /// Initial size, in pages.
    pub minimum: u64,
    /// Largest size, in pages, if bounded.
    pub maximum: Option<u64>,
    /// Whether addresses into the memory are 64 bits wide.
    pub memory64: bool,
}

#[derive(Clone, Copy, Debug, PartialEq, Eq, Structural)]
pub struct TablePlan {
    /// Initial number of elements.
    pub minimum: u32,
    /// Largest number of elements, if bounded.
    pub maximum: Option<u32>,
}

/// The constant expression that gives a global its first value.
#[derive(Clone, Copy, Debug, PartialEq, Eq, Structural)]
pub enum GlobalInit {
    I32Const(i32),
    I64Const(i64),
    /// The bits of a 32-bit float.
    F32Const(u32),
    /// The bits of a 64-bit float.
    F64Const(u64),
    V128Const(u128),
    /// The value of another global, by its index.
    GetGlobal(u32),
    /// A reference to a function, by its index.
    RefFunc(u32),
    RefNullConst,
    /// Marks an imported global; never the initializer of a defined one.
    Import,
}

#[derive(Clone, Copy, Debug, PartialEq, Eq, Structural)]
pub struct Global {
    pub wasm_ty: WasmType,
    pub initializer: GlobalInit,
}

/// An element segment: function indices written into a table.
#[derive(Clone, Debug)]
pub struct TableInitializer {
    pub table_index: u32,
    /// A global whose value is added to `offset`.
    pub base: Option<u32>,
    pub offset: u32,
    pub elements: Vec<u32>,
}

/// A data segment: bytes written into a memory.
#[derive(Clone, Debug)]
pub struct MemoryInitializer {
    pub memory_index: u32,
    /// A global whose value is added to `offset`.
    pub base: Option<u32>,
    pub offset: u64,
    pub data: Vec<u8>,
}

/// The precomputed pages of one defined memory; page `i` of the list, if
/// present, is copied to byte `i * WASM_PAGE_SIZE`.
#[derive(Clone, Debug)]
pub struct PagedMemory {
    pub defined_index: u32,
    pub pages: Vec<Option<Vec<u8>>>,
}

/// How the memories of an instance are filled.
#[derive(Clone, Debug)]
pub enum MemoryInitialization {
    /// The data segments, applied in order.
    Segmented(Vec<MemoryInitializer>),
    /// Whole pages precomputed from the segments; `out_of_bounds` records that
    /// some segment did not fit.
    Paged { map: Vec<PagedMemory>, out_of_bounds: bool },
}

/// A compiled module. Entities of each kind are numbered imports first.
#[derive(Clone, Debug)]
pub struct Module {
    pub types: Vec<ModuleType>,
    /// The signature index of each function.
    pub functions: Vec<u32>,
    pub num_imported_funcs: usize,
    pub num_imported_tables: usize,
    pub num_imported_memories: usize,
    pub num_imported_globals: usize,
    pub memory_plans: Vec<MemoryPlan>,
    pub table_plans: Vec<TablePlan>,
    pub globals: Vec<Global>,
    pub table_initializers: Vec<TableInitializer>,
    pub memory_initialization: MemoryInitialization,
    /// Defined-function indices whose reference may leave the module.
    pub possibly_exported_funcs: Vec<u32>,
    pub passive_elements: usize,
    pub passive_data: usize,
}

impl Module {
    pub open spec fn num_defined_funcs(&self) -> int {
        self.functions.len() - self.num_imported_funcs
    }

    pub open spec fn num_defined_memories(&self) -> int {
        self.memory_plans.len() - self.num_imported_memories
    }

    pub open spec fn num_defined_tables(&self) -> int {
        self.table_plans.len() - self.num_imported_tables
    }

    pub open spec fn is_defined_func(&self, index: int) -> bool {
        self.num_imported_funcs <= index < self.functions.len()
    }

    pub open spec fn escapes(&self, defined: int) -> bool {
        exists|k: int|
            0 <= k < self.possibly_exported_funcs.len() && self.possibly_exported_funcs[k]
                == defined
    }

    pub open spec fn global_init_ok(&self, g: int) -> bool {
        match self.globals[g].initializer {
            GlobalInit::GetGlobal(x) => x < g,
            GlobalInit::RefFunc(f) => f < self.functions.len(),
            GlobalInit::Import => false,
            GlobalInit::RefNullConst => self.globals[g].wasm_ty == WasmType::FuncRef
                || self.globals[g].wasm_ty == WasmType::ExternRef,
            _ => true,
        }
    }

    pub open spec fn memory_init_ok(&self, init: MemoryInitializer) -> bool {
        &&& init.memory_index < self.memory_plans.len()
        &&& init.data.len() <= u32::MAX
        &&& match init.base {
            Some(b) => b < self.globals.len(),
            None => true,
        }
    }

    /// The pages lie within the memory's initial size, each a full page.
    pub open spec fn paged_ok(&self, p: PagedMemory) -> bool {
        &&& p.defined_index < self.num_defined_memories()
        &&& p.pages.len() <= self.memory_plans[self.num_imported_memories + p.defined_index].minimum
        &&& forall|i: int|
            0 <= i < p.pages.len() && (#[trigger] p.pages[i]).is_some() ==> p.pages[i].unwrap().len()
                == WASM_PAGE_SIZE
    }

    /// Well-formedness, as validation leaves a module: counts within limits,
    /// imports first, every index in range, and each defined global given by
    /// a constant expression over earlier globals.
    pub open spec fn wf(&self) -> bool {
        &&& self.types.len() <= MAX_ENTITIES
        &&& self.functions.len() <= MAX_ENTITIES
        &&& self.memory_plans.len() <= MAX_ENTITIES
        &&& self.table_plans.len() <= MAX_ENTITIES
        &&& self.globals.len() <= MAX_ENTITIES
        &&& self.num_imported_funcs <= self.functions.len()
        &&& self.num_imported_tables <= self.table_plans.len()
        &&& self.num_imported_memories <= self.memory_plans.len()
        &&& self.num_imported_globals <= self.globals.len()
        &&& forall|g: int|
            self.num_imported_globals <= g < self.globals.len() ==> #[trigger] self.global_init_ok(g)
        &&& forall|k: int|
            0 <= k < self.table_initializers.len() ==> {
                let init = #[trigger] self.table_initializers[k];
                &&& init.table_index < self.table_plans.len()
                &&& init.elements.len() <= u32::MAX
                &&& forall|e: int|
                    0 <= e < init.elements.len() ==> #[trigger] init.elements[e]
                        < self.functions.len()
                &&& match init.base {
                    Some(b) => b < self.globals.len(),
                    None => true,
                }
            }
        &&& match self.memory_initialization {
            MemoryInitialization::Segmented(inits) => forall|k: int|
                0 <= k < inits.len() ==> self.memory_init_ok(#[trigger] inits[k]),
            MemoryInitialization::Paged { map, .. } => forall|k: int|
                0 <= k < map.len() ==> self.paged_ok(#[trigger] map[k]),
        }
    }

    /// The defined index of function `index`, if it is not imported.
    pub fn defined_func_index(&self, index: usize) -> (r: Option<usize>)
        requires
            self.num_imported_funcs <= self.functions.len(),
            index < self.functions.len(),
        ensures
            r == (if self.is_defined_func(index as int) {
                Some((index - self.num_imported_funcs) as usize)
            } else {
                None::<usize>
            }),
    {
        if index < self.num_imported_funcs {
            None
        } else {
            Some(index - self.num_imported_funcs)
        }
    }

    /// Whether the defined function `defined` may escape its module.
    pub fn is_possibly_exported(&self, defined: usize) -> (r: bool)
        ensures
            r == self.escapes(defined as int),
    {
        let mut k: usize = 0;
        while k < self.possibly_exported_funcs.len()
            invariant
                k <= self.possibly_exported_funcs.len(),
                forall|j: int| 0 <= j < k ==> self.possibly_exported_funcs[j] != defined,
            decreases self.possibly_exported_funcs.len() - k,
        {
            if self.possibly_exported_funcs[k] as usize == defined {
                return true;
            }
            k += 1;
        }
        false
    }
}

} // verus!
