//! The on-demand instance allocator: creates the memories and tables of a
//! module, lays out and populates the context, runs segment initialization
//! and hands out fiber stacks.
use vstd::prelude::*;
use crate::errors::{FiberStackError, InstantiationError};
use crate::init::{init_effect, initialize_instance};
use crate::instance::{Instance, VMFunctionImport};
use crate::layout::{alloc_layout, host_pointer_size, layout_of, module_fields, module_offsets};
use crate::module::{MemoryPlan, Module, TablePlan, WASM_PAGE_SIZE};
use crate::signatures::SharedSignatures;
use crate::vmctx::{StoreHook, initialize_vmcontext, signatures_complete, vmcontext_initialized};

verus! {

/// Largest initial size, in pages, of a memory this allocator creates.
pub const MAX_MEMORY_PAGES: u64 = 65536;

/// Largest fiber stack, in bytes, that can be asked for.
pub const MAX_FIBER_STACK_SIZE: usize = 0x7FFF_FFFF;

/// Decides whether memories and tables may be created at a given size.
pub trait ResourceLimiter {
    /// Whether a memory may grow from `current` to `desired` pages.
    fn memory_growing(&mut self, current: u64, desired: u64, maximum: Option<u64>) -> bool;

    /// Whether a table may grow from `current` to `desired` elements.
    fn table_growing(&mut self, current: u32, desired: u32, maximum: Option<u32>) -> bool;
}

/// What an instance takes from outside its module.
#[derive(Clone, Debug)]
pub struct Imports {
    pub functions: Vec<VMFunctionImport>,
    pub tables: Vec<Vec<u128>>,
    pub memories: Vec<Vec<u8>>,
    pub globals: Vec<u128>,
}

/// A request for a new instance.
#[derive(Debug)]
pub struct InstanceAllocationRequest {
    /// The module being instantiated.
    pub module: Module,
    /// The address of the compiled body of each defined function.
    pub finished_functions: Vec<usize>,
    /// The imports to use for the instantiation.
    pub imports: Imports,
    /// The canonical id of each signature index.
    pub shared_signatures: SharedSignatures,
    /// The address at which the instance's context is placed.
    pub context_address: usize,
    /// The store the instance belongs to, if any.
    pub store: Option<StoreHook>,
}

impl InstanceAllocationRequest {
    /// The request is consistent: a valid module, one compiled body per
    /// defined function, one import of each kind per imported entity, and
    /// a canonical id for every signature.
    pub open spec fn wf(&self) -> bool {
        &&& self.module.wf()
        &&& signatures_complete(self.module, self.shared_signatures)
        &&& self.finished_functions.len() == self.module.num_defined_funcs()
        &&& forall|k: int| 0 <= k < self.finished_functions.len() ==> self.finished_functions[k] != 0
        &&& self.imports.functions.len() == self.module.num_imported_funcs
        &&& self.imports.tables.len() == self.module.num_imported_tables
        &&& self.imports.memories.len() == self.module.num_imported_memories
        &&& self.imports.globals.len() == self.module.num_imported_globals
    }
}

/// A new memory of `pages` pages is all zeros.
pub open spec fn zero_memory(pages: u64) -> Seq<u8> {
    Seq::new((pages * WASM_PAGE_SIZE) as nat, |i: int| 0u8)
}

/// A new table of `size` elements is all null.
pub open spec fn null_table(size: u32) -> Seq<u128> {
    Seq::new(size as nat, |i: int| 0u128)
}

/// A memory of the plan's initial size is within this allocator's limit and
/// its length fits in `usize`.
pub open spec fn memory_fits(plan: MemoryPlan) -> bool {
    plan.minimum <= MAX_MEMORY_PAGES && plan.minimum * WASM_PAGE_SIZE <= usize::MAX
}

/// Every defined memory of `module` fits.
pub open spec fn memories_fit(module: Module) -> bool {
    forall|i: int|
        module.num_imported_memories <= i < module.memory_plans.len() ==> memory_fits(
            #[trigger] module.memory_plans[i],
        )
}

pub open spec fn fresh_memories(module: Module) -> Seq<Seq<u8>> {
    module.memory_plans@.subrange(module.num_imported_memories as int, module.memory_plans.len() as int).map_values(
        |p: MemoryPlan| zero_memory(p.minimum),
    )
}

pub open spec fn fresh_tables(module: Module) -> Seq<Seq<u128>> {
    module.table_plans@.subrange(module.num_imported_tables as int, module.table_plans.len() as int).map_values(
        |p: TablePlan| null_table(p.minimum),
    )
}

/// Reborrows the limiter, if any.
pub fn borrow_limiter<L: ResourceLimiter>(limiter: &mut Option<L>) -> (r: Option<&mut L>)
    ensures
        r.is_some() == old(limiter).is_some(),
        r.is_some() ==> *r.unwrap() == old(limiter).unwrap(),
{
    match limiter {
        Some(l) => Some(l),
        None => None,
    }
}

fn new_memory<L: ResourceLimiter>(plan: &MemoryPlan, limiter: &mut Option<L>) -> (r: Result<Vec<u8>, InstantiationError>)
    ensures
        r.is_ok() ==> r->Ok_0@ == zero_memory(plan.minimum) && memory_fits(*plan),
        r.is_err() ==> r->Err_0 is Resource,
        old(limiter).is_none() ==> (r.is_ok() <==> memory_fits(*plan)),
        final(limiter).is_some() == old(limiter).is_some(),
{
    match limiter {
        Some(l) => {
            if !l.memory_growing(0, plan.minimum, plan.maximum) {
                return Err(InstantiationError::Resource(String::from_str("memory minimum size exceeds memory limits")));
            }
        },
        None => {},
    }
    if plan.minimum > MAX_MEMORY_PAGES || plan.minimum * 65536 > usize::MAX as u64 {
        return Err(InstantiationError::Resource(String::from_str("memory minimum size exceeds the allocator's limit")));
    }
    let len: usize = (plan.minimum * 65536) as usize;
    let mut bytes: Vec<u8> = Vec::new();
    let mut i: usize = 0;
    while i < len
        invariant
            i <= len,
            len == plan.minimum * WASM_PAGE_SIZE,
            bytes@ == Seq::new(i as nat, |k: int| 0u8),
        decreases len - i,
    {
        bytes.push(0);
        i += 1;
        assert(bytes@ =~= Seq::new(i as nat, |k: int| 0u8));
    }
    Ok(bytes)
}

fn new_table<L: ResourceLimiter>(plan: &TablePlan, limiter: &mut Option<L>) -> (r: Result<Vec<u128>, InstantiationError>)
    ensures
        r.is_ok() ==> r->Ok_0@ == null_table(plan.minimum),
        r.is_err() ==> r->Err_0 is Resource,
        old(limiter).is_none() ==> r.is_ok(),
        final(limiter).is_some() == old(limiter).is_some(),
{
    match limiter {
        Some(l) => {
            if !l.table_growing(0, plan.minimum, plan.maximum) {
                return Err(InstantiationError::Resource(String::from_str("table minimum size exceeds table limits")));
            }
        },
        None => {},
    }
    let mut elements: Vec<u128> = Vec::new();
    let mut i: u32 = 0;
    while i < plan.minimum
        invariant
            i <= plan.minimum,
            elements@ == Seq::new(i as nat, |k: int| 0u128),
        decreases plan.minimum - i,
    {
        elements.push(0);
        i += 1;
        assert(elements@ =~= Seq::new(i as nat, |k: int| 0u128));
    }
    Ok(elements)
}

#[verifier::external_type_specification]
#[verifier::external_body]
pub struct ExFiberStack(wasmtime_fiber::FiberStack);

/// Maps a new fiber stack.
///
/// Relies on `wasmtime_fiber::FiberStack::new`, which rounds `size` up to
/// whole pages, adds a guard page and maps the memory, or returns the
/// operating system's error. Nothing is claimed of which, as that depends
/// on the machine.
#[verifier::external_body]
fn new_fiber_stack(size: usize) -> (r: Result<wasmtime_fiber::FiberStack, String>)
    requires
        size <= MAX_FIBER_STACK_SIZE,
{
    match wasmtime_fiber::FiberStack::new(size) {
        Ok(stack) => Ok(stack),
        Err(e) => Err(e.to_string()),
    }
}

/// The on-demand instance allocator: it keeps no pools and creates every
/// memory, table and fiber stack when asked.
#[derive(Clone, Debug)]
pub struct OnDemandInstanceAllocator {
    /// Size in bytes of the fiber stacks it hands out; zero for none.
    pub stack_size: usize,
}

impl Default for OnDemandInstanceAllocator {
    fn default() -> (r: Self)
        ensures
            r.stack_size == 0,
    {
        OnDemandInstanceAllocator { stack_size: 0 }
    }
}


impl OnDemandInstanceAllocator {
    /// A new allocator whose fiber stacks have `stack_size` bytes.
    pub fn new(stack_size: usize) -> (r: Self)
        ensures
            r.stack_size == stack_size,
    {
        OnDemandInstanceAllocator { stack_size }
    }

    /// Creates the defined tables of `module`, each full of null elements.
    pub fn create_tables<L: ResourceLimiter>(module: &Module, limiter: &mut Option<L>) -> (r: Result<Vec<Vec<u128>>, InstantiationError>)
        requires
            module.num_imported_tables <= module.table_plans.len(),
        ensures
            r.is_ok() ==> r->Ok_0@.map_values(|t: Vec<u128>| t@) == fresh_tables(*module),
            r.is_err() ==> r->Err_0 is Resource,
            old(limiter).is_none() ==> r.is_ok(),
            final(limiter).is_some() == old(limiter).is_some(),
    {
        let n = module.table_plans.len();
        let mut tables: Vec<Vec<u128>> = Vec::new();
        let mut failure: Option<InstantiationError> = None;
        let mut i: usize = module.num_imported_tables;
        let ghost none = limiter.is_none();
        while i < n && failure.is_none()
            invariant
                module.num_imported_tables <= i <= n,
                n == module.table_plans.len(),
                none == limiter.is_none(),
                none == old(limiter).is_none(),
                failure.is_none() ==> tables.len() == i - module.num_imported_tables,
                failure.is_none() ==> forall|j: int|
                    0 <= j < tables.len() ==> (#[trigger] tables@[j])@ == null_table(module.table_plans[module.num_imported_tables + j].minimum),
                failure.is_some() ==> failure.unwrap() is Resource && !none,
            decreases n - i + (if failure.is_none() { 1int } else { 0int }),
        {
            match new_table(&module.table_plans[i], limiter) {
                Ok(t) => {
                    tables.push(t);
                    i += 1;
                },
                Err(e) => {
                    failure = Some(e);
                },
            }
        }
        proof {
            if failure.is_none() {
                assert(tables@.map_values(|t: Vec<u128>| t@) =~= module.table_plans@.subrange(
                    module.num_imported_tables as int,
                    n as int,
                ).map_values(|p: TablePlan| null_table(p.minimum)));
            }
        }
        match failure {
            Some(e) => Err(e),
            None => Ok(tables),
        }
    }

    /// Creates the defined memories of `module`, each all zeros.
    pub fn create_memories<L: ResourceLimiter>(&self, module: &Module, limiter: &mut Option<L>) -> (r: Result<Vec<Vec<u8>>, InstantiationError>)
        requires
            module.num_imported_memories <= module.memory_plans.len(),
        ensures
            r.is_ok() ==> r->Ok_0@.map_values(|m: Vec<u8>| m@) == fresh_memories(*module) && memories_fit(*module),
            r.is_err() ==> r->Err_0 is Resource,
            old(limiter).is_none() ==> (r.is_ok() <==> memories_fit(*module)),
            final(limiter).is_some() == old(limiter).is_some(),
    {
        let n = module.memory_plans.len();
        let mut memories: Vec<Vec<u8>> = Vec::new();
        let mut failure: Option<InstantiationError> = None;
        let mut i: usize = module.num_imported_memories;
        let ghost none = limiter.is_none();
        while i < n && failure.is_none()
            invariant
                module.num_imported_memories <= i <= n,
                n == module.memory_plans.len(),
                none == limiter.is_none(),
                none == old(limiter).is_none(),
                failure.is_none() ==> memories.len() == i - module.num_imported_memories,
                failure.is_none() ==> forall|j: int|
                    0 <= j < memories.len() ==> (#[trigger] memories@[j])@ == zero_memory(module.memory_plans[module.num_imported_memories + j].minimum),
                failure.is_none() ==> forall|j: int|
                    module.num_imported_memories <= j < i ==> memory_fits(#[trigger] module.memory_plans[j]),
                failure.is_some() ==> failure.unwrap() is Resource,
                failure.is_some() && none ==> !memories_fit(*module),
            decreases n - i + (if failure.is_none() { 1int } else { 0int }),
        {
            match new_memory(&module.memory_plans[i], limiter) {
                Ok(m) => {
                    memories.push(m);
                    i += 1;
                },
                Err(e) => {
                    failure = Some(e);
                },
            }
        }
        proof {
            if failure.is_none() {
                assert(memories@.map_values(|m: Vec<u8>| m@) =~= module.memory_plans@.subrange(
                    module.num_imported_memories as int,
                    n as int,
                ).map_values(|p: MemoryPlan| zero_memory(p.minimum)));
            }
        }
        match failure {
            Some(e) => Err(e),
            None => Ok(memories),
        }
    }

    /// Allocates an instance of `req.module`: creates its memories and
    /// tables, lays out its context and populates it. Segments are applied
    /// later, by `initialize`.
    pub fn allocate<L: ResourceLimiter>(&self, req: InstanceAllocationRequest, limiter: &mut Option<L>) -> (r: Result<Instance, InstantiationError>)
        requires
            req.wf(),
        ensures
            r.is_ok() ==> ({
                let inst = r->Ok_0;
                &&& inst.matches(req.module)
                &&& inst.vmctx == req.context_address
                &&& layout_of(inst.offsets, module_fields(inst.offsets.ptr, req.module))
                &&& inst.memories_view() == req.imports.memories@.map_values(|m: Vec<u8>| m@) + fresh_memories(req.module)
                &&& inst.tables_view() == req.imports.tables@.map_values(|t: Vec<u128>| t@) + fresh_tables(req.module)
                &&& vmcontext_initialized(
                    inst,
                    req.module,
                    req.finished_functions@,
                    req.imports.functions@,
                    req.imports.globals@,
                    req.shared_signatures,
                )
                &&& match req.store {
                    Some(s) => inst.interrupts == s.interrupts
                        && inst.externref_activations_table == s.externref_activations_table
                        && inst.store == Some(s.store),
                    None => inst.store.is_none(),
                }
            }),
            r.is_err() ==> r->Err_0 is Resource,
            old(limiter).is_none() ==> (r.is_ok() <==> memories_fit(req.module)),
    {
        let InstanceAllocationRequest { module, finished_functions, imports, shared_signatures, context_address, store } = req;
        let Imports { functions, tables: imported_tables, memories: imported_memories, globals: imported_globals } = imports;
        let ghost imported_memories_view = imported_memories@.map_values(|m: Vec<u8>| m@);
        let ghost imported_tables_view = imported_tables@.map_values(|t: Vec<u128>| t@);
        let mut created_memories = match self.create_memories(&module, limiter) {
            Ok(m) => m,
            Err(e) => {
                return Err(e);
            },
        };
        let mut created_tables = match Self::create_tables(&module, limiter) {
            Ok(t) => t,
            Err(e) => {
                return Err(e);
            },
        };
        let ghost created_memories_view = created_memories@.map_values(|m: Vec<u8>| m@);
        let ghost created_tables_view = created_tables@.map_values(|t: Vec<u128>| t@);
        let mut memories = imported_memories;
        memories.append(&mut created_memories);
        let mut tables = imported_tables;
        tables.append(&mut created_tables);
        let mut globals: Vec<u128> = Vec::new();
        let mut g: usize = 0;
        while g < module.globals.len()
            invariant
                g <= module.globals.len(),
                imported_globals.len() == module.num_imported_globals,
                module.num_imported_globals <= module.globals.len(),
                globals.len() == g,
                forall|j: int| 0 <= j < g && j < module.num_imported_globals ==> globals@[j] == imported_globals@[j],
            decreases module.globals.len() - g,
        {
            if g < imported_globals.len() {
                globals.push(imported_globals[g]);
            } else {
                globals.push(0);
            }
            g += 1;
        }
        let mut instance = Instance {
            vmctx: context_address,
            offsets: module_offsets(host_pointer_size(), &module),
            memories,
            tables,
            globals,
            signature_ids: Vec::new(),
            imported_functions: Vec::new(),
            anyfuncs: Vec::new(),
            dropped_elements: Vec::new(),
            dropped_data: Vec::new(),
            interrupts: 0,
            externref_activations_table: 0,
            store: None,
        };
        proof {
            assert(instance.memories_view() =~= imported_memories_view + created_memories_view);
            assert(instance.tables_view() =~= imported_tables_view + created_tables_view);
        }
        initialize_vmcontext(
            &mut instance,
            &module,
            &finished_functions,
            &functions,
            &imported_globals,
            &shared_signatures,
            store,
        );
        proof {
            assert forall|i: int|
                module.num_imported_memories <= i < module.memory_plans.len() implies instance.memories[i].len()
                    >= #[trigger] module.memory_plans[i].minimum * WASM_PAGE_SIZE by {
                assert(instance.memories[i]@ == instance.memories_view()[i]);
                assert(memory_fits(module.memory_plans[i]));
            }
        }
        Ok(instance)
    }

    /// Applies the segments of `module` to a freshly allocated instance, as
    /// `init_effect` states.
    pub fn initialize(&self, instance: &mut Instance, module: &Module, is_bulk_memory: bool) -> (r: Result<(), InstantiationError>)
        requires
            old(instance).matches(*module),
        ensures
            ({
                let (t, m, f) = init_effect(
                    old(instance).vmctx,
                    old(instance).offsets,
                    old(instance).tables_view(),
                    old(instance).memories_view(),
                    old(instance).globals@,
                    *module,
                    is_bulk_memory,
                );
                &&& final(instance).tables_view() == t
                &&& final(instance).memories_view() == m
                &&& match f {
                    None => r.is_ok(),
                    Some(f) => r.is_err() && crate::errors::reports(r->Err_0, f),
                }
            }),
            final(instance).globals@ == old(instance).globals@,
            final(instance).vmctx == old(instance).vmctx,
            final(instance).offsets == old(instance).offsets,
    {
        initialize_instance(instance, module, is_bulk_memory)
    }

    /// Releases an instance. The on-demand allocator keeps nothing of it.
    pub fn deallocate(&self, instance: Instance) {
        let _ = instance;
    }

    /// A fiber stack of the configured size; none when that size is zero.
    pub fn allocate_fiber_stack(&self) -> (r: Result<wasmtime_fiber::FiberStack, FiberStackError>)
        ensures
            self.stack_size == 0 <==> (r.is_err() && r->Err_0 is NotSupported),
            self.stack_size > MAX_FIBER_STACK_SIZE ==> (r.is_err() && r->Err_0 is Resource),
            r.is_err() && self.stack_size != 0 ==> r->Err_0 is Resource,
    {
        if self.stack_size == 0 {
            return Err(FiberStackError::NotSupported);
        }
        if self.stack_size > MAX_FIBER_STACK_SIZE {
            return Err(FiberStackError::Resource(String::from_str("fiber stack size exceeds the allocator's limit")));
        }
        match new_fiber_stack(self.stack_size) {
            Ok(stack) => Ok(stack),
            Err(msg) => Err(FiberStackError::Resource(msg)),
        }
    }

    /// Releases a fiber stack; the on-demand allocator keeps no record of it.
    pub fn deallocate_fiber_stack(&self, stack: &wasmtime_fiber::FiberStack) {
        let _ = stack;
    }
}


/// An instance allocator: creates instances, finishes their
/// initialization, releases them and hands out fiber stacks.
pub trait InstanceAllocator {
    /// Checks that the allocator supports `module`.
    fn validate(&self, module: &Module) -> (r: Result<(), String>);

    /// Allocates an instance for the request; segments are applied later.
    fn allocate<L: ResourceLimiter>(&self, req: InstanceAllocationRequest, limiter: &mut Option<L>) -> (r: Result<Instance, InstantiationError>)
        requires
            req.wf(),
        ensures
            r.is_ok() ==> r->Ok_0.matches(req.module) && r->Ok_0.vmctx == req.context_address
                && vmcontext_initialized(
                r->Ok_0,
                req.module,
                req.finished_functions@,
                req.imports.functions@,
                req.imports.globals@,
                req.shared_signatures,
            ),
    ;

    /// Applies the segments of `module` to a freshly allocated instance.
    fn initialize(&self, instance: &mut Instance, module: &Module, is_bulk_memory: bool) -> (r: Result<(), InstantiationError>)
        requires
            old(instance).matches(*module),
        ensures
            ({
                let (t, m, f) = init_effect(
                    old(instance).vmctx,
                    old(instance).offsets,
                    old(instance).tables_view(),
                    old(instance).memories_view(),
                    old(instance).globals@,
                    *module,
                    is_bulk_memory,
                );
                &&& final(instance).tables_view() == t
                &&& final(instance).memories_view() == m
                &&& match f {
                    None => r.is_ok(),
                    Some(f) => r.is_err() && crate::errors::reports(r->Err_0, f),
                }
            }),
    ;

    /// Releases an instance.
    fn deallocate(&self, instance: Instance);

    /// Allocates a fiber stack for calling asynchronous functions on.
    fn allocate_fiber_stack(&self) -> (r: Result<wasmtime_fiber::FiberStack, FiberStackError>);

    /// Releases a stack obtained from `allocate_fiber_stack`.
    fn deallocate_fiber_stack(&self, stack: &wasmtime_fiber::FiberStack);
}

impl InstanceAllocator for OnDemandInstanceAllocator {
    fn validate(&self, module: &Module) -> (r: Result<(), String>) {
        let _ = module;
        Ok(())
    }

    fn allocate<L: ResourceLimiter>(&self, req: InstanceAllocationRequest, limiter: &mut Option<L>) -> (r: Result<Instance, InstantiationError>) {
        OnDemandInstanceAllocator::allocate(self, req, limiter)
    }

    fn initialize(&self, instance: &mut Instance, module: &Module, is_bulk_memory: bool) -> (r: Result<(), InstantiationError>) {
        OnDemandInstanceAllocator::initialize(self, instance, module, is_bulk_memory)
    }

    fn deallocate(&self, instance: Instance) {
        OnDemandInstanceAllocator::deallocate(self, instance)
    }

    fn allocate_fiber_stack(&self) -> (r: Result<wasmtime_fiber::FiberStack, FiberStackError>) {
        OnDemandInstanceAllocator::allocate_fiber_stack(self)
    }

    fn deallocate_fiber_stack(&self, stack: &wasmtime_fiber::FiberStack) {
        OnDemandInstanceAllocator::deallocate_fiber_stack(self, stack)
    }
}

} // verus!
