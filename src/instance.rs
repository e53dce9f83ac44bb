//! A runtime instance: its context image and the segment initializer that
//! fills its tables and memories.
use vstd::prelude::*;
use crate::errors::{InitFailure, InstantiationError, TrapCode, failure_error, reports};
use crate::layout::VMOffsets;
use crate::module::{MemoryInitialization, MemoryInitializer, Module, PagedMemory, TableInitializer, WASM_PAGE_SIZE};

verus! {

/// A first-class function reference: code, canonical type and context.
#[derive(Clone, Copy, Debug, PartialEq, Eq, Structural)]
pub struct Anyfunc {
    pub func_ptr: usize,
    pub type_index: u32,
    pub vmctx: usize,
}

/// An imported function: its code and the context of the instance owning it.
#[derive(Clone, Copy, Debug, PartialEq, Eq, Structural)]
pub struct VMFunctionImport {
    pub body: usize,
    pub vmctx: usize,
}

/// An instance. Entities of each kind are numbered imports first; imported
/// tables, memories and globals hold the contents the imports provided.
/// Table elements and reference globals hold function-reference addresses,
/// zero for null.
#[derive(Debug)]
pub struct Instance {
    /// Address of this instance's context.
    pub vmctx: usize,
    pub offsets: VMOffsets,
    pub memories: Vec<Vec<u8>>,
    pub tables: Vec<Vec<u128>>,
    pub globals: Vec<u128>,
    pub signature_ids: Vec<u32>,
    pub imported_functions: Vec<VMFunctionImport>,
    pub anyfuncs: Vec<Anyfunc>,
    pub dropped_elements: Vec<bool>,
    pub dropped_data: Vec<bool>,
    pub interrupts: usize,
    pub externref_activations_table: usize,
    pub store: Option<usize>,
}

/// `mem` with `data` written from position `start` on.
pub open spec fn write_at<T>(mem: Seq<T>, start: int, data: Seq<T>) -> Seq<T> {
    Seq::new(mem.len(), |i: int| if start <= i < start + data.len() { data[i - start] } else { mem[i] })
}

pub open spec fn low_u32(v: u128) -> int {
    v as int % 0x1_0000_0000
}

pub open spec fn low_u64(v: u128) -> int {
    v as int % 0x1_0000_0000_0000_0000
}

/// Address of the function reference of function `f` in the context.
pub open spec fn anyfunc_addr(vmctx: usize, offsets: VMOffsets, f: int) -> int {
    vmctx + offsets.anyfuncs + f * (3 * offsets.ptr)
}

impl Instance {
    pub open spec fn memories_view(&self) -> Seq<Seq<u8>> {
        self.memories@.map_values(|m: Vec<u8>| m@)
    }

    pub open spec fn tables_view(&self) -> Seq<Seq<u128>> {
        self.tables@.map_values(|t: Vec<u128>| t@)
    }

    /// The instance holds every table, memory and global of `module`.
    pub open spec fn matches(&self, module: Module) -> bool {
        &&& module.wf()
        &&& self.memories.len() == module.memory_plans.len()
        &&& self.tables.len() == module.table_plans.len()
        &&& self.globals.len() == module.globals.len()
        &&& self.offsets.ptr == 4 || self.offsets.ptr == 8
        &&& forall|i: int|
            module.num_imported_memories <= i < module.memory_plans.len() ==> self.memories[i].len()
                >= #[trigger] module.memory_plans[i].minimum * WASM_PAGE_SIZE
    }
}

/// Where an element segment starts, or `None` where adding the base
/// global's value to the offset overflows 32 bits.
pub open spec fn elem_start(globals: Seq<u128>, init: TableInitializer) -> Option<int> {
    match init.base {
        None => Some(init.offset as int),
        Some(b) => {
            let s = init.offset + low_u32(globals[b as int]);
            if s <= u32::MAX { Some(s) } else { None }
        },
    }
}

/// Where a data segment starts, or `None` where adding the base global's
/// value to the offset overflows the width of the memory's addresses: 32
/// bits, or 64 for a 64-bit memory. The global is read at that width.
pub open spec fn data_start(module: Module, globals: Seq<u128>, init: MemoryInitializer) -> Option<int> {
    match init.base {
        None => Some(init.offset as int),
        Some(b) => {
            let g = globals[b as int];
            let mem64 = module.memory_plans[init.memory_index as int].memory64;
            let v = if mem64 { low_u64(g) } else { low_u32(g) };
            let max = if mem64 { u64::MAX as int } else { u32::MAX as int };
            if init.offset + v <= max { Some(init.offset + v) } else { None }
        },
    }
}

/// The first element segment that fails the bounds check, before any write.
pub open spec fn check_elems(tables: Seq<Seq<u128>>, globals: Seq<u128>, inits: Seq<TableInitializer>) -> Option<InitFailure>
    decreases inits.len(),
{
    if inits.len() == 0 {
        None
    } else {
        match check_elems(tables, globals, inits.drop_last()) {
            Some(f) => Some(f),
            None => {
                let init = inits.last();
                match elem_start(globals, init) {
                    None => Some(InitFailure::ElementBaseOverflow),
                    Some(s) => if s + init.elements.len() <= tables[init.table_index as int].len() {
                        None
                    } else {
                        Some(InitFailure::ElementsDoNotFit)
                    },
                }
            },
        }
    }
}

/// The addresses of the function references that a segment's elements name.
pub open spec fn elem_values(vmctx: usize, offsets: VMOffsets, elements: Seq<u32>) -> Seq<u128> {
    elements.map_values(|f: u32| anyfunc_addr(vmctx, offsets, f as int) as u128)
}

/// Element segments applied in order; the first that fails stops the rest,
/// the writes before it stay.
pub open spec fn apply_elems(
    vmctx: usize,
    offsets: VMOffsets,
    tables: Seq<Seq<u128>>,
    globals: Seq<u128>,
    inits: Seq<TableInitializer>,
) -> (Seq<Seq<u128>>, Option<InitFailure>)
    decreases inits.len(),
{
    if inits.len() == 0 {
        (tables, None)
    } else {
        let (t, f) = apply_elems(vmctx, offsets, tables, globals, inits.drop_last());
        if f.is_some() {
            (t, f)
        } else {
            let init = inits.last();
            let i = init.table_index as int;
            match elem_start(globals, init) {
                None => (t, Some(InitFailure::ElementBaseOverflow)),
                Some(s) => if s + init.elements.len() <= t[i].len() {
                    (t.update(i, write_at(t[i], s, elem_values(vmctx, offsets, init.elements@))), None)
                } else {
                    (t, Some(InitFailure::Trapped(TrapCode::TableOutOfBounds)))
                },
            }
        }
    }
}

/// The first data segment that fails the bounds check, before any write.
pub open spec fn check_data(module: Module, mems: Seq<Seq<u8>>, globals: Seq<u128>, inits: Seq<MemoryInitializer>) -> Option<InitFailure>
    decreases inits.len(),
{
    if inits.len() == 0 {
        None
    } else {
        match check_data(module, mems, globals, inits.drop_last()) {
            Some(f) => Some(f),
            None => {
                let init = inits.last();
                match data_start(module, globals, init) {
                    None => Some(InitFailure::DataBaseOverflow),
                    Some(s) => if s + init.data.len() <= mems[init.memory_index as int].len() {
                        None
                    } else {
                        Some(InitFailure::DataDoesNotFit)
                    },
                }
            },
        }
    }
}

/// Data segments applied in order; the first that fails stops the rest, the
/// writes before it stay.
pub open spec fn apply_data(module: Module, mems: Seq<Seq<u8>>, globals: Seq<u128>, inits: Seq<MemoryInitializer>) -> (Seq<Seq<u8>>, Option<InitFailure>)
    decreases inits.len(),
{
    if inits.len() == 0 {
        (mems, None)
    } else {
        let (m, f) = apply_data(module, mems, globals, inits.drop_last());
        if f.is_some() {
            (m, f)
        } else {
            let init = inits.last();
            let i = init.memory_index as int;
            match data_start(module, globals, init) {
                None => (m, Some(InitFailure::DataBaseOverflow)),
                Some(s) => if s + init.data.len() <= m[i].len() {
                    (m.update(i, write_at(m[i], s, init.data@)), None)
                } else {
                    (m, Some(InitFailure::Trapped(TrapCode::HeapOutOfBounds)))
                },
            }
        }
    }
}

fn read_low_u32(v: u128) -> (r: u32)
    ensures
        r == low_u32(v),
{
    (v % 0x1_0000_0000) as u32
}

fn read_low_u64(v: u128) -> (r: u64)
    ensures
        r == low_u64(v),
{
    (v % 0x1_0000_0000_0000_0000) as u64
}

/// Where an element segment starts.
pub fn get_table_init_start(init: &TableInitializer, instance: &Instance) -> (r: Result<u32, InstantiationError>)
    requires
        init.base.is_some() ==> init.base.unwrap() < instance.globals.len(),
    ensures
        match elem_start(instance.globals@, *init) {
            Some(s) => r == Ok::<u32, InstantiationError>(s as u32),
            None => r.is_err() && reports(r->Err_0, InitFailure::ElementBaseOverflow),
        },
{
    match init.base {
        Some(base) => {
            let val = read_low_u32(instance.globals[base as usize]);
            match init.offset.checked_add(val) {
                Some(s) => Ok(s),
                None => Err(failure_error(InitFailure::ElementBaseOverflow)),
            }
        },
        None => Ok(init.offset),
    }
}

/// Where a data segment starts.
pub fn get_memory_init_start(init: &MemoryInitializer, instance: &Instance, module: &Module) -> (r: Result<u64, InstantiationError>)
    requires
        init.memory_index < module.memory_plans.len(),
        init.base.is_some() ==> init.base.unwrap() < instance.globals.len(),
    ensures
        match data_start(*module, instance.globals@, *init) {
            Some(s) => r == Ok::<u64, InstantiationError>(s as u64),
            None => r.is_err() && reports(r->Err_0, InitFailure::DataBaseOverflow),
        },
{
    match init.base {
        Some(base) => {
            let global = instance.globals[base as usize];
            let mem64 = module.memory_plans[init.memory_index as usize].memory64;
            let val = if mem64 { read_low_u64(global) } else { read_low_u32(global) as u64 };
            let max: u64 = if mem64 { u64::MAX } else { 0xFFFF_FFFF };
            if init.offset as u128 + val as u128 <= max as u128 {
                Ok(init.offset + val)
            } else {
                Err(failure_error(InitFailure::DataBaseOverflow))
            }
        },
        None => Ok(init.offset),
    }
}


proof fn lemma_prefix_drop_last<T>(s: Seq<T>, k: int)
    requires
        0 <= k < s.len(),
    ensures
        s.subrange(0, k + 1).drop_last() =~= s.subrange(0, k),
        s.subrange(0, k + 1).last() == s[k],
{
}

proof fn lemma_check_elems_prefix(tables: Seq<Seq<u128>>, globals: Seq<u128>, inits: Seq<TableInitializer>, k: int)
    requires
        0 <= k <= inits.len(),
        check_elems(tables, globals, inits.subrange(0, k)).is_some(),
    ensures
        check_elems(tables, globals, inits) == check_elems(tables, globals, inits.subrange(0, k)),
    decreases inits.len(),
{
    if k == inits.len() {
        assert(inits.subrange(0, k) =~= inits);
    } else {
        assert(inits.drop_last().subrange(0, k) =~= inits.subrange(0, k));
        lemma_check_elems_prefix(tables, globals, inits.drop_last(), k);
    }
}

proof fn lemma_check_data_prefix(module: Module, mems: Seq<Seq<u8>>, globals: Seq<u128>, inits: Seq<MemoryInitializer>, k: int)
    requires
        0 <= k <= inits.len(),
        check_data(module, mems, globals, inits.subrange(0, k)).is_some(),
    ensures
        check_data(module, mems, globals, inits) == check_data(module, mems, globals, inits.subrange(0, k)),
    decreases inits.len(),
{
    if k == inits.len() {
        assert(inits.subrange(0, k) =~= inits);
    } else {
        assert(inits.drop_last().subrange(0, k) =~= inits.subrange(0, k));
        lemma_check_data_prefix(module, mems, globals, inits.drop_last(), k);
    }
}

proof fn lemma_apply_elems_prefix(vmctx: usize, offsets: VMOffsets, tables: Seq<Seq<u128>>, globals: Seq<u128>, inits: Seq<TableInitializer>, k: int)
    requires
        0 <= k <= inits.len(),
        apply_elems(vmctx, offsets, tables, globals, inits.subrange(0, k)).1.is_some(),
    ensures
        apply_elems(vmctx, offsets, tables, globals, inits) == apply_elems(vmctx, offsets, tables, globals, inits.subrange(0, k)),
    decreases inits.len(),
{
    if k == inits.len() {
        assert(inits.subrange(0, k) =~= inits);
    } else {
        assert(inits.drop_last().subrange(0, k) =~= inits.subrange(0, k));
        lemma_apply_elems_prefix(vmctx, offsets, tables, globals, inits.drop_last(), k);
    }
}

pub proof fn lemma_apply_data_prefix(module: Module, mems: Seq<Seq<u8>>, globals: Seq<u128>, inits: Seq<MemoryInitializer>, k: int)
    requires
        0 <= k <= inits.len(),
        apply_data(module, mems, globals, inits.subrange(0, k)).1.is_some(),
    ensures
        apply_data(module, mems, globals, inits) == apply_data(module, mems, globals, inits.subrange(0, k)),
    decreases inits.len(),
{
    if k == inits.len() {
        assert(inits.subrange(0, k) =~= inits);
    } else {
        assert(inits.drop_last().subrange(0, k) =~= inits.subrange(0, k));
        lemma_apply_data_prefix(module, mems, globals, inits.drop_last(), k);
    }
}

/// Checks every element segment against the current table sizes, in order.
pub fn check_table_init_bounds(instance: &Instance, module: &Module) -> (r: Result<(), InstantiationError>)
    requires
        instance.matches(*module),
    ensures
        match check_elems(instance.tables_view(), instance.globals@, module.table_initializers@) {
            None => r.is_ok(),
            Some(f) => r.is_err() && reports(r->Err_0, f),
        },
{
    let ghost inits = module.table_initializers@;
    let mut k: usize = 0;
    while k < module.table_initializers.len()
        invariant
            k <= inits.len(),
            inits == module.table_initializers@,
            instance.matches(*module),
            check_elems(instance.tables_view(), instance.globals@, inits.subrange(0, k as int)).is_none(),
        decreases inits.len() - k,
    {
        proof {
            lemma_prefix_drop_last(inits, k as int);
        }
        let init = &module.table_initializers[k];
        let start = get_table_init_start(init, instance);
        match start {
            Err(e) => {
                proof {
                    let sub = inits.subrange(0, k + 1);
                    assert(sub.drop_last() == inits.subrange(0, k as int));
                    assert(sub.last() == *init);
                    lemma_check_elems_prefix(instance.tables_view(), instance.globals@, inits, k + 1);
                }
                return Err(e);
            },
            Ok(start) => {
                let table = &instance.tables[init.table_index as usize];
                assert(instance.tables_view()[init.table_index as int] == table@);
                let fits = start as u128 + init.elements.len() as u128 <= table.len() as u128;
                if !fits {
                    proof {
                        let sub = inits.subrange(0, k + 1);
                        assert(sub.drop_last() == inits.subrange(0, k as int));
                        assert(check_elems(instance.tables_view(), instance.globals@, sub.drop_last()).is_none());
                        assert(sub.last() == *init);
                        assert(elem_start(instance.globals@, *init) == Some(start as int));
                        assert(start + init.elements.len() > instance.tables_view()[init.table_index as int].len());
                        assert(check_elems(instance.tables_view(), instance.globals@, sub).is_some());
                        lemma_check_elems_prefix(instance.tables_view(), instance.globals@, inits, k + 1);
                    }
                    return Err(failure_error(InitFailure::ElementsDoNotFit));
                }
            },
        }
        k += 1;
    }
    proof {
        assert(inits.subrange(0, k as int) =~= inits);
    }
    Ok(())
}

/// Checks every data segment against the current memory sizes, in order.
pub fn check_memory_init_bounds(instance: &Instance, module: &Module, initializers: &Vec<MemoryInitializer>) -> (r: Result<(), InstantiationError>)
    requires
        instance.matches(*module),
        forall|k: int| 0 <= k < initializers.len() ==> module.memory_init_ok(#[trigger] initializers[k]),
    ensures
        match check_data(*module, instance.memories_view(), instance.globals@, initializers@) {
            None => r.is_ok(),
            Some(f) => r.is_err() && reports(r->Err_0, f),
        },
{
    let ghost inits = initializers@;
    let mut k: usize = 0;
    while k < initializers.len()
        invariant
            k <= inits.len(),
            inits == initializers@,
            instance.matches(*module),
            forall|j: int| 0 <= j < initializers.len() ==> module.memory_init_ok(#[trigger] initializers[j]),
            check_data(*module, instance.memories_view(), instance.globals@, inits.subrange(0, k as int)).is_none(),
        decreases inits.len() - k,
    {
        proof {
            lemma_prefix_drop_last(inits, k as int);
        }
        let init = &initializers[k];
        assert(module.memory_init_ok(*init));
        let start = get_memory_init_start(init, instance, module);
        match start {
            Err(e) => {
                proof {
                    let sub = inits.subrange(0, k + 1);
                    assert(sub.drop_last() == inits.subrange(0, k as int));
                    assert(sub.last() == *init);
                    lemma_check_data_prefix(*module, instance.memories_view(), instance.globals@, inits, k + 1);
                }
                return Err(e);
            },
            Ok(start) => {
                let memory = &instance.memories[init.memory_index as usize];
                assert(instance.memories_view()[init.memory_index as int] == memory@);
                let fits = start as u128 + init.data.len() as u128 <= memory.len() as u128;
                if !fits {
                    proof {
                        let sub = inits.subrange(0, k + 1);
                        assert(sub.drop_last() == inits.subrange(0, k as int));
                        assert(sub.last() == *init);
                        assert(check_data(*module, instance.memories_view(), instance.globals@, sub).is_some());
                        lemma_check_data_prefix(*module, instance.memories_view(), instance.globals@, inits, k + 1);
                    }
                    return Err(failure_error(InitFailure::DataDoesNotFit));
                }
            },
        }
        k += 1;
    }
    proof {
        assert(inits.subrange(0, k as int) =~= inits);
    }
    Ok(())
}

/// Writes `data` into `mem` from position `start` on.
fn write_bytes(mem: &mut Vec<u8>, start: usize, data: &Vec<u8>)
    requires
        start + data.len() <= old(mem).len(),
    ensures
        final(mem)@ == write_at(old(mem)@, start as int, data@),
{
    let ghost orig = mem@;
    let mut j: usize = 0;
    while j < data.len()
        invariant
            j <= data.len(),
            start + data.len() <= orig.len(),
            mem.len() == orig.len(),
            forall|i: int| 0 <= i < orig.len() ==> #[trigger] mem@[i] == if start <= i < start + j {
                data@[i - start]
            } else {
                orig[i]
            },
        decreases data.len() - j,
    {
        mem.set(start + j, data[j]);
        j += 1;
    }
    proof {
        assert(mem@ =~= write_at(orig, start as int, data@));
    }
}

/// Address of the function reference of function `f`.
pub(crate) fn anyfunc_address(instance: &Instance, f: u32) -> (r: u128)
    requires
        instance.offsets.ptr == 4 || instance.offsets.ptr == 8,
    ensures
        r == anyfunc_addr(instance.vmctx, instance.offsets, f as int),
{
    let size: u128 = 3 * (instance.offsets.ptr as u128);
    assert((f as u128) * size <= 0xFFFF_FFFF * 24) by (nonlinear_arith)
        requires size <= 24;
    instance.vmctx as u128 + instance.offsets.anyfuncs as u128 + (f as u128) * size
}

/// Writes the function references of `elements` into `table` from `start` on.
fn write_elements(instance: &Instance, table: &mut Vec<u128>, start: usize, elements: &Vec<u32>)
    requires
        start + elements.len() <= old(table).len(),
        instance.offsets.ptr == 4 || instance.offsets.ptr == 8,
    ensures
        final(table)@ == write_at(old(table)@, start as int, elem_values(instance.vmctx, instance.offsets, elements@)),
{
    let ghost orig = table@;
    let ghost vals = elem_values(instance.vmctx, instance.offsets, elements@);
    let mut j: usize = 0;
    while j < elements.len()
        invariant
            j <= elements.len(),
            start + elements.len() <= orig.len(),
            instance.offsets.ptr == 4 || instance.offsets.ptr == 8,
            vals == elem_values(instance.vmctx, instance.offsets, elements@),
            table.len() == orig.len(),
            forall|i: int| 0 <= i < orig.len() ==> #[trigger] table@[i] == if start <= i < start + j {
                vals[i - start]
            } else {
                orig[i]
            },
        decreases elements.len() - j,
    {
        let a = anyfunc_address(instance, elements[j]);
        table.set(start + j, a);
        j += 1;
    }
    proof {
        assert(table@ =~= write_at(orig, start as int, vals));
    }
}

/// Applies the element segments in order; a segment that does not fit traps
/// and leaves the writes before it in place.
pub fn initialize_tables(instance: &mut Instance, module: &Module) -> (r: Result<(), InstantiationError>)
    requires
        old(instance).matches(*module),
    ensures
        ({
            let (t, f) = apply_elems(
                old(instance).vmctx,
                old(instance).offsets,
                old(instance).tables_view(),
                old(instance).globals@,
                module.table_initializers@,
            );
            &&& final(instance).tables_view() == t
            &&& match f {
                None => r.is_ok(),
                Some(f) => r.is_err() && reports(r->Err_0, f),
            }
        }),
        final(instance).memories@ == old(instance).memories@,
        final(instance).globals@ == old(instance).globals@,
        final(instance).vmctx == old(instance).vmctx,
        final(instance).offsets == old(instance).offsets,
        final(instance).tables.len() == old(instance).tables.len(),
{
    let ghost inits = module.table_initializers@;
    let ghost t0 = instance.tables_view();
    let ghost vmctx = instance.vmctx;
    let ghost offsets = instance.offsets;
    let ghost globals = instance.globals@;
    let n = module.table_initializers.len();
    let mut result: Result<(), InstantiationError> = Ok(());
    let mut k: usize = 0;
    while k < n && result.is_ok()
        invariant
            k <= inits.len(),
            n == inits.len(),
            inits == module.table_initializers@,
            module.wf(),
            instance.tables.len() == module.table_plans.len(),
            instance.globals.len() == module.globals.len(),
            instance.offsets.ptr == 4 || instance.offsets.ptr == 8,
            vmctx == instance.vmctx,
            offsets == instance.offsets,
            instance.memories@ == old(instance).memories@,
            globals == instance.globals@,
            t0 == old(instance).tables_view(),
            vmctx == old(instance).vmctx,
            offsets == old(instance).offsets,
            globals == old(instance).globals@,
            result.is_ok() ==> apply_elems(vmctx, offsets, t0, globals, inits.subrange(0, k as int))
                == (instance.tables_view(), None::<InitFailure>),
            result.is_err() ==> ({
                let (t, f) = apply_elems(vmctx, offsets, t0, globals, inits);
                t == instance.tables_view() && f.is_some() && reports(result->Err_0, f.unwrap())
            }),
        decreases inits.len() - k,
    {
        proof {
            lemma_prefix_drop_last(inits, k as int);
        }
        let init = &module.table_initializers[k];
        let ghost sub = inits.subrange(0, k + 1);
        assert(sub.drop_last() == inits.subrange(0, k as int));
        assert(sub.last() == *init);
        match get_table_init_start(init, instance) {
            Err(e) => {
                proof {
                    lemma_apply_elems_prefix(vmctx, offsets, t0, globals, inits, k + 1);
                }
                result = Err(e);
                k = n;
            },
            Ok(start) => {
                let idx = init.table_index as usize;
                assert(instance.tables_view()[idx as int] == instance.tables[idx as int]@);
                if start as u128 + init.elements.len() as u128 <= instance.tables[idx].len() as u128 {
                    let ghost before = instance.tables_view();
                    let mut table: Vec<u128> = Vec::new();
                    instance.tables.set_and_swap(idx, &mut table);
                    write_elements(instance, &mut table, start as usize, &init.elements);
                    instance.tables.set_and_swap(idx, &mut table);
                    proof {
                        assert(instance.tables_view() =~= before.update(
                            idx as int,
                            write_at(before[idx as int], start as int, elem_values(vmctx, offsets, init.elements@)),
                        ));
                    }
                    k += 1;
                } else {
                    proof {
                        lemma_apply_elems_prefix(vmctx, offsets, t0, globals, inits, k + 1);
                    }
                    result = Err(failure_error(InitFailure::Trapped(TrapCode::TableOutOfBounds)));
                    k = n;
                }
            },
        }
    }
    proof {
        if result.is_ok() {
            assert(inits.subrange(0, k as int) =~= inits);
        }
    }
    result
}

/// Applies the data segments in order; a segment that does not fit traps and
/// leaves the writes before it in place.
pub fn initialize_memories(instance: &mut Instance, module: &Module, initializers: &Vec<MemoryInitializer>) -> (r: Result<(), InstantiationError>)
    requires
        old(instance).matches(*module),
        forall|k: int| 0 <= k < initializers.len() ==> module.memory_init_ok(#[trigger] initializers[k]),
    ensures
        ({
            let (m, f) = apply_data(*module, old(instance).memories_view(), old(instance).globals@, initializers@);
            &&& final(instance).memories_view() == m
            &&& match f {
                None => r.is_ok(),
                Some(f) => r.is_err() && reports(r->Err_0, f),
            }
        }),
        final(instance).tables@ == old(instance).tables@,
        final(instance).globals@ == old(instance).globals@,
        final(instance).vmctx == old(instance).vmctx,
        final(instance).offsets == old(instance).offsets,
        final(instance).memories.len() == old(instance).memories.len(),
{
    let ghost inits = initializers@;
    let ghost m0 = instance.memories_view();
    let ghost globals = instance.globals@;
    let n = initializers.len();
    let mut result: Result<(), InstantiationError> = Ok(());
    let mut k: usize = 0;
    while k < n && result.is_ok()
        invariant
            k <= inits.len(),
            n == inits.len(),
            inits == initializers@,
            forall|j: int| 0 <= j < initializers.len() ==> module.memory_init_ok(#[trigger] initializers[j]),
            module.wf(),
            instance.memories.len() == module.memory_plans.len(),
            instance.globals.len() == module.globals.len(),
            instance.tables@ == old(instance).tables@,
            instance.vmctx == old(instance).vmctx,
            instance.offsets == old(instance).offsets,
            globals == instance.globals@,
            globals == old(instance).globals@,
            m0 == old(instance).memories_view(),
            result.is_ok() ==> apply_data(*module, m0, globals, inits.subrange(0, k as int))
                == (instance.memories_view(), None::<InitFailure>),
            result.is_err() ==> ({
                let (m, f) = apply_data(*module, m0, globals, inits);
                m == instance.memories_view() && f.is_some() && reports(result->Err_0, f.unwrap())
            }),
        decreases inits.len() - k,
    {
        proof {
            lemma_prefix_drop_last(inits, k as int);
        }
        let init = &initializers[k];
        assert(module.memory_init_ok(*init));
        let ghost sub = inits.subrange(0, k + 1);
        assert(sub.drop_last() == inits.subrange(0, k as int));
        assert(sub.last() == *init);
        match get_memory_init_start(init, instance, module) {
            Err(e) => {
                proof {
                    lemma_apply_data_prefix(*module, m0, globals, inits, k + 1);
                }
                result = Err(e);
                k = n;
            },
            Ok(start) => {
                let idx = init.memory_index as usize;
                assert(instance.memories_view()[idx as int] == instance.memories[idx as int]@);
                if start as u128 + init.data.len() as u128 <= instance.memories[idx].len() as u128 {
                    let ghost before = instance.memories_view();
                    let mut mem: Vec<u8> = Vec::new();
                    instance.memories.set_and_swap(idx, &mut mem);
                    write_bytes(&mut mem, start as usize, &init.data);
                    instance.memories.set_and_swap(idx, &mut mem);
                    proof {
                        assert(instance.memories_view() =~= before.update(
                            idx as int,
                            write_at(before[idx as int], start as int, init.data@),
                        ));
                    }
                    k += 1;
                } else {
                    proof {
                        lemma_apply_data_prefix(*module, m0, globals, inits, k + 1);
                    }
                    result = Err(failure_error(InitFailure::Trapped(TrapCode::HeapOutOfBounds)));
                    k = n;
                }
            },
        }
    }
    proof {
        if result.is_ok() {
            assert(inits.subrange(0, k as int) =~= inits);
        }
    }
    result
}


/// `mem` with each present page copied to its place, in order.
pub open spec fn copy_pages(mem: Seq<u8>, pages: Seq<Option<Vec<u8>>>) -> Seq<u8>
    decreases pages.len(),
{
    if pages.len() == 0 {
        mem
    } else {
        let m = copy_pages(mem, pages.drop_last());
        match pages.last() {
            Some(data) => write_at(m, (pages.len() - 1) * WASM_PAGE_SIZE, data@),
            None => m,
        }
    }
}

/// The memories after every paged image has been copied, in order.
pub open spec fn apply_pages(mems: Seq<Seq<u8>>, num_imported: int, map: Seq<PagedMemory>) -> Seq<Seq<u8>>
    decreases map.len(),
{
    if map.len() == 0 {
        mems
    } else {
        let m = apply_pages(mems, num_imported, map.drop_last());
        let p = map.last();
        let i = num_imported + p.defined_index;
        m.update(i, copy_pages(m[i], p.pages@))
    }
}

proof fn lemma_copy_pages_len(mem: Seq<u8>, pages: Seq<Option<Vec<u8>>>)
    ensures
        copy_pages(mem, pages).len() == mem.len(),
    decreases pages.len(),
{
    if pages.len() > 0 {
        lemma_copy_pages_len(mem, pages.drop_last());
    }
}

fn copy_pages_into(mem: &mut Vec<u8>, pages: &Vec<Option<Vec<u8>>>)
    requires
        pages.len() * WASM_PAGE_SIZE <= old(mem).len(),
        forall|i: int|
            0 <= i < pages.len() && (#[trigger] pages[i]).is_some() ==> pages[i].unwrap().len()
                == WASM_PAGE_SIZE,
    ensures
        final(mem)@ == copy_pages(old(mem)@, pages@),
{
    let ghost orig = mem@;
    let mut j: usize = 0;
    while j < pages.len()
        invariant
            j <= pages.len(),
            pages.len() * WASM_PAGE_SIZE <= orig.len(),
            forall|i: int|
                0 <= i < pages.len() && (#[trigger] pages[i]).is_some() ==> pages[i].unwrap().len()
                    == WASM_PAGE_SIZE,
            mem@ == copy_pages(orig, pages@.subrange(0, j as int)),
            mem.len() == orig.len(),
        decreases pages.len() - j,
    {
        proof {
            lemma_prefix_drop_last(pages@, j as int);
            lemma_copy_pages_len(orig, pages@.subrange(0, j + 1));
            assert((j + 1) * WASM_PAGE_SIZE <= pages.len() * WASM_PAGE_SIZE) by (nonlinear_arith)
                requires j + 1 <= pages.len();
        }
        match &pages[j] {
            Some(data) => {
                let start = j * 65536;
                write_bytes(mem, start, data);
            },
            None => {},
        }
        j += 1;
    }
    proof {
        assert(pages@.subrange(0, j as int) =~= pages@);
    }
}

/// Copies the precomputed pages of each listed memory into place.
pub fn initialize_paged(instance: &mut Instance, module: &Module, map: &Vec<PagedMemory>)
    requires
        old(instance).matches(*module),
        forall|k: int| 0 <= k < map.len() ==> module.paged_ok(#[trigger] map[k]),
    ensures
        final(instance).memories_view() == apply_pages(
            old(instance).memories_view(),
            module.num_imported_memories as int,
            map@,
        ),
        final(instance).tables@ == old(instance).tables@,
        final(instance).globals@ == old(instance).globals@,
        final(instance).vmctx == old(instance).vmctx,
        final(instance).offsets == old(instance).offsets,
        final(instance).memories.len() == old(instance).memories.len(),
{
    let ghost m0 = instance.memories_view();
    let nim = module.num_imported_memories;
    let mut k: usize = 0;
    while k < map.len()
        invariant
            k <= map.len(),
            nim == module.num_imported_memories,
            forall|j: int| 0 <= j < map.len() ==> module.paged_ok(#[trigger] map[j]),
            module.wf(),
            instance.memories.len() == module.memory_plans.len(),
            forall|i: int|
                module.num_imported_memories <= i < module.memory_plans.len() ==> instance.memories[i].len()
                    >= #[trigger] module.memory_plans[i].minimum * WASM_PAGE_SIZE,
            instance.tables@ == old(instance).tables@,
            instance.globals@ == old(instance).globals@,
            instance.vmctx == old(instance).vmctx,
            instance.offsets == old(instance).offsets,
            m0 == old(instance).memories_view(),
            instance.memories_view() == apply_pages(m0, nim as int, map@.subrange(0, k as int)),
        decreases map.len() - k,
    {
        proof {
            lemma_prefix_drop_last(map@, k as int);
        }
        let p = &map[k];
        assert(module.paged_ok(*p));
        let idx = nim + p.defined_index as usize;
        let ghost minimum = module.memory_plans[idx as int].minimum;
        assert(p.pages.len() * WASM_PAGE_SIZE <= minimum * WASM_PAGE_SIZE) by (nonlinear_arith)
            requires p.pages.len() <= minimum;
        assert(instance.memories_view()[idx as int] == instance.memories[idx as int]@);
        let ghost before = instance.memories_view();
        let ghost before_vecs = instance.memories@;
        let mut mem: Vec<u8> = Vec::new();
        instance.memories.set_and_swap(idx, &mut mem);
        copy_pages_into(&mut mem, &p.pages);
        proof {
            lemma_copy_pages_len(before[idx as int], p.pages@);
        }
        let ghost filled = mem;
        instance.memories.set_and_swap(idx, &mut mem);
        proof {
            assert(instance.memories_view() =~= before.update(idx as int, copy_pages(before[idx as int], p.pages@)));
            assert forall|i: int|
                module.num_imported_memories <= i < module.memory_plans.len() implies instance.memories[i].len()
                    >= #[trigger] module.memory_plans[i].minimum * WASM_PAGE_SIZE by {
                assert(before_vecs[i]@ == before[i]);
                assert(instance.memories@ == before_vecs.update(idx as int, filled));
            }
        }
        k += 1;
    }
    proof {
        assert(map@.subrange(0, k as int) =~= map@);
    }
}

} // verus!
