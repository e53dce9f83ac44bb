//! Segment initialization of a freshly allocated instance, in the strict mode
//! that checks every segment first and in the bulk-memory mode that applies
//! them in order.
use vstd::prelude::*;
use crate::errors::{InitFailure, InstantiationError, TrapCode, failure_error, reports};
use crate::instance::{
    Instance, data_start, apply_data, apply_elems, apply_pages, check_data, check_elems, check_memory_init_bounds,
    check_table_init_bounds, initialize_memories, initialize_paged, initialize_tables,
};
use crate::layout::VMOffsets;
use crate::module::{MemoryInitialization, MemoryInitializer, Module, TableInitializer};

verus! {

/// The first failure of the memory bounds check: the flag of a paged module,
/// or the first data segment that does not fit.
pub open spec fn check_memory(module: Module, mems: Seq<Seq<u8>>, globals: Seq<u128>) -> Option<InitFailure> {
    match module.memory_initialization {
        MemoryInitialization::Paged { out_of_bounds, .. } => if out_of_bounds {
            Some(InitFailure::DataDoesNotFit)
        } else {
            None
        },
        MemoryInitialization::Segmented(inits) => check_data(module, mems, globals, inits@),
    }
}

/// The first failure of the bounds check of all segments, tables first.
pub open spec fn check_bounds(tables: Seq<Seq<u128>>, mems: Seq<Seq<u8>>, globals: Seq<u128>, module: Module) -> Option<InitFailure> {
    match check_elems(tables, globals, module.table_initializers@) {
        Some(f) => Some(f),
        None => check_memory(module, mems, globals),
    }
}

/// The memories after the memory initializers, and the failure if any.
pub open spec fn apply_memory(module: Module, mems: Seq<Seq<u8>>, globals: Seq<u128>) -> (Seq<Seq<u8>>, Option<InitFailure>) {
    match module.memory_initialization {
        MemoryInitialization::Paged { map, out_of_bounds } => (
            apply_pages(mems, module.num_imported_memories as int, map@),
            if out_of_bounds { Some(InitFailure::Trapped(TrapCode::HeapOutOfBounds)) } else { None },
        ),
        MemoryInitialization::Segmented(inits) => apply_data(module, mems, globals, inits@),
    }
}

/// Tables and memories after segment initialization, and the failure if
/// any. Without bulk memory every segment is checked before any write; with
/// it, segments are applied in order and the writes before a failure stay.
pub open spec fn init_effect(
    vmctx: usize,
    offsets: VMOffsets,
    tables: Seq<Seq<u128>>,
    mems: Seq<Seq<u8>>,
    globals: Seq<u128>,
    module: Module,
    is_bulk_memory: bool,
) -> (Seq<Seq<u128>>, Seq<Seq<u8>>, Option<InitFailure>) {
    let pre = if is_bulk_memory { None } else { check_bounds(tables, mems, globals, module) };
    if pre.is_some() {
        (tables, mems, pre)
    } else {
        let (t, f) = apply_elems(vmctx, offsets, tables, globals, module.table_initializers@);
        if f.is_some() {
            (t, mems, f)
        } else {
            let (m, g) = apply_memory(module, mems, globals);
            (t, m, g)
        }
    }
}

/// Checks every segment against the current table and memory sizes.
pub fn check_init_bounds(instance: &Instance, module: &Module) -> (r: Result<(), InstantiationError>)
    requires
        instance.matches(*module),
    ensures
        match check_bounds(instance.tables_view(), instance.memories_view(), instance.globals@, *module) {
            None => r.is_ok(),
            Some(f) => r.is_err() && reports(r->Err_0, f),
        },
{
    match check_table_init_bounds(instance, module) {
        Err(e) => {
            return Err(e);
        },
        Ok(()) => {},
    }
    match &module.memory_initialization {
        MemoryInitialization::Paged { out_of_bounds, .. } => {
            if *out_of_bounds {
                return Err(failure_error(InitFailure::DataDoesNotFit));
            }
        },
        MemoryInitialization::Segmented(initializers) => {
            return check_memory_init_bounds(instance, module, initializers);
        },
    }
    Ok(())
}

/// Fills the tables and memories of `instance` from the segments of
/// `module`, as `init_effect` states.
pub fn initialize_instance(instance: &mut Instance, module: &Module, is_bulk_memory: bool) -> (r: Result<(), InstantiationError>)
    requires
        old(instance).matches(*module),
    ensures
        ({
            let (t, m, f) = init_effect(
                old(instance).vmctx,
                old(instance).offsets,
                old(instance).tables_view(),
                old(instance).memories_view(),
                old(instance).globals@,
                *module,
                is_bulk_memory,
            );
            &&& final(instance).tables_view() == t
            &&& final(instance).memories_view() == m
            &&& match f {
                None => r.is_ok(),
                Some(f) => r.is_err() && reports(r->Err_0, f),
            }
        }),
        final(instance).globals@ == old(instance).globals@,
        final(instance).vmctx == old(instance).vmctx,
        final(instance).offsets == old(instance).offsets,
{
    if !is_bulk_memory {
        let checked = check_init_bounds(instance, module);
        if checked.is_err() {
            return checked;
        }
    }
    let tables = initialize_tables(instance, module);
    if tables.is_err() {
        return tables;
    }
    proof {
        assert(instance.matches(*module)) by {
            assert forall|i: int|
                module.num_imported_memories <= i < module.memory_plans.len() implies instance.memories[i].len()
                    >= #[trigger] module.memory_plans[i].minimum * crate::module::WASM_PAGE_SIZE by {
                assert(instance.memories@[i] == old(instance).memories@[i]);
            }
        }
    }
    match &module.memory_initialization {
        MemoryInitialization::Paged { map, out_of_bounds } => {
            initialize_paged(instance, module, map);
            if *out_of_bounds {
                return Err(failure_error(InitFailure::Trapped(TrapCode::HeapOutOfBounds)));
            }
            Ok(())
        },
        MemoryInitialization::Segmented(initializers) => initialize_memories(instance, module, initializers),
    }
}


/// A failure the bounds check reports, as opposed to a trap.
pub open spec fn is_link_failure(f: InitFailure) -> bool {
    !(f is Trapped)
}

proof fn lemma_check_elems_link(tables: Seq<Seq<u128>>, globals: Seq<u128>, inits: Seq<TableInitializer>)
    ensures
        check_elems(tables, globals, inits).is_some() ==> is_link_failure(check_elems(tables, globals, inits).unwrap()),
    decreases inits.len(),
{
    if inits.len() > 0 {
        lemma_check_elems_link(tables, globals, inits.drop_last());
    }
}

proof fn lemma_check_data_link(module: Module, mems: Seq<Seq<u8>>, globals: Seq<u128>, inits: Seq<MemoryInitializer>)
    ensures
        check_data(module, mems, globals, inits).is_some() ==> is_link_failure(check_data(module, mems, globals, inits).unwrap()),
    decreases inits.len(),
{
    if inits.len() > 0 {
        lemma_check_data_link(module, mems, globals, inits.drop_last());
    }
}

proof fn lemma_check_data_fails(module: Module, mems: Seq<Seq<u8>>, globals: Seq<u128>, inits: Seq<MemoryInitializer>, k: int)
    requires
        0 <= k < inits.len(),
        data_start(module, globals, inits[k]).is_none(),
    ensures
        check_data(module, mems, globals, inits).is_some(),
    decreases inits.len(),
{
    if k < inits.len() - 1 {
        lemma_check_data_fails(module, mems, globals, inits.drop_last(), k);
    }
}

/// Without bulk memory, a data segment whose base global's value added to
/// its offset overflows the address width makes initialization fail with a
/// link error, and no table or memory is changed.
pub proof fn lemma_global_base_overflow(
    vmctx: usize,
    offsets: VMOffsets,
    tables: Seq<Seq<u128>>,
    mems: Seq<Seq<u8>>,
    globals: Seq<u128>,
    module: Module,
    inits: Seq<MemoryInitializer>,
    k: int,
)
    requires
        module.memory_initialization matches MemoryInitialization::Segmented(v) && v@ == inits,
        0 <= k < inits.len(),
        data_start(module, globals, inits[k]).is_none(),
    ensures
        ({
            let (t, m, f) = init_effect(vmctx, offsets, tables, mems, globals, module, false);
            &&& t == tables
            &&& m == mems
            &&& f.is_some()
            &&& is_link_failure(f.unwrap())
        }),
{
    lemma_check_elems_link(tables, globals, module.table_initializers@);
    lemma_check_data_link(module, mems, globals, inits);
    lemma_check_data_fails(module, mems, globals, inits, k);
}

/// Without bulk memory, any segment that fails the bounds check leaves every
/// table and memory untouched. With bulk memory, the segments are applied in
/// order: when the data segment at `k` is the first to fail, the memories
/// hold exactly the writes of the segments before it.
pub proof fn lemma_bulk_strict_duality(
    vmctx: usize,
    offsets: VMOffsets,
    tables: Seq<Seq<u128>>,
    mems: Seq<Seq<u8>>,
    globals: Seq<u128>,
    module: Module,
    inits: Seq<MemoryInitializer>,
    k: int,
)
    requires
        module.memory_initialization matches MemoryInitialization::Segmented(v) && v@ == inits,
        0 <= k < inits.len(),
        apply_elems(vmctx, offsets, tables, globals, module.table_initializers@).1.is_none(),
        apply_data(module, mems, globals, inits.subrange(0, k)).1.is_none(),
        apply_data(module, mems, globals, inits.subrange(0, k + 1)).1.is_some(),
    ensures
        check_bounds(tables, mems, globals, module).is_some() ==> ({
            let (t, m, f) = init_effect(vmctx, offsets, tables, mems, globals, module, false);
            t == tables && m == mems && f == check_bounds(tables, mems, globals, module)
        }),
        ({
            let (t, m, f) = init_effect(vmctx, offsets, tables, mems, globals, module, true);
            &&& t == apply_elems(vmctx, offsets, tables, globals, module.table_initializers@).0
            &&& m == apply_data(module, mems, globals, inits.subrange(0, k)).0
            &&& f == apply_data(module, mems, globals, inits.subrange(0, k + 1)).1
        }),
{
    let sub = inits.subrange(0, k + 1);
    assert(sub.drop_last() =~= inits.subrange(0, k));
    crate::instance::lemma_apply_data_prefix(module, mems, globals, inits, k + 1);
}

} // verus!
