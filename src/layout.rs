//! Layout of the per-instance context read by compiled code at fixed offsets.
//!
//! The offsets come from `wasmtime_environ`'s layout calculator, the same one
//! the compiler uses, so that both sides agree on every field.
use vstd::prelude::*;
use crate::module::Module;

verus! {

/// Largest number of entities of one kind (types, functions, tables,
/// memories, globals) that a module may declare.
pub const MAX_ENTITIES: u32 = 0x10_0000;

/// Size in bytes of one global slot, large enough for a 128-bit vector.
pub const GLOBAL_SLOT_SIZE: u32 = 16;

/// Size in bytes of one canonical signature id.
pub const SIGNATURE_ID_SIZE: u32 = 4;

#[verifier::external_type_specification]
#[verifier::reject_recursive_types(P)]
pub struct ExVMOffsetsFields<P>(wasmtime_environ::VMOffsetsFields<P>);

/// Byte offsets, from the start of the context, of each of its regions, and
/// its total size.
#[derive(Clone, Copy, Debug, PartialEq, Eq, Structural)]
pub struct VMOffsets {
    pub ptr: u8,
    pub num_imported_functions: u32,
    pub num_functions: u32,
    pub interrupts: u32,
    pub signature_ids: u32,
    pub imported_functions: u32,
    pub imported_tables: u32,
    pub imported_memories: u32,
    pub imported_globals: u32,
    pub defined_tables: u32,
    pub defined_memories: u32,
    pub defined_globals: u32,
    pub anyfuncs: u32,
    pub builtin_functions: u32,
    pub size: u32,
}

/// The counts handed to the calculator are within the limits that keep every
/// offset inside 32 bits.
pub open spec fn fields_in_range(f: wasmtime_environ::VMOffsetsFields<u8>) -> bool {
    &&& (f.ptr == 4 || f.ptr == 8)
    &&& f.num_signature_ids <= MAX_ENTITIES
    &&& f.num_imported_functions <= MAX_ENTITIES
    &&& f.num_imported_tables <= MAX_ENTITIES
    &&& f.num_imported_memories <= MAX_ENTITIES
    &&& f.num_imported_globals <= MAX_ENTITIES
    &&& f.num_defined_functions <= MAX_ENTITIES
    &&& f.num_defined_tables <= MAX_ENTITIES
    &&& f.num_defined_memories <= MAX_ENTITIES
    &&& f.num_defined_globals <= MAX_ENTITIES
}

/// The regions follow one another in the documented order, each sized by its
/// count times the size of one entry.
pub open spec fn layout_of(o: VMOffsets, f: wasmtime_environ::VMOffsetsFields<u8>) -> bool {
    let p = f.ptr as int;
    let mem_end = o.defined_memories + 2 * p * f.num_defined_memories;
    &&& o.ptr == f.ptr
    &&& o.num_imported_functions == f.num_imported_functions
    &&& o.num_functions == f.num_defined_functions
    &&& o.interrupts == 0
    &&& o.signature_ids == 4 * p
    &&& o.imported_functions == o.signature_ids + SIGNATURE_ID_SIZE * f.num_signature_ids
    &&& o.imported_tables == o.imported_functions + 2 * p * f.num_imported_functions
    &&& o.imported_memories == o.imported_tables + 2 * p * f.num_imported_tables
    &&& o.imported_globals == o.imported_memories + 2 * p * f.num_imported_memories
    &&& o.defined_tables == o.imported_globals + p * f.num_imported_globals
    &&& o.defined_memories == o.defined_tables + 2 * p * f.num_defined_tables
    &&& mem_end <= o.defined_globals < mem_end + 16
    &&& o.defined_globals % 16 == 0
    &&& o.anyfuncs == o.defined_globals + GLOBAL_SLOT_SIZE * f.num_defined_globals
    &&& o.builtin_functions == o.anyfuncs + 3 * p * (f.num_imported_functions
        + f.num_defined_functions)
    &&& o.builtin_functions <= o.size
}

/// Computes the context layout for the given counts.
///
/// Relies on `wasmtime_environ::VMOffsets::from` (a `VMOffsetsFields`) and its
/// `vmctx_*_begin` and `size_of_vmctx` accessors: the regions are laid out
/// one after the other as `layout_of` states, the globals aligned to 16
/// bytes, with the builtin-function table last. It panics only where an
/// offset would leave 32 bits, which the counts' limits rule out.
#[verifier::external_body]
fn vmoffsets_from_fields(f: wasmtime_environ::VMOffsetsFields<u8>) -> (r: VMOffsets)
    requires
        fields_in_range(f),
    ensures
        layout_of(r, f),
{
    let o = wasmtime_environ::VMOffsets::from(f);
    VMOffsets {
        ptr: o.ptr, num_imported_functions: o.num_imported_functions,
        num_functions: o.num_defined_functions, interrupts: o.vmctx_interrupts(),
        signature_ids: o.vmctx_signature_ids_begin(),
        imported_functions: o.vmctx_imported_functions_begin(),
        imported_tables: o.vmctx_imported_tables_begin(),
        imported_memories: o.vmctx_imported_memories_begin(),
        imported_globals: o.vmctx_imported_globals_begin(),
        defined_tables: o.vmctx_tables_begin(), defined_memories: o.vmctx_memories_begin(),
        defined_globals: o.vmctx_globals_begin(), anyfuncs: o.vmctx_anyfuncs_begin(),
        builtin_functions: o.vmctx_builtin_functions_begin(), size: o.size_of_vmctx(),
    }
}


/// The counts that the layout of `module`'s context is computed from: all
/// functions, tables, memories and globals, imports included, get a slot.
pub open spec fn module_fields(ptr: u8, module: Module) -> wasmtime_environ::VMOffsetsFields<u8> {
    wasmtime_environ::VMOffsetsFields {
        ptr,
        num_signature_ids: module.types.len() as u32,
        num_imported_functions: module.num_imported_funcs as u32,
        num_imported_tables: module.num_imported_tables as u32,
        num_imported_memories: module.num_imported_memories as u32,
        num_imported_globals: module.num_imported_globals as u32,
        num_defined_functions: module.functions.len() as u32,
        num_defined_tables: module.table_plans.len() as u32,
        num_defined_memories: module.memory_plans.len() as u32,
        num_defined_globals: module.globals.len() as u32,
    }
}

/// The size in bytes of a pointer on this machine.
pub fn host_pointer_size() -> (r: u8)
    ensures
        r == 4 || r == 8,
{
    if core::mem::size_of::<usize>() == 8 {
        8
    } else {
        4
    }
}

/// The context layout of `module` for pointers of `ptr` bytes.
pub fn module_offsets(ptr: u8, module: &Module) -> (r: VMOffsets)
    requires
        ptr == 4 || ptr == 8,
        module.wf(),
    ensures
        layout_of(r, module_fields(ptr, *module)),
{
    let f = wasmtime_environ::VMOffsetsFields {
        ptr,
        num_signature_ids: module.types.len() as u32,
        num_imported_functions: module.num_imported_funcs as u32,
        num_imported_tables: module.num_imported_tables as u32,
        num_imported_memories: module.num_imported_memories as u32,
        num_imported_globals: module.num_imported_globals as u32,
        num_defined_functions: module.functions.len() as u32,
        num_defined_tables: module.table_plans.len() as u32,
        num_defined_memories: module.memory_plans.len() as u32,
        num_defined_globals: module.globals.len() as u32,
    };
    vmoffsets_from_fields(f)
}

/// Size of the single allocation holding an instance: its header of
/// `header_size` bytes followed by the context, or `None` if that size does
/// not fit in `usize`.
pub fn alloc_layout(header_size: usize, offsets: &VMOffsets) -> (r: Option<usize>)
    ensures
        r == (if header_size + offsets.size <= usize::MAX {
            Some((header_size + offsets.size) as usize)
        } else {
            None::<usize>
        }),
{
    header_size.checked_add(offsets.size as usize)
}

/// For any module, the allocation sized by `alloc_layout` holds the header
/// and the whole context, and every region of the context, from its first
/// byte to its last, lies within it; the function-reference region has a
/// slot for every function of the module.
pub proof fn lemma_layout_round_trip(module: Module, ptr: u8, o: VMOffsets, header_size: usize, total: usize)
    requires
        module.wf(),
        layout_of(o, module_fields(ptr, module)),
        header_size + o.size <= usize::MAX,
        total == header_size + o.size,
    ensures
        total >= header_size + o.size,
        o.interrupts + ptr <= o.signature_ids,
        o.signature_ids + SIGNATURE_ID_SIZE * module.types.len() == o.imported_functions,
        o.imported_functions <= o.imported_tables <= o.imported_memories <= o.imported_globals,
        o.imported_globals <= o.defined_tables <= o.defined_memories,
        o.defined_memories + 2 * ptr * module.memory_plans.len() <= o.defined_globals,
        o.defined_globals + GLOBAL_SLOT_SIZE * module.globals.len() == o.anyfuncs,
        o.anyfuncs + 3 * ptr * module.functions.len() <= o.builtin_functions,
        o.builtin_functions <= o.size,
        header_size + o.size <= total,
{
    let f = module_fields(ptr, module);
    assert(0 <= 2 * f.ptr * f.num_defined_memories) by (nonlinear_arith);
    assert(0 <= 2 * f.ptr * f.num_defined_tables) by (nonlinear_arith);
    assert(0 <= 2 * f.ptr * f.num_imported_functions) by (nonlinear_arith);
    assert(0 <= 2 * f.ptr * f.num_imported_tables) by (nonlinear_arith);
    assert(0 <= 2 * f.ptr * f.num_imported_memories) by (nonlinear_arith);
    assert(0 <= f.ptr * f.num_imported_globals) by (nonlinear_arith);
    assert(3 * ptr * module.functions.len() <= 3 * ptr * (f.num_imported_functions + f.num_defined_functions))
        by (nonlinear_arith)
        requires
            f.num_defined_functions == module.functions.len(),
            0 <= f.num_imported_functions,
            ptr >= 0;
}

} // verus!
