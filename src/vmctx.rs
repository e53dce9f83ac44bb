//! Population of a new instance's context: signature ids, imported
//! functions, the function-reference table and the defined globals.
use vstd::prelude::*;
use crate::instance::{Anyfunc, Instance, VMFunctionImport, anyfunc_addr};
use crate::layout::VMOffsets;
use crate::module::{GlobalInit, Module, ModuleType};
use crate::signatures::{INVALID_SIGNATURE_ID, SharedSignatures};

verus! {

/// What the store of an instance provides to it: addresses of the shared
/// interrupt word, of the reference-activations table, and of the store.
#[derive(Clone, Copy, Debug, PartialEq, Eq, Structural)]
pub struct StoreHook {
    pub interrupts: usize,
    pub externref_activations_table: usize,
    pub store: usize,
}

/// The canonical id written for a module type.
pub open spec fn signature_id(sigs: SharedSignatures, t: ModuleType) -> u32 {
    match t {
        ModuleType::Function(s) => sigs.spec_lookup(s),
        ModuleType::Other => INVALID_SIGNATURE_ID,
    }
}

/// The function reference of function `i`: a defined function runs its
/// compiled body in this instance's context, an imported one in its origin's.
pub open spec fn expected_anyfunc(
    module: Module,
    vmctx: usize,
    finished: Seq<usize>,
    imports: Seq<VMFunctionImport>,
    sigs: SharedSignatures,
    i: int,
) -> Anyfunc {
    let type_index = sigs.spec_lookup(module.functions[i]);
    if module.is_defined_func(i) {
        Anyfunc { func_ptr: finished[i - module.num_imported_funcs], type_index, vmctx }
    } else {
        Anyfunc { func_ptr: imports[i].body, type_index, vmctx: imports[i].vmctx }
    }
}

/// The first value of global `g`: an imported global keeps the value it
/// was given; a defined one evaluates its initializer. Constants are stored
/// as their bits, `GetGlobal` copies an earlier global, `RefFunc` stores the
/// address of the function's reference and a null reference is zero.
pub open spec fn global_value(module: Module, imported: Seq<u128>, vmctx: usize, offsets: VMOffsets, g: nat) -> u128
    decreases g,
{
    if g < module.num_imported_globals {
        imported[g as int]
    } else {
        match module.globals[g as int].initializer {
            GlobalInit::I32Const(x) => (x as u32) as u128,
            GlobalInit::I64Const(x) => (x as u64) as u128,
            GlobalInit::F32Const(b) => b as u128,
            GlobalInit::F64Const(b) => b as u128,
            GlobalInit::V128Const(v) => v,
            GlobalInit::GetGlobal(y) => if y < g {
                global_value(module, imported, vmctx, offsets, y as nat)
            } else {
                0
            },
            GlobalInit::RefFunc(f) => anyfunc_addr(vmctx, offsets, f as int) as u128,
            _ => 0,
        }
    }
}

/// Every signature the module refers to has a canonical id.
pub open spec fn signatures_complete(module: Module, sigs: SharedSignatures) -> bool {
    &&& forall|i: int| 0 <= i < module.functions.len() ==> sigs.can_lookup(#[trigger] module.functions[i])
    &&& forall|i: int|
        0 <= i < module.types.len() ==> match #[trigger] module.types[i] {
            ModuleType::Function(s) => sigs.can_lookup(s),
            ModuleType::Other => true,
        }
}

/// The context of `instance` as `initialize_vmcontext` leaves it.
pub open spec fn vmcontext_initialized(
    instance: Instance,
    module: Module,
    finished: Seq<usize>,
    imports: Seq<VMFunctionImport>,
    imported_globals: Seq<u128>,
    sigs: SharedSignatures,
) -> bool {
    &&& instance.signature_ids@ == module.types@.map_values(|t: ModuleType| signature_id(sigs, t))
    &&& instance.imported_functions@ == imports
    &&& instance.anyfuncs.len() == module.functions.len()
    &&& forall|i: int|
        0 <= i < module.functions.len() ==> #[trigger] instance.anyfuncs@[i] == expected_anyfunc(
            module,
            instance.vmctx,
            finished,
            imports,
            sigs,
            i,
        )
    &&& instance.globals.len() == module.globals.len()
    &&& forall|g: int|
        0 <= g < module.globals.len() ==> #[trigger] instance.globals@[g] == global_value(
            module,
            imported_globals,
            instance.vmctx,
            instance.offsets,
            g as nat,
        )
}

fn write_signature_ids(instance: &mut Instance, module: &Module, sigs: &SharedSignatures)
    requires
        signatures_complete(*module, *sigs),
    ensures
        final(instance).signature_ids@ == module.types@.map_values(|t: ModuleType| signature_id(*sigs, t)),
        final(instance).vmctx == old(instance).vmctx,
        final(instance).interrupts == old(instance).interrupts,
        final(instance).externref_activations_table == old(instance).externref_activations_table,
        final(instance).store == old(instance).store,
        final(instance).offsets == old(instance).offsets,
        final(instance).memories == old(instance).memories,
        final(instance).tables == old(instance).tables,
        final(instance).globals == old(instance).globals,
        final(instance).anyfuncs == old(instance).anyfuncs,
        final(instance).imported_functions == old(instance).imported_functions,
{
    let mut ids: Vec<u32> = Vec::new();
    let mut i: usize = 0;
    while i < module.types.len()
        invariant
            i <= module.types.len(),
            signatures_complete(*module, *sigs),
            ids@ == module.types@.subrange(0, i as int).map_values(|t: ModuleType| signature_id(*sigs, t)),
        decreases module.types.len() - i,
    {
        let id = match module.types[i] {
            ModuleType::Function(s) => sigs.lookup(s),
            ModuleType::Other => INVALID_SIGNATURE_ID,
        };
        ids.push(id);
        i += 1;
        assert(ids@ =~= module.types@.subrange(0, i as int).map_values(|t: ModuleType| signature_id(*sigs, t)));
    }
    assert(module.types@.subrange(0, i as int) =~= module.types@);
    instance.signature_ids = ids;
}

fn write_anyfuncs(
    instance: &mut Instance,
    module: &Module,
    finished: &Vec<usize>,
    imports: &Vec<VMFunctionImport>,
    sigs: &SharedSignatures,
)
    requires
        module.wf(),
        signatures_complete(*module, *sigs),
        finished.len() == module.num_defined_funcs(),
        imports.len() == module.num_imported_funcs,
        forall|k: int| 0 <= k < finished.len() ==> finished[k] != 0,
    ensures
        final(instance).anyfuncs.len() == module.functions.len(),
        forall|i: int|
            0 <= i < module.functions.len() ==> #[trigger] final(instance).anyfuncs@[i] == expected_anyfunc(
                *module,
                old(instance).vmctx,
                finished@,
                imports@,
                *sigs,
                i,
            ),
        final(instance).vmctx == old(instance).vmctx,
        final(instance).interrupts == old(instance).interrupts,
        final(instance).externref_activations_table == old(instance).externref_activations_table,
        final(instance).store == old(instance).store,
        final(instance).offsets == old(instance).offsets,
        final(instance).memories == old(instance).memories,
        final(instance).tables == old(instance).tables,
        final(instance).globals == old(instance).globals,
        final(instance).signature_ids == old(instance).signature_ids,
        final(instance).imported_functions == old(instance).imported_functions,
{
    let mut anyfuncs: Vec<Anyfunc> = Vec::new();
    let mut i: usize = 0;
    while i < module.functions.len()
        invariant
            i <= module.functions.len(),
            module.wf(),
            signatures_complete(*module, *sigs),
            finished.len() == module.num_defined_funcs(),
            imports.len() == module.num_imported_funcs,
            anyfuncs.len() == i,
            forall|j: int|
                0 <= j < i ==> #[trigger] anyfuncs@[j] == expected_anyfunc(
                    *module,
                    instance.vmctx,
                    finished@,
                    imports@,
                    *sigs,
                    j,
                ),
        decreases module.functions.len() - i,
    {
        let type_index = sigs.lookup(module.functions[i]);
        let entry = match module.defined_func_index(i) {
            Some(def_index) => Anyfunc { func_ptr: finished[def_index], type_index, vmctx: instance.vmctx },
            None => {
                let import = imports[i];
                Anyfunc { func_ptr: import.body, type_index, vmctx: import.vmctx }
            },
        };
        anyfuncs.push(entry);
        i += 1;
    }
    instance.anyfuncs = anyfuncs;
}

/// Gives each defined global its first value, in index order.
pub fn initialize_vmcontext_globals(instance: &mut Instance, module: &Module, imported_globals: &Vec<u128>)
    requires
        module.wf(),
        old(instance).globals.len() == module.globals.len(),
        imported_globals.len() == module.num_imported_globals,
        forall|g: int| 0 <= g < module.num_imported_globals ==> old(instance).globals@[g] == imported_globals@[g],
        old(instance).offsets.ptr == 4 || old(instance).offsets.ptr == 8,
    ensures
        final(instance).globals.len() == module.globals.len(),
        forall|g: int|
            0 <= g < module.globals.len() ==> #[trigger] final(instance).globals@[g] == global_value(
                *module,
                imported_globals@,
                old(instance).vmctx,
                old(instance).offsets,
                g as nat,
            ),
        final(instance).vmctx == old(instance).vmctx,
        final(instance).interrupts == old(instance).interrupts,
        final(instance).externref_activations_table == old(instance).externref_activations_table,
        final(instance).store == old(instance).store,
        final(instance).offsets == old(instance).offsets,
        final(instance).memories == old(instance).memories,
        final(instance).tables == old(instance).tables,
        final(instance).signature_ids == old(instance).signature_ids,
        final(instance).anyfuncs == old(instance).anyfuncs,
        final(instance).imported_functions == old(instance).imported_functions,
{
    let ghost imported = imported_globals@;
    let mut g: usize = module.num_imported_globals;
    while g < module.globals.len()
        invariant
            module.num_imported_globals <= g <= module.globals.len(),
            module.wf(),
            instance.globals.len() == module.globals.len(),
            imported == imported_globals@,
            imported_globals.len() == module.num_imported_globals,
            instance.offsets.ptr == 4 || instance.offsets.ptr == 8,
            instance.vmctx == old(instance).vmctx,
            instance.interrupts == old(instance).interrupts,
            instance.externref_activations_table == old(instance).externref_activations_table,
            instance.store == old(instance).store,
            instance.offsets == old(instance).offsets,
            instance.memories == old(instance).memories,
            instance.tables == old(instance).tables,
            instance.signature_ids == old(instance).signature_ids,
            instance.anyfuncs == old(instance).anyfuncs,
            instance.imported_functions == old(instance).imported_functions,
            forall|j: int|
                0 <= j < g ==> #[trigger] instance.globals@[j] == global_value(
                    *module,
                    imported,
                    instance.vmctx,
                    instance.offsets,
                    j as nat,
                ),
        decreases module.globals.len() - g,
    {
        assert(module.global_init_ok(g as int));
        let value: u128 = match module.globals[g].initializer {
            GlobalInit::I32Const(x) => (x as u32) as u128,
            GlobalInit::I64Const(x) => (x as u64) as u128,
            GlobalInit::F32Const(b) => b as u128,
            GlobalInit::F64Const(b) => b as u128,
            GlobalInit::V128Const(v) => v,
            GlobalInit::GetGlobal(y) => instance.globals[y as usize],
            GlobalInit::RefFunc(f) => crate::instance::anyfunc_address(instance, f),
            _ => 0,
        };
        instance.globals.set(g, value);
        g += 1;
    }
}

/// Populates the context of a new instance: the store's addresses, the
/// canonical signature ids, the imported functions, the function
/// references and the defined globals.
pub fn initialize_vmcontext(
    instance: &mut Instance,
    module: &Module,
    finished: &Vec<usize>,
    imports: &Vec<VMFunctionImport>,
    imported_globals: &Vec<u128>,
    sigs: &SharedSignatures,
    store: Option<StoreHook>,
)
    requires
        module.wf(),
        signatures_complete(*module, *sigs),
        finished.len() == module.num_defined_funcs(),
        forall|k: int| 0 <= k < finished.len() ==> finished[k] != 0,
        imports.len() == module.num_imported_funcs,
        old(instance).globals.len() == module.globals.len(),
        imported_globals.len() == module.num_imported_globals,
        forall|g: int| 0 <= g < module.num_imported_globals ==> old(instance).globals@[g] == imported_globals@[g],
        old(instance).offsets.ptr == 4 || old(instance).offsets.ptr == 8,
    ensures
        vmcontext_initialized(*final(instance), *module, finished@, imports@, imported_globals@, *sigs),
        final(instance).vmctx == old(instance).vmctx,
        final(instance).offsets == old(instance).offsets,
        final(instance).memories == old(instance).memories,
        final(instance).tables == old(instance).tables,
        store.is_some() ==> final(instance).interrupts == store.unwrap().interrupts,
        store.is_some() ==> final(instance).externref_activations_table
            == store.unwrap().externref_activations_table,
        store.is_some() ==> final(instance).store == Some(store.unwrap().store),
        store.is_none() ==> final(instance).interrupts == old(instance).interrupts,
        store.is_none() ==> final(instance).externref_activations_table
            == old(instance).externref_activations_table,
        store.is_none() ==> final(instance).store == old(instance).store,
{
    write_signature_ids(instance, module, sigs);
    instance.imported_functions = imports.clone();
    write_anyfuncs(instance, module, finished, imports, sigs);
    initialize_vmcontext_globals(instance, module, imported_globals);
    match store {
        Some(s) => {
            instance.interrupts = s.interrupts;
            instance.externref_activations_table = s.externref_activations_table;
            instance.store = Some(s.store);
        },
        None => {},
    }
}


/// After the context is populated, the function reference of every function
/// carries the canonical id of the function's signature, and its context is
/// the instance's own exactly when the function is defined by the module
/// (imports come from other instances).
pub proof fn lemma_anyfunc_consistency(
    instance: Instance,
    module: Module,
    finished: Seq<usize>,
    imports: Seq<VMFunctionImport>,
    imported_globals: Seq<u128>,
    sigs: SharedSignatures,
)
    requires
        vmcontext_initialized(instance, module, finished, imports, imported_globals, sigs),
        module.num_imported_funcs <= module.functions.len(),
        imports.len() == module.num_imported_funcs,
        forall|k: int| 0 <= k < imports.len() ==> (#[trigger] imports[k]).vmctx != instance.vmctx,
    ensures
        forall|i: int|
            0 <= i < module.functions.len() ==> (#[trigger] instance.anyfuncs@[i]).type_index
                == sigs.spec_lookup(module.functions[i]) && (instance.anyfuncs@[i].vmctx == instance.vmctx
                <==> module.is_defined_func(i)),
{
    assert forall|i: int| 0 <= i < module.functions.len() implies (#[trigger] instance.anyfuncs@[i]).type_index
        == sigs.spec_lookup(module.functions[i]) && (instance.anyfuncs@[i].vmctx == instance.vmctx
        <==> module.is_defined_func(i)) by {
        assert(instance.anyfuncs@[i] == expected_anyfunc(module, instance.vmctx, finished, imports, sigs, i));
        if !module.is_defined_func(i) {
            assert(imports[i].vmctx != instance.vmctx);
        }
    }
}

} // verus!
