use wasm_instance::abi::WasmType;
use wasm_instance::allocator::{
    Imports, InstanceAllocationRequest, InstanceAllocator, OnDemandInstanceAllocator, ResourceLimiter,
};
use wasm_instance::errors::{FiberStackError, InstantiationError, TrapCode};
use wasm_instance::instance::{Instance, VMFunctionImport};
use wasm_instance::layout::{alloc_layout, module_offsets};
use wasm_instance::module::{
    Global, GlobalInit, MemoryInitialization, MemoryInitializer, MemoryPlan, Module, ModuleType, PagedMemory,
    TableInitializer, TablePlan,
};
use wasm_instance::signatures::{SharedSignatures, INVALID_SIGNATURE_ID};
use wasm_instance::vmctx::StoreHook;

const PAGE: usize = 65536;
const CTX: usize = 0x10_0000;

struct NoLimits;

impl ResourceLimiter for NoLimits {
    fn memory_growing(&mut self, _current: u64, _desired: u64, _maximum: Option<u64>) -> bool {
        true
    }

    fn table_growing(&mut self, _current: u32, _desired: u32, _maximum: Option<u32>) -> bool {
        true
    }
}

struct Deny;

impl ResourceLimiter for Deny {
    fn memory_growing(&mut self, _current: u64, _desired: u64, _maximum: Option<u64>) -> bool {
        false
    }

    fn table_growing(&mut self, _current: u32, _desired: u32, _maximum: Option<u32>) -> bool {
        false
    }
}

fn memory_plan(pages: u64) -> MemoryPlan {
    MemoryPlan { minimum: pages, maximum: None, memory64: false }
}

fn empty_module() -> Module {
    Module {
        types: vec![],
        functions: vec![],
        num_imported_funcs: 0,
        num_imported_tables: 0,
        num_imported_memories: 0,
        num_imported_globals: 0,
        memory_plans: vec![],
        table_plans: vec![],
        globals: vec![],
        table_initializers: vec![],
        memory_initialization: MemoryInitialization::Segmented(vec![]),
        possibly_exported_funcs: vec![],
        passive_elements: 0,
        passive_data: 0,
    }
}

fn no_imports() -> Imports {
    Imports { functions: vec![], tables: vec![], memories: vec![], globals: vec![] }
}

fn request(module: &Module, imports: Imports, finished: Vec<usize>, sigs: SharedSignatures) -> InstanceAllocationRequest {
    InstanceAllocationRequest {
        module: module.clone(),
        finished_functions: finished,
        imports,
        shared_signatures: sigs,
        context_address: CTX,
        store: None,
    }
}

fn allocate(module: &Module) -> Instance {
    let alloc = OnDemandInstanceAllocator::new(0);
    alloc
        .allocate(request(module, no_imports(), vec![], SharedSignatures::Empty), &mut None::<NoLimits>)
        .unwrap()
}

fn segment(offset: u64, data: Vec<u8>) -> MemoryInitializer {
    MemoryInitializer { memory_index: 0, base: None, offset, data }
}

fn two_page_module(segments: Vec<MemoryInitializer>) -> Module {
    let mut m = empty_module();
    m.memory_plans = vec![memory_plan(2)];
    m.memory_initialization = MemoryInitialization::Segmented(segments);
    m
}

fn link_message(e: &InstantiationError) -> String {
    match e {
        InstantiationError::Link(l) => l.0.clone(),
        other => panic!("expected a link error, got {:?}", other),
    }
}

#[test]
fn minimal_instance() {
    let mut module = empty_module();
    module.memory_plans = vec![memory_plan(1)];
    let alloc = OnDemandInstanceAllocator::default();
    let mut inst = allocate(&module);
    alloc.initialize(&mut inst, &module, false).unwrap();
    assert_eq!(inst.memories.len(), 1);
    assert_eq!(inst.memories[0].len(), 65_536);
    assert!(inst.memories[0].iter().all(|b| *b == 0));
    assert!(inst.anyfuncs.is_empty());
    alloc.deallocate(inst);
}

#[test]
fn segmented_init_in_bounds() {
    let module = two_page_module(vec![segment(10, vec![1, 2, 3, 4])]);
    let alloc = OnDemandInstanceAllocator::default();
    let mut inst = allocate(&module);
    alloc.initialize(&mut inst, &module, false).unwrap();
    let mem = &inst.memories[0];
    assert_eq!(mem.len(), 2 * PAGE);
    assert_eq!(&mem[10..14], &[1, 2, 3, 4]);
    assert!(mem[..10].iter().all(|b| *b == 0));
    assert!(mem[14..].iter().all(|b| *b == 0));
}

#[test]
fn segmented_init_strict_out_of_bounds() {
    let module = two_page_module(vec![segment(131_070, vec![1, 2, 3, 4])]);
    let alloc = OnDemandInstanceAllocator::default();
    let mut inst = allocate(&module);
    let err = alloc.initialize(&mut inst, &module, false).unwrap_err();
    assert_eq!(link_message(&err), "memory out of bounds: data segment does not fit");
    assert!(inst.memories[0].iter().all(|b| *b == 0));
}

#[test]
fn bulk_out_of_bounds_keeps_prefix() {
    let module = two_page_module(vec![segment(0, vec![0xAA; 4]), segment(131_070, vec![0xBB; 4])]);
    let alloc = OnDemandInstanceAllocator::default();
    let mut inst = allocate(&module);
    let err = alloc.initialize(&mut inst, &module, true).unwrap_err();
    match err {
        InstantiationError::Trap(t) => assert_eq!(t.code, TrapCode::HeapOutOfBounds),
        other => panic!("expected a trap, got {:?}", other),
    }
    assert_eq!(&inst.memories[0][0..4], &[0xAA; 4]);
    assert!(inst.memories[0][131_070..].iter().all(|b| *b == 0));
}

#[test]
fn strict_out_of_bounds_leaves_earlier_segments_unwritten() {
    let module = two_page_module(vec![segment(0, vec![0xAA; 4]), segment(131_070, vec![0xBB; 4])]);
    let alloc = OnDemandInstanceAllocator::default();
    let mut inst = allocate(&module);
    let err = alloc.initialize(&mut inst, &module, false).unwrap_err();
    assert_eq!(link_message(&err), "memory out of bounds: data segment does not fit");
    assert!(inst.memories[0].iter().all(|b| *b == 0));
}

fn imported_global_module(offset: u64) -> Module {
    let mut m = two_page_module(vec![MemoryInitializer { memory_index: 0, base: Some(0), offset, data: vec![7] }]);
    m.num_imported_globals = 1;
    m.globals = vec![Global { wasm_ty: WasmType::I32, initializer: GlobalInit::Import }];
    m
}

fn allocate_with_global(module: &Module, g0: u128) -> Instance {
    let alloc = OnDemandInstanceAllocator::default();
    let imports = Imports { functions: vec![], tables: vec![], memories: vec![], globals: vec![g0] };
    alloc
        .allocate(request(module, imports, vec![], SharedSignatures::Empty), &mut None::<NoLimits>)
        .unwrap()
}

#[test]
fn global_base_overflow() {
    let module = imported_global_module(0xFFFF_FFF0);
    let alloc = OnDemandInstanceAllocator::default();
    let mut inst = allocate_with_global(&module, 0x20);
    let err = alloc.initialize(&mut inst, &module, false).unwrap_err();
    assert_eq!(link_message(&err), "data segment global base overflows");
    assert!(inst.memories[0].iter().all(|b| *b == 0));
    let mut inst = allocate_with_global(&module, 0x20);
    let err = alloc.initialize(&mut inst, &module, true).unwrap_err();
    assert_eq!(link_message(&err), "data segment global base overflows");
}

#[test]
fn global_base_overflow_leaves_earlier_segments_unwritten() {
    let mut module = imported_global_module(0xFFFF_FFF0);
    if let MemoryInitialization::Segmented(inits) = &mut module.memory_initialization {
        inits.insert(0, segment(0, vec![1, 2]));
    }
    let alloc = OnDemandInstanceAllocator::default();
    let mut inst = allocate_with_global(&module, 0x20);
    let err = alloc.initialize(&mut inst, &module, false).unwrap_err();
    assert_eq!(link_message(&err), "data segment global base overflows");
    assert!(inst.memories[0].iter().all(|b| *b == 0));
}

#[test]
fn global_base_of_64_bit_memory() {
    let mut module = imported_global_module(0xFFFF_FFF0);
    module.memory_plans[0].memory64 = true;
    let alloc = OnDemandInstanceAllocator::default();
    let mut inst = allocate_with_global(&module, 0x20);
    let err = alloc.initialize(&mut inst, &module, false).unwrap_err();
    assert_eq!(link_message(&err), "memory out of bounds: data segment does not fit");
    let module = {
        let mut m = imported_global_module(0xFFFF_FFFF_FFFF_FFF0);
        m.memory_plans[0].memory64 = true;
        m
    };
    let mut inst = allocate_with_global(&module, 0x20);
    let err = alloc.initialize(&mut inst, &module, false).unwrap_err();
    assert_eq!(link_message(&err), "data segment global base overflows");
}

#[test]
fn global_base_reads_low_bits_of_32_bit_global() {
    let module = imported_global_module(5);
    let alloc = OnDemandInstanceAllocator::default();
    let mut inst = allocate_with_global(&module, 0x1_0000_0003);
    alloc.initialize(&mut inst, &module, false).unwrap();
    assert_eq!(inst.memories[0][8], 7);
    let module = imported_global_module(0xFFFF_FFF0);
    let mut inst = allocate_with_global(&module, 0x1_0000_0000_0000_0010);
    let err = alloc.initialize(&mut inst, &module, false).unwrap_err();
    assert_eq!(link_message(&err), "data segment global base overflows");
}

#[test]
fn allocator_through_trait() {
    let module = two_page_module(vec![segment(3, vec![4])]);
    let alloc = OnDemandInstanceAllocator::new(0);
    assert!(InstanceAllocator::validate(&alloc, &module).is_ok());
    let mut inst = InstanceAllocator::allocate(
        &alloc,
        request(&module, no_imports(), vec![], SharedSignatures::Empty),
        &mut None::<NoLimits>,
    )
    .unwrap();
    InstanceAllocator::initialize(&alloc, &mut inst, &module, true).unwrap();
    assert_eq!(inst.memories[0][3], 4);
    assert!(matches!(InstanceAllocator::allocate_fiber_stack(&alloc), Err(FiberStackError::NotSupported)));
    InstanceAllocator::deallocate(&alloc, inst);
}

fn table_module(inits: Vec<TableInitializer>) -> Module {
    let mut m = empty_module();
    m.types = vec![ModuleType::Function(0)];
    m.functions = vec![0, 0];
    m.table_plans = vec![TablePlan { minimum: 4, maximum: None }];
    m.table_initializers = inits;
    m
}

fn allocate_functions(module: &Module) -> Instance {
    let alloc = OnDemandInstanceAllocator::default();
    alloc
        .allocate(request(module, no_imports(), vec![0x1000, 0x2000], SharedSignatures::Always(9)), &mut None::<NoLimits>)
        .unwrap()
}

#[test]
fn element_segment_writes_function_references() {
    let module = table_module(vec![TableInitializer { table_index: 0, base: None, offset: 1, elements: vec![1, 0] }]);
    let alloc = OnDemandInstanceAllocator::default();
    let mut inst = allocate_functions(&module);
    alloc.initialize(&mut inst, &module, false).unwrap();
    let base = CTX as u128 + inst.offsets.anyfuncs as u128;
    let size = 3 * inst.offsets.ptr as u128;
    assert_eq!(inst.tables[0], vec![0, base + size, base, 0]);
}

#[test]
fn element_segment_does_not_fit() {
    let module = table_module(vec![TableInitializer { table_index: 0, base: None, offset: 3, elements: vec![0, 1] }]);
    let alloc = OnDemandInstanceAllocator::default();
    let mut inst = allocate_functions(&module);
    let err = alloc.initialize(&mut inst, &module, false).unwrap_err();
    assert_eq!(link_message(&err), "table out of bounds: elements segment does not fit");
    let mut inst = allocate_functions(&module);
    match alloc.initialize(&mut inst, &module, true).unwrap_err() {
        InstantiationError::Trap(t) => assert_eq!(t.code, TrapCode::TableOutOfBounds),
        other => panic!("expected a trap, got {:?}", other),
    }
}

#[test]
fn element_segment_global_base_overflows() {
    let mut module = table_module(vec![TableInitializer { table_index: 0, base: Some(0), offset: 0xFFFF_FFFF, elements: vec![] }]);
    module.num_imported_globals = 1;
    module.globals = vec![Global { wasm_ty: WasmType::I32, initializer: GlobalInit::Import }];
    let alloc = OnDemandInstanceAllocator::default();
    let imports = Imports { functions: vec![], tables: vec![], memories: vec![], globals: vec![1] };
    let mut inst = alloc
        .allocate(request(&module, imports, vec![0x1000, 0x2000], SharedSignatures::Always(9)), &mut None::<NoLimits>)
        .unwrap();
    let err = alloc.initialize(&mut inst, &module, false).unwrap_err();
    assert_eq!(link_message(&err), "element segment global base overflows");
}

fn paged_module(out_of_bounds: bool) -> Module {
    let mut m = empty_module();
    m.memory_plans = vec![memory_plan(2)];
    m.memory_initialization = MemoryInitialization::Paged {
        map: vec![PagedMemory { defined_index: 0, pages: vec![None, Some(vec![5u8; PAGE])] }],
        out_of_bounds,
    };
    m
}

#[test]
fn paged_init_copies_pages() {
    let module = paged_module(false);
    let alloc = OnDemandInstanceAllocator::default();
    let mut inst = allocate(&module);
    alloc.initialize(&mut inst, &module, false).unwrap();
    assert!(inst.memories[0][..PAGE].iter().all(|b| *b == 0));
    assert!(inst.memories[0][PAGE..].iter().all(|b| *b == 5));
}

#[test]
fn paged_init_out_of_bounds() {
    let module = paged_module(true);
    let alloc = OnDemandInstanceAllocator::default();
    let mut inst = allocate(&module);
    let err = alloc.initialize(&mut inst, &module, false).unwrap_err();
    assert_eq!(link_message(&err), "memory out of bounds: data segment does not fit");
    assert!(inst.memories[0].iter().all(|b| *b == 0));
    let mut inst = allocate(&module);
    match alloc.initialize(&mut inst, &module, true).unwrap_err() {
        InstantiationError::Trap(t) => assert_eq!(t.code, TrapCode::HeapOutOfBounds),
        other => panic!("expected a trap, got {:?}", other),
    }
    assert!(inst.memories[0][PAGE..].iter().all(|b| *b == 5));
}

#[test]
fn anyfunc_table_and_signature_ids() {
    let mut module = empty_module();
    module.types = vec![ModuleType::Function(0), ModuleType::Other, ModuleType::Function(1)];
    module.functions = vec![1, 0, 1];
    module.num_imported_funcs = 1;
    let imports = Imports {
        functions: vec![VMFunctionImport { body: 0xAAAA, vmctx: 0xBBBB }],
        tables: vec![],
        memories: vec![],
        globals: vec![],
    };
    let alloc = OnDemandInstanceAllocator::default();
    let store = StoreHook { interrupts: 0x11, externref_activations_table: 0x22, store: 0x33 };
    let mut req = request(&module, imports, vec![0x1000, 0x2000], SharedSignatures::Table(vec![40, 41]));
    req.store = Some(store);
    let inst = alloc.allocate(req, &mut Some(NoLimits)).unwrap();
    assert_eq!(inst.signature_ids, vec![40, INVALID_SIGNATURE_ID, 41]);
    assert_eq!(inst.anyfuncs.len(), 3);
    assert_eq!((inst.anyfuncs[0].func_ptr, inst.anyfuncs[0].type_index, inst.anyfuncs[0].vmctx), (0xAAAA, 41, 0xBBBB));
    assert_eq!((inst.anyfuncs[1].func_ptr, inst.anyfuncs[1].type_index, inst.anyfuncs[1].vmctx), (0x1000, 40, CTX));
    assert_eq!((inst.anyfuncs[2].func_ptr, inst.anyfuncs[2].type_index, inst.anyfuncs[2].vmctx), (0x2000, 41, CTX));
    assert_eq!(inst.imported_functions, vec![VMFunctionImport { body: 0xAAAA, vmctx: 0xBBBB }]);
    assert_eq!((inst.interrupts, inst.externref_activations_table, inst.store), (0x11, 0x22, Some(0x33)));
}

#[test]
fn defined_globals_initialized() {
    let mut module = empty_module();
    module.types = vec![ModuleType::Function(0)];
    module.functions = vec![0];
    module.num_imported_globals = 1;
    module.globals = vec![
        Global { wasm_ty: WasmType::I64, initializer: GlobalInit::Import },
        Global { wasm_ty: WasmType::I32, initializer: GlobalInit::I32Const(-1) },
        Global { wasm_ty: WasmType::I64, initializer: GlobalInit::GetGlobal(0) },
        Global { wasm_ty: WasmType::FuncRef, initializer: GlobalInit::RefFunc(0) },
        Global { wasm_ty: WasmType::ExternRef, initializer: GlobalInit::RefNullConst },
        Global { wasm_ty: WasmType::V128, initializer: GlobalInit::V128Const(1 << 100) },
        Global { wasm_ty: WasmType::F64, initializer: GlobalInit::F64Const(0x4000_0000_0000_0000) },
        Global { wasm_ty: WasmType::I64, initializer: GlobalInit::I64Const(-2) },
    ];
    let imports = Imports { functions: vec![], tables: vec![], memories: vec![], globals: vec![77] };
    let alloc = OnDemandInstanceAllocator::default();
    let inst = alloc
        .allocate(request(&module, imports, vec![0x1000], SharedSignatures::Always(3)), &mut None::<NoLimits>)
        .unwrap();
    let anyfunc0 = CTX as u128 + inst.offsets.anyfuncs as u128;
    assert_eq!(
        inst.globals,
        vec![77, 0xFFFF_FFFF, 77, anyfunc0, 0, 1 << 100, 0x4000_0000_0000_0000, 0xFFFF_FFFF_FFFF_FFFE]
    );
}

#[test]
fn limiter_vetoes_memory() {
    let mut module = empty_module();
    module.memory_plans = vec![memory_plan(1)];
    let alloc = OnDemandInstanceAllocator::default();
    let err = alloc
        .allocate(request(&module, no_imports(), vec![], SharedSignatures::Empty), &mut Some(Deny))
        .unwrap_err();
    assert!(matches!(err, InstantiationError::Resource(_)));
}

#[test]
fn limiter_vetoes_table() {
    let mut module = empty_module();
    module.table_plans = vec![TablePlan { minimum: 1, maximum: None }];
    let alloc = OnDemandInstanceAllocator::default();
    let err = alloc
        .allocate(request(&module, no_imports(), vec![], SharedSignatures::Empty), &mut Some(Deny))
        .unwrap_err();
    assert!(matches!(err, InstantiationError::Resource(_)));
}

#[test]
fn memory_over_allocator_limit() {
    let mut module = empty_module();
    module.memory_plans = vec![memory_plan(65_537)];
    let alloc = OnDemandInstanceAllocator::default();
    let err = alloc
        .allocate(request(&module, no_imports(), vec![], SharedSignatures::Empty), &mut None::<NoLimits>)
        .unwrap_err();
    assert!(matches!(err, InstantiationError::Resource(_)));
}

#[test]
fn imported_memory_is_kept_and_initialized() {
    let mut module = two_page_module(vec![segment(1, vec![9])]);
    module.num_imported_memories = 1;
    let alloc = OnDemandInstanceAllocator::default();
    let imports = Imports { functions: vec![], tables: vec![], memories: vec![vec![3u8; 4]], globals: vec![] };
    let mut inst = alloc
        .allocate(request(&module, imports, vec![], SharedSignatures::Empty), &mut None::<NoLimits>)
        .unwrap();
    alloc.initialize(&mut inst, &module, false).unwrap();
    assert_eq!(inst.memories, vec![vec![3, 9, 3, 3]]);
}

#[test]
fn context_layout_of_minimal_module() {
    let mut module = empty_module();
    module.memory_plans = vec![memory_plan(1)];
    let o = module_offsets(8, &module);
    assert_eq!(o.interrupts, 0);
    assert_eq!(o.signature_ids, 32);
    assert_eq!(o.defined_memories, 32);
    assert_eq!(o.defined_globals, 48);
    assert_eq!(o.anyfuncs, 48);
    assert_eq!(o.builtin_functions, 48);
    assert_eq!(o.size, 48 + 20 * 8);
    assert_eq!(alloc_layout(100, &o), Some(100 + 208));
    assert_eq!(alloc_layout(usize::MAX, &o), None);
}

#[test]
fn context_layout_round_trip() {
    let mut module = empty_module();
    module.types = vec![ModuleType::Function(0), ModuleType::Function(1)];
    module.functions = vec![0, 1, 1];
    module.num_imported_funcs = 1;
    module.table_plans = vec![TablePlan { minimum: 1, maximum: None }];
    module.memory_plans = vec![memory_plan(1), memory_plan(1)];
    module.num_imported_memories = 1;
    module.globals = vec![Global { wasm_ty: WasmType::I32, initializer: GlobalInit::I32Const(0) }];
    let o = module_offsets(8, &module);
    assert_eq!(o.imported_functions, 32 + 2 * 4);
    assert_eq!(o.imported_tables, 40 + 16);
    assert_eq!(o.imported_memories, 56);
    assert_eq!(o.imported_globals, 56 + 16);
    assert_eq!(o.defined_tables, 72);
    assert_eq!(o.defined_memories, 72 + 16);
    assert_eq!(o.defined_globals, 128);
    assert_eq!(o.anyfuncs, 144);
    assert_eq!(o.builtin_functions, 144 + 24 * 4);
    let total = alloc_layout(64, &o).unwrap();
    assert!(total >= 64 + o.size as usize);
    for off in [o.signature_ids, o.imported_functions, o.defined_globals, o.anyfuncs, o.builtin_functions] {
        assert!(off <= o.size);
    }
}

#[test]
fn fiber_stack_not_supported_without_size() {
    let alloc = OnDemandInstanceAllocator::new(0);
    assert!(matches!(alloc.allocate_fiber_stack(), Err(FiberStackError::NotSupported)));
}

#[test]
fn fiber_stack_allocated() {
    let alloc = OnDemandInstanceAllocator::new(64 * 1024);
    let stack = alloc.allocate_fiber_stack().unwrap();
    alloc.deallocate_fiber_stack(&stack);
}

#[test]
fn fiber_stack_too_large() {
    let alloc = OnDemandInstanceAllocator::new(usize::MAX);
    assert!(matches!(alloc.allocate_fiber_stack(), Err(FiberStackError::Resource(_))));
}
