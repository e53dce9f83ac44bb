use wasm_instance::abi::{
    blank_sig, func_signature, host_call_conv, indirect_signature, value_type, wasmtime_call_conv, AbiParam,
    ArgumentPurpose, CallConv, IrType, TargetCallingConvention, TypeTables, WasmFuncType, WasmType,
};
use wasm_instance::interrupts::{
    classify_stack_limit, loop_header_traps, prologue_traps, stack_overflow_label, StackLimitState, TrapLabel,
    VMInterrupts, INTERRUPTED, INTERRUPT_MARGIN, STACK_LIMIT_UNSET,
};
use wasm_instance::module::{MemoryInitialization, Module};
use wasm_instance::signatures::SharedSignatures;

fn param(t: IrType) -> AbiParam {
    AbiParam { value_type: t, purpose: ArgumentPurpose::Normal }
}

#[test]
fn interrupt_during_loop() {
    let mut interrupts = VMInterrupts::new();
    interrupts.set_stack_limit(0x7000_0000);
    let sp: usize = 0x7000_8000;
    let mut iterations = 0;
    let mut trapped_at = None;
    for i in 0..1000 {
        if i == 10 {
            interrupts.interrupt();
        }
        if loop_header_traps(sp, interrupts.stack_limit) {
            trapped_at = Some(i);
            break;
        }
        iterations += 1;
    }
    assert_eq!(trapped_at, Some(10));
    assert_eq!(iterations, 10);
    assert_eq!(stack_overflow_label(interrupts.stack_limit), TrapLabel::Interrupted);
}

#[test]
fn real_overflow_is_labeled_stack_overflow() {
    let limit = 0x7000_0000;
    assert!(prologue_traps(limit - 1, 16, limit));
    assert_eq!(stack_overflow_label(limit), TrapLabel::StackOverflow);
    assert_eq!(stack_overflow_label(STACK_LIMIT_UNSET), TrapLabel::StackOverflow);
}

#[test]
fn sentinel_classification() {
    assert_eq!(classify_stack_limit(usize::MAX), StackLimitState::Unset);
    assert_eq!(classify_stack_limit(INTERRUPTED), StackLimitState::Interrupted);
    assert_eq!(INTERRUPTED, usize::MAX - 32 * 1024);
    for n in [0, 1, INTERRUPT_MARGIN - 1, INTERRUPT_MARGIN] {
        assert_ne!(classify_stack_limit(usize::MAX - n), StackLimitState::Limit(usize::MAX - n));
    }
    assert_eq!(
        classify_stack_limit(usize::MAX - INTERRUPT_MARGIN - 1),
        StackLimitState::Limit(usize::MAX - INTERRUPT_MARGIN - 1)
    );
    assert_eq!(classify_stack_limit(0x1000), StackLimitState::Limit(0x1000));
}

#[test]
fn prologue_checks() {
    let limit = 0x1000;
    assert!(!prologue_traps(0x2000, 16, limit));
    assert!(prologue_traps(0x2000, 0x1000 + INTERRUPT_MARGIN, limit));
    assert!(!prologue_traps(0x2000 + INTERRUPT_MARGIN, INTERRUPT_MARGIN, limit));
    assert!(prologue_traps(0x2000, 16, STACK_LIMIT_UNSET));
    assert!(prologue_traps(0x7fff_0000, 16, INTERRUPTED));
}

#[test]
fn value_types() {
    assert_eq!(value_type(IrType::I64, WasmType::I32), IrType::I32);
    assert_eq!(value_type(IrType::I64, WasmType::I64), IrType::I64);
    assert_eq!(value_type(IrType::I64, WasmType::F32), IrType::F32);
    assert_eq!(value_type(IrType::I64, WasmType::F64), IrType::F64);
    assert_eq!(value_type(IrType::I64, WasmType::V128), IrType::I8X16);
    assert_eq!(value_type(IrType::I64, WasmType::FuncRef), IrType::I64);
    assert_eq!(value_type(IrType::I64, WasmType::ExternRef), IrType::R64);
    assert_eq!(value_type(IrType::I32, WasmType::ExternRef), IrType::R32);
}

#[test]
fn default_conventions() {
    assert_eq!(wasmtime_call_conv(Ok(TargetCallingConvention::SystemV)), CallConv::WasmtimeSystemV);
    assert_eq!(wasmtime_call_conv(Err(())), CallConv::WasmtimeSystemV);
    assert_eq!(wasmtime_call_conv(Ok(TargetCallingConvention::WindowsFastcall)), CallConv::WasmtimeFastcall);
    assert_eq!(wasmtime_call_conv(Ok(TargetCallingConvention::AppleAarch64)), CallConv::WasmtimeAppleAarch64);
}

#[test]
fn host_convention_is_a_default_one() {
    let cc = host_call_conv();
    assert!(cc.is_some());
    assert_ne!(cc, Some(CallConv::Fast));
}

#[test]
fn blank_signature_has_context_params() {
    let sig = blank_sig(IrType::I64, CallConv::Fast);
    assert_eq!(sig.params, vec![AbiParam { value_type: IrType::I64, purpose: ArgumentPurpose::VMContext }, param(IrType::I64)]);
    assert!(sig.returns.is_empty());
}

fn module_with_functions() -> Module {
    Module {
        types: vec![],
        functions: vec![0, 0, 0],
        num_imported_funcs: 1,
        num_imported_tables: 0,
        num_imported_memories: 0,
        num_imported_globals: 0,
        memory_plans: vec![],
        table_plans: vec![],
        globals: vec![],
        table_initializers: vec![],
        memory_initialization: MemoryInitialization::Segmented(vec![]),
        possibly_exported_funcs: vec![1],
        passive_elements: 0,
        passive_data: 0,
    }
}

#[test]
fn signatures_choose_convention() {
    let module = module_with_functions();
    let types = TypeTables {
        wasm_signatures: vec![WasmFuncType { params: vec![WasmType::I32, WasmType::ExternRef], returns: vec![WasmType::F64] }],
    };
    let default = Ok(TargetCallingConvention::WindowsFastcall);
    let imported = func_signature(IrType::I64, default, &module, &types, 0);
    let internal = func_signature(IrType::I64, default, &module, &types, 1);
    let exported = func_signature(IrType::I64, default, &module, &types, 2);
    assert_eq!(imported.call_conv, CallConv::WasmtimeFastcall);
    assert_eq!(internal.call_conv, CallConv::Fast);
    assert_eq!(exported.call_conv, CallConv::WasmtimeFastcall);
    assert_eq!(
        internal.params,
        vec![
            AbiParam { value_type: IrType::I64, purpose: ArgumentPurpose::VMContext },
            param(IrType::I64),
            param(IrType::I32),
            param(IrType::R64),
        ]
    );
    assert_eq!(internal.returns, vec![param(IrType::F64)]);
    let indirect = indirect_signature(IrType::I64, default, &types.wasm_signatures[0]);
    assert_eq!(indirect.call_conv, CallConv::WasmtimeFastcall);
    assert_eq!(indirect.params, internal.params);
}

#[test]
fn shared_signature_lookup() {
    assert_eq!(SharedSignatures::Table(vec![5, 6]).lookup(1), 6);
    assert_eq!(SharedSignatures::Always(4).lookup(100), 4);
    assert!(matches!(SharedSignatures::from(7u32), SharedSignatures::Always(7)));
    assert!(matches!(SharedSignatures::from(None::<u32>), SharedSignatures::Empty));
    assert!(matches!(SharedSignatures::from(Some(8u32)), SharedSignatures::Always(8)));
}
