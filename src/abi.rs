//! Calling-convention descriptors for compiled WebAssembly functions.
//!
//! Every compiled function takes the callee's and the caller's context
//! pointers first, then its WebAssembly parameters.
use vstd::prelude::*;
use crate::module::Module;

verus! {

/// A WebAssembly value type.
#[derive(Clone, Copy, Debug, PartialEq, Eq, Structural)]
pub enum WasmType {
    I32,
    I64,
    F32,
    F64,
    V128,
    FuncRef,
    ExternRef,
    ExnRef,
}

/// A machine-level value type of the code generator.
#[derive(Clone, Copy, Debug, PartialEq, Eq, Structural)]
pub enum IrType {
    I32,
    I64,
    F32,
    F64,
    I8X16,
    R32,
    R64,
}

/// What a parameter is for, beyond carrying a value.
#[derive(Clone, Copy, Debug, PartialEq, Eq, Structural)]
pub enum ArgumentPurpose {
    Normal,
    VMContext,
}

/// One parameter or return value of a signature.
#[derive(Clone, Copy, Debug, PartialEq, Eq, Structural)]
pub struct AbiParam {
    pub value_type: IrType,
    pub purpose: ArgumentPurpose,
}

/// Calling conventions a compiled function may use.
#[derive(Clone, Copy, Debug, PartialEq, Eq, Structural)]
pub enum CallConv {
    /// Internal convention, only for functions that never escape their module.
    Fast,
    WasmtimeSystemV,
    WasmtimeFastcall,
    WasmtimeAppleAarch64,
}

/// The platform calling convention that a target triple names by default.
#[derive(Clone, Copy, Debug, PartialEq, Eq, Structural)]
pub enum TargetCallingConvention {
    SystemV,
    WasmBasicCAbi,
    WindowsFastcall,
    AppleAarch64,
    Other,
}

/// A code-generator signature: convention, parameters and returns.
#[derive(Clone, Debug)]
pub struct Signature {
    pub call_conv: CallConv,
    pub params: Vec<AbiParam>,
    pub returns: Vec<AbiParam>,
}

/// The type of a WebAssembly function.
#[derive(Clone, Debug)]
pub struct WasmFuncType {
    pub params: Vec<WasmType>,
    pub returns: Vec<WasmType>,
}

pub open spec fn normal_param(t: IrType) -> AbiParam {
    AbiParam { value_type: t, purpose: ArgumentPurpose::Normal }
}

/// A pointer type of the code generator is a 32- or 64-bit integer.
pub open spec fn is_pointer_type(t: IrType) -> bool {
    t == IrType::I32 || t == IrType::I64
}

/// The reference type whose width matches the given pointer type.
pub open spec fn spec_reference_type(pointer_type: IrType) -> IrType {
    if pointer_type == IrType::I32 {
        IrType::R32
    } else {
        IrType::R64
    }
}

pub open spec fn spec_value_type(pointer_type: IrType, ty: WasmType) -> IrType {
    match ty {
        WasmType::I32 => IrType::I32,
        WasmType::I64 => IrType::I64,
        WasmType::F32 => IrType::F32,
        WasmType::F64 => IrType::F64,
        WasmType::V128 => IrType::I8X16,
        WasmType::FuncRef => pointer_type,
        _ => spec_reference_type(pointer_type),
    }
}

/// Every type of the sequence has a machine-level counterpart.
pub open spec fn supported_types(tys: Seq<WasmType>) -> bool {
    forall|i: int| 0 <= i < tys.len() ==> tys[i] != WasmType::ExnRef
}

pub open spec fn spec_params(pointer_type: IrType, tys: Seq<WasmType>) -> Seq<AbiParam> {
    tys.map_values(|t: WasmType| normal_param(spec_value_type(pointer_type, t)))
}

/// The two context parameters that open every signature.
pub open spec fn context_params(pointer_type: IrType) -> Seq<AbiParam> {
    seq![
        AbiParam { value_type: pointer_type, purpose: ArgumentPurpose::VMContext },
        normal_param(pointer_type),
    ]
}

/// The full signature of a function of type `wasm` under `call_conv`.
pub open spec fn signature_matches(
    sig: Signature,
    pointer_type: IrType,
    call_conv: CallConv,
    wasm: WasmFuncType,
) -> bool {
    &&& sig.call_conv == call_conv
    &&& sig.params@ == context_params(pointer_type) + spec_params(pointer_type, wasm.params@)
    &&& sig.returns@ == spec_params(pointer_type, wasm.returns@)
}

pub open spec fn spec_wasmtime_call_conv(default: Result<TargetCallingConvention, ()>) -> CallConv {
    match default {
        Ok(TargetCallingConvention::AppleAarch64) => CallConv::WasmtimeAppleAarch64,
        Ok(TargetCallingConvention::WindowsFastcall) => CallConv::WasmtimeFastcall,
        _ => CallConv::WasmtimeSystemV,
    }
}

/// The target conventions for which a default convention is defined.
pub open spec fn known_convention(default: Result<TargetCallingConvention, ()>) -> bool {
    match default {
        Ok(TargetCallingConvention::SystemV) => true,
        Ok(TargetCallingConvention::WindowsFastcall) => true,
        Ok(TargetCallingConvention::AppleAarch64) => true,
        Ok(_) => false,
        Err(_) => true,
    }
}

/// A signature with the two context parameters and nothing else.
pub fn blank_sig(pointer_type: IrType, call_conv: CallConv) -> (sig: Signature)
    ensures
        sig.call_conv == call_conv,
        sig.params@ == context_params(pointer_type),
        sig.returns@.len() == 0,
{
    let mut params: Vec<AbiParam> = Vec::new();
    params.push(AbiParam { value_type: pointer_type, purpose: ArgumentPurpose::VMContext });
    params.push(AbiParam { value_type: pointer_type, purpose: ArgumentPurpose::Normal });
    proof {
        assert(params@ =~= context_params(pointer_type));
    }
    Signature { call_conv, params, returns: Vec::new() }
}

/// The default convention, used for every function that may escape its
/// module, given the target's own default.
pub fn wasmtime_call_conv(default: Result<TargetCallingConvention, ()>) -> (r: CallConv)
    requires
        known_convention(default),
    ensures
        r == spec_wasmtime_call_conv(default),
        r != CallConv::Fast,
{
    match default {
        Ok(TargetCallingConvention::AppleAarch64) => CallConv::WasmtimeAppleAarch64,
        Ok(TargetCallingConvention::WindowsFastcall) => CallConv::WasmtimeFastcall,
        _ => CallConv::WasmtimeSystemV,
    }
}

/// Reads the default calling convention of the host's target triple.
///
/// Relies on `target_lexicon::Triple::host` and
/// `target_lexicon::Triple::default_calling_convention`; nothing is claimed
/// of the result, which depends on the machine.
#[verifier::external_body]
fn host_default_calling_convention() -> (r: Result<TargetCallingConvention, ()>) {
    match target_lexicon::Triple::host().default_calling_convention() {
        Ok(target_lexicon::CallingConvention::SystemV) => Ok(TargetCallingConvention::SystemV),
        Ok(target_lexicon::CallingConvention::WasmBasicCAbi) => Ok(TargetCallingConvention::WasmBasicCAbi),
        Ok(target_lexicon::CallingConvention::WindowsFastcall) => Ok(TargetCallingConvention::WindowsFastcall),
        Ok(target_lexicon::CallingConvention::AppleAarch64) => Ok(TargetCallingConvention::AppleAarch64),
        Ok(_) => Ok(TargetCallingConvention::Other),
        Err(()) => Err(()),
    }
}

/// The default convention of the host, or `None` where the host's target
/// convention has no counterpart.
pub fn host_call_conv() -> (r: Option<CallConv>)
    ensures
        r.is_some() ==> r.unwrap() != CallConv::Fast,
{
    let default = host_default_calling_convention();
    if known_convention_exec(default) {
        Some(wasmtime_call_conv(default))
    } else {
        None
    }
}

fn known_convention_exec(default: Result<TargetCallingConvention, ()>) -> (r: bool)
    ensures
        r == known_convention(default),
{
    match default {
        Ok(TargetCallingConvention::SystemV) => true,
        Ok(TargetCallingConvention::WindowsFastcall) => true,
        Ok(TargetCallingConvention::AppleAarch64) => true,
        Ok(_) => false,
        Err(_) => true,
    }
}

/// The reference type of pointer width.
pub fn reference_type(pointer_type: IrType) -> (r: IrType)
    requires
        is_pointer_type(pointer_type),
    ensures
        r == spec_reference_type(pointer_type),
{
    if pointer_type == IrType::I32 {
        IrType::R32
    } else {
        IrType::R64
    }
}

/// The machine-level type of a WebAssembly value type.
pub fn value_type(pointer_type: IrType, ty: WasmType) -> (r: IrType)
    requires
        is_pointer_type(pointer_type),
        ty != WasmType::ExnRef,
    ensures
        r == spec_value_type(pointer_type, ty),
{
    match ty {
        WasmType::I32 => IrType::I32,
        WasmType::I64 => IrType::I64,
        WasmType::F32 => IrType::F32,
        WasmType::F64 => IrType::F64,
        WasmType::V128 => IrType::I8X16,
        WasmType::FuncRef => pointer_type,
        _ => reference_type(pointer_type),
    }
}

fn push_params(pointer_type: IrType, out: &mut Vec<AbiParam>, tys: &Vec<WasmType>)
    requires
        is_pointer_type(pointer_type),
        supported_types(tys@),
    ensures
        final(out)@ == old(out)@ + spec_params(pointer_type, tys@),
{
    let ghost start = out@;
    let mut i: usize = 0;
    while i < tys.len()
        invariant
            i <= tys.len(),
            is_pointer_type(pointer_type),
            supported_types(tys@),
            out@ == start + spec_params(pointer_type, tys@.subrange(0, i as int)),
        decreases tys.len() - i,
    {
        let t = value_type(pointer_type, tys[i]);
        out.push(AbiParam { value_type: t, purpose: ArgumentPurpose::Normal });
        i += 1;
        proof {
            assert(tys@.subrange(0, i as int) =~= tys@.subrange(0, i - 1) + seq![tys@[i - 1]]);
            assert(spec_params(pointer_type, tys@.subrange(0, i as int)) =~= spec_params(
                pointer_type,
                tys@.subrange(0, i - 1),
            ) + seq![normal_param(t)]);
        }
    }
    proof {
        assert(tys@.subrange(0, i as int) =~= tys@);
    }
}

/// Appends the parameters and returns of `wasm` to `sig`.
pub fn push_types(pointer_type: IrType, sig: &mut Signature, wasm: &WasmFuncType)
    requires
        is_pointer_type(pointer_type),
        supported_types(wasm.params@),
        supported_types(wasm.returns@),
    ensures
        final(sig).call_conv == old(sig).call_conv,
        final(sig).params@ == old(sig).params@ + spec_params(pointer_type, wasm.params@),
        final(sig).returns@ == old(sig).returns@ + spec_params(pointer_type, wasm.returns@),
{
    push_params(pointer_type, &mut sig.params, &wasm.params);
    push_params(pointer_type, &mut sig.returns, &wasm.returns);
}

/// The signature for calling a function of type `wasm` indirectly. The target
/// may be exported, so the default convention is used.
pub fn indirect_signature(
    pointer_type: IrType,
    default: Result<TargetCallingConvention, ()>,
    wasm: &WasmFuncType,
) -> (sig: Signature)
    requires
        is_pointer_type(pointer_type),
        known_convention(default),
        supported_types(wasm.params@),
        supported_types(wasm.returns@),
    ensures
        signature_matches(sig, pointer_type, spec_wasmtime_call_conv(default), *wasm),
{
    let mut sig = blank_sig(pointer_type, wasmtime_call_conv(default));
    push_types(pointer_type, &mut sig, wasm);
    proof {
        assert(sig.returns@ =~= spec_params(pointer_type, wasm.returns@));
    }
    sig
}


/// The WebAssembly function types of a module, by signature index.
#[derive(Clone, Debug)]
pub struct TypeTables {
    pub wasm_signatures: Vec<WasmFuncType>,
}

/// The convention of function `index`: the internal one for a defined
/// function that never escapes its module, the default one otherwise.
pub open spec fn spec_func_call_conv(
    module: Module,
    index: int,
    default: Result<TargetCallingConvention, ()>,
) -> CallConv {
    if module.is_defined_func(index) && !module.escapes(index - module.num_imported_funcs) {
        CallConv::Fast
    } else {
        spec_wasmtime_call_conv(default)
    }
}

/// The signature of function `index` of `module`.
pub fn func_signature(
    pointer_type: IrType,
    default: Result<TargetCallingConvention, ()>,
    module: &Module,
    types: &TypeTables,
    index: usize,
) -> (sig: Signature)
    requires
        is_pointer_type(pointer_type),
        module.num_imported_funcs <= module.functions.len(),
        index < module.functions.len(),
        module.functions[index as int] < types.wasm_signatures.len(),
        supported_types(types.wasm_signatures[module.functions[index as int] as int].params@),
        supported_types(types.wasm_signatures[module.functions[index as int] as int].returns@),
        spec_func_call_conv(*module, index as int, default) != CallConv::Fast ==> known_convention(default),
    ensures
        signature_matches(
            sig,
            pointer_type,
            spec_func_call_conv(*module, index as int, default),
            types.wasm_signatures[module.functions[index as int] as int],
        ),
{
    let call_conv = match module.defined_func_index(index) {
        Some(idx) => if !module.is_possibly_exported(idx) {
            CallConv::Fast
        } else {
            wasmtime_call_conv(default)
        },
        None => wasmtime_call_conv(default),
    };
    let mut sig = blank_sig(pointer_type, call_conv);
    let wasm = &types.wasm_signatures[module.functions[index] as usize];
    push_types(pointer_type, &mut sig, wasm);
    proof {
        assert(sig.returns@ =~= spec_params(pointer_type, wasm.returns@));
    }
    sig
}

} // verus!
