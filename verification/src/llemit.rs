//! The calls into LLVM (through `inkwell`) that the LLVM code generator
//! makes: target setup, module and function declarations, string globals,
//! one builder call per instruction kind, and object emission. Each wrapper
//! hands its arguments to one `inkwell` function; LLVM's own errors come
//! back as their `Display` text.
//!
//! The LLVM here uses typed pointers: the IR's pointer type is `i8*`, and a
//! pointer is cast to the pointee's pointer type before a load or store.

use vstd::prelude::*;
use crate::ir::div_toward_zero;
use inkwell::basic_block::BasicBlock as InkBlock;
use inkwell::builder::Builder;
use inkwell::context::Context;
use inkwell::module::Module as InkModule;
use inkwell::targets::{CodeModel, FileType, InitializationConfig, RelocMode, Target, TargetMachine, TargetTriple};
use inkwell::types::{BasicMetadataTypeEnum, BasicType, BasicTypeEnum};
use inkwell::values::{ArrayValue, ScalableVectorValue, StructValue, VectorValue};
use inkwell::values::{BasicValue, BasicValueEnum, FloatValue, FunctionValue, GlobalValue, InstructionValue, IntValue, PhiValue, PointerValue};
use inkwell::{AddressSpace, OptimizationLevel};
use crate::llvm::LlvmOptLevel;

verus! {

#[verifier::external_type_specification]
#[verifier::external_body]
pub struct ExInkContext(Context);

#[verifier::external_type_specification]
#[verifier::external_body]
pub struct ExInkModule<'ctx>(InkModule<'ctx>);

#[verifier::external_type_specification]
#[verifier::external_body]
pub struct ExInkBuilder<'ctx>(Builder<'ctx>);

#[verifier::external_type_specification]
#[verifier::external_body]
pub struct ExInkTargetMachine(TargetMachine);

#[verifier::external_type_specification]
#[verifier::external_body]
pub struct ExInkTarget(Target);

#[verifier::external_type_specification]
#[verifier::external_body]
pub struct ExInkTargetTriple(TargetTriple);

#[verifier::external_type_specification]
#[verifier::external_body]
pub struct ExInkOptimizationLevel(OptimizationLevel);

#[verifier::external_type_specification]
pub struct ExInkBasicValue<'ctx>(BasicValueEnum<'ctx>);

#[verifier::external_type_specification]
#[verifier::external_body]
pub struct ExInkArrayValue<'ctx>(ArrayValue<'ctx>);

#[verifier::external_type_specification]
#[verifier::external_body]
pub struct ExInkStructValue<'ctx>(StructValue<'ctx>);

#[verifier::external_type_specification]
#[verifier::external_body]
pub struct ExInkVectorValue<'ctx>(VectorValue<'ctx>);

#[verifier::external_type_specification]
#[verifier::external_body]
pub struct ExInkScalableVectorValue<'ctx>(ScalableVectorValue<'ctx>);

#[verifier::external_type_specification]
#[verifier::external_body]
pub struct ExInkIntValue<'ctx>(IntValue<'ctx>);

#[verifier::external_type_specification]
#[verifier::external_body]
pub struct ExInkFloatValue<'ctx>(FloatValue<'ctx>);

#[verifier::external_type_specification]
#[verifier::external_body]
pub struct ExInkPointerValue<'ctx>(PointerValue<'ctx>);

#[verifier::external_type_specification]
#[verifier::external_body]
pub struct ExInkFunctionValue<'ctx>(FunctionValue<'ctx>);

#[verifier::external_type_specification]
#[verifier::external_body]
pub struct ExInkGlobalValue<'ctx>(GlobalValue<'ctx>);

#[verifier::external_type_specification]
#[verifier::external_body]
pub struct ExInkPhiValue<'ctx>(PhiValue<'ctx>);

#[verifier::external_type_specification]
#[verifier::external_body]
pub struct ExInkInstructionValue<'ctx>(InstructionValue<'ctx>);

#[verifier::external_type_specification]
#[verifier::external_body]
pub struct ExInkBasicType<'ctx>(BasicTypeEnum<'ctx>);

#[verifier::external_type_specification]
#[verifier::external_body]
pub struct ExInkBasicBlock<'ctx>(InkBlock<'ctx>);

/// The LLVM value types the code generator uses. `Ptr` is `i8*`.
#[derive(Clone, Copy, Debug, PartialEq, Eq, Structural)]
pub enum LTy {
    I1,
    I8,
    I32,
    I64,
    F64,
    Ptr,
}

/// The return type of a declared LLVM function.
#[derive(Clone, Copy, Debug, PartialEq, Eq, Structural)]
pub enum LRet {
    Void,
    Value(LTy),
}

/// The linkage of a declared LLVM function.
#[derive(Clone, Copy, Debug, PartialEq, Eq, Structural)]
pub enum LLinkage {
    External,
    Private,
}

/// Integer comparison predicates (signed).
#[derive(Clone, Copy, Debug, PartialEq, Eq, Structural)]
pub enum IPred {
    Eq,
    Ne,
    Slt,
    Sle,
    Sgt,
    Sge,
}

/// The value an integer instruction of kind `k` computes from operands `a`
/// and `b` (before wrapping to the operand width): `add`, `sub`, `mul`,
/// signed `div`; `None` for the other kinds.
pub open spec fn int_kind_value(k: LKind, a: int, b: int) -> Option<int> {
    match k {
        LKind::IntAdd => Some(a + b),
        LKind::IntSub => Some(a - b),
        LKind::IntMul => Some(a * b),
        LKind::IntSDiv => Some(div_toward_zero(a, b)),
        _ => None,
    }
}

/// Whether LLVM's integer predicate `p` holds between `a` and `b`, the
/// operands read as signed integers.
pub open spec fn ipred_holds(p: IPred, a: int, b: int) -> bool {
    match p {
        IPred::Eq => a == b,
        IPred::Ne => a != b,
        IPred::Slt => a < b,
        IPred::Sle => a <= b,
        IPred::Sgt => a > b,
        IPred::Sge => a >= b,
    }
}

/// Whether LLVM's ordered floating-point predicate `p` holds between two
/// numbers (neither a NaN) whose order is that of `a` and `b`.
pub open spec fn fpred_holds(p: FPred, a: int, b: int) -> bool {
    match p {
        FPred::Oeq => a == b,
        FPred::One => a != b,
        FPred::Olt => a < b,
        FPred::Ole => a <= b,
        FPred::Ogt => a > b,
        FPred::Oge => a >= b,
    }
}

/// Ordered floating-point comparison predicates.
#[derive(Clone, Copy, Debug, PartialEq, Eq, Structural)]
pub enum FPred {
    Oeq,
    One,
    Olt,
    Ole,
    Ogt,
    Oge,
}

/// Converts an optimisation level to inkwell's `OptimizationLevel`.
#[verifier::external_body]
fn ink_opt_level(l: LlvmOptLevel) -> OptimizationLevel {
    match l {
        LlvmOptLevel::NoOpt => OptimizationLevel::None,
        LlvmOptLevel::Less => OptimizationLevel::Less,
        LlvmOptLevel::Default => OptimizationLevel::Default,
        LlvmOptLevel::Aggressive => OptimizationLevel::Aggressive,
    }
}

/// Converts a value type to the context's LLVM type (`Ptr` is `i8*`).
#[verifier::external_body]
fn ink_type<'ctx>(ctx: &'ctx Context, t: LTy) -> BasicTypeEnum<'ctx> {
    match t {
        LTy::I1 => ctx.bool_type().into(),
        LTy::I8 => ctx.i8_type().into(),
        LTy::I32 => ctx.i32_type().into(),
        LTy::I64 => ctx.i64_type().into(),
        LTy::F64 => ctx.f64_type().into(),
        LTy::Ptr => ctx.i8_type().ptr_type(AddressSpace::default()).into(),
    }
}

/// `Target::initialize_all` with every component (parsers, printers,
/// target info, machine code) switched on.
#[verifier::external_body]
pub(crate) fn initialize_all_targets() {
    Target::initialize_all(&InitializationConfig {
        asm_parser: true,
        asm_printer: true,
        base: true,
        disassembler: true,
        info: true,
        machine_code: true,
    });
}

/// `Context::create_module`.
#[verifier::external_body]
pub(crate) fn create_module<'ctx>(ctx: &'ctx Context, name: &str) -> InkModule<'ctx> {
    ctx.create_module(name)
}

/// `Context::create_builder`.
#[verifier::external_body]
pub(crate) fn create_builder<'ctx>(ctx: &'ctx Context) -> Builder<'ctx> {
    ctx.create_builder()
}

/// `TargetMachine::get_default_triple`: the host's target triple.
#[verifier::external_body]
pub(crate) fn default_triple() -> TargetTriple {
    TargetMachine::get_default_triple()
}

/// `Target::from_triple`; the error is LLVM's message.
#[verifier::external_body]
pub(crate) fn target_from_triple(triple: &TargetTriple) -> Result<Target, String> {
    Target::from_triple(triple).map_err(|e| e.to_string())
}

/// `TargetMachine::get_host_cpu_name`, as text.
#[verifier::external_body]
pub(crate) fn host_cpu_name() -> String {
    TargetMachine::get_host_cpu_name().to_string_lossy().into_owned()
}

/// `TargetMachine::get_host_cpu_features`, as text.
#[verifier::external_body]
pub(crate) fn host_cpu_features() -> String {
    TargetMachine::get_host_cpu_features().to_string_lossy().into_owned()
}

/// How a target machine relocates code (inkwell's `RelocMode`).
#[derive(Clone, Copy, Debug, PartialEq, Eq, Structural)]
pub enum LReloc {
    Default,
    Static,
    Pic,
    DynamicNoPic,
}

/// The code model of a target machine (inkwell's `CodeModel`).
#[derive(Clone, Copy, Debug, PartialEq, Eq, Structural)]
pub enum LCodeModel {
    Default,
    JitDefault,
    Small,
    Kernel,
    Medium,
    Large,
}

/// `Target::create_target_machine` for `triple`, `cpu` and `features` at
/// optimisation level `level`, with relocation mode `reloc` and code model
/// `model`; `None` when LLVM cannot make one.
#[verifier::external_body]
pub(crate) fn create_target_machine(
    target: &Target,
    triple: &TargetTriple,
    cpu: &str,
    features: &str,
    level: LlvmOptLevel,
    reloc: LReloc,
    model: LCodeModel,
) -> Option<TargetMachine> {
    let rm = match reloc {
        LReloc::Default => RelocMode::Default,
        LReloc::Static => RelocMode::Static,
        LReloc::Pic => RelocMode::PIC,
        LReloc::DynamicNoPic => RelocMode::DynamicNoPic,
    };
    let cm = match model {
        LCodeModel::Default => CodeModel::Default,
        LCodeModel::JitDefault => CodeModel::JITDefault,
        LCodeModel::Small => CodeModel::Small,
        LCodeModel::Kernel => CodeModel::Kernel,
        LCodeModel::Medium => CodeModel::Medium,
        LCodeModel::Large => CodeModel::Large,
    };
    target.create_target_machine(triple, cpu, features, ink_opt_level(level), rm, cm)
}

/// `TargetMachine::get_triple`, as text.
#[verifier::external_body]
pub(crate) fn machine_triple(tm: &TargetMachine) -> String {
    tm.get_triple().as_str().to_string_lossy().into_owned()
}

/// `Module::verify`; the error is LLVM's message.
#[verifier::external_body]
pub(crate) fn verify_module(m: &InkModule) -> Result<(), String> {
    m.verify().map_err(|e| e.to_string())
}

/// `Module::run_passes` with the pass pipeline `pipeline` and default
/// `PassBuilderOptions`; the error is LLVM's message.
#[verifier::external_body]
pub(crate) fn run_passes(m: &InkModule, pipeline: &str, tm: &TargetMachine) -> Result<(), String> {
    m.run_passes(pipeline, tm, inkwell::passes::PassBuilderOptions::create()).map_err(|e| e.to_string())
}

/// `TargetMachine::write_to_memory_buffer` for an object file, as bytes;
/// the error is LLVM's message.
#[verifier::external_body]
pub(crate) fn write_object(tm: &TargetMachine, m: &InkModule) -> Result<Vec<u8>, String> {
    tm.write_to_memory_buffer(m, FileType::Object).map(|b| b.as_slice().to_vec()).map_err(|e| e.to_string())
}

/// `Module::print_to_string`: the module's textual LLVM IR.
#[verifier::external_body]
pub(crate) fn module_text(m: &InkModule) -> String {
    m.print_to_string().to_string()
}

/// `Module::add_function` with the function type `params -> ret`
/// (variadic when `variadic`) and linkage `linkage`.
#[verifier::external_body]
pub(crate) fn add_function<'ctx>(ctx: &'ctx Context, m: &InkModule<'ctx>, name: &str, params: &Vec<LTy>, ret: LRet, variadic: bool, linkage: LLinkage) -> FunctionValue<'ctx> {
    let ps: Vec<BasicMetadataTypeEnum<'ctx>> = params.iter().map(|t| ink_type(ctx, *t).into()).collect();
    let ty = match ret {
        LRet::Void => ctx.void_type().fn_type(&ps, variadic),
        LRet::Value(t) => ink_type(ctx, t).fn_type(&ps, variadic),
    };
    let l = match linkage {
        LLinkage::External => inkwell::module::Linkage::External,
        LLinkage::Private => inkwell::module::Linkage::Private,
    };
    m.add_function(name, ty, Some(l))
}

/// `Module::get_function`: the module's function named `name`, if any.
#[verifier::external_body]
pub(crate) fn get_function<'ctx>(m: &InkModule<'ctx>, name: &str) -> Option<FunctionValue<'ctx>> {
    m.get_function(name)
}

/// `FunctionValue::get_nth_param`.
#[verifier::external_body]
pub(crate) fn nth_param<'ctx>(f: FunctionValue<'ctx>, i: u32) -> Option<BasicValueEnum<'ctx>> {
    f.get_nth_param(i)
}

/// `Context::append_basic_block`: a new block at the end of `f`.
#[verifier::external_body]
pub(crate) fn append_block<'ctx>(ctx: &'ctx Context, f: FunctionValue<'ctx>, name: &str) -> InkBlock<'ctx> {
    ctx.append_basic_block(f, name)
}

/// `Module::add_global` of an `[len x i8]` array named `name`.
#[verifier::external_body]
pub(crate) fn add_byte_array_global<'ctx>(ctx: &'ctx Context, m: &InkModule<'ctx>, len: u32, name: &str) -> GlobalValue<'ctx> {
    m.add_global(ctx.i8_type().array_type(len), Some(AddressSpace::default()), name)
}

/// `GlobalValue::set_constant(true)`.
#[verifier::external_body]
pub(crate) fn set_global_constant(g: GlobalValue) {
    g.set_constant(true)
}

/// `GlobalValue::set_linkage(Linkage::Private)`.
#[verifier::external_body]
pub(crate) fn set_global_private(g: GlobalValue) {
    g.set_linkage(inkwell::module::Linkage::Private)
}

/// `GlobalValue::set_initializer` with the `i8` array constant
/// (`IntType::const_array`) holding `bytes`.
#[verifier::external_body]
pub(crate) fn set_global_bytes<'ctx>(ctx: &'ctx Context, g: GlobalValue<'ctx>, bytes: &Vec<u8>) {
    let i8t = ctx.i8_type();
    let vals: Vec<IntValue<'ctx>> = bytes.iter().map(|b| i8t.const_int(*b as u64, false)).collect();
    g.set_initializer(&i8t.const_array(&vals))
}

/// The global's address cast to `i8*` (`PointerValue::const_cast`).
#[verifier::external_body]
pub(crate) fn global_address<'ctx>(ctx: &'ctx Context, g: GlobalValue<'ctx>) -> BasicValueEnum<'ctx> {
    g.as_pointer_value().const_cast(ctx.i8_type().ptr_type(AddressSpace::default())).into()
}

/// `IntType::const_int` of the integer type `t`; `sign_extend` as there.
#[verifier::external_body]
pub(crate) fn const_int<'ctx>(ctx: &'ctx Context, t: LTy, v: u64, sign_extend: bool) -> IntValue<'ctx>
    requires
        t != LTy::F64,
        t != LTy::Ptr,
{
    ink_type(ctx, t).into_int_type().const_int(v, sign_extend)
}

/// `IntType::const_zero` of `v`'s type.
#[verifier::external_body]
pub(crate) fn zero_like<'ctx>(v: IntValue<'ctx>) -> IntValue<'ctx> {
    v.get_type().const_zero()
}

/// `PointerType::const_null` of `i8*`.
#[verifier::external_body]
pub(crate) fn null_pointer<'ctx>(ctx: &'ctx Context) -> BasicValueEnum<'ctx> {
    ctx.i8_type().ptr_type(AddressSpace::default()).const_null().into()
}

/// The integer `v` as a basic value.
pub(crate) fn int_basic<'ctx>(v: IntValue<'ctx>) -> (r: BasicValueEnum<'ctx>)
    ensures
        r == BasicValueEnum::IntValue(v),
{
    BasicValueEnum::IntValue(v)
}

/// The float `v` as a basic value.
pub(crate) fn float_basic<'ctx>(v: FloatValue<'ctx>) -> (r: BasicValueEnum<'ctx>)
    ensures
        r == BasicValueEnum::FloatValue(v),
{
    BasicValueEnum::FloatValue(v)
}

/// The pointer `v` as a basic value.
pub(crate) fn ptr_basic<'ctx>(v: PointerValue<'ctx>) -> (r: BasicValueEnum<'ctx>)
    ensures
        r == BasicValueEnum::PointerValue(v),
{
    BasicValueEnum::PointerValue(v)
}

/// The integer inside `v`, when `v` is an integer value.
pub(crate) fn int_of<'ctx>(v: BasicValueEnum<'ctx>) -> (r: Option<IntValue<'ctx>>)
    ensures
        r == (match v {
            BasicValueEnum::IntValue(x) => Some(x),
            _ => None,
        }),
{
    match v {
        BasicValueEnum::IntValue(i) => Some(i),
        _ => None,
    }
}

/// The float inside `v`, when `v` is a floating-point value.
pub(crate) fn float_of<'ctx>(v: BasicValueEnum<'ctx>) -> (r: Option<FloatValue<'ctx>>)
    ensures
        r == (match v {
            BasicValueEnum::FloatValue(x) => Some(x),
            _ => None,
        }),
{
    match v {
        BasicValueEnum::FloatValue(f) => Some(f),
        _ => None,
    }
}

/// The pointer inside `v`, when `v` is a pointer value.
pub(crate) fn ptr_of<'ctx>(v: BasicValueEnum<'ctx>) -> (r: Option<PointerValue<'ctx>>)
    ensures
        r == (match v {
            BasicValueEnum::PointerValue(x) => Some(x),
            _ => None,
        }),
{
    match v {
        BasicValueEnum::PointerValue(p) => Some(p),
        _ => None,
    }
}

/// The kind of an instruction handed to LLVM's builder, with the
/// predicate of a comparison and the type of an allocation, extension or
/// phi.
pub ghost enum LKind {
    Alloca(LTy),
    PtrCast,
    Load,
    Store,
    IntAdd,
    IntSub,
    IntMul,
    IntSDiv,
    FAdd,
    FSub,
    FMul,
    FDiv,
    ICmp(IPred),
    FCmp(FPred),
    IsNotNull,
    Or,
    Select,
    ZExt(LTy),
    SIToFP,
    FPToSI,
    BitcastToDouble,
    PtrToInt,
    IntToPtr,
    Call,
    Ret,
    Br,
    CondBr,
    Unreachable,
    Phi(LTy),
}

/// An LLVM `Builder` with the kinds of the instructions it has built, in
/// order.
pub struct LBuilder<'ctx> {
    b: Builder<'ctx>,
    trace: Ghost<Seq<LKind>>,
    incoming: Ghost<Seq<(PhiValue<'ctx>, BasicValueEnum<'ctx>, InkBlock<'ctx>)>>,
}

impl<'ctx> LBuilder<'ctx> {
    /// The kinds of the instructions built so far.
    pub closed spec fn trace(&self) -> Seq<LKind> {
        self.trace@
    }

    /// The incoming edges added to phis so far, in order: the phi, the
    /// value and the block it comes from.
    pub closed spec fn incoming(&self) -> Seq<(PhiValue<'ctx>, BasicValueEnum<'ctx>, InkBlock<'ctx>)> {
        self.incoming@
    }

    /// A builder that has built nothing yet.
    pub(crate) fn new(b: Builder<'ctx>) -> (r: LBuilder<'ctx>)
        ensures
            r.trace() == Seq::<LKind>::empty(),
            r.incoming().len() == 0,
    {
        LBuilder { b, trace: Ghost(Seq::empty()), incoming: Ghost(Seq::empty()) }
    }
}

/// `Builder::position_at_end`.
#[verifier::external_body]
pub(crate) fn position_at_end<'ctx>(b: &mut LBuilder<'ctx>, bb: InkBlock<'ctx>)
    ensures
        final(b).trace() == old(b).trace(),
{
    b.b.position_at_end(bb)
}

/// `Builder::build_alloca` of type `t`.
#[verifier::external_body]
pub(crate) fn build_alloca<'ctx>(b: &mut LBuilder<'ctx>, ctx: &'ctx Context, t: LTy, name: &str) -> (res: Result<PointerValue<'ctx>, String>)
    ensures
        res is Ok ==> final(b).trace() == old(b).trace().push(LKind::Alloca(t)),
        res is Err ==> *final(b) == *old(b),
{
    b.b.build_alloca(ink_type(ctx, t), name).map_err(|e| e.to_string())
}

/// `Builder::build_pointer_cast` of `p` to a pointer to `t`.
#[verifier::external_body]
pub(crate) fn build_cast_to_pointer_to<'ctx>(b: &mut LBuilder<'ctx>, ctx: &'ctx Context, p: PointerValue<'ctx>, t: LTy, name: &str) -> (res: Result<PointerValue<'ctx>, String>)
    ensures
        res is Ok ==> final(b).trace() == old(b).trace().push(LKind::PtrCast),
        res is Err ==> *final(b) == *old(b),
{
    b.b.build_pointer_cast(p, ink_type(ctx, t).ptr_type(AddressSpace::default()), name).map_err(|e| e.to_string())
}

/// `Builder::build_pointer_cast` of `p` to a pointer to `v`'s type.
#[verifier::external_body]
pub(crate) fn build_cast_to_pointer_to_type_of<'ctx>(b: &mut LBuilder<'ctx>, p: PointerValue<'ctx>, v: BasicValueEnum<'ctx>, name: &str) -> (res: Result<PointerValue<'ctx>, String>)
    ensures
        res is Ok ==> final(b).trace() == old(b).trace().push(LKind::PtrCast),
        res is Err ==> *final(b) == *old(b),
{
    b.b.build_pointer_cast(p, v.get_type().ptr_type(AddressSpace::default()), name).map_err(|e| e.to_string())
}

/// `Builder::build_load` through `p` (of `p`'s pointee type).
#[verifier::external_body]
pub(crate) fn build_load<'ctx>(b: &mut LBuilder<'ctx>, p: PointerValue<'ctx>, name: &str) -> (res: Result<BasicValueEnum<'ctx>, String>)
    ensures
        res is Ok ==> final(b).trace() == old(b).trace().push(LKind::Load),
        res is Err ==> *final(b) == *old(b),
{
    b.b.build_load(p, name).map_err(|e| e.to_string())
}

/// `InstructionValue::set_alignment` on the instruction that made `v`, if
/// `v` is an instruction; LLVM's refusal is ignored.
#[verifier::external_body]
pub(crate) fn set_value_alignment(v: BasicValueEnum, align: u32) {
    if let Some(i) = v.as_instruction_value() {
        let _ = i.set_alignment(align);
    }
}

/// `Builder::build_store` of `v` through `p`.
#[verifier::external_body]
pub(crate) fn build_store<'ctx>(b: &mut LBuilder<'ctx>, p: PointerValue<'ctx>, v: BasicValueEnum<'ctx>) -> (res: Result<InstructionValue<'ctx>, String>)
    ensures
        res is Ok ==> final(b).trace() == old(b).trace().push(LKind::Store),
        res is Err ==> *final(b) == *old(b),
{
    b.b.build_store(p, v).map_err(|e| e.to_string())
}

/// `InstructionValue::set_alignment`; LLVM's refusal is ignored.
#[verifier::external_body]
pub(crate) fn set_inst_alignment(i: InstructionValue, align: u32) {
    let _ = i.set_alignment(align);
}

/// `Builder::build_int_add`.
#[verifier::external_body]
pub(crate) fn build_int_add<'ctx>(b: &mut LBuilder<'ctx>, l: IntValue<'ctx>, r: IntValue<'ctx>, name: &str) -> (res: Result<IntValue<'ctx>, String>)
    ensures
        res is Ok ==> final(b).trace() == old(b).trace().push(LKind::IntAdd),
        res is Err ==> *final(b) == *old(b),
{
    b.b.build_int_add(l, r, name).map_err(|e| e.to_string())
}

/// `Builder::build_int_sub`.
#[verifier::external_body]
pub(crate) fn build_int_sub<'ctx>(b: &mut LBuilder<'ctx>, l: IntValue<'ctx>, r: IntValue<'ctx>, name: &str) -> (res: Result<IntValue<'ctx>, String>)
    ensures
        res is Ok ==> final(b).trace() == old(b).trace().push(LKind::IntSub),
        res is Err ==> *final(b) == *old(b),
{
    b.b.build_int_sub(l, r, name).map_err(|e| e.to_string())
}

/// `Builder::build_int_mul`.
#[verifier::external_body]
pub(crate) fn build_int_mul<'ctx>(b: &mut LBuilder<'ctx>, l: IntValue<'ctx>, r: IntValue<'ctx>, name: &str) -> (res: Result<IntValue<'ctx>, String>)
    ensures
        res is Ok ==> final(b).trace() == old(b).trace().push(LKind::IntMul),
        res is Err ==> *final(b) == *old(b),
{
    b.b.build_int_mul(l, r, name).map_err(|e| e.to_string())
}

/// `Builder::build_int_signed_div`.
#[verifier::external_body]
pub(crate) fn build_int_signed_div<'ctx>(b: &mut LBuilder<'ctx>, l: IntValue<'ctx>, r: IntValue<'ctx>, name: &str) -> (res: Result<IntValue<'ctx>, String>)
    ensures
        res is Ok ==> final(b).trace() == old(b).trace().push(LKind::IntSDiv),
        res is Err ==> *final(b) == *old(b),
{
    b.b.build_int_signed_div(l, r, name).map_err(|e| e.to_string())
}

/// `Builder::build_float_add`.
#[verifier::external_body]
pub(crate) fn build_float_add<'ctx>(b: &mut LBuilder<'ctx>, l: FloatValue<'ctx>, r: FloatValue<'ctx>, name: &str) -> (res: Result<BasicValueEnum<'ctx>, String>)
    ensures
        res is Ok ==> final(b).trace() == old(b).trace().push(LKind::FAdd),
        res is Err ==> *final(b) == *old(b),
{
    b.b.build_float_add(l, r, name).map(|v| v.into()).map_err(|e| e.to_string())
}

/// `Builder::build_float_sub`.
#[verifier::external_body]
pub(crate) fn build_float_sub<'ctx>(b: &mut LBuilder<'ctx>, l: FloatValue<'ctx>, r: FloatValue<'ctx>, name: &str) -> (res: Result<BasicValueEnum<'ctx>, String>)
    ensures
        res is Ok ==> final(b).trace() == old(b).trace().push(LKind::FSub),
        res is Err ==> *final(b) == *old(b),
{
    b.b.build_float_sub(l, r, name).map(|v| v.into()).map_err(|e| e.to_string())
}

/// `Builder::build_float_mul`.
#[verifier::external_body]
pub(crate) fn build_float_mul<'ctx>(b: &mut LBuilder<'ctx>, l: FloatValue<'ctx>, r: FloatValue<'ctx>, name: &str) -> (res: Result<BasicValueEnum<'ctx>, String>)
    ensures
        res is Ok ==> final(b).trace() == old(b).trace().push(LKind::FMul),
        res is Err ==> *final(b) == *old(b),
{
    b.b.build_float_mul(l, r, name).map(|v| v.into()).map_err(|e| e.to_string())
}

/// `Builder::build_float_div`.
#[verifier::external_body]
pub(crate) fn build_float_div<'ctx>(b: &mut LBuilder<'ctx>, l: FloatValue<'ctx>, r: FloatValue<'ctx>, name: &str) -> (res: Result<BasicValueEnum<'ctx>, String>)
    ensures
        res is Ok ==> final(b).trace() == old(b).trace().push(LKind::FDiv),
        res is Err ==> *final(b) == *old(b),
{
    b.b.build_float_div(l, r, name).map(|v| v.into()).map_err(|e| e.to_string())
}

/// `Builder::build_int_compare` with predicate `p`.
#[verifier::external_body]
pub(crate) fn build_int_compare<'ctx>(b: &mut LBuilder<'ctx>, p: IPred, l: IntValue<'ctx>, r: IntValue<'ctx>, name: &str) -> (res: Result<IntValue<'ctx>, String>)
    ensures
        res is Ok ==> final(b).trace() == old(b).trace().push(LKind::ICmp(p)),
        res is Err ==> *final(b) == *old(b),
{
    let pred = match p {
        IPred::Eq => inkwell::IntPredicate::EQ,
        IPred::Ne => inkwell::IntPredicate::NE,
        IPred::Slt => inkwell::IntPredicate::SLT,
        IPred::Sle => inkwell::IntPredicate::SLE,
        IPred::Sgt => inkwell::IntPredicate::SGT,
        IPred::Sge => inkwell::IntPredicate::SGE,
    };
    b.b.build_int_compare(pred, l, r, name).map_err(|e| e.to_string())
}

/// `Builder::build_float_compare` with predicate `p`.
#[verifier::external_body]
pub(crate) fn build_float_compare<'ctx>(b: &mut LBuilder<'ctx>, p: FPred, l: FloatValue<'ctx>, r: FloatValue<'ctx>, name: &str) -> (res: Result<IntValue<'ctx>, String>)
    ensures
        res is Ok ==> final(b).trace() == old(b).trace().push(LKind::FCmp(p)),
        res is Err ==> *final(b) == *old(b),
{
    let pred = match p {
        FPred::Oeq => inkwell::FloatPredicate::OEQ,
        FPred::One => inkwell::FloatPredicate::ONE,
        FPred::Olt => inkwell::FloatPredicate::OLT,
        FPred::Ole => inkwell::FloatPredicate::OLE,
        FPred::Ogt => inkwell::FloatPredicate::OGT,
        FPred::Oge => inkwell::FloatPredicate::OGE,
    };
    b.b.build_float_compare(pred, l, r, name).map_err(|e| e.to_string())
}

/// `Builder::build_is_not_null`.
#[verifier::external_body]
pub(crate) fn build_is_not_null<'ctx>(b: &mut LBuilder<'ctx>, p: PointerValue<'ctx>, name: &str) -> (res: Result<IntValue<'ctx>, String>)
    ensures
        res is Ok ==> final(b).trace() == old(b).trace().push(LKind::IsNotNull),
        res is Err ==> *final(b) == *old(b),
{
    b.b.build_is_not_null(p, name).map_err(|e| e.to_string())
}

/// `Builder::build_or`.
#[verifier::external_body]
pub(crate) fn build_or<'ctx>(b: &mut LBuilder<'ctx>, l: IntValue<'ctx>, r: IntValue<'ctx>, name: &str) -> (res: Result<IntValue<'ctx>, String>)
    ensures
        res is Ok ==> final(b).trace() == old(b).trace().push(LKind::Or),
        res is Err ==> *final(b) == *old(b),
{
    b.b.build_or(l, r, name).map_err(|e| e.to_string())
}

/// `Builder::build_select`.
#[verifier::external_body]
pub(crate) fn build_select<'ctx>(b: &mut LBuilder<'ctx>, c: IntValue<'ctx>, t: BasicValueEnum<'ctx>, e: BasicValueEnum<'ctx>, name: &str) -> (res: Result<BasicValueEnum<'ctx>, String>)
    ensures
        res is Ok ==> final(b).trace() == old(b).trace().push(LKind::Select),
        res is Err ==> *final(b) == *old(b),
{
    b.b.build_select(c, t, e, name).map_err(|e| e.to_string())
}

/// `Builder::build_int_z_extend` to the integer type `t`.
#[verifier::external_body]
pub(crate) fn build_int_z_extend<'ctx>(b: &mut LBuilder<'ctx>, ctx: &'ctx Context, v: IntValue<'ctx>, t: LTy, name: &str) -> (res: Result<IntValue<'ctx>, String>)
    requires
        t != LTy::F64,
        t != LTy::Ptr,
    ensures
        res is Ok ==> final(b).trace() == old(b).trace().push(LKind::ZExt(t)),
        res is Err ==> *final(b) == *old(b),
{
    b.b.build_int_z_extend(v, ink_type(ctx, t).into_int_type(), name).map_err(|e| e.to_string())
}

/// `Builder::build_signed_int_to_float` to `double`.
#[verifier::external_body]
pub(crate) fn build_signed_int_to_float<'ctx>(b: &mut LBuilder<'ctx>, ctx: &'ctx Context, v: IntValue<'ctx>, name: &str) -> (res: Result<BasicValueEnum<'ctx>, String>)
    ensures
        res is Ok ==> final(b).trace() == old(b).trace().push(LKind::SIToFP),
        res is Err ==> *final(b) == *old(b),
{
    b.b.build_signed_int_to_float(v, ctx.f64_type(), name).map(|v| v.into()).map_err(|e| e.to_string())
}

/// `Builder::build_float_to_signed_int` to `i64`.
#[verifier::external_body]
pub(crate) fn build_float_to_signed_int<'ctx>(b: &mut LBuilder<'ctx>, ctx: &'ctx Context, v: FloatValue<'ctx>, name: &str) -> (res: Result<BasicValueEnum<'ctx>, String>)
    ensures
        res is Ok ==> final(b).trace() == old(b).trace().push(LKind::FPToSI),
        res is Err ==> *final(b) == *old(b),
{
    b.b.build_float_to_signed_int(v, ctx.i64_type(), name).map(|v| v.into()).map_err(|e| e.to_string())
}

/// `Builder::build_bit_cast` of `v` to `double`.
#[verifier::external_body]
pub(crate) fn build_bit_cast_to_double<'ctx>(b: &mut LBuilder<'ctx>, ctx: &'ctx Context, v: IntValue<'ctx>, name: &str) -> (res: Result<BasicValueEnum<'ctx>, String>)
    ensures
        res is Ok ==> final(b).trace() == old(b).trace().push(LKind::BitcastToDouble),
        res is Err ==> *final(b) == *old(b),
{
    b.b.build_bit_cast(v, ctx.f64_type(), name).map_err(|e| e.to_string())
}

/// `Builder::build_ptr_to_int` to `i64`.
#[verifier::external_body]
pub(crate) fn build_ptr_to_int<'ctx>(b: &mut LBuilder<'ctx>, ctx: &'ctx Context, p: PointerValue<'ctx>, name: &str) -> (res: Result<IntValue<'ctx>, String>)
    ensures
        res is Ok ==> final(b).trace() == old(b).trace().push(LKind::PtrToInt),
        res is Err ==> *final(b) == *old(b),
{
    b.b.build_ptr_to_int(p, ctx.i64_type(), name).map_err(|e| e.to_string())
}

/// `Builder::build_int_to_ptr` to `i8*`.
#[verifier::external_body]
pub(crate) fn build_int_to_ptr<'ctx>(b: &mut LBuilder<'ctx>, ctx: &'ctx Context, v: IntValue<'ctx>, name: &str) -> (res: Result<PointerValue<'ctx>, String>)
    ensures
        res is Ok ==> final(b).trace() == old(b).trace().push(LKind::IntToPtr),
        res is Err ==> *final(b) == *old(b),
{
    b.b.build_int_to_ptr(v, ctx.i8_type().ptr_type(AddressSpace::default()), name).map_err(|e| e.to_string())
}

/// `Builder::build_call` of `f` with `args`; the call's value when the
/// callee returns one (`CallSiteValue::try_as_basic_value`).
#[verifier::external_body]
pub(crate) fn build_call<'ctx>(b: &mut LBuilder<'ctx>, f: FunctionValue<'ctx>, args: &Vec<BasicValueEnum<'ctx>>, name: &str) -> (res: Result<Option<BasicValueEnum<'ctx>>, String>)
    ensures
        res is Ok ==> final(b).trace() == old(b).trace().push(LKind::Call),
        res is Err ==> *final(b) == *old(b),
{
    let a: Vec<inkwell::values::BasicMetadataValueEnum<'ctx>> = args.iter().map(|v| (*v).into()).collect();
    b.b.build_call(f, &a, name).map(|c| c.try_as_basic_value().basic()).map_err(|e| e.to_string())
}

/// `Builder::build_return` of `v` (of nothing when `None`).
#[verifier::external_body]
pub(crate) fn build_return<'ctx>(b: &mut LBuilder<'ctx>, v: Option<BasicValueEnum<'ctx>>) -> (res: Result<(), String>)
    ensures
        res is Ok ==> final(b).trace() == old(b).trace().push(LKind::Ret),
        res is Err ==> *final(b) == *old(b),
{
    let r = match &v {
        Some(x) => b.b.build_return(Some(x)),
        None => b.b.build_return(None),
    };
    r.map(|_| ()).map_err(|e| e.to_string())
}

/// `Builder::build_unconditional_branch`.
#[verifier::external_body]
pub(crate) fn build_br<'ctx>(b: &mut LBuilder<'ctx>, bb: InkBlock<'ctx>) -> (res: Result<(), String>)
    ensures
        res is Ok ==> final(b).trace() == old(b).trace().push(LKind::Br),
        res is Err ==> *final(b) == *old(b),
{
    b.b.build_unconditional_branch(bb).map(|_| ()).map_err(|e| e.to_string())
}

/// `Builder::build_conditional_branch`.
#[verifier::external_body]
pub(crate) fn build_cond_br<'ctx>(b: &mut LBuilder<'ctx>, c: IntValue<'ctx>, t: InkBlock<'ctx>, e: InkBlock<'ctx>) -> (res: Result<(), String>)
    ensures
        res is Ok ==> final(b).trace() == old(b).trace().push(LKind::CondBr),
        res is Err ==> *final(b) == *old(b),
{
    b.b.build_conditional_branch(c, t, e).map(|_| ()).map_err(|e| e.to_string())
}

/// `Builder::build_unreachable`.
#[verifier::external_body]
pub(crate) fn build_unreachable<'ctx>(b: &mut LBuilder<'ctx>) -> (res: Result<(), String>)
    ensures
        res is Ok ==> final(b).trace() == old(b).trace().push(LKind::Unreachable),
        res is Err ==> *final(b) == *old(b),
{
    b.b.build_unreachable().map(|_| ()).map_err(|e| e.to_string())
}

/// `Builder::build_phi` of type `t`.
#[verifier::external_body]
pub(crate) fn build_phi<'ctx>(b: &mut LBuilder<'ctx>, ctx: &'ctx Context, t: LTy, name: &str) -> (res: Result<PhiValue<'ctx>, String>)
    ensures
        res is Ok ==> final(b).trace() == old(b).trace().push(LKind::Phi(t)),
        res is Err ==> *final(b) == *old(b),
{
    b.b.build_phi(ink_type(ctx, t), name).map_err(|e| e.to_string())
}

/// `PhiValue::add_incoming` of `v` from block `bb`, recorded with the
/// builder's record of incoming edges.
#[verifier::external_body]
pub(crate) fn phi_add_incoming<'ctx>(b: &mut LBuilder<'ctx>, p: PhiValue<'ctx>, v: BasicValueEnum<'ctx>, bb: InkBlock<'ctx>)
    ensures
        final(b).incoming() == old(b).incoming().push((p, v, bb)),
        final(b).trace() == old(b).trace(),
{
    p.add_incoming(&[(&v, bb)])
}

/// `PhiValue::as_basic_value`.
#[verifier::external_body]
pub(crate) fn phi_basic<'ctx>(p: PhiValue<'ctx>) -> BasicValueEnum<'ctx> {
    p.as_basic_value()
}

} // verus!
