//! The LLVM code generator: lowers Gradient IR to LLVM IR through `inkwell`,
//! runs LLVM's optimisation pipeline and emits a native object file.

use vstd::prelude::*;
use std::collections::HashMap;
use inkwell::basic_block::BasicBlock as InkBlock;
use inkwell::context::Context;
use inkwell::module::Module as InkModule;
use inkwell::targets::TargetMachine;
use inkwell::values::{BasicValueEnum, FunctionValue, GlobalValue, PhiValue};
use crate::cfg::{reachable, reachable_labels};
use crate::error::CodegenError;
use crate::ir::{BlockRef, Function, Module, Type, Value};
use crate::llemit::{add_byte_array_global, add_function, append_block, build_return, create_builder, create_module};
use crate::llemit::{create_target_machine, default_triple, get_function, global_address, host_cpu_features, host_cpu_name};
use crate::llemit::{initialize_all_targets, machine_triple, module_text, nth_param, phi_add_incoming, phi_basic};
use crate::llemit::{position_at_end, run_passes, set_global_bytes, set_global_constant, set_global_private};
use crate::llemit::{target_from_triple, verify_module, write_object, LBuilder, LCodeModel, LKind, LLinkage, LReloc, LRet, LTy};
use crate::mach::{interned_index, interning_adds, lemma_string_index, string_index, StringTable};
use crate::text::{decimal, str_eq, with_number, with_text};
use crate::cranelift::c_string_bytes;
use vstd::string::StringSliceAdditionalSpecFns;

pub mod builtin;
pub mod inst;

use crate::llvm::inst::{always_defines, first_missing, is_unsupported, leading_operands};

verus! {

broadcast use vstd::std_specs::hash::group_hash_axioms;

/// Optimization level for LLVM code generation.
#[derive(Clone, Copy, Debug, PartialEq, Eq, Structural)]
pub enum LlvmOptLevel {
    /// No optimization (fastest compilation).
    NoOpt,
    /// Less optimization (faster compilation).
    Less,
    /// Default optimization level.
    Default,
    /// Aggressive optimization (slower compilation, faster code).
    Aggressive,
}

impl Default for LlvmOptLevel {
    fn default() -> (r: LlvmOptLevel)
        ensures
            r == LlvmOptLevel::Default,
    {
        LlvmOptLevel::Default
    }
}

/// The pass pipeline run for an optimisation level; none at `NoOpt`.
pub open spec fn spec_pass_pipeline(l: LlvmOptLevel) -> Option<Seq<char>> {
    match l {
        LlvmOptLevel::NoOpt => None,
        LlvmOptLevel::Less => Some("default<O1>"@),
        LlvmOptLevel::Default => Some("default<O2>"@),
        LlvmOptLevel::Aggressive => Some("default<O3>"@),
    }
}

/// The pass pipeline run for an optimisation level; none at `NoOpt`.
pub fn pass_pipeline(l: LlvmOptLevel) -> (r: Option<&'static str>)
    ensures
        match spec_pass_pipeline(l) {
            Some(p) => r matches Some(s) && s@ == p,
            None => r is None,
        },
{
    proof {
        reveal_strlit("default<O1>");
        reveal_strlit("default<O2>");
        reveal_strlit("default<O3>");
    }
    match l {
        LlvmOptLevel::NoOpt => None,
        LlvmOptLevel::Less => Some("default<O1>"),
        LlvmOptLevel::Default => Some("default<O2>"),
        LlvmOptLevel::Aggressive => Some("default<O3>"),
    }
}

/// The LLVM type of an IR type: booleans are `i8`, and so is `Void` where a
/// value of it is needed.
pub open spec fn spec_lty_of(t: Type) -> LTy {
    match t {
        Type::I32 => LTy::I32,
        Type::I64 => LTy::I64,
        Type::Ptr => LTy::Ptr,
        Type::Bool => LTy::I8,
        Type::F64 => LTy::F64,
        Type::Void => LTy::I8,
    }
}

/// The LLVM type of an IR type.
pub fn ir_type_to_llvm(t: &Type) -> (r: LTy)
    ensures
        r == spec_lty_of(*t),
{
    match t {
        Type::I32 => LTy::I32,
        Type::I64 => LTy::I64,
        Type::Ptr => LTy::Ptr,
        Type::Bool => LTy::I8,
        Type::F64 => LTy::F64,
        Type::Void => LTy::I8,
    }
}

/// The alignment, in bytes, of a value of an IR type.
pub open spec fn spec_type_alignment(t: Type) -> u32 {
    match t {
        Type::I32 => 4,
        Type::I64 => 8,
        Type::Ptr => 8,
        Type::Bool => 1,
        Type::F64 => 8,
        Type::Void => 1,
    }
}

/// The alignment, in bytes, of a value of an IR type.
pub fn type_alignment(t: &Type) -> (r: u32)
    ensures
        r == spec_type_alignment(*t),
{
    match t {
        Type::I32 => 4,
        Type::I64 => 8,
        Type::Ptr => 8,
        Type::Bool => 1,
        Type::F64 => 8,
        Type::Void => 1,
    }
}

/// The size, in bytes, of a value of an IR type.
pub fn type_size(t: &Type) -> (r: u64)
    ensures
        r == spec_type_alignment(*t),
{
    match t {
        Type::I32 => 4,
        Type::I64 => 8,
        Type::Ptr => 8,
        Type::Bool => 1,
        Type::F64 => 8,
        Type::Void => 1,
    }
}

impl LTy {
    /// The bit width of an integer type; `None` for `double` and pointers.
    pub fn bit_width(&self) -> (r: Option<u32>)
        ensures
            r == match *self {
                LTy::I1 => Some(1u32),
                LTy::I8 => Some(8u32),
                LTy::I32 => Some(32u32),
                LTy::I64 => Some(64u32),
                _ => None,
            },
    {
        match self {
            LTy::I1 => Some(1),
            LTy::I8 => Some(8),
            LTy::I32 => Some(32),
            LTy::I64 => Some(64),
            _ => None,
        }
    }

    /// Whether this is the floating-point type.
    pub fn is_float_type(&self) -> (r: bool)
        ensures
            r == (*self == LTy::F64),
    {
        match self {
            LTy::F64 => true,
            _ => false,
        }
    }

    /// Whether this is the pointer type.
    pub fn is_pointer_type(&self) -> (r: bool)
        ensures
            r == (*self == LTy::Ptr),
    {
        match self {
            LTy::Ptr => true,
            _ => false,
        }
    }
}

/// A function signature as declared to LLVM.
pub struct LSig {
    pub params: Vec<LTy>,
    pub ret: LRet,
    pub variadic: bool,
    pub linkage: LLinkage,
}

/// The parameter types LLVM is given for an IR function: C's
/// `(i32 argc, ptr argv)` first for `main`, then the IR parameters.
pub open spec fn spec_llvm_params(f: Function) -> Seq<LTy> {
    let own = f.params@.map_values(|t: Type| spec_lty_of(t));
    if f.name@ == "main"@ {
        seq![LTy::I32, LTy::Ptr] + own
    } else {
        own
    }
}

/// The return type LLVM is given for an IR function: `i32` for a `main`
/// that returns nothing, `void` for any other function that returns
/// nothing.
pub open spec fn spec_llvm_ret(f: Function) -> LRet {
    if f.return_type == Type::Void {
        if f.name@ == "main"@ { LRet::Value(LTy::I32) } else { LRet::Void }
    } else {
        LRet::Value(spec_lty_of(f.return_type))
    }
}

/// The linkage of an IR function: external for `main` and exported
/// functions, private otherwise.
pub open spec fn spec_llvm_linkage(f: Function) -> LLinkage {
    if f.name@ == "main"@ || f.is_export { LLinkage::External } else { LLinkage::Private }
}

/// Whether a recorded signature is the one declared for `f`.
pub open spec fn declares(s: LSig, f: Function) -> bool {
    &&& s.params@ == spec_llvm_params(f)
    &&& s.ret == spec_llvm_ret(f)
    &&& !s.variadic
    &&& s.linkage == spec_llvm_linkage(f)
}

/// The message for an IR value that has no LLVM value yet.
pub open spec fn missing_value_msg(v: u32) -> Seq<char> {
    "IR Value("@ + decimal(v as nat) + ") not found in value map"@
}

/// A phi node waiting for its incoming edges: it stands in block `block`
/// for IR value `dst`, with the entries from live predecessors.
pub struct PendingPhi<'ctx> {
    pub block: u32,
    pub dst: u32,
    pub phi: PhiValue<'ctx>,
    pub entries: Vec<(BlockRef, Value)>,
}

/// The LLVM-based code generator.
///
/// `fn_names` and `fn_sigs` record, in declaration order, the functions of
/// the compiled modules and the signatures handed to LLVM (`funcs` holds
/// LLVM's handles); `strings` and `globals` the string constants and their
/// globals. The remaining maps are per function: the LLVM value of each IR
/// value, the LLVM block of each reachable IR block, and the phis whose
/// incoming edges are added once all blocks are compiled.
pub struct LlvmCodegen<'ctx> {
    pub(crate) context: &'ctx Context,
    pub(crate) module: InkModule<'ctx>,
    pub(crate) builder: LBuilder<'ctx>,
    pub(crate) target_machine: TargetMachine,
    pub(crate) opt_level: LlvmOptLevel,
    pub(crate) value_map: HashMap<u32, BasicValueEnum<'ctx>>,
    pub(crate) fn_names: StringTable,
    pub(crate) fn_sigs: Vec<LSig>,
    pub(crate) funcs: Vec<FunctionValue<'ctx>>,
    pub(crate) strings: StringTable,
    pub(crate) globals: Vec<GlobalValue<'ctx>>,
    pub(crate) block_map: HashMap<u32, InkBlock<'ctx>>,
    pub(crate) phis: Vec<PendingPhi<'ctx>>,
    pub(crate) name_counter: u32,
    pub(crate) reach: Vec<u32>,
    pub(crate) current: Option<u32>,
    pub(crate) insert_block: Option<InkBlock<'ctx>>,
    pub(crate) current_fn: Option<FunctionValue<'ctx>>,
    pub(crate) config: Ghost<LlConfig>,
    pub(crate) offsets: Ghost<Seq<int>>,
}

/// What an LLVM code generator was made with: the module's name, whether
/// the target is the host's (its default triple, CPU and CPU features), and
/// the target machine's optimisation level, relocation mode and code model.
pub ghost struct LlConfig {
    pub module_name: Seq<char>,
    pub host_target: bool,
    pub level: LlvmOptLevel,
    pub reloc: LReloc,
    pub model: LCodeModel,
}

/// How many entries the pending phis before the `i`-th have.
pub open spec fn edges_before<'ctx>(phis: Seq<PendingPhi<'ctx>>, i: int) -> nat
    decreases i,
{
    if i <= 0 {
        0
    } else {
        edges_before(phis, i - 1) + phis[i - 1].entries@.len()
    }
}

impl<'ctx> LlvmCodegen<'ctx> {
    /// The optimisation level the generator was made with.
    pub closed spec fn spec_opt_level(&self) -> LlvmOptLevel {
        self.opt_level
    }

    /// What the generator was made with.
    pub closed spec fn config(&self) -> LlConfig {
        self.config@
    }

    /// The kinds of the instructions built so far, in order.
    pub closed spec fn trace(&self) -> Seq<LKind> {
        self.builder.trace()
    }

    /// The byte offsets by which pointers were moved so far, in order.
    pub closed spec fn offsets(&self) -> Seq<int> {
        self.offsets@
    }

    /// The incoming edges added to phis so far.
    pub closed spec fn incoming(&self) -> Seq<(PhiValue<'ctx>, BasicValueEnum<'ctx>, InkBlock<'ctx>)> {
        self.builder.incoming()
    }

    /// The incoming edges of pending phi `i` of `s`: for each entry, the
    /// phi, the value of the entry's IR value and the block of its source
    /// block.
    pub(crate) open spec fn phi_edges(s: LlvmCodegen<'ctx>, i: int) -> Seq<(PhiValue<'ctx>, BasicValueEnum<'ctx>, InkBlock<'ctx>)> {
        Seq::new(s.phis@[i].entries@.len(), |b: int| (
            s.phis@[i].phi,
            s.value_map@[s.phis@[i].entries@[b].1.0],
            s.block_map@[s.phis@[i].entries@[b].0.0],
        ))
    }

    /// `self` and `other` agree on everything but the builder.
    pub(crate) open spec fn same_but_builder(&self, other: &Self) -> bool {
        &&& self.context == other.context
        &&& self.module == other.module
        &&& self.target_machine == other.target_machine
        &&& self.opt_level == other.opt_level
        &&& self.value_map == other.value_map
        &&& self.fn_names == other.fn_names
        &&& self.fn_sigs == other.fn_sigs
        &&& self.funcs == other.funcs
        &&& self.strings == other.strings
        &&& self.globals == other.globals
        &&& self.block_map == other.block_map
        &&& self.phis == other.phis
        &&& self.name_counter == other.name_counter
        &&& self.reach == other.reach
        &&& self.current == other.current
        &&& self.insert_block == other.insert_block
        &&& self.current_fn == other.current_fn
        &&& self.config == other.config
    }

    /// The generator's tables are consistent: one LLVM handle per declared
    /// function and per string constant.
    pub closed spec fn wf(&self) -> bool {
        &&& self.fn_names.entries@.len() == self.fn_sigs@.len()
        &&& self.fn_names.entries@.len() == self.funcs@.len()
        &&& self.strings.entries@.len() == self.globals@.len()
    }

    /// The names of the declared functions, in declaration order.
    pub closed spec fn declared_names(&self) -> Seq<String> {
        self.fn_names.entries@
    }

    /// The signatures recorded for the declared functions, in declaration
    /// order.
    pub closed spec fn declared_sigs(&self) -> Seq<LSig> {
        self.fn_sigs@
    }

    /// The string constants made so far, in order.
    pub closed spec fn string_constants(&self) -> Seq<String> {
        self.strings.entries@
    }

    /// Whether IR value `v` has an LLVM value in the current function.
    pub closed spec fn defined(&self, v: u32) -> bool {
        self.value_map@.contains_key(v)
    }

    /// Whether IR block `l` has an LLVM block in the current function.
    pub closed spec fn has_block(&self, l: u32) -> bool {
        self.block_map@.contains_key(l)
    }

    /// The IR block being compiled, while the builder is in it.
    pub closed spec fn current_block(&self) -> Option<u32> {
        self.current
    }

    /// The labels of the current function's reachable blocks.
    pub closed spec fn reachable_set(&self) -> Seq<u32> {
        self.reach@
    }

    /// Creates a code generator for the host at the default optimisation
    /// level.
    pub fn new(context: &'ctx Context) -> (r: Result<Self, CodegenError>)
        ensures
            r matches Ok(cg) ==> cg.wf() && cg.spec_opt_level() == LlvmOptLevel::Default
                && cg.declared_names().len() == 0 && cg.string_constants().len() == 0,
    {
        Self::new_with_opt_level(context, LlvmOptLevel::Default)
    }

    /// Creates a code generator for the host at optimisation level
    /// `opt_level`: initialises LLVM's targets, creates the module
    /// `gradient_module`, and makes a target machine for the host's triple,
    /// CPU and CPU features.
    pub fn new_with_opt_level(context: &'ctx Context, opt_level: LlvmOptLevel) -> (r: Result<Self, CodegenError>)
        ensures
            r matches Ok(cg) ==> cg.wf() && cg.spec_opt_level() == opt_level
                && cg.declared_names().len() == 0 && cg.string_constants().len() == 0
                && cg.config() == (LlConfig {
                    module_name: "gradient_module"@,
                    host_target: true,
                    level: opt_level,
                    reloc: LReloc::Pic,
                    model: LCodeModel::Default,
                }),
            r matches Err(e) ==> e.message@ == "Failed to create target machine"@
                || e.message@.subrange(0, 22) == "Failed to get target: "@,
    {
        initialize_all_targets();
        let module_name = "gradient_module";
        let module = create_module(context, module_name);
        let triple = default_triple();
        let target = match target_from_triple(&triple) {
            Ok(t) => t,
            Err(e) => {
                let m = with_text("Failed to get target: ", &e, "");
                proof {
                    reveal_strlit("Failed to get target: ");
                    assert(m@.subrange(0, 22) =~= "Failed to get target: "@);
                }
                return Err(CodegenError::from_string(m));
            },
        };
        let cpu = host_cpu_name();
        let features = host_cpu_features();
        let reloc = LReloc::Pic;
        let model = LCodeModel::Default;
        let target_machine = match create_target_machine(&target, &triple, &cpu, &features, opt_level, reloc, model) {
            Some(tm) => tm,
            None => {
                return Err(CodegenError::from_str("Failed to create target machine"));
            },
        };
        let config = Ghost(LlConfig { module_name: module_name@, host_target: true, level: opt_level, reloc, model });
        let builder = LBuilder::new(create_builder(context));
        Ok(LlvmCodegen {
            context,
            module,
            builder,
            target_machine,
            opt_level,
            value_map: HashMap::new(),
            fn_names: StringTable::new(),
            fn_sigs: Vec::new(),
            funcs: Vec::new(),
            strings: StringTable::new(),
            globals: Vec::new(),
            block_map: HashMap::new(),
            phis: Vec::new(),
            name_counter: 0,
            reach: Vec::new(),
            current: None,
            insert_block: None,
            current_fn: None,
            config,
            offsets: Ghost(Seq::empty()),
        })
    }

    /// Creates a code generator for release builds (aggressive
    /// optimisation).
    pub fn new_release(context: &'ctx Context) -> (r: Result<Self, CodegenError>)
        ensures
            r matches Ok(cg) ==> cg.wf() && cg.spec_opt_level() == LlvmOptLevel::Aggressive,
    {
        Self::new_with_opt_level(context, LlvmOptLevel::Aggressive)
    }

    /// Creates a code generator for debug builds (no optimisation).
    pub fn new_debug(context: &'ctx Context) -> (r: Result<Self, CodegenError>)
        ensures
            r matches Ok(cg) ==> cg.wf() && cg.spec_opt_level() == LlvmOptLevel::NoOpt,
    {
        Self::new_with_opt_level(context, LlvmOptLevel::NoOpt)
    }

    /// Whether the generator's tables are consistent (they always are for
    /// a generator made by `new`).
    pub fn tables_consistent(&self) -> (r: bool)
        ensures
            r == self.wf(),
    {
        self.fn_names.entries.len() == self.fn_sigs.len() && self.fn_names.entries.len() == self.funcs.len()
            && self.strings.entries.len() == self.globals.len()
    }

    /// The number of functions declared so far.
    pub fn declared_count(&self) -> (r: usize)
        ensures
            r == self.declared_names().len(),
    {
        self.fn_names.entries.len()
    }

    /// The configured optimisation level.
    pub fn optimization_level(&self) -> (r: LlvmOptLevel)
        ensures
            r == self.spec_opt_level(),
    {
        self.opt_level
    }

    /// The target triple code is generated for.
    pub fn target_triple(&self) -> String {
        machine_triple(&self.target_machine)
    }

    /// `prefix`, a dot and the name counter, which then moves on by one
    /// (wrapping).
    pub(crate) fn generate_name(&mut self, prefix: &str) -> (r: String)
        ensures
            r@ == prefix@ + "."@ + decimal(old(self).name_counter as nat),
            final(self).name_counter == old(self).name_counter.wrapping_add(1),
            final(self).trace() == old(self).trace(),
            final(self).value_map == old(self).value_map,
            final(self).block_map == old(self).block_map,
            final(self).fn_names == old(self).fn_names,
            final(self).fn_sigs == old(self).fn_sigs,
            final(self).funcs == old(self).funcs,
            final(self).strings == old(self).strings,
            final(self).globals == old(self).globals,
            final(self).phis == old(self).phis,
            final(self).reach == old(self).reach,
            final(self).current == old(self).current,
            final(self).insert_block == old(self).insert_block,
            final(self).current_fn == old(self).current_fn,
            final(self).opt_level == old(self).opt_level,
    {
        let p = with_text(prefix, ".", "");
        let r = with_number(p.as_str(), self.name_counter as u64, "");
        proof {
            reveal_strlit("");
            assert(r@ =~= prefix@ + "."@ + decimal(old(self).name_counter as nat));
        }
        self.name_counter = self.name_counter.wrapping_add(1);
        r
    }

    /// The LLVM value of IR value `v`.
    pub(crate) fn resolve_value(&self, v: Value) -> (r: Result<BasicValueEnum<'ctx>, CodegenError>)
        ensures
            r is Ok <==> self.defined(v.0),
            r matches Ok(x) ==> x == self.value_map@[v.0],
            r matches Err(e) ==> e.message@ == missing_value_msg(v.0),
    {
        match self.value_map.get(&v.0) {
            Some(x) => Ok(*x),
            None => {
                let m = with_number("IR Value(", v.0 as u64, ") not found in value map");
                Err(CodegenError::from_string(m))
            },
        }
    }
}

/// The C and runtime functions the LLVM code generator calls.
#[derive(Clone, Copy, Debug, PartialEq, Eq, Structural)]
pub enum Runtime {
    Malloc,
    Printf,
    Puts,
    NowMs,
    Snprintf,
    Strlen,
    Strcpy,
    Strcat,
    Strstr,
    Strncmp,
    Strcmp,
    Fabs,
    Sqrt,
    Sleep,
    SleepSeconds,
    TimeString,
    DateString,
    DatetimeYear,
    DatetimeMonth,
    DatetimeDay,
}

/// The symbol of a runtime function.
pub open spec fn spec_runtime_name(r: Runtime) -> Seq<char> {
    match r {
        Runtime::Malloc => "malloc"@,
        Runtime::Printf => "printf"@,
        Runtime::Puts => "puts"@,
        Runtime::NowMs => "__gradient_now_ms"@,
        Runtime::Snprintf => "snprintf"@,
        Runtime::Strlen => "strlen"@,
        Runtime::Strcpy => "strcpy"@,
        Runtime::Strcat => "strcat"@,
        Runtime::Strstr => "strstr"@,
        Runtime::Strncmp => "strncmp"@,
        Runtime::Strcmp => "strcmp"@,
        Runtime::Fabs => "fabs"@,
        Runtime::Sqrt => "sqrt"@,
        Runtime::Sleep => "__gradient_sleep"@,
        Runtime::SleepSeconds => "__gradient_sleep_seconds"@,
        Runtime::TimeString => "__gradient_time_string"@,
        Runtime::DateString => "__gradient_date_string"@,
        Runtime::DatetimeYear => "__gradient_datetime_year"@,
        Runtime::DatetimeMonth => "__gradient_datetime_month"@,
        Runtime::DatetimeDay => "__gradient_datetime_day"@,
    }
}

/// The symbol of a runtime function.
pub fn runtime_name(r: Runtime) -> (s: &'static str)
    ensures
        s@ == spec_runtime_name(r),
{
    proof {
        reveal_strlit("malloc");
        reveal_strlit("printf");
        reveal_strlit("puts");
        reveal_strlit("__gradient_now_ms");
        reveal_strlit("snprintf");
        reveal_strlit("strlen");
        reveal_strlit("strcpy");
        reveal_strlit("strcat");
        reveal_strlit("strstr");
        reveal_strlit("strncmp");
        reveal_strlit("strcmp");
        reveal_strlit("fabs");
        reveal_strlit("sqrt");
        reveal_strlit("__gradient_sleep");
        reveal_strlit("__gradient_sleep_seconds");
        reveal_strlit("__gradient_time_string");
        reveal_strlit("__gradient_date_string");
        reveal_strlit("__gradient_datetime_year");
        reveal_strlit("__gradient_datetime_month");
        reveal_strlit("__gradient_datetime_day");
    }
    match r {
        Runtime::Malloc => "malloc",
        Runtime::Printf => "printf",
        Runtime::Puts => "puts",
        Runtime::NowMs => "__gradient_now_ms",
        Runtime::Snprintf => "snprintf",
        Runtime::Strlen => "strlen",
        Runtime::Strcpy => "strcpy",
        Runtime::Strcat => "strcat",
        Runtime::Strstr => "strstr",
        Runtime::Strncmp => "strncmp",
        Runtime::Strcmp => "strcmp",
        Runtime::Fabs => "fabs",
        Runtime::Sqrt => "sqrt",
        Runtime::Sleep => "__gradient_sleep",
        Runtime::SleepSeconds => "__gradient_sleep_seconds",
        Runtime::TimeString => "__gradient_time_string",
        Runtime::DateString => "__gradient_date_string",
        Runtime::DatetimeYear => "__gradient_datetime_year",
        Runtime::DatetimeMonth => "__gradient_datetime_month",
        Runtime::DatetimeDay => "__gradient_datetime_day",
    }
}

/// The parameter types of a runtime function.
pub open spec fn spec_runtime_params(r: Runtime) -> Seq<LTy> {
    match r {
        Runtime::Malloc => seq![LTy::I64],
        Runtime::Printf => seq![LTy::Ptr],
        Runtime::Puts => seq![LTy::Ptr],
        Runtime::NowMs => Seq::empty(),
        Runtime::Snprintf => seq![LTy::Ptr, LTy::I64, LTy::Ptr],
        Runtime::Strlen => seq![LTy::Ptr],
        Runtime::Strcpy => seq![LTy::Ptr, LTy::Ptr],
        Runtime::Strcat => seq![LTy::Ptr, LTy::Ptr],
        Runtime::Strstr => seq![LTy::Ptr, LTy::Ptr],
        Runtime::Strncmp => seq![LTy::Ptr, LTy::Ptr, LTy::I64],
        Runtime::Strcmp => seq![LTy::Ptr, LTy::Ptr],
        Runtime::Fabs => seq![LTy::F64],
        Runtime::Sqrt => seq![LTy::F64],
        Runtime::Sleep => seq![LTy::I64],
        Runtime::SleepSeconds => seq![LTy::I64],
        Runtime::TimeString => Seq::empty(),
        Runtime::DateString => Seq::empty(),
        Runtime::DatetimeYear => seq![LTy::I64],
        Runtime::DatetimeMonth => seq![LTy::I64],
        Runtime::DatetimeDay => seq![LTy::I64],
    }
}

/// The return type of a runtime function.
pub open spec fn spec_runtime_ret(r: Runtime) -> LRet {
    match r {
        Runtime::Malloc => LRet::Value(LTy::Ptr),
        Runtime::Printf => LRet::Value(LTy::I32),
        Runtime::Puts => LRet::Value(LTy::I32),
        Runtime::NowMs => LRet::Value(LTy::I64),
        Runtime::Snprintf => LRet::Value(LTy::I32),
        Runtime::Strlen => LRet::Value(LTy::I64),
        Runtime::Strcpy => LRet::Value(LTy::Ptr),
        Runtime::Strcat => LRet::Value(LTy::Ptr),
        Runtime::Strstr => LRet::Value(LTy::Ptr),
        Runtime::Strncmp => LRet::Value(LTy::I32),
        Runtime::Strcmp => LRet::Value(LTy::I32),
        Runtime::Fabs => LRet::Value(LTy::F64),
        Runtime::Sqrt => LRet::Value(LTy::F64),
        Runtime::Sleep => LRet::Void,
        Runtime::SleepSeconds => LRet::Void,
        Runtime::TimeString => LRet::Value(LTy::Ptr),
        Runtime::DateString => LRet::Value(LTy::Ptr),
        Runtime::DatetimeYear => LRet::Value(LTy::I64),
        Runtime::DatetimeMonth => LRet::Value(LTy::I64),
        Runtime::DatetimeDay => LRet::Value(LTy::I64),
    }
}

/// Whether a runtime function takes further arguments after its
/// parameters (`printf` and `snprintf`).
pub open spec fn spec_runtime_variadic(r: Runtime) -> bool {
    r == Runtime::Printf || r == Runtime::Snprintf
}

/// The signature a runtime function is declared with (external linkage).
pub fn runtime_sig(r: Runtime) -> (s: LSig)
    ensures
        s.params@ == spec_runtime_params(r),
        s.ret == spec_runtime_ret(r),
        s.variadic == spec_runtime_variadic(r),
        s.linkage == LLinkage::External,
{
    let (params, ret) = match r {
        Runtime::Malloc => (vec![LTy::I64], LRet::Value(LTy::Ptr)),
        Runtime::Printf => (vec![LTy::Ptr], LRet::Value(LTy::I32)),
        Runtime::Puts => (vec![LTy::Ptr], LRet::Value(LTy::I32)),
        Runtime::NowMs => (Vec::new(), LRet::Value(LTy::I64)),
        Runtime::Snprintf => (vec![LTy::Ptr, LTy::I64, LTy::Ptr], LRet::Value(LTy::I32)),
        Runtime::Strlen => (vec![LTy::Ptr], LRet::Value(LTy::I64)),
        Runtime::Strcpy => (vec![LTy::Ptr, LTy::Ptr], LRet::Value(LTy::Ptr)),
        Runtime::Strcat => (vec![LTy::Ptr, LTy::Ptr], LRet::Value(LTy::Ptr)),
        Runtime::Strstr => (vec![LTy::Ptr, LTy::Ptr], LRet::Value(LTy::Ptr)),
        Runtime::Strncmp => (vec![LTy::Ptr, LTy::Ptr, LTy::I64], LRet::Value(LTy::I32)),
        Runtime::Strcmp => (vec![LTy::Ptr, LTy::Ptr], LRet::Value(LTy::I32)),
        Runtime::Fabs => (vec![LTy::F64], LRet::Value(LTy::F64)),
        Runtime::Sqrt => (vec![LTy::F64], LRet::Value(LTy::F64)),
        Runtime::Sleep => (vec![LTy::I64], LRet::Void),
        Runtime::SleepSeconds => (vec![LTy::I64], LRet::Void),
        Runtime::TimeString => (Vec::new(), LRet::Value(LTy::Ptr)),
        Runtime::DateString => (Vec::new(), LRet::Value(LTy::Ptr)),
        Runtime::DatetimeYear => (vec![LTy::I64], LRet::Value(LTy::I64)),
        Runtime::DatetimeMonth => (vec![LTy::I64], LRet::Value(LTy::I64)),
        Runtime::DatetimeDay => (vec![LTy::I64], LRet::Value(LTy::I64)),
    };
    let variadic = match r {
        Runtime::Printf | Runtime::Snprintf => true,
        _ => false,
    };
    LSig { params, ret, variadic, linkage: LLinkage::External }
}

/// The labels of the blocks of a function (with repeats).
pub open spec fn has_label(blocks: Seq<crate::ir::BasicBlock>, l: u32) -> bool {
    exists|i: int| 0 <= i < blocks.len() && #[trigger] blocks[i].label.0 == l
}

/// No function after `j` and before `end` has function `j`'s name.
pub open spec fn last_before(fs: Seq<Function>, j: int, end: int) -> bool {
    forall|m: int| j < m < end ==> #[trigger] fs[m].name@ != fs[j].name@
}

/// No later function has function `j`'s name.
pub open spec fn last_of_name(fs: Seq<Function>, j: int) -> bool {
    last_before(fs, j, fs.len() as int)
}

/// Some block among the first `i` of `blocks` is labelled `l`.
pub open spec fn labelled_before(blocks: Seq<crate::ir::BasicBlock>, i: int, l: u32) -> bool {
    exists|j: int| 0 <= j < i && #[trigger] blocks[j].label.0 == l
}

/// The message for a function that was not declared.
pub open spec fn not_declared_msg(name: Seq<char>) -> Seq<char> {
    "Function "@ + name + " not declared"@
}

impl<'ctx> LlvmCodegen<'ctx> {
    /// Whether the function named `name` was declared.
    pub open spec fn is_declared(&self, name: Seq<char>) -> bool {
        string_index(self.declared_names(), name) is Some
    }

    /// Everything but the per-function state and the module stays.
    pub open spec fn same_tables(&self, other: &Self) -> bool {
        &&& self.declared_names() == other.declared_names()
        &&& self.declared_sigs() == other.declared_sigs()
        &&& self.spec_opt_level() == other.spec_opt_level()
    }

    /// A pointer (`i8*`) to the global holding `s` and a terminating zero,
    /// made on the first request for `s` and shared by later ones.
    pub(crate) fn get_or_create_string(&mut self, s: &str) -> (r: BasicValueEnum<'ctx>)
        requires
            old(self).wf(),
        ensures
            final(self).step(old(self)),
            final(self).wf(),
            final(self).same_tables(old(self)),
            final(self).strings.entries@ == (if interning_adds(old(self).strings.entries@, s@) {
                old(self).strings.entries@.push(final(self).strings.entries@.last())
            } else {
                old(self).strings.entries@
            }),
            interning_adds(old(self).strings.entries@, s@) ==> final(self).strings.entries@.last()@ == s@,
            final(self).value_map == old(self).value_map,
            final(self).block_map == old(self).block_map,
            final(self).phis == old(self).phis,
            final(self).reach == old(self).reach,
            final(self).current == old(self).current,
            final(self).insert_block == old(self).insert_block,
            final(self).current_fn == old(self).current_fn,
    {
        let n = self.globals.len();
        let k = self.strings.intern(s);
        if k < n {
            return global_address(self.context, self.globals[k]);
        }
        let bytes = c_string_bytes(s);
        let len: u32 = #[verifier::truncate] (bytes.len() as u32);
        let name = self.generate_name("str");
        let g = add_byte_array_global(self.context, &self.module, len, name.as_str());
        set_global_constant(g);
        set_global_private(g);
        set_global_bytes(self.context, g, &bytes);
        self.globals.push(g);
        proof {
            assert(self.strings.entries@ =~= old(self).strings.entries@.push(self.strings.entries@.last()));
        }
        global_address(self.context, g)
    }

    /// The module's function named after runtime function `r`, declaring it
    /// with `r`'s signature when the module has none of that name.
    pub(crate) fn get_or_declare(&mut self, r: Runtime) -> (f: FunctionValue<'ctx>)
        requires
            old(self).wf(),
        ensures
            final(self).offsets() == old(self).offsets(),
            final(self).step(old(self)),
            final(self).wf(),
            final(self).same_tables(old(self)),
            final(self).strings == old(self).strings,
            final(self).globals == old(self).globals,
            final(self).value_map == old(self).value_map,
            final(self).block_map == old(self).block_map,
            final(self).phis == old(self).phis,
            final(self).reach == old(self).reach,
            final(self).current == old(self).current,
            final(self).insert_block == old(self).insert_block,
            final(self).current_fn == old(self).current_fn,
            final(self).name_counter == old(self).name_counter,
    {
        let name = runtime_name(r);
        match get_function(&self.module, name) {
            Some(f) => f,
            None => {
                let sig = runtime_sig(r);
                add_function(self.context, &self.module, name, &sig.params, sig.ret, sig.variadic, sig.linkage)
            },
        }
    }

    /// Declares `func` to LLVM: C's `main` takes `(i32, ptr)` before its own
    /// parameters and returns `i32` when it returns nothing; `main` and
    /// exported functions have external linkage, others private. A later
    /// declaration of the same name takes the earlier one's place.
    pub(crate) fn declare_function(&mut self, func: &Function)
        requires
            old(self).wf(),
            old(self).declared_names().len() < usize::MAX,
        ensures
            final(self).wf(),
            final(self).declared_names() == (if interning_adds(old(self).declared_names(), func.name@) {
                old(self).declared_names().push(final(self).declared_names().last())
            } else {
                old(self).declared_names()
            }),
            interning_adds(old(self).declared_names(), func.name@) ==> final(self).declared_names().last()@ == func.name@,
            declares(final(self).declared_sigs()[interned_index(old(self).declared_names(), func.name@) as int], *func),
            final(self).declared_sigs().len() == final(self).declared_names().len(),
            forall|i: int| 0 <= i < old(self).declared_names().len() && i != interned_index(old(self).declared_names(), func.name@)
                ==> #[trigger] final(self).declared_sigs()[i] == old(self).declared_sigs()[i],
            final(self).spec_opt_level() == old(self).spec_opt_level(),
            final(self).strings == old(self).strings,
            final(self).globals == old(self).globals,
    {
        let is_main = str_eq(func.name.as_str(), "main");
        let mut params: Vec<LTy> = Vec::new();
        if is_main {
            params.push(LTy::I32);
            params.push(LTy::Ptr);
        }
        let ghost pre: Seq<LTy> = params@;
        let n = func.params.len();
        for i in 0..n
            invariant
                n == func.params@.len(),
                params@ == pre + func.params@.subrange(0, i as int).map_values(|t: Type| spec_lty_of(t)),
        {
            params.push(ir_type_to_llvm(&func.params[i]));
            assert(func.params@.subrange(0, i + 1).map_values(|t: Type| spec_lty_of(t))
                =~= func.params@.subrange(0, i as int).map_values(|t: Type| spec_lty_of(t)).push(spec_lty_of(func.params@[i as int])));
        }
        proof {
            reveal_strlit("main");
            assert(func.params@.subrange(0, n as int) =~= func.params@);
            if is_main {
                assert(pre =~= seq![LTy::I32, LTy::Ptr]);
            } else {
                assert(pre =~= Seq::<LTy>::empty());
                assert(params@ =~= func.params@.map_values(|t: Type| spec_lty_of(t)));
            }
        }
        let ret = match func.return_type {
            Type::Void => if is_main { LRet::Value(LTy::I32) } else { LRet::Void },
            t => LRet::Value(ir_type_to_llvm(&t)),
        };
        let linkage = if is_main || func.is_export { LLinkage::External } else { LLinkage::Private };
        let f = add_function(self.context, &self.module, func.name.as_str(), &params, ret, false, linkage);
        let sig = LSig { params, ret, variadic: false, linkage };
        let n = self.funcs.len();
        let k = self.fn_names.intern(func.name.as_str());
        if k < n {
            self.funcs.set(k, f);
            self.fn_sigs.set(k, sig);
        } else {
            self.funcs.push(f);
            self.fn_sigs.push(sig);
            proof {
                assert(self.fn_names.entries@ =~= old(self).fn_names.entries@.push(self.fn_names.entries@.last()));
            }
        }
    }

    /// The signature recorded for the function named `name`.
    pub open spec fn declared_sig_of(&self, name: Seq<char>) -> LSig {
        self.declared_sigs()[string_index(self.declared_names(), name)->0 as int]
    }

    /// Compiles an IR module: declares every function, then compiles each
    /// function's body in order. Each function is declared with the
    /// signature of the last function of its name in the module.
    pub fn compile_module(&mut self, ir_module: &Module) -> (r: Result<(), CodegenError>)
        requires
            old(self).wf(),
            old(self).declared_names().len() + ir_module.functions@.len() < usize::MAX,
        ensures
            final(self).wf(),
            forall|i: int| 0 <= i < ir_module.functions@.len() ==> final(self).is_declared(#[trigger] ir_module.functions@[i].name@),
            forall|i: int| 0 <= i < ir_module.functions@.len() && last_of_name(ir_module.functions@, i)
                ==> declares(final(self).declared_sig_of(#[trigger] ir_module.functions@[i].name@), ir_module.functions@[i]),
            final(self).spec_opt_level() == old(self).spec_opt_level(),
            ir_module.functions@.len() == 0 ==> r is Ok,
    {
        let n = ir_module.functions.len();
        for i in 0..n
            invariant
                n == ir_module.functions@.len(),
                self.wf(),
                self.declared_names().len() <= old(self).declared_names().len() + i,
                old(self).declared_names().len() + n < usize::MAX,
                forall|j: int| 0 <= j < i ==> self.is_declared(#[trigger] ir_module.functions@[j].name@),
                forall|j: int| 0 <= j < i && last_before(ir_module.functions@, j, i as int)
                    ==> declares(self.declared_sig_of(#[trigger] ir_module.functions@[j].name@), ir_module.functions@[j]),
                self.spec_opt_level() == old(self).spec_opt_level(),
        {
            let ghost before = self.declared_names();
            let ghost bsigs = self.declared_sigs();
            self.declare_function(&ir_module.functions[i]);
            proof {
                let fi = ir_module.functions@[i as int];
                let k = interned_index(before, fi.name@);
                lemma_string_index(before, fi.name@);
                lemma_string_index(self.declared_names(), fi.name@);
                assert(string_index(self.declared_names(), fi.name@) == Some(k)) by {
                    if interning_adds(before, fi.name@) {
                        assert(self.declared_names().drop_last() =~= before);
                    }
                }
                assert forall|j: int| 0 <= j <= i && last_before(ir_module.functions@, j, i + 1)
                    implies declares(self.declared_sig_of(#[trigger] ir_module.functions@[j].name@), ir_module.functions@[j]) by {
                    let fj = ir_module.functions@[j];
                    if j < i {
                        assert(fj.name@ != fi.name@) by {
                            if fj.name@ == fi.name@ {
                                assert(ir_module.functions@[i as int].name@ == fj.name@);
                            }
                        }
                        assert(last_before(ir_module.functions@, j, i as int)) by {
                            assert forall|m: int| j < m < i implies #[trigger] ir_module.functions@[m].name@ != fj.name@ by {
                                assert(j < m < i + 1);
                            }
                        }
                        lemma_string_index(before, fj.name@);
                        let kj = string_index(before, fj.name@)->0;
                        assert(string_index(self.declared_names(), fj.name@) == Some(kj)) by {
                            if interning_adds(before, fi.name@) {
                                assert(self.declared_names().drop_last() =~= before);
                            }
                        }
                        assert(kj != k) by {
                            assert(before[kj as int]@ == fj.name@);
                            if kj == k && !interning_adds(before, fi.name@) {
                                assert(before[k as int]@ == fi.name@);
                            }
                        }
                    }
                }
            }
            proof {
                lemma_string_index(before, ir_module.functions@[i as int].name@);
                lemma_string_index(self.declared_names(), ir_module.functions@[i as int].name@);
                assert forall|j: int| 0 <= j <= i implies self.is_declared(#[trigger] ir_module.functions@[j].name@) by {
                    let nm = ir_module.functions@[j].name@;
                    lemma_string_index(before, nm);
                    lemma_string_index(self.declared_names(), nm);
                    if j < i {
                        let k = string_index(before, nm)->0;
                        assert(self.declared_names()[k as int] == before[k as int]);
                    } else {
                        let k = interned_index(before, nm);
                        assert(self.declared_names()[k as int]@ == nm);
                    }
                }
            }
        }
        let ghost declared = self.declared_names();
        let ghost sigs = self.declared_sigs();
        proof {
            assert forall|j: int| 0 <= j < n && last_of_name(ir_module.functions@, j)
                implies declares(self.declared_sig_of(#[trigger] ir_module.functions@[j].name@), ir_module.functions@[j]) by {
                assert(last_before(ir_module.functions@, j, n as int));
            }
        }
        for i in 0..n
            invariant
                n == ir_module.functions@.len(),
                self.wf(),
                self.declared_names() == declared,
                self.declared_sigs() == sigs,
                forall|j: int| 0 <= j < n ==> self.is_declared(#[trigger] ir_module.functions@[j].name@),
                forall|j: int| 0 <= j < n && last_of_name(ir_module.functions@, j)
                    ==> declares(self.declared_sig_of(#[trigger] ir_module.functions@[j].name@), ir_module.functions@[j]),
                self.spec_opt_level() == old(self).spec_opt_level(),
        {
            self.compile_function(&ir_module.functions[i], &ir_module.func_refs)?;
        }
        Ok(())
    }

    /// Adds the incoming edges of pending phi `i`, in entry order; fails at
    /// the first entry whose block has no LLVM block or whose value has no
    /// LLVM value.
    fn add_phi_incoming(&mut self, i: usize) -> (r: Result<(), CodegenError>)
        requires
            i < old(self).phis@.len(),
        ensures
            r is Ok <==> forall|b: int| 0 <= b < old(self).phis@[i as int].entries@.len()
                ==> old(self).has_block(#[trigger] old(self).phis@[i as int].entries@[b].0.0)
                    && old(self).defined(old(self).phis@[i as int].entries@[b].1.0),
            final(self).same_but_builder(old(self)),
            final(self).trace() == old(self).trace(),
            r is Ok ==> final(self).incoming() == old(self).incoming() + Self::phi_edges(*old(self), i as int),
    {
        let m = self.phis[i].entries.len();
        let ghost s0 = *self;
        let mut j: usize = 0;
        while j < m
            invariant
                j <= m,
                i < self.phis@.len(),
                m == self.phis@[i as int].entries@.len(),
                s0 == *old(self),
                forall|b: int| 0 <= b < j ==> s0.has_block(#[trigger] s0.phis@[i as int].entries@[b].0.0)
                    && s0.defined(s0.phis@[i as int].entries@[b].1.0),
                self.same_but_builder(old(self)),
                self.trace() == old(self).trace(),
                self.incoming() == old(self).incoming() + Self::phi_edges(*old(self), i as int).take(j as int),
            decreases m - j,
        {
            let e = self.phis[i].entries[j];
            let src = e.0;
            let v = e.1;
            assert(e == self.phis@[i as int].entries@[j as int]);
            let bb = match self.block_map.get(&src.0) {
                Some(b) => *b,
                None => {
                    assert(!old(self).has_block(old(self).phis@[i as int].entries@[j as int].0.0));
                    return Err(CodegenError::from_string(with_number("Predecessor block BlockRef(", src.0 as u64, ") not found")));
                },
            };
            let x = match self.resolve_value(v) {
                Ok(x) => x,
                Err(e) => {
                    return Err(e);
                },
            };
            let p = self.phis[i].phi;
            assert(s0.has_block(s0.phis@[i as int].entries@[j as int].0.0));
            assert(s0.defined(s0.phis@[i as int].entries@[j as int].1.0));
            phi_add_incoming(&mut self.builder, p, x, bb);
            proof {
                let edges = Self::phi_edges(*old(self), i as int);
                assert(edges[j as int] == (p, x, bb));
                assert(edges.take(j as int + 1) =~= edges.take(j as int).push((p, x, bb)));
                assert(self.incoming() =~= old(self).incoming() + edges.take(j as int + 1));
                assert forall|b: int| 0 <= b < j + 1 implies s0.has_block(#[trigger] s0.phis@[i as int].entries@[b].0.0)
                    && s0.defined(s0.phis@[i as int].entries@[b].1.0) by {
                    if b == j {
                        assert(s0.has_block(s0.phis@[i as int].entries@[j as int].0.0));
                    }
                }
            }
            j = j + 1;
        }
        proof {
            let edges = Self::phi_edges(*old(self), i as int);
            assert(edges.take(m as int) =~= edges);
        }
        Ok(())
    }

    /// Adds the incoming edges of the pending phis: for each entry, the
    /// LLVM value of the entry's IR value from the LLVM block of its source
    /// block.
    #[verifier::spinoff_prover]
    pub(crate) fn resolve_phi_nodes(&mut self) -> (r: Result<(), CodegenError>)
        requires
            old(self).wf(),
        ensures
            final(self).step(old(self)),
            (forall|i: int, j: int| 0 <= i < old(self).phis@.len() && 0 <= j < old(self).phis@[i].entries@.len()
                ==> old(self).has_block(#[trigger] old(self).phis@[i].entries@[j].0.0)
                    && old(self).defined(old(self).phis@[i].entries@[j].1.0)) ==> r is Ok,
            (exists|i: int, j: int| 0 <= i < old(self).phis@.len() && 0 <= j < old(self).phis@[i].entries@.len()
                && !old(self).has_block(#[trigger] old(self).phis@[i].entries@[j].0.0)) ==> r is Err,
            (exists|i: int, j: int| 0 <= i < old(self).phis@.len() && 0 <= j < old(self).phis@[i].entries@.len()
                && !old(self).defined(#[trigger] old(self).phis@[i].entries@[j].1.0)
                && forall|k: int| 0 <= k < old(self).phis@.len() ==> old(self).phis@[k].dst != old(self).phis@[i].entries@[j].1.0) ==> r is Err,
            r is Ok ==> forall|i: int| 0 <= i < old(self).phis@.len() ==> final(self).defined(#[trigger] old(self).phis@[i].dst),
            r is Ok ==> final(self).incoming().len() == old(self).incoming().len() + edges_before(old(self).phis@, old(self).phis@.len() as int),
    {
        broadcast use LlvmCodegen::lemma_step_trans;
        let n = self.phis.len();
        for i in 0..n
            invariant
                n == self.phis@.len(),
                self.phis == old(self).phis,
                self.step(old(self)),
                forall|v: u32| #[trigger] self.defined(v) ==> old(self).defined(v) || exists|k: int| 0 <= k < i && old(self).phis@[k].dst == v,
                forall|a: int, b: int| 0 <= a < i && 0 <= b < old(self).phis@[a].entries@.len()
                    ==> old(self).has_block(#[trigger] old(self).phis@[a].entries@[b].0.0),
                forall|a: int, b: int| 0 <= a < i && 0 <= b < old(self).phis@[a].entries@.len()
                    ==> self.defined(#[trigger] old(self).phis@[a].entries@[b].1.0),
                forall|a: int| 0 <= a < i ==> self.defined(#[trigger] old(self).phis@[a].dst),
                self.incoming().len() == old(self).incoming().len() + edges_before(old(self).phis@, i as int),
        {
            let ghost pre_add = *self;
            let added = self.add_phi_incoming(i);
            assert(self.step(&pre_add));
            if added.is_err() {
                return added;
            }
            assert(forall|b: int| 0 <= b < pre_add.phis@[i as int].entries@.len()
                ==> pre_add.has_block(#[trigger] pre_add.phis@[i as int].entries@[b].0.0)
                    && pre_add.defined(pre_add.phis@[i as int].entries@[b].1.0));
            let dst = self.phis[i].dst;
            let pv = phi_basic(self.phis[i].phi);
            let ghost before = *self;
            self.bind(dst, pv);
            assert(edges_before(old(self).phis@, i as int + 1) == edges_before(old(self).phis@, i as int) + old(self).phis@[i as int].entries@.len());
            proof {
                assert forall|a: int, b: int| 0 <= a < i + 1 && 0 <= b < old(self).phis@[a].entries@.len()
                    implies old(self).has_block(#[trigger] old(self).phis@[a].entries@[b].0.0)
                        && self.defined(old(self).phis@[a].entries@[b].1.0) by {
                    if a == i {
                        assert(before.block_map == pre_add.block_map && before.value_map == pre_add.value_map && before.phis == pre_add.phis);
                        assert(0 <= b < pre_add.phis@[i as int].entries@.len());
                        assert(pre_add.has_block(pre_add.phis@[i as int].entries@[b].0.0));
                        assert(before.has_block(before.phis@[i as int].entries@[b].0.0)
                            && before.defined(before.phis@[i as int].entries@[b].1.0));
                        assert(old(self).phis@[a] == before.phis@[i as int]);
                    } else {
                        assert(before.block_map == pre_add.block_map && before.value_map == pre_add.value_map && before.phis == pre_add.phis);
                        assert(old(self).has_block(old(self).phis@[a].entries@[b].0.0));
                        assert(pre_add.defined(old(self).phis@[a].entries@[b].1.0));
                    }
                    assert(before.block_map == old(self).block_map);
                }
                assert forall|a: int, b: int| 0 <= a < i + 1 && 0 <= b < old(self).phis@[a].entries@.len()
                    implies self.defined(#[trigger] old(self).phis@[a].entries@[b].1.0) by {
                    assert(old(self).has_block(old(self).phis@[a].entries@[b].0.0));
                }
                assert forall|v: u32| #[trigger] self.defined(v) implies old(self).defined(v)
                    || exists|k: int| 0 <= k < i + 1 && old(self).phis@[k].dst == v by {
                    if v == dst {
                        assert(old(self).phis@[i as int].dst == v);
                    } else {
                        assert(before.defined(v));
                        assert(before.value_map == pre_add.value_map);
                        assert(pre_add.defined(v));
                    }
                }
            }
        }
        proof {
            assert forall|i: int, j: int| 0 <= i < old(self).phis@.len() && 0 <= j < old(self).phis@[i].entries@.len()
                && !old(self).defined(#[trigger] old(self).phis@[i].entries@[j].1.0)
                implies exists|k: int| 0 <= k < old(self).phis@.len() && old(self).phis@[k].dst == old(self).phis@[i].entries@[j].1.0 by {
                assert(old(self).has_block(old(self).phis@[i].entries@[j].0.0));
                assert(self.defined(old(self).phis@[i].entries@[j].1.0));
            }
        }
        Ok(())
    }

    /// Runs the pass pipeline of the configured optimisation level on the
    /// module; nothing at `NoOpt`.
    fn run_optimization_passes(&self) -> (r: Result<(), CodegenError>)
        ensures
            spec_pass_pipeline(self.spec_opt_level()) is None ==> r is Ok,
            r matches Err(e) ==> "Optimization passes failed: "@.is_prefix_of(e.message@),
    {
        match pass_pipeline(self.opt_level) {
            None => Ok(()),
            Some(p) => match run_passes(&self.module, p, &self.target_machine) {
                Ok(()) => Ok(()),
                Err(e) => {
                    let err = CodegenError::from_string(with_text("Optimization passes failed: ", &e, ""));
                    assert("Optimization passes failed: "@.is_prefix_of(err.message@)) by {
                        assert("Optimization passes failed: "@ =~= err.message@.subrange(0, "Optimization passes failed: "@.len() as int));
                    }
                    Err(err)
                },
            },
        }
    }

    /// Verifies the module, runs the optimisation passes and returns the
    /// native object file's bytes.
    pub fn emit_bytes(&self) -> (r: Result<Vec<u8>, CodegenError>)
        ensures
            r matches Err(e) ==> "Module verification failed: "@.is_prefix_of(e.message@)
                || "Optimization passes failed: "@.is_prefix_of(e.message@)
                || "Failed to emit object file: "@.is_prefix_of(e.message@),
    {
        match verify_module(&self.module) {
            Ok(()) => {},
            Err(e) => {
                let err = CodegenError::from_string(with_text("Module verification failed: ", &e, ""));
                assert("Module verification failed: "@.is_prefix_of(err.message@)) by {
                    assert("Module verification failed: "@ =~= err.message@.subrange(0, "Module verification failed: "@.len() as int));
                }
                return Err(err);
            },
        }
        self.run_optimization_passes()?;
        match write_object(&self.target_machine, &self.module) {
            Ok(b) => Ok(b),
            Err(e) => {
                let err = CodegenError::from_string(with_text("Failed to emit object file: ", &e, ""));
                assert("Failed to emit object file: "@.is_prefix_of(err.message@)) by {
                    assert("Failed to emit object file: "@ =~= err.message@.subrange(0, "Failed to emit object file: "@.len() as int));
                }
                Err(err)
            },
        }
    }

    /// The module's textual LLVM IR.
    pub fn print_to_string_for_test(&self) -> String {
        module_text(&self.module)
    }
}


/// The index of the first entry of `t` equal to `s`, if any.
pub fn find_string(t: &StringTable, s: &str) -> (r: Option<usize>)
    ensures
        r == string_index(t.entries@, s@),
        r matches Some(k) ==> k < t.entries@.len() && t.entries@[k as int]@ == s@,
{
    let n = t.entries.len();
    proof {
        lemma_string_index(t.entries@, s@);
    }
    for i in 0..n
        invariant
            n == t.entries@.len(),
            forall|j: int| 0 <= j < i ==> t.entries@[j]@ != s@,
            match string_index(t.entries@, s@) {
                Some(k) => k < t.entries@.len() && t.entries@[k as int]@ == s@
                    && forall|j: int| 0 <= j < k ==> t.entries@[j]@ != s@,
                None => forall|j: int| 0 <= j < t.entries@.len() ==> t.entries@[j]@ != s@,
            },
    {
        if str_eq(t.entries[i].as_str(), s) {
            return Some(i);
        }
    }
    None
}

impl<'ctx> LlvmCodegen<'ctx> {
    /// One instruction's step keeps the tables and the current function's
    /// blocks, only adds string constants and only defines more values.
    pub closed spec fn step(&self, before: &Self) -> bool {
        &&& self.wf()
        &&& self.same_tables(before)
        &&& self.block_map == before.block_map
        &&& self.reach == before.reach
        &&& self.current_fn == before.current_fn
        &&& forall|k: u32| before.defined(k) ==> #[trigger] self.defined(k)
    }

    /// Makes `x` the LLVM value of IR value `v`.
    pub(crate) fn bind(&mut self, v: u32, x: BasicValueEnum<'ctx>)
        requires
            old(self).wf(),
        ensures
            final(self).step(old(self)),
            final(self).defined(v),
            final(self).value_map@ == old(self).value_map@.insert(v, x),
            final(self).builder == old(self).builder,
            final(self).offsets() == old(self).offsets(),
            final(self).strings == old(self).strings,
            final(self).phis == old(self).phis,
            final(self).current == old(self).current,
            final(self).insert_block == old(self).insert_block,
            final(self).name_counter == old(self).name_counter,
    {
        self.value_map.insert(v, x);
    }

    /// Steps compose.
    pub broadcast proof fn lemma_step_trans(a: &Self, b: &Self, c: &Self)
        requires
            #[trigger] b.step(a),
            #[trigger] c.step(b),
        ensures
            c.step(a),
    {
    }

    /// Compiles the body of `func`: creates an LLVM block named `block.N`
    /// for each reachable IR block (an empty function gets an `entry` block
    /// that returns), binds the parameters to the first IR values, compiles
    /// the reachable blocks' instructions in order and then adds the phis'
    /// incoming edges.
    pub(crate) fn compile_function(&mut self, func: &Function, func_refs: &HashMap<u32, String>) -> (r: Result<(), CodegenError>)
        requires
            old(self).wf(),
        ensures
            final(self).wf(),
            final(self).same_tables(old(self)),
            !old(self).is_declared(func.name@) ==> (r matches Err(e) && e.message@ == not_declared_msg(func.name@)),
            r is Ok && func.blocks@.len() > 0 ==> forall|l: u32|
                #[trigger] final(self).has_block(l) <==> reachable(func.blocks@, l) && has_label(func.blocks@, l),
            old(self).is_declared(func.name@) && func.blocks@.len() == 0 ==> final(self).value_map@.len() == 0
                && final(self).name_counter == 0,
            r is Ok && func.blocks@.len() == 0 ==> final(self).trace() == old(self).trace().push(LKind::Ret),
    {
        let k = match find_string(&self.fn_names, func.name.as_str()) {
            Some(k) => k,
            None => {
                let m = with_text("Function ", func.name.as_str(), " not declared");
                proof {
                    reveal_strlit("Function ");
                    reveal_strlit(" not declared");
                }
                return Err(CodegenError::from_string(m));
            },
        };
        let llvm_func = self.funcs[k];
        self.create_blocks(func, llvm_func);
        let ghost blocks = self.block_map@;
        if func.blocks.len() == 0 {
            let entry = append_block(self.context, llvm_func, "entry");
            position_at_end(&mut self.builder, entry);
            self.insert_block = Some(entry);
            return match build_return(&mut self.builder, None) {
                Ok(()) => Ok(()),
                Err(e) => Err(CodegenError::from_string(with_text("Failed to build return: ", e.as_str(), ""))),
            };
        }
        let np = func.params.len();
        for i in 0..np
            invariant
                self.wf(),
                self.same_tables(old(self)),
                old(self).is_declared(func.name@),
                self.block_map@ == blocks,
                self.current_fn == Some(llvm_func),
                forall|l: u32| self.reach@.contains(l) <==> reachable(func.blocks@, l),
                forall|l: u32| #[trigger] blocks.contains_key(l) <==> reachable(func.blocks@, l) && has_label(func.blocks@, l),
        {
            let idx: u32 = #[verifier::truncate] (i as u32);
            match nth_param(llvm_func, idx) {
                Some(p) => {
                    self.bind(idx, p);
                },
                None => {},
            }
        }
        let nb = func.blocks.len();
        for i in 0..nb
            invariant
                nb == func.blocks@.len(),
                self.wf(),
                self.same_tables(old(self)),
                old(self).is_declared(func.name@),
                self.block_map@ == blocks,
                forall|l: u32| self.reach@.contains(l) <==> reachable(func.blocks@, l),
                forall|l: u32| #[trigger] blocks.contains_key(l) <==> reachable(func.blocks@, l) && has_label(func.blocks@, l),
        {
            let l = func.blocks[i].label.0;
            if crate::cfg::contains_u32(&self.reach, l) {
                let bb = match self.block_map.get(&l) {
                    Some(b) => *b,
                    None => {
                        proof {
                            assert(func.blocks@[i as int].label.0 == l);
                            assert(has_label(func.blocks@, l));
                        }
                        return Err(CodegenError::from_string(with_number("Target block BlockRef(", l as u64, ") not found")));
                    },
                };
                position_at_end(&mut self.builder, bb);
                self.current = Some(l);
                self.insert_block = Some(bb);
                self.compile_block(func, i, func_refs)?;
            }
        }
        self.resolve_phi_nodes()
    }

    /// Starts compiling `func` as LLVM function `f`: clears the
    /// per-function state, finds the reachable blocks and makes an LLVM
    /// block named `block.N` for each reachable IR block.
    pub(crate) fn create_blocks(&mut self, func: &Function, f: FunctionValue<'ctx>)
        requires
            old(self).wf(),
        ensures
            final(self).wf(),
            final(self).same_tables(old(self)),
            final(self).current_fn == Some(f),
            forall|l: u32| final(self).reach@.contains(l) <==> reachable(func.blocks@, l),
            forall|l: u32| #[trigger] final(self).block_map@.contains_key(l) <==> reachable(func.blocks@, l) && has_label(func.blocks@, l),
            final(self).value_map@ == Map::<u32, BasicValueEnum<'ctx>>::empty(),
            final(self).phis@.len() == 0,
            final(self).name_counter == 0,
            final(self).trace() == old(self).trace(),
    {
        self.value_map = HashMap::new();
        self.block_map = HashMap::new();
        self.phis = Vec::new();
        self.name_counter = 0;
        self.reach = reachable_labels(&func.blocks);
        self.current = None;
        self.insert_block = None;
        self.current_fn = Some(f);
        let nb = func.blocks.len();
        for i in 0..nb
            invariant
                nb == func.blocks@.len(),
                self.wf(),
                self.same_tables(old(self)),
                self.current_fn == Some(f),
                self.value_map@ == Map::<u32, BasicValueEnum<'ctx>>::empty(),
                self.phis@.len() == 0,
                self.name_counter == 0,
                self.trace() == old(self).trace(),
                forall|l: u32| self.reach@.contains(l) <==> reachable(func.blocks@, l),
                forall|l: u32| #[trigger] self.block_map@.contains_key(l) <==>
                    self.reach@.contains(l) && labelled_before(func.blocks@, i as int, l),
        {
            let l = func.blocks[i].label.0;
            if crate::cfg::contains_u32(&self.reach, l) {
                let name = with_number("block.", l as u64, "");
                let bb = append_block(self.context, f, name.as_str());
                self.block_map.insert(l, bb);
            }
            proof {
                assert forall|x: u32| #[trigger] self.block_map@.contains_key(x) <==>
                    self.reach@.contains(x) && labelled_before(func.blocks@, i + 1, x) by {
                    if labelled_before(func.blocks@, i + 1, x) && x != l {
                        let j = choose|j: int| 0 <= j < i + 1 && #[trigger] func.blocks@[j].label.0 == x;
                        assert(j < i);
                    }
                    if x == l {
                        assert(func.blocks@[i as int].label.0 == x);
                    }
                    if labelled_before(func.blocks@, i as int, x) {
                        let j = choose|j: int| 0 <= j < i && #[trigger] func.blocks@[j].label.0 == x;
                        assert(0 <= j < i + 1);
                    }
                }
            }
        }
        proof {
            assert forall|x: u32| #[trigger] self.block_map@.contains_key(x) <==> reachable(func.blocks@, x) && has_label(func.blocks@, x) by {
                if has_label(func.blocks@, x) {
                    let j = choose|j: int| 0 <= j < func.blocks@.len() && #[trigger] func.blocks@[j].label.0 == x;
                    assert(labelled_before(func.blocks@, nb as int, x));
                }
                if labelled_before(func.blocks@, nb as int, x) {
                    let j = choose|j: int| 0 <= j < nb && #[trigger] func.blocks@[j].label.0 == x;
                    assert(has_label(func.blocks@, x));
                }
            }
        }
    }

    /// Compiles the instructions of block `i` of `func`, in order.
    pub(crate) fn compile_block(&mut self, func: &Function, i: usize, func_refs: &HashMap<u32, String>) -> (r: Result<(), CodegenError>)
        requires
            old(self).wf(),
            i < func.blocks@.len(),
        ensures
            final(self).step(old(self)),
            (exists|j: int| 0 <= j < func.blocks@[i as int].instructions@.len()
                && #[trigger] is_unsupported(func.blocks@[i as int].instructions@[j])) ==> r is Err,
            r is Ok ==> forall|j: int| 0 <= j < func.blocks@[i as int].instructions@.len()
                ==> (always_defines(#[trigger] func.blocks@[i as int].instructions@[j]) matches Some(v) ==> final(self).defined(v)),
            func.blocks@[i as int].instructions@.len() > 0 ==> (first_missing(old(self), leading_operands(func.blocks@[i as int].instructions@[0]))
                matches Some(v) ==> (r matches Err(e) && e.message@ == missing_value_msg(v))),
    {
        let n = func.blocks[i].instructions.len();
        for j in 0..n
            invariant
                i < func.blocks@.len(),
                n == func.blocks@[i as int].instructions@.len(),
                self.step(old(self)),
                j > 0 ==> first_missing(old(self), leading_operands(func.blocks@[i as int].instructions@[0])) is None,
                forall|q: int| 0 <= q < j ==> !is_unsupported(#[trigger] func.blocks@[i as int].instructions@[q]),
                forall|q: int| 0 <= q < j ==> (always_defines(#[trigger] func.blocks@[i as int].instructions@[q]) matches Some(v) ==> self.defined(v)),
                j == 0 ==> *self == *old(self),
        {
            let ghost before = *self;
            let r = self.compile_instruction(&func.blocks[i].instructions[j], func, func_refs);
            proof {
                Self::lemma_step_trans(old(self), &before, self);
            }
            r?;
        }
        Ok(())
    }
}

} // verus!
