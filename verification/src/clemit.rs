//! Emitting a planned function through Cranelift's `FunctionBuilder`: each
//! planned operation becomes one builder call. Slots, blocks, declared
//! functions and string data are looked up by number; a reference to one
//! that does not exist is reported as an error rather than a panic.

use vstd::prelude::*;
use cranelift_codegen::ir::condcodes::{FloatCC, IntCC};
use cranelift_codegen::ir::{types as cl_types, AbiParam, BlockArg, InstBuilder, MemFlags};
use cranelift_codegen::ir::{Block, GlobalValue, SigRef, Signature, StackSlot};
use cranelift_codegen::ir::FuncRef as ClFuncRef;
use cranelift_codegen::ir::Value as ClValue;
use cranelift_codegen::ir::Type as ClType;
use cranelift_codegen::ir::Function as ClFunction;
use cranelift_codegen::ir::{StackSlotData, StackSlotKind, UserFuncName};
use cranelift_frontend::{FunctionBuilder, FunctionBuilderContext};
use cranelift_module::{DataId, FuncId, Module};
use cranelift_codegen::Context;
use cranelift_module::DataDescription;
use cranelift_object::{ObjectBuilder, ObjectModule, ObjectProduct};
use crate::mach::Linkage;
use crate::clplan::ClPlanner;
use crate::mach::{Conv, FCond, FOp, FUn, ICond, ImmOp, IOp, MTy, Op, Span};

verus! {

#[verifier::external_type_specification]
#[verifier::external_body]
pub struct ExClValue(ClValue);

#[verifier::external_type_specification]
#[verifier::external_body]
pub struct ExClType(ClType);

#[verifier::external_type_specification]
#[verifier::external_body]
pub struct ExClBlock(Block);

#[verifier::external_type_specification]
#[verifier::external_body]
pub struct ExClFuncRef(ClFuncRef);

#[verifier::external_type_specification]
#[verifier::external_body]
pub struct ExClGlobalValue(GlobalValue);

#[verifier::external_type_specification]
#[verifier::external_body]
pub struct ExClSigRef(SigRef);

#[verifier::external_type_specification]
#[verifier::external_body]
pub struct ExClSignature(Signature);

#[verifier::external_type_specification]
#[verifier::external_body]
pub struct ExClStackSlot(StackSlot);

#[verifier::external_type_specification]
#[verifier::external_body]
pub struct ExClFunction(ClFunction);

#[verifier::external_type_specification]
#[verifier::external_body]
pub struct ExClBuilderContext(FunctionBuilderContext);

#[verifier::external_type_specification]
#[verifier::external_body]
pub struct ExClBuilder<'a>(FunctionBuilder<'a>);

#[verifier::external_type_specification]
#[verifier::external_body]
pub struct ExClFuncId(FuncId);

#[verifier::external_type_specification]
#[verifier::external_body]
pub struct ExClDataId(DataId);

#[verifier::external_type_specification]
#[verifier::external_body]
pub struct ExClObjectModule(ObjectModule);

/// Converts a machine type to Cranelift's type of the same width.
#[verifier::external_body]
fn cl_type(t: MTy) -> ClType {
    match t {
        MTy::I8 => cl_types::I8,
        MTy::I32 => cl_types::I32,
        MTy::I64 => cl_types::I64,
        MTy::F64 => cl_types::F64,
    }
}

/// What the checks of Cranelift's `ObjectModule` depend on: the functions
/// and data objects declared, those whose linkage asks for a definition
/// (local or exported), and those defined; with the name of each declared
/// symbol and the bytes each defined data object holds.
pub ghost struct MState {
    pub fdecl: Set<FuncId>,
    pub fneed: Set<FuncId>,
    pub fdone: Set<FuncId>,
    pub ddecl: Set<DataId>,
    pub dneed: Set<DataId>,
    pub ddone: Set<DataId>,
    pub fnames: Map<FuncId, Seq<char>>,
    pub dnames: Map<DataId, Seq<char>>,
    pub ddata: Map<DataId, Seq<u8>>,
}

impl MState {
    /// Nothing declared.
    pub open spec fn empty() -> MState {
        MState {
            fdecl: Set::empty(),
            fneed: Set::empty(),
            fdone: Set::empty(),
            ddecl: Set::empty(),
            dneed: Set::empty(),
            ddone: Set::empty(),
            fnames: Map::empty(),
            dnames: Map::empty(),
            ddata: Map::empty(),
        }
    }

    /// Every symbol whose linkage asks for a definition has one, as
    /// `ObjectModule::finish` checks.
    pub open spec fn complete(self) -> bool {
        &&& self.fneed.subset_of(self.fdone)
        &&& self.dneed.subset_of(self.ddone)
    }

    /// The function part is unchanged from `self` to `after`.
    pub open spec fn same_functions(self, after: MState) -> bool {
        &&& after.fdecl == self.fdecl
        &&& after.fneed == self.fneed
        &&& after.fdone == self.fdone
        &&& after.fnames == self.fnames
    }

    /// The data part is unchanged from `self` to `after`.
    pub open spec fn same_data(self, after: MState) -> bool {
        &&& after.ddecl == self.ddecl
        &&& after.dneed == self.dneed
        &&& after.ddone == self.ddone
        &&& after.dnames == self.dnames
        &&& after.ddata == self.ddata
    }
}

/// An `ObjectModule` with the model of its declarations.
pub struct ObjModule {
    m: ObjectModule,
    state: Ghost<MState>,
}

impl ObjModule {
    /// The model of the module's declarations and definitions.
    pub closed spec fn state(&self) -> MState {
        self.state@
    }

    /// A module over the object builder `b`, with nothing declared.
    pub(crate) fn new(b: ObjectBuilder) -> (r: ObjModule)
        ensures
            r.state() == MState::empty(),
    {
        ObjModule { m: object_module_new(b), state: Ghost(MState::empty()) }
    }
}

/// `ObjectModule::new`.
#[verifier::external_body]
fn object_module_new(b: ObjectBuilder) -> ObjectModule {
    ObjectModule::new(b)
}

/// `Module::make_signature`: an empty signature in the module's calling
/// convention.
#[verifier::external_body]
pub(crate) fn make_signature(module: &ObjModule) -> Signature {
    module.m.make_signature()
}

/// `Module::declare_function` with the linkage matching `linkage`; the
/// error is the `Display` text of Cranelift's `ModuleError`. On success the
/// function is declared, and its linkage asks for a definition unless
/// `linkage` is `Import` (a declaration under a name declared before merges
/// the two linkages, and an import never lowers a local or exported one).
/// A failure under an import linkage changes nothing; under another
/// linkage it may have merged that linkage into an earlier declaration of
/// the name, which is left unsaid.
#[verifier::external_body]
pub(crate) fn declare_function(m: &mut ObjModule, name: &str, linkage: Linkage, sig: &Signature) -> (r: Result<FuncId, String>)
    ensures
        final(m).state().fdone == old(m).state().fdone,
        old(m).state().same_data(final(m).state()),
        r matches Ok(id) ==> final(m).state().fdecl == old(m).state().fdecl.insert(id),
        r matches Ok(id) ==> final(m).state().fneed == (if linkage is Import {
            old(m).state().fneed
        } else {
            old(m).state().fneed.insert(id)
        }),
        r is Err ==> final(m).state().fdecl == old(m).state().fdecl,
        r is Err && linkage is Import ==> final(m).state().fneed == old(m).state().fneed,
        r matches Ok(id) ==> final(m).state().fnames == old(m).state().fnames.insert(id, name@),
        r matches Ok(id) ==> (old(m).state().fnames.dom().contains(id) ==> old(m).state().fnames[id] == name@),
        r is Err ==> final(m).state().fnames == old(m).state().fnames,
{
    let l = match linkage {
        Linkage::Import => cranelift_module::Linkage::Import,
        Linkage::Local => cranelift_module::Linkage::Local,
        Linkage::Export => cranelift_module::Linkage::Export,
    };
    m.m.declare_function(name, l, sig).map_err(|e| format!("{}", e))
}

/// `Module::declare_data` of a non-thread-local object with the linkage
/// matching `linkage`; the error is the `Display` text of Cranelift's
/// `ModuleError`. On success the object is declared, and it asks for a
/// definition unless `linkage` is `Import`; a failure under an import
/// linkage changes nothing, and under another it may have merged that
/// linkage into an earlier object of the name, which is left unsaid.
#[verifier::external_body]
pub(crate) fn declare_data(m: &mut ObjModule, name: &str, linkage: Linkage, writable: bool) -> (r: Result<DataId, String>)
    ensures
        old(m).state().same_functions(final(m).state()),
        final(m).state().ddone == old(m).state().ddone,
        r matches Ok(id) ==> final(m).state().ddecl == old(m).state().ddecl.insert(id),
        r matches Ok(id) ==> final(m).state().dneed == (if linkage is Import {
            old(m).state().dneed
        } else {
            old(m).state().dneed.insert(id)
        }),
        r is Err ==> final(m).state().ddecl == old(m).state().ddecl,
        r is Err && linkage is Import ==> final(m).state().dneed == old(m).state().dneed,
        r matches Ok(id) ==> final(m).state().dnames == old(m).state().dnames.insert(id, name@),
        r matches Ok(id) ==> (old(m).state().dnames.dom().contains(id) ==> old(m).state().dnames[id] == name@),
        r is Err ==> final(m).state().dnames == old(m).state().dnames,
        final(m).state().ddata == old(m).state().ddata,
{
    let l = match linkage {
        Linkage::Import => cranelift_module::Linkage::Import,
        Linkage::Local => cranelift_module::Linkage::Local,
        Linkage::Export => cranelift_module::Linkage::Export,
    };
    m.m.declare_data(name, l, writable, false).map_err(|e| format!("{}", e))
}

/// `Module::define_data` of declared object `id` with a `DataDescription`
/// (`new`, then `define`) whose contents are `bytes`; the error is the
/// `Display` text of Cranelift's `ModuleError`. The object is defined,
/// holding `bytes`, exactly when the call succeeds.
#[verifier::external_body]
pub(crate) fn define_data(m: &mut ObjModule, id: DataId, bytes: Vec<u8>) -> (r: Result<(), String>)
    requires
        old(m).state().ddecl.contains(id),
    ensures
        old(m).state().same_functions(final(m).state()),
        final(m).state().ddecl == old(m).state().ddecl,
        final(m).state().dneed == old(m).state().dneed,
        final(m).state().dnames == old(m).state().dnames,
        r is Ok ==> final(m).state().ddone == old(m).state().ddone.insert(id),
        r is Ok ==> final(m).state().ddata == old(m).state().ddata.insert(id, bytes@),
        r is Err ==> final(m).state().ddone == old(m).state().ddone,
        r is Err ==> final(m).state().ddata == old(m).state().ddata,
{
    let mut d = DataDescription::new();
    d.define(bytes.into_boxed_slice());
    m.m.define_data(id, &d).map_err(|e| format!("{}", e))
}

/// `Module::define_function` of declared function `id`, which compiles the
/// context's function; the error is the `Debug` text of Cranelift's
/// `ModuleError`. The function is defined exactly when the call succeeds.
#[verifier::external_body]
pub(crate) fn define_function(m: &mut ObjModule, id: FuncId, ctx: &mut Context) -> (r: Result<(), String>)
    requires
        old(m).state().fdecl.contains(id),
    ensures
        old(m).state().same_data(final(m).state()),
        final(m).state().fdecl == old(m).state().fdecl,
        final(m).state().fneed == old(m).state().fneed,
        final(m).state().fnames == old(m).state().fnames,
        r is Ok ==> final(m).state().fdone == old(m).state().fdone.insert(id),
        r is Err ==> final(m).state().fdone == old(m).state().fdone,
{
    m.m.define_function(id, ctx).map_err(|e| format!("{:?}", e))
}

/// `ObjectModule::finish`, which checks that every symbol asking for a
/// definition has one.
#[verifier::external_body]
pub(crate) fn module_finish(m: ObjModule) -> ObjectProduct
    requires
        m.state().complete(),
{
    m.m.finish()
}

/// Pushes a parameter of type `t` (`AbiParam::new`) onto `sig`.
#[verifier::external_body]
pub(crate) fn sig_add_param(sig: &mut Signature, t: MTy) {
    sig.params.push(AbiParam::new(cl_type(t)));
}

/// Pushes a result of type `t` (`AbiParam::new`) onto `sig`.
#[verifier::external_body]
pub(crate) fn sig_add_return(sig: &mut Signature, t: MTy) {
    sig.returns.push(AbiParam::new(cl_type(t)));
}

/// What the checks of Cranelift's `FunctionBuilder` depend on: the blocks
/// created, those that received an instruction, those ended by a
/// terminator, those sealed, those that are the target of a jump or
/// branch, and the block instructions go to; values, function references,
/// signature references, global values and stack slots known to belong to
/// the function being built; and the instructions handed to it.
pub ghost struct BModel {
    pub blocks: Set<Block>,
    pub started: Set<Block>,
    pub filled: Set<Block>,
    pub sealed: Set<Block>,
    pub preds: Set<Block>,
    pub pos: Option<Block>,
    pub code: Seq<Emitted>,
    pub values: Set<ClValue>,
    pub callee: Map<ClFuncRef, FuncId>,
    pub sigs: Set<SigRef>,
    pub gvs: Set<GlobalValue>,
    pub slots: Set<StackSlot>,
}

/// Every value of `vs` is in `s`.
pub open spec fn all_in(vs: Seq<ClValue>, s: Set<ClValue>) -> bool {
    forall|i: int| 0 <= i < vs.len() ==> s.contains(#[trigger] vs[i])
}

/// The kind of an instruction handed to Cranelift, with its immediate
/// operands and, for a jump or branch, its targets and block arguments.
pub ghost enum EKind {
    IConst(MTy, i64),
    F64Const(u64),
    GlobalValue,
    FuncAddr(ClFuncRef),
    IBin(IOp),
    IBinImm(ImmOp, i64),
    ICmpImm(ICond, i64),
    FBin(FOp),
    FUnary(FUn),
    ICmp(ICond),
    FCmp(FCond),
    Select,
    Convert(Conv, MTy),
    Load(MTy, i32),
    Store(i32),
    StackAddr,
    Call(ClFuncRef),
    CallIndirect,
    Jump(Block),
    Brif(Block, Seq<ClValue>, Block, Seq<ClValue>),
    Return,
}

/// What the instructions of a plan refer to: the blocks created, the
/// declared function each function reference stands for, and the declared
/// function of each of the plan's function numbers.
pub ghost struct EmitEnv {
    pub blocks: Seq<Block>,
    pub callee: Map<ClFuncRef, FuncId>,
    pub fids: Seq<FuncId>,
}

/// One instruction handed to Cranelift: its kind, the values it uses and
/// the values it defines.
pub ghost struct Emitted {
    pub kind: EKind,
    pub args: Seq<ClValue>,
    pub results: Seq<ClValue>,
}

impl BModel {
    /// A fresh builder: no blocks, no position.
    pub open spec fn fresh() -> BModel {
        BModel {
            blocks: Set::empty(),
            started: Set::empty(),
            filled: Set::empty(),
            sealed: Set::empty(),
            preds: Set::empty(),
            pos: None,
            code: Seq::empty(),
            values: Set::empty(),
            callee: Map::empty(),
            sigs: Set::empty(),
            gvs: Set::empty(),
            slots: Set::empty(),
        }
    }

    /// Everything known to belong to the function in `self` still does in
    /// `after`.
    pub open spec fn refs_grow(self, after: BModel) -> bool {
        &&& self.values.subset_of(after.values)
        &&& forall|f: ClFuncRef| #[trigger] self.callee.dom().contains(f)
            ==> after.callee.dom().contains(f) && after.callee[f] == self.callee[f]
        &&& self.sigs.subset_of(after.sigs)
        &&& self.gvs.subset_of(after.gvs)
        &&& self.slots.subset_of(after.slots)
    }

    /// An instruction can be added: there is a current block and it has no
    /// terminator yet.
    pub open spec fn can_insert(self) -> bool {
        self.pos matches Some(c) && !self.filled.contains(c)
    }

    /// `after` is `self` with a non-terminating instruction added to the
    /// current block.
    pub open spec fn inserted(self, after: BModel) -> bool {
        &&& after.blocks =~= self.blocks
        &&& after.started =~= self.started.insert(self.pos->0)
        &&& after.filled =~= self.filled
        &&& after.sealed =~= self.sealed
        &&& after.preds =~= self.preds
        &&& after.pos == self.pos
    }

    /// `after` is `self` with a terminator added to the current block that
    /// jumps or branches to `targets`.
    pub open spec fn terminated(self, after: BModel, targets: Set<Block>) -> bool {
        &&& after.blocks =~= self.blocks
        &&& after.started =~= self.started.insert(self.pos->0)
        &&& after.filled =~= self.filled.insert(self.pos->0)
        &&& after.sealed =~= self.sealed
        &&& after.preds =~= self.preds + targets
        &&& after.pos == self.pos
    }

    /// `after` is the same state as `self`.
    pub open spec fn same(self, after: BModel) -> bool {
        &&& after.blocks =~= self.blocks
        &&& after.started =~= self.started
        &&& after.filled =~= self.filled
        &&& after.sealed =~= self.sealed
        &&& after.preds =~= self.preds
        &&& after.pos == self.pos
        &&& after.code == self.code
    }
}

/// A `FunctionBuilder` with the model of its state.
pub struct Fb<'a> {
    b: FunctionBuilder<'a>,
    model: Ghost<BModel>,
}

/// `Function::with_name_signature`: an empty Cranelift function named
/// after the declared function `id`.
#[verifier::external_body]
fn new_function(id: FuncId, sig: Signature) -> ClFunction {
    ClFunction::with_name_signature(UserFuncName::user(0, id.as_u32()), sig)
}

/// `FunctionBuilderContext::new`.
#[verifier::external_body]
fn new_builder_context() -> FunctionBuilderContext {
    FunctionBuilderContext::new()
}

/// A `FunctionBuilderContext` that no builder has used yet.
pub struct BuilderCtx {
    c: FunctionBuilderContext,
    used: Ghost<bool>,
}

impl BuilderCtx {
    /// No builder has used the context since `FunctionBuilderContext::new`.
    pub closed spec fn fresh(&self) -> bool {
        !self.used@
    }

    /// A new context (`FunctionBuilderContext::new`).
    fn new() -> (r: BuilderCtx)
        ensures
            r.fresh(),
    {
        BuilderCtx { c: new_builder_context(), used: Ghost(false) }
    }
}

/// `FunctionBuilder::new` over `func` with context `fctx`, which must be as
/// `FunctionBuilderContext::new` made it: `FunctionBuilder::new` asserts
/// that the context is empty.
#[verifier::external_body]
fn new_builder<'a>(func: &'a mut ClFunction, fctx: &'a mut BuilderCtx) -> FunctionBuilder<'a>
    requires
        old(fctx).fresh(),
{
    FunctionBuilder::new(func, &mut fctx.c)
}

/// `FunctionBuilder::finalize`.
#[verifier::external_body]
fn finalize_builder<'a>(b: Fb<'a>)
    requires
        forall|bl: Block| b.model@.started.contains(bl) ==> b.model@.filled.contains(bl) && b.model@.sealed.contains(bl),
{
    b.b.finalize()
}

/// `FunctionBuilder::create_block`.
#[verifier::external_body]
fn create_block<'a>(b: &mut Fb<'a>) -> (r: Block)
    ensures
        !old(b).model@.blocks.contains(r),
        final(b).model@.blocks =~= old(b).model@.blocks.insert(r),
        final(b).model@.started =~= old(b).model@.started,
        final(b).model@.filled =~= old(b).model@.filled,
        final(b).model@.sealed =~= old(b).model@.sealed,
        final(b).model@.preds =~= old(b).model@.preds,
        final(b).model@.pos == old(b).model@.pos,
        final(b).model@.code == old(b).model@.code,
        old(b).model@.refs_grow(final(b).model@),
{
    b.b.create_block()
}

/// `FunctionBuilder::append_block_param`.
#[verifier::external_body]
fn append_block_param<'a>(b: &mut Fb<'a>, block: Block, t: MTy)
    requires
        old(b).model@.blocks.contains(block),
        !old(b).model@.started.contains(block),
    ensures
        old(b).model@.same(final(b).model@),
        old(b).model@.refs_grow(final(b).model@),
{
    b.b.append_block_param(block, cl_type(t));
}

/// `FunctionBuilder::append_block_params_for_function_params`.
#[verifier::external_body]
fn append_function_params<'a>(b: &mut Fb<'a>, block: Block)
    requires
        old(b).model@.blocks.contains(block),
        !old(b).model@.started.contains(block),
        !old(b).model@.preds.contains(block),
    ensures
        old(b).model@.same(final(b).model@),
        old(b).model@.refs_grow(final(b).model@),
{
    b.b.append_block_params_for_function_params(block);
}

/// `FunctionBuilder::block_params`: the `index`-th parameter of `block`, if
/// it has that many.
#[verifier::external_body]
fn block_param<'a>(b: &mut Fb<'a>, block: Block, index: usize) -> (r: Option<ClValue>)
    requires
        old(b).model@.blocks.contains(block),
    ensures
        old(b).model@.same(final(b).model@),
        old(b).model@.refs_grow(final(b).model@),
        r matches Some(v) ==> final(b).model@.values.contains(v),
{
    b.b.block_params(block).get(index).copied()
}

/// `FunctionBuilder::switch_to_block`.
#[verifier::external_body]
fn switch_to_block<'a>(b: &mut Fb<'a>, block: Block)
    requires
        old(b).model@.blocks.contains(block),
        !old(b).model@.filled.contains(block),
        old(b).model@.pos matches Some(p) ==> !old(b).model@.started.contains(p) || old(b).model@.filled.contains(p),
    ensures
        final(b).model@.blocks =~= old(b).model@.blocks,
        final(b).model@.started =~= old(b).model@.started,
        final(b).model@.filled =~= old(b).model@.filled,
        final(b).model@.sealed =~= old(b).model@.sealed,
        final(b).model@.preds =~= old(b).model@.preds,
        final(b).model@.pos == Some(block),
        final(b).model@.code == old(b).model@.code,
        old(b).model@.refs_grow(final(b).model@),
{
    b.b.switch_to_block(block);
}

/// `FunctionBuilder::seal_block`.
#[verifier::external_body]
fn seal_block<'a>(b: &mut Fb<'a>, block: Block)
    requires
        old(b).model@.blocks.contains(block),
        !old(b).model@.sealed.contains(block),
    ensures
        final(b).model@.blocks =~= old(b).model@.blocks,
        final(b).model@.started =~= old(b).model@.started,
        final(b).model@.filled =~= old(b).model@.filled,
        final(b).model@.sealed =~= old(b).model@.sealed.insert(block),
        final(b).model@.preds =~= old(b).model@.preds,
        final(b).model@.pos == old(b).model@.pos,
        final(b).model@.code == old(b).model@.code,
        old(b).model@.refs_grow(final(b).model@),
{
    b.b.seal_block(block);
}

/// `FunctionBuilder::seal_all_blocks`.
#[verifier::external_body]
fn seal_all_blocks<'a>(b: &mut Fb<'a>)
    ensures
        final(b).model@.blocks =~= old(b).model@.blocks,
        final(b).model@.started =~= old(b).model@.started,
        final(b).model@.filled =~= old(b).model@.filled,
        final(b).model@.sealed =~= old(b).model@.sealed + old(b).model@.blocks,
        final(b).model@.preds =~= old(b).model@.preds,
        final(b).model@.pos == old(b).model@.pos,
        final(b).model@.code == old(b).model@.code,
        old(b).model@.refs_grow(final(b).model@),
{
    b.b.seal_all_blocks();
}

/// `FunctionBuilder::create_sized_stack_slot`: an explicit slot of `size`
/// bytes aligned to `2^align_shift`.
#[verifier::external_body]
fn create_stack_slot<'a>(b: &mut Fb<'a>, size: u32, align_shift: u8) -> (r: StackSlot)
    ensures
        old(b).model@.same(final(b).model@),
        old(b).model@.refs_grow(final(b).model@),
        final(b).model@.slots.contains(r),
{
    b.b.create_sized_stack_slot(StackSlotData::new(StackSlotKind::ExplicitSlot, size, align_shift))
}

/// `FunctionBuilder::import_signature`.
#[verifier::external_body]
fn import_signature<'a>(b: &mut Fb<'a>, sig: Signature) -> (r: SigRef)
    ensures
        old(b).model@.same(final(b).model@),
        old(b).model@.refs_grow(final(b).model@),
        final(b).model@.sigs.contains(r),
{
    b.b.import_signature(sig)
}

/// `Module::declare_func_in_func`: a reference to declared function `id`
/// usable in the function being built.
#[verifier::external_body]
fn func_ref_in<'a>(module: &mut ObjModule, id: FuncId, b: &mut Fb<'a>) -> (r: ClFuncRef)
    requires
        old(module).state().fdecl.contains(id),
    ensures
        final(module).state() == old(module).state(),
        old(b).model@.same(final(b).model@),
        old(b).model@.refs_grow(final(b).model@),
        !old(b).model@.callee.dom().contains(r),
        final(b).model@.callee == old(b).model@.callee.insert(r, id),
{
    module.m.declare_func_in_func(id, b.b.func)
}

/// `Module::declare_data_in_func`: a global value for data object `id`
/// usable in the function being built.
#[verifier::external_body]
fn data_ref_in<'a>(module: &ObjModule, id: DataId, b: &mut Fb<'a>) -> (r: GlobalValue)
    requires
        module.state().ddecl.contains(id),
    ensures
        old(b).model@.same(final(b).model@),
        old(b).model@.refs_grow(final(b).model@),
        final(b).model@.gvs.contains(r),
{
    module.m.declare_data_in_func(id, b.b.func)
}

/// `InstBuilder::iconst`.
#[verifier::external_body]
fn ins_iconst<'a>(b: &mut Fb<'a>, t: MTy, imm: i64) -> (r: ClValue)
    requires
        old(b).model@.can_insert(),
    ensures
        old(b).model@.inserted(final(b).model@),
        final(b).model@.code == old(b).model@.code.push(Emitted { kind: EKind::IConst(t, imm), args: seq![], results: seq![r] }),
        old(b).model@.refs_grow(final(b).model@),
        final(b).model@.values.contains(r),
{
    b.b.ins().iconst(cl_type(t), imm)
}

/// `InstBuilder::f64const` of the IEEE-754 value with bit pattern `bits`.
#[verifier::external_body]
fn ins_f64const<'a>(b: &mut Fb<'a>, bits: u64) -> (r: ClValue)
    requires
        old(b).model@.can_insert(),
    ensures
        old(b).model@.inserted(final(b).model@),
        final(b).model@.code == old(b).model@.code.push(Emitted { kind: EKind::F64Const(bits), args: seq![], results: seq![r] }),
        old(b).model@.refs_grow(final(b).model@),
        final(b).model@.values.contains(r),
{
    b.b.ins().f64const(cranelift_codegen::ir::immediates::Ieee64::with_bits(bits))
}

/// `InstBuilder::global_value` at pointer width.
#[verifier::external_body]
fn ins_global_value<'a>(b: &mut Fb<'a>, gv: GlobalValue) -> (r: ClValue)
    requires
        old(b).model@.gvs.contains(gv),
        old(b).model@.can_insert(),
    ensures
        old(b).model@.inserted(final(b).model@),
        final(b).model@.code == old(b).model@.code.push(Emitted { kind: EKind::GlobalValue, args: seq![], results: seq![r] }),
        old(b).model@.refs_grow(final(b).model@),
        final(b).model@.values.contains(r),
{
    b.b.ins().global_value(cl_types::I64, gv)
}

/// `InstBuilder::func_addr` at pointer width.
#[verifier::external_body]
fn ins_func_addr<'a>(b: &mut Fb<'a>, f: ClFuncRef) -> (r: ClValue)
    requires
        old(b).model@.callee.dom().contains(f),
        old(b).model@.can_insert(),
    ensures
        old(b).model@.inserted(final(b).model@),
        final(b).model@.code == old(b).model@.code.push(Emitted { kind: EKind::FuncAddr(f), args: seq![], results: seq![r] }),
        old(b).model@.refs_grow(final(b).model@),
        final(b).model@.values.contains(r),
{
    b.b.ins().func_addr(cl_types::I64, f)
}

/// `InstBuilder::iadd`.
#[verifier::external_body]
fn ins_iadd<'a>(b: &mut Fb<'a>, x: ClValue, y: ClValue) -> (r: ClValue)
    requires
        old(b).model@.values.contains(x),
        old(b).model@.values.contains(y),
        old(b).model@.can_insert(),
    ensures
        old(b).model@.inserted(final(b).model@),
        final(b).model@.code == old(b).model@.code.push(Emitted { kind: EKind::IBin(IOp::Add), args: seq![x, y], results: seq![r] }),
        old(b).model@.refs_grow(final(b).model@),
        final(b).model@.values.contains(r),
{
    b.b.ins().iadd(x, y)
}

/// `InstBuilder::isub`.
#[verifier::external_body]
fn ins_isub<'a>(b: &mut Fb<'a>, x: ClValue, y: ClValue) -> (r: ClValue)
    requires
        old(b).model@.values.contains(x),
        old(b).model@.values.contains(y),
        old(b).model@.can_insert(),
    ensures
        old(b).model@.inserted(final(b).model@),
        final(b).model@.code == old(b).model@.code.push(Emitted { kind: EKind::IBin(IOp::Sub), args: seq![x, y], results: seq![r] }),
        old(b).model@.refs_grow(final(b).model@),
        final(b).model@.values.contains(r),
{
    b.b.ins().isub(x, y)
}

/// `InstBuilder::imul`.
#[verifier::external_body]
fn ins_imul<'a>(b: &mut Fb<'a>, x: ClValue, y: ClValue) -> (r: ClValue)
    requires
        old(b).model@.values.contains(x),
        old(b).model@.values.contains(y),
        old(b).model@.can_insert(),
    ensures
        old(b).model@.inserted(final(b).model@),
        final(b).model@.code == old(b).model@.code.push(Emitted { kind: EKind::IBin(IOp::Mul), args: seq![x, y], results: seq![r] }),
        old(b).model@.refs_grow(final(b).model@),
        final(b).model@.values.contains(r),
{
    b.b.ins().imul(x, y)
}

/// `InstBuilder::sdiv`.
#[verifier::external_body]
fn ins_sdiv<'a>(b: &mut Fb<'a>, x: ClValue, y: ClValue) -> (r: ClValue)
    requires
        old(b).model@.values.contains(x),
        old(b).model@.values.contains(y),
        old(b).model@.can_insert(),
    ensures
        old(b).model@.inserted(final(b).model@),
        final(b).model@.code == old(b).model@.code.push(Emitted { kind: EKind::IBin(IOp::SDiv), args: seq![x, y], results: seq![r] }),
        old(b).model@.refs_grow(final(b).model@),
        final(b).model@.values.contains(r),
{
    b.b.ins().sdiv(x, y)
}

/// `InstBuilder::bor`.
#[verifier::external_body]
fn ins_bor<'a>(b: &mut Fb<'a>, x: ClValue, y: ClValue) -> (r: ClValue)
    requires
        old(b).model@.values.contains(x),
        old(b).model@.values.contains(y),
        old(b).model@.can_insert(),
    ensures
        old(b).model@.inserted(final(b).model@),
        final(b).model@.code == old(b).model@.code.push(Emitted { kind: EKind::IBin(IOp::Or), args: seq![x, y], results: seq![r] }),
        old(b).model@.refs_grow(final(b).model@),
        final(b).model@.values.contains(r),
{
    b.b.ins().bor(x, y)
}

/// `InstBuilder::iadd_imm`.
#[verifier::external_body]
fn ins_iadd_imm<'a>(b: &mut Fb<'a>, x: ClValue, imm: i64) -> (r: ClValue)
    requires
        old(b).model@.values.contains(x),
        old(b).model@.can_insert(),
    ensures
        old(b).model@.inserted(final(b).model@),
        final(b).model@.code == old(b).model@.code.push(Emitted { kind: EKind::IBinImm(ImmOp::Add, imm), args: seq![x], results: seq![r] }),
        old(b).model@.refs_grow(final(b).model@),
        final(b).model@.values.contains(r),
{
    b.b.ins().iadd_imm(x, imm)
}

/// `InstBuilder::imul_imm`.
#[verifier::external_body]
fn ins_imul_imm<'a>(b: &mut Fb<'a>, x: ClValue, imm: i64) -> (r: ClValue)
    requires
        old(b).model@.values.contains(x),
        old(b).model@.can_insert(),
    ensures
        old(b).model@.inserted(final(b).model@),
        final(b).model@.code == old(b).model@.code.push(Emitted { kind: EKind::IBinImm(ImmOp::Mul, imm), args: seq![x], results: seq![r] }),
        old(b).model@.refs_grow(final(b).model@),
        final(b).model@.values.contains(r),
{
    b.b.ins().imul_imm(x, imm)
}

/// `InstBuilder::icmp_imm` with the integer condition matching `cc`.
#[verifier::external_body]
fn ins_icmp_imm<'a>(b: &mut Fb<'a>, cc: ICond, x: ClValue, imm: i64) -> (r: ClValue)
    requires
        old(b).model@.values.contains(x),
        old(b).model@.can_insert(),
    ensures
        old(b).model@.inserted(final(b).model@),
        final(b).model@.code == old(b).model@.code.push(Emitted { kind: EKind::ICmpImm(cc, imm), args: seq![x], results: seq![r] }),
        old(b).model@.refs_grow(final(b).model@),
        final(b).model@.values.contains(r),
{
    let c = match cc {
        ICond::Eq => IntCC::Equal,
        ICond::Ne => IntCC::NotEqual,
        ICond::Slt => IntCC::SignedLessThan,
        ICond::Sle => IntCC::SignedLessThanOrEqual,
        ICond::Sgt => IntCC::SignedGreaterThan,
        ICond::Sge => IntCC::SignedGreaterThanOrEqual,
    };
    b.b.ins().icmp_imm(c, x, imm)
}

/// `InstBuilder::fadd`.
#[verifier::external_body]
fn ins_fadd<'a>(b: &mut Fb<'a>, x: ClValue, y: ClValue) -> (r: ClValue)
    requires
        old(b).model@.values.contains(x),
        old(b).model@.values.contains(y),
        old(b).model@.can_insert(),
    ensures
        old(b).model@.inserted(final(b).model@),
        final(b).model@.code == old(b).model@.code.push(Emitted { kind: EKind::FBin(FOp::Add), args: seq![x, y], results: seq![r] }),
        old(b).model@.refs_grow(final(b).model@),
        final(b).model@.values.contains(r),
{
    b.b.ins().fadd(x, y)
}

/// `InstBuilder::fsub`.
#[verifier::external_body]
fn ins_fsub<'a>(b: &mut Fb<'a>, x: ClValue, y: ClValue) -> (r: ClValue)
    requires
        old(b).model@.values.contains(x),
        old(b).model@.values.contains(y),
        old(b).model@.can_insert(),
    ensures
        old(b).model@.inserted(final(b).model@),
        final(b).model@.code == old(b).model@.code.push(Emitted { kind: EKind::FBin(FOp::Sub), args: seq![x, y], results: seq![r] }),
        old(b).model@.refs_grow(final(b).model@),
        final(b).model@.values.contains(r),
{
    b.b.ins().fsub(x, y)
}

/// `InstBuilder::fmul`.
#[verifier::external_body]
fn ins_fmul<'a>(b: &mut Fb<'a>, x: ClValue, y: ClValue) -> (r: ClValue)
    requires
        old(b).model@.values.contains(x),
        old(b).model@.values.contains(y),
        old(b).model@.can_insert(),
    ensures
        old(b).model@.inserted(final(b).model@),
        final(b).model@.code == old(b).model@.code.push(Emitted { kind: EKind::FBin(FOp::Mul), args: seq![x, y], results: seq![r] }),
        old(b).model@.refs_grow(final(b).model@),
        final(b).model@.values.contains(r),
{
    b.b.ins().fmul(x, y)
}

/// `InstBuilder::fdiv`.
#[verifier::external_body]
fn ins_fdiv<'a>(b: &mut Fb<'a>, x: ClValue, y: ClValue) -> (r: ClValue)
    requires
        old(b).model@.values.contains(x),
        old(b).model@.values.contains(y),
        old(b).model@.can_insert(),
    ensures
        old(b).model@.inserted(final(b).model@),
        final(b).model@.code == old(b).model@.code.push(Emitted { kind: EKind::FBin(FOp::Div), args: seq![x, y], results: seq![r] }),
        old(b).model@.refs_grow(final(b).model@),
        final(b).model@.values.contains(r),
{
    b.b.ins().fdiv(x, y)
}

/// `InstBuilder::fabs`.
#[verifier::external_body]
fn ins_fabs<'a>(b: &mut Fb<'a>, x: ClValue) -> (r: ClValue)
    requires
        old(b).model@.values.contains(x),
        old(b).model@.can_insert(),
    ensures
        old(b).model@.inserted(final(b).model@),
        final(b).model@.code == old(b).model@.code.push(Emitted { kind: EKind::FUnary(FUn::Abs), args: seq![x], results: seq![r] }),
        old(b).model@.refs_grow(final(b).model@),
        final(b).model@.values.contains(r),
{
    b.b.ins().fabs(x)
}

/// `InstBuilder::sqrt`.
#[verifier::external_body]
fn ins_sqrt<'a>(b: &mut Fb<'a>, x: ClValue) -> (r: ClValue)
    requires
        old(b).model@.values.contains(x),
        old(b).model@.can_insert(),
    ensures
        old(b).model@.inserted(final(b).model@),
        final(b).model@.code == old(b).model@.code.push(Emitted { kind: EKind::FUnary(FUn::Sqrt), args: seq![x], results: seq![r] }),
        old(b).model@.refs_grow(final(b).model@),
        final(b).model@.values.contains(r),
{
    b.b.ins().sqrt(x)
}

/// `InstBuilder::icmp` with the integer condition matching `cc`.
#[verifier::external_body]
fn ins_icmp<'a>(b: &mut Fb<'a>, cc: ICond, x: ClValue, y: ClValue) -> (r: ClValue)
    requires
        old(b).model@.values.contains(x),
        old(b).model@.values.contains(y),
        old(b).model@.can_insert(),
    ensures
        old(b).model@.inserted(final(b).model@),
        final(b).model@.code == old(b).model@.code.push(Emitted { kind: EKind::ICmp(cc), args: seq![x, y], results: seq![r] }),
        old(b).model@.refs_grow(final(b).model@),
        final(b).model@.values.contains(r),
{
    let c = match cc {
        ICond::Eq => IntCC::Equal,
        ICond::Ne => IntCC::NotEqual,
        ICond::Slt => IntCC::SignedLessThan,
        ICond::Sle => IntCC::SignedLessThanOrEqual,
        ICond::Sgt => IntCC::SignedGreaterThan,
        ICond::Sge => IntCC::SignedGreaterThanOrEqual,
    };
    b.b.ins().icmp(c, x, y)
}

/// `InstBuilder::fcmp` with the float condition matching `cc`.
#[verifier::external_body]
fn ins_fcmp<'a>(b: &mut Fb<'a>, cc: FCond, x: ClValue, y: ClValue) -> (r: ClValue)
    requires
        old(b).model@.values.contains(x),
        old(b).model@.values.contains(y),
        old(b).model@.can_insert(),
    ensures
        old(b).model@.inserted(final(b).model@),
        final(b).model@.code == old(b).model@.code.push(Emitted { kind: EKind::FCmp(cc), args: seq![x, y], results: seq![r] }),
        old(b).model@.refs_grow(final(b).model@),
        final(b).model@.values.contains(r),
{
    let c = match cc {
        FCond::Eq => FloatCC::Equal,
        FCond::Ne => FloatCC::NotEqual,
        FCond::Lt => FloatCC::LessThan,
        FCond::Le => FloatCC::LessThanOrEqual,
        FCond::Gt => FloatCC::GreaterThan,
        FCond::Ge => FloatCC::GreaterThanOrEqual,
    };
    b.b.ins().fcmp(c, x, y)
}

/// `InstBuilder::select`.
#[verifier::external_body]
fn ins_select<'a>(b: &mut Fb<'a>, c: ClValue, x: ClValue, y: ClValue) -> (r: ClValue)
    requires
        old(b).model@.values.contains(c),
        old(b).model@.values.contains(x),
        old(b).model@.values.contains(y),
        old(b).model@.can_insert(),
    ensures
        old(b).model@.inserted(final(b).model@),
        final(b).model@.code == old(b).model@.code.push(Emitted { kind: EKind::Select, args: seq![c, x, y], results: seq![r] }),
        old(b).model@.refs_grow(final(b).model@),
        final(b).model@.values.contains(r),
{
    b.b.ins().select(c, x, y)
}

/// `InstBuilder::uextend`.
#[verifier::external_body]
fn ins_uextend<'a>(b: &mut Fb<'a>, t: MTy, x: ClValue) -> (r: ClValue)
    requires
        old(b).model@.values.contains(x),
        old(b).model@.can_insert(),
    ensures
        old(b).model@.inserted(final(b).model@),
        final(b).model@.code == old(b).model@.code.push(Emitted { kind: EKind::Convert(Conv::UExtend, t), args: seq![x], results: seq![r] }),
        old(b).model@.refs_grow(final(b).model@),
        final(b).model@.values.contains(r),
{
    b.b.ins().uextend(cl_type(t), x)
}

/// `InstBuilder::sextend`.
#[verifier::external_body]
fn ins_sextend<'a>(b: &mut Fb<'a>, t: MTy, x: ClValue) -> (r: ClValue)
    requires
        old(b).model@.values.contains(x),
        old(b).model@.can_insert(),
    ensures
        old(b).model@.inserted(final(b).model@),
        final(b).model@.code == old(b).model@.code.push(Emitted { kind: EKind::Convert(Conv::SExtend, t), args: seq![x], results: seq![r] }),
        old(b).model@.refs_grow(final(b).model@),
        final(b).model@.values.contains(r),
{
    b.b.ins().sextend(cl_type(t), x)
}

/// `InstBuilder::ireduce`.
#[verifier::external_body]
fn ins_ireduce<'a>(b: &mut Fb<'a>, t: MTy, x: ClValue) -> (r: ClValue)
    requires
        old(b).model@.values.contains(x),
        old(b).model@.can_insert(),
    ensures
        old(b).model@.inserted(final(b).model@),
        final(b).model@.code == old(b).model@.code.push(Emitted { kind: EKind::Convert(Conv::IReduce, t), args: seq![x], results: seq![r] }),
        old(b).model@.refs_grow(final(b).model@),
        final(b).model@.values.contains(r),
{
    b.b.ins().ireduce(cl_type(t), x)
}

/// `InstBuilder::fcvt_to_sint`.
#[verifier::external_body]
fn ins_fcvt_to_sint<'a>(b: &mut Fb<'a>, t: MTy, x: ClValue) -> (r: ClValue)
    requires
        old(b).model@.values.contains(x),
        old(b).model@.can_insert(),
    ensures
        old(b).model@.inserted(final(b).model@),
        final(b).model@.code == old(b).model@.code.push(Emitted { kind: EKind::Convert(Conv::FToSInt, t), args: seq![x], results: seq![r] }),
        old(b).model@.refs_grow(final(b).model@),
        final(b).model@.values.contains(r),
{
    b.b.ins().fcvt_to_sint(cl_type(t), x)
}

/// `InstBuilder::fcvt_from_sint`.
#[verifier::external_body]
fn ins_fcvt_from_sint<'a>(b: &mut Fb<'a>, t: MTy, x: ClValue) -> (r: ClValue)
    requires
        old(b).model@.values.contains(x),
        old(b).model@.can_insert(),
    ensures
        old(b).model@.inserted(final(b).model@),
        final(b).model@.code == old(b).model@.code.push(Emitted { kind: EKind::Convert(Conv::SIntToF, t), args: seq![x], results: seq![r] }),
        old(b).model@.refs_grow(final(b).model@),
        final(b).model@.values.contains(r),
{
    b.b.ins().fcvt_from_sint(cl_type(t), x)
}

/// `InstBuilder::bitcast` with default memory flags.
#[verifier::external_body]
fn ins_bitcast<'a>(b: &mut Fb<'a>, t: MTy, x: ClValue) -> (r: ClValue)
    requires
        old(b).model@.values.contains(x),
        old(b).model@.can_insert(),
    ensures
        old(b).model@.inserted(final(b).model@),
        final(b).model@.code == old(b).model@.code.push(Emitted { kind: EKind::Convert(Conv::Bitcast, t), args: seq![x], results: seq![r] }),
        old(b).model@.refs_grow(final(b).model@),
        final(b).model@.values.contains(r),
{
    b.b.ins().bitcast(cl_type(t), MemFlags::new(), x)
}

/// `InstBuilder::load` with default memory flags.
#[verifier::external_body]
fn ins_load<'a>(b: &mut Fb<'a>, t: MTy, addr: ClValue, off: i32) -> (r: ClValue)
    requires
        old(b).model@.values.contains(addr),
        old(b).model@.can_insert(),
    ensures
        old(b).model@.inserted(final(b).model@),
        final(b).model@.code == old(b).model@.code.push(Emitted { kind: EKind::Load(t, off), args: seq![addr], results: seq![r] }),
        old(b).model@.refs_grow(final(b).model@),
        final(b).model@.values.contains(r),
{
    b.b.ins().load(cl_type(t), MemFlags::new(), addr, off)
}

/// `InstBuilder::store` with default memory flags.
#[verifier::external_body]
fn ins_store<'a>(b: &mut Fb<'a>, v: ClValue, addr: ClValue, off: i32)
    requires
        old(b).model@.values.contains(v),
        old(b).model@.values.contains(addr),
        old(b).model@.can_insert(),
    ensures
        old(b).model@.inserted(final(b).model@),
        final(b).model@.code == old(b).model@.code.push(Emitted { kind: EKind::Store(off), args: seq![v, addr], results: seq![] }),
        old(b).model@.refs_grow(final(b).model@),
{
    b.b.ins().store(MemFlags::new(), v, addr, off);
}

/// `InstBuilder::stack_addr` at pointer width, offset 0.
#[verifier::external_body]
fn ins_stack_addr<'a>(b: &mut Fb<'a>, slot: StackSlot) -> (r: ClValue)
    requires
        old(b).model@.slots.contains(slot),
        old(b).model@.can_insert(),
    ensures
        old(b).model@.inserted(final(b).model@),
        final(b).model@.code == old(b).model@.code.push(Emitted { kind: EKind::StackAddr, args: seq![], results: seq![r] }),
        old(b).model@.refs_grow(final(b).model@),
        final(b).model@.values.contains(r),
{
    b.b.ins().stack_addr(cl_types::I64, slot, 0)
}

/// `InstBuilder::call`; returns the call's results.
#[verifier::external_body]
fn ins_call<'a>(b: &mut Fb<'a>, f: ClFuncRef, args: &Vec<ClValue>) -> (r: Vec<ClValue>)
    requires
        old(b).model@.callee.dom().contains(f),
        all_in(args@, old(b).model@.values),
        old(b).model@.can_insert(),
    ensures
        old(b).model@.inserted(final(b).model@),
        final(b).model@.code == old(b).model@.code.push(Emitted { kind: EKind::Call(f), args: args@, results: r@ }),
        old(b).model@.refs_grow(final(b).model@),
        all_in(r@, final(b).model@.values),
{
    let inst = b.b.ins().call(f, args.as_slice());
    b.b.inst_results(inst).to_vec()
}

/// `InstBuilder::call_indirect`; returns the call's results.
#[verifier::external_body]
fn ins_call_indirect<'a>(b: &mut Fb<'a>, sig: SigRef, addr: ClValue, args: &Vec<ClValue>) -> (r: Vec<ClValue>)
    requires
        old(b).model@.sigs.contains(sig),
        old(b).model@.values.contains(addr),
        all_in(args@, old(b).model@.values),
        old(b).model@.can_insert(),
    ensures
        old(b).model@.inserted(final(b).model@),
        final(b).model@.code == old(b).model@.code.push(Emitted { kind: EKind::CallIndirect, args: seq![addr] + args@, results: r@ }),
        old(b).model@.refs_grow(final(b).model@),
        all_in(r@, final(b).model@.values),
{
    let inst = b.b.ins().call_indirect(sig, addr, args.as_slice());
    b.b.inst_results(inst).to_vec()
}

/// `InstBuilder::jump` with `args` as block arguments.
#[verifier::external_body]
fn ins_jump<'a>(b: &mut Fb<'a>, block: Block, args: &Vec<ClValue>)
    requires
        old(b).model@.blocks.contains(block),
        all_in(args@, old(b).model@.values),
        old(b).model@.can_insert(),
        !old(b).model@.sealed.contains(block),
    ensures
        old(b).model@.terminated(final(b).model@, set![block]),
        final(b).model@.code == old(b).model@.code.push(Emitted { kind: EKind::Jump(block), args: args@, results: seq![] }),
        old(b).model@.refs_grow(final(b).model@),
{
    let a: Vec<BlockArg> = args.iter().map(|v| BlockArg::Value(*v)).collect();
    b.b.ins().jump(block, &a);
}

/// `InstBuilder::brif` with block arguments for each side.
#[verifier::external_body]
fn ins_brif<'a>(
    b: &mut Fb<'a>,
    c: ClValue,
    then_block: Block,
    then_args: &Vec<ClValue>,
    else_block: Block,
    else_args: &Vec<ClValue>,
)
    requires
        old(b).model@.values.contains(c),
        old(b).model@.blocks.contains(then_block),
        old(b).model@.blocks.contains(else_block),
        all_in(then_args@, old(b).model@.values),
        all_in(else_args@, old(b).model@.values),
        old(b).model@.can_insert(),
        !old(b).model@.sealed.contains(then_block),
        !old(b).model@.sealed.contains(else_block),
    ensures
        old(b).model@.terminated(final(b).model@, set![then_block, else_block]),
        final(b).model@.code == old(b).model@.code.push(Emitted { kind: EKind::Brif(then_block, then_args@, else_block, else_args@), args: seq![c], results: seq![] }),
        old(b).model@.refs_grow(final(b).model@),
{
    let ta: Vec<BlockArg> = then_args.iter().map(|v| BlockArg::Value(*v)).collect();
    let ea: Vec<BlockArg> = else_args.iter().map(|v| BlockArg::Value(*v)).collect();
    b.b.ins().brif(c, then_block, &ta, else_block, &ea);
}

/// `InstBuilder::return_`.
#[verifier::external_body]
fn ins_return<'a>(b: &mut Fb<'a>, args: &Vec<ClValue>)
    requires
        all_in(args@, old(b).model@.values),
        old(b).model@.can_insert(),
    ensures
        old(b).model@.terminated(final(b).model@, Set::empty()),
        final(b).model@.code == old(b).model@.code.push(Emitted { kind: EKind::Return, args: args@, results: seq![] }),
        old(b).model@.refs_grow(final(b).model@),
{
    b.b.ins().return_(args.as_slice());
}

/// The message for an operation that refers to something the emitter does
/// not have.
pub open spec fn dangling_msg() -> Seq<char> {
    "planned operation refers to an undefined value, block or symbol"@
}

fn dangling() -> (r: String)
    ensures
        r@ == dangling_msg(),
{
    String::from_str("planned operation refers to an undefined value, block or symbol")
}

/// The value held by slot `s`.
fn slot_value(vals: &Vec<Option<ClValue>>, s: usize) -> (r: Result<ClValue, String>)
    ensures
        r is Err ==> (s >= vals@.len() || vals@[s as int] is None),
        r matches Ok(v) ==> s < vals@.len() && vals@[s as int] == Some(v),
        r matches Err(m) ==> m@ == dangling_msg(),
{
    if s < vals.len() {
        match vals[s] {
            Some(v) => Ok(v),
            None => Err(dangling()),
        }
    } else {
        Err(dangling())
    }
}

/// The values of the slots listed in the argument pool over `sp`.
fn span_values(vals: &Vec<Option<ClValue>>, pool: &Vec<usize>, sp: Span) -> (r: Result<Vec<ClValue>, String>)
    ensures
        r matches Ok(v) ==> v@.len() == sp.len,
        r matches Ok(v) ==> span_ok(vals@, pool@, sp) && v@ == span_vals(vals@, pool@, sp),
        r matches Err(m) ==> m@ == dangling_msg(),
{
    let mut out: Vec<ClValue> = Vec::new();
    if sp.start > pool.len() || sp.len > pool.len() - sp.start {
        return Err(dangling());
    }
    let n = sp.len;
    let start = sp.start;
    let pl = pool.len();
    let mut k: usize = 0;
    while k < n
        invariant
            n == sp.len,
            start == sp.start,
            start + n <= pool@.len(),
            pl == pool@.len(),
            k <= n,
            out@.len() == k,
            span_ok(vals@, pool@, Span { start, len: k }),
            out@ == span_vals(vals@, pool@, Span { start, len: k }),
        decreases n - k,
    {
        let s = pool[start + k];
        let v = slot_value(vals, s)?;
        let ghost out0 = out@;
        out.push(v);
        proof {
            let sp0 = Span { start, len: k };
            let sp1 = Span { start, len: (k + 1) as usize };
            assert forall|j: int| 0 <= j < sp1.len implies pool@[sp1.start + j] < vals@.len()
                && vals@[#[trigger] pool@[sp1.start + j] as int] is Some by {
                if j < k {
                    assert(pool@[sp0.start + j] < vals@.len());
                } else {
                    assert(pool@[start + j] == s);
                }
            }
            assert(out@ =~= span_vals(vals@, pool@, sp1));
        }
        k = k + 1;
    }
    assert(Span { start, len: k } == sp);
    Ok(out)
}

/// Records `v` as the value of slot `dst`.
fn set_slot(vals: &mut Vec<Option<ClValue>>, dst: usize, v: ClValue) -> (r: Result<(), String>)
    ensures
        final(vals)@.len() == old(vals)@.len(),
        r is Ok <==> dst < old(vals)@.len(),
        r is Ok ==> final(vals)@ == old(vals)@.update(dst as int, Some(v)),
        r is Err ==> final(vals)@ == old(vals)@,
        r matches Err(m) ==> m@ == dangling_msg(),
{
    if dst < vals.len() {
        vals.set(dst, Some(v));
        Ok(())
    } else {
        Err(dangling())
    }
}

/// The block numbered `k`.
fn block_at(blocks: &Vec<Block>, k: usize) -> (r: Result<Block, String>)
    ensures
        r is Ok <==> k < blocks@.len(),
        r matches Ok(b) ==> b == blocks@[k as int],
        r matches Err(m) ==> m@ == dangling_msg(),
{
    if k < blocks.len() {
        Ok(blocks[k])
    } else {
        Err(dangling())
    }
}

/// Builds a Cranelift signature from machine types.
pub(crate) fn signature_of(module: &ObjModule, params: &Vec<MTy>, rets: &Vec<MTy>) -> Signature {
    let mut sig = make_signature(module);
    for i in 0..params.len() {
        sig_add_param(&mut sig, params[i]);
    }
    for i in 0..rets.len() {
        sig_add_return(&mut sig, rets[i]);
    }
    sig
}

/// The shared state of emitting one function: slot values, created blocks,
/// and whether a block has been switched to yet.
struct EmitState {
    vals: Vec<Option<ClValue>>,
    blocks: Vec<Block>,
    started: Vec<bool>,
    filled: Vec<bool>,
    sealed: Vec<bool>,
    preds: Vec<bool>,
    cur: Option<usize>,
}

/// The emitter's record of the builder's state agrees with the model:
/// `blocks` lists the created blocks once each, and the flags and current
/// block of each are those of the model.
spec fn mirrors(st: EmitState, m: BModel) -> bool {
    let n = st.blocks@.len();
    &&& st.started@.len() == n
    &&& st.filled@.len() == n
    &&& st.sealed@.len() == n
    &&& st.preds@.len() == n
    &&& forall|i: int, j: int| 0 <= i < n && 0 <= j < n && i != j ==> st.blocks@[i] != st.blocks@[j]
    &&& forall|bl: Block| #[trigger] m.blocks.contains(bl) ==> exists|k: int| 0 <= k < n && st.blocks@[k] == bl
    &&& forall|k: int| 0 <= k < n ==> {
        &&& m.blocks.contains(#[trigger] st.blocks@[k])
        &&& m.started.contains(st.blocks@[k]) == st.started@[k]
        &&& m.filled.contains(st.blocks@[k]) == st.filled@[k]
        &&& m.sealed.contains(st.blocks@[k]) == st.sealed@[k]
        &&& m.preds.contains(st.blocks@[k]) == st.preds@[k]
    }
    &&& forall|bl: Block| #[trigger] m.started.contains(bl) ==> m.blocks.contains(bl)
    &&& forall|bl: Block| #[trigger] m.filled.contains(bl) ==> m.blocks.contains(bl)
    &&& forall|bl: Block| #[trigger] m.sealed.contains(bl) ==> m.blocks.contains(bl)
    &&& forall|bl: Block| #[trigger] m.preds.contains(bl) ==> m.blocks.contains(bl)
    &&& slots_in(st.vals@, m.values)
    &&& match st.cur {
        Some(c) => c < n && m.pos == Some(st.blocks@[c as int]),
        None => m.pos is None,
    }
}

/// The value held by slot `s` of `vals`.
pub open spec fn slot_val(vals: Seq<Option<ClValue>>, s: usize) -> ClValue {
    vals[s as int]->0
}

/// The argument pool `pool` covers `sp`, and every slot it lists there
/// holds a value.
pub open spec fn span_ok(vals: Seq<Option<ClValue>>, pool: Seq<usize>, sp: Span) -> bool {
    &&& sp.start + sp.len <= pool.len()
    &&& forall|k: int| 0 <= k < sp.len ==> pool[sp.start + k] < vals.len() && vals[#[trigger] pool[sp.start + k] as int] is Some
}

/// The values of the slots that `pool` lists over `sp`.
pub open spec fn span_vals(vals: Seq<Option<ClValue>>, pool: Seq<usize>, sp: Span) -> Seq<ClValue> {
    Seq::new(sp.len as nat, |k: int| vals[pool[sp.start + k] as int]->0)
}

/// Whether emitting `op` hands an instruction to Cranelift: every
/// operation but the block operations other than jump, branch and return.
pub open spec fn emits_code(op: Op) -> bool {
    !is_block_op(op) || op is Jump || op is Brif || op is Return
}

/// `e` is the instruction that emitting `op` hands to Cranelift, where
/// `v0` and `v1` are the slot values before and after, `pool` the argument
/// pool and `blocks` the blocks created: its kind and immediates are the
/// operation's, it uses the values of the operation's operand slots in
/// order, and the value it defines is recorded in the operation's
/// destination slot.
pub open spec fn emits(op: Op, v0: Seq<Option<ClValue>>, v1: Seq<Option<ClValue>>, pool: Seq<usize>, env: EmitEnv, e: Emitted) -> bool {
    let blocks = env.blocks;
    match op {
        Op::IConst { dst, ty, imm } => e == (Emitted { kind: EKind::IConst(ty, imm), args: seq![], results: seq![slot_val(v1, dst)] }),
        Op::F64Const { dst, bits } => e == (Emitted { kind: EKind::F64Const(bits), args: seq![], results: seq![slot_val(v1, dst)] }),
        Op::DataAddr { dst, .. } => e == (Emitted { kind: EKind::GlobalValue, args: seq![], results: seq![slot_val(v1, dst)] }),
        Op::FuncAddr { dst, func } => {
            &&& e.args == Seq::<ClValue>::empty()
            &&& e.results == seq![slot_val(v1, dst)]
            &&& e.kind matches EKind::FuncAddr(f) && calls(env, f, func)
        },
        Op::IBin { dst, op, a, b } => e == (Emitted {
            kind: EKind::IBin(op),
            args: seq![slot_val(v0, a), slot_val(v0, b)],
            results: seq![slot_val(v1, dst)],
        }),
        Op::IBinImm { dst, op, a, imm } => e == (Emitted {
            kind: EKind::IBinImm(op, imm),
            args: seq![slot_val(v0, a)],
            results: seq![slot_val(v1, dst)],
        }),
        Op::ICmpImm { dst, cc, a, imm } => e == (Emitted {
            kind: EKind::ICmpImm(cc, imm),
            args: seq![slot_val(v0, a)],
            results: seq![slot_val(v1, dst)],
        }),
        Op::FBin { dst, op, a, b } => e == (Emitted {
            kind: EKind::FBin(op),
            args: seq![slot_val(v0, a), slot_val(v0, b)],
            results: seq![slot_val(v1, dst)],
        }),
        Op::FUnary { dst, op, a } => e == (Emitted {
            kind: EKind::FUnary(op),
            args: seq![slot_val(v0, a)],
            results: seq![slot_val(v1, dst)],
        }),
        Op::ICmp { dst, cc, a, b } => e == (Emitted {
            kind: EKind::ICmp(cc),
            args: seq![slot_val(v0, a), slot_val(v0, b)],
            results: seq![slot_val(v1, dst)],
        }),
        Op::FCmp { dst, cc, a, b } => e == (Emitted {
            kind: EKind::FCmp(cc),
            args: seq![slot_val(v0, a), slot_val(v0, b)],
            results: seq![slot_val(v1, dst)],
        }),
        Op::Select { dst, c, a, b } => e == (Emitted {
            kind: EKind::Select,
            args: seq![slot_val(v0, c), slot_val(v0, a), slot_val(v0, b)],
            results: seq![slot_val(v1, dst)],
        }),
        Op::Convert { dst, conv, ty, a } => e == (Emitted {
            kind: EKind::Convert(conv, ty),
            args: seq![slot_val(v0, a)],
            results: seq![slot_val(v1, dst)],
        }),
        Op::Load { dst, ty, addr, off } => e == (Emitted {
            kind: EKind::Load(ty, off),
            args: seq![slot_val(v0, addr)],
            results: seq![slot_val(v1, dst)],
        }),
        Op::Store { val, addr, off } => e == (Emitted {
            kind: EKind::Store(off),
            args: seq![slot_val(v0, val), slot_val(v0, addr)],
            results: seq![],
        }),
        Op::StackAddr { dst, .. } => e == (Emitted { kind: EKind::StackAddr, args: seq![], results: seq![slot_val(v1, dst)] }),
        Op::Call { func, args, dst, has_result } => {
            &&& e.kind matches EKind::Call(f) && calls(env, f, func)
            &&& e.args == span_vals(v0, pool, args)
            &&& has_result ==> e.results.len() > 0 && e.results[0] == slot_val(v1, dst)
        },
        Op::CallIndirect { addr, args, dst, has_result, .. } => {
            &&& e.kind == EKind::CallIndirect
            &&& e.args == seq![slot_val(v0, addr)] + span_vals(v0, pool, args)
            &&& has_result ==> e.results.len() > 0 && e.results[0] == slot_val(v1, dst)
        },
        Op::Jump { block, args } => {
            &&& block < blocks.len()
            &&& e == (Emitted { kind: EKind::Jump(blocks[block as int]), args: span_vals(v0, pool, args), results: seq![] })
        },
        Op::Brif { cond, then_block, then_args, else_block, else_args } => {
            &&& then_block < blocks.len()
            &&& else_block < blocks.len()
            &&& e == (Emitted {
                kind: EKind::Brif(blocks[then_block as int], span_vals(v0, pool, then_args), blocks[else_block as int], span_vals(v0, pool, else_args)),
                args: seq![slot_val(v0, cond)],
                results: seq![],
            })
        },
        Op::Return { args } => e == (Emitted { kind: EKind::Return, args: span_vals(v0, pool, args), results: seq![] }),
        _ => false,
    }
}

/// Function reference `f` stands for the plan's function number `func`.
pub open spec fn calls(env: EmitEnv, f: ClFuncRef, func: usize) -> bool {
    &&& env.callee.dom().contains(f)
    &&& func < env.fids.len()
    &&& env.callee[f] == env.fids[func as int]
}

/// How emitting `op` extends the code handed to Cranelift from `c0` to
/// `c1`: by the one instruction it emits (see [`emits`]), or not at all.
pub open spec fn code_step(op: Op, v0: Seq<Option<ClValue>>, v1: Seq<Option<ClValue>>, pool: Seq<usize>, env: EmitEnv, c0: Seq<Emitted>, c1: Seq<Emitted>) -> bool {
    if emits_code(op) {
        &&& c1.len() > 0
        &&& c1 == c0.push(c1.last())
        &&& emits(op, v0, v1, pool, env, c1.last())
    } else {
        c1 == c0
    }
}

/// Every id in `func_ids` and `data_ids` is declared in the module whose
/// model is `st`.
pub open spec fn ids_declared(st: MState, func_ids: Seq<FuncId>, data_ids: Seq<DataId>) -> bool {
    &&& forall|i: int| 0 <= i < func_ids.len() ==> st.fdecl.contains(#[trigger] func_ids[i])
    &&& forall|i: int| 0 <= i < data_ids.len() ==> st.ddecl.contains(#[trigger] data_ids[i])
}

/// Every value held by a slot of `vals` is in `s`.
pub open spec fn slots_in(vals: Seq<Option<ClValue>>, s: Set<ClValue>) -> bool {
    forall|k: int| 0 <= k < vals.len() && #[trigger] vals[k] is Some ==> s.contains(vals[k]->0)
}

/// What emitting `op` promises, from emitter state `s0` to `s1` with the
/// builder's model ending at `m1`: the slot table keeps its length, only the
/// slot `op` defines changes, an instruction with no current block fails,
/// and on success the slot is defined and the record still mirrors the
/// builder.
spec fn step_post(op: Op, s0: EmitState, s1: EmitState, m0: BModel, m1: BModel, pool: Seq<usize>, fids: Seq<FuncId>, r: Result<(), String>) -> bool {
    &&& m0.refs_grow(m1)
    &&& s1.vals@.len() == s0.vals@.len()
    &&& s1.blocks@.len() >= s0.blocks@.len()
    &&& (forall|k: int| 0 <= k < s0.blocks@.len() ==> #[trigger] s1.blocks@[k] == s0.blocks@[k])
    &&& (r is Ok ==> code_step(op, s0.vals@, s1.vals@, pool, EmitEnv { blocks: s1.blocks@, callee: m1.callee, fids }, m0.code, m1.code))
    &&& (r matches Err(e) ==> e@ == dangling_msg())
    &&& (needs_position(op) && s0.cur is None ==> r is Err)
    &&& (r is Ok ==> (op_defines(op) matches Some(d) ==> slot_defined(s1.vals@, d)))
    &&& (forall|k: int| 0 <= k < s0.vals@.len() && !defines_slot(op, k) ==> #[trigger] s1.vals@[k] == s0.vals@[k])
    &&& (r is Ok ==> mirrors(s1, m1))
}

/// Whether an operation creates, prepares, enters, seals or ends a block.
pub open spec fn is_block_op(op: Op) -> bool {
    match op {
        Op::CreateBlock { .. } | Op::AppendParam { .. } | Op::AppendFunctionParams { .. } | Op::BlockParam { .. }
        | Op::SwitchTo { .. } | Op::Seal { .. } | Op::SealAll | Op::Jump { .. } | Op::Brif { .. }
        | Op::Return { .. } => true,
        _ => false,
    }
}

/// Whether an operation works on blocks (see [`is_block_op`]).
fn op_is_block(op: Op) -> (r: bool)
    ensures
        r == is_block_op(op),
{
    match op {
        Op::CreateBlock { .. } | Op::AppendParam { .. } | Op::AppendFunctionParams { .. } | Op::BlockParam { .. }
        | Op::SwitchTo { .. } | Op::Seal { .. } | Op::SealAll | Op::Jump { .. } | Op::Brif { .. }
        | Op::Return { .. } => true,
        _ => false,
    }
}

/// What a non-block operation emits does not depend on the blocks.
proof fn lemma_emits_value_blocks(op: Op, v0: Seq<Option<ClValue>>, v1: Seq<Option<ClValue>>, pool: Seq<usize>, e1: EmitEnv, e2: EmitEnv, e: Emitted)
    requires
        !is_block_op(op),
        emits(op, v0, v1, pool, e1, e),
        e1.callee == e2.callee,
        e1.fids == e2.fids,
    ensures
        emits(op, v0, v1, pool, e2, e),
{
}

/// Emits one planned operation. `func_ids` and `data_ids` give the
/// Cranelift identity of each declared function and string constant. An
/// operation the builder would reject in its current state (an instruction
/// with no open current block, a jump to a sealed block, a second seal,
/// parameters added to a block already in use) is reported as an error.
fn emit_op<'a>(
    b: &mut Fb<'a>,
    module: &mut ObjModule,
    st: &mut EmitState,
    plan: &ClPlanner,
    func_ids: &Vec<FuncId>,
    data_ids: &Vec<DataId>,
    op: Op,
) -> (r: Result<(), String>)
    requires
        ids_declared(old(module).state(), func_ids@, data_ids@),
        mirrors(*old(st), old(b).model@),
    ensures
        final(module).state() == old(module).state(),
        step_post(op, *old(st), *final(st), old(b).model@, final(b).model@, plan.args@, func_ids@, r),
{
    if op_is_block(op) {
        return emit_block_op(b, st, plan, func_ids, op);
    }
    let c = match st.cur {
        None => {
            return Err(dangling());
        },
        Some(c) => c,
    };
    if st.filled[c] {
        return Err(dangling());
    }
    let ghost s0 = *st;
    let ghost m0 = b.model@;
    let r = emit_value_op(b, module, &mut st.vals, plan, func_ids, data_ids, op);
    if r.is_ok() {
        st.started.set(c, true);
        proof {
            let m1 = b.model@;
            lemma_emits_value_blocks(op, s0.vals@, st.vals@, plan.args@,
                EmitEnv { blocks: Seq::empty(), callee: m1.callee, fids: func_ids@ },
                EmitEnv { blocks: st.blocks@, callee: m1.callee, fids: func_ids@ }, m1.code.last());
            assert forall|k: int| 0 <= k < st.blocks@.len() implies
                m1.started.contains(#[trigger] st.blocks@[k]) == st.started@[k] by {
                if k != c {
                    assert(st.blocks@[k] != st.blocks@[c as int]);
                }
            }
        }
    }
    r
}

/// What emitting a non-block operation promises, from slot table `v0`
/// and model `m0` to `v1` and `m1`: the table keeps its length, only the
/// slot `op` defines changes, and on success that slot is defined and one
/// instruction was added to the current block.
spec fn value_post(op: Op, v0: Seq<Option<ClValue>>, v1: Seq<Option<ClValue>>, pool: Seq<usize>, fids: Seq<FuncId>, m0: BModel, m1: BModel, r: Result<(), String>) -> bool {
    &&& (r is Ok ==> code_step(op, v0, v1, pool, EmitEnv { blocks: Seq::empty(), callee: m1.callee, fids }, m0.code, m1.code))
    &&& v1.len() == v0.len()
    &&& (r matches Err(e) ==> e@ == dangling_msg())
    &&& (r is Ok ==> (op_defines(op) matches Some(d) ==> slot_defined(v1, d)))
    &&& (forall|k: int| 0 <= k < v0.len() && !defines_slot(op, k) ==> #[trigger] v1[k] == v0[k])
    &&& (r is Ok ==> m0.inserted(m1))
    &&& (r is Ok ==> slots_in(v1, m1.values))
    &&& m0.refs_grow(m1)
}

/// Whether an operation computes a value from other slots.
pub open spec fn is_compute_op(op: Op) -> bool {
    match op {
        Op::IBin { .. } | Op::IBinImm { .. } | Op::ICmpImm { .. } | Op::FBin { .. } | Op::FUnary { .. }
        | Op::ICmp { .. } | Op::FCmp { .. } | Op::Select { .. } | Op::Convert { .. } => true,
        _ => false,
    }
}

/// Whether an operation computes a value from other slots (see
/// [`is_compute_op`]).
fn op_is_compute(op: Op) -> (r: bool)
    ensures
        r == is_compute_op(op),
{
    match op {
        Op::IBin { .. } | Op::IBinImm { .. } | Op::ICmpImm { .. } | Op::FBin { .. } | Op::FUnary { .. }
        | Op::ICmp { .. } | Op::FCmp { .. } | Op::Select { .. } | Op::Convert { .. } => true,
        _ => false,
    }
}

/// Emits one instruction that is not a block operation, at the open
/// current block, and records the value it defines.
fn emit_value_op<'a>(
    b: &mut Fb<'a>,
    module: &mut ObjModule,
    vals: &mut Vec<Option<ClValue>>,
    plan: &ClPlanner,
    func_ids: &Vec<FuncId>,
    data_ids: &Vec<DataId>,
    op: Op,
) -> (r: Result<(), String>)
    requires
        ids_declared(old(module).state(), func_ids@, data_ids@),
        old(b).model@.can_insert(),
        slots_in(old(vals)@, old(b).model@.values),
        !is_block_op(op),
    ensures
        final(module).state() == old(module).state(),
        value_post(op, old(vals)@, final(vals)@, plan.args@, func_ids@, old(b).model@, final(b).model@, r),
{
    if op_is_compute(op) {
        emit_compute_op(b, vals, plan, func_ids, op)
    } else {
        emit_access_op(b, module, vals, plan, func_ids, data_ids, op)
    }
}

/// Emits an arithmetic, comparison, selection or conversion instruction
/// on slot values.
fn emit_compute_op<'a>(b: &mut Fb<'a>, vals: &mut Vec<Option<ClValue>>, plan: &ClPlanner, func_ids: &Vec<FuncId>, op: Op) -> (r: Result<(), String>)
    requires
        old(b).model@.can_insert(),
        slots_in(old(vals)@, old(b).model@.values),
        is_compute_op(op),
    ensures
        value_post(op, old(vals)@, final(vals)@, plan.args@, func_ids@, old(b).model@, final(b).model@, r),
{
    match op {
        Op::IBin { dst, op, a, b: c } => {
            let x = slot_value(vals, a)?;
            let y = slot_value(vals, c)?;
            let v = match op {
                IOp::Add => ins_iadd(b, x, y),
                IOp::Sub => ins_isub(b, x, y),
                IOp::Mul => ins_imul(b, x, y),
                IOp::SDiv => ins_sdiv(b, x, y),
                IOp::Or => ins_bor(b, x, y),
            };
            set_slot(vals, dst, v)
        },
        Op::IBinImm { dst, op, a, imm } => {
            let x = slot_value(vals, a)?;
            let v = match op {
                ImmOp::Add => ins_iadd_imm(b, x, imm),
                ImmOp::Mul => ins_imul_imm(b, x, imm),
            };
            set_slot(vals, dst, v)
        },
        Op::ICmpImm { dst, cc, a, imm } => {
            let x = slot_value(vals, a)?;
            let v = ins_icmp_imm(b, cc, x, imm);
            set_slot(vals, dst, v)
        },
        Op::FBin { dst, op, a, b: c } => {
            let x = slot_value(vals, a)?;
            let y = slot_value(vals, c)?;
            let v = match op {
                FOp::Add => ins_fadd(b, x, y),
                FOp::Sub => ins_fsub(b, x, y),
                FOp::Mul => ins_fmul(b, x, y),
                FOp::Div => ins_fdiv(b, x, y),
            };
            set_slot(vals, dst, v)
        },
        Op::FUnary { dst, op, a } => {
            let x = slot_value(vals, a)?;
            let v = match op {
                FUn::Abs => ins_fabs(b, x),
                FUn::Sqrt => ins_sqrt(b, x),
            };
            set_slot(vals, dst, v)
        },
        Op::ICmp { dst, cc, a, b: c } => {
            let x = slot_value(vals, a)?;
            let y = slot_value(vals, c)?;
            let v = ins_icmp(b, cc, x, y);
            set_slot(vals, dst, v)
        },
        Op::FCmp { dst, cc, a, b: c } => {
            let x = slot_value(vals, a)?;
            let y = slot_value(vals, c)?;
            let v = ins_fcmp(b, cc, x, y);
            set_slot(vals, dst, v)
        },
        Op::Select { dst, c, a, b: d } => {
            let k = slot_value(vals, c)?;
            let x = slot_value(vals, a)?;
            let y = slot_value(vals, d)?;
            let v = ins_select(b, k, x, y);
            set_slot(vals, dst, v)
        },
        Op::Convert { dst, conv, ty, a } => {
            let x = slot_value(vals, a)?;
            let v = match conv {
                Conv::UExtend => ins_uextend(b, ty, x),
                Conv::SExtend => ins_sextend(b, ty, x),
                Conv::IReduce => ins_ireduce(b, ty, x),
                Conv::FToSInt => ins_fcvt_to_sint(b, ty, x),
                Conv::SIntToF => ins_fcvt_from_sint(b, ty, x),
                Conv::Bitcast => ins_bitcast(b, ty, x),
            };
            set_slot(vals, dst, v)
        },
        _ => Err(dangling()),
    }
}

/// Emits a constant, an address, a load or store, or a call.
fn emit_access_op<'a>(
    b: &mut Fb<'a>,
    module: &mut ObjModule,
    vals: &mut Vec<Option<ClValue>>,
    plan: &ClPlanner,
    func_ids: &Vec<FuncId>,
    data_ids: &Vec<DataId>,
    op: Op,
) -> (r: Result<(), String>)
    requires
        ids_declared(old(module).state(), func_ids@, data_ids@),
        old(b).model@.can_insert(),
        slots_in(old(vals)@, old(b).model@.values),
        !is_block_op(op),
        !is_compute_op(op),
    ensures
        final(module).state() == old(module).state(),
        value_post(op, old(vals)@, final(vals)@, plan.args@, func_ids@, old(b).model@, final(b).model@, r),
{
    match op {
        Op::IConst { dst, ty, imm } => {
            let v = ins_iconst(b, ty, imm);
            set_slot(vals, dst, v)
        },
        Op::F64Const { dst, bits } => {
            let v = ins_f64const(b, bits);
            set_slot(vals, dst, v)
        },
        Op::DataAddr { dst, data } => {
            if data >= data_ids.len() {
                return Err(dangling());
            }
            let gv = data_ref_in(module, data_ids[data], b);
            let v = ins_global_value(b, gv);
            set_slot(vals, dst, v)
        },
        Op::FuncAddr { dst, func } => {
            if func >= func_ids.len() {
                return Err(dangling());
            }
            let f = func_ref_in(module, func_ids[func], b);
            let ghost c1 = b.model@.callee;
            let v = ins_func_addr(b, f);
            assert(c1.dom().contains(f));
            assert(b.model@.callee.dom().contains(f) && b.model@.callee[f] == c1[f]);
            set_slot(vals, dst, v)
        },
        Op::Load { dst, ty, addr, off } => {
            let x = slot_value(vals, addr)?;
            let v = ins_load(b, ty, x, off);
            set_slot(vals, dst, v)
        },
        Op::Store { val, addr, off } => {
            let v = slot_value(vals, val)?;
            let x = slot_value(vals, addr)?;
            ins_store(b, v, x, off);
            Ok(())
        },
        Op::StackAddr { dst, size, align_shift } => {
            let slot = create_stack_slot(b, size, align_shift);
            let v = ins_stack_addr(b, slot);
            set_slot(vals, dst, v)
        },
        Op::Call { func, args, dst, has_result } => {
            if func >= func_ids.len() {
                return Err(dangling());
            }
            let av = span_values(vals, &plan.args, args)?;
            let f = func_ref_in(module, func_ids[func], b);
            let ghost c1 = b.model@.callee;
            let res = ins_call(b, f, &av);
            assert(c1.dom().contains(f));
            assert(b.model@.callee.dom().contains(f) && b.model@.callee[f] == c1[f]);
            if has_result {
                if res.len() == 0 {
                    return Err(dangling());
                }
                set_slot(vals, dst, res[0])
            } else {
                Ok(())
            }
        },
        Op::CallIndirect { sig, addr, args, dst, has_result } => {
            if sig >= plan.sigs.len() {
                return Err(dangling());
            }
            let x = slot_value(vals, addr)?;
            let av = span_values(vals, &plan.args, args)?;
            let s = signature_of(module, &plan.sigs[sig].params, &plan.sigs[sig].rets);
            let sr = import_signature(b, s);
            let res = ins_call_indirect(b, sr, x, &av);
            if has_result {
                if res.len() == 0 {
                    return Err(dangling());
                }
                set_slot(vals, dst, res[0])
            } else {
                Ok(())
            }
        },
        _ => Err(dangling()),
    }
}

/// Emits one block operation: creates, prepares, enters or seals a block,
/// or ends the current one with a jump, branch or return, and updates the
/// emitter's record of the builder to match.
fn emit_block_op<'a>(b: &mut Fb<'a>, st: &mut EmitState, plan: &ClPlanner, func_ids: &Vec<FuncId>, op: Op) -> (r: Result<(), String>)
    requires
        mirrors(*old(st), old(b).model@),
        is_block_op(op),
    ensures
        step_post(op, *old(st), *final(st), old(b).model@, final(b).model@, plan.args@, func_ids@, r),
{
    match op {
        Op::CreateBlock { block } => block_create(b, st, func_ids, block),
        Op::AppendParam { block, ty } => {
            let bl = block_at(&st.blocks, block)?;
            if st.started[block] {
                return Err(dangling());
            }
            append_block_param(b, bl, ty);
            Ok(())
        },
        Op::AppendFunctionParams { block } => {
            let bl = block_at(&st.blocks, block)?;
            if st.started[block] || st.preds[block] {
                return Err(dangling());
            }
            append_function_params(b, bl);
            Ok(())
        },
        Op::BlockParam { dst, block, index } => {
            let bl = block_at(&st.blocks, block)?;
            match block_param(b, bl, index) {
                Some(v) => set_slot(&mut st.vals, dst, v),
                None => Err(dangling()),
            }
        },
        Op::SwitchTo { block } => {
            let bl = block_at(&st.blocks, block)?;
            if st.filled[block] {
                return Err(dangling());
            }
            match st.cur {
                Some(p) => {
                    if st.started[p] && !st.filled[p] {
                        return Err(dangling());
                    }
                },
                None => {},
            }
            switch_to_block(b, bl);
            st.cur = Some(block);
            Ok(())
        },
        Op::Seal { block } => block_seal(b, st, func_ids, block),
        Op::SealAll => block_seal_all(b, st, func_ids),
        Op::Jump { block, args } => block_jump(b, st, plan, func_ids, block, args),
        Op::Brif { cond, then_block, then_args, else_block, else_args } =>
            block_brif(b, st, plan, func_ids, cond, then_block, then_args, else_block, else_args),
        Op::Return { args } => block_return(b, st, plan, func_ids, args),
        _ => Err(dangling()),
    }
}

/// Creates block number `block`, which must be the next number.
fn block_create<'a>(b: &mut Fb<'a>, st: &mut EmitState, func_ids: &Vec<FuncId>, block: usize) -> (r: Result<(), String>)
    requires
        mirrors(*old(st), old(b).model@),
    ensures
        step_post(Op::CreateBlock { block }, *old(st), *final(st), old(b).model@, final(b).model@, Seq::empty(), func_ids@, r),
{
    if block != st.blocks.len() {
        return Err(dangling());
    }
    let ghost s0 = *st;
    let ghost m0 = b.model@;
    let bl = create_block(b);
    st.blocks.push(bl);
    st.started.push(false);
    st.filled.push(false);
    st.sealed.push(false);
    st.preds.push(false);
    proof {
        let n = s0.blocks@.len();
        let m1 = b.model@;
        assert(st.blocks@[n as int] == bl);
        assert forall|i: int, j: int| 0 <= i < n + 1 && 0 <= j < n + 1 && i != j implies st.blocks@[i] != st.blocks@[j] by {
            if i < n && j < n {
                assert(s0.blocks@[i] != s0.blocks@[j]);
            } else if i < n {
                assert(m0.blocks.contains(s0.blocks@[i]));
            } else {
                assert(m0.blocks.contains(s0.blocks@[j]));
            }
        }
        assert forall|x: Block| #[trigger] m1.blocks.contains(x) implies exists|k: int| 0 <= k < n + 1 && st.blocks@[k] == x by {
            if x != bl {
                assert(m0.blocks.contains(x));
                let k = choose|k: int| 0 <= k < n && s0.blocks@[k] == x;
                assert(st.blocks@[k] == x);
            } else {
                assert(st.blocks@[n as int] == x);
            }
        }
        assert forall|k: int| 0 <= k < n + 1 implies {
            &&& m1.blocks.contains(#[trigger] st.blocks@[k])
            &&& m1.started.contains(st.blocks@[k]) == st.started@[k]
            &&& m1.filled.contains(st.blocks@[k]) == st.filled@[k]
            &&& m1.sealed.contains(st.blocks@[k]) == st.sealed@[k]
            &&& m1.preds.contains(st.blocks@[k]) == st.preds@[k]
        } by {
            if k < n {
                assert(st.blocks@[k] == s0.blocks@[k]);
                assert(m0.blocks.contains(s0.blocks@[k]));
            } else {
                assert(!m0.blocks.contains(bl));
                assert(!m0.started.contains(bl));
                assert(!m0.filled.contains(bl));
                assert(!m0.sealed.contains(bl));
                assert(!m0.preds.contains(bl));
            }
        }
    }
    Ok(())
}

/// Seals block number `block`, which must not be sealed yet.
fn block_seal<'a>(b: &mut Fb<'a>, st: &mut EmitState, func_ids: &Vec<FuncId>, block: usize) -> (r: Result<(), String>)
    requires
        mirrors(*old(st), old(b).model@),
    ensures
        step_post(Op::Seal { block }, *old(st), *final(st), old(b).model@, final(b).model@, Seq::empty(), func_ids@, r),
{
    let bl = block_at(&st.blocks, block)?;
    if st.sealed[block] {
        return Err(dangling());
    }
    seal_block(b, bl);
    st.sealed.set(block, true);
    proof {
        let m1 = b.model@;
        assert forall|k: int| 0 <= k < st.blocks@.len() implies
            m1.sealed.contains(#[trigger] st.blocks@[k]) == st.sealed@[k] by {
            if k != block {
                assert(st.blocks@[k] != st.blocks@[block as int]);
            }
        }
    }
    Ok(())
}

/// Seals every block.
fn block_seal_all<'a>(b: &mut Fb<'a>, st: &mut EmitState, func_ids: &Vec<FuncId>) -> (r: Result<(), String>)
    requires
        mirrors(*old(st), old(b).model@),
    ensures
        step_post(Op::SealAll, *old(st), *final(st), old(b).model@, final(b).model@, Seq::empty(), func_ids@, r),
{
    let ghost s0 = *st;
    seal_all_blocks(b);
    let ghost m1 = b.model@;
    let n = st.sealed.len();
    for k in 0..n
        invariant
            n == st.sealed@.len(),
            forall|q: int| 0 <= q < k ==> st.sealed@[q],
            forall|q: int| k <= q < n ==> st.sealed@[q] == s0.sealed@[q],
            st.vals@ == s0.vals@,
            st.blocks@ == s0.blocks@,
            st.started@ == s0.started@,
            st.filled@ == s0.filled@,
            st.preds@ == s0.preds@,
            st.cur == s0.cur,
    {
        st.sealed.set(k, true);
    }
    assert(mirrors(*st, m1));
    Ok(())
}

/// Ends the current block with a jump to block number `block`, passing the
/// slots listed over `args`.
fn block_jump<'a>(b: &mut Fb<'a>, st: &mut EmitState, plan: &ClPlanner, func_ids: &Vec<FuncId>, block: usize, args: Span) -> (r: Result<(), String>)
    requires
        mirrors(*old(st), old(b).model@),
    ensures
        step_post(Op::Jump { block, args }, *old(st), *final(st), old(b).model@, final(b).model@, plan.args@, func_ids@, r),
{
    let c = match st.cur {
        None => {
            return Err(dangling());
        },
        Some(c) => c,
    };
    if st.filled[c] {
        return Err(dangling());
    }
    let bl = block_at(&st.blocks, block)?;
    if st.sealed[block] {
        return Err(dangling());
    }
    let av = span_values(&st.vals, &plan.args, args)?;
    ins_jump(b, bl, &av);
    st.started.set(c, true);
    st.filled.set(c, true);
    st.preds.set(block, true);
    proof {
        let m1 = b.model@;
        assert forall|k: int| 0 <= k < st.blocks@.len() implies {
            &&& m1.started.contains(#[trigger] st.blocks@[k]) == st.started@[k]
            &&& m1.filled.contains(st.blocks@[k]) == st.filled@[k]
            &&& m1.preds.contains(st.blocks@[k]) == st.preds@[k]
        } by {
            if k != c {
                assert(st.blocks@[k] != st.blocks@[c as int]);
            }
            if k != block {
                assert(st.blocks@[k] != st.blocks@[block as int]);
            }
        }
    }
    Ok(())
}

/// Ends the current block with a branch on slot `cond`: to block
/// `then_block` with the slots over `then_args` when it is non-zero, else
/// to `else_block` with those over `else_args`.
fn block_brif<'a>(
    b: &mut Fb<'a>,
    st: &mut EmitState,
    plan: &ClPlanner,
    func_ids: &Vec<FuncId>,
    cond: usize,
    then_block: usize,
    then_args: Span,
    else_block: usize,
    else_args: Span,
) -> (r: Result<(), String>)
    requires
        mirrors(*old(st), old(b).model@),
    ensures
        step_post(Op::Brif { cond, then_block, then_args, else_block, else_args }, *old(st), *final(st), old(b).model@, final(b).model@, plan.args@, func_ids@, r),
{
    let c = match st.cur {
        None => {
            return Err(dangling());
        },
        Some(c) => c,
    };
    if st.filled[c] {
        return Err(dangling());
    }
    let cv = slot_value(&st.vals, cond)?;
    let tb = block_at(&st.blocks, then_block)?;
    let eb = block_at(&st.blocks, else_block)?;
    if st.sealed[then_block] || st.sealed[else_block] {
        return Err(dangling());
    }
    let ta = span_values(&st.vals, &plan.args, then_args)?;
    let ea = span_values(&st.vals, &plan.args, else_args)?;
    ins_brif(b, cv, tb, &ta, eb, &ea);
    st.started.set(c, true);
    st.filled.set(c, true);
    st.preds.set(then_block, true);
    st.preds.set(else_block, true);
    proof {
        let m1 = b.model@;
        assert forall|k: int| 0 <= k < st.blocks@.len() implies {
            &&& m1.started.contains(#[trigger] st.blocks@[k]) == st.started@[k]
            &&& m1.filled.contains(st.blocks@[k]) == st.filled@[k]
            &&& m1.preds.contains(st.blocks@[k]) == st.preds@[k]
        } by {
            if k != c {
                assert(st.blocks@[k] != st.blocks@[c as int]);
            }
            if k != then_block {
                assert(st.blocks@[k] != st.blocks@[then_block as int]);
            }
            if k != else_block {
                assert(st.blocks@[k] != st.blocks@[else_block as int]);
            }
        }
    }
    Ok(())
}

/// Ends the current block with a return of the slots over `args`.
fn block_return<'a>(b: &mut Fb<'a>, st: &mut EmitState, plan: &ClPlanner, func_ids: &Vec<FuncId>, args: Span) -> (r: Result<(), String>)
    requires
        mirrors(*old(st), old(b).model@),
    ensures
        step_post(Op::Return { args }, *old(st), *final(st), old(b).model@, final(b).model@, plan.args@, func_ids@, r),
{
    let c = match st.cur {
        None => {
            return Err(dangling());
        },
        Some(c) => c,
    };
    if st.filled[c] {
        return Err(dangling());
    }
    let av = span_values(&st.vals, &plan.args, args)?;
    ins_return(b, &av);
    st.started.set(c, true);
    st.filled.set(c, true);
    proof {
        let m1 = b.model@;
        assert forall|k: int| 0 <= k < st.blocks@.len() implies {
            &&& m1.started.contains(#[trigger] st.blocks@[k]) == st.started@[k]
            &&& m1.filled.contains(st.blocks@[k]) == st.filled@[k]
        } by {
            if k != c {
                assert(st.blocks@[k] != st.blocks@[c as int]);
            }
        }
    }
    Ok(())
}

/// The slot an operation defines, if any.
pub open spec fn op_defines(op: Op) -> Option<usize> {
    match op {
        Op::IConst { dst, .. } | Op::F64Const { dst, .. } | Op::DataAddr { dst, .. } | Op::FuncAddr { dst, .. }
        | Op::IBin { dst, .. } | Op::IBinImm { dst, .. } | Op::FBin { dst, .. } | Op::FUnary { dst, .. }
        | Op::ICmp { dst, .. } | Op::ICmpImm { dst, .. } | Op::FCmp { dst, .. } | Op::Select { dst, .. }
        | Op::Convert { dst, .. } | Op::Load { dst, .. } | Op::StackAddr { dst, .. } | Op::BlockParam { dst, .. } => Some(dst),
        Op::Call { dst, has_result, .. } | Op::CallIndirect { dst, has_result, .. } => if has_result { Some(dst) } else { None },
        _ => None,
    }
}

/// Slot `d` exists and holds a value.
pub open spec fn slot_defined(vals: Seq<Option<ClValue>>, d: usize) -> bool {
    d < vals.len() && vals[d as int] is Some
}

/// Operation `op` defines slot `k`.
pub open spec fn defines_slot(op: Op, k: int) -> bool {
    op_defines(op) matches Some(d) && d == k
}

/// Whether an operation emits an instruction, and so needs a current block.
pub open spec fn needs_position(op: Op) -> bool {
    match op {
        Op::CreateBlock { .. } | Op::AppendParam { .. } | Op::AppendFunctionParams { .. } | Op::BlockParam { .. }
        | Op::SwitchTo { .. } | Op::Seal { .. } | Op::SealAll => false,
        _ => true,
    }
}

/// `code` is what emitting `ops` in order hands to Cranelift, where
/// `tables[i]` holds the slot values before operation `i` (the last entry
/// those after the last operation), `pool` is the argument pool and
/// `blocks` the blocks created: each operation that emits an instruction
/// contributes, in order, the one [`emits`] describes, and the others
/// contribute none.
pub open spec fn plan_emits(ops: Seq<Op>, tables: Seq<Seq<Option<ClValue>>>, pool: Seq<usize>, env: EmitEnv, code: Seq<Emitted>) -> bool
    decreases ops.len(),
{
    if ops.len() == 0 {
        tables.len() == 1 && code.len() == 0
    } else {
        let n = ops.len() - 1;
        &&& tables.len() == ops.len() + 1
        &&& if emits_code(ops[n]) {
            &&& code.len() > 0
            &&& emits(ops[n], tables[n], tables[n + 1], pool, env, code.last())
            &&& plan_emits(ops.drop_last(), tables.drop_last(), pool, env, code.drop_last())
        } else {
            plan_emits(ops.drop_last(), tables.drop_last(), pool, env, code)
        }
    }
}

/// `code` is what emitting `ops` in order hands to Cranelift, starting
/// from `nslots` empty slots, with argument pool `pool` (see
/// [`plan_emits`]).
pub open spec fn follows_plan(ops: Seq<Op>, pool: Seq<usize>, nslots: nat, fids: Seq<FuncId>, code: Seq<Emitted>) -> bool {
    exists|tables: Seq<Seq<Option<ClValue>>>, env: EmitEnv|
        #![trigger plan_emits(ops, tables, pool, env, code)]
        env.fids == fids && tables.len() > 0 && tables[0] == empty_slots(nslots) && plan_emits(ops, tables, pool, env, code)
}

/// `n` slots, none holding a value.
pub open spec fn empty_slots(n: nat) -> Seq<Option<ClValue>> {
    Seq::new(n, |k: int| None::<ClValue>)
}

/// `e2` extends `e1`: more blocks and function references, the earlier
/// ones unchanged, and the same function numbering.
pub open spec fn extends(e1: EmitEnv, e2: EmitEnv) -> bool {
    &&& e1.blocks.len() <= e2.blocks.len()
    &&& forall|k: int| 0 <= k < e1.blocks.len() ==> #[trigger] e2.blocks[k] == e1.blocks[k]
    &&& forall|f: ClFuncRef| #[trigger] e1.callee.dom().contains(f) ==> e2.callee.dom().contains(f) && e2.callee[f] == e1.callee[f]
    &&& e2.fids == e1.fids
}

/// What one operation emits stays described when more blocks are created.
proof fn lemma_emits_blocks(op: Op, v0: Seq<Option<ClValue>>, v1: Seq<Option<ClValue>>, pool: Seq<usize>, b1: EmitEnv, b2: EmitEnv, e: Emitted)
    requires
        emits(op, v0, v1, pool, b1, e),
        extends(b1, b2),
    ensures
        emits(op, v0, v1, pool, b2, e),
{
    match op {
        Op::Jump { block, .. } => {
            assert(b2.blocks[block as int] == b1.blocks[block as int]);
        },
        Op::Brif { then_block, else_block, .. } => {
            assert(b2.blocks[then_block as int] == b1.blocks[then_block as int]);
            assert(b2.blocks[else_block as int] == b1.blocks[else_block as int]);
        },
        Op::Call { .. } => {
            if let EKind::Call(f) = e.kind {
                assert(b2.callee[f] == b1.callee[f]);
            }
        },
        Op::FuncAddr { .. } => {
            if let EKind::FuncAddr(f) = e.kind {
                assert(b2.callee[f] == b1.callee[f]);
            }
        },
        _ => {},
    }
}

/// What a run of operations emits stays described when more blocks are
/// created.
proof fn lemma_plan_emits_blocks(ops: Seq<Op>, tables: Seq<Seq<Option<ClValue>>>, pool: Seq<usize>, b1: EmitEnv, b2: EmitEnv, code: Seq<Emitted>)
    requires
        plan_emits(ops, tables, pool, b1, code),
        extends(b1, b2),
    ensures
        plan_emits(ops, tables, pool, b2, code),
    decreases ops.len(),
{
    if ops.len() > 0 {
        let n = ops.len() - 1;
        if emits_code(ops[n]) {
            lemma_emits_blocks(ops[n], tables[n], tables[n + 1], pool, b1, b2, code.last());
            lemma_plan_emits_blocks(ops.drop_last(), tables.drop_last(), pool, b1, b2, code.drop_last());
        } else {
            lemma_plan_emits_blocks(ops.drop_last(), tables.drop_last(), pool, b1, b2, code);
        }
    }
}

/// Emitting one more operation extends what a run of operations emits.
proof fn lemma_plan_emits_step(
    ops: Seq<Op>,
    i: int,
    tables: Seq<Seq<Option<ClValue>>>,
    v1: Seq<Option<ClValue>>,
    pool: Seq<usize>,
    b1: EmitEnv,
    b2: EmitEnv,
    c0: Seq<Emitted>,
    c1: Seq<Emitted>,
)
    requires
        0 <= i < ops.len(),
        plan_emits(ops.take(i), tables, pool, b1, c0),
        extends(b1, b2),
        code_step(ops[i], tables.last(), v1, pool, b2, c0, c1),
    ensures
        plan_emits(ops.take(i + 1), tables.push(v1), pool, b2, c1),
{
    lemma_plan_emits_blocks(ops.take(i), tables, pool, b1, b2, c0);
    let s = ops.take(i + 1);
    if emits_code(ops[i]) {
        assert(c1.drop_last() =~= c0);
    }
    assert(s.drop_last() =~= ops.take(i));
    assert(tables.push(v1).drop_last() =~= tables);
    assert(s[i] == ops[i]);
    if ops.take(i).len() == 0 {
        assert(tables.len() == 1);
    }
    assert(tables.push(v1)[i] == tables.last());
}

/// Builds the body of declared function `id` (signature `params` to
/// `rets`) from `plan`, operation by operation, and returns it.
pub(crate) fn emit_function(
    module: &mut ObjModule,
    id: FuncId,
    params: &Vec<MTy>,
    rets: &Vec<MTy>,
    plan: &ClPlanner,
    func_ids: &Vec<FuncId>,
    data_ids: &Vec<DataId>,
) -> (r: Result<(ClFunction, Ghost<Seq<Emitted>>), String>)
    requires
        ids_declared(old(module).state(), func_ids@, data_ids@),
    ensures
        final(module).state() == old(module).state(),
        r matches Err(m) ==> m@ == dangling_msg(),
        plan.ops@.len() > 0 && needs_position(plan.ops@[0]) ==> r is Err,
        r matches Ok((_, code)) ==> follows_plan(plan.ops@, plan.args@, plan.types@.len(), func_ids@, code@),
{
    let sig = signature_of(module, params, rets);
    let mut func = new_function(id, sig);
    let mut fctx = BuilderCtx::new();
    let mut b = Fb { b: new_builder(&mut func, &mut fctx), model: Ghost(BModel::fresh()) };
    let mut st = EmitState {
        vals: Vec::new(),
        blocks: Vec::new(),
        started: Vec::new(),
        filled: Vec::new(),
        sealed: Vec::new(),
        preds: Vec::new(),
        cur: None,
    };
    let nt = plan.types.len();
    for k in 0..nt
        invariant
            st.vals@.len() == k,
            forall|j: int| 0 <= j < k ==> st.vals@[j] is None,
            st.blocks@.len() == 0,
            st.started@.len() == 0,
            st.filled@.len() == 0,
            st.sealed@.len() == 0,
            st.preds@.len() == 0,
            st.cur is None,
    {
        st.vals.push(None);
    }
    assert(mirrors(st, b.model@));
    let ghost t0 = st.vals@;
    assert(t0 =~= empty_slots(plan.types@.len()));
    let ghost mut tables: Seq<Seq<Option<ClValue>>> = seq![t0];
    let n = plan.ops.len();
    let mut res: Result<(), String> = Ok(());
    assert(plan.ops@.take(0) =~= Seq::<Op>::empty());
    for i in 0..n
        invariant
            n == plan.ops@.len(),
            res matches Err(m) ==> m@ == dangling_msg(),
            res is Ok ==> mirrors(st, b.model@),
            res is Ok ==> plan_emits(plan.ops@.take(i as int), tables, plan.args@,
                EmitEnv { blocks: st.blocks@, callee: b.model@.callee, fids: func_ids@ }, b.model@.code),
            res is Ok ==> tables.last() == st.vals@,
            tables.len() >= 1,
            tables[0] == t0,
            t0 == empty_slots(plan.types@.len()),
            i == 0 ==> st.cur is None && res is Ok,
            i > 0 && needs_position(plan.ops@[0]) ==> res is Err,
            module.state() == old(module).state(),
            ids_declared(module.state(), func_ids@, data_ids@),
    {
        if res.is_ok() {
            let ghost s0 = st;
            let ghost m0 = b.model@;
            res = emit_op(&mut b, module, &mut st, plan, func_ids, data_ids, plan.ops[i]);
            proof {
                if res is Ok {
                    lemma_plan_emits_step(plan.ops@, i as int, tables, st.vals@, plan.args@,
                        EmitEnv { blocks: s0.blocks@, callee: m0.callee, fids: func_ids@ },
                        EmitEnv { blocks: st.blocks@, callee: b.model@.callee, fids: func_ids@ }, m0.code, b.model@.code);
                    tables = tables.push(st.vals@);
                }
            }
        }
    }
    assert(plan.ops@.take(n as int) =~= plan.ops@);
    let ghost code = b.model@.code;
    if res.is_err() {
        return Err(dangling());
    }
    let nb = st.blocks.len();
    for k in 0..nb
        invariant
            nb == st.blocks@.len(),
            mirrors(st, b.model@),
            forall|q: int| 0 <= q < k ==> st.started@[q] ==> st.filled@[q] && st.sealed@[q],
            module.state() == old(module).state(),
    {
        if st.started[k] && !(st.filled[k] && st.sealed[k]) {
            return Err(dangling());
        }
    }
    assert forall|bl: Block| b.model@.started.contains(bl) implies b.model@.filled.contains(bl) && b.model@.sealed.contains(bl) by {
        assert(b.model@.blocks.contains(bl));
        let k = choose|k: int| 0 <= k < nb && st.blocks@[k] == bl;
        assert(st.started@[k]);
    }
    finalize_builder(b);
    let gc: Ghost<Seq<Emitted>> = Ghost(code);
    let ghost env = EmitEnv { blocks: st.blocks@, callee: b.model@.callee, fids: func_ids@ };
    assert(plan_emits(plan.ops@, tables, plan.args@, env, gc@));
    assert(tables[0] == empty_slots(plan.types@.len()));
    assert(follows_plan(plan.ops@, plan.args@, plan.types@.len(), func_ids@, gc@));
    let r: Result<(ClFunction, Ghost<Seq<Emitted>>), String> = Ok((func, gc));
    r
}

} // verus!
