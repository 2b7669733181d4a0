//! Planning a whole function for the Cranelift backend: blocks for the
//! reachable IR blocks, phis as block parameters, the lowering of each
//! instruction, and the sealing of blocks once all their predecessors are
//! known.

use vstd::prelude::*;
use std::collections::HashMap;
use crate::cfg::{block_targets, contains_u32, edge, jumps_to, reachable, reachable_labels};
use crate::clflow::{blocks_exist, copy_types, PhiInfo};
use crate::ir::{CmpOp, Literal};
use crate::clplan::{Arith, ClPlanner};
use crate::ir::{BasicBlock, BlockRef, Function, Instruction, Type, Value};
use crate::mach::{mty_of, spec_mty_of, Conv, Decl, MTy, Op, StringTable};
use crate::text::{starts_with, str_eq};
use crate::clinst::{arith_effect, compare_effect, const_effect, or_effect};
use crate::clmem::{alloca_effect, load_effect, load_field_effect, offset_addr_effect, ret_effect, store_effect, store_field_effect, variant_field_effect, variant_tag_effect, word_cast_effect};
use crate::clvariant::{actor_init_effect, construct_variant_effect, message_effect, spawn_effect};
use crate::clflow::{branch_effect, jump_effect};
use crate::clbuiltin::{clamp_effect, list_literal_effect, map_set_effect, runtime_call, runtime_call_effect, runtime_call_of};
use crate::clcall::plain_call_effect;
use crate::clrecipe::{intern_texts, interned_at, recipe_effect, recipe_failed, recipe_failed_msg};
use crate::clrecipes::{recipe_for, recipe_of};

verus! {

broadcast use vstd::std_specs::hash::group_hash_axioms;

/// Whether an instruction ends its block's translation.
pub open spec fn is_terminator(i: Instruction) -> bool {
    match i {
        Instruction::Ret(_) | Instruction::Branch(..) | Instruction::Jump(_) => true,
        _ => false,
    }
}

/// The entries of a phi that come from blocks that jump or branch to
/// `target`, in order.
pub open spec fn kept_entries(blocks: Seq<BasicBlock>, es: Seq<(BlockRef, Value)>, target: u32) -> Seq<(BlockRef, Value)>
    decreases es.len(),
{
    if es.len() == 0 {
        Seq::empty()
    } else {
        let rest = kept_entries(blocks, es.drop_last(), target);
        if edge(blocks, es.last().0.0, target) {
            rest.push(es.last())
        } else {
            rest
        }
    }
}

/// A phi entry is kept exactly when it is one of the phi's entries whose
/// source block jumps or branches to the phi's block; no entry is added.
pub proof fn law_kept_entries(blocks: Seq<BasicBlock>, es: Seq<(BlockRef, Value)>, target: u32)
    ensures
        forall|e: (BlockRef, Value)| #[trigger] kept_entries(blocks, es, target).contains(e)
            <==> es.contains(e) && edge(blocks, e.0.0, target),
        kept_entries(blocks, es, target).len() <= es.len(),
    decreases es.len(),
{
    if es.len() > 0 {
        let rest = es.drop_last();
        law_kept_entries(blocks, rest, target);
        let lr = kept_entries(blocks, rest, target);
        let l = kept_entries(blocks, es, target);
        let x = es.last();
        let c = edge(blocks, x.0.0, target);
        assert(l == (if c { lr.push(x) } else { lr }));
        assert forall|e: (BlockRef, Value)| #[trigger] l.contains(e) <==> es.contains(e) && edge(blocks, e.0.0, target) by {
            if l.contains(e) {
                let k = choose|k: int| 0 <= k < l.len() && l[k] == e;
                if k < lr.len() {
                    assert(lr[k] == e);
                    assert(lr.contains(e));
                    assert(rest.contains(e));
                    let j = choose|j: int| 0 <= j < rest.len() && rest[j] == e;
                    assert(es[j] == e);
                } else {
                    assert(c && e == x);
                    assert(es[es.len() - 1] == e);
                }
            }
            if es.contains(e) && edge(blocks, e.0.0, target) {
                let j = choose|j: int| 0 <= j < es.len() && es[j] == e;
                if j < es.len() - 1 {
                    assert(rest[j] == e);
                    assert(rest.contains(e));
                    assert(lr.contains(e));
                    let k = choose|k: int| 0 <= k < lr.len() && lr[k] == e;
                    assert(l[k] == e);
                } else {
                    assert(e == x);
                    assert(l[l.len() - 1] == e);
                }
            }
        }
    }
}

/// Keeps the phi entries whose source block jumps or branches to `target`.
pub fn filter_phi_entries(blocks: &Vec<BasicBlock>, es: &Vec<(BlockRef, Value)>, target: u32) -> (r: Vec<(BlockRef, Value)>)
    ensures
        r@ == kept_entries(blocks@, es@, target),
{
    let mut r: Vec<(BlockRef, Value)> = Vec::new();
    let n = es.len();
    for i in 0..n
        invariant
            n == es@.len(),
            r@ == kept_entries(blocks@, es@.subrange(0, i as int), target),
    {
        assert(es@.subrange(0, i + 1).drop_last() =~= es@.subrange(0, i as int));
        let (src, v) = es[i];
        if jumps_to(blocks, src.0, target) {
            r.push((src, v));
        }
    }
    assert(es@.subrange(0, n as int) =~= es@);
    r
}

/// The machine type of a phi's block parameter: the declared type of the
/// first kept entry's value, else of the phi's destination, else `I64`.
pub open spec fn spec_phi_type(vt: Map<u32, Type>, kept: Seq<(BlockRef, Value)>, dst: Value) -> MTy {
    if kept.len() > 0 && vt.contains_key(kept[0].1.0) {
        spec_mty_of(vt[kept[0].1.0])
    } else if vt.contains_key(dst.0) {
        spec_mty_of(vt[dst.0])
    } else {
        MTy::I64
    }
}

/// The machine type of a phi's block parameter (see [`spec_phi_type`]).
pub fn phi_type(vt: &HashMap<u32, Type>, kept: &Vec<(BlockRef, Value)>, dst: Value) -> (r: MTy)
    ensures
        r == spec_phi_type(vt@, kept@, dst),
{
    if kept.len() > 0 {
        match vt.get(&kept[0].1.0) {
            Some(t) => {
                return mty_of(*t);
            },
            None => {},
        }
    }
    match vt.get(&dst.0) {
        Some(t) => mty_of(*t),
        None => MTy::I64,
    }
}



/// The result of an instruction whose lowering had outcome `rc`: whether
/// it ended the block, or the lowering's error.
pub open spec fn ended(rc: Result<(), String>, b: bool) -> Result<bool, String> {
    match rc {
        Ok(_) => Ok(b),
        Err(m) => Err(m),
    }
}

/// The result of an instruction whose lowering had outcome `rc`.
pub fn finish_with(rc: Result<(), String>, b: bool) -> (r: Result<bool, String>)
    ensures
        r == ended(rc, b),
{
    match rc {
        Ok(_) => Ok(b),
        Err(m) => Err(m),
    }
}

/// The message for a call through a function reference the module does not
/// name.
pub open spec fn unknown_ref_msg(f: u32) -> Seq<char> {
    "Unknown FuncRef("@ + crate::text::decimal(f as nat) + ") in call instruction"@
}

/// What lowering instruction `inst` of block `src` does to the planner and
/// the string table, and its result (whether it ended the block).
pub open spec fn inst_effect(
    pre: ClPlanner,
    post: ClPlanner,
    strings_pre: StringTable,
    strings_post: StringTable,
    decls: Vec<Decl>,
    func_refs: HashMap<u32, String>,
    vt: HashMap<u32, Type>,
    main_void: bool,
    ret: Type,
    block_of: HashMap<u32, usize>,
    phis: Vec<PhiInfo>,
    src: u32,
    inst: Instruction,
    r: Result<bool, String>,
) -> bool {
    match inst {
        Instruction::Const(dst, lit) => r == Ok::<bool, String>(false)
            && const_effect(pre, post, strings_pre, strings_post, decls, func_refs, vt, dst, lit),
        Instruction::Call(d, fref, args) => if func_refs@.contains_key(fref.0) {
            exists|rc: Result<(), String>| #[trigger] call_effect(pre, post, strings_pre, strings_post, decls, vt, d, fref, func_refs@[fref.0], args, rc)
                && r == ended(rc, false)
        } else {
            post == pre && strings_post == strings_pre && (r matches Err(m) && m@ == unknown_ref_msg(fref.0))
        },
        Instruction::Send { handle, message_name, payload } => exists|rc: Result<(), String>|
            #[trigger] message_effect(pre, post, strings_pre, strings_post, decls, false, Value(0), handle, message_name, payload, rc)
            && r == ended(rc, false),
        Instruction::Ask { result, handle, message_name, payload } => exists|rc: Result<(), String>|
            #[trigger] message_effect(pre, post, strings_pre, strings_post, decls, true, result, handle, message_name, payload, rc)
            && r == ended(rc, false),
        _ => strings_post == strings_pre && plain_inst_effect(pre, post, decls, vt, main_void, ret, block_of, phis, src, inst, r),
    }
}

/// What lowering an instruction that leaves the string table alone does
/// to the planner, and its result.
pub open spec fn plain_inst_effect(
    pre: ClPlanner,
    post: ClPlanner,
    decls: Vec<Decl>,
    vt: HashMap<u32, Type>,
    main_void: bool,
    ret: Type,
    block_of: HashMap<u32, usize>,
    phis: Vec<PhiInfo>,
    src: u32,
    inst: Instruction,
    r: Result<bool, String>,
) -> bool {
    match inst {
        Instruction::Add(d, a, b) => exists|rc: Result<(), String>| #[trigger] arith_effect(pre, post, Arith::Add, d, a, b, rc) && r == ended(rc, false),
        Instruction::Sub(d, a, b) => exists|rc: Result<(), String>| #[trigger] arith_effect(pre, post, Arith::Sub, d, a, b, rc) && r == ended(rc, false),
        Instruction::Mul(d, a, b) => exists|rc: Result<(), String>| #[trigger] arith_effect(pre, post, Arith::Mul, d, a, b, rc) && r == ended(rc, false),
        Instruction::Div(d, a, b) => exists|rc: Result<(), String>| #[trigger] arith_effect(pre, post, Arith::Div, d, a, b, rc) && r == ended(rc, false),
        Instruction::Cmp(d, op, a, b) => exists|rc: Result<(), String>| #[trigger] compare_effect(pre, post, d, op, a, b, rc) && r == ended(rc, false),
        Instruction::Or(d, a, b) => exists|rc: Result<(), String>| #[trigger] or_effect(pre, post, d, a, b, rc) && r == ended(rc, false),
        Instruction::Ret(v) => exists|rc: Result<(), String>| #[trigger] ret_effect(pre, post, main_void, ret, v, rc) && r == ended(rc, true),
        Instruction::Branch(c, t, e) => exists|rc: Result<(), String>| #[trigger] branch_effect(pre, post, block_of, phis, src, c, t, e, rc) && r == ended(rc, true),
        Instruction::Jump(t) => exists|rc: Result<(), String>| #[trigger] jump_effect(pre, post, block_of, phis, src, t, rc) && r == ended(rc, true),
        Instruction::Phi(_, _) => post == pre && r == Ok::<bool, String>(false),
        Instruction::Alloca(d, ty) => alloca_effect(pre, post, d, ty) && r == Ok::<bool, String>(false),
        Instruction::Load(d, a) => exists|rc: Result<(), String>| #[trigger] load_effect(pre, post, vt, d, a, rc) && r == ended(rc, false),
        Instruction::Store(v, a) => exists|rc: Result<(), String>| #[trigger] store_effect(pre, post, v, a, rc) && r == ended(rc, false),
        Instruction::ConstructVariant { result, tag, payload } => exists|rc: Result<(), String>|
            #[trigger] construct_variant_effect(pre, post, decls, result, tag, payload, rc) && r == ended(rc, false),
        Instruction::GetVariantTag { result, ptr } => exists|rc: Result<(), String>| #[trigger] variant_tag_effect(pre, post, result, ptr, rc) && r == ended(rc, false),
        Instruction::GetVariantField { result, ptr, index } => exists|rc: Result<(), String>|
            #[trigger] variant_field_effect(pre, post, vt, result, ptr, index, rc) && r == ended(rc, false),
        Instruction::Spawn { result, .. } => exists|rc: Result<(), String>| #[trigger] spawn_effect(pre, post, decls, result, rc) && r == ended(rc, false),
        Instruction::ActorInit { initial_state } => exists|rc: Result<(), String>| #[trigger] actor_init_effect(pre, post, initial_state, rc) && r == ended(rc, false),
        Instruction::PtrToInt(x, p) => exists|rc: Result<(), String>| #[trigger] word_cast_effect(pre, post, x, p, rc) && r == ended(rc, false),
        Instruction::IntToPtr(x, p) => exists|rc: Result<(), String>| #[trigger] word_cast_effect(pre, post, x, p, rc) && r == ended(rc, false),
        Instruction::GetElementPtr { result, base, offset, .. } => exists|rc: Result<(), String>|
            #[trigger] offset_addr_effect(pre, post, result, base, offset, rc) && r == ended(rc, false),
        Instruction::FieldAddr { result, base, offset, .. } => exists|rc: Result<(), String>|
            #[trigger] offset_addr_effect(pre, post, result, base, offset, rc) && r == ended(rc, false),
        Instruction::LoadField { result, object, field_ty, offset, .. } => exists|rc: Result<(), String>|
            #[trigger] load_field_effect(pre, post, result, object, field_ty, offset, rc) && r == ended(rc, false),
        Instruction::StoreField { value, object, offset, .. } => exists|rc: Result<(), String>|
            #[trigger] store_field_effect(pre, post, value, object, offset, rc) && r == ended(rc, false),
        // Stated by `inst_effect` itself.
        Instruction::Const(..) | Instruction::Call(..) | Instruction::Send { .. } | Instruction::Ask { .. } => true,
    }
}

/// Whether `name` names a list literal built-in (`list_literal_N`).
pub open spec fn is_list_literal(name: Seq<char>) -> bool {
    "list_literal_"@.len() <= name.len() && name.subrange(0, "list_literal_"@.len() as int) == "list_literal_"@
}

/// What lowering a call of a built-in with a recipe does to the planner and
/// the string table, and its result: the recipe's strings are interned,
/// then the recipe is run with their data indices; a failed run is
/// reported by the built-in's name.
pub open spec fn recipe_call_effect(pre: ClPlanner, post: ClPlanner, strings_pre: StringTable, strings_post: StringTable, decls: Seq<Decl>, name: Seq<char>, texts: Seq<&'static str>, steps: Seq<crate::clrecipe::Step>, result: usize, dst: Value, args: Seq<Value>, r: Result<(), String>) -> bool {
    &&& strings_pre.entries@.is_prefix_of(strings_post.entries@)
    &&& exists|sidx: Seq<usize>| sidx.len() == texts.len() && #[trigger] interned_at(strings_post.entries@, sidx, texts)
        && recipe_effect(pre, post, decls, sidx, steps, result, dst, args, r is Ok)
    &&& r is Err ==> (r matches Err(m) && m@ == recipe_failed_msg(name))
}

/// What lowering a call of `name` does to the planner and the string
/// table, and its result: a built-in with a runtime call, `clamp`,
/// `map_set`, a list literal, a built-in with a recipe (its strings
/// interned first), or a call of a declared function or function pointer.
pub open spec fn call_effect(pre: ClPlanner, post: ClPlanner, strings_pre: StringTable, strings_post: StringTable, decls: Vec<Decl>, vt: HashMap<u32, Type>, dst: Value, fref: crate::ir::FuncRef, name: String, args: Vec<Value>, r: Result<(), String>) -> bool {
    match runtime_call_of(name@) {
        Some((callee, nargs, rpost)) => strings_post == strings_pre
            && runtime_call_effect(pre, post, decls, name@, callee, nargs, rpost, dst, args, r),
        None => if name@ == "clamp"@ {
            strings_post == strings_pre && clamp_effect(pre, post, decls, dst, args, r)
        } else if name@ == "map_set"@ {
            strings_post == strings_pre && map_set_effect(pre, post, decls, dst, args, r)
        } else if is_list_literal(name@) {
            strings_post == strings_pre && list_literal_effect(pre, post, decls, dst, args, r)
        } else {
            match recipe_of(name@) {
                Some(rcp) => recipe_call_effect(pre, post, strings_pre, strings_post, decls@, name@, rcp.0, rcp.1, rcp.2, dst, args@, r),
                None => strings_post == strings_pre && plain_call_effect(pre, post, decls, vt, dst, fref, name, args, r),
            }
        },
    }
}

impl ClPlanner {
    /// Creates a new block with no parameters.
    pub fn new_block(&mut self) -> (r: usize)
        requires
            old(self).wf(),
        ensures
            final(self).wf(),
            r == old(self).block_params@.len(),
            final(self).block_params@.len() == old(self).block_params@.len() + 1,
            final(self).block_params@[r as int]@.len() == 0,
            forall|i: int| 0 <= i < r ==> final(self).block_params@[i] == old(self).block_params@[i],
            final(self).ops@ == old(self).ops@.push(Op::CreateBlock { block: r }),
            final(self).types@ == old(self).types@,
            final(self).args@ == old(self).args@,
            final(self).vmap@ == old(self).vmap@,
            final(self).sigs@ == old(self).sigs@,
    {
        let r = self.block_params.len();
        self.block_params.push(Vec::new());
        self.ops.push(Op::CreateBlock { block: r });
        r
    }

    /// Adds a parameter of type `ty` to block `b`.
    pub fn add_param(&mut self, b: usize, ty: MTy)
        requires
            old(self).wf(),
            b < old(self).block_params@.len(),
        ensures
            final(self).wf(),
            final(self).block_params@.len() == old(self).block_params@.len(),
            final(self).block_params@[b as int]@ == old(self).block_params@[b as int]@.push(ty),
            forall|i: int| 0 <= i < final(self).block_params@.len() && i != b ==> final(self).block_params@[i] == old(self).block_params@[i],
            final(self).ops@ == old(self).ops@.push(Op::AppendParam { block: b, ty }),
            final(self).types@ == old(self).types@,
            final(self).args@ == old(self).args@,
            final(self).vmap@ == old(self).vmap@,
            final(self).sigs@ == old(self).sigs@,
    {
        let mut v = copy_types(&self.block_params[b]);
        v.push(ty);
        self.block_params.set(b, v);
        self.ops.push(Op::AppendParam { block: b, ty });
    }

    /// Gives block `b` the function's parameters.
    pub fn add_function_params(&mut self, b: usize, params: &Vec<MTy>)
        requires
            old(self).wf(),
            b < old(self).block_params@.len(),
        ensures
            final(self).wf(),
            final(self).block_params@.len() == old(self).block_params@.len(),
            final(self).block_params@[b as int]@ == old(self).block_params@[b as int]@ + params@,
            forall|i: int| 0 <= i < final(self).block_params@.len() && i != b ==> final(self).block_params@[i] == old(self).block_params@[i],
            final(self).ops@ == old(self).ops@.push(Op::AppendFunctionParams { block: b }),
            final(self).types@ == old(self).types@,
            final(self).args@ == old(self).args@,
            final(self).vmap@ == old(self).vmap@,
            final(self).sigs@ == old(self).sigs@,
    {
        let mut v = copy_types(&self.block_params[b]);
        let n = params.len();
        for i in 0..n
            invariant
                n == params@.len(),
                v@ == old(self).block_params@[b as int]@ + params@.subrange(0, i as int),
        {
            v.push(params[i]);
            assert(v@ =~= old(self).block_params@[b as int]@ + params@.subrange(0, i + 1));
        }
        assert(params@.subrange(0, n as int) =~= params@);
        self.block_params.set(b, v);
        self.ops.push(Op::AppendFunctionParams { block: b });
    }

    /// Lowers one instruction of block `src`. Returns whether it ended the
    /// block (a return, branch or jump).
    pub fn lower_inst(
        &mut self,
        strings: &mut StringTable,
        decls: &Vec<Decl>,
        func_refs: &HashMap<u32, String>,
        vt: &HashMap<u32, Type>,
        main_void: bool,
        ret: Type,
        block_of: &HashMap<u32, usize>,
        phis: &Vec<PhiInfo>,
        src: u32,
        inst: &Instruction,
    ) -> (r: Result<bool, String>)
        requires
            old(self).wf(),
            blocks_exist(block_of@, old(self).block_params@.len()),
        ensures
            r is Ok ==> old(self).ops@.is_prefix_of(final(self).ops@),
            final(self).wf(),
            final(self).block_params@.len() >= old(self).block_params@.len(),
            r matches Ok(filled) ==> filled == is_terminator(*inst),
            inst_effect(*old(self), *final(self), *old(strings), *final(strings), *decls, *func_refs, *vt, main_void, ret, *block_of, *phis, src, *inst, r),
    {
        match inst {
            Instruction::Const(dst, lit) => {
                self.lower_const(strings, decls, func_refs, vt, *dst, lit);
                Ok(false)
            },
            Instruction::Add(d, a, b) => finish_with(self.lower_arith(Arith::Add, *d, *a, *b), false),
            Instruction::Sub(d, a, b) => finish_with(self.lower_arith(Arith::Sub, *d, *a, *b), false),
            Instruction::Mul(d, a, b) => finish_with(self.lower_arith(Arith::Mul, *d, *a, *b), false),
            Instruction::Div(d, a, b) => finish_with(self.lower_arith(Arith::Div, *d, *a, *b), false),
            Instruction::Cmp(d, op, a, b) => finish_with(self.lower_compare(*d, *op, *a, *b), false),
            Instruction::Or(d, a, b) => finish_with(self.lower_or(*d, *a, *b), false),
            Instruction::Call(d, fref, args) => {
                let name = match func_refs.get(&fref.0) {
                    Some(n) => n,
                    None => {
                        return Err(crate::text::with_number("Unknown FuncRef(", fref.0 as u64, ") in call instruction"));
                    },
                };
                finish_with(self.lower_call(strings, decls, vt, *d, *fref, name, args), false)
            },
            Instruction::Ret(v) => finish_with(self.lower_ret(main_void, ret, *v), true),
            Instruction::Branch(c, t, e) => finish_with(self.lower_branch(block_of, phis, src, *c, *t, *e), true),
            Instruction::Jump(t) => finish_with(self.lower_jump(block_of, phis, src, *t), true),
            Instruction::Phi(_, _) => Ok(false),
            Instruction::Alloca(d, ty) => {
                self.lower_alloca(*d, *ty);
                Ok(false)
            },
            Instruction::Load(d, a) => finish_with(self.lower_load(vt, *d, *a), false),
            Instruction::Store(v, a) => finish_with(self.lower_store(*v, *a), false),
            Instruction::ConstructVariant { result, tag, payload } => finish_with(self.lower_construct_variant(decls, *result, *tag, payload), false),
            Instruction::GetVariantTag { result, ptr } => finish_with(self.lower_variant_tag(*result, *ptr), false),
            Instruction::GetVariantField { result, ptr, index } => finish_with(self.lower_variant_field(vt, *result, *ptr, *index), false),
            Instruction::Spawn { result, .. } => finish_with(self.lower_spawn(decls, *result), false),
            Instruction::Send { handle, message_name, payload } => finish_with(self.lower_message(strings, decls, false, Value(0), *handle, message_name, *payload), false),
            Instruction::Ask { result, handle, message_name, payload } => finish_with(self.lower_message(strings, decls, true, *result, *handle, message_name, *payload), false),
            Instruction::ActorInit { initial_state } => finish_with(self.lower_actor_init(*initial_state), false),
            Instruction::PtrToInt(x, p) => finish_with(self.lower_word_cast(*x, *p), false),
            Instruction::IntToPtr(x, p) => finish_with(self.lower_word_cast(*x, *p), false),
            Instruction::GetElementPtr { result, base, offset, .. } => finish_with(self.lower_offset_addr(*result, *base, *offset), false),
            Instruction::FieldAddr { result, base, offset, .. } => finish_with(self.lower_offset_addr(*result, *base, *offset), false),
            Instruction::LoadField { result, object, field_ty, offset, .. } => finish_with(self.lower_load_field(*result, *object, *field_ty, *offset), false),
            Instruction::StoreField { value, object, offset, .. } => finish_with(self.lower_store_field(*value, *object, *offset), false),
        }
    }

    /// Lowers a call instruction to `name`: a built-in operation by its
    /// runtime call or recipe, anything else as a plain call.
    pub fn lower_call(
        &mut self,
        strings: &mut StringTable,
        decls: &Vec<Decl>,
        vt: &HashMap<u32, Type>,
        dst: Value,
        fref: crate::ir::FuncRef,
        name: &String,
        args: &Vec<Value>,
    ) -> (r: Result<(), String>)
        requires
            old(self).wf(),
        ensures
            r is Ok ==> old(self).ops@.is_prefix_of(final(self).ops@),
            final(self).wf(),
            final(self).block_params@.len() >= old(self).block_params@.len(),
            call_effect(*old(self), *final(self), *old(strings), *final(strings), *decls, *vt, dst, fref, *name, *args, r),
    {
        proof {
            reveal_strlit("clamp");
            reveal_strlit("map_set");
            reveal_strlit("list_literal_");
        }
        match runtime_call(name.as_str()) {
            Some(rc) => {
                return self.lower_runtime_call(decls, name.as_str(), &rc, dst, args);
            },
            None => {},
        }
        if str_eq(name.as_str(), "clamp") {
            return self.lower_clamp(decls, dst, args);
        }
        if str_eq(name.as_str(), "map_set") {
            return self.lower_map_set(decls, dst, args);
        }
        if starts_with(name.as_str(), "list_literal_") {
            return self.lower_list_literal(decls, dst, args);
        }
        match recipe_for(name.as_str()) {
            Some(rec) => {
                let sidx = intern_texts(strings, &rec.texts);
                let rr = self.lower_recipe(decls, &sidx, &rec, dst, args);
                proof {
                    assert(interned_at(strings.entries@, sidx@, rec.texts@));
                }
                let ghost texts = rec.texts@;
                let ghost steps = rec.steps@;
                let r = match rr {
                    Ok(()) => Ok(()),
                    Err(()) => Err(recipe_failed(name.as_str())),
                };
                proof {
                    assert(recipe_call_effect(*old(self), *self, *old(strings), *strings, decls@, name@, texts, steps, rec.result, dst, args@, r));
                }
                r
            },
            None => self.lower_plain_call(decls, vt, dst, fref, name, args),
        }
    }
}

} // verus!

verus! {

/// The loop headers: labels targeted by a jump or branch from a block at the
/// same or a later position than the (last) block with that label.
pub fn loop_headers(blocks: &Vec<BasicBlock>) -> (r: Vec<u32>)
    ensures
        forall|t: u32| r@.contains(t) <==> is_loop_header(blocks@, t),
{
    let mut r: Vec<u32> = Vec::new();
    let n = blocks.len();
    for si in 0..n
        invariant
            n == blocks@.len(),
            forall|t: u32| r@.contains(t) <==> exists|s: int| 0 <= s < si && #[trigger] back_edge(blocks@, s, t),
    {
        let ts = block_targets(&blocks[si]);
        let m = ts.len();
        for k in 0..m
            invariant
                n == blocks@.len(),
                si < n,
                m == ts@.len(),
                ts@ == crate::cfg::targets_of(blocks@[si as int].instructions@),
                forall|t: u32| r@.contains(t) <==> (exists|s: int| 0 <= s < si && #[trigger] back_edge(blocks@, s, t))
                    || ts@.subrange(0, k as int).contains(t) && back_edge(blocks@, si as int, t),
        {
            let t = ts[k];
            let is_back = match crate::cfg::find_block(blocks, t) {
                Some(ti) => ti <= si,
                None => false,
            };
            proof {
                assert(ts@[k as int] == t);
                assert(ts@.contains(t));
                assert(is_back == back_edge(blocks@, si as int, t));
            }
            let ghost r0 = r@;
            if is_back && !contains_u32(&r, t) {
                r.push(t);
            }
            proof {
                assert(ts@.subrange(0, k + 1) =~= ts@.subrange(0, k as int).push(t));
                assert forall|x: u32| r@.contains(x) <==> (exists|s: int| 0 <= s < si && #[trigger] back_edge(blocks@, s, x))
                    || ts@.subrange(0, k + 1).contains(x) && back_edge(blocks@, si as int, x) by {
                    if x == t {
                        assert(ts@.subrange(0, k + 1)[k as int] == t);
                        if is_back {
                            assert(r@.contains(t)) by {
                                if !r0.contains(t) {
                                    assert(r@[r@.len() - 1] == t);
                                }
                            }
                        } else {
                            assert(r@ == r0);
                        }
                    } else {
                        assert(r@.contains(x) == r0.contains(x)) by {
                            if r@ != r0 {
                                assert(r@ == r0.push(t));
                                if r0.contains(x) {
                                    let j = choose|j: int| 0 <= j < r0.len() && #[trigger] r0[j] == x;
                                    assert(r@[j] == x);
                                }
                                if r@.contains(x) {
                                    let j = choose|j: int| 0 <= j < r@.len() && #[trigger] r@[j] == x;
                                    assert(j < r0.len());
                                    assert(r0[j] == x);
                                }
                            }
                        }
                        assert(ts@.subrange(0, k + 1).contains(x) == ts@.subrange(0, k as int).contains(x)) by {
                            if ts@.subrange(0, k + 1).contains(x) {
                                let j = choose|j: int| 0 <= j < k + 1 && #[trigger] ts@.subrange(0, k + 1)[j] == x;
                                assert(j < k);
                                assert(ts@.subrange(0, k as int)[j] == x);
                            }
                            if ts@.subrange(0, k as int).contains(x) {
                                let j = choose|j: int| 0 <= j < k && #[trigger] ts@.subrange(0, k as int)[j] == x;
                                assert(ts@.subrange(0, k + 1)[j] == x);
                            }
                        }
                    }
                }
            }
        }
        proof {
            assert(ts@.subrange(0, m as int) =~= ts@);
            assert forall|t: u32| r@.contains(t) <==> exists|s: int| 0 <= s < si + 1 && #[trigger] back_edge(blocks@, s, t) by {
                if back_edge(blocks@, si as int, t) {
                    assert(ts@.contains(t));
                }
            }
        }
    }
    r
}

/// Block `s` jumps or branches to `t`, and the (last) block labelled `t` is
/// not after `s`: a back edge.
pub open spec fn back_edge(blocks: Seq<BasicBlock>, s: int, t: u32) -> bool {
    &&& 0 <= s < blocks.len()
    &&& crate::cfg::targets_of(blocks[s].instructions@).contains(t)
    &&& 0 <= crate::cfg::last_block_index(blocks, t) <= s
}

/// `t` is the target of a back edge.
pub open spec fn is_loop_header(blocks: Seq<BasicBlock>, t: u32) -> bool {
    exists|s: int| #[trigger] back_edge(blocks, s, t)
}

} // verus!
