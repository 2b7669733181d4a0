//! Lowering of single IR instructions to LLVM IR: memory, constants,
//! arithmetic, comparisons, control flow, phis, calls and variants.

use vstd::prelude::*;
use std::collections::HashMap;
use inkwell::values::BasicValueEnum;
use crate::cfg::{contains_u32, edge, jumps_to};
use crate::error::CodegenError;
use crate::ir::{cmp_holds, div_toward_zero, BlockRef, CmpOp, Function, Instruction, Literal, Type, Value};
use crate::llemit::{build_alloca, build_bit_cast_to_double, build_br, build_cast_to_pointer_to, build_cast_to_pointer_to_type_of};
use crate::llemit::{build_call, build_cond_br, build_float_add, build_float_compare, build_float_div, build_float_mul, build_float_sub};
use crate::llemit::{build_int_add, build_int_compare, build_int_mul, build_int_signed_div, build_int_sub, build_int_to_ptr};
use crate::llemit::{build_load, build_or, build_phi, build_ptr_to_int, build_return, build_store, build_unreachable, const_int};
use crate::llemit::{float_of, get_function, int_basic, int_of, null_pointer, ptr_basic, ptr_of, set_inst_alignment};
use crate::llemit::{fpred_holds, int_kind_value, ipred_holds, set_value_alignment, FPred, IPred, LKind, LTy};
use crate::clbuiltin::arity_msg;
use crate::llvm::builtin::{builtin_leading, spec_builtin_arity, spec_builtin_of};
use crate::llvm::{find_string, ir_type_to_llvm, missing_value_msg, spec_lty_of, type_alignment, LlvmCodegen, PendingPhi, Runtime};
use crate::text::{decimal, push_decimal, push_signed_decimal, signed_decimal, str_eq, with_number, with_text};

verus! {

broadcast use {vstd::std_specs::hash::group_hash_axioms, LlvmCodegen::lemma_step_trans};

/// The arithmetic operations of the IR.
#[derive(Clone, Copy, Debug, PartialEq, Eq, Structural)]
pub enum BinaryOp {
    Add,
    Sub,
    Mul,
    Div,
}

/// What an IR arithmetic operation computes on two integers: the sum, the
/// difference `lhs - rhs`, the product, the quotient rounded toward zero.
pub open spec fn binop_int_value(op: BinaryOp, lhs: int, rhs: int) -> int {
    match op {
        BinaryOp::Add => lhs + rhs,
        BinaryOp::Sub => lhs - rhs,
        BinaryOp::Mul => lhs * rhs,
        BinaryOp::Div => div_toward_zero(lhs, rhs),
    }
}

/// The signed integer predicate of a comparison.
pub open spec fn spec_int_predicate(op: CmpOp) -> IPred {
    match op {
        CmpOp::Eq => IPred::Eq,
        CmpOp::Ne => IPred::Ne,
        CmpOp::Lt => IPred::Slt,
        CmpOp::Le => IPred::Sle,
        CmpOp::Gt => IPred::Sgt,
        CmpOp::Ge => IPred::Sge,
    }
}

/// Lowering an integer comparison to LLVM keeps its meaning: the predicate
/// holds between two signed integers exactly when the IR comparison does.
pub proof fn law_int_predicate_meaning(op: CmpOp, a: int, b: int)
    ensures
        ipred_holds(spec_int_predicate(op), a, b) == cmp_holds(op, a, b),
{
}

/// Lowering a floating-point comparison to LLVM keeps its meaning on
/// numbers that are not NaN.
pub proof fn law_float_predicate_meaning(op: CmpOp, a: int, b: int)
    ensures
        fpred_holds(spec_float_predicate(op), a, b) == cmp_holds(op, a, b),
{
}

/// `l` and `r` are both integers or both doubles.
pub open spec fn same_kind<'ctx>(l: BasicValueEnum<'ctx>, r: BasicValueEnum<'ctx>) -> bool {
    ||| (l is IntValue && r is IntValue)
    ||| (l is FloatValue && r is FloatValue)
}

/// The error for an arithmetic operation on operands of different kinds.
pub open spec fn invalid_operands_msg(op: BinaryOp) -> Seq<char> {
    match op {
        BinaryOp::Add => "Invalid operand types for add"@,
        BinaryOp::Sub => "Invalid operand types for sub"@,
        BinaryOp::Mul => "Invalid operand types for mul"@,
        BinaryOp::Div => "Invalid operand types for div"@,
    }
}

/// The instruction kind of `op` on two integers.
pub open spec fn int_bin_kind(op: BinaryOp) -> LKind {
    match op {
        BinaryOp::Add => LKind::IntAdd,
        BinaryOp::Sub => LKind::IntSub,
        BinaryOp::Mul => LKind::IntMul,
        BinaryOp::Div => LKind::IntSDiv,
    }
}

/// Lowering integer arithmetic keeps its meaning: the instruction handed
/// to LLVM for `op` computes, from the operands in order, what `op` means
/// (so `Sub` is `lhs - rhs`, not a sum and not `rhs - lhs`).
pub proof fn law_int_bin_kind_meaning(op: BinaryOp, lhs: int, rhs: int)
    ensures
        int_kind_value(int_bin_kind(op), lhs, rhs) == Some(binop_int_value(op, lhs, rhs)),
{
}

/// Distinct operations are lowered to distinct integer instructions.
pub proof fn law_int_bin_kind_distinct(op1: BinaryOp, op2: BinaryOp)
    requires
        op1 != op2,
    ensures
        int_bin_kind(op1) != int_bin_kind(op2),
{
    law_int_bin_kind_meaning(op1, 10, 3);
    law_int_bin_kind_meaning(op2, 10, 3);
    assert(10int * 3int == 30) by (nonlinear_arith);
    assert(div_toward_zero(10, 3) == 3);
}

/// Distinct operations are lowered to distinct floating-point instructions.
pub proof fn law_float_bin_kind_distinct(op1: BinaryOp, op2: BinaryOp)
    requires
        op1 != op2,
    ensures
        float_bin_kind(op1) != float_bin_kind(op2),
{
}

/// The instruction kind of `op` on two doubles.
pub open spec fn float_bin_kind(op: BinaryOp) -> LKind {
    match op {
        BinaryOp::Add => LKind::FAdd,
        BinaryOp::Sub => LKind::FSub,
        BinaryOp::Mul => LKind::FMul,
        BinaryOp::Div => LKind::FDiv,
    }
}

/// What compiling `instr` hands to LLVM's builder, from `before` to
/// `after`: for the arithmetic, comparison and `or` instructions one
/// instruction of the operation's kind (on integers or on doubles; a
/// comparison is signed or ordered); for a stack slot the `alloca` of the
/// slot's type and a pointer cast; for a load or a store a pointer cast
/// and then the access; for a jump or a branch the (conditional) branch.
/// Calls, phis, constants, variants and actor operations are not
/// described here.
pub open spec fn inst_trace(instr: Instruction, before: Seq<LKind>, after: Seq<LKind>) -> bool {
    match instr {
        Instruction::Add(_, _, _) => after == before.push(int_bin_kind(BinaryOp::Add)) || after == before.push(float_bin_kind(BinaryOp::Add)),
        Instruction::Sub(_, _, _) => after == before.push(int_bin_kind(BinaryOp::Sub)) || after == before.push(float_bin_kind(BinaryOp::Sub)),
        Instruction::Mul(_, _, _) => after == before.push(int_bin_kind(BinaryOp::Mul)) || after == before.push(float_bin_kind(BinaryOp::Mul)),
        Instruction::Div(_, _, _) => after == before.push(int_bin_kind(BinaryOp::Div)) || after == before.push(float_bin_kind(BinaryOp::Div)),
        Instruction::Cmp(_, op, _, _) => after == before.push(LKind::ICmp(spec_int_predicate(op)))
            || after == before.push(LKind::FCmp(spec_float_predicate(op))),
        Instruction::Or(_, _, _) => after == before.push(LKind::Or),
        Instruction::Alloca(_, ty) => after == before.push(LKind::Alloca(spec_lty_of(ty))).push(LKind::PtrCast),
        Instruction::Load(_, _) => after == before.push(LKind::PtrCast).push(LKind::Load),
        Instruction::Store(_, _) => after == before.push(LKind::PtrCast).push(LKind::Store),
        Instruction::Jump(_) => after == before.push(LKind::Br),
        Instruction::Branch(_, _, _) => after == before.push(LKind::CondBr),
        _ => true,
    }
}

/// The signed integer predicate of a comparison.
pub fn cmpop_to_int_predicate(op: CmpOp) -> (r: IPred)
    ensures
        r == spec_int_predicate(op),
{
    match op {
        CmpOp::Eq => IPred::Eq,
        CmpOp::Ne => IPred::Ne,
        CmpOp::Lt => IPred::Slt,
        CmpOp::Le => IPred::Sle,
        CmpOp::Gt => IPred::Sgt,
        CmpOp::Ge => IPred::Sge,
    }
}

/// The ordered floating-point predicate of a comparison.
pub open spec fn spec_float_predicate(op: CmpOp) -> FPred {
    match op {
        CmpOp::Eq => FPred::Oeq,
        CmpOp::Ne => FPred::One,
        CmpOp::Lt => FPred::Olt,
        CmpOp::Le => FPred::Ole,
        CmpOp::Gt => FPred::Ogt,
        CmpOp::Ge => FPred::Oge,
    }
}

/// The ordered floating-point predicate of a comparison.
pub fn cmpop_to_float_predicate(op: CmpOp) -> (r: FPred)
    ensures
        r == spec_float_predicate(op),
{
    match op {
        CmpOp::Eq => FPred::Oeq,
        CmpOp::Ne => FPred::One,
        CmpOp::Lt => FPred::Olt,
        CmpOp::Le => FPred::Ole,
        CmpOp::Gt => FPred::Ogt,
        CmpOp::Ge => FPred::Oge,
    }
}

/// The entries of a phi in block `target` whose source block is reachable
/// and jumps or branches to `target`, in order.
pub open spec fn live_entries(blocks: Seq<crate::ir::BasicBlock>, reach: Seq<u32>, es: Seq<(BlockRef, Value)>, target: u32) -> Seq<(BlockRef, Value)>
    decreases es.len(),
{
    if es.len() == 0 {
        Seq::empty()
    } else {
        let rest = live_entries(blocks, reach, es.drop_last(), target);
        if reach.contains(es.last().0.0) && edge(blocks, es.last().0.0, target) {
            rest.push(es.last())
        } else {
            rest
        }
    }
}

/// A phi entry is kept exactly when it is one of the phi's entries whose
/// source block is reachable and jumps or branches to the phi's block; no
/// entry is added.
pub proof fn law_live_entries(blocks: Seq<crate::ir::BasicBlock>, reach: Seq<u32>, es: Seq<(BlockRef, Value)>, target: u32)
    ensures
        forall|e: (BlockRef, Value)| #[trigger] live_entries(blocks, reach, es, target).contains(e)
            <==> es.contains(e) && reach.contains(e.0.0) && edge(blocks, e.0.0, target),
        live_entries(blocks, reach, es, target).len() <= es.len(),
    decreases es.len(),
{
    if es.len() > 0 {
        let rest = es.drop_last();
        law_live_entries(blocks, reach, rest, target);
        let lr = live_entries(blocks, reach, rest, target);
        let l = live_entries(blocks, reach, es, target);
        let x = es.last();
        let c = reach.contains(x.0.0) && edge(blocks, x.0.0, target);
        assert(l == (if c { lr.push(x) } else { lr }));
        assert forall|e: (BlockRef, Value)| #[trigger] l.contains(e)
            <==> es.contains(e) && reach.contains(e.0.0) && edge(blocks, e.0.0, target) by {
            if l.contains(e) {
                let k = choose|k: int| 0 <= k < l.len() && l[k] == e;
                if k < lr.len() {
                    assert(lr[k] == e);
                    assert(lr.contains(e));
                    assert(rest.contains(e));
                    let j = choose|j: int| 0 <= j < rest.len() && rest[j] == e;
                    assert(es[j] == e);
                } else {
                    assert(c && e == x);
                    assert(es[es.len() - 1] == e);
                }
            }
            if es.contains(e) && reach.contains(e.0.0) && edge(blocks, e.0.0, target) {
                let j = choose|j: int| 0 <= j < es.len() && es[j] == e;
                if j < es.len() - 1 {
                    assert(rest[j] == e);
                    assert(rest.contains(e));
                    assert(lr.contains(e));
                    let k = choose|k: int| 0 <= k < lr.len() && lr[k] == e;
                    assert(l[k] == e);
                } else {
                    assert(e == x);
                    assert(l[l.len() - 1] == e);
                }
            }
        }
    }
}

/// Keeps the phi entries whose source block is reachable and jumps or
/// branches to `target`.
pub fn live_phi_entries(blocks: &Vec<crate::ir::BasicBlock>, reach: &Vec<u32>, es: &Vec<(BlockRef, Value)>, target: u32) -> (r: Vec<(BlockRef, Value)>)
    ensures
        r@ == live_entries(blocks@, reach@, es@, target),
{
    let mut r: Vec<(BlockRef, Value)> = Vec::new();
    let n = es.len();
    for i in 0..n
        invariant
            n == es@.len(),
            r@ == live_entries(blocks@, reach@, es@.subrange(0, i as int), target),
    {
        assert(es@.subrange(0, i + 1).drop_last() =~= es@.subrange(0, i as int));
        let (src, v) = es[i];
        if contains_u32(reach, src.0) && jumps_to(blocks, src.0, target) {
            r.push((src, v));
        }
    }
    assert(es@.subrange(0, n as int) =~= es@);
    r
}

/// The message of an instruction this backend does not lower.
pub open spec fn unsupported_prefix() -> Seq<char> {
    "LLVM backend does not yet lower instruction: "@
}

/// The `Debug` text std gives a string: the string quoted, with quotes,
/// backslashes and non-printable characters escaped.
pub uninterp spec fn str_debug_text(s: Seq<char>) -> Seq<char>;

/// std's `Debug` formatting of a string (`format!("{:?}", s)`).
#[verifier::external_body]
fn debug_str(s: &str) -> (r: String)
    ensures
        r@ == str_debug_text(s@),
{
    format!("{:?}", s)
}

/// The `Debug` text of a value: `Value(n)`.
pub open spec fn value_text(v: Value) -> Seq<char> {
    "Value("@ + decimal(v.0 as nat) + ")"@
}

/// The `Debug` text of an IR type: the variant's name.
pub open spec fn type_text(t: Type) -> Seq<char> {
    match t {
        Type::I32 => "I32"@,
        Type::I64 => "I64"@,
        Type::Ptr => "Ptr"@,
        Type::Bool => "Bool"@,
        Type::F64 => "F64"@,
        Type::Void => "Void"@,
    }
}

/// The `Debug` text of an instruction this backend does not lower.
pub open spec fn instruction_text(i: Instruction) -> Seq<char> {
    match i {
        Instruction::PtrToInt(a, b) => "PtrToInt("@ + value_text(a) + ", "@ + value_text(b) + ")"@,
        Instruction::IntToPtr(a, b) => "IntToPtr("@ + value_text(a) + ", "@ + value_text(b) + ")"@,
        Instruction::GetElementPtr { result, base, offset, field_ty } => "GetElementPtr { result: "@ + value_text(result)
            + ", base: "@ + value_text(base) + ", offset: "@ + signed_decimal(offset as int) + ", field_ty: "@ + type_text(field_ty) + " }"@,
        Instruction::FieldAddr { result, base, field_name, field_ty, offset } => "FieldAddr { result: "@ + value_text(result)
            + ", base: "@ + value_text(base) + ", field_name: "@ + str_debug_text(field_name@) + ", field_ty: "@ + type_text(field_ty)
            + ", offset: "@ + signed_decimal(offset as int) + " }"@,
        Instruction::LoadField { result, object, field_idx, field_ty, offset } => "LoadField { result: "@ + value_text(result)
            + ", object: "@ + value_text(object) + ", field_idx: "@ + decimal(field_idx as nat) + ", field_ty: "@ + type_text(field_ty)
            + ", offset: "@ + signed_decimal(offset as int) + " }"@,
        Instruction::StoreField { value, object, field_idx, field_ty, offset } => "StoreField { value: "@ + value_text(value)
            + ", object: "@ + value_text(object) + ", field_idx: "@ + decimal(field_idx as nat) + ", field_ty: "@ + type_text(field_ty)
            + ", offset: "@ + signed_decimal(offset as int) + " }"@,
        _ => Seq::empty(),
    }
}

/// Appends the `Debug` text of `v`.
fn push_value(out: &mut String, v: Value)
    ensures
        final(out)@ == old(out)@ + value_text(v),
{
    out.append("Value(");
    push_decimal(out, v.0 as u64);
    out.append(")");
    assert(out@ =~= old(out)@ + value_text(v));
}

/// Appends the `Debug` text of `t`.
fn push_type(out: &mut String, t: Type)
    ensures
        final(out)@ == old(out)@ + type_text(t),
{
    match t {
        Type::I32 => out.append("I32"),
        Type::I64 => out.append("I64"),
        Type::Ptr => out.append("Ptr"),
        Type::Bool => out.append("Bool"),
        Type::F64 => out.append("F64"),
        Type::Void => out.append("Void"),
    }
}

/// `out` followed by `, field_ty: T, offset: O }`.
fn type_offset_tail(mut out: String, field_ty: Type, offset: i64) -> (r: String)
    ensures
        r@ == out@ + ", field_ty: "@ + type_text(field_ty) + ", offset: "@ + signed_decimal(offset as int) + " }"@,
{
    out.append(", field_ty: ");
    push_type(&mut out, field_ty);
    out.append(", offset: ");
    push_signed_decimal(&mut out, offset);
    out.append(" }");
    out
}

/// The `Debug` text of an instruction this backend does not lower.
fn instruction_debug(i: &Instruction) -> (r: String)
    requires
        is_unsupported(*i),
    ensures
        r@ == instruction_text(*i),
{
    match i {
        Instruction::PtrToInt(a, b) => {
            let mut o = String::from_str("PtrToInt(");
            push_value(&mut o, *a);
            o.append(", ");
            push_value(&mut o, *b);
            o.append(")");
            o
        },
        Instruction::IntToPtr(a, b) => {
            let mut o = String::from_str("IntToPtr(");
            push_value(&mut o, *a);
            o.append(", ");
            push_value(&mut o, *b);
            o.append(")");
            o
        },
        Instruction::GetElementPtr { result, base, offset, field_ty } => {
            let mut o = String::from_str("GetElementPtr { result: ");
            push_value(&mut o, *result);
            o.append(", base: ");
            push_value(&mut o, *base);
            o.append(", offset: ");
            push_signed_decimal(&mut o, *offset);
            o.append(", field_ty: ");
            push_type(&mut o, *field_ty);
            o.append(" }");
            o
        },
        Instruction::FieldAddr { result, base, field_name, field_ty, offset } => {
            let mut o = String::from_str("FieldAddr { result: ");
            push_value(&mut o, *result);
            o.append(", base: ");
            push_value(&mut o, *base);
            o.append(", field_name: ");
            let d = debug_str(field_name.as_str());
            o.append(d.as_str());
            type_offset_tail(o, *field_ty, *offset)
        },
        Instruction::LoadField { result, object, field_idx, field_ty, offset } => {
            let mut o = String::from_str("LoadField { result: ");
            push_value(&mut o, *result);
            o.append(", object: ");
            push_value(&mut o, *object);
            o.append(", field_idx: ");
            push_decimal(&mut o, *field_idx as u64);
            type_offset_tail(o, *field_ty, *offset)
        },
        Instruction::StoreField { value, object, field_idx, field_ty, offset } => {
            let mut o = String::from_str("StoreField { value: ");
            push_value(&mut o, *value);
            o.append(", object: ");
            push_value(&mut o, *object);
            o.append(", field_idx: ");
            push_decimal(&mut o, *field_idx as u64);
            type_offset_tail(o, *field_ty, *offset)
        },
        _ => String::new(),
    }
}

/// The message for an instruction this backend does not lower.
fn unsupported_message(i: &Instruction) -> (r: String)
    requires
        is_unsupported(*i),
    ensures
        r@ == unsupported_prefix() + instruction_text(*i),
{
    let mut m = String::from_str("LLVM backend does not yet lower instruction: ");
    let d = instruction_debug(i);
    m.append(d.as_str());
    m
}

impl<'ctx> LlvmCodegen<'ctx> {
    /// `Alloca(result, ty)`: stack space for a `ty`, whose address (as
    /// `i8*`) becomes `result`.
    pub(crate) fn build_alloca_inst(&mut self, result: Value, ty: Type) -> (r: Result<(), CodegenError>)
        requires
            old(self).wf(),
        ensures
            final(self).step(old(self)),
            r is Ok ==> final(self).defined(result.0),
            r is Ok ==> final(self).trace() == old(self).trace().push(LKind::Alloca(spec_lty_of(ty))).push(LKind::PtrCast),
    {
        let t = ir_type_to_llvm(&ty);
        let name = self.generate_name("alloca");
        let a = match build_alloca(&mut self.builder, self.context, t, name.as_str()) {
            Ok(a) => a,
            Err(e) => {
                return Err(CodegenError::from_string(with_text("Failed to build alloca: ", e.as_str(), "")));
            },
        };
        let p = match build_cast_to_pointer_to(&mut self.builder, self.context, a, LTy::I8, name.as_str()) {
            Ok(p) => p,
            Err(e) => {
                return Err(CodegenError::from_string(with_text("Failed to build alloca: ", e.as_str(), "")));
            },
        };
        self.bind(result.0, ptr_basic(p));
        Ok(())
    }

    /// `Load(result, addr)`: loads a value of `result`'s IR type through
    /// `addr`, with that type's alignment.
    pub(crate) fn build_load_inst(&mut self, result: Value, addr: Value, func: &Function) -> (r: Result<(), CodegenError>)
        requires
            old(self).wf(),
        ensures
            final(self).step(old(self)),
            !old(self).defined(addr.0) ==> (r matches Err(e) && e.message@ == missing_value_msg(addr.0)),
            r is Ok ==> final(self).defined(result.0),
            r is Ok ==> final(self).trace() == old(self).trace().push(LKind::PtrCast).push(LKind::Load),
    {
        let a = self.resolve_value(addr)?;
        let p = match ptr_of(a) {
            Some(p) => p,
            None => {
                return Err(CodegenError::from_string(with_number("Load address IR Value(", addr.0 as u64, ") is not a pointer")));
            },
        };
        let ty = match func.value_types.get(&result.0) {
            Some(t) => *t,
            None => {
                return Err(CodegenError::from_string(with_number("No type information for value ", result.0 as u64, "")));
            },
        };
        let t = ir_type_to_llvm(&ty);
        let align = type_alignment(&ty);
        let name = self.generate_name("load");
        let cp = match build_cast_to_pointer_to(&mut self.builder, self.context, p, t, name.as_str()) {
            Ok(c) => c,
            Err(e) => {
                return Err(CodegenError::from_string(with_text("Failed to build load: ", e.as_str(), "")));
            },
        };
        let v = match build_load(&mut self.builder, cp, name.as_str()) {
            Ok(v) => v,
            Err(e) => {
                return Err(CodegenError::from_string(with_text("Failed to build load: ", e.as_str(), "")));
            },
        };
        set_value_alignment(v, align);
        self.bind(result.0, v);
        Ok(())
    }

    /// `Store(value, addr)`: stores `value` through `addr`, aligned for
    /// `value`'s IR type (8 bytes when it has none).
    pub(crate) fn build_store_inst(&mut self, value: Value, addr: Value, func: &Function) -> (r: Result<(), CodegenError>)
        requires
            old(self).wf(),
        ensures
            final(self).step(old(self)),
            !old(self).defined(value.0) ==> (r matches Err(e) && e.message@ == missing_value_msg(value.0)),
            old(self).defined(value.0) && !old(self).defined(addr.0) ==> (r matches Err(e) && e.message@ == missing_value_msg(addr.0)),
            r is Ok ==> final(self).trace() == old(self).trace().push(LKind::PtrCast).push(LKind::Store),
    {
        let v = self.resolve_value(value)?;
        let a = self.resolve_value(addr)?;
        let p = match ptr_of(a) {
            Some(p) => p,
            None => {
                return Err(CodegenError::from_string(with_number("Store address IR Value(", addr.0 as u64, ") is not a pointer")));
            },
        };
        let align = match func.value_types.get(&value.0) {
            Some(t) => type_alignment(t),
            None => 8,
        };
        let cp = match build_cast_to_pointer_to_type_of(&mut self.builder, p, v, "store.addr") {
            Ok(c) => c,
            Err(e) => {
                return Err(CodegenError::from_string(with_text("Failed to build store: ", e.as_str(), "")));
            },
        };
        let inst = match build_store(&mut self.builder, cp, v) {
            Ok(i) => i,
            Err(e) => {
                return Err(CodegenError::from_string(with_text("Failed to build store: ", e.as_str(), "")));
            },
        };
        set_inst_alignment(inst, align);
        Ok(())
    }

    /// `Const(result, literal)`: an `i64`, a `double` with the literal's bit
    /// pattern, an `i8` boolean, or a pointer to the string's global.
    pub(crate) fn build_const_inst(&mut self, result: Value, literal: &Literal) -> (r: Result<(), CodegenError>)
        requires
            old(self).wf(),
        ensures
            final(self).step(old(self)),
            r is Ok ==> final(self).defined(result.0),
            literal is Str ==> r is Ok,
    {
        let v: BasicValueEnum<'ctx> = match literal {
            Literal::Int(i) => int_basic(const_int(self.context, LTy::I64, *i as u64, true)),
            Literal::Float(bits) => {
                let b = const_int(self.context, LTy::I64, *bits, false);
                match build_bit_cast_to_double(&mut self.builder, self.context, b, "float.const") {
                    Ok(f) => f,
                    Err(e) => {
                        return Err(CodegenError::from_string(with_text("Failed to build constant: ", e.as_str(), "")));
                    },
                }
            },
            Literal::Bool(b) => int_basic(const_int(self.context, LTy::I8, if *b { 1 } else { 0 }, false)),
            Literal::Str(s) => self.get_or_create_string(s.as_str()),
        };
        self.bind(result.0, v);
        Ok(())
    }

    /// `Add`/`Sub`/`Mul`/`Div` of two integers (signed division) or two
    /// doubles; other operand kinds are an error.
    pub(crate) fn build_binary_op(&mut self, result: Value, op: BinaryOp, lhs: Value, rhs: Value) -> (r: Result<(), CodegenError>)
        requires
            old(self).wf(),
        ensures
            final(self).step(old(self)),
            !old(self).defined(lhs.0) ==> (r matches Err(e) && e.message@ == missing_value_msg(lhs.0)),
            old(self).defined(lhs.0) && !old(self).defined(rhs.0) ==> (r matches Err(e) && e.message@ == missing_value_msg(rhs.0)),
            r is Ok ==> final(self).defined(result.0),
            r is Ok ==> (old(self).value_map@[lhs.0] is IntValue && old(self).value_map@[rhs.0] is IntValue
                    && final(self).trace() == old(self).trace().push(int_bin_kind(op)))
                || (old(self).value_map@[lhs.0] is FloatValue && old(self).value_map@[rhs.0] is FloatValue
                    && final(self).trace() == old(self).trace().push(float_bin_kind(op))),
            old(self).defined(lhs.0) && old(self).defined(rhs.0) && !same_kind(old(self).value_map@[lhs.0], old(self).value_map@[rhs.0])
                ==> (r matches Err(e) && e.message@ == invalid_operands_msg(op)),
    {
        let l = self.resolve_value(lhs)?;
        let rv = self.resolve_value(rhs)?;
        let name = match op {
            BinaryOp::Add => self.generate_name("add"),
            BinaryOp::Sub => self.generate_name("sub"),
            BinaryOp::Mul => self.generate_name("mul"),
            BinaryOp::Div => self.generate_name("div"),
        };
        let fname = with_text(name.as_str(), "_f", "");
        let out: Result<BasicValueEnum<'ctx>, String> = match (int_of(l), int_of(rv)) {
            (Some(a), Some(b)) => {
                let x = match op {
                    BinaryOp::Add => build_int_add(&mut self.builder, a, b, name.as_str()),
                    BinaryOp::Sub => build_int_sub(&mut self.builder, a, b, name.as_str()),
                    BinaryOp::Mul => build_int_mul(&mut self.builder, a, b, name.as_str()),
                    BinaryOp::Div => build_int_signed_div(&mut self.builder, a, b, name.as_str()),
                };
                match x {
                    Ok(v) => Ok(int_basic(v)),
                    Err(e) => {
                        let p = match op {
                            BinaryOp::Add => "Add failed: ",
                            BinaryOp::Sub => "Sub failed: ",
                            BinaryOp::Mul => "Mul failed: ",
                            BinaryOp::Div => "SDiv failed: ",
                        };
                        Err(with_text(p, e.as_str(), ""))
                    },
                }
            },
            _ => match (float_of(l), float_of(rv)) {
                (Some(a), Some(b)) => {
                    let x = match op {
                        BinaryOp::Add => build_float_add(&mut self.builder, a, b, fname.as_str()),
                        BinaryOp::Sub => build_float_sub(&mut self.builder, a, b, fname.as_str()),
                        BinaryOp::Mul => build_float_mul(&mut self.builder, a, b, fname.as_str()),
                        BinaryOp::Div => build_float_div(&mut self.builder, a, b, fname.as_str()),
                    };
                    match x {
                        Ok(v) => Ok(v),
                        Err(e) => {
                            let p = match op {
                                BinaryOp::Add => "FAdd failed: ",
                                BinaryOp::Sub => "FSub failed: ",
                                BinaryOp::Mul => "FMul failed: ",
                                BinaryOp::Div => "FDiv failed: ",
                            };
                            Err(with_text(p, e.as_str(), ""))
                        },
                    }
                },
                _ => {
                    let m = match op {
                        BinaryOp::Add => "Invalid operand types for add",
                        BinaryOp::Sub => "Invalid operand types for sub",
                        BinaryOp::Mul => "Invalid operand types for mul",
                        BinaryOp::Div => "Invalid operand types for div",
                    };
                    return Err(CodegenError::from_str(m));
                },
            },
        };
        match out {
            Ok(v) => {
                self.bind(result.0, v);
                Ok(())
            },
            Err(m) => Err(CodegenError::from_string(m)),
        }
    }

    /// `Cmp(result, op, lhs, rhs)`: a signed integer or ordered
    /// floating-point comparison, giving an `i1`.
    pub(crate) fn build_cmp_inst(&mut self, result: Value, op: CmpOp, lhs: Value, rhs: Value) -> (r: Result<(), CodegenError>)
        requires
            old(self).wf(),
        ensures
            final(self).step(old(self)),
            !old(self).defined(lhs.0) ==> (r matches Err(e) && e.message@ == missing_value_msg(lhs.0)),
            old(self).defined(lhs.0) && !old(self).defined(rhs.0) ==> (r matches Err(e) && e.message@ == missing_value_msg(rhs.0)),
            r is Ok ==> final(self).defined(result.0),
            r is Ok ==> (old(self).value_map@[lhs.0] is IntValue && old(self).value_map@[rhs.0] is IntValue
                    && final(self).trace() == old(self).trace().push(LKind::ICmp(spec_int_predicate(op))))
                || (old(self).value_map@[lhs.0] is FloatValue && old(self).value_map@[rhs.0] is FloatValue
                    && final(self).trace() == old(self).trace().push(LKind::FCmp(spec_float_predicate(op)))),
            old(self).defined(lhs.0) && old(self).defined(rhs.0) && !same_kind(old(self).value_map@[lhs.0], old(self).value_map@[rhs.0])
                ==> (r matches Err(e) && e.message@ == "Invalid operand types for comparison"@),
    {
        let l = self.resolve_value(lhs)?;
        let rv = self.resolve_value(rhs)?;
        let name = self.generate_name("cmp");
        let out = match (int_of(l), int_of(rv)) {
            (Some(a), Some(b)) => match build_int_compare(&mut self.builder, cmpop_to_int_predicate(op), a, b, name.as_str()) {
                Ok(v) => Ok(v),
                Err(e) => Err(with_text("ICmp failed: ", e.as_str(), "")),
            },
            _ => match (float_of(l), float_of(rv)) {
                (Some(a), Some(b)) => {
                    let fname = with_text(name.as_str(), "_f", "");
                    match build_float_compare(&mut self.builder, cmpop_to_float_predicate(op), a, b, fname.as_str()) {
                        Ok(v) => Ok(v),
                        Err(e) => Err(with_text("FCmp failed: ", e.as_str(), "")),
                    }
                },
                _ => {
                    return Err(CodegenError::from_str("Invalid operand types for comparison"));
                },
            },
        };
        match out {
            Ok(v) => {
                self.bind(result.0, int_basic(v));
                Ok(())
            },
            Err(m) => Err(CodegenError::from_string(m)),
        }
    }

    /// `Or(result, lhs, rhs)` of two integers.
    pub(crate) fn build_or_inst(&mut self, result: Value, lhs: Value, rhs: Value) -> (r: Result<(), CodegenError>)
        requires
            old(self).wf(),
        ensures
            final(self).step(old(self)),
            !old(self).defined(lhs.0) ==> (r matches Err(e) && e.message@ == missing_value_msg(lhs.0)),
            old(self).defined(lhs.0) && !old(self).defined(rhs.0) ==> (r matches Err(e) && e.message@ == missing_value_msg(rhs.0)),
            r is Ok ==> final(self).defined(result.0),
            r is Ok ==> final(self).trace() == old(self).trace().push(LKind::Or),
    {
        let l = self.resolve_value(lhs)?;
        let rv = self.resolve_value(rhs)?;
        match (int_of(l), int_of(rv)) {
            (Some(a), Some(b)) => match build_or(&mut self.builder, a, b, "or") {
                Ok(v) => {
                    self.bind(result.0, int_basic(v));
                    Ok(())
                },
                Err(e) => Err(CodegenError::from_string(with_text("Or operation failed: ", e.as_str(), ""))),
            },
            _ => Err(CodegenError::from_str("Or operation requires integer operands")),
        }
    }

    /// `Ret(val)`: returns the value, or `i32 0` from a `main` that returns
    /// nothing, or nothing.
    pub(crate) fn build_ret_inst(&mut self, val: Option<Value>, func: &Function) -> (r: Result<(), CodegenError>)
        requires
            old(self).wf(),
        ensures
            final(self).step(old(self)),
            val matches Some(v) ==> (!old(self).defined(v.0) ==> (r matches Err(e) && e.message@ == missing_value_msg(v.0))),
    {
        let main_void = str_eq(func.name.as_str(), "main") && func.return_type == Type::Void;
        let (out, what) = match val {
            Some(v) => {
                let x = self.resolve_value(v)?;
                (build_return(&mut self.builder, Some(x)), "Return failed: ")
            },
            None => if main_void {
                let zero = int_basic(const_int(self.context, LTy::I32, 0, false));
                (build_return(&mut self.builder, Some(zero)), "main return failed: ")
            } else {
                (build_return(&mut self.builder, None), "Void return failed: ")
            },
        };
        match out {
            Ok(()) => Ok(()),
            Err(e) => Err(CodegenError::from_string(with_text(what, e.as_str(), ""))),
        }
    }

    /// `Jump(target)`: an unconditional branch to `target`'s block.
    pub(crate) fn build_jump_inst(&mut self, target: BlockRef) -> (r: Result<(), CodegenError>)
        requires
            old(self).wf(),
        ensures
            final(self).step(old(self)),
            !old(self).has_block(target.0) ==> (r matches Err(e)
                && e.message@ == target_missing_msg(target.0)),
            r is Ok ==> final(self).trace() == old(self).trace().push(LKind::Br),
    {
        let bb = match self.block_map.get(&target.0) {
            Some(b) => *b,
            None => {
                return Err(CodegenError::from_string(with_number("Target block BlockRef(", target.0 as u64, ") not found")));
            },
        };
        match build_br(&mut self.builder, bb) {
            Ok(()) => Ok(()),
            Err(e) => Err(CodegenError::from_string(with_text("Jump failed: ", e.as_str(), ""))),
        }
    }

    /// `Branch(cond, then, else)`: a conditional branch on the integer
    /// `cond`.
    pub(crate) fn build_branch_inst(&mut self, cond: Value, tl: BlockRef, el: BlockRef) -> (r: Result<(), CodegenError>)
        requires
            old(self).wf(),
        ensures
            final(self).step(old(self)),
            !old(self).defined(cond.0) ==> (r matches Err(e) && e.message@ == missing_value_msg(cond.0)),
            r is Ok ==> final(self).trace() == old(self).trace().push(LKind::CondBr),
    {
        let c = self.resolve_value(cond)?;
        let ci = match int_of(c) {
            Some(i) => i,
            None => {
                return Err(CodegenError::from_string(with_number("Branch condition IR Value(", cond.0 as u64, ") is not an integer")));
            },
        };
        let t = match self.block_map.get(&tl.0) {
            Some(b) => *b,
            None => {
                return Err(CodegenError::from_string(with_number("Then block BlockRef(", tl.0 as u64, ") not found")));
            },
        };
        let e = match self.block_map.get(&el.0) {
            Some(b) => *b,
            None => {
                return Err(CodegenError::from_string(with_number("Else block BlockRef(", el.0 as u64, ") not found")));
            },
        };
        match build_cond_br(&mut self.builder, ci, t, e) {
            Ok(()) => Ok(()),
            Err(m) => Err(CodegenError::from_string(with_text("Branch failed: ", m.as_str(), ""))),
        }
    }

    /// `Phi(dst, entries)`: keeps the entries from reachable blocks that
    /// jump or branch to the current block. With none left the block is
    /// unreachable; otherwise a phi of the first kept value's type is made
    /// for `dst`, and its incoming edges are added after the function's
    /// blocks are compiled.
    pub(crate) fn build_phi_inst(&mut self, dst: Value, entries: &Vec<(BlockRef, Value)>, func: &Function) -> (r: Result<(), CodegenError>)
        requires
            old(self).wf(),
        ensures
            final(self).step(old(self)),
            old(self).current_block() is None ==> (r matches Err(e) && e.message@ == "Current block not in block map"@),
            old(self).current_block() matches Some(l) ==> (r is Ok
                && live_entries(func.blocks@, old(self).reachable_set(), entries@, l).len() > 0
                ==> final(self).defined(dst.0)),
            old(self).current_block() matches Some(l) ==> (r is Ok ==> final(self).phis@ == (
                if live_entries(func.blocks@, old(self).reachable_set(), entries@, l).len() > 0 {
                    old(self).phis@.push(final(self).phis@.last())
                } else {
                    old(self).phis@
                })),
            old(self).current_block() matches Some(l) ==> (r is Ok
                && live_entries(func.blocks@, old(self).reachable_set(), entries@, l).len() > 0
                ==> final(self).phis@.last().block == l && final(self).phis@.last().dst == dst.0
                    && final(self).phis@.last().entries@ == live_entries(func.blocks@, old(self).reachable_set(), entries@, l)),
            old(self).current_block() matches Some(l) ==> (r is Ok
                && live_entries(func.blocks@, old(self).reachable_set(), entries@, l).len() == 0
                ==> final(self).trace() == old(self).trace().push(LKind::Unreachable)),
            old(self).current_block() matches Some(l) ==> (r is Ok
                && live_entries(func.blocks@, old(self).reachable_set(), entries@, l).len() > 0
                ==> final(self).trace() == old(self).trace().push(LKind::Phi(spec_lty_of(
                    func.value_types@[live_entries(func.blocks@, old(self).reachable_set(), entries@, l)[0].1.0])))),
            old(self).current_block() matches Some(l) ==> (
                live_entries(func.blocks@, old(self).reachable_set(), entries@, l).len() > 0
                && !func.value_types@.contains_key(live_entries(func.blocks@, old(self).reachable_set(), entries@, l)[0].1.0)
                ==> (r matches Err(e) && e.message@ == "No type for phi value"@)),
    {
        let l = match self.current {
            Some(l) => l,
            None => {
                return Err(CodegenError::from_str("Current block not in block map"));
            },
        };
        let kept = live_phi_entries(&func.blocks, &self.reach, entries, l);
        if kept.len() == 0 {
            return match build_unreachable(&mut self.builder) {
                Ok(()) => Ok(()),
                Err(e) => Err(CodegenError::from_string(with_text("Unreachable build failed: ", e.as_str(), ""))),
            };
        }
        let first = kept[0].1;
        let ty = match func.value_types.get(&first.0) {
            Some(t) => *t,
            None => {
                return Err(CodegenError::from_str("No type for phi value"));
            },
        };
        let name = with_number("phi.", dst.0 as u64, "");
        let phi = match build_phi(&mut self.builder, self.context, ir_type_to_llvm(&ty), name.as_str()) {
            Ok(p) => p,
            Err(e) => {
                return Err(CodegenError::from_string(with_text("Phi creation failed: ", e.as_str(), "")));
            },
        };
        self.phis.push(PendingPhi { block: l, dst: dst.0, phi, entries: kept });
        self.bind(dst.0, crate::llemit::phi_basic(phi));
        Ok(())
    }

    /// `Spawn`/`Ask`: a null pointer stands for the actor handle or reply.
    pub(crate) fn build_null_inst(&mut self, result: Value) -> (r: Result<(), CodegenError>)
        requires
            old(self).wf(),
        ensures
            final(self).step(old(self)),
            r is Ok,
            final(self).defined(result.0),
    {
        let p = null_pointer(self.context);
        self.bind(result.0, p);
        Ok(())
    }
}


/// Whether an instruction defines its result value whenever it is
/// compiled without error (calls, phis and instructions without a result
/// do not).
pub open spec fn always_defines(i: Instruction) -> Option<u32> {
    match i {
        Instruction::Const(r, _) => Some(r.0),
        Instruction::Add(r, _, _) => Some(r.0),
        Instruction::Sub(r, _, _) => Some(r.0),
        Instruction::Mul(r, _, _) => Some(r.0),
        Instruction::Div(r, _, _) => Some(r.0),
        Instruction::Cmp(r, _, _, _) => Some(r.0),
        Instruction::Or(r, _, _) => Some(r.0),
        Instruction::Alloca(r, _) => Some(r.0),
        Instruction::Load(r, _) => Some(r.0),
        Instruction::ConstructVariant { result, .. } => Some(result.0),
        Instruction::GetVariantTag { result, .. } => Some(result.0),
        Instruction::GetVariantField { result, .. } => Some(result.0),
        Instruction::Spawn { result, .. } => Some(result.0),
        Instruction::Ask { result, .. } => Some(result.0),
        _ => None,
    }
}

/// The values an instruction reads before it makes any LLVM call, in the
/// order it looks them up.
pub open spec fn leading_operands(i: Instruction) -> Seq<u32> {
    match i {
        Instruction::Add(_, a, b) => seq![a.0, b.0],
        Instruction::Sub(_, a, b) => seq![a.0, b.0],
        Instruction::Mul(_, a, b) => seq![a.0, b.0],
        Instruction::Div(_, a, b) => seq![a.0, b.0],
        Instruction::Cmp(_, _, a, b) => seq![a.0, b.0],
        Instruction::Or(_, a, b) => seq![a.0, b.0],
        Instruction::Load(_, a) => seq![a.0],
        Instruction::Store(v, a) => seq![v.0, a.0],
        Instruction::Ret(Some(v)) => seq![v.0],
        Instruction::Branch(c, _, _) => seq![c.0],
        Instruction::GetVariantTag { ptr, .. } => seq![ptr.0],
        Instruction::GetVariantField { ptr, .. } => seq![ptr.0],
        _ => Seq::empty(),
    }
}

/// The first of `vs` that has no LLVM value, if any.
pub open spec fn first_missing<'ctx>(cg: &LlvmCodegen<'ctx>, vs: Seq<u32>) -> Option<u32> {
    if vs.len() >= 1 && !cg.defined(vs[0]) {
        Some(vs[0])
    } else if vs.len() >= 2 && !cg.defined(vs[1]) {
        Some(vs[1])
    } else {
        None
    }
}

/// `r` is the error for the first of `args` that has no LLVM value, if one
/// has none.
pub open spec fn missing_arg_error<'ctx>(cg: &LlvmCodegen<'ctx>, args: Seq<Value>, r: Result<(), CodegenError>) -> bool {
    forall|i: int| 0 <= i < args.len() && !cg.defined(#[trigger] args[i].0) && (forall|j: int| 0 <= j < i ==> cg.defined(args[j].0))
        ==> (r matches Err(e) && e.message@ == missing_value_msg(args[i].0))
}

/// Whether an instruction is one this backend reports as not lowered.
pub open spec fn is_unsupported(i: Instruction) -> bool {
    match i {
        Instruction::LoadField { .. } | Instruction::StoreField { .. } | Instruction::PtrToInt(_, _)
        | Instruction::IntToPtr(_, _) | Instruction::GetElementPtr { .. } | Instruction::FieldAddr { .. } => true,
        _ => false,
    }
}

/// The message for a jump to a block that has no LLVM block.
pub open spec fn target_missing_msg(l: u32) -> Seq<char> {
    "Target block BlockRef("@ + decimal(l as nat) + ") not found"@
}

/// The message for a call through a function reference the module does not
/// name.
pub open spec fn unknown_func_ref_msg(f: u32) -> Seq<char> {
    "Unknown FuncRef("@ + decimal(f as nat) + ") in call instruction"@
}

/// The byte offset of payload field `i` in a variant: the tag takes the
/// first 8 bytes, and each field 8 bytes after it.
pub open spec fn variant_field_offset(i: int) -> int {
    (i + 1) * 8
}

/// The offsets at which a variant with `n` payload fields stores them, in
/// field order.
pub open spec fn field_offsets(n: int) -> Seq<int>
    decreases n,
{
    if n <= 0 {
        Seq::empty()
    } else {
        field_offsets(n - 1).push(variant_field_offset(n - 1))
    }
}

/// Reading payload field `i` reads where constructing the variant stored
/// payload field `i`.
pub proof fn law_variant_field_read_where_stored(n: int, i: int)
    requires
        0 <= i < n,
    ensures
        field_offsets(n).len() == n,
        field_offsets(n)[i] == variant_field_offset(i),
    decreases n,
{
    if i < n - 1 {
        law_variant_field_read_where_stored(n - 1, i);
    } else {
        lemma_field_offsets_len(n - 1);
    }
}

/// There are as many field offsets as fields.
proof fn lemma_field_offsets_len(n: int)
    requires
        0 <= n,
    ensures
        field_offsets(n).len() == n,
    decreases n,
{
    if n > 0 {
        lemma_field_offsets_len(n - 1);
    }
}

/// A payload field never overlaps the tag, which fills the variant's first
/// 8 bytes: its offset is at least 8.
pub proof fn law_variant_field_clear_of_tag(i: int)
    requires
        0 <= i,
    ensures
        variant_field_offset(i) >= 8,
{
}

/// Distinct payload fields occupy disjoint 8-byte slots, in field order.
pub proof fn law_variant_fields_disjoint(i: int, j: int)
    requires
        0 <= i < j,
    ensures
        variant_field_offset(i) + 8 <= variant_field_offset(j),
{
}

impl<'ctx> LlvmCodegen<'ctx> {
    /// `p` moved on by `offset` bytes (through `i64` arithmetic).
    pub(crate) fn offset_pointer(&mut self, p: inkwell::values::PointerValue<'ctx>, offset: u64, name: &str) -> (r: Result<inkwell::values::PointerValue<'ctx>, CodegenError>)
        requires
            old(self).wf(),
        ensures
            final(self).step(old(self)),
            final(self).same_but_builder(old(self)),
            r is Ok ==> final(self).offsets() == old(self).offsets().push(offset as int),
            r is Err ==> final(self).offsets() == old(self).offsets(),
    {
        let a = match build_ptr_to_int(&mut self.builder, self.context, p, name) {
            Ok(a) => a,
            Err(e) => {
                return Err(CodegenError::from_string(with_text("GEP failed: ", e.as_str(), "")));
            },
        };
        let o = const_int(self.context, LTy::I64, offset, false);
        let s = match build_int_add(&mut self.builder, a, o, name) {
            Ok(s) => s,
            Err(e) => {
                return Err(CodegenError::from_string(with_text("GEP failed: ", e.as_str(), "")));
            },
        };
        match build_int_to_ptr(&mut self.builder, self.context, s, name) {
            Ok(q) => {
                self.offsets = Ghost(self.offsets@.push(offset as int));
                Ok(q)
            },
            Err(e) => Err(CodegenError::from_string(with_text("GEP failed: ", e.as_str(), ""))),
        }
    }

    /// `ConstructVariant`: allocates `(1 + payload.len()) * 8` bytes with
    /// `malloc`, stores the tag at offset 0 and payload field `i` at offset
    /// `(i + 1) * 8`, and makes `result` the allocation.
    pub(crate) fn build_construct_variant(&mut self, result: Value, tag: i64, payload: &Vec<Value>) -> (r: Result<(), CodegenError>)
        requires
            old(self).wf(),
        ensures
            final(self).step(old(self)),
            r is Ok ==> final(self).defined(result.0),
            r is Ok ==> forall|i: int| 0 <= i < payload@.len() ==> old(self).defined(#[trigger] payload@[i].0),
            payload@.len() >= 0x1000_0000_0000_0000 ==> (r matches Err(e) && e.message@ == "variant payload too long"@),
            r is Ok ==> final(self).offsets() == old(self).offsets() + field_offsets(payload@.len() as int),
    {
        let n = payload.len();
        if n as u64 >= 0x1000_0000_0000_0000u64 {
            return Err(CodegenError::from_str("variant payload too long"));
        }
        let size: u64 = (n as u64 + 1) * 8;
        let size_val = const_int(self.context, LTy::I64, size, false);
        let malloc = self.get_or_declare(Runtime::Malloc);
        let call = match build_call(&mut self.builder, malloc, &vec![int_basic(size_val)], "variant_alloc") {
            Ok(c) => c,
            Err(e) => {
                return Err(CodegenError::from_string(with_text("malloc call failed: ", e.as_str(), "")));
            },
        };
        let raw = match call {
            Some(v) => v,
            None => {
                return Err(CodegenError::from_str("malloc returned void"));
            },
        };
        let ptr = match ptr_of(raw) {
            Some(p) => p,
            None => {
                return Err(CodegenError::from_str("malloc returned a non-pointer value"));
            },
        };
        let tag_val = int_basic(const_int(self.context, LTy::I64, tag as u64, false));
        let tag_ptr = match build_cast_to_pointer_to(&mut self.builder, self.context, ptr, LTy::I64, "tag_ptr") {
            Ok(p) => p,
            Err(e) => {
                return Err(CodegenError::from_string(with_text("Store tag failed: ", e.as_str(), "")));
            },
        };
        match build_store(&mut self.builder, tag_ptr, tag_val) {
            Ok(_) => {},
            Err(e) => {
                return Err(CodegenError::from_string(with_text("Store tag failed: ", e.as_str(), "")));
            },
        }
        let ghost o0 = self.offsets();
        assert(o0 + field_offsets(0) =~= o0);
        for i in 0..n
            invariant
                n == payload@.len(),
                (n as u64) < 0x1000_0000_0000_0000u64,
                self.step(old(self)),
                self.value_map == old(self).value_map,
                forall|q: int| 0 <= q < i ==> old(self).defined(#[trigger] payload@[q].0),
                self.offsets() == o0 + field_offsets(i as int),
        {
            let field = self.resolve_value(payload[i])?;
            let offset: u64 = (i as u64 + 1) * 8;
            let name = with_number("field_ptr.", i as u64, "");
            let fp = self.offset_pointer(ptr, offset, name.as_str())?;
            assert(o0 + field_offsets(i + 1) =~= (o0 + field_offsets(i as int)).push(offset as int));
            let cast_name = with_number("field_cast.", i as u64, "");
            let cp = match build_cast_to_pointer_to_type_of(&mut self.builder, fp, field, cast_name.as_str()) {
                Ok(p) => p,
                Err(e) => {
                    return Err(CodegenError::from_string(with_text("Pointer cast failed: ", e.as_str(), "")));
                },
            };
            match build_store(&mut self.builder, cp, field) {
                Ok(_) => {},
                Err(e) => {
                    return Err(CodegenError::from_string(with_text("Store field failed: ", e.as_str(), "")));
                },
            }
        }
        self.bind(result.0, ptr_basic(ptr));
        Ok(())
    }

    /// `GetVariantTag`: loads the `i64` at offset 0 of the variant.
    pub(crate) fn build_get_variant_tag(&mut self, result: Value, ptr: Value) -> (r: Result<(), CodegenError>)
        requires
            old(self).wf(),
        ensures
            final(self).step(old(self)),
            !old(self).defined(ptr.0) ==> (r matches Err(e) && e.message@ == missing_value_msg(ptr.0)),
            r is Ok ==> final(self).defined(result.0),
            final(self).offsets() == old(self).offsets(),
    {
        let v = self.resolve_value(ptr)?;
        let p = match ptr_of(v) {
            Some(p) => p,
            None => {
                return Err(CodegenError::from_string(with_number("Variant IR Value(", ptr.0 as u64, ") is not a pointer")));
            },
        };
        let name = with_number("tag.", result.0 as u64, "");
        let cp = match build_cast_to_pointer_to(&mut self.builder, self.context, p, LTy::I64, name.as_str()) {
            Ok(c) => c,
            Err(e) => {
                return Err(CodegenError::from_string(with_text("Load tag failed: ", e.as_str(), "")));
            },
        };
        match build_load(&mut self.builder, cp, name.as_str()) {
            Ok(x) => {
                self.bind(result.0, x);
                Ok(())
            },
            Err(e) => Err(CodegenError::from_string(with_text("Load tag failed: ", e.as_str(), ""))),
        }
    }

    /// `GetVariantField`: loads the `i64` at offset `(index + 1) * 8` of the
    /// variant.
    pub(crate) fn build_get_variant_field(&mut self, result: Value, ptr: Value, index: u32) -> (r: Result<(), CodegenError>)
        requires
            old(self).wf(),
        ensures
            final(self).step(old(self)),
            !old(self).defined(ptr.0) ==> (r matches Err(e) && e.message@ == missing_value_msg(ptr.0)),
            r is Ok ==> final(self).defined(result.0),
            r is Ok ==> final(self).offsets() == old(self).offsets().push(variant_field_offset(index as int)),
    {
        let v = self.resolve_value(ptr)?;
        let p = match ptr_of(v) {
            Some(p) => p,
            None => {
                return Err(CodegenError::from_string(with_number("Variant IR Value(", ptr.0 as u64, ") is not a pointer")));
            },
        };
        let offset: u64 = (index as u64 + 1) * 8;
        let name = with_number("field_ptr.", result.0 as u64, "");
        let fp = self.offset_pointer(p, offset, name.as_str())?;
        let lname = with_number("field.", result.0 as u64, "");
        let cp = match build_cast_to_pointer_to(&mut self.builder, self.context, fp, LTy::I64, lname.as_str()) {
            Ok(c) => c,
            Err(e) => {
                return Err(CodegenError::from_string(with_text("Load field failed: ", e.as_str(), "")));
            },
        };
        match build_load(&mut self.builder, cp, lname.as_str()) {
            Ok(x) => {
                self.bind(result.0, x);
                Ok(())
            },
            Err(e) => Err(CodegenError::from_string(with_text("Load field failed: ", e.as_str(), ""))),
        }
    }

    /// `Call(result, f, args)`: a built-in is lowered in place; otherwise the
    /// module's function of that name is called with the arguments' values,
    /// and its value, if it returns one, becomes `result`.
    pub(crate) fn build_call_inst(&mut self, result: Value, fref: u32, args: &Vec<Value>, func_refs: &HashMap<u32, String>) -> (r: Result<(), CodegenError>)
        requires
            old(self).wf(),
        ensures
            final(self).step(old(self)),
            !func_refs@.contains_key(fref) ==> (r matches Err(e) && e.message@ == unknown_func_ref_msg(fref)),
            func_refs@.contains_key(fref) ==> (spec_builtin_of(func_refs@[fref]@) matches Some(b) ==> (args@.len() < spec_builtin_arity(b)
                ==> (r matches Err(e) && e.message@ == arity_msg(func_refs@[fref]@)))),
            func_refs@.contains_key(fref) ==> (spec_builtin_of(func_refs@[fref]@) matches Some(b) ==> (args@.len() >= spec_builtin_arity(b)
                ==> (first_missing(old(self), builtin_leading(b, args@)) matches Some(v)
                ==> (r matches Err(e) && e.message@ == missing_value_msg(v))))),
            func_refs@.contains_key(fref) && spec_builtin_of(func_refs@[fref]@) is None && old(self).is_declared(func_refs@[fref]@)
                ==> missing_arg_error(old(self), args@, r),
    {
        let name = match func_refs.get(&fref) {
            Some(n) => n.as_str(),
            None => {
                return Err(CodegenError::from_string(with_number("Unknown FuncRef(", fref as u64, ") in call instruction")));
            },
        };
        let lowered = self.lower_builtin_call(name, result, args);
        if let Ok(true) = lowered {
            return Ok(());
        }
        lowered?;
        let callee = match find_string(&self.fn_names, name) {
            Some(k) => self.funcs[k],
            None => match get_function(&self.module, name) {
                Some(f) => f,
                None => {
                    return Err(CodegenError::from_string(with_text("Function ", name, " not found")));
                },
            },
        };
        let mut vals: Vec<BasicValueEnum<'ctx>> = Vec::new();
        let n = args.len();
        for i in 0..n
            invariant
                n == args@.len(),
                *self == *old(self),
                self.step(old(self)),
                func_refs@.contains_key(fref),
                spec_builtin_of(func_refs@[fref]@) is None,
                forall|j: int| 0 <= j < i ==> old(self).defined(#[trigger] args@[j].0),
        {
            let v = self.resolve_value(args[i])?;
            vals.push(v);
        }
        let cname = with_number("call.", result.0 as u64, "");
        match build_call(&mut self.builder, callee, &vals, cname.as_str()) {
            Ok(Some(v)) => {
                self.bind(result.0, v);
                Ok(())
            },
            Ok(None) => Ok(()),
            Err(e) => Err(CodegenError::from_string(with_text("Call failed: ", e.as_str(), ""))),
        }
    }

    /// Compiles one IR instruction at the builder's position.
    pub(crate) fn compile_instruction(&mut self, instr: &Instruction, func: &Function, func_refs: &HashMap<u32, String>) -> (r: Result<(), CodegenError>)
        requires
            old(self).wf(),
        ensures
            final(self).step(old(self)),
            first_missing(old(self), leading_operands(*instr)) matches Some(v) ==> (r matches Err(e) && e.message@ == missing_value_msg(v)),
            always_defines(*instr) matches Some(v) ==> (r is Ok ==> final(self).defined(v)),
            is_unsupported(*instr) ==> (r matches Err(e) && e.message@ == unsupported_prefix() + instruction_text(*instr)),
            is_unsupported(*instr) ==> *final(self) == *old(self),
            instr matches Instruction::Jump(t) ==> (!old(self).has_block(t.0) ==> (r matches Err(e)
                && e.message@ == target_missing_msg(t.0))),
            instr matches Instruction::Call(_, f, _) ==> (!func_refs@.contains_key(f.0) ==> (r matches Err(e)
                && e.message@ == unknown_func_ref_msg(f.0))),
            instr matches Instruction::Phi(_, _) ==> (old(self).current_block() is None ==> (r matches Err(e)
                && e.message@ == "Current block not in block map"@)),
            instr matches Instruction::Call(_, f, args) ==> (func_refs@.contains_key(f.0) ==> (
                spec_builtin_of(func_refs@[f.0]@) matches Some(b) ==> (args@.len() < spec_builtin_arity(b)
                ==> (r matches Err(e) && e.message@ == arity_msg(func_refs@[f.0]@))))),
            instr matches Instruction::Call(_, f, args) ==> (func_refs@.contains_key(f.0) ==> (
                spec_builtin_of(func_refs@[f.0]@) matches Some(b) ==> (args@.len() >= spec_builtin_arity(b)
                ==> (first_missing(old(self), builtin_leading(b, args@)) matches Some(v)
                ==> (r matches Err(e) && e.message@ == missing_value_msg(v)))))),
            instr matches Instruction::Call(_, f, args) ==> (func_refs@.contains_key(f.0)
                && spec_builtin_of(func_refs@[f.0]@) is None && old(self).is_declared(func_refs@[f.0]@)
                ==> missing_arg_error(old(self), args@, r)),
            r is Ok ==> inst_trace(*instr, old(self).trace(), final(self).trace()),
    {
        match instr {
            Instruction::Alloca(result, ty) => self.build_alloca_inst(*result, *ty),
            Instruction::Load(result, addr) => self.build_load_inst(*result, *addr, func),
            Instruction::Store(value, addr) => self.build_store_inst(*value, *addr, func),
            Instruction::Const(result, literal) => self.build_const_inst(*result, literal),
            Instruction::Add(result, lhs, rhs) => self.build_binary_op(*result, BinaryOp::Add, *lhs, *rhs),
            Instruction::Sub(result, lhs, rhs) => self.build_binary_op(*result, BinaryOp::Sub, *lhs, *rhs),
            Instruction::Mul(result, lhs, rhs) => self.build_binary_op(*result, BinaryOp::Mul, *lhs, *rhs),
            Instruction::Div(result, lhs, rhs) => self.build_binary_op(*result, BinaryOp::Div, *lhs, *rhs),
            Instruction::Cmp(result, op, lhs, rhs) => self.build_cmp_inst(*result, *op, *lhs, *rhs),
            Instruction::Or(result, lhs, rhs) => self.build_or_inst(*result, *lhs, *rhs),
            Instruction::Ret(val) => self.build_ret_inst(*val, func),
            Instruction::Jump(target) => self.build_jump_inst(*target),
            Instruction::Branch(cond, tl, el) => self.build_branch_inst(*cond, *tl, *el),
            Instruction::Phi(dst, entries) => self.build_phi_inst(*dst, entries, func),
            Instruction::Call(result, fref, args) => self.build_call_inst(*result, fref.0, args, func_refs),
            Instruction::ConstructVariant { result, tag, payload } => self.build_construct_variant(*result, *tag, payload),
            Instruction::GetVariantTag { result, ptr } => self.build_get_variant_tag(*result, *ptr),
            Instruction::GetVariantField { result, ptr, index } => self.build_get_variant_field(*result, *ptr, *index),
            Instruction::Spawn { result, .. } => self.build_null_inst(*result),
            Instruction::Send { .. } => Ok(()),
            Instruction::Ask { result, .. } => self.build_null_inst(*result),
            Instruction::ActorInit { .. } => Ok(()),
            _ => Err(CodegenError::from_string(unsupported_message(instr))),
        }
    }
}

} // verus!
