//! Lowering of the non-call IR instructions for the Cranelift backend.

use vstd::prelude::*;
use std::collections::HashMap;
use crate::clplan::{
    arith_op, declared_or, fcond_of, icond_of, not_found_msg, spec_fcond, spec_icond, Arith,
    ClPlanner,
};
use crate::ir::{CmpOp, Literal, Type, Value};
use crate::mach::{
    bits, decl_index, find_decl, interned_index, mty_of, spec_bits, spec_mty_of, Conv, Decl,
    IOp, MTy, Op, Span, StringTable,
};
use crate::text::starts_with;

verus! {

broadcast use vstd::std_specs::hash::group_hash_axioms;

/// The name a constant integer refers to when it is the index of a closure
/// function (a function reference whose name starts with `__closure_`).
pub open spec fn closure_name(frefs: Map<u32, String>, n: i64) -> Option<Seq<char>> {
    let k = n as u32;
    if frefs.contains_key(k) && "__closure_"@.len() <= frefs[k]@.len()
        && frefs[k]@.subrange(0, "__closure_"@.len() as int) == "__closure_"@ {
        Some(frefs[k]@)
    } else {
        None
    }
}

/// Byte size of a machine type.
pub open spec fn spec_bytes_of(t: MTy) -> u32 {
    match t {
        MTy::I8 => 1,
        MTy::I32 => 4,
        MTy::I64 => 8,
        MTy::F64 => 8,
    }
}

/// Stack-slot alignment (as a power of two) for a slot of `size` bytes.
pub open spec fn spec_align_shift(size: u32) -> u8 {
    if size == 8 {
        3
    } else if size == 4 {
        2
    } else {
        0
    }
}

/// The byte offset of payload field `i` of a variant: after the tag.
pub open spec fn field_offset(i: int) -> i32 {
    ((i + 1) * 8) as i32
}

/// The sum of a byte sequence.
pub open spec fn byte_sum(b: Seq<u8>) -> int
    decreases b.len(),
{
    if b.len() == 0 {
        0
    } else {
        byte_sum(b.drop_last()) + b.last()
    }
}

/// The message type number derived from a message name's bytes.
pub open spec fn msg_type_id(b: Seq<u8>) -> int {
    (byte_sum(b) + b.len() * 31) % 1000 + 1
}

/// The operations (and slot types) that store variant payload fields held in
/// `slots` (of types `tys`) into the object at `ptr`, starting with new slot
/// number `next`: a float field is bit-cast to an integer and a byte field
/// zero-extended before its store at `field_offset`.
pub open spec fn field_stores(slots: Seq<usize>, tys: Seq<MTy>, ptr: usize, next: int) -> (Seq<Op>, Seq<MTy>)
    decreases slots.len(),
{
    if slots.len() == 0 {
        (Seq::empty(), Seq::empty())
    } else {
        let (po, pt) = field_stores(slots.drop_last(), tys.drop_last(), ptr, next);
        let i = slots.len() - 1;
        let s = slots.last();
        let t = tys.last();
        let n = (next + pt.len()) as usize;
        let off = field_offset(i);
        if t == MTy::F64 {
            (po + seq![Op::Convert { dst: n, conv: Conv::Bitcast, ty: MTy::I64, a: s }, Op::Store { val: n, addr: ptr, off }], pt.push(MTy::I64))
        } else if t == MTy::I8 {
            (po + seq![Op::Convert { dst: n, conv: Conv::UExtend, ty: MTy::I64, a: s }, Op::Store { val: n, addr: ptr, off }], pt.push(MTy::I64))
        } else {
            (po.push(Op::Store { val: s, addr: ptr, off }), pt)
        }
    }
}

/// The slot of each value, when all of them have one.
pub open spec fn slots_of(p: ClPlanner, vals: Seq<Value>) -> Option<Seq<usize>>
    decreases vals.len(),
{
    if vals.len() == 0 {
        Some(Seq::empty())
    } else {
        match (slots_of(p, vals.drop_last()), p.slot(vals.last())) {
            (Some(s), Some(x)) => Some(s.push(x)),
            _ => None,
        }
    }
}

/// Resolved values keep their number.
pub proof fn lemma_slots_len(p: ClPlanner, vals: Seq<Value>)
    ensures
        slots_of(p, vals) matches Some(s) ==> s.len() == vals.len(),
    decreases vals.len(),
{
    if vals.len() > 0 {
        lemma_slots_len(p, vals.drop_last());
    }
}

/// The first value of `vals` that has no slot.
pub open spec fn first_missing(p: ClPlanner, vals: Seq<Value>) -> Value
    decreases vals.len(),
{
    if vals.len() == 0 {
        Value(0)
    } else if slots_of(p, vals.drop_last()) is None {
        first_missing(p, vals.drop_last())
    } else {
        vals.last()
    }
}

pub fn bytes_of(t: MTy) -> (r: u32)
    ensures
        r == spec_bytes_of(t),
{
    match t {
        MTy::I8 => 1,
        MTy::I32 => 4,
        MTy::I64 => 8,
        MTy::F64 => 8,
    }
}

/// What lowering `Const(dst, lit)` does to the planner and the string table.
pub closed spec fn const_effect(pre: ClPlanner, post: ClPlanner, strings_pre: StringTable, strings_post: StringTable, decls: Vec<Decl>, frefs: HashMap<u32, String>, vt: HashMap<u32, Type>, dst: Value, lit: Literal) -> bool {
    &&& post.wf()
    &&& post.same_tables(&pre)
    &&& post.vmap@ == pre.vmap@.insert(dst.0, pre.types@.len() as usize)
    &&& ({
                    let n = pre.types@.len() as usize;
                    match lit {
                        Literal::Int(k) => match closure_name(frefs@, k) {
                            Some(nm) => match decl_index(decls@, nm) {
                                Some(fi) => post.appended(&pre, seq![Op::FuncAddr { dst: n, func: fi }], seq![MTy::I64]),
                                None => post.appended(&pre, seq![Op::IConst { dst: n, ty: MTy::I64, imm: k }], seq![MTy::I64]),
                            },
                            None => post.appended(&pre, seq![Op::IConst { dst: n, ty: declared_or(vt@, dst, MTy::I64), imm: k }], seq![declared_or(vt@, dst, MTy::I64)]),
                        },
                        Literal::Float(b) => post.appended(&pre, seq![Op::F64Const { dst: n, bits: b }], seq![MTy::F64]),
                        Literal::Bool(b) => post.appended(&pre, seq![Op::IConst { dst: n, ty: MTy::I8, imm: if b { 1 } else { 0 } }], seq![MTy::I8]),
                        Literal::Str(s) => post.appended(&pre, seq![Op::DataAddr { dst: n, data: interned_index(strings_pre.entries@, s@) }], seq![MTy::I64])
                            && strings_post.entries@.len() >= strings_pre.entries@.len(),
                    }
                })
    &&& match lit {
                    Literal::Str(s) => true,
                    _ => strings_post.entries@ == strings_pre.entries@,
                }
}

/// What lowering an arithmetic instruction does to the planner, and its result.
pub closed spec fn arith_effect(pre: ClPlanner, post: ClPlanner, k: Arith, dst: Value, lhs: Value, rhs: Value, r: Result<(), String>) -> bool {
    &&& post.wf()
    &&& post.same_tables(&pre)
    &&& match (pre.slot(lhs), pre.slot(rhs)) {
                    (Some(a), Some(b)) => r is Ok && {
                        let n = pre.types@.len() as usize;
                        let ta = pre.ty(a);
                        &&& post.appended(&pre, seq![arith_op(k, ta, n, a, b)], seq![ta])
                        &&& post.vmap@ == pre.vmap@.insert(dst.0, n)
                    },
                    (None, _) => r matches Err(m) && m@ == not_found_msg(lhs.0),
                    (Some(_), None) => r matches Err(m) && m@ == not_found_msg(rhs.0),
                }
}

/// What lowering `Or` does to the planner, and its result.
pub closed spec fn or_effect(pre: ClPlanner, post: ClPlanner, dst: Value, lhs: Value, rhs: Value, r: Result<(), String>) -> bool {
    &&& post.wf()
    &&& post.same_tables(&pre)
    &&& match (pre.slot(lhs), pre.slot(rhs)) {
                    (Some(a), Some(b)) => r is Ok && {
                        let n = pre.types@.len() as usize;
                        &&& post.appended(&pre, seq![Op::IBin { dst: n, op: IOp::Or, a, b }], seq![pre.ty(a)])
                        &&& post.vmap@ == pre.vmap@.insert(dst.0, n)
                    },
                    (None, _) => r matches Err(m) && m@ == not_found_msg(lhs.0),
                    (Some(_), None) => r matches Err(m) && m@ == not_found_msg(rhs.0),
                }
}

/// What lowering `Cmp` does to the planner, and its result.
pub closed spec fn compare_effect(pre: ClPlanner, post: ClPlanner, dst: Value, op: CmpOp, lhs: Value, rhs: Value, r: Result<(), String>) -> bool {
    &&& post.wf()
    &&& post.same_tables(&pre)
    &&& match (pre.slot(lhs), pre.slot(rhs)) {
                    (Some(a), Some(b)) => r is Ok && {
                        let n = pre.next();
                        let ta = pre.ty(a);
                        let tb = pre.ty(b);
                        if ta == MTy::F64 || tb == MTy::F64 {
                            &&& post.appended(&pre, seq![Op::FCmp { dst: n, cc: spec_fcond(op), a, b }], seq![MTy::I8])
                            &&& post.vmap@ == pre.vmap@.insert(dst.0, n)
                        } else if ta == tb {
                            &&& post.appended(&pre, seq![Op::ICmp { dst: n, cc: spec_icond(op), a, b }], seq![MTy::I8])
                            &&& post.vmap@ == pre.vmap@.insert(dst.0, n)
                        } else if spec_bits(ta) >= spec_bits(tb) {
                            &&& post.appended(&pre, seq![
                                Op::Convert { dst: n, conv: Conv::UExtend, ty: ta, a: b },
                                Op::ICmp { dst: pre.next_k(1), cc: spec_icond(op), a, b: n },
                            ], seq![ta, MTy::I8])
                            &&& post.vmap@ == pre.vmap@.insert(dst.0, pre.next_k(1))
                        } else {
                            &&& post.appended(&pre, seq![
                                Op::Convert { dst: n, conv: Conv::UExtend, ty: tb, a },
                                Op::ICmp { dst: pre.next_k(1), cc: spec_icond(op), a: n, b },
                            ], seq![tb, MTy::I8])
                            &&& post.vmap@ == pre.vmap@.insert(dst.0, pre.next_k(1))
                        }
                    },
                    (None, _) => r matches Err(m) && m@ == not_found_msg(lhs.0),
                    (Some(_), None) => r matches Err(m) && m@ == not_found_msg(rhs.0),
                }
}

impl ClPlanner {
    /// The slots of `vals`, in order, or the error for the first value that
    /// has none.
    pub fn resolve_all(&self, vals: &Vec<Value>) -> (r: Result<Vec<usize>, String>)
        requires
            self.wf(),
        ensures
            match r {
                Ok(s) => slots_of(*self, vals@) == Some(s@) && forall|i: int| 0 <= i < s@.len() ==> s@[i] < self.types@.len(),
                Err(m) => slots_of(*self, vals@) is None && m@ == not_found_msg(first_missing(*self, vals@).0),
            },
    {
        let mut out: Vec<usize> = Vec::new();
        let n = vals.len();
        for i in 0..n
            invariant
                n == vals@.len(),
                self.wf(),
                slots_of(*self, vals@.subrange(0, i as int)) == Some(out@),
                forall|j: int| 0 <= j < out@.len() ==> out@[j] < self.types@.len(),
        {
            assert(vals@.subrange(0, i + 1).drop_last() =~= vals@.subrange(0, i as int));
            match self.resolve(vals[i]) {
                Ok(s) => {
                    out.push(s);
                },
                Err(e) => {
                    proof {
                        lemma_missing_prefix(*self, vals@, i as int);
                    }
                    return Err(e);
                },
            }
        }
        assert(vals@.subrange(0, n as int) =~= vals@);
        Ok(out)
    }

    /// Lowers `Const(dst, literal)`.
    pub fn lower_const(
        &mut self,
        strings: &mut StringTable,
        decls: &Vec<Decl>,
        frefs: &HashMap<u32, String>,
        vt: &HashMap<u32, Type>,
        dst: Value,
        lit: &Literal,
    )
        requires
            old(self).wf(),
        ensures
        old(self).ops@.is_prefix_of(final(self).ops@),
        final(self).wf(),
        final(self).block_params@.len() >= old(self).block_params@.len(),
        const_effect(*old(self), *final(self), *old(strings), *final(strings), *decls, *frefs, *vt, dst, *lit),

    {
        let n = self.types.len();
        let slot = match lit {
            Literal::Int(k) => {
                #[verifier::truncate]
                let key = *k as u32;
                let mut closure: Option<Option<usize>> = None;
                match frefs.get(&key) {
                    Some(name) => {
                        if starts_with(name.as_str(), "__closure_") {
                            closure = Some(find_decl(decls, name.as_str()));
                        }
                    },
                    None => {},
                }
                match closure {
                    Some(Some(fi)) => self.def(MTy::I64, Op::FuncAddr { dst: n, func: fi }),
                    Some(None) => self.iconst(MTy::I64, *k),
                    None => {
                        let ty = match vt.get(&dst.0) {
                            Some(t) => mty_of(*t),
                            None => MTy::I64,
                        };
                        self.iconst(ty, *k)
                    },
                }
            },
            Literal::Float(b) => self.def(MTy::F64, Op::F64Const { dst: n, bits: *b }),
            Literal::Bool(b) => self.iconst(MTy::I8, if *b { 1 } else { 0 }),
            Literal::Str(s) => {
                let d = strings.intern(s.as_str());
                self.data_addr(d)
            },
        };
        self.bind(dst, slot);
    }

    /// Lowers `Add`/`Sub`/`Mul`/`Div`: floating-point when the left operand
    /// is `F64`, integer (signed division) otherwise.
    pub fn lower_arith(&mut self, k: Arith, dst: Value, lhs: Value, rhs: Value) -> (r: Result<(), String>)
        requires
            old(self).wf(),
        ensures
        r is Ok ==> old(self).ops@.is_prefix_of(final(self).ops@),
        final(self).wf(),
        final(self).block_params@.len() >= old(self).block_params@.len(),
        arith_effect(*old(self), *final(self), k, dst, lhs, rhs, r),

    {
        let a = self.resolve(lhs)?;
        let b = self.resolve(rhs)?;
        let ta = self.types[a];
        let s = if ta == MTy::F64 {
            let op = match k {
                Arith::Add => crate::mach::FOp::Add,
                Arith::Sub => crate::mach::FOp::Sub,
                Arith::Mul => crate::mach::FOp::Mul,
                Arith::Div => crate::mach::FOp::Div,
            };
            self.fbin(op, a, b)
        } else {
            let op = match k {
                Arith::Add => IOp::Add,
                Arith::Sub => IOp::Sub,
                Arith::Mul => IOp::Mul,
                Arith::Div => IOp::SDiv,
            };
            self.ibin(op, a, b)
        };
        self.bind(dst, s);
        Ok(())
    }

    /// Lowers `Or`: a bitwise or of the two operands.
    pub fn lower_or(&mut self, dst: Value, lhs: Value, rhs: Value) -> (r: Result<(), String>)
        requires
            old(self).wf(),
        ensures
        r is Ok ==> old(self).ops@.is_prefix_of(final(self).ops@),
        final(self).wf(),
        final(self).block_params@.len() >= old(self).block_params@.len(),
        or_effect(*old(self), *final(self), dst, lhs, rhs, r),

    {
        let a = self.resolve(lhs)?;
        let b = self.resolve(rhs)?;
        let s = self.ibin(IOp::Or, a, b);
        self.bind(dst, s);
        Ok(())
    }

    /// Lowers `Cmp`: a floating-point comparison when either operand is
    /// `F64`; otherwise an integer comparison after zero-extending the
    /// narrower operand to the wider width.
    pub fn lower_compare(&mut self, dst: Value, op: CmpOp, lhs: Value, rhs: Value) -> (r: Result<(), String>)
        requires
            old(self).wf(),
        ensures
        r is Ok ==> old(self).ops@.is_prefix_of(final(self).ops@),
        final(self).wf(),
        final(self).block_params@.len() >= old(self).block_params@.len(),
        compare_effect(*old(self), *final(self), dst, op, lhs, rhs, r),

    {
        let a = self.resolve(lhs)?;
        let b = self.resolve(rhs)?;
        let ta = self.types[a];
        let tb = self.types[b];
        let s = if ta == MTy::F64 || tb == MTy::F64 {
            let n = self.types.len();
            self.def(MTy::I8, Op::FCmp { dst: n, cc: fcond_of(op), a, b })
        } else if ta == tb {
            self.icmp(icond_of(op), a, b)
        } else if bits(ta) >= bits(tb) {
            let b2 = self.convert(Conv::UExtend, ta, b);
            let c = self.icmp(icond_of(op), a, b2);
            assert(self.ops@ =~= old(self).ops@ + seq![
                Op::Convert { dst: b2, conv: Conv::UExtend, ty: ta, a: b },
                Op::ICmp { dst: c, cc: spec_icond(op), a, b: b2 },
            ]);
            assert(self.types@ =~= old(self).types@ + seq![ta, MTy::I8]);
            c
        } else {
            let a2 = self.convert(Conv::UExtend, tb, a);
            let c = self.icmp(icond_of(op), a2, b);
            assert(self.ops@ =~= old(self).ops@ + seq![
                Op::Convert { dst: a2, conv: Conv::UExtend, ty: tb, a },
                Op::ICmp { dst: c, cc: spec_icond(op), a: a2, b },
            ]);
            assert(self.types@ =~= old(self).types@ + seq![tb, MTy::I8]);
            c
        };
        self.bind(dst, s);
        Ok(())
    }
}

pub proof fn lemma_missing_prefix(p: ClPlanner, vals: Seq<Value>, i: int)
    requires
        0 <= i < vals.len(),
        slots_of(p, vals.subrange(0, i)) is Some,
        p.slot(vals[i]) is None,
    ensures
        slots_of(p, vals) is None,
        first_missing(p, vals) == vals[i],
    decreases vals.len(),
{
    if i == vals.len() - 1 {
        assert(vals.drop_last() =~= vals.subrange(0, i));
    } else {
        assert(vals.drop_last().subrange(0, i) =~= vals.subrange(0, i));
        assert(vals.drop_last()[i] == vals[i]);
        lemma_missing_prefix(p, vals.drop_last(), i);
    }
}

} // verus!
