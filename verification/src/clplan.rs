//! Lowering of IR instructions to machine operations for the Cranelift
//! backend. The planner keeps, for each IR value, the slot that holds it, and
//! for each slot its machine type; every lowering appends operations.

use vstd::prelude::*;
use std::collections::HashMap;
use crate::ir::{cmp_holds, div_toward_zero, BlockRef, CmpOp, Type, Value};
use crate::mach::{fcond_holds, icond_holds, iop_value, spec_mty_of, Conv, Decl, FCond, FOp, ICond, IOp, MTy, Op, Sig, Span};
use crate::text::{decimal, with_number};

verus! {

broadcast use vstd::std_specs::hash::group_hash_axioms;

/// The message for a value that has no slot.
pub open spec fn not_found_msg(v: u32) -> Seq<char> {
    "IR Value("@ + decimal(v as nat) + ") not found in value map"@
}

/// The machine type of a value from its declared IR type, or `dflt` when the
/// function declares none.
pub open spec fn declared_or(vt: Map<u32, Type>, v: Value, dflt: MTy) -> MTy {
    if vt.contains_key(v.0) {
        spec_mty_of(vt[v.0])
    } else {
        dflt
    }
}

/// The integer condition of a comparison (signed orderings).
pub open spec fn spec_icond(op: CmpOp) -> ICond {
    match op {
        CmpOp::Eq => ICond::Eq,
        CmpOp::Ne => ICond::Ne,
        CmpOp::Lt => ICond::Slt,
        CmpOp::Le => ICond::Sle,
        CmpOp::Gt => ICond::Sgt,
        CmpOp::Ge => ICond::Sge,
    }
}

/// The floating-point condition of a comparison (ordered).
pub open spec fn spec_fcond(op: CmpOp) -> FCond {
    match op {
        CmpOp::Eq => FCond::Eq,
        CmpOp::Ne => FCond::Ne,
        CmpOp::Lt => FCond::Lt,
        CmpOp::Le => FCond::Le,
        CmpOp::Gt => FCond::Gt,
        CmpOp::Ge => FCond::Ge,
    }
}

/// Lowering an integer comparison keeps its meaning: the condition the
/// machine compares with holds between two signed integers exactly when
/// the IR comparison does (so `Lt` is strict and false on equal operands,
/// and no two comparisons share a condition).
pub proof fn law_icond_meaning(op: CmpOp, a: int, b: int)
    ensures
        icond_holds(spec_icond(op), a, b) == cmp_holds(op, a, b),
{
}

/// Distinct comparisons are lowered to distinct integer conditions.
pub proof fn law_icond_distinct(op1: CmpOp, op2: CmpOp)
    requires
        op1 != op2,
    ensures
        spec_icond(op1) != spec_icond(op2),
{
    let (a, b) = if cmp_holds(op1, 0, 0) != cmp_holds(op2, 0, 0) {
        (0int, 0int)
    } else if cmp_holds(op1, 0, 1) != cmp_holds(op2, 0, 1) {
        (0int, 1int)
    } else {
        (1int, 0int)
    };
    law_icond_meaning(op1, a, b);
    law_icond_meaning(op2, a, b);
}

/// Lowering a floating-point comparison keeps its meaning on numbers that
/// are not NaN: the ordered condition holds exactly when the IR comparison
/// does.
pub proof fn law_fcond_meaning(op: CmpOp, a: int, b: int)
    ensures
        fcond_holds(spec_fcond(op), a, b) == cmp_holds(op, a, b),
{
}

pub fn icond_of(op: CmpOp) -> (r: ICond)
    ensures
        r == spec_icond(op),
{
    match op {
        CmpOp::Eq => ICond::Eq,
        CmpOp::Ne => ICond::Ne,
        CmpOp::Lt => ICond::Slt,
        CmpOp::Le => ICond::Sle,
        CmpOp::Gt => ICond::Sgt,
        CmpOp::Ge => ICond::Sge,
    }
}

pub fn fcond_of(op: CmpOp) -> (r: FCond)
    ensures
        r == spec_fcond(op),
{
    match op {
        CmpOp::Eq => FCond::Eq,
        CmpOp::Ne => FCond::Ne,
        CmpOp::Lt => FCond::Lt,
        CmpOp::Le => FCond::Le,
        CmpOp::Gt => FCond::Gt,
        CmpOp::Ge => FCond::Ge,
    }
}

/// The four arithmetic instructions.
#[derive(Clone, Copy, Debug, PartialEq, Eq, Structural)]
pub enum Arith {
    Add,
    Sub,
    Mul,
    Div,
}

/// The operation for an arithmetic instruction on operands of type `ta`:
/// floating-point when the left operand is `F64`, integer otherwise.
pub open spec fn arith_op(k: Arith, ta: MTy, dst: usize, a: usize, b: usize) -> Op {
    if ta == MTy::F64 {
        Op::FBin {
            dst,
            op: match k {
                Arith::Add => FOp::Add,
                Arith::Sub => FOp::Sub,
                Arith::Mul => FOp::Mul,
                Arith::Div => FOp::Div,
            },
            a,
            b,
        }
    } else {
        Op::IBin {
            dst,
            op: match k {
                Arith::Add => IOp::Add,
                Arith::Sub => IOp::Sub,
                Arith::Mul => IOp::Mul,
                Arith::Div => IOp::SDiv,
            },
            a,
            b,
        }
    }
}

/// What an IR arithmetic instruction computes on two integers: the sum,
/// the difference `lhs - rhs`, the product, the quotient rounded toward
/// zero.
pub open spec fn arith_int_value(k: Arith, lhs: int, rhs: int) -> int {
    match k {
        Arith::Add => lhs + rhs,
        Arith::Sub => lhs - rhs,
        Arith::Mul => lhs * rhs,
        Arith::Div => div_toward_zero(lhs, rhs),
    }
}

/// Lowering integer arithmetic keeps its meaning: on non-float operands the
/// machine operation computes, from the operands in order, what the IR
/// instruction means.
pub proof fn law_arith_int_meaning(k: Arith, ta: MTy, dst: usize, a: usize, b: usize, x: int, y: int)
    requires
        ta != MTy::F64,
    ensures
        match arith_op(k, ta, dst, a, b) {
            Op::IBin { dst: d, op, a: l, b: r } => d == dst && l == a && r == b && iop_value(op, x, y) == Some(arith_int_value(k, x, y)),
            _ => false,
        },
{
}

/// Distinct floating-point arithmetic instructions are lowered to distinct
/// machine operations, each on the operands in order.
pub proof fn law_arith_float_distinct(k1: Arith, k2: Arith, dst: usize, a: usize, b: usize)
    requires
        k1 != k2,
    ensures
        arith_op(k1, MTy::F64, dst, a, b) != arith_op(k2, MTy::F64, dst, a, b),
        arith_op(k1, MTy::F64, dst, a, b) matches Op::FBin { dst: d, a: l, b: r, .. } && d == dst && l == a && r == b,
{
}

/// The lowering state of one function.
pub struct ClPlanner {
    pub ops: Vec<Op>,
    pub args: Vec<usize>,
    pub types: Vec<MTy>,
    pub vmap: HashMap<u32, usize>,
    pub block_params: Vec<Vec<MTy>>,
    pub sigs: Vec<Sig>,
}

impl ClPlanner {
    /// Every value is held by an existing slot.
    pub open spec fn wf(&self) -> bool {
        forall|k: u32| self.vmap@.contains_key(k) ==> self.vmap@[k] < self.types@.len()
    }

    /// The slot holding `v`, if any.
    pub open spec fn slot(&self, v: Value) -> Option<usize> {
        if self.vmap@.contains_key(v.0) {
            Some(self.vmap@[v.0])
        } else {
            None
        }
    }

    /// The number the next new slot gets.
    pub open spec fn next(&self) -> usize {
        self.types@.len() as usize
    }

    /// The number the `k`-th next new slot gets.
    pub open spec fn next_k(&self, k: int) -> usize {
        (self.types@.len() + k) as usize
    }

    /// The machine type of slot `s`.
    pub open spec fn ty(&self, s: usize) -> MTy {
        self.types@[s as int]
    }

    /// The tables other than operations, slots and values are unchanged.
    pub open spec fn same_tables(&self, o: &Self) -> bool {
        &&& self.block_params@ == o.block_params@
        &&& self.sigs@ == o.sigs@
    }

    /// Only operations and slots were added, with the given contents.
    pub open spec fn appended(&self, o: &Self, ops: Seq<Op>, tys: Seq<MTy>) -> bool {
        &&& self.ops@ == o.ops@ + ops
        &&& self.types@ == o.types@ + tys
        &&& self.args@ == o.args@
        &&& self.same_tables(o)
    }

    pub fn new() -> (r: ClPlanner)
        ensures
            r.wf(),
            r.ops@.len() == 0,
            r.args@.len() == 0,
            r.types@.len() == 0,
            r.vmap@ == Map::<u32, usize>::empty(),
            r.block_params@.len() == 0,
            r.sigs@.len() == 0,
    {
        ClPlanner {
            ops: Vec::new(),
            args: Vec::new(),
            types: Vec::new(),
            vmap: HashMap::new(),
            block_params: Vec::new(),
            sigs: Vec::new(),
        }
    }

    /// The slot holding `v`, or the not-found error.
    pub fn resolve(&self, v: Value) -> (r: Result<usize, String>)
        requires
            self.wf(),
        ensures
            match r {
                Ok(s) => self.slot(v) == Some(s) && s < self.types@.len(),
                Err(m) => self.slot(v) is None && m@ == not_found_msg(v.0),
            },
    {
        match self.vmap.get(&v.0) {
            Some(s) => Ok(*s),
            None => Err(with_number("IR Value(", v.0 as u64, ") not found in value map")),
        }
    }

    /// Records that `v` is held by slot `s`.
    pub fn bind(&mut self, v: Value, s: usize)
        requires
            old(self).wf(),
            s < old(self).types@.len(),
        ensures
            final(self).wf(),
            final(self).vmap@ == old(self).vmap@.insert(v.0, s),
            final(self).ops@ == old(self).ops@,
            final(self).types@ == old(self).types@,
            final(self).args@ == old(self).args@,
            final(self).same_tables(old(self)),
    {
        self.vmap.insert(v.0, s);
    }

    /// Defines a new slot of type `ty` with operation `op`, which must name
    /// the new slot. Returns the slot.
    pub fn def(&mut self, ty: MTy, op: Op) -> (r: usize)
        requires
            old(self).wf(),
        ensures
            r == old(self).types@.len(),
            final(self).wf(),
            final(self).appended(old(self), seq![op], seq![ty]),
            final(self).vmap@ == old(self).vmap@,
    {
        let r = self.types.len();
        self.types.push(ty);
        self.ops.push(op);
        assert(self.ops@ =~= old(self).ops@ + seq![op]);
        assert(self.types@ =~= old(self).types@ + seq![ty]);
        r
    }

    /// Appends an operation that defines no slot.
    pub fn put(&mut self, op: Op)
        requires
            old(self).wf(),
        ensures
            final(self).wf(),
            final(self).appended(old(self), seq![op], seq![]),
            final(self).vmap@ == old(self).vmap@,
    {
        self.ops.push(op);
        assert(self.ops@ =~= old(self).ops@ + seq![op]);
        assert(self.types@ =~= old(self).types@ + seq![]);
    }

    pub fn iconst(&mut self, ty: MTy, imm: i64) -> (r: usize)
        requires
            old(self).wf(),
        ensures
            r == old(self).types@.len(),
            final(self).wf(),
            final(self).appended(old(self), seq![Op::IConst { dst: r, ty, imm }], seq![ty]),
            final(self).vmap@ == old(self).vmap@,
    {
        let n = self.types.len();
        self.def(ty, Op::IConst { dst: n, ty, imm })
    }

    pub fn ibin(&mut self, op: IOp, a: usize, b: usize) -> (r: usize)
        requires
            old(self).wf(),
            a < old(self).types@.len(),
        ensures
            r == old(self).types@.len(),
            final(self).wf(),
            final(self).appended(old(self), seq![Op::IBin { dst: r, op, a, b }], seq![old(self).ty(a)]),
            final(self).vmap@ == old(self).vmap@,
    {
        let n = self.types.len();
        let t = self.types[a];
        self.def(t, Op::IBin { dst: n, op, a, b })
    }

    pub fn fbin(&mut self, op: FOp, a: usize, b: usize) -> (r: usize)
        requires
            old(self).wf(),
        ensures
            r == old(self).types@.len(),
            final(self).wf(),
            final(self).appended(old(self), seq![Op::FBin { dst: r, op, a, b }], seq![MTy::F64]),
            final(self).vmap@ == old(self).vmap@,
    {
        let n = self.types.len();
        self.def(MTy::F64, Op::FBin { dst: n, op, a, b })
    }

    pub fn icmp(&mut self, cc: ICond, a: usize, b: usize) -> (r: usize)
        requires
            old(self).wf(),
        ensures
            r == old(self).types@.len(),
            final(self).wf(),
            final(self).appended(old(self), seq![Op::ICmp { dst: r, cc, a, b }], seq![MTy::I8]),
            final(self).vmap@ == old(self).vmap@,
    {
        let n = self.types.len();
        self.def(MTy::I8, Op::ICmp { dst: n, cc, a, b })
    }

    pub fn select(&mut self, c: usize, a: usize, b: usize) -> (r: usize)
        requires
            old(self).wf(),
            a < old(self).types@.len(),
        ensures
            r == old(self).types@.len(),
            final(self).wf(),
            final(self).appended(old(self), seq![Op::Select { dst: r, c, a, b }], seq![old(self).ty(a)]),
            final(self).vmap@ == old(self).vmap@,
    {
        let n = self.types.len();
        let t = self.types[a];
        self.def(t, Op::Select { dst: n, c, a, b })
    }

    pub fn convert(&mut self, conv: Conv, ty: MTy, a: usize) -> (r: usize)
        requires
            old(self).wf(),
        ensures
            r == old(self).types@.len(),
            final(self).wf(),
            final(self).appended(old(self), seq![Op::Convert { dst: r, conv, ty, a }], seq![ty]),
            final(self).vmap@ == old(self).vmap@,
    {
        let n = self.types.len();
        self.def(ty, Op::Convert { dst: n, conv, ty, a })
    }

    pub fn load(&mut self, ty: MTy, addr: usize, off: i32) -> (r: usize)
        requires
            old(self).wf(),
        ensures
            r == old(self).types@.len(),
            final(self).wf(),
            final(self).appended(old(self), seq![Op::Load { dst: r, ty, addr, off }], seq![ty]),
            final(self).vmap@ == old(self).vmap@,
    {
        let n = self.types.len();
        self.def(ty, Op::Load { dst: n, ty, addr, off })
    }

    pub fn data_addr(&mut self, data: usize) -> (r: usize)
        requires
            old(self).wf(),
        ensures
            r == old(self).types@.len(),
            final(self).wf(),
            final(self).appended(old(self), seq![Op::DataAddr { dst: r, data }], seq![MTy::I64]),
            final(self).vmap@ == old(self).vmap@,
    {
        let n = self.types.len();
        self.def(MTy::I64, Op::DataAddr { dst: n, data })
    }

    /// Appends `vals` to the argument pool; returns their span.
    pub fn push_args(&mut self, vals: &Vec<usize>) -> (r: Span)
        requires
            old(self).wf(),
        ensures
            final(self).wf(),
            r == (Span { start: old(self).args@.len() as usize, len: vals@.len() as usize }),
            final(self).args@ == old(self).args@ + vals@,
            final(self).ops@ == old(self).ops@,
            final(self).types@ == old(self).types@,
            final(self).vmap@ == old(self).vmap@,
            final(self).same_tables(old(self)),
    {
        let start = self.args.len();
        let n = vals.len();
        for i in 0..n
            invariant
                n == vals@.len(),
                start == old(self).args@.len(),
                self.args@ == old(self).args@ + vals@.subrange(0, i as int),
                self.ops@ == old(self).ops@,
                self.types@ == old(self).types@,
                self.vmap@ == old(self).vmap@,
                self.same_tables(old(self)),
                self.wf(),
        {
            self.args.push(vals[i]);
            assert(vals@.subrange(0, i + 1) =~= vals@.subrange(0, i as int).push(vals@[i as int]));
        }
        assert(vals@.subrange(0, n as int) =~= vals@);
        Span { start, len: n }
    }

    /// Calls declared function `f` with `vals`. The call's first result, if
    /// the function returns one, is held by a new slot, which is returned.
    pub fn call(&mut self, decls: &Vec<Decl>, f: usize, vals: &Vec<usize>) -> (r: Option<usize>)
        requires
            old(self).wf(),
            f < decls@.len(),
        ensures
            final(self).wf(),
            old(self).types@.len() <= usize::MAX,
            final(self).args@ == old(self).args@ + vals@,
            final(self).vmap@ == old(self).vmap@,
            final(self).same_tables(old(self)),
            final(self).ops@ == old(self).ops@.push(Op::Call {
                func: f,
                args: Span { start: old(self).args@.len() as usize, len: vals@.len() as usize },
                dst: old(self).types@.len() as usize,
                has_result: decls@[f as int].rets@.len() > 0,
            }),
            decls@[f as int].rets@.len() > 0 ==> r == Some(old(self).types@.len() as usize)
                && final(self).types@ == old(self).types@.push(decls@[f as int].rets@[0]),
            decls@[f as int].rets@.len() == 0 ==> r is None && final(self).types@ == old(self).types@,
    {
        let sp = self.push_args(vals);
        let n = self.types.len();
        let has = decls[f].rets.len() > 0;
        self.ops.push(Op::Call { func: f, args: sp, dst: n, has_result: has });
        if has {
            self.types.push(decls[f].rets[0]);
            Some(n)
        } else {
            None
        }
    }
}

} // verus!
