//! Built-in operations of the Cranelift backend written as recipes: short
//! programs over numbered registers (argument slots, constants, call
//! results, block parameters) and recipe blocks, which the planner turns
//! into machine operations. `run_spec` says, step by step, which operations
//! a recipe yields.

use vstd::prelude::*;
use crate::clplan::ClPlanner;
use crate::ir::Value;
use crate::mach::{decl_index, find_decl, Conv, Decl, FCond, FOp, FUn, ICond, ImmOp, IOp, MTy, Op, Sig, Span, StringTable};

verus! {

broadcast use vstd::std_specs::hash::group_hash_axioms;

/// The registers passed to a call or a jump (at most four).
#[derive(Clone, Copy, Debug)]
pub enum Regs {
    R0,
    R1(usize),
    R2(usize, usize),
    R3(usize, usize, usize),
    R4(usize, usize, usize, usize),
}

/// The register numbers of `rs`, in order.
pub open spec fn regs_seq(rs: Regs) -> Seq<usize> {
    match rs {
        Regs::R0 => Seq::empty(),
        Regs::R1(a) => seq![a],
        Regs::R2(a, b) => seq![a, b],
        Regs::R3(a, b, c) => seq![a, b, c],
        Regs::R4(a, b, c, d) => seq![a, b, c, d],
    }
}

/// The signatures of indirect calls in recipes.
#[derive(Clone, Copy, Debug)]
pub enum SigKind {
    /// `printf(fmt, double)`.
    PrintfF64,
    /// `printf(fmt, ptr)`.
    PrintfPtr,
    /// `snprintf(buf, size, fmt, double)`.
    SnprintfF64,
    /// A closure of one 64-bit argument returning a 64-bit value.
    Closure1,
    /// A closure of two 64-bit arguments returning a 64-bit value.
    Closure2,
}

/// Parameter and result types of a recipe signature.
pub open spec fn sig_of(k: SigKind) -> (Seq<MTy>, Seq<MTy>) {
    match k {
        SigKind::PrintfF64 => (seq![MTy::I64, MTy::F64], seq![MTy::I32]),
        SigKind::PrintfPtr => (seq![MTy::I64, MTy::I64], seq![MTy::I32]),
        SigKind::SnprintfF64 => (seq![MTy::I64, MTy::I64, MTy::I64, MTy::F64], seq![MTy::I32]),
        SigKind::Closure1 => (seq![MTy::I64], seq![MTy::I64]),
        SigKind::Closure2 => (seq![MTy::I64, MTy::I64], seq![MTy::I64]),
    }
}

fn sig_new(k: SigKind) -> (r: Sig)
    ensures
        r.params@ == sig_of(k).0,
        r.rets@ == sig_of(k).1,
{
    match k {
        SigKind::PrintfF64 => Sig { params: vec![MTy::I64, MTy::F64], rets: vec![MTy::I32] },
        SigKind::PrintfPtr => Sig { params: vec![MTy::I64, MTy::I64], rets: vec![MTy::I32] },
        SigKind::SnprintfF64 => Sig { params: vec![MTy::I64, MTy::I64, MTy::I64, MTy::F64], rets: vec![MTy::I32] },
        SigKind::Closure1 => Sig { params: vec![MTy::I64], rets: vec![MTy::I64] },
        SigKind::Closure2 => Sig { params: vec![MTy::I64, MTy::I64], rets: vec![MTy::I64] },
    }
}

/// One recipe step. Steps that yield a value push it as the next register;
/// `Block` pushes the next recipe block. Register and block operands are
/// numbers of earlier ones.
#[derive(Clone, Copy, Debug)]
pub enum Step {
    /// The slot of the built-in's argument `i`.
    Arg(usize),
    IConst(MTy, i64),
    F64Const(u64),
    /// The address of the recipe's `k`-th string constant.
    Str(usize),
    /// The address of a declared function.
    FuncAddr(&'static str),
    IBin(IOp, usize, usize),
    IBinImm(ImmOp, usize, i64),
    FBin(FOp, usize, usize),
    FUnary(FUn, usize),
    ICmp(ICond, usize, usize),
    ICmpImm(ICond, usize, i64),
    FCmp(FCond, usize, usize),
    Select(usize, usize, usize),
    Convert(Conv, MTy, usize),
    Load(MTy, usize, i32),
    /// Stores register `v` at register `a` plus the offset; yields nothing.
    Store(usize, usize, i32),
    /// The address of a new stack slot of the given size and alignment.
    StackAddr(u32, u8),
    /// Calls a declared function that must return a value; yields it.
    Call(&'static str, Regs),
    /// Calls a declared function; yields its value, or a 64-bit zero when
    /// it returns none.
    CallOrZero(&'static str, Regs),
    /// Calls a declared function and ignores what it returns.
    CallVoid(&'static str, Regs),
    /// Calls the function at a register's address; yields its value.
    CallIndirect(SigKind, usize, Regs),
    /// A new block.
    Block,
    /// Adds a parameter of the given type to a block; yields it.
    Param(usize, MTy),
    Jump(usize, Regs),
    /// Branches on a register to the first block if it is nonzero, else to
    /// the second, with arguments for each.
    Brif(usize, usize, Regs, usize, Regs),
    Switch(usize),
    Seal(usize),
}

/// What planning state a recipe reads and writes.
#[verifier::ext_equal]
pub struct RState {
    pub ops: Seq<Op>,
    pub types: Seq<MTy>,
    pub args: Seq<usize>,
    pub sigs: Seq<(Seq<MTy>, Seq<MTy>)>,
    pub bparams: Seq<Seq<MTy>>,
    pub regs: Seq<usize>,
    pub bregs: Seq<usize>,
}

/// What a recipe reads but does not write: the value map, the declared
/// functions, the data indices of its strings and the built-in's arguments.
pub struct RCtx {
    pub vmap: Map<u32, usize>,
    pub decls: Seq<Decl>,
    pub sidx: Seq<usize>,
    pub args: Seq<Value>,
}

/// The recipe state of planner `p` with registers `regs` and blocks
/// `bregs`.
pub open spec fn rstate(p: ClPlanner, regs: Seq<usize>, bregs: Seq<usize>) -> RState {
    RState {
        ops: p.ops@,
        types: p.types@,
        args: p.args@,
        sigs: p.sigs@.map_values(|s: Sig| (s.params@, s.rets@)),
        bparams: p.block_params@.map_values(|v: Vec<MTy>| v@),
        regs,
        bregs,
    }
}

/// All registers are existing slots.
pub open spec fn regs_ok(regs: Seq<usize>, rs: Seq<usize>) -> bool {
    forall|i: int| 0 <= i < rs.len() ==> 0 <= #[trigger] rs[i] < regs.len()
}

/// The slots of the registers numbered `rs`.
pub open spec fn reg_slots(regs: Seq<usize>, rs: Seq<usize>) -> Seq<usize> {
    rs.map_values(|i: usize| regs[i as int])
}

/// `st` with operation `op` defining a new slot of type `t`, which becomes
/// the next register.
pub open spec fn def_reg(st: RState, t: MTy, op: Op) -> RState {
    RState { ops: st.ops.push(op), types: st.types.push(t), regs: st.regs.push(st.types.len() as usize), ..st }
}

/// `st` with operation `op` added.
pub open spec fn put_op(st: RState, op: Op) -> RState {
    RState { ops: st.ops.push(op), ..st }
}

/// A register operand exists.
pub open spec fn has_reg(st: RState, r: usize) -> bool {
    r < st.regs.len()
}

/// A block operand exists.
pub open spec fn has_block(st: RState, b: usize) -> bool {
    b < st.bregs.len() && st.bregs[b as int] < st.bparams.len()
}

/// The state after one step, or `None` when the step fails (a missing
/// argument or slot, an undeclared function, a call without result, an
/// operand that does not exist).
pub open spec fn step_spec(st: RState, c: RCtx, s: Step) -> Option<RState> {
    let n = st.types.len() as usize;
    match s {
        Step::Arg(i) => if i < c.args.len() && c.vmap.contains_key(c.args[i as int].0) {
            Some(RState { regs: st.regs.push(c.vmap[c.args[i as int].0]), ..st })
        } else {
            None
        },
        Step::IConst(t, imm) => Some(def_reg(st, t, Op::IConst { dst: n, ty: t, imm })),
        Step::F64Const(bits) => Some(def_reg(st, MTy::F64, Op::F64Const { dst: n, bits })),
        Step::Str(k) => if k < c.sidx.len() {
            Some(def_reg(st, MTy::I64, Op::DataAddr { dst: n, data: c.sidx[k as int] }))
        } else {
            None
        },
        Step::FuncAddr(name) => match decl_index(c.decls, name@) {
            Some(fi) => Some(def_reg(st, MTy::I64, Op::FuncAddr { dst: n, func: fi })),
            None => None,
        },
        Step::IBin(op, a, b) => if has_reg(st, a) && has_reg(st, b) && st.regs[a as int] < st.types.len() {
            Some(def_reg(st, st.types[st.regs[a as int] as int], Op::IBin { dst: n, op, a: st.regs[a as int], b: st.regs[b as int] }))
        } else {
            None
        },
        Step::IBinImm(op, a, imm) => if has_reg(st, a) && st.regs[a as int] < st.types.len() {
            Some(def_reg(st, st.types[st.regs[a as int] as int], Op::IBinImm { dst: n, op, a: st.regs[a as int], imm }))
        } else {
            None
        },
        Step::FBin(op, a, b) => if has_reg(st, a) && has_reg(st, b) {
            Some(def_reg(st, MTy::F64, Op::FBin { dst: n, op, a: st.regs[a as int], b: st.regs[b as int] }))
        } else {
            None
        },
        Step::FUnary(op, a) => if has_reg(st, a) {
            Some(def_reg(st, MTy::F64, Op::FUnary { dst: n, op, a: st.regs[a as int] }))
        } else {
            None
        },
        Step::ICmp(cc, a, b) => if has_reg(st, a) && has_reg(st, b) {
            Some(def_reg(st, MTy::I8, Op::ICmp { dst: n, cc, a: st.regs[a as int], b: st.regs[b as int] }))
        } else {
            None
        },
        Step::ICmpImm(cc, a, imm) => if has_reg(st, a) {
            Some(def_reg(st, MTy::I8, Op::ICmpImm { dst: n, cc, a: st.regs[a as int], imm }))
        } else {
            None
        },
        Step::FCmp(cc, a, b) => if has_reg(st, a) && has_reg(st, b) {
            Some(def_reg(st, MTy::I8, Op::FCmp { dst: n, cc, a: st.regs[a as int], b: st.regs[b as int] }))
        } else {
            None
        },
        Step::Select(k, a, b) => if has_reg(st, k) && has_reg(st, a) && has_reg(st, b) && st.regs[a as int] < st.types.len() {
            Some(def_reg(st, st.types[st.regs[a as int] as int], Op::Select { dst: n, c: st.regs[k as int], a: st.regs[a as int], b: st.regs[b as int] }))
        } else {
            None
        },
        Step::Convert(conv, t, a) => if has_reg(st, a) {
            Some(def_reg(st, t, Op::Convert { dst: n, conv, ty: t, a: st.regs[a as int] }))
        } else {
            None
        },
        Step::Load(t, a, off) => if has_reg(st, a) {
            Some(def_reg(st, t, Op::Load { dst: n, ty: t, addr: st.regs[a as int], off }))
        } else {
            None
        },
        Step::Store(v, a, off) => if has_reg(st, v) && has_reg(st, a) {
            Some(put_op(st, Op::Store { val: st.regs[v as int], addr: st.regs[a as int], off }))
        } else {
            None
        },
        Step::StackAddr(size, sh) => Some(def_reg(st, MTy::I64, Op::StackAddr { dst: n, size, align_shift: sh })),
        Step::Call(name, rs) => match decl_index(c.decls, name@) {
            Some(fi) => if regs_ok(st.regs, regs_seq(rs)) && c.decls[fi as int].rets@.len() > 0 {
                let sl = reg_slots(st.regs, regs_seq(rs));
                Some(RState {
                    ops: st.ops.push(Op::Call { func: fi, args: Span { start: st.args.len() as usize, len: sl.len() as usize }, dst: n, has_result: true }),
                    types: st.types.push(c.decls[fi as int].rets@[0]),
                    args: st.args + sl,
                    regs: st.regs.push(n),
                    ..st
                })
            } else {
                None
            },
            None => None,
        },
        Step::CallOrZero(name, rs) => match decl_index(c.decls, name@) {
            Some(fi) => if regs_ok(st.regs, regs_seq(rs)) {
                let sl = reg_slots(st.regs, regs_seq(rs));
                let call_span = Span { start: st.args.len() as usize, len: sl.len() as usize };
                if c.decls[fi as int].rets@.len() > 0 {
                    Some(RState {
                        ops: st.ops.push(Op::Call { func: fi, args: call_span, dst: n, has_result: true }),
                        types: st.types.push(c.decls[fi as int].rets@[0]),
                        args: st.args + sl,
                        regs: st.regs.push(n),
                        ..st
                    })
                } else {
                    Some(RState {
                        ops: st.ops.push(Op::Call { func: fi, args: call_span, dst: n, has_result: false }).push(Op::IConst { dst: n, ty: MTy::I64, imm: 0 }),
                        types: st.types.push(MTy::I64),
                        args: st.args + sl,
                        regs: st.regs.push(n),
                        ..st
                    })
                }
            } else {
                None
            },
            None => None,
        },
        Step::CallVoid(name, rs) => match decl_index(c.decls, name@) {
            Some(fi) => if regs_ok(st.regs, regs_seq(rs)) {
                let sl = reg_slots(st.regs, regs_seq(rs));
                let rv = c.decls[fi as int].rets@.len() > 0;
                Some(RState {
                    ops: st.ops.push(Op::Call { func: fi, args: Span { start: st.args.len() as usize, len: sl.len() as usize }, dst: n, has_result: rv }),
                    types: if rv { st.types.push(c.decls[fi as int].rets@[0]) } else { st.types },
                    args: st.args + sl,
                    ..st
                })
            } else {
                None
            },
            None => None,
        },
        Step::CallIndirect(k, a, rs) => if has_reg(st, a) && regs_ok(st.regs, regs_seq(rs)) {
            let sl = reg_slots(st.regs, regs_seq(rs));
            Some(RState {
                ops: st.ops.push(Op::CallIndirect {
                    sig: st.sigs.len() as usize,
                    addr: st.regs[a as int],
                    args: Span { start: st.args.len() as usize, len: sl.len() as usize },
                    dst: n,
                    has_result: true,
                }),
                types: st.types.push(sig_of(k).1[0]),
                args: st.args + sl,
                sigs: st.sigs.push(sig_of(k)),
                regs: st.regs.push(n),
                ..st
            })
        } else {
            None
        },
        Step::Block => Some(RState {
            ops: st.ops.push(Op::CreateBlock { block: st.bparams.len() as usize }),
            bparams: st.bparams.push(Seq::empty()),
            bregs: st.bregs.push(st.bparams.len() as usize),
            ..st
        }),
        Step::Param(b, t) => if has_block(st, b) {
            let blk = st.bregs[b as int];
            Some(RState {
                ops: st.ops.push(Op::AppendParam { block: blk, ty: t }).push(Op::BlockParam { dst: n, block: blk, index: st.bparams[blk as int].len() as usize }),
                types: st.types.push(t),
                bparams: st.bparams.update(blk as int, st.bparams[blk as int].push(t)),
                regs: st.regs.push(n),
                ..st
            })
        } else {
            None
        },
        Step::Jump(b, rs) => if has_block(st, b) && regs_ok(st.regs, regs_seq(rs)) {
            let sl = reg_slots(st.regs, regs_seq(rs));
            Some(RState {
                ops: st.ops.push(Op::Jump { block: st.bregs[b as int], args: Span { start: st.args.len() as usize, len: sl.len() as usize } }),
                args: st.args + sl,
                ..st
            })
        } else {
            None
        },
        Step::Brif(k, bt, rt, be, re) => if has_reg(st, k) && has_block(st, bt) && has_block(st, be) && regs_ok(st.regs, regs_seq(rt)) && regs_ok(st.regs, regs_seq(re)) {
            let s1 = reg_slots(st.regs, regs_seq(rt));
            let s2 = reg_slots(st.regs, regs_seq(re));
            Some(RState {
                ops: st.ops.push(Op::Brif {
                    cond: st.regs[k as int],
                    then_block: st.bregs[bt as int],
                    then_args: Span { start: st.args.len() as usize, len: s1.len() as usize },
                    else_block: st.bregs[be as int],
                    else_args: Span { start: (st.args.len() + s1.len()) as usize, len: s2.len() as usize },
                }),
                args: st.args + s1 + s2,
                ..st
            })
        } else {
            None
        },
        Step::Switch(b) => if has_block(st, b) {
            Some(put_op(st, Op::SwitchTo { block: st.bregs[b as int] }))
        } else {
            None
        },
        Step::Seal(b) => if has_block(st, b) {
            Some(put_op(st, Op::Seal { block: st.bregs[b as int] }))
        } else {
            None
        },
    }
}

/// The state after all `steps`, or `None` when one fails.
pub open spec fn run_spec(st: RState, c: RCtx, steps: Seq<Step>) -> Option<RState>
    decreases steps.len(),
{
    if steps.len() == 0 {
        Some(st)
    } else {
        match run_spec(st, c, steps.drop_last()) {
            Some(s1) => step_spec(s1, c, steps.last()),
            None => None,
        }
    }
}

/// A recipe: its string constants, its steps, and the register holding the
/// built-in's value.
pub struct Recipe {
    pub texts: Vec<&'static str>,
    pub steps: Vec<Step>,
    pub result: usize,
}

/// The register numbers of `rs`.
fn regs_vec(rs: Regs) -> (r: Vec<usize>)
    ensures
        r@ == regs_seq(rs),
{
    match rs {
        Regs::R0 => Vec::new(),
        Regs::R1(a) => vec![a],
        Regs::R2(a, b) => vec![a, b],
        Regs::R3(a, b, c) => vec![a, b, c],
        Regs::R4(a, b, c, d) => vec![a, b, c, d],
    }
}

/// The message for a recipe that cannot be planned.
pub open spec fn recipe_failed_msg(name: Seq<char>) -> Seq<char> {
    "cannot lower built-in '"@ + name + "'"@
}

pub fn recipe_failed(name: &str) -> (r: String)
    ensures
        r@ == recipe_failed_msg(name@),
{
    let mut m = String::from_str("cannot lower built-in '");
    m.append(name);
    m.append("'");
    m
}

/// The slots held by the registers numbered `rs`, when they all exist.
fn reg_slots_of(regs: &Vec<usize>, rs: Regs) -> (r: Option<Vec<usize>>)
    ensures
        match r {
            Some(v) => regs_ok(regs@, regs_seq(rs)) && v@ == reg_slots(regs@, regs_seq(rs)),
            None => !regs_ok(regs@, regs_seq(rs)),
        },
{
    let ix = regs_vec(rs);
    let mut out: Vec<usize> = Vec::new();
    let n = ix.len();
    for k in 0..n
        invariant
            n == ix@.len(),
            ix@ == regs_seq(rs),
            forall|j: int| 0 <= j < k ==> 0 <= #[trigger] ix@[j] < regs@.len(),
            out@ == ix@.subrange(0, k as int).map_values(|i: usize| regs@[i as int]),
    {
        if ix[k] >= regs.len() {
            return None;
        }
        out.push(regs[ix[k]]);
        assert(out@ =~= ix@.subrange(0, k + 1).map_values(|i: usize| regs@[i as int]));
    }
    assert(ix@.subrange(0, n as int) =~= ix@);
    Some(out)
}

/// Every register holds an existing slot.
pub open spec fn regs_valid(regs: Seq<usize>, ntypes: nat) -> bool {
    forall|i: int| 0 <= i < regs.len() ==> #[trigger] regs[i] < ntypes
}

/// The recipe context of planner `p`.
pub open spec fn rctx(p: ClPlanner, decls: Seq<Decl>, sidx: Seq<usize>, args: Seq<Value>) -> RCtx {
    RCtx { vmap: p.vmap@, decls, sidx, args }
}

impl ClPlanner {
    /// Plans an operand step: an argument, a constant, a string or function address, or a stack slot.
    fn run_operand_step(
        &mut self,
        regs: &mut Vec<usize>,
        bregs: &mut Vec<usize>,
        decls: &Vec<Decl>,
        sidx: &Vec<usize>,
        args: &Vec<Value>,
        s: Step,
    ) -> (r: Result<(), ()>)
        requires
            old(self).wf(),
            regs_valid(old(regs)@, old(self).types@.len()),
            s is Arg || s is IConst || s is F64Const || s is Str || s is FuncAddr || s is StackAddr,
        ensures
            r is Ok ==> old(self).ops@.is_prefix_of(final(self).ops@),
            final(self).wf(),
            final(self).vmap@ == old(self).vmap@,
            final(self).block_params@.len() >= old(self).block_params@.len(),
            regs_valid(final(regs)@, final(self).types@.len()),
            match step_spec(rstate(*old(self), old(regs)@, old(bregs)@), rctx(*old(self), decls@, sidx@, args@), s) {
                Some(st) => r is Ok && rstate(*final(self), final(regs)@, final(bregs)@) == st,
                None => r is Err,
            },
    {
        let ghost st = rstate(*self, regs@, bregs@);
        let n = self.types.len();
        let nr = regs.len();
        let _nd = decls.len();
        match s {
            Step::Arg(i) => {
                if i >= args.len() {
                    return Err(());
                }
                match self.vmap.get(&args[i].0) {
                    Some(slot) => {
                        regs.push(*slot);
                    },
                    None => {
                        return Err(());
                    },
                }
            },
            Step::IConst(t, imm) => {
                self.types.push(t);
                self.ops.push(Op::IConst { dst: n, ty: t, imm });
                regs.push(n);
            },
            Step::F64Const(bits) => {
                self.types.push(MTy::F64);
                self.ops.push(Op::F64Const { dst: n, bits });
                regs.push(n);
            },
            Step::Str(k) => {
                if k >= sidx.len() {
                    return Err(());
                }
                self.types.push(MTy::I64);
                self.ops.push(Op::DataAddr { dst: n, data: sidx[k] });
                regs.push(n);
            },
            Step::FuncAddr(name) => {
                match find_decl(decls, name) {
                    Some(fi) => {
                        self.types.push(MTy::I64);
                        self.ops.push(Op::FuncAddr { dst: n, func: fi });
                        regs.push(n);
                    },
                    None => {
                        return Err(());
                    },
                }
            },
            Step::StackAddr(size, sh) => {
                self.types.push(MTy::I64);
                self.ops.push(Op::StackAddr { dst: n, size, align_shift: sh });
                regs.push(n);
            },
            _ => {
                return Err(());
            },
        }
        proof {
            assert(rstate(*self, regs@, bregs@) =~= step_spec(st, rctx(*old(self), decls@, sidx@, args@), s).unwrap());
        }
        Ok(())
    }

    /// Plans an arithmetic, comparison, selection, conversion or memory step.
    fn run_arith_step(
        &mut self,
        regs: &mut Vec<usize>,
        bregs: &mut Vec<usize>,
        decls: &Vec<Decl>,
        sidx: &Vec<usize>,
        args: &Vec<Value>,
        s: Step,
    ) -> (r: Result<(), ()>)
        requires
            old(self).wf(),
            regs_valid(old(regs)@, old(self).types@.len()),
            s is IBin || s is IBinImm || s is FBin || s is FUnary || s is ICmp || s is ICmpImm || s is FCmp || s is Select || s is Convert || s is Load || s is Store,
        ensures
            r is Ok ==> old(self).ops@.is_prefix_of(final(self).ops@),
            final(self).wf(),
            final(self).vmap@ == old(self).vmap@,
            final(self).block_params@.len() >= old(self).block_params@.len(),
            regs_valid(final(regs)@, final(self).types@.len()),
            match step_spec(rstate(*old(self), old(regs)@, old(bregs)@), rctx(*old(self), decls@, sidx@, args@), s) {
                Some(st) => r is Ok && rstate(*final(self), final(regs)@, final(bregs)@) == st,
                None => r is Err,
            },
    {
        let ghost st = rstate(*self, regs@, bregs@);
        let n = self.types.len();
        let nr = regs.len();
        let _nd = decls.len();
        match s {
            Step::IBin(op, a, b) => {
                if a >= nr || b >= nr {
                    return Err(());
                }
                let t = self.types[regs[a]];
                self.types.push(t);
                self.ops.push(Op::IBin { dst: n, op, a: regs[a], b: regs[b] });
                regs.push(n);
            },
            Step::IBinImm(op, a, imm) => {
                if a >= nr {
                    return Err(());
                }
                let t = self.types[regs[a]];
                self.types.push(t);
                self.ops.push(Op::IBinImm { dst: n, op, a: regs[a], imm });
                regs.push(n);
            },
            Step::FBin(op, a, b) => {
                if a >= nr || b >= nr {
                    return Err(());
                }
                self.types.push(MTy::F64);
                self.ops.push(Op::FBin { dst: n, op, a: regs[a], b: regs[b] });
                regs.push(n);
            },
            Step::FUnary(op, a) => {
                if a >= nr {
                    return Err(());
                }
                self.types.push(MTy::F64);
                self.ops.push(Op::FUnary { dst: n, op, a: regs[a] });
                regs.push(n);
            },
            Step::ICmp(cc, a, b) => {
                if a >= nr || b >= nr {
                    return Err(());
                }
                self.types.push(MTy::I8);
                self.ops.push(Op::ICmp { dst: n, cc, a: regs[a], b: regs[b] });
                regs.push(n);
            },
            Step::ICmpImm(cc, a, imm) => {
                if a >= nr {
                    return Err(());
                }
                self.types.push(MTy::I8);
                self.ops.push(Op::ICmpImm { dst: n, cc, a: regs[a], imm });
                regs.push(n);
            },
            Step::FCmp(cc, a, b) => {
                if a >= nr || b >= nr {
                    return Err(());
                }
                self.types.push(MTy::I8);
                self.ops.push(Op::FCmp { dst: n, cc, a: regs[a], b: regs[b] });
                regs.push(n);
            },
            Step::Select(k, a, b) => {
                if k >= nr || a >= nr || b >= nr {
                    return Err(());
                }
                let t = self.types[regs[a]];
                self.types.push(t);
                self.ops.push(Op::Select { dst: n, c: regs[k], a: regs[a], b: regs[b] });
                regs.push(n);
            },
            Step::Convert(conv, t, a) => {
                if a >= nr {
                    return Err(());
                }
                self.types.push(t);
                self.ops.push(Op::Convert { dst: n, conv, ty: t, a: regs[a] });
                regs.push(n);
            },
            Step::Load(t, a, off) => {
                if a >= nr {
                    return Err(());
                }
                self.types.push(t);
                self.ops.push(Op::Load { dst: n, ty: t, addr: regs[a], off });
                regs.push(n);
            },
            Step::Store(v, a, off) => {
                if v >= nr || a >= nr {
                    return Err(());
                }
                self.ops.push(Op::Store { val: regs[v], addr: regs[a], off });
            },
            _ => {
                return Err(());
            },
        }
        proof {
            assert(rstate(*self, regs@, bregs@) =~= step_spec(st, rctx(*old(self), decls@, sidx@, args@), s).unwrap());
        }
        Ok(())
    }

    /// Plans a call step.
    fn run_call_step(
        &mut self,
        regs: &mut Vec<usize>,
        bregs: &mut Vec<usize>,
        decls: &Vec<Decl>,
        sidx: &Vec<usize>,
        args: &Vec<Value>,
        s: Step,
    ) -> (r: Result<(), ()>)
        requires
            old(self).wf(),
            regs_valid(old(regs)@, old(self).types@.len()),
            s is Call || s is CallOrZero || s is CallVoid || s is CallIndirect,
        ensures
            r is Ok ==> old(self).ops@.is_prefix_of(final(self).ops@),
            final(self).wf(),
            final(self).vmap@ == old(self).vmap@,
            final(self).block_params@.len() >= old(self).block_params@.len(),
            regs_valid(final(regs)@, final(self).types@.len()),
            match step_spec(rstate(*old(self), old(regs)@, old(bregs)@), rctx(*old(self), decls@, sidx@, args@), s) {
                Some(st) => r is Ok && rstate(*final(self), final(regs)@, final(bregs)@) == st,
                None => r is Err,
            },
    {
        let ghost st = rstate(*self, regs@, bregs@);
        let n = self.types.len();
        let nr = regs.len();
        let _nd = decls.len();
        match s {
            Step::Call(name, rs) => {
                let fi = match find_decl(decls, name) {
                    Some(fi) => fi,
                    None => {
                        return Err(());
                    },
                };
                proof {
                    crate::mach::lemma_decl_index(decls@, name@);
                }
                let sl = match reg_slots_of(regs, rs) {
                    Some(v) => v,
                    None => {
                        return Err(());
                    },
                };
                if decls[fi].rets.len() == 0 {
                    return Err(());
                }
                let sp = self.push_args(&sl);
                self.types.push(decls[fi].rets[0]);
                self.ops.push(Op::Call { func: fi, args: sp, dst: n, has_result: true });
                regs.push(n);
            },
            Step::CallOrZero(name, rs) => {
                let fi = match find_decl(decls, name) {
                    Some(fi) => fi,
                    None => {
                        return Err(());
                    },
                };
                proof {
                    crate::mach::lemma_decl_index(decls@, name@);
                }
                let sl = match reg_slots_of(regs, rs) {
                    Some(v) => v,
                    None => {
                        return Err(());
                    },
                };
                let sp = self.push_args(&sl);
                if decls[fi].rets.len() > 0 {
                    self.types.push(decls[fi].rets[0]);
                    self.ops.push(Op::Call { func: fi, args: sp, dst: n, has_result: true });
                } else {
                    self.types.push(MTy::I64);
                    self.ops.push(Op::Call { func: fi, args: sp, dst: n, has_result: false });
                    self.ops.push(Op::IConst { dst: n, ty: MTy::I64, imm: 0 });
                }
                regs.push(n);
            },
            Step::CallVoid(name, rs) => {
                let fi = match find_decl(decls, name) {
                    Some(fi) => fi,
                    None => {
                        return Err(());
                    },
                };
                proof {
                    crate::mach::lemma_decl_index(decls@, name@);
                }
                let sl = match reg_slots_of(regs, rs) {
                    Some(v) => v,
                    None => {
                        return Err(());
                    },
                };
                let sp = self.push_args(&sl);
                let rv = decls[fi].rets.len() > 0;
                if rv {
                    self.types.push(decls[fi].rets[0]);
                }
                self.ops.push(Op::Call { func: fi, args: sp, dst: n, has_result: rv });
            },
            Step::CallIndirect(k, a, rs) => {
                if a >= nr {
                    return Err(());
                }
                let sl = match reg_slots_of(regs, rs) {
                    Some(v) => v,
                    None => {
                        return Err(());
                    },
                };
                let si = self.sigs.len();
                let sg = sig_new(k);
                let rt = sg.rets[0];
                self.sigs.push(sg);
                let sp = self.push_args(&sl);
                self.types.push(rt);
                self.ops.push(Op::CallIndirect { sig: si, addr: regs[a], args: sp, dst: n, has_result: true });
                regs.push(n);
                proof {
                    assert(self.sigs@.map_values(|g: Sig| (g.params@, g.rets@)) =~= st.sigs.push(sig_of(k)));
                }
            },
            _ => {
                return Err(());
            },
        }
        proof {
            assert(rstate(*self, regs@, bregs@) =~= step_spec(st, rctx(*old(self), decls@, sidx@, args@), s).unwrap());
        }
        Ok(())
    }

    /// Plans a block step: a new block or parameter, a jump or branch, a switch or a seal.
    fn run_block_step(
        &mut self,
        regs: &mut Vec<usize>,
        bregs: &mut Vec<usize>,
        decls: &Vec<Decl>,
        sidx: &Vec<usize>,
        args: &Vec<Value>,
        s: Step,
    ) -> (r: Result<(), ()>)
        requires
            old(self).wf(),
            regs_valid(old(regs)@, old(self).types@.len()),
            s is Block || s is Param || s is Jump || s is Brif || s is Switch || s is Seal,
        ensures
            r is Ok ==> old(self).ops@.is_prefix_of(final(self).ops@),
            final(self).wf(),
            final(self).vmap@ == old(self).vmap@,
            final(self).block_params@.len() >= old(self).block_params@.len(),
            regs_valid(final(regs)@, final(self).types@.len()),
            match step_spec(rstate(*old(self), old(regs)@, old(bregs)@), rctx(*old(self), decls@, sidx@, args@), s) {
                Some(st) => r is Ok && rstate(*final(self), final(regs)@, final(bregs)@) == st,
                None => r is Err,
            },
    {
        let ghost st = rstate(*self, regs@, bregs@);
        let n = self.types.len();
        let nr = regs.len();
        let _nd = decls.len();
        match s {
            Step::Block => {
                let b = self.block_params.len();
                self.block_params.push(Vec::new());
                self.ops.push(Op::CreateBlock { block: b });
                bregs.push(b);
                proof {
                    assert(self.block_params@.map_values(|v: Vec<MTy>| v@) =~= st.bparams.push(Seq::empty()));
                }
            },
            Step::Param(b, t) => {
                if b >= bregs.len() || bregs[b] >= self.block_params.len() {
                    return Err(());
                }
                let blk = bregs[b];
                let idx = self.block_params[blk].len();
                let mut v = crate::clflow::copy_types(&self.block_params[blk]);
                v.push(t);
                self.block_params.set(blk, v);
                self.types.push(t);
                self.ops.push(Op::AppendParam { block: blk, ty: t });
                self.ops.push(Op::BlockParam { dst: n, block: blk, index: idx });
                regs.push(n);
                proof {
                    assert(self.block_params@.map_values(|v: Vec<MTy>| v@) =~= st.bparams.update(blk as int, st.bparams[blk as int].push(t)));
                }
            },
            Step::Jump(b, rs) => {
                if b >= bregs.len() || bregs[b] >= self.block_params.len() {
                    return Err(());
                }
                let sl = match reg_slots_of(regs, rs) {
                    Some(v) => v,
                    None => {
                        return Err(());
                    },
                };
                let sp = self.push_args(&sl);
                self.ops.push(Op::Jump { block: bregs[b], args: sp });
            },
            Step::Brif(k, bt, rt, be, re) => {
                if k >= nr || bt >= bregs.len() || bregs[bt] >= self.block_params.len() || be >= bregs.len() || bregs[be] >= self.block_params.len() {
                    return Err(());
                }
                let s1 = match reg_slots_of(regs, rt) {
                    Some(v) => v,
                    None => {
                        return Err(());
                    },
                };
                let s2 = match reg_slots_of(regs, re) {
                    Some(v) => v,
                    None => {
                        return Err(());
                    },
                };
                let sp1 = self.push_args(&s1);
                let sp2 = self.push_args(&s2);
                self.ops.push(Op::Brif { cond: regs[k], then_block: bregs[bt], then_args: sp1, else_block: bregs[be], else_args: sp2 });
            },
            Step::Switch(b) => {
                if b >= bregs.len() || bregs[b] >= self.block_params.len() {
                    return Err(());
                }
                self.ops.push(Op::SwitchTo { block: bregs[b] });
            },
            Step::Seal(b) => {
                if b >= bregs.len() || bregs[b] >= self.block_params.len() {
                    return Err(());
                }
                self.ops.push(Op::Seal { block: bregs[b] });
            },
            _ => {
                return Err(());
            },
        }
        proof {
            assert(rstate(*self, regs@, bregs@) =~= step_spec(st, rctx(*old(self), decls@, sidx@, args@), s).unwrap());
        }
        Ok(())
    }

    /// Plans one recipe step (see [`step_spec`]).
    pub fn run_step(
        &mut self,
        regs: &mut Vec<usize>,
        bregs: &mut Vec<usize>,
        decls: &Vec<Decl>,
        sidx: &Vec<usize>,
        args: &Vec<Value>,
        s: Step,
    ) -> (r: Result<(), ()>)
        requires
            old(self).wf(),
            regs_valid(old(regs)@, old(self).types@.len()),
        ensures
            r is Ok ==> old(self).ops@.is_prefix_of(final(self).ops@),
            final(self).wf(),
            final(self).vmap@ == old(self).vmap@,
            final(self).block_params@.len() >= old(self).block_params@.len(),
            regs_valid(final(regs)@, final(self).types@.len()),
            match step_spec(rstate(*old(self), old(regs)@, old(bregs)@), rctx(*old(self), decls@, sidx@, args@), s) {
                Some(st) => r is Ok && rstate(*final(self), final(regs)@, final(bregs)@) == st,
                None => r is Err,
            },
    {
        match s {
            Step::Arg(_) | Step::IConst(..) | Step::F64Const(_) | Step::Str(_) | Step::FuncAddr(_) | Step::StackAddr(..) => {
                self.run_operand_step(regs, bregs, decls, sidx, args, s)
            },
            Step::Call(..) | Step::CallOrZero(..) | Step::CallVoid(..) | Step::CallIndirect(..) => {
                self.run_call_step(regs, bregs, decls, sidx, args, s)
            },
            Step::Block | Step::Param(..) | Step::Jump(..) | Step::Brif(..) | Step::Switch(_) | Step::Seal(_) => {
                self.run_block_step(regs, bregs, decls, sidx, args, s)
            },
            _ => self.run_arith_step(regs, bregs, decls, sidx, args, s),
        }
    }
}
} // verus!


verus! {

/// A failing step makes the whole recipe fail.
proof fn lemma_run_none_extends(st: RState, c: RCtx, steps: Seq<Step>, i: int)
    requires
        0 <= i <= steps.len(),
        run_spec(st, c, steps.subrange(0, i)) is None,
    ensures
        run_spec(st, c, steps) is None,
    decreases steps.len() - i,
{
    if i < steps.len() {
        assert(steps.subrange(0, i + 1).drop_last() =~= steps.subrange(0, i));
        lemma_run_none_extends(st, c, steps, i + 1);
    } else {
        assert(steps.subrange(0, i) =~= steps);
    }
}

/// Each of `r` indexes an entry of `entries` equal to the text at the same
/// position.
pub open spec fn interned_at(entries: Seq<String>, r: Seq<usize>, texts: Seq<&'static str>) -> bool {
    forall|j: int| 0 <= j < r.len() ==> r[j] < entries.len() && (#[trigger] entries[r[j] as int])@ == texts[j]@
}

/// Interns each of `texts` in order and returns their data indices.
pub fn intern_texts(strings: &mut StringTable, texts: &Vec<&'static str>) -> (r: Vec<usize>)
    ensures
        r@.len() == texts@.len(),
        old(strings).entries@.is_prefix_of(final(strings).entries@),
        interned_at(final(strings).entries@, r@, texts@),
{
    let mut r: Vec<usize> = Vec::new();
    let n = texts.len();
    let mut k: usize = 0;
    while k < n
        invariant
            n == texts@.len(),
            k <= n,
            r@.len() == k,
            old(strings).entries@.is_prefix_of(strings.entries@),
            interned_at(strings.entries@, r@, texts@.subrange(0, k as int)),
        decreases n - k,
    {
        let ghost before = strings.entries@;
        let ghost rb = r@;
        let d = strings.intern(texts[k]);
        proof {
            if strings.entries@ != before {
                assert(strings.entries@.drop_last() == before);
                assert(before =~= strings.entries@.subrange(0, before.len() as int));
            }
        }
        r.push(d);
        proof {
            assert forall|j: int| 0 <= j < r@.len() implies r@[j] < strings.entries@.len()
                && (#[trigger] strings.entries@[r@[j] as int])@ == texts@.subrange(0, k + 1)[j]@ by {
                if j < k {
                    assert(rb[j] == r@[j]);
                    assert(texts@.subrange(0, k as int)[j] == texts@.subrange(0, k + 1)[j]);
                    assert(before[rb[j] as int]@ == texts@.subrange(0, k as int)[j]@);
                    if strings.entries@ != before {
                        assert(strings.entries@.drop_last()[rb[j] as int] == strings.entries@[rb[j] as int]);
                    }
                }
            }
        }
        k = k + 1;
    }
    assert(texts@.subrange(0, n as int) =~= texts@);
    r
}

/// What running a recipe for a built-in does to the planner, and its result.
pub closed spec fn recipe_effect(pre: ClPlanner, post: ClPlanner, decls: Seq<Decl>, sidx: Seq<usize>, steps: Seq<Step>, result: usize, dst: Value, args: Seq<Value>, ok: bool) -> bool {
    &&& post.wf()
    &&& post.block_params@.len() >= pre.block_params@.len()
    &&& match run_spec(rstate(pre, seq![], seq![]), rctx(pre, decls, sidx, args), steps) {
                    Some(st) => if result < st.regs.len() {
                        &&& ok
                        &&& rstate(post, st.regs, st.bregs) == st
                        &&& post.vmap@ == pre.vmap@.insert(dst.0, st.regs[result as int])
                    } else {
                        !ok
                    },
                    None => !ok,
                }
}

impl ClPlanner {
    /// Plans recipe `rec` for a built-in whose arguments are `args`, with
    /// its strings at data indices `sidx`, and binds `dst` to the recipe's
    /// result register.
    pub fn lower_recipe(&mut self, decls: &Vec<Decl>, sidx: &Vec<usize>, rec: &Recipe, dst: Value, args: &Vec<Value>) -> (r: Result<(), ()>)
        requires
            old(self).wf(),
        ensures
        r is Ok ==> old(self).ops@.is_prefix_of(final(self).ops@),
        final(self).wf(),
        final(self).block_params@.len() >= old(self).block_params@.len(),
        recipe_effect(*old(self), *final(self), decls@, sidx@, rec.steps@, rec.result, dst, args@, r is Ok),

    {
        let ghost st0 = rstate(*self, seq![], seq![]);
        let ghost c = rctx(*self, decls@, sidx@, args@);
        let mut regs: Vec<usize> = Vec::new();
        let mut bregs: Vec<usize> = Vec::new();
        let n = rec.steps.len();
        for i in 0..n
            invariant
                n == rec.steps@.len(),
                self.wf(),
                self.vmap@ == old(self).vmap@,
                self.block_params@.len() >= old(self).block_params@.len(),
                c == rctx(*old(self), decls@, sidx@, args@),
                st0 == rstate(*old(self), seq![], seq![]),
                regs_valid(regs@, self.types@.len()),
                run_spec(st0, c, rec.steps@.subrange(0, i as int)) == Some(rstate(*self, regs@, bregs@)),
                old(self).ops@.is_prefix_of(self.ops@),
        {
            assert(rec.steps@.subrange(0, i + 1).drop_last() =~= rec.steps@.subrange(0, i as int));
            assert(rec.steps@.subrange(0, i + 1).last() == rec.steps@[i as int]);
            let ghost pre = *self;
            let step = rec.steps[i];
            match self.run_step(&mut regs, &mut bregs, decls, sidx, args, step) {
                Ok(()) => {},
                Err(()) => {
                    proof {
                        assert(rctx(pre, decls@, sidx@, args@) == c);
                        lemma_run_none_extends(st0, c, rec.steps@, i + 1);
                    }
                    return Err(());
                },
            }
            proof {
                assert(rctx(pre, decls@, sidx@, args@) == c);
                assert(old(self).ops@ =~= self.ops@.subrange(0, old(self).ops@.len() as int)) by {
                    assert(old(self).ops@ =~= pre.ops@.subrange(0, old(self).ops@.len() as int));
                    assert(pre.ops@ =~= self.ops@.subrange(0, pre.ops@.len() as int));
                }
            }
        }
        assert(rec.steps@.subrange(0, n as int) =~= rec.steps@);
        if rec.result >= regs.len() {
            return Err(());
        }
        self.bind(dst, regs[rec.result]);
        Ok(())
    }
}

} // verus!
