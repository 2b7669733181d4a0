//! Lowering of jumps and branches for the Cranelift backend: phi values
//! travel as block arguments, coerced to the target block's parameter types.

use vstd::prelude::*;
use std::collections::HashMap;
use crate::clinst::{first_missing, slots_of};
use crate::clplan::{not_found_msg, ClPlanner};
use crate::ir::{BlockRef, Value};
use crate::mach::{bits, spec_bits, Conv, MTy, Op, Span};

verus! {

broadcast use vstd::std_specs::hash::group_hash_axioms;

/// A phi instruction turned into a parameter of its block.
pub struct PhiInfo {
    pub dst: Value,
    pub target: u32,
    pub entries: Vec<(BlockRef, Value)>,
    pub param_index: usize,
}

/// The values passed from block `src` for the phis of block `t`, in phi
/// order and, within a phi, in entry order.
pub open spec fn jump_vals(phis: Seq<PhiInfo>, t: u32, src: u32) -> Seq<Value>
    decreases phis.len(),
{
    if phis.len() == 0 {
        Seq::empty()
    } else {
        let rest = jump_vals(phis.drop_last(), t, src);
        let p = phis.last();
        if p.target == t {
            rest + entry_vals(p.entries@, src)
        } else {
            rest
        }
    }
}

/// The values of the entries that come from `src`.
pub open spec fn entry_vals(es: Seq<(BlockRef, Value)>, src: u32) -> Seq<Value>
    decreases es.len(),
{
    if es.len() == 0 {
        Seq::empty()
    } else {
        let rest = entry_vals(es.drop_last(), src);
        if es.last().0.0 == src {
            rest.push(es.last().1)
        } else {
            rest
        }
    }
}

/// A jump from block `src` hands a phi with the single entry `e` that
/// entry's own value when `e` comes from `src`, and nothing otherwise.
pub proof fn law_entry_vals_single(e: (BlockRef, Value), src: u32)
    ensures
        entry_vals(seq![e], src) == (if e.0.0 == src { seq![e.1] } else { Seq::<Value>::empty() }),
{
    let one = seq![e];
    assert(one.len() == 1 && one.last() == e);
    assert(one.drop_last() =~= Seq::<(BlockRef, Value)>::empty());
    assert(entry_vals(one.drop_last(), src) == Seq::<Value>::empty());
    assert(Seq::<Value>::empty().push(e.1) =~= seq![e.1]);
}

/// The values a jump from `src` hands the phis of two runs of entries are
/// those of the first run followed by those of the second: each entry
/// contributes its own value, in entry order.
pub proof fn law_entry_vals_concat(es1: Seq<(BlockRef, Value)>, es2: Seq<(BlockRef, Value)>, src: u32)
    ensures
        entry_vals(es1 + es2, src) == entry_vals(es1, src) + entry_vals(es2, src),
    decreases es2.len(),
{
    if es2.len() == 0 {
        assert(es1 + es2 =~= es1);
        assert(entry_vals(es1, src) + Seq::<Value>::empty() =~= entry_vals(es1, src));
    } else {
        law_entry_vals_concat(es1, es2.drop_last(), src);
        assert((es1 + es2).drop_last() =~= es1 + es2.drop_last());
        assert((es1 + es2).last() == es2.last());
        if es2.last().0.0 == src {
            assert(entry_vals(es1, src) + entry_vals(es2.drop_last(), src).push(es2.last().1)
                =~= (entry_vals(es1, src) + entry_vals(es2.drop_last(), src)).push(es2.last().1));
        }
    }
}

/// A jump from `src` to block `t` hands a single phi the values of its
/// entries from `src` when the phi belongs to `t`, and nothing otherwise.
pub proof fn law_jump_vals_single(p: PhiInfo, t: u32, src: u32)
    ensures
        jump_vals(seq![p], t, src) == (if p.target == t { entry_vals(p.entries@, src) } else { Seq::<Value>::empty() }),
{
    let one = seq![p];
    assert(one.len() == 1 && one.last() == p);
    assert(one.drop_last() =~= Seq::<PhiInfo>::empty());
    assert(jump_vals(one.drop_last(), t, src) == Seq::<Value>::empty());
    assert(Seq::<Value>::empty() + entry_vals(p.entries@, src) =~= entry_vals(p.entries@, src));
}

/// The values a jump hands two runs of phis are those it hands the first
/// run followed by those it hands the second, in phi order.
pub proof fn law_jump_vals_concat(ps1: Seq<PhiInfo>, ps2: Seq<PhiInfo>, t: u32, src: u32)
    ensures
        jump_vals(ps1 + ps2, t, src) == jump_vals(ps1, t, src) + jump_vals(ps2, t, src),
    decreases ps2.len(),
{
    if ps2.len() == 0 {
        assert(ps1 + ps2 =~= ps1);
        assert(jump_vals(ps1, t, src) + Seq::<Value>::empty() =~= jump_vals(ps1, t, src));
    } else {
        law_jump_vals_concat(ps1, ps2.drop_last(), t, src);
        assert((ps1 + ps2).drop_last() =~= ps1 + ps2.drop_last());
        assert((ps1 + ps2).last() == ps2.last());
        if ps2.last().target == t {
            assert(jump_vals(ps1, t, src) + (jump_vals(ps2.drop_last(), t, src) + entry_vals(ps2.last().entries@, src))
                =~= (jump_vals(ps1, t, src) + jump_vals(ps2.drop_last(), t, src)) + entry_vals(ps2.last().entries@, src));
        }
    }
}

/// The operations, new slot types and result slots that coerce the first
/// `k` argument slots `args` (of types `tys`) to parameter types `params`: an
/// argument of the parameter's type is passed as is, a narrower one is
/// zero-extended and a wider (or equally wide) one is narrowed. New slots are
/// numbered from `next`.
pub open spec fn coerce_upto(args: Seq<usize>, tys: Seq<MTy>, params: Seq<MTy>, next: int, k: nat) -> (Seq<Op>, Seq<MTy>, Seq<usize>)
    decreases k,
{
    if k == 0 {
        (Seq::empty(), Seq::empty(), Seq::empty())
    } else {
        let (po, pt, ps) = coerce_upto(args, tys, params, next, (k - 1) as nat);
        let a = args[k - 1];
        let actual = tys[k - 1];
        let expected = params[k - 1];
        let n = (next + pt.len()) as usize;
        if actual == expected {
            (po, pt, ps.push(a))
        } else if spec_bits(actual) < spec_bits(expected) {
            (po.push(Op::Convert { dst: n, conv: Conv::UExtend, ty: expected, a }), pt.push(expected), ps.push(n))
        } else {
            (po.push(Op::Convert { dst: n, conv: Conv::IReduce, ty: expected, a }), pt.push(expected), ps.push(n))
        }
    }
}

/// Coercion of arguments to parameters, paired up to the shorter length.
pub open spec fn coerce_spec(args: Seq<usize>, tys: Seq<MTy>, params: Seq<MTy>, next: int) -> (Seq<Op>, Seq<MTy>, Seq<usize>) {
    coerce_upto(args, tys, params, next, if args.len() < params.len() { args.len() } else { params.len() })
}

/// Collects the values passed from `src` to the phis of `t`.
pub fn collect_jump_vals(phis: &Vec<PhiInfo>, t: u32, src: u32) -> (r: Vec<Value>)
    ensures
        r@ == jump_vals(phis@, t, src),
{
    let mut r: Vec<Value> = Vec::new();
    let n = phis.len();
    for i in 0..n
        invariant
            n == phis@.len(),
            r@ == jump_vals(phis@.subrange(0, i as int), t, src),
    {
        assert(phis@.subrange(0, i + 1).drop_last() =~= phis@.subrange(0, i as int));
        if phis[i].target == t {
            let es = &phis[i].entries;
            let m = es.len();
            let ghost base = r@;
            for j in 0..m
                invariant
                    m == es@.len(),
                    r@ == base + entry_vals(es@.subrange(0, j as int), src),
            {
                assert(es@.subrange(0, j + 1).drop_last() =~= es@.subrange(0, j as int));
                if es[j].0.0 == src {
                    r.push(es[j].1);
                }
                assert(r@ =~= base + entry_vals(es@.subrange(0, j + 1), src));
            }
            assert(es@.subrange(0, m as int) =~= es@);
        }
    }
    assert(phis@.subrange(0, n as int) =~= phis@);
    r
}

impl ClPlanner {
    /// Coerces argument slots to the parameter types (see [`coerce_spec`]).
    pub fn coerce(&mut self, args: &Vec<usize>, params: &Vec<MTy>) -> (r: Vec<usize>)
        requires
            old(self).wf(),
            forall|i: int| 0 <= i < args@.len() ==> args@[i] < old(self).types@.len(),
        ensures
            final(self).wf(),
            final(self).vmap@ == old(self).vmap@,
            ({
                let c = coerce_spec(args@, args@.map_values(|s: usize| old(self).types@[s as int]), params@, old(self).types@.len() as int);
                &&& final(self).appended(old(self), c.0, c.1)
                &&& r@ == c.2
            }),
    {
        let ghost tys = args@.map_values(|s: usize| old(self).types@[s as int]);
        let ghost next = old(self).types@.len() as int;
        let n = if args.len() < params.len() { args.len() } else { params.len() };
        let mut out: Vec<usize> = Vec::new();
        for i in 0..n
            invariant
                n <= args@.len(),
                n <= params@.len(),
                n == (if args@.len() < params@.len() { args@.len() } else { params@.len() }),
                tys == args@.map_values(|s: usize| old(self).types@[s as int]),
                next == old(self).types@.len(),
                forall|q: int| 0 <= q < args@.len() ==> args@[q] < old(self).types@.len(),
                self.wf(),
                self.vmap@ == old(self).vmap@,
                ({
                    let c = coerce_upto(args@, tys, params@, next, i as nat);
                    &&& self.appended(old(self), c.0, c.1)
                    &&& out@ == c.2
                }),
        {
            let a = args[i];
            let actual = self.types[a];
            let expected = params[i];
            let ghost before = *self;
            let ghost c0 = coerce_upto(args@, tys, params@, next, i as nat);
            assert(tys[i as int] == old(self).types@[a as int]);
            assert(actual == tys[i as int]) by {
                assert(self.types@ == old(self).types@ + c0.1);
            }
            if actual == expected {
                out.push(a);
            } else if bits(actual) < bits(expected) {
                let s = self.convert(Conv::UExtend, expected, a);
                out.push(s);
            } else {
                let s = self.convert(Conv::IReduce, expected, a);
                out.push(s);
            }
            proof {
                let c1 = coerce_upto(args@, tys, params@, next, (i + 1) as nat);
                assert(before.types@.len() == next + c0.1.len());
                assert(self.ops@ =~= old(self).ops@ + c1.0);
                assert(self.types@ =~= old(self).types@ + c1.1);
                assert(out@ =~= c1.2);
            }
        }
        out
    }
}

} // verus!

verus! {

/// The message for a jump to a label that has no block.
pub open spec fn missing_block_msg(l: u32) -> Seq<char> {
    "Target block BlockRef("@ + crate::text::decimal(l as nat) + ") not found"@
}

/// A copy of a list of machine types.
pub fn copy_types(v: &Vec<MTy>) -> (r: Vec<MTy>)
    ensures
        r@ == v@,
{
    let mut r: Vec<MTy> = Vec::new();
    let n = v.len();
    for i in 0..n
        invariant
            n == v@.len(),
            r@ == v@.subrange(0, i as int),
    {
        r.push(v[i]);
        assert(r@ =~= v@.subrange(0, i + 1));
    }
    assert(v@.subrange(0, n as int) =~= v@);
    r
}

/// Plan blocks named by a label map all exist.
pub open spec fn blocks_exist(block_of: Map<u32, usize>, nblocks: nat) -> bool {
    forall|k: u32| block_of.contains_key(k) ==> block_of[k] < nblocks
}

/// What lowering `Jump` does to the planner, and its result.
pub closed spec fn jump_effect(pre: ClPlanner, post: ClPlanner, block_of: HashMap<u32, usize>, phis: Vec<PhiInfo>, src: u32, target: BlockRef, r: Result<(), String>) -> bool {
    &&& post.wf()
    &&& post.vmap@ == pre.vmap@
    &&& post.same_tables(&pre)
    &&& !block_of@.contains_key(target.0) ==> (r matches Err(m) && m@ == missing_block_msg(target.0))
    &&& block_of@.contains_key(target.0) ==> {
                    let tb = block_of@[target.0];
                    let vals = jump_vals(phis@, target.0, src);
                    match slots_of(pre, vals) {
                        None => r matches Err(m) && m@ == not_found_msg(first_missing(pre, vals).0),
                        Some(sl) => r is Ok && {
                            let c = coerce_spec(sl, sl.map_values(|s: usize| pre.types@[s as int]), pre.block_params@[tb as int]@, pre.types@.len() as int);
                            &&& post.ops@ == pre.ops@ + c.0 + seq![Op::Jump { block: tb, args: Span { start: pre.args@.len() as usize, len: c.2.len() as usize } }]
                            &&& post.types@ == pre.types@ + c.1
                            &&& post.args@ == pre.args@ + c.2
                        },
                    }
                }
}

/// What lowering `Branch` does to the planner, and its result.
pub closed spec fn branch_effect(pre: ClPlanner, post: ClPlanner, block_of: HashMap<u32, usize>, phis: Vec<PhiInfo>, src: u32, cond: Value, tl: BlockRef, el: BlockRef, r: Result<(), String>) -> bool {
    &&& post.wf()
    &&& post.vmap@ == pre.vmap@
    &&& post.same_tables(&pre)
    &&& pre.slot(cond) is None ==> (r matches Err(m) && m@ == not_found_msg(cond.0))
    &&& pre.slot(cond) is Some && !block_of@.contains_key(tl.0) ==> (r matches Err(m) && m@ == missing_block_msg(tl.0))
    &&& pre.slot(cond) is Some && block_of@.contains_key(tl.0) && !block_of@.contains_key(el.0) ==> (r matches Err(m) && m@ == missing_block_msg(el.0))
    &&& pre.slot(cond) is Some && block_of@.contains_key(tl.0) && block_of@.contains_key(el.0) ==> {
                    let tb = block_of@[tl.0];
                    let eb = block_of@[el.0];
                    let tv = jump_vals(phis@, tl.0, src);
                    let ev = jump_vals(phis@, el.0, src);
                    match (slots_of(pre, tv), slots_of(pre, ev)) {
                        (None, _) => r matches Err(m) && m@ == not_found_msg(first_missing(pre, tv).0),
                        (Some(_), None) => r matches Err(m) && m@ == not_found_msg(first_missing(pre, ev).0),
                        (Some(ts), Some(es)) => r is Ok && {
                            let ct = coerce_spec(ts, ts.map_values(|s: usize| pre.types@[s as int]), pre.block_params@[tb as int]@, pre.types@.len() as int);
                            let ce = coerce_spec(es, es.map_values(|s: usize| pre.types@[s as int]), pre.block_params@[eb as int]@, (pre.types@.len() + ct.1.len()) as int);
                            let a0 = pre.args@.len();
                            &&& post.ops@ == pre.ops@ + ct.0 + ce.0 + seq![Op::Brif {
                                cond: pre.vmap@[cond.0],
                                then_block: tb,
                                then_args: Span { start: a0 as usize, len: ct.2.len() as usize },
                                else_block: eb,
                                else_args: Span { start: (a0 + ct.2.len()) as usize, len: ce.2.len() as usize },
                            }]
                            &&& post.types@ == pre.types@ + ct.1 + ce.1
                            &&& post.args@ == pre.args@ + ct.2 + ce.2
                        },
                    }
                }
}

impl ClPlanner {
    /// The plan block for label `l`.
    pub fn block_for(&self, block_of: &HashMap<u32, usize>, l: BlockRef) -> (r: Result<usize, String>)
        requires
            blocks_exist(block_of@, self.block_params@.len()),
        ensures
            match r {
                Ok(b) => block_of@.contains_key(l.0) && b == block_of@[l.0] && b < self.block_params@.len(),
                Err(m) => !block_of@.contains_key(l.0) && m@ == missing_block_msg(l.0),
            },
    {
        match block_of.get(&l.0) {
            Some(b) => Ok(*b),
            None => Err(crate::text::with_number("Target block BlockRef(", l.0 as u64, ") not found")),
        }
    }

    /// The coerced arguments for a jump from `src` to plan block `tb` (the
    /// block of label `t`).
    pub fn jump_args(&mut self, phis: &Vec<PhiInfo>, src: u32, t: u32, tb: usize) -> (r: Result<Vec<usize>, String>)
        requires
            old(self).wf(),
            tb < old(self).block_params@.len(),
        ensures
            final(self).wf(),
            final(self).vmap@ == old(self).vmap@,
            final(self).same_tables(old(self)),
            match slots_of(*old(self), jump_vals(phis@, t, src)) {
                None => r matches Err(m) && m@ == not_found_msg(first_missing(*old(self), jump_vals(phis@, t, src)).0)
                    && final(self).ops@ == old(self).ops@,
                Some(sl) => r matches Ok(out) && {
                    let c = coerce_spec(sl, sl.map_values(|s: usize| old(self).types@[s as int]), old(self).block_params@[tb as int]@, old(self).types@.len() as int);
                    &&& final(self).appended(old(self), c.0, c.1)
                    &&& out@ == c.2
                },
            },
    {
        let vals = collect_jump_vals(phis, t, src);
        let slots = self.resolve_all(&vals)?;
        let params = copy_types(&self.block_params[tb]);
        let out = self.coerce(&slots, &params);
        Ok(out)
    }

    /// Lowers `Jump(target)` from block `src`.
    pub fn lower_jump(&mut self, block_of: &HashMap<u32, usize>, phis: &Vec<PhiInfo>, src: u32, target: BlockRef) -> (r: Result<(), String>)
        requires
            old(self).wf(),
            blocks_exist(block_of@, old(self).block_params@.len()),
        ensures
        r is Ok ==> old(self).ops@.is_prefix_of(final(self).ops@),
        final(self).wf(),
        final(self).block_params@.len() >= old(self).block_params@.len(),
        jump_effect(*old(self), *final(self), *block_of, *phis, src, target, r),

    {
        let tb = self.block_for(block_of, target)?;
        let out = self.jump_args(phis, src, target.0, tb)?;
        let sp = self.push_args(&out);
        self.put(Op::Jump { block: tb, args: sp });
        Ok(())
    }

    /// Lowers `Branch(cond, then, else)` from block `src`.
    pub fn lower_branch(&mut self, block_of: &HashMap<u32, usize>, phis: &Vec<PhiInfo>, src: u32, cond: Value, tl: BlockRef, el: BlockRef) -> (r: Result<(), String>)
        requires
            old(self).wf(),
            blocks_exist(block_of@, old(self).block_params@.len()),
        ensures
        r is Ok ==> old(self).ops@.is_prefix_of(final(self).ops@),
        final(self).wf(),
        final(self).block_params@.len() >= old(self).block_params@.len(),
        branch_effect(*old(self), *final(self), *block_of, *phis, src, cond, tl, el, r),

    {
        let c = self.resolve(cond)?;
        let tb = self.block_for(block_of, tl)?;
        let eb = self.block_for(block_of, el)?;
        let tvals = collect_jump_vals(phis, tl.0, src);
        let tslots = self.resolve_all(&tvals)?;
        let evals = collect_jump_vals(phis, el.0, src);
        let eslots = self.resolve_all(&evals)?;
        let tparams = copy_types(&self.block_params[tb]);
        let targs = self.coerce(&tslots, &tparams);
        let ghost mid = *self;
        let eparams = copy_types(&self.block_params[eb]);
        proof {
            assert forall|q: int| 0 <= q < eslots@.len() implies eslots@[q] < mid.types@.len() by {}
            assert(eslots@.map_values(|s: usize| mid.types@[s as int]) =~= eslots@.map_values(|s: usize| old(self).types@[s as int]));
        }
        let eargs = self.coerce(&eslots, &eparams);
        let tsp = self.push_args(&targs);
        let esp = self.push_args(&eargs);
        self.put(Op::Brif { cond: c, then_block: tb, then_args: tsp, else_block: eb, else_args: esp });
        proof {
            let ts = tslots@;
            let es = eslots@;
            let ct = coerce_spec(ts, ts.map_values(|s: usize| old(self).types@[s as int]), old(self).block_params@[tb as int]@, old(self).types@.len() as int);
            let ce = coerce_spec(es, es.map_values(|s: usize| old(self).types@[s as int]), old(self).block_params@[eb as int]@, (old(self).types@.len() + ct.1.len()) as int);
            assert(mid.types@.len() == old(self).types@.len() + ct.1.len());
            assert(self.ops@ =~= old(self).ops@ + ct.0 + ce.0 + seq![Op::Brif { cond: c, then_block: tb, then_args: tsp, else_block: eb, else_args: esp }]);
            assert(self.types@ =~= old(self).types@ + ct.1 + ce.1);
            assert(self.args@ =~= old(self).args@ + ct.2 + ce.2);
        }
        Ok(())
    }
}

} // verus!
