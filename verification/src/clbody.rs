//! Planning a whole function body for the Cranelift backend: one block per
//! reachable IR block (created up front, in order), the function's
//! parameters on the entry block, one block parameter per phi, the lowering
//! of each block's instructions up to its first terminator, and the sealing
//! of blocks: a block is sealed after its own instructions, except a loop
//! header, which is sealed once every jump or branch into it has been
//! planned.

use vstd::prelude::*;
use std::collections::HashMap;
use crate::cfg::{all_targets, block_targets, contains_u32, reachable, reachable_labels, targets_of};
use crate::clflow::{blocks_exist, PhiInfo};
use crate::clfunc::{filter_phi_entries, inst_effect, is_loop_header, is_terminator, kept_entries, loop_headers, phi_type, spec_phi_type};
use crate::clplan::ClPlanner;
use crate::ir::{BasicBlock, BlockRef, Function, Instruction, Type, Value};
use crate::mach::{decl_index, Conv, Decl, MTy, Op, StringTable};
use crate::clmem::not_declared_msg;
use crate::text::str_eq;

verus! {

broadcast use vstd::std_specs::hash::group_hash_axioms;

/// The number of times `t` occurs in `s`.
pub open spec fn count_of(s: Seq<u32>, t: u32) -> nat
    decreases s.len(),
{
    if s.len() == 0 {
        0
    } else {
        count_of(s.drop_last(), t) + if s.last() == t { 1nat } else { 0nat }
    }
}

/// `n`, or `usize::MAX` when `n` does not fit.
pub open spec fn sat(n: nat) -> usize {
    if n <= usize::MAX { n as usize } else { usize::MAX }
}

/// The number of jump and branch edges into `t`, over all blocks (reachable
/// or not), saturating at `usize::MAX`.
pub fn predecessor_count(blocks: &Vec<BasicBlock>, t: u32) -> (r: usize)
    ensures
        r == sat(count_of(all_targets(blocks@), t)),
{
    let mut c: usize = 0;
    let n = blocks.len();
    for i in 0..n
        invariant
            n == blocks@.len(),
            c == sat(count_of(all_targets(blocks@.subrange(0, i as int)), t)),
    {
        let ts = block_targets(&blocks[i]);
        let ghost before = all_targets(blocks@.subrange(0, i as int));
        assert(blocks@.subrange(0, i + 1).drop_last() =~= blocks@.subrange(0, i as int));
        assert(blocks@.subrange(0, i + 1).last() == blocks@[i as int]);
        let m = ts.len();
        for k in 0..m
            invariant
                m == ts@.len(),
                c == sat(count_of(before + ts@.subrange(0, k as int), t)),
        {
            assert((before + ts@.subrange(0, k + 1)).drop_last() =~= before + ts@.subrange(0, k as int));
            if ts[k] == t && c < usize::MAX {
                c = c + 1;
            }
        }
        assert(ts@.subrange(0, m as int) =~= ts@);
    }
    assert(blocks@.subrange(0, n as int) =~= blocks@);
    c
}

/// The index of the first occurrence of `t` in `v`.
pub fn position_u32(v: &Vec<u32>, t: u32) -> (r: Option<usize>)
    ensures
        match r {
            Some(i) => i < v@.len() && v@[i as int] == t && forall|j: int| 0 <= j < i ==> v@[j] != t,
            None => !v@.contains(t),
        },
{
    let n = v.len();
    for i in 0..n
        invariant
            n == v@.len(),
            forall|j: int| 0 <= j < i ==> v@[j] != t,
    {
        if v[i] == t {
            return Some(i);
        }
    }
    None
}

/// The number of blocks among the first `i` whose label is reachable.
pub open spec fn reach_count(blocks: Seq<BasicBlock>, i: int) -> nat
    decreases i,
{
    if i <= 0 {
        0
    } else {
        reach_count(blocks, i - 1) + if reachable(blocks, blocks[i - 1].label.0) { 1nat } else { 0nat }
    }
}

/// Some block is labelled `l`.
pub open spec fn has_block(blocks: Seq<BasicBlock>, l: u32) -> bool {
    exists|j: int| 0 <= j < blocks.len() && #[trigger] blocks[j].label.0 == l
}

/// The sealing bookkeeping of the loop headers: for header `h`, the number
/// of edges into it, the number planned so far, and whether its sealing
/// waits for the rest.
pub struct SealState {
    pub headers: Vec<u32>,
    pub expected: Vec<usize>,
    pub emitted: Vec<usize>,
    pub deferred: Vec<bool>,
}

impl SealState {
    pub open spec fn wf(&self) -> bool {
        &&& self.expected@.len() == self.headers@.len()
        &&& self.emitted@.len() == self.headers@.len()
        &&& self.deferred@.len() == self.headers@.len()
    }

    /// The loop headers of `blocks`, each expecting its number of incoming
    /// edges, none planned yet.
    pub fn new(blocks: &Vec<BasicBlock>) -> (r: SealState)
        ensures
            r.wf(),
            forall|t: u32| r.headers@.contains(t) <==> is_loop_header(blocks@, t),
            forall|h: int| 0 <= h < r.headers@.len() ==> r.expected@[h] == sat(count_of(all_targets(blocks@), r.headers@[h])),
            forall|h: int| 0 <= h < r.headers@.len() ==> r.emitted@[h] == 0 && !r.deferred@[h],
    {
        let headers = loop_headers(blocks);
        let nh = headers.len();
        let mut expected: Vec<usize> = Vec::new();
        let mut emitted: Vec<usize> = Vec::new();
        let mut deferred: Vec<bool> = Vec::new();
        for h in 0..nh
            invariant
                nh == headers@.len(),
                expected@.len() == h,
                emitted@.len() == h,
                deferred@.len() == h,
                forall|j: int| 0 <= j < h ==> expected@[j] == sat(count_of(all_targets(blocks@), headers@[j])),
                forall|j: int| 0 <= j < h ==> emitted@[j] == 0 && !deferred@[j],
        {
            expected.push(predecessor_count(blocks, headers[h]));
            emitted.push(0);
            deferred.push(false);
        }
        SealState { headers, expected, emitted, deferred }
    }
}

/// The phis among the first `m` instructions of block `label`: each
/// phi's destination, its block and its kept entries.
pub open spec fn block_phis(blocks: Seq<BasicBlock>, label: u32, insts: Seq<Instruction>, m: int) -> Seq<(Value, u32, Seq<(BlockRef, Value)>)>
    decreases m,
{
    if m <= 0 {
        Seq::empty()
    } else {
        let a = block_phis(blocks, label, insts, m - 1);
        match insts[m - 1] {
            Instruction::Phi(dst, es) => a.push((dst, label, kept_entries(blocks, es@, label))),
            _ => a,
        }
    }
}

/// The phis of the reachable blocks among the first `n` blocks, in order.
pub open spec fn reachable_phis(blocks: Seq<BasicBlock>, reach: Seq<u32>, n: int) -> Seq<(Value, u32, Seq<(BlockRef, Value)>)>
    decreases n,
{
    if n <= 0 {
        Seq::empty()
    } else {
        let a = reachable_phis(blocks, reach, n - 1);
        let blk = blocks[n - 1];
        if reach.contains(blk.label.0) {
            a + block_phis(blocks, blk.label.0, blk.instructions@, blk.instructions@.len() as int)
        } else {
            a
        }
    }
}

/// How many of `ps` belong to block `t`.
pub open spec fn phis_of(ps: Seq<(Value, u32, Seq<(BlockRef, Value)>)>, t: u32) -> nat
    decreases ps.len(),
{
    if ps.len() == 0 {
        0
    } else {
        phis_of(ps.drop_last(), t) + if ps.last().1 == t { 1nat } else { 0nat }
    }
}

/// The block parameter operations for `ps`: one per phi whose block has a
/// planned block, of the phi's type.
pub open spec fn phi_param_ops(ps: Seq<(Value, u32, Seq<(BlockRef, Value)>)>, block_of: Map<u32, usize>, vt: Map<u32, Type>) -> Seq<Op>
    decreases ps.len(),
{
    if ps.len() == 0 {
        Seq::empty()
    } else {
        let a = phi_param_ops(ps.drop_last(), block_of, vt);
        let p = ps.last();
        if block_of.contains_key(p.1) {
            a.push(Op::AppendParam { block: block_of[p.1], ty: spec_phi_type(vt, p.2, p.0) })
        } else {
            a
        }
    }
}

/// `r` describes the phis `ps`: same destinations, blocks and entries, and
/// each phi's parameter index counts the earlier phis of its block.
pub open spec fn phi_infos_match(r: Seq<PhiInfo>, ps: Seq<(Value, u32, Seq<(BlockRef, Value)>)>) -> bool {
    &&& r.len() == ps.len()
    &&& forall|k: int| 0 <= k < r.len() ==> {
        &&& (#[trigger] r[k]).dst == ps[k].0
        &&& r[k].target == ps[k].1
        &&& r[k].entries@ == ps[k].2
        &&& r[k].param_index == sat(phis_of(ps.subrange(0, k), ps[k].1))
    }
}

proof fn lemma_phi_push(r: Seq<PhiInfo>, ps: Seq<(Value, u32, Seq<(BlockRef, Value)>)>, info: PhiInfo, x: (Value, u32, Seq<(BlockRef, Value)>))
    requires
        phi_infos_match(r, ps),
        info.dst == x.0,
        info.target == x.1,
        info.entries@ == x.2,
        info.param_index == sat(phis_of(ps, x.1)),
    ensures
        phi_infos_match(r.push(info), ps.push(x)),
        forall|t: u32| phis_of(ps.push(x), t) == phis_of(ps, t) + if x.1 == t { 1nat } else { 0nat },
{
    let ps2 = ps.push(x);
    assert(ps2.drop_last() =~= ps);
    assert(ps2.subrange(0, ps.len() as int) =~= ps);
    assert forall|k: int| 0 <= k < r.len() + 1 implies {
        &&& (#[trigger] r.push(info)[k]).dst == ps2[k].0
        &&& r.push(info)[k].target == ps2[k].1
        &&& r.push(info)[k].entries@ == ps2[k].2
        &&& r.push(info)[k].param_index == sat(phis_of(ps2.subrange(0, k), ps2[k].1))
    } by {
        if k < r.len() {
            assert(ps2.subrange(0, k) =~= ps.subrange(0, k));
            assert(r.push(info)[k] == r[k]);
        }
    }
}

/// The index of the first occurrence of `t` in `v`, if any.
pub open spec fn first_pos(v: Seq<u32>, t: u32) -> Option<int> {
    if v.contains(t) {
        Some(choose|i: int| 0 <= i < v.len() && v[i] == t && forall|j: int| 0 <= j < i ==> v[j] != t)
    } else {
        None
    }
}

proof fn lemma_first_pos(v: Seq<u32>, t: u32, i: int)
    requires
        0 <= i < v.len(),
        v[i] == t,
        forall|j: int| 0 <= j < i ==> v[j] != t,
    ensures
        first_pos(v, t) == Some(i),
{
    assert(v.contains(t));
    let c = choose|c: int| 0 <= c < v.len() && v[c] == t && forall|j: int| 0 <= j < c ==> v[j] != t;
    assert(0 <= c < v.len() && v[c] == t && forall|j: int| 0 <= j < c ==> v[j] != t);
    if c < i {
        assert(v[c] != t);
    } else if c > i {
        assert(v[i] != t);
    }
}

/// The sealing bookkeeping (edges planned into each loop header, whose
/// sealing waits) and the seal operations planned so far.
pub type SealTrack = (Seq<usize>, Seq<bool>, Seq<Op>);

/// Planning an edge into `t`: if `t` is a loop header, it counts one more
/// planned edge (saturating), and if that completes its edges while its
/// sealing waits, its block is sealed and stops waiting.
pub open spec fn seal_edge(tr: SealTrack, headers: Seq<u32>, expected: Seq<usize>, block_of: Map<u32, usize>, t: u32) -> SealTrack {
    match first_pos(headers, t) {
        Some(h) => {
            let e = tr.0[h];
            let e2: usize = if e < usize::MAX { (e + 1) as usize } else { e };
            let em = tr.0.update(h, e2);
            if e2 >= expected[h] && tr.1[h] {
                (em, tr.1.update(h, false), if block_of.contains_key(t) { tr.2.push(Op::Seal { block: block_of[t] }) } else { tr.2 })
            } else {
                (em, tr.1, tr.2)
            }
        },
        None => tr,
    }
}

/// Planning the edges into `targets`, in order.
pub open spec fn seal_edges(tr: SealTrack, headers: Seq<u32>, expected: Seq<usize>, block_of: Map<u32, usize>, targets: Seq<u32>) -> SealTrack
    decreases targets.len(),
{
    if targets.len() == 0 {
        tr
    } else {
        seal_edge(seal_edges(tr, headers, expected, block_of, targets.drop_last()), headers, expected, block_of, targets.last())
    }
}

/// Sealing block `label` (plan block `cb`) after its edges: it is sealed,
/// unless it is a loop header with edges still to come, whose sealing then
/// waits.
pub open spec fn seal_own(tr: SealTrack, headers: Seq<u32>, expected: Seq<usize>, label: u32, cb: usize) -> SealTrack {
    match first_pos(headers, label) {
        Some(h) => if tr.0[h] >= expected[h] {
            (tr.0, tr.1, tr.2.push(Op::Seal { block: cb }))
        } else {
            (tr.0, tr.1.update(h, true), tr.2)
        },
        None => (tr.0, tr.1, tr.2.push(Op::Seal { block: cb })),
    }
}

/// The value map after binding the first `n` function parameters: IR value
/// `i` (as a 32-bit number) is held by parameter slot `extra + i`, where
/// that slot exists (and its number fits in a `usize`).
pub open spec fn bound_params(vmap: Map<u32, usize>, params: Seq<usize>, extra: int, n: int) -> Map<u32, usize>
    decreases n,
{
    if n <= 0 {
        vmap
    } else {
        let m = bound_params(vmap, params, extra, n - 1);
        if n - 1 + extra <= usize::MAX && n - 1 + extra < params.len() {
            m.insert((n - 1) as u32, params[n - 1 + extra])
        } else {
            m
        }
    }
}

/// The value map after binding the first `n` of `phis` that belong to
/// block `l`: each phi's value is held by block parameter `base` plus its
/// parameter index, where that parameter exists (and its number fits in a
/// `usize`).
pub open spec fn bound_phis(vmap: Map<u32, usize>, phis: Seq<PhiInfo>, l: u32, base: int, params: Seq<usize>, n: int) -> Map<u32, usize>
    decreases n,
{
    if n <= 0 {
        vmap
    } else {
        let m = bound_phis(vmap, phis, l, base, params, n - 1);
        let ph = phis[n - 1];
        if ph.target == l && base + ph.param_index <= usize::MAX && base + ph.param_index < params.len() {
            m.insert(ph.dst.0, params[base + ph.param_index])
        } else {
            m
        }
    }
}

impl ClPlanner {
    /// Plans the seals after block `label` (plan block `cb`, whose jump
    /// targets are `targets`): each loop header among the targets counts one
    /// more planned edge and is sealed if that was its last one and its
    /// sealing was waiting; then the block itself is sealed, unless it is a
    /// loop header with edges still to come, whose sealing then waits.
    pub fn plan_seals(&mut self, st: &mut SealState, block_of: &HashMap<u32, usize>, label: u32, cb: usize, targets: &Vec<u32>)
        requires
            old(self).wf(),
            old(st).wf(),
        ensures
            final(self).wf(),
            final(st).wf(),
            final(st).headers@ == old(st).headers@,
            final(st).expected@ == old(st).expected@,
            final(self).types@ == old(self).types@,
            final(self).args@ == old(self).args@,
            final(self).vmap@ == old(self).vmap@,
            final(self).same_tables(old(self)),
            old(self).ops@.is_prefix_of(final(self).ops@),
            ({
                let tr = seal_own(seal_edges((old(st).emitted@, old(st).deferred@, Seq::<Op>::empty()), old(st).headers@,
                    old(st).expected@, block_of@, targets@), old(st).headers@, old(st).expected@, label, cb);
                &&& final(st).emitted@ == tr.0
                &&& final(st).deferred@ == tr.1
                &&& final(self).ops@ == old(self).ops@ + tr.2
            }),
    {
        let m = targets.len();
        for k in 0..m
            invariant
                ({
                    let tr = seal_edges((old(st).emitted@, old(st).deferred@, Seq::<Op>::empty()), old(st).headers@,
                        old(st).expected@, block_of@, targets@.subrange(0, k as int));
                    &&& st.emitted@ == tr.0
                    &&& st.deferred@ == tr.1
                    &&& self.ops@ == old(self).ops@ + tr.2
                }),
                m == targets@.len(),
                self.wf(),
                st.wf(),
                st.headers@ == old(st).headers@,
                st.expected@ == old(st).expected@,
                self.types@ == old(self).types@,
                self.args@ == old(self).args@,
                self.vmap@ == old(self).vmap@,
                self.same_tables(old(self)),
                old(self).ops@.is_prefix_of(self.ops@),
        {
            proof {
                assert(targets@.subrange(0, k + 1).drop_last() =~= targets@.subrange(0, k as int));
                assert(targets@.subrange(0, k + 1).last() == targets@[k as int]);
            }
            let t = targets[k];
            let pos = position_u32(&st.headers, t);
            proof {
                if let Some(h) = pos {
                    lemma_first_pos(st.headers@, t, h as int);
                }
            }
            match pos {
                Some(h) => {
                    let e = st.emitted[h];
                    let e2 = if e < usize::MAX { e + 1 } else { e };
                    st.emitted.set(h, e2);
                    if e2 >= st.expected[h] && st.deferred[h] {
                        match block_of.get(&t) {
                            Some(tb) => {
                                self.put(Op::Seal { block: *tb });
                            },
                            None => {},
                        }
                        st.deferred.set(h, false);
                    }
                },
                None => {},
            }
        }
        proof {
            assert(targets@.subrange(0, m as int) =~= targets@);
        }
        let pos = position_u32(&st.headers, label);
        proof {
            if let Some(h) = pos {
                lemma_first_pos(st.headers@, label, h as int);
            }
        }
        match pos {
            Some(h) => {
                if st.emitted[h] >= st.expected[h] {
                    self.put(Op::Seal { block: cb });
                } else {
                    st.deferred.set(h, true);
                }
            },
            None => {
                self.put(Op::Seal { block: cb });
            },
        }
    }

    /// Creates one block per block whose label is in `reach`, in order, and
    /// maps each such label to its (last) block.
    pub fn create_blocks(&mut self, blocks: &Vec<BasicBlock>, reach: &Vec<u32>) -> (r: HashMap<u32, usize>)
        requires
            old(self).wf(),
            old(self).block_params@.len() == 0,
            old(self).ops@.len() == 0,
            forall|l: u32| reach@.contains(l) <==> reachable(blocks@, l),
        ensures
            final(self).wf(),
            blocks_exist(r@, final(self).block_params@.len()),
            final(self).block_params@.len() == reach_count(blocks@, blocks@.len() as int),
            final(self).ops@.len() == final(self).block_params@.len(),
            forall|i: int| 0 <= i < final(self).ops@.len() ==> final(self).ops@[i] == (Op::CreateBlock { block: i as usize }),
            forall|l: u32| #[trigger] r@.contains_key(l) <==> reachable(blocks@, l) && has_block(blocks@, l),
            final(self).types@ == old(self).types@,
            final(self).args@ == old(self).args@,
            final(self).vmap@ == old(self).vmap@,
            final(self).sigs@ == old(self).sigs@,
    {
        let mut block_of: HashMap<u32, usize> = HashMap::new();
        let n = blocks.len();
        for i in 0..n
            invariant
                n == blocks@.len(),
                self.wf(),
                blocks_exist(block_of@, self.block_params@.len()),
                self.block_params@.len() == reach_count(blocks@, i as int),
                self.ops@.len() == self.block_params@.len(),
                forall|j: int| 0 <= j < self.ops@.len() ==> self.ops@[j] == (Op::CreateBlock { block: j as usize }),
                forall|l: u32| #[trigger] block_of@.contains_key(l) <==> reachable(blocks@, l) && exists|j: int| 0 <= j < i && #[trigger] blocks@[j].label.0 == l,
                forall|l: u32| reach@.contains(l) <==> reachable(blocks@, l),
                self.types@ == old(self).types@,
                self.args@ == old(self).args@,
                self.vmap@ == old(self).vmap@,
                self.sigs@ == old(self).sigs@,
        {
            let l = blocks[i].label.0;
            let ghost m0 = block_of@;
            let c = contains_u32(reach, l);
            if c {
                let b = self.new_block();
                block_of.insert(l, b);
            }
            proof {
                assert(c == reachable(blocks@, l));
                assert(blocks@[i as int].label.0 == l);
                assert forall|x: u32| block_of@.contains_key(x) <==> reachable(blocks@, x) && exists|j: int| 0 <= j < i + 1 && #[trigger] blocks@[j].label.0 == x by {
                    if x == l {
                        assert(blocks@[i as int].label.0 == x);
                    } else {
                        assert(block_of@.contains_key(x) == m0.contains_key(x));
                        if m0.contains_key(x) {
                            let j = choose|j: int| 0 <= j < i && #[trigger] blocks@[j].label.0 == x;
                            assert(blocks@[j].label.0 == x);
                        }
                        if exists|j: int| 0 <= j < i + 1 && #[trigger] blocks@[j].label.0 == x {
                            let j = choose|j: int| 0 <= j < i + 1 && #[trigger] blocks@[j].label.0 == x;
                            assert(j < i);
                        }
                    }
                }
            }
        }
        block_of
    }
}

impl ClPlanner {
    /// One block parameter per phi of each reachable block, in order: the
    /// phi's entries are kept when their source block jumps or branches to
    /// the phi's block, and its parameter index counts the phis of that
    /// block before it.
    pub fn collect_phis(&mut self, func: &Function, reach: &Vec<u32>, block_of: &HashMap<u32, usize>) -> (r: Vec<PhiInfo>)
        requires
            old(self).wf(),
            blocks_exist(block_of@, old(self).block_params@.len()),
        ensures
            final(self).wf(),
            final(self).block_params@.len() == old(self).block_params@.len(),
            final(self).types@ == old(self).types@,
            final(self).args@ == old(self).args@,
            final(self).vmap@ == old(self).vmap@,
            final(self).sigs@ == old(self).sigs@,
            old(self).ops@.is_prefix_of(final(self).ops@),
            forall|i: int| 0 <= i < r@.len() ==> #[trigger] reach@.contains(r@[i].target),
            phi_infos_match(r@, reachable_phis(func.blocks@, reach@, func.blocks@.len() as int)),
            final(self).ops@ == old(self).ops@ + phi_param_ops(reachable_phis(func.blocks@, reach@, func.blocks@.len() as int),
                block_of@, func.value_types@),
    {
        let mut phis: Vec<PhiInfo> = Vec::new();
        let mut counts: HashMap<u32, usize> = HashMap::new();
        let nb = func.blocks.len();
        for i in 0..nb
            invariant
                phi_infos_match(phis@, reachable_phis(func.blocks@, reach@, i as int)),
                self.ops@ == old(self).ops@ + phi_param_ops(reachable_phis(func.blocks@, reach@, i as int), block_of@, func.value_types@),
                forall|t: u32| #[trigger] counts@.contains_key(t) ==> counts@[t] == sat(phis_of(reachable_phis(func.blocks@, reach@, i as int), t)),
                forall|t: u32| !#[trigger] counts@.contains_key(t) ==> phis_of(reachable_phis(func.blocks@, reach@, i as int), t) == 0,
                nb == func.blocks@.len(),
                self.wf(),
                blocks_exist(block_of@, self.block_params@.len()),
                self.block_params@.len() == old(self).block_params@.len(),
                self.types@ == old(self).types@,
                self.args@ == old(self).args@,
                self.vmap@ == old(self).vmap@,
                self.sigs@ == old(self).sigs@,
                old(self).ops@.is_prefix_of(self.ops@),
                forall|k: int| 0 <= k < phis@.len() ==> #[trigger] reach@.contains(phis@[k].target),
        {
            let blk = &func.blocks[i];
            let l = blk.label.0;
            let ghost acc0 = reachable_phis(func.blocks@, reach@, i as int);
            proof {
                assert(func.blocks@[i as int] == *blk);
            }
            if contains_u32(reach, l) {
                let m = blk.instructions.len();
                for j in 0..m
                    invariant
                        blk == &func.blocks@[i as int],
                        l == blk.label.0,
                        acc0 == reachable_phis(func.blocks@, reach@, i as int),
                        phi_infos_match(phis@, acc0 + block_phis(func.blocks@, l, blk.instructions@, j as int)),
                        self.ops@ == old(self).ops@ + phi_param_ops(acc0 + block_phis(func.blocks@, l, blk.instructions@, j as int), block_of@, func.value_types@),
                        forall|t: u32| #[trigger] counts@.contains_key(t) ==> counts@[t] == sat(phis_of(acc0 + block_phis(func.blocks@, l, blk.instructions@, j as int), t)),
                        forall|t: u32| !#[trigger] counts@.contains_key(t) ==> phis_of(acc0 + block_phis(func.blocks@, l, blk.instructions@, j as int), t) == 0,
                        m == blk.instructions@.len(),
                        reach@.contains(l),
                        self.wf(),
                        blocks_exist(block_of@, self.block_params@.len()),
                        self.block_params@.len() == old(self).block_params@.len(),
                        self.types@ == old(self).types@,
                        self.args@ == old(self).args@,
                        self.vmap@ == old(self).vmap@,
                        self.sigs@ == old(self).sigs@,
                        old(self).ops@.is_prefix_of(self.ops@),
                        forall|k: int| 0 <= k < phis@.len() ==> #[trigger] reach@.contains(phis@[k].target),
                {
                    let ghost acc = acc0 + block_phis(func.blocks@, l, blk.instructions@, j as int);
                    let ghost ops0 = self.ops@;
                    let ghost phis0 = phis@;
                    proof {
                        assert(acc0 + block_phis(func.blocks@, l, blk.instructions@, j + 1)
                            == (match blk.instructions@[j as int] {
                                Instruction::Phi(dst, es) => acc.push((dst, l, kept_entries(func.blocks@, es@, l))),
                                _ => acc,
                            }));
                    }
                    match &blk.instructions[j] {
                        Instruction::Phi(dst, entries) => {
                            let kept = filter_phi_entries(&func.blocks, entries, l);
                            let ty = phi_type(&func.value_types, &kept, *dst);
                            let idx: usize = match counts.get(&l) {
                                Some(c) => *c,
                                None => 0,
                            };
                            let nxt: usize = if idx < usize::MAX { idx + 1 } else { idx };
                            counts.insert(l, nxt);
                            match block_of.get(&l) {
                                Some(b) => {
                                    self.add_param(*b, ty);
                                },
                                None => {},
                            }
                            let info = PhiInfo { dst: *dst, target: l, entries: kept, param_index: idx };
                            proof {
                                let x = (*dst, l, kept_entries(func.blocks@, entries@, l));
                                lemma_phi_push(phis0, acc, info, x);
                                let acc2 = acc.push(x);
                                assert(acc2.drop_last() =~= acc);
                                assert(phi_param_ops(acc2, block_of@, func.value_types@)
                                    == (if block_of@.contains_key(l) {
                                        phi_param_ops(acc, block_of@, func.value_types@).push(Op::AppendParam { block: block_of@[l], ty: spec_phi_type(func.value_types@, x.2, x.0) })
                                    } else {
                                        phi_param_ops(acc, block_of@, func.value_types@)
                                    }));
                                assert forall|t: u32| #[trigger] counts@.contains_key(t) implies counts@[t] == sat(phis_of(acc2, t)) by {
                                }
                                assert forall|t: u32| !#[trigger] counts@.contains_key(t) implies phis_of(acc2, t) == 0 by {
                                }
                            }
                            phis.push(info);
                        },
                        _ => {},
                    }
                }
                proof {
                    assert(blk.instructions@.len() == m);
                }
            }
            proof {
                assert(reachable_phis(func.blocks@, reach@, i + 1) == (if reach@.contains(l) {
                    acc0 + block_phis(func.blocks@, l, blk.instructions@, blk.instructions@.len() as int)
                } else {
                    acc0
                }));
            }
        }
        phis
    }

    /// Binds the entry block's parameters: after the `extra` leading ones
    /// (`argc` and `argv` of a C `main`), parameter `i` of the function is
    /// IR value `i`.
    pub fn bind_function_params(&mut self, nparams: usize, extra: usize, params: &Vec<usize>)
        requires
            old(self).wf(),
            forall|k: int| 0 <= k < params@.len() ==> params@[k] < old(self).types@.len(),
        ensures
            final(self).wf(),
            final(self).ops@ == old(self).ops@,
            final(self).types@ == old(self).types@,
            final(self).args@ == old(self).args@,
            final(self).same_tables(old(self)),
            final(self).vmap@ == bound_params(old(self).vmap@, params@, extra as int, nparams as int),
    {
        for i in 0..nparams
            invariant
                self.vmap@ == bound_params(old(self).vmap@, params@, extra as int, i as int),
                self.wf(),
                self.ops@ == old(self).ops@,
                self.types@ == old(self).types@,
                self.args@ == old(self).args@,
                self.same_tables(old(self)),
                forall|k: int| 0 <= k < params@.len() ==> params@[k] < self.types@.len(),
        {
            let ghost before = self.vmap@;
            match i.checked_add(extra) {
                Some(ci) => {
                    if ci < params.len() {
                        let v: u32 = #[verifier::truncate] (i as u32);
                        self.bind(Value(v), params[ci]);
                        assert(v == (i as int) as u32);
                    }
                },
                None => {},
            }
            proof {
                let n1 = i + 1;
                assert(before == bound_params(old(self).vmap@, params@, extra as int, n1 - 1));
                assert(bound_params(old(self).vmap@, params@, extra as int, n1)
                    == (if n1 - 1 + extra <= usize::MAX && n1 - 1 + extra < params@.len() { before.insert((n1 - 1) as u32, params@[n1 - 1 + extra]) } else { before }));
                assert(self.vmap@ =~= bound_params(old(self).vmap@, params@, extra as int, n1));
            }
        }
    }

    /// Binds each phi of label `l` to its block parameter, counted after the
    /// first `base` parameters.
    pub fn bind_phis(&mut self, phis: &Vec<PhiInfo>, l: u32, base: usize, params: &Vec<usize>)
        requires
            old(self).wf(),
            forall|k: int| 0 <= k < params@.len() ==> params@[k] < old(self).types@.len(),
        ensures
            final(self).wf(),
            final(self).ops@ == old(self).ops@,
            final(self).types@ == old(self).types@,
            final(self).args@ == old(self).args@,
            final(self).same_tables(old(self)),
            final(self).vmap@ == bound_phis(old(self).vmap@, phis@, l, base as int, params@, phis@.len() as int),
    {
        let n = phis.len();
        for k in 0..n
            invariant
                self.vmap@ == bound_phis(old(self).vmap@, phis@, l, base as int, params@, k as int),
                n == phis@.len(),
                self.wf(),
                self.ops@ == old(self).ops@,
                self.types@ == old(self).types@,
                self.args@ == old(self).args@,
                self.same_tables(old(self)),
                forall|q: int| 0 <= q < params@.len() ==> params@[q] < self.types@.len(),
        {
            let ghost before = self.vmap@;
            if phis[k].target == l {
                match base.checked_add(phis[k].param_index) {
                    Some(pi) => {
                        if pi < params.len() {
                            self.bind(phis[k].dst, params[pi]);
                        }
                    },
                    None => {},
                }
            }
            proof {
                let n1 = k + 1;
                let ph = phis@[n1 - 1];
                assert(before == bound_phis(old(self).vmap@, phis@, l, base as int, params@, n1 - 1));
                assert(bound_phis(old(self).vmap@, phis@, l, base as int, params@, n1)
                    == (if ph.target == l && base + ph.param_index <= usize::MAX && base + ph.param_index < params@.len() { before.insert(ph.dst.0, params@[base + ph.param_index]) } else { before }));
                assert(self.vmap@ =~= bound_phis(old(self).vmap@, phis@, l, base as int, params@, n1));
            }
        }
    }

    /// Reads every parameter of plan block `b` into a new slot.
    pub fn read_block_params(&mut self, b: usize) -> (r: Vec<usize>)
        requires
            old(self).wf(),
            b < old(self).block_params@.len(),
        ensures
            final(self).wf(),
            final(self).args@ == old(self).args@,
            final(self).vmap@ == old(self).vmap@,
            final(self).same_tables(old(self)),
            old(self).ops@.is_prefix_of(final(self).ops@),
            old(self).types@.is_prefix_of(final(self).types@),
            r@.len() == old(self).block_params@[b as int]@.len(),
            forall|k: int| 0 <= k < r@.len() ==> r@[k] < final(self).types@.len(),
    {
        let np = self.block_params[b].len();
        let mut params: Vec<usize> = Vec::new();
        for k in 0..np
            invariant
                self.wf(),
                b < self.block_params@.len(),
                self.block_params@ == old(self).block_params@,
                np == self.block_params@[b as int]@.len(),
                params@.len() == k,
                self.args@ == old(self).args@,
                self.vmap@ == old(self).vmap@,
                self.same_tables(old(self)),
                old(self).ops@.is_prefix_of(self.ops@),
                old(self).types@.is_prefix_of(self.types@),
                forall|q: int| 0 <= q < params@.len() ==> params@[q] < self.types@.len(),
        {
            let t = self.block_params[b][k];
            let n = self.types.len();
            let s = self.def(t, Op::BlockParam { dst: n, block: b, index: k });
            params.push(s);
        }
        params
    }
}


/// `states` and `tables` trace the lowering of the first `k` instructions
/// of block `src`: each instruction takes the planner and the string table
/// from one state to the next and succeeds, only the last of them may end
/// the block, and the lowering stops at the first instruction that does
/// (or after the last instruction).
pub open spec fn block_trace(
    states: Seq<ClPlanner>,
    tables: Seq<StringTable>,
    decls: Vec<Decl>,
    func_refs: HashMap<u32, String>,
    vt: HashMap<u32, Type>,
    main_void: bool,
    ret: Type,
    block_of: HashMap<u32, usize>,
    phis: Vec<PhiInfo>,
    src: u32,
    insts: Seq<Instruction>,
    k: int,
) -> bool {
    &&& 0 <= k <= insts.len()
    &&& states.len() == k + 1
    &&& tables.len() == k + 1
    &&& forall|i: int| 0 <= i < k ==> #[trigger] inst_effect(states[i], states[i + 1], tables[i], tables[i + 1], decls, func_refs,
        vt, main_void, ret, block_of, phis, src, insts[i], Ok(is_terminator(insts[i])))
    &&& forall|i: int| 0 <= i < k - 1 ==> !is_terminator(#[trigger] insts[i])
    &&& (k == insts.len() || (k > 0 && is_terminator(insts[k - 1])))
}

/// Lowering the instructions of block `src` failed with `m` at instruction
/// `j`: `states` and `tables` trace the lowering of the instructions before
/// it, none of which ends the block, and of instruction `j`, which fails.
pub open spec fn block_fails_at(
    states: Seq<ClPlanner>,
    tables: Seq<StringTable>,
    decls: Vec<Decl>,
    func_refs: HashMap<u32, String>,
    vt: HashMap<u32, Type>,
    main_void: bool,
    ret: Type,
    block_of: HashMap<u32, usize>,
    phis: Vec<PhiInfo>,
    src: u32,
    insts: Seq<Instruction>,
    j: int,
    m: String,
) -> bool {
    &&& 0 <= j < insts.len()
    &&& states.len() == j + 2
    &&& tables.len() == j + 2
    &&& forall|i: int| 0 <= i < j ==> !is_terminator(#[trigger] insts[i])
    &&& forall|i: int| 0 <= i < j ==> #[trigger] inst_effect(states[i], states[i + 1], tables[i], tables[i + 1], decls, func_refs,
        vt, main_void, ret, block_of, phis, src, insts[i], Ok(false))
    &&& inst_effect(states[j], states[j + 1], tables[j], tables[j + 1], decls, func_refs,
        vt, main_void, ret, block_of, phis, src, insts[j], Err(m))
}

/// Planning block `bi` of `func` fails with `m`: either it is the entry
/// block of C's `main` and `__gradient_save_args` is not declared, or one of
/// its instructions fails to lower with `m`.
pub open spec fn block_plan_fails(
    func: Function,
    decls: Vec<Decl>,
    func_refs: HashMap<u32, String>,
    is_main: bool,
    main_void: bool,
    block_of: HashMap<u32, usize>,
    phis: Vec<PhiInfo>,
    bi: int,
    m: String,
) -> bool {
    ||| (bi == 0 && is_main && decl_index(decls@, "__gradient_save_args"@) is None
        && m@ == not_declared_msg("__gradient_save_args"@))
    ||| exists|states: Seq<ClPlanner>, tables: Seq<StringTable>, j: int|
        #[trigger] block_fails_at(states, tables, decls, func_refs, func.value_types, main_void, func.return_type, block_of, phis,
            func.blocks@[bi].label.0, func.blocks@[bi].instructions@, j, m)
}

proof fn lemma_block_fails(
    states: Seq<ClPlanner>,
    tables: Seq<StringTable>,
    post: ClPlanner,
    post_strings: StringTable,
    decls: Vec<Decl>,
    func_refs: HashMap<u32, String>,
    vt: HashMap<u32, Type>,
    main_void: bool,
    ret: Type,
    block_of: HashMap<u32, usize>,
    phis: Vec<PhiInfo>,
    src: u32,
    insts: Seq<Instruction>,
    j: int,
    m: String,
)
    requires
        0 <= j < insts.len(),
        states.len() == j + 1,
        tables.len() == j + 1,
        forall|i: int| 0 <= i < j ==> #[trigger] inst_effect(states[i], states[i + 1], tables[i], tables[i + 1], decls, func_refs,
            vt, main_void, ret, block_of, phis, src, insts[i], Ok(is_terminator(insts[i]))),
        forall|i: int| 0 <= i < j - 1 ==> !is_terminator(#[trigger] insts[i]),
        j > 0 ==> !is_terminator(insts[j - 1]),
        inst_effect(states.last(), post, tables.last(), post_strings, decls, func_refs, vt, main_void, ret, block_of, phis, src,
            insts[j], Err(m)),
    ensures
        block_fails_at(states.push(post), tables.push(post_strings), decls, func_refs, vt, main_void, ret, block_of, phis, src, insts, j, m),
{
    let fs = states.push(post);
    let ft = tables.push(post_strings);
    assert(fs[j] == states.last() && ft[j] == tables.last());
    assert forall|i: int| 0 <= i < j implies !is_terminator(#[trigger] insts[i]) by {
        if i == j - 1 {
        }
    }
    assert forall|i: int| 0 <= i < j implies #[trigger] inst_effect(fs[i], fs[i + 1], ft[i], ft[i + 1], decls, func_refs,
        vt, main_void, ret, block_of, phis, src, insts[i], Ok(false)) by {
        assert(fs[i] == states[i] && fs[i + 1] == states[i + 1]);
        assert(ft[i] == tables[i] && ft[i + 1] == tables[i + 1]);
        assert(inst_effect(states[i], states[i + 1], tables[i], tables[i + 1], decls, func_refs,
            vt, main_void, ret, block_of, phis, src, insts[i], Ok(is_terminator(insts[i]))));
        if i == j - 1 {
        } else {
            assert(!is_terminator(insts[i]));
        }
    }
}

impl ClPlanner {
    /// Plans IR block `bi`, planned as block `cb`: switches to it, reads its
    /// parameters, binds the function's parameters (entry block; a C `main`
    /// first hands `argc`, widened to 64 bits, and `argv` to
    /// `__gradient_save_args`) and the phis' values, lowers its
    /// instructions up to and including the first terminator, and plans the
    /// seals that follow it.
    pub fn plan_block(
        &mut self,
        st: &mut SealState,
        strings: &mut StringTable,
        decls: &Vec<Decl>,
        func_refs: &HashMap<u32, String>,
        func: &Function,
        block_of: &HashMap<u32, usize>,
        phis: &Vec<PhiInfo>,
        bi: usize,
        cb: usize,
        is_main: bool,
        main_void: bool,
    ) -> (r: Result<(), String>)
        requires
            old(self).wf(),
            old(st).wf(),
            blocks_exist(block_of@, old(self).block_params@.len()),
            bi < func.blocks@.len(),
            cb < old(self).block_params@.len(),
        ensures
            final(self).wf(),
            final(st).wf(),
            final(st).headers@ == old(st).headers@,
            final(st).expected@ == old(st).expected@,
            final(self).block_params@.len() >= old(self).block_params@.len(),
            r is Ok ==> old(self).ops@.is_prefix_of(final(self).ops@),
            r matches Err(m) ==> block_plan_fails(*func, *decls, *func_refs, is_main, main_void, *block_of, *phis, bi as int, m),
            r is Ok ==> exists|states: Seq<ClPlanner>, tables: Seq<StringTable>, k: int|
                #[trigger] block_trace(states, tables, *decls, *func_refs, func.value_types, main_void, func.return_type, *block_of, *phis,
                    func.blocks@[bi as int].label.0, func.blocks@[bi as int].instructions@, k)
                && tables[0] == *old(strings) && tables.last() == *final(strings)
                && old(self).ops@.push(Op::SwitchTo { block: cb }).is_prefix_of(states[0].ops@)
                && final(self).vmap@ == states.last().vmap@ && final(self).types@ == states.last().types@
                && final(self).args@ == states.last().args@ && states.last().ops@.is_prefix_of(final(self).ops@),
    {
        self.put(Op::SwitchTo { block: cb });
        let ghost switched = self.ops@;
        let params = self.read_block_params(cb);
        let extra: usize = if is_main && bi == 0 { 2 } else { 0 };
        if bi == 0 {
            if is_main && params.len() >= 2 {
                let a64 = self.convert(Conv::SExtend, MTy::I64, params[0]);
                let f = ClPlanner::required(decls, "__gradient_save_args")?;
                let args = vec![a64, params[1]];
                let _ = self.call(decls, f, &args);
            }
            self.bind_function_params(func.params.len(), extra, &params);
        }
        let base: usize = if bi == 0 {
            match func.params.len().checked_add(extra) {
                Some(x) => x,
                None => usize::MAX,
            }
        } else {
            0
        };
        let blk = &func.blocks[bi];
        self.bind_phis(phis, blk.label.0, base, &params);
        assert(switched =~= old(self).ops@.push(Op::SwitchTo { block: cb }));
        assert(switched.is_prefix_of(self.ops@));
        let m = blk.instructions.len();
        let mut j: usize = 0;
        let mut filled = false;
        let ghost mut states: Seq<ClPlanner> = seq![*self];
        let ghost mut tables: Seq<StringTable> = seq![*strings];
        while j < m && !filled
            invariant
                m == blk.instructions@.len(),
                blk == &func.blocks@[bi as int],
                self.wf(),
                blocks_exist(block_of@, self.block_params@.len()),
                self.block_params@.len() >= old(self).block_params@.len(),
                cb < self.block_params@.len(),
                st == old(st),
                old(st).wf(),
                j <= m,
                states.len() == j + 1,
                tables.len() == j + 1,
                states.last() == *self,
                tables.last() == *strings,
                tables[0] == *old(strings),
                old(self).ops@.push(Op::SwitchTo { block: cb }).is_prefix_of(states[0].ops@),
                states[0].ops@.is_prefix_of(self.ops@),
                forall|i: int| 0 <= i < j ==> #[trigger] inst_effect(states[i], states[i + 1], tables[i], tables[i + 1], *decls, *func_refs,
                    func.value_types, main_void, func.return_type, *block_of, *phis, blk.label.0, blk.instructions@[i],
                    Ok(is_terminator(blk.instructions@[i]))),
                forall|i: int| 0 <= i < j - 1 ==> !is_terminator(#[trigger] blk.instructions@[i]),
                filled == (j > 0 && is_terminator(blk.instructions@[j - 1])),
            decreases m - j,
        {
            let ghost pre_inst = *self;
            let ghost pre_strings = *strings;
            let lowered = self.lower_inst(
                strings,
                decls,
                func_refs,
                &func.value_types,
                main_void,
                func.return_type,
                block_of,
                phis,
                blk.label.0,
                &blk.instructions[j],
            );
            filled = match lowered {
                Ok(f) => f,
                Err(msg) => {
                    proof {
                        lemma_block_fails(states, tables, *self, *strings, *decls, *func_refs, func.value_types, main_void,
                            func.return_type, *block_of, *phis, blk.label.0, blk.instructions@, j as int, msg);
                    }
                    return Err(msg);
                },
            };
            proof {
                lemma_prefix_trans(states[0].ops@, pre_inst.ops@, self.ops@);
                states = states.push(*self);
                tables = tables.push(*strings);
            }
            j = j + 1;
        }
        proof {
            assert(block_trace(states, tables, *decls, *func_refs, func.value_types, main_void, func.return_type, *block_of, *phis,
                blk.label.0, blk.instructions@, j as int));
        }
        let ghost pre_seals = *self;
        let ts = block_targets(blk);
        self.plan_seals(st, block_of, blk.label.0, cb, &ts);
        proof {
            assert(old(self).ops@.is_prefix_of(old(self).ops@.push(Op::SwitchTo { block: cb })));
            lemma_prefix_trans(old(self).ops@, old(self).ops@.push(Op::SwitchTo { block: cb }), states[0].ops@);
            lemma_prefix_trans(old(self).ops@, states[0].ops@, pre_seals.ops@);
            lemma_prefix_trans(old(self).ops@, pre_seals.ops@, self.ops@);
        }
        Ok(())
    }
}

proof fn lemma_prefix_trans(a: Seq<Op>, b: Seq<Op>, c: Seq<Op>)
    requires
        a.is_prefix_of(b),
        b.is_prefix_of(c),
    ensures
        a.is_prefix_of(c),
{
    assert forall|i: int| 0 <= i < a.len() implies a[i] == c.subrange(0, a.len() as int)[i] by {
        assert(a[i] == b.subrange(0, a.len() as int)[i]);
        assert(b[i] == c.subrange(0, b.len() as int)[i]);
    }
    assert(a =~= c.subrange(0, a.len() as int));
}

/// Block `bi` of `func` was planned into `ops`: after its `SwitchTo`, its
/// instructions were lowered in order up to the first terminator, each as
/// [`inst_effect`] states, and what that produced is part of `ops`.
pub open spec fn block_planned(
    ops: Seq<Op>,
    func: Function,
    decls: Vec<Decl>,
    func_refs: HashMap<u32, String>,
    main_void: bool,
    block_of: HashMap<u32, usize>,
    phis: Vec<PhiInfo>,
    bi: int,
) -> bool {
    let blk = func.blocks@[bi];
    exists|states: Seq<ClPlanner>, tables: Seq<StringTable>, k: int|
        #[trigger] block_trace(states, tables, decls, func_refs, func.value_types, main_void, func.return_type, block_of, phis,
            blk.label.0, blk.instructions@, k)
        && (exists|q: int| 0 <= q < states[0].ops@.len() && states[0].ops@[q] == Op::SwitchTo { block: block_of@[blk.label.0] })
        && states.last().ops@.is_prefix_of(ops)
}

/// Every reachable block of `func` was planned into `ops`, each into its
/// own planned block.
pub open spec fn blocks_planned(
    ops: Seq<Op>,
    nblocks: nat,
    func: Function,
    decls: Vec<Decl>,
    func_refs: HashMap<u32, String>,
    main_void: bool,
    block_of: HashMap<u32, usize>,
    phis: Vec<PhiInfo>,
    upto: int,
) -> bool {
    forall|bi: int| 0 <= bi < upto && #[trigger] reachable(func.blocks@, func.blocks@[bi].label.0)
        ==> block_of@.contains_key(func.blocks@[bi].label.0) && block_of@[func.blocks@[bi].label.0] < nblocks
            && block_planned(ops, func, decls, func_refs, main_void, block_of, phis, bi)
}

/// Planning `func` fails with `m`: planning one of its reachable blocks
/// fails with `m`.
pub open spec fn plan_fails(func: Function, decls: Vec<Decl>, func_refs: HashMap<u32, String>, m: String) -> bool {
    exists|block_of: HashMap<u32, usize>, phis: Vec<PhiInfo>, bi: int|
        0 <= bi < func.blocks@.len() && reachable(func.blocks@, func.blocks@[bi].label.0)
        && #[trigger] block_plan_fails(func, decls, func_refs, is_c_main(func), main_returns_void(func), block_of, phis, bi, m)
}

/// `func` is C's `main`.
pub open spec fn is_c_main(func: Function) -> bool {
    func.name@ == "main"@
}

/// `func` is C's `main` and returns nothing (it then returns status 0).
pub open spec fn main_returns_void(func: Function) -> bool {
    func.name@ == "main"@ && func.return_type == Type::Void
}

/// Planned blocks stay planned when operations are added after them.
proof fn lemma_blocks_planned_grow(
    before: ClPlanner,
    after: ClPlanner,
    func: Function,
    decls: Vec<Decl>,
    func_refs: HashMap<u32, String>,
    main_void: bool,
    block_of: HashMap<u32, usize>,
    phis: Vec<PhiInfo>,
    upto: int,
)
    requires
        blocks_planned(before.ops@, before.block_params@.len(), func, decls, func_refs, main_void, block_of, phis, upto),
        before.ops@.is_prefix_of(after.ops@),
        after.block_params@.len() >= before.block_params@.len(),
    ensures
        blocks_planned(after.ops@, after.block_params@.len(), func, decls, func_refs, main_void, block_of, phis, upto),
{
    assert forall|bi: int| 0 <= bi < upto && #[trigger] reachable(func.blocks@, func.blocks@[bi].label.0)
        implies block_of@.contains_key(func.blocks@[bi].label.0) && block_of@[func.blocks@[bi].label.0] < after.block_params@.len()
            && block_planned(after.ops@, func, decls, func_refs, main_void, block_of, phis, bi) by {
        let blk = func.blocks@[bi];
        assert(block_planned(before.ops@, func, decls, func_refs, main_void, block_of, phis, bi));
        let (states, tables, k) = choose|states: Seq<ClPlanner>, tables: Seq<StringTable>, k: int|
            #[trigger] block_trace(states, tables, decls, func_refs, func.value_types, main_void, func.return_type, block_of, phis,
                blk.label.0, blk.instructions@, k)
            && (exists|q: int| 0 <= q < states[0].ops@.len() && states[0].ops@[q] == Op::SwitchTo { block: block_of@[blk.label.0] })
            && states.last().ops@.is_prefix_of(before.ops@);
        lemma_prefix_trans(states.last().ops@, before.ops@, after.ops@);
    }
}

/// Planning block `bi` into its planned block `cb` adds it to the planned
/// blocks.
proof fn lemma_block_planned_step(
    before: ClPlanner,
    after: ClPlanner,
    func: Function,
    decls: Vec<Decl>,
    func_refs: HashMap<u32, String>,
    main_void: bool,
    block_of: HashMap<u32, usize>,
    phis: Vec<PhiInfo>,
    bi: int,
    cb: usize,
)
    requires
        0 <= bi < func.blocks@.len(),
        blocks_planned(before.ops@, before.block_params@.len(), func, decls, func_refs, main_void, block_of, phis, bi),
        block_of@.contains_key(func.blocks@[bi].label.0),
        block_of@[func.blocks@[bi].label.0] == cb,
        cb < before.block_params@.len(),
        before.ops@.is_prefix_of(after.ops@),
        after.block_params@.len() >= before.block_params@.len(),
        exists|states: Seq<ClPlanner>, tables: Seq<StringTable>, k: int|
            #[trigger] block_trace(states, tables, decls, func_refs, func.value_types, main_void, func.return_type, block_of, phis,
                func.blocks@[bi].label.0, func.blocks@[bi].instructions@, k)
            && before.ops@.push(Op::SwitchTo { block: cb }).is_prefix_of(states[0].ops@)
            && states.last().ops@.is_prefix_of(after.ops@),
    ensures
        blocks_planned(after.ops@, after.block_params@.len(), func, decls, func_refs, main_void, block_of, phis, bi + 1),
{
    lemma_blocks_planned_grow(before, after, func, decls, func_refs, main_void, block_of, phis, bi);
    let blk = func.blocks@[bi];
    let (states, tables, k) = choose|states: Seq<ClPlanner>, tables: Seq<StringTable>, k: int|
        #[trigger] block_trace(states, tables, decls, func_refs, func.value_types, main_void, func.return_type, block_of, phis,
            blk.label.0, blk.instructions@, k)
        && before.ops@.push(Op::SwitchTo { block: cb }).is_prefix_of(states[0].ops@)
        && states.last().ops@.is_prefix_of(after.ops@);
    let q = before.ops@.len() as int;
    assert(states[0].ops@[q] == before.ops@.push(Op::SwitchTo { block: cb })[q]);
    assert(block_planned(after.ops@, func, decls, func_refs, main_void, block_of, phis, bi));
    assert forall|j: int| 0 <= j < bi + 1 && #[trigger] reachable(func.blocks@, func.blocks@[j].label.0)
        implies block_of@.contains_key(func.blocks@[j].label.0) && block_of@[func.blocks@[j].label.0] < after.block_params@.len()
            && block_planned(after.ops@, func, decls, func_refs, main_void, block_of, phis, j) by {
    }
}

/// `p` is a plan of the body of `func`, as [`plan_function`] makes it: one
/// block per reachable IR block, each planned from its instructions, and
/// every block sealed at the end.
pub open spec fn plans(p: ClPlanner, func: Function, decls: Vec<Decl>, func_refs: HashMap<u32, String>) -> bool {
    &&& p.wf()
    &&& p.block_params@.len() >= reach_count(func.blocks@, func.blocks@.len() as int)
    &&& p.ops@.len() > 0
    &&& p.ops@.last() == Op::SealAll
    &&& exists|block_of: HashMap<u32, usize>, phis: Vec<PhiInfo>| #[trigger] blocks_planned(p.ops@, p.block_params@.len(), func, decls, func_refs,
        main_returns_void(func), block_of, phis, func.blocks@.len() as int)
}

/// Plans the body of `func`, whose entry block receives parameters of types
/// `entry_params` (the function's declared signature). The plan creates
/// one block per reachable IR block and ends by sealing every block.
#[verifier::rlimit(80)]
#[verifier::spinoff_prover]
pub fn plan_function(
    func: &Function,
    decls: &Vec<Decl>,
    func_refs: &HashMap<u32, String>,
    strings: &mut StringTable,
    entry_params: &Vec<MTy>,
) -> (r: Result<ClPlanner, String>)
    ensures
        r matches Ok(p) ==> {
            &&& p.wf()
            &&& p.block_params@.len() >= reach_count(func.blocks@, func.blocks@.len() as int)
            &&& p.ops@.len() > 0
            &&& p.ops@.last() == Op::SealAll
            &&& exists|block_of: HashMap<u32, usize>, phis: Vec<PhiInfo>| #[trigger] blocks_planned(p.ops@, p.block_params@.len(), *func, *decls, *func_refs,
                main_returns_void(*func), block_of, phis, func.blocks@.len() as int)
        },
        r matches Err(m) ==> plan_fails(*func, *decls, *func_refs, m),
{
    let is_main = str_eq(func.name.as_str(), "main");
    let main_void = is_main && func.return_type == Type::Void;
    let mut p = ClPlanner::new();
    let reach = reachable_labels(&func.blocks);
    let block_of = p.create_blocks(&func.blocks, &reach);
    let ghost nblocks = p.block_params@.len();
    if func.blocks.len() > 0 {
        match block_of.get(&func.blocks[0].label.0) {
            Some(b) => {
                p.add_function_params(*b, entry_params);
            },
            None => {},
        }
    }
    let phis = p.collect_phis(func, &reach, &block_of);
    let mut st = SealState::new(&func.blocks);
    let nb = func.blocks.len();
    for bi in 0..nb
        invariant
            nb == func.blocks@.len(),
            p.wf(),
            st.wf(),
            blocks_exist(block_of@, p.block_params@.len()),
            p.block_params@.len() >= nblocks,
            nblocks == reach_count(func.blocks@, func.blocks@.len() as int),
            forall|l: u32| reach@.contains(l) <==> reachable(func.blocks@, l),
            forall|l: u32| #[trigger] block_of@.contains_key(l) <==> reachable(func.blocks@, l) && has_block(func.blocks@, l),
            main_void == main_returns_void(*func),
            is_main == is_c_main(*func),
            blocks_planned(p.ops@, p.block_params@.len(), *func, *decls, *func_refs, main_void, block_of, phis, bi as int),
    {
        let l = func.blocks[bi].label.0;
        if contains_u32(&reach, l) {
            proof {
                assert(has_block(func.blocks@, l));
            }
            match block_of.get(&l) {
                Some(cb) => {
                    let ghost before = p;
                    let planned = p.plan_block(&mut st, strings, decls, func_refs, func, &block_of, &phis, bi, *cb, is_main, main_void);
                    if let Err(m) = planned {
                        proof {
                            assert(reach@.contains(l));
                            assert(reachable(func.blocks@, func.blocks@[bi as int].label.0));
                            assert(block_plan_fails(*func, *decls, *func_refs, is_c_main(*func), main_returns_void(*func), block_of, phis, bi as int, m));
                            assert(plan_fails(*func, *decls, *func_refs, m));
                        }
                        return Err(m);
                    }
                    proof {
                        lemma_block_planned_step(before, p, *func, *decls, *func_refs, main_void, block_of, phis, bi as int, *cb);
                    }
                },
                None => {},
            }
        } else {
            proof {
                assert forall|j: int| 0 <= j < bi + 1 && #[trigger] reachable(func.blocks@, func.blocks@[j].label.0)
                    implies block_of@.contains_key(func.blocks@[j].label.0) && block_of@[func.blocks@[j].label.0] < p.block_params@.len()
                        && block_planned(p.ops@, *func, *decls, *func_refs, main_void, block_of, phis, j) by {
                    if j == bi {
                        assert(reach@.contains(l));
                    }
                }
            }
        }
    }
    let ghost before = p;
    p.put(Op::SealAll);
    proof {
        lemma_blocks_planned_grow(before, p, *func, *decls, *func_refs, main_void, block_of, phis, nb as int);
        assert(blocks_planned(p.ops@, p.block_params@.len(), *func, *decls, *func_refs, main_void, block_of, phis, nb as int));
    }
    Ok(p)
}

} // verus!
