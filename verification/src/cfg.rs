//! Control-flow analysis of an IR function, shared by both backends: the
//! jump targets of each block, the blocks reachable from the entry, the phi
//! entries that come from real predecessors, and the loop headers.

use vstd::prelude::*;
use crate::ir::{BasicBlock, Instruction};

verus! {

/// The blocks an instruction transfers control to (by label number).
pub open spec fn inst_targets(i: Instruction) -> Seq<u32> {
    match i {
        Instruction::Jump(t) => seq![t.0],
        Instruction::Branch(_, a, b) => seq![a.0, b.0],
        _ => Seq::empty(),
    }
}

/// The jump targets of a list of instructions, in order.
pub open spec fn targets_of(insts: Seq<Instruction>) -> Seq<u32>
    decreases insts.len(),
{
    if insts.len() == 0 {
        Seq::empty()
    } else {
        targets_of(insts.drop_last()) + inst_targets(insts.last())
    }
}

/// The index of the last block labelled `l`, or -1 when there is none.
pub open spec fn last_block_index(blocks: Seq<BasicBlock>, l: u32) -> int
    decreases blocks.len(),
{
    if blocks.len() == 0 {
        -1
    } else if blocks.last().label.0 == l {
        blocks.len() - 1
    } else {
        last_block_index(blocks.drop_last(), l)
    }
}

/// The successors of label `l`: the jump targets of the last block with that
/// label (a later block with the same label replaces an earlier one).
pub open spec fn succs(blocks: Seq<BasicBlock>, l: u32) -> Seq<u32> {
    let i = last_block_index(blocks, l);
    if 0 <= i < blocks.len() {
        targets_of(blocks[i].instructions@)
    } else {
        Seq::empty()
    }
}

/// There is a control-flow edge from `a` to `b`.
pub open spec fn edge(blocks: Seq<BasicBlock>, a: u32, b: u32) -> bool {
    succs(blocks, a).contains(b)
}

/// `p` is a path of edges starting at the entry block's label.
pub open spec fn is_path(blocks: Seq<BasicBlock>, p: Seq<u32>) -> bool {
    &&& blocks.len() > 0
    &&& p.len() > 0
    &&& p[0] == blocks[0].label.0
    &&& forall|i: int| 0 <= i < p.len() - 1 ==> #[trigger] edge(blocks, p[i], p[i + 1])
}

/// Label `l` is reachable from the entry block.
pub open spec fn reachable(blocks: Seq<BasicBlock>, l: u32) -> bool {
    exists|p: Seq<u32>| #[trigger] is_path(blocks, p) && p.last() == l
}

/// All jump targets of all blocks, in order.
pub open spec fn all_targets(blocks: Seq<BasicBlock>) -> Seq<u32>
    decreases blocks.len(),
{
    if blocks.len() == 0 {
        Seq::empty()
    } else {
        all_targets(blocks.drop_last()) + targets_of(blocks.last().instructions@)
    }
}

proof fn lemma_targets_in_all(blocks: Seq<BasicBlock>, i: int, x: u32)
    requires
        0 <= i < blocks.len(),
        targets_of(blocks[i].instructions@).contains(x),
    ensures
        all_targets(blocks).contains(x),
    decreases blocks.len(),
{
    let t = targets_of(blocks[i].instructions@);
    let k = choose|k: int| 0 <= k < t.len() && t[k] == x;
    if i == blocks.len() - 1 {
        let a = all_targets(blocks.drop_last());
        assert(all_targets(blocks)[a.len() + k] == x);
    } else {
        assert(blocks.drop_last()[i] == blocks[i]);
        lemma_targets_in_all(blocks.drop_last(), i, x);
        let a = all_targets(blocks.drop_last());
        let k2 = choose|k2: int| 0 <= k2 < a.len() && a[k2] == x;
        assert(all_targets(blocks)[k2] == x);
    }
}

proof fn lemma_last_block_index_bounds(blocks: Seq<BasicBlock>, l: u32)
    ensures
        -1 <= last_block_index(blocks, l) < blocks.len(),
        last_block_index(blocks, l) >= 0 ==> blocks[last_block_index(blocks, l)].label.0 == l,
        last_block_index(blocks, l) < 0 ==> forall|j: int| 0 <= j < blocks.len() ==> blocks[j].label.0 != l,
        forall|j: int| last_block_index(blocks, l) < j < blocks.len() ==> blocks[j].label.0 != l,
    decreases blocks.len(),
{
    if blocks.len() > 0 && blocks.last().label.0 != l {
        lemma_last_block_index_bounds(blocks.drop_last(), l);
        assert forall|j: int| last_block_index(blocks, l) < j < blocks.len() implies blocks[j].label.0 != l by {
            if j < blocks.len() - 1 {
                assert(blocks.drop_last()[j] == blocks[j]);
            }
        }
        assert forall|j: int| last_block_index(blocks, l) < 0 && 0 <= j < blocks.len() implies blocks[j].label.0 != l by {
            if j < blocks.len() - 1 {
                assert(blocks.drop_last()[j] == blocks[j]);
            }
        }
    }
}

/// The jump targets of one block's instructions, in order.
pub fn block_targets(b: &BasicBlock) -> (r: Vec<u32>)
    ensures
        r@ == targets_of(b.instructions@),
{
    let mut r: Vec<u32> = Vec::new();
    let n = b.instructions.len();
    for i in 0..n
        invariant
            n == b.instructions@.len(),
            r@ == targets_of(b.instructions@.subrange(0, i as int)),
    {
        assert(b.instructions@.subrange(0, i + 1).drop_last() =~= b.instructions@.subrange(0, i as int));
        match &b.instructions[i] {
            Instruction::Jump(t) => {
                r.push(t.0);
            },
            Instruction::Branch(_, a, c) => {
                r.push(a.0);
                r.push(c.0);
            },
            _ => {},
        }
        assert(r@ =~= targets_of(b.instructions@.subrange(0, i + 1)));
    }
    assert(b.instructions@.subrange(0, n as int) =~= b.instructions@);
    r
}

/// The index of the last block labelled `l`, if any.
pub fn find_block(blocks: &Vec<BasicBlock>, l: u32) -> (r: Option<usize>)
    ensures
        match r {
            Some(i) => i as int == last_block_index(blocks@, l),
            None => last_block_index(blocks@, l) == -1,
        },
{
    let mut i = blocks.len();
    proof {
        assert(blocks@.subrange(0, i as int) =~= blocks@);
    }
    while i > 0
        invariant
            i <= blocks@.len(),
            last_block_index(blocks@, l) == last_block_index(blocks@.subrange(0, i as int), l),
        decreases i,
    {
        let ghost s = blocks@.subrange(0, i as int);
        if blocks[i - 1].label.0 == l {
            return Some(i - 1);
        }
        assert(s.drop_last() =~= blocks@.subrange(0, i - 1));
        i = i - 1;
    }
    None
}

/// The successors of label `l` (see [`succs`]).
pub fn successors(blocks: &Vec<BasicBlock>, l: u32) -> (r: Vec<u32>)
    ensures
        r@ == succs(blocks@, l),
{
    proof {
        lemma_last_block_index_bounds(blocks@, l);
    }
    match find_block(blocks, l) {
        Some(i) => block_targets(&blocks[i]),
        None => Vec::new(),
    }
}

/// Whether `l` occurs in `v`.
pub fn contains_u32(v: &Vec<u32>, l: u32) -> (r: bool)
    ensures
        r == v@.contains(l),
{
    let n = v.len();
    for i in 0..n
        invariant
            n == v@.len(),
            forall|j: int| 0 <= j < i ==> v@[j] != l,
    {
        if v[i] == l {
            return true;
        }
    }
    false
}

/// Whether the block labelled `src` jumps or branches to `dst`.
pub fn jumps_to(blocks: &Vec<BasicBlock>, src: u32, dst: u32) -> (r: bool)
    ensures
        r == edge(blocks@, src, dst),
{
    let s = successors(blocks, src);
    contains_u32(&s, dst)
}

proof fn lemma_closed_contains_paths(blocks: Seq<BasicBlock>, r: Seq<u32>, p: Seq<u32>, k: int)
    requires
        is_path(blocks, p),
        0 <= k < p.len(),
        r.contains(blocks[0].label.0),
        forall|j: int, n: u32| 0 <= j < r.len() && #[trigger] edge(blocks, r[j], n) ==> r.contains(n),
    ensures
        r.contains(p[k]),
    decreases k,
{
    if k > 0 {
        lemma_closed_contains_paths(blocks, r, p, k - 1);
        let j = choose|j: int| 0 <= j < r.len() && r[j] == p[k - 1];
        assert(edge(blocks, p[k - 1], p[k - 1 + 1]));
        assert(edge(blocks, r[j], p[k]));
    }
}

/// The labels reachable from the entry block (the first block), found by a
/// breadth-first search along jump and branch targets. Each label occurs once.
pub fn reachable_labels(blocks: &Vec<BasicBlock>) -> (r: Vec<u32>)
    ensures
        r@.no_duplicates(),
        forall|l: u32| r@.contains(l) <==> reachable(blocks@, l),
{
    let mut r: Vec<u32> = Vec::new();
    if blocks.len() == 0 {
        return r;
    }
    let entry = blocks[0].label.0;
    r.push(entry);
    let ghost cands: Seq<u32> = all_targets(blocks@).push(entry);
    let ghost mut paths: Seq<Seq<u32>> = seq![seq![entry]];
    let mut head: usize = 0;
    proof {
        assert(is_path(blocks@, seq![entry]));
        assert(cands[cands.len() - 1] == entry);
    }
    while head < r.len()
        invariant
            blocks@.len() > 0,
            entry == blocks@[0].label.0,
            r@.len() > 0,
            r@[0] == entry,
            head <= r@.len(),
            r@.no_duplicates(),
            paths.len() == r@.len(),
            forall|j: int| 0 <= j < r@.len() ==> is_path(blocks@, #[trigger] paths[j]) && paths[j].last() == r@[j],
            forall|j: int| 0 <= j < r@.len() ==> cands.contains(#[trigger] r@[j]),
            cands == all_targets(blocks@).push(entry),
            forall|j: int, n: u32| 0 <= j < head && #[trigger] edge(blocks@, r@[j], n) ==> r@.contains(n),
        decreases cands.len() - r@.len(), r@.len() - head,
    {
        proof {
            r@.unique_seq_to_set();
            cands.lemma_cardinality_of_set();
            assert(r@.to_set().subset_of(cands.to_set()));
            vstd::set_lib::lemma_len_subset(r@.to_set(), cands.to_set());
        }
        let b = r[head];
        let ghost old_len = r@.len();
        let s = successors(blocks, b);
        let ns = s.len();
        for k in 0..ns
            invariant
                ns == s@.len(),
                s@ == succs(blocks@, b),
                b == r@[head as int],
                head < old_len <= r@.len(),
                blocks@.len() > 0,
                entry == blocks@[0].label.0,
                r@[0] == entry,
                r@.no_duplicates(),
                paths.len() == r@.len(),
                forall|j: int| 0 <= j < r@.len() ==> is_path(blocks@, #[trigger] paths[j]) && paths[j].last() == r@[j],
                forall|j: int| 0 <= j < r@.len() ==> cands.contains(#[trigger] r@[j]),
                cands == all_targets(blocks@).push(entry),
                forall|j: int, n: u32| 0 <= j < head && #[trigger] edge(blocks@, r@[j], n) ==> r@.contains(n),
                forall|q: int| 0 <= q < k ==> r@.contains(#[trigger] s@[q]),
        {
            let n = s[k];
            let ghost r_prev = r@;
            if !contains_u32(&r, n) {
                proof {
                    let p = paths[head as int];
                    let p2 = p.push(n);
                    assert(edge(blocks@, b, n)) by {
                        assert(s@[k as int] == n);
                    }
                    assert(is_path(blocks@, p2)) by {
                        assert forall|i: int| 0 <= i < p2.len() - 1 implies #[trigger] edge(blocks@, p2[i], p2[i + 1]) by {
                            if i < p.len() - 1 {
                                assert(p2[i] == p[i] && p2[i + 1] == p[i + 1]);
                                assert(edge(blocks@, p[i], p[i + 1]));
                            } else {
                                assert(p2[i] == b && p2[i + 1] == n);
                            }
                        }
                    }
                    paths = paths.push(p2);
                    let li = last_block_index(blocks@, b);
                    lemma_last_block_index_bounds(blocks@, b);
                    lemma_targets_in_all(blocks@, li, n);
                    let a = all_targets(blocks@);
                    let kk = choose|kk: int| 0 <= kk < a.len() && a[kk] == n;
                    assert(cands[kk] == n);
                }
                r.push(n);
                proof {
                    assert forall|j: int| 0 <= j < r@.len() implies is_path(blocks@, #[trigger] paths[j]) && paths[j].last() == r@[j] by {}
                    assert forall|j: int| 0 <= j < r@.len() implies cands.contains(#[trigger] r@[j]) by {
                        if j < r@.len() - 1 {
                            assert(r@[j] == r@.drop_last()[j]);
                        }
                    }
                    assert forall|j: int, m: u32| 0 <= j < head && #[trigger] edge(blocks@, r@[j], m) implies r@.contains(m) by {
                        assert(r@.drop_last() == r_prev);
                        assert(r@[j] == r_prev[j]);
                        let r0 = r_prev;
                        assert(r0.contains(m));
                        let w = choose|w: int| 0 <= w < r0.len() && r0[w] == m;
                        assert(r@[w] == m);
                    }
                    assert forall|q: int| 0 <= q <= k implies r@.contains(#[trigger] s@[q]) by {
                        if q < k {
                            let r0 = r_prev;
                            assert(r0.contains(s@[q]));
                            let w = choose|w: int| 0 <= w < r0.len() && r0[w] == s@[q];
                            assert(r@[w] == s@[q]);
                        } else {
                            assert(r@[r@.len() - 1] == n);
                        }
                    }
                }
            }
        }
        proof {
            r@.unique_seq_to_set();
            cands.lemma_cardinality_of_set();
            assert(r@.to_set().subset_of(cands.to_set()));
            vstd::set_lib::lemma_len_subset(r@.to_set(), cands.to_set());
            assert forall|j: int, m: u32| 0 <= j < head + 1 && #[trigger] edge(blocks@, r@[j], m) implies r@.contains(m) by {
                if j == head {
                    assert(s@.contains(m));
                    let q = choose|q: int| 0 <= q < s@.len() && s@[q] == m;
                }
            }
        }
        head = head + 1;
    }
    proof {
        assert forall|l: u32| r@.contains(l) <==> reachable(blocks@, l) by {
            if r@.contains(l) {
                let j = choose|j: int| 0 <= j < r@.len() && r@[j] == l;
                assert(is_path(blocks@, paths[j]) && paths[j].last() == l);
            }
            if reachable(blocks@, l) {
                let p = choose|p: Seq<u32>| #[trigger] is_path(blocks@, p) && p.last() == l;
                assert(r@.contains(blocks@[0].label.0)) by { assert(r@[0] == entry); }
                lemma_closed_contains_paths(blocks@, r@, p, p.len() - 1);
            }
        }
    }
    r
}

} // verus!
