//! Lowering of calls to declared functions and through function pointers for
//! the Cranelift backend.

use vstd::prelude::*;
use std::collections::HashMap;
use crate::clinst::{first_missing, slots_of};
use crate::clplan::{declared_or, not_found_msg, ClPlanner};
use crate::ir::{FuncRef, Type, Value};
use crate::mach::{decl_index, find_decl, mty_of, MTy, Op, Sig, Span};
use crate::text::str_eq;

verus! {

broadcast use vstd::std_specs::hash::group_hash_axioms;

/// The symbol a call to `name` targets: `println` is `puts`.
pub open spec fn call_target(name: Seq<char>) -> Seq<char> {
    if name == "println"@ {
        "puts"@
    } else {
        name
    }
}

/// The result operations of a call whose result (if any) is slot `s` of type
/// `actual`: the result is used as is when it has the type expected for the
/// destination, otherwise a zero of the expected type stands for it.
pub open spec fn normalize_spec(has: bool, actual: MTy, expected: MTy, s: usize, next: usize) -> (Seq<Op>, Seq<MTy>, usize) {
    if has && actual == expected {
        (Seq::empty(), Seq::empty(), s)
    } else {
        (seq![Op::IConst { dst: next, ty: expected, imm: 0 }], seq![expected], next)
    }
}

/// What lowering a call of a declared function does to the planner, and its result.
pub closed spec fn plain_call_effect(pre: ClPlanner, post: ClPlanner, decls: Vec<crate::mach::Decl>, vt: HashMap<u32, Type>, dst: Value, fref: FuncRef, name: String, args: Vec<Value>, r: Result<(), String>) -> bool {
    &&& post.wf()
    &&& post.block_params@ == pre.block_params@
    &&& ({
                    let expected = declared_or(vt@, dst, MTy::I64);
                    let a0 = pre.args@.len() as usize;
                    match decl_index(decls@, call_target(name@)) {
                        Some(fi) => match slots_of(pre, args@) {
                            None => r matches Err(m) && m@ == not_found_msg(first_missing(pre, args@).0),
                            Some(sl) => r is Ok && {
                                let has = decls@[fi as int].rets@.len() > 0;
                                let n = pre.next();
                                let actual = if has { decls@[fi as int].rets@[0] } else { MTy::I64 };
                                let nx = if has { pre.next_k(1) } else { n };
                                let (no, nt, res) = normalize_spec(has, actual, expected, n, nx);
                                &&& post.ops@ == pre.ops@ + seq![Op::Call { func: fi, args: Span { start: a0, len: sl.len() as usize }, dst: n, has_result: has }] + no
                                &&& post.types@ == pre.types@ + (if has { seq![actual] } else { Seq::empty() }) + nt
                                &&& post.args@ == pre.args@ + sl
                                &&& post.sigs@ == pre.sigs@
                                &&& post.vmap@ == pre.vmap@.insert(dst.0, res)
                            },
                        },
                        None => {
                            let fp = pre.slot(Value(fref.0));
                            let n = pre.next();
                            let (fops, ftys, fslot) = match fp {
                                Some(s) => (Seq::<Op>::empty(), Seq::<MTy>::empty(), s),
                                None => (seq![Op::IConst { dst: n, ty: MTy::I64, imm: 0 }], seq![MTy::I64], n),
                            };
                            match slots_of(pre, args@) {
                                None => r matches Err(m) && m@ == not_found_msg(first_missing(pre, args@).0),
                                Some(sl) => r is Ok && {
                                    let c = (n + ftys.len()) as usize;
                                    let (no, nt, res) = normalize_spec(true, MTy::I64, expected, c, (c + 1) as usize);
                                    &&& post.ops@ == pre.ops@ + fops + seq![Op::CallIndirect { sig: pre.sigs@.len() as usize, addr: fslot, args: Span { start: a0, len: sl.len() as usize }, dst: c, has_result: true }] + no
                                    &&& post.types@ == pre.types@ + ftys + seq![MTy::I64] + nt
                                    &&& post.args@ == pre.args@ + sl
                                    &&& post.sigs@.len() == pre.sigs@.len() + 1
                                    &&& post.sigs@.drop_last() == pre.sigs@
                                    &&& post.sigs@.last().params@ == Seq::new(args@.len(), |i: int| MTy::I64)
                                    &&& post.sigs@.last().rets@ == seq![MTy::I64]
                                    &&& post.vmap@ == pre.vmap@.insert(dst.0, res)
                                },
                            }
                        },
                    }
                })
}

impl ClPlanner {
    /// Lowers a call of `name` (the function that `fref` names) that is not
    /// a built-in operation. A declared function is called directly; any
    /// other name is called through the function pointer held by the value
    /// numbered like the reference, with all-`I64` parameters and result.
    #[verifier::spinoff_prover]
    #[verifier::rlimit(60)]
    pub fn lower_plain_call(
        &mut self,
        decls: &Vec<crate::mach::Decl>,
        vt: &HashMap<u32, Type>,
        dst: Value,
        fref: FuncRef,
        name: &String,
        args: &Vec<Value>,
    ) -> (r: Result<(), String>)
        requires
            old(self).wf(),
        ensures
        r is Ok ==> old(self).ops@.is_prefix_of(final(self).ops@),
        final(self).wf(),
        final(self).block_params@.len() >= old(self).block_params@.len(),
        plain_call_effect(*old(self), *final(self), *decls, *vt, dst, fref, *name, *args, r),

    {
        let _nt = self.types.len();
        let _na = self.args.len();
        let expected = match vt.get(&dst.0) {
            Some(t) => mty_of(*t),
            None => MTy::I64,
        };
        let is_println = str_eq(name.as_str(), "println");
        let found = if is_println {
            find_decl(decls, "puts")
        } else {
            find_decl(decls, name.as_str())
        };
        proof {
            if is_println {
                assert(call_target(name@) == "puts"@);
            }
        }
        match found {
            Some(fi) => {
                let _nd = decls.len();
                proof {
                    crate::mach::lemma_decl_index(decls@, call_target(name@));
                }
                let slots = self.resolve_all(args)?;
                let ghost before = *self;
                let res = self.call(decls, fi, &slots);
                let ghost mid = *self;
                let out = match res {
                    Some(s) => {
                        if self.types[s] == expected {
                            s
                        } else {
                            self.iconst(expected, 0)
                        }
                    },
                    None => self.iconst(expected, 0),
                };
                self.bind(dst, out);
                proof {
                    let has = decls@[fi as int].rets@.len() > 0;
                    let n = old(self).next();
                    let actual = if has { decls@[fi as int].rets@[0] } else { MTy::I64 };
                    let nx = if has { old(self).next_k(1) } else { n };
                    let (no, nt, rr) = normalize_spec(has, actual, expected, n, nx);
                    assert(before.ops@ == old(self).ops@);
                    assert(mid.ops@ == old(self).ops@.push(Op::Call { func: fi, args: Span { start: old(self).args@.len() as usize, len: slots@.len() as usize }, dst: n, has_result: has }));
                    if has {
                        assert(mid.types@[n as int] == actual);
                    }
                    assert(self.ops@ =~= old(self).ops@ + seq![Op::Call { func: fi, args: Span { start: old(self).args@.len() as usize, len: slots@.len() as usize }, dst: n, has_result: has }] + no);
                    assert(self.types@ =~= old(self).types@ + (if has { seq![actual] } else { Seq::empty() }) + nt);
                }
                Ok(())
            },
            None => {
                let si = self.sigs.len();
                let mut params: Vec<MTy> = Vec::new();
                let k = args.len();
                for i in 0..k
                    invariant
                        k == args@.len(),
                        params@ == Seq::new(i as nat, |j: int| MTy::I64),
                {
                    params.push(MTy::I64);
                    assert(params@ =~= Seq::new((i + 1) as nat, |j: int| MTy::I64));
                }
                let rets = vec![MTy::I64];
                self.sigs.push(Sig { params, rets });
                let fp = match self.vmap.get(&fref.0) {
                    Some(s) => *s,
                    None => self.iconst(MTy::I64, 0),
                };
                let ghost after_fp = *self;
                proof {
                    lemma_slots_same_vmap(*old(self), after_fp, args@);
                }
                let slots = self.resolve_all(args)?;
                let sp = self.push_args(&slots);
                let c = self.types.len();
                let call = self.def(MTy::I64, Op::CallIndirect { sig: si, addr: fp, args: sp, dst: c, has_result: true });
                let out = if expected == MTy::I64 {
                    call
                } else {
                    self.iconst(expected, 0)
                };
                self.bind(dst, out);
                proof {
                    let n = old(self).next();
                    assert(self.ops@ =~= old(self).ops@ + (if old(self).slot(Value(fref.0)) is Some { Seq::<Op>::empty() } else { seq![Op::IConst { dst: n, ty: MTy::I64, imm: 0 }] })
                        + seq![Op::CallIndirect { sig: si, addr: fp, args: sp, dst: c, has_result: true }]
                        + normalize_spec(true, MTy::I64, expected, c, (c + 1) as usize).0);
                    assert(self.types@ =~= old(self).types@ + (if old(self).slot(Value(fref.0)) is Some { Seq::<MTy>::empty() } else { seq![MTy::I64] })
                        + seq![MTy::I64] + normalize_spec(true, MTy::I64, expected, c, (c + 1) as usize).1);
                    assert(self.sigs@.drop_last() =~= old(self).sigs@);
                    assert(self.sigs@.last().rets@ =~= seq![MTy::I64]);
                    assert(self.sigs@.last().params@ =~= Seq::new(args@.len(), |i: int| MTy::I64));
                }
                Ok(())
            },
        }
    }
}

/// Two planners with the same value map give the same slots.
pub proof fn lemma_slots_same_vmap(p: ClPlanner, q: ClPlanner, vals: Seq<Value>)
    requires
        p.vmap@ == q.vmap@,
    ensures
        slots_of(p, vals) == slots_of(q, vals),
        first_missing(p, vals) == first_missing(q, vals),
    decreases vals.len(),
{
    if vals.len() > 0 {
        lemma_slots_same_vmap(p, q, vals.drop_last());
    }
}

} // verus!
