//! Lowering of variant construction and actor instructions for the
//! Cranelift backend.

use vstd::prelude::*;
use crate::clinst::{byte_sum, field_offset, field_stores, first_missing, msg_type_id, slots_of};
use crate::clmem::not_declared_msg;
use crate::clplan::{not_found_msg, ClPlanner};
use crate::ir::Value;
use crate::mach::{decl_index, interned_index, interned_into, Conv, Decl, MTy, Op, Span, StringTable};

verus! {

broadcast use vstd::std_specs::hash::group_hash_axioms;

/// The machine types of the given slots.
pub open spec fn types_of(p: ClPlanner, slots: Seq<usize>) -> Seq<MTy> {
    slots.map_values(|s: usize| p.types@[s as int])
}

/// Computes the message type number of a message name.
pub fn message_type(name: &String) -> (r: Result<i64, String>)
    ensures
        r is Ok <==> vstd::utf8::encode_utf8(name@).len() < 0x100_0000_0000,
        match r {
            Ok(k) => k == msg_type_id(vstd::utf8::encode_utf8(name@)),
            Err(m) => m@ == "message name too long"@,
        },
{
    let b = name.as_str().as_bytes();
    let n = b.len();
    if n as u64 >= 0x100_0000_0000 {
        return Err(String::from_str("message name too long"));
    }
    let mut sum: u64 = 0;
    for i in 0..n
        invariant
            n == b@.len(),
            n < 0x100_0000_0000,
            sum == byte_sum(b@.subrange(0, i as int)),
            sum <= 255 * i,
    {
        assert(b@.subrange(0, i + 1).drop_last() =~= b@.subrange(0, i as int));
        sum = sum + b[i] as u64;
    }
    assert(b@.subrange(0, n as int) =~= b@);
    let total: u64 = sum + (n as u64) * 31;
    Ok((total % 1000 + 1) as i64)
}

/// What lowering `ConstructVariant` does to the planner, and its result.
pub closed spec fn construct_variant_effect(pre: ClPlanner, post: ClPlanner, decls: Vec<Decl>, result: Value, tag: i64, payload: Vec<Value>, r: Result<(), String>) -> bool {
    &&& post.wf()
    &&& post.same_tables(&pre)
    &&& payload@.len() < 0x100_0000_0000_0000 ==> match decl_index(decls@, "malloc"@) {
                    None => r matches Err(m) && m@ == not_declared_msg("malloc"@),
                    Some(f) => if decls@[f as int].rets@.len() == 0 {
                        r is Err
                    } else {
                        match slots_of(pre, payload@) {
                            None => r matches Err(m) && m@ == not_found_msg(first_missing(pre, payload@).0),
                            Some(sl) => r is Ok && {
                                let n = pre.next();
                                let ptr = pre.next_k(1);
                                let fs = field_stores(sl, types_of(pre, sl), ptr, n + 3);
                                &&& post.ops@ == pre.ops@ + (seq![
                                    Op::IConst { dst: n, ty: MTy::I64, imm: ((1 + payload@.len()) * 8) as i64 },
                                    Op::Call { func: f, args: Span { start: pre.args@.len() as usize, len: 1 }, dst: ptr, has_result: true },
                                    Op::IConst { dst: pre.next_k(2), ty: MTy::I64, imm: tag },
                                    Op::Store { val: pre.next_k(2), addr: ptr, off: 0 },
                                ] + fs.0)
                                &&& post.types@ == pre.types@ + (seq![MTy::I64, decls@[f as int].rets@[0], MTy::I64] + fs.1)
                                &&& post.args@ == pre.args@.push(n)
                                &&& post.same_tables(&pre)
                                &&& post.vmap@ == pre.vmap@.insert(result.0, ptr)
                            },
                        }
                    },
                }
    &&& payload@.len() >= 0x100_0000_0000_0000 ==> (r matches Err(m) && m@ == "variant payload too large"@)
}

impl ClPlanner {
    /// Lowers `ConstructVariant`: allocates `(1 + payload.len()) * 8` bytes
    /// with `malloc`, stores the tag at offset 0 and each payload field at
    /// `field_offset`.
    pub fn lower_construct_variant(&mut self, decls: &Vec<Decl>, result: Value, tag: i64, payload: &Vec<Value>) -> (r: Result<(), String>)
        requires
            old(self).wf(),
        ensures
        r is Ok ==> old(self).ops@.is_prefix_of(final(self).ops@),
        final(self).wf(),
        final(self).block_params@.len() >= old(self).block_params@.len(),
        construct_variant_effect(*old(self), *final(self), *decls, result, tag, *payload, r),

    {
        let len = payload.len();
        if len as u64 >= 0x100_0000_0000_0000 {
            return Err(String::from_str("variant payload too large"));
        }
        let size: i64 = ((1 + len as u64) * 8) as i64;
        let n = self.types.len();
        let c = self.iconst(MTy::I64, size);
        let f = ClPlanner::required(decls, "malloc")?;
        let a0 = self.args.len();
        let one = vec![c];
        let ptr = self.call_value(decls, f, &one)?;
        let t = self.iconst(MTy::I64, tag);
        self.put(Op::Store { val: t, addr: ptr, off: 0 });
        let ghost prefix_ops = seq![
            Op::IConst { dst: n, ty: MTy::I64, imm: size },
            Op::Call { func: f, args: Span { start: a0, len: 1 }, dst: ptr, has_result: true },
            Op::IConst { dst: t, ty: MTy::I64, imm: tag },
            Op::Store { val: t, addr: ptr, off: 0 },
        ];
        let ghost prefix_tys = seq![MTy::I64, decls@[f as int].rets@[0], MTy::I64];
        assert(self.ops@ =~= old(self).ops@ + prefix_ops);
        assert(self.types@ =~= old(self).types@ + prefix_tys);
        assert(self.args@ =~= old(self).args@.push(c));
        let ghost mid = *self;
        let ghost mut sl: Seq<usize> = Seq::empty();
        for i in 0..len
            invariant
                len == payload@.len(),
                self.wf(),
                old(self).wf(),
                payload@.len() < 0x100_0000_0000_0000,
                size == ((1 + payload@.len()) * 8) as i64,
                decl_index(decls@, "malloc"@) == Some(f),
                f < decls@.len(),
                decls@[f as int].rets@.len() > 0,
                a0 == old(self).args@.len(),
                c == n,
                t == n + 2,
                prefix_ops == seq![
                    Op::IConst { dst: n, ty: MTy::I64, imm: size },
                    Op::Call { func: f, args: Span { start: a0, len: 1 }, dst: ptr, has_result: true },
                    Op::IConst { dst: t, ty: MTy::I64, imm: tag },
                    Op::Store { val: t, addr: ptr, off: 0 },
                ],
                prefix_tys == seq![MTy::I64, decls@[f as int].rets@[0], MTy::I64],
                ptr == n + 1,
                n == old(self).types@.len(),
                self.vmap@ == old(self).vmap@,
                self.args@ == old(self).args@.push(c),
                self.same_tables(old(self)),
                mid.types@ == old(self).types@ + prefix_tys,
                slots_of(*old(self), payload@.subrange(0, i as int)) == Some(sl),
                sl.len() == i,
                forall|j: int| 0 <= j < sl.len() ==> sl[j] < old(self).types@.len(),
                self.ops@ == old(self).ops@ + prefix_ops + field_stores(sl, types_of(*old(self), sl), ptr, n + 3).0,
                self.types@ == old(self).types@ + prefix_tys + field_stores(sl, types_of(*old(self), sl), ptr, n + 3).1,
        {
            assert(payload@.subrange(0, i + 1).drop_last() =~= payload@.subrange(0, i as int));
            let v = payload[i];
            let s = match self.resolve(v) {
                Ok(s) => s,
                Err(e) => {
                    proof {
                        crate::clinst::lemma_missing_prefix(*old(self), payload@, i as int);
                    }
                    return Err(e);
                },
            };
            let ghost before = *self;
            let t = self.types[s];
            let wide: u64 = (i as u64 + 1) * 8;
            let off: i32 = #[verifier::truncate] (wide as i32);
            assert(off == field_offset(i as int));
            let ghost fs0 = field_stores(sl, types_of(*old(self), sl), ptr, n + 3);
            if t == MTy::F64 {
                let b = self.convert(Conv::Bitcast, MTy::I64, s);
                self.put(Op::Store { val: b, addr: ptr, off });
                assert(self.ops@ =~= before.ops@ + seq![Op::Convert { dst: b, conv: Conv::Bitcast, ty: MTy::I64, a: s }, Op::Store { val: b, addr: ptr, off }]);
                assert(self.types@ =~= before.types@.push(MTy::I64));
            } else if t == MTy::I8 {
                let b = self.convert(Conv::UExtend, MTy::I64, s);
                self.put(Op::Store { val: b, addr: ptr, off });
                assert(self.ops@ =~= before.ops@ + seq![Op::Convert { dst: b, conv: Conv::UExtend, ty: MTy::I64, a: s }, Op::Store { val: b, addr: ptr, off }]);
                assert(self.types@ =~= before.types@.push(MTy::I64));
            } else {
                self.put(Op::Store { val: s, addr: ptr, off });
                assert(self.types@ =~= before.types@);
            }
            proof {
                assert(old(self).slot(v) == Some(s));
                assert(s < old(self).types@.len());
                let sl2 = sl.push(s);
                assert(sl2.drop_last() =~= sl);
                assert(types_of(*old(self), sl2).drop_last() =~= types_of(*old(self), sl));
                assert(types_of(*old(self), sl2).last() == t);
                assert(before.types@ == old(self).types@ + prefix_tys + fs0.1);
                assert(prefix_tys.len() == 3);
                assert(before.types@.len() == n + 3 + fs0.1.len());
                sl = sl2;
                assert(self.ops@ =~= old(self).ops@ + prefix_ops + field_stores(sl, types_of(*old(self), sl), ptr, n + 3).0);
                assert(self.types@ =~= old(self).types@ + prefix_tys + field_stores(sl, types_of(*old(self), sl), ptr, n + 3).1);
            }
        }
        proof {
            assert(payload@.subrange(0, len as int) =~= payload@);
            assert(self.ops@ =~= old(self).ops@ + (prefix_ops + field_stores(sl, types_of(*old(self), sl), ptr, n + 3).0));
            assert(self.types@ =~= old(self).types@ + (prefix_tys + field_stores(sl, types_of(*old(self), sl), ptr, n + 3).1));
        }
        self.bind(result, ptr);
        Ok(())
    }
}

} // verus!

verus! {

/// What lowering `Spawn` does to the planner, and its result.
pub closed spec fn spawn_effect(pre: ClPlanner, post: ClPlanner, decls: Vec<Decl>, result: Value, r: Result<(), String>) -> bool {
    &&& post.wf()
    &&& post.same_tables(&pre)
    &&& match decl_index(decls@, "__gradient_actor_spawn"@) {
                    None => r matches Err(m) && m@ == not_declared_msg("__gradient_actor_spawn"@),
                    Some(f) => decls@[f as int].rets@.len() > 0 ==> r is Ok && {
                        let n = pre.next();
                        &&& post.ops@ == pre.ops@ + seq![
                            Op::IConst { dst: n, ty: MTy::I64, imm: 0 },
                            Op::IConst { dst: pre.next_k(1), ty: MTy::I64, imm: 0 },
                            Op::Call { func: f, args: Span { start: pre.args@.len() as usize, len: 2 }, dst: pre.next_k(2), has_result: true },
                        ]
                        &&& post.types@ == pre.types@ + seq![MTy::I64, MTy::I64, decls@[f as int].rets@[0]]
                        &&& post.args@ == pre.args@ + seq![n, pre.next_k(1)]
                        &&& post.vmap@ == pre.vmap@.insert(result.0, pre.next_k(2))
                    },
                }
}

/// What lowering `ActorInit` does to the planner, and its result.
pub closed spec fn actor_init_effect(pre: ClPlanner, post: ClPlanner, initial_state: Value, r: Result<(), String>) -> bool {
    &&& post == pre
    &&& match pre.slot(initial_state) {
                    Some(_) => r is Ok,
                    None => r matches Err(m) && m@ == not_found_msg(initial_state.0),
                }
}

/// Where a message's payload pointer comes from: the payload's slot, or,
/// without a payload, a new null constant in slot `fresh`; with the
/// operations and slot types that adds. `None` when the payload has no slot.
pub open spec fn payload_source(pre: ClPlanner, payload: Option<Value>, fresh: usize) -> Option<(usize, Seq<Op>, Seq<MTy>)> {
    match payload {
        Some(pv) => match pre.slot(pv) {
            Some(s) => Some((s, Seq::<Op>::empty(), Seq::<MTy>::empty())),
            None => None,
        },
        None => Some((fresh, seq![Op::IConst { dst: fresh, ty: MTy::I64, imm: 0 }], seq![MTy::I64])),
    }
}

/// The payload value without a slot, when there is one.
pub open spec fn missing_payload(payload: Option<Value>) -> Value {
    match payload {
        Some(pv) => pv,
        None => Value(0),
    }
}

/// A message name longer than this many bytes has no type number.
pub open spec fn max_message_name() -> int {
    0x100_0000_0000
}

/// What lowering `Send` does once the handle is in slot `hs`.
pub open spec fn send_effect(pre: ClPlanner, post: ClPlanner, strings_pre: StringTable, strings_post: StringTable, decls: Vec<Decl>, hs: usize, message_name: String, payload: Option<Value>, r: Result<(), String>) -> bool {
    let n = pre.next();
    let bytes = vstd::utf8::encode_utf8(message_name@);
    let name_op = Op::DataAddr { dst: n, data: interned_index(strings_pre.entries@, message_name@) };
    &&& interned_into(strings_pre.entries@, strings_post.entries@, message_name@)
    &&& match payload_source(pre, payload, pre.next_k(1)) {
        None => r matches Err(m) && m@ == not_found_msg(missing_payload(payload).0),
        Some((pp, pay_ops, pay_tys)) => {
            let c = (n + 1 + pay_tys.len()) as usize;
            if bytes.len() >= max_message_name() {
                r matches Err(m) && m@ == "message name too long"@
            } else {
                match decl_index(decls@, "__gradient_actor_send"@) {
                    None => r matches Err(m) && m@ == not_declared_msg("__gradient_actor_send"@),
                    Some(f) => {
                        let has = decls@[f as int].rets@.len() > 0;
                        &&& r is Ok
                        &&& post.ops@ == pre.ops@ + seq![name_op] + pay_ops + seq![
                            Op::Convert { dst: c, conv: Conv::Bitcast, ty: MTy::I64, a: hs },
                            Op::IConst { dst: (c + 1) as usize, ty: MTy::I64, imm: msg_type_id(bytes) as i64 },
                            Op::IConst { dst: (c + 2) as usize, ty: MTy::I64, imm: 8 },
                            Op::Call { func: f, args: Span { start: pre.args@.len() as usize, len: 4 }, dst: (c + 3) as usize, has_result: has },
                        ]
                        &&& post.types@ == pre.types@ + seq![MTy::I64] + pay_tys + seq![MTy::I64, MTy::I64, MTy::I64]
                            + (if has { seq![decls@[f as int].rets@[0]] } else { Seq::<MTy>::empty() })
                        &&& post.args@ == pre.args@ + seq![c, (c + 1) as usize, pp, (c + 2) as usize]
                        &&& post.vmap@ == pre.vmap@
                    },
                }
            }
        },
    }
}

/// What lowering `Ask` does once the handle is in slot `hs`.
pub open spec fn ask_effect(pre: ClPlanner, post: ClPlanner, decls: Vec<Decl>, result: Value, hs: usize, message_name: String, payload: Option<Value>, r: Result<(), String>) -> bool {
    let n = pre.next();
    let bytes = vstd::utf8::encode_utf8(message_name@);
    if bytes.len() >= max_message_name() {
        r matches Err(m) && m@ == "message name too long"@
    } else {
        match payload_source(pre, payload, pre.next_k(3)) {
            None => r matches Err(m) && m@ == not_found_msg(missing_payload(payload).0),
            Some((pp, pay_ops, pay_tys)) => {
                let call_dst = (n + 3 + pay_tys.len()) as usize;
                match decl_index(decls@, "__gradient_actor_ask"@) {
                    None => r matches Err(m) && m@ == not_declared_msg("__gradient_actor_ask"@),
                    Some(f) => if decls@[f as int].rets@.len() == 0 {
                        r matches Err(m) && m@ == "__gradient_actor_ask returned no value"@
                    } else {
                        &&& r is Ok
                        &&& post.ops@ == pre.ops@ + seq![
                            Op::Convert { dst: n, conv: Conv::Bitcast, ty: MTy::I64, a: hs },
                            Op::IConst { dst: pre.next_k(1), ty: MTy::I64, imm: msg_type_id(bytes) as i64 },
                            Op::IConst { dst: pre.next_k(2), ty: MTy::I64, imm: 8 },
                        ] + pay_ops + seq![
                            Op::Call { func: f, args: Span { start: pre.args@.len() as usize, len: 4 }, dst: call_dst, has_result: true },
                        ]
                        &&& post.types@ == pre.types@ + seq![MTy::I64, MTy::I64, MTy::I64] + pay_tys + seq![decls@[f as int].rets@[0]]
                        &&& post.args@ == pre.args@ + seq![n, pre.next_k(1), pp, pre.next_k(2)]
                        &&& post.vmap@ == pre.vmap@.insert(result.0, call_dst)
                    },
                }
            },
        }
    }
}

/// What lowering `Send`/`Ask` does to the planner, and its result.
pub closed spec fn message_effect(pre: ClPlanner, post: ClPlanner, strings_pre: StringTable, strings_post: StringTable, decls: Vec<Decl>, is_ask: bool, result: Value, handle: Value, message_name: String, payload: Option<Value>, r: Result<(), String>) -> bool {
    &&& post.wf()
    &&& post.same_tables(&pre)
    &&& (is_ask ==> strings_post.entries@ == strings_pre.entries@)
    &&& match pre.slot(handle) {
        None => r matches Err(m) && m@ == not_found_msg(handle.0),
        Some(hs) => if is_ask {
            ask_effect(pre, post, decls, result, hs, message_name, payload, r)
        } else {
            send_effect(pre, post, strings_pre, strings_post, decls, hs, message_name, payload, r)
        },
    }
}

impl ClPlanner {
    /// Lowers `Spawn`: calls `__gradient_actor_spawn(null, 0)`; `result`
    /// holds the actor id it returns.
    pub fn lower_spawn(&mut self, decls: &Vec<Decl>, result: Value) -> (r: Result<(), String>)
        requires
            old(self).wf(),
        ensures
        r is Ok ==> old(self).ops@.is_prefix_of(final(self).ops@),
        final(self).wf(),
        final(self).block_params@.len() >= old(self).block_params@.len(),
        spawn_effect(*old(self), *final(self), *decls, result, r),

    {
        let z = self.iconst(MTy::I64, 0);
        let sz = self.iconst(MTy::I64, 0);
        let f = ClPlanner::required(decls, "__gradient_actor_spawn")?;
        let a = vec![z, sz];
        let h = self.call_value(decls, f, &a)?;
        self.bind(result, h);
        proof {
            assert(self.ops@ =~= old(self).ops@ + seq![
                Op::IConst { dst: z, ty: MTy::I64, imm: 0 },
                Op::IConst { dst: sz, ty: MTy::I64, imm: 0 },
                Op::Call { func: f, args: Span { start: old(self).args@.len() as usize, len: 2 }, dst: h, has_result: true },
            ]);
            assert(self.types@ =~= old(self).types@ + seq![MTy::I64, MTy::I64, decls@[f as int].rets@[0]]);
            assert(self.args@ =~= old(self).args@ + seq![z, sz]);
        }
        Ok(())
    }

    /// Lowers `ActorInit`: checks that the initial state has a slot and emits
    /// nothing.
    pub fn lower_actor_init(&mut self, initial_state: Value) -> (r: Result<(), String>)
        requires
            old(self).wf(),
        ensures
        r is Ok ==> old(self).ops@.is_prefix_of(final(self).ops@),
        final(self).wf(),
        final(self).block_params@.len() >= old(self).block_params@.len(),
        actor_init_effect(*old(self), *final(self), initial_state, r),

    {
        let _s = self.resolve(initial_state)?;
        Ok(())
    }

    /// Lowers `Send` (with `is_ask` false) and `Ask` (with `is_ask` true):
    /// calls `__gradient_actor_send` / `__gradient_actor_ask` with the
    /// handle reinterpreted as a 64-bit id, the message type number of the
    /// message name, the payload pointer (null when absent) and a payload
    /// size of 8. A send also materializes the message name's address. An ask
    /// binds `result` to the reply.
    pub fn lower_message(
        &mut self,
        strings: &mut StringTable,
        decls: &Vec<Decl>,
        is_ask: bool,
        result: Value,
        handle: Value,
        message_name: &String,
        payload: Option<Value>,
    ) -> (r: Result<(), String>)
        requires
            old(self).wf(),
        ensures
        r is Ok ==> old(self).ops@.is_prefix_of(final(self).ops@),
        final(self).wf(),
        final(self).block_params@.len() >= old(self).block_params@.len(),
        message_effect(*old(self), *final(self), *old(strings), *final(strings), *decls, is_ask, result, handle, *message_name, payload, r),

    {
        let hs = self.resolve(handle)?;
        if is_ask {
            self.lower_ask(decls, result, hs, message_name, payload)
        } else {
            self.lower_send(strings, decls, hs, message_name, payload)
        }
    }

    /// The `Send` part of [`ClPlanner::lower_message`], with the handle in slot `hs`.
    fn lower_send(&mut self, strings: &mut StringTable, decls: &Vec<Decl>, hs: usize, message_name: &String, payload: Option<Value>) -> (r: Result<(), String>)
        requires
            old(self).wf(),
            hs < old(self).types@.len(),
        ensures
            final(self).wf(),
            final(self).same_tables(old(self)),
            send_effect(*old(self), *final(self), *old(strings), *final(strings), *decls, hs, *message_name, payload, r),
    {
        let ghost p0 = *self;
        let d = strings.intern(message_name.as_str());
        let _name_ptr = self.data_addr(d);
        let pp = match payload {
            Some(v) => self.resolve(v)?,
            None => self.iconst(MTy::I64, 0),
        };
        let ghost p2 = *self;
        let h64 = self.convert(Conv::Bitcast, MTy::I64, hs);
        let k = message_type(message_name)?;
        let mt = self.iconst(MTy::I64, k);
        let ps = self.iconst(MTy::I64, 8);
        let f = ClPlanner::required(decls, "__gradient_actor_send")?;
        let ghost p3 = *self;
        let a = vec![h64, mt, pp, ps];
        let _ = self.call(decls, f, &a);
        proof {
            let src = payload_source(p0, payload, p0.next_k(1));
            assert(src matches Some((q, _, _)) && q == pp);
            let t = src->0;
            assert(p2.ops@ =~= p0.ops@ + seq![Op::DataAddr { dst: p0.next(), data: d }] + t.1);
            assert(p2.types@ =~= p0.types@ + seq![MTy::I64] + t.2);
            assert(h64 == p0.next() + 1 + t.2.len());
            assert(self.ops@ =~= p0.ops@ + seq![Op::DataAddr { dst: p0.next(), data: d }] + t.1 + seq![
                Op::Convert { dst: h64, conv: Conv::Bitcast, ty: MTy::I64, a: hs },
                Op::IConst { dst: mt, ty: MTy::I64, imm: k },
                Op::IConst { dst: ps, ty: MTy::I64, imm: 8 },
                Op::Call { func: f, args: Span { start: p0.args@.len() as usize, len: 4 }, dst: p3.types@.len() as usize, has_result: decls@[f as int].rets@.len() > 0 },
            ]);
            assert(self.types@ =~= p0.types@ + seq![MTy::I64] + t.2 + seq![MTy::I64, MTy::I64, MTy::I64]
                + (if decls@[f as int].rets@.len() > 0 { seq![decls@[f as int].rets@[0]] } else { Seq::<MTy>::empty() }));
            assert(self.args@ =~= p0.args@ + seq![h64, mt, pp, ps]);
        }
        Ok(())
    }

    /// The `Ask` part of [`ClPlanner::lower_message`], with the handle in slot `hs`.
    fn lower_ask(&mut self, decls: &Vec<Decl>, result: Value, hs: usize, message_name: &String, payload: Option<Value>) -> (r: Result<(), String>)
        requires
            old(self).wf(),
            hs < old(self).types@.len(),
        ensures
            final(self).wf(),
            final(self).same_tables(old(self)),
            ask_effect(*old(self), *final(self), *decls, result, hs, *message_name, payload, r),
    {
        let ghost p0 = *self;
        let h64 = self.convert(Conv::Bitcast, MTy::I64, hs);
        let k = message_type(message_name)?;
        let mt = self.iconst(MTy::I64, k);
        let ps = self.iconst(MTy::I64, 8);
        let ghost p1 = *self;
        let pp = match payload {
            Some(v) => self.resolve(v)?,
            None => self.iconst(MTy::I64, 0),
        };
        let f = ClPlanner::required(decls, "__gradient_actor_ask")?;
        let ghost p2 = *self;
        let a = vec![h64, mt, pp, ps];
        let res = self.call(decls, f, &a);
        match res {
            Some(s) => {
                self.bind(result, s);
                proof {
                    let src = payload_source(p0, payload, p0.next_k(3));
                    assert(src matches Some((q, _, _)) && q == pp);
                    let t = src->0;
                    assert(p1.types@.len() == p0.types@.len() + 3);
                    assert(p2.types@ =~= p1.types@ + t.2);
                    assert(p2.ops@ =~= p1.ops@ + t.1);
                    assert(s == p0.next() + 3 + t.2.len());
                    assert(self.ops@ =~= p0.ops@ + seq![
                        Op::Convert { dst: h64, conv: Conv::Bitcast, ty: MTy::I64, a: hs },
                        Op::IConst { dst: mt, ty: MTy::I64, imm: k },
                        Op::IConst { dst: ps, ty: MTy::I64, imm: 8 },
                    ] + t.1 + seq![
                        Op::Call { func: f, args: Span { start: p0.args@.len() as usize, len: 4 }, dst: s, has_result: true },
                    ]);
                    assert(self.types@ =~= p0.types@ + seq![MTy::I64, MTy::I64, MTy::I64] + t.2 + seq![decls@[f as int].rets@[0]]);
                    assert(self.args@ =~= p0.args@ + seq![h64, mt, pp, ps]);
                }
                Ok(())
            },
            None => Err(String::from_str("__gradient_actor_ask returned no value")),
        }
    }
}

} // verus!
