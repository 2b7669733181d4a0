//! Lowering of returns, memory, variant, actor and address instructions for
//! the Cranelift backend.

use vstd::prelude::*;
use std::collections::HashMap;
use crate::clinst::{
    byte_sum, bytes_of, field_offset, field_stores, first_missing, msg_type_id, slots_of,
    spec_align_shift, spec_bytes_of,
};
use crate::clplan::{declared_or, not_found_msg, ClPlanner};
use crate::ir::{Type, Value};
use crate::mach::{
    decl_index, find_decl, interned_index, mty_of, spec_mty_of, Conv, Decl, IOp, MTy, Op, Span,
    StringTable,
};

verus! {

broadcast use vstd::std_specs::hash::group_hash_axioms;

/// The message for a missing required runtime function.
pub open spec fn not_declared_msg(name: Seq<char>) -> Seq<char> {
    name + " not declared"@
}

/// What lowering `Return` does to the planner, and its result.
pub closed spec fn ret_effect(pre: ClPlanner, post: ClPlanner, main_void: bool, ret: Type, val: Option<Value>, r: Result<(), String>) -> bool {
    &&& post.wf()
    &&& post.same_tables(&pre)
    &&& post.vmap@ == pre.vmap@
    &&& post.same_tables(&pre)
    &&& ({
                    let n = pre.next();
                    let sp = Span { start: pre.args@.len() as usize, len: 1 };
                    let sp0 = Span { start: pre.args@.len() as usize, len: 0 };
                    if main_void {
                        r is Ok && post.ops@ == pre.ops@ + seq![Op::IConst { dst: n, ty: MTy::I32, imm: 0 }, Op::Return { args: sp }]
                            && post.types@ == pre.types@.push(MTy::I32)
                            && post.args@ == pre.args@.push(n)
                    } else {
                        match val {
                            Some(v) => match pre.slot(v) {
                                Some(s) => r is Ok && post.ops@ == pre.ops@.push(Op::Return { args: sp })
                                    && post.types@ == pre.types@
                                    && post.args@ == pre.args@.push(s),
                                None => r matches Err(m) && m@ == not_found_msg(v.0),
                            },
                            None => r is Ok && if ret != Type::Void {
                                let t = spec_mty_of(ret);
                                &&& post.ops@ == pre.ops@ + seq![
                                    if t == MTy::F64 { Op::F64Const { dst: n, bits: 0 } } else { Op::IConst { dst: n, ty: t, imm: 0 } },
                                    Op::Return { args: sp },
                                ]
                                &&& post.types@ == pre.types@.push(t)
                                &&& post.args@ == pre.args@.push(n)
                            } else {
                                &&& post.ops@ == pre.ops@.push(Op::Return { args: sp0 })
                                &&& post.types@ == pre.types@
                                &&& post.args@ == pre.args@
                            },
                        }
                    }
                })
}

/// What lowering `Alloca` does to the planner, and its result.
pub closed spec fn alloca_effect(pre: ClPlanner, post: ClPlanner, dst: Value, ty: Type) -> bool {
    &&& post.wf()
    &&& post.same_tables(&pre)
    &&& ({
                    let size = spec_bytes_of(spec_mty_of(ty));
                    &&& post.appended(&pre, seq![Op::StackAddr { dst: pre.next(), size, align_shift: spec_align_shift(size) }], seq![MTy::I64])
                    &&& post.vmap@ == pre.vmap@.insert(dst.0, pre.next())
                })
}

/// What lowering `Load` does to the planner, and its result.
pub closed spec fn load_effect(pre: ClPlanner, post: ClPlanner, vt: HashMap<u32, Type>, dst: Value, addr: Value, r: Result<(), String>) -> bool {
    &&& post.wf()
    &&& post.same_tables(&pre)
    &&& match pre.slot(addr) {
                    Some(a) => r is Ok && {
                        let t = declared_or(vt@, dst, MTy::I64);
                        &&& post.appended(&pre, seq![Op::Load { dst: pre.next(), ty: t, addr: a, off: 0 }], seq![t])
                        &&& post.vmap@ == pre.vmap@.insert(dst.0, pre.next())
                    },
                    None => r matches Err(m) && m@ == not_found_msg(addr.0),
                }
}

/// What lowering `Store` does to the planner, and its result.
pub closed spec fn store_effect(pre: ClPlanner, post: ClPlanner, val: Value, addr: Value, r: Result<(), String>) -> bool {
    &&& post.wf()
    &&& post.same_tables(&pre)
    &&& match (pre.slot(val), pre.slot(addr)) {
                    (Some(v), Some(a)) => r is Ok && post.appended(&pre, seq![Op::Store { val: v, addr: a, off: 0 }], seq![])
                        && post.vmap@ == pre.vmap@,
                    (None, _) => r matches Err(m) && m@ == not_found_msg(val.0),
                    (Some(_), None) => r matches Err(m) && m@ == not_found_msg(addr.0),
                }
}

/// What lowering `GetVariantTag` does to the planner, and its result.
pub closed spec fn variant_tag_effect(pre: ClPlanner, post: ClPlanner, result: Value, ptr: Value, r: Result<(), String>) -> bool {
    &&& post.wf()
    &&& post.same_tables(&pre)
    &&& match pre.slot(ptr) {
                    Some(p) => r is Ok && post.appended(&pre, seq![Op::Load { dst: pre.next(), ty: MTy::I64, addr: p, off: 0 }], seq![MTy::I64])
                        && post.vmap@ == pre.vmap@.insert(result.0, pre.next()),
                    None => r matches Err(m) && m@ == not_found_msg(ptr.0),
                }
}

/// What lowering `GetVariantField` does to the planner, and its result.
pub closed spec fn variant_field_effect(pre: ClPlanner, post: ClPlanner, vt: HashMap<u32, Type>, result: Value, ptr: Value, index: u32, r: Result<(), String>) -> bool {
    &&& post.wf()
    &&& post.same_tables(&pre)
    &&& match pre.slot(ptr) {
                    Some(p) => r is Ok && {
                        let t = declared_or(vt@, result, MTy::I64);
                        let off = field_offset(index as int);
                        let n = pre.next();
                        if t == MTy::F64 {
                            post.appended(&pre, seq![Op::Load { dst: n, ty: MTy::F64, addr: p, off }], seq![MTy::F64])
                                && post.vmap@ == pre.vmap@.insert(result.0, n)
                        } else if t == MTy::I8 {
                            post.appended(&pre, seq![
                                Op::Load { dst: n, ty: MTy::I64, addr: p, off },
                                Op::Convert { dst: pre.next_k(1), conv: Conv::IReduce, ty: MTy::I8, a: n },
                            ], seq![MTy::I64, MTy::I8])
                                && post.vmap@ == pre.vmap@.insert(result.0, pre.next_k(1))
                        } else {
                            post.appended(&pre, seq![Op::Load { dst: n, ty: MTy::I64, addr: p, off }], seq![MTy::I64])
                                && post.vmap@ == pre.vmap@.insert(result.0, n)
                        }
                    },
                    None => r matches Err(m) && m@ == not_found_msg(ptr.0),
                }
}

/// What lowering `PtrToInt/IntToPtr` does to the planner, and its result.
pub closed spec fn word_cast_effect(pre: ClPlanner, post: ClPlanner, result: Value, src: Value, r: Result<(), String>) -> bool {
    &&& post.wf()
    &&& post.same_tables(&pre)
    &&& match pre.slot(src) {
                    Some(a) => r is Ok && post.appended(&pre, seq![
                        Op::IConst { dst: pre.next(), ty: MTy::I64, imm: 0 },
                        Op::IBin { dst: pre.next_k(1), op: IOp::Add, a, b: pre.next() },
                    ], seq![MTy::I64, pre.ty(a)])
                        && post.vmap@ == pre.vmap@.insert(result.0, pre.next_k(1)),
                    None => r matches Err(m) && m@ == not_found_msg(src.0),
                }
}

/// What lowering `GetElementPtr/FieldAddr` does to the planner, and its result.
pub closed spec fn offset_addr_effect(pre: ClPlanner, post: ClPlanner, result: Value, base: Value, offset: i64, r: Result<(), String>) -> bool {
    &&& post.wf()
    &&& post.same_tables(&pre)
    &&& match pre.slot(base) {
                    Some(a) => r is Ok && post.appended(&pre, seq![
                        Op::IConst { dst: pre.next(), ty: MTy::I64, imm: offset },
                        Op::IBin { dst: pre.next_k(1), op: IOp::Add, a, b: pre.next() },
                    ], seq![MTy::I64, pre.ty(a)])
                        && post.vmap@ == pre.vmap@.insert(result.0, pre.next_k(1)),
                    None => r matches Err(m) && m@ == not_found_msg(base.0),
                }
}

/// What lowering `LoadField` does to the planner, and its result.
pub closed spec fn load_field_effect(pre: ClPlanner, post: ClPlanner, result: Value, object: Value, field_ty: Type, offset: i64, r: Result<(), String>) -> bool {
    &&& post.wf()
    &&& post.same_tables(&pre)
    &&& match pre.slot(object) {
                    Some(o) => r is Ok && post.appended(&pre, seq![
                        Op::Load { dst: pre.next(), ty: spec_mty_of(field_ty), addr: o, off: offset as i32 },
                    ], seq![spec_mty_of(field_ty)])
                        && post.vmap@ == pre.vmap@.insert(result.0, pre.next()),
                    None => r matches Err(m) && m@ == not_found_msg(object.0),
                }
}

/// What lowering `StoreField` does to the planner, and its result.
pub closed spec fn store_field_effect(pre: ClPlanner, post: ClPlanner, value: Value, object: Value, offset: i64, r: Result<(), String>) -> bool {
    &&& post.wf()
    &&& post.same_tables(&pre)
    &&& match (pre.slot(object), pre.slot(value)) {
                    (Some(o), Some(v)) => r is Ok && post.appended(&pre, seq![
                        Op::Store { val: v, addr: o, off: offset as i32 },
                    ], seq![]) && post.vmap@ == pre.vmap@,
                    (None, _) => r matches Err(m) && m@ == not_found_msg(object.0),
                    (Some(_), None) => r matches Err(m) && m@ == not_found_msg(value.0),
                }
}

impl ClPlanner {
    /// Lowers `Ret(val)`. The C `main` of a function returning `Void`
    /// returns the integer 0; a function with a non-void result that returns
    /// nothing returns a zero of its result type.
    pub fn lower_ret(&mut self, main_void: bool, ret: Type, val: Option<Value>) -> (r: Result<(), String>)
        requires
            old(self).wf(),
        ensures
        r is Ok ==> old(self).ops@.is_prefix_of(final(self).ops@),
        final(self).wf(),
        final(self).block_params@.len() >= old(self).block_params@.len(),
        ret_effect(*old(self), *final(self), main_void, ret, val, r),

    {
        let start = self.args.len();
        if main_void {
            let z = self.iconst(MTy::I32, 0);
            self.args.push(z);
            self.ops.push(Op::Return { args: Span { start, len: 1 } });
            assert(self.ops@ =~= old(self).ops@ + seq![Op::IConst { dst: z, ty: MTy::I32, imm: 0 }, Op::Return { args: Span { start, len: 1 } }]);
            assert(self.types@ =~= old(self).types@.push(MTy::I32));
            return Ok(());
        }
        match val {
            Some(v) => {
                let s = self.resolve(v)?;
                self.args.push(s);
                self.ops.push(Op::Return { args: Span { start, len: 1 } });
            },
            None => {
                if ret != Type::Void {
                    let t = mty_of(ret);
                    let z = if t == MTy::F64 {
                        let n = self.types.len();
                        self.def(MTy::F64, Op::F64Const { dst: n, bits: 0 })
                    } else {
                        self.iconst(t, 0)
                    };
                    self.args.push(z);
                    self.ops.push(Op::Return { args: Span { start, len: 1 } });
                    assert(self.types@ =~= old(self).types@.push(t));
                    assert(self.ops@ =~= old(self).ops@ + seq![
                        if t == MTy::F64 { Op::F64Const { dst: z, bits: 0 } } else { Op::IConst { dst: z, ty: t, imm: 0 } },
                        Op::Return { args: Span { start, len: 1 } },
                    ]);
                } else {
                    self.ops.push(Op::Return { args: Span { start, len: 0 } });
                }
            },
        }
        Ok(())
    }

    /// Lowers `Alloca(dst, ty)`: a stack slot of the type's size, aligned to
    /// its size when that is 8 or 4 bytes; `dst` holds its address.
    pub fn lower_alloca(&mut self, dst: Value, ty: Type)
        requires
            old(self).wf(),
        ensures
        old(self).ops@.is_prefix_of(final(self).ops@),
        final(self).wf(),
        final(self).block_params@.len() >= old(self).block_params@.len(),
        alloca_effect(*old(self), *final(self), dst, ty),

    {
        let size = bytes_of(mty_of(ty));
        let shift: u8 = if size == 8 {
            3
        } else if size == 4 {
            2
        } else {
            0
        };
        let n = self.types.len();
        let s = self.def(MTy::I64, Op::StackAddr { dst: n, size, align_shift: shift });
        self.bind(dst, s);
    }

    /// Lowers `Load(dst, addr)`: a load of `dst`'s declared type (`I64` when
    /// undeclared) from the address.
    pub fn lower_load(&mut self, vt: &HashMap<u32, Type>, dst: Value, addr: Value) -> (r: Result<(), String>)
        requires
            old(self).wf(),
        ensures
        r is Ok ==> old(self).ops@.is_prefix_of(final(self).ops@),
        final(self).wf(),
        final(self).block_params@.len() >= old(self).block_params@.len(),
        load_effect(*old(self), *final(self), *vt, dst, addr, r),

    {
        let a = self.resolve(addr)?;
        let t = match vt.get(&dst.0) {
            Some(t) => mty_of(*t),
            None => MTy::I64,
        };
        let s = self.load(t, a, 0);
        self.bind(dst, s);
        Ok(())
    }

    /// Lowers `Store(val, addr)`.
    pub fn lower_store(&mut self, val: Value, addr: Value) -> (r: Result<(), String>)
        requires
            old(self).wf(),
        ensures
        r is Ok ==> old(self).ops@.is_prefix_of(final(self).ops@),
        final(self).wf(),
        final(self).block_params@.len() >= old(self).block_params@.len(),
        store_effect(*old(self), *final(self), val, addr, r),

    {
        let v = self.resolve(val)?;
        let a = self.resolve(addr)?;
        self.put(Op::Store { val: v, addr: a, off: 0 });
        Ok(())
    }

    /// Looks up a runtime function that must have been declared.
    pub fn required(decls: &Vec<Decl>, name: &str) -> (r: Result<usize, String>)
        ensures
            match decl_index(decls@, name@) {
                Some(i) => r == Ok::<usize, String>(i) && i < decls@.len(),
                None => r matches Err(m) && m@ == not_declared_msg(name@),
            },
    {
        let n = decls.len();
        proof {
            crate::mach::lemma_decl_index(decls@, name@);
        }
        match find_decl(decls, name) {
            Some(i) => Ok(i),
            None => {
                let mut m = String::from_str(name);
                m.append(" not declared");
                Err(m)
            },
        }
    }

    /// Calls declared function `f` and returns its first result, which the
    /// function must have.
    pub fn call_value(&mut self, decls: &Vec<Decl>, f: usize, vals: &Vec<usize>) -> (r: Result<usize, String>)
        requires
            old(self).wf(),
            f < decls@.len(),
        ensures
            final(self).wf(),
            final(self).same_tables(old(self)),
            final(self).same_tables(old(self)),
            decls@[f as int].rets@.len() > 0 ==> r == Ok::<usize, String>(old(self).next())
                && final(self).ops@ == old(self).ops@.push(Op::Call {
                    func: f,
                    args: Span { start: old(self).args@.len() as usize, len: vals@.len() as usize },
                    dst: old(self).next(),
                    has_result: true,
                })
                && final(self).types@ == old(self).types@.push(decls@[f as int].rets@[0])
                && final(self).args@ == old(self).args@ + vals@
                && final(self).vmap@ == old(self).vmap@
                && final(self).same_tables(old(self)),
            decls@[f as int].rets@.len() == 0 ==> (r matches Err(m) && m@ == decls@[f as int].name@ + " returned no value"@),
    {
        if decls[f].rets.len() == 0 {
            let mut m = decls[f].name.clone();
            m.append(" returned no value");
            return Err(m);
        }
        match self.call(decls, f, vals) {
            Some(s) => Ok(s),
            None => Err(String::new()),
        }
    }

    /// Lowers `GetVariantTag`: the tag is the 64-bit word at offset 0.
    pub fn lower_variant_tag(&mut self, result: Value, ptr: Value) -> (r: Result<(), String>)
        requires
            old(self).wf(),
        ensures
        r is Ok ==> old(self).ops@.is_prefix_of(final(self).ops@),
        final(self).wf(),
        final(self).block_params@.len() >= old(self).block_params@.len(),
        variant_tag_effect(*old(self), *final(self), result, ptr, r),

    {
        let p = self.resolve(ptr)?;
        let s = self.load(MTy::I64, p, 0);
        self.bind(result, s);
        Ok(())
    }

    /// Lowers `GetVariantField`: payload field `index` is the word at byte
    /// offset `(index + 1) * 8`, loaded as a float for an `F64` result, as a
    /// word narrowed to a byte for a byte result, and as a word otherwise.
    pub fn lower_variant_field(&mut self, vt: &HashMap<u32, Type>, result: Value, ptr: Value, index: u32) -> (r: Result<(), String>)
        requires
            old(self).wf(),
        ensures
        r is Ok ==> old(self).ops@.is_prefix_of(final(self).ops@),
        final(self).wf(),
        final(self).block_params@.len() >= old(self).block_params@.len(),
        variant_field_effect(*old(self), *final(self), *vt, result, ptr, index, r),

    {
        let p = self.resolve(ptr)?;
        let wide: u64 = (index as u64 + 1) * 8;
        #[verifier::truncate]
        let off: i32 = wide as i32;
        let t = match vt.get(&result.0) {
            Some(t) => mty_of(*t),
            None => MTy::I64,
        };
        let s = if t == MTy::F64 {
            self.load(MTy::F64, p, off)
        } else if t == MTy::I8 {
            let raw = self.load(MTy::I64, p, off);
            let nar = self.convert(Conv::IReduce, MTy::I8, raw);
            assert(self.ops@ =~= old(self).ops@ + seq![
                Op::Load { dst: raw, ty: MTy::I64, addr: p, off },
                Op::Convert { dst: nar, conv: Conv::IReduce, ty: MTy::I8, a: raw },
            ]);
            assert(self.types@ =~= old(self).types@ + seq![MTy::I64, MTy::I8]);
            nar
        } else {
            self.load(MTy::I64, p, off)
        };
        self.bind(result, s);
        Ok(())
    }

    /// Lowers `PtrToInt`/`IntToPtr`: both are 64-bit words, so the value is
    /// re-materialized by adding zero.
    pub fn lower_word_cast(&mut self, result: Value, src: Value) -> (r: Result<(), String>)
        requires
            old(self).wf(),
        ensures
        r is Ok ==> old(self).ops@.is_prefix_of(final(self).ops@),
        final(self).wf(),
        final(self).block_params@.len() >= old(self).block_params@.len(),
        word_cast_effect(*old(self), *final(self), result, src, r),

    {
        let a = self.resolve(src)?;
        let z = self.iconst(MTy::I64, 0);
        let s = self.ibin(IOp::Add, a, z);
        assert(self.ops@ =~= old(self).ops@ + seq![
            Op::IConst { dst: z, ty: MTy::I64, imm: 0 },
            Op::IBin { dst: s, op: IOp::Add, a, b: z },
        ]);
        assert(self.types@ =~= old(self).types@ + seq![MTy::I64, old(self).ty(a)]);
        self.bind(result, s);
        Ok(())
    }

    /// Lowers `GetElementPtr`/`FieldAddr`: the base address plus the offset.
    pub fn lower_offset_addr(&mut self, result: Value, base: Value, offset: i64) -> (r: Result<(), String>)
        requires
            old(self).wf(),
        ensures
        r is Ok ==> old(self).ops@.is_prefix_of(final(self).ops@),
        final(self).wf(),
        final(self).block_params@.len() >= old(self).block_params@.len(),
        offset_addr_effect(*old(self), *final(self), result, base, offset, r),

    {
        let a = self.resolve(base)?;
        let o = self.iconst(MTy::I64, offset);
        let s = self.ibin(IOp::Add, a, o);
        assert(self.ops@ =~= old(self).ops@ + seq![
            Op::IConst { dst: o, ty: MTy::I64, imm: offset },
            Op::IBin { dst: s, op: IOp::Add, a, b: o },
        ]);
        assert(self.types@ =~= old(self).types@ + seq![MTy::I64, old(self).ty(a)]);
        self.bind(result, s);
        Ok(())
    }

    /// Lowers `LoadField`: a load of the field's type at the byte offset
    /// (truncated to 32 bits).
    pub fn lower_load_field(&mut self, result: Value, object: Value, field_ty: Type, offset: i64) -> (r: Result<(), String>)
        requires
            old(self).wf(),
        ensures
        r is Ok ==> old(self).ops@.is_prefix_of(final(self).ops@),
        final(self).wf(),
        final(self).block_params@.len() >= old(self).block_params@.len(),
        load_field_effect(*old(self), *final(self), result, object, field_ty, offset, r),

    {
        let o = self.resolve(object)?;
        #[verifier::truncate]
        let off: i32 = offset as i32;
        let s = self.load(mty_of(field_ty), o, off);
        self.bind(result, s);
        Ok(())
    }

    /// Lowers `StoreField`: a store at the byte offset (truncated to 32 bits).
    pub fn lower_store_field(&mut self, value: Value, object: Value, offset: i64) -> (r: Result<(), String>)
        requires
            old(self).wf(),
        ensures
        r is Ok ==> old(self).ops@.is_prefix_of(final(self).ops@),
        final(self).wf(),
        final(self).block_params@.len() >= old(self).block_params@.len(),
        store_field_effect(*old(self), *final(self), value, object, offset, r),

    {
        let o = self.resolve(object)?;
        let v = self.resolve(value)?;
        #[verifier::truncate]
        let off: i32 = offset as i32;
        self.put(Op::Store { val: v, addr: o, off });
        Ok(())
    }
}

} // verus!
