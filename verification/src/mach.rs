//! The lowered form of a function that the Cranelift backend emits: a flat
//! list of operations over numbered value slots, plus the tables they refer to
//! (declared functions, interned string constants, call signatures).

use vstd::prelude::*;
use crate::ir::{div_toward_zero, Type};
use crate::text::str_eq;

verus! {

/// Machine value types.
#[derive(Clone, Copy, Debug, PartialEq, Eq, Structural)]
pub enum MTy {
    I8,
    I32,
    I64,
    F64,
}

/// The machine type of an IR type (pointers are 64-bit integers; `Void`
/// values are carried as bytes).
pub open spec fn spec_mty_of(t: Type) -> MTy {
    match t {
        Type::I32 => MTy::I32,
        Type::I64 => MTy::I64,
        Type::Ptr => MTy::I64,
        Type::Bool => MTy::I8,
        Type::F64 => MTy::F64,
        Type::Void => MTy::I8,
    }
}

/// Converts an IR type to its machine type.
pub fn mty_of(t: Type) -> (r: MTy)
    ensures
        r == spec_mty_of(t),
{
    match t {
        Type::I32 => MTy::I32,
        Type::I64 => MTy::I64,
        Type::Ptr => MTy::I64,
        Type::Bool => MTy::I8,
        Type::F64 => MTy::F64,
        Type::Void => MTy::I8,
    }
}

/// Width of a machine type in bits.
pub open spec fn spec_bits(t: MTy) -> u32 {
    match t {
        MTy::I8 => 8,
        MTy::I32 => 32,
        MTy::I64 => 64,
        MTy::F64 => 64,
    }
}

/// Width of a machine type in bits.
pub fn bits(t: MTy) -> (r: u32)
    ensures
        r == spec_bits(t),
{
    match t {
        MTy::I8 => 8,
        MTy::I32 => 32,
        MTy::I64 => 64,
        MTy::F64 => 64,
    }
}

/// Integer binary operations.
#[derive(Clone, Copy, Debug, PartialEq, Eq, Structural)]
pub enum IOp {
    Add,
    Sub,
    Mul,
    SDiv,
    Or,
}

/// The value integer operation `op` computes from `a` and `b` (before
/// wrapping to the operand width): sum, difference `a - b`, product,
/// signed quotient rounded toward zero; `None` for the bitwise `or`.
pub open spec fn iop_value(op: IOp, a: int, b: int) -> Option<int> {
    match op {
        IOp::Add => Some(a + b),
        IOp::Sub => Some(a - b),
        IOp::Mul => Some(a * b),
        IOp::SDiv => Some(div_toward_zero(a, b)),
        IOp::Or => None,
    }
}

/// Integer operations with an immediate operand.
#[derive(Clone, Copy, Debug, PartialEq, Eq, Structural)]
pub enum ImmOp {
    Add,
    Mul,
}

/// Floating-point binary operations.
#[derive(Clone, Copy, Debug, PartialEq, Eq, Structural)]
pub enum FOp {
    Add,
    Sub,
    Mul,
    Div,
}

/// Floating-point unary operations.
#[derive(Clone, Copy, Debug, PartialEq, Eq, Structural)]
pub enum FUn {
    Abs,
    Sqrt,
}

/// Integer comparison conditions (signed orderings).
#[derive(Clone, Copy, Debug, PartialEq, Eq, Structural)]
pub enum ICond {
    Eq,
    Ne,
    Slt,
    Sle,
    Sgt,
    Sge,
}

/// Whether integer condition `c` holds between `a` and `b`, the operands
/// read as signed integers: `eq`, `ne`, `slt` (strictly less), `sle`
/// (less or equal), `sgt` (strictly greater), `sge` (greater or equal).
pub open spec fn icond_holds(c: ICond, a: int, b: int) -> bool {
    match c {
        ICond::Eq => a == b,
        ICond::Ne => a != b,
        ICond::Slt => a < b,
        ICond::Sle => a <= b,
        ICond::Sgt => a > b,
        ICond::Sge => a >= b,
    }
}

/// Whether ordered floating-point condition `c` holds between two numbers
/// (neither a NaN) whose order is that of `a` and `b`.
pub open spec fn fcond_holds(c: FCond, a: int, b: int) -> bool {
    match c {
        FCond::Eq => a == b,
        FCond::Ne => a != b,
        FCond::Lt => a < b,
        FCond::Le => a <= b,
        FCond::Gt => a > b,
        FCond::Ge => a >= b,
    }
}

/// Floating-point comparison conditions (ordered).
#[derive(Clone, Copy, Debug, PartialEq, Eq, Structural)]
pub enum FCond {
    Eq,
    Ne,
    Lt,
    Le,
    Gt,
    Ge,
}

/// Value conversions.
#[derive(Clone, Copy, Debug, PartialEq, Eq, Structural)]
pub enum Conv {
    UExtend,
    SExtend,
    IReduce,
    FToSInt,
    SIntToF,
    Bitcast,
}

/// A contiguous run of slots in the argument pool.
#[derive(Clone, Copy, Debug, PartialEq, Eq, Structural)]
pub struct Span {
    pub start: usize,
    pub len: usize,
}

/// One machine operation. `dst` fields name the slot the operation defines;
/// blocks are numbered in creation order; `func` indexes the declared
/// function table; `data` indexes the string table; `sig` indexes the
/// function's signature table.
#[derive(Clone, Copy, Debug, PartialEq, Eq, Structural)]
pub enum Op {
    IConst { dst: usize, ty: MTy, imm: i64 },
    F64Const { dst: usize, bits: u64 },
    DataAddr { dst: usize, data: usize },
    FuncAddr { dst: usize, func: usize },
    IBin { dst: usize, op: IOp, a: usize, b: usize },
    IBinImm { dst: usize, op: ImmOp, a: usize, imm: i64 },
    FBin { dst: usize, op: FOp, a: usize, b: usize },
    FUnary { dst: usize, op: FUn, a: usize },
    ICmp { dst: usize, cc: ICond, a: usize, b: usize },
    ICmpImm { dst: usize, cc: ICond, a: usize, imm: i64 },
    FCmp { dst: usize, cc: FCond, a: usize, b: usize },
    Select { dst: usize, c: usize, a: usize, b: usize },
    Convert { dst: usize, conv: Conv, ty: MTy, a: usize },
    Load { dst: usize, ty: MTy, addr: usize, off: i32 },
    Store { val: usize, addr: usize, off: i32 },
    StackAddr { dst: usize, size: u32, align_shift: u8 },
    Call { func: usize, args: Span, dst: usize, has_result: bool },
    CallIndirect { sig: usize, addr: usize, args: Span, dst: usize, has_result: bool },
    CreateBlock { block: usize },
    AppendParam { block: usize, ty: MTy },
    AppendFunctionParams { block: usize },
    BlockParam { dst: usize, block: usize, index: usize },
    SwitchTo { block: usize },
    Seal { block: usize },
    Jump { block: usize, args: Span },
    Brif { cond: usize, then_block: usize, then_args: Span, else_block: usize, else_args: Span },
    Return { args: Span },
    SealAll,
}

/// How a declared function is linked.
#[derive(Clone, Copy, Debug, PartialEq, Eq, Structural)]
pub enum Linkage {
    Import,
    Local,
    Export,
}

/// A declared function: its symbol name and machine signature.
pub struct Decl {
    pub name: String,
    pub params: Vec<MTy>,
    pub rets: Vec<MTy>,
    pub linkage: Linkage,
}

/// A call signature.
pub struct Sig {
    pub params: Vec<MTy>,
    pub rets: Vec<MTy>,
}

/// The index of the first declaration named `name`, if any.
pub open spec fn decl_index(decls: Seq<Decl>, name: Seq<char>) -> Option<usize>
    decreases decls.len(),
{
    if decls.len() == 0 {
        None
    } else {
        match decl_index(decls.drop_last(), name) {
            Some(i) => Some(i),
            None => if decls.last().name@ == name {
                Some((decls.len() - 1) as usize)
            } else {
                None
            },
        }
    }
}

pub proof fn lemma_decl_index(decls: Seq<Decl>, name: Seq<char>)
    requires
        decls.len() <= usize::MAX,
    ensures
        match decl_index(decls, name) {
            Some(i) => i < decls.len() && decls[i as int].name@ == name
                && forall|j: int| 0 <= j < i ==> decls[j].name@ != name,
            None => forall|j: int| 0 <= j < decls.len() ==> decls[j].name@ != name,
        },
    decreases decls.len(),
{
    if decls.len() > 0 {
        lemma_decl_index(decls.drop_last(), name);
        assert forall|j: int| 0 <= j < decls.len() - 1 implies decls.drop_last()[j] == decls[j] by {}
        if decl_index(decls.drop_last(), name) is None && decls.last().name@ == name {
            assert(decls[decls.len() - 1] == decls.last());
        }
    }
}

/// A declaration named `name` exists exactly when `decl_index` finds one.
pub proof fn lemma_decl_index_exists(decls: Seq<Decl>, name: Seq<char>)
    ensures
        decl_index(decls, name) is Some <==> exists|m: int| 0 <= m < decls.len() && (#[trigger] decls[m]).name@ == name,
    decreases decls.len(),
{
    if decls.len() > 0 {
        lemma_decl_index_exists(decls.drop_last(), name);
        if decl_index(decls.drop_last(), name) is Some {
            let m = choose|m: int| 0 <= m < decls.drop_last().len() && (#[trigger] decls.drop_last()[m]).name@ == name;
            assert(decls[m] == decls.drop_last()[m]);
        } else if decls.last().name@ == name {
            assert(decls[decls.len() - 1] == decls.last());
        } else {
            assert forall|m: int| 0 <= m < decls.len() implies (#[trigger] decls[m]).name@ != name by {
                if m < decls.len() - 1 {
                    assert(decls[m] == decls.drop_last()[m]);
                }
            }
        }
    }
}

/// Looks up the first declaration named `name`.
pub fn find_decl(decls: &Vec<Decl>, name: &str) -> (r: Option<usize>)
    ensures
        r == decl_index(decls@, name@),
{
    let n = decls.len();
    proof {
        lemma_decl_index(decls@, name@);
    }
    for i in 0..n
        invariant
            n == decls@.len(),
            forall|j: int| 0 <= j < i ==> decls@[j].name@ != name@,
            match decl_index(decls@, name@) {
                Some(k) => k < decls@.len() && decls@[k as int].name@ == name@
                    && forall|j: int| 0 <= j < k ==> decls@[j].name@ != name@,
                None => forall|j: int| 0 <= j < decls@.len() ==> decls@[j].name@ != name@,
            },
    {
        if str_eq(decls[i].name.as_str(), name) {
            return Some(i);
        }
    }
    None
}

/// Interned string constants. Entry `k` is emitted as a null-terminated
/// read-only data object named `.str.k`.
pub struct StringTable {
    pub entries: Vec<String>,
}

/// The index of the first entry equal to `s`, if any.
pub open spec fn string_index(entries: Seq<String>, s: Seq<char>) -> Option<usize>
    decreases entries.len(),
{
    if entries.len() == 0 {
        None
    } else {
        match string_index(entries.drop_last(), s) {
            Some(i) => Some(i),
            None => if entries.last()@ == s {
                Some((entries.len() - 1) as usize)
            } else {
                None
            },
        }
    }
}

pub proof fn lemma_string_index(entries: Seq<String>, s: Seq<char>)
    requires
        entries.len() <= usize::MAX,
    ensures
        match string_index(entries, s) {
            Some(i) => i < entries.len() && entries[i as int]@ == s
                && forall|j: int| 0 <= j < i ==> entries[j]@ != s,
            None => forall|j: int| 0 <= j < entries.len() ==> entries[j]@ != s,
        },
    decreases entries.len(),
{
    if entries.len() > 0 {
        lemma_string_index(entries.drop_last(), s);
        assert forall|j: int| 0 <= j < entries.len() - 1 implies entries.drop_last()[j] == entries[j] by {}
        if string_index(entries.drop_last(), s) is None && entries.last()@ == s {
            assert(entries[entries.len() - 1] == entries.last());
        }
    }
}

/// The index interning `s` yields in a table holding `entries`: the existing
/// entry if there is one, otherwise a new one at the end.
pub open spec fn interned_index(entries: Seq<String>, s: Seq<char>) -> usize {
    match string_index(entries, s) {
        Some(i) => i,
        None => entries.len() as usize,
    }
}

/// Whether interning `s` into `entries` adds an entry.
pub open spec fn interning_adds(entries: Seq<String>, s: Seq<char>) -> bool {
    string_index(entries, s) is None
}

/// `after` is `before` with `s` interned into it.
pub open spec fn interned_into(before: Seq<String>, after: Seq<String>, s: Seq<char>) -> bool {
    &&& interning_adds(before, s) ==> after.len() == before.len() + 1 && after.drop_last() == before && after.last()@ == s
    &&& !interning_adds(before, s) ==> after == before
}

impl StringTable {
    /// An empty table.
    pub fn new() -> (r: StringTable)
        ensures
            r.entries@.len() == 0,
    {
        StringTable { entries: Vec::new() }
    }

    /// Returns the index of `s`, adding it when it is not yet present.
    pub fn intern(&mut self, s: &str) -> (r: usize)
        ensures
            r == interned_index(old(self).entries@, s@),
            interning_adds(old(self).entries@, s@) ==> final(self).entries@.len() == old(self).entries@.len() + 1
                && final(self).entries@.drop_last() == old(self).entries@
                && final(self).entries@.last()@ == s@,
            !interning_adds(old(self).entries@, s@) ==> final(self).entries@ == old(self).entries@,
            r < final(self).entries@.len(),
            final(self).entries@[r as int]@ == s@,
    {
        let n = self.entries.len();
        proof {
            lemma_string_index(self.entries@, s@);
        }
        for i in 0..n
            invariant
                n == self.entries@.len(),
                self.entries@ == old(self).entries@,
                forall|j: int| 0 <= j < i ==> self.entries@[j]@ != s@,
                match string_index(self.entries@, s@) {
                    Some(k) => k < self.entries@.len() && self.entries@[k as int]@ == s@
                        && forall|j: int| 0 <= j < k ==> self.entries@[j]@ != s@,
                    None => forall|j: int| 0 <= j < self.entries@.len() ==> self.entries@[j]@ != s@,
                },
        {
            if str_eq(self.entries[i].as_str(), s) {
                return i;
            }
        }
        self.entries.push(String::from_str(s));
        proof {
            assert(self.entries@.drop_last() =~= old(self).entries@);
        }
        n
    }
}

/// Interning the same string twice yields the same index, and the second
/// interning leaves the table unchanged.
pub proof fn law_intern_idempotent(entries: Seq<String>, s: Seq<char>, after: Seq<String>)
    requires
        after.len() <= usize::MAX,
        interning_adds(entries, s) ==> after.len() == entries.len() + 1 && after.drop_last() == entries
            && after.last()@ == s,
        !interning_adds(entries, s) ==> after == entries,
    ensures
        !interning_adds(after, s),
        interned_index(after, s) == interned_index(entries, s),
{
    lemma_string_index(entries, s);
    lemma_string_index(after, s);
    if interning_adds(entries, s) {
        assert forall|j: int| 0 <= j < entries.len() implies after[j] == entries[j] by {
            assert(after.drop_last()[j] == after[j]);
        }
        assert(after[entries.len() as int]@ == s);
    }
}

/// Distinct strings are interned at distinct indices.
pub proof fn law_intern_distinct(entries: Seq<String>, s: Seq<char>, t: Seq<char>)
    requires
        entries.len() <= usize::MAX,
        s != t,
        string_index(entries, s) is Some,
        string_index(entries, t) is Some,
    ensures
        interned_index(entries, s) != interned_index(entries, t),
{
    lemma_string_index(entries, s);
    lemma_string_index(entries, t);
}

} // verus!
