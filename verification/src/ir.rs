//! The Gradient intermediate representation consumed by the code generators.
//!
//! A module is a list of functions; a function is a list of basic blocks, each
//! holding a list of instructions in SSA form. Values, blocks and function
//! references are identified by plain numbers.

use vstd::prelude::*;

verus! {

/// An SSA value, identified by its number.
#[derive(Clone, Copy, Debug, PartialEq, Eq, Structural)]
pub struct Value(pub u32);

/// A basic block label.
#[derive(Clone, Copy, Debug, PartialEq, Eq, Structural)]
pub struct BlockRef(pub u32);

/// A reference to a function, resolved through `Module::func_refs`.
#[derive(Clone, Copy, Debug, PartialEq, Eq, Structural)]
pub struct FuncRef(pub u32);

/// The scalar types of the IR.
#[derive(Clone, Copy, Debug, PartialEq, Eq, Structural)]
pub enum Type {
    I32,
    I64,
    Ptr,
    Bool,
    F64,
    Void,
}

/// Comparison operators.
#[derive(Clone, Copy, Debug, PartialEq, Eq, Structural)]
pub enum CmpOp {
    Eq,
    Ne,
    Lt,
    Le,
    Gt,
    Ge,
}

/// Whether comparison `op` holds between `a` and `b`: equal, different,
/// less, at most, greater, at least.
pub open spec fn cmp_holds(op: CmpOp, a: int, b: int) -> bool {
    match op {
        CmpOp::Eq => a == b,
        CmpOp::Ne => a != b,
        CmpOp::Lt => a < b,
        CmpOp::Le => a <= b,
        CmpOp::Gt => a > b,
        CmpOp::Ge => a >= b,
    }
}

/// Signed division rounding toward zero, as the IR's `Div`, LLVM's `sdiv`
/// and Cranelift's `sdiv` divide.
pub open spec fn div_toward_zero(a: int, b: int) -> int {
    let q = (if a < 0 { -a } else { a }) / (if b < 0 { -b } else { b });
    if (a < 0) != (b < 0) { -q } else { q }
}

/// Literal constants. A floating-point literal is held by its IEEE-754 bit
/// pattern.
#[derive(Debug)]
pub enum Literal {
    Int(i64),
    Float(u64),
    Bool(bool),
    Str(String),
}

/// IR instructions.
#[derive(Debug)]
pub enum Instruction {
    Const(Value, Literal),
    Add(Value, Value, Value),
    Sub(Value, Value, Value),
    Mul(Value, Value, Value),
    Div(Value, Value, Value),
    Cmp(Value, CmpOp, Value, Value),
    Or(Value, Value, Value),
    Call(Value, FuncRef, Vec<Value>),
    Ret(Option<Value>),
    Branch(Value, BlockRef, BlockRef),
    Jump(BlockRef),
    Phi(Value, Vec<(BlockRef, Value)>),
    Alloca(Value, Type),
    Load(Value, Value),
    Store(Value, Value),
    ConstructVariant { result: Value, tag: i64, payload: Vec<Value> },
    GetVariantTag { result: Value, ptr: Value },
    GetVariantField { result: Value, ptr: Value, index: u32 },
    Spawn { result: Value, actor_type_name: String },
    Send { handle: Value, message_name: String, payload: Option<Value> },
    Ask { result: Value, handle: Value, message_name: String, payload: Option<Value> },
    ActorInit { initial_state: Value },
    PtrToInt(Value, Value),
    IntToPtr(Value, Value),
    GetElementPtr { result: Value, base: Value, offset: i64, field_ty: Type },
    FieldAddr { result: Value, base: Value, field_name: String, field_ty: Type, offset: i64 },
    LoadField { result: Value, object: Value, field_idx: u32, field_ty: Type, offset: i64 },
    StoreField { value: Value, object: Value, field_idx: u32, field_ty: Type, offset: i64 },
}

/// A basic block: a label and its instructions.
#[derive(Debug)]
pub struct BasicBlock {
    pub label: BlockRef,
    pub instructions: Vec<Instruction>,
}

/// A function. `value_types` maps a value's number to its IR type.
#[derive(Debug)]
pub struct Function {
    pub name: String,
    pub params: Vec<Type>,
    pub return_type: Type,
    pub blocks: Vec<BasicBlock>,
    pub value_types: std::collections::HashMap<u32, Type>,
    pub is_export: bool,
    pub extern_lib: Option<String>,
}

/// A module. `func_refs` maps a function reference's number to its name.
#[derive(Debug)]
pub struct Module {
    pub name: String,
    pub functions: Vec<Function>,
    pub func_refs: std::collections::HashMap<u32, String>,
}

} // verus!
