//! Code generation for the Gradient compiler: lowering of Gradient IR to
//! native code through a Cranelift backend and an LLVM backend.

pub mod backend;
pub mod cfg;
pub mod clbody;
pub mod clbuiltin;
pub mod clcall;
pub mod clemit;
pub mod clflow;
pub mod clfunc;
pub mod clinst;
pub mod clmem;
pub mod clplan;
pub mod clrecipe;
pub mod clrecipes;
pub mod clvariant;
pub mod cranelift;
pub mod error;
pub mod ir;
pub mod llemit;
pub mod llvm;
pub mod mach;
pub mod text;

pub use error::CodegenError;

use vstd::prelude::*;

verus! {

/// Returns `true` if the LLVM backend is available (compiled with the `llvm` feature).
pub fn llvm_available() -> (r: bool)
    ensures
        !r,
{
    false
}

} // verus!
