//! The error type shared by the code generators.

use vstd::prelude::*;

verus! {

/// Errors that can occur during code generation.
#[derive(Debug)]
pub struct CodegenError {
    pub message: String,
}

impl CodegenError {
    /// Builds an error from an owned message.
    pub fn from_string(message: String) -> (r: CodegenError)
        ensures
            r.message@ == message@,
    {
        CodegenError { message }
    }

    /// Builds an error from a borrowed message.
    pub fn from_str(message: &str) -> (r: CodegenError)
        ensures
            r.message@ == message@,
    {
        CodegenError { message: String::from_str(message) }
    }

    /// The text of the error, as its `Display` form shows it.
    pub fn to_string(&self) -> (r: String)
        ensures
            r@ == self.message@,
    {
        self.message.clone()
    }
}

impl From<String> for CodegenError {
    fn from(message: String) -> (r: CodegenError) {
        CodegenError { message }
    }
}

impl vstd::std_specs::convert::FromSpecImpl<String> for CodegenError {
    open spec fn obeys_from_spec() -> bool {
        true
    }

    open spec fn from_spec(message: String) -> CodegenError {
        CodegenError { message }
    }
}

} // verus!
