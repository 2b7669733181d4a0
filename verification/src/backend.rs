//! The backend interface shared by the code generators, and the selection
//! of a backend by name or build mode.

use vstd::prelude::*;
use crate::cranelift::{new_error, runtime_imports_declared, undefined_emit_msg, untracked_emit_msg, CraneliftCodegen};
use crate::mach::decl_index;
use crate::llvm::{declares, last_of_name};
use crate::error::CodegenError;
use crate::ir::Module;
use crate::llvm::LlvmCodegen;
use crate::text::str_eq;

verus! {

/// A code generator: compiles IR modules into a native object file.
pub trait CodegenBackend {
    /// The backend's internal tables are consistent, as every constructor
    /// and operation leaves them.
    spec fn ready(&self) -> bool;

    /// Compiles an IR module into the backend's buffered output.
    fn compile_module(&mut self, module: &Module) -> (r: Result<(), CodegenError>)
        requires
            old(self).ready(),
        ensures
            final(self).ready();

    /// Finishes compilation and returns the object file's bytes.
    fn finish(self: Box<Self>) -> Result<Vec<u8>, CodegenError>
        requires
            self.ready();

    /// A human-readable name of the backend.
    fn name(&self) -> &str;
}

/// What finishing Cranelift code generator `cg` gives, as
/// [`CraneliftCodegen::emit_bytes`] states it, with the message carried
/// into a `CodegenError`: its own error when a failed declaration may have
/// left a symbol without definition, or when a local or exported function
/// has none; otherwise the object file's bytes or the object writer's
/// error.
pub open spec fn finish_result(cg: CraneliftCodegen, r: Result<Vec<u8>, CodegenError>) -> bool {
    &&& cg.has_untracked() ==> (r matches Err(e) && e.message@ == untracked_emit_msg())
    &&& !cg.has_untracked() && cg.undefined_owed() ==> (r matches Err(e)
        && exists|i: int| #[trigger] cg.owed_at(i) && e.message@ == undefined_emit_msg(cg.declared()[i].name@))
    &&& !cg.has_untracked() && !cg.undefined_owed() ==> (r matches Err(e)
        ==> exists|m: Seq<char>| e.message@ == "Failed to emit object: "@ + m)
}

impl CodegenBackend for CraneliftCodegen {
    open spec fn ready(&self) -> bool {
        self.wf()
    }

    fn compile_module(&mut self, module: &Module) -> (r: Result<(), CodegenError>) {
        match CraneliftCodegen::compile_module(self, module) {
            Ok(()) => Ok(()),
            Err(m) => Err(CodegenError::from(m)),
        }
    }

    fn finish(self: Box<Self>) -> (r: Result<Vec<u8>, CodegenError>)
        ensures
            finish_result(*self, r),
    {
        match (*self).emit_bytes() {
            Ok(b) => Ok(b),
            Err(m) => Err(CodegenError::from(m)),
        }
    }

    fn name(&self) -> (r: &str)
        ensures
            r@ == "cranelift"@,
    {
        CraneliftCodegen::name(self)
    }
}

impl<'ctx> CodegenBackend for LlvmCodegen<'ctx> {
    open spec fn ready(&self) -> bool {
        true
    }

    fn compile_module(&mut self, module: &Module) -> (r: Result<(), CodegenError>)
        ensures
            !old(self).wf() ==> (r matches Err(e) && e.message@ == "LLVM code generator tables are inconsistent"@
                && *final(self) == *old(self)),
            r is Ok ==> forall|i: int| 0 <= i < module.functions@.len() ==> final(self).is_declared(#[trigger] module.functions@[i].name@),
            r is Ok ==> forall|i: int| 0 <= i < module.functions@.len() && last_of_name(module.functions@, i)
                ==> declares(final(self).declared_sig_of(#[trigger] module.functions@[i].name@), module.functions@[i]),
            old(self).wf() && module.functions@.len() == 0 && old(self).declared_names().len() < usize::MAX ==> r is Ok,
    {
        if !self.tables_consistent() || self.declared_count() >= usize::MAX - module.functions.len() {
            return Err(CodegenError::from_str("LLVM code generator tables are inconsistent"));
        }
        LlvmCodegen::compile_module(self, module)
    }

    fn finish(self: Box<Self>) -> (r: Result<Vec<u8>, CodegenError>)
        ensures
            r matches Err(e) ==> "Module verification failed: "@.is_prefix_of(e.message@)
                || "Optimization passes failed: "@.is_prefix_of(e.message@)
                || "Failed to emit object file: "@.is_prefix_of(e.message@),
    {
        (*self).emit_bytes()
    }

    fn name(&self) -> (r: &str)
        ensures
            r@ == "llvm"@,
    {
        proof {
            reveal_strlit("llvm");
        }
        "llvm"
    }
}

/// The active backend. Only Cranelift is built in: the LLVM and WASM
/// backends are not part of this build.
pub enum BackendWrapper {
    Cranelift(CraneliftCodegen),
}

/// The warning shown when a release build asks for LLVM, which this build
/// does not have, so that Cranelift is used instead.
pub open spec fn release_fallback_msg() -> Seq<char> {
    "Warning: --release specified but LLVM backend not available. Using Cranelift."@
}

/// The message for a backend name that is not known.
pub open spec fn unknown_backend_msg(name: Seq<char>) -> Seq<char> {
    "Unknown backend type: "@ + name
}

impl BackendWrapper {
    /// The warning to show before [`BackendWrapper::new`] in release mode,
    /// where LLVM would be chosen if it were built in.
    pub fn release_fallback_warning(release_mode: bool) -> (r: Option<&'static str>)
        ensures
            release_mode ==> (r matches Some(w) && w@ == release_fallback_msg()),
            !release_mode ==> r is None,
    {
        proof {
            reveal_strlit("Warning: --release specified but LLVM backend not available. Using Cranelift.");
        }
        if release_mode {
            Some("Warning: --release specified but LLVM backend not available. Using Cranelift.")
        } else {
            None
        }
    }

    /// A backend for the build mode: Cranelift, in release mode too, since
    /// LLVM is not built in.
    pub fn new(release_mode: bool) -> (r: Result<BackendWrapper, CodegenError>)
        ensures
            r matches Ok(w) ==> w is Cranelift && w.ready(),
            r matches Err(e) ==> new_error(e.message@),
    {
        match CraneliftCodegen::new() {
            Ok(cg) => Ok(BackendWrapper::Cranelift(cg)),
            Err(m) => Err(CodegenError::from(m)),
        }
    }

    /// The backend named `backend_type`: `"cranelift"` is available;
    /// `"llvm"` and `"wasm"` are not built in; any other name is unknown.
    pub fn new_with_backend(backend_type: &str) -> (r: Result<BackendWrapper, CodegenError>)
        ensures
            backend_type@ == "wasm"@ ==> (r matches Err(e) && e.message@ == "WASM backend not available (compiled without wasm feature)"@),
            backend_type@ == "llvm"@ ==> (r matches Err(e) && e.message@ == "LLVM backend not available (compiled without llvm feature)"@),
            backend_type@ == "cranelift"@ ==> (r matches Ok(w) ==> w is Cranelift),
            r matches Ok(w) ==> w.ready(),
            backend_type@ == "cranelift"@ ==> (r matches Err(e) ==> new_error(e.message@)),
            backend_type@ != "wasm"@ && backend_type@ != "llvm"@ && backend_type@ != "cranelift"@
                ==> (r matches Err(e) && e.message@ == unknown_backend_msg(backend_type@)),
    {
        proof {
            reveal_strlit("wasm");
            reveal_strlit("llvm");
            reveal_strlit("cranelift");
            assert("llvm"@[0] != "wasm"@[0]);
            assert("cranelift"@.len() != "wasm"@.len());
            assert("cranelift"@.len() != "llvm"@.len());
        }
        if str_eq(backend_type, "wasm") {
            Err(CodegenError::from_str("WASM backend not available (compiled without wasm feature)"))
        } else if str_eq(backend_type, "llvm") {
            Err(CodegenError::from_str("LLVM backend not available (compiled without llvm feature)"))
        } else if str_eq(backend_type, "cranelift") {
            match CraneliftCodegen::new() {
                Ok(cg) => Ok(BackendWrapper::Cranelift(cg)),
                Err(m) => Err(CodegenError::from(m)),
            }
        } else {
            let mut m = String::from_str("Unknown backend type: ");
            m.append(backend_type);
            Err(CodegenError::from_string(m))
        }
    }

    /// The name of the active backend.
    pub fn backend_name(&self) -> (r: &str)
        ensures
            self is Cranelift ==> r@ == "cranelift"@,
    {
        match self {
            BackendWrapper::Cranelift(cg) => cg.name(),
        }
    }
}

impl CodegenBackend for BackendWrapper {
    open spec fn ready(&self) -> bool {
        match self {
            BackendWrapper::Cranelift(cg) => cg.wf(),
        }
    }

    fn compile_module(&mut self, module: &Module) -> (r: Result<(), CodegenError>)
        ensures
            match *final(self) {
                BackendWrapper::Cranelift(cg) => {
                    &&& r is Ok ==> forall|i: int| 0 <= i < module.functions@.len()
                        ==> #[trigger] decl_index(cg.declared(), module.functions@[i].name@) is Some
                    &&& r is Ok ==> runtime_imports_declared(cg.declared())
                },
            },
    {
        match self {
            BackendWrapper::Cranelift(cg) => match cg.compile_module(module) {
                Ok(()) => Ok(()),
                Err(m) => Err(CodegenError::from(m)),
            },
        }
    }

    fn finish(self: Box<Self>) -> (r: Result<Vec<u8>, CodegenError>)
        ensures
            match *self {
                BackendWrapper::Cranelift(cg) => finish_result(cg, r),
            },
    {
        match *self {
            BackendWrapper::Cranelift(cg) => {
                let boxed: Box<CraneliftCodegen> = Box::new(cg);
                CodegenBackend::finish(boxed)
            },
        }
    }

    fn name(&self) -> (r: &str)
        ensures
            self is Cranelift ==> r@ == "cranelift"@,
    {
        self.backend_name()
    }
}

} // verus!
