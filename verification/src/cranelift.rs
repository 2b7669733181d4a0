//! The Cranelift code generator: declares the runtime's imports and the
//! module's functions, plans each function body (see `clbody`), emits the
//! plan through Cranelift, and serialises the object file.

use vstd::prelude::*;
use vstd::string::StringSliceAdditionalSpecFns;
use cranelift_codegen::settings;
use cranelift_codegen::settings::Configurable;
use cranelift_codegen::Context;
use cranelift_codegen::ir::Function as ClFunction;
use cranelift_codegen::ir::Signature;
use cranelift_module::{DataDescription, DataId, FuncId};
use cranelift_object::{ObjectBuilder, ObjectProduct};
use target_lexicon::Triple;
use crate::clbody::{plan_fails, plan_function, plans};
use crate::clemit::{declare_data, declare_function, define_data, define_function, emit_function, ids_declared};
use crate::clemit::{dangling_msg, follows_plan, module_finish, signature_of, Emitted, MState, ObjModule};
use crate::clplan::ClPlanner;
use crate::clbuiltin::runtime_call_of;
use crate::error::CodegenError;
use crate::ir::{Function, Module as IrModule, Type};
use std::collections::HashMap;
use crate::mach::{decl_index, find_decl, lemma_decl_index, lemma_decl_index_exists, spec_mty_of, mty_of, Decl, Linkage, MTy, Op, Span, StringTable};
use crate::text::{str_eq, with_number};

verus! {

#[verifier::external_type_specification]
#[verifier::external_body]
pub struct ExSettingsBuilder(settings::Builder);

#[verifier::external_type_specification]
#[verifier::external_body]
pub struct ExFlags(settings::Flags);

#[verifier::external_type_specification]
#[verifier::external_body]
pub struct ExTriple(Triple);

#[verifier::external_type_specification]
#[verifier::external_body]
pub struct ExObjectBuilder(ObjectBuilder);

#[verifier::external_type_specification]
#[verifier::external_body]
pub struct ExObjectProduct(ObjectProduct);

#[verifier::external_type_specification]
#[verifier::external_body]
pub struct ExContext(Context);

#[verifier::external_type_specification]
#[verifier::external_body]
pub struct ExDataDescription(DataDescription);

/// `settings::builder`: the shared settings at their defaults.
#[verifier::external_body]
fn settings_builder() -> settings::Builder {
    settings::builder()
}

/// `Configurable::set`; the error is the `Display` text of Cranelift's
/// `SetError`.
#[verifier::external_body]
fn settings_set(b: &mut settings::Builder, name: &str, value: &str) -> Result<(), String> {
    b.set(name, value).map_err(|e| format!("{}", e))
}

/// `settings::Flags::new`.
#[verifier::external_body]
fn flags_new(b: settings::Builder) -> settings::Flags {
    settings::Flags::new(b)
}

/// `Triple::host`: the target the compiler runs on.
#[verifier::external_body]
fn host_triple() -> Triple {
    Triple::host()
}

/// Which call of [`object_builder`] failed.
pub enum IsaStep {
    Lookup,
    Finish,
    Builder,
}

/// Looks up the ISA for `triple` (`isa::lookup`), finishes it with `flags`
/// (`IsaBuilder::finish`) and makes an `ObjectBuilder` for it named `name`
/// with Cranelift's default libcall names (`ObjectBuilder::new`). The three
/// calls stand together because the finished ISA is a trait object that
/// Verus cannot carry. The error tells which call failed and gives the
/// `Display` text of its error.
#[verifier::external_body]
fn object_builder(triple: &Triple, flags: settings::Flags, name: &str) -> Result<ObjectBuilder, (IsaStep, String)> {
    let isa_builder = cranelift_codegen::isa::lookup(triple.clone()).map_err(|e| (IsaStep::Lookup, format!("{}", e)))?;
    let isa = isa_builder.finish(flags).map_err(|e| (IsaStep::Finish, format!("{}", e)))?;
    ObjectBuilder::new(isa, name, cranelift_module::default_libcall_names()).map_err(|e| (IsaStep::Builder, format!("{}", e)))
}

/// The `Display` text of `triple`.
#[verifier::external_body]
fn triple_text(triple: &Triple) -> String {
    format!("{}", triple)
}


/// `Context::for_function`.
#[verifier::external_body]
fn context_for(f: ClFunction) -> Context {
    Context::for_function(f)
}

/// The textual Cranelift IR of the context's function (`Function::display`).
#[verifier::external_body]
fn function_text(ctx: &Context) -> String {
    format!("{}", ctx.func.display())
}

/// `ObjectProduct::emit`: the object file's bytes; the error is the
/// `Display` text of the object writer's error.
#[verifier::external_body]
fn product_emit(p: ObjectProduct) -> Result<Vec<u8>, String> {
    p.emit().map_err(|e| format!("{}", e))
}

/// `a` followed by `b`.
fn concat(a: &str, b: &str) -> (r: String)
    ensures
        r@ == a@ + b@,
{
    let mut s = String::from_str(a);
    s.append(b);
    s
}

/// The bytes of `s` followed by a terminating zero.
pub fn c_string_bytes(s: &str) -> (r: Vec<u8>)
    ensures
        r@ == s.spec_bytes().push(0u8),
{
    let b = s.as_bytes();
    let n = b.len();
    let mut r: Vec<u8> = Vec::new();
    for i in 0..n
        invariant
            n == b@.len(),
            b@ == s.spec_bytes(),
            r@ == b@.subrange(0, i as int),
    {
        r.push(b[i]);
        assert(r@ =~= b@.subrange(0, i + 1));
    }
    r.push(0u8);
    assert(r@ =~= b@.push(0u8));
    r
}

/// The machine parameters of a declared function: a C `main` first takes
/// `argc` (32-bit) and `argv`.
pub open spec fn user_params(f: Function) -> Seq<MTy> {
    let own = f.params@.map_values(|t: Type| spec_mty_of(t));
    if f.name@ == "main"@ {
        seq![MTy::I32, MTy::I64] + own
    } else {
        own
    }
}

/// The machine results of a declared function: a C `main` returning `Void`
/// returns a 32-bit status.
pub open spec fn user_rets(f: Function) -> Seq<MTy> {
    if f.name@ == "main"@ && f.return_type == Type::Void {
        seq![MTy::I32]
    } else if f.return_type != Type::Void {
        seq![spec_mty_of(f.return_type)]
    } else {
        Seq::empty()
    }
}

/// `main` and exported functions are exported; functions without a body
/// are imported; the rest are local.
pub open spec fn user_linkage(f: Function) -> Linkage {
    if f.name@ == "main"@ || f.is_export {
        Linkage::Export
    } else if f.blocks@.len() == 0 {
        Linkage::Import
    } else {
        Linkage::Local
    }
}

/// `d` declares `f`: under its name, with its machine signature and linkage.
pub open spec fn declares_user(d: Decl, f: Function) -> bool {
    &&& d.name@ == f.name@
    &&& d.params@ == user_params(f)
    &&& d.rets@ == user_rets(f)
    &&& d.linkage == user_linkage(f)
}

/// No function before the `i`-th of `fns` has its name.
pub open spec fn first_of_name(fns: Seq<Function>, i: int) -> bool {
    forall|j: int| 0 <= j < i ==> #[trigger] fns[j].name@ != fns[i].name@
}

/// `after` is `before` followed by imported functions only.
pub open spec fn adds_imports(before: Seq<Decl>, after: Seq<Decl>) -> bool {
    &&& before.len() <= after.len()
    &&& forall|j: int| 0 <= j < before.len() ==> #[trigger] after[j] == before[j]
    &&& forall|j: int| before.len() <= j < after.len() ==> (#[trigger] after[j]).linkage == Linkage::Import
}

/// Adding imports, then adding imports again, adds imports.
pub broadcast proof fn lemma_adds_imports_trans(a: Seq<Decl>, b: Seq<Decl>, c: Seq<Decl>)
    requires
        adds_imports(a, b),
        adds_imports(b, c),
    ensures
        #![trigger adds_imports(a, b), adds_imports(b, c)]
        adds_imports(a, c),
{
}

/// The first declaration in `decls` named like `f`, if there is one,
/// declares `f`.
pub open spec fn first_decl_declares(decls: Seq<Decl>, f: Function) -> bool {
    forall|m: int| #![trigger decls[m]]
        0 <= m < decls.len() && decls[m].name@ == f.name@
        && (forall|p: int| 0 <= p < m ==> (#[trigger] decls[p]).name@ != f.name@)
        ==> declares_user(decls[m], f)
}

/// After the user functions before the `i`-th of `fns` were declared on top
/// of `pre`: `pre` is kept, each added declaration is named after one of
/// them, each of them is declared, and those that are first of their name
/// and not in `pre` are declared as themselves.
spec fn user_decls_inv(pre: Seq<Decl>, decls: Seq<Decl>, fns: Seq<Function>, i: int) -> bool {
    &&& pre.len() <= decls.len()
    &&& forall|m: int| 0 <= m < pre.len() ==> #[trigger] decls[m] == pre[m]
    &&& forall|m: int| pre.len() <= m < decls.len()
        ==> exists|j: int| #![trigger fns[j]] 0 <= j < i && (#[trigger] decls[m]).name@ == fns[j].name@
    &&& forall|j: int| 0 <= j < i ==> #[trigger] decl_index(decls, fns[j].name@) is Some
    &&& forall|j: int| #![trigger fns[j]]
        0 <= j < i && first_of_name(fns, j)
        && (forall|m: int| 0 <= m < pre.len() ==> (#[trigger] pre[m]).name@ != fns[j].name@)
        ==> first_decl_declares(decls, fns[j])
}

/// Declaring the `i`-th function keeps the declaration invariant.
proof fn lemma_user_step(pre: Seq<Decl>, before: Seq<Decl>, after: Seq<Decl>, fns: Seq<Function>, i: int)
    requires
        0 <= i < fns.len(),
        user_decls_inv(pre, before, fns, i),
        decl_index(before, fns[i].name@) is Some ==> after == before,
        decl_index(before, fns[i].name@) is None ==> {
            &&& after.len() == before.len() + 1
            &&& after.drop_last() == before
            &&& declares_user(after.last(), fns[i])
        },
    ensures
        user_decls_inv(pre, after, fns, i + 1),
{
    if decl_index(before, fns[i].name@) is Some {
        lemma_user_step_kept(pre, before, fns, i);
    } else {
        lemma_user_step_added(pre, before, after, fns, i);
    }
}

/// The `i`-th function's name was declared already.
#[verifier::spinoff_prover]
proof fn lemma_user_step_kept(pre: Seq<Decl>, before: Seq<Decl>, fns: Seq<Function>, i: int)
    requires
        0 <= i < fns.len(),
        user_decls_inv(pre, before, fns, i),
        decl_index(before, fns[i].name@) is Some,
    ensures
        user_decls_inv(pre, before, fns, i + 1),
{
    let name = fns[i].name@;
    lemma_decl_index_exists(before, name);
    assert forall|j: int| #![trigger fns[j]]
        0 <= j < i + 1 && first_of_name(fns, j)
        && (forall|m: int| 0 <= m < pre.len() ==> (#[trigger] pre[m]).name@ != fns[j].name@)
        implies first_decl_declares(before, fns[j]) by {
        if j == i {
            let m = choose|m: int| 0 <= m < before.len() && (#[trigger] before[m]).name@ == name;
            if m < pre.len() {
                assert(before[m] == pre[m]);
            } else {
                let k = choose|k: int| #![trigger fns[k]] 0 <= k < i && before[m].name@ == fns[k].name@;
                assert(fns[k].name@ != fns[i].name@);
            }
        }
    }
    assert forall|m: int| pre.len() <= m < before.len()
        implies exists|j: int| #![trigger fns[j]] 0 <= j < i + 1 && (#[trigger] before[m]).name@ == fns[j].name@ by {
        let j = choose|j: int| #![trigger fns[j]] 0 <= j < i && (#[trigger] before[m]).name@ == fns[j].name@;
        assert(0 <= j < i + 1 && before[m].name@ == fns[j].name@);
    }
}

/// The `i`-th function was declared as itself, at the end.
#[verifier::spinoff_prover]
proof fn lemma_user_step_added(pre: Seq<Decl>, before: Seq<Decl>, after: Seq<Decl>, fns: Seq<Function>, i: int)
    requires
        0 <= i < fns.len(),
        user_decls_inv(pre, before, fns, i),
        decl_index(before, fns[i].name@) is None,
        after.len() == before.len() + 1,
        after.drop_last() == before,
        declares_user(after.last(), fns[i]),
    ensures
        user_decls_inv(pre, after, fns, i + 1),
{
    assert forall|m: int| 0 <= m < before.len() implies #[trigger] after[m] == before[m] by {
        assert(after.drop_last()[m] == after[m]);
    }
    assert(after[before.len() as int] == after.last());
    lemma_added_names(pre, before, after, fns, i);
    lemma_added_found(before, after, fns, i);
    lemma_added_declares(pre, before, after, fns, i);
}

proof fn lemma_added_names(pre: Seq<Decl>, before: Seq<Decl>, after: Seq<Decl>, fns: Seq<Function>, i: int)
    requires
        0 <= i < fns.len(),
        user_decls_inv(pre, before, fns, i),
        after.len() == before.len() + 1,
        forall|m: int| 0 <= m < before.len() ==> #[trigger] after[m] == before[m],
        after[before.len() as int].name@ == fns[i].name@,
    ensures
        forall|m: int| pre.len() <= m < after.len()
            ==> exists|j: int| #![trigger fns[j]] 0 <= j < i + 1 && (#[trigger] after[m]).name@ == fns[j].name@,
{
    assert forall|m: int| pre.len() <= m < after.len()
        implies exists|j: int| #![trigger fns[j]] 0 <= j < i + 1 && (#[trigger] after[m]).name@ == fns[j].name@ by {
        if m == before.len() {
            assert(0 <= i < i + 1 && after[m].name@ == fns[i].name@);
        } else {
            let j = choose|j: int| #![trigger fns[j]] 0 <= j < i && (#[trigger] before[m]).name@ == fns[j].name@;
            assert(after[m] == before[m]);
            assert(0 <= j < i + 1 && after[m].name@ == fns[j].name@);
        }
    }
}

proof fn lemma_added_found(before: Seq<Decl>, after: Seq<Decl>, fns: Seq<Function>, i: int)
    requires
        0 <= i < fns.len(),
        forall|j: int| 0 <= j < i ==> #[trigger] decl_index(before, fns[j].name@) is Some,
        after.len() == before.len() + 1,
        forall|m: int| 0 <= m < before.len() ==> #[trigger] after[m] == before[m],
        after[before.len() as int].name@ == fns[i].name@,
    ensures
        forall|j: int| 0 <= j < i + 1 ==> #[trigger] decl_index(after, fns[j].name@) is Some,
{
    assert forall|j: int| 0 <= j < i + 1 implies #[trigger] decl_index(after, fns[j].name@) is Some by {
        lemma_decl_index_exists(after, fns[j].name@);
        if j < i {
            lemma_decl_index_exists(before, fns[j].name@);
            let m = choose|m: int| 0 <= m < before.len() && (#[trigger] before[m]).name@ == fns[j].name@;
            assert(after[m] == before[m]);
        } else {
            assert(after[before.len() as int].name@ == fns[j].name@);
        }
    }
}

proof fn lemma_added_declares(pre: Seq<Decl>, before: Seq<Decl>, after: Seq<Decl>, fns: Seq<Function>, i: int)
    requires
        0 <= i < fns.len(),
        user_decls_inv(pre, before, fns, i),
        decl_index(before, fns[i].name@) is None,
        after.len() == before.len() + 1,
        forall|m: int| 0 <= m < before.len() ==> #[trigger] after[m] == before[m],
        declares_user(after[before.len() as int], fns[i]),
    ensures
        forall|j: int| #![trigger fns[j]]
            0 <= j < i + 1 && first_of_name(fns, j)
            && (forall|m: int| 0 <= m < pre.len() ==> (#[trigger] pre[m]).name@ != fns[j].name@)
            ==> first_decl_declares(after, fns[j]),
{
    lemma_decl_index_exists(before, fns[i].name@);
    assert forall|j: int| #![trigger fns[j]]
        0 <= j < i + 1 && first_of_name(fns, j)
        && (forall|m: int| 0 <= m < pre.len() ==> (#[trigger] pre[m]).name@ != fns[j].name@)
        implies first_decl_declares(after, fns[j]) by {
        assert forall|m: int| #![trigger after[m]]
            0 <= m < after.len() && after[m].name@ == fns[j].name@
            && (forall|p: int| 0 <= p < m ==> (#[trigger] after[p]).name@ != fns[j].name@)
            implies declares_user(after[m], fns[j]) by {
            if j < i {
                assert(first_decl_declares(before, fns[j]));
                lemma_decl_index_exists(before, fns[j].name@);
                let q = choose|q: int| 0 <= q < before.len() && (#[trigger] before[q]).name@ == fns[j].name@;
                assert(after[q] == before[q]);
                assert(m <= q);
                assert(after[m] == before[m]);
                assert forall|p: int| 0 <= p < m implies (#[trigger] before[p]).name@ != fns[j].name@ by {
                    assert(after[p] == before[p]);
                }
            } else if m < before.len() {
                assert(after[m] == before[m]);
            }
        }
    }
}

proof fn lemma_adds_imports_keeps_index(a: Seq<Decl>, b: Seq<Decl>, name: Seq<char>)
    requires
        adds_imports(a, b),
        decl_index(a, name) is Some,
    ensures
        decl_index(b, name) == decl_index(a, name),
    decreases b.len(),
{
    if b.len() > a.len() {
        let c = b.drop_last();
        assert(adds_imports(a, c));
        lemma_adds_imports_keeps_index(a, c, name);
    } else {
        assert(b =~= a);
    }
}

/// Extending a declaration list keeps where an existing name resolves.
proof fn lemma_extension_keeps_index(a: Seq<Decl>, b: Seq<Decl>, name: Seq<char>)
    requires
        a.len() <= b.len(),
        forall|m: int| 0 <= m < a.len() ==> #[trigger] b[m] == a[m],
        decl_index(a, name) is Some,
    ensures
        decl_index(b, name) == decl_index(a, name),
    decreases b.len(),
{
    if b.len() > a.len() {
        let c = b.drop_last();
        assert forall|m: int| 0 <= m < a.len() implies #[trigger] c[m] == a[m] by {
            assert(c[m] == b[m]);
        }
        lemma_extension_keeps_index(a, c, name);
    } else {
        assert(b =~= a);
    }
}

/// A name declared before imports are added keeps its declaration.
pub broadcast proof fn lemma_adds_imports_keeps(a: Seq<Decl>, b: Seq<Decl>, name: Seq<char>)
    requires
        adds_imports(a, b),
        decl_index(a, name) is Some,
    ensures
        #![trigger adds_imports(a, b), decl_index(a, name)]
        decl_index(b, name) == decl_index(a, name),
{
    lemma_adds_imports_keeps_index(a, b, name);
}

/// The C library's string, memory, formatting and process functions are declared.
pub open spec fn libc_imports_declared(decls: Seq<Decl>) -> bool {
    &&& decl_index(decls, "puts"@) is Some
    &&& decl_index(decls, "printf"@) is Some
    &&& decl_index(decls, "malloc"@) is Some
    &&& decl_index(decls, "strlen"@) is Some
    &&& decl_index(decls, "strcpy"@) is Some
    &&& decl_index(decls, "strcat"@) is Some
    &&& decl_index(decls, "strstr"@) is Some
    &&& decl_index(decls, "strncmp"@) is Some
    &&& decl_index(decls, "strcmp"@) is Some
    &&& decl_index(decls, "memcpy"@) is Some
    &&& decl_index(decls, "isspace"@) is Some
    &&& decl_index(decls, "toupper"@) is Some
    &&& decl_index(decls, "tolower"@) is Some
    &&& decl_index(decls, "snprintf"@) is Some
    &&& decl_index(decls, "exit"@) is Some
    &&& decl_index(decls, "atoi"@) is Some
    &&& decl_index(decls, "atof"@) is Some
}

/// The math functions are declared.
pub open spec fn math_imports_declared(decls: Seq<Decl>) -> bool {
    &&& decl_index(decls, "sin"@) is Some
    &&& decl_index(decls, "cos"@) is Some
    &&& decl_index(decls, "tan"@) is Some
    &&& decl_index(decls, "asin"@) is Some
    &&& decl_index(decls, "acos"@) is Some
    &&& decl_index(decls, "atan"@) is Some
    &&& decl_index(decls, "atan2"@) is Some
    &&& decl_index(decls, "log"@) is Some
    &&& decl_index(decls, "log10"@) is Some
    &&& decl_index(decls, "log2"@) is Some
    &&& decl_index(decls, "exp"@) is Some
    &&& decl_index(decls, "exp2"@) is Some
    &&& decl_index(decls, "ceil"@) is Some
    &&& decl_index(decls, "floor"@) is Some
    &&& decl_index(decls, "round"@) is Some
    &&& decl_index(decls, "trunc"@) is Some
    &&& decl_index(decls, "fmod"@) is Some
    &&& decl_index(decls, "__gradient_gcd"@) is Some
    &&& decl_index(decls, "__gradient_pi"@) is Some
    &&& decl_index(decls, "__gradient_e"@) is Some
    &&& decl_index(decls, "__gradient_clamp_f64"@) is Some
    &&& decl_index(decls, "__gradient_clamp_i64"@) is Some
}

/// The runtime's console, file, allocation and argument functions are declared.
pub open spec fn io_imports_declared(decls: Seq<Decl>) -> bool {
    &&& decl_index(decls, "__gradient_read_line"@) is Some
    &&& decl_index(decls, "__gradient_genref_alloc"@) is Some
    &&& decl_index(decls, "__gradient_file_read"@) is Some
    &&& decl_index(decls, "__gradient_file_write"@) is Some
    &&& decl_index(decls, "__gradient_file_exists"@) is Some
    &&& decl_index(decls, "__gradient_file_append"@) is Some
    &&& decl_index(decls, "__gradient_file_delete"@) is Some
    &&& decl_index(decls, "__gradient_save_args"@) is Some
    &&& decl_index(decls, "__gradient_get_args"@) is Some
}

/// The runtime's map functions are declared.
pub open spec fn map_imports_declared(decls: Seq<Decl>) -> bool {
    &&& decl_index(decls, "__gradient_map_new"@) is Some
    &&& decl_index(decls, "__gradient_map_set_str"@) is Some
    &&& decl_index(decls, "__gradient_map_set_int"@) is Some
    &&& decl_index(decls, "__gradient_map_get_str"@) is Some
    &&& decl_index(decls, "__gradient_map_get_int"@) is Some
    &&& decl_index(decls, "__gradient_map_contains"@) is Some
    &&& decl_index(decls, "__gradient_map_remove"@) is Some
    &&& decl_index(decls, "__gradient_map_size"@) is Some
    &&& decl_index(decls, "__gradient_map_keys"@) is Some
}

/// The runtime's string functions are declared.
pub open spec fn string_imports_declared(decls: Seq<Decl>) -> bool {
    &&& decl_index(decls, "__gradient_string_split"@) is Some
    &&& decl_index(decls, "__gradient_string_trim"@) is Some
    &&& decl_index(decls, "__gradient_string_format"@) is Some
    &&& decl_index(decls, "__gradient_string_is_empty"@) is Some
    &&& decl_index(decls, "__gradient_string_reverse"@) is Some
    &&& decl_index(decls, "__gradient_string_compare"@) is Some
    &&& decl_index(decls, "__gradient_string_find"@) is Some
    &&& decl_index(decls, "__gradient_string_slice"@) is Some
    &&& decl_index(decls, "__gradient_string_append"@) is Some
    &&& decl_index(decls, "__gradient_string_char_code_at"@) is Some
}

/// The runtime's clock, sleep, option and date functions are declared.
pub open spec fn time_imports_declared(decls: Seq<Decl>) -> bool {
    &&& decl_index(decls, "__gradient_now"@) is Some
    &&& decl_index(decls, "__gradient_now_ms"@) is Some
    &&& decl_index(decls, "__gradient_sleep"@) is Some
    &&& decl_index(decls, "__gradient_sleep_seconds"@) is Some
    &&& decl_index(decls, "__gradient_option_is_some"@) is Some
    &&& decl_index(decls, "__gradient_option_is_none"@) is Some
    &&& decl_index(decls, "__gradient_option_unwrap"@) is Some
    &&& decl_index(decls, "__gradient_option_unwrap_or"@) is Some
    &&& decl_index(decls, "__gradient_time_string"@) is Some
    &&& decl_index(decls, "__gradient_date_string"@) is Some
    &&& decl_index(decls, "__gradient_datetime_year"@) is Some
    &&& decl_index(decls, "__gradient_datetime_month"@) is Some
    &&& decl_index(decls, "__gradient_datetime_day"@) is Some
}

/// The runtime's HTTP and JSON functions are declared.
pub open spec fn net_imports_declared(decls: Seq<Decl>) -> bool {
    &&& decl_index(decls, "__gradient_http_get"@) is Some
    &&& decl_index(decls, "__gradient_http_post"@) is Some
    &&& decl_index(decls, "__gradient_http_post_json"@) is Some
    &&& decl_index(decls, "__gradient_json_parse"@) is Some
    &&& decl_index(decls, "__gradient_json_stringify"@) is Some
    &&& decl_index(decls, "__gradient_json_type"@) is Some
    &&& decl_index(decls, "__gradient_json_get"@) is Some
    &&& decl_index(decls, "__gradient_json_is_null"@) is Some
    &&& decl_index(decls, "__gradient_json_has"@) is Some
    &&& decl_index(decls, "__gradient_json_keys"@) is Some
    &&& decl_index(decls, "__gradient_json_len"@) is Some
    &&& decl_index(decls, "__gradient_json_array_get"@) is Some
    &&& decl_index(decls, "__gradient_json_as_string"@) is Some
    &&& decl_index(decls, "__gradient_json_as_int"@) is Some
    &&& decl_index(decls, "__gradient_json_as_float"@) is Some
    &&& decl_index(decls, "__gradient_json_as_bool"@) is Some
}

/// The runtime's collection functions are declared.
pub open spec fn collection_imports_declared(decls: Seq<Decl>) -> bool {
    &&& decl_index(decls, "__gradient_random"@) is Some
    &&& decl_index(decls, "__gradient_random_int"@) is Some
    &&& decl_index(decls, "__gradient_random_float"@) is Some
    &&& decl_index(decls, "__gradient_seed_random"@) is Some
    &&& decl_index(decls, "__gradient_queue_new"@) is Some
    &&& decl_index(decls, "__gradient_queue_enqueue"@) is Some
    &&& decl_index(decls, "__gradient_queue_dequeue"@) is Some
    &&& decl_index(decls, "__gradient_queue_peek"@) is Some
    &&& decl_index(decls, "__gradient_queue_size"@) is Some
    &&& decl_index(decls, "__gradient_stack_new"@) is Some
    &&& decl_index(decls, "__gradient_stack_push"@) is Some
    &&& decl_index(decls, "__gradient_stack_pop"@) is Some
    &&& decl_index(decls, "__gradient_stack_peek"@) is Some
    &&& decl_index(decls, "__gradient_stack_size"@) is Some
    &&& decl_index(decls, "__gradient_hashmap_new_string"@) is Some
    &&& decl_index(decls, "__gradient_hashmap_new_int"@) is Some
    &&& decl_index(decls, "__gradient_hashmap_insert_string"@) is Some
    &&& decl_index(decls, "__gradient_hashmap_insert_int"@) is Some
    &&& decl_index(decls, "__gradient_hashmap_get_string"@) is Some
    &&& decl_index(decls, "__gradient_hashmap_get_int"@) is Some
    &&& decl_index(decls, "__gradient_hashmap_contains_string"@) is Some
    &&& decl_index(decls, "__gradient_hashmap_contains_int"@) is Some
    &&& decl_index(decls, "__gradient_hashmap_len"@) is Some
    &&& decl_index(decls, "__gradient_hashmap_clear"@) is Some
}

/// The runtime's further string functions are declared.
pub open spec fn text_imports_declared(decls: Seq<Decl>) -> bool {
    &&& decl_index(decls, "__gradient_string_join"@) is Some
    &&& decl_index(decls, "__gradient_string_repeat"@) is Some
    &&& decl_index(decls, "__gradient_string_pad_left"@) is Some
    &&& decl_index(decls, "__gradient_string_pad_right"@) is Some
    &&& decl_index(decls, "__gradient_string_strip"@) is Some
    &&& decl_index(decls, "__gradient_string_strip_prefix"@) is Some
    &&& decl_index(decls, "__gradient_string_strip_suffix"@) is Some
    &&& decl_index(decls, "__gradient_string_to_int"@) is Some
    &&& decl_index(decls, "__gradient_string_to_float"@) is Some
}

/// The runtime's actor functions are declared.
pub open spec fn actor_imports_declared(decls: Seq<Decl>) -> bool {
    &&& decl_index(decls, "__gradient_actor_spawn"@) is Some
    &&& decl_index(decls, "__gradient_actor_send"@) is Some
    &&& decl_index(decls, "__gradient_actor_ask"@) is Some
    &&& decl_index(decls, "__gradient_actor_receive"@) is Some
    &&& decl_index(decls, "__gradient_actor_try_receive"@) is Some
    &&& decl_index(decls, "__gradient_actor_self"@) is Some
    &&& decl_index(decls, "__gradient_actor_yield"@) is Some
    &&& decl_index(decls, "__gradient_actor_terminate"@) is Some
    &&& decl_index(decls, "__gradient_actor_mailbox_create"@) is Some
}

/// The runtime functions a built-in may call that the code generator does
/// not declare on its own (a call of one is refused as not declared unless
/// the module declares it).
pub open spec fn undeclared_runtime_callee(c: Seq<char>) -> bool {
    ||| c == "__gradient_get_env"@
    ||| c == "__gradient_set_env"@
    ||| c == "__gradient_current_dir"@
    ||| c == "__gradient_change_dir"@
    ||| c == "getpid"@
    ||| c == "system"@
    ||| c == "__gradient_set_to_list"@
    ||| c == "__gradient_set_new"@
    ||| c == "__gradient_set_add"@
    ||| c == "__gradient_set_remove"@
    ||| c == "__gradient_set_contains"@
    ||| c == "__gradient_set_size"@
    ||| c == "__gradient_set_union"@
    ||| c == "__gradient_set_intersection"@
}

/// Once the runtime imports are declared, the function every one-call
/// built-in calls is declared too, but for the few listed in
/// [`undeclared_runtime_callee`].
pub proof fn law_runtime_callee_declared(name: Seq<char>, decls: Seq<Decl>)
    requires
        runtime_imports_declared(decls),
        runtime_call_of(name) is Some,
    ensures
        decl_index(decls, runtime_call_of(name).unwrap().0) is Some
            || undeclared_runtime_callee(runtime_call_of(name).unwrap().0),
{
}

/// Every runtime function the lowering calls is declared.
pub open spec fn runtime_imports_declared(decls: Seq<Decl>) -> bool {
    &&& libc_imports_declared(decls)
    &&& math_imports_declared(decls)
    &&& io_imports_declared(decls)
    &&& map_imports_declared(decls)
    &&& string_imports_declared(decls)
    &&& time_imports_declared(decls)
    &&& net_imports_declared(decls)
    &&& collection_imports_declared(decls)
    &&& text_imports_declared(decls)
    &&& actor_imports_declared(decls)
}

/// The id already assigned to `(actor, message)`, if any.
pub open spec fn message_id_of(keys: Seq<(String, String)>, ids: Seq<i64>, actor: Seq<char>, message: Seq<char>) -> Option<i64>
    decreases keys.len(),
{
    if keys.len() == 0 {
        None
    } else {
        match message_id_of(keys.drop_last(), ids, actor, message) {
            Some(i) => Some(i),
            None => if keys.last().0@ == actor && keys.last().1@ == message {
                Some(ids[keys.len() - 1])
            } else {
                None
            },
        }
    }
}

/// The Cranelift code generator.
pub struct CraneliftCodegen {
    module: ObjModule,
    decls: Vec<Decl>,
    func_ids: Vec<FuncId>,
    strings: StringTable,
    data_ids: Vec<DataId>,
    message_keys: Vec<(String, String)>,
    message_ids: Vec<i64>,
    next_message_type_id: i64,
    fn_defined: Vec<bool>,
    untracked: bool,
    config: Ghost<ClConfig>,
    last_emitted: Ghost<Seq<Emitted>>,
}

/// What a code generator was made with: the shared Cranelift settings set,
/// in order, as name and value; whether the target is the host; and the
/// object module's name.
pub ghost struct ClConfig {
    pub settings: Seq<(Seq<char>, Seq<char>)>,
    pub host_target: bool,
    pub module_name: Seq<char>,
}

/// Every symbol of the module that asks for a definition and has none is
/// a function of the table (`ids`, with `defined` marks and declarations
/// `decls`) that is local or exported and not marked defined.
pub open spec fn owed_tracked(st: MState, ids: Seq<FuncId>, defined: Seq<bool>, decls: Seq<Decl>) -> bool {
    &&& forall|id: FuncId| #[trigger] st.fneed.contains(id) ==> st.fdone.contains(id)
        || exists|i: int| 0 <= i < ids.len() && ids[i] == id && !defined[i] && !(decls[i].linkage is Import)
    &&& st.dneed.subset_of(st.ddone)
}

impl CraneliftCodegen {
    /// The declared functions, imports first, in declaration order.
    pub closed spec fn declared(&self) -> Seq<Decl> {
        self.decls@
    }

    /// The interned string constants.
    pub closed spec fn string_entries(&self) -> Seq<String> {
        self.strings.entries@
    }

    /// The message type table: keys and the ids assigned to them.
    pub closed spec fn message_table(&self) -> (Seq<(String, String)>, Seq<i64>) {
        (self.message_keys@, self.message_ids@)
    }

    /// The number of interned strings that have a data object in the module.
    pub closed spec fn string_data_count(&self) -> nat {
        self.data_ids@.len()
    }

    /// The id the next new message type gets.
    pub closed spec fn next_message_id(&self) -> i64 {
        self.next_message_type_id
    }

    /// What the generator was made with.
    pub closed spec fn config(&self) -> ClConfig {
        self.config@
    }

    /// The declared functions as the table the planner reads.
    pub closed spec fn decl_table(&self) -> Vec<Decl> {
        self.decls
    }

    /// The Cranelift id of each declared function, in declaration order.
    pub closed spec fn func_table(&self) -> Seq<FuncId> {
        self.func_ids@
    }

    /// The model of the object module's declarations and definitions.
    pub closed spec fn module_state(&self) -> MState {
        self.module.state()
    }

    /// The instructions handed to Cranelift for the function compiled last.
    pub closed spec fn last_emitted(&self) -> Seq<Emitted> {
        self.last_emitted@
    }

    /// A failed declaration or definition may have left a symbol owed a
    /// definition that the tables do not show.
    pub closed spec fn has_untracked(&self) -> bool {
        self.untracked
    }

    /// Entry `i` of the function table is local or exported and has no
    /// definition.
    pub closed spec fn owed_at(&self, i: int) -> bool {
        0 <= i < self.decls@.len() && i < self.fn_defined@.len() && !self.fn_defined@[i] && !(self.decls@[i].linkage is Import)
    }

    /// Some local or exported function of the table has no definition.
    pub open spec fn undefined_owed(&self) -> bool {
        exists|i: int| #[trigger] self.owed_at(i)
    }

    /// The function declared under `name` has been defined.
    pub closed spec fn is_defined(&self, name: Seq<char>) -> bool {
        decl_index(self.decls@, name) matches Some(i) && i < self.fn_defined@.len() && self.fn_defined@[i as int]
    }

    /// The tables agree with the module: each declared function and each
    /// string constant has its Cranelift id, declared in the module; a
    /// function marked defined is defined; and, unless a failure may have
    /// left a symbol owed a definition that the tables do not show, every
    /// such symbol is a local or exported function of the table not marked
    /// defined.
    #[verifier::opaque]
    pub closed spec fn wf(&self) -> bool {
        let st = self.module.state();
        let n = self.decls@.len();
        &&& self.func_ids@.len() == n
        &&& self.fn_defined@.len() == n
        &&& ids_declared(st, self.func_ids@, self.data_ids@)
        &&& forall|i: int| 0 <= i < n && self.fn_defined@[i] ==> st.fdone.contains(#[trigger] self.func_ids@[i])
        &&& forall|i: int| 0 <= i < n ==> st.fnames.dom().contains(#[trigger] self.func_ids@[i])
            && st.fnames[self.func_ids@[i]] == self.decls@[i].name@
        &&& !self.untracked ==> owed_tracked(st, self.func_ids@, self.fn_defined@, self.decls@)
    }

    /// A code generator for the host: speed-optimised, position-independent
    /// code, emitted into an object module named `gradient_module`.
    pub fn new() -> (r: Result<CraneliftCodegen, String>)
        ensures
            r matches Err(m) ==> new_error(m@),
            r matches Ok(cg) ==> {
                &&& cg.declared().len() == 0
                &&& cg.string_entries().len() == 0
                &&& cg.message_table().0.len() == 0
                &&& cg.message_table().1.len() == 0
                &&& cg.next_message_id() == 1
                &&& message_table_wf(cg.message_table().0, cg.message_table().1, cg.next_message_id())
                &&& cg.wf()
                &&& cg.config() == (ClConfig {
                    settings: seq![("opt_level"@, "speed"@), ("is_pic"@, "true"@)],
                    host_target: true,
                    module_name: "gradient_module"@,
                })
            },
    {
        proof {
            reveal(CraneliftCodegen::wf);
        }
        let mut sb = settings_builder();
        let ghost mut set: Seq<(Seq<char>, Seq<char>)> = Seq::empty();
        let opt_name = "opt_level";
        let opt_value = "speed";
        match settings_set(&mut sb, opt_name, opt_value) {
            Ok(()) => {},
            Err(e) => {
                let m = concat("Failed to set opt_level: ", e.as_str());
                assert(new_error(m@)) by {
                    assert(m@ == "Failed to set opt_level: "@ + e@);
                }
                return Err(m);
            },
        }
        proof {
            set = set.push((opt_name@, opt_value@));
        }
        let pic_name = "is_pic";
        let pic_value = "true";
        match settings_set(&mut sb, pic_name, pic_value) {
            Ok(()) => {},
            Err(e) => {
                let m = concat("Failed to set is_pic: ", e.as_str());
                assert(new_error(m@)) by {
                    assert(m@ == "Failed to set is_pic: "@ + e@);
                }
                return Err(m);
            },
        }
        proof {
            set = set.push((pic_name@, pic_value@));
        }
        let flags = flags_new(sb);
        let triple = host_triple();
        let module_name = "gradient_module";
        let ob = match object_builder(&triple, flags, module_name) {
            Ok(ob) => ob,
            Err((IsaStep::Lookup, e)) => {
                let t = triple_text(&triple);
                let mut m = concat("Failed to look up ISA for ", t.as_str());
                m.append(": ");
                m.append(e.as_str());
                assert(new_error(m@)) by {
                    assert(m@ =~= "Failed to look up ISA for "@ + (t@ + ": "@ + e@));
                }
                return Err(m);
            },
            Err((IsaStep::Finish, e)) => {
                let m = concat("Failed to finish ISA: ", e.as_str());
                assert(new_error(m@)) by {
                    assert(m@ == "Failed to finish ISA: "@ + e@);
                }
                return Err(m);
            },
            Err((IsaStep::Builder, e)) => {
                let m = concat("Failed to create ObjectBuilder: ", e.as_str());
                assert(new_error(m@)) by {
                    assert(m@ == "Failed to create ObjectBuilder: "@ + e@);
                }
                return Err(m);
            },
        };
        assert(set =~= seq![(opt_name@, opt_value@), (pic_name@, pic_value@)]);
        let config = Ghost(ClConfig { settings: set, host_target: true, module_name: module_name@ });
        let module = ObjModule::new(ob);
        Ok(CraneliftCodegen {
            module,
            decls: Vec::new(),
            func_ids: Vec::new(),
            strings: StringTable::new(),
            data_ids: Vec::new(),
            message_keys: Vec::new(),
            message_ids: Vec::new(),
            next_message_type_id: 1,
            fn_defined: Vec::new(),
            untracked: false,
            config,
            last_emitted: Ghost(Seq::empty()),
        })
    }

    /// The name of this backend.
    pub fn name(&self) -> (r: &'static str)
        ensures
            r@ == "cranelift"@,
    {
        proof {
            reveal_strlit("cranelift");
        }
        "cranelift"
    }

    /// The integer id of message `message_name` of actor type `actor_type`:
    /// the one assigned before, or else the next unused one (ids start at 1).
    pub fn get_message_type_id(&mut self, actor_type: &str, message_name: &str) -> (r: i64)
        requires
            old(self).next_message_id() < i64::MAX,
            message_table_wf(old(self).message_table().0, old(self).message_table().1, old(self).next_message_id()),
        ensures
            final(self).wf() == old(self).wf(),
            message_table_wf(final(self).message_table().0, final(self).message_table().1, final(self).next_message_id()),
            message_id_of(final(self).message_table().0, final(self).message_table().1, actor_type@, message_name@) == Some(r),
            match message_id_of(old(self).message_table().0, old(self).message_table().1, actor_type@, message_name@) {
                Some(id) => r == id && final(self).message_table() == old(self).message_table()
                    && final(self).next_message_id() == old(self).next_message_id(),
                None => {
                    &&& r == old(self).next_message_id()
                    &&& final(self).next_message_id() == old(self).next_message_id() + 1
                    &&& final(self).message_table().0.len() == old(self).message_table().0.len() + 1
                    &&& final(self).message_table().0.drop_last() == old(self).message_table().0
                    &&& final(self).message_table().0.last().0@ == actor_type@
                    &&& final(self).message_table().0.last().1@ == message_name@
                    &&& final(self).message_table().1 == old(self).message_table().1.push(r)
                },
            },
            final(self).declared() == old(self).declared(),
            final(self).string_entries() == old(self).string_entries(),
    {
        proof {
            reveal(CraneliftCodegen::wf);
        }
        let n = self.message_keys.len();
        proof {
            lemma_message_id_of(self.message_keys@, self.message_ids@, actor_type@, message_name@);
        }
        for i in 0..n
            invariant
                n == self.message_keys@.len(),
                n == self.message_ids@.len(),
                self.message_keys@ == old(self).message_keys@,
                self.message_ids@ == old(self).message_ids@,
                self.next_message_type_id == old(self).next_message_type_id,
                message_table_wf(self.message_keys@, self.message_ids@, self.next_message_type_id),
                forall|j: int| 0 <= j < i ==> !(#[trigger] self.message_keys@[j].0@ == actor_type@ && self.message_keys@[j].1@ == message_name@),
                match message_id_of(self.message_keys@, self.message_ids@, actor_type@, message_name@) {
                    Some(id) => exists|k: int| 0 <= k < n && self.message_keys@[k].0@ == actor_type@ && self.message_keys@[k].1@ == message_name@
                        && id == self.message_ids@[k] && forall|j: int| 0 <= j < k ==> !(#[trigger] self.message_keys@[j].0@ == actor_type@ && self.message_keys@[j].1@ == message_name@),
                    None => forall|j: int| 0 <= j < n ==> !(#[trigger] self.message_keys@[j].0@ == actor_type@ && self.message_keys@[j].1@ == message_name@),
                },
        {
            if str_eq(self.message_keys[i].0.as_str(), actor_type) && str_eq(self.message_keys[i].1.as_str(), message_name) {
                return self.message_ids[i];
            }
        }
        let id = self.next_message_type_id;
        self.next_message_type_id = id + 1;
        self.message_keys.push((String::from_str(actor_type), String::from_str(message_name)));
        self.message_ids.push(id);
        proof {
            assert(self.message_keys@.drop_last() =~= old(self).message_keys@);
            assert(self.message_ids@.drop_last() =~= old(self).message_ids@);
            assert(self.message_keys@.last().0@ == actor_type@);
            lemma_message_id_of_prefix(old(self).message_keys@, old(self).message_ids@, self.message_keys@, self.message_ids@, actor_type@, message_name@);
        }
        id
    }
}

/// The message table holds ids 1, 2, ... in order, and `next` is the one
/// after the last.
pub open spec fn message_table_wf(keys: Seq<(String, String)>, ids: Seq<i64>, next: i64) -> bool {
    &&& keys.len() == ids.len()
    &&& next == keys.len() + 1
    &&& forall|i: int| 0 <= i < ids.len() ==> #[trigger] ids[i] == i + 1
}

/// Distinct (actor type, message) pairs get distinct message type ids.
pub proof fn law_message_ids_distinct(keys: Seq<(String, String)>, ids: Seq<i64>, next: i64, a1: Seq<char>, m1: Seq<char>, a2: Seq<char>, m2: Seq<char>)
    requires
        message_table_wf(keys, ids, next),
        message_id_of(keys, ids, a1, m1) is Some,
        message_id_of(keys, ids, a2, m2) is Some,
        a1 != a2 || m1 != m2,
    ensures
        message_id_of(keys, ids, a1, m1) != message_id_of(keys, ids, a2, m2),
{
    lemma_message_id_of(keys, ids, a1, m1);
    lemma_message_id_of(keys, ids, a2, m2);
    let k1 = choose|k: int| 0 <= k < keys.len() && keys[k].0@ == a1 && keys[k].1@ == m1
        && message_id_of(keys, ids, a1, m1) == Some(ids[k]) && forall|j: int| 0 <= j < k ==> !(#[trigger] keys[j].0@ == a1 && keys[j].1@ == m1);
    let k2 = choose|k: int| 0 <= k < keys.len() && keys[k].0@ == a2 && keys[k].1@ == m2
        && message_id_of(keys, ids, a2, m2) == Some(ids[k]) && forall|j: int| 0 <= j < k ==> !(#[trigger] keys[j].0@ == a2 && keys[j].1@ == m2);
    assert(ids[k1] == k1 + 1);
    assert(ids[k2] == k2 + 1);
}

/// Adding a key to the end keeps the ids of the keys before it, and gives
/// the new key the new id when it was not there.
proof fn lemma_message_id_of_prefix(keys: Seq<(String, String)>, ids: Seq<i64>, keys2: Seq<(String, String)>, ids2: Seq<i64>, a: Seq<char>, m: Seq<char>)
    requires
        keys.len() == ids.len(),
        keys2.len() == keys.len() + 1,
        ids2.len() == ids.len() + 1,
        keys2.drop_last() == keys,
        ids2.drop_last() == ids,
        message_id_of(keys, ids, a, m) is None,
        keys2.last().0@ == a,
        keys2.last().1@ == m,
    ensures
        message_id_of(keys2, ids2, a, m) == Some(ids2.last()),
{
    lemma_message_id_of_ids(keys, ids, ids2, a, m);
}

/// Only the ids at the keys' positions matter.
proof fn lemma_message_id_of_ids(keys: Seq<(String, String)>, ids: Seq<i64>, ids2: Seq<i64>, a: Seq<char>, m: Seq<char>)
    requires
        keys.len() <= ids.len(),
        keys.len() <= ids2.len(),
        forall|i: int| 0 <= i < keys.len() ==> ids[i] == ids2[i],
    ensures
        message_id_of(keys, ids, a, m) == message_id_of(keys, ids2, a, m),
    decreases keys.len(),
{
    if keys.len() > 0 {
        lemma_message_id_of_ids(keys.drop_last(), ids, ids2, a, m);
    }
}

#[verifier::spinoff_prover]
proof fn lemma_message_id_of(keys: Seq<(String, String)>, ids: Seq<i64>, actor: Seq<char>, message: Seq<char>)
    requires
        keys.len() <= ids.len(),
    ensures
        match message_id_of(keys, ids, actor, message) {
            Some(id) => exists|k: int| 0 <= k < keys.len() && keys[k].0@ == actor && keys[k].1@ == message
                && id == ids[k] && forall|j: int| 0 <= j < k ==> !(#[trigger] keys[j].0@ == actor && keys[j].1@ == message),
            None => forall|j: int| 0 <= j < keys.len() ==> !(#[trigger] keys[j].0@ == actor && keys[j].1@ == message),
        },
    decreases keys.len(),
{
    if keys.len() > 0 {
        lemma_message_id_of(keys.drop_last(), ids, actor, message);
        assert forall|j: int| 0 <= j < keys.len() - 1 implies keys.drop_last()[j] == keys[j] by {}
    }
}

/// Declaring another function never changes which declaration a name
/// that was declared already resolves to.
pub proof fn law_declaration_stable(decls: Seq<Decl>, d: Decl, name: Seq<char>)
    requires
        decl_index(decls, name) is Some,
    ensures
        decl_index(decls.push(d), name) == decl_index(decls, name),
{
    assert(decls.push(d).drop_last() =~= decls);
}


/// The machine signature of `f` (see [`user_params`], [`user_rets`]).
pub fn user_signature(f: &Function) -> (r: (Vec<MTy>, Vec<MTy>))
    ensures
        r.0@ == user_params(*f),
        r.1@ == user_rets(*f),
{
    let is_main = str_eq(f.name.as_str(), "main");
    proof {
        reveal_strlit("main");
    }
    let mut params: Vec<MTy> = Vec::new();
    if is_main {
        params.push(MTy::I32);
        params.push(MTy::I64);
    }
    let ghost base = params@;
    let n = f.params.len();
    for i in 0..n
        invariant
            n == f.params@.len(),
            params@ == base + f.params@.subrange(0, i as int).map_values(|t: Type| spec_mty_of(t)),
    {
        params.push(mty_of(f.params[i]));
        assert(f.params@.subrange(0, i + 1).map_values(|t: Type| spec_mty_of(t))
            =~= f.params@.subrange(0, i as int).map_values(|t: Type| spec_mty_of(t)).push(spec_mty_of(f.params@[i as int])));
        assert(params@ =~= base + f.params@.subrange(0, i + 1).map_values(|t: Type| spec_mty_of(t)));
    }
    assert(f.params@.subrange(0, n as int) =~= f.params@);
    assert(params@ =~= user_params(*f));
    let mut rets: Vec<MTy> = Vec::new();
    if is_main && f.return_type == Type::Void {
        rets.push(MTy::I32);
    } else if f.return_type != Type::Void {
        rets.push(mty_of(f.return_type));
    }
    assert(rets@ =~= user_rets(*f));
    (params, rets)
}

/// The bytes of the greeting, with a terminating zero.
pub open spec fn hello_bytes() -> Seq<u8> {
    "Hello from Gradient!".spec_bytes().push(0u8)
}

/// The operations of the `main` that prints the greeting: one block,
/// sealed and entered; the address of the greeting passed to `puts`; and
/// a return of 0.
pub open spec fn hello_ops() -> Seq<Op> {
    seq![
        Op::CreateBlock { block: 0 },
        Op::Seal { block: 0 },
        Op::SwitchTo { block: 0 },
        Op::DataAddr { dst: 0, data: 0 },
        Op::Call { func: 0, args: Span { start: 0, len: 1 }, dst: 1, has_result: true },
        Op::IConst { dst: 2, ty: MTy::I32, imm: 0 },
        Op::Return { args: Span { start: 1, len: 1 } },
    ]
}

/// Adding a table entry for `id`, not marked defined, with declaration
/// `d`, keeps the owed symbols tracked when `id` comes to be owed only
/// under a local or exported declaration.
proof fn lemma_owed_push(st: MState, st2: MState, ids: Seq<FuncId>, defined: Seq<bool>, decls: Seq<Decl>, id: FuncId, d: Decl)
    requires
        owed_tracked(st, ids, defined, decls),
        ids.len() == defined.len(),
        ids.len() == decls.len(),
        st2.fdone == st.fdone,
        st2.dneed == st.dneed,
        st2.ddone == st.ddone,
        st2.fneed == st.fneed || (st2.fneed == st.fneed.insert(id) && !(d.linkage is Import)),
    ensures
        owed_tracked(st2, ids.push(id), defined.push(false), decls.push(d)),
{
    let ids2 = ids.push(id);
    let def2 = defined.push(false);
    let decls2 = decls.push(d);
    assert forall|x: FuncId| #[trigger] st2.fneed.contains(x) implies st2.fdone.contains(x)
        || exists|i: int| 0 <= i < ids2.len() && ids2[i] == x && !def2[i] && !(decls2[i].linkage is Import) by {
        if !st.fneed.contains(x) {
            assert(ids2[ids.len() as int] == x);
            assert(!def2[ids.len() as int]);
            assert(decls2[ids.len() as int] == d);
        } else if !st.fdone.contains(x) {
            let i = choose|i: int| 0 <= i < ids.len() && ids[i] == x && !defined[i] && !(decls[i].linkage is Import);
            assert(ids2[i] == x);
            assert(def2[i] == defined[i]);
            assert(decls2[i] == decls[i]);
        }
    }
}

impl CraneliftCodegen {
    /// Declares runtime function `name` as an import with the given machine
    /// signature, unless a function of that name is declared already.
    fn add_import(&mut self, name: &str, params: Vec<MTy>, rets: Vec<MTy>) -> (r: Result<(), String>)
        ensures
            old(self).wf() ==> final(self).wf(),
            decl_index(old(self).declared(), name@) is Some ==> r is Ok && final(self).declared() == old(self).declared(),
            decl_index(old(self).declared(), name@) is None && r is Ok ==> {
                &&& final(self).declared().len() == old(self).declared().len() + 1
                &&& final(self).declared().drop_last() == old(self).declared()
                &&& final(self).declared().last().name@ == name@
                &&& final(self).declared().last().params@ == params@
                &&& final(self).declared().last().rets@ == rets@
                &&& final(self).declared().last().linkage == Linkage::Import
            },
            adds_imports(old(self).declared(), final(self).declared()),
            r is Ok ==> decl_index(final(self).declared(), name@) is Some,
            r is Err ==> final(self).declared() == old(self).declared(),
            final(self).string_entries() == old(self).string_entries(),
            final(self).message_table() == old(self).message_table(),
            final(self).next_message_id() == old(self).next_message_id(),
    {
        proof {
            reveal(CraneliftCodegen::wf);
        }
        match find_decl(&self.decls, name) {
            Some(_) => Ok(()),
            None => {
                let sig = signature_of(&self.module, &params, &rets);
                let ghost st0 = self.module.state();
                match declare_function(&mut self.module, name, Linkage::Import, &sig) {
                    Ok(id) => {
                        let d = Decl { name: String::from_str(name), params, rets, linkage: Linkage::Import };
                        proof {
                            if old(self).wf() && !self.untracked {
                                lemma_owed_push(st0, self.module.state(), self.func_ids@, self.fn_defined@, self.decls@, id, d);
                            }
                        }
                        self.decls.push(d);
                        self.func_ids.push(id);
                        self.fn_defined.push(false);
                        proof {
                            assert(self.decls@.drop_last() =~= old(self).decls@);
                        }
                        Ok(())
                    },
                    Err(e) => {
                        let mut m = concat("Failed to declare ", name);
                        m.append(": ");
                        m.append(e.as_str());
                        Err(m)
                    },
                }
            },
        }
    }

    /// Declares the C library and Gradient runtime functions that the
    /// lowering of built-in operations calls.
    fn declare_imports(&mut self) -> (r: Result<(), String>)
        ensures
            runtime_imports_declared(old(self).declared()) ==> r is Ok && final(self).declared() == old(self).declared(),
            old(self).wf() ==> final(self).wf(),
            adds_imports(old(self).declared(), final(self).declared()),
            r is Ok ==> runtime_imports_declared(final(self).declared()),
            final(self).string_entries() == old(self).string_entries(),
            final(self).message_table() == old(self).message_table(),
            final(self).next_message_id() == old(self).next_message_id(),
    {
        broadcast use {lemma_adds_imports_trans, lemma_adds_imports_keeps};
        self.declare_libc_imports()?;
        self.declare_math_imports()?;
        self.declare_io_imports()?;
        self.declare_map_imports()?;
        self.declare_string_imports()?;
        self.declare_time_imports()?;
        self.declare_net_imports()?;
        self.declare_collection_imports()?;
        self.declare_text_imports()?;
        self.declare_actor_imports()?;
        Ok(())
    }

    /// Declares the C library's string, memory, formatting and process functions.
    #[verifier::rlimit(80)]
    #[verifier::spinoff_prover]
    fn declare_libc_imports(&mut self) -> (r: Result<(), String>)
        ensures
            libc_imports_declared(old(self).declared()) ==> r is Ok && final(self).declared() == old(self).declared(),
            old(self).wf() ==> final(self).wf(),
            adds_imports(old(self).declared(), final(self).declared()),
            r is Ok ==> libc_imports_declared(final(self).declared()),
            final(self).string_entries() == old(self).string_entries(),
            final(self).message_table() == old(self).message_table(),
            final(self).next_message_id() == old(self).next_message_id(),
    {
        broadcast use {lemma_adds_imports_trans, lemma_adds_imports_keeps};
        self.add_import("puts", vec![MTy::I64], vec![MTy::I32])?;
        self.add_import("printf", vec![MTy::I64, MTy::I64], vec![MTy::I32])?;
        self.add_import("malloc", vec![MTy::I64], vec![MTy::I64])?;
        self.add_import("strlen", vec![MTy::I64], vec![MTy::I64])?;
        self.add_import("strcpy", vec![MTy::I64, MTy::I64], vec![MTy::I64])?;
        self.add_import("strcat", vec![MTy::I64, MTy::I64], vec![MTy::I64])?;
        self.add_import("strstr", vec![MTy::I64, MTy::I64], vec![MTy::I64])?;
        self.add_import("strncmp", vec![MTy::I64, MTy::I64, MTy::I64], vec![MTy::I32])?;
        self.add_import("strcmp", vec![MTy::I64, MTy::I64], vec![MTy::I32])?;
        self.add_import("memcpy", vec![MTy::I64, MTy::I64, MTy::I64], vec![MTy::I64])?;
        self.add_import("isspace", vec![MTy::I32], vec![MTy::I32])?;
        self.add_import("toupper", vec![MTy::I32], vec![MTy::I32])?;
        self.add_import("tolower", vec![MTy::I32], vec![MTy::I32])?;
        self.add_import("snprintf", vec![MTy::I64, MTy::I64, MTy::I64, MTy::I64], vec![MTy::I32])?;
        self.add_import("exit", vec![MTy::I32], vec![])?;
        self.add_import("atoi", vec![MTy::I64], vec![MTy::I32])?;
        self.add_import("atof", vec![MTy::I64], vec![MTy::F64])?;
        Ok(())
    }

    /// Declares the C math library and the runtime's numeric helpers.
    #[verifier::rlimit(80)]
    #[verifier::spinoff_prover]
    fn declare_math_imports(&mut self) -> (r: Result<(), String>)
        ensures
            math_imports_declared(old(self).declared()) ==> r is Ok && final(self).declared() == old(self).declared(),
            old(self).wf() ==> final(self).wf(),
            adds_imports(old(self).declared(), final(self).declared()),
            r is Ok ==> math_imports_declared(final(self).declared()),
            final(self).string_entries() == old(self).string_entries(),
            final(self).message_table() == old(self).message_table(),
            final(self).next_message_id() == old(self).next_message_id(),
    {
        broadcast use {lemma_adds_imports_trans, lemma_adds_imports_keeps};
        self.add_import("sin", vec![MTy::F64], vec![MTy::F64])?;
        self.add_import("cos", vec![MTy::F64], vec![MTy::F64])?;
        self.add_import("tan", vec![MTy::F64], vec![MTy::F64])?;
        self.add_import("asin", vec![MTy::F64], vec![MTy::F64])?;
        self.add_import("acos", vec![MTy::F64], vec![MTy::F64])?;
        self.add_import("atan", vec![MTy::F64], vec![MTy::F64])?;
        self.add_import("atan2", vec![MTy::F64, MTy::F64], vec![MTy::F64])?;
        self.add_import("log", vec![MTy::F64], vec![MTy::F64])?;
        self.add_import("log10", vec![MTy::F64], vec![MTy::F64])?;
        self.add_import("log2", vec![MTy::F64], vec![MTy::F64])?;
        self.add_import("exp", vec![MTy::F64], vec![MTy::F64])?;
        self.add_import("exp2", vec![MTy::F64], vec![MTy::F64])?;
        self.add_import("ceil", vec![MTy::F64], vec![MTy::F64])?;
        self.add_import("floor", vec![MTy::F64], vec![MTy::F64])?;
        self.add_import("round", vec![MTy::F64], vec![MTy::F64])?;
        self.add_import("trunc", vec![MTy::F64], vec![MTy::F64])?;
        self.add_import("fmod", vec![MTy::F64, MTy::F64], vec![MTy::F64])?;
        self.add_import("__gradient_gcd", vec![MTy::I64, MTy::I64], vec![MTy::I64])?;
        self.add_import("__gradient_pi", vec![], vec![MTy::F64])?;
        self.add_import("__gradient_e", vec![], vec![MTy::F64])?;
        self.add_import("__gradient_clamp_f64", vec![MTy::F64, MTy::F64, MTy::F64], vec![MTy::F64])?;
        self.add_import("__gradient_clamp_i64", vec![MTy::I64, MTy::I64, MTy::I64], vec![MTy::I64])?;
        Ok(())
    }

    /// Declares the runtime's console, file, allocation and argument helpers.
    #[verifier::rlimit(80)]
    #[verifier::spinoff_prover]
    fn declare_io_imports(&mut self) -> (r: Result<(), String>)
        ensures
            io_imports_declared(old(self).declared()) ==> r is Ok && final(self).declared() == old(self).declared(),
            old(self).wf() ==> final(self).wf(),
            adds_imports(old(self).declared(), final(self).declared()),
            r is Ok ==> io_imports_declared(final(self).declared()),
            final(self).string_entries() == old(self).string_entries(),
            final(self).message_table() == old(self).message_table(),
            final(self).next_message_id() == old(self).next_message_id(),
    {
        broadcast use {lemma_adds_imports_trans, lemma_adds_imports_keeps};
        self.add_import("__gradient_read_line", vec![], vec![MTy::I64])?;
        self.add_import("__gradient_genref_alloc", vec![MTy::I64], vec![MTy::I64])?;
        self.add_import("__gradient_file_read", vec![MTy::I64], vec![MTy::I64])?;
        self.add_import("__gradient_file_write", vec![MTy::I64, MTy::I64], vec![MTy::I8])?;
        self.add_import("__gradient_file_exists", vec![MTy::I64], vec![MTy::I8])?;
        self.add_import("__gradient_file_append", vec![MTy::I64, MTy::I64], vec![MTy::I8])?;
        self.add_import("__gradient_file_delete", vec![MTy::I64], vec![MTy::I8])?;
        self.add_import("__gradient_save_args", vec![MTy::I64, MTy::I64], vec![])?;
        self.add_import("__gradient_get_args", vec![], vec![MTy::I64])?;
        Ok(())
    }

    /// Declares the runtime's string-keyed map helpers.
    #[verifier::rlimit(80)]
    #[verifier::spinoff_prover]
    fn declare_map_imports(&mut self) -> (r: Result<(), String>)
        ensures
            map_imports_declared(old(self).declared()) ==> r is Ok && final(self).declared() == old(self).declared(),
            old(self).wf() ==> final(self).wf(),
            adds_imports(old(self).declared(), final(self).declared()),
            r is Ok ==> map_imports_declared(final(self).declared()),
            final(self).string_entries() == old(self).string_entries(),
            final(self).message_table() == old(self).message_table(),
            final(self).next_message_id() == old(self).next_message_id(),
    {
        broadcast use {lemma_adds_imports_trans, lemma_adds_imports_keeps};
        self.add_import("__gradient_map_new", vec![], vec![MTy::I64])?;
        self.add_import("__gradient_map_set_str", vec![MTy::I64, MTy::I64, MTy::I64], vec![MTy::I64])?;
        self.add_import("__gradient_map_set_int", vec![MTy::I64, MTy::I64, MTy::I64], vec![MTy::I64])?;
        self.add_import("__gradient_map_get_str", vec![MTy::I64, MTy::I64], vec![MTy::I64])?;
        self.add_import("__gradient_map_get_int", vec![MTy::I64, MTy::I64, MTy::I64], vec![MTy::I64])?;
        self.add_import("__gradient_map_contains", vec![MTy::I64, MTy::I64], vec![MTy::I64])?;
        self.add_import("__gradient_map_remove", vec![MTy::I64, MTy::I64], vec![MTy::I64])?;
        self.add_import("__gradient_map_size", vec![MTy::I64], vec![MTy::I64])?;
        self.add_import("__gradient_map_keys", vec![MTy::I64], vec![MTy::I64])?;
        Ok(())
    }

    /// Declares the runtime's string helpers.
    #[verifier::rlimit(80)]
    #[verifier::spinoff_prover]
    fn declare_string_imports(&mut self) -> (r: Result<(), String>)
        ensures
            string_imports_declared(old(self).declared()) ==> r is Ok && final(self).declared() == old(self).declared(),
            old(self).wf() ==> final(self).wf(),
            adds_imports(old(self).declared(), final(self).declared()),
            r is Ok ==> string_imports_declared(final(self).declared()),
            final(self).string_entries() == old(self).string_entries(),
            final(self).message_table() == old(self).message_table(),
            final(self).next_message_id() == old(self).next_message_id(),
    {
        broadcast use {lemma_adds_imports_trans, lemma_adds_imports_keeps};
        self.add_import("__gradient_string_split", vec![MTy::I64, MTy::I64], vec![MTy::I64])?;
        self.add_import("__gradient_string_trim", vec![MTy::I64], vec![MTy::I64])?;
        self.add_import("__gradient_string_format", vec![MTy::I64, MTy::I64], vec![MTy::I64])?;
        self.add_import("__gradient_string_is_empty", vec![MTy::I64], vec![MTy::I64])?;
        self.add_import("__gradient_string_reverse", vec![MTy::I64], vec![MTy::I64])?;
        self.add_import("__gradient_string_compare", vec![MTy::I64, MTy::I64], vec![MTy::I64])?;
        self.add_import("__gradient_string_find", vec![MTy::I64, MTy::I64], vec![MTy::I64])?;
        self.add_import("__gradient_string_slice", vec![MTy::I64, MTy::I64, MTy::I64], vec![MTy::I64])?;
        self.add_import("__gradient_string_append", vec![MTy::I64, MTy::I64], vec![MTy::I64])?;
        self.add_import("__gradient_string_char_code_at", vec![MTy::I64, MTy::I64], vec![MTy::I64])?;
        Ok(())
    }

    /// Declares the runtime's clock, sleep, option and date helpers.
    #[verifier::rlimit(80)]
    #[verifier::spinoff_prover]
    fn declare_time_imports(&mut self) -> (r: Result<(), String>)
        ensures
            time_imports_declared(old(self).declared()) ==> r is Ok && final(self).declared() == old(self).declared(),
            old(self).wf() ==> final(self).wf(),
            adds_imports(old(self).declared(), final(self).declared()),
            r is Ok ==> time_imports_declared(final(self).declared()),
            final(self).string_entries() == old(self).string_entries(),
            final(self).message_table() == old(self).message_table(),
            final(self).next_message_id() == old(self).next_message_id(),
    {
        broadcast use {lemma_adds_imports_trans, lemma_adds_imports_keeps};
        self.add_import("__gradient_now", vec![], vec![MTy::I64])?;
        self.add_import("__gradient_now_ms", vec![], vec![MTy::I64])?;
        self.add_import("__gradient_sleep", vec![MTy::I64], vec![])?;
        self.add_import("__gradient_sleep_seconds", vec![MTy::I64], vec![])?;
        self.add_import("__gradient_option_is_some", vec![MTy::I64], vec![MTy::I64])?;
        self.add_import("__gradient_option_is_none", vec![MTy::I64], vec![MTy::I64])?;
        self.add_import("__gradient_option_unwrap", vec![MTy::I64], vec![MTy::I64])?;
        self.add_import("__gradient_option_unwrap_or", vec![MTy::I64, MTy::I64], vec![MTy::I64])?;
        self.add_import("__gradient_time_string", vec![], vec![MTy::I64])?;
        self.add_import("__gradient_date_string", vec![], vec![MTy::I64])?;
        self.add_import("__gradient_datetime_year", vec![MTy::I64], vec![MTy::I64])?;
        self.add_import("__gradient_datetime_month", vec![MTy::I64], vec![MTy::I64])?;
        self.add_import("__gradient_datetime_day", vec![MTy::I64], vec![MTy::I64])?;
        Ok(())
    }

    /// Declares the runtime's HTTP and JSON helpers.
    #[verifier::rlimit(80)]
    #[verifier::spinoff_prover]
    fn declare_net_imports(&mut self) -> (r: Result<(), String>)
        ensures
            net_imports_declared(old(self).declared()) ==> r is Ok && final(self).declared() == old(self).declared(),
            old(self).wf() ==> final(self).wf(),
            adds_imports(old(self).declared(), final(self).declared()),
            r is Ok ==> net_imports_declared(final(self).declared()),
            final(self).string_entries() == old(self).string_entries(),
            final(self).message_table() == old(self).message_table(),
            final(self).next_message_id() == old(self).next_message_id(),
    {
        broadcast use {lemma_adds_imports_trans, lemma_adds_imports_keeps};
        self.add_import("__gradient_http_get", vec![MTy::I64], vec![MTy::I64])?;
        self.add_import("__gradient_http_post", vec![MTy::I64, MTy::I64], vec![MTy::I64])?;
        self.add_import("__gradient_http_post_json", vec![MTy::I64, MTy::I64], vec![MTy::I64])?;
        self.add_import("__gradient_json_parse", vec![MTy::I64, MTy::I64], vec![MTy::I64])?;
        self.add_import("__gradient_json_stringify", vec![MTy::I64], vec![MTy::I64])?;
        self.add_import("__gradient_json_type", vec![MTy::I64], vec![MTy::I64])?;
        self.add_import("__gradient_json_get", vec![MTy::I64, MTy::I64], vec![MTy::I64])?;
        self.add_import("__gradient_json_is_null", vec![MTy::I64], vec![MTy::I64])?;
        self.add_import("__gradient_json_has", vec![MTy::I64, MTy::I64], vec![MTy::I64])?;
        self.add_import("__gradient_json_keys", vec![MTy::I64], vec![MTy::I64])?;
        self.add_import("__gradient_json_len", vec![MTy::I64], vec![MTy::I64])?;
        self.add_import("__gradient_json_array_get", vec![MTy::I64, MTy::I64], vec![MTy::I64])?;
        self.add_import("__gradient_json_as_string", vec![MTy::I64], vec![MTy::I64])?;
        self.add_import("__gradient_json_as_int", vec![MTy::I64], vec![MTy::I64])?;
        self.add_import("__gradient_json_as_float", vec![MTy::I64], vec![MTy::I64])?;
        self.add_import("__gradient_json_as_bool", vec![MTy::I64], vec![MTy::I64])?;
        Ok(())
    }

    /// Declares the runtime's random numbers, queues, stacks and hash maps.
    #[verifier::rlimit(80)]
    #[verifier::spinoff_prover]
    fn declare_collection_imports(&mut self) -> (r: Result<(), String>)
        ensures
            collection_imports_declared(old(self).declared()) ==> r is Ok && final(self).declared() == old(self).declared(),
            old(self).wf() ==> final(self).wf(),
            adds_imports(old(self).declared(), final(self).declared()),
            r is Ok ==> collection_imports_declared(final(self).declared()),
            final(self).string_entries() == old(self).string_entries(),
            final(self).message_table() == old(self).message_table(),
            final(self).next_message_id() == old(self).next_message_id(),
    {
        broadcast use {lemma_adds_imports_trans, lemma_adds_imports_keeps};
        self.add_import("__gradient_random", vec![], vec![MTy::F64])?;
        self.add_import("__gradient_random_int", vec![MTy::I64, MTy::I64], vec![MTy::I64])?;
        self.add_import("__gradient_random_float", vec![], vec![MTy::F64])?;
        self.add_import("__gradient_seed_random", vec![MTy::I64], vec![])?;
        self.add_import("__gradient_queue_new", vec![], vec![MTy::I64])?;
        self.add_import("__gradient_queue_enqueue", vec![MTy::I64, MTy::I64], vec![MTy::I64])?;
        self.add_import("__gradient_queue_dequeue", vec![MTy::I64], vec![MTy::I64])?;
        self.add_import("__gradient_queue_peek", vec![MTy::I64], vec![MTy::I64])?;
        self.add_import("__gradient_queue_size", vec![MTy::I64], vec![MTy::I64])?;
        self.add_import("__gradient_stack_new", vec![], vec![MTy::I64])?;
        self.add_import("__gradient_stack_push", vec![MTy::I64, MTy::I64], vec![MTy::I64])?;
        self.add_import("__gradient_stack_pop", vec![MTy::I64], vec![MTy::I64])?;
        self.add_import("__gradient_stack_peek", vec![MTy::I64], vec![MTy::I64])?;
        self.add_import("__gradient_stack_size", vec![MTy::I64], vec![MTy::I64])?;
        self.add_import("__gradient_hashmap_new_string", vec![], vec![MTy::I64])?;
        self.add_import("__gradient_hashmap_new_int", vec![], vec![MTy::I64])?;
        self.add_import("__gradient_hashmap_insert_string", vec![MTy::I64, MTy::I64, MTy::I64], vec![MTy::I64])?;
        self.add_import("__gradient_hashmap_insert_int", vec![MTy::I64, MTy::I64, MTy::I64], vec![MTy::I64])?;
        self.add_import("__gradient_hashmap_get_string", vec![MTy::I64, MTy::I64], vec![MTy::I64])?;
        self.add_import("__gradient_hashmap_get_int", vec![MTy::I64, MTy::I64], vec![MTy::I64])?;
        self.add_import("__gradient_hashmap_contains_string", vec![MTy::I64, MTy::I64], vec![MTy::I64])?;
        self.add_import("__gradient_hashmap_contains_int", vec![MTy::I64, MTy::I64], vec![MTy::I64])?;
        self.add_import("__gradient_hashmap_len", vec![MTy::I64], vec![MTy::I64])?;
        self.add_import("__gradient_hashmap_clear", vec![MTy::I64], vec![MTy::I64])?;
        Ok(())
    }

    /// Declares the runtime's further string helpers.
    #[verifier::rlimit(80)]
    #[verifier::spinoff_prover]
    fn declare_text_imports(&mut self) -> (r: Result<(), String>)
        ensures
            text_imports_declared(old(self).declared()) ==> r is Ok && final(self).declared() == old(self).declared(),
            old(self).wf() ==> final(self).wf(),
            adds_imports(old(self).declared(), final(self).declared()),
            r is Ok ==> text_imports_declared(final(self).declared()),
            final(self).string_entries() == old(self).string_entries(),
            final(self).message_table() == old(self).message_table(),
            final(self).next_message_id() == old(self).next_message_id(),
    {
        broadcast use {lemma_adds_imports_trans, lemma_adds_imports_keeps};
        self.add_import("__gradient_string_join", vec![MTy::I64, MTy::I64], vec![MTy::I64])?;
        self.add_import("__gradient_string_repeat", vec![MTy::I64, MTy::I64], vec![MTy::I64])?;
        self.add_import("__gradient_string_pad_left", vec![MTy::I64, MTy::I64, MTy::I64], vec![MTy::I64])?;
        self.add_import("__gradient_string_pad_right", vec![MTy::I64, MTy::I64, MTy::I64], vec![MTy::I64])?;
        self.add_import("__gradient_string_strip", vec![MTy::I64], vec![MTy::I64])?;
        self.add_import("__gradient_string_strip_prefix", vec![MTy::I64, MTy::I64], vec![MTy::I64])?;
        self.add_import("__gradient_string_strip_suffix", vec![MTy::I64, MTy::I64], vec![MTy::I64])?;
        self.add_import("__gradient_string_to_int", vec![MTy::I64], vec![MTy::I64])?;
        self.add_import("__gradient_string_to_float", vec![MTy::I64], vec![MTy::I64])?;
        Ok(())
    }

    /// Declares the runtime's actor functions.
    #[verifier::rlimit(80)]
    #[verifier::spinoff_prover]
    fn declare_actor_imports(&mut self) -> (r: Result<(), String>)
        ensures
            actor_imports_declared(old(self).declared()) ==> r is Ok && final(self).declared() == old(self).declared(),
            old(self).wf() ==> final(self).wf(),
            adds_imports(old(self).declared(), final(self).declared()),
            r is Ok ==> actor_imports_declared(final(self).declared()),
            final(self).string_entries() == old(self).string_entries(),
            final(self).message_table() == old(self).message_table(),
            final(self).next_message_id() == old(self).next_message_id(),
    {
        broadcast use {lemma_adds_imports_trans, lemma_adds_imports_keeps};
        self.add_import("__gradient_actor_spawn", vec![MTy::I64, MTy::I64], vec![MTy::I64])?;
        self.add_import("__gradient_actor_send", vec![MTy::I64, MTy::I64, MTy::I64, MTy::I64], vec![MTy::I64])?;
        self.add_import("__gradient_actor_ask", vec![MTy::I64, MTy::I64, MTy::I64, MTy::I64], vec![MTy::I64])?;
        self.add_import("__gradient_actor_receive", vec![], vec![MTy::I64])?;
        self.add_import("__gradient_actor_try_receive", vec![], vec![MTy::I64])?;
        self.add_import("__gradient_actor_self", vec![], vec![MTy::I64])?;
        self.add_import("__gradient_actor_yield", vec![], vec![])?;
        self.add_import("__gradient_actor_terminate", vec![], vec![])?;
        self.add_import("__gradient_actor_mailbox_create", vec![], vec![MTy::I64])?;
        Ok(())
    }

    /// Declares `f` under its own name with its machine signature and
    /// linkage (see [`user_linkage`]), unless that name is declared already.
    pub fn declare_user_function(&mut self, f: &Function) -> (r: Result<(), String>)
        ensures
            old(self).wf() ==> final(self).wf(),
            decl_index(old(self).declared(), f.name@) is Some ==> r is Ok && final(self).declared() == old(self).declared(),
            decl_index(old(self).declared(), f.name@) is None && r is Ok ==> {
                &&& final(self).declared().len() == old(self).declared().len() + 1
                &&& final(self).declared().drop_last() == old(self).declared()
                &&& final(self).declared().last().name@ == f.name@
                &&& final(self).declared().last().params@ == user_params(*f)
                &&& final(self).declared().last().rets@ == user_rets(*f)
                &&& final(self).declared().last().linkage == user_linkage(*f)
            },
            r is Err ==> final(self).declared() == old(self).declared(),
            final(self).string_entries() == old(self).string_entries(),
            final(self).message_table() == old(self).message_table(),
            final(self).next_message_id() == old(self).next_message_id(),
    {
        proof {
            reveal(CraneliftCodegen::wf);
        }
        match find_decl(&self.decls, f.name.as_str()) {
            Some(_) => Ok(()),
            None => {
                let (params, rets) = user_signature(f);
                let is_main = str_eq(f.name.as_str(), "main");
                proof {
                    reveal_strlit("main");
                }
                let linkage = if is_main || f.is_export {
                    Linkage::Export
                } else if f.blocks.len() == 0 {
                    Linkage::Import
                } else {
                    Linkage::Local
                };
                let sig = signature_of(&self.module, &params, &rets);
                let ghost st0 = self.module.state();
                match declare_function(&mut self.module, f.name.as_str(), linkage, &sig) {
                    Ok(id) => {
                        let d = Decl { name: f.name.clone(), params, rets, linkage };
                        proof {
                            if old(self).wf() && !self.untracked {
                                lemma_owed_push(st0, self.module.state(), self.func_ids@, self.fn_defined@, self.decls@, id, d);
                            }
                        }
                        self.decls.push(d);
                        self.func_ids.push(id);
                        self.fn_defined.push(false);
                        proof {
                            assert(self.decls@.drop_last() =~= old(self).decls@);
                        }
                        Ok(())
                    },
                    Err(e) => {
                        match linkage {
                            Linkage::Import => {},
                            _ => {
                                self.untracked = true;
                            },
                        }
                        let mut m = concat("Failed to declare function '", f.name.as_str());
                        m.append("': ");
                        m.append(e.as_str());
                        Err(m)
                    },
                }
            },
        }
    }

    /// Declares and defines, as local data objects `.str.k`, the interned
    /// strings that have no data object yet; each holds the string's bytes
    /// and a terminating zero.
    fn define_new_strings(&mut self) -> (r: Result<(), String>)
        ensures
            r matches Err(m) ==> string_data_error(m@),
            final(self).func_ids@ == old(self).func_ids@,
            final(self).fn_defined@ == old(self).fn_defined@,
            old(self).wf() ==> final(self).wf(),
            final(self).declared() == old(self).declared(),
            final(self).string_entries() == old(self).string_entries(),
            final(self).message_table() == old(self).message_table(),
            final(self).next_message_id() == old(self).next_message_id(),
            r is Ok ==> final(self).string_data_count() == (if old(self).string_data_count() >= old(self).string_entries().len() {
                old(self).string_data_count()
            } else {
                old(self).string_entries().len()
            }),
    {
        proof {
            reveal(CraneliftCodegen::wf);
        }
        let n = self.strings.entries.len();
        let mut k = self.data_ids.len();
        while k < n
            invariant
                k == self.data_ids@.len(),
                k <= n || k == old(self).data_ids@.len(),
                old(self).data_ids@.len() <= k,
                n == self.strings.entries@.len(),
                self.decls@ == old(self).decls@,
                self.strings.entries@ == old(self).strings.entries@,
                self.message_keys@ == old(self).message_keys@,
                self.message_ids@ == old(self).message_ids@,
                self.next_message_type_id == old(self).next_message_type_id,
                self.func_ids@ == old(self).func_ids@,
                self.fn_defined@ == old(self).fn_defined@,
                old(self).wf() ==> self.wf(),
            decreases n - k,
        {
            proof {
                reveal(CraneliftCodegen::wf);
            }
            let name = with_number(".str.", k as u64, "");
            let id = match declare_data(&mut self.module, name.as_str(), Linkage::Local, true) {
                Ok(id) => id,
                Err(e) => {
                    self.untracked = true;
                    let mut m = concat("Failed to declare string data '", name.as_str());
                    m.append("': ");
                    m.append(e.as_str());
                    assert(m@ =~= "Failed to declare string data '"@ + (name@ + "': "@ + e@));
                    return Err(m);
                },
            };
            let bytes = c_string_bytes(self.strings.entries[k].as_str());
            match define_data(&mut self.module, id, bytes) {
                Ok(()) => {},
                Err(e) => {
                    self.untracked = true;
                    let mut m = concat("Failed to define string data '", name.as_str());
                    m.append("': ");
                    m.append(e.as_str());
                    assert(m@ =~= "Failed to define string data '"@ + (name@ + "': "@ + e@));
                    return Err(m);
                },
            }
            self.data_ids.push(id);
            k = k + 1;
        }
        Ok(())
    }

    /// Compiles `func`, which must have been declared: plans its body,
    /// defines the string constants the plan introduced, emits the plan
    /// and has Cranelift compile it into the module.
    pub fn compile_function(&mut self, func: &Function, ir_module: &IrModule) -> (r: Result<(), String>)
        requires
            old(self).wf(),
        ensures
            final(self).wf(),
            final(self).declared() == old(self).declared(),
            final(self).message_table() == old(self).message_table(),
            final(self).next_message_id() == old(self).next_message_id(),
            decl_index(old(self).declared(), func.name@) is None ==>
                (r matches Err(m) && m@ == "Function '"@ + func.name@ + "' was not declared"@),
            r is Ok ==> final(self).is_defined(func.name@),
            forall|name: Seq<char>| #[trigger] old(self).is_defined(name) ==> final(self).is_defined(name),
            r is Ok ==> exists|p: ClPlanner| #[trigger] plans(p, *func, old(self).decl_table(), ir_module.func_refs)
                && follows_plan(p.ops@, p.args@, p.types@.len(), old(self).func_table(), final(self).last_emitted()),
            r matches Err(m) ==> function_error(*func, old(self).decl_table(), ir_module.func_refs, m@),
    {
        proof {
            reveal(CraneliftCodegen::wf);
        }
        let idx = match find_decl(&self.decls, func.name.as_str()) {
            Some(i) => i,
            None => {
                let mut m = concat("Function '", func.name.as_str());
                m.append("' was not declared");
                return Err(m);
            },
        };
        let nd = self.decls.len();
        proof {
            lemma_decl_index(self.decls@, func.name@);
        }
        let id = self.func_ids[idx];
        let (params, rets) = user_signature(func);
        let plan = plan_function(func, &self.decls, &ir_module.func_refs, &mut self.strings, &params)?;
        self.define_new_strings()?;
        let (f, code) = emit_function(&mut self.module, id, &params, &rets, &plan, &self.func_ids, &self.data_ids)?;
        self.last_emitted = code;
        assert(plans(plan, *func, old(self).decl_table(), ir_module.func_refs));
        let mut ctx = context_for(f);
        match define_function(&mut self.module, id, &mut ctx) {
            Ok(()) => {
                self.fn_defined.set(idx, true);
                proof {
                    let st = self.module.state();
                    if !self.untracked {
                        assert forall|x: FuncId| #[trigger] st.fneed.contains(x) implies st.fdone.contains(x)
                            || exists|i: int| 0 <= i < self.func_ids@.len() && self.func_ids@[i] == x
                                && !self.fn_defined@[i] && !(self.decls@[i].linkage is Import) by {
                            if !st.fdone.contains(x) {
                                let i = choose|i: int| 0 <= i < self.func_ids@.len() && self.func_ids@[i] == x
                                    && !old(self).fn_defined@[i] && !(self.decls@[i].linkage is Import);
                                assert(i != idx);
                                assert(!self.fn_defined@[i]);
                            }
                        }
                    }
                }
                Ok(())
            },
            Err(e) => {
                let mut m = concat("Failed to define function '", func.name.as_str());
                m.append("': ");
                m.append(e.as_str());
                m.append("\nCranelift IR:\n");
                let text = function_text(&ctx);
                m.append(text.as_str());
                assert(m@ =~= "Failed to define function '"@ + func.name@ + "': "@ + (e@ + "\nCranelift IR:\n"@ + text@));
                Err(m)
            },
        }
    }

    /// Compiles a whole IR module: declares the runtime imports, then every
    /// function of the module, then compiles each function that has a body.
    /// A name that is declared already keeps its first declaration; so each
    /// function that is the first of its name and is not a runtime import is
    /// declared with its own signature and linkage.
    #[verifier::rlimit(40)]
    #[verifier::spinoff_prover]
    pub fn compile_module(&mut self, ir_module: &IrModule) -> (r: Result<(), String>)
        requires
            old(self).wf(),
        ensures
            runtime_imports_declared(old(self).declared()) && (forall|i: int| 0 <= i < ir_module.functions@.len()
                ==> decl_index(old(self).declared(), #[trigger] ir_module.functions@[i].name@) is Some
                    && ir_module.functions@[i].blocks@.len() == 0) ==> r is Ok && final(self).declared() == old(self).declared(),
            r is Ok ==> forall|i: int| 0 <= i < ir_module.functions@.len() && ir_module.functions@[i].blocks@.len() > 0
                ==> final(self).is_defined(#[trigger] ir_module.functions@[i].name@),
            final(self).wf(),
            r is Ok ==> forall|i: int| 0 <= i < ir_module.functions@.len()
                ==> #[trigger] decl_index(final(self).declared(), ir_module.functions@[i].name@) is Some,
            r is Ok ==> runtime_imports_declared(final(self).declared()),
            r is Ok ==> exists|k: int| #![trigger final(self).declared().subrange(0, k)]
                0 <= k <= final(self).declared().len()
                && adds_imports(old(self).declared(), final(self).declared().subrange(0, k))
                && forall|i: int| #![trigger ir_module.functions@[i]]
                    0 <= i < ir_module.functions@.len()
                    && first_of_name(ir_module.functions@, i)
                    && (forall|m: int| 0 <= m < k ==> (#[trigger] final(self).declared()[m]).name@ != ir_module.functions@[i].name@)
                    ==> first_decl_declares(final(self).declared(), ir_module.functions@[i]),
            final(self).message_table() == old(self).message_table(),
            final(self).next_message_id() == old(self).next_message_id(),
    {
        let ghost idle = runtime_imports_declared(old(self).declared()) && (forall|i: int| 0 <= i < ir_module.functions@.len()
            ==> decl_index(old(self).declared(), #[trigger] ir_module.functions@[i].name@) is Some
                && ir_module.functions@[i].blocks@.len() == 0);
        self.declare_imports()?;
        let ghost pre = self.declared();
        assert(idle ==> pre == old(self).declared());
        assert(runtime_imports_declared(pre));
        let n = ir_module.functions.len();
        for i in 0..n
            invariant
                n == ir_module.functions@.len(),
                adds_imports(old(self).declared(), pre),
                user_decls_inv(pre, self.declared(), ir_module.functions@, i as int),
                self.message_table() == old(self).message_table(),
                self.next_message_id() == old(self).next_message_id(),
                self.wf(),
                idle ==> pre == old(self).declared() && self.declared() == pre,
                idle == (runtime_imports_declared(old(self).declared()) && (forall|i: int| 0 <= i < ir_module.functions@.len()
                    ==> decl_index(old(self).declared(), #[trigger] ir_module.functions@[i].name@) is Some
                        && ir_module.functions@[i].blocks@.len() == 0)),
        {
            let ghost before = self.declared();
            assert(idle ==> decl_index(before, ir_module.functions@[i as int].name@) is Some);
            self.declare_user_function(&ir_module.functions[i])?;
            proof {
                lemma_user_step(pre, before, self.declared(), ir_module.functions@, i as int);
            }
        }
        let ghost mid = self.declared();
        for i in 0..n
            invariant
                n == ir_module.functions@.len(),
                self.declared() == mid,
                forall|j: int| 0 <= j < i && ir_module.functions@[j].blocks@.len() > 0
                    ==> self.is_defined(#[trigger] ir_module.functions@[j].name@),
                self.message_table() == old(self).message_table(),
                self.next_message_id() == old(self).next_message_id(),
                self.wf(),
                idle ==> mid == old(self).declared(),
                idle == (runtime_imports_declared(old(self).declared()) && (forall|i: int| 0 <= i < ir_module.functions@.len()
                    ==> decl_index(old(self).declared(), #[trigger] ir_module.functions@[i].name@) is Some
                        && ir_module.functions@[i].blocks@.len() == 0)),
        {
            assert(idle ==> ir_module.functions@[i as int].blocks@.len() == 0);
            if ir_module.functions[i].blocks.len() > 0 {
                self.compile_function(&ir_module.functions[i], ir_module)?;
            }
        }
        proof {
            let k = pre.len() as int;
            assert(mid.subrange(0, k) =~= pre);
            assert forall|name: Seq<char>| #[trigger] decl_index(pre, name) is Some implies decl_index(mid, name) == decl_index(pre, name) by {
                lemma_extension_keeps_index(pre, mid, name);
            }
            assert forall|i: int| #![trigger ir_module.functions@[i]]
                0 <= i < ir_module.functions@.len()
                && first_of_name(ir_module.functions@, i)
                && (forall|m: int| 0 <= m < k ==> (#[trigger] mid[m]).name@ != ir_module.functions@[i].name@)
                implies first_decl_declares(mid, ir_module.functions@[i]) by {
                assert forall|m: int| 0 <= m < pre.len() implies (#[trigger] pre[m]).name@ != ir_module.functions@[i].name@ by {
                    assert(mid[m] == pre[m]);
                }
            }
        }
        Ok(())
    }

    /// Emits a `main` that prints "Hello from Gradient!" through `puts` and
    /// returns 0, without going through the IR.
    pub fn emit_hello_world(&mut self) -> (r: Result<(), String>)
        ensures
            r is Ok ==> exists|puts: FuncId, hello: DataId| #![trigger final(self).module_state().fnames[puts], final(self).module_state().ddata[hello]]
                final(self).module_state().fnames.dom().contains(puts) && final(self).module_state().fnames[puts] == "puts"@
                && final(self).module_state().dnames.dom().contains(hello) && final(self).module_state().dnames[hello] == "hello_str"@
                && final(self).module_state().ddata.dom().contains(hello)
                && final(self).module_state().ddata[hello] == hello_bytes()
                && follows_plan(hello_ops(), seq![0usize, 2usize], 3, seq![puts], final(self).last_emitted()),
            old(self).wf() ==> final(self).wf(),
            final(self).declared() == old(self).declared(),
            final(self).string_entries() == old(self).string_entries(),
            final(self).message_table() == old(self).message_table(),
            final(self).next_message_id() == old(self).next_message_id(),
    {
        proof {
            reveal(CraneliftCodegen::wf);
        }
        let data_id = match declare_data(&mut self.module, "hello_str", Linkage::Local, true) {
            Ok(id) => id,
            Err(e) => {
                self.untracked = true;
                return Err(concat("Failed to declare data: ", e.as_str()));
            },
        };
        let hello = c_string_bytes("Hello from Gradient!");
        let ghost hb = hello@;
        proof {
            reveal_strlit("Hello from Gradient!");
            reveal_strlit("puts");
            reveal_strlit("main");
            reveal_strlit("hello_str");
        }
        match define_data(&mut self.module, data_id, hello) {
            Ok(()) => {},
            Err(e) => {
                self.untracked = true;
                return Err(concat("Failed to define data: ", e.as_str()));
            },
        }
        let puts_params = vec![MTy::I64];
        let puts_rets = vec![MTy::I32];
        let puts_sig = signature_of(&self.module, &puts_params, &puts_rets);
        let puts_id = match declare_function(&mut self.module, "puts", Linkage::Import, &puts_sig) {
            Ok(id) => id,
            Err(e) => {
                return Err(concat("Failed to declare puts: ", e.as_str()));
            },
        };
        let main_params: Vec<MTy> = Vec::new();
        let main_rets = vec![MTy::I32];
        let main_sig = signature_of(&self.module, &main_params, &main_rets);
        let main_id = match declare_function(&mut self.module, "main", Linkage::Export, &main_sig) {
            Ok(id) => id,
            Err(e) => {
                self.untracked = true;
                return Err(concat("Failed to declare main: ", e.as_str()));
            },
        };
        let plan = ClPlanner {
            ops: vec![
                Op::CreateBlock { block: 0 },
                Op::Seal { block: 0 },
                Op::SwitchTo { block: 0 },
                Op::DataAddr { dst: 0, data: 0 },
                Op::Call { func: 0, args: Span { start: 0, len: 1 }, dst: 1, has_result: true },
                Op::IConst { dst: 2, ty: MTy::I32, imm: 0 },
                Op::Return { args: Span { start: 1, len: 1 } },
            ],
            args: vec![0, 2],
            types: vec![MTy::I64, MTy::I32, MTy::I32],
            vmap: HashMap::new(),
            block_params: vec![Vec::new()],
            sigs: Vec::new(),
        };
        assert(plan.ops@ =~= hello_ops());
        assert(plan.args@ =~= seq![0usize, 2usize]);
        let callees = vec![puts_id];
        let strings = vec![data_id];
        let f = match emit_function(&mut self.module, main_id, &main_params, &main_rets, &plan, &callees, &strings) {
            Ok((f, code)) => {
                self.last_emitted = code;
                f
            },
            Err(e) => {
                self.untracked = true;
                return Err(e);
            },
        };
        let mut ctx = context_for(f);
        match define_function(&mut self.module, main_id, &mut ctx) {
            Ok(()) => {
                proof {
                    let st = self.module.state();
                    assert(callees@ =~= seq![puts_id]);
                    assert(st.fnames[puts_id] == "puts"@);
                    assert(st.ddata[data_id] == hello_bytes());
                    assert(follows_plan(hello_ops(), seq![0usize, 2usize], 3, seq![puts_id], self.last_emitted@));
                    assert(self.module_state() == st);
                    assert(self.module_state().fnames[puts_id] == "puts"@);
                    assert(self.module_state().ddata[data_id] == hello_bytes());
                    assert(follows_plan(hello_ops(), seq![0usize, 2usize], 3, seq![puts_id], self.last_emitted()));
                }
                Ok(())
            },
            Err(e) => {
                self.untracked = true;
                Err(concat("Failed to define main function: ", e.as_str()))
            },
        }
    }

    /// The object file's bytes.
    pub fn emit_bytes(self) -> (r: Result<Vec<u8>, String>)
        requires
            self.wf(),
        ensures
            self.has_untracked() ==> (r matches Err(m) && m@ == untracked_emit_msg()),
            !self.has_untracked() && self.undefined_owed() ==> (r matches Err(m)
                && exists|i: int| #[trigger] self.owed_at(i) && m@ == undefined_emit_msg(self.declared()[i].name@)),
            !self.has_untracked() && !self.undefined_owed() ==> (r matches Err(m)
                ==> exists|e: Seq<char>| m@ == "Failed to emit object: "@ + e),
    {
        proof {
            reveal(CraneliftCodegen::wf);
        }
        if self.untracked {
            return Err(String::from_str(
                "Cannot emit object: a failed declaration may have left a symbol without its definition",
            ));
        }
        let n = self.decls.len();
        for i in 0..n
            invariant
                n == self.decls@.len(),
                self.wf(),
                forall|q: int| 0 <= q < i ==> !self.owed_at(q),
                !self.untracked,
        {
            proof {
                reveal(CraneliftCodegen::wf);
            }
            let owed = match self.decls[i].linkage {
                Linkage::Import => false,
                _ => !self.fn_defined[i],
            };
            if owed {
                let mut m = concat("Cannot emit object: function '", self.decls[i].name.as_str());
                m.append("' is declared but not defined");
                assert(self.owed_at(i as int));
                return Err(m);
            }
        }
        proof {
            let st = self.module.state();
            assert forall|x: FuncId| #[trigger] st.fneed.contains(x) implies st.fdone.contains(x) by {
                if !st.fdone.contains(x) {
                    let i = choose|i: int| 0 <= i < self.func_ids@.len() && self.func_ids@[i] == x
                        && !self.fn_defined@[i] && !(self.decls@[i].linkage is Import);
                    assert(self.owed_at(i));
                }
            }
        }
        let product = module_finish(self.module);
        match product_emit(product) {
            Ok(bytes) => Ok(bytes),
            Err(e) => {
                let m = concat("Failed to emit object: ", e.as_str());
                assert(m@ == "Failed to emit object: "@ + e@);
                Err(m)
            },
        }
    }
}

/// `m` is an error [`CraneliftCodegen::compile_function`] can give for
/// `func`: its name is not declared; planning its body fails with `m`; a
/// string constant of the plan cannot be declared or defined; the plan
/// refers to something the emitter does not have; or Cranelift refuses to
/// define the function.
pub open spec fn function_error(func: Function, decls: Vec<Decl>, func_refs: HashMap<u32, String>, m: Seq<char>) -> bool {
    ||| m == "Function '"@ + func.name@ + "' was not declared"@
    ||| exists|s: String| s@ == m && #[trigger] plan_fails(func, decls, func_refs, s)
    ||| string_data_error(m)
    ||| m == dangling_msg()
    ||| exists|e: Seq<char>| m == "Failed to define function '"@ + func.name@ + "': "@ + e
}

/// `m` is an error of declaring or defining a string constant's data.
pub open spec fn string_data_error(m: Seq<char>) -> bool {
    ||| exists|e: Seq<char>| m == "Failed to declare string data '"@ + e
    ||| exists|e: Seq<char>| m == "Failed to define string data '"@ + e
}

/// `m` is an error [`CraneliftCodegen::new`] can give: a setting refused,
/// the host's ISA not found or not finished, or no object builder for it,
/// each with Cranelift's message.
pub open spec fn new_error(m: Seq<char>) -> bool {
    ||| exists|e: Seq<char>| m == "Failed to set opt_level: "@ + e
    ||| exists|e: Seq<char>| m == "Failed to set is_pic: "@ + e
    ||| exists|e: Seq<char>| m == "Failed to look up ISA for "@ + e
    ||| exists|e: Seq<char>| m == "Failed to finish ISA: "@ + e
    ||| exists|e: Seq<char>| m == "Failed to create ObjectBuilder: "@ + e
}

/// The error of [`CraneliftCodegen::emit_bytes`] when a failed declaration
/// may have left a symbol owed a definition that the tables do not show.
pub open spec fn untracked_emit_msg() -> Seq<char> {
    "Cannot emit object: a failed declaration may have left a symbol without its definition"@
}

/// The error of [`CraneliftCodegen::emit_bytes`] when function `name` is
/// local or exported and has no definition.
pub open spec fn undefined_emit_msg(name: Seq<char>) -> Seq<char> {
    "Cannot emit object: function '"@ + name + "' is declared but not defined"@
}

} // verus!
