//! The LLVM lowering of the built-in functions that calls name: printing,
//! integer and float helpers, strings, time, and integer powers. Each is
//! lowered in place, mostly as calls into the C library or the Gradient
//! runtime.

use vstd::prelude::*;
use inkwell::values::{BasicValueEnum, FloatValue, IntValue, PointerValue};
use crate::clbuiltin::arity_msg;
use crate::error::CodegenError;
use crate::ir::Value;
use crate::llemit::{append_block, build_br, build_call, build_cond_br, build_float_to_signed_int, build_int_add, build_int_compare};
use crate::llemit::{build_int_mul, build_int_signed_div, build_int_sub, build_int_z_extend, build_is_not_null, build_phi};
use crate::llemit::{build_select, build_signed_int_to_float, const_int, float_of, int_basic, int_of, phi_add_incoming, phi_basic};
use crate::llemit::{position_at_end, ptr_basic, ptr_of, zero_like, IPred, LKind, LTy};
use crate::llvm::{missing_value_msg, LlvmCodegen, Runtime};
use crate::llvm::inst::first_missing;
use crate::mach::{interning_adds, string_index};
use crate::text::{str_eq, with_number, with_text};

verus! {

broadcast use {vstd::std_specs::hash::group_hash_axioms, LlvmCodegen::lemma_step_trans};

/// The built-ins the LLVM backend lowers in place.
#[derive(Clone, Copy, Debug, PartialEq, Eq, Structural)]
pub enum LlBuiltin {
    PrintInt,
    PrintFloat,
    PrintBool,
    Print,
    Println,
    Abs,
    Min,
    Max,
    ModInt,
    IntToFloat,
    FloatToInt,
    NowMs,
    IntToString,
    FloatToString,
    StringLength,
    StringConcat,
    StringContains,
    StringStartsWith,
    StringEq,
    StringEndsWith,
    BoolToString,
    FloatAbs,
    FloatSqrt,
    Sleep,
    SleepSeconds,
    TimeString,
    DateString,
    DatetimeYear,
    DatetimeMonth,
    DatetimeDay,
    Pow,
}

/// The built-in a called name stands for, if any.
pub open spec fn spec_builtin_of(name: Seq<char>) -> Option<LlBuiltin> {
    if name == "print_int"@ { Some(LlBuiltin::PrintInt) }
    else if name == "print_float"@ { Some(LlBuiltin::PrintFloat) }
    else if name == "print_bool"@ { Some(LlBuiltin::PrintBool) }
    else if name == "print"@ { Some(LlBuiltin::Print) }
    else if name == "println"@ { Some(LlBuiltin::Println) }
    else if name == "abs"@ { Some(LlBuiltin::Abs) }
    else if name == "min"@ { Some(LlBuiltin::Min) }
    else if name == "max"@ { Some(LlBuiltin::Max) }
    else if name == "mod_int"@ { Some(LlBuiltin::ModInt) }
    else if name == "int_to_float"@ { Some(LlBuiltin::IntToFloat) }
    else if name == "float_to_int"@ { Some(LlBuiltin::FloatToInt) }
    else if name == "now_ms"@ { Some(LlBuiltin::NowMs) }
    else if name == "int_to_string"@ { Some(LlBuiltin::IntToString) }
    else if name == "float_to_string"@ { Some(LlBuiltin::FloatToString) }
    else if name == "string_length"@ { Some(LlBuiltin::StringLength) }
    else if name == "string_concat"@ { Some(LlBuiltin::StringConcat) }
    else if name == "string_contains"@ { Some(LlBuiltin::StringContains) }
    else if name == "string_starts_with"@ { Some(LlBuiltin::StringStartsWith) }
    else if name == "string_eq"@ { Some(LlBuiltin::StringEq) }
    else if name == "string_ends_with"@ { Some(LlBuiltin::StringEndsWith) }
    else if name == "bool_to_string"@ { Some(LlBuiltin::BoolToString) }
    else if name == "float_abs"@ { Some(LlBuiltin::FloatAbs) }
    else if name == "float_sqrt"@ { Some(LlBuiltin::FloatSqrt) }
    else if name == "sleep"@ { Some(LlBuiltin::Sleep) }
    else if name == "sleep_seconds"@ { Some(LlBuiltin::SleepSeconds) }
    else if name == "time_string"@ { Some(LlBuiltin::TimeString) }
    else if name == "date_string"@ { Some(LlBuiltin::DateString) }
    else if name == "datetime_year"@ { Some(LlBuiltin::DatetimeYear) }
    else if name == "datetime_month"@ { Some(LlBuiltin::DatetimeMonth) }
    else if name == "datetime_day"@ { Some(LlBuiltin::DatetimeDay) }
    else if name == "pow"@ { Some(LlBuiltin::Pow) }
    else { None }
}

/// The name under which each built-in is called.
pub open spec fn builtin_name(b: LlBuiltin) -> Seq<char> {
    match b {
        LlBuiltin::PrintInt => "print_int"@,
        LlBuiltin::PrintFloat => "print_float"@,
        LlBuiltin::PrintBool => "print_bool"@,
        LlBuiltin::Print => "print"@,
        LlBuiltin::Println => "println"@,
        LlBuiltin::Abs => "abs"@,
        LlBuiltin::Min => "min"@,
        LlBuiltin::Max => "max"@,
        LlBuiltin::ModInt => "mod_int"@,
        LlBuiltin::IntToFloat => "int_to_float"@,
        LlBuiltin::FloatToInt => "float_to_int"@,
        LlBuiltin::NowMs => "now_ms"@,
        LlBuiltin::IntToString => "int_to_string"@,
        LlBuiltin::FloatToString => "float_to_string"@,
        LlBuiltin::StringLength => "string_length"@,
        LlBuiltin::StringConcat => "string_concat"@,
        LlBuiltin::StringContains => "string_contains"@,
        LlBuiltin::StringStartsWith => "string_starts_with"@,
        LlBuiltin::StringEq => "string_eq"@,
        LlBuiltin::StringEndsWith => "string_ends_with"@,
        LlBuiltin::BoolToString => "bool_to_string"@,
        LlBuiltin::FloatAbs => "float_abs"@,
        LlBuiltin::FloatSqrt => "float_sqrt"@,
        LlBuiltin::Sleep => "sleep"@,
        LlBuiltin::SleepSeconds => "sleep_seconds"@,
        LlBuiltin::TimeString => "time_string"@,
        LlBuiltin::DateString => "date_string"@,
        LlBuiltin::DatetimeYear => "datetime_year"@,
        LlBuiltin::DatetimeMonth => "datetime_month"@,
        LlBuiltin::DatetimeDay => "datetime_day"@,
        LlBuiltin::Pow => "pow"@,
    }
}

/// A called name is recognised as the built-in of that name and no other:
/// `abs` is `Abs`, never `Min`.
pub proof fn law_builtin_named(name: Seq<char>)
    ensures
        spec_builtin_of(name) matches Some(b) ==> builtin_name(b) == name,
{
}


/// The number of arguments a built-in reads.
pub open spec fn spec_builtin_arity(b: LlBuiltin) -> nat {
    match b {
        LlBuiltin::NowMs | LlBuiltin::TimeString | LlBuiltin::DateString => 0,
        LlBuiltin::Min | LlBuiltin::Max | LlBuiltin::ModInt | LlBuiltin::StringConcat | LlBuiltin::StringContains
        | LlBuiltin::StringStartsWith | LlBuiltin::StringEq | LlBuiltin::StringEndsWith | LlBuiltin::Pow => 2,
        _ => 1,
    }
}

/// The arguments built-in `b` looks up, in order, before anything else it
/// does can fail.
pub open spec fn builtin_leading(b: LlBuiltin, args: Seq<Value>) -> Seq<u32> {
    match b {
        LlBuiltin::NowMs | LlBuiltin::TimeString | LlBuiltin::DateString => Seq::empty(),
        LlBuiltin::StringConcat | LlBuiltin::StringContains | LlBuiltin::StringStartsWith | LlBuiltin::StringEq
        | LlBuiltin::StringEndsWith => seq![args[0].0, args[1].0],
        _ => seq![args[0].0],
    }
}

/// The built-in a called name stands for, if any.
pub fn builtin_of(name: &str) -> (r: Option<LlBuiltin>)
    ensures
        r == spec_builtin_of(name@),
{
    proof {
        reveal_strlit("print_int");
        reveal_strlit("print_float");
        reveal_strlit("print_bool");
        reveal_strlit("print");
        reveal_strlit("println");
        reveal_strlit("abs");
        reveal_strlit("min");
        reveal_strlit("max");
        reveal_strlit("mod_int");
        reveal_strlit("int_to_float");
        reveal_strlit("float_to_int");
        reveal_strlit("now_ms");
        reveal_strlit("int_to_string");
        reveal_strlit("float_to_string");
        reveal_strlit("string_length");
        reveal_strlit("string_concat");
        reveal_strlit("string_contains");
        reveal_strlit("string_starts_with");
        reveal_strlit("string_eq");
        reveal_strlit("string_ends_with");
        reveal_strlit("bool_to_string");
        reveal_strlit("float_abs");
        reveal_strlit("float_sqrt");
        reveal_strlit("sleep");
        reveal_strlit("sleep_seconds");
        reveal_strlit("time_string");
        reveal_strlit("date_string");
        reveal_strlit("datetime_year");
        reveal_strlit("datetime_month");
        reveal_strlit("datetime_day");
        reveal_strlit("pow");
    }
    if str_eq(name, "print_int") { Some(LlBuiltin::PrintInt) }
    else if str_eq(name, "print_float") { Some(LlBuiltin::PrintFloat) }
    else if str_eq(name, "print_bool") { Some(LlBuiltin::PrintBool) }
    else if str_eq(name, "print") { Some(LlBuiltin::Print) }
    else if str_eq(name, "println") { Some(LlBuiltin::Println) }
    else if str_eq(name, "abs") { Some(LlBuiltin::Abs) }
    else if str_eq(name, "min") { Some(LlBuiltin::Min) }
    else if str_eq(name, "max") { Some(LlBuiltin::Max) }
    else if str_eq(name, "mod_int") { Some(LlBuiltin::ModInt) }
    else if str_eq(name, "int_to_float") { Some(LlBuiltin::IntToFloat) }
    else if str_eq(name, "float_to_int") { Some(LlBuiltin::FloatToInt) }
    else if str_eq(name, "now_ms") { Some(LlBuiltin::NowMs) }
    else if str_eq(name, "int_to_string") { Some(LlBuiltin::IntToString) }
    else if str_eq(name, "float_to_string") { Some(LlBuiltin::FloatToString) }
    else if str_eq(name, "string_length") { Some(LlBuiltin::StringLength) }
    else if str_eq(name, "string_concat") { Some(LlBuiltin::StringConcat) }
    else if str_eq(name, "string_contains") { Some(LlBuiltin::StringContains) }
    else if str_eq(name, "string_starts_with") { Some(LlBuiltin::StringStartsWith) }
    else if str_eq(name, "string_eq") { Some(LlBuiltin::StringEq) }
    else if str_eq(name, "string_ends_with") { Some(LlBuiltin::StringEndsWith) }
    else if str_eq(name, "bool_to_string") { Some(LlBuiltin::BoolToString) }
    else if str_eq(name, "float_abs") { Some(LlBuiltin::FloatAbs) }
    else if str_eq(name, "float_sqrt") { Some(LlBuiltin::FloatSqrt) }
    else if str_eq(name, "sleep") { Some(LlBuiltin::Sleep) }
    else if str_eq(name, "sleep_seconds") { Some(LlBuiltin::SleepSeconds) }
    else if str_eq(name, "time_string") { Some(LlBuiltin::TimeString) }
    else if str_eq(name, "date_string") { Some(LlBuiltin::DateString) }
    else if str_eq(name, "datetime_year") { Some(LlBuiltin::DatetimeYear) }
    else if str_eq(name, "datetime_month") { Some(LlBuiltin::DatetimeMonth) }
    else if str_eq(name, "datetime_day") { Some(LlBuiltin::DatetimeDay) }
    else if str_eq(name, "pow") { Some(LlBuiltin::Pow) }
    else { None }
}

/// The number of arguments a built-in reads.
pub fn builtin_arity(b: LlBuiltin) -> (r: usize)
    ensures
        r == spec_builtin_arity(b),
{
    match b {
        LlBuiltin::NowMs | LlBuiltin::TimeString | LlBuiltin::DateString => 0,
        LlBuiltin::Min | LlBuiltin::Max | LlBuiltin::ModInt | LlBuiltin::StringConcat | LlBuiltin::StringContains
        | LlBuiltin::StringStartsWith | LlBuiltin::StringEq | LlBuiltin::StringEndsWith | LlBuiltin::Pow => 2,
        _ => 1,
    }
}

/// The number of an IR value, widened.
pub fn value_number(v: Value) -> (r: u64)
    ensures
        r == v.0,
{
    v.0 as u64
}

/// The message for a built-in's argument of the wrong kind.
pub open spec fn wrong_kind_msg(name: Seq<char>) -> Seq<char> {
    "built-in '"@ + name + "' called with an argument of the wrong type"@
}

/// Interning keeps the strings already present where they are.
proof fn lemma_string_index_kept(a: Seq<String>, b: Seq<String>, s: Seq<char>)
    requires
        string_index(a, s) is Some,
        b == a || (b.len() == a.len() + 1 && b.drop_last() == a),
    ensures
        string_index(b, s) is Some,
{
}

/// What the arithmetic built-ins hand to LLVM, from `before` to `after`:
/// for `min` and `max` a signed less-than (`min`) or greater-than (`max`)
/// comparison of the two arguments, then a select of the first argument
/// where it holds and the second elsewhere; for `abs` the negation
/// `0 - x`, the comparison `x < 0` and a select; for `mod_int` the signed
/// division, the product of the quotient and the divisor, and the
/// difference `x - q * y`; for the conversions one signed conversion.
/// Other built-ins are not described here.
pub open spec fn math_trace(b: LlBuiltin, before: Seq<LKind>, after: Seq<LKind>) -> bool {
    match b {
        LlBuiltin::Min => after == before.push(LKind::ICmp(IPred::Slt)).push(LKind::Select),
        LlBuiltin::Max => after == before.push(LKind::ICmp(IPred::Sgt)).push(LKind::Select),
        LlBuiltin::Abs => after == before.push(LKind::IntSub).push(LKind::ICmp(IPred::Slt)).push(LKind::Select),
        LlBuiltin::ModInt => after == before.push(LKind::IntSDiv).push(LKind::IntMul).push(LKind::IntSub),
        LlBuiltin::IntToFloat => after == before.push(LKind::SIToFP),
        LlBuiltin::FloatToInt => after == before.push(LKind::FPToSI),
        _ => true,
    }
}

impl<'ctx> LlvmCodegen<'ctx> {
    /// The integer value of argument `i` of built-in `name`.
    fn int_arg(&self, name: &str, args: &Vec<Value>, i: usize) -> (r: Result<IntValue<'ctx>, CodegenError>)
        requires
            i < args@.len(),
        ensures
            !self.defined(args@[i as int].0) ==> (r matches Err(e) && e.message@ == missing_value_msg(args@[i as int].0)),
            r matches Err(e) ==> e.message@ == missing_value_msg(args@[i as int].0) || e.message@ == wrong_kind_msg(name@),
    {
        let v = self.resolve_value(args[i])?;
        match int_of(v) {
            Some(x) => Ok(x),
            None => Err(CodegenError::from_string(with_text("built-in '", name, "' called with an argument of the wrong type"))),
        }
    }

    /// The floating-point value of argument `i` of built-in `name`.
    fn float_arg(&self, name: &str, args: &Vec<Value>, i: usize) -> (r: Result<FloatValue<'ctx>, CodegenError>)
        requires
            i < args@.len(),
        ensures
            !self.defined(args@[i as int].0) ==> (r matches Err(e) && e.message@ == missing_value_msg(args@[i as int].0)),
            r matches Err(e) ==> e.message@ == missing_value_msg(args@[i as int].0) || e.message@ == wrong_kind_msg(name@),
    {
        let v = self.resolve_value(args[i])?;
        match float_of(v) {
            Some(x) => Ok(x),
            None => Err(CodegenError::from_string(with_text("built-in '", name, "' called with an argument of the wrong type"))),
        }
    }

    /// Calls runtime function `rt` with `vals`; a failure is reported as
    /// `what` followed by LLVM's message.
    fn call_runtime(&mut self, rt: Runtime, vals: Vec<BasicValueEnum<'ctx>>, name: &str, what: &str) -> (r: Result<Option<BasicValueEnum<'ctx>>, CodegenError>)
        requires
            old(self).wf(),
        ensures
            final(self).step(old(self)),
            final(self).value_map == old(self).value_map,
            final(self).strings == old(self).strings,
    {
        let f = self.get_or_declare(rt);
        match build_call(&mut self.builder, f, &vals, name) {
            Ok(v) => Ok(v),
            Err(e) => Err(CodegenError::from_string(with_text(what, e.as_str(), ""))),
        }
    }

    /// Calls runtime function `rt` with `vals`, requiring a value back.
    fn call_runtime_value(&mut self, rt: Runtime, vals: Vec<BasicValueEnum<'ctx>>, name: &str, what: &str, none: &str) -> (r: Result<BasicValueEnum<'ctx>, CodegenError>)
        requires
            old(self).wf(),
        ensures
            final(self).step(old(self)),
            final(self).value_map == old(self).value_map,
    {
        match self.call_runtime(rt, vals, name, what)? {
            Some(v) => Ok(v),
            None => Err(CodegenError::from_str(none)),
        }
    }

    /// Binds `result` to `v` when there is one.
    fn bind_opt(&mut self, result: Value, v: Option<BasicValueEnum<'ctx>>)
        requires
            old(self).wf(),
        ensures
            final(self).step(old(self)),
            final(self).strings == old(self).strings,
            final(self).value_map@ == (match v {
                Some(x) => old(self).value_map@.insert(result.0, x),
                None => old(self).value_map@,
            }),
    {
        if let Some(x) = v {
            self.bind(result.0, x);
        }
    }

    /// `printf(fmt, x)` with the string constant `fmt` and argument `x`,
    /// binding `result` to `printf`'s value.
    fn print_with(&mut self, fmt: &str, x: BasicValueEnum<'ctx>, result: Value) -> (r: Result<(), CodegenError>)
        requires
            old(self).wf(),
        ensures
            final(self).step(old(self)),
            string_index(final(self).string_constants(), fmt@) is Some,
            final(self).value_map@ == old(self).value_map@
                || exists|x: BasicValueEnum<'ctx>| final(self).value_map@ == old(self).value_map@.insert(result.0, x),
    {
        let f = self.get_or_create_string(fmt);
        proof {
            if interning_adds(old(self).strings.entries@, fmt@) {
                assert(self.strings.entries@.drop_last() =~= old(self).strings.entries@);
            }
        }
        let name = with_number("call.", value_number(result), "");
        let v = self.call_runtime(Runtime::Printf, vec![f, x], name.as_str(), "printf call failed: ")?;
        self.bind_opt(result, v);
        Ok(())
    }

    /// The string constant `"true"` or `"false"` selected by the boolean
    /// `b` (compared against zero).
    fn select_bool_text(&mut self, b: IntValue<'ctx>, cond_name: &str, sel_name: &str) -> (r: Result<BasicValueEnum<'ctx>, CodegenError>)
        requires
            old(self).wf(),
        ensures
            final(self).step(old(self)),
            final(self).value_map == old(self).value_map,
            r is Ok ==> string_index(final(self).string_constants(), "true"@) is Some
                && string_index(final(self).string_constants(), "false"@) is Some,
    {
        let zero = zero_like(b);
        let c = match build_int_compare(&mut self.builder, IPred::Ne, b, zero, cond_name) {
            Ok(c) => c,
            Err(e) => {
                return Err(CodegenError::from_string(with_text("bool->i1 compare failed: ", e.as_str(), "")));
            },
        };
        let ghost s0 = self.strings.entries@;
        let t = self.get_or_create_string("true");
        let ghost s1 = self.strings.entries@;
        let f = self.get_or_create_string("false");
        proof {
            if interning_adds(s0, "true"@) {
                assert(s1.drop_last() =~= s0);
            }
            assert(string_index(s1, "true"@) is Some);
            if interning_adds(s1, "false"@) {
                assert(self.strings.entries@.drop_last() =~= s1);
            }
            lemma_string_index_kept(s1, self.strings.entries@, "true"@);
        }
        match build_select(&mut self.builder, c, t, f, sel_name) {
            Ok(v) => Ok(v),
            Err(e) => Err(CodegenError::from_string(with_text("bool select failed: ", e.as_str(), ""))),
        }
    }

    /// `select(a < b, a, b)` (or `a > b` for the maximum) of two integers.
    fn min_max(&mut self, a: IntValue<'ctx>, b: IntValue<'ctx>, pred: IPred, test_name: &str, result: Value, prefix: &str) -> (r: Result<(), CodegenError>)
        requires
            old(self).wf(),
        ensures
            final(self).step(old(self)),
            r is Ok ==> final(self).defined(result.0),
            r is Ok ==> final(self).trace() == old(self).trace().push(LKind::ICmp(pred)).push(LKind::Select),
    {
        let c = match build_int_compare(&mut self.builder, pred, a, b, test_name) {
            Ok(c) => c,
            Err(e) => {
                return Err(CodegenError::from_string(with_text(prefix, " cmp failed: ", e.as_str())));
            },
        };
        let name = with_number(test_name, value_number(result), "");
        match build_select(&mut self.builder, c, int_basic(a), int_basic(b), name.as_str()) {
            Ok(v) => {
                self.bind(result.0, v);
                Ok(())
            },
            Err(e) => Err(CodegenError::from_string(with_text(prefix, " select failed: ", e.as_str()))),
        }
    }

    /// Zero-extends the `i1` comparison `c` to an `i8` boolean and binds it
    /// to `result`.
    fn bind_zext_bool(&mut self, c: IntValue<'ctx>, name: &str, result: Value) -> (r: Result<(), CodegenError>)
        requires
            old(self).wf(),
        ensures
            final(self).step(old(self)),
            r is Ok ==> final(self).defined(result.0),
    {
        match build_int_z_extend(&mut self.builder, self.context, c, LTy::I8, name) {
            Ok(v) => {
                self.bind(result.0, int_basic(v));
                Ok(())
            },
            Err(e) => Err(CodegenError::from_string(with_text("zext failed: ", e.as_str(), ""))),
        }
    }

    /// `buf = malloc(size)`, then `snprintf(buf, size, fmt, x)`; `result`
    /// is the buffer.
    fn format_into_buffer(&mut self, size: u64, fmt: &str, x: BasicValueEnum<'ctx>, result: Value, tag: &str) -> (r: Result<(), CodegenError>)
        requires
            old(self).wf(),
        ensures
            final(self).step(old(self)),
            r is Ok ==> final(self).defined(result.0),
    {
        let sz = int_basic(const_int(self.context, LTy::I64, size, false));
        let mname = with_text(tag, ".malloc.", "");
        let mname = with_number(mname.as_str(), value_number(result), "");
        let buf = self.call_runtime_value(Runtime::Malloc, vec![sz], mname.as_str(), "malloc call failed: ", "malloc returned no value")?;
        let f = self.get_or_create_string(fmt);
        let sname = with_text(tag, ".snprintf.", "");
        let sname = with_number(sname.as_str(), value_number(result), "");
        let _ = self.call_runtime(Runtime::Snprintf, vec![buf, sz, f, x], sname.as_str(), "snprintf call failed: ")?;
        self.bind(result.0, buf);
        Ok(())
    }

    /// `string_concat(a, b)`: `malloc(strlen(a) + strlen(b) + 1)`, then
    /// `strcpy` of `a` and `strcat` of `b` into it.
    fn lower_string_concat(&mut self, args: &Vec<Value>, result: Value) -> (r: Result<(), CodegenError>)
        requires
            old(self).wf(),
            args@.len() >= 2,
        ensures
            final(self).step(old(self)),
            r is Ok ==> final(self).defined(result.0),
            first_missing(old(self), seq![args@[0].0, args@[1].0]) matches Some(v) ==> (r matches Err(e) && e.message@ == missing_value_msg(v)),
    {
        let a = self.resolve_value(args[0])?;
        let b = self.resolve_value(args[1])?;
        let n = value_number(result);
        let la = self.call_runtime_value(Runtime::Strlen, vec![a], with_number("sc.lena.", n, "").as_str(), "strlen(a) failed: ", "strlen(a) returned no value")?;
        let lb = self.call_runtime_value(Runtime::Strlen, vec![b], with_number("sc.lenb.", n, "").as_str(), "strlen(b) failed: ", "strlen(b) returned no value")?;
        let (la, lb) = match (int_of(la), int_of(lb)) {
            (Some(x), Some(y)) => (x, y),
            _ => {
                return Err(CodegenError::from_str("strlen returned a non-integer value"));
            },
        };
        let one = const_int(self.context, LTy::I64, 1, false);
        let total = match build_int_add(&mut self.builder, la, lb, with_number("sc.tot.", n, "").as_str()) {
            Ok(t) => t,
            Err(e) => {
                return Err(CodegenError::from_string(with_text("len add failed: ", e.as_str(), "")));
            },
        };
        let size = match build_int_add(&mut self.builder, total, one, with_number("sc.alloc.", n, "").as_str()) {
            Ok(t) => t,
            Err(e) => {
                return Err(CodegenError::from_string(with_text("alloc-size add failed: ", e.as_str(), "")));
            },
        };
        let buf = self.call_runtime_value(Runtime::Malloc, vec![int_basic(size)], with_number("sc.malloc.", n, "").as_str(), "malloc call failed: ", "malloc returned no value")?;
        let _ = self.call_runtime(Runtime::Strcpy, vec![buf, a], with_number("sc.cpy.", n, "").as_str(), "strcpy call failed: ")?;
        let _ = self.call_runtime(Runtime::Strcat, vec![buf, b], with_number("sc.cat.", n, "").as_str(), "strcat call failed: ")?;
        self.bind(result.0, buf);
        Ok(())
    }

    /// `string_starts_with(s, p)`: `strncmp(s, p, strlen(p)) == 0`, as an
    /// `i1`.
    fn lower_starts_with(&mut self, args: &Vec<Value>, result: Value) -> (r: Result<(), CodegenError>)
        requires
            old(self).wf(),
            args@.len() >= 2,
        ensures
            final(self).step(old(self)),
            r is Ok ==> final(self).defined(result.0),
            first_missing(old(self), seq![args@[0].0, args@[1].0]) matches Some(v) ==> (r matches Err(e) && e.message@ == missing_value_msg(v)),
    {
        let s = self.resolve_value(args[0])?;
        let p = self.resolve_value(args[1])?;
        let n = value_number(result);
        let len = self.call_runtime_value(Runtime::Strlen, vec![p], with_number("ssw.strlen.", n, "").as_str(), "strlen call failed: ", "strlen returned no value")?;
        let c = self.call_runtime_value(Runtime::Strncmp, vec![s, p, len], with_number("ssw.strncmp.", n, "").as_str(), "strncmp call failed: ", "strncmp returned no value")?;
        let ci = match int_of(c) {
            Some(x) => x,
            None => {
                return Err(CodegenError::from_str("strncmp returned a non-integer value"));
            },
        };
        let zero = const_int(self.context, LTy::I32, 0, false);
        match build_int_compare(&mut self.builder, IPred::Eq, ci, zero, with_number("ssw.cmp.", n, "").as_str()) {
            Ok(v) => {
                self.bind(result.0, int_basic(v));
                Ok(())
            },
            Err(e) => Err(CodegenError::from_string(with_text("strncmp cmp failed: ", e.as_str(), ""))),
        }
    }

    /// `string_ends_with(s, x)`: `strncmp(s + (strlen(s) - strlen(x)), x,
    /// strlen(x)) == 0`, zero-extended to an `i8` boolean.
    fn lower_ends_with(&mut self, args: &Vec<Value>, result: Value) -> (r: Result<(), CodegenError>)
        requires
            old(self).wf(),
            args@.len() >= 2,
        ensures
            final(self).step(old(self)),
            r is Ok ==> final(self).defined(result.0),
            first_missing(old(self), seq![args@[0].0, args@[1].0]) matches Some(v) ==> (r matches Err(e) && e.message@ == missing_value_msg(v)),
    {
        let s = self.resolve_value(args[0])?;
        let x = self.resolve_value(args[1])?;
        let n = value_number(result);
        let sl = self.call_runtime_value(Runtime::Strlen, vec![s], with_number("sew.slen.", n, "").as_str(), "strlen(s) failed: ", "strlen(s) returned no value")?;
        let xl = self.call_runtime_value(Runtime::Strlen, vec![x], with_number("sew.suflen.", n, "").as_str(), "strlen(suffix) failed: ", "strlen(suffix) returned no value")?;
        let (sl, xl) = match (int_of(sl), int_of(xl)) {
            (Some(a), Some(b)) => (a, b),
            _ => {
                return Err(CodegenError::from_str("strlen returned a non-integer value"));
            },
        };
        let off = match build_int_sub(&mut self.builder, sl, xl, with_number("sew.off.", n, "").as_str()) {
            Ok(o) => o,
            Err(e) => {
                return Err(CodegenError::from_string(with_text("len sub failed: ", e.as_str(), "")));
            },
        };
        let sp = match ptr_of(s) {
            Some(p) => p,
            None => {
                return Err(CodegenError::from_str("built-in 'string_ends_with' called with an argument of the wrong type"));
            },
        };
        let tail_name = with_number("sew.tail.", n, "");
        let sp_int = match crate::llemit::build_ptr_to_int(&mut self.builder, self.context, sp, tail_name.as_str()) {
            Ok(v) => v,
            Err(e) => {
                return Err(CodegenError::from_string(with_text("tail gep failed: ", e.as_str(), "")));
            },
        };
        let tail_int = match build_int_add(&mut self.builder, sp_int, off, tail_name.as_str()) {
            Ok(v) => v,
            Err(e) => {
                return Err(CodegenError::from_string(with_text("tail gep failed: ", e.as_str(), "")));
            },
        };
        let tail = match crate::llemit::build_int_to_ptr(&mut self.builder, self.context, tail_int, tail_name.as_str()) {
            Ok(v) => v,
            Err(e) => {
                return Err(CodegenError::from_string(with_text("tail gep failed: ", e.as_str(), "")));
            },
        };
        let c = self.call_runtime_value(Runtime::Strncmp, vec![ptr_basic(tail), x, int_basic(xl)], with_number("sew.strncmp.", n, "").as_str(), "strncmp call failed: ", "strncmp returned no value")?;
        let ci = match int_of(c) {
            Some(v) => v,
            None => {
                return Err(CodegenError::from_str("strncmp returned a non-integer value"));
            },
        };
        let zero = const_int(self.context, LTy::I32, 0, false);
        let m = match build_int_compare(&mut self.builder, IPred::Eq, ci, zero, with_number("sew.cmp.", n, "").as_str()) {
            Ok(v) => v,
            Err(e) => {
                return Err(CodegenError::from_string(with_text("strncmp cmp failed: ", e.as_str(), "")));
            },
        };
        self.bind_zext_bool(m, with_number("sew.zext.", n, "").as_str(), result)
    }

    /// `pow(base, exp)`: a loop in three new blocks of the current function
    /// (header, body, exit) that multiplies an accumulator starting at 1 by
    /// `base` while a counter from 0 is below `exp`; the builder ends in the
    /// exit block and `result` is the accumulator.
    fn lower_pow(&mut self, args: &Vec<Value>, result: Value) -> (r: Result<(), CodegenError>)
        requires
            old(self).wf(),
            args@.len() >= 2,
        ensures
            final(self).step(old(self)),
            r is Ok ==> final(self).defined(result.0),
            !old(self).defined(args@[0].0) ==> (r matches Err(e) && e.message@ == missing_value_msg(args@[0].0)),
    {
        let base = self.int_arg("pow", args, 0)?;
        let exp = self.int_arg("pow", args, 1)?;
        let n = value_number(result);
        let zero = const_int(self.context, LTy::I64, 0, false);
        let one = const_int(self.context, LTy::I64, 1, false);
        let entry = match self.insert_block {
            Some(b) => b,
            None => {
                return Err(CodegenError::from_str("No current block for pow"));
            },
        };
        let f = match self.current_fn {
            Some(f) => f,
            None => {
                return Err(CodegenError::from_str("Insert block has no parent function"));
            },
        };
        let header = append_block(self.context, f, with_number("pow.header.", n, "").as_str());
        let body = append_block(self.context, f, with_number("pow.body.", n, "").as_str());
        let exit = append_block(self.context, f, with_number("pow.exit.", n, "").as_str());
        match build_br(&mut self.builder, header) {
            Ok(()) => {},
            Err(e) => {
                return Err(CodegenError::from_string(with_text("pow entry jump failed: ", e.as_str(), "")));
            },
        }
        position_at_end(&mut self.builder, header);
        self.insert_block = Some(header);
        self.current = None;
        let i_phi = match build_phi(&mut self.builder, self.context, LTy::I64, with_number("pow.i.", n, "").as_str()) {
            Ok(p) => p,
            Err(e) => {
                return Err(CodegenError::from_string(with_text("pow i phi failed: ", e.as_str(), "")));
            },
        };
        let acc_phi = match build_phi(&mut self.builder, self.context, LTy::I64, with_number("pow.acc.", n, "").as_str()) {
            Ok(p) => p,
            Err(e) => {
                return Err(CodegenError::from_string(with_text("pow acc phi failed: ", e.as_str(), "")));
            },
        };
        phi_add_incoming(&mut self.builder, i_phi, int_basic(zero), entry);
        phi_add_incoming(&mut self.builder, acc_phi, int_basic(one), entry);
        let (i_val, acc_val) = match (int_of(phi_basic(i_phi)), int_of(phi_basic(acc_phi))) {
            (Some(a), Some(b)) => (a, b),
            _ => {
                return Err(CodegenError::from_str("pow phi is not an integer"));
            },
        };
        let c = match build_int_compare(&mut self.builder, IPred::Slt, i_val, exp, with_number("pow.cmp.", n, "").as_str()) {
            Ok(c) => c,
            Err(e) => {
                return Err(CodegenError::from_string(with_text("pow cmp failed: ", e.as_str(), "")));
            },
        };
        match build_cond_br(&mut self.builder, c, body, exit) {
            Ok(()) => {},
            Err(e) => {
                return Err(CodegenError::from_string(with_text("pow header brif failed: ", e.as_str(), "")));
            },
        }
        position_at_end(&mut self.builder, body);
        self.insert_block = Some(body);
        let new_acc = match build_int_mul(&mut self.builder, acc_val, base, with_number("pow.mul.", n, "").as_str()) {
            Ok(v) => v,
            Err(e) => {
                return Err(CodegenError::from_string(with_text("pow mul failed: ", e.as_str(), "")));
            },
        };
        let next_i = match build_int_add(&mut self.builder, i_val, one, with_number("pow.inc.", n, "").as_str()) {
            Ok(v) => v,
            Err(e) => {
                return Err(CodegenError::from_string(with_text("pow inc failed: ", e.as_str(), "")));
            },
        };
        match build_br(&mut self.builder, header) {
            Ok(()) => {},
            Err(e) => {
                return Err(CodegenError::from_string(with_text("pow body jump failed: ", e.as_str(), "")));
            },
        }
        phi_add_incoming(&mut self.builder, i_phi, int_basic(next_i), body);
        phi_add_incoming(&mut self.builder, acc_phi, int_basic(new_acc), body);
        position_at_end(&mut self.builder, exit);
        self.insert_block = Some(exit);
        self.bind(result.0, int_basic(acc_val));
        Ok(())
    }
}


impl<'ctx> LlvmCodegen<'ctx> {
    /// Lowers a call of built-in `name`, when it is one: `Ok(false)` (and
    /// nothing done) for any other name, and an error when the call has
    /// fewer arguments than the built-in reads.
    pub(crate) fn lower_builtin_call(&mut self, name: &str, result: Value, args: &Vec<Value>) -> (r: Result<bool, CodegenError>)
        requires
            old(self).wf(),
        ensures
            final(self).step(old(self)),
            spec_builtin_of(name@) is None ==> r == Ok::<bool, CodegenError>(false) && *final(self) == *old(self),
            spec_builtin_of(name@) matches Some(b) ==> (args@.len() < spec_builtin_arity(b)
                ==> (r matches Err(e) && e.message@ == arity_msg(name@))),
            spec_builtin_of(name@) matches Some(b) ==> (args@.len() >= spec_builtin_arity(b)
                ==> (first_missing(old(self), builtin_leading(b, args@)) matches Some(v)
                ==> (r matches Err(e) && e.message@ == missing_value_msg(v)))),
            r matches Ok(x) ==> x == (spec_builtin_of(name@) is Some),
            spec_builtin_of(name@) matches Some(b) ==> (r is Ok ==> math_trace(b, old(self).trace(), final(self).trace())),
    {
        let b = match builtin_of(name) {
            Some(b) => b,
            None => {
                return Ok(false);
            },
        };
        if args.len() < builtin_arity(b) {
            return Err(CodegenError::from_string(with_text("built-in '", name, "' called with too few arguments")));
        }
        self.lower_builtin(b, name, result, args)?;
        Ok(true)
    }

    /// Lowers built-in `b` (called as `name`) with at least as many
    /// arguments as it reads.
    fn lower_builtin(&mut self, b: LlBuiltin, name: &str, result: Value, args: &Vec<Value>) -> (r: Result<(), CodegenError>)
        requires
            old(self).wf(),
            args@.len() >= spec_builtin_arity(b),
        ensures
            final(self).step(old(self)),
            r is Ok ==> math_trace(b, old(self).trace(), final(self).trace()),
            first_missing(old(self), builtin_leading(b, args@)) matches Some(v) ==> (r matches Err(e) && e.message@ == missing_value_msg(v)),
    {
        match b {
            LlBuiltin::PrintInt | LlBuiltin::PrintFloat | LlBuiltin::PrintBool | LlBuiltin::Print | LlBuiltin::Println
            | LlBuiltin::BoolToString => self.lower_print_builtin(b, name, result, args),
            LlBuiltin::Abs | LlBuiltin::Min | LlBuiltin::Max | LlBuiltin::ModInt | LlBuiltin::IntToFloat
            | LlBuiltin::FloatToInt | LlBuiltin::Pow => self.lower_math_builtin(b, name, result, args),
            LlBuiltin::IntToString | LlBuiltin::FloatToString | LlBuiltin::StringLength | LlBuiltin::StringConcat
            | LlBuiltin::StringContains | LlBuiltin::StringStartsWith | LlBuiltin::StringEq
            | LlBuiltin::StringEndsWith => self.lower_string_builtin(b, name, result, args),
            _ => self.lower_runtime_builtin(b, name, result, args),
        }
    }

    /// The printing built-ins and `bool_to_string`.
    fn lower_print_builtin(&mut self, b: LlBuiltin, name: &str, result: Value, args: &Vec<Value>) -> (r: Result<(), CodegenError>)
        requires
            old(self).wf(),
            args@.len() >= spec_builtin_arity(b),
            b == LlBuiltin::PrintInt || b == LlBuiltin::PrintFloat || b == LlBuiltin::PrintBool || b == LlBuiltin::Print
                || b == LlBuiltin::Println || b == LlBuiltin::BoolToString,
        ensures
            final(self).step(old(self)),
            first_missing(old(self), builtin_leading(b, args@)) matches Some(v) ==> (r matches Err(e) && e.message@ == missing_value_msg(v)),
    {
        let n = value_number(result);
        match b {
            LlBuiltin::PrintInt => {
                let x = self.resolve_value(args[0])?;
                self.print_with("%ld", x, result)
            },
            LlBuiltin::PrintFloat => {
                let x = self.resolve_value(args[0])?;
                self.print_with("%.6f", x, result)
            },
            LlBuiltin::Print => {
                let x = self.resolve_value(args[0])?;
                self.print_with("%s", x, result)
            },
            LlBuiltin::PrintBool => {
                let bv = self.int_arg(name, args, 0)?;
                let s = self.select_bool_text(bv, "bool.cond", "bool.str")?;
                self.print_with("%s", s, result)
            },
            LlBuiltin::Println => {
                let x = self.resolve_value(args[0])?;
                let v = self.call_runtime(Runtime::Puts, vec![x], with_number("call.", n, "").as_str(), "puts call failed: ")?;
                self.bind_opt(result, v);
                Ok(())
            },
            _ => {
                let bv = self.int_arg(name, args, 0)?;
                let s = self.select_bool_text(bv, with_number("bts.cond.", n, "").as_str(), with_number("bts.sel.", n, "").as_str())?;
                self.bind(result.0, s);
                Ok(())
            },
        }
    }

    /// Integer and float arithmetic built-ins.
    fn lower_math_builtin(&mut self, b: LlBuiltin, name: &str, result: Value, args: &Vec<Value>) -> (r: Result<(), CodegenError>)
        requires
            old(self).wf(),
            args@.len() >= spec_builtin_arity(b),
            b == LlBuiltin::Abs || b == LlBuiltin::Min || b == LlBuiltin::Max || b == LlBuiltin::ModInt
                || b == LlBuiltin::IntToFloat || b == LlBuiltin::FloatToInt || b == LlBuiltin::Pow,
        ensures
            final(self).step(old(self)),
            r is Ok ==> math_trace(b, old(self).trace(), final(self).trace()),
            first_missing(old(self), builtin_leading(b, args@)) matches Some(v) ==> (r matches Err(e) && e.message@ == missing_value_msg(v)),
    {
        let n = value_number(result);
        match b {
            LlBuiltin::Abs => {
                let x = self.int_arg(name, args, 0)?;
                let zero = zero_like(x);
                let neg = match build_int_sub(&mut self.builder, zero, x, "abs.neg") {
                    Ok(v) => v,
                    Err(e) => {
                        return Err(CodegenError::from_string(with_text("abs neg failed: ", e.as_str(), "")));
                    },
                };
                let is_neg = match build_int_compare(&mut self.builder, IPred::Slt, x, zero, "abs.is_neg") {
                    Ok(v) => v,
                    Err(e) => {
                        return Err(CodegenError::from_string(with_text("abs cmp failed: ", e.as_str(), "")));
                    },
                };
                match build_select(&mut self.builder, is_neg, int_basic(neg), int_basic(x), with_number("abs.", n, "").as_str()) {
                    Ok(v) => {
                        self.bind(result.0, v);
                        Ok(())
                    },
                    Err(e) => Err(CodegenError::from_string(with_text("abs select failed: ", e.as_str(), ""))),
                }
            },
            LlBuiltin::Min => {
                let x = self.int_arg(name, args, 0)?;
                let y = self.int_arg(name, args, 1)?;
                self.min_max(x, y, IPred::Slt, "min.cmp", result, "min")
            },
            LlBuiltin::Max => {
                let x = self.int_arg(name, args, 0)?;
                let y = self.int_arg(name, args, 1)?;
                self.min_max(x, y, IPred::Sgt, "max.cmp", result, "max")
            },
            LlBuiltin::ModInt => {
                let x = self.int_arg(name, args, 0)?;
                let y = self.int_arg(name, args, 1)?;
                let d = match build_int_signed_div(&mut self.builder, x, y, "mod.div") {
                    Ok(v) => v,
                    Err(e) => {
                        return Err(CodegenError::from_string(with_text("mod sdiv failed: ", e.as_str(), "")));
                    },
                };
                let m = match build_int_mul(&mut self.builder, d, y, "mod.mul") {
                    Ok(v) => v,
                    Err(e) => {
                        return Err(CodegenError::from_string(with_text("mod imul failed: ", e.as_str(), "")));
                    },
                };
                match build_int_sub(&mut self.builder, x, m, with_number("mod.", n, "").as_str()) {
                    Ok(v) => {
                        self.bind(result.0, int_basic(v));
                        Ok(())
                    },
                    Err(e) => Err(CodegenError::from_string(with_text("mod isub failed: ", e.as_str(), ""))),
                }
            },
            LlBuiltin::IntToFloat => {
                let x = self.int_arg(name, args, 0)?;
                match build_signed_int_to_float(&mut self.builder, self.context, x, with_number("itof.", n, "").as_str()) {
                    Ok(v) => {
                        self.bind(result.0, v);
                        Ok(())
                    },
                    Err(e) => Err(CodegenError::from_string(with_text("int_to_float failed: ", e.as_str(), ""))),
                }
            },
            LlBuiltin::FloatToInt => {
                let x = self.float_arg(name, args, 0)?;
                match build_float_to_signed_int(&mut self.builder, self.context, x, with_number("ftoi.", n, "").as_str()) {
                    Ok(v) => {
                        self.bind(result.0, v);
                        Ok(())
                    },
                    Err(e) => Err(CodegenError::from_string(with_text("float_to_int failed: ", e.as_str(), ""))),
                }
            },
            _ => self.lower_pow(args, result),
        }
    }

    /// The string built-ins.
    fn lower_string_builtin(&mut self, b: LlBuiltin, name: &str, result: Value, args: &Vec<Value>) -> (r: Result<(), CodegenError>)
        requires
            old(self).wf(),
            args@.len() >= spec_builtin_arity(b),
            b == LlBuiltin::IntToString || b == LlBuiltin::FloatToString || b == LlBuiltin::StringLength
                || b == LlBuiltin::StringConcat || b == LlBuiltin::StringContains || b == LlBuiltin::StringStartsWith
                || b == LlBuiltin::StringEq || b == LlBuiltin::StringEndsWith,
        ensures
            final(self).step(old(self)),
            first_missing(old(self), builtin_leading(b, args@)) matches Some(v) ==> (r matches Err(e) && e.message@ == missing_value_msg(v)),
    {
        let n = value_number(result);
        match b {
            LlBuiltin::IntToString => {
                let x = self.int_arg(name, args, 0)?;
                self.format_into_buffer(32, "%ld", int_basic(x), result, "its")
            },
            LlBuiltin::FloatToString => {
                let x = self.float_arg(name, args, 0)?;
                self.format_into_buffer(64, "%g", crate::llemit::float_basic(x), result, "fts")
            },
            LlBuiltin::StringLength => {
                let x = self.resolve_value(args[0])?;
                let v = self.call_runtime(Runtime::Strlen, vec![x], with_number("call.", n, "").as_str(), "strlen call failed: ")?;
                self.bind_opt(result, v);
                Ok(())
            },
            LlBuiltin::StringConcat => self.lower_string_concat(args, result),
            LlBuiltin::StringContains => {
                let s = self.resolve_value(args[0])?;
                let sub = self.resolve_value(args[1])?;
                let p = self.call_runtime_value(Runtime::Strstr, vec![s, sub], with_number("sc.strstr.", n, "").as_str(), "strstr call failed: ", "strstr returned no value")?;
                let pp = match ptr_of(p) {
                    Some(q) => q,
                    None => {
                        return Err(CodegenError::from_str("strstr returned a non-pointer value"));
                    },
                };
                match build_is_not_null(&mut self.builder, pp, with_number("sc.cmp.", n, "").as_str()) {
                    Ok(v) => {
                        self.bind(result.0, int_basic(v));
                        Ok(())
                    },
                    Err(e) => Err(CodegenError::from_string(with_text("ptr cmp failed: ", e.as_str(), ""))),
                }
            },
            LlBuiltin::StringStartsWith => self.lower_starts_with(args, result),
            LlBuiltin::StringEq => {
                let x = self.resolve_value(args[0])?;
                let y = self.resolve_value(args[1])?;
                let c = self.call_runtime_value(Runtime::Strcmp, vec![x, y], with_number("seq.strcmp.", n, "").as_str(), "strcmp call failed: ", "strcmp returned no value")?;
                let ci = match int_of(c) {
                    Some(v) => v,
                    None => {
                        return Err(CodegenError::from_str("strcmp returned a non-integer value"));
                    },
                };
                let zero = const_int(self.context, LTy::I32, 0, false);
                let eq = match build_int_compare(&mut self.builder, IPred::Eq, ci, zero, with_number("seq.cmp.", n, "").as_str()) {
                    Ok(v) => v,
                    Err(e) => {
                        return Err(CodegenError::from_string(with_text("strcmp cmp failed: ", e.as_str(), "")));
                    },
                };
                self.bind_zext_bool(eq, with_number("seq.zext.", n, "").as_str(), result)
            },
            _ => self.lower_ends_with(args, result),
        }
    }

    /// The built-ins that call one runtime function: `now_ms`, `float_abs`,
    /// `float_sqrt`, `sleep`, `sleep_seconds`, `time_string`, `date_string`
    /// and the `datetime_*` fields.
    fn lower_runtime_builtin(&mut self, b: LlBuiltin, name: &str, result: Value, args: &Vec<Value>) -> (r: Result<(), CodegenError>)
        requires
            old(self).wf(),
            args@.len() >= spec_builtin_arity(b),
            b == LlBuiltin::NowMs || b == LlBuiltin::FloatAbs || b == LlBuiltin::FloatSqrt || b == LlBuiltin::Sleep
                || b == LlBuiltin::SleepSeconds || b == LlBuiltin::TimeString || b == LlBuiltin::DateString
                || b == LlBuiltin::DatetimeYear || b == LlBuiltin::DatetimeMonth || b == LlBuiltin::DatetimeDay,
        ensures
            final(self).step(old(self)),
            first_missing(old(self), builtin_leading(b, args@)) matches Some(v) ==> (r matches Err(e) && e.message@ == missing_value_msg(v)),
    {
        let n = value_number(result);
        match b {
            LlBuiltin::NowMs => {
                let v = self.call_runtime(Runtime::NowMs, Vec::new(), with_number("call.", n, "").as_str(), "now_ms call failed: ")?;
                self.bind_opt(result, v);
                Ok(())
            },
            LlBuiltin::FloatAbs => {
                let x = self.resolve_value(args[0])?;
                let v = self.call_runtime_value(Runtime::Fabs, vec![x], with_number("fabs.call.", n, "").as_str(), "fabs call failed: ", "fabs returned no value")?;
                self.bind(result.0, v);
                Ok(())
            },
            LlBuiltin::FloatSqrt => {
                let x = self.resolve_value(args[0])?;
                let v = self.call_runtime_value(Runtime::Sqrt, vec![x], with_number("sqrt.call.", n, "").as_str(), "sqrt call failed: ", "sqrt returned no value")?;
                self.bind(result.0, v);
                Ok(())
            },
            LlBuiltin::Sleep | LlBuiltin::SleepSeconds => {
                let x = self.resolve_value(args[0])?;
                let (rt, nm, what) = if b == LlBuiltin::Sleep {
                    (Runtime::Sleep, with_number("sleep.call.", n, ""), "__gradient_sleep call failed: ")
                } else {
                    (Runtime::SleepSeconds, with_number("sleeps.call.", n, ""), "__gradient_sleep_seconds call failed: ")
                };
                let _ = self.call_runtime(rt, vec![x], nm.as_str(), what)?;
                let dummy = const_int(self.context, LTy::I8, 0, false);
                self.bind(result.0, int_basic(dummy));
                Ok(())
            },
            LlBuiltin::TimeString => {
                let v = self.call_runtime(Runtime::TimeString, Vec::new(), with_number("time_str.", n, "").as_str(), "__gradient_time_string call failed: ")?;
                self.bind_opt(result, v);
                Ok(())
            },
            LlBuiltin::DateString => {
                let v = self.call_runtime(Runtime::DateString, Vec::new(), with_number("date_str.", n, "").as_str(), "__gradient_date_string call failed: ")?;
                self.bind_opt(result, v);
                Ok(())
            },
            _ => {
                let ts = self.resolve_value(args[0])?;
                let (rt, what) = if b == LlBuiltin::DatetimeYear {
                    (Runtime::DatetimeYear, "__gradient_datetime_year call failed: ")
                } else if b == LlBuiltin::DatetimeMonth {
                    (Runtime::DatetimeMonth, "__gradient_datetime_month call failed: ")
                } else {
                    (Runtime::DatetimeDay, "__gradient_datetime_day call failed: ")
                };
                let v = self.call_runtime(rt, vec![ts], with_number("dt.", n, "").as_str(), what)?;
                self.bind_opt(result, v);
                Ok(())
            },
        }
    }
}

} // verus!
