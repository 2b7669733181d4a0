//! Built-in operations of the Cranelift backend that are one call of a C
//! library or runtime function: the arguments are passed on, and the
//! result is used as it comes, narrowed to a boolean byte, widened to a
//! 64-bit integer, or replaced by a unit byte.

use vstd::prelude::*;
use crate::clinst::{first_missing, slots_of};
use crate::clmem::not_declared_msg;
use crate::clplan::{not_found_msg, ClPlanner};
use crate::ir::Value;
use crate::mach::{decl_index, Conv, Decl, MTy, Op, Span};
use crate::text::str_eq;

verus! {

/// What is done with a runtime call's result.
#[derive(Clone, Copy, Debug, PartialEq, Eq, Structural)]
pub enum Post {
    /// The result is the built-in's value.
    Result,
    /// The result, narrowed to 8 bits, is a boolean.
    ReduceI8,
    /// The result, sign-extended to 64 bits, is an integer.
    SExtendI64,
    /// The result is discarded; the built-in's value is the unit byte 0.
    UnitI8,
}

/// A built-in that calls runtime function `callee` with its first `nargs`
/// arguments.
pub struct RuntimeCall {
    pub callee: &'static str,
    pub nargs: usize,
    pub post: Post,
}

/// Built-ins that are one call of a runtime function (part 1 of 5).
pub open spec fn spec_string_runtime_call(name: Seq<char>) -> Option<(Seq<char>, nat, Post)> {
    if name == "string_length"@ {
        Some(("strlen"@, 1nat, Post::Result))
    } else if name == "string_trim"@ {
        Some(("__gradient_string_trim"@, 1nat, Post::Result))
    } else if name == "string_append"@ {
        Some(("__gradient_string_append"@, 2nat, Post::Result))
    } else if name == "string_split"@ {
        Some(("__gradient_string_split"@, 2nat, Post::Result))
    } else if name == "string_join"@ {
        Some(("__gradient_string_join"@, 2nat, Post::Result))
    } else if name == "string_repeat"@ {
        Some(("__gradient_string_repeat"@, 2nat, Post::Result))
    } else if name == "string_pad_left"@ {
        Some(("__gradient_string_pad_left"@, 3nat, Post::Result))
    } else if name == "string_pad_right"@ {
        Some(("__gradient_string_pad_right"@, 3nat, Post::Result))
    } else if name == "string_strip"@ {
        Some(("__gradient_string_strip"@, 1nat, Post::Result))
    } else if name == "string_strip_prefix"@ {
        Some(("__gradient_string_strip_prefix"@, 2nat, Post::Result))
    } else if name == "string_strip_suffix"@ {
        Some(("__gradient_string_strip_suffix"@, 2nat, Post::Result))
    } else if name == "string_to_int"@ {
        Some(("__gradient_string_to_int"@, 1nat, Post::Result))
    } else if name == "string_to_float"@ {
        Some(("__gradient_string_to_float"@, 1nat, Post::Result))
    } else if name == "string_format"@ {
        Some(("__gradient_string_format"@, 2nat, Post::Result))
    } else if name == "string_is_empty"@ {
        Some(("__gradient_string_is_empty"@, 1nat, Post::ReduceI8))
    } else if name == "string_reverse"@ {
        Some(("__gradient_string_reverse"@, 1nat, Post::Result))
    } else if name == "string_compare"@ {
        Some(("__gradient_string_compare"@, 2nat, Post::Result))
    } else if name == "string_find"@ {
        Some(("__gradient_string_find"@, 2nat, Post::Result))
    } else if name == "string_slice"@ {
        Some(("__gradient_string_slice"@, 3nat, Post::Result))
    } else if name == "file_read"@ {
        Some(("__gradient_file_read"@, 1nat, Post::Result))
    } else if name == "file_write"@ {
        Some(("__gradient_file_write"@, 2nat, Post::Result))
    } else if name == "file_exists"@ {
        Some(("__gradient_file_exists"@, 1nat, Post::Result))
    } else {
        spec_io_runtime_call(name)
    }
}

/// Built-ins that are one call of a runtime function (part 2 of 5).
pub open spec fn spec_io_runtime_call(name: Seq<char>) -> Option<(Seq<char>, nat, Post)> {
    if name == "file_append"@ {
        Some(("__gradient_file_append"@, 2nat, Post::Result))
    } else if name == "file_delete"@ {
        Some(("__gradient_file_delete"@, 1nat, Post::Result))
    } else if name == "http_get"@ {
        Some(("__gradient_http_get"@, 1nat, Post::Result))
    } else if name == "http_post"@ {
        Some(("__gradient_http_post"@, 2nat, Post::Result))
    } else if name == "http_post_json"@ {
        Some(("__gradient_http_post_json"@, 2nat, Post::Result))
    } else if name == "json_stringify"@ {
        Some(("__gradient_json_stringify"@, 1nat, Post::Result))
    } else if name == "json_type"@ {
        Some(("__gradient_json_type"@, 1nat, Post::Result))
    } else if name == "json_is_null"@ {
        Some(("__gradient_json_is_null"@, 1nat, Post::ReduceI8))
    } else if name == "json_has"@ {
        Some(("__gradient_json_has"@, 2nat, Post::ReduceI8))
    } else if name == "json_keys"@ {
        Some(("__gradient_json_keys"@, 1nat, Post::Result))
    } else if name == "json_len"@ {
        Some(("__gradient_json_len"@, 1nat, Post::Result))
    } else if name == "json_as_string"@ {
        Some(("__gradient_json_as_string"@, 1nat, Post::Result))
    } else if name == "json_as_int"@ {
        Some(("__gradient_json_as_int"@, 1nat, Post::Result))
    } else if name == "json_as_float"@ {
        Some(("__gradient_json_as_float"@, 1nat, Post::Result))
    } else if name == "json_as_bool"@ {
        Some(("__gradient_json_as_bool"@, 1nat, Post::Result))
    } else if name == "random"@ {
        Some(("__gradient_random"@, 0nat, Post::Result))
    } else if name == "random_int"@ {
        Some(("__gradient_random_int"@, 2nat, Post::Result))
    } else if name == "random_float"@ {
        Some(("__gradient_random_float"@, 0nat, Post::Result))
    } else if name == "seed_random"@ {
        Some(("__gradient_seed_random"@, 1nat, Post::UnitI8))
    } else if name == "now"@ {
        Some(("__gradient_now"@, 0nat, Post::Result))
    } else if name == "now_ms"@ {
        Some(("__gradient_now_ms"@, 0nat, Post::Result))
    } else if name == "sleep"@ {
        Some(("__gradient_sleep"@, 1nat, Post::UnitI8))
    } else {
        spec_time_runtime_call(name)
    }
}

/// Built-ins that are one call of a runtime function (part 3 of 5).
pub open spec fn spec_time_runtime_call(name: Seq<char>) -> Option<(Seq<char>, nat, Post)> {
    if name == "time_string"@ {
        Some(("__gradient_time_string"@, 0nat, Post::Result))
    } else if name == "date_string"@ {
        Some(("__gradient_date_string"@, 0nat, Post::Result))
    } else if name == "datetime_year"@ {
        Some(("__gradient_datetime_year"@, 1nat, Post::Result))
    } else if name == "datetime_month"@ {
        Some(("__gradient_datetime_month"@, 1nat, Post::Result))
    } else if name == "datetime_day"@ {
        Some(("__gradient_datetime_day"@, 1nat, Post::Result))
    } else if name == "get_env"@ {
        Some(("__gradient_get_env"@, 1nat, Post::Result))
    } else if name == "set_env"@ {
        Some(("__gradient_set_env"@, 2nat, Post::UnitI8))
    } else if name == "current_dir"@ {
        Some(("__gradient_current_dir"@, 0nat, Post::Result))
    } else if name == "change_dir"@ {
        Some(("__gradient_change_dir"@, 1nat, Post::UnitI8))
    } else if name == "process_id"@ {
        Some(("getpid"@, 0nat, Post::Result))
    } else if name == "system"@ {
        Some(("system"@, 1nat, Post::Result))
    } else if name == "sleep_seconds"@ {
        Some(("__gradient_sleep_seconds"@, 1nat, Post::UnitI8))
    } else if name == "option_is_some"@ {
        Some(("__gradient_option_is_some"@, 1nat, Post::ReduceI8))
    } else if name == "option_is_none"@ {
        Some(("__gradient_option_is_none"@, 1nat, Post::ReduceI8))
    } else if name == "option_unwrap"@ {
        Some(("__gradient_option_unwrap"@, 1nat, Post::Result))
    } else if name == "option_unwrap_or"@ {
        Some(("__gradient_option_unwrap_or"@, 2nat, Post::Result))
    } else if name == "queue_new"@ {
        Some(("__gradient_queue_new"@, 0nat, Post::Result))
    } else if name == "queue_enqueue"@ {
        Some(("__gradient_queue_enqueue"@, 2nat, Post::Result))
    } else if name == "queue_dequeue"@ {
        Some(("__gradient_queue_dequeue"@, 1nat, Post::Result))
    } else if name == "queue_peek"@ {
        Some(("__gradient_queue_peek"@, 1nat, Post::Result))
    } else if name == "queue_size"@ {
        Some(("__gradient_queue_size"@, 1nat, Post::Result))
    } else if name == "stack_new"@ {
        Some(("__gradient_stack_new"@, 0nat, Post::Result))
    } else {
        spec_collection_runtime_call(name)
    }
}

/// Built-ins that are one call of a runtime function (part 4 of 5).
pub open spec fn spec_collection_runtime_call(name: Seq<char>) -> Option<(Seq<char>, nat, Post)> {
    if name == "stack_push"@ {
        Some(("__gradient_stack_push"@, 2nat, Post::Result))
    } else if name == "stack_pop"@ {
        Some(("__gradient_stack_pop"@, 1nat, Post::Result))
    } else if name == "stack_peek"@ {
        Some(("__gradient_stack_peek"@, 1nat, Post::Result))
    } else if name == "stack_size"@ {
        Some(("__gradient_stack_size"@, 1nat, Post::Result))
    } else if name == "read_line"@ {
        Some(("__gradient_read_line"@, 0nat, Post::Result))
    } else if name == "parse_int"@ {
        Some(("atoi"@, 1nat, Post::SExtendI64))
    } else if name == "parse_float"@ {
        Some(("atof"@, 1nat, Post::Result))
    } else if name == "args"@ {
        Some(("__gradient_get_args"@, 0nat, Post::Result))
    } else if name == "map_new"@ {
        Some(("__gradient_map_new"@, 0nat, Post::Result))
    } else if name == "map_contains"@ {
        Some(("__gradient_map_contains"@, 2nat, Post::ReduceI8))
    } else if name == "map_remove"@ {
        Some(("__gradient_map_remove"@, 2nat, Post::Result))
    } else if name == "map_size"@ {
        Some(("__gradient_map_size"@, 1nat, Post::Result))
    } else if name == "map_keys"@ {
        Some(("__gradient_map_keys"@, 1nat, Post::Result))
    } else if name == "set_to_list"@ {
        Some(("__gradient_set_to_list"@, 1nat, Post::Result))
    } else if name == "set_new"@ {
        Some(("__gradient_set_new"@, 0nat, Post::Result))
    } else if name == "set_add"@ {
        Some(("__gradient_set_add"@, 2nat, Post::Result))
    } else if name == "set_remove"@ {
        Some(("__gradient_set_remove"@, 2nat, Post::Result))
    } else if name == "set_contains"@ {
        Some(("__gradient_set_contains"@, 2nat, Post::ReduceI8))
    } else if name == "set_size"@ {
        Some(("__gradient_set_size"@, 1nat, Post::Result))
    } else if name == "set_union"@ {
        Some(("__gradient_set_union"@, 2nat, Post::Result))
    } else if name == "set_intersection"@ {
        Some(("__gradient_set_intersection"@, 2nat, Post::Result))
    } else if name == "sin"@ {
        Some(("sin"@, 1nat, Post::Result))
    } else if name == "cos"@ {
        Some(("cos"@, 1nat, Post::Result))
    } else {
        spec_math_runtime_call(name)
    }
}

/// Built-ins that are one call of a runtime function (part 5 of 5).
pub open spec fn spec_math_runtime_call(name: Seq<char>) -> Option<(Seq<char>, nat, Post)> {
    if name == "tan"@ {
        Some(("tan"@, 1nat, Post::Result))
    } else if name == "asin"@ {
        Some(("asin"@, 1nat, Post::Result))
    } else if name == "acos"@ {
        Some(("acos"@, 1nat, Post::Result))
    } else if name == "atan"@ {
        Some(("atan"@, 1nat, Post::Result))
    } else if name == "atan2"@ {
        Some(("atan2"@, 2nat, Post::Result))
    } else if name == "log"@ {
        Some(("log"@, 1nat, Post::Result))
    } else if name == "log10"@ {
        Some(("log10"@, 1nat, Post::Result))
    } else if name == "log2"@ {
        Some(("log2"@, 1nat, Post::Result))
    } else if name == "exp"@ {
        Some(("exp"@, 1nat, Post::Result))
    } else if name == "exp2"@ {
        Some(("exp2"@, 1nat, Post::Result))
    } else if name == "ceil"@ {
        Some(("ceil"@, 1nat, Post::Result))
    } else if name == "floor"@ {
        Some(("floor"@, 1nat, Post::Result))
    } else if name == "round"@ {
        Some(("round"@, 1nat, Post::Result))
    } else if name == "trunc"@ {
        Some(("trunc"@, 1nat, Post::Result))
    } else if name == "pi"@ {
        Some(("__gradient_pi"@, 0nat, Post::Result))
    } else if name == "e"@ {
        Some(("__gradient_e"@, 0nat, Post::Result))
    } else if name == "gcd"@ {
        Some(("__gradient_gcd"@, 2nat, Post::Result))
    } else if name == "float_mod"@ {
        Some(("fmod"@, 2nat, Post::Result))
    } else {
        None
    }
}

/// The C library functions that built-ins of the same name call.
pub open spec fn c_library_function(name: Seq<char>) -> bool {
    ||| name == "system"@
    ||| name == "sin"@
    ||| name == "cos"@
    ||| name == "tan"@
    ||| name == "asin"@
    ||| name == "acos"@
    ||| name == "atan"@
    ||| name == "atan2"@
    ||| name == "log"@
    ||| name == "log10"@
    ||| name == "log2"@
    ||| name == "exp"@
    ||| name == "exp2"@
    ||| name == "ceil"@
    ||| name == "floor"@
    ||| name == "round"@
    ||| name == "trunc"@
}

/// The built-ins that call a function of another name: the C functions
/// `strlen`, `getpid`, `atoi`, `atof` and `fmod`, and the runtime's
/// argument list.
pub open spec fn c_library_alias(name: Seq<char>, callee: Seq<char>) -> bool {
    ||| name == "string_length"@ && callee == "strlen"@
    ||| name == "process_id"@ && callee == "getpid"@
    ||| name == "parse_int"@ && callee == "atoi"@
    ||| name == "parse_float"@ && callee == "atof"@
    ||| name == "args"@ && callee == "__gradient_get_args"@
    ||| name == "float_mod"@ && callee == "fmod"@
}

/// `callee` is what built-in `name` may call: the C library function of the
/// same name, the alias of the built-in, or the runtime function
/// `__gradient_` followed by the built-in's name.
pub open spec fn callee_named(name: Seq<char>, callee: Seq<char>) -> bool {
    ||| c_library_function(name) && callee == name
    ||| c_library_alias(name, callee)
    ||| callee == "__gradient_"@ + name
}

/// Every built-in of `spec_string_runtime_call` calls the C function of its own name, a
/// C alias of it, or the runtime function of its name.
proof fn lemma_string_callee_named(name: Seq<char>)
    ensures
        spec_string_runtime_call(name) is Some ==> callee_named(name, spec_string_runtime_call(name).unwrap().0),
{
    reveal_strlit("__gradient_");
    if name == "string_length"@ {
    } else if name == "string_trim"@ {
        reveal_strlit("string_trim");
        reveal_strlit("__gradient_string_trim");
        assert("__gradient_string_trim"@ =~= "__gradient_"@ + "string_trim"@);
    } else if name == "string_append"@ {
        reveal_strlit("string_append");
        reveal_strlit("__gradient_string_append");
        assert("__gradient_string_append"@ =~= "__gradient_"@ + "string_append"@);
    } else if name == "string_split"@ {
        reveal_strlit("string_split");
        reveal_strlit("__gradient_string_split");
        assert("__gradient_string_split"@ =~= "__gradient_"@ + "string_split"@);
    } else if name == "string_join"@ {
        reveal_strlit("string_join");
        reveal_strlit("__gradient_string_join");
        assert("__gradient_string_join"@ =~= "__gradient_"@ + "string_join"@);
    } else if name == "string_repeat"@ {
        reveal_strlit("string_repeat");
        reveal_strlit("__gradient_string_repeat");
        assert("__gradient_string_repeat"@ =~= "__gradient_"@ + "string_repeat"@);
    } else if name == "string_pad_left"@ {
        reveal_strlit("string_pad_left");
        reveal_strlit("__gradient_string_pad_left");
        assert("__gradient_string_pad_left"@ =~= "__gradient_"@ + "string_pad_left"@);
    } else if name == "string_pad_right"@ {
        reveal_strlit("string_pad_right");
        reveal_strlit("__gradient_string_pad_right");
        assert("__gradient_string_pad_right"@ =~= "__gradient_"@ + "string_pad_right"@);
    } else if name == "string_strip"@ {
        reveal_strlit("string_strip");
        reveal_strlit("__gradient_string_strip");
        assert("__gradient_string_strip"@ =~= "__gradient_"@ + "string_strip"@);
    } else if name == "string_strip_prefix"@ {
        reveal_strlit("string_strip_prefix");
        reveal_strlit("__gradient_string_strip_prefix");
        assert("__gradient_string_strip_prefix"@ =~= "__gradient_"@ + "string_strip_prefix"@);
    } else if name == "string_strip_suffix"@ {
        reveal_strlit("string_strip_suffix");
        reveal_strlit("__gradient_string_strip_suffix");
        assert("__gradient_string_strip_suffix"@ =~= "__gradient_"@ + "string_strip_suffix"@);
    } else if name == "string_to_int"@ {
        reveal_strlit("string_to_int");
        reveal_strlit("__gradient_string_to_int");
        assert("__gradient_string_to_int"@ =~= "__gradient_"@ + "string_to_int"@);
    } else if name == "string_to_float"@ {
        reveal_strlit("string_to_float");
        reveal_strlit("__gradient_string_to_float");
        assert("__gradient_string_to_float"@ =~= "__gradient_"@ + "string_to_float"@);
    } else if name == "string_format"@ {
        reveal_strlit("string_format");
        reveal_strlit("__gradient_string_format");
        assert("__gradient_string_format"@ =~= "__gradient_"@ + "string_format"@);
    } else if name == "string_is_empty"@ {
        reveal_strlit("string_is_empty");
        reveal_strlit("__gradient_string_is_empty");
        assert("__gradient_string_is_empty"@ =~= "__gradient_"@ + "string_is_empty"@);
    } else if name == "string_reverse"@ {
        reveal_strlit("string_reverse");
        reveal_strlit("__gradient_string_reverse");
        assert("__gradient_string_reverse"@ =~= "__gradient_"@ + "string_reverse"@);
    } else if name == "string_compare"@ {
        reveal_strlit("string_compare");
        reveal_strlit("__gradient_string_compare");
        assert("__gradient_string_compare"@ =~= "__gradient_"@ + "string_compare"@);
    } else if name == "string_find"@ {
        reveal_strlit("string_find");
        reveal_strlit("__gradient_string_find");
        assert("__gradient_string_find"@ =~= "__gradient_"@ + "string_find"@);
    } else if name == "string_slice"@ {
        reveal_strlit("string_slice");
        reveal_strlit("__gradient_string_slice");
        assert("__gradient_string_slice"@ =~= "__gradient_"@ + "string_slice"@);
    } else if name == "file_read"@ {
        reveal_strlit("file_read");
        reveal_strlit("__gradient_file_read");
        assert("__gradient_file_read"@ =~= "__gradient_"@ + "file_read"@);
    } else if name == "file_write"@ {
        reveal_strlit("file_write");
        reveal_strlit("__gradient_file_write");
        assert("__gradient_file_write"@ =~= "__gradient_"@ + "file_write"@);
    } else if name == "file_exists"@ {
        reveal_strlit("file_exists");
        reveal_strlit("__gradient_file_exists");
        assert("__gradient_file_exists"@ =~= "__gradient_"@ + "file_exists"@);
    } else {
        lemma_io_callee_named(name);
    }
}

/// Every built-in of `spec_io_runtime_call` calls the C function of its own name, a
/// C alias of it, or the runtime function of its name.
proof fn lemma_io_callee_named(name: Seq<char>)
    ensures
        spec_io_runtime_call(name) is Some ==> callee_named(name, spec_io_runtime_call(name).unwrap().0),
{
    reveal_strlit("__gradient_");
    if name == "file_append"@ {
        reveal_strlit("file_append");
        reveal_strlit("__gradient_file_append");
        assert("__gradient_file_append"@ =~= "__gradient_"@ + "file_append"@);
    } else if name == "file_delete"@ {
        reveal_strlit("file_delete");
        reveal_strlit("__gradient_file_delete");
        assert("__gradient_file_delete"@ =~= "__gradient_"@ + "file_delete"@);
    } else if name == "http_get"@ {
        reveal_strlit("http_get");
        reveal_strlit("__gradient_http_get");
        assert("__gradient_http_get"@ =~= "__gradient_"@ + "http_get"@);
    } else if name == "http_post"@ {
        reveal_strlit("http_post");
        reveal_strlit("__gradient_http_post");
        assert("__gradient_http_post"@ =~= "__gradient_"@ + "http_post"@);
    } else if name == "http_post_json"@ {
        reveal_strlit("http_post_json");
        reveal_strlit("__gradient_http_post_json");
        assert("__gradient_http_post_json"@ =~= "__gradient_"@ + "http_post_json"@);
    } else if name == "json_stringify"@ {
        reveal_strlit("json_stringify");
        reveal_strlit("__gradient_json_stringify");
        assert("__gradient_json_stringify"@ =~= "__gradient_"@ + "json_stringify"@);
    } else if name == "json_type"@ {
        reveal_strlit("json_type");
        reveal_strlit("__gradient_json_type");
        assert("__gradient_json_type"@ =~= "__gradient_"@ + "json_type"@);
    } else if name == "json_is_null"@ {
        reveal_strlit("json_is_null");
        reveal_strlit("__gradient_json_is_null");
        assert("__gradient_json_is_null"@ =~= "__gradient_"@ + "json_is_null"@);
    } else if name == "json_has"@ {
        reveal_strlit("json_has");
        reveal_strlit("__gradient_json_has");
        assert("__gradient_json_has"@ =~= "__gradient_"@ + "json_has"@);
    } else if name == "json_keys"@ {
        reveal_strlit("json_keys");
        reveal_strlit("__gradient_json_keys");
        assert("__gradient_json_keys"@ =~= "__gradient_"@ + "json_keys"@);
    } else if name == "json_len"@ {
        reveal_strlit("json_len");
        reveal_strlit("__gradient_json_len");
        assert("__gradient_json_len"@ =~= "__gradient_"@ + "json_len"@);
    } else if name == "json_as_string"@ {
        reveal_strlit("json_as_string");
        reveal_strlit("__gradient_json_as_string");
        assert("__gradient_json_as_string"@ =~= "__gradient_"@ + "json_as_string"@);
    } else if name == "json_as_int"@ {
        reveal_strlit("json_as_int");
        reveal_strlit("__gradient_json_as_int");
        assert("__gradient_json_as_int"@ =~= "__gradient_"@ + "json_as_int"@);
    } else if name == "json_as_float"@ {
        reveal_strlit("json_as_float");
        reveal_strlit("__gradient_json_as_float");
        assert("__gradient_json_as_float"@ =~= "__gradient_"@ + "json_as_float"@);
    } else if name == "json_as_bool"@ {
        reveal_strlit("json_as_bool");
        reveal_strlit("__gradient_json_as_bool");
        assert("__gradient_json_as_bool"@ =~= "__gradient_"@ + "json_as_bool"@);
    } else if name == "random"@ {
        reveal_strlit("random");
        reveal_strlit("__gradient_random");
        assert("__gradient_random"@ =~= "__gradient_"@ + "random"@);
    } else if name == "random_int"@ {
        reveal_strlit("random_int");
        reveal_strlit("__gradient_random_int");
        assert("__gradient_random_int"@ =~= "__gradient_"@ + "random_int"@);
    } else if name == "random_float"@ {
        reveal_strlit("random_float");
        reveal_strlit("__gradient_random_float");
        assert("__gradient_random_float"@ =~= "__gradient_"@ + "random_float"@);
    } else if name == "seed_random"@ {
        reveal_strlit("seed_random");
        reveal_strlit("__gradient_seed_random");
        assert("__gradient_seed_random"@ =~= "__gradient_"@ + "seed_random"@);
    } else if name == "now"@ {
        reveal_strlit("now");
        reveal_strlit("__gradient_now");
        assert("__gradient_now"@ =~= "__gradient_"@ + "now"@);
    } else if name == "now_ms"@ {
        reveal_strlit("now_ms");
        reveal_strlit("__gradient_now_ms");
        assert("__gradient_now_ms"@ =~= "__gradient_"@ + "now_ms"@);
    } else if name == "sleep"@ {
        reveal_strlit("sleep");
        reveal_strlit("__gradient_sleep");
        assert("__gradient_sleep"@ =~= "__gradient_"@ + "sleep"@);
    } else {
        lemma_time_callee_named(name);
    }
}

/// Every built-in of `spec_time_runtime_call` calls the C function of its own name, a
/// C alias of it, or the runtime function of its name.
proof fn lemma_time_callee_named(name: Seq<char>)
    ensures
        spec_time_runtime_call(name) is Some ==> callee_named(name, spec_time_runtime_call(name).unwrap().0),
{
    reveal_strlit("__gradient_");
    if name == "time_string"@ {
        reveal_strlit("time_string");
        reveal_strlit("__gradient_time_string");
        assert("__gradient_time_string"@ =~= "__gradient_"@ + "time_string"@);
    } else if name == "date_string"@ {
        reveal_strlit("date_string");
        reveal_strlit("__gradient_date_string");
        assert("__gradient_date_string"@ =~= "__gradient_"@ + "date_string"@);
    } else if name == "datetime_year"@ {
        reveal_strlit("datetime_year");
        reveal_strlit("__gradient_datetime_year");
        assert("__gradient_datetime_year"@ =~= "__gradient_"@ + "datetime_year"@);
    } else if name == "datetime_month"@ {
        reveal_strlit("datetime_month");
        reveal_strlit("__gradient_datetime_month");
        assert("__gradient_datetime_month"@ =~= "__gradient_"@ + "datetime_month"@);
    } else if name == "datetime_day"@ {
        reveal_strlit("datetime_day");
        reveal_strlit("__gradient_datetime_day");
        assert("__gradient_datetime_day"@ =~= "__gradient_"@ + "datetime_day"@);
    } else if name == "get_env"@ {
        reveal_strlit("get_env");
        reveal_strlit("__gradient_get_env");
        assert("__gradient_get_env"@ =~= "__gradient_"@ + "get_env"@);
    } else if name == "set_env"@ {
        reveal_strlit("set_env");
        reveal_strlit("__gradient_set_env");
        assert("__gradient_set_env"@ =~= "__gradient_"@ + "set_env"@);
    } else if name == "current_dir"@ {
        reveal_strlit("current_dir");
        reveal_strlit("__gradient_current_dir");
        assert("__gradient_current_dir"@ =~= "__gradient_"@ + "current_dir"@);
    } else if name == "change_dir"@ {
        reveal_strlit("change_dir");
        reveal_strlit("__gradient_change_dir");
        assert("__gradient_change_dir"@ =~= "__gradient_"@ + "change_dir"@);
    } else if name == "process_id"@ {
    } else if name == "system"@ {
    } else if name == "sleep_seconds"@ {
        reveal_strlit("sleep_seconds");
        reveal_strlit("__gradient_sleep_seconds");
        assert("__gradient_sleep_seconds"@ =~= "__gradient_"@ + "sleep_seconds"@);
    } else if name == "option_is_some"@ {
        reveal_strlit("option_is_some");
        reveal_strlit("__gradient_option_is_some");
        assert("__gradient_option_is_some"@ =~= "__gradient_"@ + "option_is_some"@);
    } else if name == "option_is_none"@ {
        reveal_strlit("option_is_none");
        reveal_strlit("__gradient_option_is_none");
        assert("__gradient_option_is_none"@ =~= "__gradient_"@ + "option_is_none"@);
    } else if name == "option_unwrap"@ {
        reveal_strlit("option_unwrap");
        reveal_strlit("__gradient_option_unwrap");
        assert("__gradient_option_unwrap"@ =~= "__gradient_"@ + "option_unwrap"@);
    } else if name == "option_unwrap_or"@ {
        reveal_strlit("option_unwrap_or");
        reveal_strlit("__gradient_option_unwrap_or");
        assert("__gradient_option_unwrap_or"@ =~= "__gradient_"@ + "option_unwrap_or"@);
    } else if name == "queue_new"@ {
        reveal_strlit("queue_new");
        reveal_strlit("__gradient_queue_new");
        assert("__gradient_queue_new"@ =~= "__gradient_"@ + "queue_new"@);
    } else if name == "queue_enqueue"@ {
        reveal_strlit("queue_enqueue");
        reveal_strlit("__gradient_queue_enqueue");
        assert("__gradient_queue_enqueue"@ =~= "__gradient_"@ + "queue_enqueue"@);
    } else if name == "queue_dequeue"@ {
        reveal_strlit("queue_dequeue");
        reveal_strlit("__gradient_queue_dequeue");
        assert("__gradient_queue_dequeue"@ =~= "__gradient_"@ + "queue_dequeue"@);
    } else if name == "queue_peek"@ {
        reveal_strlit("queue_peek");
        reveal_strlit("__gradient_queue_peek");
        assert("__gradient_queue_peek"@ =~= "__gradient_"@ + "queue_peek"@);
    } else if name == "queue_size"@ {
        reveal_strlit("queue_size");
        reveal_strlit("__gradient_queue_size");
        assert("__gradient_queue_size"@ =~= "__gradient_"@ + "queue_size"@);
    } else if name == "stack_new"@ {
        reveal_strlit("stack_new");
        reveal_strlit("__gradient_stack_new");
        assert("__gradient_stack_new"@ =~= "__gradient_"@ + "stack_new"@);
    } else {
        lemma_collection_callee_named(name);
    }
}

/// Every built-in of `spec_collection_runtime_call` calls the C function of its own name, a
/// C alias of it, or the runtime function of its name.
proof fn lemma_collection_callee_named(name: Seq<char>)
    ensures
        spec_collection_runtime_call(name) is Some ==> callee_named(name, spec_collection_runtime_call(name).unwrap().0),
{
    reveal_strlit("__gradient_");
    if name == "stack_push"@ {
        reveal_strlit("stack_push");
        reveal_strlit("__gradient_stack_push");
        assert("__gradient_stack_push"@ =~= "__gradient_"@ + "stack_push"@);
    } else if name == "stack_pop"@ {
        reveal_strlit("stack_pop");
        reveal_strlit("__gradient_stack_pop");
        assert("__gradient_stack_pop"@ =~= "__gradient_"@ + "stack_pop"@);
    } else if name == "stack_peek"@ {
        reveal_strlit("stack_peek");
        reveal_strlit("__gradient_stack_peek");
        assert("__gradient_stack_peek"@ =~= "__gradient_"@ + "stack_peek"@);
    } else if name == "stack_size"@ {
        reveal_strlit("stack_size");
        reveal_strlit("__gradient_stack_size");
        assert("__gradient_stack_size"@ =~= "__gradient_"@ + "stack_size"@);
    } else if name == "read_line"@ {
        reveal_strlit("read_line");
        reveal_strlit("__gradient_read_line");
        assert("__gradient_read_line"@ =~= "__gradient_"@ + "read_line"@);
    } else if name == "parse_int"@ {
    } else if name == "parse_float"@ {
    } else if name == "args"@ {
    } else if name == "map_new"@ {
        reveal_strlit("map_new");
        reveal_strlit("__gradient_map_new");
        assert("__gradient_map_new"@ =~= "__gradient_"@ + "map_new"@);
    } else if name == "map_contains"@ {
        reveal_strlit("map_contains");
        reveal_strlit("__gradient_map_contains");
        assert("__gradient_map_contains"@ =~= "__gradient_"@ + "map_contains"@);
    } else if name == "map_remove"@ {
        reveal_strlit("map_remove");
        reveal_strlit("__gradient_map_remove");
        assert("__gradient_map_remove"@ =~= "__gradient_"@ + "map_remove"@);
    } else if name == "map_size"@ {
        reveal_strlit("map_size");
        reveal_strlit("__gradient_map_size");
        assert("__gradient_map_size"@ =~= "__gradient_"@ + "map_size"@);
    } else if name == "map_keys"@ {
        reveal_strlit("map_keys");
        reveal_strlit("__gradient_map_keys");
        assert("__gradient_map_keys"@ =~= "__gradient_"@ + "map_keys"@);
    } else if name == "set_to_list"@ {
        reveal_strlit("set_to_list");
        reveal_strlit("__gradient_set_to_list");
        assert("__gradient_set_to_list"@ =~= "__gradient_"@ + "set_to_list"@);
    } else if name == "set_new"@ {
        reveal_strlit("set_new");
        reveal_strlit("__gradient_set_new");
        assert("__gradient_set_new"@ =~= "__gradient_"@ + "set_new"@);
    } else if name == "set_add"@ {
        reveal_strlit("set_add");
        reveal_strlit("__gradient_set_add");
        assert("__gradient_set_add"@ =~= "__gradient_"@ + "set_add"@);
    } else if name == "set_remove"@ {
        reveal_strlit("set_remove");
        reveal_strlit("__gradient_set_remove");
        assert("__gradient_set_remove"@ =~= "__gradient_"@ + "set_remove"@);
    } else if name == "set_contains"@ {
        reveal_strlit("set_contains");
        reveal_strlit("__gradient_set_contains");
        assert("__gradient_set_contains"@ =~= "__gradient_"@ + "set_contains"@);
    } else if name == "set_size"@ {
        reveal_strlit("set_size");
        reveal_strlit("__gradient_set_size");
        assert("__gradient_set_size"@ =~= "__gradient_"@ + "set_size"@);
    } else if name == "set_union"@ {
        reveal_strlit("set_union");
        reveal_strlit("__gradient_set_union");
        assert("__gradient_set_union"@ =~= "__gradient_"@ + "set_union"@);
    } else if name == "set_intersection"@ {
        reveal_strlit("set_intersection");
        reveal_strlit("__gradient_set_intersection");
        assert("__gradient_set_intersection"@ =~= "__gradient_"@ + "set_intersection"@);
    } else if name == "sin"@ {
    } else if name == "cos"@ {
    } else {
        lemma_math_callee_named(name);
    }
}

/// Every built-in of `spec_math_runtime_call` calls the C function of its own name, a
/// C alias of it, or the runtime function of its name.
proof fn lemma_math_callee_named(name: Seq<char>)
    ensures
        spec_math_runtime_call(name) is Some ==> callee_named(name, spec_math_runtime_call(name).unwrap().0),
{
    reveal_strlit("__gradient_");
    if name == "tan"@ {
    } else if name == "asin"@ {
    } else if name == "acos"@ {
    } else if name == "atan"@ {
    } else if name == "atan2"@ {
    } else if name == "log"@ {
    } else if name == "log10"@ {
    } else if name == "log2"@ {
    } else if name == "exp"@ {
    } else if name == "exp2"@ {
    } else if name == "ceil"@ {
    } else if name == "floor"@ {
    } else if name == "round"@ {
    } else if name == "trunc"@ {
    } else if name == "pi"@ {
        reveal_strlit("pi");
        reveal_strlit("__gradient_pi");
        assert("__gradient_pi"@ =~= "__gradient_"@ + "pi"@);
    } else if name == "e"@ {
        reveal_strlit("e");
        reveal_strlit("__gradient_e");
        assert("__gradient_e"@ =~= "__gradient_"@ + "e"@);
    } else if name == "gcd"@ {
        reveal_strlit("gcd");
        reveal_strlit("__gradient_gcd");
        assert("__gradient_gcd"@ =~= "__gradient_"@ + "gcd"@);
    } else if name == "float_mod"@ {
    }
}

/// Each built-in that is one runtime call calls the C library function of
/// its own name (`floor` calls `floor`, never `ceil`), its C alias, or the
/// runtime function `__gradient_` followed by its own name.
pub proof fn law_runtime_callee_named(name: Seq<char>)
    ensures
        runtime_call_of(name) is Some ==> callee_named(name, runtime_call_of(name).unwrap().0),
{
    lemma_string_callee_named(name);
}

/// The runtime call a built-in named `name` is, if it is one.
pub open spec fn runtime_call_of(name: Seq<char>) -> Option<(Seq<char>, nat, Post)> {
    spec_string_runtime_call(name)
}

fn string_runtime_call(name: &str) -> (r: Option<RuntimeCall>)
    ensures
        match r {
            Some(c) => spec_string_runtime_call(name@) == Some((c.callee@, c.nargs as nat, c.post)),
            None => spec_string_runtime_call(name@) is None,
        },
{
    if str_eq(name, "string_length") {
        Some(RuntimeCall { callee: "strlen", nargs: 1, post: Post::Result })
    } else if str_eq(name, "string_trim") {
        Some(RuntimeCall { callee: "__gradient_string_trim", nargs: 1, post: Post::Result })
    } else if str_eq(name, "string_append") {
        Some(RuntimeCall { callee: "__gradient_string_append", nargs: 2, post: Post::Result })
    } else if str_eq(name, "string_split") {
        Some(RuntimeCall { callee: "__gradient_string_split", nargs: 2, post: Post::Result })
    } else if str_eq(name, "string_join") {
        Some(RuntimeCall { callee: "__gradient_string_join", nargs: 2, post: Post::Result })
    } else if str_eq(name, "string_repeat") {
        Some(RuntimeCall { callee: "__gradient_string_repeat", nargs: 2, post: Post::Result })
    } else if str_eq(name, "string_pad_left") {
        Some(RuntimeCall { callee: "__gradient_string_pad_left", nargs: 3, post: Post::Result })
    } else if str_eq(name, "string_pad_right") {
        Some(RuntimeCall { callee: "__gradient_string_pad_right", nargs: 3, post: Post::Result })
    } else if str_eq(name, "string_strip") {
        Some(RuntimeCall { callee: "__gradient_string_strip", nargs: 1, post: Post::Result })
    } else if str_eq(name, "string_strip_prefix") {
        Some(RuntimeCall { callee: "__gradient_string_strip_prefix", nargs: 2, post: Post::Result })
    } else if str_eq(name, "string_strip_suffix") {
        Some(RuntimeCall { callee: "__gradient_string_strip_suffix", nargs: 2, post: Post::Result })
    } else if str_eq(name, "string_to_int") {
        Some(RuntimeCall { callee: "__gradient_string_to_int", nargs: 1, post: Post::Result })
    } else if str_eq(name, "string_to_float") {
        Some(RuntimeCall { callee: "__gradient_string_to_float", nargs: 1, post: Post::Result })
    } else if str_eq(name, "string_format") {
        Some(RuntimeCall { callee: "__gradient_string_format", nargs: 2, post: Post::Result })
    } else if str_eq(name, "string_is_empty") {
        Some(RuntimeCall { callee: "__gradient_string_is_empty", nargs: 1, post: Post::ReduceI8 })
    } else if str_eq(name, "string_reverse") {
        Some(RuntimeCall { callee: "__gradient_string_reverse", nargs: 1, post: Post::Result })
    } else if str_eq(name, "string_compare") {
        Some(RuntimeCall { callee: "__gradient_string_compare", nargs: 2, post: Post::Result })
    } else if str_eq(name, "string_find") {
        Some(RuntimeCall { callee: "__gradient_string_find", nargs: 2, post: Post::Result })
    } else if str_eq(name, "string_slice") {
        Some(RuntimeCall { callee: "__gradient_string_slice", nargs: 3, post: Post::Result })
    } else if str_eq(name, "file_read") {
        Some(RuntimeCall { callee: "__gradient_file_read", nargs: 1, post: Post::Result })
    } else if str_eq(name, "file_write") {
        Some(RuntimeCall { callee: "__gradient_file_write", nargs: 2, post: Post::Result })
    } else if str_eq(name, "file_exists") {
        Some(RuntimeCall { callee: "__gradient_file_exists", nargs: 1, post: Post::Result })
    } else {
        io_runtime_call(name)
    }
}

fn io_runtime_call(name: &str) -> (r: Option<RuntimeCall>)
    ensures
        match r {
            Some(c) => spec_io_runtime_call(name@) == Some((c.callee@, c.nargs as nat, c.post)),
            None => spec_io_runtime_call(name@) is None,
        },
{
    if str_eq(name, "file_append") {
        Some(RuntimeCall { callee: "__gradient_file_append", nargs: 2, post: Post::Result })
    } else if str_eq(name, "file_delete") {
        Some(RuntimeCall { callee: "__gradient_file_delete", nargs: 1, post: Post::Result })
    } else if str_eq(name, "http_get") {
        Some(RuntimeCall { callee: "__gradient_http_get", nargs: 1, post: Post::Result })
    } else if str_eq(name, "http_post") {
        Some(RuntimeCall { callee: "__gradient_http_post", nargs: 2, post: Post::Result })
    } else if str_eq(name, "http_post_json") {
        Some(RuntimeCall { callee: "__gradient_http_post_json", nargs: 2, post: Post::Result })
    } else if str_eq(name, "json_stringify") {
        Some(RuntimeCall { callee: "__gradient_json_stringify", nargs: 1, post: Post::Result })
    } else if str_eq(name, "json_type") {
        Some(RuntimeCall { callee: "__gradient_json_type", nargs: 1, post: Post::Result })
    } else if str_eq(name, "json_is_null") {
        Some(RuntimeCall { callee: "__gradient_json_is_null", nargs: 1, post: Post::ReduceI8 })
    } else if str_eq(name, "json_has") {
        Some(RuntimeCall { callee: "__gradient_json_has", nargs: 2, post: Post::ReduceI8 })
    } else if str_eq(name, "json_keys") {
        Some(RuntimeCall { callee: "__gradient_json_keys", nargs: 1, post: Post::Result })
    } else if str_eq(name, "json_len") {
        Some(RuntimeCall { callee: "__gradient_json_len", nargs: 1, post: Post::Result })
    } else if str_eq(name, "json_as_string") {
        Some(RuntimeCall { callee: "__gradient_json_as_string", nargs: 1, post: Post::Result })
    } else if str_eq(name, "json_as_int") {
        Some(RuntimeCall { callee: "__gradient_json_as_int", nargs: 1, post: Post::Result })
    } else if str_eq(name, "json_as_float") {
        Some(RuntimeCall { callee: "__gradient_json_as_float", nargs: 1, post: Post::Result })
    } else if str_eq(name, "json_as_bool") {
        Some(RuntimeCall { callee: "__gradient_json_as_bool", nargs: 1, post: Post::Result })
    } else if str_eq(name, "random") {
        Some(RuntimeCall { callee: "__gradient_random", nargs: 0, post: Post::Result })
    } else if str_eq(name, "random_int") {
        Some(RuntimeCall { callee: "__gradient_random_int", nargs: 2, post: Post::Result })
    } else if str_eq(name, "random_float") {
        Some(RuntimeCall { callee: "__gradient_random_float", nargs: 0, post: Post::Result })
    } else if str_eq(name, "seed_random") {
        Some(RuntimeCall { callee: "__gradient_seed_random", nargs: 1, post: Post::UnitI8 })
    } else if str_eq(name, "now") {
        Some(RuntimeCall { callee: "__gradient_now", nargs: 0, post: Post::Result })
    } else if str_eq(name, "now_ms") {
        Some(RuntimeCall { callee: "__gradient_now_ms", nargs: 0, post: Post::Result })
    } else if str_eq(name, "sleep") {
        Some(RuntimeCall { callee: "__gradient_sleep", nargs: 1, post: Post::UnitI8 })
    } else {
        time_runtime_call(name)
    }
}

fn time_runtime_call(name: &str) -> (r: Option<RuntimeCall>)
    ensures
        match r {
            Some(c) => spec_time_runtime_call(name@) == Some((c.callee@, c.nargs as nat, c.post)),
            None => spec_time_runtime_call(name@) is None,
        },
{
    if str_eq(name, "time_string") {
        Some(RuntimeCall { callee: "__gradient_time_string", nargs: 0, post: Post::Result })
    } else if str_eq(name, "date_string") {
        Some(RuntimeCall { callee: "__gradient_date_string", nargs: 0, post: Post::Result })
    } else if str_eq(name, "datetime_year") {
        Some(RuntimeCall { callee: "__gradient_datetime_year", nargs: 1, post: Post::Result })
    } else if str_eq(name, "datetime_month") {
        Some(RuntimeCall { callee: "__gradient_datetime_month", nargs: 1, post: Post::Result })
    } else if str_eq(name, "datetime_day") {
        Some(RuntimeCall { callee: "__gradient_datetime_day", nargs: 1, post: Post::Result })
    } else if str_eq(name, "get_env") {
        Some(RuntimeCall { callee: "__gradient_get_env", nargs: 1, post: Post::Result })
    } else if str_eq(name, "set_env") {
        Some(RuntimeCall { callee: "__gradient_set_env", nargs: 2, post: Post::UnitI8 })
    } else if str_eq(name, "current_dir") {
        Some(RuntimeCall { callee: "__gradient_current_dir", nargs: 0, post: Post::Result })
    } else if str_eq(name, "change_dir") {
        Some(RuntimeCall { callee: "__gradient_change_dir", nargs: 1, post: Post::UnitI8 })
    } else if str_eq(name, "process_id") {
        Some(RuntimeCall { callee: "getpid", nargs: 0, post: Post::Result })
    } else if str_eq(name, "system") {
        Some(RuntimeCall { callee: "system", nargs: 1, post: Post::Result })
    } else if str_eq(name, "sleep_seconds") {
        Some(RuntimeCall { callee: "__gradient_sleep_seconds", nargs: 1, post: Post::UnitI8 })
    } else if str_eq(name, "option_is_some") {
        Some(RuntimeCall { callee: "__gradient_option_is_some", nargs: 1, post: Post::ReduceI8 })
    } else if str_eq(name, "option_is_none") {
        Some(RuntimeCall { callee: "__gradient_option_is_none", nargs: 1, post: Post::ReduceI8 })
    } else if str_eq(name, "option_unwrap") {
        Some(RuntimeCall { callee: "__gradient_option_unwrap", nargs: 1, post: Post::Result })
    } else if str_eq(name, "option_unwrap_or") {
        Some(RuntimeCall { callee: "__gradient_option_unwrap_or", nargs: 2, post: Post::Result })
    } else if str_eq(name, "queue_new") {
        Some(RuntimeCall { callee: "__gradient_queue_new", nargs: 0, post: Post::Result })
    } else if str_eq(name, "queue_enqueue") {
        Some(RuntimeCall { callee: "__gradient_queue_enqueue", nargs: 2, post: Post::Result })
    } else if str_eq(name, "queue_dequeue") {
        Some(RuntimeCall { callee: "__gradient_queue_dequeue", nargs: 1, post: Post::Result })
    } else if str_eq(name, "queue_peek") {
        Some(RuntimeCall { callee: "__gradient_queue_peek", nargs: 1, post: Post::Result })
    } else if str_eq(name, "queue_size") {
        Some(RuntimeCall { callee: "__gradient_queue_size", nargs: 1, post: Post::Result })
    } else if str_eq(name, "stack_new") {
        Some(RuntimeCall { callee: "__gradient_stack_new", nargs: 0, post: Post::Result })
    } else {
        collection_runtime_call(name)
    }
}

fn collection_runtime_call(name: &str) -> (r: Option<RuntimeCall>)
    ensures
        match r {
            Some(c) => spec_collection_runtime_call(name@) == Some((c.callee@, c.nargs as nat, c.post)),
            None => spec_collection_runtime_call(name@) is None,
        },
{
    if str_eq(name, "stack_push") {
        Some(RuntimeCall { callee: "__gradient_stack_push", nargs: 2, post: Post::Result })
    } else if str_eq(name, "stack_pop") {
        Some(RuntimeCall { callee: "__gradient_stack_pop", nargs: 1, post: Post::Result })
    } else if str_eq(name, "stack_peek") {
        Some(RuntimeCall { callee: "__gradient_stack_peek", nargs: 1, post: Post::Result })
    } else if str_eq(name, "stack_size") {
        Some(RuntimeCall { callee: "__gradient_stack_size", nargs: 1, post: Post::Result })
    } else if str_eq(name, "read_line") {
        Some(RuntimeCall { callee: "__gradient_read_line", nargs: 0, post: Post::Result })
    } else if str_eq(name, "parse_int") {
        Some(RuntimeCall { callee: "atoi", nargs: 1, post: Post::SExtendI64 })
    } else if str_eq(name, "parse_float") {
        Some(RuntimeCall { callee: "atof", nargs: 1, post: Post::Result })
    } else if str_eq(name, "args") {
        Some(RuntimeCall { callee: "__gradient_get_args", nargs: 0, post: Post::Result })
    } else if str_eq(name, "map_new") {
        Some(RuntimeCall { callee: "__gradient_map_new", nargs: 0, post: Post::Result })
    } else if str_eq(name, "map_contains") {
        Some(RuntimeCall { callee: "__gradient_map_contains", nargs: 2, post: Post::ReduceI8 })
    } else if str_eq(name, "map_remove") {
        Some(RuntimeCall { callee: "__gradient_map_remove", nargs: 2, post: Post::Result })
    } else if str_eq(name, "map_size") {
        Some(RuntimeCall { callee: "__gradient_map_size", nargs: 1, post: Post::Result })
    } else if str_eq(name, "map_keys") {
        Some(RuntimeCall { callee: "__gradient_map_keys", nargs: 1, post: Post::Result })
    } else if str_eq(name, "set_to_list") {
        Some(RuntimeCall { callee: "__gradient_set_to_list", nargs: 1, post: Post::Result })
    } else if str_eq(name, "set_new") {
        Some(RuntimeCall { callee: "__gradient_set_new", nargs: 0, post: Post::Result })
    } else if str_eq(name, "set_add") {
        Some(RuntimeCall { callee: "__gradient_set_add", nargs: 2, post: Post::Result })
    } else if str_eq(name, "set_remove") {
        Some(RuntimeCall { callee: "__gradient_set_remove", nargs: 2, post: Post::Result })
    } else if str_eq(name, "set_contains") {
        Some(RuntimeCall { callee: "__gradient_set_contains", nargs: 2, post: Post::ReduceI8 })
    } else if str_eq(name, "set_size") {
        Some(RuntimeCall { callee: "__gradient_set_size", nargs: 1, post: Post::Result })
    } else if str_eq(name, "set_union") {
        Some(RuntimeCall { callee: "__gradient_set_union", nargs: 2, post: Post::Result })
    } else if str_eq(name, "set_intersection") {
        Some(RuntimeCall { callee: "__gradient_set_intersection", nargs: 2, post: Post::Result })
    } else if str_eq(name, "sin") {
        Some(RuntimeCall { callee: "sin", nargs: 1, post: Post::Result })
    } else if str_eq(name, "cos") {
        Some(RuntimeCall { callee: "cos", nargs: 1, post: Post::Result })
    } else {
        math_runtime_call(name)
    }
}

fn math_runtime_call(name: &str) -> (r: Option<RuntimeCall>)
    ensures
        match r {
            Some(c) => spec_math_runtime_call(name@) == Some((c.callee@, c.nargs as nat, c.post)),
            None => spec_math_runtime_call(name@) is None,
        },
{
    if str_eq(name, "tan") {
        Some(RuntimeCall { callee: "tan", nargs: 1, post: Post::Result })
    } else if str_eq(name, "asin") {
        Some(RuntimeCall { callee: "asin", nargs: 1, post: Post::Result })
    } else if str_eq(name, "acos") {
        Some(RuntimeCall { callee: "acos", nargs: 1, post: Post::Result })
    } else if str_eq(name, "atan") {
        Some(RuntimeCall { callee: "atan", nargs: 1, post: Post::Result })
    } else if str_eq(name, "atan2") {
        Some(RuntimeCall { callee: "atan2", nargs: 2, post: Post::Result })
    } else if str_eq(name, "log") {
        Some(RuntimeCall { callee: "log", nargs: 1, post: Post::Result })
    } else if str_eq(name, "log10") {
        Some(RuntimeCall { callee: "log10", nargs: 1, post: Post::Result })
    } else if str_eq(name, "log2") {
        Some(RuntimeCall { callee: "log2", nargs: 1, post: Post::Result })
    } else if str_eq(name, "exp") {
        Some(RuntimeCall { callee: "exp", nargs: 1, post: Post::Result })
    } else if str_eq(name, "exp2") {
        Some(RuntimeCall { callee: "exp2", nargs: 1, post: Post::Result })
    } else if str_eq(name, "ceil") {
        Some(RuntimeCall { callee: "ceil", nargs: 1, post: Post::Result })
    } else if str_eq(name, "floor") {
        Some(RuntimeCall { callee: "floor", nargs: 1, post: Post::Result })
    } else if str_eq(name, "round") {
        Some(RuntimeCall { callee: "round", nargs: 1, post: Post::Result })
    } else if str_eq(name, "trunc") {
        Some(RuntimeCall { callee: "trunc", nargs: 1, post: Post::Result })
    } else if str_eq(name, "pi") {
        Some(RuntimeCall { callee: "__gradient_pi", nargs: 0, post: Post::Result })
    } else if str_eq(name, "e") {
        Some(RuntimeCall { callee: "__gradient_e", nargs: 0, post: Post::Result })
    } else if str_eq(name, "gcd") {
        Some(RuntimeCall { callee: "__gradient_gcd", nargs: 2, post: Post::Result })
    } else if str_eq(name, "float_mod") {
        Some(RuntimeCall { callee: "fmod", nargs: 2, post: Post::Result })
    } else {
        None
    }
}

/// The runtime call a built-in named `name` is, if it is one.
pub fn runtime_call(name: &str) -> (r: Option<RuntimeCall>)
    ensures
        match r {
            Some(c) => runtime_call_of(name@) == Some((c.callee@, c.nargs as nat, c.post)),
            None => runtime_call_of(name@) is None,
        },
{
    string_runtime_call(name)
}

/// The message for a built-in called with fewer arguments than it takes.
pub open spec fn arity_msg(name: Seq<char>) -> Seq<char> {
    "built-in '"@ + name + "' called with too few arguments"@
}

/// The operations of a call of declared function `fi` (which returns a
/// value of type `rt` when `rv`) with `k` argument slots from pool
/// position `a0`, followed by the post-processing of its result; new slots
/// are numbered from `n`. Also gives the new slots' types and the slot of
/// the built-in's value.
pub open spec fn runtime_call_ops(post: Post, fi: usize, rv: bool, rt: MTy, a0: usize, k: usize, n: usize) -> (Seq<Op>, Seq<MTy>, usize) {
    let call = Op::Call { func: fi, args: Span { start: a0, len: k }, dst: n, has_result: rv };
    let ct = if rv { seq![rt] } else { Seq::<MTy>::empty() };
    let m = (n + ct.len()) as usize;
    match post {
        Post::Result => (seq![call], ct, n),
        Post::ReduceI8 => (seq![call, Op::Convert { dst: m, conv: Conv::IReduce, ty: MTy::I8, a: n }], ct.push(MTy::I8), m),
        Post::SExtendI64 => (seq![call, Op::Convert { dst: m, conv: Conv::SExtend, ty: MTy::I64, a: n }], ct.push(MTy::I64), m),
        Post::UnitI8 => (seq![call, Op::IConst { dst: m, ty: MTy::I8, imm: 0 }], ct.push(MTy::I8), m),
    }
}

/// The first `k` values of `args`.
pub fn first_values(args: &Vec<Value>, k: usize) -> (r: Vec<Value>)
    requires
        k <= args@.len(),
    ensures
        r@ == args@.subrange(0, k as int),
{
    let mut r: Vec<Value> = Vec::new();
    for i in 0..k
        invariant
            k <= args@.len(),
            r@ == args@.subrange(0, i as int),
    {
        r.push(args[i]);
        assert(r@ =~= args@.subrange(0, i + 1));
    }
    r
}

/// What lowering a call of the `runtime` built-in does to the planner, and its result.
pub closed spec fn runtime_call_effect(pre: ClPlanner, post: ClPlanner, decls: Vec<Decl>, name: Seq<char>, callee: Seq<char>, nargs: nat, rpost: Post, dst: Value, args: Vec<Value>, r: Result<(), String>) -> bool {
    &&& post.wf()
    &&& post.same_tables(&pre)
    &&& args@.len() < nargs ==> (r matches Err(m) && m@ == arity_msg(name))
    &&& args@.len() >= nargs ==> ({
                    let vals = args@.subrange(0, nargs as int);
                    match slots_of(pre, vals) {
                        None => r matches Err(m) && m@ == not_found_msg(first_missing(pre, vals).0),
                        Some(sl) => match decl_index(decls@, callee) {
                            None => r matches Err(m) && m@ == not_declared_msg(callee),
                            Some(fi) => {
                                let rv = decls@[fi as int].rets@.len() > 0;
                                if !rv && rpost != Post::UnitI8 {
                                    r matches Err(m) && m@ == decls@[fi as int].name@ + " returned no value"@
                                } else {
                                    let rt = if rv { decls@[fi as int].rets@[0] } else { MTy::I64 };
                                    let (ops, tys, res) = runtime_call_ops(rpost, fi, rv, rt, pre.args@.len() as usize, sl.len() as usize, pre.next());
                                    &&& r is Ok
                                    &&& post.ops@ == pre.ops@ + ops
                                    &&& post.types@ == pre.types@ + tys
                                    &&& post.args@ == pre.args@ + sl
                                    &&& post.vmap@ == pre.vmap@.insert(dst.0, res)
                                }
                            },
                        },
                    }
                })
}

impl ClPlanner {
    /// Lowers a call of built-in `name`, which is the runtime call `rc`.
    pub fn lower_runtime_call(&mut self, decls: &Vec<Decl>, name: &str, rc: &RuntimeCall, dst: Value, args: &Vec<Value>) -> (r: Result<(), String>)
        requires
            old(self).wf(),
        ensures
        r is Ok ==> old(self).ops@.is_prefix_of(final(self).ops@),
        final(self).wf(),
        final(self).block_params@.len() >= old(self).block_params@.len(),
        runtime_call_effect(*old(self), *final(self), *decls, name@, rc.callee@, rc.nargs as nat, rc.post, dst, *args, r),

    {
        if args.len() < rc.nargs {
            let mut m = String::from_str("built-in '");
            m.append(name);
            m.append("' called with too few arguments");
            return Err(m);
        }
        let vals = first_values(args, rc.nargs);
        let slots = self.resolve_all(&vals)?;
        let fi = ClPlanner::required(decls, rc.callee)?;
        let ghost o = *self;
        let rv = decls[fi].rets.len() > 0;
        match rc.post {
            Post::UnitI8 => {
                let _ = self.call(decls, fi, &slots);
                let z = self.iconst(MTy::I8, 0);
                self.bind(dst, z);
                proof {
                    let rt = if rv { decls@[fi as int].rets@[0] } else { MTy::I64 };
                    let (ops, tys, res) = runtime_call_ops(rc.post, fi, rv, rt, o.args@.len() as usize, slots@.len() as usize, o.next());
                    assert(self.ops@ =~= o.ops@ + ops);
                    assert(self.types@ =~= o.types@ + tys);
                }
            },
            Post::Result => {
                let s = self.call_value(decls, fi, &slots)?;
                self.bind(dst, s);
                proof {
                    let (ops, tys, res) = runtime_call_ops(rc.post, fi, rv, decls@[fi as int].rets@[0], o.args@.len() as usize, slots@.len() as usize, o.next());
                    assert(self.ops@ =~= o.ops@ + ops);
                    assert(self.types@ =~= o.types@ + tys);
                }
            },
            Post::ReduceI8 => {
                let s = self.call_value(decls, fi, &slots)?;
                let c = self.convert(Conv::IReduce, MTy::I8, s);
                self.bind(dst, c);
                proof {
                    let (ops, tys, res) = runtime_call_ops(rc.post, fi, rv, decls@[fi as int].rets@[0], o.args@.len() as usize, slots@.len() as usize, o.next());
                    assert(self.ops@ =~= o.ops@ + ops);
                    assert(self.types@ =~= o.types@ + tys);
                }
            },
            Post::SExtendI64 => {
                let s = self.call_value(decls, fi, &slots)?;
                let c = self.convert(Conv::SExtend, MTy::I64, s);
                self.bind(dst, c);
                proof {
                    let (ops, tys, res) = runtime_call_ops(rc.post, fi, rv, decls@[fi as int].rets@[0], o.args@.len() as usize, slots@.len() as usize, o.next());
                    assert(self.ops@ =~= o.ops@ + ops);
                    assert(self.types@ =~= o.types@ + tys);
                }
            },
        }
        Ok(())
    }
}

/// The runtime function `clamp` calls for a value of type `t`.
pub open spec fn clamp_callee(t: MTy) -> Seq<char> {
    if t == MTy::F64 { "__gradient_clamp_f64"@ } else { "__gradient_clamp_i64"@ }
}

/// The runtime function `map_set` calls for a value of type `t`.
pub open spec fn map_set_callee(t: MTy) -> Seq<char> {
    if t == MTy::I64 { "__gradient_map_set_int"@ } else { "__gradient_map_set_str"@ }
}

/// The byte offset of element `i` of a list: after the 16-byte header of
/// length and capacity.
pub open spec fn element_offset(i: int) -> i32 {
    (16 + 8 * i) as i32
}

/// What lowering a call of the `clamp` built-in does to the planner, and its result.
pub closed spec fn clamp_effect(pre: ClPlanner, post: ClPlanner, decls: Vec<Decl>, dst: Value, args: Vec<Value>, r: Result<(), String>) -> bool {
    &&& post.wf()
    &&& post.same_tables(&pre)
    &&& args@.len() < 3 ==> (r matches Err(m) && m@ == arity_msg("clamp"@))
    &&& args@.len() >= 3 ==> ({
                    let vals = args@.subrange(0, 3);
                    match slots_of(pre, vals) {
                        None => r matches Err(m) && m@ == not_found_msg(first_missing(pre, vals).0),
                        Some(sl) => {
                            let callee = clamp_callee(pre.types@[sl[0] as int]);
                            match decl_index(decls@, callee) {
                                None => r matches Err(m) && m@ == not_declared_msg(callee),
                                Some(fi) => if decls@[fi as int].rets@.len() == 0 {
                                    r matches Err(m) && m@ == decls@[fi as int].name@ + " returned no value"@
                                } else {
                                    let (ops, tys, res) = runtime_call_ops(Post::Result, fi, true, decls@[fi as int].rets@[0], pre.args@.len() as usize, 3, pre.next());
                                    &&& r is Ok
                                    &&& post.ops@ == pre.ops@ + ops
                                    &&& post.types@ == pre.types@ + tys
                                    &&& post.args@ == pre.args@ + sl
                                    &&& post.vmap@ == pre.vmap@.insert(dst.0, res)
                                },
                            }
                        },
                    }
                })
}

/// What lowering a call of the `map_set` built-in does to the planner, and its result.
pub closed spec fn map_set_effect(pre: ClPlanner, post: ClPlanner, decls: Vec<Decl>, dst: Value, args: Vec<Value>, r: Result<(), String>) -> bool {
    &&& post.wf()
    &&& post.same_tables(&pre)
    &&& args@.len() < 3 ==> (r matches Err(m) && m@ == arity_msg("map_set"@))
    &&& args@.len() >= 3 ==> ({
                    let vals = args@.subrange(0, 3);
                    match slots_of(pre, vals) {
                        None => r matches Err(m) && m@ == not_found_msg(first_missing(pre, vals).0),
                        Some(sl) => {
                            let callee = map_set_callee(pre.types@[sl[2] as int]);
                            match decl_index(decls@, callee) {
                                None => r matches Err(m) && m@ == "__gradient_map_set_* not declared"@,
                                Some(fi) => if decls@[fi as int].rets@.len() == 0 {
                                    r matches Err(m) && m@ == decls@[fi as int].name@ + " returned no value"@
                                } else {
                                    let (ops, tys, res) = runtime_call_ops(Post::Result, fi, true, decls@[fi as int].rets@[0], pre.args@.len() as usize, 3, pre.next());
                                    &&& r is Ok
                                    &&& post.ops@ == pre.ops@ + ops
                                    &&& post.types@ == pre.types@ + tys
                                    &&& post.args@ == pre.args@ + sl
                                    &&& post.vmap@ == pre.vmap@.insert(dst.0, res)
                                },
                            }
                        },
                    }
                })
}

impl ClPlanner {
    /// Lowers `clamp(value, low, high)`: the runtime's floating-point clamp
    /// for an `F64` value, its integer clamp otherwise.
    pub fn lower_clamp(&mut self, decls: &Vec<Decl>, dst: Value, args: &Vec<Value>) -> (r: Result<(), String>)
        requires
            old(self).wf(),
        ensures
        r is Ok ==> old(self).ops@.is_prefix_of(final(self).ops@),
        final(self).wf(),
        final(self).block_params@.len() >= old(self).block_params@.len(),
        clamp_effect(*old(self), *final(self), *decls, dst, *args, r),

    {
        if args.len() < 3 {
            proof {
                reveal_strlit("clamp");
            }
            let mut m = String::from_str("built-in '");
            m.append("clamp");
            m.append("' called with too few arguments");
            return Err(m);
        }
        let vals = first_values(args, 3);
        let slots = self.resolve_all(&vals)?;
        proof {
            crate::clinst::lemma_slots_len(*self, vals@);
        }
        let is_float = self.types[slots[0]] == MTy::F64;
        let callee = if is_float { "__gradient_clamp_f64" } else { "__gradient_clamp_i64" };
        let fi = ClPlanner::required(decls, callee)?;
        let ghost o = *self;
        let s = self.call_value(decls, fi, &slots)?;
        self.bind(dst, s);
        proof {
            let (ops, tys, res) = runtime_call_ops(Post::Result, fi, true, decls@[fi as int].rets@[0], o.args@.len() as usize, 3, o.next());
            assert(self.ops@ =~= o.ops@ + ops);
            assert(self.types@ =~= o.types@ + tys);
        }
        Ok(())
    }

    /// Lowers `map_set(map, key, value)`: the runtime's integer setter for
    /// an `I64` value, its string setter otherwise.
    pub fn lower_map_set(&mut self, decls: &Vec<Decl>, dst: Value, args: &Vec<Value>) -> (r: Result<(), String>)
        requires
            old(self).wf(),
        ensures
        r is Ok ==> old(self).ops@.is_prefix_of(final(self).ops@),
        final(self).wf(),
        final(self).block_params@.len() >= old(self).block_params@.len(),
        map_set_effect(*old(self), *final(self), *decls, dst, *args, r),

    {
        if args.len() < 3 {
            proof {
                reveal_strlit("map_set");
            }
            let mut m = String::from_str("built-in '");
            m.append("map_set");
            m.append("' called with too few arguments");
            return Err(m);
        }
        let vals = first_values(args, 3);
        let slots = self.resolve_all(&vals)?;
        proof {
            crate::clinst::lemma_slots_len(*self, vals@);
        }
        let is_int = self.types[slots[2]] == MTy::I64;
        let callee = if is_int { "__gradient_map_set_int" } else { "__gradient_map_set_str" };
        let _nd = decls.len();
        proof {
            crate::mach::lemma_decl_index(decls@, callee@);
        }
        let fi = match crate::mach::find_decl(decls, callee) {
            Some(fi) => fi,
            None => {
                return Err(String::from_str("__gradient_map_set_* not declared"));
            },
        };
        let ghost o = *self;
        let s = self.call_value(decls, fi, &slots)?;
        self.bind(dst, s);
        proof {
            let (ops, tys, res) = runtime_call_ops(Post::Result, fi, true, decls@[fi as int].rets@[0], o.args@.len() as usize, 3, o.next());
            assert(self.ops@ =~= o.ops@ + ops);
            assert(self.types@ =~= o.types@ + tys);
        }
        Ok(())
    }
}

/// The message for a list literal too long to allocate.
pub open spec fn literal_too_long_msg() -> Seq<char> {
    "list literal too long"@
}

/// The operations storing the `n` element slots `sl` into the list at slot
/// `ptr`, element `i` at [`element_offset`]`(i)`.
pub open spec fn element_stores(sl: Seq<usize>, ptr: usize) -> Seq<Op> {
    Seq::new(sl.len(), |i: int| Op::Store { val: sl[i], addr: ptr, off: element_offset(i) })
}

/// What lowering a call of the `list_literal_N` built-in does to the planner, and its result.
pub closed spec fn list_literal_effect(pre: ClPlanner, post: ClPlanner, decls: Vec<Decl>, dst: Value, args: Vec<Value>, r: Result<(), String>) -> bool {
    &&& post.wf()
    &&& post.same_tables(&pre)
    &&& 16 + 8 * args@.len() > i64::MAX ==> (r matches Err(m) && m@ == literal_too_long_msg())
    &&& 16 + 8 * args@.len() <= i64::MAX ==> match decl_index(decls@, "malloc"@) {
                    None => r matches Err(m) && m@ == not_declared_msg("malloc"@),
                    Some(fi) => if decls@[fi as int].rets@.len() == 0 {
                        r matches Err(m) && m@ == decls@[fi as int].name@ + " returned no value"@
                    } else {
                        match slots_of(pre, args@) {
                            None => r matches Err(m) && m@ == not_found_msg(first_missing(pre, args@).0),
                            Some(sl) => {
                                let n0 = pre.next();
                                let p = (n0 + 1) as usize;
                                let c = (n0 + 2) as usize;
                                &&& r is Ok
                                &&& post.ops@ == pre.ops@ + seq![
                                    Op::IConst { dst: n0, ty: MTy::I64, imm: (16 + 8 * args@.len()) as i64 },
                                    Op::Call { func: fi, args: Span { start: pre.args@.len() as usize, len: 1 }, dst: p, has_result: true },
                                    Op::IConst { dst: c, ty: MTy::I64, imm: args@.len() as i64 },
                                    Op::Store { val: c, addr: p, off: 0 },
                                    Op::Store { val: c, addr: p, off: 8 },
                                ] + element_stores(sl, p)
                                &&& post.types@ == pre.types@ + seq![MTy::I64, decls@[fi as int].rets@[0], MTy::I64]
                                &&& post.args@ == pre.args@.push(n0)
                                &&& post.vmap@ == pre.vmap@.insert(dst.0, p)
                            },
                        }
                    }
                }
}

impl ClPlanner {
    /// Lowers a list literal of the argument values: a heap block of a
    /// 16-byte header (length and capacity, both the number of elements)
    /// followed by the elements, 8 bytes each.
    pub fn lower_list_literal(&mut self, decls: &Vec<Decl>, dst: Value, args: &Vec<Value>) -> (r: Result<(), String>)
        requires
            old(self).wf(),
        ensures
        r is Ok ==> old(self).ops@.is_prefix_of(final(self).ops@),
        final(self).wf(),
        final(self).block_params@.len() >= old(self).block_params@.len(),
        list_literal_effect(*old(self), *final(self), *decls, dst, *args, r),

    {
        let n = args.len();
        if n as u64 > 1152921504606846973u64 {
            proof {
                reveal_strlit("list literal too long");
            }
            return Err(String::from_str("list literal too long"));
        }
        let nn = n as i64;
        let total: i64 = 16 + nn * 8;
        let size = self.iconst(MTy::I64, total);
        let fi = ClPlanner::required(decls, "malloc")?;
        let ghost o = *self;
        let one = vec![size];
        let p = self.call_value(decls, fi, &one)?;
        let c = self.iconst(MTy::I64, nn);
        self.put(Op::Store { val: c, addr: p, off: 0 });
        self.put(Op::Store { val: c, addr: p, off: 8 });
        let ghost head = self.ops@;
        let ghost mid = *self;
        proof {
            crate::clcall::lemma_slots_same_vmap(*old(self), mid, args@);
            assert(head =~= old(self).ops@ + seq![
                Op::IConst { dst: old(self).next(), ty: MTy::I64, imm: total },
                Op::Call { func: fi, args: Span { start: old(self).args@.len() as usize, len: 1 }, dst: p, has_result: true },
                Op::IConst { dst: (old(self).next() + 2) as usize, ty: MTy::I64, imm: nn },
                Op::Store { val: (old(self).next() + 2) as usize, addr: p, off: 0 },
                Op::Store { val: (old(self).next() + 2) as usize, addr: p, off: 8 },
            ]);
            assert(mid.types@ =~= old(self).types@ + seq![MTy::I64, decls@[fi as int].rets@[0], MTy::I64]);
        }
        let mut sl: Vec<usize> = Vec::new();
        for i in 0..n
            invariant
                n == args@.len(),
                n as u64 <= 1152921504606846973u64,
                self.wf(),
                self.types@ == mid.types@,
                self.args@ == mid.args@,
                self.vmap@ == mid.vmap@,
                self.same_tables(&mid),
                mid.same_tables(old(self)),
                mid.vmap@ == old(self).vmap@,
                slots_of(*old(self), args@) == slots_of(mid, args@),
                first_missing(*old(self), args@) == first_missing(mid, args@),
                decl_index(decls@, "malloc"@) == Some(fi),
                decls@[fi as int].rets@.len() > 0,
                p == old(self).next() + 1,
                nn == n as i64,
                total == 16 + 8 * n,
                head == old(self).ops@ + seq![
                    Op::IConst { dst: old(self).next(), ty: MTy::I64, imm: total },
                    Op::Call { func: fi, args: Span { start: old(self).args@.len() as usize, len: 1 }, dst: p, has_result: true },
                    Op::IConst { dst: (old(self).next() + 2) as usize, ty: MTy::I64, imm: nn },
                    Op::Store { val: (old(self).next() + 2) as usize, addr: p, off: 0 },
                    Op::Store { val: (old(self).next() + 2) as usize, addr: p, off: 8 },
                ],
                mid.types@ == old(self).types@ + seq![MTy::I64, decls@[fi as int].rets@[0], MTy::I64],
                mid.args@ == old(self).args@.push(old(self).next()),
                p < self.types@.len(),
                slots_of(mid, args@.subrange(0, i as int)) == Some(sl@),
                self.ops@ == head + element_stores(sl@, p),
        {
            assert(args@.subrange(0, i + 1).drop_last() =~= args@.subrange(0, i as int));
            proof {
                crate::clinst::lemma_slots_len(mid, args@.subrange(0, i as int));
            }
            let v = match self.resolve(args[i]) {
                Ok(v) => v,
                Err(e) => {
                    proof {
                        crate::clinst::lemma_missing_prefix(mid, args@, i as int);
                    }
                    return Err(e);
                },
            };
            let off64: u64 = 16 + (i as u64) * 8;
            let off: i32 = #[verifier::truncate] (off64 as i32);
            self.put(Op::Store { val: v, addr: p, off });
            sl.push(v);
            proof {
                assert(off == element_offset(i as int));
                assert(self.ops@ =~= head + element_stores(sl@, p));
            }
        }
        assert(args@.subrange(0, n as int) =~= args@);
        self.bind(dst, p);
        Ok(())
    }
}

} // verus!
